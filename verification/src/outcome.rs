//! The driver's failure policy: how each external tool invocation's observed
//! end is classified, which diagnostics are printed, and how the process's
//! final exit code is derived. A formatting failure is never fatal — the
//! merge is still attempted and its exit code still decides; a merge tool
//! that cannot be launched is fatal and yields the sentinel code.

use vstd::prelude::*;

use crate::num::dec_int;
use crate::num::i32_to_dec;

verus! {

/// How launching an external tool ended, as observed by the caller that
/// looked the tool up and spawned it.
#[derive(Clone, Copy, Debug, PartialEq, Eq)]
pub enum ToolObservation {
    /// The executable was not found on the search path.
    NotFound,
    /// The executable is there, but the process could not be spawned.
    LaunchFailed,
    /// The process ran to completion; `code` is its exit code, or `None`
    /// when it was terminated by a signal.
    Exited { code: Option<i32> },
}

/// Why a tool stage failed.
#[derive(Clone, Copy, Debug, PartialEq, Eq)]
pub enum ToolError {
    /// The named executable is absent from the search path.
    ToolNotFound,
    /// The executable is present but the process could not be spawned.
    ToolLaunchFailed,
    /// The process ran and exited unsuccessfully with the given code, or
    /// with none when a signal ended it.
    ToolExecutionFailed { code: Option<i32> },
}

/// The exit code of the whole driver when the merge tool could not be run at
/// all: negative, and so distinguishable from every real merge exit code
/// (0 for a clean merge, a positive conflict count otherwise).
pub const MERGE_UNAVAILABLE_CODE: i32 = -1;

/// What the formatting stage's observation means: success exactly on a zero
/// exit; everything else is an error, to be reported and then discarded.
pub open spec fn formatter_outcome_spec(obs: ToolObservation) -> Result<(), ToolError> {
    match obs {
        ToolObservation::NotFound => Err(ToolError::ToolNotFound),
        ToolObservation::LaunchFailed => Err(ToolError::ToolLaunchFailed),
        ToolObservation::Exited { code } => {
            if code == Some(0i32) {
                Ok(())
            } else {
                Err(ToolError::ToolExecutionFailed { code })
            }
        },
    }
}

/// Classifies the formatting stage's observation, exactly as
/// `formatter_outcome_spec` describes.
pub fn formatter_outcome(obs: &ToolObservation) -> (r: Result<(), ToolError>)
    ensures
        r == formatter_outcome_spec(*obs),
{
    match obs {
        ToolObservation::NotFound => Err(ToolError::ToolNotFound),
        ToolObservation::LaunchFailed => Err(ToolError::ToolLaunchFailed),
        ToolObservation::Exited { code } => {
            match code {
                Some(c) => {
                    if *c == 0 {
                        Ok(())
                    } else {
                        Err(ToolError::ToolExecutionFailed { code: Some(*c) })
                    }
                },
                None => Err(ToolError::ToolExecutionFailed { code: None }),
            }
        },
    }
}

/// What the merge stage's observation means: every exit code of the tool,
/// zero or not, is data and is carried through (`-1` stands in for an exit
/// ended by a signal); only a tool that could not be run at all is an error.
pub open spec fn merge_outcome_spec(obs: ToolObservation) -> Result<i32, ToolError> {
    match obs {
        ToolObservation::NotFound => Err(ToolError::ToolNotFound),
        ToolObservation::LaunchFailed => Err(ToolError::ToolLaunchFailed),
        ToolObservation::Exited { code } => {
            match code {
                Some(c) => Ok(c),
                None => Ok(-1i32),
            }
        },
    }
}

/// Classifies the merge stage's observation, exactly as `merge_outcome_spec`
/// describes.
pub fn merge_outcome(obs: &ToolObservation) -> (r: Result<i32, ToolError>)
    ensures
        r == merge_outcome_spec(*obs),
{
    match obs {
        ToolObservation::NotFound => Err(ToolError::ToolNotFound),
        ToolObservation::LaunchFailed => Err(ToolError::ToolLaunchFailed),
        ToolObservation::Exited { code } => {
            match code {
                Some(c) => Ok(*c),
                None => Ok(-1),
            }
        },
    }
}

/// The process's final exit code, from the outcomes of the two stages: the
/// merge tool's own exit code when it ran, the sentinel when it could not be
/// run; the formatting outcome never takes part.
pub open spec fn exit_code_spec(
    fmt: Result<(), ToolError>,
    merge: Result<i32, ToolError>,
) -> int {
    match merge {
        Ok(c) => c as int,
        Err(_) => MERGE_UNAVAILABLE_CODE as int,
    }
}

/// Derives the process's final exit code, exactly as `exit_code_spec`
/// describes.
pub fn decide_exit(fmt: &Result<(), ToolError>, merge: &Result<i32, ToolError>) -> (code: i32)
    ensures
        code as int == exit_code_spec(*fmt, *merge),
{
    match merge {
        Ok(c) => *c,
        Err(_) => MERGE_UNAVAILABLE_CODE,
    }
}

/// Formatting-failure tolerance: the final exit code never depends on how the
/// formatting stage ended — however the formatter failed, the merge outcome
/// alone decides.
pub proof fn lemma_formatter_never_masks_exit(
    fmt_one: Result<(), ToolError>,
    fmt_two: Result<(), ToolError>,
    merge: Result<i32, ToolError>,
)
    ensures
        exit_code_spec(fmt_one, merge) == exit_code_spec(fmt_two, merge),
{
}

/// A missing or unlaunchable merge tool is fatal: whatever the formatting
/// stage did, the driver exits with the sentinel code, which no completed
/// merge (conflict-free or not) can produce.
pub proof fn lemma_missing_merge_tool_fatal(fmt: Result<(), ToolError>, obs: ToolObservation)
    requires
        obs is NotFound || obs is LaunchFailed,
    ensures
        merge_outcome_spec(obs) is Err,
        exit_code_spec(fmt, merge_outcome_spec(obs)) == MERGE_UNAVAILABLE_CODE as int,
        exit_code_spec(fmt, merge_outcome_spec(obs)) < 0,
{
}

/// A merge tool that ran hands its exit code through unchanged: a clean merge
/// exits with zero, and a conflict count is reported verbatim.
pub proof fn lemma_merge_exit_passed_through(fmt: Result<(), ToolError>, c: i32)
    ensures
        exit_code_spec(fmt, merge_outcome_spec(ToolObservation::Exited { code: Some(c) })) == c as int,
{
}

/// The cause named in a diagnostic, one phrase per error kind.
pub open spec fn tool_error_text_spec(e: ToolError) -> Seq<char> {
    match e {
        ToolError::ToolNotFound => "tool not found on the search path"@,
        ToolError::ToolLaunchFailed => "tool could not be launched"@,
        ToolError::ToolExecutionFailed { code } => {
            match code {
                Some(c) => "tool exited unsuccessfully with code "@ + dec_int(c as int),
                None => "tool was terminated by a signal"@,
            }
        },
    }
}

/// Writes the cause named in a diagnostic, exactly as `tool_error_text_spec`
/// describes.
pub fn tool_error_text(e: &ToolError) -> (s: String)
    ensures
        s@ == tool_error_text_spec(*e),
{
    match e {
        ToolError::ToolNotFound => "tool not found on the search path".to_owned(),
        ToolError::ToolLaunchFailed => "tool could not be launched".to_owned(),
        ToolError::ToolExecutionFailed { code } => {
            match code {
                Some(c) => {
                    "tool exited unsuccessfully with code ".to_owned().concat(
                        i32_to_dec(*c).as_str(),
                    )
                },
                None => "tool was terminated by a signal".to_owned(),
            }
        },
    }
}

/// The diagnostic printed when the formatting stage failed.
pub open spec fn formatter_diagnostic_spec(e: ToolError) -> Seq<char> {
    "Error running rustfmt: "@ + tool_error_text_spec(e)
}

/// Writes the formatting stage's diagnostic line, exactly as
/// `formatter_diagnostic_spec` describes.
pub fn formatter_diagnostic(e: &ToolError) -> (s: String)
    ensures
        s@ == formatter_diagnostic_spec(*e),
{
    "Error running rustfmt: ".to_owned().concat(tool_error_text(e).as_str())
}

/// The diagnostic printed when the merge stage could not be run.
pub open spec fn merge_diagnostic_spec(e: ToolError) -> Seq<char> {
    "Error running git merge-file: "@ + tool_error_text_spec(e)
}

/// Writes the merge stage's diagnostic line, exactly as
/// `merge_diagnostic_spec` describes.
pub fn merge_diagnostic(e: &ToolError) -> (s: String)
    ensures
        s@ == merge_diagnostic_spec(*e),
{
    "Error running git merge-file: ".to_owned().concat(tool_error_text(e).as_str())
}

} // verus!
