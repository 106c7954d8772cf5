use rustfmt_merge_driver::args::{parse_args, ArgError};
use rustfmt_merge_driver::command::{formatter_argv, formatter_program, merge_argv, merge_program};
use rustfmt_merge_driver::num::{i32_to_dec, parse_u64, u64_to_dec};
use rustfmt_merge_driver::outcome::{
    decide_exit, formatter_diagnostic, formatter_outcome, merge_diagnostic, merge_outcome,
    tool_error_text, ToolError, ToolObservation, MERGE_UNAVAILABLE_CODE,
};

fn strings(words: &[&str]) -> Vec<String> {
    words.iter().map(|w| w.to_string()).collect()
}

#[test]
fn parse_three_paths() {
    let argv = strings(&["current.rs", "base.rs", "other.rs"]);
    let args = parse_args(&argv).unwrap();
    assert_eq!(args.current_file, "current.rs");
    assert_eq!(args.base_file, "base.rs");
    assert_eq!(args.other_file, "other.rs");
    assert_eq!(args.marker_size, None);
}

#[test]
fn parse_marker_size_after_paths() {
    let argv = strings(&["current.rs", "base.rs", "other.rs", "--marker-size", "7"]);
    let args = parse_args(&argv).unwrap();
    assert_eq!(args.current_file, "current.rs");
    assert_eq!(args.marker_size, Some(7));
}

#[test]
fn parse_marker_size_before_paths() {
    let argv = strings(&["--marker-size", "12", "current.rs", "base.rs", "other.rs"]);
    let args = parse_args(&argv).unwrap();
    assert_eq!(args.other_file, "other.rs");
    assert_eq!(args.marker_size, Some(12));
}

#[test]
fn parse_largest_marker_size() {
    let argv = strings(&["a", "b", "c", "--marker-size", "18446744073709551615"]);
    let args = parse_args(&argv).unwrap();
    assert_eq!(args.marker_size, Some(u64::MAX));
}

#[test]
fn parse_missing_path() {
    let argv = strings(&["current.rs", "base.rs"]);
    assert_eq!(parse_args(&argv), Err(ArgError::MissingPath));
}

#[test]
fn parse_no_arguments() {
    let argv: Vec<String> = Vec::new();
    assert_eq!(parse_args(&argv), Err(ArgError::MissingPath));
}

#[test]
fn parse_extra_path() {
    let argv = strings(&["a", "b", "c", "d"]);
    assert_eq!(parse_args(&argv), Err(ArgError::ExtraPath));
}

#[test]
fn parse_unknown_option() {
    let argv = strings(&["a", "b", "c", "--frobnicate"]);
    assert_eq!(parse_args(&argv), Err(ArgError::UnknownOption));
}

#[test]
fn parse_missing_marker_value() {
    let argv = strings(&["a", "b", "c", "--marker-size"]);
    assert_eq!(parse_args(&argv), Err(ArgError::MissingMarkerValue));
}

#[test]
fn parse_invalid_marker_value() {
    let argv = strings(&["a", "b", "c", "--marker-size", "wide"]);
    assert_eq!(parse_args(&argv), Err(ArgError::InvalidMarkerValue));
}

#[test]
fn parse_marker_value_out_of_range() {
    let argv = strings(&["a", "b", "c", "--marker-size", "18446744073709551616"]);
    assert_eq!(parse_args(&argv), Err(ArgError::InvalidMarkerValue));
}

#[test]
fn parse_duplicate_marker_size() {
    let argv = strings(&["--marker-size", "1", "--marker-size", "2", "a", "b", "c"]);
    assert_eq!(parse_args(&argv), Err(ArgError::DuplicateMarkerSize));
}

#[test]
fn decimal_notation() {
    assert_eq!(u64_to_dec(0), "0");
    assert_eq!(u64_to_dec(7), "7");
    assert_eq!(u64_to_dec(40), "40");
    assert_eq!(u64_to_dec(1234567890), "1234567890");
    assert_eq!(u64_to_dec(u64::MAX), "18446744073709551615");
}

#[test]
fn signed_decimal_notation() {
    assert_eq!(i32_to_dec(0), "0");
    assert_eq!(i32_to_dec(127), "127");
    assert_eq!(i32_to_dec(-1), "-1");
    assert_eq!(i32_to_dec(i32::MIN), "-2147483648");
}

#[test]
fn decimal_parsing() {
    assert_eq!(parse_u64("0"), Some(0));
    assert_eq!(parse_u64("123"), Some(123));
    assert_eq!(parse_u64("007"), Some(7));
    assert_eq!(parse_u64("18446744073709551615"), Some(u64::MAX));
    assert_eq!(parse_u64(""), None);
    assert_eq!(parse_u64("12a"), None);
    assert_eq!(parse_u64("-3"), None);
    assert_eq!(parse_u64("18446744073709551616"), None);
}

#[test]
fn tool_names() {
    assert_eq!(formatter_program(), "rustfmt");
    assert_eq!(merge_program(), "git");
}

#[test]
fn formatter_gets_the_three_paths_in_order() {
    let argv = strings(&["current.rs", "base.rs", "other.rs"]);
    let args = parse_args(&argv).unwrap();
    assert_eq!(formatter_argv(&args), strings(&["current.rs", "base.rs", "other.rs"]));
}

#[test]
fn merge_command_without_marker_size() {
    let argv = strings(&["current.rs", "base.rs", "other.rs"]);
    let args = parse_args(&argv).unwrap();
    let expected = strings(&[
        "merge-file",
        "-L",
        "current",
        "-L",
        "base",
        "-L",
        "incoming",
        "current.rs",
        "base.rs",
        "other.rs",
    ]);
    assert_eq!(merge_argv(&args), expected);
}

#[test]
fn merge_command_with_marker_size() {
    let argv = strings(&["current.rs", "base.rs", "other.rs", "--marker-size", "7"]);
    let args = parse_args(&argv).unwrap();
    let expected = strings(&[
        "merge-file",
        "-L",
        "current",
        "-L",
        "base",
        "-L",
        "incoming",
        "--marker-size=7",
        "current.rs",
        "base.rs",
        "other.rs",
    ]);
    assert_eq!(merge_argv(&args), expected);
}

#[test]
fn merge_paths_follow_the_command_line_order() {
    let argv = strings(&["--marker-size", "3", "one.rs", "two.rs", "three.rs"]);
    let args = parse_args(&argv).unwrap();
    let merge = merge_argv(&args);
    assert_eq!(&merge[merge.len() - 3..], &strings(&["one.rs", "two.rs", "three.rs"])[..]);
    assert_eq!(formatter_argv(&args), strings(&["one.rs", "two.rs", "three.rs"]));
}

#[test]
fn formatter_outcome_classification() {
    assert_eq!(formatter_outcome(&ToolObservation::Exited { code: Some(0) }), Ok(()));
    assert_eq!(
        formatter_outcome(&ToolObservation::Exited { code: Some(3) }),
        Err(ToolError::ToolExecutionFailed { code: Some(3) })
    );
    assert_eq!(
        formatter_outcome(&ToolObservation::Exited { code: None }),
        Err(ToolError::ToolExecutionFailed { code: None })
    );
    assert_eq!(formatter_outcome(&ToolObservation::NotFound), Err(ToolError::ToolNotFound));
    assert_eq!(formatter_outcome(&ToolObservation::LaunchFailed), Err(ToolError::ToolLaunchFailed));
}

#[test]
fn merge_outcome_classification() {
    assert_eq!(merge_outcome(&ToolObservation::Exited { code: Some(0) }), Ok(0));
    assert_eq!(merge_outcome(&ToolObservation::Exited { code: Some(2) }), Ok(2));
    assert_eq!(merge_outcome(&ToolObservation::Exited { code: None }), Ok(-1));
    assert_eq!(merge_outcome(&ToolObservation::NotFound), Err(ToolError::ToolNotFound));
    assert_eq!(merge_outcome(&ToolObservation::LaunchFailed), Err(ToolError::ToolLaunchFailed));
}

#[test]
fn clean_merge_exit_code_is_zero() {
    let fmt = formatter_outcome(&ToolObservation::Exited { code: Some(0) });
    let merge = merge_outcome(&ToolObservation::Exited { code: Some(0) });
    assert_eq!(decide_exit(&fmt, &merge), 0);
}

#[test]
fn conflict_count_is_passed_through() {
    let fmt = formatter_outcome(&ToolObservation::Exited { code: Some(0) });
    let merge = merge_outcome(&ToolObservation::Exited { code: Some(1) });
    assert_eq!(decide_exit(&fmt, &merge), 1);
}

#[test]
fn formatter_failure_never_masks_the_merge_exit() {
    let merge = merge_outcome(&ToolObservation::Exited { code: Some(2) });
    for fmt_obs in [
        ToolObservation::NotFound,
        ToolObservation::LaunchFailed,
        ToolObservation::Exited { code: Some(1) },
        ToolObservation::Exited { code: None },
        ToolObservation::Exited { code: Some(0) },
    ] {
        let fmt = formatter_outcome(&fmt_obs);
        assert_eq!(decide_exit(&fmt, &merge), 2);
    }
}

#[test]
fn missing_merge_tool_is_fatal() {
    let fmt = formatter_outcome(&ToolObservation::Exited { code: Some(0) });
    let merge = merge_outcome(&ToolObservation::NotFound);
    assert!(merge.is_err());
    assert_eq!(decide_exit(&fmt, &merge), MERGE_UNAVAILABLE_CODE);
    assert!(MERGE_UNAVAILABLE_CODE < 0);
}

#[test]
fn diagnostics_name_stage_and_cause() {
    assert_eq!(
        formatter_diagnostic(&ToolError::ToolNotFound),
        "Error running rustfmt: tool not found on the search path"
    );
    assert_eq!(
        merge_diagnostic(&ToolError::ToolLaunchFailed),
        "Error running git merge-file: tool could not be launched"
    );
    assert_eq!(
        tool_error_text(&ToolError::ToolExecutionFailed { code: Some(101) }),
        "tool exited unsuccessfully with code 101"
    );
    assert_eq!(
        tool_error_text(&ToolError::ToolExecutionFailed { code: None }),
        "tool was terminated by a signal"
    );
}
