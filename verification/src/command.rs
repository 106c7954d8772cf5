//! The exact command lines the driver hands to its two external tools: the
//! formatter, invoked over the three file versions, and the merge tool,
//! invoked with the role labels, the optional marker-size flag, and the same
//! three paths.

use vstd::prelude::*;

use crate::args::is_option_like;
use crate::args::parse_spec;
use crate::args::Args;
use crate::args::ArgsView;
use crate::num::dec_digits;
use crate::num::dec_val;
use crate::num::lemma_dec_digits_wf;
use crate::num::lemma_dec_round_trip;
use crate::num::u64_to_dec;

verus! {

/// Name of the formatter executable looked up on the search path.
pub fn formatter_program() -> (s: String)
    ensures
        s@ == "rustfmt"@,
{
    "rustfmt".to_owned()
}

/// Name of the merge executable looked up on the search path.
pub fn merge_program() -> (s: String)
    ensures
        s@ == "git"@,
{
    "git".to_owned()
}

/// Arguments handed to the formatter: the three paths, current, base, other,
/// each to be reformatted in place.
pub open spec fn formatter_argv_spec(a: ArgsView) -> Seq<Seq<char>> {
    seq![a.current_file, a.base_file, a.other_file]
}

/// The fixed head of every merge invocation: the subcommand selecting the
/// three-way merge, and the role labels for current, base and incoming.
pub open spec fn merge_label_args() -> Seq<Seq<char>> {
    seq!["merge-file"@, "-L"@, "current"@, "-L"@, "base"@, "-L"@, "incoming"@]
}

/// The flag that sets the conflict-marker width to `n`.
pub open spec fn marker_flag_arg(n: u64) -> Seq<char> {
    "--marker-size="@ + dec_digits(n as nat)
}

/// Arguments handed to the merge tool: the fixed head, the marker-size flag
/// when one was given, then the three paths in the order current, base, other.
pub open spec fn merge_argv_spec(a: ArgsView) -> Seq<Seq<char>> {
    merge_label_args() + (match a.marker_size {
        Some(n) => seq![marker_flag_arg(n)],
        None => Seq::<Seq<char>>::empty(),
    }) + formatter_argv_spec(a)
}

/// Builds the formatter's argument vector.
pub fn formatter_argv(args: &Args) -> (argv: Vec<String>)
    ensures
        argv.deep_view() == formatter_argv_spec(args@),
{
    let mut v: Vec<String> = Vec::new();
    v.push(args.current_file.clone());
    v.push(args.base_file.clone());
    v.push(args.other_file.clone());
    proof {
        assert(v.deep_view() =~= formatter_argv_spec(args@));
    }
    v
}

/// Builds the merge tool's argument vector.
pub fn merge_argv(args: &Args) -> (argv: Vec<String>)
    ensures
        argv.deep_view() == merge_argv_spec(args@),
{
    let mut v: Vec<String> = Vec::new();
    v.push("merge-file".to_owned());
    v.push("-L".to_owned());
    v.push("current".to_owned());
    v.push("-L".to_owned());
    v.push("base".to_owned());
    v.push("-L".to_owned());
    v.push("incoming".to_owned());
    if let Some(n) = args.marker_size {
        let flag = "--marker-size=".to_owned().concat(u64_to_dec(n).as_str());
        v.push(flag);
    }
    v.push(args.current_file.clone());
    v.push(args.base_file.clone());
    v.push(args.other_file.clone());
    proof {
        assert(v.deep_view() =~= merge_argv_spec(args@));
    }
    v
}

/// Path invariance: the formatter and the merge tool both receive exactly the
/// three paths of the invocation, in the order current, base, other, the
/// merge tool's standing last on its command line.
pub proof fn lemma_path_invariance(a: ArgsView)
    ensures
        formatter_argv_spec(a) == seq![a.current_file, a.base_file, a.other_file],
        merge_argv_spec(a).len() >= 3,
        merge_argv_spec(a).subrange(
            merge_argv_spec(a).len() - 3,
            merge_argv_spec(a).len() as int,
        ) =~= formatter_argv_spec(a),
{
}

/// Path invariance, end to end: for an accepted command line, both tools are
/// invoked on exactly the positional (path) arguments it gave, in their
/// command-line order.
pub proof fn lemma_path_invariance_end_to_end(argv: Seq<Seq<char>>, a: ArgsView)
    requires
        parse_spec(argv) == Ok::<ArgsView, crate::args::ArgError>(a),
    ensures
        formatter_argv_spec(a) =~= crate::args::positionals_from(argv, 0),
        merge_argv_spec(a).subrange(
            merge_argv_spec(a).len() - 3,
            merge_argv_spec(a).len() as int,
        ) =~= crate::args::positionals_from(argv, 0),
{
    crate::args::lemma_paths_are_the_positionals(argv);
    lemma_path_invariance(a);
}

/// Label invariance: whatever the invocation's parameters, the merge tool is
/// invoked with the same head — the three role labels current, base and
/// incoming, in that order, each after an `-L`.
pub proof fn lemma_label_invariance(a: ArgsView, b: ArgsView)
    ensures
        merge_argv_spec(a).subrange(0, 7) =~= merge_label_args(),
        merge_argv_spec(a).subrange(0, 7) =~= merge_argv_spec(b).subrange(0, 7),
        merge_label_args()[2] == "current"@,
        merge_label_args()[4] == "base"@,
        merge_label_args()[6] == "incoming"@,
{
}

/// True when `s` carries the merge tool's marker-size flag.
pub open spec fn has_marker_flag(s: Seq<char>) -> bool {
    s.len() >= 14 && s.subrange(0, 14) == "--marker-size="@
}

/// Marker-size pass-through, given: with a marker size `n`, the merge command
/// line holds exactly one extra argument, the marker-size flag, whose numeral
/// denotes `n` itself.
pub proof fn lemma_marker_size_given(a: ArgsView, n: u64)
    requires
        a.marker_size == Some(n),
    ensures
        merge_argv_spec(a).len() == 11,
        merge_argv_spec(a)[7] == marker_flag_arg(n),
        has_marker_flag(marker_flag_arg(n)),
        dec_val(marker_flag_arg(n).skip(14)) == n as nat,
{
    reveal_strlit("--marker-size=");
    lemma_dec_digits_wf(n as nat);
    lemma_dec_round_trip(n as nat);
    assert(marker_flag_arg(n).subrange(0, 14) =~= "--marker-size="@);
    assert(marker_flag_arg(n).skip(14) =~= dec_digits(n as nat));
}

/// Marker-size pass-through, omitted: without a marker size, the merge
/// command line is the fixed head followed by the three paths alone, and no
/// argument carries the marker-size flag, as long as no path itself is
/// written like an option.
pub proof fn lemma_marker_size_omitted(a: ArgsView)
    requires
        a.marker_size is None,
        !is_option_like(a.current_file),
        !is_option_like(a.base_file),
        !is_option_like(a.other_file),
    ensures
        merge_argv_spec(a).len() == 10,
        merge_argv_spec(a) =~= merge_label_args() + formatter_argv_spec(a),
        forall|i: int| 0 <= i < 10 ==> !has_marker_flag(#[trigger] merge_argv_spec(a)[i]),
{
    reveal_strlit("--marker-size=");
    reveal_strlit("merge-file");
    reveal_strlit("-L");
    reveal_strlit("current");
    reveal_strlit("base");
    reveal_strlit("incoming");
    assert forall|i: int| 0 <= i < 10 implies !has_marker_flag(#[trigger] merge_argv_spec(a)[i]) by {
        let s = merge_argv_spec(a)[i];
        if has_marker_flag(s) {
            assert(s[0] == "--marker-size="@[0] && s[1] == "--marker-size="@[1]);
            assert(is_option_like(s));
        }
    }
}

/// Marker-size pass-through, end to end: an accepted command line without
/// `--marker-size` leads to a merge invocation in which no argument carries
/// the flag.
pub proof fn lemma_marker_size_omitted_end_to_end(argv: Seq<Seq<char>>, a: ArgsView)
    requires
        parse_spec(argv) == Ok::<ArgsView, crate::args::ArgError>(a),
        a.marker_size is None,
    ensures
        merge_argv_spec(a).len() == 10,
        forall|i: int| 0 <= i < 10 ==> !has_marker_flag(#[trigger] merge_argv_spec(a)[i]),
{
    crate::args::lemma_parsed_paths_not_options(argv);
    lemma_marker_size_omitted(a);
}

} // verus!
