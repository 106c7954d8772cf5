//! The driver's invocation parameters and the parser that builds them from
//! the command line: three required file paths (current, base, other) and an
//! optional `--marker-size <N>` flag.

use vstd::prelude::*;

use crate::num::dec_val;
use crate::num::is_dec_u64;
use crate::num::parse_u64;

verus! {

/// The driver's invocation parameters: the three versions of the file under
/// merge, and the optional width of the conflict markers.
#[derive(Debug, PartialEq, Eq)]
pub struct Args {
    /// Path to the current version of the file.
    pub current_file: String,
    /// Path to the common ancestor of the files.
    pub base_file: String,
    /// Path to the incoming version of the file.
    pub other_file: String,
    /// The marker size to use for conflicts.
    pub marker_size: Option<u64>,
}

/// The mathematical content of `Args`.
pub ghost struct ArgsView {
    pub current_file: Seq<char>,
    pub base_file: Seq<char>,
    pub other_file: Seq<char>,
    pub marker_size: Option<u64>,
}

impl View for Args {
    type V = ArgsView;

    open spec fn view(&self) -> ArgsView {
        ArgsView {
            current_file: self.current_file@,
            base_file: self.base_file@,
            other_file: self.other_file@,
            marker_size: self.marker_size,
        }
    }
}

/// Why a command line was rejected.
#[derive(Clone, Copy, Debug, PartialEq, Eq)]
pub enum ArgError {
    /// Fewer than three file paths were given.
    MissingPath,
    /// More than three file paths were given.
    ExtraPath,
    /// An argument starting with `--` is not an option this driver knows.
    UnknownOption,
    /// `--marker-size` came last, with no value after it.
    MissingMarkerValue,
    /// The value after `--marker-size` is not a non-negative integer in range.
    InvalidMarkerValue,
    /// `--marker-size` was given twice.
    DuplicateMarkerSize,
}

/// The option that sets the conflict-marker width.
pub open spec fn marker_size_flag() -> Seq<char> {
    "--marker-size"@
}

/// True when `a` has the shape of a long option rather than a path.
pub open spec fn is_option_like(a: Seq<char>) -> bool {
    a.len() >= 2 && a[0] == '-' && a[1] == '-'
}

/// One left-to-right pass over the command line from position `i`, with the
/// positional arguments and the marker size seen so far.
pub open spec fn parse_rest(
    argv: Seq<Seq<char>>,
    i: int,
    pos: Seq<Seq<char>>,
    marker: Option<u64>,
) -> Result<(Seq<Seq<char>>, Option<u64>), ArgError>
    decreases argv.len() - i,
{
    if i < 0 || i >= argv.len() {
        Ok((pos, marker))
    } else {
        let a = argv[i];
        if a == marker_size_flag() {
            if marker is Some {
                Err(ArgError::DuplicateMarkerSize)
            } else if i + 1 >= argv.len() {
                Err(ArgError::MissingMarkerValue)
            } else if !is_dec_u64(argv[i + 1]) {
                Err(ArgError::InvalidMarkerValue)
            } else {
                parse_rest(argv, i + 2, pos, Some(dec_val(argv[i + 1]) as u64))
            }
        } else if is_option_like(a) {
            Err(ArgError::UnknownOption)
        } else {
            parse_rest(argv, i + 1, pos.push(a), marker)
        }
    }
}

/// What the command line `argv` (without the program name) denotes: the
/// parsed parameters, or the first reason it is rejected.
pub open spec fn parse_spec(argv: Seq<Seq<char>>) -> Result<ArgsView, ArgError> {
    match parse_rest(argv, 0, Seq::empty(), None) {
        Err(e) => Err(e),
        Ok((pos, marker)) => {
            if pos.len() < 3 {
                Err(ArgError::MissingPath)
            } else if pos.len() > 3 {
                Err(ArgError::ExtraPath)
            } else {
                Ok(
                    ArgsView {
                        current_file: pos[0],
                        base_file: pos[1],
                        other_file: pos[2],
                        marker_size: marker,
                    },
                )
            }
        },
    }
}

fn is_option_like_exec(a: &String) -> (r: bool)
    ensures
        r == is_option_like(a@),
{
    let s = a.as_str();
    if s.unicode_len() < 2 {
        return false;
    }
    s.get_char(0) == '-' && s.get_char(1) == '-'
}

/// Parses the command line (without the program name) into the driver's
/// parameters, exactly as `parse_spec` describes.
pub fn parse_args(argv: &Vec<String>) -> (r: Result<Args, ArgError>)
    ensures
        match r {
            Ok(a) => parse_spec(argv.deep_view()) == Ok::<ArgsView, ArgError>(a@),
            Err(e) => parse_spec(argv.deep_view()) == Err::<ArgsView, ArgError>(e),
        },
{
    let flag: String = "--marker-size".to_owned();
    let n = argv.len();
    let mut pos: Vec<String> = Vec::new();
    let mut marker: Option<u64> = None;
    let mut i: usize = 0;
    proof {
        assert(pos.deep_view() =~= Seq::<Seq<char>>::empty());
    }
    while i < n
        invariant
            i <= n,
            n == argv.len(),
            flag@ == marker_size_flag(),
            parse_rest(argv.deep_view(), 0, Seq::empty(), None) == parse_rest(
                argv.deep_view(),
                i as int,
                pos.deep_view(),
                marker,
            ),
        decreases n - i,
    {
        let a = &argv[i];
        proof {
            assert(argv.deep_view()[i as int] == a@);
        }
        if *a == flag {
            match marker {
                Some(_) => {
                    return Err(ArgError::DuplicateMarkerSize);
                },
                None => {
                    if i + 1 >= n {
                        return Err(ArgError::MissingMarkerValue);
                    }
                    let value = &argv[i + 1];
                    proof {
                        assert(argv.deep_view()[i + 1] == value@);
                    }
                    match parse_u64(value.as_str()) {
                        None => {
                            return Err(ArgError::InvalidMarkerValue);
                        },
                        Some(v) => {
                            marker = Some(v);
                            i = i + 2;
                        },
                    }
                },
            }
        } else if is_option_like_exec(a) {
            return Err(ArgError::UnknownOption);
        } else {
            let ghost old_pos = pos.deep_view();
            pos.push(a.clone());
            proof {
                assert(pos.deep_view() =~= old_pos.push(a@));
            }
            i = i + 1;
        }
    }
    if pos.len() < 3 {
        return Err(ArgError::MissingPath);
    }
    if pos.len() > 3 {
        return Err(ArgError::ExtraPath);
    }
    let args = Args {
        current_file: pos[0].clone(),
        base_file: pos[1].clone(),
        other_file: pos[2].clone(),
        marker_size: marker,
    };
    proof {
        assert(pos.deep_view().len() == 3);
    }
    Ok(args)
}

/// The reason given for each rejected command line, one phrase per error.
pub open spec fn arg_error_text_spec(e: ArgError) -> Seq<char> {
    match e {
        ArgError::MissingPath => "three file paths are required: current, base, other"@,
        ArgError::ExtraPath => "more than three file paths were given"@,
        ArgError::UnknownOption => "unknown option"@,
        ArgError::MissingMarkerValue => "--marker-size needs a value"@,
        ArgError::InvalidMarkerValue => "--marker-size needs a non-negative integer"@,
        ArgError::DuplicateMarkerSize => "--marker-size was given twice"@,
    }
}

/// Writes the reason a command line was rejected, exactly as
/// `arg_error_text_spec` describes.
pub fn arg_error_text(e: &ArgError) -> (s: String)
    ensures
        s@ == arg_error_text_spec(*e),
{
    match e {
        ArgError::MissingPath => "three file paths are required: current, base, other".to_owned(),
        ArgError::ExtraPath => "more than three file paths were given".to_owned(),
        ArgError::UnknownOption => "unknown option".to_owned(),
        ArgError::MissingMarkerValue => "--marker-size needs a value".to_owned(),
        ArgError::InvalidMarkerValue => "--marker-size needs a non-negative integer".to_owned(),
        ArgError::DuplicateMarkerSize => "--marker-size was given twice".to_owned(),
    }
}

proof fn lemma_parse_rest_paths_not_options(
    argv: Seq<Seq<char>>,
    i: int,
    pos: Seq<Seq<char>>,
    marker: Option<u64>,
)
    requires
        parse_rest(argv, i, pos, marker) is Ok,
        forall|k: int| 0 <= k < pos.len() ==> !is_option_like(#[trigger] pos[k]),
    ensures
        forall|k: int|
            0 <= k < parse_rest(argv, i, pos, marker)->Ok_0.0.len() ==> !is_option_like(
                #[trigger] parse_rest(argv, i, pos, marker)->Ok_0.0[k],
            ),
    decreases argv.len() - i,
{
    if i < 0 || i >= argv.len() {
    } else {
        let a = argv[i];
        if a == marker_size_flag() {
            lemma_parse_rest_paths_not_options(argv, i + 2, pos, Some(dec_val(argv[i + 1]) as u64));
        } else if is_option_like(a) {
        } else {
            assert(forall|k: int|
                0 <= k < pos.push(a).len() ==> !is_option_like(#[trigger] pos.push(a)[k]));
            lemma_parse_rest_paths_not_options(argv, i + 1, pos.push(a), marker);
        }
    }
}

/// The positional arguments of the command line from position `i` on, in
/// their command-line order: every argument that is neither the marker-size
/// flag, nor its value, nor written like an option.
pub open spec fn positionals_from(argv: Seq<Seq<char>>, i: int) -> Seq<Seq<char>>
    decreases argv.len() - i,
{
    if i < 0 || i >= argv.len() {
        Seq::empty()
    } else if argv[i] == marker_size_flag() {
        if i + 1 >= argv.len() {
            Seq::empty()
        } else {
            positionals_from(argv, i + 2)
        }
    } else if is_option_like(argv[i]) {
        Seq::empty()
    } else {
        seq![argv[i]] + positionals_from(argv, i + 1)
    }
}

proof fn lemma_parse_rest_positionals(
    argv: Seq<Seq<char>>,
    i: int,
    pos: Seq<Seq<char>>,
    marker: Option<u64>,
)
    requires
        parse_rest(argv, i, pos, marker) is Ok,
    ensures
        parse_rest(argv, i, pos, marker)->Ok_0.0 =~= pos + positionals_from(argv, i),
    decreases argv.len() - i,
{
    if i < 0 || i >= argv.len() {
        assert(pos + positionals_from(argv, i) =~= pos);
    } else {
        let a = argv[i];
        if a == marker_size_flag() {
            lemma_parse_rest_positionals(argv, i + 2, pos, Some(dec_val(argv[i + 1]) as u64));
        } else if is_option_like(a) {
        } else {
            lemma_parse_rest_positionals(argv, i + 1, pos.push(a), marker);
            assert(pos.push(a) + positionals_from(argv, i + 1) =~= pos + (seq![a]
                + positionals_from(argv, i + 1)));
        }
    }
}

/// Path invariance at the parser: an accepted command line yields exactly its
/// three positional arguments as the current, base and other paths, in their
/// command-line order.
pub proof fn lemma_paths_are_the_positionals(argv: Seq<Seq<char>>)
    requires
        parse_spec(argv) is Ok,
    ensures
        seq![
            parse_spec(argv)->Ok_0.current_file,
            parse_spec(argv)->Ok_0.base_file,
            parse_spec(argv)->Ok_0.other_file,
        ] =~= positionals_from(argv, 0),
{
    lemma_parse_rest_positionals(argv, 0, Seq::empty(), None);
    let pos = parse_rest(argv, 0, Seq::empty(), None)->Ok_0.0;
    assert(Seq::<Seq<char>>::empty() + positionals_from(argv, 0) =~= positionals_from(argv, 0));
    assert(seq![pos[0], pos[1], pos[2]] =~= pos);
}

/// An accepted command line never yields a file path that has the shape of an
/// option: every path handed on to the tools came from a positional argument.
pub proof fn lemma_parsed_paths_not_options(argv: Seq<Seq<char>>)
    requires
        parse_spec(argv) is Ok,
    ensures
        !is_option_like(parse_spec(argv)->Ok_0.current_file),
        !is_option_like(parse_spec(argv)->Ok_0.base_file),
        !is_option_like(parse_spec(argv)->Ok_0.other_file),
{
    lemma_parse_rest_paths_not_options(argv, 0, Seq::empty(), None);
}

} // verus!
