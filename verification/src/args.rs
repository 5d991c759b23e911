//! The argument resolver: turns a raw argument list (the command line after
//! the program name) into a validated [`Config`], a request for the usage or
//! version text, or a usage error.
//!
//! The grammar: an argument is an operand (a path, `-`, or the empty string)
//! unless it begins with `-`; the recognized options are `-n`/`--number`,
//! `-b`/`--number-nonblank`, `-h`/`--help` and `-V`/`--version`; any other
//! argument beginning with `-` is an unknown option. A help request wins
//! over everything, then a version request, then the first unknown option,
//! then the conflict of the two numbering flags; only then does parsing
//! yield a configuration.
use vstd::prelude::*;
use vstd::string::StrSliceExecFns;
use vstd::string::StringExecFns;

use crate::Config;
use crate::strutil::str_eq;

verus! {

/// The argument turns on numbering of every line.
pub open spec fn is_number_flag(a: Seq<char>) -> bool {
    a == "-n"@ || a == "--number"@
}

/// The argument turns on numbering of non-blank lines.
pub open spec fn is_nonblank_flag(a: Seq<char>) -> bool {
    a == "-b"@ || a == "--number-nonblank"@
}

/// The argument asks for the usage text.
pub open spec fn is_help_flag(a: Seq<char>) -> bool {
    a == "-h"@ || a == "--help"@
}

/// The argument asks for the version.
pub open spec fn is_version_flag(a: Seq<char>) -> bool {
    a == "-V"@ || a == "--version"@
}

/// The argument names an input: it is `-`, empty, or does not begin
/// with `-`.
pub open spec fn is_operand(a: Seq<char>) -> bool {
    a == "-"@ || a.len() == 0 || a[0] != '-'
}

/// The argument looks like an option but is none of the recognized ones.
pub open spec fn is_unknown_option(a: Seq<char>) -> bool {
    &&& !is_operand(a)
    &&& !is_number_flag(a)
    &&& !is_nonblank_flag(a)
    &&& !is_help_flag(a)
    &&& !is_version_flag(a)
}

/// Some argument turns on numbering of every line.
pub open spec fn has_number_flag(args: Seq<Seq<char>>) -> bool {
    exists|i: int| 0 <= i < args.len() && is_number_flag(args[i])
}

/// Some argument turns on numbering of non-blank lines.
pub open spec fn has_nonblank_flag(args: Seq<Seq<char>>) -> bool {
    exists|i: int| 0 <= i < args.len() && is_nonblank_flag(args[i])
}

/// Some argument asks for the usage text.
pub open spec fn has_help_flag(args: Seq<Seq<char>>) -> bool {
    exists|i: int| 0 <= i < args.len() && is_help_flag(args[i])
}

/// Some argument asks for the version.
pub open spec fn has_version_flag(args: Seq<Seq<char>>) -> bool {
    exists|i: int| 0 <= i < args.len() && is_version_flag(args[i])
}

/// Some argument looks like an option but is none of the recognized ones.
pub open spec fn has_unknown_option(args: Seq<Seq<char>>) -> bool {
    exists|i: int| 0 <= i < args.len() && is_unknown_option(args[i])
}

/// `u` is the first unknown option of the argument list.
pub open spec fn first_unknown_option(args: Seq<Seq<char>>, u: Seq<char>) -> bool {
    exists|i: int|
        0 <= i < args.len() && is_unknown_option(args[i]) && u == args[i] && (forall|j: int|
            0 <= j < i ==> !is_unknown_option(args[j]))
}

/// The operands of the argument list, in order.
pub open spec fn operand_seq(args: Seq<Seq<char>>) -> Seq<Seq<char>>
    decreases args.len(),
{
    if args.len() == 0 {
        Seq::empty()
    } else if is_operand(args.last()) {
        operand_seq(args.drop_last()).push(args.last())
    } else {
        operand_seq(args.drop_last())
    }
}

/// The inputs a configuration gets from the argument list: its operands,
/// or standard input alone when there are none.
pub open spec fn config_files(args: Seq<Seq<char>>) -> Seq<Seq<char>> {
    if operand_seq(args).len() == 0 {
        seq!["-"@]
    } else {
        operand_seq(args)
    }
}

/// A parsed command line that does not run: the caller should print the
/// usage or the version text and stop with success.
pub enum InfoRequest {
    Help,
    Version,
}

/// A command line the resolver rejects.
pub enum UsageError {
    /// Both numbering flags were given; they are mutually exclusive.
    ConflictingFlags,
    /// An argument began with `-` but is no recognized option; the first
    /// such argument is carried along.
    UnknownOption(String),
}

/// What a command line resolves to: a configuration to run, an
/// informational request, or a usage error.
pub enum ParsedArgs {
    Run(Config),
    Info(InfoRequest),
}

/// Decide whether `s` is an operand.
fn is_operand_exec(s: &str) -> (r: bool)
    ensures
        r == is_operand(s@),
{
    if str_eq(s, "-") {
        return true;
    }
    let n = s.unicode_len();
    if n == 0 {
        true
    } else {
        s.get_char(0) != '-'
    }
}

/// Resolve a raw argument list (everything after the program name).
///
/// A help request wins over everything, then a version request, then the
/// first unknown option, then the flag conflict; otherwise the result is a
/// configuration holding the operands in order (or `-` alone when there are
/// none) and the numbering flags that occurred.
pub fn parse_args(args: &Vec<String>) -> (r: Result<ParsedArgs, UsageError>)
    ensures
        (r matches Ok(ParsedArgs::Info(InfoRequest::Help))) <==> has_help_flag(args.deep_view()),
        (r matches Ok(ParsedArgs::Info(InfoRequest::Version))) <==> (!has_help_flag(
            args.deep_view(),
        ) && has_version_flag(args.deep_view())),
        (r matches Err(UsageError::UnknownOption(_))) <==> (!has_help_flag(args.deep_view())
            && !has_version_flag(args.deep_view()) && has_unknown_option(args.deep_view())),
        r matches Err(UsageError::UnknownOption(u)) ==> first_unknown_option(
            args.deep_view(),
            u@,
        ),
        (r matches Err(UsageError::ConflictingFlags)) <==> (!has_help_flag(args.deep_view())
            && !has_version_flag(args.deep_view()) && !has_unknown_option(args.deep_view())
            && has_number_flag(args.deep_view()) && has_nonblank_flag(args.deep_view())),
        r matches Ok(ParsedArgs::Run(c)) ==> {
            &&& c.files.deep_view() == config_files(args.deep_view())
            &&& c.number_lines == has_number_flag(args.deep_view())
            &&& c.number_nonblank_lines == has_nonblank_flag(args.deep_view())
            &&& c.wf()
        },
        (r matches Ok(ParsedArgs::Run(_))) <==> (!has_help_flag(args.deep_view())
            && !has_version_flag(args.deep_view()) && !has_unknown_option(args.deep_view()) && !(
        has_number_flag(args.deep_view()) && has_nonblank_flag(args.deep_view()))),
{
    let ghost a: Seq<Seq<char>> = args.deep_view();
    let mut seen_n = false;
    let mut seen_b = false;
    let mut seen_h = false;
    let mut seen_v = false;
    let mut unknown: Option<String> = None;
    let mut ops: Vec<String> = Vec::new();
    let mut i: usize = 0;
    while i < args.len()
        invariant
            i <= args.len(),
            a == args.deep_view(),
            a.len() == args@.len(),
            forall|j: int| 0 <= j < a.len() ==> a[j] == args@[j]@,
            seen_n == exists|j: int| 0 <= j < i && is_number_flag(a[j]),
            seen_b == exists|j: int| 0 <= j < i && is_nonblank_flag(a[j]),
            seen_h == exists|j: int| 0 <= j < i && is_help_flag(a[j]),
            seen_v == exists|j: int| 0 <= j < i && is_version_flag(a[j]),
            unknown is None ==> forall|j: int| 0 <= j < i ==> !is_unknown_option(a[j]),
            unknown matches Some(u) ==> exists|j: int|
                0 <= j < i && is_unknown_option(a[j]) && u@ == a[j] && (forall|j2: int|
                    0 <= j2 < j ==> !is_unknown_option(a[j2])),
            ops.deep_view() == operand_seq(a.subrange(0, i as int)),
        decreases args.len() - i,
    {
        let arg: &String = &args[i];
        let s = arg.as_str();
        proof {
            reveal_strlit("-n");
            reveal_strlit("--number");
            reveal_strlit("-b");
            reveal_strlit("--number-nonblank");
            reveal_strlit("-h");
            reveal_strlit("--help");
            reveal_strlit("-V");
            reveal_strlit("--version");
            reveal_strlit("-");
            assert(a.subrange(0, (i + 1) as int).drop_last() =~= a.subrange(0, i as int));
            assert(a.subrange(0, (i + 1) as int).last() == a[i as int]);
        }
        let n_flag = str_eq(s, "-n") || str_eq(s, "--number");
        let b_flag = str_eq(s, "-b") || str_eq(s, "--number-nonblank");
        let h_flag = str_eq(s, "-h") || str_eq(s, "--help");
        let v_flag = str_eq(s, "-V") || str_eq(s, "--version");
        if n_flag {
            seen_n = true;
        }
        if b_flag {
            seen_b = true;
        }
        if h_flag {
            seen_h = true;
        }
        if v_flag {
            seen_v = true;
        }
        if n_flag || b_flag || h_flag || v_flag {
            proof {
                assert(!is_operand(a[i as int]));
                assert(ops.deep_view() =~= operand_seq(a.subrange(0, (i + 1) as int)));
            }
        } else if is_operand_exec(s) {
            ops.push(arg.clone());
            proof {
                assert(ops.deep_view() =~= operand_seq(a.subrange(0, (i + 1) as int)));
            }
        } else if unknown.is_none() {
            unknown = Some(arg.clone());
        }
        i += 1;
    }
    proof {
        assert(a.subrange(0, args@.len() as int) =~= a);
    }
    if seen_h {
        return Ok(ParsedArgs::Info(InfoRequest::Help));
    }
    if seen_v {
        return Ok(ParsedArgs::Info(InfoRequest::Version));
    }
    match unknown {
        Some(u) => {
            return Err(UsageError::UnknownOption(u));
        },
        None => {},
    }
    if seen_n && seen_b {
        return Err(UsageError::ConflictingFlags);
    }
    let files: Vec<String> = if ops.len() == 0 {
        let mut v: Vec<String> = Vec::new();
        v.push(String::from_str("-"));
        proof {
            assert(v.deep_view() =~= seq!["-"@]);
        }
        v
    } else {
        ops
    };
    let c = Config { files, number_lines: seen_n, number_nonblank_lines: seen_b };
    Ok(ParsedArgs::Run(c))
}

} // verus!
