//! The command-line grammar of the runtime.
//!
//! The surface is one run directive and a help flag. A run command is given
//! as `-r CMD`, `-rCMD`, `--run CMD` or `--run=CMD`; help as `-h` or
//! `--help`; `--` ends option scanning and everything after it is a free
//! argument; other tokens that look like options are invalid. The caller
//! acts only on a returned command: when help is asked for, when no run
//! directive is present, or when the arguments are malformed, it prints
//! usage and performs no container action.

use vstd::prelude::*;
use vstd::string::*;
use crate::strutil::str_eq;

verus! {

/// What one left-to-right scan of the arguments found.
pub struct CliScan {
    /// A help flag was present.
    pub help: bool,
    /// The value of the first run directive, if any.
    pub run: Option<Seq<char>>,
    /// An option was malformed or unknown.
    pub invalid: bool,
}

/// The first run value wins.
pub open spec fn merge_run(a: Option<Seq<char>>, b: Option<Seq<char>>) -> Option<Seq<char>> {
    if a is Some {
        a
    } else {
        b
    }
}

/// Scans the tokens from index `i` on. A `--` token ends the scan; `-h` and
/// `--help` set the help flag; `-r` and `--run` take the following token as
/// the run value, and are invalid without one; `--run=CMD` and `-rCMD`
/// carry their value attached; any other token that starts with `-` (except
/// a bare `-`) is invalid; everything else is a free argument and is
/// ignored.
pub open spec fn spec_scan(toks: Seq<Seq<char>>, i: int) -> CliScan
    decreases toks.len() - i,
{
    if i < 0 || i >= toks.len() {
        CliScan { help: false, run: None, invalid: false }
    } else {
        let t = toks[i];
        if t == "--"@ {
            CliScan { help: false, run: None, invalid: false }
        } else if t == "-h"@ || t == "--help"@ {
            let rest = spec_scan(toks, i + 1);
            CliScan { help: true, ..rest }
        } else if t == "-r"@ || t == "--run"@ {
            if i + 1 < toks.len() {
                let rest = spec_scan(toks, i + 2);
                CliScan { run: merge_run(Some(toks[i + 1]), rest.run), ..rest }
            } else {
                CliScan { help: false, run: None, invalid: true }
            }
        } else if t.len() >= 6 && t.subrange(0, 6) == "--run="@ {
            let rest = spec_scan(toks, i + 1);
            CliScan { run: merge_run(Some(t.subrange(6, t.len() as int)), rest.run), ..rest }
        } else if t.len() > 2 && t[0] == '-' && t[1] == 'r' {
            let rest = spec_scan(toks, i + 1);
            CliScan { run: merge_run(Some(t.subrange(2, t.len() as int)), rest.run), ..rest }
        } else if t.len() >= 2 && t[0] == '-' {
            CliScan { help: false, run: None, invalid: true }
        } else {
            spec_scan(toks, i + 1)
        }
    }
}

/// The command the runtime acts on, given the full argument vector (the
/// first entry is the program name): the first run value, unless the
/// arguments are malformed or help was asked for.
pub open spec fn spec_process_options(argv: Seq<Seq<char>>) -> Option<Seq<char>> {
    let s = spec_scan(argv, 1);
    if s.invalid || s.help {
        None
    } else {
        s.run
    }
}

struct ArgScan {
    help: bool,
    run: Option<String>,
    invalid: bool,
}

fn scan_from(args: &Vec<String>, i: usize) -> (out: ArgScan)
    requires
        i <= args@.len(),
    ensures
        ({
            let m = spec_scan(args.deep_view(), i as int);
            m.help == out.help && m.invalid == out.invalid && m.run == out.run.deep_view()
        }),
    decreases args@.len() - i,
{
    let n = args.len();
    if i >= n {
        return ArgScan { help: false, run: None, invalid: false };
    }
    let t = &args[i];
    let ts = t.as_str();
    proof {
        assert(args.deep_view()[i as int] == args@[i as int]@);
    }
    if str_eq(ts, "--") {
        return ArgScan { help: false, run: None, invalid: false };
    }
    if str_eq(ts, "-h") || str_eq(ts, "--help") {
        let rest = scan_from(args, i + 1);
        return ArgScan { help: true, run: rest.run, invalid: rest.invalid };
    }
    if str_eq(ts, "-r") || str_eq(ts, "--run") {
        if i + 1 < n {
            let val = args[i + 1].clone();
            proof {
                assert(args.deep_view()[i as int + 1] == args@[i as int + 1]@);
            }
            let rest = scan_from(args, i + 2);
            return ArgScan { help: rest.help, run: Some(val), invalid: rest.invalid };
        }
        return ArgScan { help: false, run: None, invalid: true };
    }
    let l: usize = ts.unicode_len();
    if l >= 6 {
        let pre = ts.substring_char(0, 6);
        if str_eq(pre, "--run=") {
            let val = ts.substring_char(6, l).to_owned();
            let rest = scan_from(args, i + 1);
            return ArgScan { help: rest.help, run: Some(val), invalid: rest.invalid };
        }
    }
    if l > 2 && ts.get_char(0) == '-' && ts.get_char(1) == 'r' {
        let val = ts.substring_char(2, l).to_owned();
        let rest = scan_from(args, i + 1);
        return ArgScan { help: rest.help, run: Some(val), invalid: rest.invalid };
    }
    if l >= 2 && ts.get_char(0) == '-' {
        return ArgScan { help: false, run: None, invalid: true };
    }
    scan_from(args, i + 1)
}

/// Scans the full argument vector (whose first entry is the program name)
/// and returns the command to run, or `None` when help was asked for, no
/// run directive was given, or an option was malformed — the cases in which
/// the caller prints usage and runs no container.
pub fn process_options(args: &Vec<String>) -> (r: Option<String>)
    requires
        args@.len() >= 1,
    ensures
        r.deep_view() == spec_process_options(args.deep_view()),
{
    let scan = scan_from(args, 1);
    if scan.invalid || scan.help {
        None
    } else {
        scan.run
    }
}

} // verus!
