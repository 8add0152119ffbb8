//! The resolved run configuration, and the command-line grammar that
//! produces it. The grammar: the first token is the program name; then
//! `--src`/`-s`, `--dst`/`-d`, `--log`/`-l` and `--mode`/`-m` each take a
//! non-empty value (as the next token, after `=`, or attached to the short
//! form), `--mode` only `copy` or `move`; `--dry_run`/`-t` and
//! `--verbose`/`-v` are flags; no option may be given twice; `--src` and
//! `--dst` are required; anything else is rejected.

use crate::pserror::{PsError, PsErrorKind};
use crate::strutil::{starts_with, str_eq, str_starts_with};
use vstd::prelude::*;
use vstd::string::StrSliceExecFns;
use vstd::string::StringExecFns;

verus! {

broadcast use vstd::string::group_string_axioms;

/// The resolved configuration the pipeline runs under.
#[derive(Debug, PartialEq, Eq)]
pub struct Config {
    pub source: String,
    pub destination: String,
    pub logfile: Option<String>,
    pub dry_run: bool,
    pub copy: bool,
}

/// Parser state: what has been collected from the tokens so far.
pub struct ArgState {
    pub src: Option<Seq<char>>,
    pub dst: Option<Seq<char>>,
    pub log: Option<Seq<char>>,
    pub mode_copy: Option<bool>,
    pub dry_run: bool,
    pub verbose: bool,
}

pub open spec fn lit_src_long() -> Seq<char> {
    seq!['-', '-', 's', 'r', 'c']
}

pub open spec fn lit_src_eq() -> Seq<char> {
    seq!['-', '-', 's', 'r', 'c', '=']
}

pub open spec fn lit_s() -> Seq<char> {
    seq!['-', 's']
}

pub open spec fn lit_dst_long() -> Seq<char> {
    seq!['-', '-', 'd', 's', 't']
}

pub open spec fn lit_dst_eq() -> Seq<char> {
    seq!['-', '-', 'd', 's', 't', '=']
}

pub open spec fn lit_d() -> Seq<char> {
    seq!['-', 'd']
}

pub open spec fn lit_log_long() -> Seq<char> {
    seq!['-', '-', 'l', 'o', 'g']
}

pub open spec fn lit_log_eq() -> Seq<char> {
    seq!['-', '-', 'l', 'o', 'g', '=']
}

pub open spec fn lit_l() -> Seq<char> {
    seq!['-', 'l']
}

pub open spec fn lit_mode_long() -> Seq<char> {
    seq!['-', '-', 'm', 'o', 'd', 'e']
}

pub open spec fn lit_mode_eq() -> Seq<char> {
    seq!['-', '-', 'm', 'o', 'd', 'e', '=']
}

pub open spec fn lit_m() -> Seq<char> {
    seq!['-', 'm']
}

pub open spec fn lit_dry_run() -> Seq<char> {
    seq!['-', '-', 'd', 'r', 'y', '_', 'r', 'u', 'n']
}

pub open spec fn lit_t() -> Seq<char> {
    seq!['-', 't']
}

pub open spec fn lit_verbose() -> Seq<char> {
    seq!['-', '-', 'v', 'e', 'r', 'b', 'o', 's', 'e']
}

pub open spec fn lit_v() -> Seq<char> {
    seq!['-', 'v']
}

pub open spec fn lit_copy() -> Seq<char> {
    seq!['c', 'o', 'p', 'y']
}

pub open spec fn lit_move() -> Seq<char> {
    seq!['m', 'o', 'v', 'e']
}

/// The mode value `copy` or `move`, as the `copy` flag; anything else is a
/// rejected value.
pub open spec fn mode_of(v: Seq<char>) -> Option<bool> {
    if v == lit_copy() {
        Some(true)
    } else if v == lit_move() {
        Some(false)
    } else {
        None
    }
}

/// One pass over the tokens from index `i` on, collecting into `st`; `None`
/// is a rejected command line.
pub open spec fn parse_step(st: ArgState, args: Seq<Seq<char>>, i: int) -> Option<ArgState>
    decreases args.len() - i,
{
    if i >= args.len() {
        Some(st)
    } else {
        let t = args[i];
        if t == lit_src_long() || t == lit_s() {
            if i + 1 >= args.len() || st.src is Some || args[i + 1].len() == 0 {
                None
            } else {
                parse_step(ArgState { src: Some(args[i + 1]), ..st }, args, i + 2)
            }
        } else if starts_with(t, lit_src_eq()) {
            if t.skip(6).len() == 0 || st.src is Some {
                None
            } else {
                parse_step(ArgState { src: Some(t.skip(6)), ..st }, args, i + 1)
            }
        } else if starts_with(t, lit_s()) && t.len() > 2 {
            if st.src is Some {
                None
            } else {
                parse_step(ArgState { src: Some(t.skip(2)), ..st }, args, i + 1)
            }
        } else if t == lit_dst_long() || t == lit_d() {
            if i + 1 >= args.len() || st.dst is Some || args[i + 1].len() == 0 {
                None
            } else {
                parse_step(ArgState { dst: Some(args[i + 1]), ..st }, args, i + 2)
            }
        } else if starts_with(t, lit_dst_eq()) {
            if t.skip(6).len() == 0 || st.dst is Some {
                None
            } else {
                parse_step(ArgState { dst: Some(t.skip(6)), ..st }, args, i + 1)
            }
        } else if starts_with(t, lit_d()) && t.len() > 2 {
            if st.dst is Some {
                None
            } else {
                parse_step(ArgState { dst: Some(t.skip(2)), ..st }, args, i + 1)
            }
        } else if t == lit_log_long() || t == lit_l() {
            if i + 1 >= args.len() || st.log is Some || args[i + 1].len() == 0 {
                None
            } else {
                parse_step(ArgState { log: Some(args[i + 1]), ..st }, args, i + 2)
            }
        } else if starts_with(t, lit_log_eq()) {
            if t.skip(6).len() == 0 || st.log is Some {
                None
            } else {
                parse_step(ArgState { log: Some(t.skip(6)), ..st }, args, i + 1)
            }
        } else if starts_with(t, lit_l()) && t.len() > 2 {
            if st.log is Some {
                None
            } else {
                parse_step(ArgState { log: Some(t.skip(2)), ..st }, args, i + 1)
            }
        } else if t == lit_mode_long() || t == lit_m() {
            if i + 1 >= args.len() || st.mode_copy is Some || args[i + 1].len() == 0 {
                None
            } else {
                match mode_of(args[i + 1]) {
                    Some(c) => parse_step(ArgState { mode_copy: Some(c), ..st }, args, i + 2),
                    None => None,
                }
            }
        } else if starts_with(t, lit_mode_eq()) {
            if st.mode_copy is Some {
                None
            } else {
                match mode_of(t.skip(7)) {
                    Some(c) => parse_step(ArgState { mode_copy: Some(c), ..st }, args, i + 1),
                    None => None,
                }
            }
        } else if starts_with(t, lit_m()) && t.len() > 2 {
            if st.mode_copy is Some {
                None
            } else {
                match mode_of(t.skip(2)) {
                    Some(c) => parse_step(ArgState { mode_copy: Some(c), ..st }, args, i + 1),
                    None => None,
                }
            }
        } else if t == lit_dry_run() || t == lit_t() {
            if st.dry_run {
                None
            } else {
                parse_step(ArgState { dry_run: true, ..st }, args, i + 1)
            }
        } else if t == lit_verbose() || t == lit_v() {
            if st.verbose {
                None
            } else {
                parse_step(ArgState { verbose: true, ..st }, args, i + 1)
            }
        } else {
            None
        }
    }
}

pub open spec fn init_state() -> ArgState {
    ArgState { src: None, dst: None, log: None, mode_copy: None, dry_run: false, verbose: false }
}

/// The views of the given tokens.
pub open spec fn views_of(vs: Seq<&str>) -> Seq<Seq<char>> {
    Seq::new(vs.len(), |i: int| vs[i]@)
}

/// The whole command line: the first token is the program name; the rest are
/// parsed, and `--src` and `--dst` must have been given.
pub open spec fn parse_args(args: Seq<Seq<char>>) -> Option<ArgState> {
    match parse_step(init_state(), args, 1) {
        None => None,
        Some(st) => if st.src is Some && st.dst is Some {
            Some(st)
        } else {
            None
        },
    }
}

/// Parses the given command-line tokens into a configuration. With no token
/// vector at hand there is nothing to parse and the result is an error (the
/// caller that owns the process arguments passes them in). The result is
/// `Ok` exactly when the grammar accepts the tokens, and then each field of
/// the configuration is what the tokens said.
#[verifier::rlimit(60)]
pub fn get_config(input: Option<&Vec<&str>>) -> (r: Result<Config, PsError>)
    ensures
        match input {
            Some(v) => match parse_args(views_of(v@)) {
                Some(st) => {
                    &&& r is Ok
                    &&& r->Ok_0.source@ == st.src->0
                    &&& r->Ok_0.destination@ == st.dst->0
                    &&& (match st.log {
                        Some(l) => r->Ok_0.logfile is Some && r->Ok_0.logfile->0@ == l,
                        None => r->Ok_0.logfile is None,
                    })
                    &&& r->Ok_0.dry_run == st.dry_run
                    &&& r->Ok_0.copy == (st.mode_copy == Some(true))
                },
                None => r is Err && r->Err_0.kind == PsErrorKind::Unknown,
            },
            None => r is Err && r->Err_0.kind == PsErrorKind::Unknown,
        },
{
    proof {
        reveal_strlit("--src");
        reveal_strlit("--src=");
        reveal_strlit("-s");
        reveal_strlit("--dst");
        reveal_strlit("--dst=");
        reveal_strlit("-d");
        reveal_strlit("--log");
        reveal_strlit("--log=");
        reveal_strlit("-l");
        reveal_strlit("--mode");
        reveal_strlit("--mode=");
        reveal_strlit("-m");
        reveal_strlit("--dry_run");
        reveal_strlit("-t");
        reveal_strlit("--verbose");
        reveal_strlit("-v");
        reveal_strlit("copy");
        reveal_strlit("move");
        assert(("--src")@ =~= lit_src_long());
        assert(("--src=")@ =~= lit_src_eq());
        assert(("-s")@ =~= lit_s());
        assert(("--dst")@ =~= lit_dst_long());
        assert(("--dst=")@ =~= lit_dst_eq());
        assert(("-d")@ =~= lit_d());
        assert(("--log")@ =~= lit_log_long());
        assert(("--log=")@ =~= lit_log_eq());
        assert(("-l")@ =~= lit_l());
        assert(("--mode")@ =~= lit_mode_long());
        assert(("--mode=")@ =~= lit_mode_eq());
        assert(("-m")@ =~= lit_m());
        assert(("--dry_run")@ =~= lit_dry_run());
        assert(("-t")@ =~= lit_t());
        assert(("--verbose")@ =~= lit_verbose());
        assert(("-v")@ =~= lit_v());
        assert(("copy")@ =~= lit_copy());
        assert(("move")@ =~= lit_move());
    }
    let v = match input {
        Some(v) => v,
        None => {
            return Err(
                PsError::new(PsErrorKind::Unknown, String::from_str("no arguments to parse")),
            );
        },
    };
    let ghost argsv = views_of(v@);
    let n = v.len();
    let mut src: Option<String> = None;
    let mut dst: Option<String> = None;
    let mut log: Option<String> = None;
    let mut mode_copy: Option<bool> = None;
    let mut dry_run = false;
    let mut verbose = false;
    let mut i: usize = 1;
    while i < n
        invariant
            1 <= i,
            input == Some(v),
            n == v@.len(),
            argsv == views_of(v@),
            parse_args(argsv) == (match parse_step(
                cur_state(src, dst, log, mode_copy, dry_run, verbose),
                argsv,
                i as int,
            ) {
                None => None::<ArgState>,
                Some(st) => if st.src is Some && st.dst is Some {
                    Some(st)
                } else {
                    None
                },
            }),
            ("--src")@ == lit_src_long(),
            ("--src=")@ == lit_src_eq(),
            ("-s")@ == lit_s(),
            ("--dst")@ == lit_dst_long(),
            ("--dst=")@ == lit_dst_eq(),
            ("-d")@ == lit_d(),
            ("--log")@ == lit_log_long(),
            ("--log=")@ == lit_log_eq(),
            ("-l")@ == lit_l(),
            ("--mode")@ == lit_mode_long(),
            ("--mode=")@ == lit_mode_eq(),
            ("-m")@ == lit_m(),
            ("--dry_run")@ == lit_dry_run(),
            ("-t")@ == lit_t(),
            ("--verbose")@ == lit_verbose(),
            ("-v")@ == lit_v(),
            ("copy")@ == lit_copy(),
            ("move")@ == lit_move(),
        decreases n - i,
    {
        let t: &str = v[i];
        proof {
            assert(argsv[i as int] == t@);
        }
        if str_eq(t, "--src") || str_eq(t, "-s") {
            if i + 1 >= n || src.is_some() {
                return parse_error();
            }
            let val: &str = v[i + 1];
            proof {
                assert(argsv[i as int + 1] == val@);
            }
            if val.unicode_len() == 0 {
                return parse_error();
            }
            src = Some(String::from_str(val));
            i += 2;
        } else if str_starts_with(t, "--src=") {
            let val = t.substring_char(6, t.unicode_len());
            proof {
                assert(val@ =~= t@.skip(6));
            }
            if val.unicode_len() == 0 || src.is_some() {
                return parse_error();
            }
            src = Some(val.to_owned());
            i += 1;
        } else if str_starts_with(t, "-s") && t.unicode_len() > 2 {
            let val = t.substring_char(2, t.unicode_len());
            proof {
                assert(val@ =~= t@.skip(2));
            }
            if src.is_some() {
                return parse_error();
            }
            src = Some(val.to_owned());
            i += 1;
        } else if str_eq(t, "--dst") || str_eq(t, "-d") {
            if i + 1 >= n || dst.is_some() {
                return parse_error();
            }
            let val: &str = v[i + 1];
            proof {
                assert(argsv[i as int + 1] == val@);
            }
            if val.unicode_len() == 0 {
                return parse_error();
            }
            dst = Some(String::from_str(val));
            i += 2;
        } else if str_starts_with(t, "--dst=") {
            let val = t.substring_char(6, t.unicode_len());
            proof {
                assert(val@ =~= t@.skip(6));
            }
            if val.unicode_len() == 0 || dst.is_some() {
                return parse_error();
            }
            dst = Some(val.to_owned());
            i += 1;
        } else if str_starts_with(t, "-d") && t.unicode_len() > 2 {
            let val = t.substring_char(2, t.unicode_len());
            proof {
                assert(val@ =~= t@.skip(2));
            }
            if dst.is_some() {
                return parse_error();
            }
            dst = Some(val.to_owned());
            i += 1;
        } else if str_eq(t, "--log") || str_eq(t, "-l") {
            if i + 1 >= n || log.is_some() {
                return parse_error();
            }
            let val: &str = v[i + 1];
            proof {
                assert(argsv[i as int + 1] == val@);
            }
            if val.unicode_len() == 0 {
                return parse_error();
            }
            log = Some(String::from_str(val));
            i += 2;
        } else if str_starts_with(t, "--log=") {
            let val = t.substring_char(6, t.unicode_len());
            proof {
                assert(val@ =~= t@.skip(6));
            }
            if val.unicode_len() == 0 || log.is_some() {
                return parse_error();
            }
            log = Some(val.to_owned());
            i += 1;
        } else if str_starts_with(t, "-l") && t.unicode_len() > 2 {
            let val = t.substring_char(2, t.unicode_len());
            proof {
                assert(val@ =~= t@.skip(2));
            }
            if log.is_some() {
                return parse_error();
            }
            log = Some(val.to_owned());
            i += 1;
        } else if str_eq(t, "--mode") || str_eq(t, "-m") {
            if i + 1 >= n || mode_copy.is_some() {
                return parse_error();
            }
            let val: &str = v[i + 1];
            proof {
                assert(argsv[i as int + 1] == val@);
            }
            if val.unicode_len() == 0 {
                return parse_error();
            }
            if str_eq(val, "copy") {
                mode_copy = Some(true);
            } else if str_eq(val, "move") {
                mode_copy = Some(false);
            } else {
                return parse_error();
            }
            i += 2;
        } else if str_starts_with(t, "--mode=") {
            let val = t.substring_char(7, t.unicode_len());
            proof {
                assert(val@ =~= t@.skip(7));
            }
            if mode_copy.is_some() {
                return parse_error();
            }
            if str_eq(val, "copy") {
                mode_copy = Some(true);
            } else if str_eq(val, "move") {
                mode_copy = Some(false);
            } else {
                return parse_error();
            }
            i += 1;
        } else if str_starts_with(t, "-m") && t.unicode_len() > 2 {
            let val = t.substring_char(2, t.unicode_len());
            proof {
                assert(val@ =~= t@.skip(2));
            }
            if mode_copy.is_some() {
                return parse_error();
            }
            if str_eq(val, "copy") {
                mode_copy = Some(true);
            } else if str_eq(val, "move") {
                mode_copy = Some(false);
            } else {
                return parse_error();
            }
            i += 1;
        } else if str_eq(t, "--dry_run") || str_eq(t, "-t") {
            if dry_run {
                return parse_error();
            }
            dry_run = true;
            i += 1;
        } else if str_eq(t, "--verbose") || str_eq(t, "-v") {
            if verbose {
                return parse_error();
            }
            verbose = true;
            i += 1;
        } else {
            return parse_error();
        }
    }
    let source = match src {
        Some(s) => s,
        None => {
            return parse_error();
        },
    };
    let destination = match dst {
        Some(s) => s,
        None => {
            return parse_error();
        },
    };
    let copy = match mode_copy {
        Some(c) => c,
        None => false,
    };
    Ok(Config { source, destination, logfile: log, dry_run, copy })
}

/// The parser state the collected exec values stand for.
pub open spec fn cur_state(
    src: Option<String>,
    dst: Option<String>,
    log: Option<String>,
    mode_copy: Option<bool>,
    dry_run: bool,
    verbose: bool,
) -> ArgState {
    ArgState {
        src: match src {
            Some(s) => Some(s@),
            None => None,
        },
        dst: match dst {
            Some(s) => Some(s@),
            None => None,
        },
        log: match log {
            Some(s) => Some(s@),
            None => None,
        },
        mode_copy,
        dry_run,
        verbose,
    }
}

/// The error a rejected command line produces.
fn parse_error() -> (r: Result<Config, PsError>)
    ensures
        r is Err && r->Err_0.kind == PsErrorKind::Unknown,
{
    Err(PsError::new(PsErrorKind::Unknown, String::from_str("invalid command line")))
}

} // verus!
