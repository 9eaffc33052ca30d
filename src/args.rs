use vstd::prelude::*;
use vstd::string::*;
use crate::text::{starts_with, same_text, has_prefix};

verus! {

/// What a run was asked to do, once the arguments have been read.
#[derive(Debug, Clone, PartialEq, Eq)]
pub struct Invocation {
    /// Path given with `--config-file` / `-c` / `--config-file=`.
    pub config_file: Option<String>,
    /// Source text given directly on the command line.
    pub code: Option<String>,
}

#[derive(Debug, Clone, PartialEq, Eq)]
pub enum Command {
    Help,
    Run(Invocation),
}

#[derive(Debug, Clone, PartialEq, Eq)]
pub enum UsageError {
    /// `--config-file` or `-c` stood last, with no path after it.
    MissingPath,
    /// A token starting with `--` that names no known flag.
    Unknown(String),
}

/// The meaning of an argument list, over character sequences.
pub enum ArgsOutcome {
    Help,
    Run(Option<Seq<char>>, Option<Seq<char>>),
    MissingPath,
    Unknown(Seq<char>),
}

pub open spec fn is_help_flag(a: Seq<char>) -> bool {
    a == "--help"@ || a == "-h"@
}

pub open spec fn is_config_flag(a: Seq<char>) -> bool {
    a == "--config-file"@ || a == "-c"@
}

pub open spec fn inline_config_prefix() -> Seq<char> {
    "--config-file="@
}

pub open spec fn flag_prefix() -> Seq<char> {
    "--"@
}

pub open spec fn has_help(args: Seq<Seq<char>>) -> bool {
    exists|i: int| 0 <= i < args.len() && is_help_flag(#[trigger] args[i])
}

/// Reads `args` from position `i` on, left to right, with the path and the
/// code found so far; a later code token replaces an earlier one.
pub open spec fn scan(
    args: Seq<Seq<char>>,
    i: int,
    cfg: Option<Seq<char>>,
    code: Option<Seq<char>>,
) -> ArgsOutcome
    decreases args.len() - i,
{
    if i < 0 || i >= args.len() {
        ArgsOutcome::Run(cfg, code)
    } else if is_config_flag(args[i]) {
        if i + 1 < args.len() {
            scan(args, i + 2, Some(args[i + 1]), code)
        } else {
            ArgsOutcome::MissingPath
        }
    } else if starts_with(args[i], inline_config_prefix()) {
        scan(
            args,
            i + 1,
            Some(args[i].subrange(inline_config_prefix().len() as int, args[i].len() as int)),
            code,
        )
    } else if !starts_with(args[i], flag_prefix()) {
        scan(args, i + 1, cfg, Some(args[i]))
    } else {
        ArgsOutcome::Unknown(args[i])
    }
}

/// A help flag anywhere wins over everything else.
pub open spec fn parse_spec(args: Seq<Seq<char>>) -> ArgsOutcome {
    if has_help(args) {
        ArgsOutcome::Help
    } else {
        scan(args, 0, None, None)
    }
}

pub open spec fn texts(v: Seq<String>) -> Seq<Seq<char>> {
    v.map_values(|a: String| a@)
}

pub open spec fn opt_text(o: Option<String>) -> Option<Seq<char>> {
    match o {
        Some(s) => Some(s@),
        None => None,
    }
}

pub open spec fn outcome_of(r: Result<Command, UsageError>) -> ArgsOutcome {
    match r {
        Ok(Command::Help) => ArgsOutcome::Help,
        Ok(Command::Run(inv)) => ArgsOutcome::Run(opt_text(inv.config_file), opt_text(inv.code)),
        Err(UsageError::MissingPath) => ArgsOutcome::MissingPath,
        Err(UsageError::Unknown(a)) => ArgsOutcome::Unknown(a@),
    }
}

fn is_help_arg(a: &str) -> (r: bool)
    ensures
        r == is_help_flag(a@),
{
    same_text(a, "--help") || same_text(a, "-h")
}

fn is_config_arg(a: &str) -> (r: bool)
    ensures
        r == is_config_flag(a@),
{
    same_text(a, "--config-file") || same_text(a, "-c")
}

/// Reads the arguments that follow the program name.
pub fn parse_args(args: &Vec<String>) -> (r: Result<Command, UsageError>)
    ensures
        outcome_of(r) == parse_spec(texts(args@)),
{
    let ghost t = texts(args@);
    let n = args.len();
    let mut k: usize = 0;
    while k < n
        invariant
            n == args@.len(),
            t == texts(args@),
            k <= n,
            forall|j: int| 0 <= j < k ==> !is_help_flag(#[trigger] t[j]),
        decreases n - k,
    {
        if is_help_arg(args[k].as_str()) {
            proof {
                assert(is_help_flag(t[k as int]));
            }
            return Ok(Command::Help);
        }
        k = k + 1;
    }
    assert(!has_help(t));
    let mut cfg: Option<String> = None;
    let mut code: Option<String> = None;
    let mut i: usize = 0;
    while i < n
        invariant
            n == args@.len(),
            t == texts(args@),
            !has_help(t),
            i <= n,
            scan(t, i as int, opt_text(cfg), opt_text(code)) == scan(t, 0, None, None),
        decreases n - i,
    {
        let a = args[i].as_str();
        assert(a@ == t[i as int]);
        if is_config_arg(a) {
            if i + 1 < n {
                cfg = Some(args[i + 1].clone());
                i = i + 2;
            } else {
                return Err(UsageError::MissingPath);
            }
        } else if has_prefix(a, "--config-file=") {
            let p = "--config-file=";
            let from = p.unicode_len();
            let len = a.unicode_len();
            let rest = a.substring_char(from, len);
            cfg = Some(String::from_str(rest));
            i = i + 1;
        } else if !has_prefix(a, "--") {
            code = Some(args[i].clone());
            i = i + 1;
        } else {
            return Err(UsageError::Unknown(args[i].clone()));
        }
    }
    Ok(Command::Run(Invocation { config_file: cfg, code }))
}

/// Continuing a scan that reached the end of `a` over one more token is the
/// same as starting from the state that scan ended in.
proof fn lemma_scan_push(
    a: Seq<Seq<char>>,
    x: Seq<char>,
    i: int,
    c: Option<Seq<char>>,
    d: Option<Seq<char>>,
)
    requires
        0 <= i <= a.len(),
        scan(a, i, c, d) is Run,
    ensures
        scan(a.push(x), i, c, d) == scan(
            a.push(x),
            a.len() as int,
            scan(a, i, c, d)->Run_0,
            scan(a, i, c, d)->Run_1,
        ),
    decreases a.len() - i,
{
    if i < a.len() {
        let b = a.push(x);
        assert(b[i] == a[i]);
        if is_config_flag(a[i]) {
            assert(i + 1 < a.len());
            assert(b[i + 1] == a[i + 1]);
            lemma_scan_push(a, x, i + 2, Some(a[i + 1]), d);
        } else if starts_with(a[i], inline_config_prefix()) {
            lemma_scan_push(
                a,
                x,
                i + 1,
                Some(a[i].subrange(inline_config_prefix().len() as int, a[i].len() as int)),
                d,
            );
        } else if !starts_with(a[i], flag_prefix()) {
            lemma_scan_push(a, x, i + 1, c, Some(a[i]));
        }
    }
}

/// A help flag anywhere in the list asks for the usage text, whatever else
/// the list holds.
pub proof fn lemma_help_anywhere(args: Seq<Seq<char>>, i: int)
    requires
        0 <= i < args.len(),
        is_help_flag(args[i]),
    ensures
        parse_spec(args) == ArgsOutcome::Help,
{
    assert(has_help(args));
}

/// A list that would run on its own, followed by a bare `--config-file`, is
/// refused for the missing path.
pub proof fn lemma_config_flag_needs_path(prefix: Seq<Seq<char>>)
    requires
        !has_help(prefix),
        parse_spec(prefix) is Run,
    ensures
        parse_spec(prefix.push("--config-file"@)) == ArgsOutcome::MissingPath,
{
    let b = prefix.push("--config-file"@);
    reveal_strlit("--config-file");
    reveal_strlit("--help");
    reveal_strlit("-h");
    assert(b[prefix.len() as int] == "--config-file"@);
    assert("--config-file"@.len() == 13);
    assert("--help"@.len() == 6);
    assert("-h"@.len() == 2);
    assert(!is_help_flag(b[prefix.len() as int]));
    assert forall|j: int| 0 <= j < b.len() implies !is_help_flag(#[trigger] b[j]) by {
        if j < prefix.len() {
            assert(b[j] == prefix[j]);
        }
    }
    lemma_scan_push(prefix, "--config-file"@, 0, None, None);
}

/// A single token that is not a flag is taken as the source text, with no
/// configuration file.
pub proof fn lemma_single_code_argument(s: Seq<char>)
    requires
        !starts_with(s, flag_prefix()),
        !is_help_flag(s),
        !is_config_flag(s),
    ensures
        parse_spec(seq![s]) == ArgsOutcome::Run(None, Some(s)),
{
    let a = seq![s];
    assert(a[0] == s);
    reveal_strlit("--config-file=");
    reveal_strlit("--");
    let inline = inline_config_prefix();
    assert(inline.len() == 14 && inline[0] == '-' && inline[1] == '-');
    assert(flag_prefix().len() == 2 && flag_prefix()[0] == '-' && flag_prefix()[1] == '-');
    if starts_with(s, inline) {
        assert(s.subrange(0, 14)[0] == inline[0]);
        assert(s.subrange(0, 14)[1] == inline[1]);
        assert(s.subrange(0, 2) =~= flag_prefix());
    }
    assert(!has_help(a));
    assert(scan(a, 1, None, Some(s)) == ArgsOutcome::Run(None, Some(s)));
}

} // verus!
