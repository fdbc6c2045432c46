//! Splitting the raw command line into what the dispatcher reads and what is
//! forwarded to tasks.

use vstd::prelude::*;
use crate::text::{opt_text, text_is, texts_of};

verus! {

/// The mathematical form of an argument list: one character sequence per token.
pub type Tokens = Seq<Seq<char>>;

/// The token after which everything is forwarded to tasks.
pub open spec fn separator() -> Seq<char> {
    "--"@
}

/// The flag that disables repository inference.
pub open spec fn skip_infer_flag() -> Seq<char> {
    "--skip-infer"@
}

/// The flag that introduces a working-directory override.
pub open spec fn cwd_flag() -> Seq<char> {
    "--cwd"@
}

/// Why a command line was refused.
#[derive(Debug, Clone, Copy, PartialEq, Eq, Structural)]
pub enum ParseError {
    /// A second `--cwd` flag was met before the separator.
    MultipleCwd,
    /// `--cwd` was the last of the dispatcher-facing arguments: no value
    /// follows it.
    MissingCwdValue,
    /// No `--cwd` was given and the process has no current directory to fall back on.
    NoCurrentDir,
}

/// The arguments of one invocation, split.
#[derive(Debug, Clone, PartialEq, Eq)]
pub struct ShimArgs {
    /// The directory the command applies to.
    pub cwd: String,
    /// Whether repository inference is to be skipped.
    pub skip_infer: bool,
    /// The tokens meant for the dispatcher, in the order given.
    pub remaining_turbo_args: Vec<String>,
    /// The tokens after the separator, in the order given.
    pub forwarded_args: Vec<String>,
}

/// The mathematical form of [`ShimArgs`].
pub struct ShimArgsView {
    pub cwd: Seq<char>,
    pub skip_infer: bool,
    pub remaining_turbo_args: Tokens,
    pub forwarded_args: Tokens,
}

impl View for ShimArgs {
    type V = ShimArgsView;

    open spec fn view(&self) -> ShimArgsView {
        ShimArgsView {
            cwd: self.cwd@,
            skip_infer: self.skip_infer,
            remaining_turbo_args: texts_of(self.remaining_turbo_args@),
            forwarded_args: texts_of(self.forwarded_args@),
        }
    }
}

/// What a left-to-right reading of the tokens has gathered so far.
pub struct Scan {
    /// The separator has been met: every further token is forwarded.
    pub forwarding: bool,
    /// A `--cwd` flag has been met and its value has not.
    pub awaiting_cwd: bool,
    /// The working-directory override, once its value has been met.
    pub cwd: Option<Seq<char>>,
    pub skip_infer: bool,
    pub remaining: Tokens,
    pub forwarded: Tokens,
}

/// The reading before any token.
pub open spec fn scan_start() -> Scan {
    Scan {
        forwarding: false,
        awaiting_cwd: false,
        cwd: None,
        skip_infer: false,
        remaining: Seq::empty(),
        forwarded: Seq::empty(),
    }
}

/// The reading after one more token. A `--cwd` that waits for its value
/// takes the next token as that value, whatever it looks like, with one
/// exception: the separator is always read as the separator, so that a
/// `--cwd` directly before it is left without a value.
pub open spec fn scan_token(s: Scan, token: Seq<char>) -> Result<Scan, ParseError> {
    if s.forwarding {
        Ok(Scan { forwarded: s.forwarded.push(token), ..s })
    } else if token == separator() {
        Ok(Scan { forwarding: true, ..s })
    } else if s.awaiting_cwd {
        Ok(Scan { cwd: Some(token), awaiting_cwd: false, ..s })
    } else if token == skip_infer_flag() {
        Ok(Scan { skip_infer: true, ..s })
    } else if token == cwd_flag() {
        if s.cwd is Some {
            Err(ParseError::MultipleCwd)
        } else {
            Ok(Scan { awaiting_cwd: true, ..s })
        }
    } else {
        Ok(Scan { remaining: s.remaining.push(token), ..s })
    }
}

/// The reading after the first `n` tokens of `args`, or the error that one of
/// them raised.
pub open spec fn scan(args: Tokens, n: int) -> Result<Scan, ParseError>
    decreases n,
{
    if n <= 0 {
        Ok(scan_start())
    } else {
        match scan(args, n - 1) {
            Ok(s) => scan_token(s, args[n - 1]),
            Err(e) => Err(e),
        }
    }
}

/// What a finished reading amounts to: the override, or else the process's
/// own directory, becomes the working directory.
pub open spec fn scan_finish(s: Scan, current_dir: Option<Seq<char>>) -> Result<
    ShimArgsView,
    ParseError,
> {
    if s.awaiting_cwd {
        Err(ParseError::MissingCwdValue)
    } else {
        let cwd = if s.cwd is Some {
            s.cwd
        } else {
            current_dir
        };
        match cwd {
            Some(dir) => Ok(
                ShimArgsView {
                    cwd: dir,
                    skip_infer: s.skip_infer,
                    remaining_turbo_args: s.remaining,
                    forwarded_args: s.forwarded,
                },
            ),
            None => Err(ParseError::NoCurrentDir),
        }
    }
}

/// What a command line parses to.
pub open spec fn parse_tokens(args: Tokens, current_dir: Option<Seq<char>>) -> Result<
    ShimArgsView,
    ParseError,
> {
    match scan(args, args.len() as int) {
        Ok(s) => scan_finish(s, current_dir),
        Err(e) => Err(e),
    }
}

/// The view of a parse result.
pub open spec fn parsed_view(r: Result<ShimArgs, ParseError>) -> Result<ShimArgsView, ParseError> {
    match r {
        Ok(a) => Ok(a@),
        Err(e) => Err(e),
    }
}

/// An error, once raised, stays: later tokens are not read.
pub proof fn lemma_scan_error_stays(args: Tokens, m: int, n: int)
    requires
        0 <= m <= n,
        scan(args, m) is Err,
    ensures
        scan(args, n) == scan(args, m),
    decreases n - m,
{
    if m < n {
        lemma_scan_error_stays(args, m, n - 1);
    }
}

impl ParseError {
    /// The text shown to the user for this error.
    pub fn message(&self) -> (text: String)
        ensures
            text@ == match *self {
                ParseError::MultipleCwd => "cannot have multiple `--cwd` flags in command"@,
                ParseError::MissingCwdValue => "No value assigned to `--cwd` argument"@,
                ParseError::NoCurrentDir => "the current directory cannot be determined"@,
            },
    {
        match self {
            ParseError::MultipleCwd => "cannot have multiple `--cwd` flags in command".to_owned(),
            ParseError::MissingCwdValue => "No value assigned to `--cwd` argument".to_owned(),
            ParseError::NoCurrentDir => "the current directory cannot be determined".to_owned(),
        }
    }
}

/// Whether a token is one of the flags that make standard output a single
/// machine-readable artifact.
pub open spec fn is_pure_output_flag(token: Seq<char>) -> bool {
    ||| token == "--json"@
    ||| token == "--dry"@
    ||| token == "--dry-run"@
    ||| token == "--dry=json"@
    ||| token == "--graph"@
    ||| token == "--dry-run=json"@
}

/// Whether any of the tokens is such a flag.
pub open spec fn has_pure_output_flag(tokens: Tokens) -> bool {
    exists|i: int| 0 <= i < tokens.len() && is_pure_output_flag(#[trigger] tokens[i])
}

fn is_pure_output_arg(token: &String) -> (yes: bool)
    ensures
        yes == is_pure_output_flag(token@),
{
    text_is(token, "--json") || text_is(token, "--dry") || text_is(token, "--dry-run")
        || text_is(token, "--dry=json") || text_is(token, "--graph") || text_is(
        token,
        "--dry-run=json",
    )
}

impl ShimArgs {
    /// Whether any dispatcher-facing argument asks for output that must stay
    /// parseable, so that nothing else may be printed beside it.
    pub fn has_json_flags(&self) -> (yes: bool)
        ensures
            yes == has_pure_output_flag(self@.remaining_turbo_args),
    {
        let ghost tokens = texts_of(self.remaining_turbo_args@);
        let mut i: usize = 0;
        while i < self.remaining_turbo_args.len()
            invariant
                i <= self.remaining_turbo_args.len(),
                tokens == texts_of(self.remaining_turbo_args@),
                forall|j: int| 0 <= j < i ==> !is_pure_output_flag(#[trigger] tokens[j]),
            decreases self.remaining_turbo_args.len() - i,
        {
            if is_pure_output_arg(&self.remaining_turbo_args[i]) {
                assert(is_pure_output_flag(tokens[i as int]));
                return true;
            }
            i += 1;
        }
        false
    }

    /// Splits the process's arguments (without the program name). `current_dir`
    /// is the process's own directory, `None` where it cannot be had; it is
    /// only consulted when no `--cwd` is given.
    ///
    /// The token after `--cwd` is its value even where it reads as a flag;
    /// only the separator is never taken as a value.
    pub fn parse(args: Vec<String>, current_dir: Option<String>) -> (r: Result<ShimArgs, ParseError>)
        ensures
            parsed_view(r) == parse_tokens(texts_of(args@), opt_text(current_dir)),
    {
        let mut awaiting_cwd = false;
        let mut cwd: Option<String> = None;
        let mut skip_infer = false;
        let mut remaining_turbo_args: Vec<String> = Vec::new();
        let mut forwarded_args: Vec<String> = Vec::new();
        let mut forwarding = false;
        let ghost tokens = texts_of(args@);
        let mut i: usize = 0;
        assert(texts_of(remaining_turbo_args@) =~= Seq::<Seq<char>>::empty());
        assert(texts_of(forwarded_args@) =~= Seq::<Seq<char>>::empty());
        while i < args.len()
            invariant
                i <= args.len(),
                tokens == texts_of(args@),
                scan(tokens, i as int) == Ok::<Scan, ParseError>(
                    Scan {
                        forwarding,
                        awaiting_cwd,
                        cwd: opt_text(cwd),
                        skip_infer,
                        remaining: texts_of(remaining_turbo_args@),
                        forwarded: texts_of(forwarded_args@),
                    },
                ),
            decreases args.len() - i,
        {
            let arg = args[i].clone();
            assert(arg@ == tokens[i as int]);
            let ghost before = scan(tokens, i as int)->Ok_0;
            assert(scan(tokens, i + 1) == scan_token(before, arg@));
            if forwarding {
                assert(texts_of(forwarded_args@.push(arg)) =~= texts_of(forwarded_args@).push(
                    arg@,
                ));
                forwarded_args.push(arg);
            } else if text_is(&arg, "--") {
                forwarding = true;
            } else if awaiting_cwd {
                cwd = Some(arg);
                awaiting_cwd = false;
            } else if text_is(&arg, "--skip-infer") {
                skip_infer = true;
            } else if text_is(&arg, "--cwd") {
                if cwd.is_some() {
                    proof {
                        lemma_scan_error_stays(tokens, i + 1, tokens.len() as int);
                    }
                    return Err(ParseError::MultipleCwd);
                }
                awaiting_cwd = true;
            } else {
                assert(texts_of(remaining_turbo_args@.push(arg)) =~= texts_of(
                    remaining_turbo_args@,
                ).push(arg@));
                remaining_turbo_args.push(arg);
            }
            i += 1;
        }
        if awaiting_cwd {
            Err(ParseError::MissingCwdValue)
        } else {
            let cwd = match cwd {
                Some(dir) => dir,
                None => match current_dir {
                    Some(dir) => dir,
                    None => {
                        return Err(ParseError::NoCurrentDir);
                    },
                },
            };
            Ok(ShimArgs { cwd, skip_infer, remaining_turbo_args, forwarded_args })
        }
    }
}

} // verus!
