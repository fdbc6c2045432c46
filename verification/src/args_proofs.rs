//! What holds of every command line: how the separator partitions it, and how
//! `--cwd` behaves when it is given once or more than once.

use vstd::prelude::*;
use crate::args::{
    cwd_flag, lemma_scan_error_stays, parse_tokens, scan, separator, skip_infer_flag, ParseError,
    Scan, ShimArgsView, Tokens,
};

verus! {

/// The tokens that are kept when the skip flag is dropped.
pub open spec fn not_skip_flag() -> spec_fn(Seq<char>) -> bool {
    |token: Seq<char>| token != skip_infer_flag()
}

/// No token of `tokens` from `from` up to `to` is the separator.
pub open spec fn no_separator(tokens: Tokens, from: int, to: int) -> bool {
    forall|j: int| from <= j < to ==> #[trigger] tokens[j] != separator()
}

/// No token of `tokens` from `from` up to `to` is the `--cwd` flag.
pub open spec fn no_cwd_flag(tokens: Tokens, from: int, to: int) -> bool {
    forall|j: int| from <= j < to ==> #[trigger] tokens[j] != cwd_flag()
}

/// The first separator of `args` stands at `k`.
pub open spec fn first_separator_at(args: Tokens, k: int) -> bool {
    &&& 0 <= k < args.len()
    &&& args[k] == separator()
    &&& no_separator(args, 0, k)
}

/// A reading depends on the tokens read, and on nothing after them.
pub proof fn lemma_scan_reads_prefix(a: Tokens, b: Tokens, n: int)
    requires
        0 <= n <= a.len(),
        n <= b.len(),
        forall|j: int| 0 <= j < n ==> a[j] == b[j],
    ensures
        scan(a, n) == scan(b, n),
    decreases n,
{
    if n > 0 {
        lemma_scan_reads_prefix(a, b, n - 1);
    }
}

/// Between a reading that neither forwards nor waits for a value and a later
/// one, with no separator and no `--cwd` flag in between, the skip flag is
/// noted and every other token is kept, in order.
pub proof fn lemma_scan_plain_stretch(args: Tokens, m: int, n: int)
    requires
        0 <= m <= n <= args.len(),
        scan(args, m) is Ok,
        !scan(args, m)->Ok_0.forwarding,
        !scan(args, m)->Ok_0.awaiting_cwd,
        no_separator(args, m, n),
        no_cwd_flag(args, m, n),
    ensures
        scan(args, n) == Ok::<Scan, ParseError>(
            Scan {
                skip_infer: scan(args, m)->Ok_0.skip_infer || args.subrange(m, n).contains(
                    skip_infer_flag(),
                ),
                remaining: scan(args, m)->Ok_0.remaining + args.subrange(m, n).filter(
                    not_skip_flag(),
                ),
                ..scan(args, m)->Ok_0
            },
        ),
    decreases n - m,
{
    let s = scan(args, m)->Ok_0;
    let stretch = args.subrange(m, n);
    if m == n {
        assert(stretch =~= Seq::<Seq<char>>::empty());
        reveal_with_fuel(Seq::filter, 1);
        assert(stretch.filter(not_skip_flag()) =~= Seq::<Seq<char>>::empty());
        assert(s.remaining + Seq::<Seq<char>>::empty() =~= s.remaining);
        assert(!stretch.contains(skip_infer_flag()));
    } else {
        lemma_scan_plain_stretch(args, m, n - 1);
        let shorter = args.subrange(m, n - 1);
        let token = args[n - 1];
        assert(stretch.drop_last() =~= shorter);
        assert(stretch.last() == token);
        assert(token != separator());
        assert(token != cwd_flag());
        reveal_with_fuel(Seq::filter, 1);
        assert(stretch.contains(skip_infer_flag()) <==> shorter.contains(skip_infer_flag())
            || token == skip_infer_flag()) by {
            if shorter.contains(skip_infer_flag()) {
                let j = choose|j: int| 0 <= j < shorter.len() && shorter[j] == skip_infer_flag();
                assert(stretch[j] == skip_infer_flag());
            }
            if token == skip_infer_flag() {
                assert(stretch[stretch.len() - 1] == skip_infer_flag());
            }
            if stretch.contains(skip_infer_flag()) {
                let j = choose|j: int| 0 <= j < stretch.len() && stretch[j] == skip_infer_flag();
                if j < shorter.len() {
                    assert(shorter[j] == skip_infer_flag());
                }
            }
        }
        if token == skip_infer_flag() {
            assert(stretch.filter(not_skip_flag()) == shorter.filter(not_skip_flag()));
        } else {
            assert(stretch.filter(not_skip_flag()) == shorter.filter(not_skip_flag()).push(token));
            assert(s.remaining + shorter.filter(not_skip_flag()).push(token) =~= (s.remaining
                + shorter.filter(not_skip_flag())).push(token));
        }
    }
}

/// Before the first separator nothing is forwarded.
pub proof fn lemma_scan_before_separator(args: Tokens, n: int)
    requires
        0 <= n <= args.len(),
        no_separator(args, 0, n),
        scan(args, n) is Ok,
    ensures
        !scan(args, n)->Ok_0.forwarding,
        scan(args, n)->Ok_0.forwarded == Seq::<Seq<char>>::empty(),
    decreases n,
{
    if n > 0 {
        assert(args[n - 1] != separator());
        lemma_scan_before_separator(args, n - 1);
    }
}

/// From the first separator on, every token is forwarded as it stands and
/// nothing else changes.
pub proof fn lemma_scan_after_separator(args: Tokens, k: int, n: int)
    requires
        first_separator_at(args, k),
        k < n <= args.len(),
        scan(args, k) is Ok,
    ensures
        scan(args, n) == Ok::<Scan, ParseError>(
            Scan {
                forwarding: true,
                forwarded: args.subrange(k + 1, n),
                ..scan(args, k)->Ok_0
            },
        ),
    decreases n - k,
{
    let s = scan(args, k)->Ok_0;
    lemma_scan_before_separator(args, k);
    if n == k + 1 {
        assert(args.subrange(k + 1, n) =~= Seq::<Seq<char>>::empty());
    } else {
        lemma_scan_after_separator(args, k, n - 1);
        assert(args.subrange(k + 1, n) =~= args.subrange(k + 1, n - 1).push(args[n - 1]));
    }
}

/// The first separator partitions the command line: what stands before it is
/// read as if it were the whole command line, and what stands after it is
/// forwarded token for token, whatever the tokens look like.
pub proof fn lemma_separator_partitions(args: Tokens, k: int, current_dir: Option<Seq<char>>)
    requires
        first_separator_at(args, k),
    ensures
        match parse_tokens(args.take(k), current_dir) {
            Ok(head) => head.forwarded_args == Seq::<Seq<char>>::empty() && parse_tokens(
                args,
                current_dir,
            ) == Ok::<ShimArgsView, ParseError>(
                ShimArgsView { forwarded_args: args.skip(k + 1), ..head },
            ),
            Err(e) => parse_tokens(args, current_dir) == Err::<ShimArgsView, ParseError>(e),
        },
{
    let head = args.take(k);
    lemma_scan_reads_prefix(args, head, k);
    if scan(args, k) is Ok {
        assert(no_separator(head, 0, k)) by {
            assert forall|j: int| 0 <= j < k implies #[trigger] head[j] != separator() by {
                assert(args[j] != separator());
            }
        }
        lemma_scan_before_separator(head, k);
        lemma_scan_after_separator(args, k, args.len() as int);
        assert(args.subrange(k + 1, args.len() as int) =~= args.skip(k + 1));
    } else {
        lemma_scan_error_stays(args, k, args.len() as int);
    }
}

/// Without a separator nothing is forwarded.
pub proof fn lemma_nothing_forwarded_without_separator(
    args: Tokens,
    current_dir: Option<Seq<char>>,
)
    requires
        no_separator(args, 0, args.len() as int),
    ensures
        parse_tokens(args, current_dir) matches Ok(parsed) ==> parsed.forwarded_args == Seq::<
            Seq<char>,
        >::empty(),
{
    if scan(args, args.len() as int) is Ok {
        lemma_scan_before_separator(args, args.len() as int);
    }
}

/// The dispatcher's part of `args` ends at `k`: at the first separator, or
/// at the end where there is none.
pub open spec fn dispatcher_part_ends_at(args: Tokens, k: int) -> bool {
    &&& 0 <= k <= args.len()
    &&& no_separator(args, 0, k)
    &&& k < args.len() ==> args[k] == separator()
}

/// What is forwarded of `args` when the dispatcher's part ends at `k`: all
/// that stands after the separator.
pub open spec fn forwarded_part(args: Tokens, k: int) -> Tokens {
    if k < args.len() {
        args.skip(k + 1)
    } else {
        Seq::empty()
    }
}

/// What holds of the whole command line once it holds of the dispatcher's
/// part taken alone.
proof fn lemma_from_dispatcher_part(args: Tokens, k: int, current_dir: Option<Seq<char>>)
    requires
        dispatcher_part_ends_at(args, k),
    ensures
        match parse_tokens(args.take(k), current_dir) {
            Ok(head) => parse_tokens(args, current_dir) == Ok::<ShimArgsView, ParseError>(
                ShimArgsView { forwarded_args: forwarded_part(args, k), ..head },
            ),
            Err(e) => parse_tokens(args, current_dir) == Err::<ShimArgsView, ParseError>(e),
        },
{
    if k < args.len() {
        lemma_separator_partitions(args, k, current_dir);
    } else {
        assert(args.take(k) =~= args);
        lemma_nothing_forwarded_without_separator(args, current_dir);
    }
}

/// Where no `--cwd` flag stands in the dispatcher's part, parsing succeeds
/// as soon as the process has a current directory, which then is the working
/// directory; the skip flag is noted wherever it stands in that part, all
/// its other tokens are the dispatcher's, in the order given, and all that
/// follows the separator is forwarded.
pub proof fn lemma_plain_command_line(args: Tokens, k: int, current_dir: Option<Seq<char>>)
    requires
        dispatcher_part_ends_at(args, k),
        no_cwd_flag(args, 0, k),
    ensures
        parse_tokens(args, current_dir) == match current_dir {
            Some(dir) => Ok::<ShimArgsView, ParseError>(
                ShimArgsView {
                    cwd: dir,
                    skip_infer: args.take(k).contains(skip_infer_flag()),
                    remaining_turbo_args: args.take(k).filter(not_skip_flag()),
                    forwarded_args: forwarded_part(args, k),
                },
            ),
            None => Err::<ShimArgsView, ParseError>(ParseError::NoCurrentDir),
        },
{
    let head = args.take(k);
    lemma_scan_plain_stretch(head, 0, k);
    assert(head.subrange(0, k) =~= head);
    assert(Seq::<Seq<char>>::empty() + head.filter(not_skip_flag()) =~= head.filter(
        not_skip_flag(),
    ));
    lemma_from_dispatcher_part(args, k, current_dir);
}

/// Once the working directory is set, a reading before the separator either
/// keeps it or has failed on a second `--cwd`.
pub proof fn lemma_scan_keeps_cwd(args: Tokens, m: int, n: int)
    requires
        0 <= m <= n <= args.len(),
        no_separator(args, 0, n),
        scan(args, m) is Ok,
        scan(args, m)->Ok_0.cwd is Some,
        !scan(args, m)->Ok_0.awaiting_cwd,
    ensures
        match scan(args, n) {
            Ok(s) => s.cwd == scan(args, m)->Ok_0.cwd && !s.awaiting_cwd && !s.forwarding,
            Err(e) => e == ParseError::MultipleCwd,
        },
    decreases n - m,
{
    if m < n {
        lemma_scan_keeps_cwd(args, m, n - 1);
        assert(args[n - 1] != separator());
    } else {
        lemma_scan_before_separator(args, m);
    }
}

/// The three recognised tokens differ from one another.
pub proof fn lemma_recognised_tokens_differ()
    ensures
        separator() != skip_infer_flag(),
        separator() != cwd_flag(),
        cwd_flag() != skip_infer_flag(),
{
    reveal_strlit("--");
    reveal_strlit("--skip-infer");
    reveal_strlit("--cwd");
    assert(separator().len() == 2);
    assert(skip_infer_flag().len() == 12);
    assert(cwd_flag().len() == 5);
}

/// A command line in whose dispatcher part, which ends at `k`, `--cwd` is
/// given once, at `i`, followed by its value: parsing succeeds and the
/// working directory is that value. The flag and its value are taken out;
/// the rest is read as usual. The value may be any token of that part, one
/// that reads as a flag too.
pub proof fn lemma_single_cwd(args: Tokens, i: int, k: int, current_dir: Option<Seq<char>>)
    requires
        dispatcher_part_ends_at(args, k),
        0 <= i,
        i + 1 < k,
        args[i] == cwd_flag(),
        no_cwd_flag(args, 0, i),
        no_cwd_flag(args, i + 2, k),
    ensures
        parse_tokens(args, current_dir) == Ok::<ShimArgsView, ParseError>(
            ShimArgsView {
                cwd: args[i + 1],
                skip_infer: args.take(i).contains(skip_infer_flag()) || args.subrange(
                    i + 2,
                    k,
                ).contains(skip_infer_flag()),
                remaining_turbo_args: (args.take(i) + args.subrange(i + 2, k)).filter(
                    not_skip_flag(),
                ),
                forwarded_args: forwarded_part(args, k),
            },
        ),
{
    let head = args.take(k);
    lemma_recognised_tokens_differ();
    lemma_scan_plain_stretch(head, 0, i);
    let before = scan(head, i)->Ok_0;
    assert(head[i] == args[i]);
    assert(head[i + 1] == args[i + 1]);
    assert(args[i] != separator());
    assert(args[i + 1] != separator());
    assert(scan(head, i + 1) == Ok::<Scan, ParseError>(Scan { awaiting_cwd: true, ..before }));
    assert(scan(head, i + 2) == Ok::<Scan, ParseError>(
        Scan { cwd: Some(head[i + 1]), ..before },
    ));
    lemma_scan_plain_stretch(head, i + 2, k);
    assert(head.subrange(0, i) =~= args.take(i));
    assert(head.subrange(i + 2, k) =~= args.subrange(i + 2, k));
    Seq::filter_distributes_over_add(args.take(i), args.subrange(i + 2, k), not_skip_flag());
    assert(Seq::<Seq<char>>::empty() + args.take(i).filter(not_skip_flag()) =~= args.take(
        i,
    ).filter(not_skip_flag()));
    lemma_from_dispatcher_part(args, k, current_dir);
}

/// A command line in which `--cwd` is given with a value at `i` and stands
/// again at `j`, both before any separator: parsing fails, whatever follows.
pub proof fn lemma_repeated_cwd(args: Tokens, i: int, j: int, current_dir: Option<Seq<char>>)
    requires
        0 <= i,
        i + 1 < j < args.len(),
        no_separator(args, 0, j),
        no_cwd_flag(args, 0, i),
        args[i] == cwd_flag(),
        args[j] == cwd_flag(),
    ensures
        parse_tokens(args, current_dir) == Err::<ShimArgsView, ParseError>(
            ParseError::MultipleCwd,
        ),
{
    lemma_recognised_tokens_differ();
    assert(no_separator(args, 0, i));
    lemma_scan_plain_stretch(args, 0, i);
    let before = scan(args, i)->Ok_0;
    assert(args[i] != separator());
    assert(args[i + 1] != separator());
    assert(scan(args, i + 1) == Ok::<Scan, ParseError>(Scan { awaiting_cwd: true, ..before }));
    assert(scan(args, i + 2) == Ok::<Scan, ParseError>(
        Scan { cwd: Some(args[i + 1]), ..before },
    ));
    lemma_scan_keeps_cwd(args, i + 2, j);
    assert(scan(args, j + 1) == Err::<Scan, ParseError>(ParseError::MultipleCwd));
    lemma_scan_error_stays(args, j + 1, args.len() as int);
}

/// A command line in which `--cwd` stands for the first time at the very end
/// of the dispatcher's part, which ends at `k`: parsing fails for want of a
/// value, whatever stands after the separator.
pub proof fn lemma_cwd_without_value(args: Tokens, k: int, current_dir: Option<Seq<char>>)
    requires
        dispatcher_part_ends_at(args, k),
        0 < k,
        no_cwd_flag(args, 0, k - 1),
        args[k - 1] == cwd_flag(),
    ensures
        parse_tokens(args, current_dir) == Err::<ShimArgsView, ParseError>(
            ParseError::MissingCwdValue,
        ),
{
    let head = args.take(k);
    lemma_recognised_tokens_differ();
    assert(head[k - 1] == args[k - 1]);
    lemma_scan_plain_stretch(head, 0, k - 1);
    lemma_from_dispatcher_part(args, k, current_dir);
}

} // verus!
