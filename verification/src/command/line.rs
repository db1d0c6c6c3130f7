//! Command lines, and how the C runtime takes them apart again.

use vstd::prelude::*;

verus! {

/// A backslash.
pub const BACKSLASH: u16 = 0x5C;

/// A double quote.
pub const QUOTE: u16 = 0x22;

/// A space.
pub const SPACE: u16 = 0x20;

/// A tab.
pub const TAB: u16 = 0x09;

/// A vertical bar.
pub const BAR: u16 = 0x7C;

/// `n` backslashes.
pub open spec fn backslashes(n: nat) -> Seq<u16> {
    Seq::new(n, |i: int| BACKSLASH)
}

/// Whether an argument must stand in quotes: it is empty, or it holds a space, a
/// tab, a quote or a vertical bar.
pub open spec fn needs_quotes(arg: Seq<u16>) -> bool {
    ||| arg.len() == 0
    ||| arg.contains(SPACE)
    ||| arg.contains(TAB)
    ||| arg.contains(QUOTE)
    ||| arg.contains(BAR)
}

/// What stands between the quotes of an argument, up to the closing one, when
/// `run` backslashes stand before it: a quote is escaped and the backslashes
/// before it are doubled, as are those before the closing quote.
pub open spec fn escaped(arg: Seq<u16>, run: nat) -> Seq<u16>
    decreases arg.len(),
{
    if arg.len() == 0 {
        backslashes(run)
    } else if arg[0] == BACKSLASH {
        seq![BACKSLASH] + escaped(arg.skip(1), run + 1)
    } else if arg[0] == QUOTE {
        backslashes(run + 1) + seq![QUOTE] + escaped(arg.skip(1), 0)
    } else {
        seq![arg[0]] + escaped(arg.skip(1), 0)
    }
}

/// How an argument is written on a command line.
pub open spec fn quoted(arg: Seq<u16>) -> Seq<u16> {
    if needs_quotes(arg) {
        seq![QUOTE] + escaped(arg, 0) + seq![QUOTE]
    } else {
        arg
    }
}

/// Returns whether an argument must stand in quotes.
fn must_quote(arg: &[u16]) -> (quote: bool)
    ensures
        quote == needs_quotes(arg@),
{
    if arg.len() == 0 {
        return true;
    }
    let mut i: usize = 0;
    while i < arg.len()
        invariant
            i <= arg@.len(),
            forall|j: int|
                0 <= j < i ==> arg@[j] != SPACE && arg@[j] != TAB && arg@[j] != QUOTE && arg@[j]
                    != BAR,
        decreases arg@.len() - i,
    {
        let unit: u16 = arg[i];
        assert(arg@[i as int] == unit);
        if unit == SPACE || unit == TAB || unit == QUOTE || unit == BAR {
            return true;
        }
        i += 1;
    }
    false
}

/// Appends `n` backslashes.
fn push_backslashes(line: &mut Vec<u16>, n: usize)
    ensures
        final(line)@ == old(line)@ + backslashes(n as nat),
{
    let mut i: usize = 0;
    assert(line@ =~= old(line)@ + backslashes(0));
    while i < n
        invariant
            i <= n,
            line@ == old(line)@ + backslashes(i as nat),
        decreases n - i,
    {
        line.push(BACKSLASH);
        i += 1;
        assert(line@ =~= old(line)@ + backslashes(i as nat));
    }
}

/// Appends an argument so that the C runtime reads it back as it is.
pub fn append_regular_arg(line: &mut Vec<u16>, arg: &[u16])
    ensures
        final(line)@ == old(line)@ + quoted(arg@),
{
    if !must_quote(arg) {
        line.extend_from_slice(arg);
        assert(line@ =~= old(line)@ + quoted(arg@));
        return;
    }
    line.push(QUOTE);
    let ghost opened = line@;
    let mut run: usize = 0;
    let mut i: usize = 0;
    assert(arg@.skip(0) =~= arg@);
    while i < arg.len()
        invariant
            i <= arg@.len(),
            run <= i,
            line@ + escaped(arg@.skip(i as int), run as nat) == opened + escaped(arg@, 0),
        decreases arg@.len() - i,
    {
        let unit: u16 = arg[i];
        let ghost before = line@;
        let ghost rest = arg@.skip(i as int);
        assert(rest[0] == unit);
        assert(rest.skip(1) =~= arg@.skip(i + 1));
        if unit == BACKSLASH {
            line.push(unit);
            assert(line@ =~= before + seq![BACKSLASH]);
            assert(before + (seq![BACKSLASH] + escaped(rest.skip(1), run as nat + 1)) =~= line@
                + escaped(rest.skip(1), run as nat + 1));
            run += 1;
        } else if unit == QUOTE {
            push_backslashes(line, run + 1);
            line.push(unit);
            assert(line@ =~= before + (backslashes(run as nat + 1) + seq![QUOTE]));
            assert(before + (backslashes(run as nat + 1) + seq![QUOTE] + escaped(rest.skip(1), 0))
                =~= line@ + escaped(rest.skip(1), 0));
            run = 0;
        } else {
            line.push(unit);
            assert(line@ =~= before + seq![unit]);
            assert(before + (seq![unit] + escaped(rest.skip(1), 0)) =~= line@ + escaped(
                rest.skip(1),
                0,
            ));
            run = 0;
        }
        i += 1;
    }
    assert(arg@.skip(i as int) =~= seq![]);
    push_backslashes(line, run);
    line.push(QUOTE);
    assert(line@ =~= old(line)@ + quoted(arg@));
}

/// Takes one argument off the front of a command line as the C runtime does, in
/// quotes or not, `run` backslashes having been read; gives the argument and what
/// is left.
///
/// Backslashes before a quote count in pairs: an odd one makes the quote
/// literal. A literal quote is also what two quotes stand for inside quotes.
/// Backslashes before anything else are literal, and white space outside quotes
/// ends the argument.
pub open spec fn crt_arg(line: Seq<u16>, in_quotes: bool, run: nat) -> (Seq<u16>, Seq<u16>)
    decreases line.len(),
{
    if line.len() == 0 {
        (backslashes(run), line)
    } else if line[0] == BACKSLASH {
        crt_arg(line.skip(1), in_quotes, run + 1)
    } else if line[0] == QUOTE && run % 2 == 1 {
        let (arg, rest) = crt_arg(line.skip(1), in_quotes, 0);
        (backslashes(run / 2) + seq![QUOTE] + arg, rest)
    } else if line[0] == QUOTE && in_quotes && line.len() > 1 && line[1] == QUOTE {
        let (arg, rest) = crt_arg(line.skip(2), in_quotes, 0);
        (backslashes(run / 2) + seq![QUOTE] + arg, rest)
    } else if line[0] == QUOTE {
        let (arg, rest) = crt_arg(line.skip(1), !in_quotes, 0);
        (backslashes(run / 2) + arg, rest)
    } else if !in_quotes && (line[0] == SPACE || line[0] == TAB) {
        (backslashes(run), line)
    } else {
        let (arg, rest) = crt_arg(line.skip(1), in_quotes, 0);
        (backslashes(run) + seq![line[0]] + arg, rest)
    }
}

/// What follows an argument: nothing, or a space.
pub open spec fn ends_arg(rest: Seq<u16>) -> bool {
    rest.len() == 0 || rest[0] == SPACE
}

/// Backslashes in front are counted.
proof fn lemma_backslashes(n: nat, line: Seq<u16>, in_quotes: bool, run: nat)
    ensures
        crt_arg(backslashes(n) + line, in_quotes, run) == crt_arg(line, in_quotes, run + n),
    decreases n,
{
    if n == 0 {
        assert(backslashes(0) + line =~= line);
    } else {
        let whole = backslashes(n) + line;
        assert(whole[0] == BACKSLASH);
        assert(whole.skip(1) =~= backslashes((n - 1) as nat) + line);
        lemma_backslashes((n - 1) as nat, line, in_quotes, run + 1);
    }
}

/// What stands between quotes reads back as the argument.
proof fn lemma_escaped(arg: Seq<u16>, run: nat, rest: Seq<u16>)
    requires
        ends_arg(rest),
    ensures
        crt_arg(escaped(arg, run) + seq![QUOTE] + rest, true, run) == (
            backslashes(run) + arg,
            rest,
        ),
    decreases arg.len(),
{
    let line = escaped(arg, run) + seq![QUOTE] + rest;
    let closing = seq![QUOTE] + rest;
    if arg.len() == 0 {
        assert(line =~= backslashes(run) + closing);
        lemma_backslashes(run, closing, true, run);
        assert(closing.skip(1) =~= rest);
        assert((run + run) % 2 == 0 && (run + run) / 2 == run) by (nonlinear_arith);
        assert(crt_arg(rest, false, 0) == (backslashes(0), rest));
        assert(backslashes(run) + backslashes(0) =~= backslashes(run) + arg);
    } else {
        let tail = arg.skip(1);
        if arg[0] == BACKSLASH {
            lemma_escaped(tail, run + 1, rest);
            assert(line.skip(1) =~= escaped(tail, run + 1) + seq![QUOTE] + rest);
            assert(backslashes(run + 1) + tail =~= backslashes(run) + arg);
        } else if arg[0] == QUOTE {
            lemma_escaped(tail, 0, rest);
            let after = seq![QUOTE] + (escaped(tail, 0) + seq![QUOTE] + rest);
            assert(line =~= backslashes(run + 1) + after);
            lemma_backslashes(run + 1, after, true, run);
            assert(after.skip(1) =~= escaped(tail, 0) + seq![QUOTE] + rest);
            assert((run + (run + 1)) % 2 == 1 && (run + (run + 1)) / 2 == run)
                by (nonlinear_arith);
            assert(backslashes(run) + seq![QUOTE] + (backslashes(0) + tail) =~= backslashes(run)
                + arg);
        } else {
            lemma_escaped(tail, 0, rest);
            assert(line.skip(1) =~= escaped(tail, 0) + seq![QUOTE] + rest);
            assert(line[0] == arg[0]);
            assert(backslashes(run) + seq![arg[0]] + (backslashes(0) + tail) =~= backslashes(run)
                + arg);
        }
    }
}

/// What needs no quotes reads back as it stands.
proof fn lemma_plain(arg: Seq<u16>, run: nat, rest: Seq<u16>)
    requires
        !arg.contains(SPACE),
        !arg.contains(TAB),
        !arg.contains(QUOTE),
        ends_arg(rest),
    ensures
        crt_arg(arg + rest, false, run) == (backslashes(run) + arg, rest),
    decreases arg.len(),
{
    let line = arg + rest;
    if arg.len() == 0 {
        assert(line =~= rest);
        assert(backslashes(run) + arg =~= backslashes(run));
    } else {
        let tail = arg.skip(1);
        assert(arg.contains(arg[0]));
        assert forall|u: u16| tail.contains(u) implies arg.contains(u) by {
            let i = choose|i: int| 0 <= i < tail.len() && tail[i] == u;
            assert(arg[i + 1] == u);
        }
        assert(line.skip(1) =~= tail + rest);
        assert(line[0] == arg[0]);
        if arg[0] == BACKSLASH {
            lemma_plain(tail, run + 1, rest);
            assert(backslashes(run + 1) + tail =~= backslashes(run) + arg);
        } else {
            lemma_plain(tail, 0, rest);
            assert(backslashes(run) + seq![arg[0]] + (backslashes(0) + tail) =~= backslashes(run)
                + arg);
        }
    }
}

/// The C runtime reads every argument back exactly as it was given, whatever it
/// holds and whatever follows it.
pub proof fn quoted_argument_reads_back(arg: Seq<u16>, rest: Seq<u16>)
    requires
        ends_arg(rest),
    ensures
        crt_arg(quoted(arg) + rest, false, 0) == (arg, rest),
{
    if needs_quotes(arg) {
        let line = quoted(arg) + rest;
        let inner = escaped(arg, 0) + seq![QUOTE] + rest;
        assert(line.skip(1) =~= inner);
        assert(line[0] == QUOTE);
        lemma_escaped(arg, 0, rest);
        assert(backslashes(0) + (backslashes(0) + arg) =~= arg);
    } else {
        lemma_plain(arg, 0, rest);
        assert(backslashes(0) + arg =~= arg);
    }
}

/// Quoting adds no zero unit.
pub proof fn quoting_adds_no_terminator(arg: Seq<u16>)
    requires
        !arg.contains(0u16),
    ensures
        !quoted(arg).contains(0u16),
{
    if needs_quotes(arg) {
        lemma_escaped_has_no_zero(arg, 0);
        let line = quoted(arg);
        assert forall|i: int| 0 <= i < line.len() implies line[i] != 0 by {
            if 0 < i < line.len() - 1 {
                assert(line[i] == escaped(arg, 0)[i - 1]);
            }
        }
    }
}

proof fn lemma_escaped_has_no_zero(arg: Seq<u16>, run: nat)
    requires
        !arg.contains(0u16),
    ensures
        forall|i: int| 0 <= i < escaped(arg, run).len() ==> #[trigger] escaped(arg, run)[i] != 0,
    decreases arg.len(),
{
    if arg.len() > 0 {
        let tail = arg.skip(1);
        assert(arg.contains(arg[0]));
        assert(!tail.contains(0u16)) by {
            if tail.contains(0u16) {
                let i = choose|i: int| 0 <= i < tail.len() && tail[i] == 0;
                assert(arg[i + 1] == 0);
            }
        }
        lemma_escaped_has_no_zero(tail, run + 1);
        lemma_escaped_has_no_zero(tail, 0);
        let line = escaped(arg, run);
        assert forall|i: int| 0 <= i < line.len() implies line[i] != 0 by {
            if arg[0] == BACKSLASH {
                if i > 0 {
                    assert(line[i] == escaped(tail, run + 1)[i - 1]);
                }
            } else if arg[0] == QUOTE {
                if i > run + 1 {
                    assert(line[i] == escaped(tail, 0)[i - run - 2]);
                }
            } else if i > 0 {
                assert(line[i] == escaped(tail, 0)[i - 1]);
            }
        }
    }
}

/// Takes the program off the front of a command line as the C runtime does: up
/// to the closing quote, nothing being escaped; gives the program and what is
/// left.
pub open spec fn crt_program(line: Seq<u16>) -> (Seq<u16>, Seq<u16>) {
    let end = first_quote(line.skip(1));
    (line.skip(1).take(end), line.skip(1).skip(end + 1))
}

/// Where the first quote of `line` stands, or its length.
pub open spec fn first_quote(line: Seq<u16>) -> int
    decreases line.len(),
{
    if line.len() == 0 || line[0] == QUOTE {
        0
    } else {
        1 + first_quote(line.skip(1))
    }
}

/// A program in quotes, which holds none itself, reads back as it is.
pub proof fn quoted_program_reads_back(program: Seq<u16>, rest: Seq<u16>)
    requires
        !program.contains(QUOTE),
    ensures
        crt_program(seq![QUOTE] + program + seq![QUOTE] + rest) == (program, rest),
{
    let line = seq![QUOTE] + program + seq![QUOTE] + rest;
    lemma_first_quote(program, rest);
    assert(line.skip(1) =~= program + seq![QUOTE] + rest);
    assert(line.skip(1).take(program.len() as int) =~= program);
    assert(line.skip(1).skip(program.len() as int + 1) =~= rest);
}

proof fn lemma_first_quote(front: Seq<u16>, rest: Seq<u16>)
    requires
        !front.contains(QUOTE),
    ensures
        first_quote(front + seq![QUOTE] + rest) == front.len(),
    decreases front.len(),
{
    let whole = front + seq![QUOTE] + rest;
    if front.len() > 0 {
        let tail = front.skip(1);
        assert(front.contains(front[0]));
        assert(!tail.contains(QUOTE)) by {
            if tail.contains(QUOTE) {
                let i = choose|i: int| 0 <= i < tail.len() && tail[i] == QUOTE;
                assert(front[i + 1] == QUOTE);
            }
        }
        lemma_first_quote(tail, rest);
        assert(whole.skip(1) =~= tail + seq![QUOTE] + rest);
        assert(whole[0] == front[0]);
    } else {
        assert(whole[0] == QUOTE);
    }
}

/// How arguments are written one after the other, each after a space.
pub open spec fn quoted_args(args: Seq<Seq<u16>>) -> Seq<u16>
    decreases args.len(),
{
    if args.len() == 0 {
        seq![]
    } else {
        seq![SPACE] + quoted(args[0]) + quoted_args(args.skip(1))
    }
}

/// The first `n` arguments that the C runtime takes off a command line, each
/// after one space, and what is left.
pub open spec fn crt_args(line: Seq<u16>, n: nat) -> (Seq<Seq<u16>>, Seq<u16>)
    decreases n,
{
    if n == 0 || line.len() == 0 {
        (seq![], line)
    } else {
        let (arg, rest) = crt_arg(line.skip(1), false, 0);
        let (args, left) = crt_args(rest, (n - 1) as nat);
        (seq![arg] + args, left)
    }
}

/// A program receives exactly the arguments that were given, in their order, and
/// nothing else.
pub proof fn arguments_reach_the_program(args: Seq<Seq<u16>>)
    ensures
        crt_args(quoted_args(args), args.len()) == (args, Seq::<u16>::empty()),
    decreases args.len(),
{
    if args.len() > 0 {
        let tail = args.skip(1);
        let rest = quoted_args(tail);
        let line = quoted_args(args);
        arguments_reach_the_program(tail);
        assert(ends_arg(rest));
        quoted_argument_reads_back(args[0], rest);
        assert(line.skip(1) =~= quoted(args[0]) + rest);
        assert(seq![args[0]] + tail =~= args);
    }
}

/// What stands between quotes is not shorter than the argument.
proof fn lemma_escaped_len(arg: Seq<u16>, run: nat)
    ensures
        escaped(arg, run).len() >= arg.len(),
    decreases arg.len(),
{
    if arg.len() > 0 {
        lemma_escaped_len(arg.skip(1), run + 1);
        lemma_escaped_len(arg.skip(1), 0);
    }
}

/// An argument stands as it is exactly where it is not empty and holds no space,
/// no tab, no quote and no vertical bar. Any other stands between two quotes.
pub proof fn only_what_must_be_is_quoted(arg: Seq<u16>)
    ensures
        quoted(arg) == arg <==> {
            &&& arg.len() > 0
            &&& forall|i: int|
                0 <= i < arg.len() ==> #[trigger] arg[i] != 0x20 && arg[i] != 0x09 && arg[i]
                    != 0x22 && arg[i] != 0x7C
        },
        quoted(arg) != arg ==> {
            &&& quoted(arg).len() >= arg.len() + 2
            &&& quoted(arg)[0] == 0x22
            &&& quoted(arg).last() == 0x22
            &&& quoted(arg) == seq![0x22u16] + escaped(arg, 0) + seq![0x22u16]
        },
{
    lemma_escaped_len(arg, 0);
    if needs_quotes(arg) {
        assert(quoted(arg).len() >= arg.len() + 2);
        if arg.len() > 0 {
            let unit: u16 = if arg.contains(SPACE) {
                SPACE
            } else if arg.contains(TAB) {
                TAB
            } else if arg.contains(QUOTE) {
                QUOTE
            } else {
                BAR
            };
            let i = choose|i: int| 0 <= i < arg.len() && arg[i] == unit;
            assert(arg[i] == unit);
        }
    } else {
        assert forall|i: int| 0 <= i < arg.len() implies #[trigger] arg[i] != 0x20 && arg[i] != 0x09
            && arg[i] != 0x22 && arg[i] != 0x7C by {
            assert(arg.contains(arg[i]));
        }
    }
}

proof fn lemma_escaped_quote(before: Seq<u16>, after: Seq<u16>, run: nat)
    ensures
        escaped(before + seq![QUOTE] + after, run) == escaped(before, run) + seq![BACKSLASH, QUOTE]
            + escaped(after, 0),
    decreases before.len(),
{
    let whole = before + seq![QUOTE] + after;
    let tail = escaped(after, 0);
    if before.len() == 0 {
        assert(whole.skip(1) =~= after);
        assert(backslashes(run + 1) + seq![QUOTE] + tail =~= backslashes(run) + seq![
            BACKSLASH,
            QUOTE,
        ] + tail);
    } else {
        let rest = before.skip(1);
        assert(whole[0] == before[0]);
        assert(whole.skip(1) =~= rest + seq![QUOTE] + after);
        lemma_escaped_quote(rest, after, run + 1);
        lemma_escaped_quote(rest, after, 0);
        assert(escaped(whole, run) =~= escaped(before, run) + seq![BACKSLASH, QUOTE] + tail);
    }
}

/// Between quotes, a quote of the argument stands behind a backslash, and what is
/// before and behind it is written as it would be alone.
pub proof fn inner_quotes_are_escaped(before: Seq<u16>, after: Seq<u16>)
    ensures
        escaped(before + seq![0x22u16] + after, 0) == escaped(before, 0) + seq![
            0x5Cu16,
            0x22u16,
        ] + escaped(after, 0),
{
    lemma_escaped_quote(before, after, 0);
}

proof fn lemma_escaped_run(n: nat, run: nat)
    ensures
        escaped(backslashes(n), run) == backslashes(run + 2 * n),
    decreases n,
{
    if n > 0 {
        let rest = backslashes((n - 1) as nat);
        assert(backslashes(n).skip(1) =~= rest);
        lemma_escaped_run((n - 1) as nat, run + 1);
        assert(seq![BACKSLASH] + backslashes((run + 1) + 2 * (n - 1) as nat) =~= backslashes(
            run + 2 * n,
        ));
    } else {
        assert(backslashes(0).len() == 0);
    }
}

proof fn lemma_escaped_plain(text: Seq<u16>, n: nat, run: nat)
    requires
        text.len() > 0,
        text.last() != BACKSLASH,
        !text.contains(QUOTE),
    ensures
        escaped(text + backslashes(n), run) == text + backslashes(2 * n),
    decreases text.len(),
{
    let whole = text + backslashes(n);
    let rest = text.skip(1);
    assert(text.contains(text[0]));
    assert(whole[0] == text[0]);
    assert(whole.skip(1) =~= rest + backslashes(n));
    if rest.len() == 0 {
        assert(rest + backslashes(n) =~= backslashes(n));
        lemma_escaped_run(n, 0);
        assert(seq![text[0]] + backslashes(2 * n) =~= text + backslashes(2 * n));
    } else {
        assert(!rest.contains(QUOTE)) by {
            if rest.contains(QUOTE) {
                let i = choose|i: int| 0 <= i < rest.len() && rest[i] == QUOTE;
                assert(text[i + 1] == QUOTE);
            }
        }
        lemma_escaped_plain(rest, n, run + 1);
        lemma_escaped_plain(rest, n, 0);
        assert(seq![text[0]] + (rest + backslashes(2 * n)) =~= text + backslashes(2 * n));
    }
}

/// Between quotes, text without a quote stands as it is, but for the backslashes
/// that end it: those, which a quote follows, are doubled.
pub proof fn only_final_backslashes_are_doubled(text: Seq<u16>, n: nat)
    requires
        text.len() == 0 || text.last() != 0x5C,
        !text.contains(0x22u16),
    ensures
        escaped(text + Seq::new(n, |i: int| 0x5Cu16), 0) == text + Seq::new(
            2 * n,
            |i: int| 0x5Cu16,
        ),
{
    assert(Seq::new(n, |i: int| 0x5Cu16) =~= backslashes(n));
    assert(Seq::new(2 * n, |i: int| 0x5Cu16) =~= backslashes(2 * n));
    if text.len() == 0 {
        lemma_escaped_run(n, 0);
        assert(text + backslashes(n) =~= backslashes(n));
        assert(text + backslashes(2 * n) =~= backslashes(2 * n));
    } else {
        lemma_escaped_plain(text, n, 0);
    }
}

} // verus!
