//! The runtime report: one decimal line per training run.
//!
//! After the last run the program writes a plain-text file whose `i`-th line
//! is the elapsed milliseconds of run `i`, newline-terminated, with no header
//! and no label. This module renders those bytes and proves that the file
//! holds exactly one line per recorded runtime, in order, each line a decimal
//! numeral whose value is that runtime.

use vstd::prelude::*;

verus! {

/// ASCII code of the zero digit.
pub open spec fn zero_digit() -> u8 {
    48
}

/// ASCII code of the line feed that terminates each line.
pub open spec fn newline() -> u8 {
    10
}

/// Whether a byte is an ASCII decimal digit.
pub open spec fn is_digit(b: u8) -> bool {
    zero_digit() <= b <= zero_digit() + 9
}

/// The decimal numeral of `n`, most significant digit first, as ASCII bytes.
pub open spec fn dec_digits(n: nat) -> Seq<u8>
    decreases n,
{
    if n < 10 {
        seq![(zero_digit() + n) as u8]
    } else {
        dec_digits(n / 10).push((zero_digit() + n % 10) as u8)
    }
}

/// The number a digit string denotes, read in base ten.
pub open spec fn dec_value(s: Seq<u8>) -> int
    decreases s.len(),
{
    if s.len() == 0 {
        0
    } else {
        dec_value(s.drop_last()) * 10 + (s.last() - zero_digit())
    }
}

/// How many times the byte `b` occurs in `s`.
pub open spec fn count_byte(s: Seq<u8>, b: u8) -> nat
    decreases s.len(),
{
    if s.len() == 0 {
        0
    } else {
        count_byte(s.drop_last(), b) + (if s.last() == b {
            1nat
        } else {
            0nat
        })
    }
}

/// The whole report: the numeral of each runtime followed by a line feed,
/// in the order the runtimes were recorded.
pub open spec fn report_bytes(ts: Seq<u128>) -> Seq<u8>
    decreases ts.len(),
{
    if ts.len() == 0 {
        Seq::empty()
    } else {
        report_bytes(ts.drop_last()) + dec_digits(ts.last() as nat) + seq![newline()]
    }
}

/// A numeral consists of digits alone; in particular it holds no line feed.
pub proof fn lemma_dec_digits_are_digits(n: nat)
    ensures
        dec_digits(n).len() >= 1,
        forall|i: int| 0 <= i < dec_digits(n).len() ==> is_digit(#[trigger] dec_digits(n)[i]),
    decreases n,
{
    if n >= 10 {
        lemma_dec_digits_are_digits(n / 10);
    }
}

/// Reading the numeral of `n` back in base ten yields `n` again.
pub proof fn lemma_dec_digits_value(n: nat)
    ensures
        dec_value(dec_digits(n)) == n,
    decreases n,
{
    let s = dec_digits(n);
    if n < 10 {
        assert(s.len() == 1);
        assert(s.drop_last() =~= Seq::<u8>::empty());
        assert(dec_value(s.drop_last()) == 0);
        assert(s.last() == (zero_digit() + n) as u8);
        assert((zero_digit() + n) as u8 == zero_digit() + n);
    } else {
        lemma_dec_digits_value(n / 10);
        assert(s.drop_last() =~= dec_digits(n / 10));
        assert(s.last() == (zero_digit() + n % 10) as u8);
        assert((zero_digit() + n % 10) as u8 == zero_digit() + n % 10);
        assert(dec_value(s) == dec_value(dec_digits(n / 10)) * 10 + n % 10);
        assert(n / 10 * 10 + n % 10 == n);
    }
}

/// Counting a byte distributes over concatenation.
proof fn lemma_count_byte_concat(a: Seq<u8>, c: Seq<u8>, b: u8)
    ensures
        count_byte(a + c, b) == count_byte(a, b) + count_byte(c, b),
    decreases c.len(),
{
    if c.len() == 0 {
        assert(a + c =~= a);
    } else {
        lemma_count_byte_concat(a, c.drop_last(), b);
        assert((a + c).drop_last() =~= a + c.drop_last());
        assert((a + c).last() == c.last());
    }
}

/// A string of digits holds no line feed.
proof fn lemma_digits_hold_no_newline(s: Seq<u8>)
    requires
        forall|i: int| 0 <= i < s.len() ==> is_digit(#[trigger] s[i]),
    ensures
        count_byte(s, newline()) == 0,
    decreases s.len(),
{
    if s.len() > 0 {
        lemma_digits_hold_no_newline(s.drop_last());
    }
}

/// A one-byte string holds its byte once.
proof fn lemma_count_byte_single(b: u8)
    ensures
        count_byte(seq![b], b) == 1,
{
    assert(seq![b].len() == 1);
    assert(seq![b].last() == b);
    assert(seq![b].drop_last() =~= Seq::<u8>::empty());
    assert(count_byte(Seq::<u8>::empty(), b) == 0);
}

/// The report of `ts` holds exactly `ts.len()` line feeds: one line per run.
pub proof fn lemma_report_line_count(ts: Seq<u128>)
    ensures
        count_byte(report_bytes(ts), newline()) == ts.len(),
    decreases ts.len(),
{
    if ts.len() > 0 {
        let head = report_bytes(ts.drop_last());
        let body = dec_digits(ts.last() as nat);
        lemma_report_line_count(ts.drop_last());
        lemma_dec_digits_are_digits(ts.last() as nat);
        lemma_digits_hold_no_newline(body);
        lemma_count_byte_concat(head, body, newline());
        lemma_count_byte_concat(head + body, seq![newline()], newline());
        lemma_count_byte_single(newline());
    }
}

/// The report, split into lines: line `i` is the numeral of runtime `i`
/// followed by a line feed.
pub open spec fn report_lines(ts: Seq<u128>) -> Seq<Seq<u8>> {
    ts.map(|i: int, t: u128| dec_digits(t as nat) + seq![newline()])
}

/// The report is exactly its lines, in recording order: one line per
/// runtime, each terminated by its only line feed, and the digits of line
/// `i` read back as runtime `i`. So a reader that splits the file at the
/// line feeds recovers every runtime, in the order the runs happened.
pub proof fn lemma_report_decomposes(ts: Seq<u128>)
    ensures
        report_lines(ts).len() == ts.len(),
        report_bytes(ts) == report_lines(ts).flatten(),
        forall|i: int|
            0 <= i < ts.len() ==> (#[trigger] report_lines(ts)[i]).last() == newline(),
        forall|i: int|
            0 <= i < ts.len() ==> count_byte(#[trigger] report_lines(ts)[i], newline()) == 1,
        forall|i: int|
            0 <= i < ts.len() ==> dec_value((#[trigger] report_lines(ts)[i]).drop_last()) == ts[i],
    decreases ts.len(),
{
    let lines = report_lines(ts);
    assert forall|i: int| 0 <= i < ts.len() implies {
        &&& (#[trigger] lines[i]).last() == newline()
        &&& count_byte(lines[i], newline()) == 1
        &&& dec_value(lines[i].drop_last()) == ts[i]
    } by {
        let body = dec_digits(ts[i] as nat);
        lemma_dec_digits_are_digits(ts[i] as nat);
        assert(lines[i] =~= body + seq![newline()]);
        assert(lines[i].drop_last() =~= body);
        lemma_dec_digits_value(ts[i] as nat);
        lemma_digits_hold_no_newline(body);
        lemma_count_byte_concat(body, seq![newline()], newline());
        lemma_count_byte_single(newline());
    }
    lemma_report_flattens(ts);
    lines.lemma_flatten_and_flatten_alt_are_equivalent();
}

/// The report bytes are the concatenation of the lines, back to front.
proof fn lemma_report_flattens(ts: Seq<u128>)
    ensures
        report_bytes(ts) == report_lines(ts).flatten_alt(),
    decreases ts.len(),
{
    let lines = report_lines(ts);
    if ts.len() == 0 {
        assert(report_bytes(ts) =~= lines.flatten_alt());
    } else {
        lemma_report_flattens(ts.drop_last());
        assert(lines.drop_last() =~= report_lines(ts.drop_last()));
        assert(lines.last() =~= dec_digits(ts.last() as nat) + seq![newline()]);
        assert(report_bytes(ts) =~= lines.drop_last().flatten_alt() + lines.last());
    }
}

/// Appends the decimal numeral of `n` to `out`.
fn push_dec(n: u128, out: &mut Vec<u8>)
    ensures
        final(out)@ == old(out)@ + dec_digits(n as nat),
    decreases n,
{
    if n >= 10 {
        push_dec(n / 10, out);
    }
    out.push(48 + (n % 10) as u8);
    assert(out@ =~= old(out)@ + dec_digits(n as nat));
}

/// Renders one runtime as the bytes of its own line: its decimal numeral
/// followed by a line feed.
pub fn render_ms(t: u128) -> (line: Vec<u8>)
    ensures
        line@ == dec_digits(t as nat) + seq![newline()],
{
    let mut line: Vec<u8> = Vec::new();
    push_dec(t, &mut line);
    line.push(10);
    assert(line@ =~= dec_digits(t as nat) + seq![newline()]);
    line
}

/// Renders the whole report: the newline-terminated numeral of each runtime,
/// in recording order.
pub fn render_report(ts: &Vec<u128>) -> (out: Vec<u8>)
    ensures
        out@ == report_bytes(ts@),
{
    let mut out: Vec<u8> = Vec::new();
    assert(out@ =~= report_bytes(ts@.take(0)));
    for i in 0..ts.len()
        invariant
            out@ == report_bytes(ts@.take(i as int)),
    {
        push_dec(ts[i], &mut out);
        out.push(10);
        proof {
            let pre = ts@.take(i as int);
            let post = ts@.take(i + 1);
            assert(post.drop_last() =~= pre);
            assert(post.last() == ts@[i as int]);
            assert(out@ =~= report_bytes(pre) + dec_digits(ts@[i as int] as nat) + seq![
                newline(),
            ]);
        }
    }
    assert(ts@.take(ts@.len() as int) =~= ts@);
    out
}

} // verus!
