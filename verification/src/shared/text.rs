//! Decimal rendering of numbers and of elapsed time.

use vstd::prelude::*;
use vstd::string::*;

verus! {

/// The character for one decimal digit.
pub open spec fn digit_char(d: nat) -> char {
    if d == 0 {
        '0'
    } else if d == 1 {
        '1'
    } else if d == 2 {
        '2'
    } else if d == 3 {
        '3'
    } else if d == 4 {
        '4'
    } else if d == 5 {
        '5'
    } else if d == 6 {
        '6'
    } else if d == 7 {
        '7'
    } else if d == 8 {
        '8'
    } else {
        '9'
    }
}

/// The decimal digits of `n`, most significant first, without leading zeros.
pub open spec fn decimal(n: nat) -> Seq<char>
    decreases n,
{
    if n < 10 {
        seq![digit_char(n)]
    } else {
        decimal(n / 10).push(digit_char(n % 10))
    }
}

/// `n` in decimal, filled up with zeros on the left to at least `width` digits.
pub open spec fn padded(n: nat, width: nat) -> Seq<char> {
    let digits = decimal(n);
    if digits.len() >= width {
        digits
    } else {
        Seq::new((width - digits.len()) as nat, |i: int| '0') + digits
    }
}

fn digit_str(d: u64) -> (r: &'static str)
    requires
        d < 10,
    ensures
        r@ == seq![digit_char(d as nat)],
{
    proof {
        reveal_strlit("0");
        reveal_strlit("1");
        reveal_strlit("2");
        reveal_strlit("3");
        reveal_strlit("4");
        reveal_strlit("5");
        reveal_strlit("6");
        reveal_strlit("7");
        reveal_strlit("8");
        reveal_strlit("9");
    }
    let r = match d {
        0 => "0",
        1 => "1",
        2 => "2",
        3 => "3",
        4 => "4",
        5 => "5",
        6 => "6",
        7 => "7",
        8 => "8",
        _ => "9",
    };
    assert(r@ =~= seq![digit_char(d as nat)]);
    r
}

/// Appends `n` in decimal to `out`.
pub fn append_decimal(out: &mut String, n: u64)
    ensures
        final(out)@ == old(out)@ + decimal(n as nat),
    decreases n,
{
    if n >= 10 {
        append_decimal(out, n / 10);
    }
    out.append(digit_str(n % 10));
    assert(out@ =~= old(out)@ + decimal(n as nat));
}

/// How many digits the numbers below a hundred have.
pub proof fn lemma_decimal_len(n: nat)
    ensures
        decimal(n).len() == 1 <==> n < 10,
        n < 100 ==> decimal(n).len() <= 2,
        decimal(n).len() == 2 <==> 10 <= n < 100,
        decimal(n).len() >= 1,
    decreases n,
{
    if n >= 10 {
        lemma_decimal_len(n / 10);
    }
}

/// The numbers below a thousand have three digits at most.
pub proof fn lemma_decimal_len3(n: nat)
    requires
        n < 1000,
    ensures
        decimal(n).len() <= 3,
{
    lemma_decimal_len(n);
    lemma_decimal_len(n / 10);
}

/// Appends `n` in decimal to `out`, filled up with zeros to two digits.
pub fn append_padded2(out: &mut String, n: u64)
    ensures
        final(out)@ == old(out)@ + padded(n as nat, 2),
{
    let ghost before = out@;
    proof {
        lemma_decimal_len(n as nat);
        reveal_strlit("0");
    }
    if n < 10 {
        out.append("0");
    }
    append_decimal(out, n);
    assert(out@ =~= before + padded(n as nat, 2));
}

/// Appends `n` in decimal to `out`, filled up with zeros to three digits.
pub fn append_padded3(out: &mut String, n: u64)
    ensures
        final(out)@ == old(out)@ + padded(n as nat, 3),
{
    let ghost before = out@;
    proof {
        lemma_decimal_len(n as nat);
        reveal_strlit("0");
        reveal_strlit("00");
    }
    if n < 10 {
        out.append("00");
    } else if n < 100 {
        out.append("0");
    }
    append_decimal(out, n);
    assert(out@ =~= before + padded(n as nat, 3));
}

/// Hours, minutes and seconds of `elapsed_ms`, as in `01:02:03`.
pub open spec fn clock_hms(elapsed_ms: u64) -> Seq<char> {
    let secs = (elapsed_ms / 1000) as nat;
    padded(secs / 3600, 2) + ":"@ + padded((secs % 3600) / 60, 2) + ":"@ + padded(secs % 60, 2)
}

/// `elapsed_ms` down to the millisecond, as in `01:02:03.004`.
pub open spec fn clock_millis(elapsed_ms: u64) -> Seq<char> {
    clock_hms(elapsed_ms) + "."@ + padded((elapsed_ms % 1000) as nat, 3)
}

/// Appends hours, minutes and seconds of `elapsed_ms` to `out`.
pub fn append_clock_hms(out: &mut String, elapsed_ms: u64)
    ensures
        final(out)@ == old(out)@ + clock_hms(elapsed_ms),
{
    let ghost before = out@;
    let secs: u64 = elapsed_ms / 1000;
    append_padded2(out, secs / 3600);
    out.append(":");
    append_padded2(out, (secs % 3600) / 60);
    out.append(":");
    append_padded2(out, secs % 60);
    assert(out@ =~= before + clock_hms(elapsed_ms));
}

/// Appends `elapsed_ms` down to the millisecond to `out`.
pub fn append_clock_millis(out: &mut String, elapsed_ms: u64)
    ensures
        final(out)@ == old(out)@ + clock_millis(elapsed_ms),
{
    let ghost before = out@;
    append_clock_hms(out, elapsed_ms);
    out.append(".");
    append_padded3(out, elapsed_ms % 1000);
    assert(out@ =~= before + clock_millis(elapsed_ms));
}

/// A signed number in decimal.
pub open spec fn signed_decimal(n: int) -> Seq<char> {
    if n < 0 {
        "-"@ + decimal((-n) as nat)
    } else {
        decimal(n as nat)
    }
}

/// Appends a signed number in decimal.
pub fn append_signed(out: &mut String, n: i64)
    ensures
        final(out)@ == old(out)@ + signed_decimal(n as int),
{
    if n < 0 {
        out.append("-");
        let below: i64 = -(n + 1);
        let magnitude: u64 = below as u64 + 1;
        append_decimal(out, magnitude);
        assert(out@ =~= old(out)@ + signed_decimal(n as int));
    } else {
        append_decimal(out, n as u64);
    }
}

} // verus!
