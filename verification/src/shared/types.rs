//! Units, and numbers that stand for a quotient.

use vstd::prelude::*;

verus! {

/// A time in microseconds.
#[derive(Debug, Clone, Copy, PartialEq, PartialOrd)]
pub struct Microseconds(pub u64);

/// A quotient that is kept as its two parts; it stands for `numer / denom`.
#[derive(Debug, Clone, Copy, PartialEq, Eq, Structural)]
pub struct Ratio {
    pub numer: u64,
    pub denom: u64,
}

impl Ratio {
    /// The quotient is at least `percent` of a hundred. Nothing is of a quotient without a
    /// denominator.
    pub open spec fn at_least(self, percent: u64) -> bool {
        self.denom > 0 && self.numer * 100 >= percent * self.denom
    }

    /// The quotient is more than `percent` of a hundred. Nothing is of a quotient without a
    /// denominator.
    pub open spec fn above(self, percent: u64) -> bool {
        self.denom > 0 && self.numer * 100 > percent * self.denom
    }

    /// Whether the quotient is at least `percent` of a hundred.
    pub fn is_at_least(self, percent: u64) -> (r: bool)
        ensures
            r == self.at_least(percent),
    {
        proof {
            lemma_product_fits(self.numer, 100);
            lemma_product_fits(percent, self.denom);
        }
        self.denom > 0 && (self.numer as u128) * 100 >= (percent as u128) * (self.denom as u128)
    }

    /// Whether the quotient is more than `percent` of a hundred.
    pub fn is_above(self, percent: u64) -> (r: bool)
        ensures
            r == self.above(percent),
    {
        proof {
            lemma_product_fits(self.numer, 100);
            lemma_product_fits(percent, self.denom);
        }
        self.denom > 0 && (self.numer as u128) * 100 > (percent as u128) * (self.denom as u128)
    }
}

proof fn lemma_product_fits(a: u64, b: u64)
    ensures
        0 <= a * b <= u128::MAX,
{
    assert(0 <= a * b <= u128::MAX) by (nonlinear_arith)
        requires
            0 <= a <= u64::MAX,
            0 <= b <= u64::MAX,
    ;
}

/// The distance between two numbers.
pub open spec fn distance(a: u64, b: u64) -> u64 {
    if a >= b {
        (a - b) as u64
    } else {
        (b - a) as u64
    }
}

/// The distance between two numbers.
pub fn abs_diff(a: u64, b: u64) -> (r: u64)
    ensures
        r == distance(a, b),
{
    if a >= b {
        a - b
    } else {
        b - a
    }
}

/// `a - b`, or zero where `b` is the larger.
pub open spec fn since(a: u64, b: u64) -> u64 {
    if a >= b {
        (a - b) as u64
    } else {
        0
    }
}

/// The value of `x` read as a signed number of 64 bits.
pub open spec fn signed(x: u64) -> int {
    if x <= i64::MAX {
        x as int
    } else {
        x - 0x1_0000_0000_0000_0000
    }
}

/// `a - b`, where both are read as signed numbers.
pub fn signed_diff(a: u64, b: u64) -> (r: i64)
    requires
        i64::MIN <= signed(a) - signed(b) <= i64::MAX,
    ensures
        r == signed(a) - signed(b),
{
    signed_of(a) - signed_of(b)
}

fn signed_of(x: u64) -> (r: i64)
    ensures
        r == signed(x),
{
    if x <= i64::MAX as u64 {
        x as i64
    } else {
        let below: u64 = u64::MAX - x;
        -(below as i64) - 1
    }
}

} // verus!
