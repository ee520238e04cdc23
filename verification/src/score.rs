//! Scores, thresholds and qualities, held as the bit pattern of an IEEE 754
//! single-precision number and compared as that number would be.
//!
//! A pattern has a sign bit, eight exponent bits and twenty-three fraction
//! bits. Among the patterns that are numbers, the lower thirty-one bits read
//! as an integer grow with the absolute value, so the signed reading of that
//! integer orders them; both zeros read as 0. A pattern whose lower bits
//! exceed those of infinity is not a number and compares false with
//! everything, itself included.

use vstd::prelude::*;
use vstd::arithmetic::power2::lemma2_to64;
use vstd::arithmetic::power2::lemma_pow2_adds;
use vstd::arithmetic::power2::lemma_pow2_pos;
use vstd::arithmetic::power2::lemma_pow2_strictly_increases;
use vstd::arithmetic::power2::lemma_pow2_unfold;
use vstd::arithmetic::power2::pow2;

verus! {

/// Two to the number of fraction bits: the weight of the implicit bit.
pub const IMPLICIT_BIT: u32 = 0x80_0000;

/// The lower thirty-one bits of positive infinity.
pub const INFINITY_MAGNITUDE: u32 = 0x7f80_0000;

/// The sign bit.
pub const SIGN_BIT: u32 = 0x8000_0000;

/// The bit pattern of -1, below every score a frame can have.
pub const MINUS_ONE_BITS: u32 = 0xbf80_0000;

/// A single-precision number by its bits.
#[derive(Clone, Copy, Debug)]
pub struct Score {
    pub bits: u32,
}

impl Score {
    /// The lower thirty-one bits, read as an integer.
    pub open spec fn magnitude(self) -> int {
        self.bits as int % (SIGN_BIT as int)
    }

    /// Whether the sign bit is set.
    pub open spec fn negative(self) -> bool {
        self.bits >= SIGN_BIT
    }

    /// Whether the pattern is not a number.
    pub open spec fn is_nan(self) -> bool {
        self.magnitude() > INFINITY_MAGNITUDE
    }

    /// The integer that orders the patterns that are numbers.
    pub open spec fn rank(self) -> int {
        if self.negative() {
            -self.magnitude()
        } else {
            self.magnitude()
        }
    }

    /// The eight exponent bits.
    pub open spec fn exponent(self) -> int {
        self.magnitude() / (IMPLICIT_BIT as int)
    }

    /// The twenty-three fraction bits.
    pub open spec fn fraction(self) -> int {
        self.magnitude() % (IMPLICIT_BIT as int)
    }

    /// The absolute value of the number, in units of the least positive one
    /// (two to the power of -149): the fraction where the exponent bits are
    /// zero, else the fraction with the implicit bit before it, doubled once
    /// for each step of the exponent above one. Infinity, read the same way,
    /// comes out above every finite number.
    pub open spec fn scaled_magnitude(self) -> int {
        if self.exponent() == 0 {
            self.fraction()
        } else {
            (IMPLICIT_BIT + self.fraction()) * pow2((self.exponent() - 1) as nat)
        }
    }

    /// The number, in units of the least positive one.
    pub open spec fn scaled_value(self) -> int {
        if self.negative() {
            -self.scaled_magnitude()
        } else {
            self.scaled_magnitude()
        }
    }

    /// `self >= other` as numbers: false where either is not a number.
    pub open spec fn spec_ge(self, other: Score) -> bool {
        !self.is_nan() && !other.is_nan() && self.rank() >= other.rank()
    }

    /// `self > other` as numbers: false where either is not a number.
    pub open spec fn spec_gt(self, other: Score) -> bool {
        !self.is_nan() && !other.is_nan() && self.rank() > other.rank()
    }

    /// The score with the given bits.
    pub fn from_bits(bits: u32) -> (s: Score)
        ensures
            s.bits == bits,
    {
        Score { bits }
    }

    /// The bits of this score.
    pub fn to_bits(&self) -> (bits: u32)
        ensures
            bits == self.bits,
    {
        self.bits
    }

    /// The score -1.
    pub fn minus_one() -> (s: Score)
        ensures
            s.bits == MINUS_ONE_BITS,
    {
        Score { bits: MINUS_ONE_BITS }
    }

    /// Whether this pattern is not a number.
    pub fn nan(&self) -> (b: bool)
        ensures
            b == self.is_nan(),
    {
        self.bits % SIGN_BIT > INFINITY_MAGNITUDE
    }

    /// The rank of this pattern.
    pub fn ordinal(&self) -> (r: i64)
        ensures
            r == self.rank(),
    {
        let magnitude: u32 = self.bits % SIGN_BIT;
        if self.bits >= SIGN_BIT {
            -(magnitude as i64)
        } else {
            magnitude as i64
        }
    }

    /// `self >= other` as numbers.
    pub fn ge(&self, other: &Score) -> (b: bool)
        ensures
            b == self.spec_ge(*other),
    {
        !self.nan() && !other.nan() && self.ordinal() >= other.ordinal()
    }

    /// `self > other` as numbers.
    pub fn gt(&self, other: &Score) -> (b: bool)
        ensures
            b == self.spec_gt(*other),
    {
        !self.nan() && !other.nan() && self.ordinal() > other.ordinal()
    }
}

/// A pattern with fewer doublings has the lesser absolute value, whatever
/// the fractions are.
proof fn lemma_exponent_outweighs_fraction(a: Score, b: Score)
    requires
        a.exponent() < b.exponent(),
    ensures
        a.scaled_magnitude() < b.scaled_magnitude(),
{
    let high = pow2((b.exponent() - 1) as nat);
    lemma_pow2_pos((b.exponent() - 1) as nat);
    assert(IMPLICIT_BIT * high <= b.scaled_magnitude()) by (nonlinear_arith)
        requires
            b.scaled_magnitude() == (IMPLICIT_BIT + b.fraction()) * high,
            b.fraction() >= 0,
            high > 0,
    ;
    if a.exponent() > 0 {
        let low = pow2((a.exponent() - 1) as nat);
        lemma_pow2_pos((a.exponent() - 1) as nat);
        lemma_pow2_unfold(a.exponent() as nat);
        if a.exponent() < b.exponent() - 1 {
            lemma_pow2_strictly_increases(a.exponent() as nat, (b.exponent() - 1) as nat);
        }
        assert(a.scaled_magnitude() < IMPLICIT_BIT * high) by (nonlinear_arith)
            requires
                a.scaled_magnitude() == (IMPLICIT_BIT + a.fraction()) * low,
                a.fraction() < IMPLICIT_BIT,
                low > 0,
                2 * low <= high,
        ;
    }
}

/// The lower bits of two patterns compare as the absolute values of their
/// numbers do.
proof fn lemma_magnitude_orders_absolute_values(a: Score, b: Score)
    ensures
        a.magnitude() < b.magnitude() ==> a.scaled_magnitude() < b.scaled_magnitude(),
        a.magnitude() == b.magnitude() ==> a.scaled_magnitude() == b.scaled_magnitude(),
        a.scaled_magnitude() >= 0,
{
    if a.exponent() > 0 {
        lemma_pow2_pos((a.exponent() - 1) as nat);
    }
    if a.magnitude() < b.magnitude() {
        if a.exponent() < b.exponent() {
            lemma_exponent_outweighs_fraction(a, b);
        } else if a.exponent() > 0 {
            let doublings = pow2((a.exponent() - 1) as nat);
            assert((IMPLICIT_BIT + a.fraction()) * doublings < (IMPLICIT_BIT + b.fraction())
                * doublings) by (nonlinear_arith)
                requires
                    a.fraction() < b.fraction(),
                    doublings > 0,
            ;
        }
    }
}

/// The pattern of -1 is a number, and that number is -1: two to the power
/// of 149 units below zero.
pub proof fn law_minus_one_is_a_number(s: Score)
    requires
        s.bits == MINUS_ONE_BITS,
    ensures
        !s.is_nan(),
        s.rank() == -0x3f80_0000,
        s.scaled_value() == -pow2(149),
{
    lemma2_to64();
    lemma_pow2_adds(23, 126);
}

/// The rank orders the patterns as their numbers are ordered: of two
/// patterns that are numbers, the rank of one is below the rank of the
/// other exactly where its number is the lesser, and the ranks are equal
/// exactly where the numbers are.
pub proof fn law_rank_orders_values(a: Score, b: Score)
    requires
        !a.is_nan(),
        !b.is_nan(),
    ensures
        a.rank() < b.rank() <==> a.scaled_value() < b.scaled_value(),
        a.rank() == b.rank() <==> a.scaled_value() == b.scaled_value(),
        a.spec_ge(b) <==> a.scaled_value() >= b.scaled_value(),
        a.spec_gt(b) <==> a.scaled_value() > b.scaled_value(),
{
    lemma_magnitude_orders_absolute_values(a, b);
    lemma_magnitude_orders_absolute_values(b, a);
    let zero = Score { bits: 0 };
    lemma_magnitude_orders_absolute_values(zero, a);
    lemma_magnitude_orders_absolute_values(zero, b);
}

} // verus!
