//! IEEE-754 binary64 values held by their bit patterns.
//!
//! Measurements from the forecast service (temperatures, wind speeds, UV
//! indices, coordinates) are binary64 numbers. The library holds each one by
//! its bit pattern, which is a one-to-one image of the number, and compares
//! them exactly as IEEE-754 orders binary64 numbers: NaN is unordered, the two
//! zeros are equal, and otherwise the order follows the sign and the
//! magnitude bits.

use vstd::prelude::*;

verus! {

/// The sign bit of a binary64 pattern.
pub const SIGN_BIT: u64 = 0x8000_0000_0000_0000;

/// The magnitude bits of positive infinity; a larger magnitude is a NaN.
pub const INFINITY_MAGNITUDE: u64 = 0x7FF0_0000_0000_0000;

/// An IEEE-754 binary64 number, held by its bit pattern.
#[derive(Clone, Copy, Debug)]
pub struct Binary64 {
    pub bits: u64,
}

impl Binary64 {
    /// Whether the sign bit is set.
    pub open spec fn is_negative(self) -> bool {
        self.bits >= SIGN_BIT
    }

    /// The exponent and fraction bits read as one unsigned integer.
    pub open spec fn magnitude(self) -> int {
        if self.is_negative() {
            self.bits - SIGN_BIT
        } else {
            self.bits as int
        }
    }

    /// Whether the pattern is a NaN (all exponent bits set, fraction not zero).
    pub open spec fn is_nan(self) -> bool {
        self.magnitude() > INFINITY_MAGNITUDE
    }

    /// Where the number stands on the extended real line: a larger ordinal is a
    /// larger number, and both zeros have ordinal 0.
    pub open spec fn ordinal(self) -> int {
        if self.is_negative() {
            -self.magnitude()
        } else {
            self.magnitude()
        }
    }

    /// IEEE-754 `self < other`.
    pub open spec fn is_less(self, other: Binary64) -> bool {
        !self.is_nan() && !other.is_nan() && self.ordinal() < other.ordinal()
    }

    /// IEEE-754 `self <= other`.
    pub open spec fn is_at_most(self, other: Binary64) -> bool {
        !self.is_nan() && !other.is_nan() && self.ordinal() <= other.ordinal()
    }

    /// IEEE-754 `self > other`.
    pub open spec fn is_greater(self, other: Binary64) -> bool {
        other.is_less(self)
    }

    /// IEEE-754 `self == other`.
    pub open spec fn is_equal(self, other: Binary64) -> bool {
        !self.is_nan() && !other.is_nan() && self.ordinal() == other.ordinal()
    }

    /// The number whose bit pattern is `bits`.
    pub fn from_bits(bits: u64) -> (r: Binary64)
        ensures
            r.bits == bits,
    {
        Binary64 { bits }
    }

    /// The magnitude bits.
    fn magnitude_bits(&self) -> (m: u64)
        ensures
            m == self.magnitude(),
            m < SIGN_BIT,
    {
        if self.bits >= SIGN_BIT {
            self.bits - SIGN_BIT
        } else {
            self.bits
        }
    }

    /// The ordinal, as a machine integer.
    fn ordinal_value(&self) -> (o: i64)
        ensures
            o == self.ordinal(),
    {
        let m = self.magnitude_bits();
        let v: i64 = m as i64;
        if self.bits >= SIGN_BIT {
            -v
        } else {
            v
        }
    }

    /// Whether the number is a NaN.
    pub fn nan(&self) -> (r: bool)
        ensures
            r == self.is_nan(),
    {
        self.magnitude_bits() > INFINITY_MAGNITUDE
    }

    /// IEEE-754 `self < other`.
    pub fn less_than(&self, other: &Binary64) -> (r: bool)
        ensures
            r == self.is_less(*other),
    {
        !self.nan() && !other.nan() && self.ordinal_value() < other.ordinal_value()
    }

    /// IEEE-754 `self <= other`.
    pub fn at_most(&self, other: &Binary64) -> (r: bool)
        ensures
            r == self.is_at_most(*other),
    {
        !self.nan() && !other.nan() && self.ordinal_value() <= other.ordinal_value()
    }

    /// IEEE-754 `self > other`.
    pub fn greater_than(&self, other: &Binary64) -> (r: bool)
        ensures
            r == self.is_greater(*other),
    {
        other.less_than(self)
    }

    /// IEEE-754 `self == other`.
    pub fn ieee_eq(&self, other: &Binary64) -> (r: bool)
        ensures
            r == self.is_equal(*other),
    {
        !self.nan() && !other.nan() && self.ordinal_value() == other.ordinal_value()
    }
}

/// The comparison of binary64 numbers is a strict order on the numbers that
/// are not NaN: it is irreflexive and transitive, and any two such numbers are
/// ordered one way, the other way, or are equal.
pub proof fn lemma_binary64_order(a: Binary64, b: Binary64, c: Binary64)
    ensures
        !a.is_less(a),
        a.is_less(b) && b.is_less(c) ==> a.is_less(c),
        !a.is_nan() && !b.is_nan() ==> (a.is_less(b) || b.is_less(a) || a.is_equal(b)),
        a.is_at_most(b) <==> (a.is_less(b) || a.is_equal(b)),
        a.is_nan() ==> !a.is_less(b) && !b.is_less(a) && !a.is_equal(b),
{
}

} // verus!
