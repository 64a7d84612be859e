//! Single-precision numbers carried as bit patterns.
//!
//! Opacities, contrast targets, grading factors and colour channels are
//! fractional quantities. They travel through this crate as the bit pattern of
//! an IEEE-754 binary32 number, so that no value is rounded on the way in or
//! out. Comparisons are decided here, on the bit pattern, with the meaning
//! that IEEE-754 gives them; arithmetic is left to the embedding program.
use vstd::prelude::*;

verus! {

/// The bit pattern of positive infinity; every larger magnitude is not a number.
pub const INFINITY_BITS: u32 = 0x7f80_0000;

/// The bit that carries the sign.
pub const SIGN_BIT: u32 = 0x8000_0000;

/// The bit pattern of `1.0`.
pub const ONE_BITS: u32 = 0x3f80_0000;

/// A binary32 number, held as its bit pattern.
#[derive(Clone, Copy, Debug, PartialEq, Eq, Structural)]
pub struct Scalar {
    pub bits: u32,
}

impl Scalar {
    /// The bit pattern without its sign.
    pub open spec fn magnitude(self) -> int {
        self.bits as int % 0x8000_0000
    }

    /// Whether the sign bit is set.
    pub open spec fn is_negative(self) -> bool {
        self.bits >= 0x8000_0000
    }

    /// Whether the pattern is one of the not-a-number patterns.
    pub open spec fn is_nan(self) -> bool {
        self.magnitude() > 0x7f80_0000
    }

    /// Where a number stands on the number line, as an integer that grows with
    /// the number. Both zeros stand at zero.
    pub open spec fn position(self) -> int {
        if self.is_negative() {
            -self.magnitude()
        } else {
            self.magnitude()
        }
    }

    /// Numeric equality: never true of not-a-number, true of the two zeros.
    pub open spec fn same_number(self, other: Scalar) -> bool {
        !self.is_nan() && !other.is_nan() && self.position() == other.position()
    }

    /// Numeric `<`: never true where either side is not a number.
    pub open spec fn below(self, other: Scalar) -> bool {
        !self.is_nan() && !other.is_nan() && self.position() < other.position()
    }

    /// The number with the given bit pattern.
    pub fn from_bits(bits: u32) -> (scalar: Scalar)
        ensures
            scalar.bits == bits,
    {
        Scalar { bits }
    }

    /// Positive zero.
    pub fn zero() -> (scalar: Scalar)
        ensures
            scalar.bits == 0,
    {
        Scalar { bits: 0 }
    }

    /// The number one.
    pub fn one() -> (scalar: Scalar)
        ensures
            scalar.bits == ONE_BITS,
    {
        Scalar { bits: ONE_BITS }
    }

    /// The bit pattern.
    pub fn to_bits(self) -> (bits: u32)
        ensures
            bits == self.bits,
    {
        self.bits
    }

    fn magnitude_bits(self) -> (magnitude: u32)
        ensures
            magnitude as int == self.magnitude(),
    {
        self.bits % SIGN_BIT
    }

    fn position_value(self) -> (position: i64)
        ensures
            position as int == self.position(),
    {
        let magnitude: i64 = self.magnitude_bits() as i64;
        if self.bits >= SIGN_BIT {
            -magnitude
        } else {
            magnitude
        }
    }

    /// Decides `is_nan`.
    pub fn not_a_number(self) -> (nan: bool)
        ensures
            nan == self.is_nan(),
    {
        self.magnitude_bits() > INFINITY_BITS
    }

    /// Decides numeric equality.
    pub fn equals(self, other: Scalar) -> (equal: bool)
        ensures
            equal == self.same_number(other),
    {
        !self.not_a_number() && !other.not_a_number() && self.position_value()
            == other.position_value()
    }

    /// Decides numeric `<`.
    pub fn is_below(self, other: Scalar) -> (below: bool)
        ensures
            below == self.below(other),
    {
        !self.not_a_number() && !other.not_a_number() && self.position_value()
            < other.position_value()
    }

    /// Decides numeric `>=`.
    pub fn is_at_least(self, other: Scalar) -> (at_least: bool)
        ensures
            at_least == (other.below(self) || self.same_number(other)),
    {
        !self.not_a_number() && !other.not_a_number() && self.position_value()
            >= other.position_value()
    }

    /// Decides numeric `<=`.
    pub fn is_at_most(self, other: Scalar) -> (at_most: bool)
        ensures
            at_most == (self.below(other) || self.same_number(other)),
    {
        !self.not_a_number() && !other.not_a_number() && self.position_value()
            <= other.position_value()
    }

    /// The number held to the range from zero to one.
    pub open spec fn clamped_to_unit(self) -> Scalar {
        if self.below(Scalar { bits: 0 }) {
            Scalar { bits: 0 }
        } else if (Scalar { bits: ONE_BITS }).below(self) {
            Scalar { bits: ONE_BITS }
        } else {
            self
        }
    }

    /// Holds the number to the range from zero to one. What is not a number
    /// stays as it is, and so does negative zero.
    pub fn clamp_to_unit(self) -> (clamped: Scalar)
        ensures
            clamped == self.clamped_to_unit(),
    {
        if self.is_below(Scalar::zero()) {
            Scalar::zero()
        } else if Scalar::one().is_below(self) {
            Scalar::one()
        } else {
            self
        }
    }
}

/// Clamping never leaves the unit range: its result is not a number only where
/// its argument was, and otherwise lies between zero and one.
pub proof fn lemma_clamped_in_unit_range(scalar: Scalar)
    ensures
        scalar.clamped_to_unit().is_nan() == scalar.is_nan(),
        !scalar.is_nan() ==> 0 <= scalar.clamped_to_unit().position() <= ONE_BITS,
{
}

} // verus!
