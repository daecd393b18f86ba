//! Analog values, held as bit patterns.

use vstd::prelude::*;

verus! {

/// The bit pattern of positive zero.
pub const POSITIVE_ZERO_BITS: u32 = 0x0000_0000;

/// The bit pattern of negative zero.
pub const NEGATIVE_ZERO_BITS: u32 = 0x8000_0000;

/// The bit pattern of `1.0`.
pub const ONE_BITS: u32 = 0x3f80_0000;

/// An analog value: an IEEE 754 single-precision number, held as its bit
/// pattern. The library never computes with magnitudes; it stores them, hands
/// them back, and tells zero from nonzero.
#[derive(Debug, Clone, Copy, PartialEq, Eq, Structural, Hash)]
pub struct Magnitude {
    pub bits: u32,
}

impl Magnitude {
    /// Whether this value compares equal to zero as a number. Both signed
    /// zeros do; every other pattern, a NaN included, does not.
    pub open spec fn is_zero_spec(self) -> bool {
        self.bits == POSITIVE_ZERO_BITS || self.bits == NEGATIVE_ZERO_BITS
    }

    /// The magnitude with the given bit pattern.
    pub fn from_bits(bits: u32) -> (magnitude: Magnitude)
        ensures
            magnitude.bits == bits,
    {
        Magnitude { bits }
    }

    /// The bit pattern of this magnitude.
    pub fn to_bits(&self) -> (bits: u32)
        ensures
            bits == self.bits,
    {
        self.bits
    }

    /// The value `1.0`, which a digital button reports while it is held.
    pub open spec fn one_spec() -> Magnitude {
        Magnitude { bits: ONE_BITS }
    }

    /// The value `1.0`, which a digital button reports while it is held.
    pub fn one() -> (magnitude: Magnitude)
        ensures
            magnitude == Magnitude::one_spec(),
            !magnitude.is_zero_spec(),
    {
        Magnitude { bits: ONE_BITS }
    }

    /// Whether this value compares equal to zero as a number.
    pub fn is_zero(&self) -> (zero: bool)
        ensures
            zero == self.is_zero_spec(),
    {
        self.bits == POSITIVE_ZERO_BITS || self.bits == NEGATIVE_ZERO_BITS
    }
}

} // verus!
