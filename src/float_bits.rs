use vstd::prelude::*;

verus! {

/// Mask of the exponent field of an IEEE 754 binary64 value.
pub const EXPONENT_MASK: u64 = 0x7ff0_0000_0000_0000;

/// Mask of the fraction field of an IEEE 754 binary64 value.
pub const FRACTION_MASK: u64 = 0x000f_ffff_ffff_ffff;

/// Mask of everything but the sign bit.
pub const MAGNITUDE_MASK: u64 = 0x7fff_ffff_ffff_ffff;

/// A 64-bit floating-point value, held as its IEEE 754 binary64 bit pattern.
///
/// Volume and playback rate are compared with the floating-point `==` and
/// nothing else, so the value is kept exactly as the player reported it.
#[derive(Clone, Copy, Debug, PartialEq, Eq, Structural)]
pub struct FloatBits {
    pub bits: u64,
}

/// The pattern encodes a NaN: all exponent bits set and a non-zero fraction.
pub open spec fn is_nan(bits: u64) -> bool {
    (bits & EXPONENT_MASK) == EXPONENT_MASK && (bits & FRACTION_MASK) != 0
}

/// The pattern encodes `+0.0` or `-0.0`.
pub open spec fn is_zero(bits: u64) -> bool {
    (bits & MAGNITUDE_MASK) == 0
}

/// Floating-point equality on bit patterns: a NaN equals nothing, the two
/// zeros equal each other, and any other value equals only itself.
pub open spec fn float_eq(a: FloatBits, b: FloatBits) -> bool {
    !is_nan(a.bits) && !is_nan(b.bits) && (a.bits == b.bits || (is_zero(a.bits) && is_zero(
        b.bits,
    )))
}

impl FloatBits {
    /// Wraps a bit pattern, as given by `f64::to_bits`.
    pub fn from_bits(bits: u64) -> (r: FloatBits)
        ensures
            r.bits == bits,
    {
        FloatBits { bits }
    }

    /// The bit pattern, for `f64::from_bits`.
    pub fn to_bits(&self) -> (r: u64)
        ensures
            r == self.bits,
    {
        self.bits
    }

    pub fn is_nan(&self) -> (r: bool)
        ensures
            r == is_nan(self.bits),
    {
        (self.bits & EXPONENT_MASK) == EXPONENT_MASK && (self.bits & FRACTION_MASK) != 0
    }

    pub fn is_zero(&self) -> (r: bool)
        ensures
            r == is_zero(self.bits),
    {
        (self.bits & MAGNITUDE_MASK) == 0
    }

    /// Exact floating-point equality, with no tolerance.
    pub fn float_eq(&self, other: &FloatBits) -> (r: bool)
        ensures
            r == float_eq(*self, *other),
    {
        !self.is_nan() && !other.is_nan() && (self.bits == other.bits || (self.is_zero()
            && other.is_zero()))
    }
}

} // verus!
