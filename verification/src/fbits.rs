//! Real-valued quantities as IEEE 754 binary64 bit patterns.
//!
//! The pipeline never does arithmetic on real numbers; it only copies them
//! and compares them against the sentinel 0.0.  A binary64 value compares
//! equal to 0.0 exactly when its bit pattern is one of the two zero
//! encodings, so carrying the bits as a `u64` keeps every decision exact.

use vstd::prelude::*;

verus! {

/// Bit pattern of positive zero.
pub const F64_POS_ZERO_BITS: u64 = 0x0000_0000_0000_0000;

/// Bit pattern of negative zero.
pub const F64_NEG_ZERO_BITS: u64 = 0x8000_0000_0000_0000;

/// Bit pattern of 1.0.
pub const F64_ONE_BITS: u64 = 0x3FF0_0000_0000_0000;

/// An IEEE 754 binary64 value, carried by its bit pattern.
#[derive(Clone, Copy, PartialEq, Eq, Structural, Debug)]
pub struct F64Bits {
    pub bits: u64,
}

/// A binary64 value compares equal to 0.0 exactly when its bits encode
/// positive or negative zero; every other pattern (including every NaN,
/// which compares unequal to everything) does not.
pub open spec fn f64_bits_is_zero(b: u64) -> bool {
    b == F64_POS_ZERO_BITS || b == F64_NEG_ZERO_BITS
}

impl F64Bits {
    pub open spec fn spec_is_zero(&self) -> bool {
        f64_bits_is_zero(self.bits)
    }

    /// Whether the encoded value compares equal to 0.0.
    #[verifier::when_used_as_spec(spec_is_zero)]
    pub fn is_zero(&self) -> (r: bool)
        ensures
            r == f64_bits_is_zero(self.bits),
    {
        self.bits == F64_POS_ZERO_BITS || self.bits == F64_NEG_ZERO_BITS
    }

    pub fn new(bits: u64) -> (r: Self)
        ensures
            r.bits == bits,
    {
        F64Bits { bits }
    }
}

/// A 3-vector of binary64 values.
#[derive(Clone, Copy, PartialEq, Eq, Structural, Debug)]
pub struct Vec3Bits {
    pub x: F64Bits,
    pub y: F64Bits,
    pub z: F64Bits,
}

/// A quaternion of binary64 values.
#[derive(Clone, Copy, PartialEq, Eq, Structural, Debug)]
pub struct QuatBits {
    pub x: F64Bits,
    pub y: F64Bits,
    pub z: F64Bits,
    pub w: F64Bits,
}

/// A rigid transform: translation plus rotation.
#[derive(Clone, Copy, PartialEq, Eq, Structural, Debug)]
pub struct TransformBits {
    pub translation: Vec3Bits,
    pub rotation: QuatBits,
}

/// An RGBA color, each channel a binary64 value.
#[derive(Clone, Copy, PartialEq, Eq, Structural, Debug)]
pub struct Rgba {
    pub r: F64Bits,
    pub g: F64Bits,
    pub b: F64Bits,
    pub a: F64Bits,
}

/// The vector (1.0, 1.0, 1.0).
pub fn vec3_ones() -> (r: Vec3Bits)
    ensures
        r == (Vec3Bits {
            x: F64Bits { bits: F64_ONE_BITS },
            y: F64Bits { bits: F64_ONE_BITS },
            z: F64Bits { bits: F64_ONE_BITS },
        }),
{
    Vec3Bits {
        x: F64Bits { bits: F64_ONE_BITS },
        y: F64Bits { bits: F64_ONE_BITS },
        z: F64Bits { bits: F64_ONE_BITS },
    }
}

} // verus!
