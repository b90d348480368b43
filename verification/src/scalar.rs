//! Real numbers as the library carries them.
//!
//! Coordinates, radii, widths and angles are binary64 numbers. The library
//! never computes with them: it stores each one as its bit pattern and hands
//! it through to the backend unchanged.

use vstd::prelude::*;

verus! {

/// Bit pattern of the binary64 number one.
pub const ONE_BITS: u64 = 0x3FF0_0000_0000_0000;

/// A binary64 number, held as its bit pattern.
#[derive(Clone, Copy, Debug, PartialEq, Eq, Structural)]
pub struct Scalar {
    pub bits: u64,
}

/// A location in canvas space: device pixels, origin at the top left.
pub type Point = (Scalar, Scalar);

impl Scalar {
    /// The number one.
    pub open spec fn one() -> Scalar {
        Scalar { bits: ONE_BITS }
    }

    /// The number with the given bit pattern.
    pub fn from_bits(bits: u64) -> (out: Scalar)
        ensures
            out.bits == bits,
    {
        Scalar { bits }
    }

    /// The bit pattern of this number.
    pub fn to_bits(self) -> (bits: u64)
        ensures
            bits == self.bits,
    {
        self.bits
    }

    /// The number one, the width of a line and the side of a point when
    /// nothing else is asked for.
    pub fn unit() -> (out: Scalar)
        ensures
            out == Scalar::one(),
    {
        Scalar { bits: ONE_BITS }
    }
}

} // verus!
