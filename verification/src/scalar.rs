//! Numbers for the graphics context.
//!
//! Coordinates and colours reach the graphics context as single-precision numbers. The
//! session never computes with them, so it carries each as its 32-bit pattern and leaves the
//! reading of the pattern to the host.

use vstd::prelude::*;

verus! {

/// The pattern of the single-precision number zero.
pub const ZERO_BITS: u32 = 0x0000_0000;

/// The pattern of the single-precision number one.
pub const ONE_BITS: u32 = 0x3F80_0000;

/// The pattern of the single-precision number minus one.
pub const MINUS_ONE_BITS: u32 = 0xBF80_0000;

/// The pattern of the single-precision number nearest to seven tenths.
pub const SEVEN_TENTHS_BITS: u32 = 0x3F33_3333;

/// A single-precision number, carried as its bit pattern.
#[derive(Clone, Copy, Debug, PartialEq, Eq, Structural)]
pub struct Scalar {
    pub bits: u32,
}

impl Scalar {
    /// The number with the given bit pattern.
    pub fn from_bits(bits: u32) -> (scalar: Scalar)
        ensures
            scalar.bits == bits,
    {
        Scalar { bits }
    }

    /// The bit pattern of the number.
    pub fn to_bits(&self) -> (bits: u32)
        ensures
            bits == self.bits,
    {
        self.bits
    }

    /// Zero.
    pub fn zero() -> (scalar: Scalar)
        ensures
            scalar.bits == ZERO_BITS,
    {
        Scalar { bits: ZERO_BITS }
    }

    /// One.
    pub fn one() -> (scalar: Scalar)
        ensures
            scalar.bits == ONE_BITS,
    {
        Scalar { bits: ONE_BITS }
    }

    /// Minus one.
    pub fn minus_one() -> (scalar: Scalar)
        ensures
            scalar.bits == MINUS_ONE_BITS,
    {
        Scalar { bits: MINUS_ONE_BITS }
    }
}

/// A colour with its opacity, each channel from zero to one.
#[derive(Clone, Copy, Debug, PartialEq, Eq, Structural)]
pub struct Rgba {
    pub red: Scalar,
    pub green: Scalar,
    pub blue: Scalar,
    pub alpha: Scalar,
}

impl Rgba {
    /// The opaque green that a canvas is cleared to unless told otherwise.
    pub open spec fn spec_backdrop() -> Rgba {
        Rgba {
            red: Scalar { bits: ZERO_BITS },
            green: Scalar { bits: SEVEN_TENTHS_BITS },
            blue: Scalar { bits: ZERO_BITS },
            alpha: Scalar { bits: ONE_BITS },
        }
    }

    /// The opaque green that a canvas is cleared to unless told otherwise.
    #[verifier::when_used_as_spec(spec_backdrop)]
    pub fn backdrop() -> (colour: Rgba)
        ensures
            colour == Rgba::spec_backdrop(),
    {
        Rgba {
            red: Scalar { bits: ZERO_BITS },
            green: Scalar { bits: SEVEN_TENTHS_BITS },
            blue: Scalar { bits: ZERO_BITS },
            alpha: Scalar { bits: ONE_BITS },
        }
    }
}

} // verus!
