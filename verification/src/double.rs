//! Real numbers as the library carries them.
//!
//! The library decides and counts; it does no arithmetic on reals. A real
//! number passes through it as the 64 bits of its IEEE 754 double-precision
//! encoding, which the program around the library turns into a number and
//! back without loss.

use vstd::prelude::*;

verus! {

/// The bits of a double-precision number.
#[derive(Debug, Clone, Copy, PartialEq, Eq, Structural)]
pub struct DoubleBits {
    pub bits: u64,
}

/// Every bit of an encoding but the sign.
pub const MAGNITUDE_MASK: u64 = 0x7fff_ffff_ffff_ffff;

/// The encoding of the number one.
pub const ONE_BITS: u64 = 0x3ff0_0000_0000_0000;

impl DoubleBits {
    /// Whether the number is zero, of either sign: all bits of exponent and
    /// fraction are clear.
    pub open spec fn is_zero(self) -> bool {
        self.bits & MAGNITUDE_MASK == 0
    }

    /// The number one.
    pub open spec fn one() -> DoubleBits {
        DoubleBits { bits: ONE_BITS }
    }

    /// Whether the number is zero, of either sign.
    pub fn zero(&self) -> (z: bool)
        ensures
            z == self.is_zero(),
    {
        self.bits & MAGNITUDE_MASK == 0
    }

    /// The number one.
    pub fn unit() -> (u: DoubleBits)
        ensures
            u == DoubleBits::one(),
    {
        DoubleBits { bits: ONE_BITS }
    }
}

/// The two encodings of zero are the only ones that `is_zero` accepts.
pub proof fn lemma_zero_encodings(d: DoubleBits)
    ensures
        d.is_zero() <==> d.bits == 0 || d.bits == 0x8000_0000_0000_0000,
{
    let b = d.bits;
    assert((b & 0x7fff_ffff_ffff_ffff == 0) <==> (b == 0 || b == 0x8000_0000_0000_0000)) by (bit_vector);
}

} // verus!
