//! A double-precision scalar carried by its IEEE 754 bit pattern.

use vstd::prelude::*;

verus! {

/// The sign bit of an IEEE 754 double-precision value: the most significant
/// of its 64 bits.
pub const SIGN_BIT: u64 = 0x8000_0000_0000_0000;

/// The bit pattern of the IEEE 754 negation of the value whose bit pattern is
/// `bits`: negation flips the sign bit and leaves the magnitude bits alone,
/// for every input, zeros, infinities and NaNs included.
pub open spec fn flip_sign(bits: u64) -> u64 {
    bits ^ SIGN_BIT
}

/// A double-precision value, held as the 64 bits of its IEEE 754
/// representation. Two scalars are equal exactly when their bit patterns are,
/// so `-0.0` and `0.0` are distinct and each NaN pattern is its own value.
#[derive(Clone, Copy, Debug, PartialEq, Eq, Structural)]
pub struct Scalar {
    /// The IEEE 754 double-precision bit pattern.
    pub bits: u64,
}

impl Scalar {
    /// The scalar with the given IEEE 754 bit pattern.
    pub fn from_bits(bits: u64) -> (s: Scalar)
        ensures
            s.bits == bits,
    {
        Scalar { bits }
    }

    /// The IEEE 754 bit pattern of this scalar.
    pub fn to_bits(&self) -> (bits: u64)
        ensures
            bits == self.bits,
    {
        self.bits
    }

    /// The negation of this scalar: the sign bit flips and every other bit
    /// stays, which is exactly what IEEE 754 negation does to a double.
    pub fn negated(&self) -> (r: Scalar)
        ensures
            r.bits == flip_sign(self.bits),
    {
        Scalar { bits: self.bits ^ SIGN_BIT }
    }
}

/// Flipping the sign bit twice gives back the original bit pattern, so
/// negation is its own inverse on every scalar.
pub proof fn lemma_flip_sign_involutive(bits: u64)
    ensures
        flip_sign(flip_sign(bits)) == bits,
{
    assert(flip_sign(flip_sign(bits)) == bits) by (bit_vector);
}

} // verus!
