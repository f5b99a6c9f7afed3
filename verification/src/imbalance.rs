//! The imbalance tolerance of a partition call, carried as the bit pattern of
//! an IEEE 754 double so that the checks on it are exact integer reasoning.

use vstd::prelude::*;

verus! {

/// Bit pattern of positive infinity, the largest pattern that is not a NaN
/// among those with a clear sign bit.
pub const POSITIVE_INFINITY_BITS: u64 = 0x7FF0_0000_0000_0000;

/// Bit pattern of negative zero: the sign bit alone.
pub const NEGATIVE_ZERO_BITS: u64 = 0x8000_0000_0000_0000;

/// Sign bit of a double's bit pattern (1 for a set sign).
pub open spec fn sign_bit(bits: u64) -> int {
    bits as int / 0x8000_0000_0000_0000
}

/// The eleven exponent bits of a double's bit pattern.
pub open spec fn exponent_bits(bits: u64) -> int {
    (bits as int / 0x10_0000_0000_0000) % 0x800
}

/// The fifty-two fraction bits of a double's bit pattern.
pub open spec fn fraction_bits(bits: u64) -> int {
    bits as int % 0x10_0000_0000_0000
}

/// The pattern encodes a NaN: all exponent bits set and a nonzero fraction.
pub open spec fn is_nan_bits(bits: u64) -> bool {
    exponent_bits(bits) == 0x7FF && fraction_bits(bits) != 0
}

/// The pattern encodes positive or negative zero.
pub open spec fn is_zero_bits(bits: u64) -> bool {
    exponent_bits(bits) == 0 && fraction_bits(bits) == 0
}

/// The encoded number `x` satisfies `0 <= x`: it is not a NaN, and it is
/// either a zero or has a clear sign bit.
pub open spec fn is_nonnegative_bits(bits: u64) -> bool {
    !is_nan_bits(bits) && (sign_bit(bits) == 0 || is_zero_bits(bits))
}

/// The encoded number `x` satisfies `x < 0`: it is not a NaN, its sign bit is
/// set and it is not negative zero.
pub open spec fn is_negative_bits(bits: u64) -> bool {
    !is_nan_bits(bits) && sign_bit(bits) == 1 && !is_zero_bits(bits)
}

/// A fractional imbalance tolerance, held as the bits of a double.
#[derive(Clone, Copy, Debug, PartialEq, Eq)]
pub struct Imbalance {
    bits: u64,
}

impl View for Imbalance {
    type V = u64;

    closed spec fn view(&self) -> u64 {
        self.bits
    }
}

impl Imbalance {
    /// Wraps the bit pattern of a double, as `f64::to_bits` gives it.
    pub fn from_bits(bits: u64) -> (imbalance: Imbalance)
        ensures
            imbalance@ == bits,
    {
        Imbalance { bits }
    }

    /// The bit pattern, ready for `f64::from_bits`.
    pub fn to_bits(&self) -> (bits: u64)
        ensures
            bits == self@,
    {
        self.bits
    }

    /// Whether the tolerance is a number at least zero.
    pub fn is_nonnegative(&self) -> (ok: bool)
        ensures
            ok == is_nonnegative_bits(self@),
    {
        self.bits <= POSITIVE_INFINITY_BITS || self.bits == NEGATIVE_ZERO_BITS
    }
}

/// A bit pattern encodes a number at least zero, or a number below zero, or
/// no number at all, and never two of these: so the patterns that are not
/// at least zero are the negative numbers and the NaNs.
pub proof fn lemma_sign_classes(bits: u64)
    ensures
        is_nonnegative_bits(bits) <==> !is_negative_bits(bits) && !is_nan_bits(bits),
        !(is_negative_bits(bits) && is_nan_bits(bits)),
        is_nonnegative_bits(bits) <==> bits <= POSITIVE_INFINITY_BITS || bits
            == NEGATIVE_ZERO_BITS,
{
}

} // verus!
