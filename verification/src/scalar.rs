//! Scalars of the engine, carried as IEEE 754 binary64 bit patterns.
//!
//! The training engine works on 64-bit machine reals. The verified core never
//! computes with them directly; it carries each value as its bit pattern in a
//! `u64` and reasons about what is decidable on the bits alone: the sign of a
//! value, whether it is a NaN, and how it compares against zero.
//!
//! A binary64 pattern is laid out as one sign bit, eleven exponent bits and
//! fifty-two mantissa bits. The value is a NaN exactly when the exponent bits
//! are all ones and the mantissa is non-zero; such a value compares false
//! against everything, including itself.

use vstd::prelude::*;

verus! {

/// Bit pattern of positive zero.
pub const ZERO_BITS: u64 = 0;

/// Bit pattern of one.
pub const ONE_BITS: u64 = 0x3FF0_0000_0000_0000;

/// The pattern denotes a NaN: exponent bits all ones, mantissa non-zero.
pub open spec fn is_nan_bits(x: u64) -> bool {
    (x >> 52) & 0x7FF == 0x7FF && x & 0xF_FFFF_FFFF_FFFF != 0
}

/// The denoted value compares strictly greater than zero: a non-zero pattern
/// with a clear sign bit that is not a NaN.
pub open spec fn is_gt_zero_bits(x: u64) -> bool {
    x != 0 && x >> 63 == 0 && !is_nan_bits(x)
}

/// The denoted value compares less than or equal to zero: a zero of either
/// sign, or a pattern with a set sign bit that is not a NaN.
pub open spec fn is_le_zero_bits(x: u64) -> bool {
    x == 0 || (x >> 63 == 1 && !is_nan_bits(x))
}

/// Decides [`is_gt_zero_bits`] on a bit pattern.
pub fn gt_zero_bits(x: u64) -> (r: bool)
    ensures
        r == is_gt_zero_bits(x),
{
    x != 0 && x >> 63 == 0 && !((x >> 52) & 0x7FF == 0x7FF && x & 0xF_FFFF_FFFF_FFFF != 0)
}

/// Decides [`is_le_zero_bits`] on a bit pattern.
pub fn le_zero_bits(x: u64) -> (r: bool)
    ensures
        r == is_le_zero_bits(x),
{
    x == 0 || (x >> 63 == 1 && !((x >> 52) & 0x7FF == 0x7FF && x & 0xF_FFFF_FFFF_FFFF != 0))
}

/// Against zero the scalars split three ways: every bit pattern is strictly
/// positive, less than or equal to zero, or a NaN, and never two of the
/// three at once.
pub proof fn lemma_zero_trichotomy(x: u64)
    ensures
        is_gt_zero_bits(x) || is_le_zero_bits(x) || is_nan_bits(x),
        !(is_gt_zero_bits(x) && is_le_zero_bits(x)),
        !(is_gt_zero_bits(x) && is_nan_bits(x)),
        !(is_le_zero_bits(x) && is_nan_bits(x)),
{
    assert(x >> 63 == 0 || x >> 63 == 1) by (bit_vector);
    assert(x == 0 ==> x >> 63 == 0) by (bit_vector);
    assert(x == 0 ==> x & 0xF_FFFF_FFFF_FFFF == 0) by (bit_vector);
}

} // verus!
