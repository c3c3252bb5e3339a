//! IEEE-754 binary64 values, seen through their 64-bit encodings.
use vstd::prelude::*;

verus! {

/// The sign bit of a binary64 encoding.
pub const SIGN_MASK: u64 = 0x8000_0000_0000_0000;

/// The eleven exponent bits of a binary64 encoding.
pub const EXPONENT_MASK: u64 = 0x7ff0_0000_0000_0000;

/// The fifty-two fraction bits of a binary64 encoding.
pub const FRACTION_MASK: u64 = 0x000f_ffff_ffff_ffff;

/// The encoding is a NaN: all exponent bits set and a nonzero fraction.
pub open spec fn is_nan_bits(b: u64) -> bool {
    b & EXPONENT_MASK == EXPONENT_MASK && b & FRACTION_MASK != 0
}

/// The encoding is a finite value: not all exponent bits set.
pub open spec fn is_finite_bits(b: u64) -> bool {
    b & EXPONENT_MASK != EXPONENT_MASK
}

/// The encoding is +0.0 or -0.0.
pub open spec fn is_zero_bits(b: u64) -> bool {
    b & !SIGN_MASK == 0
}

/// Numeric equality of two binary64 values: no NaN equals anything, the two
/// zeros are equal, and otherwise each value has exactly one encoding.
pub open spec fn numeric_eq(a: u64, b: u64) -> bool {
    &&& !is_nan_bits(a)
    &&& !is_nan_bits(b)
    &&& (a == b || (is_zero_bits(a) && is_zero_bits(b)))
}

/// Negation of a binary64 value: the same encoding with the sign bit flipped.
pub open spec fn neg_bits(b: u64) -> u64 {
    b ^ SIGN_MASK
}

/// Negates a binary64 value given by its encoding.
pub fn negate(b: u64) -> (r: u64)
    ensures
        r == neg_bits(b),
{
    b ^ SIGN_MASK
}

/// Whether the encoding is a NaN.
pub fn is_nan(b: u64) -> (r: bool)
    ensures
        r == is_nan_bits(b),
{
    b & EXPONENT_MASK == EXPONENT_MASK && b & FRACTION_MASK != 0
}

/// Numeric equality of two binary64 values given by their encodings.
pub fn equal(a: u64, b: u64) -> (r: bool)
    ensures
        r == numeric_eq(a, b),
{
    !is_nan(a) && !is_nan(b) && (a == b || (a & !SIGN_MASK == 0 && b & !SIGN_MASK == 0))
}

/// Negating twice gives back the same encoding.
pub proof fn lemma_neg_neg(b: u64)
    ensures
        neg_bits(neg_bits(b)) == b,
{
    assert(b ^ SIGN_MASK ^ SIGN_MASK == b) by (bit_vector);
}

} // verus!
