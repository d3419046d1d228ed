//! IEEE-754 single precision values carried as their bit patterns.
//!
//! The controller only ever compares such values for equality, which is
//! defined here on the bit patterns exactly as `f32`'s `==` behaves: NaN equals
//! nothing, and positive and negative zero are equal.

use vstd::prelude::*;

verus! {

/// Mask of every bit but the sign bit.
pub const MAGNITUDE_MASK: u32 = 0x7fff_ffff;

/// Bit pattern of positive infinity; magnitudes above it are NaN.
pub const INFINITY_BITS: u32 = 0x7f80_0000;

/// The bit pattern encodes a NaN: all exponent bits set and a non-zero mantissa.
pub open spec fn is_nan_bits(bits: u32) -> bool {
    (bits & MAGNITUDE_MASK) > INFINITY_BITS
}

/// The bit pattern encodes positive or negative zero.
pub open spec fn is_zero_bits(bits: u32) -> bool {
    (bits & MAGNITUDE_MASK) == 0
}

/// `f32` equality on bit patterns.
pub open spec fn f32_bits_eq_spec(a: u32, b: u32) -> bool {
    &&& !is_nan_bits(a)
    &&& !is_nan_bits(b)
    &&& (a == b || (is_zero_bits(a) && is_zero_bits(b)))
}

/// Compares two bit patterns as `f32` values with `==`.
pub fn f32_bits_eq(a: u32, b: u32) -> (r: bool)
    ensures
        r == f32_bits_eq_spec(a, b),
{
    let ma = a & MAGNITUDE_MASK;
    let mb = b & MAGNITUDE_MASK;
    if ma > INFINITY_BITS || mb > INFINITY_BITS {
        false
    } else {
        a == b || (ma == 0 && mb == 0)
    }
}

/// Every value that is not NaN equals itself.
pub proof fn lemma_f32_bits_eq_reflexive(a: u32)
    requires
        !is_nan_bits(a),
    ensures
        f32_bits_eq_spec(a, a),
{
}

/// Equality of `f32` values is symmetric.
pub proof fn lemma_f32_bits_eq_symmetric(a: u32, b: u32)
    ensures
        f32_bits_eq_spec(a, b) == f32_bits_eq_spec(b, a),
{
}

/// Positive and negative zero are equal, a NaN equals nothing (itself
/// included), and any other two values are equal only when their bit
/// patterns are.
pub proof fn lemma_f32_bits_eq_cases(a: u32, b: u32)
    ensures
        f32_bits_eq_spec(0, 0x8000_0000),
        (a & 0x7fff_ffff) > 0x7f80_0000 ==> !f32_bits_eq_spec(a, b) && !f32_bits_eq_spec(b, a),
        (a & 0x7fff_ffff) != 0 && a != b ==> !f32_bits_eq_spec(a, b),
        (a & 0x7fff_ffff) <= 0x7f80_0000 ==> f32_bits_eq_spec(a, a),
{
    assert((0u32 & 0x7fff_ffffu32) == 0u32) by (bit_vector);
    assert((0x8000_0000u32 & 0x7fff_ffffu32) == 0u32) by (bit_vector);
}

} // verus!
