//! Exact reasoning about IEEE 754 binary32 values through their bit
//! patterns.
//!
//! A frequency or scale ratio is carried as the `u32` bit pattern of the
//! `f32` the host works with. Classification (NaN, infinity) and the IEEE
//! comparisons are pure functions of the bit pattern, so they can be both
//! specified and executed here exactly: on non-NaN values the IEEE order
//! coincides with the order of the signed magnitude of the bits, and the two
//! zeroes (`+0.0`, `-0.0`) share the magnitude zero.

use vstd::prelude::*;

verus! {

/// Bit pattern of `1.0f32`.
pub const ONE_BITS: u32 = 0x3f80_0000;

/// Bit pattern of `2.0f32`.
pub const TWO_BITS: u32 = 0x4000_0000;

/// Bit pattern of `0.0f32`.
pub const ZERO_BITS: u32 = 0;

/// The magnitude part of a bit pattern: everything but the sign bit.
pub open spec fn spec_abs_bits(bits: u32) -> u32 {
    if bits >= 0x8000_0000 {
        (bits - 0x8000_0000) as u32
    } else {
        bits
    }
}

/// True when the sign bit is set (also for `-0.0`, negative NaNs).
pub open spec fn spec_is_sign_negative(bits: u32) -> bool {
    bits >= 0x8000_0000
}

/// The value is a NaN: maximal exponent and a non-zero fraction.
pub open spec fn spec_is_nan(bits: u32) -> bool {
    spec_abs_bits(bits) > 0x7f80_0000
}

/// The value is a positive or negative infinity.
pub open spec fn spec_is_infinite(bits: u32) -> bool {
    spec_abs_bits(bits) == 0x7f80_0000
}

/// The value is zero, subnormal or normal.
pub open spec fn spec_is_finite(bits: u32) -> bool {
    spec_abs_bits(bits) < 0x7f80_0000
}

/// The signed magnitude of a bit pattern, as a mathematical integer. On
/// non-NaN values this key orders exactly as IEEE `<` does, and two patterns
/// share a key exactly when IEEE `==` holds (the only non-trivial pair being
/// the two zeroes).
pub open spec fn spec_key(bits: u32) -> int {
    if spec_is_sign_negative(bits) {
        -(spec_abs_bits(bits) as int)
    } else {
        spec_abs_bits(bits) as int
    }
}

/// IEEE `<` on the values the patterns denote; false whenever a NaN is
/// involved.
pub open spec fn spec_value_lt(a: u32, b: u32) -> bool {
    &&& !spec_is_nan(a)
    &&& !spec_is_nan(b)
    &&& spec_key(a) < spec_key(b)
}

/// IEEE `<=` on the values the patterns denote; false whenever a NaN is
/// involved.
pub open spec fn spec_value_le(a: u32, b: u32) -> bool {
    &&& !spec_is_nan(a)
    &&& !spec_is_nan(b)
    &&& spec_key(a) <= spec_key(b)
}

/// IEEE `==` on the values the patterns denote; false whenever a NaN is
/// involved.
pub open spec fn spec_value_eq(a: u32, b: u32) -> bool {
    &&& !spec_is_nan(a)
    &&& !spec_is_nan(b)
    &&& spec_key(a) == spec_key(b)
}

/// The magnitude part of a bit pattern.
pub fn abs_bits(bits: u32) -> (r: u32)
    ensures
        r == spec_abs_bits(bits),
{
    if bits >= 0x8000_0000 {
        bits - 0x8000_0000
    } else {
        bits
    }
}

/// Whether the pattern denotes a NaN.
pub fn is_nan_bits(bits: u32) -> (r: bool)
    ensures
        r == spec_is_nan(bits),
{
    abs_bits(bits) > 0x7f80_0000
}

/// Whether the pattern denotes an infinity.
pub fn is_infinite_bits(bits: u32) -> (r: bool)
    ensures
        r == spec_is_infinite(bits),
{
    abs_bits(bits) == 0x7f80_0000
}

/// IEEE `<` on the denoted values.
pub fn value_lt(a: u32, b: u32) -> (r: bool)
    ensures
        r == spec_value_lt(a, b),
{
    if is_nan_bits(a) || is_nan_bits(b) {
        return false;
    }
    let a_neg = a >= 0x8000_0000;
    let b_neg = b >= 0x8000_0000;
    let a_abs = abs_bits(a);
    let b_abs = abs_bits(b);
    if a_neg {
        if b_neg {
            b_abs < a_abs
        } else {
            a_abs > 0 || b_abs > 0
        }
    } else {
        if b_neg {
            false
        } else {
            a_abs < b_abs
        }
    }
}

/// IEEE `<=` on the denoted values.
pub fn value_le(a: u32, b: u32) -> (r: bool)
    ensures
        r == spec_value_le(a, b),
{
    if is_nan_bits(a) || is_nan_bits(b) {
        return false;
    }
    !value_lt(b, a)
}

/// IEEE `==` on the denoted values.
pub fn value_eq(a: u32, b: u32) -> (r: bool)
    ensures
        r == spec_value_eq(a, b),
{
    if is_nan_bits(a) || is_nan_bits(b) {
        return false;
    }
    let a_neg: bool = a >= 0x8000_0000;
    let b_neg: bool = b >= 0x8000_0000;
    let a_abs = abs_bits(a);
    let b_abs = abs_bits(b);
    (a_neg == b_neg && a_abs == b_abs) || (a_abs == 0 && b_abs == 0)
}

} // verus!
