//! Classification of IEEE 754 single-precision bit patterns.
//!
//! A 32-bit pattern is sign (bit 31), exponent (bits 23..31) and fraction
//! (bits 0..23). A value is finite exactly when its exponent field is not
//! all ones; among the all-ones patterns, a zero fraction is an infinity
//! and a non-zero fraction is a NaN.

use vstd::prelude::*;

verus! {

/// Bit pattern of positive zero.
pub const F32_ZERO_BITS: u32 = 0x0000_0000;

/// Bit pattern of one.
pub const F32_ONE_BITS: u32 = 0x3F80_0000;

pub open spec fn f32_is_finite(b: u32) -> bool {
    (b >> 23) & 0xFF != 0xFF
}

pub open spec fn f32_is_nan(b: u32) -> bool {
    (b >> 23) & 0xFF == 0xFF && b & 0x7F_FFFF != 0
}

pub open spec fn f32_is_infinite(b: u32) -> bool {
    (b >> 23) & 0xFF == 0xFF && b & 0x7F_FFFF == 0
}

pub fn is_finite_bits(b: u32) -> (r: bool)
    ensures
        r == f32_is_finite(b),
{
    (b >> 23) & 0xFF != 0xFF
}

pub fn is_nan_bits(b: u32) -> (r: bool)
    ensures
        r == f32_is_nan(b),
{
    (b >> 23) & 0xFF == 0xFF && b & 0x7F_FFFF != 0
}

} // verus!
