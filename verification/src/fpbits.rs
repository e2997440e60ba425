//! IEEE-754 binary64 values, modelled by their bit patterns.
//!
//! The library never computes with floating-point numbers; it only needs to
//! classify them (NaN, infinite, zero) and to order them for minimum/maximum
//! selection. Both are fully determined by the 64-bit pattern of a value, so
//! every function here works on the `u64` returned by `f64::to_bits`.
use vstd::prelude::*;

verus! {

/// Bit 63 of a binary64 pattern: the sign.
pub const SIGN_BIT: u64 = 0x8000_0000_0000_0000;

/// All exponent bits set, mantissa zero: the magnitude of an infinity.
/// Magnitudes above this are NaN, below it finite.
pub const EXPONENT_MASK: u64 = 0x7ff0_0000_0000_0000;

/// The bit pattern of `+0.0`.
pub const POS_ZERO_BITS: u64 = 0;

/// The bit pattern of positive infinity.
pub const POS_INFINITY_BITS: u64 = 0x7ff0_0000_0000_0000;

/// The bit pattern of negative infinity.
pub const NEG_INFINITY_BITS: u64 = 0xfff0_0000_0000_0000;

/// The pattern with the sign bit cleared: the magnitude of the value.
pub open spec fn abs_bits(bits: u64) -> u64 {
    if bits >= SIGN_BIT {
        (bits - SIGN_BIT) as u64
    } else {
        bits
    }
}

/// The sign bit is set (also true of `-0.0` and negative NaN patterns).
pub open spec fn is_sign_negative(bits: u64) -> bool {
    bits >= SIGN_BIT
}

/// Exponent all ones with a non-zero mantissa: not a number.
pub open spec fn is_nan(bits: u64) -> bool {
    abs_bits(bits) > EXPONENT_MASK
}

/// Exponent all ones with a zero mantissa: positive or negative infinity.
pub open spec fn is_infinite(bits: u64) -> bool {
    abs_bits(bits) == EXPONENT_MASK
}

/// Neither NaN nor infinite (zero, subnormal or normal).
pub open spec fn is_finite(bits: u64) -> bool {
    abs_bits(bits) < EXPONENT_MASK
}

/// Positive or negative zero.
pub open spec fn is_zero(bits: u64) -> bool {
    abs_bits(bits) == 0
}

/// A key that orders non-NaN patterns as the values they encode: the
/// magnitude, negated when the sign bit is set. `+0.0` and `-0.0` share the
/// key `0`, as IEEE-754 comparison treats them as equal.
pub open spec fn order_key(bits: u64) -> int {
    if is_sign_negative(bits) {
        -(abs_bits(bits) as int)
    } else {
        abs_bits(bits) as int
    }
}

/// Runtime check for `is_nan`.
pub fn nan_bits(bits: u64) -> (r: bool)
    ensures
        r == is_nan(bits),
{
    let mag: u64 = if bits >= SIGN_BIT {
        bits - SIGN_BIT
    } else {
        bits
    };
    mag > EXPONENT_MASK
}

/// Runtime check for `is_infinite`.
pub fn infinite_bits(bits: u64) -> (r: bool)
    ensures
        r == is_infinite(bits),
{
    let mag: u64 = if bits >= SIGN_BIT {
        bits - SIGN_BIT
    } else {
        bits
    };
    mag == EXPONENT_MASK
}

/// Runtime check for `is_zero`.
pub fn zero_bits(bits: u64) -> (r: bool)
    ensures
        r == is_zero(bits),
{
    let mag: u64 = if bits >= SIGN_BIT {
        bits - SIGN_BIT
    } else {
        bits
    };
    mag == 0
}

/// Runtime comparison under `order_key`: the value encoded by `a` is at most
/// the value encoded by `b` (meaningful for non-NaN patterns).
pub fn le_bits(a: u64, b: u64) -> (r: bool)
    ensures
        r == (order_key(a) <= order_key(b)),
{
    let a_neg = a >= SIGN_BIT;
    let b_neg = b >= SIGN_BIT;
    let a_mag: u64 = if a_neg {
        a - SIGN_BIT
    } else {
        a
    };
    let b_mag: u64 = if b_neg {
        b - SIGN_BIT
    } else {
        b
    };
    if a_neg && b_neg {
        b_mag <= a_mag
    } else if !a_neg && !b_neg {
        a_mag <= b_mag
    } else if a_neg {
        true
    } else {
        a_mag == 0 && b_mag == 0
    }
}

} // verus!
