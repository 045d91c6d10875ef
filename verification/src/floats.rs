// IEEE-754 ordered comparison of floats, carried out on their raw bit
// patterns so that the kernel stays in integer arithmetic throughout.
//
// A 32-bit float is held as the `u32` that `f32::to_bits` yields, a 64-bit
// float as the `u64` from `f64::to_bits`. The ordered relation is:
//   - NaN compares false against everything, itself included;
//   - the two zeroes (+0.0 and -0.0) are equal;
//   - otherwise the order is the numeric order of the floats, which on bit
//     patterns is the unsigned order of a key: negative values are bitwise
//     complemented (reversing their magnitude order and placing them below
//     the positives), non-negative values get the sign bit set.

use vstd::prelude::*;

verus! {

/// A 32-bit float element, held as its raw bits.
#[derive(Clone, Copy, Debug)]
pub struct F32Bits {
    pub bits: u32,
}

/// A 64-bit float element, held as its raw bits.
#[derive(Clone, Copy, Debug)]
pub struct F64Bits {
    pub bits: u64,
}

/// True when the bits encode an f32 NaN: exponent all ones, mantissa nonzero.
pub open spec fn f32_is_nan(b: u32) -> bool {
    b & 0x7F80_0000 == 0x7F80_0000 && b & 0x007F_FFFF != 0
}

/// True when the bits encode an f64 NaN: exponent all ones, mantissa nonzero.
pub open spec fn f64_is_nan(b: u64) -> bool {
    b & 0x7FF0_0000_0000_0000 == 0x7FF0_0000_0000_0000 && b & 0x000F_FFFF_FFFF_FFFF != 0
}

/// Order key of an f32: unsigned comparison of keys is the numeric order of
/// the (non-NaN) floats, and the two zeroes share one key.
pub open spec fn f32_key(b: u32) -> u32 {
    if b & 0x7FFF_FFFF == 0 {
        0x8000_0000
    } else if b & 0x8000_0000 != 0 {
        !b
    } else {
        b | 0x8000_0000
    }
}

/// Order key of an f64; see `f32_key`.
pub open spec fn f64_key(b: u64) -> u64 {
    if b & 0x7FFF_FFFF_FFFF_FFFF == 0 {
        0x8000_0000_0000_0000
    } else if b & 0x8000_0000_0000_0000 != 0 {
        !b
    } else {
        b | 0x8000_0000_0000_0000
    }
}

/// IEEE-754 ordered `<` on f32 bits.
pub open spec fn f32_lt(a: u32, b: u32) -> bool {
    !f32_is_nan(a) && !f32_is_nan(b) && f32_key(a) < f32_key(b)
}

/// IEEE-754 ordered `==` on f32 bits.
pub open spec fn f32_eq(a: u32, b: u32) -> bool {
    !f32_is_nan(a) && !f32_is_nan(b) && f32_key(a) == f32_key(b)
}

/// IEEE-754 ordered `<` on f64 bits.
pub open spec fn f64_lt(a: u64, b: u64) -> bool {
    !f64_is_nan(a) && !f64_is_nan(b) && f64_key(a) < f64_key(b)
}

/// IEEE-754 ordered `==` on f64 bits.
pub open spec fn f64_eq(a: u64, b: u64) -> bool {
    !f64_is_nan(a) && !f64_is_nan(b) && f64_key(a) == f64_key(b)
}

pub fn f32_is_nan_bits(b: u32) -> (r: bool)
    ensures
        r == f32_is_nan(b),
{
    b & 0x7F80_0000 == 0x7F80_0000 && b & 0x007F_FFFF != 0
}

pub fn f64_is_nan_bits(b: u64) -> (r: bool)
    ensures
        r == f64_is_nan(b),
{
    b & 0x7FF0_0000_0000_0000 == 0x7FF0_0000_0000_0000 && b & 0x000F_FFFF_FFFF_FFFF != 0
}

fn f32_key_bits(b: u32) -> (r: u32)
    ensures
        r == f32_key(b),
{
    if b & 0x7FFF_FFFF == 0 {
        0x8000_0000
    } else if b & 0x8000_0000 != 0 {
        !b
    } else {
        b | 0x8000_0000
    }
}

fn f64_key_bits(b: u64) -> (r: u64)
    ensures
        r == f64_key(b),
{
    if b & 0x7FFF_FFFF_FFFF_FFFF == 0 {
        0x8000_0000_0000_0000
    } else if b & 0x8000_0000_0000_0000 != 0 {
        !b
    } else {
        b | 0x8000_0000_0000_0000
    }
}

pub fn f32_lt_bits(a: u32, b: u32) -> (r: bool)
    ensures
        r == f32_lt(a, b),
{
    if f32_is_nan_bits(a) || f32_is_nan_bits(b) {
        false
    } else {
        f32_key_bits(a) < f32_key_bits(b)
    }
}

pub fn f32_eq_bits(a: u32, b: u32) -> (r: bool)
    ensures
        r == f32_eq(a, b),
{
    if f32_is_nan_bits(a) || f32_is_nan_bits(b) {
        false
    } else {
        f32_key_bits(a) == f32_key_bits(b)
    }
}

pub fn f64_lt_bits(a: u64, b: u64) -> (r: bool)
    ensures
        r == f64_lt(a, b),
{
    if f64_is_nan_bits(a) || f64_is_nan_bits(b) {
        false
    } else {
        f64_key_bits(a) < f64_key_bits(b)
    }
}

pub fn f64_eq_bits(a: u64, b: u64) -> (r: bool)
    ensures
        r == f64_eq(a, b),
{
    if f64_is_nan_bits(a) || f64_is_nan_bits(b) {
        false
    } else {
        f64_key_bits(a) == f64_key_bits(b)
    }
}

} // verus!
