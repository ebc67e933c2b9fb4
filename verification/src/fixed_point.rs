//! Q32.32 fixed-point arithmetic on raw bit patterns.
//!
//! A frequency or a sample position is an unsigned Q32.32 number held as the `u64` of its
//! bits: the number is the bits divided by 2^32. The scaled sample of the mixing path is a
//! signed Q32.32 number held as an `i64` in the same way. The arithmetic itself is done by
//! the `fixed` crate; each function below hands the bits to one operation of that crate and
//! states the bits that come back.

use fixed::types::{I32F32, U32F32};
use vstd::prelude::*;

verus! {

/// The bits of 1.0 in Q32.32.
pub const ONE: u64 = 0x1_0000_0000;

/// The largest bit pattern of an unsigned Q32.32 number.
pub const FIX_MAX: u64 = 0xffff_ffff_ffff_ffff;

/// The largest bit pattern of a signed Q32.32 number.
pub const SFIX_MAX: i64 = 0x7fff_ffff_ffff_ffff;

/// The smallest bit pattern of a signed Q32.32 number.
pub const SFIX_MIN: i64 = -0x8000_0000_0000_0000;

/// An integer cut to the range of the unsigned bit patterns.
pub open spec fn clamp_u64(v: int) -> u64 {
    if v < 0 {
        0
    } else if v > FIX_MAX as int {
        FIX_MAX
    } else {
        v as u64
    }
}

/// An integer cut to the range of the signed bit patterns.
pub open spec fn clamp_i64(v: int) -> i64 {
    if v < SFIX_MIN as int {
        SFIX_MIN
    } else if v > SFIX_MAX as int {
        SFIX_MAX
    } else {
        v as i64
    }
}

/// An integer cut to the range of `i16`.
pub open spec fn clamp_i16(v: int) -> i16 {
    if v < -32768 {
        -32768i16
    } else if v > 32767 {
        32767i16
    } else {
        v as i16
    }
}

/// The bits of the whole number `v`.
pub open spec fn fix_of_int(v: u32) -> u64 {
    (v as int * ONE as int) as u64
}

/// The whole part of the number with bits `a`.
pub open spec fn fix_whole(a: u64) -> u32 {
    (a as int / ONE as int) as u32
}

/// The bits of the sum, held at the largest number where the sum passes it.
pub open spec fn fix_sum(a: u64, b: u64) -> u64 {
    clamp_u64(a as int + b as int)
}

/// The bits of the difference, held at zero where `b` is the larger.
pub open spec fn fix_diff(a: u64, b: u64) -> u64 {
    clamp_u64(a as int - b as int)
}

/// The bits of the product, rounded down to a multiple of 2^-32 and held at the largest
/// number where the product passes it.
pub open spec fn fix_product(a: u64, b: u64) -> u64 {
    clamp_u64((a as int * b as int) / (ONE as int))
}

/// The bits of the quotient, rounded down to a multiple of 2^-32 and held at the largest
/// number where the quotient passes it.
pub open spec fn fix_quotient(a: u64, b: u64) -> u64
    recommends
        b != 0,
{
    clamp_u64((a as int * ONE as int) / (b as int))
}

/// The signed bits of the whole number `v`.
pub open spec fn sfix_of_int(v: i32) -> i64 {
    (v as int * ONE as int) as i64
}

/// The signed bits of the product, rounded down to a multiple of 2^-32 and held at the
/// nearest end of the range where the product leaves it.
pub open spec fn sfix_product(a: i64, b: i64) -> i64 {
    clamp_i64((a as int * b as int) / (ONE as int))
}

/// The signed bits of the quotient of a number that is not negative by one that is
/// positive, rounded down to a multiple of 2^-32 and held at the largest number where the
/// quotient passes it.
pub open spec fn sfix_quotient(a: i64, b: i64) -> i64
    recommends
        a >= 0,
        b > 0,
{
    clamp_i64((a as int * ONE as int) / (b as int))
}

/// The whole part of the signed number with bits `a`, rounded towards minus infinity and
/// held at the nearest end of the range of `i16`.
pub open spec fn sfix_whole_i16(a: i64) -> i16 {
    clamp_i16(a as int / (ONE as int))
}

/// `U32F32::from_num` on a `u32`: the result is the whole number itself, which always fits.
#[verifier::external_body]
pub(crate) fn fix_from_int(v: u32) -> (r: u64)
    ensures
        r == fix_of_int(v),
{
    U32F32::from_num(v).to_bits()
}

/// `U32F32::to_num` to a `u32`: the fractional bits are dropped, and the whole part always
/// fits.
#[verifier::external_body]
pub(crate) fn fix_to_int(a: u64) -> (r: u32)
    ensures
        r == fix_whole(a),
{
    U32F32::from_bits(a).to_num::<u32>()
}

/// `U32F32::saturating_add`: the sum of the two bit patterns, or the largest pattern where
/// the sum does not fit.
#[verifier::external_body]
pub(crate) fn fix_add(a: u64, b: u64) -> (r: u64)
    ensures
        r == fix_sum(a, b),
{
    U32F32::from_bits(a).saturating_add(U32F32::from_bits(b)).to_bits()
}

/// `U32F32::saturating_sub`: the difference of the two bit patterns, or zero where the
/// second is the larger.
#[verifier::external_body]
pub(crate) fn fix_sub(a: u64, b: u64) -> (r: u64)
    ensures
        r == fix_diff(a, b),
{
    U32F32::from_bits(a).saturating_sub(U32F32::from_bits(b)).to_bits()
}

/// `U32F32::saturating_mul`: the full product of the two bit patterns shifted right by 32
/// bits, or the largest pattern where that does not fit.
#[verifier::external_body]
pub(crate) fn fix_mul(a: u64, b: u64) -> (r: u64)
    ensures
        r == fix_product(a, b),
{
    U32F32::from_bits(a).saturating_mul(U32F32::from_bits(b)).to_bits()
}

/// `U32F32::saturating_div`: the dividend's bit pattern shifted left by 32 bits and divided
/// by the divisor's, or the largest pattern where that does not fit. The crate panics on a
/// zero divisor, which the precondition leaves out.
#[verifier::external_body]
pub(crate) fn fix_div(a: u64, b: u64) -> (r: u64)
    requires
        b != 0,
    ensures
        r == fix_quotient(a, b),
{
    U32F32::from_bits(a).saturating_div(U32F32::from_bits(b)).to_bits()
}

/// `I32F32::from_num` on an `i32`: the result is the whole number itself, which always fits.
#[verifier::external_body]
pub(crate) fn sfix_from_int(v: i32) -> (r: i64)
    ensures
        r == sfix_of_int(v),
{
    I32F32::from_num(v).to_bits()
}

/// `I32F32::saturating_mul`: the full product of the two bit patterns shifted right
/// arithmetically by 32 bits, or the end of the range on the product's side where that does
/// not fit.
#[verifier::external_body]
pub(crate) fn sfix_mul(a: i64, b: i64) -> (r: i64)
    ensures
        r == sfix_product(a, b),
{
    I32F32::from_bits(a).saturating_mul(I32F32::from_bits(b)).to_bits()
}

/// `I32F32::saturating_div` on a dividend that is not negative and a positive divisor: the
/// dividend's bit pattern shifted left by 32 bits and divided by the divisor's, or the
/// largest pattern where that does not fit.
#[verifier::external_body]
pub(crate) fn sfix_div(a: i64, b: i64) -> (r: i64)
    requires
        a >= 0,
        b > 0,
    ensures
        r == sfix_quotient(a, b),
{
    I32F32::from_bits(a).saturating_div(I32F32::from_bits(b)).to_bits()
}

/// `I32F32::saturating_to_num` to an `i16`: the fractional bits are dropped, which rounds
/// towards minus infinity, and a whole part outside `i16` becomes the nearest end of its
/// range.
#[verifier::external_body]
pub(crate) fn sfix_to_i16(a: i64) -> (r: i16)
    ensures
        r == sfix_whole_i16(a),
{
    I32F32::from_bits(a).saturating_to_num::<i16>()
}

} // verus!
