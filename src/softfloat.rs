//! IEEE-754 arithmetic under an explicit rounding mode, computed by `rustc_apfloat`.
//!
//! Rounding modes are the three-bit codes of the FCSR: 0 to nearest (ties to even), 1 toward
//! zero, 2 toward negative infinity, 3 toward positive infinity, 4 to nearest (ties away from
//! zero). A status holds invalid, divide-by-zero, overflow, underflow and inexact from bit 0 up.
use vstd::prelude::*;
use rustc_apfloat::{Float, FloatConvert, Round};
use rustc_apfloat::ieee::{Double, Single};

verus! {

/// The sum of binary32 `a` and `b` rounded by `rm`, with the status raised.
pub uninterp spec fn add32_of(a: u32, b: u32, rm: u8) -> (u32, u8);

/// Relies on rustc_apfloat's `Float::add_r` for `Single`.
#[verifier::external_body]
pub(crate) fn add32(a: u32, b: u32, rm: u8) -> (r: (u32, u8))
    requires
        rm <= 4,
    ensures
        r == add32_of(a, b, rm),
{
    let round = match rm { 0 => Round::NearestTiesToEven, 1 => Round::TowardZero, 2 => Round::TowardNegative, 3 => Round::TowardPositive, _ => Round::NearestTiesToAway };
    let r = Single::from_bits(a as u128).add_r(Single::from_bits(b as u128), round);
    (r.value.to_bits() as u32, r.status.bits())
}

/// The product of binary32 `a` and `b` rounded by `rm`, with the status raised.
pub uninterp spec fn mul32_of(a: u32, b: u32, rm: u8) -> (u32, u8);

/// Relies on rustc_apfloat's `Float::mul_r` for `Single`.
#[verifier::external_body]
pub(crate) fn mul32(a: u32, b: u32, rm: u8) -> (r: (u32, u8))
    requires
        rm <= 4,
    ensures
        r == mul32_of(a, b, rm),
{
    let round = match rm { 0 => Round::NearestTiesToEven, 1 => Round::TowardZero, 2 => Round::TowardNegative, 3 => Round::TowardPositive, _ => Round::NearestTiesToAway };
    let r = Single::from_bits(a as u128).mul_r(Single::from_bits(b as u128), round);
    (r.value.to_bits() as u32, r.status.bits())
}

/// The quotient of binary32 `a` and `b` rounded by `rm`, with the status raised.
pub uninterp spec fn div32_of(a: u32, b: u32, rm: u8) -> (u32, u8);

/// Relies on rustc_apfloat's `Float::div_r` for `Single`.
#[verifier::external_body]
pub(crate) fn div32(a: u32, b: u32, rm: u8) -> (r: (u32, u8))
    requires
        rm <= 4,
    ensures
        r == div32_of(a, b, rm),
{
    let round = match rm { 0 => Round::NearestTiesToEven, 1 => Round::TowardZero, 2 => Round::TowardNegative, 3 => Round::TowardPositive, _ => Round::NearestTiesToAway };
    let r = Single::from_bits(a as u128).div_r(Single::from_bits(b as u128), round);
    (r.value.to_bits() as u32, r.status.bits())
}

/// `a * b + c` for binary32 operands with a single rounding by `rm`, with the status raised.
pub uninterp spec fn fma32_of(a: u32, b: u32, c: u32, rm: u8) -> (u32, u8);

/// Relies on rustc_apfloat's `Float::mul_add_r` for `Single`.
#[verifier::external_body]
pub(crate) fn fma32(a: u32, b: u32, c: u32, rm: u8) -> (r: (u32, u8))
    requires
        rm <= 4,
    ensures
        r == fma32_of(a, b, c, rm),
{
    let round = match rm { 0 => Round::NearestTiesToEven, 1 => Round::TowardZero, 2 => Round::TowardNegative, 3 => Round::TowardPositive, _ => Round::NearestTiesToAway };
    let (b, c) = (Single::from_bits(b as u128), Single::from_bits(c as u128));
    let r = Single::from_bits(a as u128).mul_add_r(b, c, round);
    (r.value.to_bits() as u32, r.status.bits())
}

/// Binary32 `a` rounded by `rm` to a signed integer of `width` bits, with the status
/// raised (invalid, and 0 for a NaN; the nearest bound when out of range).
pub uninterp spec fn single_to_signed_of(a: u32, width: u32, rm: u8) -> (i128, u8);

/// Relies on rustc_apfloat's `Float::to_i128_r` for `Single`, whose results lie in the range of
/// `width` bits.
#[verifier::external_body]
pub(crate) fn single_to_signed(a: u32, width: u32, rm: u8) -> (r: (i128, u8))
    requires
        rm <= 4,
        width == 32 || width == 64,
    ensures
        r == single_to_signed_of(a, width, rm),
        width == 32 ==> -0x8000_0000 <= r.0 < 0x8000_0000,
        width == 64 ==> -0x8000_0000_0000_0000 <= r.0 < 0x8000_0000_0000_0000,
{
    let round = match rm { 0 => Round::NearestTiesToEven, 1 => Round::TowardZero, 2 => Round::TowardNegative, 3 => Round::TowardPositive, _ => Round::NearestTiesToAway };
    let r = Single::from_bits(a as u128).to_i128_r(width as usize, round, &mut false);
    (r.value, r.status.bits())
}

/// Binary32 `a` rounded by `rm` to an unsigned integer of `width` bits, with the status
/// raised (invalid, and 0 for a NaN; the nearest bound when out of range).
pub uninterp spec fn single_to_unsigned_of(a: u32, width: u32, rm: u8) -> (u128, u8);

/// Relies on rustc_apfloat's `Float::to_u128_r` for `Single`, whose results lie in the range of
/// `width` bits.
#[verifier::external_body]
pub(crate) fn single_to_unsigned(a: u32, width: u32, rm: u8) -> (r: (u128, u8))
    requires
        rm <= 4,
        width == 32 || width == 64,
    ensures
        r == single_to_unsigned_of(a, width, rm),
        width == 32 ==> r.0 < 0x1_0000_0000,
        width == 64 ==> r.0 < 0x1_0000_0000_0000_0000,
{
    let round = match rm { 0 => Round::NearestTiesToEven, 1 => Round::TowardZero, 2 => Round::TowardNegative, 3 => Round::TowardPositive, _ => Round::NearestTiesToAway };
    let r = Single::from_bits(a as u128).to_u128_r(width as usize, round, &mut false);
    (r.value, r.status.bits())
}

/// The integer `v` rounded by `rm` to binary32, with the status raised.
pub uninterp spec fn single_from_int_of(v: i128, rm: u8) -> (u32, u8);

/// Relies on rustc_apfloat's `Float::from_i128_r` for `Single`.
#[verifier::external_body]
pub(crate) fn single_from_int(v: i128, rm: u8) -> (r: (u32, u8))
    requires
        rm <= 4,
    ensures
        r == single_from_int_of(v, rm),
{
    let round = match rm { 0 => Round::NearestTiesToEven, 1 => Round::TowardZero, 2 => Round::TowardNegative, 3 => Round::TowardPositive, _ => Round::NearestTiesToAway };
    let r = Single::from_i128_r(v, round);
    (r.value.to_bits() as u32, r.status.bits())
}

/// The sum of binary64 `a` and `b` rounded by `rm`, with the status raised.
pub uninterp spec fn add64_of(a: u64, b: u64, rm: u8) -> (u64, u8);

/// Relies on rustc_apfloat's `Float::add_r` for `Double`.
#[verifier::external_body]
pub(crate) fn add64(a: u64, b: u64, rm: u8) -> (r: (u64, u8))
    requires
        rm <= 4,
    ensures
        r == add64_of(a, b, rm),
{
    let round = match rm { 0 => Round::NearestTiesToEven, 1 => Round::TowardZero, 2 => Round::TowardNegative, 3 => Round::TowardPositive, _ => Round::NearestTiesToAway };
    let r = Double::from_bits(a as u128).add_r(Double::from_bits(b as u128), round);
    (r.value.to_bits() as u64, r.status.bits())
}

/// The product of binary64 `a` and `b` rounded by `rm`, with the status raised.
pub uninterp spec fn mul64_of(a: u64, b: u64, rm: u8) -> (u64, u8);

/// Relies on rustc_apfloat's `Float::mul_r` for `Double`.
#[verifier::external_body]
pub(crate) fn mul64(a: u64, b: u64, rm: u8) -> (r: (u64, u8))
    requires
        rm <= 4,
    ensures
        r == mul64_of(a, b, rm),
{
    let round = match rm { 0 => Round::NearestTiesToEven, 1 => Round::TowardZero, 2 => Round::TowardNegative, 3 => Round::TowardPositive, _ => Round::NearestTiesToAway };
    let r = Double::from_bits(a as u128).mul_r(Double::from_bits(b as u128), round);
    (r.value.to_bits() as u64, r.status.bits())
}

/// The quotient of binary64 `a` and `b` rounded by `rm`, with the status raised.
pub uninterp spec fn div64_of(a: u64, b: u64, rm: u8) -> (u64, u8);

/// Relies on rustc_apfloat's `Float::div_r` for `Double`.
#[verifier::external_body]
pub(crate) fn div64(a: u64, b: u64, rm: u8) -> (r: (u64, u8))
    requires
        rm <= 4,
    ensures
        r == div64_of(a, b, rm),
{
    let round = match rm { 0 => Round::NearestTiesToEven, 1 => Round::TowardZero, 2 => Round::TowardNegative, 3 => Round::TowardPositive, _ => Round::NearestTiesToAway };
    let r = Double::from_bits(a as u128).div_r(Double::from_bits(b as u128), round);
    (r.value.to_bits() as u64, r.status.bits())
}

/// `a * b + c` for binary64 operands with a single rounding by `rm`, with the status raised.
pub uninterp spec fn fma64_of(a: u64, b: u64, c: u64, rm: u8) -> (u64, u8);

/// Relies on rustc_apfloat's `Float::mul_add_r` for `Double`.
#[verifier::external_body]
pub(crate) fn fma64(a: u64, b: u64, c: u64, rm: u8) -> (r: (u64, u8))
    requires
        rm <= 4,
    ensures
        r == fma64_of(a, b, c, rm),
{
    let round = match rm { 0 => Round::NearestTiesToEven, 1 => Round::TowardZero, 2 => Round::TowardNegative, 3 => Round::TowardPositive, _ => Round::NearestTiesToAway };
    let (b, c) = (Double::from_bits(b as u128), Double::from_bits(c as u128));
    let r = Double::from_bits(a as u128).mul_add_r(b, c, round);
    (r.value.to_bits() as u64, r.status.bits())
}

/// Binary64 `a` rounded by `rm` to a signed integer of `width` bits, with the status
/// raised (invalid, and 0 for a NaN; the nearest bound when out of range).
pub uninterp spec fn double_to_signed_of(a: u64, width: u32, rm: u8) -> (i128, u8);

/// Relies on rustc_apfloat's `Float::to_i128_r` for `Double`, whose results lie in the range of
/// `width` bits.
#[verifier::external_body]
pub(crate) fn double_to_signed(a: u64, width: u32, rm: u8) -> (r: (i128, u8))
    requires
        rm <= 4,
        width == 32 || width == 64,
    ensures
        r == double_to_signed_of(a, width, rm),
        width == 32 ==> -0x8000_0000 <= r.0 < 0x8000_0000,
        width == 64 ==> -0x8000_0000_0000_0000 <= r.0 < 0x8000_0000_0000_0000,
{
    let round = match rm { 0 => Round::NearestTiesToEven, 1 => Round::TowardZero, 2 => Round::TowardNegative, 3 => Round::TowardPositive, _ => Round::NearestTiesToAway };
    let r = Double::from_bits(a as u128).to_i128_r(width as usize, round, &mut false);
    (r.value, r.status.bits())
}

/// Binary64 `a` rounded by `rm` to an unsigned integer of `width` bits, with the status
/// raised (invalid, and 0 for a NaN; the nearest bound when out of range).
pub uninterp spec fn double_to_unsigned_of(a: u64, width: u32, rm: u8) -> (u128, u8);

/// Relies on rustc_apfloat's `Float::to_u128_r` for `Double`, whose results lie in the range of
/// `width` bits.
#[verifier::external_body]
pub(crate) fn double_to_unsigned(a: u64, width: u32, rm: u8) -> (r: (u128, u8))
    requires
        rm <= 4,
        width == 32 || width == 64,
    ensures
        r == double_to_unsigned_of(a, width, rm),
        width == 32 ==> r.0 < 0x1_0000_0000,
        width == 64 ==> r.0 < 0x1_0000_0000_0000_0000,
{
    let round = match rm { 0 => Round::NearestTiesToEven, 1 => Round::TowardZero, 2 => Round::TowardNegative, 3 => Round::TowardPositive, _ => Round::NearestTiesToAway };
    let r = Double::from_bits(a as u128).to_u128_r(width as usize, round, &mut false);
    (r.value, r.status.bits())
}

/// The integer `v` rounded by `rm` to binary64, with the status raised.
pub uninterp spec fn double_from_int_of(v: i128, rm: u8) -> (u64, u8);

/// Relies on rustc_apfloat's `Float::from_i128_r` for `Double`.
#[verifier::external_body]
pub(crate) fn double_from_int(v: i128, rm: u8) -> (r: (u64, u8))
    requires
        rm <= 4,
    ensures
        r == double_from_int_of(v, rm),
{
    let round = match rm { 0 => Round::NearestTiesToEven, 1 => Round::TowardZero, 2 => Round::TowardNegative, 3 => Round::TowardPositive, _ => Round::NearestTiesToAway };
    let r = Double::from_i128_r(v, round);
    (r.value.to_bits() as u64, r.status.bits())
}

/// Binary32 `a` widened to binary64 (exact), with the status raised.
pub uninterp spec fn single_to_double_of(a: u32) -> (u64, u8);

/// Relies on rustc_apfloat's `FloatConvert::convert_r` from `Single` to `Double`.
#[verifier::external_body]
pub(crate) fn single_to_double(a: u32) -> (r: (u64, u8))
    ensures
        r == single_to_double_of(a),
{
    let r: rustc_apfloat::StatusAnd<Double> = Single::from_bits(a as u128).convert_r(
        Round::NearestTiesToEven,
        &mut false,
    );
    (r.value.to_bits() as u64, r.status.bits())
}

/// Binary64 `a` rounded by `rm` to binary32, with the status raised.
pub uninterp spec fn double_to_single_of(a: u64, rm: u8) -> (u32, u8);

/// Relies on rustc_apfloat's `FloatConvert::convert_r` from `Double` to `Single`.
#[verifier::external_body]
pub(crate) fn double_to_single(a: u64, rm: u8) -> (r: (u32, u8))
    requires
        rm <= 4,
    ensures
        r == double_to_single_of(a, rm),
{
    let round = match rm { 0 => Round::NearestTiesToEven, 1 => Round::TowardZero, 2 => Round::TowardNegative, 3 => Round::TowardPositive, _ => Round::NearestTiesToAway };
    let r: rustc_apfloat::StatusAnd<Single> = Double::from_bits(a as u128).convert_r(round, &mut false);
    (r.value.to_bits() as u32, r.status.bits())
}

} // verus!
