//! Bit-level reading of IEEE-754 binary32 and binary64 values.
//!
//! A binary32 value is handled as the low 32 bits of a `u64`; `d` selects binary64.
use vstd::prelude::*;

verus! {

pub open spec fn sign_mask(d: bool) -> u64 {
    if d {
        0x8000_0000_0000_0000
    } else {
        0x8000_0000
    }
}

pub open spec fn exp_bits(x: u64, d: bool) -> u64 {
    if d {
        (x >> 52u64) & 0x7FF
    } else {
        (x >> 23u64) & 0xFF
    }
}

pub open spec fn exp_all_ones(d: bool) -> u64 {
    if d {
        0x7FF
    } else {
        0xFF
    }
}

pub open spec fn man_bits(x: u64, d: bool) -> u64 {
    if d {
        x & 0xF_FFFF_FFFF_FFFF
    } else {
        x & 0x7F_FFFF
    }
}

/// The most significant mantissa bit: set in a quiet NaN, clear in a signaling one.
pub open spec fn quiet_bit(x: u64, d: bool) -> u64 {
    if d {
        (x >> 51u64) & 1
    } else {
        (x >> 22u64) & 1
    }
}

pub open spec fn is_negative(x: u64, d: bool) -> bool {
    x & sign_mask(d) != 0
}

pub open spec fn is_nan(x: u64, d: bool) -> bool {
    exp_bits(x, d) == exp_all_ones(d) && man_bits(x, d) != 0
}

pub open spec fn is_snan(x: u64, d: bool) -> bool {
    is_nan(x, d) && quiet_bit(x, d) == 0
}

/// Magnitude bits: everything but the sign.
pub open spec fn magnitude(x: u64, d: bool) -> u64 {
    if d {
        x & 0x7FFF_FFFF_FFFF_FFFF
    } else {
        x & 0x7FFF_FFFF
    }
}

pub open spec fn is_zero(x: u64, d: bool) -> bool {
    magnitude(x, d) == 0
}

pub open spec fn canonical_nan(d: bool) -> u64 {
    if d {
        0x7FF8_0000_0000_0000
    } else {
        0x7FC0_0000
    }
}

/// Index of the IEEE class of `x` in the FCLASS result: 0 negative infinity, 1 negative
/// normal, 2 negative subnormal, 3 negative zero, 4 positive zero, 5 positive subnormal,
/// 6 positive normal, 7 positive infinity, 8 signaling NaN, 9 quiet NaN.
pub open spec fn class_index(x: u64, d: bool) -> u64 {
    let neg = is_negative(x, d);
    let e = exp_bits(x, d);
    let m = man_bits(x, d);
    if e == exp_all_ones(d) {
        if m == 0 {
            if neg {
                0
            } else {
                7
            }
        } else if quiet_bit(x, d) == 1 {
            9
        } else {
            8
        }
    } else if e == 0 {
        if m == 0 {
            if neg {
                3
            } else {
                4
            }
        } else if neg {
            2
        } else {
            5
        }
    } else if neg {
        1
    } else {
        6
    }
}

/// `a < b` for two values that are not NaN, in the order of the reals (`-0 == +0`).
pub open spec fn fp_lt(a: u64, b: u64, d: bool) -> bool {
    let ma = magnitude(a, d);
    let mb = magnitude(b, d);
    if ma == 0 && mb == 0 {
        false
    } else if is_negative(a, d) != is_negative(b, d) {
        is_negative(a, d)
    } else if is_negative(a, d) {
        ma > mb
    } else {
        ma < mb
    }
}

/// `a == b` for two values that are not NaN.
pub open spec fn fp_eq(a: u64, b: u64, d: bool) -> bool {
    (is_zero(a, d) && is_zero(b, d)) || a == b
}

/// Minimum in the IEEE 754-2008 sense: a NaN operand yields the other one, and `-0 < +0`.
pub open spec fn fp_min(a: u64, b: u64, d: bool) -> u64 {
    if is_nan(a, d) && is_nan(b, d) {
        canonical_nan(d)
    } else if is_nan(a, d) {
        b
    } else if is_nan(b, d) {
        a
    } else if fp_lt(a, b, d) {
        a
    } else if fp_lt(b, a, d) {
        b
    } else if is_negative(a, d) {
        a
    } else {
        b
    }
}

/// Maximum in the IEEE 754-2008 sense: a NaN operand yields the other one, and `-0 < +0`.
pub open spec fn fp_max(a: u64, b: u64, d: bool) -> u64 {
    if is_nan(a, d) && is_nan(b, d) {
        canonical_nan(d)
    } else if is_nan(a, d) {
        b
    } else if is_nan(b, d) {
        a
    } else if fp_lt(a, b, d) {
        b
    } else if fp_lt(b, a, d) {
        a
    } else if is_negative(a, d) {
        b
    } else {
        a
    }
}

/// FCSR flags (inexact, underflow, overflow, divide-by-zero, invalid from bit 0 up) for a
/// status with invalid, divide-by-zero, overflow, underflow, inexact from bit 0 up.
pub open spec fn fflags_of(status: u8) -> u32 {
    let st = status as u32;
    ((st & 1) << 4u32) | ((st & 2) << 2u32) | (st & 4) | ((st & 8) >> 2u32) | ((st & 16) >> 4u32)
}

/// The invalid-operation flag of FCSR.
pub open spec fn flag_invalid() -> u32 {
    0x10
}

/// Rounding mode an instruction's `rm` field selects: 7 defers to `frm`.
pub open spec fn effective_rm(field: u32, frm: u8) -> u8 {
    if field == 7 {
        frm
    } else {
        field as u8
    }
}

/// A rounding mode that names none of the five IEEE modes.
pub open spec fn reserved_rm(rm: u8) -> bool {
    rm >= 5
}

pub fn fp_is_negative(x: u64, d: bool) -> (r: bool)
    ensures
        r == is_negative(x, d),
{
    x & (if d { 0x8000_0000_0000_0000u64 } else { 0x8000_0000u64 }) != 0
}

pub fn fp_is_nan(x: u64, d: bool) -> (r: bool)
    ensures
        r == is_nan(x, d),
{
    if d {
        (x >> 52u64) & 0x7FF == 0x7FF && x & 0xF_FFFF_FFFF_FFFF != 0
    } else {
        (x >> 23u64) & 0xFF == 0xFF && x & 0x7F_FFFF != 0
    }
}

pub fn fp_is_snan(x: u64, d: bool) -> (r: bool)
    ensures
        r == is_snan(x, d),
{
    fp_is_nan(x, d) && (if d { (x >> 51u64) & 1 } else { (x >> 22u64) & 1 }) == 0
}

pub fn fp_magnitude(x: u64, d: bool) -> (r: u64)
    ensures
        r == magnitude(x, d),
{
    if d {
        x & 0x7FFF_FFFF_FFFF_FFFF
    } else {
        x & 0x7FFF_FFFF
    }
}

/// The FCLASS result: a one-hot mask whose set bit is `class_index(x, d)`.
pub fn classify(x: u64, d: bool) -> (r: u64)
    ensures
        r == 1u64 << class_index(x, d),
{
    let neg = fp_is_negative(x, d);
    let e = if d {
        (x >> 52u64) & 0x7FF
    } else {
        (x >> 23u64) & 0xFF
    };
    let m = if d {
        x & 0xF_FFFF_FFFF_FFFF
    } else {
        x & 0x7F_FFFF
    };
    let q = if d {
        (x >> 51u64) & 1
    } else {
        (x >> 22u64) & 1
    };
    let top: u64 = if d {
        0x7FF
    } else {
        0xFF
    };
    let idx: u64 = if e == top {
        if m == 0 {
            if neg {
                0
            } else {
                7
            }
        } else if q == 1 {
            9
        } else {
            8
        }
    } else if e == 0 {
        if m == 0 {
            if neg {
                3
            } else {
                4
            }
        } else if neg {
            2
        } else {
            5
        }
    } else if neg {
        1
    } else {
        6
    };
    1u64 << idx
}

/// Exactly one bit of a classification is set, and it is the one of the value's class.
pub proof fn lemma_classify_one_hot(x: u64, d: bool)
    ensures
        forall|i: u64|
            #![trigger ((1u64 << class_index(x, d)) >> i)]
            i < 64 ==> (((1u64 << class_index(x, d)) >> i) & 1 == 1 <==> i == class_index(x, d)),
        class_index(x, d) < 10,
{
    let k = class_index(x, d);
    assert(forall|i: u64|
        #![trigger ((1u64 << k) >> i)]
        i < 64 && k < 10 ==> (((1u64 << k) >> i) & 1 == 1 <==> i == k)) by (bit_vector);
}

pub fn fp_lt_exec(a: u64, b: u64, d: bool) -> (r: bool)
    ensures
        r == fp_lt(a, b, d),
{
    let ma = fp_magnitude(a, d);
    let mb = fp_magnitude(b, d);
    let na = fp_is_negative(a, d);
    let nb = fp_is_negative(b, d);
    if ma == 0 && mb == 0 {
        false
    } else if na != nb {
        na
    } else if na {
        ma > mb
    } else {
        ma < mb
    }
}

pub fn fp_eq_exec(a: u64, b: u64, d: bool) -> (r: bool)
    ensures
        r == fp_eq(a, b, d),
{
    (fp_magnitude(a, d) == 0 && fp_magnitude(b, d) == 0) || a == b
}

fn canonical_nan_exec(d: bool) -> (r: u64)
    ensures
        r == canonical_nan(d),
{
    if d {
        0x7FF8_0000_0000_0000
    } else {
        0x7FC0_0000
    }
}

pub fn fp_min_exec(a: u64, b: u64, d: bool) -> (r: u64)
    ensures
        r == fp_min(a, b, d),
{
    let an = fp_is_nan(a, d);
    let bn = fp_is_nan(b, d);
    if an && bn {
        canonical_nan_exec(d)
    } else if an {
        b
    } else if bn {
        a
    } else if fp_lt_exec(a, b, d) {
        a
    } else if fp_lt_exec(b, a, d) {
        b
    } else if fp_is_negative(a, d) {
        a
    } else {
        b
    }
}

pub fn fp_max_exec(a: u64, b: u64, d: bool) -> (r: u64)
    ensures
        r == fp_max(a, b, d),
{
    let an = fp_is_nan(a, d);
    let bn = fp_is_nan(b, d);
    if an && bn {
        canonical_nan_exec(d)
    } else if an {
        b
    } else if bn {
        a
    } else if fp_lt_exec(a, b, d) {
        b
    } else if fp_lt_exec(b, a, d) {
        a
    } else if fp_is_negative(a, d) {
        b
    } else {
        a
    }
}

pub fn fflags(status: u8) -> (r: u32)
    ensures
        r == fflags_of(status),
        r < 32,
{
    let st = status as u32;
    proof {
        assert(((st & 1) << 4u32) | ((st & 2) << 2u32) | (st & 4) | ((st & 8) >> 2u32) | ((st & 16)
            >> 4u32) < 32) by (bit_vector);
    }
    ((st & 1) << 4u32) | ((st & 2) << 2u32) | (st & 4) | ((st & 8) >> 2u32) | ((st & 16) >> 4u32)
}

} // verus!
