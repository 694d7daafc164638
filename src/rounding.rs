//! IEEE-754 rounding primitives on bit patterns, selected by a three-bit rounding-mode code.
//!
//! Codes 0 to 4 name the five IEEE modes (see `softfloat`); 5 and 6 are reserved, and so is 7
//! here, where no FCSR is at hand to supply a dynamic mode. A reserved code yields the canonical
//! NaN of the result format, or 0 for a conversion to an integer, and raises no flag. Every
//! operation returns the result bits and the FCSR flags (bits `[4:0]`) it raises.
use vstd::prelude::*;
use crate::fp::{canonical_nan, fflags, fflags_of, fp_is_nan, is_nan, reserved_rm, sign_mask};
use crate::hart::m::{lemma_to_u64_negative, to_u64};
use crate::softfloat::{
    add32, add32_of, add64, add64_of, div32, div32_of, div64, div64_of, double_from_int,
    double_from_int_of, double_to_signed, double_to_signed_of, double_to_single,
    double_to_single_of, double_to_unsigned, double_to_unsigned_of, fma32, fma32_of, fma64,
    fma64_of, mul32, mul32_of, mul64, mul64_of, single_from_int, single_from_int_of,
    single_to_double, single_to_double_of, single_to_signed, single_to_signed_of,
    single_to_unsigned, single_to_unsigned_of,
};
use crate::sqrt::{fp_sqrt, sqrt_of};

verus! {

/// A decoded floating-point instruction.
#[derive(PartialEq, Eq, Structural)]
pub enum FpOp {
    Load,
    Store,
    /// Fused multiply-add; the kind is 0 for `a*b+c`, 1 for `a*b-c`, 2 for `-(a*b)+c`,
    /// 3 for `-(a*b)-c`.
    MulAdd(u32),
    Add,
    Sub,
    Mul,
    Div,
    Sqrt,
    /// Sign injection; 0 takes the sign of `rs2`, 1 its opposite, 2 the exclusive or.
    SignInject(u32),
    Min,
    Max,
    /// Conversion to an integer: 0 signed word, 1 unsigned word, 2 signed doubleword,
    /// 3 unsigned doubleword.
    ToInt(u32),
    MoveToInt,
    Classify,
    Eq,
    Lt,
    Le,
    /// Conversion from an integer, with the kinds of `ToInt`.
    FromInt(u32),
    MoveFromInt,
    /// Binary64 to binary32.
    Narrow,
    /// Binary32 to binary64.
    Widen,
}

/// A binary32 result and status widened to the 64-bit form the executor handles.
pub open spec fn wide(p: (u32, u8)) -> (u64, u8) {
    (p.0 as u64, p.1)
}

/// `x` with its sign flipped.
pub open spec fn negate(x: u64, d: bool) -> u64 {
    x ^ sign_mask(d)
}

/// Result and status of a rounded arithmetic operation under mode `rm`.
pub open spec fn arith(op: FpOp, a: u64, b: u64, c: u64, rm: u8, d: bool) -> (u64, u8) {
    match op {
        FpOp::Add => if d {
            add64_of(a, b, rm)
        } else {
            wide(add32_of(a as u32, b as u32, rm))
        },
        FpOp::Sub => if d {
            add64_of(a, negate(b, d), rm)
        } else {
            wide(add32_of(a as u32, negate(b, d) as u32, rm))
        },
        FpOp::Mul => if d {
            mul64_of(a, b, rm)
        } else {
            wide(mul32_of(a as u32, b as u32, rm))
        },
        FpOp::Div => if d {
            div64_of(a, b, rm)
        } else {
            wide(div32_of(a as u32, b as u32, rm))
        },
        FpOp::Sqrt => sqrt_of(a, d, rm),
        FpOp::MulAdd(k) => {
            let x = if k >= 2 { negate(a, d) } else { a };
            let z = if k == 1 || k == 3 { negate(c, d) } else { c };
            if d {
                fma64_of(x, b, z, rm)
            } else {
                wide(fma32_of(x as u32, b as u32, z as u32, rm))
            }
        },
        _ => (0, 0),
    }
}

fn negate_exec(x: u64, d: bool) -> (r: u64)
    ensures
        r == negate(x, d),
{
    x ^ (if d { 0x8000_0000_0000_0000u64 } else { 0x8000_0000u64 })
}

fn arith_exec(op: &FpOp, a: u64, b: u64, c: u64, rm: u8, d: bool) -> (r: (u64, u8))
    requires
        rm <= 4,
        !d ==> a <= u32::MAX && b <= u32::MAX && c <= u32::MAX,
    ensures
        r == arith(*op, a, b, c, rm, d),
{
    match op {
        FpOp::Add => if d {
            add64(a, b, rm)
        } else {
            let p = add32(a as u32, b as u32, rm);
            (p.0 as u64, p.1)
        },
        FpOp::Sub => {
            let nb = negate_exec(b, d);
            if d {
                add64(a, nb, rm)
            } else {
                let p = add32(a as u32, nb as u32, rm);
                (p.0 as u64, p.1)
            }
        },
        FpOp::Mul => if d {
            mul64(a, b, rm)
        } else {
            let p = mul32(a as u32, b as u32, rm);
            (p.0 as u64, p.1)
        },
        FpOp::Div => if d {
            div64(a, b, rm)
        } else {
            let p = div32(a as u32, b as u32, rm);
            (p.0 as u64, p.1)
        },
        FpOp::Sqrt => fp_sqrt(a, d, rm),
        FpOp::MulAdd(k) => {
            let x = if *k >= 2 { negate_exec(a, d) } else { a };
            let z = if *k == 1 || *k == 3 { negate_exec(c, d) } else { c };
            if d {
                fma64(x, b, z, rm)
            } else {
                let p = fma32(x as u32, b as u32, z as u32, rm);
                (p.0 as u64, p.1)
            }
        },
        _ => (0, 0),
    }
}

/// Result and status of converting `a` to an integer of kind `k` under mode `rm`.
pub open spec fn to_int(k: u32, a: u64, d: bool, rm: u8) -> (int, u8) {
    let width: u32 = if k <= 1 { 32 } else { 64 };
    if k == 0 || k == 2 {
        let p = if d { double_to_signed_of(a, width, rm) } else { single_to_signed_of(a as u32, width, rm) };
        (p.0 as int, p.1)
    } else {
        let p = if d { double_to_unsigned_of(a, width, rm) } else { single_to_unsigned_of(a as u32, width, rm) };
        (p.0 as int, p.1)
    }
}

pub open spec fn from_int(v: int, rm: u8, d: bool) -> (u64, u8) {
    if d {
        double_from_int_of(v as i128, rm)
    } else {
        wide(single_from_int_of(v as i128, rm))
    }
}


/// Result bits and FCSR flags of an operation whose result and status are `p`: under a
/// reserved mode, the canonical NaN and no flag.
pub open spec fn rounded(p: (u64, u8), rm: u8, d: bool) -> (u64, u32) {
    if reserved_rm(rm) {
        (canonical_nan(d), 0)
    } else {
        (p.0, fflags_of(p.1))
    }
}

/// A result in the 64-bit form taken back to binary32 bits.
pub open spec fn narrow_result(p: (u64, u32)) -> (u32, u32) {
    (p.0 as u32, p.1)
}

/// Largest value of the integer type a conversion of kind `k` produces.
pub open spec fn int_max(k: u32) -> int {
    if k == 0 {
        0x7FFF_FFFF
    } else if k == 1 {
        0xFFFF_FFFF
    } else if k == 2 {
        0x7FFF_FFFF_FFFF_FFFF
    } else {
        0xFFFF_FFFF_FFFF_FFFF
    }
}

/// Integer result of converting `a` with kind `k`: the nearest bound when out of range, the
/// largest value for a NaN, and 0 under a reserved mode.
pub open spec fn int_result(k: u32, a: u64, d: bool, rm: u8) -> int {
    if reserved_rm(rm) {
        0
    } else if is_nan(a, d) {
        int_max(k)
    } else {
        to_int(k, a, d, rm).0
    }
}

/// FCSR flags raised by converting `a` with kind `k`.
pub open spec fn int_flags(k: u32, a: u64, d: bool, rm: u8) -> u32 {
    if reserved_rm(rm) {
        0
    } else {
        fflags_of(to_int(k, a, d, rm).1)
    }
}

fn rounded_exec(op: &FpOp, a: u64, b: u64, c: u64, rm: u8, d: bool) -> (r: (u64, u32))
    requires
        rm < 8,
        !d ==> a <= u32::MAX && b <= u32::MAX && c <= u32::MAX,
    ensures
        r == rounded(arith(*op, a, b, c, rm, d), rm, d),
{
    if rm >= 5 {
        (if d { 0x7FF8_0000_0000_0000 } else { 0x7FC0_0000 }, 0)
    } else {
        let p = arith_exec(op, a, b, c, rm, d);
        (p.0, fflags(p.1))
    }
}

fn from_int_exec(v: i128, rm: u8, d: bool) -> (r: (u64, u32))
    requires
        rm < 8,
    ensures
        r == rounded(from_int(v as int, rm, d), rm, d),
{
    if rm >= 5 {
        (if d { 0x7FF8_0000_0000_0000 } else { 0x7FC0_0000 }, 0)
    } else if d {
        let p = double_from_int(v, rm);
        (p.0, fflags(p.1))
    } else {
        let p = single_from_int(v, rm);
        (p.0 as u64, fflags(p.1))
    }
}

fn int_exec(k: u32, a: u64, d: bool, rm: u8) -> (r: (i128, u32))
    requires
        rm < 8,
        k <= 3,
        !d ==> a <= u32::MAX,
    ensures
        r.0 == int_result(k, a, d, rm),
        r.1 == int_flags(k, a, d, rm),
        k == 0 ==> -0x8000_0000 <= r.0 < 0x8000_0000,
        k == 1 ==> 0 <= r.0 < 0x1_0000_0000,
        k == 2 ==> -0x8000_0000_0000_0000 <= r.0 < 0x8000_0000_0000_0000,
        k == 3 ==> 0 <= r.0 < 0x1_0000_0000_0000_0000,
{
    if rm >= 5 {
        return (0, 0);
    }
    let width: u32 = if k <= 1 { 32 } else { 64 };
    let (v, st): (i128, u8) = if k == 0 || k == 2 {
        if d { double_to_signed(a, width, rm) } else { single_to_signed(a as u32, width, rm) }
    } else {
        let p = if d { double_to_unsigned(a, width, rm) } else { single_to_unsigned(a as u32, width, rm) };
        (p.0 as i128, p.1)
    };
    let value: i128 = if fp_is_nan(a, d) {
        if k == 0 {
            0x7FFF_FFFF
        } else if k == 1 {
            0xFFFF_FFFF
        } else if k == 2 {
            0x7FFF_FFFF_FFFF_FFFF
        } else {
            0xFFFF_FFFF_FFFF_FFFF
        }
    } else {
        v
    };
    (value, fflags(st))
}

/// Register value of a signed or unsigned integer result: two's complement in 64 bits.
pub fn register_word(v: i128) -> (r: u64)
    requires
        -0x8000_0000_0000_0000 <= v < 0x1_0000_0000_0000_0000,
    ensures
        r == to_u64(v as int),
{
    if v < 0 {
        proof {
            lemma_to_u64_negative(v as int);
        }
        (v + 0x1_0000_0000_0000_0000i128) as u64
    } else {
        proof {
            vstd::arithmetic::div_mod::lemma_small_mod(v as nat, 0x1_0000_0000_0000_0000nat);
        }
        v as u64
    }
}

/// The sum of float bit patterns `a` and `b` under rounding-mode code `rm`, with the
/// FCSR flags it raises.
pub fn float_add(a: u32, b: u32, rm: u8) -> (r: (u32, u32))
    requires
        rm < 8,
    ensures
        r == narrow_result(rounded(arith(FpOp::Add, a as u64, b as u64, 0, rm, false), rm, false)),
{
    let p = rounded_exec(&FpOp::Add, a as u64, b as u64, 0, rm, false);
    (p.0 as u32, p.1)
}

/// The difference of float bit patterns `a` and `b` under rounding-mode code `rm`, with the
/// FCSR flags it raises.
pub fn float_sub(a: u32, b: u32, rm: u8) -> (r: (u32, u32))
    requires
        rm < 8,
    ensures
        r == narrow_result(rounded(arith(FpOp::Sub, a as u64, b as u64, 0, rm, false), rm, false)),
{
    let p = rounded_exec(&FpOp::Sub, a as u64, b as u64, 0, rm, false);
    (p.0 as u32, p.1)
}

/// The product of float bit patterns `a` and `b` under rounding-mode code `rm`, with the
/// FCSR flags it raises.
pub fn float_mul(a: u32, b: u32, rm: u8) -> (r: (u32, u32))
    requires
        rm < 8,
    ensures
        r == narrow_result(rounded(arith(FpOp::Mul, a as u64, b as u64, 0, rm, false), rm, false)),
{
    let p = rounded_exec(&FpOp::Mul, a as u64, b as u64, 0, rm, false);
    (p.0 as u32, p.1)
}

/// The quotient of float bit patterns `a` and `b` under rounding-mode code `rm`, with the
/// FCSR flags it raises.
pub fn float_div(a: u32, b: u32, rm: u8) -> (r: (u32, u32))
    requires
        rm < 8,
    ensures
        r == narrow_result(rounded(arith(FpOp::Div, a as u64, b as u64, 0, rm, false), rm, false)),
{
    let p = rounded_exec(&FpOp::Div, a as u64, b as u64, 0, rm, false);
    (p.0 as u32, p.1)
}

/// The square root of float bit pattern `a` under rounding-mode code `rm`, with the FCSR
/// flags it raises.
pub fn float_sqrt(a: u32, rm: u8) -> (r: (u32, u32))
    requires
        rm < 8,
    ensures
        r == narrow_result(rounded(arith(FpOp::Sqrt, a as u64, 0, 0, rm, false), rm, false)),
{
    let p = rounded_exec(&FpOp::Sqrt, a as u64, 0, 0, rm, false);
    (p.0 as u32, p.1)
}

/// `a·b + c` for float bit patterns with a single rounding under rounding-mode code `rm`,
/// with the FCSR flags it raises.
pub fn float_fma(a: u32, b: u32, c: u32, rm: u8) -> (r: (u32, u32))
    requires
        rm < 8,
    ensures
        r == narrow_result(rounded(arith(FpOp::MulAdd(0), a as u64, b as u64, c as u64, rm, false), rm, false)),
{
    let p = rounded_exec(&FpOp::MulAdd(0), a as u64, b as u64, c as u64, rm, false);
    (p.0 as u32, p.1)
}

/// `a·b − c` for float bit patterns with a single rounding under rounding-mode code `rm`,
/// with the FCSR flags it raises.
pub fn float_fms(a: u32, b: u32, c: u32, rm: u8) -> (r: (u32, u32))
    requires
        rm < 8,
    ensures
        r == narrow_result(rounded(arith(FpOp::MulAdd(1), a as u64, b as u64, c as u64, rm, false), rm, false)),
{
    let p = rounded_exec(&FpOp::MulAdd(1), a as u64, b as u64, c as u64, rm, false);
    (p.0 as u32, p.1)
}

/// `−(a·b) + c` for float bit patterns with a single rounding under rounding-mode code `rm`,
/// with the FCSR flags it raises.
pub fn float_fnma(a: u32, b: u32, c: u32, rm: u8) -> (r: (u32, u32))
    requires
        rm < 8,
    ensures
        r == narrow_result(rounded(arith(FpOp::MulAdd(2), a as u64, b as u64, c as u64, rm, false), rm, false)),
{
    let p = rounded_exec(&FpOp::MulAdd(2), a as u64, b as u64, c as u64, rm, false);
    (p.0 as u32, p.1)
}

/// `−(a·b) − c` for float bit patterns with a single rounding under rounding-mode code `rm`,
/// with the FCSR flags it raises.
pub fn float_fnms(a: u32, b: u32, c: u32, rm: u8) -> (r: (u32, u32))
    requires
        rm < 8,
    ensures
        r == narrow_result(rounded(arith(FpOp::MulAdd(3), a as u64, b as u64, c as u64, rm, false), rm, false)),
{
    let p = rounded_exec(&FpOp::MulAdd(3), a as u64, b as u64, c as u64, rm, false);
    (p.0 as u32, p.1)
}

/// Float bit pattern `a` converted to `i32` under rounding-mode code `rm`, with the
/// FCSR flags it raises.
pub fn float_to_i32(a: u32, rm: u8) -> (r: (i32, u32))
    requires
        rm < 8,
    ensures
        r.0 as int == int_result(0, a as u64, false, rm),
        r.1 == int_flags(0, a as u64, false, rm),
{
    let (v, fl) = int_exec(0, a as u64, false, rm);
    (v as i32, fl)
}

/// Float bit pattern `a` converted to `u32` under rounding-mode code `rm`, with the
/// FCSR flags it raises.
pub fn float_to_u32(a: u32, rm: u8) -> (r: (u32, u32))
    requires
        rm < 8,
    ensures
        r.0 as int == int_result(1, a as u64, false, rm),
        r.1 == int_flags(1, a as u64, false, rm),
{
    let (v, fl) = int_exec(1, a as u64, false, rm);
    (v as u32, fl)
}

/// Float bit pattern `a` converted to `i64` under rounding-mode code `rm`, with the
/// FCSR flags it raises.
pub fn float_to_i64(a: u32, rm: u8) -> (r: (i64, u32))
    requires
        rm < 8,
    ensures
        r.0 as int == int_result(2, a as u64, false, rm),
        r.1 == int_flags(2, a as u64, false, rm),
{
    let (v, fl) = int_exec(2, a as u64, false, rm);
    (v as i64, fl)
}

/// Float bit pattern `a` converted to `u64` under rounding-mode code `rm`, with the
/// FCSR flags it raises.
pub fn float_to_u64(a: u32, rm: u8) -> (r: (u64, u32))
    requires
        rm < 8,
    ensures
        r.0 as int == int_result(3, a as u64, false, rm),
        r.1 == int_flags(3, a as u64, false, rm),
{
    let (v, fl) = int_exec(3, a as u64, false, rm);
    (v as u64, fl)
}

/// `a` rounded to a float bit pattern under rounding-mode code `rm`, with the FCSR flags it
/// raises.
pub fn i32_to_float(a: i32, rm: u8) -> (r: (u32, u32))
    requires
        rm < 8,
    ensures
        r == narrow_result(rounded(from_int(a as int, rm, false), rm, false)),
{
    let p = from_int_exec(a as i128, rm, false);
    (p.0 as u32, p.1)
}

/// `a` rounded to a float bit pattern under rounding-mode code `rm`, with the FCSR flags it
/// raises.
pub fn u32_to_float(a: u32, rm: u8) -> (r: (u32, u32))
    requires
        rm < 8,
    ensures
        r == narrow_result(rounded(from_int(a as int, rm, false), rm, false)),
{
    let p = from_int_exec(a as i128, rm, false);
    (p.0 as u32, p.1)
}

/// `a` rounded to a float bit pattern under rounding-mode code `rm`, with the FCSR flags it
/// raises.
pub fn i64_to_float(a: i64, rm: u8) -> (r: (u32, u32))
    requires
        rm < 8,
    ensures
        r == narrow_result(rounded(from_int(a as int, rm, false), rm, false)),
{
    let p = from_int_exec(a as i128, rm, false);
    (p.0 as u32, p.1)
}

/// `a` rounded to a float bit pattern under rounding-mode code `rm`, with the FCSR flags it
/// raises.
pub fn u64_to_float(a: u64, rm: u8) -> (r: (u32, u32))
    requires
        rm < 8,
    ensures
        r == narrow_result(rounded(from_int(a as int, rm, false), rm, false)),
{
    let p = from_int_exec(a as i128, rm, false);
    (p.0 as u32, p.1)
}

/// The sum of double bit patterns `a` and `b` under rounding-mode code `rm`, with the
/// FCSR flags it raises.
pub fn double_add(a: u64, b: u64, rm: u8) -> (r: (u64, u32))
    requires
        rm < 8,
    ensures
        r == rounded(arith(FpOp::Add, a, b, 0, rm, true), rm, true),
{
    rounded_exec(&FpOp::Add, a, b, 0, rm, true)
}

/// The difference of double bit patterns `a` and `b` under rounding-mode code `rm`, with the
/// FCSR flags it raises.
pub fn double_sub(a: u64, b: u64, rm: u8) -> (r: (u64, u32))
    requires
        rm < 8,
    ensures
        r == rounded(arith(FpOp::Sub, a, b, 0, rm, true), rm, true),
{
    rounded_exec(&FpOp::Sub, a, b, 0, rm, true)
}

/// The product of double bit patterns `a` and `b` under rounding-mode code `rm`, with the
/// FCSR flags it raises.
pub fn double_mul(a: u64, b: u64, rm: u8) -> (r: (u64, u32))
    requires
        rm < 8,
    ensures
        r == rounded(arith(FpOp::Mul, a, b, 0, rm, true), rm, true),
{
    rounded_exec(&FpOp::Mul, a, b, 0, rm, true)
}

/// The quotient of double bit patterns `a` and `b` under rounding-mode code `rm`, with the
/// FCSR flags it raises.
pub fn double_div(a: u64, b: u64, rm: u8) -> (r: (u64, u32))
    requires
        rm < 8,
    ensures
        r == rounded(arith(FpOp::Div, a, b, 0, rm, true), rm, true),
{
    rounded_exec(&FpOp::Div, a, b, 0, rm, true)
}

/// The square root of double bit pattern `a` under rounding-mode code `rm`, with the FCSR
/// flags it raises.
pub fn double_sqrt(a: u64, rm: u8) -> (r: (u64, u32))
    requires
        rm < 8,
    ensures
        r == rounded(arith(FpOp::Sqrt, a, 0, 0, rm, true), rm, true),
{
    rounded_exec(&FpOp::Sqrt, a, 0, 0, rm, true)
}

/// `a·b + c` for double bit patterns with a single rounding under rounding-mode code `rm`,
/// with the FCSR flags it raises.
pub fn double_fma(a: u64, b: u64, c: u64, rm: u8) -> (r: (u64, u32))
    requires
        rm < 8,
    ensures
        r == rounded(arith(FpOp::MulAdd(0), a, b, c, rm, true), rm, true),
{
    rounded_exec(&FpOp::MulAdd(0), a, b, c, rm, true)
}

/// `a·b − c` for double bit patterns with a single rounding under rounding-mode code `rm`,
/// with the FCSR flags it raises.
pub fn double_fms(a: u64, b: u64, c: u64, rm: u8) -> (r: (u64, u32))
    requires
        rm < 8,
    ensures
        r == rounded(arith(FpOp::MulAdd(1), a, b, c, rm, true), rm, true),
{
    rounded_exec(&FpOp::MulAdd(1), a, b, c, rm, true)
}

/// `−(a·b) + c` for double bit patterns with a single rounding under rounding-mode code `rm`,
/// with the FCSR flags it raises.
pub fn double_fnma(a: u64, b: u64, c: u64, rm: u8) -> (r: (u64, u32))
    requires
        rm < 8,
    ensures
        r == rounded(arith(FpOp::MulAdd(2), a, b, c, rm, true), rm, true),
{
    rounded_exec(&FpOp::MulAdd(2), a, b, c, rm, true)
}

/// `−(a·b) − c` for double bit patterns with a single rounding under rounding-mode code `rm`,
/// with the FCSR flags it raises.
pub fn double_fnms(a: u64, b: u64, c: u64, rm: u8) -> (r: (u64, u32))
    requires
        rm < 8,
    ensures
        r == rounded(arith(FpOp::MulAdd(3), a, b, c, rm, true), rm, true),
{
    rounded_exec(&FpOp::MulAdd(3), a, b, c, rm, true)
}

/// Double bit pattern `a` converted to `i32` under rounding-mode code `rm`, with the
/// FCSR flags it raises.
pub fn double_to_i32(a: u64, rm: u8) -> (r: (i32, u32))
    requires
        rm < 8,
    ensures
        r.0 as int == int_result(0, a, true, rm),
        r.1 == int_flags(0, a, true, rm),
{
    let (v, fl) = int_exec(0, a, true, rm);
    (v as i32, fl)
}

/// Double bit pattern `a` converted to `u32` under rounding-mode code `rm`, with the
/// FCSR flags it raises.
pub fn double_to_u32(a: u64, rm: u8) -> (r: (u32, u32))
    requires
        rm < 8,
    ensures
        r.0 as int == int_result(1, a, true, rm),
        r.1 == int_flags(1, a, true, rm),
{
    let (v, fl) = int_exec(1, a, true, rm);
    (v as u32, fl)
}

/// Double bit pattern `a` converted to `i64` under rounding-mode code `rm`, with the
/// FCSR flags it raises.
pub fn double_to_i64(a: u64, rm: u8) -> (r: (i64, u32))
    requires
        rm < 8,
    ensures
        r.0 as int == int_result(2, a, true, rm),
        r.1 == int_flags(2, a, true, rm),
{
    let (v, fl) = int_exec(2, a, true, rm);
    (v as i64, fl)
}

/// Double bit pattern `a` converted to `u64` under rounding-mode code `rm`, with the
/// FCSR flags it raises.
pub fn double_to_u64(a: u64, rm: u8) -> (r: (u64, u32))
    requires
        rm < 8,
    ensures
        r.0 as int == int_result(3, a, true, rm),
        r.1 == int_flags(3, a, true, rm),
{
    let (v, fl) = int_exec(3, a, true, rm);
    (v as u64, fl)
}

/// `a` rounded to a double bit pattern under rounding-mode code `rm`, with the FCSR flags it
/// raises.
pub fn i32_to_double(a: i32, rm: u8) -> (r: (u64, u32))
    requires
        rm < 8,
    ensures
        r == rounded(from_int(a as int, rm, true), rm, true),
{
    let p = from_int_exec(a as i128, rm, true);
    p
}

/// `a` rounded to a double bit pattern under rounding-mode code `rm`, with the FCSR flags it
/// raises.
pub fn u32_to_double(a: u32, rm: u8) -> (r: (u64, u32))
    requires
        rm < 8,
    ensures
        r == rounded(from_int(a as int, rm, true), rm, true),
{
    let p = from_int_exec(a as i128, rm, true);
    p
}

/// `a` rounded to a double bit pattern under rounding-mode code `rm`, with the FCSR flags it
/// raises.
pub fn i64_to_double(a: i64, rm: u8) -> (r: (u64, u32))
    requires
        rm < 8,
    ensures
        r == rounded(from_int(a as int, rm, true), rm, true),
{
    let p = from_int_exec(a as i128, rm, true);
    p
}

/// `a` rounded to a double bit pattern under rounding-mode code `rm`, with the FCSR flags it
/// raises.
pub fn u64_to_double(a: u64, rm: u8) -> (r: (u64, u32))
    requires
        rm < 8,
    ensures
        r == rounded(from_int(a as int, rm, true), rm, true),
{
    let p = from_int_exec(a as i128, rm, true);
    p
}

/// Double bit pattern `a` rounded to a float bit pattern under rounding-mode code `rm`, with
/// the FCSR flags it raises.
pub fn double_to_float(a: u64, rm: u8) -> (r: (u32, u32))
    requires
        rm < 8,
    ensures
        r == narrow_result(rounded(wide(double_to_single_of(a, rm)), rm, false)),
{
    if rm >= 5 {
        (0x7FC0_0000, 0)
    } else {
        let p = double_to_single(a, rm);
        (p.0, fflags(p.1))
    }
}

/// Float bit pattern `a` widened exactly to a double bit pattern, with the FCSR flags it raises
/// (invalid for a signaling NaN).
pub fn float_to_double(a: u32) -> (r: (u64, u32))
    ensures
        r == (single_to_double_of(a).0, fflags_of(single_to_double_of(a).1)),
{
    let p = single_to_double(a);
    (p.0, fflags(p.1))
}

} // verus!
