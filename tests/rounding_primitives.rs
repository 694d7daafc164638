use narvi::rounding::{
    double_add, double_div, double_fma, double_fnma, double_fnms, double_fms, double_mul,
    double_sqrt, double_sub, double_to_float, double_to_i32, double_to_i64, double_to_u32,
    double_to_u64, float_add, float_div, float_fma, float_fnma, float_fnms, float_fms, float_mul,
    float_sqrt, float_sub, float_to_double, float_to_i32, float_to_i64, float_to_u32,
    float_to_u64, i32_to_double, i32_to_float, i64_to_double, i64_to_float, u32_to_double,
    u32_to_float, u64_to_double, u64_to_float,
};

const ONE: u32 = 0x3F80_0000;
const TWO: u32 = 0x4000_0000;
const THREE: u32 = 0x4040_0000;
const D_ONE: u64 = 0x3FF0_0000_0000_0000;
const D_TWO: u64 = 0x4000_0000_0000_0000;
const D_THREE: u64 = 0x4008_0000_0000_0000;
const INEXACT: u32 = 0x01;
const INVALID: u32 = 0x10;

#[test]
fn fadd_half_ulp_rounds_to_even() {
    assert_eq!(float_add(ONE, 0x3380_0000, 0), (ONE, INEXACT));
    assert_eq!(float_add(ONE, 0x3380_0000, 3), (0x3F80_0001, INEXACT));
    assert_eq!(float_add(ONE, 0x3380_0000, 4), (0x3F80_0001, INEXACT));
    assert_eq!(float_add(ONE, TWO, 0), (THREE, 0));
}

#[test]
fn reserved_modes_give_canonical_nan() {
    assert_eq!(float_add(ONE, TWO, 5), (0x7FC0_0000, 0));
    assert_eq!(float_mul(ONE, TWO, 6), (0x7FC0_0000, 0));
    assert_eq!(double_div(D_ONE, D_TWO, 7), (0x7FF8_0000_0000_0000, 0));
    assert_eq!(float_to_i32(ONE, 5), (0, 0));
    assert_eq!(double_to_u64(D_ONE, 7), (0, 0));
    assert_eq!(i32_to_float(3, 6), (0x7FC0_0000, 0));
}

#[test]
fn single_primitives() {
    assert_eq!(float_sub(ONE, TWO, 0), (0xBF80_0000, 0));
    assert_eq!(float_mul(TWO, THREE, 0), (0x40C0_0000, 0));
    assert_eq!(float_div(ONE, THREE, 0), (0x3EAA_AAAB, INEXACT));
    assert_eq!(float_div(ONE, THREE, 1), (0x3EAA_AAAA, INEXACT));
    assert_eq!(float_div(ONE, 0, 0), (0x7F80_0000, 0x08));
    assert_eq!(float_sqrt(0x4080_0000, 0), (TWO, 0));
    assert_eq!(float_fma(TWO, THREE, ONE, 0), (0x40E0_0000, 0));
    assert_eq!(float_fms(TWO, THREE, ONE, 0), (0x40A0_0000, 0));
    assert_eq!(float_fnma(TWO, THREE, ONE, 0), (0xC0A0_0000, 0));
    assert_eq!(float_fnms(TWO, THREE, ONE, 0), (0xC0E0_0000, 0));
    assert_eq!(float_mul(0x7F80_0000, 0, 0).1, INVALID);
}

#[test]
fn double_primitives() {
    assert_eq!(double_add(D_ONE, D_TWO, 0), (D_THREE, 0));
    assert_eq!(double_sub(D_ONE, D_TWO, 0), (0xBFF0_0000_0000_0000, 0));
    assert_eq!(double_mul(D_TWO, D_THREE, 0), (0x4018_0000_0000_0000, 0));
    assert_eq!(double_div(D_ONE, D_THREE, 0), (0x3FD5_5555_5555_5555, INEXACT));
    assert_eq!(double_sqrt(0x4010_0000_0000_0000, 0), (D_TWO, 0));
    assert_eq!(double_sqrt(D_TWO, 3), (0x3FF6_A09E_667F_3BCD, INEXACT));
    assert_eq!(double_fma(D_TWO, D_THREE, D_ONE, 0), (0x401C_0000_0000_0000, 0));
    assert_eq!(double_fms(D_TWO, D_THREE, D_ONE, 0), (0x4014_0000_0000_0000, 0));
    assert_eq!(double_fnma(D_TWO, D_THREE, D_ONE, 0), (0xC014_0000_0000_0000, 0));
    assert_eq!(double_fnms(D_TWO, D_THREE, D_ONE, 0), (0xC01C_0000_0000_0000, 0));
}

#[test]
fn conversions_to_integers() {
    assert_eq!(float_to_i32(0xC020_0000, 0), (-2, INEXACT));
    assert_eq!(float_to_i32(0xC020_0000, 2), (-3, INEXACT));
    assert_eq!(float_to_i32(0x7FC0_0000, 0), (i32::MAX, INVALID));
    assert_eq!(float_to_i32(0x7F80_0000, 0), (i32::MAX, INVALID));
    assert_eq!(float_to_i32(0xFF80_0000, 0), (i32::MIN, INVALID));
    assert_eq!(float_to_u32(0xBF80_0000, 0), (0, INVALID));
    assert_eq!(float_to_u32(0x4F80_0000, 0), (u32::MAX, INVALID));
    assert_eq!(float_to_i64(0x5F00_0000, 0), (i64::MAX, INVALID));
    assert_eq!(float_to_u64(0x5F00_0000, 0), (1u64 << 63, 0));
    assert_eq!(double_to_i32(0x4004_0000_0000_0000, 4), (3, INEXACT));
    assert_eq!(double_to_u32(D_THREE, 0), (3, 0));
    assert_eq!(double_to_i64(0xC004_0000_0000_0000, 1), (-2, INEXACT));
    assert_eq!(double_to_u64(0x7FF8_0000_0000_0000, 0), (u64::MAX, INVALID));
}

#[test]
fn conversions_from_integers() {
    assert_eq!(i32_to_float(-3, 0), (0xC040_0000, 0));
    assert_eq!(u32_to_float(u32::MAX, 0), (0x4F80_0000, INEXACT));
    assert_eq!(u32_to_float(u32::MAX, 1), (0x4F7F_FFFF, INEXACT));
    assert_eq!(i64_to_float(1 << 40, 0), (0x5380_0000, 0));
    assert_eq!(u64_to_float(u64::MAX, 0), (0x5F80_0000, INEXACT));
    assert_eq!(i32_to_double(i32::MIN, 0), (0xC1E0_0000_0000_0000, 0));
    assert_eq!(u32_to_double(3, 0), (D_THREE, 0));
    assert_eq!(i64_to_double(-1, 0), (0xBFF0_0000_0000_0000, 0));
    assert_eq!(u64_to_double(u64::MAX, 1), (0x43EF_FFFF_FFFF_FFFF, INEXACT));
}

#[test]
fn precision_conversions() {
    assert_eq!(float_to_double(0x3FC0_0000), (0x3FF8_0000_0000_0000, 0));
    assert_eq!(float_to_double(0x7F80_0001).1, INVALID);
    assert_eq!(double_to_float(0x3FD5_5555_5555_5555, 0), (0x3EAA_AAAB, INEXACT));
    assert_eq!(double_to_float(0x3FD5_5555_5555_5555, 1), (0x3EAA_AAAA, INEXACT));
    assert_eq!(double_to_float(0x47F0_0000_0000_0000, 0).1 & 0x04, 0x04);
}
