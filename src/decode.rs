//! Fields and immediates of a 32-bit instruction word.
use vstd::prelude::*;
use crate::util::{get_bits, low_mask32, sext64, sign_extend_64};

verus! {

/// Bits `[hi:lo]` of `inst`, for `hi >= lo`.
pub open spec fn bits(inst: u32, hi: u32, lo: u32) -> u32 {
    (inst >> lo) & low_mask32((hi - lo + 1) as u32)
}

pub open spec fn opcode(inst: u32) -> u32 {
    bits(inst, 6, 0)
}

pub open spec fn rd(inst: u32) -> u32 {
    bits(inst, 11, 7)
}

pub open spec fn funct3(inst: u32) -> u32 {
    bits(inst, 14, 12)
}

pub open spec fn rs1(inst: u32) -> u32 {
    bits(inst, 19, 15)
}

pub open spec fn rs2(inst: u32) -> u32 {
    bits(inst, 24, 20)
}

pub open spec fn rs3(inst: u32) -> u32 {
    bits(inst, 31, 27)
}

pub open spec fn funct7(inst: u32) -> u32 {
    bits(inst, 31, 25)
}

pub open spec fn funct2(inst: u32) -> u32 {
    bits(inst, 26, 25)
}

/// I-type immediate: bits `[31:20]`, sign-extended.
pub open spec fn imm_i(inst: u32) -> u64 {
    sext64(bits(inst, 31, 20) as u64, 12)
}

/// S-type immediate: bits `[31:25]` above bits `[11:7]`, sign-extended.
pub open spec fn imm_s(inst: u32) -> u64 {
    sext64((bits(inst, 11, 7) | (bits(inst, 31, 25) << 5u32)) as u64, 12)
}

/// B-type immediate: a signed multiple of two from bits 31, 7, `[30:25]` and `[11:8]`.
pub open spec fn imm_b(inst: u32) -> u64 {
    sext64(
        ((bits(inst, 31, 31) << 12u32) | (bits(inst, 7, 7) << 11u32) | (bits(inst, 30, 25) << 5u32)
            | (bits(inst, 11, 8) << 1u32)) as u64,
        13,
    )
}

/// U-type immediate: bits `[31:12]` in place, sign-extended from 32 bits.
pub open spec fn imm_u(inst: u32) -> u64 {
    sext64((bits(inst, 31, 12) << 12u32) as u64, 32)
}

/// J-type immediate: a signed multiple of two from bits 31, `[19:12]`, 20 and `[30:21]`.
pub open spec fn imm_j(inst: u32) -> u64 {
    sext64(
        ((bits(inst, 31, 31) << 20u32) | (bits(inst, 19, 12) << 12u32) | (bits(inst, 20, 20) << 11u32)
            | (bits(inst, 30, 21) << 1u32)) as u64,
        21,
    )
}

pub proof fn lemma_field_bounds(inst: u32)
    ensures
        opcode(inst) < 128,
        rd(inst) < 32,
        funct3(inst) < 8,
        rs1(inst) < 32,
        rs2(inst) < 32,
        rs3(inst) < 32,
        funct7(inst) < 128,
        funct2(inst) < 4,
{
    vstd::bits::lemma_low_bits_mask_values();
    vstd::arithmetic::power2::lemma2_to64();
    vstd::bits::lemma_u32_shl_is_mul(1u32, 7);
    vstd::bits::lemma_u32_shl_is_mul(1u32, 5);
    vstd::bits::lemma_u32_shl_is_mul(1u32, 3);
    vstd::bits::lemma_u32_shl_is_mul(1u32, 2);
    assert(low_mask32(7) == vstd::bits::low_bits_mask(7));
    assert(low_mask32(5) == vstd::bits::low_bits_mask(5));
    assert(low_mask32(3) == vstd::bits::low_bits_mask(3));
    assert(low_mask32(2) == vstd::bits::low_bits_mask(2));
    vstd::bits::lemma_u32_low_bits_mask_is_mod(inst >> 0u32, 7);
    vstd::bits::lemma_u32_low_bits_mask_is_mod(inst >> 7u32, 5);
    vstd::bits::lemma_u32_low_bits_mask_is_mod(inst >> 12u32, 3);
    vstd::bits::lemma_u32_low_bits_mask_is_mod(inst >> 15u32, 5);
    vstd::bits::lemma_u32_low_bits_mask_is_mod(inst >> 20u32, 5);
    vstd::bits::lemma_u32_low_bits_mask_is_mod(inst >> 27u32, 5);
    vstd::bits::lemma_u32_low_bits_mask_is_mod(inst >> 25u32, 7);
    vstd::bits::lemma_u32_low_bits_mask_is_mod(inst >> 25u32, 2);
    vstd::arithmetic::power2::lemma2_to64();
}

pub fn get_opcode(inst: u32) -> (r: u32)
    ensures
        r == opcode(inst),
        r < 128,
{
    proof { lemma_field_bounds(inst); }
    get_bits(6, 0, inst)
}

pub fn get_rd(inst: u32) -> (r: u8)
    ensures
        r == rd(inst),
        r < 32,
{
    proof { lemma_field_bounds(inst); }
    get_bits(11, 7, inst) as u8
}

pub fn get_funct3(inst: u32) -> (r: u32)
    ensures
        r == funct3(inst),
        r < 8,
{
    proof { lemma_field_bounds(inst); }
    get_bits(14, 12, inst)
}

pub fn get_rs1(inst: u32) -> (r: u8)
    ensures
        r == rs1(inst),
        r < 32,
{
    proof { lemma_field_bounds(inst); }
    get_bits(19, 15, inst) as u8
}

pub fn get_rs2(inst: u32) -> (r: u8)
    ensures
        r == rs2(inst),
        r < 32,
{
    proof { lemma_field_bounds(inst); }
    get_bits(24, 20, inst) as u8
}

pub fn get_rs3(inst: u32) -> (r: u8)
    ensures
        r == rs3(inst),
        r < 32,
{
    proof { lemma_field_bounds(inst); }
    get_bits(31, 27, inst) as u8
}

pub fn get_funct7(inst: u32) -> (r: u32)
    ensures
        r == funct7(inst),
        r < 128,
{
    proof { lemma_field_bounds(inst); }
    get_bits(31, 25, inst)
}

pub fn get_funct2(inst: u32) -> (r: u32)
    ensures
        r == funct2(inst),
        r < 4,
{
    proof { lemma_field_bounds(inst); }
    get_bits(26, 25, inst)
}

pub fn get_imm_i(inst: u32) -> (r: u64)
    ensures
        r == imm_i(inst),
{
    sign_extend_64(get_bits(31, 20, inst) as u64, 12)
}

pub fn get_imm_s(inst: u32) -> (r: u64)
    ensures
        r == imm_s(inst),
{
    sign_extend_64((get_bits(11, 7, inst) | (get_bits(31, 25, inst) << 5u32)) as u64, 12)
}

pub fn get_imm_b(inst: u32) -> (r: u64)
    ensures
        r == imm_b(inst),
{
    let raw = (get_bits(31, 31, inst) << 12u32) | (get_bits(7, 7, inst) << 11u32) | (get_bits(
        30,
        25,
        inst,
    ) << 5u32) | (get_bits(11, 8, inst) << 1u32);
    sign_extend_64(raw as u64, 13)
}

pub fn get_imm_u(inst: u32) -> (r: u64)
    ensures
        r == imm_u(inst),
{
    sign_extend_64((get_bits(31, 12, inst) << 12u32) as u64, 32)
}

pub fn get_imm_j(inst: u32) -> (r: u64)
    ensures
        r == imm_j(inst),
{
    let raw = (get_bits(31, 31, inst) << 20u32) | (get_bits(19, 12, inst) << 12u32) | (get_bits(
        20,
        20,
        inst,
    ) << 11u32) | (get_bits(30, 21, inst) << 1u32);
    sign_extend_64(raw as u64, 21)
}

} // verus!
