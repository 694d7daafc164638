use narvi::cache_l1::CacheL1;
use narvi::extensions::Extensions;
use narvi::fp::classify;
use narvi::hart::{Hart, HartConfig, HartError};
use narvi::util::{get_bits, set_bits, sign_extend_128, sign_extend_32, sign_extend_64};

fn ext(m: bool, f: bool, d: bool) -> Extensions {
    Extensions { m, a: false, c: false, f, d }
}

fn r_type(f7: u32, rs2: u32, rs1: u32, f3: u32, rd: u32, op: u32) -> u32 {
    (f7 << 25) | (rs2 << 20) | (rs1 << 15) | (f3 << 12) | (rd << 7) | op
}

fn r4_type(rs3: u32, f2: u32, rs2: u32, rs1: u32, rm: u32, rd: u32, op: u32) -> u32 {
    (rs3 << 27) | (f2 << 25) | (rs2 << 20) | (rs1 << 15) | (rm << 12) | (rd << 7) | op
}

fn i_type(imm: i32, rs1: u32, f3: u32, rd: u32, op: u32) -> u32 {
    (((imm as u32) & 0xFFF) << 20) | (rs1 << 15) | (f3 << 12) | (rd << 7) | op
}

fn s_type(imm: i32, rs2: u32, rs1: u32, f3: u32, op: u32) -> u32 {
    let i = imm as u32;
    (((i >> 5) & 0x7F) << 25) | (rs2 << 20) | (rs1 << 15) | (f3 << 12) | ((i & 0x1F) << 7) | op
}

fn b_type(imm: i32, rs2: u32, rs1: u32, f3: u32, op: u32) -> u32 {
    let i = imm as u32;
    (((i >> 12) & 1) << 31) | (((i >> 5) & 0x3F) << 25) | (rs2 << 20) | (rs1 << 15) | (f3 << 12)
        | (((i >> 1) & 0xF) << 8) | (((i >> 11) & 1) << 7) | op
}

fn fp_hart() -> Hart {
    Hart::from_extensions(&ext(false, true, false), 64)
}

fn fpd_hart() -> Hart {
    Hart::from_extensions(&ext(false, true, true), 64)
}

#[test]
fn lui_into_x1() {
    let mut hart = Hart::from_extensions(&Extensions::new(), 0);
    assert!(hart.execute(0x1234_50B7).is_ok());
    assert_eq!(hart.get_reg(1).unwrap(), 0x0000_0000_1234_5000);
    assert!(hart.execute(0xFFFF_F0B7).is_ok());
    assert_eq!(hart.get_reg(1).unwrap(), 0xFFFF_FFFF_FFFF_F000);
}

#[test]
fn addi_sign_extension() {
    let mut hart = Hart::from_extensions(&Extensions::new(), 0);
    assert!(hart.execute(0xFFF0_0093).is_ok());
    assert_eq!(hart.get_reg(1).unwrap(), 0xFFFF_FFFF_FFFF_FFFF);
}

#[test]
fn mulhsu_through_execute() {
    let mut hart = Hart::from_extensions(&ext(true, false, false), 0);
    hart.set_reg(8, 0x0080_0000_0000_0000).unwrap();
    hart.set_reg(9, 0xFF80_0000_0000_0000).unwrap();
    assert!(hart.execute(0x0294_2933).is_ok());
    assert_eq!(hart.get_reg(18).unwrap(), 0x007F_C000_0000_0000);
}

#[test]
fn m_instruction_without_m_extension_is_not_found() {
    let mut hart = Hart::from_extensions(&Extensions::new(), 0);
    assert_eq!(hart.execute(0x0294_2933), Err(HartError::InstructionNotFound));
}

#[test]
fn flw_fsw_round_trip() {
    let mut hart = fp_hart();
    assert_eq!(hart.flen(), 32);
    hart.store(0, 4, 0x4049_0FDB).unwrap();
    assert!(hart.execute(i_type(0, 0, 2, 0, 0x07)).is_ok());
    assert!(hart.execute(s_type(4, 0, 0, 2, 0x27)).is_ok());
    assert_eq!(hart.load(4, 4).unwrap(), 0x4049_0FDB);
}

#[test]
fn fadd_ties_to_even_keeps_one() {
    let mut hart = fp_hart();
    hart.set_fp_reg_32_bits(1, 0x3F80_0000).unwrap();
    hart.set_fp_reg_32_bits(2, 0x3380_0000).unwrap();
    assert!(hart.execute(r_type(0x00, 2, 1, 0, 3, 0x53)).is_ok());
    assert_eq!(hart.get_fp_reg_32_bits(3).unwrap(), 0x3F80_0000);
    assert_eq!(hart.fcsr() & 1, 1);
}

#[test]
fn fmin_of_nan_and_one() {
    let mut hart = fp_hart();
    hart.set_fp_reg_32_bits(1, 0x7FC0_0000).unwrap();
    hart.set_fp_reg_32_bits(2, 0x3F80_0000).unwrap();
    assert!(hart.execute(r_type(0x14, 2, 1, 0, 3, 0x53)).is_ok());
    assert_eq!(hart.get_fp_reg_32_bits(3).unwrap(), 0x3F80_0000);
    assert_eq!(hart.fcsr() & 0x10, 0x10);
}

#[test]
fn fmax_and_signed_zeros() {
    let mut hart = fp_hart();
    hart.set_fp_reg_32_bits(1, 0x8000_0000).unwrap();
    hart.set_fp_reg_32_bits(2, 0x0000_0000).unwrap();
    assert!(hart.execute(r_type(0x14, 2, 1, 0, 3, 0x53)).is_ok());
    assert_eq!(hart.get_fp_reg_32_bits(3).unwrap(), 0x8000_0000);
    assert!(hart.execute(r_type(0x14, 2, 1, 1, 3, 0x53)).is_ok());
    assert_eq!(hart.get_fp_reg_32_bits(3).unwrap(), 0x0000_0000);
    assert_eq!(hart.fcsr() & 0x10, 0);
}

#[test]
fn sraiw_with_bit_25_is_reserved() {
    let mut hart = Hart::from_extensions(&Extensions::new(), 0);
    let inst = (0x10 << 26) | (1 << 25) | (3 << 20) | (1 << 15) | (5 << 12) | (2 << 7) | 0x1B;
    assert!(matches!(hart.execute(inst), Err(HartError::ReservedInstruction(_))));
    let plain = (0x10 << 26) | (3 << 20) | (1 << 15) | (5 << 12) | (2 << 7) | 0x1B;
    hart.set_reg(1, 0x8000_0000).unwrap();
    assert!(hart.execute(plain).is_ok());
    assert_eq!(hart.get_reg(2).unwrap(), 0xFFFF_FFFF_F000_0000);
}

#[test]
fn branch_not_taken_leaves_pc() {
    let mut hart = Hart::from_extensions(&Extensions::new(), 0);
    hart.set_pc(100);
    hart.set_reg(1, 1).unwrap();
    hart.set_reg(2, 2).unwrap();
    assert!(hart.execute(b_type(8, 2, 1, 0, 0x63)).is_ok());
    assert_eq!(hart.pc(), 100);
    hart.set_reg(2, 1).unwrap();
    assert!(hart.execute(b_type(8, 2, 1, 0, 0x63)).is_ok());
    assert_eq!(hart.pc(), 104);
}

#[test]
fn jal_and_jalr_link_and_jump() {
    let mut hart = Hart::from_extensions(&Extensions::new(), 0);
    hart.set_pc(100);
    // JAL x1, +16
    assert!(hart.execute((8 << 21) | (1 << 7) | 0x6F).is_ok());
    assert_eq!(hart.get_reg(1).unwrap(), 104);
    assert_eq!(hart.pc(), 112);
    // JALR x2, 3(x1): target (104 + 3) & !1 = 106
    assert!(hart.execute(i_type(3, 1, 0, 2, 0x67)).is_ok());
    assert_eq!(hart.get_reg(2).unwrap(), 116);
    assert_eq!(hart.pc(), 102);
}

#[test]
fn loads_and_stores_through_registers() {
    let mut hart = Hart::from_extensions(&Extensions::new(), 32);
    hart.set_reg(1, 8).unwrap();
    hart.set_reg(2, 0x8877_6655_4433_2291).unwrap();
    // SD x2, 0(x1); LB x3, 0(x1); LBU x4, 0(x1); LW x5, 4(x1); LD x6, 0(x1)
    assert!(hart.execute(s_type(0, 2, 1, 3, 0x23)).is_ok());
    assert!(hart.execute(i_type(0, 1, 0, 3, 0x03)).is_ok());
    assert_eq!(hart.get_reg(3).unwrap(), 0xFFFF_FFFF_FFFF_FF91);
    assert!(hart.execute(i_type(0, 1, 4, 4, 0x03)).is_ok());
    assert_eq!(hart.get_reg(4).unwrap(), 0x91);
    assert!(hart.execute(i_type(4, 1, 2, 5, 0x03)).is_ok());
    assert_eq!(hart.get_reg(5).unwrap(), 0xFFFF_FFFF_8877_6655);
    assert!(hart.execute(i_type(0, 1, 3, 6, 0x03)).is_ok());
    assert_eq!(hart.get_reg(6).unwrap(), 0x8877_6655_4433_2291);
    // A load past the end of memory fails and leaves the destination alone.
    assert_eq!(hart.execute(i_type(28, 1, 3, 6, 0x03)), Err(HartError::ExecutionError));
    assert_eq!(hart.get_reg(6).unwrap(), 0x8877_6655_4433_2291);
}

#[test]
fn alu_register_forms() {
    let mut hart = Hart::from_extensions(&Extensions::new(), 0);
    hart.set_reg(1, 0xFFFF_FFFF_FFFF_FFF0).unwrap();
    hart.set_reg(2, 4).unwrap();
    assert!(hart.execute(r_type(0x20, 2, 1, 5, 3, 0x33)).is_ok());
    assert_eq!(hart.get_reg(3).unwrap(), 0xFFFF_FFFF_FFFF_FFFF);
    assert!(hart.execute(r_type(0, 2, 1, 5, 3, 0x33)).is_ok());
    assert_eq!(hart.get_reg(3).unwrap(), 0x0FFF_FFFF_FFFF_FFFF);
    assert!(hart.execute(r_type(0, 2, 1, 2, 3, 0x33)).is_ok());
    assert_eq!(hart.get_reg(3).unwrap(), 1);
    assert!(hart.execute(r_type(0, 2, 1, 3, 3, 0x33)).is_ok());
    assert_eq!(hart.get_reg(3).unwrap(), 0);
    assert!(hart.execute(r_type(0x20, 2, 1, 0, 3, 0x33)).is_ok());
    assert_eq!(hart.get_reg(3).unwrap(), 0xFFFF_FFFF_FFFF_FFEC);
    assert!(hart.execute(r_type(0, 2, 1, 0, 3, 0x3B)).is_ok());
    assert_eq!(hart.get_reg(3).unwrap(), 0xFFFF_FFFF_FFFF_FFF4);
}

#[test]
fn integer_register_laws() {
    let mut hart = Hart::from_extensions(&Extensions::new(), 0);
    for i in 1u8..32 {
        let v = 0x0123_4567_89AB_CDEFu64.rotate_left(i as u32);
        hart.set_reg(i, v).unwrap();
        assert_eq!(hart.get_reg(i).unwrap(), v);
    }
    hart.set_reg(0, 0xDEAD).unwrap();
    assert_eq!(hart.get_reg(0).unwrap(), 0);
}

#[test]
fn register_index_out_of_range() {
    let mut hart = Hart::from_extensions(&Extensions::new(), 0);
    assert_eq!(hart.get_reg(32), Err(HartError::RegisterNotFound));
    assert_eq!(hart.set_reg(40, 1), Err(HartError::RegisterNotFound));
    assert_eq!(fp_hart().get_fp_reg_32_bits(32), Err(HartError::RegisterNotFound));
}

#[test]
fn unknown_and_unimplemented_instructions() {
    let mut hart = Hart::from_extensions(&Extensions::new(), 0);
    assert_eq!(hart.execute(0), Err(HartError::InstructionNotFound));
    assert_eq!(hart.execute(0x0000_0073), Err(HartError::ExecutionError));
    assert_eq!(hart.execute(0x0000_000F), Err(HartError::ExecutionError));
}

#[test]
fn memory_round_trips() {
    let mut mem = CacheL1::new(16);
    assert_eq!(mem.size(), 16);
    mem.set64(8, 0x0102_0304_0506_0708);
    assert_eq!(mem.get64(8), 0x0102_0304_0506_0708);
    assert_eq!(mem.get8(8), 0x08);
    assert_eq!(mem.get8(15), 0x01);
    mem.set32(0, 0x1122_3344);
    assert_eq!(mem.get32(0), 0x1122_3344);
    assert_eq!(mem.get16(0), 0x3344);
    assert_eq!(mem.get16(2), 0x1122);
    mem.set16(4, 0xBEEF);
    assert_eq!(mem.get16(4), 0xBEEF);
    mem.set8(6, 0x7A);
    assert_eq!(mem.get8(6), 0x7A);
    assert_eq!(mem.get8(5), 0xBE);
}

#[test]
fn sign_extension_and_bit_fields() {
    assert_eq!(sign_extend_64(0x800, 12), 0xFFFF_FFFF_FFFF_F800);
    assert_eq!(sign_extend_64(0x7FF, 12), 0x7FF);
    assert_eq!(sign_extend_64(0xF7FF, 12), 0x7FF);
    assert_eq!(sign_extend_64(u64::MAX, 64), u64::MAX);
    assert_eq!(sign_extend_32(0x80, 8), 0xFFFF_FF80);
    assert_eq!(sign_extend_128(1u128 << 63, 64), 0xFFFF_FFFF_FFFF_FFFF_8000_0000_0000_0000);
    assert_eq!(get_bits(6, 0, 0x1234_50B7), 0x37);
    assert_eq!(get_bits(0, 6, 0x1234_50B7), 0x37);
    assert_eq!(get_bits(31, 0, 0xDEAD_BEEF), 0xDEAD_BEEF);
    assert_eq!(set_bits(0x5, 3, 1, 0), 0xA);
    assert_eq!(set_bits(0x0, 7, 4, 0xFF), 0x0F);
}

#[test]
fn single_is_nan_boxed_at_flen_64() {
    let mut hart = fpd_hart();
    assert_eq!(hart.flen(), 64);
    hart.set_fp_reg_32_bits(5, 0x4049_0FDB).unwrap();
    assert_eq!(hart.get_fp_reg_32_bits(5).unwrap(), 0x4049_0FDB);
    assert_eq!(hart.get_fp_reg_64_bits(5).unwrap() >> 32, 0xFFFF_FFFF);
    hart.set_fp_reg_64_bits(6, 0x4000_0000_0000_0000).unwrap();
    assert_eq!(hart.get_fp_reg_32_bits(6).unwrap(), 0x7FC0_0000);
}

#[test]
fn classification_is_one_hot() {
    assert_eq!(classify(0xFF80_0000, false), 1 << 0);
    assert_eq!(classify(0xBF80_0000, false), 1 << 1);
    assert_eq!(classify(0x8000_0001, false), 1 << 2);
    assert_eq!(classify(0x8000_0000, false), 1 << 3);
    assert_eq!(classify(0x0000_0000, false), 1 << 4);
    assert_eq!(classify(0x0000_0001, false), 1 << 5);
    assert_eq!(classify(0x3F80_0000, false), 1 << 6);
    assert_eq!(classify(0x7F80_0000, false), 1 << 7);
    assert_eq!(classify(0x7F80_0001, false), 1 << 8);
    assert_eq!(classify(0x7FC0_0000, false), 1 << 9);
    assert_eq!(classify(0xFFF0_0000_0000_0000, true), 1 << 0);
    assert_eq!(classify(0x7FF8_0000_0000_0000, true), 1 << 9);
    let mut hart = fp_hart();
    hart.set_fp_reg_32_bits(1, 0xBF80_0000).unwrap();
    assert!(hart.execute(r_type(0x70, 0, 1, 1, 5, 0x53)).is_ok());
    assert_eq!(hart.get_reg(5).unwrap(), 1 << 1);
}

#[test]
fn fp_width_errors() {
    let mut hart = fp_hart();
    assert_eq!(hart.get_fp_reg_64_bits(0), Err(HartError::FLENTooShort));
    assert_eq!(hart.execute_fp(r_type(0x01, 2, 1, 0, 3, 0x53), true), Err(HartError::FLENTooShort));
    let mut none = Hart::from_extensions(&Extensions::new(), 0);
    assert_eq!(none.get_fp_reg_32_bits(0), Err(HartError::FLENTooShort));
    assert_eq!(none.set_fp_reg_32_bits(0, 1), Err(HartError::FLENTooShort));
}

#[test]
fn single_arithmetic() {
    let mut hart = fp_hart();
    hart.set_fp_reg_32_bits(1, 0x3F80_0000).unwrap();
    hart.set_fp_reg_32_bits(2, 0x4000_0000).unwrap();
    hart.set_fp_reg_32_bits(3, 0x3FC0_0000).unwrap();
    assert!(hart.execute(r_type(0x00, 2, 1, 0, 4, 0x53)).is_ok());
    assert_eq!(hart.get_fp_reg_32_bits(4).unwrap(), 0x4040_0000);
    assert!(hart.execute(r_type(0x04, 2, 1, 0, 4, 0x53)).is_ok());
    assert_eq!(hart.get_fp_reg_32_bits(4).unwrap(), 0xBF80_0000);
    assert!(hart.execute(r_type(0x08, 2, 3, 0, 4, 0x53)).is_ok());
    assert_eq!(hart.get_fp_reg_32_bits(4).unwrap(), 0x4040_0000);
    assert_eq!(hart.fcsr() & 1, 0);
    hart.set_fp_reg_32_bits(5, 0x4040_0000).unwrap();
    assert!(hart.execute(r_type(0x0C, 5, 1, 0, 4, 0x53)).is_ok());
    assert_eq!(hart.get_fp_reg_32_bits(4).unwrap(), 0x3EAA_AAAB);
    assert_eq!(hart.fcsr() & 1, 1);
    // 2 * 1.5 + 1 with a single rounding.
    assert!(hart.execute(r4_type(1, 0, 3, 2, 0, 6, 0x43)).is_ok());
    assert_eq!(hart.get_fp_reg_32_bits(6).unwrap(), 0x4080_0000);
    // -(2 * 1.5) - 1
    assert!(hart.execute(r4_type(1, 0, 3, 2, 0, 6, 0x4F)).is_ok());
    assert_eq!(hart.get_fp_reg_32_bits(6).unwrap(), 0xC080_0000);
}

#[test]
fn dynamic_and_reserved_rounding_modes() {
    let mut hart = fp_hart();
    hart.set_fp_reg_32_bits(1, 0x3F80_0000).unwrap();
    hart.set_fp_reg_32_bits(2, 0x4040_0000).unwrap();
    hart.set_frm(1);
    assert!(hart.execute(r_type(0x0C, 2, 1, 7, 3, 0x53)).is_ok());
    assert_eq!(hart.get_fp_reg_32_bits(3).unwrap(), 0x3EAA_AAAA);
    let before = hart.fcsr();
    assert!(hart.execute(r_type(0x00, 2, 1, 5, 3, 0x53)).is_ok());
    assert_eq!(hart.get_fp_reg_32_bits(3).unwrap(), 0x7FC0_0000);
    assert_eq!(hart.fcsr(), before);
    hart.set_frm(6);
    assert!(hart.execute(r_type(0x60, 0, 1, 7, 5, 0x53)).is_ok());
    assert_eq!(hart.get_reg(5).unwrap(), 0);
}

#[test]
fn single_conversions() {
    let mut hart = fp_hart();
    hart.set_fp_reg_32_bits(1, 0xC020_0000).unwrap();
    assert!(hart.execute(r_type(0x60, 0, 1, 0, 5, 0x53)).is_ok());
    assert_eq!(hart.get_reg(5).unwrap(), 0xFFFF_FFFF_FFFF_FFFE);
    assert!(hart.execute(r_type(0x60, 0, 1, 2, 5, 0x53)).is_ok());
    assert_eq!(hart.get_reg(5).unwrap(), 0xFFFF_FFFF_FFFF_FFFD);
    assert!(hart.execute(r_type(0x60, 2, 1, 1, 5, 0x53)).is_ok());
    assert_eq!(hart.get_reg(5).unwrap(), 0xFFFF_FFFF_FFFF_FFFE);
    hart.set_fp_reg_32_bits(2, 0x406C_CCCD).unwrap();
    assert!(hart.execute(r_type(0x60, 1, 2, 1, 5, 0x53)).is_ok());
    assert_eq!(hart.get_reg(5).unwrap(), 3);
    assert!(hart.execute(r_type(0x60, 3, 2, 3, 5, 0x53)).is_ok());
    assert_eq!(hart.get_reg(5).unwrap(), 4);
    hart.set_fp_reg_32_bits(3, 0x7FC0_0000).unwrap();
    assert!(hart.execute(r_type(0x60, 0, 3, 0, 5, 0x53)).is_ok());
    assert_eq!(hart.get_reg(5).unwrap(), 0x7FFF_FFFF);
    assert_eq!(hart.fcsr() & 0x10, 0x10);
    hart.set_reg(6, (-3i64) as u64).unwrap();
    assert!(hart.execute(r_type(0x68, 0, 6, 0, 7, 0x53)).is_ok());
    assert_eq!(hart.get_fp_reg_32_bits(7).unwrap(), 0xC040_0000);
    assert!(hart.execute(r_type(0x68, 3, 6, 0, 7, 0x53)).is_ok());
    assert_eq!(hart.get_fp_reg_32_bits(7).unwrap(), 0x5F80_0000);
    assert!(hart.execute(r_type(0x70, 0, 7, 0, 8, 0x53)).is_ok());
    assert_eq!(hart.get_reg(8).unwrap(), 0x5F80_0000);
    assert!(hart.execute(r_type(0x78, 0, 6, 0, 9, 0x53)).is_ok());
    assert_eq!(hart.get_fp_reg_32_bits(9).unwrap(), 0xFFFF_FFFD);
}

#[test]
fn single_compares_and_sign_injection() {
    let mut hart = fp_hart();
    hart.set_fp_reg_32_bits(1, 0x3F80_0000).unwrap();
    hart.set_fp_reg_32_bits(2, 0xC000_0000).unwrap();
    hart.set_fp_reg_32_bits(3, 0x7F80_0001).unwrap();
    assert!(hart.execute(r_type(0x50, 1, 2, 1, 5, 0x53)).is_ok());
    assert_eq!(hart.get_reg(5).unwrap(), 1);
    assert!(hart.execute(r_type(0x50, 2, 1, 0, 5, 0x53)).is_ok());
    assert_eq!(hart.get_reg(5).unwrap(), 0);
    assert!(hart.execute(r_type(0x50, 1, 1, 2, 5, 0x53)).is_ok());
    assert_eq!(hart.get_reg(5).unwrap(), 1);
    assert_eq!(hart.fcsr() & 0x10, 0);
    assert!(hart.execute(r_type(0x50, 3, 1, 2, 5, 0x53)).is_ok());
    assert_eq!(hart.get_reg(5).unwrap(), 0);
    assert_eq!(hart.fcsr() & 0x10, 0x10);
    assert!(hart.execute(r_type(0x10, 2, 1, 0, 6, 0x53)).is_ok());
    assert_eq!(hart.get_fp_reg_32_bits(6).unwrap(), 0xBF80_0000);
    assert!(hart.execute(r_type(0x10, 2, 1, 1, 6, 0x53)).is_ok());
    assert_eq!(hart.get_fp_reg_32_bits(6).unwrap(), 0x3F80_0000);
    assert!(hart.execute(r_type(0x10, 2, 2, 2, 6, 0x53)).is_ok());
    assert_eq!(hart.get_fp_reg_32_bits(6).unwrap(), 0x4000_0000);
}

#[test]
fn square_roots() {
    let mut hart = fpd_hart();
    hart.set_fp_reg_32_bits(1, 0x4000_0000).unwrap();
    assert!(hart.execute(r_type(0x2C, 0, 1, 0, 2, 0x53)).is_ok());
    assert_eq!(hart.get_fp_reg_32_bits(2).unwrap(), 0x3FB5_04F3);
    assert_eq!(hart.fcsr() & 1, 1);
    hart.set_fp_reg_64_bits(3, 0x4000_0000_0000_0000).unwrap();
    assert!(hart.execute(r_type(0x2D, 0, 3, 0, 4, 0x53)).is_ok());
    assert_eq!(hart.get_fp_reg_64_bits(4).unwrap(), 0x3FF6_A09E_667F_3BCD);
    assert!(hart.execute(r_type(0x2D, 0, 3, 1, 4, 0x53)).is_ok());
    assert_eq!(hart.get_fp_reg_64_bits(4).unwrap(), 0x3FF6_A09E_667F_3BCC);

    let mut exact = fp_hart();
    exact.set_fp_reg_32_bits(1, 0x4080_0000).unwrap();
    assert!(exact.execute(r_type(0x2C, 0, 1, 0, 2, 0x53)).is_ok());
    assert_eq!(exact.get_fp_reg_32_bits(2).unwrap(), 0x4000_0000);
    assert_eq!(exact.fcsr(), 0);
    exact.set_fp_reg_32_bits(1, 0x0000_0001).unwrap();
    assert!(exact.execute(r_type(0x2C, 0, 1, 0, 2, 0x53)).is_ok());
    assert_eq!(exact.get_fp_reg_32_bits(2).unwrap(), 0x1A35_04F3);
    exact.set_fp_reg_32_bits(1, 0xBF80_0000).unwrap();
    assert!(exact.execute(r_type(0x2C, 0, 1, 0, 2, 0x53)).is_ok());
    assert_eq!(exact.get_fp_reg_32_bits(2).unwrap(), 0x7FC0_0000);
    assert_eq!(exact.fcsr() & 0x10, 0x10);
}

#[test]
fn double_arithmetic_and_conversions() {
    let mut hart = fpd_hart();
    hart.set_fp_reg_64_bits(1, 0x3FF0_0000_0000_0000).unwrap();
    hart.set_fp_reg_64_bits(2, 0x4000_0000_0000_0000).unwrap();
    assert!(hart.execute(r_type(0x01, 2, 1, 0, 3, 0x53)).is_ok());
    assert_eq!(hart.get_fp_reg_64_bits(3).unwrap(), 0x4008_0000_0000_0000);
    assert!(hart.execute(r_type(0x09, 2, 3, 0, 4, 0x53)).is_ok());
    assert_eq!(hart.get_fp_reg_64_bits(4).unwrap(), 0x4018_0000_0000_0000);
    assert!(hart.execute(r_type(0x0D, 3, 1, 0, 5, 0x53)).is_ok());
    assert_eq!(hart.get_fp_reg_64_bits(5).unwrap(), 0x3FD5_5555_5555_5555);
    assert!(hart.execute(r4_type(1, 1, 2, 3, 0, 6, 0x43)).is_ok());
    assert_eq!(hart.get_fp_reg_64_bits(6).unwrap(), 0x401C_0000_0000_0000);
    assert!(hart.execute(r_type(0x61, 2, 4, 0, 7, 0x53)).is_ok());
    assert_eq!(hart.get_reg(7).unwrap(), 6);
    assert!(hart.execute(r_type(0x61, 3, 4, 0, 7, 0x53)).is_ok());
    assert_eq!(hart.get_reg(7).unwrap(), 6);
    hart.set_reg(8, (-5i64) as u64).unwrap();
    assert!(hart.execute(r_type(0x69, 2, 8, 0, 9, 0x53)).is_ok());
    assert_eq!(hart.get_fp_reg_64_bits(9).unwrap(), 0xC014_0000_0000_0000);
    assert!(hart.execute(r_type(0x71, 0, 9, 0, 10, 0x53)).is_ok());
    assert_eq!(hart.get_reg(10).unwrap(), 0xC014_0000_0000_0000);
}

#[test]
fn precision_changes() {
    let mut hart = fpd_hart();
    hart.set_fp_reg_32_bits(1, 0x3FC0_0000).unwrap();
    assert!(hart.execute(r_type(0x21, 0, 1, 0, 2, 0x53)).is_ok());
    assert_eq!(hart.get_fp_reg_64_bits(2).unwrap(), 0x3FF8_0000_0000_0000);
    hart.set_fp_reg_64_bits(3, 0x3FD5_5555_5555_5555).unwrap();
    assert!(hart.execute(r_type(0x20, 1, 3, 0, 4, 0x53)).is_ok());
    assert_eq!(hart.get_fp_reg_32_bits(4).unwrap(), 0x3EAA_AAAB);
    assert_eq!(hart.get_fp_reg_64_bits(4).unwrap() >> 32, 0xFFFF_FFFF);
    assert_eq!(hart.fcsr() & 1, 1);
}

#[test]
fn configuration_round_trip() {
    let config = HartConfig { extensions: ext(true, true, false), l1_size: 128 };
    let hart = Hart::from_config(&config);
    assert_eq!(hart.config(), config);
    assert_eq!(hart.flen(), 32);
    assert_eq!(hart.extensions(), config.extensions);
}

#[test]
fn auipc_and_immediate_forms() {
    let mut hart = Hart::from_extensions(&Extensions::new(), 0);
    hart.set_pc(0x1000);
    assert!(hart.execute(0xFFFF_F097).is_ok());
    assert_eq!(hart.get_reg(1).unwrap(), 0x1000u64.wrapping_sub(0x1000));
    hart.set_reg(2, 0xFFFF_FFFF_FFFF_FFFE).unwrap();
    // SLTI x3, x2, 1 and SLTIU x3, x2, 1
    assert!(hart.execute(i_type(1, 2, 2, 3, 0x13)).is_ok());
    assert_eq!(hart.get_reg(3).unwrap(), 1);
    assert!(hart.execute(i_type(1, 2, 3, 3, 0x13)).is_ok());
    assert_eq!(hart.get_reg(3).unwrap(), 0);
    // SLLI x4, x2, 40 uses all six shift bits.
    assert!(hart.execute(i_type(40, 2, 1, 4, 0x13)).is_ok());
    assert_eq!(hart.get_reg(4).unwrap(), 0xFFFF_FE00_0000_0000);
    // SRAI x5, x4, 36 and SRLI x6, x4, 36
    assert!(hart.execute(i_type(0x400 | 36, 4, 5, 5, 0x13)).is_ok());
    assert_eq!(hart.get_reg(5).unwrap(), 0xFFFF_FFFF_FFFF_FFE0);
    assert!(hart.execute(i_type(36, 4, 5, 6, 0x13)).is_ok());
    assert_eq!(hart.get_reg(6).unwrap(), 0x0FFF_FFE0);
    // An SLLI with bits [31:26] set is refused.
    assert_eq!(hart.execute(i_type(0x400 | 3, 2, 1, 4, 0x13)), Err(HartError::ExecutionError));
    // Writes to x0 are dropped.
    assert!(hart.execute(i_type(5, 0, 0, 0, 0x13)).is_ok());
    assert_eq!(hart.get_reg(0).unwrap(), 0);
}

#[test]
fn word_shifts_sign_extend() {
    let mut hart = Hart::from_extensions(&Extensions::new(), 0);
    hart.set_reg(1, 0x0000_0000_8000_0001).unwrap();
    hart.set_reg(2, 33).unwrap();
    // SLLIW x3, x1, 1
    assert!(hart.execute(i_type(1, 1, 1, 3, 0x1B)).is_ok());
    assert_eq!(hart.get_reg(3).unwrap(), 2);
    // SRLIW x3, x1, 1
    assert!(hart.execute(i_type(1, 1, 5, 3, 0x1B)).is_ok());
    assert_eq!(hart.get_reg(3).unwrap(), 0x4000_0000);
    // SRAW x3, x1, x2 shifts by 33 & 31 == 1.
    assert!(hart.execute(r_type(0x20, 2, 1, 5, 3, 0x3B)).is_ok());
    assert_eq!(hart.get_reg(3).unwrap(), 0xFFFF_FFFF_C000_0000);
    // ADDIW x3, x1, -1
    assert!(hart.execute(i_type(-1, 1, 0, 3, 0x1B)).is_ok());
    assert_eq!(hart.get_reg(3).unwrap(), 0xFFFF_FFFF_8000_0000);
}

#[test]
fn fld_fsd_round_trip() {
    let mut hart = fpd_hart();
    hart.store(8, 8, 0x4009_21FB_5444_2D18).unwrap();
    hart.set_reg(1, 8).unwrap();
    assert!(hart.execute(i_type(0, 1, 3, 2, 0x07)).is_ok());
    assert_eq!(hart.get_fp_reg_64_bits(2).unwrap(), 0x4009_21FB_5444_2D18);
    assert!(hart.execute(s_type(16, 2, 1, 3, 0x27)).is_ok());
    assert_eq!(hart.load(24, 8).unwrap(), 0x4009_21FB_5444_2D18);
}
