//! The 64-bit base integer instruction set.
use vstd::prelude::*;
use crate::cache_l1::store_le;
use crate::decode::{
    bits, funct3, funct7, get_funct3, get_funct7, get_imm_b, get_imm_i, get_imm_j, get_imm_s,
    get_imm_u, get_opcode, get_rd, get_rs1, get_rs2, imm_b, imm_i, imm_j, imm_s, imm_u, opcode, rd,
    rs1, rs2,
};
use crate::hart::{Hart, HartError, HartState, agrees, in_bounds, mem_read, outcome};
use crate::util::{sext64, sign_extend_64};

verus! {

/// `a` read as a two's-complement number.
pub open spec fn signed64(a: u64) -> int {
    if a < 0x8000_0000_0000_0000 {
        a as int
    } else {
        a - 0x1_0000_0000_0000_0000
    }
}

/// Arithmetic right shift: the vacated high bits copy the sign bit.
pub open spec fn sra64(a: u64, s: u64) -> u64 {
    if a < 0x8000_0000_0000_0000 {
        a >> s
    } else {
        !((!a) >> s)
    }
}

pub open spec fn bool_word(b: bool) -> u64 {
    if b {
        1
    } else {
        0
    }
}

/// Result of a register-immediate ALU instruction on source value `a`.
pub open spec fn alu_imm_value(inst: u32, a: u64) -> Result<u64, HartError> {
    let f3 = funct3(inst);
    let imm = imm_i(inst);
    let sh = bits(inst, 25, 20) as u64;
    let f6 = bits(inst, 31, 26);
    if f3 == 0 {
        Ok(a.wrapping_add(imm))
    } else if f3 == 2 {
        Ok(bool_word(signed64(a) < signed64(imm)))
    } else if f3 == 3 {
        Ok(bool_word(a < imm))
    } else if f3 == 4 {
        Ok(a ^ imm)
    } else if f3 == 6 {
        Ok(a | imm)
    } else if f3 == 7 {
        Ok(a & imm)
    } else if f3 == 1 {
        if f6 == 0 {
            Ok(a << sh)
        } else {
            Err(HartError::ExecutionError)
        }
    } else if f6 == 0 {
        Ok(a >> sh)
    } else if f6 == 0x10 {
        Ok(sra64(a, sh))
    } else {
        Err(HartError::ExecutionError)
    }
}

/// Result of a register-register ALU instruction on source values `a` and `b`.
pub open spec fn alu_value(inst: u32, a: u64, b: u64) -> Result<u64, HartError> {
    let f3 = funct3(inst);
    let f7 = funct7(inst);
    let sh = b & 63;
    if f7 == 0 {
        if f3 == 0 {
            Ok(a.wrapping_add(b))
        } else if f3 == 1 {
            Ok(a << sh)
        } else if f3 == 2 {
            Ok(bool_word(signed64(a) < signed64(b)))
        } else if f3 == 3 {
            Ok(bool_word(a < b))
        } else if f3 == 4 {
            Ok(a ^ b)
        } else if f3 == 5 {
            Ok(a >> sh)
        } else if f3 == 6 {
            Ok(a | b)
        } else {
            Ok(a & b)
        }
    } else if f7 == 0x20 && f3 == 0 {
        Ok(a.wrapping_sub(b))
    } else if f7 == 0x20 && f3 == 5 {
        Ok(sra64(a, sh))
    } else {
        Err(HartError::InstructionNotFound)
    }
}

/// Result of a 32-bit register-immediate instruction on source value `a`.
pub open spec fn alu_imm_w_value(inst: u32, a: u64) -> Result<u64, HartError> {
    let f3 = funct3(inst);
    let f7 = funct7(inst);
    let sh = bits(inst, 24, 20) as u64;
    if f3 == 0 {
        Ok(sext64(a.wrapping_add(imm_i(inst)), 32))
    } else if f3 == 1 && f7 == 0 {
        Ok(sext64(a << sh, 32))
    } else if f3 == 5 && f7 == 0 {
        Ok(sext64((a & 0xFFFF_FFFF) >> sh, 32))
    } else if f3 == 5 && bits(inst, 31, 26) == 0x10 {
        if bits(inst, 25, 25) == 1 {
            Err(HartError::ReservedInstruction(arbitrary()))
        } else {
            Ok(sra64(sext64(a, 32), sh))
        }
    } else {
        Err(HartError::ExecutionError)
    }
}

/// Result of a 32-bit register-register instruction on source values `a` and `b`.
pub open spec fn alu_w_value(inst: u32, a: u64, b: u64) -> Result<u64, HartError> {
    let f3 = funct3(inst);
    let f7 = funct7(inst);
    let sh = b & 31;
    if f7 == 0 && f3 == 0 {
        Ok(sext64(a.wrapping_add(b), 32))
    } else if f7 == 0 && f3 == 1 {
        Ok(sext64(a << sh, 32))
    } else if f7 == 0 && f3 == 5 {
        Ok(sext64((a & 0xFFFF_FFFF) >> sh, 32))
    } else if f7 == 0x20 && f3 == 0 {
        Ok(sext64(a.wrapping_sub(b), 32))
    } else if f7 == 0x20 && f3 == 5 {
        Ok(sra64(sext64(a, 32), sh))
    } else {
        Err(HartError::InstructionNotFound)
    }
}

/// Whether the branch selected by `funct3` is taken on `a` and `b`.
pub open spec fn branch_taken(f3: u32, a: u64, b: u64) -> bool {
    if f3 == 0 {
        a == b
    } else if f3 == 1 {
        a != b
    } else if f3 == 4 {
        signed64(a) < signed64(b)
    } else if f3 == 5 {
        signed64(a) >= signed64(b)
    } else if f3 == 6 {
        a < b
    } else {
        a >= b
    }
}

/// PC value that makes the caller's `+ 4` land on `pc + offset`.
pub open spec fn jump_pc(pc: u64, offset: u64) -> u64 {
    pc.wrapping_add(offset).wrapping_sub(4)
}

/// Width in bytes of the load selected by `funct3`.
pub open spec fn load_width(f3: u32) -> nat {
    if f3 == 0 || f3 == 4 {
        1
    } else if f3 == 1 || f3 == 5 {
        2
    } else if f3 == 2 || f3 == 6 {
        4
    } else {
        8
    }
}

/// Register value of a load selected by `funct3` that read `v` from memory.
pub open spec fn load_value(f3: u32, v: u64) -> u64 {
    if f3 == 0 {
        sext64(v, 8)
    } else if f3 == 1 {
        sext64(v, 16)
    } else if f3 == 2 {
        sext64(v, 32)
    } else {
        v
    }
}

pub open spec fn branch_step(s: HartState, inst: u32) -> Result<HartState, HartError> {
    let f3 = funct3(inst);
    if f3 == 2 || f3 == 3 {
        Err(HartError::InstructionNotFound)
    } else if branch_taken(f3, s.reg(rs1(inst) as int), s.reg(rs2(inst) as int)) {
        Ok(s.with_pc(jump_pc(s.pc, imm_b(inst))))
    } else {
        Ok(s)
    }
}

pub open spec fn load_step(s: HartState, inst: u32) -> Result<HartState, HartError> {
    let f3 = funct3(inst);
    let addr = s.reg(rs1(inst) as int).wrapping_add(imm_i(inst));
    let w = load_width(f3);
    if f3 == 7 {
        Err(HartError::InstructionNotFound)
    } else if !in_bounds(addr, w, s.mem.len()) {
        Err(HartError::ExecutionError)
    } else {
        Ok(s.with_reg(rd(inst) as int, load_value(f3, mem_read(s.mem, addr as int, w) as u64)))
    }
}

pub open spec fn store_step(s: HartState, inst: u32) -> Result<HartState, HartError> {
    let f3 = funct3(inst);
    let addr = s.reg(rs1(inst) as int).wrapping_add(imm_s(inst));
    let w = load_width(f3);
    if f3 > 3 {
        Err(HartError::InstructionNotFound)
    } else if !in_bounds(addr, w, s.mem.len()) {
        Err(HartError::ExecutionError)
    } else {
        Ok(s.with_mem(store_le(s.mem, addr as int, s.reg(rs2(inst) as int), w)))
    }
}

/// Writes the value `v` describes to `rd`.
pub open spec fn write_step(s: HartState, inst: u32, v: Result<u64, HartError>) -> Result<
    HartState,
    HartError,
> {
    match v {
        Ok(x) => Ok(s.with_reg(rd(inst) as int, x)),
        Err(e) => Err(e),
    }
}

/// What one base-set instruction does to the hart.
pub open spec fn base_step(s: HartState, inst: u32) -> Result<HartState, HartError> {
    let op = opcode(inst);
    let a = s.reg(rs1(inst) as int);
    let b = s.reg(rs2(inst) as int);
    if op == 0x37 {
        Ok(s.with_reg(rd(inst) as int, imm_u(inst)))
    } else if op == 0x17 {
        Ok(s.with_reg(rd(inst) as int, s.pc.wrapping_add(imm_u(inst))))
    } else if op == 0x6F {
        Ok(s.with_reg(rd(inst) as int, s.pc.wrapping_add(4)).with_pc(jump_pc(s.pc, imm_j(inst))))
    } else if op == 0x67 {
        let target = a.wrapping_add(imm_i(inst)) & !1u64;
        Ok(s.with_reg(rd(inst) as int, s.pc.wrapping_add(4)).with_pc(target.wrapping_sub(4)))
    } else if op == 0x63 {
        branch_step(s, inst)
    } else if op == 0x03 {
        load_step(s, inst)
    } else if op == 0x23 {
        store_step(s, inst)
    } else if op == 0x13 {
        write_step(s, inst, alu_imm_value(inst, a))
    } else if op == 0x33 {
        write_step(s, inst, alu_value(inst, a, b))
    } else if op == 0x1B {
        write_step(s, inst, alu_imm_w_value(inst, a))
    } else if op == 0x3B {
        write_step(s, inst, alu_w_value(inst, a, b))
    } else if op == 0x0F || op == 0x73 {
        Err(HartError::ExecutionError)
    } else {
        Err(HartError::InstructionNotFound)
    }
}

fn signed_lt(a: u64, b: u64) -> (r: bool)
    ensures
        r == (signed64(a) < signed64(b)),
{
    let na = a >= 0x8000_0000_0000_0000;
    let nb = b >= 0x8000_0000_0000_0000;
    if na != nb {
        na
    } else {
        a < b
    }
}

fn sra(a: u64, s: u64) -> (r: u64)
    requires
        s < 64,
    ensures
        r == sra64(a, s),
{
    if a < 0x8000_0000_0000_0000 {
        a >> s
    } else {
        !((!a) >> s)
    }
}

fn bool_to_word(b: bool) -> (r: u64)
    ensures
        r == bool_word(b),
{
    if b {
        1
    } else {
        0
    }
}

fn shamt6(inst: u32) -> (r: u64)
    ensures
        r == bits(inst, 25, 20) as u64,
        r < 64,
{
    let r = crate::util::get_bits(25, 20, inst);
    proof {
        vstd::arithmetic::power2::lemma2_to64();
        vstd::bits::lemma_u32_shl_is_mul(1u32, 6);
        vstd::bits::lemma_low_bits_mask_values();
        assert(crate::util::low_mask32(6) == vstd::bits::low_bits_mask(6));
        vstd::bits::lemma_u32_low_bits_mask_is_mod(inst >> 20u32, 6);
    }
    r as u64
}

fn shamt5(inst: u32) -> (r: u64)
    ensures
        r == bits(inst, 24, 20) as u64,
        r < 32,
{
    let r = get_rs2(inst);
    r as u64
}

fn exec_alu_imm(inst: u32, a: u64) -> (r: Result<u64, HartError>)
    ensures
        agrees(r, alu_imm_value(inst, a)),
{
    let f3 = get_funct3(inst);
    let imm = get_imm_i(inst);
    let sh = shamt6(inst);
    let f6 = crate::util::get_bits(31, 26, inst);
    if f3 == 0 {
        Ok(a.wrapping_add(imm))
    } else if f3 == 2 {
        Ok(bool_to_word(signed_lt(a, imm)))
    } else if f3 == 3 {
        Ok(bool_to_word(a < imm))
    } else if f3 == 4 {
        Ok(a ^ imm)
    } else if f3 == 6 {
        Ok(a | imm)
    } else if f3 == 7 {
        Ok(a & imm)
    } else if f3 == 1 {
        if f6 == 0 {
            Ok(a << sh)
        } else {
            Err(HartError::ExecutionError)
        }
    } else if f6 == 0 {
        Ok(a >> sh)
    } else if f6 == 0x10 {
        Ok(sra(a, sh))
    } else {
        Err(HartError::ExecutionError)
    }
}

fn exec_alu(inst: u32, a: u64, b: u64) -> (r: Result<u64, HartError>)
    ensures
        agrees(r, alu_value(inst, a, b)),
{
    let f3 = get_funct3(inst);
    let f7 = get_funct7(inst);
    let sh = b & 63;
    proof {
        assert(b & 63 < 64) by (bit_vector);
    }
    if f7 == 0 {
        if f3 == 0 {
            Ok(a.wrapping_add(b))
        } else if f3 == 1 {
            Ok(a << sh)
        } else if f3 == 2 {
            Ok(bool_to_word(signed_lt(a, b)))
        } else if f3 == 3 {
            Ok(bool_to_word(a < b))
        } else if f3 == 4 {
            Ok(a ^ b)
        } else if f3 == 5 {
            Ok(a >> sh)
        } else if f3 == 6 {
            Ok(a | b)
        } else {
            Ok(a & b)
        }
    } else if f7 == 0x20 && f3 == 0 {
        Ok(a.wrapping_sub(b))
    } else if f7 == 0x20 && f3 == 5 {
        Ok(sra(a, sh))
    } else {
        Err(HartError::InstructionNotFound)
    }
}

fn exec_alu_imm_w(inst: u32, a: u64) -> (r: Result<u64, HartError>)
    ensures
        agrees(r, alu_imm_w_value(inst, a)),
{
    let f3 = get_funct3(inst);
    let f7 = get_funct7(inst);
    let sh = shamt5(inst);
    if f3 == 0 {
        Ok(sign_extend_64(a.wrapping_add(get_imm_i(inst)), 32))
    } else if f3 == 1 && f7 == 0 {
        Ok(sign_extend_64(a << sh, 32))
    } else if f3 == 5 && f7 == 0 {
        Ok(sign_extend_64((a & 0xFFFF_FFFF) >> sh, 32))
    } else if f3 == 5 && crate::util::get_bits(31, 26, inst) == 0x10 {
        if crate::util::get_bits(25, 25, inst) == 1 {
            Err(HartError::ReservedInstruction("SRAIW with bit 25 set is reserved".to_owned()))
        } else {
            Ok(sra(sign_extend_64(a, 32), sh))
        }
    } else {
        Err(HartError::ExecutionError)
    }
}

fn exec_alu_w(inst: u32, a: u64, b: u64) -> (r: Result<u64, HartError>)
    ensures
        agrees(r, alu_w_value(inst, a, b)),
{
    let f3 = get_funct3(inst);
    let f7 = get_funct7(inst);
    let sh = b & 31;
    proof {
        assert(b & 31 < 32) by (bit_vector);
    }
    if f7 == 0 && f3 == 0 {
        Ok(sign_extend_64(a.wrapping_add(b), 32))
    } else if f7 == 0 && f3 == 1 {
        Ok(sign_extend_64(a << sh, 32))
    } else if f7 == 0 && f3 == 5 {
        Ok(sign_extend_64((a & 0xFFFF_FFFF) >> sh, 32))
    } else if f7 == 0x20 && f3 == 0 {
        Ok(sign_extend_64(a.wrapping_sub(b), 32))
    } else if f7 == 0x20 && f3 == 5 {
        Ok(sra(sign_extend_64(a, 32), sh))
    } else {
        Err(HartError::InstructionNotFound)
    }
}

impl Hart {
    /// Writes the value `v` to `rd`, or hands its error on.
    fn write_result(&mut self, inst: u32, v: Result<u64, HartError>) -> (r: Result<(), HartError>)
        requires
            old(self).wf(),
        ensures
            final(self).wf(),
            forall|sv: Result<u64, HartError>|
                agrees(v, sv) ==> outcome(old(self)@, final(self)@, r, write_step(old(self)@, inst, sv)),
    {
        match v {
            Ok(x) => {
                self.write_xreg(get_rd(inst), x);
                Ok(())
            },
            Err(e) => Err(e),
        }
    }

    fn branch(&mut self, inst: u32) -> (r: Result<(), HartError>)
        requires
            old(self).wf(),
        ensures
            final(self).wf(),
            outcome(old(self)@, final(self)@, r, branch_step(old(self)@, inst)),
    {
        let f3 = get_funct3(inst);
        if f3 == 2 || f3 == 3 {
            return Err(HartError::InstructionNotFound);
        }
        let a = self.xreg(get_rs1(inst));
        let b = self.xreg(get_rs2(inst));
        let taken = if f3 == 0 {
            a == b
        } else if f3 == 1 {
            a != b
        } else if f3 == 4 {
            signed_lt(a, b)
        } else if f3 == 5 {
            !signed_lt(a, b)
        } else if f3 == 6 {
            a < b
        } else {
            a >= b
        };
        if taken {
            let pc = self.pc();
            self.set_pc(pc.wrapping_add(get_imm_b(inst)).wrapping_sub(4));
        }
        Ok(())
    }

    fn load_inst(&mut self, inst: u32) -> (r: Result<(), HartError>)
        requires
            old(self).wf(),
        ensures
            final(self).wf(),
            outcome(old(self)@, final(self)@, r, load_step(old(self)@, inst)),
    {
        let f3 = get_funct3(inst);
        if f3 == 7 {
            return Err(HartError::InstructionNotFound);
        }
        let addr = self.xreg(get_rs1(inst)).wrapping_add(get_imm_i(inst));
        let width: u8 = if f3 == 0 || f3 == 4 {
            1
        } else if f3 == 1 || f3 == 5 {
            2
        } else if f3 == 2 || f3 == 6 {
            4
        } else {
            8
        };
        let v = match self.load(addr, width) {
            Ok(v) => v,
            Err(e) => return Err(e),
        };
        let value = if f3 == 0 {
            sign_extend_64(v, 8)
        } else if f3 == 1 {
            sign_extend_64(v, 16)
        } else if f3 == 2 {
            sign_extend_64(v, 32)
        } else {
            v
        };
        self.write_xreg(get_rd(inst), value);
        Ok(())
    }

    fn store_inst(&mut self, inst: u32) -> (r: Result<(), HartError>)
        requires
            old(self).wf(),
        ensures
            final(self).wf(),
            outcome(old(self)@, final(self)@, r, store_step(old(self)@, inst)),
    {
        let f3 = get_funct3(inst);
        if f3 > 3 {
            return Err(HartError::InstructionNotFound);
        }
        let addr = self.xreg(get_rs1(inst)).wrapping_add(get_imm_s(inst));
        let width: u8 = if f3 == 0 {
            1
        } else if f3 == 1 {
            2
        } else if f3 == 2 {
            4
        } else {
            8
        };
        let v = self.xreg(get_rs2(inst));
        self.store(addr, width, v)
    }

    /// Executes `inst` if it belongs to the base integer set.
    pub fn execute_rv64i(&mut self, inst: u32) -> (r: Result<(), HartError>)
        requires
            old(self).wf(),
        ensures
            final(self).wf(),
            outcome(old(self)@, final(self)@, r, base_step(old(self)@, inst)),
    {
        let op = get_opcode(inst);
        let a = self.xreg(get_rs1(inst));
        let b = self.xreg(get_rs2(inst));
        if op == 0x37 {
            self.write_xreg(get_rd(inst), get_imm_u(inst));
            Ok(())
        } else if op == 0x17 {
            let pc = self.pc();
            self.write_xreg(get_rd(inst), pc.wrapping_add(get_imm_u(inst)));
            Ok(())
        } else if op == 0x6F {
            let pc = self.pc();
            self.write_xreg(get_rd(inst), pc.wrapping_add(4));
            self.set_pc(pc.wrapping_add(get_imm_j(inst)).wrapping_sub(4));
            Ok(())
        } else if op == 0x67 {
            let pc = self.pc();
            let target = a.wrapping_add(get_imm_i(inst)) & !1u64;
            self.write_xreg(get_rd(inst), pc.wrapping_add(4));
            self.set_pc(target.wrapping_sub(4));
            Ok(())
        } else if op == 0x63 {
            self.branch(inst)
        } else if op == 0x03 {
            self.load_inst(inst)
        } else if op == 0x23 {
            self.store_inst(inst)
        } else if op == 0x13 {
            let v = exec_alu_imm(inst, a);
            self.write_result(inst, v)
        } else if op == 0x33 {
            let v = exec_alu(inst, a, b);
            self.write_result(inst, v)
        } else if op == 0x1B {
            let v = exec_alu_imm_w(inst, a);
            self.write_result(inst, v)
        } else if op == 0x3B {
            let v = exec_alu_w(inst, a, b);
            self.write_result(inst, v)
        } else if op == 0x0F || op == 0x73 {
            Err(HartError::ExecutionError)
        } else {
            Err(HartError::InstructionNotFound)
        }
    }
}

} // verus!
