//! The single-precision (F) and double-precision (D) floating-point extensions.
use vstd::prelude::*;
use crate::cache_l1::store_le;
use crate::decode::{
    funct2, funct3, funct7, get_funct2, get_funct3, get_funct7, get_imm_i, get_imm_s, get_opcode,
    get_rd, get_rs1, get_rs2, get_rs3, imm_i, imm_s, opcode, rd, rs1, rs2, rs3,
};
use crate::fp::{
    class_index, classify, effective_rm, flag_invalid, fp_eq, fp_eq_exec, fp_is_nan, fp_is_snan,
    fp_lt, fp_lt_exec, fp_max, fp_max_exec, fp_min, fp_min_exec, is_nan, is_snan, sign_mask,
};
use crate::hart::{Hart, HartError, HartState, fp_read, fp_write, in_bounds, mem_read, outcome};
use crate::hart::m::{signed32, to_u64};
use crate::hart::rv64i::signed64;
use crate::rounding::{
    FpOp, arith, double_add, double_div, double_fma, double_fms, double_fnma, double_fnms,
    double_mul, double_sqrt, double_sub, double_to_float, double_to_i32, double_to_i64,
    double_to_u32, double_to_u64, float_add, float_div, float_fma, float_fms, float_fnma,
    float_fnms, float_mul, float_sqrt, float_sub, float_to_double, float_to_i32, float_to_i64,
    float_to_u32, float_to_u64, from_int, i32_to_double, i32_to_float, i64_to_double,
    i64_to_float, int_flags, int_result, register_word, rounded, u32_to_double,
    u32_to_float, u64_to_double, u64_to_float, wide,
};
use crate::softfloat::{double_to_single_of, single_to_double_of};
use crate::util::{sext64, sign_extend_64};

verus! {

/// The instruction `inst` names in the F encoding space (`!d`) or the D one (`d`).
pub open spec fn fp_decode(inst: u32, d: bool) -> Option<FpOp> {
    let op = opcode(inst);
    let f3 = funct3(inst);
    let f7 = funct7(inst);
    let r2 = rs2(inst);
    let fmt: u32 = if d { 1 } else { 0 };
    let wf3: u32 = if d { 3 } else { 2 };
    if op == 0x07 && f3 == wf3 {
        Some(FpOp::Load)
    } else if op == 0x27 && f3 == wf3 {
        Some(FpOp::Store)
    } else if (op == 0x43 || op == 0x47 || op == 0x4B || op == 0x4F) && funct2(inst) == fmt {
        Some(FpOp::MulAdd(((op - 0x43) / 4) as u32))
    } else if op != 0x53 {
        None
    } else if f7 == 0x00 + fmt {
        Some(FpOp::Add)
    } else if f7 == 0x04 + fmt {
        Some(FpOp::Sub)
    } else if f7 == 0x08 + fmt {
        Some(FpOp::Mul)
    } else if f7 == 0x0C + fmt {
        Some(FpOp::Div)
    } else if f7 == 0x2C + fmt && r2 == 0 {
        Some(FpOp::Sqrt)
    } else if f7 == 0x10 + fmt && f3 <= 2 {
        Some(FpOp::SignInject(f3))
    } else if f7 == 0x14 + fmt && f3 == 0 {
        Some(FpOp::Min)
    } else if f7 == 0x14 + fmt && f3 == 1 {
        Some(FpOp::Max)
    } else if f7 == 0x60 + fmt && r2 <= 3 {
        Some(FpOp::ToInt(r2))
    } else if f7 == 0x70 + fmt && r2 == 0 && f3 == 0 {
        Some(FpOp::MoveToInt)
    } else if f7 == 0x70 + fmt && r2 == 0 && f3 == 1 {
        Some(FpOp::Classify)
    } else if f7 == 0x50 + fmt && f3 == 2 {
        Some(FpOp::Eq)
    } else if f7 == 0x50 + fmt && f3 == 1 {
        Some(FpOp::Lt)
    } else if f7 == 0x50 + fmt && f3 == 0 {
        Some(FpOp::Le)
    } else if f7 == 0x68 + fmt && r2 <= 3 {
        Some(FpOp::FromInt(r2))
    } else if f7 == 0x78 + fmt && r2 == 0 && f3 == 0 {
        Some(FpOp::MoveFromInt)
    } else if d && f7 == 0x20 && r2 == 1 {
        Some(FpOp::Narrow)
    } else if d && f7 == 0x21 && r2 == 0 {
        Some(FpOp::Widen)
    } else {
        None
    }
}

/// Sign injection of kind `k`: the magnitude of `a` with a sign taken from `b`.
pub open spec fn sign_inject(k: u32, a: u64, b: u64, d: bool) -> u64 {
    let sm = sign_mask(d);
    if k == 0 {
        (a & !sm) | (b & sm)
    } else if k == 1 {
        (a & !sm) | (!b & sm)
    } else {
        a ^ (b & sm)
    }
}

/// The integer a conversion of kind `k` reads from register value `x`.
pub open spec fn int_source(k: u32, x: u64) -> int {
    if k == 0 {
        signed32(x)
    } else if k == 1 {
        (x % 0x1_0000_0000) as int
    } else if k == 2 {
        signed64(x)
    } else {
        x as int
    }
}

pub open spec fn bool_word(b: bool) -> u64 {
    if b {
        1
    } else {
        0
    }
}

/// What one F (`!d`) or D (`d`) instruction does to the hart.
pub open spec fn fp_step(s: HartState, inst: u32, d: bool) -> Result<HartState, HartError> {
    let a = fp_read(s, rs1(inst) as int, d);
    let b = fp_read(s, rs2(inst) as int, d);
    let c = fp_read(s, rs3(inst) as int, d);
    let x = s.reg(rs1(inst) as int);
    let dst = rd(inst) as int;
    let rm = effective_rm(funct3(inst), s.frm());
    let width: nat = if d { 8 } else { 4 };
    match fp_decode(inst, d) {
        None => Err(HartError::InstructionNotFound),
        Some(op) => if !Hart::fp_width_ok(s, d) {
            Err(HartError::FLENTooShort)
        } else {
            match op {
                FpOp::Load => {
                    let addr = x.wrapping_add(imm_i(inst));
                    if in_bounds(addr, width, s.mem.len()) {
                        Ok(fp_write(s, dst, mem_read(s.mem, addr as int, width) as u64, d))
                    } else {
                        Err(HartError::ExecutionError)
                    }
                },
                FpOp::Store => {
                    let addr = x.wrapping_add(imm_s(inst));
                    if in_bounds(addr, width, s.mem.len()) {
                        Ok(s.with_mem(store_le(s.mem, addr as int, b, width)))
                    } else {
                        Err(HartError::ExecutionError)
                    }
                },
                FpOp::Add | FpOp::Sub | FpOp::Mul | FpOp::Div | FpOp::Sqrt | FpOp::MulAdd(_) => {
                    let p = rounded(arith(op, a, b, c, rm, d), rm, d);
                    Ok(fp_write(s, dst, p.0, d).with_flags(p.1))
                },
                FpOp::SignInject(k) => Ok(fp_write(s, dst, sign_inject(k, a, b, d), d)),
                FpOp::Min | FpOp::Max => {
                    let v = if op == FpOp::Min { fp_min(a, b, d) } else { fp_max(a, b, d) };
                    let t = fp_write(s, dst, v, d);
                    Ok(if is_nan(a, d) || is_nan(b, d) { t.with_flags(flag_invalid()) } else { t })
                },
                FpOp::ToInt(k) => {
                    let v = to_u64(int_result(k, a, d, rm));
                    let w = if k == 1 { sext64(v, 32) } else { v };
                    Ok(s.with_reg(dst, w).with_flags(int_flags(k, a, d, rm)))
                },
                FpOp::MoveToInt => Ok(s.with_reg(dst, if d { a } else { sext64(a, 32) })),
                FpOp::Classify => Ok(s.with_reg(dst, 1u64 << class_index(a, d))),
                FpOp::Eq => {
                    let t = s.with_reg(dst, bool_word(!is_nan(a, d) && !is_nan(b, d) && fp_eq(a, b, d)));
                    Ok(if is_snan(a, d) || is_snan(b, d) { t.with_flags(flag_invalid()) } else { t })
                },
                FpOp::Lt | FpOp::Le => {
                    let holds = if op == FpOp::Lt { fp_lt(a, b, d) } else { fp_lt(a, b, d) || fp_eq(a, b, d) };
                    let t = s.with_reg(dst, bool_word(!is_nan(a, d) && !is_nan(b, d) && holds));
                    Ok(if is_nan(a, d) || is_nan(b, d) { t.with_flags(flag_invalid()) } else { t })
                },
                FpOp::FromInt(k) => {
                    let p = rounded(from_int(int_source(k, x), rm, d), rm, d);
                    Ok(fp_write(s, dst, p.0, d).with_flags(p.1))
                },
                FpOp::MoveFromInt => Ok(fp_write(s, dst, x, d)),
                FpOp::Narrow => {
                    let p = rounded(wide(double_to_single_of(a, rm)), rm, false);
                    Ok(fp_write(s, dst, p.0, false).with_flags(p.1))
                },
                FpOp::Widen => {
                    let p = single_to_double_of(fp_read(s, rs1(inst) as int, false) as u32);
                    Ok(fp_write(s, dst, p.0, true).with_flags(crate::fp::fflags_of(p.1)))
                },
            }
        },
    }
}

fn decode_fp(inst: u32, d: bool) -> (r: Option<FpOp>)
    ensures
        r == fp_decode(inst, d),
{
    let op = get_opcode(inst);
    let f3 = get_funct3(inst);
    let f7 = get_funct7(inst);
    let r2 = get_rs2(inst) as u32;
    let fmt: u32 = if d { 1 } else { 0 };
    let wf3: u32 = if d { 3 } else { 2 };
    if op == 0x07 && f3 == wf3 {
        Some(FpOp::Load)
    } else if op == 0x27 && f3 == wf3 {
        Some(FpOp::Store)
    } else if (op == 0x43 || op == 0x47 || op == 0x4B || op == 0x4F) && get_funct2(inst) == fmt {
        Some(FpOp::MulAdd((op - 0x43) / 4))
    } else if op != 0x53 {
        None
    } else if f7 == 0x00 + fmt {
        Some(FpOp::Add)
    } else if f7 == 0x04 + fmt {
        Some(FpOp::Sub)
    } else if f7 == 0x08 + fmt {
        Some(FpOp::Mul)
    } else if f7 == 0x0C + fmt {
        Some(FpOp::Div)
    } else if f7 == 0x2C + fmt && r2 == 0 {
        Some(FpOp::Sqrt)
    } else if f7 == 0x10 + fmt && f3 <= 2 {
        Some(FpOp::SignInject(f3))
    } else if f7 == 0x14 + fmt && f3 == 0 {
        Some(FpOp::Min)
    } else if f7 == 0x14 + fmt && f3 == 1 {
        Some(FpOp::Max)
    } else if f7 == 0x60 + fmt && r2 <= 3 {
        Some(FpOp::ToInt(r2))
    } else if f7 == 0x70 + fmt && r2 == 0 && f3 == 0 {
        Some(FpOp::MoveToInt)
    } else if f7 == 0x70 + fmt && r2 == 0 && f3 == 1 {
        Some(FpOp::Classify)
    } else if f7 == 0x50 + fmt && f3 == 2 {
        Some(FpOp::Eq)
    } else if f7 == 0x50 + fmt && f3 == 1 {
        Some(FpOp::Lt)
    } else if f7 == 0x50 + fmt && f3 == 0 {
        Some(FpOp::Le)
    } else if f7 == 0x68 + fmt && r2 <= 3 {
        Some(FpOp::FromInt(r2))
    } else if f7 == 0x78 + fmt && r2 == 0 && f3 == 0 {
        Some(FpOp::MoveFromInt)
    } else if d && f7 == 0x20 && r2 == 1 {
        Some(FpOp::Narrow)
    } else if d && f7 == 0x21 && r2 == 0 {
        Some(FpOp::Widen)
    } else {
        None
    }
}

fn sign_inject_exec(k: u32, a: u64, b: u64, d: bool) -> (r: u64)
    ensures
        r == sign_inject(k, a, b, d),
{
    let sm: u64 = if d { 0x8000_0000_0000_0000 } else { 0x8000_0000 };
    if k == 0 {
        (a & !sm) | (b & sm)
    } else if k == 1 {
        (a & !sm) | (!b & sm)
    } else {
        a ^ (b & sm)
    }
}

fn int_source_exec(k: u32, x: u64) -> (r: i128)
    ensures
        r == int_source(k, x),
        k == 0 ==> -0x8000_0000 <= r < 0x8000_0000,
        k == 1 ==> 0 <= r < 0x1_0000_0000,
        k == 2 ==> -0x8000_0000_0000_0000 <= r < 0x8000_0000_0000_0000,
{
    if k == 0 {
        let l = x % 0x1_0000_0000;
        if l < 0x8000_0000 {
            l as i128
        } else {
            l as i128 - 0x1_0000_0000
        }
    } else if k == 1 {
        (x % 0x1_0000_0000) as i128
    } else if k == 2 {
        if x < 0x8000_0000_0000_0000 {
            x as i128
        } else {
            x as i128 - 0x1_0000_0000_0000_0000
        }
    } else {
        x as i128
    }
}

impl Hart {
    /// A rounded arithmetic operation through the public primitive of its precision.
    fn rounded_op(&self, op: &FpOp, a: u64, b: u64, c: u64, rm: u8, d: bool) -> (r: (u64, u32))
        requires
            rm < 8,
            !d ==> a <= u32::MAX && b <= u32::MAX && c <= u32::MAX,
            *op is Add || *op is Sub || *op is Mul || *op is Div || *op is Sqrt || *op is MulAdd,
            *op is MulAdd ==> op->MulAdd_0 <= 3,
        ensures
            !d ==> r == (rounded(arith(*op, a, b, c, rm, d), rm, d).0 as u32 as u64, rounded(
                arith(*op, a, b, c, rm, d),
                rm,
                d,
            ).1),
            d ==> r == rounded(arith(*op, a, b, c, rm, d), rm, d),
    {
        if d {
            match op {
                FpOp::Add => double_add(a, b, rm),
                FpOp::Sub => double_sub(a, b, rm),
                FpOp::Mul => double_mul(a, b, rm),
                FpOp::Div => double_div(a, b, rm),
                FpOp::Sqrt => double_sqrt(a, rm),
                FpOp::MulAdd(0) => double_fma(a, b, c, rm),
                FpOp::MulAdd(1) => double_fms(a, b, c, rm),
                FpOp::MulAdd(2) => double_fnma(a, b, c, rm),
                FpOp::MulAdd(_) => double_fnms(a, b, c, rm),
                _ => (0, 0),
            }
        } else {
            let p = match op {
                FpOp::Add => float_add(a as u32, b as u32, rm),
                FpOp::Sub => float_sub(a as u32, b as u32, rm),
                FpOp::Mul => float_mul(a as u32, b as u32, rm),
                FpOp::Div => float_div(a as u32, b as u32, rm),
                FpOp::Sqrt => float_sqrt(a as u32, rm),
                FpOp::MulAdd(0) => float_fma(a as u32, b as u32, c as u32, rm),
                FpOp::MulAdd(1) => float_fms(a as u32, b as u32, c as u32, rm),
                FpOp::MulAdd(2) => float_fnma(a as u32, b as u32, c as u32, rm),
                FpOp::MulAdd(_) => float_fnms(a as u32, b as u32, c as u32, rm),
                _ => (0, 0),
            };
            (p.0 as u64, p.1)
        }
    }

    /// Executes `inst` if it belongs to the F extension (`!d`) or the D extension (`d`).
    pub fn execute_fp(&mut self, inst: u32, d: bool) -> (r: Result<(), HartError>)
        requires
            old(self).wf(),
        ensures
            final(self).wf(),
            outcome(old(self)@, final(self)@, r, fp_step(old(self)@, inst, d)),
    {
        let op = match decode_fp(inst, d) {
            None => return Err(HartError::InstructionNotFound),
            Some(op) => op,
        };
        let flen = self.flen();
        if !(flen == 64 || (flen == 32 && !d)) {
            return Err(HartError::FLENTooShort);
        }
        let a = self.fpr(get_rs1(inst), d);
        let b = self.fpr(get_rs2(inst), d);
        let c = self.fpr(get_rs3(inst), d);
        let x = self.xreg(get_rs1(inst));
        let dst = get_rd(inst);
        let f3 = get_funct3(inst);
        let frm = ((self.fcsr() >> 5u32) & 7) as u8;
        let rm: u8 = if f3 == 7 { frm } else { f3 as u8 };
        let width: u8 = if d { 8 } else { 4 };
        proof {
            let fc = old(self)@.fcsr;
            assert(((fc >> 5u32) & 7) < 8) by (bit_vector);
        }
        match op {
            FpOp::Load => {
                let addr = x.wrapping_add(get_imm_i(inst));
                let v = match self.load(addr, width) {
                    Ok(v) => v,
                    Err(e) => return Err(e),
                };
                self.write_fpr(dst, v, d);
                Ok(())
            },
            FpOp::Store => {
                let addr = x.wrapping_add(get_imm_s(inst));
                self.store(addr, width, b)
            },
            FpOp::Add | FpOp::Sub | FpOp::Mul | FpOp::Div | FpOp::Sqrt | FpOp::MulAdd(_) => {
                let (v, fl) = self.rounded_op(&op, a, b, c, rm, d);
                self.write_fpr(dst, v, d);
                self.raise_flags(fl);
                Ok(())
            },
            FpOp::SignInject(k) => {
                self.write_fpr(dst, sign_inject_exec(k, a, b, d), d);
                Ok(())
            },
            FpOp::Min | FpOp::Max => {
                let v = if op == FpOp::Min { fp_min_exec(a, b, d) } else { fp_max_exec(a, b, d) };
                self.write_fpr(dst, v, d);
                if fp_is_nan(a, d) || fp_is_nan(b, d) {
                    self.raise_flags(0x10);
                }
                Ok(())
            },
            FpOp::ToInt(k) => {
                let (v, fl): (i128, u32) = if k == 0 {
                    let p = if d { double_to_i32(a, rm) } else { float_to_i32(a as u32, rm) };
                    (p.0 as i128, p.1)
                } else if k == 1 {
                    let p = if d { double_to_u32(a, rm) } else { float_to_u32(a as u32, rm) };
                    (p.0 as i128, p.1)
                } else if k == 2 {
                    let p = if d { double_to_i64(a, rm) } else { float_to_i64(a as u32, rm) };
                    (p.0 as i128, p.1)
                } else {
                    let p = if d { double_to_u64(a, rm) } else { float_to_u64(a as u32, rm) };
                    (p.0 as i128, p.1)
                };
                let word = register_word(v);
                self.write_xreg(dst, if k == 1 { sign_extend_64(word, 32) } else { word });
                self.raise_flags(fl);
                Ok(())
            },
            FpOp::MoveToInt => {
                self.write_xreg(dst, if d { a } else { sign_extend_64(a, 32) });
                Ok(())
            },
            FpOp::Classify => {
                self.write_xreg(dst, classify(a, d));
                Ok(())
            },
            FpOp::Eq => {
                let v = !fp_is_nan(a, d) && !fp_is_nan(b, d) && fp_eq_exec(a, b, d);
                self.write_xreg(dst, if v { 1 } else { 0 });
                if fp_is_snan(a, d) || fp_is_snan(b, d) {
                    self.raise_flags(0x10);
                }
                Ok(())
            },
            FpOp::Lt | FpOp::Le => {
                let holds = if op == FpOp::Lt {
                    fp_lt_exec(a, b, d)
                } else {
                    fp_lt_exec(a, b, d) || fp_eq_exec(a, b, d)
                };
                let v = !fp_is_nan(a, d) && !fp_is_nan(b, d) && holds;
                self.write_xreg(dst, if v { 1 } else { 0 });
                if fp_is_nan(a, d) || fp_is_nan(b, d) {
                    self.raise_flags(0x10);
                }
                Ok(())
            },
            FpOp::FromInt(k) => {
                let v = int_source_exec(k, x);
                let (bits, fl): (u64, u32) = if k == 0 {
                    if d {
                        i32_to_double(v as i32, rm)
                    } else {
                        let p = i32_to_float(v as i32, rm);
                        (p.0 as u64, p.1)
                    }
                } else if k == 1 {
                    if d {
                        u32_to_double(v as u32, rm)
                    } else {
                        let p = u32_to_float(v as u32, rm);
                        (p.0 as u64, p.1)
                    }
                } else if k == 2 {
                    if d {
                        i64_to_double(v as i64, rm)
                    } else {
                        let p = i64_to_float(v as i64, rm);
                        (p.0 as u64, p.1)
                    }
                } else if d {
                    u64_to_double(x, rm)
                } else {
                    let p = u64_to_float(x, rm);
                    (p.0 as u64, p.1)
                };
                self.write_fpr(dst, bits, d);
                self.raise_flags(fl);
                Ok(())
            },
            FpOp::MoveFromInt => {
                self.write_fpr(dst, x, d);
                Ok(())
            },
            FpOp::Narrow => {
                let (bits, fl) = double_to_float(a, rm);
                self.write_fpr(dst, bits as u64, false);
                self.raise_flags(fl);
                Ok(())
            },
            FpOp::Widen => {
                let single = self.fpr(get_rs1(inst), false);
                let (bits, fl) = float_to_double(single as u32);
                self.write_fpr(dst, bits, true);
                self.raise_flags(fl);
                Ok(())
            },
        }
    }
}

} // verus!
