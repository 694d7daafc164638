//! Architectural state of one hart and the entry point that executes an instruction.
pub mod rv64i;
pub mod m;
pub mod fpu;

use crate::hart::fpu::fp_step;
use crate::hart::m::m_step;
use crate::hart::rv64i::base_step;

use vstd::prelude::*;
use crate::cache_l1::{CacheL1, le16, le32, le64, store_le};
use crate::extensions::Extensions;

verus! {

/// Canonical quiet NaN of binary32.
pub const CANONICAL_NAN_32: u32 = 0x7FC0_0000;

/// Upper half of a 64-bit register holding a properly boxed binary32.
pub const NAN_BOX: u64 = 0xFFFF_FFFF_0000_0000;

#[derive(Debug, PartialEq, Eq)]
pub enum HartError {
    /// A register index above 31.
    RegisterNotFound,
    /// No enabled executor recognizes the instruction.
    InstructionNotFound,
    /// A recognized pattern with an invalid or unimplemented sub-form, or a memory access
    /// outside the memory.
    ExecutionError,
    /// A pattern the ISA reserves, with a description.
    ReservedInstruction(String),
    /// A jump target that is not a multiple of two (not raised at present).
    InstructionAddressMisaligned,
    /// FP state that disagrees with the configured width (not raised at present).
    FLENMisalligned,
    /// An FP access wider than the configured FP registers, or any FP access without them.
    FLENTooShort,
}

/// Two errors are the same kind; a reserved instruction may carry any detail.
pub open spec fn same_error(a: HartError, b: HartError) -> bool {
    match (a, b) {
        (HartError::ReservedInstruction(_), HartError::ReservedInstruction(_)) => true,
        _ => a == b,
    }
}

/// `r` is the result that `s` describes, up to the detail of a reserved-instruction error.
pub open spec fn agrees<T>(r: Result<T, HartError>, s: Result<T, HartError>) -> bool {
    match s {
        Ok(v) => r == Ok::<T, HartError>(v),
        Err(e) => r matches Err(e2) && same_error(e, e2),
    }
}

/// A step from `old` to `new` returning `r` is the one `s` describes: the state `s` gives on
/// success, or the error it gives with the state left untouched.
pub open spec fn outcome(
    old: HartState,
    new: HartState,
    r: Result<(), HartError>,
    s: Result<HartState, HartError>,
) -> bool {
    match s {
        Ok(next) => r is Ok && new == next,
        Err(e) => (r matches Err(e2) && same_error(e, e2)) && new == old,
    }
}

/// The configuration a hart is built from.
#[derive(Debug, Clone, Copy, PartialEq, Eq, Structural)]
pub struct HartConfig {
    pub extensions: Extensions,
    pub l1_size: usize,
}

/// Mathematical model of a hart.
pub struct HartState {
    pub extensions: Extensions,
    pub regs: Seq<u64>,
    pub pc: u64,
    pub mem: Seq<u8>,
    /// Floating-point cells; at `flen == 32` each holds a binary32 in its low half.
    pub fregs: Seq<u64>,
    pub flen: u8,
    pub fcsr: u32,
}

impl HartState {
    pub open spec fn wf(self) -> bool {
        &&& self.regs.len() == 32
        &&& self.regs[0] == 0
        &&& self.flen == self.extensions.spec_flen()
        &&& self.fregs.len() == if self.flen == 0 { 0int } else { 32int }
        &&& self.flen == 32 ==> forall|i: int| 0 <= i < 32 ==> #[trigger] self.fregs[i] <= u32::MAX
        &&& self.fcsr < 256
    }

    /// Integer register `i`.
    pub open spec fn reg(self, i: int) -> u64 {
        self.regs[i]
    }

    /// Registers after writing `v` to register `i`; writes to register 0 are dropped.
    pub open spec fn with_reg(self, i: int, v: u64) -> HartState {
        if i == 0 {
            self
        } else {
            HartState { regs: self.regs.update(i, v), ..self }
        }
    }

    pub open spec fn with_pc(self, pc: u64) -> HartState {
        HartState { pc, ..self }
    }

    pub open spec fn with_mem(self, mem: Seq<u8>) -> HartState {
        HartState { mem, ..self }
    }

    /// Single-precision view of FP register `i`: the stored bits at `flen == 32`; at
    /// `flen == 64` the low half when properly boxed, else the canonical NaN.
    pub open spec fn fp32(self, i: int) -> u32 {
        if self.flen == 32 {
            self.fregs[i] as u32
        } else if self.fregs[i] & NAN_BOX == NAN_BOX {
            self.fregs[i] as u32
        } else {
            CANONICAL_NAN_32
        }
    }

    /// Double-precision view of FP register `i`.
    pub open spec fn fp64(self, i: int) -> u64 {
        self.fregs[i]
    }

    /// FP registers after a single-precision write, boxed at `flen == 64`.
    pub open spec fn with_fp32(self, i: int, v: u32) -> HartState {
        HartState {
            fregs: self.fregs.update(i, if self.flen == 32 { v as u64 } else { NAN_BOX | v as u64 }),
            ..self
        }
    }

    pub open spec fn with_fp64(self, i: int, v: u64) -> HartState {
        HartState { fregs: self.fregs.update(i, v), ..self }
    }

    /// The dynamic rounding mode field of FCSR.
    pub open spec fn frm(self) -> u8 {
        ((self.fcsr >> 5) & 7) as u8
    }

    /// FCSR with the exception flags `flags` added to the sticky ones.
    pub open spec fn with_flags(self, flags: u32) -> HartState {
        HartState { fcsr: self.fcsr | (flags & 0x1F), ..self }
    }
}

/// Whether `width` bytes from `addr` on lie inside a memory of `len` bytes.
pub open spec fn in_bounds(addr: u64, width: nat, len: nat) -> bool {
    addr + width <= len
}

/// Little-endian value of `width` bytes of `mem` from `addr` on.
pub open spec fn mem_read(mem: Seq<u8>, addr: int, width: nat) -> int {
    if width == 1 {
        mem[addr] as int
    } else if width == 2 {
        le16(mem, addr)
    } else if width == 4 {
        le32(mem, addr)
    } else {
        le64(mem, addr)
    }
}

proof fn lemma_store_truncated(m: Seq<u8>, a: int, v: u64, w: u64, t: nat, n: nat)
    requires
        n <= t <= 8,
        t == 8 ==> w == v,
        t < 8 ==> w == v & (((1u64 << (8 * t) as u64) - 1) as u64),
    ensures
        store_le(m, a, w, n) == store_le(m, a, v, n),
    decreases n,
{
    if n > 0 {
        lemma_store_truncated(m, a, v, w, t, (n - 1) as nat);
        let k = (n - 1) as u64;
        let sh = (8 * k) as u64;
        if t < 8 {
            let tt = (8 * t) as u64;
            assert(k < 8 && sh == 8 * k && tt < 64 && sh + 8 <= tt
                ==> ((v & (((1u64 << tt) - 1) as u64)) >> sh) & 0xFF == (v >> sh) & 0xFF)
                by (bit_vector);
        }
        assert(crate::cache_l1::byte_of(w, k) == crate::cache_l1::byte_of(v, k));
    }
}

/// FP register `i` as an operand: binary64 bits when `d`, else the binary32 view.
pub open spec fn fp_read(s: HartState, i: int, d: bool) -> u64 {
    if d {
        s.fp64(i)
    } else {
        s.fp32(i) as u64
    }
}

/// Writes `v` to FP register `i`: as binary64 when `d`, else its low 32 bits as binary32.
pub open spec fn fp_write(s: HartState, i: int, v: u64, d: bool) -> HartState {
    if d {
        s.with_fp64(i, v)
    } else {
        s.with_fp32(i, v as u32)
    }
}

/// Whether a step result is a decode miss that lets the next extension try.
pub open spec fn missed(r: Result<HartState, HartError>) -> bool {
    r == Err::<HartState, HartError>(HartError::InstructionNotFound)
}

/// What executing `inst` does: the base set first, then M, F and D in turn, each enabled one
/// trying the instruction the previous ones did not recognize.
pub open spec fn step(s: HartState, inst: u32) -> Result<HartState, HartError> {
    let not_found = Err::<HartState, HartError>(HartError::InstructionNotFound);
    let base = base_step(s, inst);
    let m = if s.extensions.m { m_step(s, inst) } else { not_found };
    let f = if s.extensions.f { fp_step(s, inst, false) } else { not_found };
    let d = if s.extensions.d { fp_step(s, inst, true) } else { not_found };
    if !missed(base) {
        base
    } else if !missed(m) {
        m
    } else if !missed(f) {
        f
    } else {
        d
    }
}

/// Writing `v` to an integer register other than register 0 and reading it back gives `v`.
pub proof fn lemma_reg_write_read(s: HartState, i: int, v: u64)
    requires
        s.wf(),
        1 <= i <= 31,
    ensures
        s.with_reg(i, v).reg(i) == v,
        s.with_reg(i, v).wf(),
{
}

/// Register 0 reads as 0 whatever was written to it.
pub proof fn lemma_reg_zero_write_read(s: HartState, v: u64)
    requires
        s.wf(),
    ensures
        s.with_reg(0, v).reg(0) == 0,
        s.with_reg(0, v).wf(),
{
}

/// A binary32 value written to an FP register reads back bit for bit as binary32, and at
/// `flen == 64` the register then holds it NaN-boxed: its upper 32 bits are all ones.
pub proof fn lemma_fp32_write_read(s: HartState, i: int, x: u32)
    requires
        s.wf(),
        s.flen != 0,
        0 <= i < 32,
    ensures
        s.with_fp32(i, x).fp32(i) == x,
        s.flen == 64 ==> s.with_fp32(i, x).fp64(i) >> 32u64 == 0xFFFF_FFFF,
{
    let w = x as u64;
    assert((NAN_BOX | w) & NAN_BOX == NAN_BOX && (NAN_BOX | w) as u32 == x && (w as u32) == x
        && (NAN_BOX | w) >> 32u64 == 0xFFFF_FFFF) by (bit_vector)
        requires
            w == x as u64,
            NAN_BOX == 0xFFFF_FFFF_0000_0000u64,
    ;
}

/// Every SRAIW encoding with bit 25 set is a reserved instruction.
pub proof fn lemma_sraiw_bit25_reserved(s: HartState, inst: u32)
    requires
        crate::decode::opcode(inst) == 0x1B,
        crate::decode::funct3(inst) == 5,
        crate::decode::bits(inst, 31, 26) == 0x10,
        crate::decode::bits(inst, 25, 25) == 1,
    ensures
        step(s, inst) matches Err(HartError::ReservedInstruction(_)),
{
    vstd::arithmetic::power2::lemma2_to64();
    vstd::bits::lemma_u32_shl_is_mul(1u32, 1);
    vstd::bits::lemma_u32_shl_is_mul(1u32, 7);
    assert(crate::util::low_mask32(1) == 1 && crate::util::low_mask32(7) == 0x7F);
    assert(((inst >> 25u32) & 1) == 1 ==> ((inst >> 25u32) & 0x7F) != 0) by (bit_vector);
}

/// A BEQ whose operands differ leaves the hart, its program counter included, as it was.
pub proof fn lemma_beq_not_taken(s: HartState, inst: u32)
    requires
        crate::decode::opcode(inst) == 0x63,
        crate::decode::funct3(inst) == 0,
        s.reg(crate::decode::rs1(inst) as int) != s.reg(crate::decode::rs2(inst) as int),
    ensures
        step(s, inst) == Ok::<HartState, HartError>(s),
{
}

pub struct Hart {
    extensions: Extensions,
    regs: Vec<u64>,
    pc: u64,
    l1: CacheL1,
    l1_size: usize,
    f_regs: Vec<u64>,
    flen: u8,
    fcsr: u32,
}

impl View for Hart {
    type V = HartState;

    closed spec fn view(&self) -> HartState {
        HartState {
            extensions: self.extensions,
            regs: self.regs@,
            pc: self.pc,
            mem: self.l1@,
            fregs: self.f_regs@,
            flen: self.flen,
            fcsr: self.fcsr,
        }
    }
}

fn zeros(n: usize) -> (r: Vec<u64>)
    ensures
        r@ == Seq::new(n as nat, |_i: int| 0u64),
{
    let mut v: Vec<u64> = Vec::new();
    let mut i: usize = 0;
    while i < n
        invariant
            i <= n,
            v@ == Seq::new(i as nat, |_i: int| 0u64),
        decreases n - i,
    {
        v.push(0u64);
        i = i + 1;
        proof {
            assert(v@ =~= Seq::new(i as nat, |_i: int| 0u64));
        }
    }
    v
}

impl Hart {
    pub closed spec fn wf(&self) -> bool {
        &&& self@.wf()
        &&& self.l1.wf()
        &&& self.l1_size == self.l1@.len()
    }

    /// A hart with every register, the PC, FCSR and `cache_size` bytes of memory at zero.
    pub fn from_extensions(extensions: &Extensions, cache_size: usize) -> (r: Hart)
        ensures
            r.wf(),
            r@.extensions == *extensions,
            r@.regs == Seq::new(32, |_i: int| 0u64),
            r@.pc == 0,
            r@.mem == Seq::new(cache_size as nat, |_i: int| 0u8),
            r@.flen == extensions.spec_flen(),
            r@.fregs == Seq::new(if r@.flen == 0 { 0nat } else { 32nat }, |_i: int| 0u64),
            r@.fcsr == 0,
    {
        let flen: u8 = if extensions.d {
            64
        } else if extensions.f {
            32
        } else {
            0
        };
        let f_regs = zeros(if flen == 0 { 0 } else { 32 });
        Hart {
            extensions: *extensions,
            regs: zeros(32),
            pc: 0,
            l1: CacheL1::new(cache_size),
            l1_size: cache_size,
            f_regs,
            flen,
            fcsr: 0,
        }
    }

    /// The hart that `config` describes, as `from_extensions` builds it.
    pub fn from_config(config: &HartConfig) -> (r: Hart)
        ensures
            r.wf(),
            r@.extensions == config.extensions,
            r@.regs == Seq::new(32, |_i: int| 0u64),
            r@.pc == 0,
            r@.mem == Seq::new(config.l1_size as nat, |_i: int| 0u8),
            r@.flen == config.extensions.spec_flen(),
            r@.fcsr == 0,
    {
        Hart::from_extensions(&config.extensions, config.l1_size)
    }

    /// The configuration this hart was built from.
    pub fn config(&self) -> (r: HartConfig)
        requires
            self.wf(),
        ensures
            r.extensions == self@.extensions,
            r.l1_size == self@.mem.len(),
    {
        HartConfig { extensions: self.extensions, l1_size: self.l1_size }
    }

    pub fn extensions(&self) -> (r: Extensions)
        ensures
            r == self@.extensions,
    {
        self.extensions
    }

    pub fn pc(&self) -> (r: u64)
        ensures
            r == self@.pc,
    {
        self.pc
    }

    pub fn set_pc(&mut self, pc: u64)
        requires
            old(self).wf(),
        ensures
            final(self).wf(),
            final(self)@ == old(self)@.with_pc(pc),
    {
        self.pc = pc;
    }

    pub fn fcsr(&self) -> (r: u32)
        ensures
            r == self@.fcsr,
    {
        self.fcsr
    }

    pub fn flen(&self) -> (r: u8)
        ensures
            r == self@.flen,
    {
        self.flen
    }

    /// Sets the dynamic rounding mode field of FCSR to `rm`, keeping the flags.
    pub fn set_frm(&mut self, rm: u8)
        requires
            old(self).wf(),
            rm < 8,
        ensures
            final(self).wf(),
            final(self)@ == (HartState { fcsr: (old(self)@.fcsr & 0x1F) | ((rm as u32) << 5), ..old(self)@ }),
            final(self)@.frm() == rm,
            final(self)@.fcsr & 0x1F == old(self)@.fcsr & 0x1F,
    {
        let f = self.fcsr;
        proof {
            let r = rm as u32;
            assert(r < 8 ==> (f & 0x1F) | (r << 5) < 256) by (bit_vector);
            assert(r < 8 ==> ((((f & 0x1F) | (r << 5)) >> 5) & 7) == r) by (bit_vector);
            assert(((f & 0x1F) | (r << 5)) & 0x1F == f & 0x1F) by (bit_vector);
        }
        self.fcsr = (f & 0x1F) | ((rm as u32) << 5);
    }

    /// Adds `flags` (bits `[4:0]`) to the sticky exception flags of FCSR.
    pub(crate) fn raise_flags(&mut self, flags: u32)
        requires
            old(self).wf(),
        ensures
            final(self).wf(),
            final(self)@ == old(self)@.with_flags(flags),
    {
        let f = self.fcsr;
        proof {
            assert(f < 256 ==> f | (flags & 0x1F) < 256) by (bit_vector);
        }
        self.fcsr = f | (flags & 0x1F);
    }

    /// Reads `width` bytes (1, 2, 4 or 8) little-endian from `addr`, zero-extended.
    pub fn load(&self, addr: u64, width: u8) -> (r: Result<u64, HartError>)
        requires
            self.wf(),
            width == 1 || width == 2 || width == 4 || width == 8,
        ensures
            in_bounds(addr, width as nat, self@.mem.len()) ==> (r matches Ok(v)
                && v == mem_read(self@.mem, addr as int, width as nat)),
            !in_bounds(addr, width as nat, self@.mem.len()) ==> r == Err::<u64, HartError>(
                HartError::ExecutionError,
            ),
    {
        let size = self.l1.size();
        if size < width as usize || addr > (size - width as usize) as u64 {
            return Err(HartError::ExecutionError);
        }
        let a = addr as usize;
        if width == 1 {
            Ok(self.l1.get8(a) as u64)
        } else if width == 2 {
            Ok(self.l1.get16(a) as u64)
        } else if width == 4 {
            Ok(self.l1.get32(a) as u64)
        } else {
            Ok(self.l1.get64(a))
        }
    }

    /// Writes the `width` low bytes (1, 2, 4 or 8) of `value` little-endian from `addr` on.
    pub fn store(&mut self, addr: u64, width: u8, value: u64) -> (r: Result<(), HartError>)
        requires
            old(self).wf(),
            width == 1 || width == 2 || width == 4 || width == 8,
        ensures
            final(self).wf(),
            in_bounds(addr, width as nat, old(self)@.mem.len()) ==> r == Ok::<(), HartError>(())
                && final(self)@ == old(self)@.with_mem(
                store_le(old(self)@.mem, addr as int, value, width as nat),
            ),
            !in_bounds(addr, width as nat, old(self)@.mem.len()) ==> r == Err::<(), HartError>(
                HartError::ExecutionError,
            ) && final(self)@ == old(self)@,
    {
        let size = self.l1.size();
        if size < width as usize || addr > (size - width as usize) as u64 {
            return Err(HartError::ExecutionError);
        }
        let a = addr as usize;
        if width == 1 {
            proof {
                assert((1u64 << 8u64) - 1 == 0xFF) by (bit_vector);
                assert(value & 0xFF == (value as u8) as u64) by (bit_vector);
                lemma_store_truncated(self.l1@, a as int, value, (value as u8) as u64, 1, 1);
            }
            self.l1.set8(a, value as u8);
        } else if width == 2 {
            proof {
                assert((1u64 << 16u64) - 1 == 0xFFFF) by (bit_vector);
                assert(value & 0xFFFF == (value as u16) as u64) by (bit_vector);
                lemma_store_truncated(self.l1@, a as int, value, (value as u16) as u64, 2, 2);
            }
            self.l1.set16(a, value as u16);
        } else if width == 4 {
            proof {
                assert((1u64 << 32u64) - 1 == 0xFFFF_FFFF) by (bit_vector);
                assert(value & 0xFFFF_FFFF == (value as u32) as u64) by (bit_vector);
                lemma_store_truncated(self.l1@, a as int, value, (value as u32) as u64, 4, 4);
            }
            self.l1.set32(a, value as u32);
        } else {
            self.l1.set64(a, value);
        }
        Ok(())
    }

    /// Whether FP registers of the precision `d` selects exist.
    pub open spec fn fp_width_ok(s: HartState, d: bool) -> bool {
        s.flen == 64 || (s.flen == 32 && !d)
    }

    /// FP register `i` as an operand of the precision `d` selects.
    pub(crate) fn fpr(&self, i: u8, d: bool) -> (r: u64)
        requires
            self.wf(),
            i < 32,
            Hart::fp_width_ok(self@, d),
        ensures
            r == fp_read(self@, i as int, d),
    {
        let whole = self.f_regs[i as usize];
        if d {
            whole
        } else if self.flen == 32 {
            whole as u32 as u64
        } else if whole & NAN_BOX == NAN_BOX {
            whole as u32 as u64
        } else {
            CANONICAL_NAN_32 as u64
        }
    }

    /// Writes `v` to FP register `i` in the precision `d` selects.
    pub(crate) fn write_fpr(&mut self, i: u8, v: u64, d: bool)
        requires
            old(self).wf(),
            i < 32,
            Hart::fp_width_ok(old(self)@, d),
        ensures
            final(self).wf(),
            final(self)@ == fp_write(old(self)@, i as int, v, d),
    {
        if d {
            self.f_regs.set(i as usize, v);
        } else if self.flen == 32 {
            self.f_regs.set(i as usize, v as u32 as u64);
        } else {
            self.f_regs.set(i as usize, NAN_BOX | v as u32 as u64);
        }
    }

    /// Executes one instruction. The program counter is left for the caller to advance.
    pub fn execute(&mut self, inst: u32) -> (r: Result<(), HartError>)
        requires
            old(self).wf(),
        ensures
            final(self).wf(),
            outcome(old(self)@, final(self)@, r, step(old(self)@, inst)),
    {
        let r = self.execute_rv64i(inst);
        if !matches!(r, Err(HartError::InstructionNotFound)) {
            return r;
        }
        if self.extensions.m {
            let r = self.execute_m(inst);
            if !matches!(r, Err(HartError::InstructionNotFound)) {
                return r;
            }
        }
        if self.extensions.f {
            let r = self.execute_fp(inst, false);
            if !matches!(r, Err(HartError::InstructionNotFound)) {
                return r;
            }
        }
        if self.extensions.d {
            self.execute_fp(inst, true)
        } else {
            Err(HartError::InstructionNotFound)
        }
    }

    pub(crate) fn xreg(&self, x: u8) -> (r: u64)
        requires
            self.wf(),
            x < 32,
        ensures
            r == self@.reg(x as int),
    {
        self.regs[x as usize]
    }

    pub(crate) fn write_xreg(&mut self, x: u8, value: u64)
        requires
            old(self).wf(),
            x < 32,
        ensures
            final(self).wf(),
            final(self)@ == old(self)@.with_reg(x as int, value),
    {
        if x != 0 {
            self.regs.set(x as usize, value);
        }
    }

    /// Integer register `x`.
    pub fn get_reg(&self, x: u8) -> (r: Result<u64, HartError>)
        requires
            self.wf(),
        ensures
            x > 31 ==> r == Err::<u64, HartError>(HartError::RegisterNotFound),
            x <= 31 ==> r == Ok::<u64, HartError>(self@.reg(x as int)),
    {
        if x > 31 {
            Err(HartError::RegisterNotFound)
        } else {
            Ok(self.regs[x as usize])
        }
    }

    /// Writes `value` to integer register `x`; register 0 keeps reading 0.
    pub fn set_reg(&mut self, x: u8, value: u64) -> (r: Result<(), HartError>)
        requires
            old(self).wf(),
        ensures
            final(self).wf(),
            x > 31 ==> r == Err::<(), HartError>(HartError::RegisterNotFound) && final(self)@ == old(self)@,
            x <= 31 ==> r == Ok::<(), HartError>(()) && final(self)@ == old(self)@.with_reg(x as int, value),
    {
        if x > 31 {
            Err(HartError::RegisterNotFound)
        } else if x == 0 {
            Ok(())
        } else {
            self.regs.set(x as usize, value);
            Ok(())
        }
    }

    /// FP register `x` read as a binary32 bit pattern (see `HartState::fp32`).
    pub fn get_fp_reg_32_bits(&self, x: u8) -> (r: Result<u32, HartError>)
        requires
            self.wf(),
        ensures
            x > 31 ==> r == Err::<u32, HartError>(HartError::RegisterNotFound),
            x <= 31 && self@.flen == 0 ==> r == Err::<u32, HartError>(HartError::FLENTooShort),
            x <= 31 && self@.flen != 0 ==> r == Ok::<u32, HartError>(self@.fp32(x as int)),
    {
        if x > 31 {
            Err(HartError::RegisterNotFound)
        } else if self.flen == 0 {
            Err(HartError::FLENTooShort)
        } else if self.flen == 32 {
            Ok(self.f_regs[x as usize] as u32)
        } else {
            let whole = self.f_regs[x as usize];
            if whole & NAN_BOX == NAN_BOX {
                Ok(whole as u32)
            } else {
                Ok(CANONICAL_NAN_32)
            }
        }
    }

    /// Writes the binary32 bit pattern `value` to FP register `x`, boxed at `flen == 64`.
    pub fn set_fp_reg_32_bits(&mut self, x: u8, value: u32) -> (r: Result<(), HartError>)
        requires
            old(self).wf(),
        ensures
            final(self).wf(),
            x > 31 ==> r == Err::<(), HartError>(HartError::RegisterNotFound) && final(self)@ == old(self)@,
            x <= 31 && old(self)@.flen == 0 ==> r == Err::<(), HartError>(HartError::FLENTooShort)
                && final(self)@ == old(self)@,
            x <= 31 && old(self)@.flen != 0 ==> r == Ok::<(), HartError>(())
                && final(self)@ == old(self)@.with_fp32(x as int, value),
    {
        if x > 31 {
            Err(HartError::RegisterNotFound)
        } else if self.flen == 0 {
            Err(HartError::FLENTooShort)
        } else if self.flen == 32 {
            self.f_regs.set(x as usize, value as u64);
            Ok(())
        } else {
            self.f_regs.set(x as usize, NAN_BOX | value as u64);
            Ok(())
        }
    }

    /// FP register `x` read as a binary64 bit pattern.
    pub fn get_fp_reg_64_bits(&self, x: u8) -> (r: Result<u64, HartError>)
        requires
            self.wf(),
        ensures
            x > 31 ==> r == Err::<u64, HartError>(HartError::RegisterNotFound),
            x <= 31 && self@.flen < 64 ==> r == Err::<u64, HartError>(HartError::FLENTooShort),
            x <= 31 && self@.flen == 64 ==> r == Ok::<u64, HartError>(self@.fp64(x as int)),
    {
        if x > 31 {
            Err(HartError::RegisterNotFound)
        } else if self.flen < 64 {
            Err(HartError::FLENTooShort)
        } else {
            Ok(self.f_regs[x as usize])
        }
    }

    /// Writes the binary64 bit pattern `value` to FP register `x`.
    pub fn set_fp_reg_64_bits(&mut self, x: u8, value: u64) -> (r: Result<(), HartError>)
        requires
            old(self).wf(),
        ensures
            final(self).wf(),
            x > 31 ==> r == Err::<(), HartError>(HartError::RegisterNotFound) && final(self)@ == old(self)@,
            x <= 31 && old(self)@.flen < 64 ==> r == Err::<(), HartError>(HartError::FLENTooShort)
                && final(self)@ == old(self)@,
            x <= 31 && old(self)@.flen == 64 ==> r == Ok::<(), HartError>(())
                && final(self)@ == old(self)@.with_fp64(x as int, value),
    {
        if x > 31 {
            Err(HartError::RegisterNotFound)
        } else if self.flen < 64 {
            Err(HartError::FLENTooShort)
        } else {
            self.f_regs.set(x as usize, value);
            Ok(())
        }
    }
}

} // verus!
