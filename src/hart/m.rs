//! The integer multiply and divide extension.
use vstd::prelude::*;
use crate::decode::{funct3, funct7, get_funct3, get_funct7, get_opcode, get_rd, get_rs1, get_rs2, opcode, rd, rs1, rs2};
use crate::hart::{Hart, HartError, HartState, outcome};
use crate::hart::rv64i::signed64;
use crate::util::{sext64, sign_extend_64};

verus! {

pub open spec fn two64() -> int {
    0x1_0000_0000_0000_0000
}

/// `x` reduced modulo 2^64.
pub open spec fn to_u64(x: int) -> u64 {
    (x % two64()) as u64
}

/// The low 32 bits of `a` read as a two's-complement number.
pub open spec fn signed32(a: u64) -> int {
    let l = a % 0x1_0000_0000;
    if l < 0x8000_0000 {
        l as int
    } else {
        l - 0x1_0000_0000
    }
}

pub open spec fn abs(x: int) -> int {
    if x < 0 {
        -x
    } else {
        x
    }
}

/// Quotient rounded toward zero.
pub open spec fn tdiv(x: int, y: int) -> int {
    let q = abs(x) / abs(y);
    if (x < 0) != (y < 0) {
        -q
    } else {
        q
    }
}

/// Remainder of `tdiv`: the sign of `x`, the magnitude of `|x| mod |y|`.
pub open spec fn trem(x: int, y: int) -> int {
    let r = abs(x) % abs(y);
    if x < 0 {
        -r
    } else {
        r
    }
}

/// Signed quotient with the ISA's results for a zero divisor and for overflow.
pub open spec fn div_signed(x: int, y: int) -> int {
    if y == 0 {
        -1
    } else {
        tdiv(x, y)
    }
}

/// Signed remainder with the ISA's results for a zero divisor and for overflow.
pub open spec fn rem_signed(x: int, y: int) -> int {
    if y == 0 {
        x
    } else {
        trem(x, y)
    }
}

/// Result of an M instruction on source values `a` and `b`.
pub open spec fn m_value(inst: u32, a: u64, b: u64) -> Result<u64, HartError> {
    let op = opcode(inst);
    let f3 = funct3(inst);
    let a32 = a % 0x1_0000_0000;
    let b32 = b % 0x1_0000_0000;
    if funct7(inst) != 1 {
        Err(HartError::InstructionNotFound)
    } else if op == 0x33 {
        if f3 == 0 {
            Ok(a.wrapping_mul(b))
        } else if f3 == 1 {
            Ok(to_u64((signed64(a) * signed64(b)) / two64()))
        } else if f3 == 2 {
            Ok(to_u64((signed64(a) * b) / two64()))
        } else if f3 == 3 {
            Ok(to_u64((a * b) / two64()))
        } else if f3 == 4 {
            Ok(to_u64(div_signed(signed64(a), signed64(b))))
        } else if f3 == 5 {
            Ok(if b == 0 { u64::MAX } else { a / b })
        } else if f3 == 6 {
            Ok(to_u64(rem_signed(signed64(a), signed64(b))))
        } else {
            Ok(if b == 0 { a } else { a % b })
        }
    } else if op == 0x3B {
        if f3 == 0 {
            Ok(sext64(a.wrapping_mul(b), 32))
        } else if f3 == 4 {
            Ok(to_u64(div_signed(signed32(a), signed32(b))))
        } else if f3 == 5 {
            Ok(if b32 == 0 { u64::MAX } else { sext64((a32 / b32) as u64, 32) })
        } else if f3 == 6 {
            Ok(to_u64(rem_signed(signed32(a), signed32(b))))
        } else if f3 == 7 {
            Ok(if b32 == 0 { sext64(a, 32) } else { sext64((a32 % b32) as u64, 32) })
        } else {
            Err(HartError::InstructionNotFound)
        }
    } else {
        Err(HartError::InstructionNotFound)
    }
}

/// What one M instruction does to the hart.
pub open spec fn m_step(s: HartState, inst: u32) -> Result<HartState, HartError> {
    match m_value(inst, s.reg(rs1(inst) as int), s.reg(rs2(inst) as int)) {
        Ok(v) => Ok(s.with_reg(rd(inst) as int, v)),
        Err(e) => Err(e),
    }
}

proof fn lemma_div_shift(x: int, k: int, m: int)
    requires
        m > 0,
    ensures
        (x + k * m) / m == x / m + k,
{
    vstd::arithmetic::div_mod::lemma_fundamental_div_mod(x, m);
    assert(x + k * m == m * (x / m + k) + x % m) by (nonlinear_arith)
        requires
            x == m * (x / m) + x % m,
    ;
    vstd::arithmetic::div_mod::lemma_div_multiples_vanish_fancy(x / m + k, x % m, m);
}

pub proof fn lemma_to_u64_negative(v: int)
    requires
        -two64() <= v < 0,
    ensures
        to_u64(v) == v + two64(),
{
    lemma_mod_shift(v, 1, two64());
    vstd::arithmetic::div_mod::lemma_small_mod((v + two64()) as nat, two64() as nat);
}

proof fn lemma_mod_shift(x: int, k: int, m: int)
    requires
        m > 0,
    ensures
        (x + k * m) % m == x % m,
{
    vstd::arithmetic::div_mod::lemma_mod_multiples_vanish(k, x, m);
    assert(m * k + x == x + k * m) by (nonlinear_arith);
}

/// High half of the unsigned 128-bit product.
fn mulhu(a: u64, b: u64) -> (r: u64)
    ensures
        r == (a * b) / two64(),
{
    proof {
        assert(a * b <= u64::MAX * u64::MAX) by (nonlinear_arith)
            requires
                a <= u64::MAX,
                b <= u64::MAX,
        ;
        assert((a * b) / two64() < two64()) by (nonlinear_arith)
            requires
                a * b <= u64::MAX * u64::MAX,
        ;
    }
    let p = (a as u128) * (b as u128);
    (p / 0x1_0000_0000_0000_0000u128) as u64
}

fn mulh_signed_unsigned(a: u64, b: u64) -> (r: u64)
    ensures
        r == to_u64((signed64(a) * b) / two64()),
{
    let hu = mulhu(a, b);
    proof {
        let m = two64();
        if a >= 0x8000_0000_0000_0000 {
            assert(signed64(a) * b == a * b + (-(b as int)) * m) by (nonlinear_arith)
                requires
                    signed64(a) == a - m,
            ;
            lemma_div_shift(a * b, -(b as int), m);
            lemma_mod_shift(hu - b, 0, m);
        } else {
            lemma_div_shift(a * b, 0, m);
        }
    }
    if a >= 0x8000_0000_0000_0000 {
        hu.wrapping_sub(b)
    } else {
        hu
    }
}

fn mulh_signed(a: u64, b: u64) -> (r: u64)
    ensures
        r == to_u64((signed64(a) * signed64(b)) / two64()),
{
    let hsu = mulh_signed_unsigned(a, b);
    proof {
        let m = two64();
        let x = signed64(a) * b;
        if b >= 0x8000_0000_0000_0000 {
            assert(signed64(a) * signed64(b) == x + (-signed64(a)) * m) by (nonlinear_arith)
                requires
                    signed64(b) == b - m,
                    x == signed64(a) * b,
            ;
            lemma_div_shift(x, -signed64(a), m);
            assert((x / m - signed64(a)) % m == ((x / m) % m - signed64(a) % m) % m) by {
                vstd::arithmetic::div_mod::lemma_sub_mod_noop(x / m, signed64(a), m);
            }
            if a >= 0x8000_0000_0000_0000 {
                lemma_mod_shift(a as int, -1, m);
                assert(signed64(a) % m == a as int);
            } else {
                assert(signed64(a) % m == a as int);
            }
        }
    }
    if b >= 0x8000_0000_0000_0000 {
        hsu.wrapping_sub(a)
    } else {
        hsu
    }
}

/// Magnitude and sign of `a` read as a two's-complement number of 64 bits, or of its
/// low 32 bits when `word` holds.
fn magnitude(a: u64, word: bool) -> (r: (u64, bool))
    ensures
        !word ==> r.0 == abs(signed64(a)) && r.1 == (signed64(a) < 0),
        word ==> r.0 == abs(signed32(a)) && r.1 == (signed32(a) < 0),
{
    if word {
        let l = a % 0x1_0000_0000;
        if l < 0x8000_0000 {
            (l, false)
        } else {
            (0x1_0000_0000 - l, true)
        }
    } else if a < 0x8000_0000_0000_0000 {
        (a, false)
    } else {
        (0u64.wrapping_sub(a), true)
    }
}

fn signed_div(a: u64, b: u64, word: bool) -> (r: u64)
    ensures
        !word ==> r == to_u64(div_signed(signed64(a), signed64(b))),
        word ==> r == to_u64(div_signed(signed32(a), signed32(b))),
{
    let (ma, na) = magnitude(a, word);
    let (mb, nb) = magnitude(b, word);
    if mb == 0 {
        return u64::MAX;
    }
    let q = ma / mb;
    proof {
        vstd::arithmetic::div_mod::lemma_div_is_ordered_by_denominator(ma as int, 1, mb as int);
        let m = two64();
        lemma_mod_shift(-(q as int), 1, m);
    }
    if na != nb {
        0u64.wrapping_sub(q)
    } else {
        q
    }
}

fn signed_rem(a: u64, b: u64, word: bool) -> (r: u64)
    ensures
        !word ==> r == to_u64(rem_signed(signed64(a), signed64(b))),
        word ==> r == to_u64(rem_signed(signed32(a), signed32(b))),
{
    let (ma, na) = magnitude(a, word);
    let (mb, nb) = magnitude(b, word);
    proof {
        let m = two64();
        if word {
            lemma_mod_shift(signed32(a), 1, m);
        } else {
            lemma_mod_shift(signed64(a), 1, m);
        }
    }
    if mb == 0 {
        if word {
            let l = a % 0x1_0000_0000;
            proof {
                lemma_mod_shift(l - 0x1_0000_0000, 1, two64());
            }
            return if l < 0x8000_0000 {
                l
            } else {
                l + 0xFFFF_FFFF_0000_0000
            };
        }
        return a;
    }
    let rm = ma % mb;
    proof {
        let m = two64();
        lemma_mod_shift(-(rm as int), 1, m);
    }
    if na {
        0u64.wrapping_sub(rm)
    } else {
        rm
    }
}

fn exec_m(inst: u32, a: u64, b: u64) -> (r: Result<u64, HartError>)
    ensures
        r == m_value(inst, a, b),
{
    let op = get_opcode(inst);
    let f3 = get_funct3(inst);
    let a32 = a % 0x1_0000_0000;
    let b32 = b % 0x1_0000_0000;
    if get_funct7(inst) != 1 {
        Err(HartError::InstructionNotFound)
    } else if op == 0x33 {
        if f3 == 0 {
            Ok(a.wrapping_mul(b))
        } else if f3 == 1 {
            Ok(mulh_signed(a, b))
        } else if f3 == 2 {
            Ok(mulh_signed_unsigned(a, b))
        } else if f3 == 3 {
            let r = mulhu(a, b);
            proof {
                vstd::arithmetic::div_mod::lemma_small_mod(r as nat, two64() as nat);
            }
            Ok(r)
        } else if f3 == 4 {
            Ok(signed_div(a, b, false))
        } else if f3 == 5 {
            Ok(if b == 0 { u64::MAX } else { a / b })
        } else if f3 == 6 {
            Ok(signed_rem(a, b, false))
        } else {
            Ok(if b == 0 { a } else { a % b })
        }
    } else if op == 0x3B {
        if f3 == 0 {
            Ok(sign_extend_64(a.wrapping_mul(b), 32))
        } else if f3 == 4 {
            Ok(signed_div(a, b, true))
        } else if f3 == 5 {
            Ok(if b32 == 0 { u64::MAX } else { sign_extend_64(a32 / b32, 32) })
        } else if f3 == 6 {
            Ok(signed_rem(a, b, true))
        } else if f3 == 7 {
            Ok(if b32 == 0 { sign_extend_64(a, 32) } else { sign_extend_64(a32 % b32, 32) })
        } else {
            Err(HartError::InstructionNotFound)
        }
    } else {
        Err(HartError::InstructionNotFound)
    }
}

impl Hart {
    /// Executes `inst` if it belongs to the M extension.
    pub fn execute_m(&mut self, inst: u32) -> (r: Result<(), HartError>)
        requires
            old(self).wf(),
        ensures
            final(self).wf(),
            outcome(old(self)@, final(self)@, r, m_step(old(self)@, inst)),
    {
        let a = self.xreg(get_rs1(inst));
        let b = self.xreg(get_rs2(inst));
        match exec_m(inst, a, b) {
            Ok(v) => {
                self.write_xreg(get_rd(inst), v);
                Ok(())
            },
            Err(e) => Err(e),
        }
    }
}

} // verus!
