//! Correctly rounded square root of binary32 and binary64 values, on integers.
use vstd::prelude::*;
use vstd::arithmetic::power2::pow2;
use crate::fp::{
    canonical_nan, exp_bits, fp_is_nan, fp_is_negative, fp_is_snan, fp_magnitude, is_nan,
    is_negative, is_snan, is_zero, man_bits,
};

verus! {

/// `q` is the integer square root of `n`.
pub open spec fn is_isqrt(q: int, n: int) -> bool {
    0 <= q && q * q <= n < (q + 1) * (q + 1)
}

pub open spec fn isqrt(n: int) -> int {
    choose|q: int| is_isqrt(q, n)
}

/// Width of the mantissa field.
pub open spec fn man_width(d: bool) -> nat {
    if d {
        52
    } else {
        23
    }
}

pub open spec fn bias(d: bool) -> int {
    if d {
        1023
    } else {
        127
    }
}

/// Position of the leading bit of a normalized significand: even, and at least `man_width`.
pub open spec fn lead(d: bool) -> nat {
    if d {
        52
    } else {
        24
    }
}

/// Extra bits of precision taken by the square root: the root then has `man_width + 2` bits.
pub open spec fn extra(d: bool) -> nat {
    if d {
        27
    } else {
        12
    }
}

/// `(m, e)` scaled to `(m', e')` with `m' * 2^e' == m * 2^e` and the leading bit of `m'` at
/// `lead(d)`.
pub open spec fn normalize(m: int, e: int, d: bool) -> (int, int)
    decreases (if 0 < m < pow2(lead(d)) { pow2(lead(d)) - m } else { 0 }),
{
    if m <= 0 || m >= pow2(lead(d)) {
        (m, e)
    } else {
        normalize(2 * m, e - 1, d)
    }
}

/// A positive finite `a` as `m * 2^e` with `e` even and `2^lead <= m < 2^(lead + 2)`.
pub open spec fn significand(a: u64, d: bool) -> (int, int) {
    let e = exp_bits(a, d) as int;
    let m = man_bits(a, d) as int;
    let raw = if e == 0 {
        (m, 1 - bias(d) - man_width(d))
    } else {
        (m + pow2(man_width(d)), e - bias(d) - man_width(d))
    };
    let n = normalize(raw.0, raw.1, d);
    if n.1 % 2 == 0 {
        n
    } else {
        (2 * n.0, n.1 - 1)
    }
}

/// Whether the root is rounded up, from its last kept bit, the first dropped bit and whether
/// anything below that is lost.
pub open spec fn round_up(rm: u8, last: int, guard: int, sticky: bool) -> bool {
    if rm == 0 {
        guard == 1 && (sticky || last == 1)
    } else if rm == 3 {
        guard == 1 || sticky
    } else if rm == 4 {
        guard == 1
    } else {
        false
    }
}

/// Bits of the square root of the positive finite `a` rounded by `rm`.
pub open spec fn sqrt_finite(a: u64, d: bool, rm: u8) -> u64 {
    let me = significand(a, d);
    let n = me.0 * pow2(2 * extra(d));
    let q = isqrt(n);
    let sig = q / 2;
    let up = round_up(rm, sig % 2, q % 2, q * q != n);
    let rounded = if up { sig + 1 } else { sig };
    let be = man_width(d) + me.1 / 2 - extra(d) + 1 + bias(d);
    let packed = if rounded == pow2(man_width(d) + 1) {
        (be + 1) * pow2(man_width(d))
    } else {
        be * pow2(man_width(d)) + rounded - pow2(man_width(d))
    };
    packed as u64
}

/// Result and status (invalid 1, inexact 0x10) of the square root of `a` rounded by `rm`.
pub open spec fn sqrt_of(a: u64, d: bool, rm: u8) -> (u64, u8) {
    if is_nan(a, d) {
        (canonical_nan(d), if is_snan(a, d) { 1u8 } else { 0u8 })
    } else if is_zero(a, d) {
        (a, 0)
    } else if is_negative(a, d) {
        (canonical_nan(d), 1)
    } else if exp_bits(a, d) == crate::fp::exp_all_ones(d) {
        (a, 0)
    } else {
        let me = significand(a, d);
        let n = me.0 * pow2(2 * extra(d));
        (sqrt_finite(a, d, rm), if isqrt(n) * isqrt(n) != n || isqrt(n) % 2 == 1 { 0x10u8 } else { 0u8 })
    }
}

proof fn lemma_isqrt_unique(q: int, n: int)
    requires
        is_isqrt(q, n),
    ensures
        isqrt(n) == q,
{
    let r = isqrt(n);
    assert(is_isqrt(r, n));
    if r < q {
        assert((r + 1) * (r + 1) <= q * q) by (nonlinear_arith)
            requires
                0 <= r < q,
        ;
    } else if r > q {
        assert((q + 1) * (q + 1) <= r * r) by (nonlinear_arith)
            requires
                0 <= q < r,
        ;
    }
}

/// Integer square root by bisection.
fn isqrt_exec(n: u128) -> (q: u128)
    requires
        n < 0x1_0000_0000_0000_0000_0000_0000_0000,
    ensures
        is_isqrt(q as int, n as int),
{
    let mut lo: u128 = 0;
    let mut hi: u128 = 0x1_0000_0000_0000_0000;
    proof {
        assert(hi * hi > n) by (nonlinear_arith)
            requires
                hi == 0x1_0000_0000_0000_0000u128,
                n < 0x1_0000_0000_0000_0000_0000_0000_0000,
        ;
    }
    while hi - lo > 1
        invariant
            lo < hi <= 0x1_0000_0000_0000_0000,
            lo * lo <= n,
            n < hi * hi,
        decreases hi - lo,
    {
        let mid = lo + (hi - lo) / 2;
        proof {
            assert(mid * mid < 0x1_0000_0000_0000_0000 * 0x1_0000_0000_0000_0000) by (nonlinear_arith)
                requires
                    mid < 0x1_0000_0000_0000_0000,
            ;
        }
        if mid * mid <= n {
            lo = mid;
        } else {
            hi = mid;
        }
    }
    proof {
        assert(hi == lo + 1);
    }
    lo
}

proof fn lemma_root_bounds(q: int, n: int, lo: int, hi: int)
    requires
        is_isqrt(q, n),
        0 < lo,
        0 < hi,
        lo * lo <= n < hi * hi,
    ensures
        lo <= q < hi,
{
    if q < lo {
        assert((q + 1) * (q + 1) <= lo * lo) by (nonlinear_arith)
            requires
                0 <= q < lo,
        ;
    }
    if q >= hi {
        assert(hi * hi <= q * q) by (nonlinear_arith)
            requires
                0 < hi <= q,
        ;
    }
}

/// Square root of `a` rounded by `rm`, with its status (invalid 1, inexact 0x10).
#[verifier::rlimit(50)]
pub fn fp_sqrt(a: u64, d: bool, rm: u8) -> (r: (u64, u8))
    requires
        rm <= 4,
        !d ==> a <= u32::MAX,
    ensures
        r == sqrt_of(a, d, rm),
{
    let canon: u64 = if d { 0x7FF8_0000_0000_0000 } else { 0x7FC0_0000 };
    if fp_is_nan(a, d) {
        return (canon, if fp_is_snan(a, d) { 1u8 } else { 0u8 });
    }
    if fp_magnitude(a, d) == 0 {
        return (a, 0);
    }
    if fp_is_negative(a, d) {
        return (canon, 1);
    }
    let e: u64 = if d { (a >> 52u64) & 0x7FF } else { (a >> 23u64) & 0xFF };
    let m: u64 = if d { a & 0xF_FFFF_FFFF_FFFF } else { a & 0x7F_FFFF };
    if e == (if d { 0x7FFu64 } else { 0xFFu64 }) {
        return (a, 0);
    }
    proof {
        vstd::arithmetic::power2::lemma2_to64();
        vstd::arithmetic::power2::lemma2_to64_rest();
        assert(m > 0 || e > 0) by {
            assert(crate::fp::magnitude(a, d) != 0);
            if d {
                assert(a & 0x7FFF_FFFF_FFFF_FFFF != 0 ==> ((a >> 52u64) & 0x7FF) > 0 || a
                    & 0xF_FFFF_FFFF_FFFF > 0) by (bit_vector);
            } else {
                assert(a & 0x7FFF_FFFF != 0 ==> ((a >> 23u64) & 0xFF) > 0 || a & 0x7F_FFFF > 0)
                    by (bit_vector);
            }
        }
        assert(m < pow2(man_width(d))) by {
            assert(a & 0xF_FFFF_FFFF_FFFF < 0x10_0000_0000_0000 && a & 0x7F_FFFF < 0x80_0000)
                by (bit_vector);
        }
        assert(e < 0x7FF && (!d ==> e < 0xFF)) by {
            assert((a >> 52u64) & 0x7FF <= 0x7FF && (a >> 23u64) & 0xFF <= 0xFF) by (bit_vector);
        }
    }
    let pw: u128 = if d { 0x10_0000_0000_0000 } else { 0x80_0000 };
    let lead_pow: u128 = if d { 0x10_0000_0000_0000 } else { 0x100_0000 };
    let b: i64 = if d { 1023 } else { 127 };
    let p: i64 = if d { 52 } else { 23 };
    let mut mm: u128 = if e == 0 { m as u128 } else { m as u128 + pw };
    let mut ee: i64 = if e == 0 { 1 - b - p } else { e as i64 - b - p };
    let ghost raw = (mm as int, ee as int);
    let ghost e0 = ee as int;
    let ghost mut i: nat = 0;
    proof {
        assert(raw == (if e == 0 {
            (m as int, 1 - bias(d) - man_width(d))
        } else {
            (m + pow2(man_width(d)), e - bias(d) - man_width(d))
        }));
        vstd::arithmetic::power2::lemma_pow2_pos(0);
    }
    while mm < lead_pow
        invariant
            0 < mm < 2 * lead_pow,
            lead_pow == pow2(lead(d)),
            normalize(mm as int, ee as int, d) == normalize(raw.0, raw.1, d),
            ee == e0 - i,
            mm >= pow2(i),
            i <= lead(d),
            -1200 <= e0 <= 1000,
            lead_pow <= 0x10_0000_0000_0000,
        decreases lead(d) - i,
    {
        proof {
            vstd::arithmetic::power2::lemma_pow2_unfold(i + 1);
            if i == lead(d) {
                assert(false);
            }
        }
        mm = mm * 2;
        ee = ee - 1;
        proof {
            i = i + 1;
        }
    }
    let eo: u64 = (ee + 4096) as u64;
    proof {
        assert(normalize(mm as int, ee as int, d) == (mm as int, ee as int));
        vstd::arithmetic::div_mod::lemma_mod_multiples_vanish(2048, ee as int, 2);
        assert((ee + 4096) % 2 == (ee as int) % 2);
    }
    if eo % 2 == 1 {
        mm = mm * 2;
        ee = ee - 1;
    }
    let ghost me = significand(a, d);
    proof {
        assert(me == (mm as int, ee as int));
        assert(ee % 2 == 0);
    }
    let scale: u128 = if d { 0x40_0000_0000_0000 } else { 0x100_0000 };
    proof {
        assert(scale == pow2(2 * extra(d)));
        assert(mm * scale < 0x1_0000_0000_0000_0000_0000_0000_0000) by (nonlinear_arith)
            requires
                mm < 4 * lead_pow,
                d ==> lead_pow == 0x10_0000_0000_0000 && scale == 0x40_0000_0000_0000,
                !d ==> lead_pow == 0x100_0000 && scale == 0x100_0000,
        ;
    }
    let n = mm * scale;
    let q = isqrt_exec(n);
    let top: u128 = if d { 0x20_0000_0000_0000 } else { 0x100_0000 };
    proof {
        lemma_isqrt_unique(q as int, n as int);
        assert(top * top <= n < (2 * top) * (2 * top)) by (nonlinear_arith)
            requires
                lead_pow <= mm < 4 * lead_pow,
                n == mm * scale,
                d ==> lead_pow == 0x10_0000_0000_0000 && scale == 0x40_0000_0000_0000 && top
                    == 0x20_0000_0000_0000,
                !d ==> lead_pow == 0x100_0000 && scale == 0x100_0000 && top == 0x100_0000,
        ;
        lemma_root_bounds(q as int, n as int, top as int, 2 * top as int);
        assert(top == pow2(man_width(d) + 1));
    }
    let sig = q / 2;
    let guard = q % 2;
    let sticky = q * q != n;
    let up = if rm == 0 {
        guard == 1 && (sticky || sig % 2 == 1)
    } else if rm == 3 {
        guard == 1 || sticky
    } else if rm == 4 {
        guard == 1
    } else {
        false
    };
    let rounded: u128 = if up { sig + 1 } else { sig };
    let k: i64 = if d { 27 } else { 12 };
    let be: i64 = ((eo / 2) as i64 - 2048) + p - k + 1 + b;
    proof {
        assert((eo / 2) as i64 - 2048 == ee / 2);
        assert(1 <= be < (if d { 0x7FFi64 } else { 0xFFi64 }));
    }
    let packed: u128 = if rounded == top {
        (be as u128 + 1) * pw
    } else {
        be as u128 * pw + rounded - pw
    };
    proof {
        assert(packed < 0x1_0000_0000_0000_0000) by (nonlinear_arith)
            requires
                1 <= be < 0x7FF,
                pw <= 0x10_0000_0000_0000,
                rounded <= 2 * pw,
                packed == (if rounded == 2 * pw { (be + 1) * pw } else { be * pw + rounded - pw }),
        ;
    }
    (packed as u64, if sticky || guard == 1 { 0x10u8 } else { 0u8 })
}

} // verus!
