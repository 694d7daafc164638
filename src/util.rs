//! Bit-field extraction and sign extension on fixed-width words.
use vstd::prelude::*;
use vstd::arithmetic::power2::pow2;

verus! {

/// Mask of the `w` low bits of a 64-bit word (all ones once `w >= 64`).
pub open spec fn low_mask64(w: u64) -> u64 {
    if w >= 64 {
        0xFFFF_FFFF_FFFF_FFFFu64
    } else {
        ((1u64 << w) - 1) as u64
    }
}

/// Mask of the `w` low bits of a 32-bit word (all ones once `w >= 32`).
pub open spec fn low_mask32(w: u32) -> u32 {
    if w >= 32 {
        0xFFFF_FFFFu32
    } else {
        ((1u32 << w) - 1) as u32
    }
}

/// Bit `i` of `v`, as 0 or 1.
pub open spec fn bit64(v: u64, i: u64) -> u64 {
    (v >> i) & 1
}

/// `v`, read as a two's-complement number of `w` bits, widened to 64 bits.
pub open spec fn sext64(v: u64, w: u64) -> u64 {
    if bit64(v, (w - 1) as u64) == 0 {
        v & low_mask64(w)
    } else {
        v | !low_mask64(w)
    }
}

/// The value of bits `lo..=hi` of `word`.
pub open spec fn field(word: u32, hi: nat, lo: nat) -> nat {
    (word as nat / pow2(lo)) % pow2((hi - lo + 1) as nat)
}

/// Bits `[hi:lo]` of `source`, inclusive; the bounds may be given in either order.
pub fn get_bits(lim1: u8, lim2: u8, source: u32) -> (r: u32)
    requires
        lim1 <= 31,
        lim2 <= 31,
    ensures
        lim1 >= lim2 ==> r == (source >> lim2 as u32) & low_mask32((lim1 - lim2 + 1) as u32),
        lim1 < lim2 ==> r == (source >> lim1 as u32) & low_mask32((lim2 - lim1 + 1) as u32),
        lim1 >= lim2 ==> r as nat == field(source, lim1 as nat, lim2 as nat),
        lim1 < lim2 ==> r as nat == field(source, lim2 as nat, lim1 as nat),
{
    let (hi, lo) = if lim1 >= lim2 { (lim1, lim2) } else { (lim2, lim1) };
    let length: u32 = (hi - lo + 1) as u32;
    let shifted = source >> (lo as u32);
    proof {
        vstd::bits::lemma_u32_shr_is_div(source, lo as u32);
    }
    if length == 32 {
        proof {
            vstd::arithmetic::power2::lemma2_to64();
            assert(lo == 0);
            assert(pow2(0) == 1);
            assert(shifted as nat == source as nat / 1);
            assert(shifted == source);
            assert((source as nat / pow2(0)) % pow2(32) == source as nat);
            assert(source & 0xFFFF_FFFFu32 == source) by (bit_vector);
            assert(pow2(32) == 0x1_0000_0000);
        }
        shifted
    } else {
        proof {
            vstd::bits::lemma_u32_pow2_no_overflow(length as nat);
            vstd::bits::lemma_u32_shl_is_mul(1u32, length);
        }
        let mask: u32 = (1u32 << length) - 1;
        proof {
            vstd::bits::lemma_low_bits_mask_unfold(length as nat);
            assert(mask == vstd::bits::low_bits_mask(length as nat));
            vstd::bits::lemma_u32_low_bits_mask_is_mod(shifted, length as nat);
        }
        shifted & mask
    }
}


/// `source` with bits `[hi:lo]` replaced by `value`; the bounds may be given in either order.
pub fn set_bits(value: u32, lim1: u8, lim2: u8, source: u32) -> (r: u32)
    requires
        lim1 <= 31,
        lim2 <= 31,
        ({
            let len = if lim1 >= lim2 { lim1 - lim2 + 1 } else { lim2 - lim1 + 1 };
            len >= 32 || (value as nat) < pow2(len as nat)
        }),
    ensures
        ({
            let lo = if lim1 <= lim2 { lim1 as u32 } else { lim2 as u32 };
            let hi = if lim1 <= lim2 { lim2 as u32 } else { lim1 as u32 };
            forall|i: u32|
                #![trigger (r >> i)]
                i < 32 ==> ((r >> i) & 1) == if lo <= i <= hi {
                    (value >> ((i - lo) as u32)) & 1
                } else {
                    (source >> i) & 1
                }
        }),
{
    let (hi, lo) = if lim1 >= lim2 { (lim1, lim2) } else { (lim2, lim1) };
    let length: u32 = (hi - lo + 1) as u32;
    let lo32 = lo as u32;
    let hi32 = hi as u32;
    let ones: u32 = if length == 32 { u32::MAX } else { u32::MAX >> (32 - length) };
    proof {
        if length < 32 {
            vstd::bits::lemma_u32_pow2_no_overflow(length as nat);
            vstd::bits::lemma_u32_shl_is_mul(1u32, length);
            assert((value as nat) < pow2(length as nat));
            assert(value < (1u32 << length));
            assert(ones == u32::MAX >> ((32 - length) as u32));
            assert(value < (1u32 << length) ==> value & !(u32::MAX >> ((32 - length) as u32)) == 0)
                by (bit_vector)
                requires length < 32;
        } else {
            assert(value & !u32::MAX == 0) by (bit_vector);
        }
        assert(value & !ones == 0);
        assert(forall|i: u32|
            #![trigger (((source & !(ones << lo32)) | (value << lo32)) >> i)]
            i < 32 && value & !ones == 0 && hi32 < 32 && lo32 <= hi32
                && (length == 32 ==> ones == u32::MAX)
                && (length < 32 ==> ones == u32::MAX >> ((32 - length) as u32))
                && length == hi32 - lo32 + 1
                ==> ((((source & !(ones << lo32)) | (value << lo32)) >> i) & 1) == if lo32 <= i <= hi32 {
                (value >> ((i - lo32) as u32)) & 1
            } else {
                (source >> i) & 1
            }) by (bit_vector);
    }
    (source & !(ones << lo32)) | (value << lo32)
}

/// `value`, read as a two's-complement number of `src_width` bits, widened to 64 bits.
pub fn sign_extend_64(value: u64, src_width: u8) -> (r: u64)
    requires
        1 <= src_width <= 64,
    ensures
        r == sext64(value, src_width as u64),
        forall|i: u64|
            #![trigger (r >> i)]
            i < src_width ==> (r >> i) & 1 == (value >> i) & 1,
        forall|i: u64|
            #![trigger (r >> i)]
            src_width <= i < 64 ==> (r >> i) & 1 == (value >> (src_width - 1) as u64) & 1,
{
    let w = src_width as u64;
    proof {
        if w < 64 {
            assert(1u64 << w >= 1) by (bit_vector) requires w < 64;
        }
    }
    let mask: u64 = if w == 64 { u64::MAX } else { (1u64 << w) - 1 };
    let negative = (value >> (w - 1)) & 1 == 1;
    let r = if negative { value | !mask } else { value & mask };
    proof {
        assert(mask == low_mask64(w));
        assert((value >> ((w - 1) as u64)) & 1 == 0 || (value >> ((w - 1) as u64)) & 1 == 1) by (bit_vector);
        assert(forall|i: u64|
            #![trigger (r >> i)]
            i < w && 1 <= w <= 64 && (w == 64 ==> mask == u64::MAX)
                && (w < 64 ==> mask == ((1u64 << w) - 1) as u64)
                && r == (if (value >> ((w - 1) as u64)) & 1 == 1 { value | !mask } else { value & mask })
                ==> (r >> i) & 1 == (value >> i) & 1) by (bit_vector);
        assert(forall|i: u64|
            #![trigger (r >> i)]
            w <= i < 64 && 1 <= w <= 64 && (w == 64 ==> mask == u64::MAX)
                && (w < 64 ==> mask == ((1u64 << w) - 1) as u64)
                && r == (if (value >> ((w - 1) as u64)) & 1 == 1 { value | !mask } else { value & mask })
                ==> (r >> i) & 1 == (value >> ((w - 1) as u64)) & 1) by (bit_vector);
    }
    r
}

/// `value`, read as a two's-complement number of `src_width` bits, widened to 32 bits.
pub fn sign_extend_32(value: u32, src_width: u8) -> (r: u32)
    requires
        1 <= src_width <= 32,
    ensures
        r as u64 == sext64(value as u64, src_width as u64) & 0xFFFF_FFFF,
{
    let wide = sign_extend_64(value as u64, src_width);
    proof {
        let w = src_width as u64;
        let v = value as u64;
        assert(1 <= w <= 32 ==> sext64(v, w) & 0xFFFF_FFFF == (sext64(v, w) as u32) as u64)
            by (bit_vector);
    }
    wide as u32
}

/// `value`, read as a two's-complement number of `src_width` bits, widened to 128 bits.
pub fn sign_extend_128(value: u128, src_width: u8) -> (r: u128)
    requires
        1 <= src_width <= 128,
    ensures
        forall|i: u128|
            #![trigger (r >> i)]
            i < src_width ==> (r >> i) & 1 == (value >> i) & 1,
        forall|i: u128|
            #![trigger (r >> i)]
            src_width <= i < 128 ==> (r >> i) & 1 == (value >> (src_width - 1) as u128) & 1,
{
    let w = src_width as u128;
    proof {
        if w < 128 {
            assert(1u128 << w >= 1) by (bit_vector) requires w < 128;
        }
    }
    let mask: u128 = if w == 128 { u128::MAX } else { (1u128 << w) - 1 };
    let negative = (value >> (w - 1)) & 1 == 1;
    let r = if negative { value | !mask } else { value & mask };
    proof {
        assert(forall|i: u128|
            #![trigger (r >> i)]
            i < w && 1 <= w <= 128 && (w == 128 ==> mask == u128::MAX)
                && (w < 128 ==> mask == ((1u128 << w) - 1) as u128)
                && r == (if (value >> ((w - 1) as u64)) & 1 == 1 { value | !mask } else { value & mask })
                ==> (r >> i) & 1 == (value >> i) & 1) by (bit_vector);
        assert(forall|i: u128|
            #![trigger (r >> i)]
            w <= i < 128 && 1 <= w <= 128 && (w == 128 ==> mask == u128::MAX)
                && (w < 128 ==> mask == ((1u128 << w) - 1) as u128)
                && r == (if (value >> ((w - 1) as u64)) & 1 == 1 { value | !mask } else { value & mask })
                ==> (r >> i) & 1 == (value >> ((w - 1) as u64)) & 1) by (bit_vector);
    }
    r
}

} // verus!
