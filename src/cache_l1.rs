//! Flat byte-addressable memory with little-endian multi-byte access.
use vstd::prelude::*;

verus! {

/// Little-endian value of the two bytes of `m` at `a` and `a + 1`.
pub open spec fn le16(m: Seq<u8>, a: int) -> int {
    m[a] + 256 * m[a + 1]
}

/// Little-endian value of the four bytes of `m` starting at `a`.
pub open spec fn le32(m: Seq<u8>, a: int) -> int {
    le16(m, a) + 0x1_0000 * le16(m, a + 2)
}

/// Little-endian value of the eight bytes of `m` starting at `a`.
pub open spec fn le64(m: Seq<u8>, a: int) -> int {
    le32(m, a) + 0x1_0000_0000 * le32(m, a + 4)
}

/// Byte `k` (counted from the least significant) of `v`.
pub open spec fn byte_of(v: u64, k: u64) -> u8 {
    ((v >> (8 * k) as u64) & 0xFF) as u8
}

/// `m` with the `n` low bytes of `v` written little-endian from `a` on.
pub open spec fn store_le(m: Seq<u8>, a: int, v: u64, n: nat) -> Seq<u8>
    decreases n,
{
    if n == 0 {
        m
    } else {
        store_le(m, a, v, (n - 1) as nat).update(a + n - 1, byte_of(v, (n - 1) as u64))
    }
}

proof fn lemma_byte_of(v: u64, k: u64)
    requires
        k < 8,
    ensures
        byte_of(v, k) as u64 == (v >> (8 * k) as u64) & 0xFF,
{
    let sh = (8 * k) as u64;
    assert((v >> sh) & 0xFF < 256) by (bit_vector);
}

/// A byte stored at `a` reads back at `a`.
pub proof fn lemma_store_load8(m: Seq<u8>, a: int, v: u8)
    requires
        0 <= a < m.len(),
    ensures
        store_le(m, a, v as u64, 1)[a] == v,
        store_le(m, a, v as u64, 1).len() == m.len(),
{
    reveal_with_fuel(store_le, 2);
    let w = v as u64;
    assert(((w >> 0u64) & 0xFF) as u8 == v) by (bit_vector)
        requires w == v as u64;
}

/// A halfword stored little-endian at `a` reads back at `a`.
pub proof fn lemma_store_load16(m: Seq<u8>, a: int, v: u16)
    requires
        0 <= a,
        a + 2 <= m.len(),
    ensures
        le16(store_le(m, a, v as u64, 2), a) == v,
        store_le(m, a, v as u64, 2).len() == m.len(),
{
    reveal_with_fuel(store_le, 3);
    let w = v as u64;
    assert(store_le(m, a, w, 2)[a + 0] == byte_of(w, 0));
    lemma_byte_of(w, 0);
    assert(store_le(m, a, w, 2)[a + 1] == byte_of(w, 1));
    lemma_byte_of(w, 1);
    assert(w == ((w >> 0u64) & 0xFF) + 256 * ((w >> 8u64) & 0xFF)) by (bit_vector)
        requires w == v as u64;
}

/// A word stored little-endian at `a` reads back at `a`.
pub proof fn lemma_store_load32(m: Seq<u8>, a: int, v: u32)
    requires
        0 <= a,
        a + 4 <= m.len(),
    ensures
        le32(store_le(m, a, v as u64, 4), a) == v,
        store_le(m, a, v as u64, 4).len() == m.len(),
{
    reveal_with_fuel(store_le, 5);
    let w = v as u64;
    assert(store_le(m, a, w, 4)[a + 0] == byte_of(w, 0));
    lemma_byte_of(w, 0);
    assert(store_le(m, a, w, 4)[a + 1] == byte_of(w, 1));
    lemma_byte_of(w, 1);
    assert(store_le(m, a, w, 4)[a + 2] == byte_of(w, 2));
    lemma_byte_of(w, 2);
    assert(store_le(m, a, w, 4)[a + 3] == byte_of(w, 3));
    lemma_byte_of(w, 3);
    assert(w == ((w >> 0u64) & 0xFF) + 256 * ((w >> 8u64) & 0xFF) + 0x1_0000 * (((w >> 16u64)
        & 0xFF) + 256 * ((w >> 24u64) & 0xFF))) by (bit_vector)
        requires w == v as u64;
}

/// A doubleword stored little-endian at `a` reads back at `a`.
pub proof fn lemma_store_load64(m: Seq<u8>, a: int, v: u64)
    requires
        0 <= a,
        a + 8 <= m.len(),
    ensures
        le64(store_le(m, a, v, 8), a) == v,
        store_le(m, a, v, 8).len() == m.len(),
{
    reveal_with_fuel(store_le, 9);
    assert(store_le(m, a, v, 8)[a + 0] == byte_of(v, 0));
    lemma_byte_of(v, 0);
    assert(store_le(m, a, v, 8)[a + 1] == byte_of(v, 1));
    lemma_byte_of(v, 1);
    assert(store_le(m, a, v, 8)[a + 2] == byte_of(v, 2));
    lemma_byte_of(v, 2);
    assert(store_le(m, a, v, 8)[a + 3] == byte_of(v, 3));
    lemma_byte_of(v, 3);
    assert(store_le(m, a, v, 8)[a + 4] == byte_of(v, 4));
    lemma_byte_of(v, 4);
    assert(store_le(m, a, v, 8)[a + 5] == byte_of(v, 5));
    lemma_byte_of(v, 5);
    assert(store_le(m, a, v, 8)[a + 6] == byte_of(v, 6));
    lemma_byte_of(v, 6);
    assert(store_le(m, a, v, 8)[a + 7] == byte_of(v, 7));
    lemma_byte_of(v, 7);
    assert(v == ((v >> 0u64) & 0xFF) + 256 * ((v >> 8u64) & 0xFF) + 0x1_0000 * (((v >> 16u64)
        & 0xFF) + 256 * ((v >> 24u64) & 0xFF)) + 0x1_0000_0000 * (((v >> 32u64) & 0xFF) + 256
        * ((v >> 40u64) & 0xFF) + 0x1_0000 * (((v >> 48u64) & 0xFF) + 256 * ((v >> 56u64)
        & 0xFF)))) by (bit_vector);
}

pub struct CacheL1 {
    arr: Vec<u8>,
    size: usize,
}

impl View for CacheL1 {
    type V = Seq<u8>;

    closed spec fn view(&self) -> Seq<u8> {
        self.arr@
    }
}

impl CacheL1 {
    /// The stored size agrees with the byte array.
    pub closed spec fn wf(&self) -> bool {
        self.arr@.len() == self.size
    }

    /// A memory of `size` bytes, all zero.
    pub fn new(size: usize) -> (r: CacheL1)
        ensures
            r.wf(),
            r@ == Seq::new(size as nat, |_i: int| 0u8),
    {
        let mut arr: Vec<u8> = Vec::new();
        let mut i: usize = 0;
        while i < size
            invariant
                i <= size,
                arr@ == Seq::new(i as nat, |_i: int| 0u8),
            decreases size - i,
        {
            arr.push(0u8);
            i = i + 1;
            proof {
                assert(arr@ =~= Seq::new(i as nat, |_i: int| 0u8));
            }
        }
        CacheL1 { arr, size }
    }

    /// Number of bytes.
    pub fn size(&self) -> (r: usize)
        requires
            self.wf(),
        ensures
            r == self@.len(),
    {
        self.size
    }

    /// The byte at `addr`.
    pub fn get8(&self, addr: usize) -> (r: u8)
        requires
            self.wf(),
            addr < self@.len(),
        ensures
            r == self@[addr as int],
    {
        self.arr[addr]
    }

    /// The halfword at `addr`, little-endian.
    pub fn get16(&self, addr: usize) -> (r: u16)
        requires
            self.wf(),
            addr + 2 <= self@.len(),
        ensures
            r == le16(self@, addr as int),
    {
        let lo = self.arr[addr];
        let hi = self.arr[addr + 1];
        proof {
            assert((hi as u16) << 8 | (lo as u16) == lo + 256 * hi) by (bit_vector);
        }
        (hi as u16) << 8 | (lo as u16)
    }

    /// The word at `addr`, little-endian.
    pub fn get32(&self, addr: usize) -> (r: u32)
        requires
            self.wf(),
            addr + 4 <= self@.len(),
        ensures
            r == le32(self@, addr as int),
    {
        let lo = self.get16(addr);
        let hi = self.get16(addr + 2);
        proof {
            assert((hi as u32) << 16 | (lo as u32) == lo + 0x1_0000 * hi) by (bit_vector);
        }
        (hi as u32) << 16 | (lo as u32)
    }

    /// The doubleword at `addr`, little-endian.
    pub fn get64(&self, addr: usize) -> (r: u64)
        requires
            self.wf(),
            addr + 8 <= self@.len(),
        ensures
            r == le64(self@, addr as int),
    {
        let lo = self.get32(addr);
        let hi = self.get32(addr + 4);
        proof {
            assert((hi as u64) << 32 | (lo as u64) == lo + 0x1_0000_0000 * hi) by (bit_vector);
        }
        (hi as u64) << 32 | (lo as u64)
    }

    /// Writes `val` at `addr`.
    pub fn set8(&mut self, addr: usize, val: u8)
        requires
            old(self).wf(),
            addr < old(self)@.len(),
        ensures
            final(self).wf(),
            final(self)@.len() == old(self)@.len(),
            final(self)@ == store_le(old(self)@, addr as int, val as u64, 1),
    {
        self.arr.set(addr, val);
        proof {
            let v = val as u64;
            assert(((v >> 0u64) & 0xFF) as u8 == val) by (bit_vector)
                requires v == val as u64;
            assert(byte_of(v, 0) == val);
            assert(store_le(old(self)@, addr as int, v, 0) == old(self)@);
        }
    }

    /// Writes the halfword `val` little-endian from `addr` on.
    pub fn set16(&mut self, addr: usize, val: u16)
        requires
            old(self).wf(),
            addr + 2 <= old(self)@.len(),
        ensures
            final(self).wf(),
            final(self)@.len() == old(self)@.len(),
            final(self)@ == store_le(old(self)@, addr as int, val as u64, 2),
    {
        let v = val as u64;
        let mut k: usize = 0;
        while k < 2
            invariant
                self.wf(),
                self@.len() == old(self)@.len(),
                k <= 2,
                addr + 2 <= self@.len(),
                self@ == store_le(old(self)@, addr as int, v, k as nat),
            decreases 2 - k,
        {
            self.arr.set(addr + k, ((v >> (8 * k as u64)) & 0xFF) as u8);
            k = k + 1;
        }
    }

    /// Writes the word `val` little-endian from `addr` on.
    pub fn set32(&mut self, addr: usize, val: u32)
        requires
            old(self).wf(),
            addr + 4 <= old(self)@.len(),
        ensures
            final(self).wf(),
            final(self)@.len() == old(self)@.len(),
            final(self)@ == store_le(old(self)@, addr as int, val as u64, 4),
    {
        let v = val as u64;
        let mut k: usize = 0;
        while k < 4
            invariant
                self.wf(),
                self@.len() == old(self)@.len(),
                k <= 4,
                addr + 4 <= self@.len(),
                self@ == store_le(old(self)@, addr as int, v, k as nat),
            decreases 4 - k,
        {
            self.arr.set(addr + k, ((v >> (8 * k as u64)) & 0xFF) as u8);
            k = k + 1;
        }
    }

    /// Writes the doubleword `val` little-endian from `addr` on.
    pub fn set64(&mut self, addr: usize, val: u64)
        requires
            old(self).wf(),
            addr + 8 <= old(self)@.len(),
        ensures
            final(self).wf(),
            final(self)@.len() == old(self)@.len(),
            final(self)@ == store_le(old(self)@, addr as int, val, 8),
    {
        let mut k: usize = 0;
        while k < 8
            invariant
                self.wf(),
                self@.len() == old(self)@.len(),
                k <= 8,
                addr + 8 <= self@.len(),
                self@ == store_le(old(self)@, addr as int, val, k as nat),
            decreases 8 - k,
        {
            self.arr.set(addr + k, ((val >> (8 * k as u64)) & 0xFF) as u8);
            k = k + 1;
        }
    }
}

} // verus!
