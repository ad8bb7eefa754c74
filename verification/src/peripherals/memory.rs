use vstd::prelude::*;

verus! {

/// The 16-bit little-endian value held by `s` at byte offset `i`.
pub open spec fn le16(s: Seq<u8>, i: int) -> u16 {
    (s[i] as u16) | ((s[i + 1] as u16) << 8)
}

/// The 32-bit little-endian value held by `s` at byte offset `i`.
pub open spec fn le32(s: Seq<u8>, i: int) -> u32 {
    (le16(s, i) as u32) | ((le16(s, i + 2) as u32) << 16)
}

/// The 64-bit little-endian value held by `s` at byte offset `i`.
pub open spec fn le64(s: Seq<u8>, i: int) -> u64 {
    (le32(s, i) as u64) | ((le32(s, i + 4) as u64) << 32)
}

/// `s` with one byte stored at `i`.
pub open spec fn store8(s: Seq<u8>, i: int, data: u8) -> Seq<u8> {
    s.update(i, data)
}

/// `s` with a 16-bit value stored little-endian at `i`.
pub open spec fn store16(s: Seq<u8>, i: int, data: u16) -> Seq<u8> {
    s.update(i, (data & 0xff) as u8).update(i + 1, ((data >> 8) & 0xff) as u8)
}

/// `s` with a 32-bit value stored little-endian at `i`.
pub open spec fn store32(s: Seq<u8>, i: int, data: u32) -> Seq<u8> {
    store16(store16(s, i, data as u16), i + 2, (data >> 16) as u16)
}

/// `s` with a 64-bit value stored little-endian at `i`.
pub open spec fn store64(s: Seq<u8>, i: int, data: u64) -> Seq<u8> {
    store32(store32(s, i, data as u32), i + 4, (data >> 32) as u32)
}

/// `n` zero bytes.
pub open spec fn zeros(n: nat) -> Seq<u8> {
    Seq::new(n, |i: int| 0u8)
}

/// `s` with its first `data.len()` bytes replaced by `data`.
pub open spec fn overlay(s: Seq<u8>, data: Seq<u8>) -> Seq<u8> {
    Seq::new(s.len(), |i: int| if i < data.len() { data[i] } else { s[i] })
}

/// What a read of `n` bytes at offset `off` of a store of `len` bytes may
/// touch: whether the bytes all lie inside the store.
pub open spec fn in_store(len: nat, off: u64, n: nat) -> bool {
    off + n <= len
}

/// The byte at `off`, or an error outside the store.
pub open spec fn ram_read8(s: Seq<u8>, off: u64) -> Result<u8, ()> {
    if in_store(s.len(), off, 1) {
        Ok(s[off as int])
    } else {
        Err(())
    }
}

/// The 16-bit value at `off`, or an error where it does not lie inside the store.
pub open spec fn ram_read16(s: Seq<u8>, off: u64) -> Result<u16, ()> {
    if in_store(s.len(), off, 2) {
        Ok(le16(s, off as int))
    } else {
        Err(())
    }
}

/// The 32-bit value at `off`, or an error where it does not lie inside the store.
pub open spec fn ram_read32(s: Seq<u8>, off: u64) -> Result<u32, ()> {
    if in_store(s.len(), off, 4) {
        Ok(le32(s, off as int))
    } else {
        Err(())
    }
}

/// The 64-bit value at `off`, or an error where it does not lie inside the store.
pub open spec fn ram_read64(s: Seq<u8>, off: u64) -> Result<u64, ()> {
    if in_store(s.len(), off, 8) {
        Ok(le64(s, off as int))
    } else {
        Err(())
    }
}

/// The store after a byte was written at `off`; unchanged, with an error,
/// outside the store.
pub open spec fn ram_write8(s: Seq<u8>, off: u64, data: u8) -> (Seq<u8>, Result<(), ()>) {
    if in_store(s.len(), off, 1) {
        (store8(s, off as int, data), Ok(()))
    } else {
        (s, Err(()))
    }
}

/// The store after a 16-bit value was written at `off`; unchanged, with an
/// error, where the value does not lie inside the store.
pub open spec fn ram_write16(s: Seq<u8>, off: u64, data: u16) -> (Seq<u8>, Result<(), ()>) {
    if in_store(s.len(), off, 2) {
        (store16(s, off as int, data), Ok(()))
    } else {
        (s, Err(()))
    }
}

/// The store after a 32-bit value was written at `off`; unchanged, with an
/// error, where the value does not lie inside the store.
pub open spec fn ram_write32(s: Seq<u8>, off: u64, data: u32) -> (Seq<u8>, Result<(), ()>) {
    if in_store(s.len(), off, 4) {
        (store32(s, off as int, data), Ok(()))
    } else {
        (s, Err(()))
    }
}

/// The store after a 64-bit value was written at `off`; unchanged, with an
/// error, where the value does not lie inside the store.
pub open spec fn ram_write64(s: Seq<u8>, off: u64, data: u64) -> (Seq<u8>, Result<(), ()>) {
    if in_store(s.len(), off, 8) {
        (store64(s, off as int, data), Ok(()))
    } else {
        (s, Err(()))
    }
}

/// What was stored is what is loaded: a value written little-endian at an
/// offset is read back from that offset, and the store keeps its size.
pub proof fn lemma_store_then_load(s: Seq<u8>, i: int, half: u16, word: u32, double: u64)
    requires
        0 <= i,
        i + 8 <= s.len(),
    ensures
        le16(store16(s, i, half), i) == half,
        le32(store32(s, i, word), i) == word,
        le64(store64(s, i, double), i) == double,
        store16(s, i, half).len() == s.len(),
        store32(s, i, word).len() == s.len(),
        store64(s, i, double).len() == s.len(),
{
    lemma_halves(s, i, half);
    lemma_halves(s, i + 2, (word >> 16) as u16);
    lemma_halves(store16(s, i, word as u16), i + 2, (word >> 16) as u16);
    lemma_halves(s, i, word as u16);
    assert((word as u16 as u32) | (((word >> 16) as u16 as u32) << 16) == word) by (bit_vector);
    assert(le32(store32(s, i, word), i) == word);
    let low = store32(s, i, double as u32);
    let high: u32 = (double >> 32) as u32;
    lemma_halves(s, i, double as u32 as u16);
    lemma_halves(store16(s, i, double as u32 as u16), i + 2, ((double as u32) >> 16) as u16);
    assert(((double as u32) as u16 as u32) | ((((double as u32) >> 16) as u16 as u32) << 16)
        == double as u32) by (bit_vector);
    lemma_halves(low, i + 4, high as u16);
    lemma_halves(store16(low, i + 4, high as u16), i + 6, (high >> 16) as u16);
    assert((high as u16 as u32) | (((high >> 16) as u16 as u32) << 16) == high) by (bit_vector);
    assert((double as u32 as u64) | (((double >> 32) as u32 as u64) << 32) == double)
        by (bit_vector);
    assert(le32(store64(s, i, double), i) == double as u32);
    assert(le32(store64(s, i, double), i + 4) == high);
}

/// A 16-bit value written at an offset is read back from that offset.
proof fn lemma_halves(s: Seq<u8>, i: int, half: u16)
    requires
        0 <= i,
        i + 2 <= s.len(),
    ensures
        le16(store16(s, i, half), i) == half,
{
    assert((((half & 0xff) as u8) as u16) | (((((half >> 8) & 0xff) as u8) as u16) << 8) == half)
        by (bit_vector);
}

/// A linear, byte-addressable backing store with little-endian accessors.
pub struct Memory {
    pub mem: Vec<u8>,
}

impl View for Memory {
    type V = Seq<u8>;

    open spec fn view(&self) -> Seq<u8> {
        self.mem@
    }
}

impl Memory {
    /// A store of `max_size` zero bytes.
    pub fn new(max_size: usize) -> (m: Self)
        ensures
            m@ == zeros(max_size as nat),
    {
        let m = Self { mem: vec![0u8; max_size] };
        assert(m@ =~= zeros(max_size as nat));
        m
    }

    /// The number of bytes in the store.
    pub fn size(&self) -> (n: usize)
        ensures
            n == self@.len(),
    {
        self.mem.len()
    }

    /// Whether the `n` bytes starting at `addr` all lie inside the store.
    pub fn contains(&self, addr: u64, n: u64) -> (b: bool)
        ensures
            b == (addr + n <= self.mem.len()),
    {
        let len: usize = self.mem.len();
        n <= len as u64 && addr <= len as u64 - n
    }

    /// Copies `data` over the beginning of the store.
    pub fn initialize(&mut self, data: Vec<u8>)
        requires
            data.len() <= old(self).mem.len(),
        ensures
            final(self)@ == overlay(old(self)@, data@),
    {
        let n: usize = data.len();
        let mut i: usize = 0;
        while i < n
            invariant
                n == data@.len(),
                i <= n,
                n <= self@.len(),
                self@.len() == old(self)@.len(),
                forall|k: int| 0 <= k < i ==> self@[k] == data@[k],
                forall|k: int| i <= k < self@.len() ==> self@[k] == old(self)@[k],
            decreases n - i,
        {
            self.mem[i] = data[i];
            i += 1;
        }
        assert(self@ =~= overlay(old(self)@, data@));
    }

    pub fn write8(&mut self, addr: u64, data: u8)
        requires
            addr < old(self).mem.len(),
        ensures
            final(self)@ == store8(old(self)@, addr as int, data),
    {
        self.mem[addr as usize] = data;
    }

    pub fn write16(&mut self, addr: u64, data: u16)
        requires
            addr + 2 <= old(self).mem.len(),
        ensures
            final(self)@ == store16(old(self)@, addr as int, data),
    {
        let index: usize = addr as usize;
        self.mem[index] = #[verifier::truncate] ((data & 0xff) as u8);
        self.mem[index + 1] = #[verifier::truncate] (((data >> 8) & 0xff) as u8);
    }

    pub fn write32(&mut self, addr: u64, data: u32)
        requires
            addr + 4 <= old(self).mem.len(),
        ensures
            final(self)@ == store32(old(self)@, addr as int, data),
    {
        self.write16(addr, #[verifier::truncate] (data as u16));
        self.write16(addr + 2, #[verifier::truncate] ((data >> 16) as u16));
    }

    pub fn write64(&mut self, addr: u64, data: u64)
        requires
            addr + 8 <= old(self).mem.len(),
        ensures
            final(self)@ == store64(old(self)@, addr as int, data),
    {
        self.write32(addr, #[verifier::truncate] (data as u32));
        self.write32(addr + 4, #[verifier::truncate] ((data >> 32) as u32));
    }

    pub fn read8(&self, addr: u64) -> (data: u8)
        requires
            addr < self.mem.len(),
        ensures
            data == self@[addr as int],
    {
        self.mem[addr as usize]
    }

    pub fn read16(&self, addr: u64) -> (data: u16)
        requires
            addr + 2 <= self.mem.len(),
        ensures
            data == le16(self@, addr as int),
    {
        let index: usize = addr as usize;
        (self.mem[index] as u16) | ((self.mem[index + 1] as u16) << 8)
    }

    pub fn read32(&self, addr: u64) -> (data: u32)
        requires
            addr + 4 <= self.mem.len(),
        ensures
            data == le32(self@, addr as int),
    {
        (self.read16(addr) as u32) | ((self.read16(addr + 2) as u32) << 16)
    }

    pub fn read64(&self, addr: u64) -> (data: u64)
        requires
            addr + 8 <= self.mem.len(),
        ensures
            data == le64(self@, addr as int),
    {
        (self.read32(addr) as u64) | ((self.read32(addr + 4) as u64) << 32)
    }

    /// Reads 8 bits at `off`, or fails where they do not lie inside the store.
    pub fn checked_read8(&self, off: u64) -> (r: Result<u8, ()>)
        ensures
            r == ram_read8(self@, off),
    {
        if self.contains(off, 1) {
            Ok(self.read8(off))
        } else {
            Err(())
        }
    }

    /// Writes 8 bits at `off`, or fails and changes nothing where they do
    /// not lie inside the store.
    pub fn checked_write8(&mut self, off: u64, data: u8) -> (r: Result<(), ()>)
        ensures
            (final(self)@, r) == ram_write8(old(self)@, off, data),
    {
        if self.contains(off, 1) {
            self.write8(off, data);
            Ok(())
        } else {
            Err(())
        }
    }

    /// Reads 16 bits at `off`, or fails where they do not lie inside the store.
    pub fn checked_read16(&self, off: u64) -> (r: Result<u16, ()>)
        ensures
            r == ram_read16(self@, off),
    {
        if self.contains(off, 2) {
            Ok(self.read16(off))
        } else {
            Err(())
        }
    }

    /// Writes 16 bits at `off`, or fails and changes nothing where they do
    /// not lie inside the store.
    pub fn checked_write16(&mut self, off: u64, data: u16) -> (r: Result<(), ()>)
        ensures
            (final(self)@, r) == ram_write16(old(self)@, off, data),
    {
        if self.contains(off, 2) {
            self.write16(off, data);
            Ok(())
        } else {
            Err(())
        }
    }

    /// Reads 32 bits at `off`, or fails where they do not lie inside the store.
    pub fn checked_read32(&self, off: u64) -> (r: Result<u32, ()>)
        ensures
            r == ram_read32(self@, off),
    {
        if self.contains(off, 4) {
            Ok(self.read32(off))
        } else {
            Err(())
        }
    }

    /// Writes 32 bits at `off`, or fails and changes nothing where they do
    /// not lie inside the store.
    pub fn checked_write32(&mut self, off: u64, data: u32) -> (r: Result<(), ()>)
        ensures
            (final(self)@, r) == ram_write32(old(self)@, off, data),
    {
        if self.contains(off, 4) {
            self.write32(off, data);
            Ok(())
        } else {
            Err(())
        }
    }

    /// Reads 64 bits at `off`, or fails where they do not lie inside the store.
    pub fn checked_read64(&self, off: u64) -> (r: Result<u64, ()>)
        ensures
            r == ram_read64(self@, off),
    {
        if self.contains(off, 8) {
            Ok(self.read64(off))
        } else {
            Err(())
        }
    }

    /// Writes 64 bits at `off`, or fails and changes nothing where they do
    /// not lie inside the store.
    pub fn checked_write64(&mut self, off: u64, data: u64) -> (r: Result<(), ()>)
        ensures
            (final(self)@, r) == ram_write64(old(self)@, off, data),
    {
        if self.contains(off, 8) {
            self.write64(off, data);
            Ok(())
        } else {
            Err(())
        }
    }
}

} // verus!
