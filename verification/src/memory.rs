//! Byte-addressed memory: one contiguous region that starts at a base
//! address. Words are stored little-endian, as the architecture does.

use vstd::prelude::*;
use vstd::bytes::*;

verus! {

/// `mem` with `data` written over the bytes that start at index `at`.
/// Bytes of `data` that would fall outside `mem` are dropped.
pub open spec fn store(mem: Seq<u8>, at: int, data: Seq<u8>) -> Seq<u8> {
    Seq::new(
        mem.len(),
        |i: int|
            if at <= i < at + data.len() {
                data[i - at]
            } else {
                mem[i]
            },
    )
}

/// Writing `low` and then `high` directly above it is one write of `low + high`.
pub proof fn lemma_store_above(mem: Seq<u8>, at: int, low: Seq<u8>, high: Seq<u8>)
    ensures
        store(store(mem, at, low), at + low.len(), high) == store(mem, at, low + high),
{
    assert(store(store(mem, at, low), at + low.len(), high) =~= store(mem, at, low + high));
}

/// Writing `high` and then `low` directly below it is one write of `low + high`.
pub proof fn lemma_store_below(mem: Seq<u8>, at: int, low: Seq<u8>, high: Seq<u8>)
    ensures
        store(store(mem, at + low.len(), high), at, low) == store(mem, at, low + high),
{
    assert(store(store(mem, at + low.len(), high), at, low) =~= store(mem, at, low + high));
}

/// What was written inside the memory is what is read back from the same place.
pub proof fn lemma_load_stored(mem: Seq<u8>, at: int, data: Seq<u8>)
    requires
        0 <= at,
        at + data.len() <= mem.len(),
    ensures
        store(mem, at, data).subrange(at, at + data.len()) == data,
{
    assert(store(mem, at, data).subrange(at, at + data.len()) =~= data);
}

/// A write leaves every range that it does not overlap as it was.
pub proof fn lemma_load_apart(mem: Seq<u8>, at: int, data: Seq<u8>, from: int, to: int)
    requires
        0 <= from <= to <= mem.len(),
        to <= at || at + data.len() <= from,
    ensures
        store(mem, at, data).subrange(from, to) == mem.subrange(from, to),
{
    assert(store(mem, at, data).subrange(from, to) =~= mem.subrange(from, to));
}

/// A contiguous region of memory. Byte `i` of the region has address
/// `base() + i`.
pub struct Memory {
    base: u64,
    bytes: Vec<u8>,
}

impl View for Memory {
    type V = Seq<u8>;

    closed spec fn view(&self) -> Seq<u8> {
        self.bytes@
    }
}

impl Memory {
    /// The address of the first byte.
    pub closed spec fn base(&self) -> u64 {
        self.base
    }

    /// The region ends at or below the top of the 64-bit address space.
    pub open spec fn wf(&self) -> bool {
        self.base() + self@.len() <= u64::MAX
    }

    /// The `n` bytes from `addr` on lie inside the region.
    pub open spec fn contains(&self, addr: int, n: int) -> bool {
        0 <= n && self.base() <= addr && addr + n <= self.base() + self@.len()
    }

    /// The `n` bytes from address `addr` on.
    pub open spec fn load(&self, addr: int, n: int) -> Seq<u8> {
        self@.subrange(addr - self.base(), addr - self.base() + n)
    }

    /// The contents after `data` has been written at address `addr`.
    pub open spec fn stored(&self, addr: int, data: Seq<u8>) -> Seq<u8> {
        store(self@, addr - self.base(), data)
    }

    /// A zero-filled region of `size` bytes at `base`.
    pub fn new(base: u64, size: usize) -> (mem: Memory)
        requires
            base + size <= u64::MAX,
        ensures
            mem.wf(),
            mem.base() == base,
            mem@ == Seq::new(size as nat, |i: int| 0u8),
    {
        let mut bytes: Vec<u8> = Vec::new();
        let mut i: usize = 0;
        while i < size
            invariant
                i <= size,
                bytes@ == Seq::new(i as nat, |k: int| 0u8),
            decreases size - i,
        {
            bytes.push(0u8);
            i += 1;
        }
        Memory { base, bytes }
    }

    /// The address of the first byte.
    pub fn base_address(&self) -> (base: u64)
        ensures
            base == self.base(),
    {
        self.base
    }

    /// The number of bytes in the region.
    pub fn len(&self) -> (n: usize)
        ensures
            n == self@.len(),
    {
        self.bytes.len()
    }

    /// Whether the `n` bytes from `addr` on lie inside the region.
    pub fn in_bounds(&self, addr: u64, n: usize) -> (inside: bool)
        requires
            self.wf(),
        ensures
            inside == self.contains(addr as int, n as int),
    {
        addr >= self.base && n <= self.bytes.len() && addr - self.base <= (self.bytes.len() - n) as u64
    }

    /// Copies `data` into the region at address `addr`.
    pub fn write_bytes(&mut self, addr: u64, data: &[u8])
        requires
            old(self).wf(),
            old(self).contains(addr as int, data@.len() as int),
        ensures
            final(self).base() == old(self).base(),
            final(self)@ == old(self).stored(addr as int, data@),
    {
        let size: usize = self.bytes.len();
        let start: usize = (addr - self.base) as usize;
        let mut i: usize = 0;
        while i < data.len()
            invariant
                i <= data@.len(),
                start == addr - old(self).base,
                size == self.bytes@.len(),
                start + data@.len() <= size,
                self.base == old(self).base,
                self.bytes@ == store(old(self).bytes@, start as int, data@.take(i as int)),
            decreases data@.len() - i,
        {
            self.bytes.set(start + i, data[i]);
            i += 1;
        }
        assert(data@.take(data@.len() as int) == data@);
    }

    /// The `n` bytes from address `addr` on.
    pub fn read_bytes(&self, addr: u64, n: usize) -> (data: Vec<u8>)
        requires
            self.wf(),
            self.contains(addr as int, n as int),
        ensures
            data@ == self.load(addr as int, n as int),
    {
        let size: usize = self.bytes.len();
        let start: usize = (addr - self.base) as usize;
        let mut data: Vec<u8> = Vec::new();
        let mut i: usize = 0;
        while i < n
            invariant
                i <= n,
                start == addr - self.base,
                size == self.bytes@.len(),
                start + n <= size,
                data@ == self.bytes@.subrange(start as int, start + i),
            decreases n - i,
        {
            data.push(self.bytes[start + i]);
            i += 1;
        }
        data
    }

    /// Stores a 64-bit word at address `addr`.
    pub fn write_u64(&mut self, addr: u64, value: u64)
        requires
            old(self).wf(),
            old(self).contains(addr as int, 8),
        ensures
            final(self).base() == old(self).base(),
            final(self)@ == old(self).stored(addr as int, spec_u64_to_le_bytes(value)),
    {
        let data = u64_to_le_bytes(value);
        self.write_bytes(addr, data.as_slice());
    }

    /// Loads the 64-bit word at address `addr`.
    pub fn read_u64(&self, addr: u64) -> (value: u64)
        requires
            self.wf(),
            self.contains(addr as int, 8),
        ensures
            value == spec_u64_from_le_bytes(self.load(addr as int, 8)),
    {
        let data = self.read_bytes(addr, 8);
        u64_from_le_bytes(data.as_slice())
    }

    /// Stores a 128-bit word at address `addr`; no alignment is asked for.
    pub fn write_u128(&mut self, addr: u64, value: u128)
        requires
            old(self).wf(),
            old(self).contains(addr as int, 16),
        ensures
            final(self).base() == old(self).base(),
            final(self)@ == old(self).stored(addr as int, spec_u128_to_le_bytes(value)),
    {
        let data = u128_to_le_bytes(value);
        self.write_bytes(addr, data.as_slice());
    }

    /// Loads the 128-bit word at address `addr`; no alignment is asked for.
    pub fn read_u128(&self, addr: u64) -> (value: u128)
        requires
            self.wf(),
            self.contains(addr as int, 16),
        ensures
            value == spec_u128_from_le_bytes(self.load(addr as int, 16)),
    {
        let data = self.read_bytes(addr, 16);
        u128_from_le_bytes(data.as_slice())
    }
}

} // verus!
