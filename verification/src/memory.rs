//! A region of the target's address space held as bytes: a module snapshot, or
//! any other range that is known to be readable.

use vstd::prelude::*;
use crate::encoding::{decode_le, le_value};

verus! {

/// A run of bytes and the absolute address of its first byte. Addresses outside
/// the run are unmapped: nothing is read from them and nothing is written there.
#[derive(Debug)]
pub struct Memory {
    pub base: u64,
    pub bytes: Vec<u8>,
}

/// What a [`Memory`] holds.
pub struct MemoryView {
    pub base: u64,
    pub bytes: Seq<u8>,
}

/// The width of a pointer of the target, in bytes.
pub const POINTER_WIDTH: usize = 8;

impl MemoryView {
    /// Whether the `len` bytes from `addr` on all lie inside the region.
    pub open spec fn maps(self, addr: int, len: int) -> bool {
        self.base <= addr && 0 <= len && addr + len <= self.base + self.bytes.len()
    }

    /// The `len` bytes from `addr` on.
    pub open spec fn bytes_at(self, addr: int, len: int) -> Seq<u8> {
        self.bytes.subrange(addr - self.base, addr - self.base + len)
    }

    /// The pointer stored at `addr`, where a whole pointer is mapped there.
    pub open spec fn pointer_at(self, addr: int) -> Option<u64> {
        if self.maps(addr, POINTER_WIDTH as int) {
            Some(le_value(self.bytes_at(addr, POINTER_WIDTH as int)) as u64)
        } else {
            None
        }
    }

    /// The region with `data` written from `addr` on.
    pub open spec fn with_bytes(self, addr: int, data: Seq<u8>) -> MemoryView {
        MemoryView {
            base: self.base,
            bytes: Seq::new(
                self.bytes.len(),
                |i: int|
                    if addr - self.base <= i < addr - self.base + data.len() {
                        data[i - (addr - self.base)]
                    } else {
                        self.bytes[i]
                    },
            ),
        }
    }
}

impl View for Memory {
    type V = MemoryView;

    open spec fn view(&self) -> MemoryView {
        MemoryView { base: self.base, bytes: self.bytes@ }
    }
}

impl Memory {
    /// The region that holds `bytes` from the address `base` on.
    pub fn new(base: u64, bytes: Vec<u8>) -> (memory: Memory)
        ensures
            memory@ == (MemoryView { base, bytes: bytes@ }),
    {
        Memory { base, bytes }
    }

    /// Whether the `len` bytes from `addr` on all lie inside the region.
    pub fn is_mapped(&self, addr: u64, len: usize) -> (mapped: bool)
        ensures
            mapped == self@.maps(addr as int, len as int),
    {
        let size = self.bytes.len();
        addr >= self.base && addr - self.base <= size as u64 && len <= size - (addr
            - self.base) as usize
    }

    /// Copies `len` bytes out of the region, if all of them are mapped.
    pub fn load(&self, addr: u64, len: usize) -> (data: Option<Vec<u8>>)
        ensures
            match data {
                Some(data) => self@.maps(addr as int, len as int) && data@ == self@.bytes_at(
                    addr as int,
                    len as int,
                ),
                None => !self@.maps(addr as int, len as int),
            },
    {
        let size = self.bytes.len();
        if !self.is_mapped(addr, len) {
            return None;
        }
        let start = (addr - self.base) as usize;
        let mut data: Vec<u8> = Vec::new();
        let mut i: usize = 0;
        while i < len
            invariant
                i <= len,
                size == self.bytes@.len(),
                start + len <= size,
                data@ == self.bytes@.subrange(start as int, start + i),
            decreases len - i,
        {
            data.push(self.bytes[start + i]);
            i += 1;
        }
        Some(data)
    }

    /// Reads the pointer stored at `addr`, if a whole pointer is mapped there.
    pub fn load_pointer(&self, addr: u64) -> (pointer: Option<u64>)
        ensures
            pointer == self@.pointer_at(addr as int),
    {
        match self.load(addr, POINTER_WIDTH) {
            Some(data) => Some(decode_le(data.as_slice())),
            None => None,
        }
    }

    /// Copies `data` into the region at `addr`, if all of its bytes fall on
    /// mapped addresses; otherwise nothing is written.
    pub fn store(&mut self, addr: u64, data: &[u8]) -> (stored: bool)
        ensures
            stored == old(self)@.maps(addr as int, data@.len() as int),
            stored ==> final(self)@ == old(self)@.with_bytes(addr as int, data@),
            !stored ==> final(self)@ == old(self)@,
    {
        let len = data.len();
        let size = self.bytes.len();
        if !self.is_mapped(addr, len) {
            return false;
        }
        let start = (addr - self.base) as usize;
        let mut i: usize = 0;
        assert(self@.bytes =~= old(self)@.with_bytes(addr as int, data@.subrange(0, 0)).bytes);
        while i < len
            invariant
                i <= len,
                len == data@.len(),
                self.base == old(self).base,
                start == addr - self.base,
                size == self.bytes@.len(),
                size == old(self).bytes@.len(),
                start + len <= size,
                self@ == old(self)@.with_bytes(addr as int, data@.subrange(0, i as int)),
            decreases len - i,
        {
            self.bytes[start + i] = data[i];
            i += 1;
            assert(self@.bytes =~= old(self)@.with_bytes(
                addr as int,
                data@.subrange(0, i as int),
            ).bytes);
        }
        assert(data@.subrange(0, len as int) =~= data@);
        true
    }
}

} // verus!
