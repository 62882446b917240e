//! A simple implementer of `ArmMemory`: flat byte storage with a size cap.
//! Every access costs one cycle with no wait states. The backing buffer grows
//! on demand up to the cap; reads beyond it yield zero (as the buffer is
//! zero-filled), and stores beyond the cap are dropped and latch a sticky
//! fault flag the host can inspect.

use vstd::prelude::*;
use crate::cpu::ArmMemory;
use crate::cpu::MemoryModel;

verus! {

pub struct FlatMemory {
    pub data: Vec<u8>,
    pub max_size: u32,
    /// Latched when a store beyond `max_size` was dropped.
    pub fault: bool,
}

impl MemoryModel for FlatMemory {
    /// Bytes inside the allocated buffer read as stored; the rest of the
    /// address space reads as zero.
    open spec fn byte_at(&self, addr: u32) -> u8 {
        if addr < self.data.len() {
            self.data@[addr as int]
        } else {
            0
        }
    }

    /// Everything below the cap is plain storage.
    open spec fn plain(&self, addr: u32) -> bool {
        addr < self.max_size
    }
}

impl FlatMemory {
    pub fn new(max_size: u32) -> (r: FlatMemory)
        ensures
            r.max_size == max_size,
            !r.fault,
            forall|a: u32| r.byte_at(a) == 0u8,
    {
        FlatMemory { data: Vec::new(), max_size, fault: false }
    }

    /// Grows the buffer (with zero fill) so that `addr` is inside it.
    /// Callers have checked `addr < max_size`.
    fn grow_to(&mut self, addr: u32)
        requires
            addr < old(self).max_size,
        ensures
            final(self).max_size == old(self).max_size,
            final(self).fault == old(self).fault,
            addr < final(self).data.len(),
            forall|a: u32| final(self).byte_at(a) == old(self).byte_at(a),
    {
        while self.data.len() <= addr as usize
            invariant
                addr < self.max_size,
                self.max_size == old(self).max_size,
                self.fault == old(self).fault,
                old(self).data.len() <= self.data.len(),
                forall|a: u32| self.byte_at(a) == old(self).byte_at(a),
            decreases addr as int - self.data.len() + 1,
        {
            self.data.push(0);
            proof {
                assert forall|a: u32| self.byte_at(a) == old(self).byte_at(a) by {}
            }
        }
    }

    /// Stores one byte, growing the buffer as needed; a store beyond the cap
    /// is dropped and latches the fault flag.
    fn store_byte(&mut self, addr: u32, value: u8)
        ensures
            final(self).max_size == old(self).max_size,
            old(self).plain(addr) ==> forall|a: u32|
                final(self).byte_at(a) == if a == addr {
                    value
                } else {
                    old(self).byte_at(a)
                },
            !old(self).plain(addr) ==> (forall|a: u32|
                final(self).byte_at(a) == old(self).byte_at(a)) && final(self).fault,
    {
        if addr < self.max_size {
            self.grow_to(addr);
            self.data.set(addr as usize, value);
        } else {
            self.fault = true;
        }
    }

    /// Copies `data` into the backing store at `offset`; the whole range
    /// must fit below the cap.
    pub fn set_bytes(&mut self, offset: u32, data: &[u8])
        requires
            offset + data.len() <= old(self).max_size,
        ensures
            final(self).max_size == old(self).max_size,
            forall|a: u32|
                final(self).byte_at(a) == if offset <= a < offset + data.len() {
                    data@[a - offset]
                } else {
                    old(self).byte_at(a)
                },
    {
        let mut i: usize = 0;
        while i < data.len()
            invariant
                self.max_size == old(self).max_size,
                i <= data.len(),
                offset + data.len() <= self.max_size,
                forall|a: u32|
                    self.byte_at(a) == if offset <= a < offset + i {
                        data@[a - offset]
                    } else {
                        old(self).byte_at(a)
                    },
            decreases data.len() - i,
        {
            let b = data[i];
            self.store_byte(offset + i as u32, b);
            i += 1;
        }
    }

    /// Reads `len` bytes starting at `offset` into a fresh vector. A read
    /// never faults, grows the buffer, or changes a stored byte: addresses
    /// beyond the populated buffer (the cap included) read as zero.
    pub fn get_bytes(&self, offset: u32, len: u32) -> (r: Vec<u8>)
        requires
            offset + len <= u32::MAX,
        ensures
            r.len() == len,
            forall|k: int| 0 <= k < len ==> r@[k] == self.byte_at((offset + k) as u32),
    {
        let mut out: Vec<u8> = Vec::new();
        let mut i: u32 = 0;
        while i < len
            invariant
                i <= len,
                offset + len <= u32::MAX,
                out.len() == i,
                forall|k: int| 0 <= k < i ==> out@[k] == self.byte_at((offset + k) as u32),
            decreases len - i,
        {
            out.push(self.view_byte(offset + i));
            i += 1;
        }
        out
    }

    /// As `get_bytes`; kept as the name for borrowing-style access. Reads
    /// never fault, whatever the range.
    pub fn ref_bytes(&self, offset: u32, len: u32) -> (r: Vec<u8>)
        requires
            offset + len <= u32::MAX,
        ensures
            r.len() == len,
            forall|k: int| 0 <= k < len ==> r@[k] == self.byte_at((offset + k) as u32),
    {
        self.get_bytes(offset, len)
    }
}

impl ArmMemory for FlatMemory {
    fn view_byte(&self, addr: u32) -> (r: u8) {
        if (addr as usize) < self.data.len() {
            self.data[addr as usize]
        } else {
            0
        }
    }

    fn view_halfword(&self, addr: u32) -> (r: u16) {
        let aligned = addr & 0xFFFF_FFFE;
        proof {
            crate::bits::lemma_align_facts();
        }
        let b0 = self.view_byte(aligned);
        let b1 = self.view_byte(aligned + 1);
        (b0 as u16) | ((b1 as u16) << 8)
    }

    fn view_word(&self, addr: u32) -> (r: u32) {
        let aligned = addr & 0xFFFF_FFFC;
        proof {
            crate::bits::lemma_align_facts();
        }
        let b0 = self.view_byte(aligned);
        let b1 = self.view_byte(aligned + 1);
        let b2 = self.view_byte(aligned + 2);
        let b3 = self.view_byte(aligned + 3);
        (b0 as u32) | ((b1 as u32) << 8) | ((b2 as u32) << 16) | ((b3 as u32) << 24)
    }

    fn read_data_byte(&self, addr: u32, seq: bool) -> (r: (u8, u32)) {
        (self.view_byte(addr), 1)
    }

    fn read_data_halfword(&self, addr: u32, seq: bool) -> (r: (u16, u32)) {
        (self.view_halfword(addr), 1)
    }

    fn read_data_word(&self, addr: u32, seq: bool) -> (r: (u32, u32)) {
        (self.view_word(addr), 1)
    }

    fn write_data_byte(&mut self, addr: u32, value: u8, seq: bool) -> (c: u32) {
        self.store_byte(addr, value);
        1
    }

    fn write_data_halfword(&mut self, addr: u32, value: u16, seq: bool) -> (c: u32) {
        let aligned = addr & 0xFFFF_FFFE;
        proof {
            crate::bits::lemma_align_facts();
        }
        self.store_byte(aligned, value as u8);
        self.store_byte(aligned + 1, (value >> 8) as u8);
        1
    }

    fn write_data_word(&mut self, addr: u32, value: u32, seq: bool) -> (c: u32) {
        let aligned = addr & 0xFFFF_FFFC;
        proof {
            crate::bits::lemma_align_facts();
        }
        self.store_byte(aligned, value as u8);
        self.store_byte(aligned + 1, (value >> 8) as u8);
        self.store_byte(aligned + 2, (value >> 16) as u8);
        self.store_byte(aligned + 3, (value >> 24) as u8);
        1
    }

    fn code_access_seq16(&self, addr: u32) -> (c: u32) {
        1
    }

    fn code_access_seq32(&self, addr: u32) -> (c: u32) {
        1
    }

    fn code_access_nonseq16(&self, addr: u32) -> (c: u32) {
        1
    }

    fn code_access_nonseq32(&self, addr: u32) -> (c: u32) {
        1
    }

    fn on_internal_cycles(&mut self, n: u32) {
    }
}

} // verus!
