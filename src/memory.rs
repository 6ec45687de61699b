//! The flat, fully backed 64 KiB address space, with byte and little-endian word
//! access. Every 16-bit address is backed, so no access can fail.
use vstd::prelude::*;
use crate::state::{read16, write16};

verus! {

pub struct Memory {
    bytes: [u8; 0x10000],
}

impl View for Memory {
    type V = Seq<u8>;

    /// The byte at each address.
    closed spec fn view(&self) -> Seq<u8> {
        self.bytes@
    }
}

impl Memory {
    /// The memory holds one byte per 16-bit address.
    pub proof fn lemma_size(&self)
        ensures
            self@.len() == 0x10000,
    {
    }

    /// A memory with every byte zero.
    pub fn new() -> (m: Memory)
        ensures
            m@ == Seq::new(0x10000, |i: int| 0u8),
    {
        let m = Memory { bytes: [0u8; 0x10000] };
        assert(m.bytes@ =~= Seq::new(0x10000, |i: int| 0u8));
        m
    }

    pub fn read(&self, addr: u16) -> (r: u8)
        ensures
            r == self@[addr as int],
    {
        self.bytes[addr as usize]
    }

    pub fn write(&mut self, addr: u16, data: u8)
        ensures
            final(self)@ == old(self)@.update(addr as int, data),
    {
        self.bytes[addr as usize] = data;
    }

    /// The little-endian word at `pos` and `pos + 1`; the second address wraps to 0.
    pub fn read_u16(&self, pos: u16) -> (r: u16)
        ensures
            r == read16(self@, pos),
    {
        let lo = self.read(pos) as u16;
        let hi = self.read(pos.wrapping_add(1)) as u16;
        hi * 256 + lo
    }

    /// Stores `data` little-endian at `pos` and `pos + 1`; the second address wraps
    /// to 0.
    pub fn write_u16(&mut self, pos: u16, data: u16)
        ensures
            final(self)@ == write16(old(self)@, pos, data),
    {
        let hi = (data / 256) as u8;
        let lo = (data % 256) as u8;
        self.write(pos, lo);
        self.write(pos.wrapping_add(1), hi);
    }
}

} // verus!
