//! A flat byte-addressable memory covering the CPU address space, used for
//! embedded test programs that do not go through the cartridge bus. The
//! zero page is 0x0000-0x00FF and the stack always lives somewhere in the
//! 0x0100-0x01FF page.

use vstd::prelude::*;

use crate::word::{lo_byte, hi_byte, word, make_word, word_lo, word_hi};

verus! {

/// Backing store size: deliberately one byte short of 64KB, so the final
/// address 0xFFFF is out of range.
pub const MEMORY_SIZE: usize = 0xFFFF;

/// Flat memory.
pub struct Memory {
    pub memory: Vec<u8>,
}

impl Memory {
    /// The backing vector has its fixed size.
    pub open spec fn wf(self) -> bool {
        self.memory@.len() == MEMORY_SIZE
    }

    /// Fresh memory, all zero.
    pub fn new() -> (r: Memory)
        ensures
            r.wf(),
            forall|i: int| 0 <= i < MEMORY_SIZE ==> r.memory@[i] == 0,
    {
        let mut memory: Vec<u8> = Vec::new();
        let mut i: usize = 0;
        while i < MEMORY_SIZE
            invariant
                i <= MEMORY_SIZE,
                memory@.len() == i,
                forall|j: int| 0 <= j < i ==> memory@[j] == 0,
            decreases MEMORY_SIZE - i,
        {
            memory.push(0x00);
            i = i + 1;
        }
        Memory { memory }
    }

    /// One byte at `address`.
    pub fn read(&self, address: u16) -> (r: u8)
        requires
            self.wf(),
            address < MEMORY_SIZE,
        ensures
            r == self.memory@[address as int],
    {
        self.memory[address as usize]
    }

    /// Stores one byte at `address`.
    pub fn write(&mut self, address: u16, data: u8)
        requires
            old(self).wf(),
            address < MEMORY_SIZE,
        ensures
            final(self).wf(),
            final(self).memory@ == old(self).memory@.update(address as int, data),
    {
        self.memory.set(address as usize, data);
    }

    /// 16-bit little-endian read: low byte at `address`, high byte at
    /// `address + 1`.
    pub fn read_u16(&self, address: u16) -> (r: u16)
        requires
            self.wf(),
            address + 1 < MEMORY_SIZE,
        ensures
            r == word(self.memory@[address as int], self.memory@[address as int + 1]),
    {
        let lo = self.read(address);
        let hi = self.read(address + 1);
        make_word(lo, hi)
    }

    /// 16-bit little-endian write: low byte at `address`, high byte at
    /// `address + 1`.
    pub fn write_u16(&mut self, address: u16, data: u16)
        requires
            old(self).wf(),
            address + 1 < MEMORY_SIZE,
        ensures
            final(self).wf(),
            final(self).memory@ == old(self).memory@.update(address as int, lo_byte(data)).update(
                address as int + 1,
                hi_byte(data),
            ),
    {
        let lo = word_lo(data);
        let hi = word_hi(data);
        self.write(address, lo);
        self.write(address + 1, hi);
    }
}

} // verus!
