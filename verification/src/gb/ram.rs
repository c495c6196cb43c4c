use vstd::prelude::*;

use super::registers::{high_byte, low_byte};

verus! {

/// The flat memory of the machine: one byte at each 16-bit address.
#[derive(Debug)]
pub struct MemoryBus {
    memory: [u8; 0x10000],
}

impl View for MemoryBus {
    type V = Seq<u8>;

    /// The bytes of the memory, by address.
    closed spec fn view(&self) -> Seq<u8> {
        self.memory@
    }
}

impl MemoryBus {
    /// Every memory holds exactly 65,536 bytes, so every 16-bit address is
    /// within it.
    pub broadcast proof fn lemma_size(&self)
        ensures
            #[trigger] self@.len() == 0x10000,
    {
    }

    /// A memory of zeroes.
    pub fn new() -> (bus: MemoryBus)
        ensures
            bus@ == Seq::new(0x10000, |i: int| 0u8),
    {
        MemoryBus { memory: [0u8;0x10000] }
    }

    pub fn read_byte(&self, address: u16) -> (val: u8)
        ensures
            val == self@[address as int],
    {
        self.memory[address as usize]
    }

    pub fn write_byte(&mut self, address: u16, val: u8)
        ensures
            final(self)@ == old(self)@.update(address as int, val),
    {
        self.memory[address as usize] = val;
    }

    /// Stores `val` as two byte writes: its low byte at `address`, then its
    /// high byte at the address after it. That second address must exist.
    pub fn write_word(&mut self, address: u16, val: u16)
        requires
            address < 0xFFFF,
        ensures
            final(self)@ == old(self)@.update(address as int, low_byte(val)).update(
                address + 1,
                high_byte(val),
            ),
    {
        proof {
            super::registers::lemma_split_word(val);
        }
        self.write_byte(address, (val & 0xFF) as u8);
        self.write_byte(address + 1, (val >> 8) as u8);
    }
}

} // verus!
