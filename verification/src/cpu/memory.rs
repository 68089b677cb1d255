//! A bus backed by a plain array of 64 KiB.

use super::addressable_bus::{image, loaded, word_at, word_stored, DataBus};
use vstd::prelude::*;

verus! {

/// 65536 bytes of memory, one for every address.
pub struct Memory {
    memory: [u8; 65536],
}

impl View for Memory {
    type V = Seq<u8>;

    /// The contents by address; always 65536 bytes long.
    open spec fn view(&self) -> Seq<u8> {
        image(self)
    }
}

impl DataBus for Memory {
    closed spec fn byte_at(&self, addr: u16) -> u8 {
        self.memory@[addr as int]
    }

    fn get(&self, addr: u16) -> (byte: u8) {
        self.memory[addr as usize]
    }

    fn set(&mut self, addr: u16, x: u8) {
        self.memory[addr as usize] = x;
    }
}

impl Memory {
    /// A memory with every cell zero.
    pub fn new() -> (memory: Self)
        ensures
            memory@ == Seq::new(0x1_0000, |a: int| 0u8),
    {
        let memory = Self { memory: [0; 65536] };
        assert(memory@ =~= Seq::new(0x1_0000, |a: int| 0u8));
        memory
    }

    /// Copies `program` into memory from `offset` on. Bytes that would fall
    /// behind the last cell are dropped.
    pub fn load_program(&mut self, offset: u16, program: &[u8])
        ensures
            final(self)@ == loaded(old(self)@, offset, program@),
    {
        self.load(offset, program);
        assert(self@ =~= loaded(old(self)@, offset, program@));
    }

    /// Reads the little-endian word whose low byte is at `offset`.
    pub fn get_word(&self, offset: u16) -> (word: u16)
        ensures
            word == word_at(self@, offset),
    {
        DataBus::get_word(self, offset)
    }

    /// Reads the cell at `addr`.
    pub fn get(&self, addr: u16) -> (byte: u8)
        ensures
            byte == self@[addr as int],
    {
        DataBus::get(self, addr)
    }

    /// Lends the cell at `addr` for writing.
    pub fn ref_mut(&mut self, addr: u16) -> (cell: &mut u8)
        ensures
            *cell == old(self)@[addr as int],
            final(self)@ == old(self)@.update(addr as int, *final(cell)),
    {
        &mut self.memory[addr as usize]
    }

    /// Writes `x` little-endian at `offset`.
    pub fn set_word(&mut self, offset: u16, x: u16)
        ensures
            final(self)@ == word_stored(old(self)@, offset, x),
    {
        DataBus::set_word(self, offset, x);
        assert(self@ =~= word_stored(old(self)@, offset, x));
    }

    /// Writes `x` to the cell at `addr`.
    pub fn set(&mut self, addr: u16, x: u8)
        ensures
            final(self)@ == old(self)@.update(addr as int, x),
    {
        DataBus::set(self, addr, x);
        assert(self@ =~= old(self)@.update(addr as int, x));
    }
}

} // verus!
