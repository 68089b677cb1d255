//! A bus held in place: the whole address space as one array inside the
//! value, with nothing on the heap.

use crate::cpu::addressable_bus::{image, loaded, DataBus};
use vstd::prelude::*;

verus! {

/// 65536 bytes of memory stored inline.
pub struct StackMemory {
    memory: [u8; 65536],
}

impl View for StackMemory {
    type V = Seq<u8>;

    /// The contents by address; always 65536 bytes long.
    open spec fn view(&self) -> Seq<u8> {
        image(self)
    }
}

impl DataBus for StackMemory {
    closed spec fn byte_at(&self, addr: u16) -> u8 {
        self.memory@[addr as int]
    }

    fn get(&self, addr: u16) -> (byte: u8) {
        self.memory[addr as usize]
    }

    fn set(&mut self, addr: u16, x: u8) {
        self.memory[addr as usize] = x
    }
}

impl Default for StackMemory {
    /// A memory with every cell zero.
    fn default() -> (memory: Self)
        ensures
            memory@ == Seq::new(0x1_0000, |a: int| 0u8),
    {
        Self::new()
    }
}

impl StackMemory {
    /// A memory with every cell zero.
    pub fn new() -> (memory: Self)
        ensures
            memory@ == Seq::new(0x1_0000, |a: int| 0u8),
    {
        let memory = Self { memory: [0; 65536] };
        assert(memory@ =~= Seq::new(0x1_0000, |a: int| 0u8));
        memory
    }

    /// Copies `program` into memory from `offset` on. Bytes that would fall
    /// behind the last cell are dropped.
    pub fn load_data(&mut self, offset: u16, program: &[u8])
        ensures
            final(self)@ == loaded(old(self)@, offset, program@),
    {
        self.load(offset, program);
        assert(self@ =~= loaded(old(self)@, offset, program@));
    }
}

} // verus!
