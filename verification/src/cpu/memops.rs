//! Memory operations of the processor: the stack and the instruction stream.

use super::addressable_bus::{
    high_byte, lemma_set_updates_image, low_byte, next_address, word_at, word_of, DataBus,
};
use super::{Cpu, CpuState};
use vstd::prelude::*;

verus! {

/// The first address of the page that holds the stack.
pub const STACK_OFFSET: u16 = 0x100;

/// The address of the stack slot that `pointer` names.
pub open spec fn stack_address(pointer: u8) -> u16 {
    (0x100 + pointer) as u16
}

/// The stack pointer one slot below `pointer`, wrapping within the page.
pub open spec fn slot_below(pointer: u8) -> u8 {
    ((pointer + 0xFF) % 0x100) as u8
}

/// The stack pointer one slot above `pointer`, wrapping within the page.
pub open spec fn slot_above(pointer: u8) -> u8 {
    ((pointer + 1) % 0x100) as u8
}

/// The state after `x` is pushed: it lands in the free slot that the stack
/// pointer names, and the pointer moves one slot down.
pub open spec fn pushed(s: CpuState, x: u8) -> CpuState {
    CpuState {
        stack_pointer: slot_below(s.stack_pointer),
        memory: s.memory.update(stack_address(s.stack_pointer) as int, x),
        ..s
    }
}

/// The state after a byte is popped, and that byte: the pointer moves one
/// slot up and the byte is read from there.
pub open spec fn popped(s: CpuState) -> (CpuState, u8) {
    let pointer = slot_above(s.stack_pointer);
    (CpuState { stack_pointer: pointer, ..s }, s.memory[stack_address(pointer) as int])
}

/// The state after `word` is pushed, high byte first.
pub open spec fn pushed_word(s: CpuState, word: u16) -> CpuState {
    pushed(pushed(s, high_byte(word)), low_byte(word))
}

/// The state after a word is popped, and that word: the low byte comes off
/// first.
pub open spec fn popped_word(s: CpuState) -> (CpuState, u16) {
    let (s, low) = popped(s);
    let (s, high) = popped(s);
    (s, word_of(low, high))
}

/// A pop right after a push returns the pushed byte and puts the stack
/// pointer back where it was; only the slot that took the byte has changed.
pub proof fn lemma_pop_after_push(s: CpuState, x: u8)
    requires
        s.wf(),
    ensures
        popped(pushed(s, x)).1 == x,
        popped(pushed(s, x)).0.stack_pointer == s.stack_pointer,
        popped(pushed(s, x)).0 == (CpuState {
            memory: s.memory.update(stack_address(s.stack_pointer) as int, x),
            ..s
        }),
{
}

/// A word pop right after a word push returns the pushed word and puts the
/// stack pointer back where it was. On the stack the high byte lies in the
/// slot that the pointer named before the push, the low byte one slot below.
pub proof fn lemma_pop_word_after_push_word(s: CpuState, word: u16)
    requires
        s.wf(),
    ensures
        popped_word(pushed_word(s, word)).1 == word,
        popped_word(pushed_word(s, word)).0.stack_pointer == s.stack_pointer,
        popped_word(pushed_word(s, word)).0 == (CpuState {
            stack_pointer: s.stack_pointer,
            ..pushed_word(s, word)
        }),
        pushed_word(s, word).memory[stack_address(s.stack_pointer) as int] == high_byte(word),
        pushed_word(s, word).memory[stack_address(slot_below(s.stack_pointer)) as int] == low_byte(
            word,
        ),
{
}

impl<B: DataBus> Cpu<B> {
    /// Reads the bus at `addr`.
    pub(super) fn read(&self, addr: u16) -> (byte: u8)
        ensures
            byte == self@.memory[addr as int],
    {
        self.bus.get(addr)
    }

    /// Reads the little-endian word on the bus at `addr`.
    pub(super) fn read_word(&self, addr: u16) -> (word: u16)
        ensures
            word == word_at(self@.memory, addr),
    {
        self.bus.get_word(addr)
    }

    /// Writes `x` to the bus at `addr`.
    pub(super) fn write(&mut self, addr: u16, x: u8)
        ensures
            final(self)@ == (CpuState {
                memory: old(self)@.memory.update(addr as int, x),
                ..old(self)@
            }),
    {
        self.bus.set(addr, x);
        proof {
            lemma_set_updates_image(&old(self).bus, &self.bus, addr, x);
        }
    }

    /// Pushes `x` onto the stack.
    pub fn stack_push(&mut self, x: u8)
        ensures
            final(self)@ == pushed(old(self)@, x),
    {
        self.write(STACK_OFFSET + self.stack_pointer as u16, x);
        self.stack_pointer = self.stack_pointer.wrapping_sub(1);
    }

    /// Pushes `x` onto the stack, high byte first.
    pub fn stack_push_word(&mut self, x: u16)
        ensures
            final(self)@ == pushed_word(old(self)@, x),
    {
        self.stack_push((x / 0x100) as u8);
        self.stack_push((x % 0x100) as u8);
    }

    /// Pops the byte on top of the stack.
    pub fn stack_pop(&mut self) -> (x: u8)
        ensures
            (final(self)@, x) == popped(old(self)@),
    {
        self.stack_pointer = self.stack_pointer.wrapping_add(1);
        self.read(STACK_OFFSET + self.stack_pointer as u16)
    }

    /// Pops the word on top of the stack, low byte first.
    pub fn stack_pop_word(&mut self) -> (x: u16)
        ensures
            (final(self)@, x) == popped_word(old(self)@),
    {
        let low = self.stack_pop();
        let high = self.stack_pop();
        low as u16 + (high as u16) * 0x100
    }

    /// Reads the byte under the program counter and moves the counter on.
    pub fn read_byte(&mut self) -> (byte: u8)
        ensures
            byte == old(self)@.memory[old(self)@.program_counter as int],
            final(self)@ == (CpuState {
                program_counter: next_address(old(self)@.program_counter),
                ..old(self)@
            }),
    {
        let byte = self.read(self.program_counter);
        self.program_counter = self.program_counter.wrapping_add(1);
        byte
    }
}

} // verus!
