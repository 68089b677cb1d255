//! The addressing resolver: from a mode and the registers to an address or a
//! value.

use super::addressable_bus::{advance, word_at, word_of, DataBus};
use super::instruction::Addressing;
use super::{Cpu, CpuState};
use vstd::prelude::*;

verus! {

/// The distance that a relative operand stands for: the byte read as a
/// two's-complement number.
pub open spec fn signed(offset: u8) -> int {
    if offset < 0x80 {
        offset as int
    } else {
        offset - 0x100
    }
}

/// `base` moved up by `index` without leaving page zero.
pub open spec fn zero_page_indexed(base: u8, index: u8) -> u8 {
    ((base + index) % 0x100) as u8
}

/// The word that a pointer in page zero holds: its low byte at `pointer`, its
/// high byte in the next cell of page zero, which for the last cell of the
/// page is the first.
pub open spec fn zero_page_word(memory: Seq<u8>, pointer: u8) -> u16 {
    word_of(memory[pointer as int], memory[zero_page_indexed(pointer, 1) as int])
}

/// The address that `mode` designates in state `s`. The shapes that designate
/// no address (implied, accumulator, immediate) give zero.
pub open spec fn effective_address(s: CpuState, mode: Addressing) -> u16 {
    match mode {
        Addressing::Relative(offset) => advance(s.program_counter, signed(offset)),
        Addressing::Zeropage(addr) => addr as u16,
        Addressing::ZeropageX(addr) => zero_page_indexed(addr, s.x_register) as u16,
        Addressing::ZeropageY(addr) => zero_page_indexed(addr, s.y_register) as u16,
        Addressing::Absolute(addr) => addr,
        Addressing::AbsoluteX(addr) => advance(addr, s.x_register as int),
        Addressing::AbsoluteY(addr) => advance(addr, s.y_register as int),
        Addressing::Indirect(addr) => word_at(s.memory, addr),
        Addressing::IndirectX(addr) => zero_page_word(
            s.memory,
            zero_page_indexed(addr, s.x_register),
        ),
        Addressing::IndirectY(addr) => advance(
            zero_page_word(s.memory, addr),
            s.y_register as int,
        ),
        Addressing::Implied | Addressing::Accumulator | Addressing::Immediate(_) => 0,
    }
}

/// The value that `mode` designates in state `s`: the operand itself when
/// immediate, the accumulator for that shape, else the byte at the effective
/// address.
pub open spec fn operand(s: CpuState, mode: Addressing) -> u8 {
    match mode {
        Addressing::Immediate(x) => x,
        Addressing::Accumulator => s.accumulator,
        _ => s.memory[effective_address(s, mode) as int],
    }
}

/// The state after `x` is stored where `mode` designates: in the accumulator
/// for that shape, else in the byte at the effective address.
pub open spec fn stored(s: CpuState, mode: Addressing, x: u8) -> CpuState {
    match mode {
        Addressing::Accumulator => CpuState { accumulator: x, ..s },
        _ => CpuState { memory: s.memory.update(effective_address(s, mode) as int, x), ..s },
    }
}

impl<B: DataBus> Cpu<B> {
    /// Reads the word that the pointer at `pointer` in page zero holds.
    fn zero_page_pointer(&self, pointer: u8) -> (word: u16)
        ensures
            word == zero_page_word(self@.memory, pointer),
    {
        let low = self.read(pointer as u16);
        let high = self.read(pointer.wrapping_add(1) as u16);
        low as u16 + (high as u16) * 0x100
    }

    /// Resolves `addressing` to the address it designates.
    pub fn address_addressing(&self, addressing: Addressing) -> (addr: u16)
        ensures
            addr == effective_address(self@, addressing),
    {
        match addressing {
            Addressing::Relative(offset) => {
                if offset < 0x80 {
                    self.program_counter.wrapping_add(offset as u16)
                } else {
                    self.program_counter.wrapping_sub(0x100 - offset as u16)
                }
            },
            Addressing::Zeropage(addr) => addr as u16,
            Addressing::ZeropageX(addr) => addr.wrapping_add(self.x_register) as u16,
            Addressing::ZeropageY(addr) => addr.wrapping_add(self.y_register) as u16,
            Addressing::Absolute(addr) => addr,
            Addressing::AbsoluteX(addr) => addr.wrapping_add(self.x_register as u16),
            Addressing::AbsoluteY(addr) => addr.wrapping_add(self.y_register as u16),
            Addressing::Indirect(addr) => self.read_word(addr),
            Addressing::IndirectX(addr) => self.zero_page_pointer(
                addr.wrapping_add(self.x_register),
            ),
            Addressing::IndirectY(addr) => self.zero_page_pointer(addr).wrapping_add(
                self.y_register as u16,
            ),
            _ => 0,
        }
    }

    /// Loads the value that `addressing` designates.
    pub fn load_addressing(&self, addressing: Addressing) -> (x: u8)
        ensures
            x == operand(self@, addressing),
    {
        match addressing {
            Addressing::Immediate(x) => x,
            Addressing::Accumulator => self.accumulator,
            addr => self.read(self.address_addressing(addr)),
        }
    }

    /// Stores `x` where `addressing` designates.
    pub fn write_addressing(&mut self, addressing: Addressing, x: u8)
        ensures
            final(self)@ == stored(old(self)@, addressing, x),
    {
        match addressing {
            Addressing::Accumulator => self.accumulator = x,
            addr => {
                let target = self.address_addressing(addr);
                self.write(target, x)
            },
        }
    }
}

} // verus!
