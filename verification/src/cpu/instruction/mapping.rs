//! The decoder: from an opcode and the bytes behind it to an instruction.

use super::super::addressable_bus::{advance, next_address, word_of, DataBus};
use super::super::error::CpuError;
use super::{decodes_to, is_legal, opcode_for, operand_len, with_operand};
use super::{Addressing, Instruction, InstructionType};
use vstd::prelude::*;

verus! {

/// The operation and the operand shape that `opcode` encodes, the shape with
/// a zero operand still to be filled in.
fn lookup(opcode: u8) -> (entry: Option<(InstructionType, Addressing)>)
    ensures
        match entry {
            Some((operation, shape)) => {
                &&& opcode_for(operation, shape) == Some(opcode)
                &&& shape == with_operand(shape, 0, 0)
            },
            None => !is_legal(opcode),
        },
{
    match opcode {
        0x00 => Some((InstructionType::BRK, Addressing::Implied)),
        0x01 => Some((InstructionType::ORA, Addressing::IndirectX(0))),
        0x05 => Some((InstructionType::ORA, Addressing::Zeropage(0))),
        0x06 => Some((InstructionType::ASL, Addressing::Zeropage(0))),
        0x08 => Some((InstructionType::PHP, Addressing::Implied)),
        0x09 => Some((InstructionType::ORA, Addressing::Immediate(0))),
        0x0A => Some((InstructionType::ASL, Addressing::Accumulator)),
        0x0D => Some((InstructionType::ORA, Addressing::Absolute(0))),
        0x0E => Some((InstructionType::ASL, Addressing::Absolute(0))),
        0x10 => Some((InstructionType::BPL, Addressing::Relative(0))),
        0x11 => Some((InstructionType::ORA, Addressing::IndirectY(0))),
        0x15 => Some((InstructionType::ORA, Addressing::ZeropageX(0))),
        0x16 => Some((InstructionType::ASL, Addressing::ZeropageX(0))),
        0x18 => Some((InstructionType::CLC, Addressing::Implied)),
        0x19 => Some((InstructionType::ORA, Addressing::AbsoluteY(0))),
        0x1D => Some((InstructionType::ORA, Addressing::AbsoluteX(0))),
        0x1E => Some((InstructionType::ASL, Addressing::AbsoluteX(0))),
        0x20 => Some((InstructionType::JSR, Addressing::Absolute(0))),
        0x21 => Some((InstructionType::AND, Addressing::IndirectX(0))),
        0x24 => Some((InstructionType::BIT, Addressing::Zeropage(0))),
        0x25 => Some((InstructionType::AND, Addressing::Zeropage(0))),
        0x26 => Some((InstructionType::ROL, Addressing::Zeropage(0))),
        0x28 => Some((InstructionType::PLP, Addressing::Implied)),
        0x29 => Some((InstructionType::AND, Addressing::Immediate(0))),
        0x2A => Some((InstructionType::ROL, Addressing::Accumulator)),
        0x2C => Some((InstructionType::BIT, Addressing::Absolute(0))),
        0x2D => Some((InstructionType::AND, Addressing::Absolute(0))),
        0x2E => Some((InstructionType::ROL, Addressing::Absolute(0))),
        0x30 => Some((InstructionType::BMI, Addressing::Relative(0))),
        0x31 => Some((InstructionType::AND, Addressing::IndirectY(0))),
        0x35 => Some((InstructionType::AND, Addressing::ZeropageX(0))),
        0x36 => Some((InstructionType::ROL, Addressing::ZeropageX(0))),
        0x38 => Some((InstructionType::SEC, Addressing::Implied)),
        0x39 => Some((InstructionType::AND, Addressing::AbsoluteY(0))),
        0x3D => Some((InstructionType::AND, Addressing::AbsoluteX(0))),
        0x3E => Some((InstructionType::ROL, Addressing::AbsoluteX(0))),
        0x40 => Some((InstructionType::RTI, Addressing::Implied)),
        0x41 => Some((InstructionType::EOR, Addressing::IndirectX(0))),
        0x45 => Some((InstructionType::EOR, Addressing::Zeropage(0))),
        0x46 => Some((InstructionType::LSR, Addressing::Zeropage(0))),
        0x48 => Some((InstructionType::PHA, Addressing::Implied)),
        0x49 => Some((InstructionType::EOR, Addressing::Immediate(0))),
        0x4A => Some((InstructionType::LSR, Addressing::Accumulator)),
        0x4C => Some((InstructionType::JMP, Addressing::Absolute(0))),
        0x4D => Some((InstructionType::EOR, Addressing::Absolute(0))),
        0x4E => Some((InstructionType::LSR, Addressing::Absolute(0))),
        0x50 => Some((InstructionType::BVC, Addressing::Relative(0))),
        0x51 => Some((InstructionType::EOR, Addressing::IndirectY(0))),
        0x55 => Some((InstructionType::EOR, Addressing::ZeropageX(0))),
        0x56 => Some((InstructionType::LSR, Addressing::ZeropageX(0))),
        0x58 => Some((InstructionType::CLI, Addressing::Implied)),
        0x59 => Some((InstructionType::EOR, Addressing::AbsoluteY(0))),
        0x5D => Some((InstructionType::EOR, Addressing::AbsoluteX(0))),
        0x5E => Some((InstructionType::LSR, Addressing::AbsoluteX(0))),
        0x60 => Some((InstructionType::RTS, Addressing::Implied)),
        0x61 => Some((InstructionType::ADC, Addressing::IndirectX(0))),
        0x65 => Some((InstructionType::ADC, Addressing::Zeropage(0))),
        0x66 => Some((InstructionType::ROR, Addressing::Zeropage(0))),
        0x68 => Some((InstructionType::PLA, Addressing::Implied)),
        0x69 => Some((InstructionType::ADC, Addressing::Immediate(0))),
        0x6A => Some((InstructionType::ROR, Addressing::Accumulator)),
        0x6C => Some((InstructionType::JMP, Addressing::Indirect(0))),
        0x6D => Some((InstructionType::ADC, Addressing::Absolute(0))),
        0x6E => Some((InstructionType::ROR, Addressing::Absolute(0))),
        0x70 => Some((InstructionType::BVS, Addressing::Relative(0))),
        0x71 => Some((InstructionType::ADC, Addressing::IndirectY(0))),
        0x75 => Some((InstructionType::ADC, Addressing::ZeropageX(0))),
        0x76 => Some((InstructionType::ROR, Addressing::ZeropageX(0))),
        0x78 => Some((InstructionType::SEI, Addressing::Implied)),
        0x79 => Some((InstructionType::ADC, Addressing::AbsoluteY(0))),
        0x7D => Some((InstructionType::ADC, Addressing::AbsoluteX(0))),
        0x7E => Some((InstructionType::ROR, Addressing::AbsoluteX(0))),
        0x81 => Some((InstructionType::STA, Addressing::IndirectX(0))),
        0x84 => Some((InstructionType::STY, Addressing::Zeropage(0))),
        0x85 => Some((InstructionType::STA, Addressing::Zeropage(0))),
        0x86 => Some((InstructionType::STX, Addressing::Zeropage(0))),
        0x88 => Some((InstructionType::DEY, Addressing::Implied)),
        0x8A => Some((InstructionType::TXA, Addressing::Implied)),
        0x8C => Some((InstructionType::STY, Addressing::Absolute(0))),
        0x8D => Some((InstructionType::STA, Addressing::Absolute(0))),
        0x8E => Some((InstructionType::STX, Addressing::Absolute(0))),
        0x90 => Some((InstructionType::BCC, Addressing::Relative(0))),
        0x91 => Some((InstructionType::STA, Addressing::IndirectY(0))),
        0x94 => Some((InstructionType::STY, Addressing::ZeropageX(0))),
        0x95 => Some((InstructionType::STA, Addressing::ZeropageX(0))),
        0x96 => Some((InstructionType::STX, Addressing::ZeropageY(0))),
        0x98 => Some((InstructionType::TYA, Addressing::Implied)),
        0x99 => Some((InstructionType::STA, Addressing::AbsoluteY(0))),
        0x9A => Some((InstructionType::TXS, Addressing::Implied)),
        0x9D => Some((InstructionType::STA, Addressing::AbsoluteX(0))),
        0xA0 => Some((InstructionType::LDY, Addressing::Immediate(0))),
        0xA1 => Some((InstructionType::LDA, Addressing::IndirectX(0))),
        0xA2 => Some((InstructionType::LDX, Addressing::Immediate(0))),
        0xA4 => Some((InstructionType::LDY, Addressing::Zeropage(0))),
        0xA5 => Some((InstructionType::LDA, Addressing::Zeropage(0))),
        0xA6 => Some((InstructionType::LDX, Addressing::Zeropage(0))),
        0xA8 => Some((InstructionType::TAY, Addressing::Implied)),
        0xA9 => Some((InstructionType::LDA, Addressing::Immediate(0))),
        0xAA => Some((InstructionType::TAX, Addressing::Implied)),
        0xAC => Some((InstructionType::LDY, Addressing::Absolute(0))),
        0xAD => Some((InstructionType::LDA, Addressing::Absolute(0))),
        0xAE => Some((InstructionType::LDX, Addressing::Absolute(0))),
        0xB0 => Some((InstructionType::BCS, Addressing::Relative(0))),
        0xB1 => Some((InstructionType::LDA, Addressing::IndirectY(0))),
        0xB4 => Some((InstructionType::LDY, Addressing::ZeropageX(0))),
        0xB5 => Some((InstructionType::LDA, Addressing::ZeropageX(0))),
        0xB6 => Some((InstructionType::LDX, Addressing::ZeropageY(0))),
        0xB8 => Some((InstructionType::CLV, Addressing::Implied)),
        0xB9 => Some((InstructionType::LDA, Addressing::AbsoluteY(0))),
        0xBA => Some((InstructionType::TSX, Addressing::Implied)),
        0xBC => Some((InstructionType::LDY, Addressing::AbsoluteX(0))),
        0xBD => Some((InstructionType::LDA, Addressing::AbsoluteX(0))),
        0xBE => Some((InstructionType::LDX, Addressing::AbsoluteY(0))),
        0xC0 => Some((InstructionType::CPY, Addressing::Immediate(0))),
        0xC1 => Some((InstructionType::CMP, Addressing::IndirectX(0))),
        0xC4 => Some((InstructionType::CPY, Addressing::Zeropage(0))),
        0xC5 => Some((InstructionType::CMP, Addressing::Zeropage(0))),
        0xC6 => Some((InstructionType::DEC, Addressing::Zeropage(0))),
        0xC8 => Some((InstructionType::INY, Addressing::Implied)),
        0xC9 => Some((InstructionType::CMP, Addressing::Immediate(0))),
        0xCA => Some((InstructionType::DEX, Addressing::Implied)),
        0xCC => Some((InstructionType::CPY, Addressing::Absolute(0))),
        0xCD => Some((InstructionType::CMP, Addressing::Absolute(0))),
        0xCE => Some((InstructionType::DEC, Addressing::Absolute(0))),
        0xD0 => Some((InstructionType::BNE, Addressing::Relative(0))),
        0xD1 => Some((InstructionType::CMP, Addressing::IndirectY(0))),
        0xD5 => Some((InstructionType::CMP, Addressing::ZeropageX(0))),
        0xD6 => Some((InstructionType::DEC, Addressing::ZeropageX(0))),
        0xD8 => Some((InstructionType::CLD, Addressing::Implied)),
        0xD9 => Some((InstructionType::CMP, Addressing::AbsoluteY(0))),
        0xDD => Some((InstructionType::CMP, Addressing::AbsoluteX(0))),
        0xDE => Some((InstructionType::DEC, Addressing::AbsoluteX(0))),
        0xE0 => Some((InstructionType::CPX, Addressing::Immediate(0))),
        0xE1 => Some((InstructionType::SBC, Addressing::IndirectX(0))),
        0xE4 => Some((InstructionType::CPX, Addressing::Zeropage(0))),
        0xE5 => Some((InstructionType::SBC, Addressing::Zeropage(0))),
        0xE6 => Some((InstructionType::INC, Addressing::Zeropage(0))),
        0xE8 => Some((InstructionType::INX, Addressing::Implied)),
        0xE9 => Some((InstructionType::SBC, Addressing::Immediate(0))),
        0xEA => Some((InstructionType::NOP, Addressing::Implied)),
        0xEC => Some((InstructionType::CPX, Addressing::Absolute(0))),
        0xED => Some((InstructionType::SBC, Addressing::Absolute(0))),
        0xEE => Some((InstructionType::INC, Addressing::Absolute(0))),
        0xF0 => Some((InstructionType::BEQ, Addressing::Relative(0))),
        0xF1 => Some((InstructionType::SBC, Addressing::IndirectY(0))),
        0xF5 => Some((InstructionType::SBC, Addressing::ZeropageX(0))),
        0xF6 => Some((InstructionType::INC, Addressing::ZeropageX(0))),
        0xF8 => Some((InstructionType::SED, Addressing::Implied)),
        0xF9 => Some((InstructionType::SBC, Addressing::AbsoluteY(0))),
        0xFD => Some((InstructionType::SBC, Addressing::AbsoluteX(0))),
        0xFE => Some((InstructionType::INC, Addressing::AbsoluteX(0))),
        _ => None,
    }
}

/// Reads the byte under `cursor` and moves the cursor to the next address.
fn next_byte<B: DataBus>(bus: &B, cursor: &mut u16) -> (byte: u8)
    ensures
        byte == bus.byte_at(*old(cursor)),
        *final(cursor) == next_address(*old(cursor)),
{
    let byte = bus.get(*cursor);
    *cursor = cursor.wrapping_add(1);
    byte
}

/// Reads the little-endian word under `cursor` and moves the cursor past it.
fn next_word<B: DataBus>(bus: &B, cursor: &mut u16) -> (word: u16)
    ensures
        word == word_of(
            bus.byte_at(*old(cursor)),
            bus.byte_at(next_address(*old(cursor))),
        ),
        *final(cursor) == advance(*old(cursor), 2),
{
    let low = next_byte(bus, cursor);
    let high = next_byte(bus, cursor);
    low as u16 + (high as u16) * 0x100
}

impl Instruction {
    /// Decodes the instruction that starts with `opcode`. The operand bytes
    /// that its shape asks for are pulled from `bus` at `cursor`, which moves
    /// past them: none, one, or two that form a little-endian word. An opcode
    /// outside the documented set is reported and leaves the cursor alone.
    pub fn read_instruction<B: DataBus>(opcode: u8, bus: &B, cursor: &mut u16) -> (decoded: Result<
        Instruction,
        CpuError,
    >)
        ensures
            match decoded {
                Ok(instruction) => {
                    &&& decodes_to(
                        opcode,
                        bus.byte_at(*old(cursor)),
                        bus.byte_at(next_address(*old(cursor))),
                        instruction,
                    )
                    &&& *final(cursor) == advance(*old(cursor), operand_len(instruction.addressing))
                },
                Err(error) => {
                    &&& error == CpuError::UnknownOpcode(opcode)
                    &&& !is_legal(opcode)
                    &&& *final(cursor) == *old(cursor)
                },
            },
    {
        let (instruction_type, shape) = match lookup(opcode) {
            Some(entry) => entry,
            None => {
                return Err(CpuError::UnknownOpcode(opcode));
            },
        };
        let addressing = match shape {
            Addressing::Implied => Addressing::Implied,
            Addressing::Accumulator => Addressing::Accumulator,
            Addressing::Relative(_) => Addressing::Relative(next_byte(bus, cursor)),
            Addressing::Immediate(_) => Addressing::Immediate(next_byte(bus, cursor)),
            Addressing::Zeropage(_) => Addressing::Zeropage(next_byte(bus, cursor)),
            Addressing::ZeropageX(_) => Addressing::ZeropageX(next_byte(bus, cursor)),
            Addressing::ZeropageY(_) => Addressing::ZeropageY(next_byte(bus, cursor)),
            Addressing::IndirectX(_) => Addressing::IndirectX(next_byte(bus, cursor)),
            Addressing::IndirectY(_) => Addressing::IndirectY(next_byte(bus, cursor)),
            Addressing::Absolute(_) => Addressing::Absolute(next_word(bus, cursor)),
            Addressing::AbsoluteX(_) => Addressing::AbsoluteX(next_word(bus, cursor)),
            Addressing::AbsoluteY(_) => Addressing::AbsoluteY(next_word(bus, cursor)),
            Addressing::Indirect(_) => Addressing::Indirect(next_word(bus, cursor)),
        };
        Ok(Instruction { instruction_type, addressing })
    }
}

} // verus!
