//! Instructions: an operation paired with the addressing mode that carries
//! its operand, and the opcode that encodes each legal pairing.

use super::addressable_bus::word_of;
use vstd::prelude::*;

pub mod mapping;

verus! {

/// The operations of the documented instruction set, by mnemonic.
#[derive(Clone, Copy, Debug, PartialEq, Eq)]
pub enum InstructionType {
    ADC,
    AND,
    ASL,
    BCC,
    BCS,
    BEQ,
    BIT,
    BMI,
    BNE,
    BPL,
    BRK,
    BVC,
    BVS,
    CLC,
    CLD,
    CLI,
    CLV,
    CMP,
    CPX,
    CPY,
    DEC,
    DEX,
    DEY,
    EOR,
    INC,
    INX,
    INY,
    JMP,
    JSR,
    LDA,
    LDX,
    LDY,
    LSR,
    NOP,
    ORA,
    PHA,
    PHP,
    PLA,
    PLP,
    ROL,
    ROR,
    RTI,
    RTS,
    SBC,
    SEC,
    SED,
    SEI,
    STA,
    STX,
    STY,
    TAX,
    TAY,
    TSX,
    TXA,
    TXS,
    TYA,
}

/// How an instruction finds its operand. Each shape carries the raw operand
/// bytes that followed the opcode: none, one, or two as a little-endian word.
#[derive(Clone, Copy, Debug, PartialEq, Eq)]
pub enum Addressing {
    /// The operation names its own operand.
    Implied,
    /// The operand is the accumulator.
    Accumulator,
    /// A branch target, as a signed distance from the next instruction.
    Relative(u8),
    /// The operand is the byte itself.
    Immediate(u8),
    /// An address in page zero.
    Zeropage(u8),
    /// An address in page zero, indexed by X within the page.
    ZeropageX(u8),
    /// An address in page zero, indexed by Y within the page.
    ZeropageY(u8),
    /// A full address.
    Absolute(u16),
    /// A full address, indexed by X.
    AbsoluteX(u16),
    /// A full address, indexed by Y.
    AbsoluteY(u16),
    /// The address of a pointer to the target.
    Indirect(u16),
    /// A pointer in page zero, found after indexing by X.
    IndirectX(u8),
    /// A pointer in page zero, indexed by Y after it is read.
    IndirectY(u8),
}

/// One decoded instruction.
#[derive(Clone, Copy, Debug, PartialEq, Eq)]
pub struct Instruction {
    pub instruction_type: InstructionType,
    pub addressing: Addressing,
}

/// The number of operand bytes that follow the opcode for a shape.
pub open spec fn operand_len(mode: Addressing) -> int {
    match mode {
        Addressing::Implied | Addressing::Accumulator => 0,
        Addressing::Relative(_)
        | Addressing::Immediate(_)
        | Addressing::Zeropage(_)
        | Addressing::ZeropageX(_)
        | Addressing::ZeropageY(_)
        | Addressing::IndirectX(_)
        | Addressing::IndirectY(_) => 1,
        Addressing::Absolute(_)
        | Addressing::AbsoluteX(_)
        | Addressing::AbsoluteY(_)
        | Addressing::Indirect(_) => 2,
    }
}

impl Addressing {
    /// The number of operand bytes of this shape.
    pub fn operand_size(&self) -> (size: u16)
        ensures
            size == operand_len(*self),
    {
        match self {
            Addressing::Implied | Addressing::Accumulator => 0,
            Addressing::Relative(_)
            | Addressing::Immediate(_)
            | Addressing::Zeropage(_)
            | Addressing::ZeropageX(_)
            | Addressing::ZeropageY(_)
            | Addressing::IndirectX(_)
            | Addressing::IndirectY(_) => 1,
            Addressing::Absolute(_)
            | Addressing::AbsoluteX(_)
            | Addressing::AbsoluteY(_)
            | Addressing::Indirect(_) => 2,
        }
    }
}

/// The shape of `mode` filled from the bytes that follow the opcode: a
/// one-byte shape takes `first`, a two-byte shape takes the little-endian word
/// of `first` and `second`, and a shape without operand stays as it is.
pub open spec fn with_operand(mode: Addressing, first: u8, second: u8) -> Addressing {
    match mode {
        Addressing::Implied => Addressing::Implied,
        Addressing::Accumulator => Addressing::Accumulator,
        Addressing::Relative(_) => Addressing::Relative(first),
        Addressing::Immediate(_) => Addressing::Immediate(first),
        Addressing::Zeropage(_) => Addressing::Zeropage(first),
        Addressing::ZeropageX(_) => Addressing::ZeropageX(first),
        Addressing::ZeropageY(_) => Addressing::ZeropageY(first),
        Addressing::IndirectX(_) => Addressing::IndirectX(first),
        Addressing::IndirectY(_) => Addressing::IndirectY(first),
        Addressing::Absolute(_) => Addressing::Absolute(word_of(first, second)),
        Addressing::AbsoluteX(_) => Addressing::AbsoluteX(word_of(first, second)),
        Addressing::AbsoluteY(_) => Addressing::AbsoluteY(word_of(first, second)),
        Addressing::Indirect(_) => Addressing::Indirect(word_of(first, second)),
    }
}

/// Whether two modes have the same shape, whatever their operands.
pub open spec fn same_shape(a: Addressing, b: Addressing) -> bool {
    with_operand(a, 0, 0) == with_operand(b, 0, 0)
}

/// The encoding of an operation that takes no operand: `opcode` for the
/// implied shape, and nothing for any other.
pub open spec fn implied(mode: Addressing, opcode: u8) -> Option<u8> {
    if mode is Implied {
        Some(opcode)
    } else {
        None
    }
}

/// The encoding of a branch: `opcode` for the relative shape, and nothing for
/// any other.
pub open spec fn relative(mode: Addressing, opcode: u8) -> Option<u8> {
    if mode is Relative {
        Some(opcode)
    } else {
        None
    }
}

/// The opcode that encodes `operation` with an operand of the shape of
/// `mode`, or `None` where the instruction set has no such pairing. The
/// operand that `mode` carries plays no part.
pub open spec fn opcode_for(operation: InstructionType, mode: Addressing) -> Option<u8> {
    match operation {
        InstructionType::ADC => match mode {
            Addressing::Immediate(_) => Some(0x69),
            Addressing::Zeropage(_) => Some(0x65),
            Addressing::ZeropageX(_) => Some(0x75),
            Addressing::Absolute(_) => Some(0x6D),
            Addressing::AbsoluteX(_) => Some(0x7D),
            Addressing::AbsoluteY(_) => Some(0x79),
            Addressing::IndirectX(_) => Some(0x61),
            Addressing::IndirectY(_) => Some(0x71),
            _ => None,
        },
        InstructionType::AND => match mode {
            Addressing::Immediate(_) => Some(0x29),
            Addressing::Zeropage(_) => Some(0x25),
            Addressing::ZeropageX(_) => Some(0x35),
            Addressing::Absolute(_) => Some(0x2D),
            Addressing::AbsoluteX(_) => Some(0x3D),
            Addressing::AbsoluteY(_) => Some(0x39),
            Addressing::IndirectX(_) => Some(0x21),
            Addressing::IndirectY(_) => Some(0x31),
            _ => None,
        },
        InstructionType::ASL => match mode {
            Addressing::Accumulator => Some(0x0A),
            Addressing::Zeropage(_) => Some(0x06),
            Addressing::ZeropageX(_) => Some(0x16),
            Addressing::Absolute(_) => Some(0x0E),
            Addressing::AbsoluteX(_) => Some(0x1E),
            _ => None,
        },
        InstructionType::BIT => match mode {
            Addressing::Zeropage(_) => Some(0x24),
            Addressing::Absolute(_) => Some(0x2C),
            _ => None,
        },
        InstructionType::CMP => match mode {
            Addressing::Immediate(_) => Some(0xC9),
            Addressing::Zeropage(_) => Some(0xC5),
            Addressing::ZeropageX(_) => Some(0xD5),
            Addressing::Absolute(_) => Some(0xCD),
            Addressing::AbsoluteX(_) => Some(0xDD),
            Addressing::AbsoluteY(_) => Some(0xD9),
            Addressing::IndirectX(_) => Some(0xC1),
            Addressing::IndirectY(_) => Some(0xD1),
            _ => None,
        },
        InstructionType::CPX => match mode {
            Addressing::Immediate(_) => Some(0xE0),
            Addressing::Zeropage(_) => Some(0xE4),
            Addressing::Absolute(_) => Some(0xEC),
            _ => None,
        },
        InstructionType::CPY => match mode {
            Addressing::Immediate(_) => Some(0xC0),
            Addressing::Zeropage(_) => Some(0xC4),
            Addressing::Absolute(_) => Some(0xCC),
            _ => None,
        },
        InstructionType::DEC => match mode {
            Addressing::Zeropage(_) => Some(0xC6),
            Addressing::ZeropageX(_) => Some(0xD6),
            Addressing::Absolute(_) => Some(0xCE),
            Addressing::AbsoluteX(_) => Some(0xDE),
            _ => None,
        },
        InstructionType::EOR => match mode {
            Addressing::Immediate(_) => Some(0x49),
            Addressing::Zeropage(_) => Some(0x45),
            Addressing::ZeropageX(_) => Some(0x55),
            Addressing::Absolute(_) => Some(0x4D),
            Addressing::AbsoluteX(_) => Some(0x5D),
            Addressing::AbsoluteY(_) => Some(0x59),
            Addressing::IndirectX(_) => Some(0x41),
            Addressing::IndirectY(_) => Some(0x51),
            _ => None,
        },
        InstructionType::INC => match mode {
            Addressing::Zeropage(_) => Some(0xE6),
            Addressing::ZeropageX(_) => Some(0xF6),
            Addressing::Absolute(_) => Some(0xEE),
            Addressing::AbsoluteX(_) => Some(0xFE),
            _ => None,
        },
        InstructionType::JMP => match mode {
            Addressing::Absolute(_) => Some(0x4C),
            Addressing::Indirect(_) => Some(0x6C),
            _ => None,
        },
        InstructionType::JSR => match mode {
            Addressing::Absolute(_) => Some(0x20),
            _ => None,
        },
        InstructionType::LDA => match mode {
            Addressing::Immediate(_) => Some(0xA9),
            Addressing::Zeropage(_) => Some(0xA5),
            Addressing::ZeropageX(_) => Some(0xB5),
            Addressing::Absolute(_) => Some(0xAD),
            Addressing::AbsoluteX(_) => Some(0xBD),
            Addressing::AbsoluteY(_) => Some(0xB9),
            Addressing::IndirectX(_) => Some(0xA1),
            Addressing::IndirectY(_) => Some(0xB1),
            _ => None,
        },
        InstructionType::LDX => match mode {
            Addressing::Immediate(_) => Some(0xA2),
            Addressing::Zeropage(_) => Some(0xA6),
            Addressing::ZeropageY(_) => Some(0xB6),
            Addressing::Absolute(_) => Some(0xAE),
            Addressing::AbsoluteY(_) => Some(0xBE),
            _ => None,
        },
        InstructionType::LDY => match mode {
            Addressing::Immediate(_) => Some(0xA0),
            Addressing::Zeropage(_) => Some(0xA4),
            Addressing::ZeropageX(_) => Some(0xB4),
            Addressing::Absolute(_) => Some(0xAC),
            Addressing::AbsoluteX(_) => Some(0xBC),
            _ => None,
        },
        InstructionType::LSR => match mode {
            Addressing::Accumulator => Some(0x4A),
            Addressing::Zeropage(_) => Some(0x46),
            Addressing::ZeropageX(_) => Some(0x56),
            Addressing::Absolute(_) => Some(0x4E),
            Addressing::AbsoluteX(_) => Some(0x5E),
            _ => None,
        },
        InstructionType::ORA => match mode {
            Addressing::Immediate(_) => Some(0x09),
            Addressing::Zeropage(_) => Some(0x05),
            Addressing::ZeropageX(_) => Some(0x15),
            Addressing::Absolute(_) => Some(0x0D),
            Addressing::AbsoluteX(_) => Some(0x1D),
            Addressing::AbsoluteY(_) => Some(0x19),
            Addressing::IndirectX(_) => Some(0x01),
            Addressing::IndirectY(_) => Some(0x11),
            _ => None,
        },
        InstructionType::ROL => match mode {
            Addressing::Accumulator => Some(0x2A),
            Addressing::Zeropage(_) => Some(0x26),
            Addressing::ZeropageX(_) => Some(0x36),
            Addressing::Absolute(_) => Some(0x2E),
            Addressing::AbsoluteX(_) => Some(0x3E),
            _ => None,
        },
        InstructionType::ROR => match mode {
            Addressing::Accumulator => Some(0x6A),
            Addressing::Zeropage(_) => Some(0x66),
            Addressing::ZeropageX(_) => Some(0x76),
            Addressing::Absolute(_) => Some(0x6E),
            Addressing::AbsoluteX(_) => Some(0x7E),
            _ => None,
        },
        InstructionType::SBC => match mode {
            Addressing::Immediate(_) => Some(0xE9),
            Addressing::Zeropage(_) => Some(0xE5),
            Addressing::ZeropageX(_) => Some(0xF5),
            Addressing::Absolute(_) => Some(0xED),
            Addressing::AbsoluteX(_) => Some(0xFD),
            Addressing::AbsoluteY(_) => Some(0xF9),
            Addressing::IndirectX(_) => Some(0xE1),
            Addressing::IndirectY(_) => Some(0xF1),
            _ => None,
        },
        InstructionType::STA => match mode {
            Addressing::Zeropage(_) => Some(0x85),
            Addressing::ZeropageX(_) => Some(0x95),
            Addressing::Absolute(_) => Some(0x8D),
            Addressing::AbsoluteX(_) => Some(0x9D),
            Addressing::AbsoluteY(_) => Some(0x99),
            Addressing::IndirectX(_) => Some(0x81),
            Addressing::IndirectY(_) => Some(0x91),
            _ => None,
        },
        InstructionType::STX => match mode {
            Addressing::Zeropage(_) => Some(0x86),
            Addressing::ZeropageY(_) => Some(0x96),
            Addressing::Absolute(_) => Some(0x8E),
            _ => None,
        },
        InstructionType::STY => match mode {
            Addressing::Zeropage(_) => Some(0x84),
            Addressing::ZeropageX(_) => Some(0x94),
            Addressing::Absolute(_) => Some(0x8C),
            _ => None,
        },
        InstructionType::BCC => relative(mode, 0x90),
        InstructionType::BCS => relative(mode, 0xB0),
        InstructionType::BEQ => relative(mode, 0xF0),
        InstructionType::BMI => relative(mode, 0x30),
        InstructionType::BNE => relative(mode, 0xD0),
        InstructionType::BPL => relative(mode, 0x10),
        InstructionType::BVC => relative(mode, 0x50),
        InstructionType::BVS => relative(mode, 0x70),
        InstructionType::BRK => implied(mode, 0x00),
        InstructionType::CLC => implied(mode, 0x18),
        InstructionType::CLD => implied(mode, 0xD8),
        InstructionType::CLI => implied(mode, 0x58),
        InstructionType::CLV => implied(mode, 0xB8),
        InstructionType::DEX => implied(mode, 0xCA),
        InstructionType::DEY => implied(mode, 0x88),
        InstructionType::INX => implied(mode, 0xE8),
        InstructionType::INY => implied(mode, 0xC8),
        InstructionType::NOP => implied(mode, 0xEA),
        InstructionType::PHA => implied(mode, 0x48),
        InstructionType::PHP => implied(mode, 0x08),
        InstructionType::PLA => implied(mode, 0x68),
        InstructionType::PLP => implied(mode, 0x28),
        InstructionType::RTI => implied(mode, 0x40),
        InstructionType::RTS => implied(mode, 0x60),
        InstructionType::SEC => implied(mode, 0x38),
        InstructionType::SED => implied(mode, 0xF8),
        InstructionType::SEI => implied(mode, 0x78),
        InstructionType::TAX => implied(mode, 0xAA),
        InstructionType::TAY => implied(mode, 0xA8),
        InstructionType::TSX => implied(mode, 0xBA),
        InstructionType::TXA => implied(mode, 0x8A),
        InstructionType::TXS => implied(mode, 0x9A),
        InstructionType::TYA => implied(mode, 0x98),
    }
}

/// Whether `opcode` encodes an instruction of the documented set.
pub open spec fn is_legal(opcode: u8) -> bool {
    exists|operation: InstructionType, mode: Addressing|
        opcode_for(operation, mode) == Some(opcode)
}

/// Whether `instruction` is what the bytes `opcode`, `first`, `second` of an
/// instruction stream decode to: its operation and shape are those that
/// `opcode` encodes, and its operand is taken from the bytes that follow.
pub open spec fn decodes_to(opcode: u8, first: u8, second: u8, instruction: Instruction) -> bool {
    &&& opcode_for(instruction.instruction_type, instruction.addressing) == Some(opcode)
    &&& instruction.addressing == with_operand(instruction.addressing, first, second)
}

/// No opcode encodes two different instructions: the operation and the shape
/// of the operand are determined by the opcode.
pub proof fn lemma_opcode_determines_instruction(
    opcode: u8,
    operation1: InstructionType,
    mode1: Addressing,
    operation2: InstructionType,
    mode2: Addressing,
)
    requires
        opcode_for(operation1, mode1) == Some(opcode),
        opcode_for(operation2, mode2) == Some(opcode),
    ensures
        operation1 == operation2,
        same_shape(mode1, mode2),
{
}

/// The bytes of an instruction stream decode to at most one instruction.
pub proof fn lemma_decoding_is_unique(
    opcode: u8,
    first: u8,
    second: u8,
    a: Instruction,
    b: Instruction,
)
    requires
        decodes_to(opcode, first, second, a),
        decodes_to(opcode, first, second, b),
    ensures
        a == b,
{
    lemma_opcode_determines_instruction(
        opcode,
        a.instruction_type,
        a.addressing,
        b.instruction_type,
        b.addressing,
    );
}

} // verus!
