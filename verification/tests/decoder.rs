use cpu6502::cpu::error::CpuError;
use cpu6502::cpu::instruction::{Addressing, Instruction, InstructionType};
use cpu6502::cpu::memory::Memory;

fn decode_at(memory: &Memory, start: u16) -> (Result<Instruction, CpuError>, u16) {
    let mut cursor = start.wrapping_add(1);
    let decoded = Instruction::read_instruction(memory.get(start), memory, &mut cursor);
    (decoded, cursor)
}

fn decode_bytes(bytes: &[u8]) -> (Result<Instruction, CpuError>, u16) {
    let mut memory = Memory::new();
    memory.load_program(0x0400, bytes);
    decode_at(&memory, 0x0400)
}

fn instruction(instruction_type: InstructionType, addressing: Addressing) -> Instruction {
    Instruction { instruction_type, addressing }
}

fn documented_opcodes() -> Vec<(u8, InstructionType, Addressing, u16)> {
    vec![
        (0x00, InstructionType::BRK, Addressing::Implied, 0),
        (0x01, InstructionType::ORA, Addressing::IndirectX(0x34), 1),
        (0x05, InstructionType::ORA, Addressing::Zeropage(0x34), 1),
        (0x06, InstructionType::ASL, Addressing::Zeropage(0x34), 1),
        (0x08, InstructionType::PHP, Addressing::Implied, 0),
        (0x09, InstructionType::ORA, Addressing::Immediate(0x34), 1),
        (0x0A, InstructionType::ASL, Addressing::Accumulator, 0),
        (0x0D, InstructionType::ORA, Addressing::Absolute(0x1234), 2),
        (0x0E, InstructionType::ASL, Addressing::Absolute(0x1234), 2),
        (0x10, InstructionType::BPL, Addressing::Relative(0x34), 1),
        (0x11, InstructionType::ORA, Addressing::IndirectY(0x34), 1),
        (0x15, InstructionType::ORA, Addressing::ZeropageX(0x34), 1),
        (0x16, InstructionType::ASL, Addressing::ZeropageX(0x34), 1),
        (0x18, InstructionType::CLC, Addressing::Implied, 0),
        (0x19, InstructionType::ORA, Addressing::AbsoluteY(0x1234), 2),
        (0x1D, InstructionType::ORA, Addressing::AbsoluteX(0x1234), 2),
        (0x1E, InstructionType::ASL, Addressing::AbsoluteX(0x1234), 2),
        (0x20, InstructionType::JSR, Addressing::Absolute(0x1234), 2),
        (0x21, InstructionType::AND, Addressing::IndirectX(0x34), 1),
        (0x24, InstructionType::BIT, Addressing::Zeropage(0x34), 1),
        (0x25, InstructionType::AND, Addressing::Zeropage(0x34), 1),
        (0x26, InstructionType::ROL, Addressing::Zeropage(0x34), 1),
        (0x28, InstructionType::PLP, Addressing::Implied, 0),
        (0x29, InstructionType::AND, Addressing::Immediate(0x34), 1),
        (0x2A, InstructionType::ROL, Addressing::Accumulator, 0),
        (0x2C, InstructionType::BIT, Addressing::Absolute(0x1234), 2),
        (0x2D, InstructionType::AND, Addressing::Absolute(0x1234), 2),
        (0x2E, InstructionType::ROL, Addressing::Absolute(0x1234), 2),
        (0x30, InstructionType::BMI, Addressing::Relative(0x34), 1),
        (0x31, InstructionType::AND, Addressing::IndirectY(0x34), 1),
        (0x35, InstructionType::AND, Addressing::ZeropageX(0x34), 1),
        (0x36, InstructionType::ROL, Addressing::ZeropageX(0x34), 1),
        (0x38, InstructionType::SEC, Addressing::Implied, 0),
        (0x39, InstructionType::AND, Addressing::AbsoluteY(0x1234), 2),
        (0x3D, InstructionType::AND, Addressing::AbsoluteX(0x1234), 2),
        (0x3E, InstructionType::ROL, Addressing::AbsoluteX(0x1234), 2),
        (0x40, InstructionType::RTI, Addressing::Implied, 0),
        (0x41, InstructionType::EOR, Addressing::IndirectX(0x34), 1),
        (0x45, InstructionType::EOR, Addressing::Zeropage(0x34), 1),
        (0x46, InstructionType::LSR, Addressing::Zeropage(0x34), 1),
        (0x48, InstructionType::PHA, Addressing::Implied, 0),
        (0x49, InstructionType::EOR, Addressing::Immediate(0x34), 1),
        (0x4A, InstructionType::LSR, Addressing::Accumulator, 0),
        (0x4C, InstructionType::JMP, Addressing::Absolute(0x1234), 2),
        (0x4D, InstructionType::EOR, Addressing::Absolute(0x1234), 2),
        (0x4E, InstructionType::LSR, Addressing::Absolute(0x1234), 2),
        (0x50, InstructionType::BVC, Addressing::Relative(0x34), 1),
        (0x51, InstructionType::EOR, Addressing::IndirectY(0x34), 1),
        (0x55, InstructionType::EOR, Addressing::ZeropageX(0x34), 1),
        (0x56, InstructionType::LSR, Addressing::ZeropageX(0x34), 1),
        (0x58, InstructionType::CLI, Addressing::Implied, 0),
        (0x59, InstructionType::EOR, Addressing::AbsoluteY(0x1234), 2),
        (0x5D, InstructionType::EOR, Addressing::AbsoluteX(0x1234), 2),
        (0x5E, InstructionType::LSR, Addressing::AbsoluteX(0x1234), 2),
        (0x60, InstructionType::RTS, Addressing::Implied, 0),
        (0x61, InstructionType::ADC, Addressing::IndirectX(0x34), 1),
        (0x65, InstructionType::ADC, Addressing::Zeropage(0x34), 1),
        (0x66, InstructionType::ROR, Addressing::Zeropage(0x34), 1),
        (0x68, InstructionType::PLA, Addressing::Implied, 0),
        (0x69, InstructionType::ADC, Addressing::Immediate(0x34), 1),
        (0x6A, InstructionType::ROR, Addressing::Accumulator, 0),
        (0x6C, InstructionType::JMP, Addressing::Indirect(0x1234), 2),
        (0x6D, InstructionType::ADC, Addressing::Absolute(0x1234), 2),
        (0x6E, InstructionType::ROR, Addressing::Absolute(0x1234), 2),
        (0x70, InstructionType::BVS, Addressing::Relative(0x34), 1),
        (0x71, InstructionType::ADC, Addressing::IndirectY(0x34), 1),
        (0x75, InstructionType::ADC, Addressing::ZeropageX(0x34), 1),
        (0x76, InstructionType::ROR, Addressing::ZeropageX(0x34), 1),
        (0x78, InstructionType::SEI, Addressing::Implied, 0),
        (0x79, InstructionType::ADC, Addressing::AbsoluteY(0x1234), 2),
        (0x7D, InstructionType::ADC, Addressing::AbsoluteX(0x1234), 2),
        (0x7E, InstructionType::ROR, Addressing::AbsoluteX(0x1234), 2),
        (0x81, InstructionType::STA, Addressing::IndirectX(0x34), 1),
        (0x84, InstructionType::STY, Addressing::Zeropage(0x34), 1),
        (0x85, InstructionType::STA, Addressing::Zeropage(0x34), 1),
        (0x86, InstructionType::STX, Addressing::Zeropage(0x34), 1),
        (0x88, InstructionType::DEY, Addressing::Implied, 0),
        (0x8A, InstructionType::TXA, Addressing::Implied, 0),
        (0x8C, InstructionType::STY, Addressing::Absolute(0x1234), 2),
        (0x8D, InstructionType::STA, Addressing::Absolute(0x1234), 2),
        (0x8E, InstructionType::STX, Addressing::Absolute(0x1234), 2),
        (0x90, InstructionType::BCC, Addressing::Relative(0x34), 1),
        (0x91, InstructionType::STA, Addressing::IndirectY(0x34), 1),
        (0x94, InstructionType::STY, Addressing::ZeropageX(0x34), 1),
        (0x95, InstructionType::STA, Addressing::ZeropageX(0x34), 1),
        (0x96, InstructionType::STX, Addressing::ZeropageY(0x34), 1),
        (0x98, InstructionType::TYA, Addressing::Implied, 0),
        (0x99, InstructionType::STA, Addressing::AbsoluteY(0x1234), 2),
        (0x9A, InstructionType::TXS, Addressing::Implied, 0),
        (0x9D, InstructionType::STA, Addressing::AbsoluteX(0x1234), 2),
        (0xA0, InstructionType::LDY, Addressing::Immediate(0x34), 1),
        (0xA1, InstructionType::LDA, Addressing::IndirectX(0x34), 1),
        (0xA2, InstructionType::LDX, Addressing::Immediate(0x34), 1),
        (0xA4, InstructionType::LDY, Addressing::Zeropage(0x34), 1),
        (0xA5, InstructionType::LDA, Addressing::Zeropage(0x34), 1),
        (0xA6, InstructionType::LDX, Addressing::Zeropage(0x34), 1),
        (0xA8, InstructionType::TAY, Addressing::Implied, 0),
        (0xA9, InstructionType::LDA, Addressing::Immediate(0x34), 1),
        (0xAA, InstructionType::TAX, Addressing::Implied, 0),
        (0xAC, InstructionType::LDY, Addressing::Absolute(0x1234), 2),
        (0xAD, InstructionType::LDA, Addressing::Absolute(0x1234), 2),
        (0xAE, InstructionType::LDX, Addressing::Absolute(0x1234), 2),
        (0xB0, InstructionType::BCS, Addressing::Relative(0x34), 1),
        (0xB1, InstructionType::LDA, Addressing::IndirectY(0x34), 1),
        (0xB4, InstructionType::LDY, Addressing::ZeropageX(0x34), 1),
        (0xB5, InstructionType::LDA, Addressing::ZeropageX(0x34), 1),
        (0xB6, InstructionType::LDX, Addressing::ZeropageY(0x34), 1),
        (0xB8, InstructionType::CLV, Addressing::Implied, 0),
        (0xB9, InstructionType::LDA, Addressing::AbsoluteY(0x1234), 2),
        (0xBA, InstructionType::TSX, Addressing::Implied, 0),
        (0xBC, InstructionType::LDY, Addressing::AbsoluteX(0x1234), 2),
        (0xBD, InstructionType::LDA, Addressing::AbsoluteX(0x1234), 2),
        (0xBE, InstructionType::LDX, Addressing::AbsoluteY(0x1234), 2),
        (0xC0, InstructionType::CPY, Addressing::Immediate(0x34), 1),
        (0xC1, InstructionType::CMP, Addressing::IndirectX(0x34), 1),
        (0xC4, InstructionType::CPY, Addressing::Zeropage(0x34), 1),
        (0xC5, InstructionType::CMP, Addressing::Zeropage(0x34), 1),
        (0xC6, InstructionType::DEC, Addressing::Zeropage(0x34), 1),
        (0xC8, InstructionType::INY, Addressing::Implied, 0),
        (0xC9, InstructionType::CMP, Addressing::Immediate(0x34), 1),
        (0xCA, InstructionType::DEX, Addressing::Implied, 0),
        (0xCC, InstructionType::CPY, Addressing::Absolute(0x1234), 2),
        (0xCD, InstructionType::CMP, Addressing::Absolute(0x1234), 2),
        (0xCE, InstructionType::DEC, Addressing::Absolute(0x1234), 2),
        (0xD0, InstructionType::BNE, Addressing::Relative(0x34), 1),
        (0xD1, InstructionType::CMP, Addressing::IndirectY(0x34), 1),
        (0xD5, InstructionType::CMP, Addressing::ZeropageX(0x34), 1),
        (0xD6, InstructionType::DEC, Addressing::ZeropageX(0x34), 1),
        (0xD8, InstructionType::CLD, Addressing::Implied, 0),
        (0xD9, InstructionType::CMP, Addressing::AbsoluteY(0x1234), 2),
        (0xDD, InstructionType::CMP, Addressing::AbsoluteX(0x1234), 2),
        (0xDE, InstructionType::DEC, Addressing::AbsoluteX(0x1234), 2),
        (0xE0, InstructionType::CPX, Addressing::Immediate(0x34), 1),
        (0xE1, InstructionType::SBC, Addressing::IndirectX(0x34), 1),
        (0xE4, InstructionType::CPX, Addressing::Zeropage(0x34), 1),
        (0xE5, InstructionType::SBC, Addressing::Zeropage(0x34), 1),
        (0xE6, InstructionType::INC, Addressing::Zeropage(0x34), 1),
        (0xE8, InstructionType::INX, Addressing::Implied, 0),
        (0xE9, InstructionType::SBC, Addressing::Immediate(0x34), 1),
        (0xEA, InstructionType::NOP, Addressing::Implied, 0),
        (0xEC, InstructionType::CPX, Addressing::Absolute(0x1234), 2),
        (0xED, InstructionType::SBC, Addressing::Absolute(0x1234), 2),
        (0xEE, InstructionType::INC, Addressing::Absolute(0x1234), 2),
        (0xF0, InstructionType::BEQ, Addressing::Relative(0x34), 1),
        (0xF1, InstructionType::SBC, Addressing::IndirectY(0x34), 1),
        (0xF5, InstructionType::SBC, Addressing::ZeropageX(0x34), 1),
        (0xF6, InstructionType::INC, Addressing::ZeropageX(0x34), 1),
        (0xF8, InstructionType::SED, Addressing::Implied, 0),
        (0xF9, InstructionType::SBC, Addressing::AbsoluteY(0x1234), 2),
        (0xFD, InstructionType::SBC, Addressing::AbsoluteX(0x1234), 2),
        (0xFE, InstructionType::INC, Addressing::AbsoluteX(0x1234), 2),
    ]
}

#[test]
fn every_documented_opcode_decodes_to_its_instruction() {
    let table = documented_opcodes();
    assert_eq!(table.len(), 151);
    for (opcode, instruction_type, addressing, operand_bytes) in table {
        let (decoded, cursor) = decode_bytes(&[opcode, 0x34, 0x12]);
        assert_eq!(decoded, Ok(instruction(instruction_type, addressing)));
        assert_eq!(cursor, 0x0401 + operand_bytes);
    }
}

#[test]
fn every_other_opcode_is_unknown_and_pulls_no_byte() {
    let known: Vec<u8> = documented_opcodes().iter().map(|entry| entry.0).collect();
    let mut unknown = 0;
    for opcode in 0..=255u8 {
        if known.contains(&opcode) {
            continue;
        }
        unknown += 1;
        let (decoded, cursor) = decode_bytes(&[opcode, 0x34, 0x12]);
        assert_eq!(decoded, Err(CpuError::UnknownOpcode(opcode)));
        assert_eq!(cursor, 0x0401);
    }
    assert_eq!(unknown, 105);
}

#[test]
fn an_implied_instruction_pulls_no_operand() {
    let (decoded, cursor) = decode_bytes(&[0xEA, 0xFF, 0xFF]);
    assert_eq!(decoded, Ok(instruction(InstructionType::NOP, Addressing::Implied)));
    assert_eq!(cursor, 0x0401);
}

#[test]
fn an_accumulator_instruction_pulls_no_operand() {
    let (decoded, cursor) = decode_bytes(&[0x0A, 0xFF, 0xFF]);
    assert_eq!(decoded, Ok(instruction(InstructionType::ASL, Addressing::Accumulator)));
    assert_eq!(cursor, 0x0401);
}

#[test]
fn a_one_byte_operand_is_the_next_byte() {
    let (decoded, cursor) = decode_bytes(&[0xA9, 0x05, 0xFF]);
    assert_eq!(decoded, Ok(instruction(InstructionType::LDA, Addressing::Immediate(0x05))));
    assert_eq!(cursor, 0x0402);
    let (decoded, _) = decode_bytes(&[0xD0, 0xFE, 0xFF]);
    assert_eq!(decoded, Ok(instruction(InstructionType::BNE, Addressing::Relative(0xFE))));
    let (decoded, _) = decode_bytes(&[0xA1, 0x40, 0xFF]);
    assert_eq!(decoded, Ok(instruction(InstructionType::LDA, Addressing::IndirectX(0x40))));
    let (decoded, _) = decode_bytes(&[0xB1, 0x41, 0xFF]);
    assert_eq!(decoded, Ok(instruction(InstructionType::LDA, Addressing::IndirectY(0x41))));
}

#[test]
fn a_zero_page_y_operand_is_one_byte() {
    let (decoded, cursor) = decode_bytes(&[0xB6, 0x7C, 0xFF]);
    assert_eq!(decoded, Ok(instruction(InstructionType::LDX, Addressing::ZeropageY(0x7C))));
    assert_eq!(cursor, 0x0402);
    let (decoded, cursor) = decode_bytes(&[0x96, 0x10, 0xFF]);
    assert_eq!(decoded, Ok(instruction(InstructionType::STX, Addressing::ZeropageY(0x10))));
    assert_eq!(cursor, 0x0402);
}

#[test]
fn a_two_byte_operand_is_little_endian() {
    let (decoded, cursor) = decode_bytes(&[0x4C, 0xCD, 0xAB]);
    assert_eq!(decoded, Ok(instruction(InstructionType::JMP, Addressing::Absolute(0xABCD))));
    assert_eq!(cursor, 0x0403);
    let (decoded, _) = decode_bytes(&[0x6C, 0xFF, 0x00]);
    assert_eq!(decoded, Ok(instruction(InstructionType::JMP, Addressing::Indirect(0x00FF))));
    let (decoded, _) = decode_bytes(&[0xBD, 0x00, 0x80]);
    assert_eq!(decoded, Ok(instruction(InstructionType::LDA, Addressing::AbsoluteX(0x8000))));
    let (decoded, _) = decode_bytes(&[0xB9, 0x01, 0x02]);
    assert_eq!(decoded, Ok(instruction(InstructionType::LDA, Addressing::AbsoluteY(0x0201))));
}

#[test]
fn operands_wrap_around_the_end_of_the_address_space() {
    let mut memory = Memory::new();
    memory.set(0xFFFE, 0xAD);
    memory.set(0xFFFF, 0x11);
    memory.set(0x0000, 0x22);
    let (decoded, cursor) = decode_at(&memory, 0xFFFE);
    assert_eq!(decoded, Ok(instruction(InstructionType::LDA, Addressing::Absolute(0x2211))));
    assert_eq!(cursor, 0x0001);
    memory.set(0xFFFF, 0xA9);
    memory.set(0x0000, 0x33);
    let (decoded, cursor) = decode_at(&memory, 0xFFFF);
    assert_eq!(decoded, Ok(instruction(InstructionType::LDA, Addressing::Immediate(0x33))));
    assert_eq!(cursor, 0x0001);
}

#[test]
fn an_unmapped_opcode_is_not_taken_for_a_no_operation() {
    let (decoded, cursor) = decode_bytes(&[0xFF, 0x00, 0x00]);
    assert_eq!(decoded, Err(CpuError::UnknownOpcode(0xFF)));
    assert_eq!(cursor, 0x0401);
    let (decoded, _) = decode_bytes(&[0x02]);
    assert_eq!(decoded, Err(CpuError::UnknownOpcode(0x02)));
    let (decoded, _) = decode_bytes(&[0x89]);
    assert_eq!(decoded, Err(CpuError::UnknownOpcode(0x89)));
}

#[test]
fn operand_sizes_follow_the_shape() {
    assert_eq!(Addressing::Implied.operand_size(), 0);
    assert_eq!(Addressing::Accumulator.operand_size(), 0);
    assert_eq!(Addressing::Relative(1).operand_size(), 1);
    assert_eq!(Addressing::Immediate(1).operand_size(), 1);
    assert_eq!(Addressing::Zeropage(1).operand_size(), 1);
    assert_eq!(Addressing::ZeropageX(1).operand_size(), 1);
    assert_eq!(Addressing::ZeropageY(1).operand_size(), 1);
    assert_eq!(Addressing::IndirectX(1).operand_size(), 1);
    assert_eq!(Addressing::IndirectY(1).operand_size(), 1);
    assert_eq!(Addressing::Absolute(1).operand_size(), 2);
    assert_eq!(Addressing::AbsoluteX(1).operand_size(), 2);
    assert_eq!(Addressing::AbsoluteY(1).operand_size(), 2);
    assert_eq!(Addressing::Indirect(1).operand_size(), 2);
}
