//! The execution engine: what each instruction does, and the processor step
//! that fetches one instruction and carries it out.

use super::addressable_bus::{advance, word_at, DataBus};
use super::addressing::{effective_address, operand, stored};
use super::error::CpuError;
use super::instruction::{is_legal, operand_len, Addressing, Instruction, InstructionType};
use super::memops::{popped, popped_word, pushed, pushed_word};
use super::shifting::{carry_value, rotate_left, rotate_right, rotated_left, rotated_right};
use super::status::{ProcessorStatus, StatusFlag};
use super::{
    after_fetch, compared_with, fetches, interrupted, lemma_sum_with_carry_is_modular,
    lemma_value_flags, status_pulled, sum_with_carry, with_value_flags, Cpu, CpuState, VECTOR_NMI,
};
use vstd::prelude::*;

verus! {

/// The address of the opcode of the instruction that has just been fetched
/// with an operand of the shape of `mode`.
pub open spec fn instruction_start(s: CpuState, mode: Addressing) -> u16 {
    advance(s.program_counter, -(1 + operand_len(mode)))
}

/// `status` as the processor pushes it on its own initiative: with Ignored
/// and Break set.
pub open spec fn pushed_status(status: ProcessorStatus) -> ProcessorStatus {
    status.with_flag(StatusFlag::Ignored, true).with_flag(StatusFlag::Break, true)
}

/// Whether the branch `operation` is taken under `status`. Each branch tests
/// one flag, set or clear.
pub open spec fn branch_taken(operation: InstructionType, status: ProcessorStatus) -> bool {
    match operation {
        InstructionType::BCC => !status.is_set(StatusFlag::Carry),
        InstructionType::BCS => status.is_set(StatusFlag::Carry),
        InstructionType::BNE => !status.is_set(StatusFlag::Zero),
        InstructionType::BEQ => status.is_set(StatusFlag::Zero),
        InstructionType::BPL => !status.is_set(StatusFlag::Negative),
        InstructionType::BMI => status.is_set(StatusFlag::Negative),
        InstructionType::BVC => !status.is_set(StatusFlag::Overflow),
        InstructionType::BVS => status.is_set(StatusFlag::Overflow),
        _ => false,
    }
}

/// The state after a branch: at the relative target when taken, else as it
/// was.
pub open spec fn branched(s: CpuState, taken: bool, mode: Addressing) -> CpuState {
    if taken {
        CpuState { program_counter: effective_address(s, mode), ..s }
    } else {
        s
    }
}

/// The state with `value` in the accumulator and Negative and Zero
/// describing it.
pub open spec fn with_accumulator(s: CpuState, value: u8) -> CpuState {
    CpuState { accumulator: value, status: with_value_flags(s.status, value), ..s }
}

/// The state with `value` in the X register and Negative and Zero describing
/// it.
pub open spec fn with_x_register(s: CpuState, value: u8) -> CpuState {
    CpuState { x_register: value, status: with_value_flags(s.status, value), ..s }
}

/// The state with `value` in the Y register and Negative and Zero describing
/// it.
pub open spec fn with_y_register(s: CpuState, value: u8) -> CpuState {
    CpuState { y_register: value, status: with_value_flags(s.status, value), ..s }
}

/// The state with `flag` set or cleared.
pub open spec fn with_status_flag(s: CpuState, flag: StatusFlag, set: bool) -> CpuState {
    CpuState { status: s.status.with_flag(flag, set), ..s }
}

/// The state after the accumulator takes the sum of `x`, `y` and the carry.
pub open spec fn accumulated(s: CpuState, x: u8, y: u8) -> CpuState {
    let (sum, status) = sum_with_carry(s.status, x, y);
    with_accumulator(CpuState { status, ..s }, sum)
}

/// `value` one up, wrapping from 255 to 0.
pub open spec fn incremented(value: u8) -> u8 {
    ((value + 1) % 0x100) as u8
}

/// `value` one down, wrapping from 0 to 255.
pub open spec fn decremented(value: u8) -> u8 {
    ((value + 0xFF) % 0x100) as u8
}

/// The state after the byte at the effective address is replaced by `value`
/// and Negative and Zero describe it.
pub open spec fn with_memory_value(s: CpuState, mode: Addressing, value: u8) -> CpuState {
    CpuState {
        memory: s.memory.update(effective_address(s, mode) as int, value),
        status: with_value_flags(s.status, value),
        ..s
    }
}

/// The state after what `mode` designates is replaced by the outcome of a
/// shift or rotation: Carry takes the bit that left, Negative and Zero
/// describe the result.
pub open spec fn shifted(s: CpuState, mode: Addressing, outcome: (u8, bool)) -> CpuState {
    let status = with_value_flags(s.status.with_flag(StatusFlag::Carry, outcome.1), outcome.0);
    stored(CpuState { status, ..s }, mode, outcome.0)
}

/// The state after a bit test of `value` against the accumulator: Negative
/// and Overflow are bits 7 and 6 of `value`, Zero is set when the two have
/// no bit in common.
pub open spec fn bit_tested(s: CpuState, value: u8) -> CpuState {
    CpuState {
        status: s.status.with_flag(StatusFlag::Negative, value & 0x80 != 0).with_flag(
            StatusFlag::Overflow,
            value & 0x40 != 0,
        ).with_flag(StatusFlag::Zero, s.accumulator & value == 0),
        ..s
    }
}

/// The state after a subroutine call: the address of the last byte of the
/// call, two behind its opcode, is pushed, and execution continues at the
/// target.
pub open spec fn called(s: CpuState, mode: Addressing) -> CpuState {
    let saved = pushed_word(s, advance(instruction_start(s, mode), 2));
    CpuState { program_counter: effective_address(saved, mode), ..saved }
}

/// The state after a return from a subroutine: execution continues one
/// behind the address that is popped.
pub open spec fn returned(s: CpuState) -> CpuState {
    let (after, address) = popped_word(s);
    CpuState { program_counter: advance(address, 1), ..after }
}

/// The state after a software interrupt: the address two behind the opcode,
/// which leaves out the byte that follows it, and the status with Ignored
/// and Break set are pushed, interrupts are disabled, and execution
/// continues at the handler of the NMI vector.
pub open spec fn broken(s: CpuState, mode: Addressing) -> CpuState {
    interrupted(
        CpuState { program_counter: advance(instruction_start(s, mode), 2), ..s },
        VECTOR_NMI,
        pushed_status(s.status),
    )
}

/// The state after a return from an interrupt: the status is pulled, then
/// the program counter, which is used as it is.
pub open spec fn returned_from_interrupt(s: CpuState) -> CpuState {
    let (after, address) = popped_word(status_pulled(s));
    CpuState { program_counter: address, ..after }
}

/// The state after the accumulator is pulled from the stack.
pub open spec fn accumulator_pulled(s: CpuState) -> CpuState {
    let (after, value) = popped(s);
    with_accumulator(after, value)
}

/// The state that `instruction` leaves when carried out in state `s`, in
/// which the program counter already stands behind the instruction.
pub open spec fn executed(s: CpuState, instruction: Instruction) -> CpuState {
    let mode = instruction.addressing;
    match instruction.instruction_type {
        InstructionType::ADC => accumulated(s, operand(s, mode), s.accumulator),
        InstructionType::SBC => accumulated(s, s.accumulator, (0xFF - operand(s, mode)) as u8),
        InstructionType::AND => with_accumulator(s, s.accumulator & operand(s, mode)),
        InstructionType::ORA => with_accumulator(s, s.accumulator | operand(s, mode)),
        InstructionType::EOR => with_accumulator(s, s.accumulator ^ operand(s, mode)),
        InstructionType::BIT => bit_tested(s, operand(s, mode)),
        InstructionType::ASL => shifted(s, mode, rotated_left(false, operand(s, mode))),
        InstructionType::LSR => shifted(s, mode, rotated_right(false, operand(s, mode))),
        InstructionType::ROL => shifted(
            s,
            mode,
            rotated_left(s.status.is_set(StatusFlag::Carry), operand(s, mode)),
        ),
        InstructionType::ROR => shifted(
            s,
            mode,
            rotated_right(s.status.is_set(StatusFlag::Carry), operand(s, mode)),
        ),
        InstructionType::CMP => compared_with(s, s.accumulator, mode),
        InstructionType::CPX => compared_with(s, s.x_register, mode),
        InstructionType::CPY => compared_with(s, s.y_register, mode),
        InstructionType::INC => with_memory_value(
            s,
            mode,
            incremented(s.memory[effective_address(s, mode) as int]),
        ),
        InstructionType::DEC => with_memory_value(
            s,
            mode,
            decremented(s.memory[effective_address(s, mode) as int]),
        ),
        InstructionType::INX => with_x_register(s, incremented(s.x_register)),
        InstructionType::INY => with_y_register(s, incremented(s.y_register)),
        InstructionType::DEX => with_x_register(s, decremented(s.x_register)),
        InstructionType::DEY => with_y_register(s, decremented(s.y_register)),
        InstructionType::BCC
        | InstructionType::BCS
        | InstructionType::BEQ
        | InstructionType::BNE
        | InstructionType::BMI
        | InstructionType::BPL
        | InstructionType::BVC
        | InstructionType::BVS => branched(
            s,
            branch_taken(instruction.instruction_type, s.status),
            mode,
        ),
        InstructionType::JMP => CpuState { program_counter: effective_address(s, mode), ..s },
        InstructionType::JSR => called(s, mode),
        InstructionType::RTS => returned(s),
        InstructionType::BRK => broken(s, mode),
        InstructionType::RTI => returned_from_interrupt(s),
        InstructionType::PHA => pushed(s, s.accumulator),
        InstructionType::PHP => pushed(s, pushed_status(s.status).0),
        InstructionType::PLA => accumulator_pulled(s),
        InstructionType::PLP => status_pulled(s),
        InstructionType::LDA => with_accumulator(s, operand(s, mode)),
        InstructionType::LDX => with_x_register(s, operand(s, mode)),
        InstructionType::LDY => with_y_register(s, operand(s, mode)),
        InstructionType::STA => stored(s, mode, s.accumulator),
        InstructionType::STX => stored(s, mode, s.x_register),
        InstructionType::STY => stored(s, mode, s.y_register),
        InstructionType::TAX => with_x_register(s, s.accumulator),
        InstructionType::TAY => with_y_register(s, s.accumulator),
        InstructionType::TSX => with_x_register(s, s.stack_pointer),
        InstructionType::TXA => with_accumulator(s, s.x_register),
        InstructionType::TYA => with_accumulator(s, s.y_register),
        InstructionType::TXS => CpuState { stack_pointer: s.x_register, ..s },
        InstructionType::SEC => with_status_flag(s, StatusFlag::Carry, true),
        InstructionType::SED => with_status_flag(s, StatusFlag::Decimal, true),
        InstructionType::SEI => with_status_flag(s, StatusFlag::Interrupt, true),
        InstructionType::CLC => with_status_flag(s, StatusFlag::Carry, false),
        InstructionType::CLD => with_status_flag(s, StatusFlag::Decimal, false),
        InstructionType::CLI => with_status_flag(s, StatusFlag::Interrupt, false),
        InstructionType::CLV => with_status_flag(s, StatusFlag::Overflow, false),
        InstructionType::NOP => s,
    }
}

/// The state one step after `s` when the step fetches `instruction`.
pub open spec fn stepped(s: CpuState, instruction: Instruction) -> CpuState {
    executed(after_fetch(s, instruction), instruction)
}

/// An addition of an immediate operand is two's-complement addition: the
/// accumulator takes the sum of itself, the operand and the carry modulo
/// 256; Carry tells that the sum went beyond 255, Zero and Negative describe
/// the result, Overflow tells that the carry that came in differs from the
/// one that went out; nothing else changes.
pub proof fn lemma_add_immediate(s: CpuState, operand: u8)
    ensures
        ({
            let carry_in = s.status.is_set(StatusFlag::Carry);
            let sum = s.accumulator + operand + carry_value(carry_in);
            let after = executed(
                s,
                Instruction {
                    instruction_type: InstructionType::ADC,
                    addressing: Addressing::Immediate(operand),
                },
            );
            &&& after.accumulator == sum % 0x100
            &&& after.status.is_set(StatusFlag::Carry) == (sum > 0xFF)
            &&& after.status.is_set(StatusFlag::Zero) == (sum % 0x100 == 0)
            &&& after.status.is_set(StatusFlag::Negative) == (sum % 0x100 >= 0x80)
            &&& after.status.is_set(StatusFlag::Overflow) == (carry_in != (sum > 0xFF))
            &&& forall|flag: StatusFlag|
                flag == StatusFlag::Ignored || flag == StatusFlag::Break || flag
                    == StatusFlag::Decimal || flag == StatusFlag::Interrupt
                    ==> after.status.is_set(flag) == s.status.is_set(flag)
            &&& after == (CpuState { accumulator: after.accumulator, status: after.status, ..s })
        }),
{
    let (sum, added) = sum_with_carry(s.status, operand, s.accumulator);
    lemma_sum_with_carry_is_modular(s.status, operand, s.accumulator);
    assert forall|flag: StatusFlag|
        with_value_flags(added, sum).is_set(flag) == if flag == StatusFlag::Zero {
            sum == 0
        } else if flag == StatusFlag::Negative {
            sum >= 0x80
        } else {
            added.is_set(flag)
        } by {
        lemma_value_flags(added, sum, flag);
    }
}

/// Subtracting an operand is adding its complement: a subtraction of `operand`
/// leaves the state that an addition of 255 less `operand` leaves, whatever
/// the carry.
pub proof fn lemma_subtract_is_add_of_complement(s: CpuState, operand: u8)
    ensures
        executed(
            s,
            Instruction {
                instruction_type: InstructionType::SBC,
                addressing: Addressing::Immediate(operand),
            },
        ) == executed(
            s,
            Instruction {
                instruction_type: InstructionType::ADC,
                addressing: Addressing::Immediate((0xFF - operand) as u8),
            },
        ),
{
}

/// A call and the return that follows it lead to the instruction behind the
/// call: a step that fetches a call to `target` continues at `target`, and
/// when the next step fetches a return, execution is three bytes behind
/// where the call began, with the stack pointer and the registers as they
/// were before the call.
#[verifier::rlimit(50)]
pub proof fn lemma_return_follows_call(s: CpuState, target: u16)
    requires
        s.wf(),
    ensures
        ({
            let call = Instruction {
                instruction_type: InstructionType::JSR,
                addressing: Addressing::Absolute(target),
            };
            let back = Instruction {
                instruction_type: InstructionType::RTS,
                addressing: Addressing::Implied,
            };
            let inside = stepped(s, call);
            let after = stepped(inside, back);
            &&& inside.program_counter == target
            &&& after.program_counter == advance(s.program_counter, 3)
            &&& after == (CpuState {
                program_counter: advance(s.program_counter, 3),
                memory: inside.memory,
                ..s
            })
        }),
{
    let call = Instruction {
        instruction_type: InstructionType::JSR,
        addressing: Addressing::Absolute(target),
    };
    let back = Instruction { instruction_type: InstructionType::RTS, addressing: Addressing::Implied };
    let fetched = after_fetch(s, call);
    let return_address = advance(s.program_counter, 2);
    assert(advance(instruction_start(fetched, call.addressing), 2) == return_address);
    let inside = stepped(s, call);
    assert(inside == (CpuState {
        program_counter: target,
        ..pushed_word(fetched, return_address)
    }));
    assert(popped_word(after_fetch(inside, back)).1 == return_address);
}

/// A software interrupt and the return from it lead back behind the
/// interrupting instruction with the flags restored: a step that fetches a
/// break continues at the handler of the NMI vector with interrupts
/// disabled, and when the next step fetches a return from interrupt, the
/// program counter is the one that the break saved, two bytes behind where
/// the break began, and every flag, Break and Ignored included, is as it was
/// before the break.
#[verifier::rlimit(50)]
pub proof fn lemma_return_follows_break(s: CpuState)
    requires
        s.wf(),
    ensures
        ({
            let interrupt = Instruction {
                instruction_type: InstructionType::BRK,
                addressing: Addressing::Implied,
            };
            let back = Instruction {
                instruction_type: InstructionType::RTI,
                addressing: Addressing::Implied,
            };
            let inside = stepped(s, interrupt);
            let after = stepped(inside, back);
            &&& inside.program_counter == word_at(s.memory, VECTOR_NMI)
            &&& inside.status == s.status.with_flag(StatusFlag::Interrupt, true)
            &&& after.program_counter == advance(s.program_counter, 2)
            &&& forall|flag: StatusFlag|
                flag != StatusFlag::Break && flag != StatusFlag::Ignored ==> after.status.is_set(
                    flag,
                ) == s.status.is_set(flag)
            &&& after == (CpuState {
                program_counter: advance(s.program_counter, 2),
                memory: inside.memory,
                ..s
            })
        }),
{
    let interrupt = Instruction {
        instruction_type: InstructionType::BRK,
        addressing: Addressing::Implied,
    };
    let back = Instruction { instruction_type: InstructionType::RTI, addressing: Addressing::Implied };
    let saved_counter = advance(s.program_counter, 2);
    let saved_status = pushed_status(s.status);
    let inside = stepped(s, interrupt);
    assert(inside == interrupted(
        CpuState { program_counter: saved_counter, ..s },
        VECTOR_NMI,
        saved_status,
    ));
    let fetched = after_fetch(inside, back);
    assert(popped(fetched).1 == saved_status.0);
    let pulled = status_pulled(fetched);
    assert(pulled.status == s.status) by {
        lemma_pull_restores_pushed_status(s.status);
    }
    assert(popped_word(pulled).1 == saved_counter);
}

/// Pulling the status that the processor pushed gives the status back as it
/// was before the push, whether or not interrupts were disabled in between.
proof fn lemma_pull_restores_pushed_status(status: ProcessorStatus)
    ensures
        ProcessorStatus(pushed_status(status).0).with_flag(
            StatusFlag::Ignored,
            status.with_flag(StatusFlag::Interrupt, true).is_set(StatusFlag::Ignored),
        ).with_flag(
            StatusFlag::Break,
            status.with_flag(StatusFlag::Interrupt, true).is_set(StatusFlag::Break),
        ) == status,
{
    let v = status.0;
    assert({
        let pulled = (v | 0x20) | 0x10;
        let ignored = if (v | 0x04) & 0x20 != 0 {
            pulled | 0x20
        } else {
            pulled & !0x20
        };
        let restored = if (v | 0x04) & 0x10 != 0 {
            ignored | 0x10
        } else {
            ignored & !0x10
        };
        restored == v
    }) by (bit_vector);
}

impl<B: DataBus> Cpu<B> {
    /// The address of the opcode of the instruction that has just been
    /// fetched with operand `addr`.
    fn fetched_from(&self, addr: Addressing) -> (start: u16)
        ensures
            start == instruction_start(self@, addr),
    {
        self.program_counter.wrapping_sub(1 + addr.operand_size())
    }

    /// Puts `val` in the accumulator and lets Negative and Zero describe it.
    fn assign_accumulator(&mut self, val: u8)
        ensures
            final(self)@ == with_accumulator(old(self)@, val),
    {
        self.accumulator = val;
        self.flag_value(val);
    }

    /// Puts `val` in the X register and lets Negative and Zero describe it.
    fn assign_x_register(&mut self, val: u8)
        ensures
            final(self)@ == with_x_register(old(self)@, val),
    {
        self.x_register = val;
        self.flag_value(val);
    }

    /// Puts `val` in the Y register and lets Negative and Zero describe it.
    fn assign_y_register(&mut self, val: u8)
        ensures
            final(self)@ == with_y_register(old(self)@, val),
    {
        self.y_register = val;
        self.flag_value(val);
    }

    /// Jumps to the relative target if `taken`.
    fn branch(&mut self, taken: bool, addr: Addressing)
        ensures
            final(self)@ == branched(old(self)@, taken, addr),
    {
        if taken {
            self.program_counter = self.address_addressing(addr);
        }
    }

    /// Writes the outcome of a shift or rotation back and sets the flags.
    fn shift(&mut self, addr: Addressing, res: (u8, bool))
        ensures
            final(self)@ == shifted(old(self)@, addr, res),
    {
        self.processor_status.set_flag(StatusFlag::Carry, res.1);
        self.flag_value(res.0);
        self.write_addressing(addr, res.0);
    }

    /// Replaces the byte at the effective address by `val` and sets the
    /// flags.
    fn assign_memory(&mut self, addr: Addressing, val: u8)
        ensures
            final(self)@ == with_memory_value(old(self)@, addr, val),
    {
        let target = self.address_addressing(addr);
        self.write(target, val);
        self.flag_value(val);
    }

    /// Sets Negative, Overflow and Zero from a bit test of `mem`.
    fn bit_test(&mut self, mem: u8)
        ensures
            final(self)@ == bit_tested(old(self)@, mem),
    {
        self.processor_status.set_flag(StatusFlag::Negative, (mem & 0b1000_0000) != 0);
        self.processor_status.set_flag(StatusFlag::Overflow, (mem & 0b0100_0000) != 0);
        self.processor_status.set_flag(StatusFlag::Zero, (self.accumulator & mem) == 0);
    }

    /// The status as the processor pushes it on its own initiative.
    fn status_to_push(&self) -> (ps: ProcessorStatus)
        ensures
            ps == pushed_status(self@.status),
    {
        let mut ps = self.processor_status;
        ps.set_flag(StatusFlag::Ignored, true);
        ps.set_flag(StatusFlag::Break, true);
        ps
    }

    /// Adds `x`, `y` and the carry into the accumulator.
    fn accumulate(&mut self, x: u8, y: u8)
        ensures
            final(self)@ == accumulated(old(self)@, x, y),
    {
        let sum = self.add_with_carry(x, y);
        self.assign_accumulator(sum);
    }

    /// Calls the subroutine at the target.
    fn call(&mut self, addr: Addressing)
        ensures
            final(self)@ == called(old(self)@, addr),
    {
        let return_address = self.fetched_from(addr).wrapping_add(2);
        self.stack_push_word(return_address);
        assert(self@ == pushed_word(old(self)@, return_address));
        self.program_counter = self.address_addressing(addr);
    }

    /// Returns from a subroutine.
    fn return_from_call(&mut self)
        ensures
            final(self)@ == returned(old(self)@),
    {
        self.program_counter = self.stack_pop_word().wrapping_add(1);
    }

    /// Raises the software interrupt.
    fn software_interrupt(&mut self, addr: Addressing)
        ensures
            final(self)@ == broken(old(self)@, addr),
    {
        let saved = self.status_to_push();
        self.program_counter = self.fetched_from(addr).wrapping_add(2);
        self.enter_handler(VECTOR_NMI, saved);
    }

    /// Returns from an interrupt handler.
    fn return_from_interrupt(&mut self)
        ensures
            final(self)@ == returned_from_interrupt(old(self)@),
    {
        self.pull_status();
        self.program_counter = self.stack_pop_word();
    }

    /// Pulls the accumulator from the stack.
    fn pull_accumulator(&mut self)
        ensures
            final(self)@ == accumulator_pulled(old(self)@),
    {
        let val = self.stack_pop();
        self.assign_accumulator(val);
    }

    /// Sets or clears `flag`.
    fn assign_flag(&mut self, flag: StatusFlag, set: bool)
        ensures
            final(self)@ == with_status_flag(old(self)@, flag, set),
    {
        self.processor_status.set_flag(flag, set);
    }

    /// Jumps to the target.
    fn jump(&mut self, addr: Addressing)
        ensures
            final(self)@ == (CpuState {
                program_counter: effective_address(old(self)@, addr),
                ..old(self)@
            }),
    {
        self.program_counter = self.address_addressing(addr);
    }

    /// Carries out `instruction`, which has just been fetched: the program
    /// counter stands behind it.
    #[verifier::rlimit(50)]
    pub fn execute(&mut self, instruction: Instruction)
        ensures
            final(self)@ == executed(old(self)@, instruction),
    {
        let addr = instruction.addressing;
        match instruction.instruction_type {
            InstructionType::ADC => {
                let mem = self.load_addressing(addr);
                self.accumulate(mem, self.accumulator);
            },
            InstructionType::SBC => {
                let mem = self.load_addressing(addr);
                self.accumulate(self.accumulator, 255 - mem);
            },
            InstructionType::AND => {
                let mem = self.load_addressing(addr);
                self.assign_accumulator(self.accumulator & mem);
            },
            InstructionType::ASL => {
                let res = rotate_left(false, self.load_addressing(addr));
                self.shift(addr, res);
            },
            InstructionType::BIT => {
                let mem = self.load_addressing(addr);
                self.bit_test(mem);
            },
            InstructionType::BCC => {
                let taken = !self.processor_status.get_flag(StatusFlag::Carry);
                self.branch(taken, addr);
            },
            InstructionType::BCS => {
                let taken = self.processor_status.get_flag(StatusFlag::Carry);
                self.branch(taken, addr);
            },
            InstructionType::BEQ => {
                let taken = self.processor_status.get_flag(StatusFlag::Zero);
                self.branch(taken, addr);
            },
            InstructionType::BNE => {
                let taken = !self.processor_status.get_flag(StatusFlag::Zero);
                self.branch(taken, addr);
            },
            InstructionType::BMI => {
                let taken = self.processor_status.get_flag(StatusFlag::Negative);
                self.branch(taken, addr);
            },
            InstructionType::BPL => {
                let taken = !self.processor_status.get_flag(StatusFlag::Negative);
                self.branch(taken, addr);
            },
            InstructionType::BVC => {
                let taken = !self.processor_status.get_flag(StatusFlag::Overflow);
                self.branch(taken, addr);
            },
            InstructionType::BVS => {
                let taken = self.processor_status.get_flag(StatusFlag::Overflow);
                self.branch(taken, addr);
            },
            InstructionType::BRK => self.software_interrupt(addr),
            InstructionType::CLC => self.assign_flag(StatusFlag::Carry, false),
            InstructionType::CLD => self.assign_flag(StatusFlag::Decimal, false),
            InstructionType::CLI => self.assign_flag(StatusFlag::Interrupt, false),
            InstructionType::CLV => self.assign_flag(StatusFlag::Overflow, false),
            InstructionType::CMP => self.cmp(self.accumulator, addr),
            InstructionType::CPX => self.cmp(self.x_register, addr),
            InstructionType::CPY => self.cmp(self.y_register, addr),
            InstructionType::DEC => {
                let val = self.read(self.address_addressing(addr)).wrapping_sub(1);
                self.assign_memory(addr, val);
            },
            InstructionType::DEX => self.assign_x_register(self.x_register.wrapping_sub(1)),
            InstructionType::DEY => self.assign_y_register(self.y_register.wrapping_sub(1)),
            InstructionType::EOR => {
                let mem = self.load_addressing(addr);
                self.assign_accumulator(self.accumulator ^ mem);
            },
            InstructionType::INC => {
                let val = self.read(self.address_addressing(addr)).wrapping_add(1);
                self.assign_memory(addr, val);
            },
            InstructionType::INX => self.assign_x_register(self.x_register.wrapping_add(1)),
            InstructionType::INY => self.assign_y_register(self.y_register.wrapping_add(1)),
            InstructionType::JMP => self.jump(addr),
            InstructionType::JSR => self.call(addr),
            InstructionType::LDA => {
                let mem = self.load_addressing(addr);
                self.assign_accumulator(mem);
            },
            InstructionType::LDX => {
                let mem = self.load_addressing(addr);
                self.assign_x_register(mem);
            },
            InstructionType::LDY => {
                let mem = self.load_addressing(addr);
                self.assign_y_register(mem);
            },
            InstructionType::LSR => {
                let res = rotate_right(false, self.load_addressing(addr));
                self.shift(addr, res);
            },
            InstructionType::STA => self.write_addressing(addr, self.accumulator),
            InstructionType::NOP => (),
            InstructionType::ORA => {
                let mem = self.load_addressing(addr);
                self.assign_accumulator(self.accumulator | mem);
            },
            InstructionType::PHA => self.stack_push(self.accumulator),
            InstructionType::PHP => {
                let ps = self.status_to_push();
                self.stack_push(ps.0);
            },
            InstructionType::PLA => self.pull_accumulator(),
            InstructionType::PLP => self.pull_status(),
            InstructionType::ROL => {
                let res = rotate_left(
                    self.processor_status.get_flag(StatusFlag::Carry),
                    self.load_addressing(addr),
                );
                self.shift(addr, res);
            },
            InstructionType::ROR => {
                let res = rotate_right(
                    self.processor_status.get_flag(StatusFlag::Carry),
                    self.load_addressing(addr),
                );
                self.shift(addr, res);
            },
            InstructionType::RTI => self.return_from_interrupt(),
            InstructionType::RTS => self.return_from_call(),
            InstructionType::SEC => self.assign_flag(StatusFlag::Carry, true),
            InstructionType::SED => self.assign_flag(StatusFlag::Decimal, true),
            InstructionType::SEI => self.assign_flag(StatusFlag::Interrupt, true),
            InstructionType::STX => self.write_addressing(addr, self.x_register),
            InstructionType::STY => self.write_addressing(addr, self.y_register),
            InstructionType::TAX => self.assign_x_register(self.accumulator),
            InstructionType::TAY => self.assign_y_register(self.accumulator),
            InstructionType::TSX => self.assign_x_register(self.stack_pointer),
            InstructionType::TXA => self.assign_accumulator(self.x_register),
            InstructionType::TXS => self.stack_pointer = self.x_register,
            InstructionType::TYA => self.assign_accumulator(self.y_register),
        }
    }

    /// Runs one step: fetches the instruction under the program counter and
    /// carries it out. The instruction is returned. An opcode outside the
    /// documented set ends the step with an error before anything has
    /// changed.
    pub fn tick(&mut self) -> (outcome: Result<Instruction, CpuError>)
        ensures
            match outcome {
                Ok(instruction) => {
                    &&& fetches(old(self)@, instruction)
                    &&& final(self)@ == stepped(old(self)@, instruction)
                },
                Err(error) => {
                    &&& error == CpuError::UnknownOpcode(
                        old(self)@.memory[old(self)@.program_counter as int],
                    )
                    &&& !is_legal(old(self)@.memory[old(self)@.program_counter as int])
                    &&& final(self)@ == old(self)@
                },
            },
    {
        match self.read_instruction() {
            Ok(instruction) => {
                self.execute(instruction);
                Ok(instruction)
            },
            Err(error) => Err(error),
        }
    }
}

} // verus!
