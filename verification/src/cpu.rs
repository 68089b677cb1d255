//! The processor: registers, decoder, addressing and execution.

use self::addressable_bus::{advance, image, word_at, DataBus};
use self::addressing::{operand, signed};
use self::error::CpuError;
use self::instruction::{decodes_to, is_legal, operand_len, Addressing, Instruction};
use self::memops::{popped, pushed, pushed_word};
use self::shifting::carry_value;
use self::status::{ProcessorStatus, StatusFlag};
use vstd::prelude::*;

pub mod addressable_bus;
pub mod addressing;
pub mod error;
pub mod instruction;
pub mod memops;
pub mod memory;
pub mod shifting;
pub mod status;
pub mod tick;

verus! {

/// Where the handler of a non-maskable interrupt is stored.
pub const VECTOR_NMI: u16 = 0xFFFA;

/// Where the address at which execution starts is stored.
pub const VECTOR_RESET: u16 = 0xFFFC;

/// Where the handler of an interrupt request is stored.
pub const VECTOR_IRQ: u16 = 0xFFFE;

/// The state of a machine: the register file and every byte on the bus.
pub struct CpuState {
    pub program_counter: u16,
    pub accumulator: u8,
    pub x_register: u8,
    pub y_register: u8,
    pub stack_pointer: u8,
    pub status: ProcessorStatus,
    pub memory: Seq<u8>,
}

impl CpuState {
    /// Whether the state is one a machine can be in: its memory has one byte
    /// for every address.
    pub open spec fn wf(self) -> bool {
        self.memory.len() == 0x1_0000
    }
}

/// A processor and the bus it owns.
pub struct Cpu<B: DataBus> {
    bus: B,
    program_counter: u16,
    accumulator: u8,
    x_register: u8,
    y_register: u8,
    stack_pointer: u8,
    processor_status: ProcessorStatus,
}

impl<B: DataBus> View for Cpu<B> {
    type V = CpuState;

    closed spec fn view(&self) -> CpuState {
        CpuState {
            program_counter: self.program_counter,
            accumulator: self.accumulator,
            x_register: self.x_register,
            y_register: self.y_register,
            stack_pointer: self.stack_pointer,
            status: self.processor_status,
            memory: image(&self.bus),
        }
    }
}

/// The state of a processor that has just been powered on over `memory`:
/// execution starts where the reset vector points, and every other register
/// and flag is zero.
pub open spec fn power_on(memory: Seq<u8>) -> CpuState {
    CpuState {
        program_counter: word_at(memory, VECTOR_RESET),
        accumulator: 0,
        x_register: 0,
        y_register: 0,
        stack_pointer: 0,
        status: ProcessorStatus(0),
        memory,
    }
}

/// Whether `instruction` is what the bytes under the program counter decode
/// to.
pub open spec fn fetches(s: CpuState, instruction: Instruction) -> bool {
    decodes_to(
        s.memory[s.program_counter as int],
        s.memory[advance(s.program_counter, 1) as int],
        s.memory[advance(s.program_counter, 2) as int],
        instruction,
    )
}

/// The state once `instruction` has been fetched: the program counter stands
/// behind its opcode and operand bytes.
pub open spec fn after_fetch(s: CpuState, instruction: Instruction) -> CpuState {
    CpuState {
        program_counter: advance(s.program_counter, 1 + operand_len(instruction.addressing)),
        ..s
    }
}

/// The sum of `x`, `y` and the carry flag, cut to eight bits, and the status
/// that the addition leaves: Carry is set when the sum did not fit, and
/// Overflow when the carry that came in differs from the carry that went out.
pub open spec fn sum_with_carry(status: ProcessorStatus, x: u8, y: u8) -> (u8, ProcessorStatus) {
    let carry_in = status.is_set(StatusFlag::Carry);
    let sum = x + y + carry_value(carry_in);
    let carry_out = sum > 0xFF;
    (
        (sum % 0x100) as u8,
        status.with_flag(StatusFlag::Carry, carry_out).with_flag(
            StatusFlag::Overflow,
            carry_in != carry_out,
        ),
    )
}

/// `status` with Negative and Zero describing `value`: Negative is its bit 7,
/// Zero is set when it is zero.
pub open spec fn with_value_flags(status: ProcessorStatus, value: u8) -> ProcessorStatus {
    status.with_flag(StatusFlag::Negative, value >= 0x80).with_flag(StatusFlag::Zero, value == 0)
}

/// `status` after `register` is compared with `value`: Carry when the
/// register is not below the value, Zero when they are equal, Negative from
/// bit 7 of the difference taken modulo 256.
pub open spec fn compared(status: ProcessorStatus, register: u8, value: u8) -> ProcessorStatus {
    status.with_flag(StatusFlag::Carry, register >= value).with_flag(
        StatusFlag::Zero,
        register == value,
    ).with_flag(StatusFlag::Negative, (register - value) % 0x100 >= 0x80)
}

/// The state after `register` is compared with what `mode` designates.
pub open spec fn compared_with(s: CpuState, register: u8, mode: Addressing) -> CpuState {
    CpuState { status: compared(s.status, register, operand(s, mode)), ..s }
}

/// The state after control passes to the handler stored at `vector`: the
/// program counter and then the byte `saved` are pushed, interrupts are
/// disabled, and execution continues at the handler.
pub open spec fn interrupted(s: CpuState, vector: u16, saved: ProcessorStatus) -> CpuState {
    CpuState {
        program_counter: word_at(s.memory, vector),
        status: s.status.with_flag(StatusFlag::Interrupt, true),
        ..pushed(pushed_word(s, s.program_counter), saved.0)
    }
}

/// The state after the status is pulled from the stack. The Ignored and
/// Break flags keep the values they had; every other flag comes from the
/// pulled byte.
pub open spec fn status_pulled(s: CpuState) -> CpuState {
    let (after, byte) = popped(s);
    CpuState {
        status: ProcessorStatus(byte).with_flag(
            StatusFlag::Ignored,
            s.status.is_set(StatusFlag::Ignored),
        ).with_flag(StatusFlag::Break, s.status.is_set(StatusFlag::Break)),
        ..after
    }
}

/// Reading a flag after Negative and Zero were set from `value`: Negative is
/// bit 7 of the value, Zero tells that it is zero, and every other flag is as
/// it was.
pub proof fn lemma_value_flags(status: ProcessorStatus, value: u8, flag: StatusFlag)
    ensures
        with_value_flags(status, value).is_set(flag) == if flag == StatusFlag::Zero {
            value == 0
        } else if flag == StatusFlag::Negative {
            value >= 0x80
        } else {
            status.is_set(flag)
        },
{
    status.lemma_with_flag(StatusFlag::Negative, value >= 0x80, flag);
    status.with_flag(StatusFlag::Negative, value >= 0x80).lemma_with_flag(
        StatusFlag::Zero,
        value == 0,
        flag,
    );
}

/// Reading a flag after a comparison: Carry tells that the register is not
/// below the value, Zero that the two are equal, Negative is bit 7 of the
/// difference modulo 256, and every other flag is as it was.
pub proof fn lemma_compared_flags(
    status: ProcessorStatus,
    register: u8,
    value: u8,
    flag: StatusFlag,
)
    ensures
        compared(status, register, value).is_set(flag) == if flag == StatusFlag::Negative {
            (register - value) % 0x100 >= 0x80
        } else if flag == StatusFlag::Zero {
            register == value
        } else if flag == StatusFlag::Carry {
            register >= value
        } else {
            status.is_set(flag)
        },
{
    let first = status.with_flag(StatusFlag::Carry, register >= value);
    let second = first.with_flag(StatusFlag::Zero, register == value);
    status.lemma_with_flag(StatusFlag::Carry, register >= value, flag);
    first.lemma_with_flag(StatusFlag::Zero, register == value, flag);
    second.lemma_with_flag(StatusFlag::Negative, (register - value) % 0x100 >= 0x80, flag);
}

/// Setting Negative and Zero from a value leaves the other six bits of the
/// status byte as they were.
pub proof fn lemma_value_flags_keep_the_rest(status: ProcessorStatus, value: u8)
    ensures
        with_value_flags(status, value).0 & 0x7D == status.0 & 0x7D,
{
    let v = status.0;
    let negative = value >= 0x80;
    let zero = value == 0;
    assert({
        let first = if negative {
            v | 0x80
        } else {
            v & !0x80
        };
        let second = if zero {
            first | 0x02
        } else {
            first & !0x02
        };
        second & 0x7D == v & 0x7D
    }) by (bit_vector);
}

/// A comparison leaves the five bits of the status byte that are not Carry,
/// Zero or Negative as they were.
pub proof fn lemma_compared_keeps_the_rest(status: ProcessorStatus, register: u8, value: u8)
    ensures
        compared(status, register, value).0 & 0x7C == status.0 & 0x7C,
{
    let v = status.0;
    let carry = register >= value;
    let zero = register == value;
    let negative = (register - value) % 0x100 >= 0x80;
    assert({
        let first = if carry {
            v | 0x01
        } else {
            v & !0x01
        };
        let second = if zero {
            first | 0x02
        } else {
            first & !0x02
        };
        let third = if negative {
            second | 0x80
        } else {
            second & !0x80
        };
        third & 0x7C == v & 0x7C
    }) by (bit_vector);
}

/// An addition with carry leaves the six bits of the status byte that are
/// not Carry or Overflow as they were.
pub proof fn lemma_sum_with_carry_keeps_the_rest(status: ProcessorStatus, x: u8, y: u8)
    ensures
        sum_with_carry(status, x, y).1.0 & 0xBE == status.0 & 0xBE,
{
    let v = status.0;
    let carry_in = status.is_set(StatusFlag::Carry);
    let carry_out = x + y + carry_value(carry_in) > 0xFF;
    let overflow = carry_in != carry_out;
    assert({
        let first = if carry_out {
            v | 0x01
        } else {
            v & !0x01
        };
        let second = if overflow {
            first | 0x40
        } else {
            first & !0x40
        };
        second & 0xBE == v & 0xBE
    }) by (bit_vector);
}

/// The status after a pull is made of the Ignored and Break bits that were
/// live and the other six bits of the pulled byte.
pub proof fn lemma_status_pulled_mixes_bits(s: CpuState)
    ensures
        status_pulled(s).status.0 == (popped(s).1 & 0xCF) | (s.status.0 & 0x30),
{
    let v = s.status.0;
    let pulled = popped(s).1;
    assert({
        let first = if v & 0x20 != 0 {
            pulled | 0x20
        } else {
            pulled & !0x20
        };
        let second = if v & 0x10 != 0 {
            first | 0x10
        } else {
            first & !0x10
        };
        second == (pulled & 0xCF) | (v & 0x30)
    }) by (bit_vector);
}

/// An addition with carry is the addition of two's-complement arithmetic:
/// the result is the sum modulo 256, read as unsigned or as signed numbers
/// alike, and Carry tells whether the unsigned sum went beyond 255. Overflow
/// tells whether the carry that came in differs from the one that went out,
/// and no other flag changes.
pub proof fn lemma_sum_with_carry_is_modular(status: ProcessorStatus, x: u8, y: u8)
    ensures
        ({
            let carry = carry_value(status.is_set(StatusFlag::Carry));
            let (sum, after) = sum_with_carry(status, x, y);
            &&& sum == (x + y + carry) % 0x100
            &&& (signed(x) + signed(y) + carry - signed(sum)) % 0x100 == 0
            &&& after.is_set(StatusFlag::Carry) == (x + y + carry > 0xFF)
            &&& after.is_set(StatusFlag::Overflow) == (status.is_set(StatusFlag::Carry)
                != after.is_set(StatusFlag::Carry))
            &&& forall|flag: StatusFlag|
                flag != StatusFlag::Carry && flag != StatusFlag::Overflow ==> after.is_set(flag)
                    == status.is_set(flag)
        }),
{
    let carry_in = status.is_set(StatusFlag::Carry);
    let carry_out = x + y + carry_value(carry_in) > 0xFF;
    let middle = status.with_flag(StatusFlag::Carry, carry_out);
    assert forall|flag: StatusFlag|
        sum_with_carry(status, x, y).1.is_set(flag) == if flag == StatusFlag::Overflow {
            carry_in != carry_out
        } else if flag == StatusFlag::Carry {
            carry_out
        } else {
            status.is_set(flag)
        } by {
        status.lemma_with_flag(StatusFlag::Carry, carry_out, flag);
        middle.lemma_with_flag(StatusFlag::Overflow, carry_in != carry_out, flag);
    }
}

/// Where the carry into bit 7 equals the carry that came in, the Overflow
/// flag of an addition tells whether the signed sum left the range of a
/// signed byte.
pub proof fn lemma_overflow_is_signed_overflow(status: ProcessorStatus, x: u8, y: u8)
    requires
        (x % 0x80 + y % 0x80 + carry_value(status.is_set(StatusFlag::Carry)) >= 0x80)
            == status.is_set(StatusFlag::Carry),
    ensures
        ({
            let signed_sum = signed(x) + signed(y) + carry_value(status.is_set(StatusFlag::Carry));
            sum_with_carry(status, x, y).1.is_set(StatusFlag::Overflow) == !(-0x80 <= signed_sum
                <= 0x7F)
        }),
{
    lemma_sum_with_carry_is_modular(status, x, y);
}

/// A subtraction is the addition of the complement of the operand: with the
/// carry standing for "no borrow", the result is the difference less the
/// borrow, modulo 256, and Carry tells that no borrow was needed. With the
/// carry set that is the plain difference, and Carry tells that the operand
/// was not the larger.
pub proof fn lemma_complement_sum_is_difference(status: ProcessorStatus, x: u8, y: u8)
    ensures
        ({
            let borrow = 1 - carry_value(status.is_set(StatusFlag::Carry));
            let (difference, after) = sum_with_carry(status, x, (0xFF - y) as u8);
            &&& difference == (x - y - borrow) % 0x100
            &&& after.is_set(StatusFlag::Carry) == (x - y - borrow >= 0)
        }),
{
    lemma_sum_with_carry_is_modular(status, x, (0xFF - y) as u8);
}

/// Adding an operand and then subtracting it again gives the first value
/// back when the borrow of the subtraction matches the carry of the
/// addition, that is, when the subtraction finds the carry flag opposite to
/// how the addition found it.
pub proof fn lemma_subtract_undoes_add(
    adding: ProcessorStatus,
    subtracting: ProcessorStatus,
    x: u8,
    y: u8,
)
    requires
        adding.is_set(StatusFlag::Carry) != subtracting.is_set(StatusFlag::Carry),
    ensures
        sum_with_carry(subtracting, sum_with_carry(adding, x, y).0, (0xFF - y) as u8).0 == x,
{
}

impl<B: DataBus> Cpu<B> {
    /// The state of a processor is always well formed.
    pub proof fn lemma_view_wf(&self)
        ensures
            self@.wf(),
    {
    }

    /// Powers a processor on over `bus`.
    pub fn load_memory(bus: B) -> (cpu: Cpu<B>)
        ensures
            cpu@ == power_on(image(&bus)),
    {
        let rst_vector = bus.get_word(VECTOR_RESET);
        Cpu {
            bus,
            program_counter: rst_vector,
            accumulator: 0,
            x_register: 0,
            y_register: 0,
            stack_pointer: 0,
            processor_status: Default::default(),
        }
    }

    /// The address of the next instruction.
    pub fn program_counter(&self) -> (value: u16)
        ensures
            value == self@.program_counter,
    {
        self.program_counter
    }

    /// The accumulator.
    pub fn accumulator(&self) -> (value: u8)
        ensures
            value == self@.accumulator,
    {
        self.accumulator
    }

    /// The X index register.
    pub fn x_register(&self) -> (value: u8)
        ensures
            value == self@.x_register,
    {
        self.x_register
    }

    /// The Y index register.
    pub fn y_register(&self) -> (value: u8)
        ensures
            value == self@.y_register,
    {
        self.y_register
    }

    /// The stack pointer: the offset of the next free slot in the stack page.
    pub fn stack_pointer(&self) -> (value: u8)
        ensures
            value == self@.stack_pointer,
    {
        self.stack_pointer
    }

    /// The status register.
    pub fn status(&self) -> (value: ProcessorStatus)
        ensures
            value == self@.status,
    {
        self.processor_status
    }

    /// The bus, for reading.
    pub fn bus(&self) -> (bus: &B)
        ensures
            image(bus) == self@.memory,
    {
        &self.bus
    }

    /// The bus, for writing from outside the processor. The registers stay
    /// as they are.
    pub fn bus_mut(&mut self) -> (bus: &mut B)
        ensures
            image(bus) == old(self)@.memory,
            final(self)@ == (CpuState { memory: image(final(bus)), ..old(self)@ }),
    {
        &mut self.bus
    }

    /// Fetches the instruction under the program counter and moves the
    /// counter behind it. An opcode outside the documented set is reported
    /// and changes nothing.
    pub fn read_instruction(&mut self) -> (fetched: Result<Instruction, CpuError>)
        ensures
            match fetched {
                Ok(instruction) => {
                    &&& fetches(old(self)@, instruction)
                    &&& final(self)@ == after_fetch(old(self)@, instruction)
                },
                Err(error) => {
                    &&& error == CpuError::UnknownOpcode(
                        old(self)@.memory[old(self)@.program_counter as int],
                    )
                    &&& !is_legal(old(self)@.memory[old(self)@.program_counter as int])
                    &&& final(self)@ == old(self)@
                },
            },
    {
        let opcode = self.read(self.program_counter);
        let mut cursor = self.program_counter.wrapping_add(1);
        match Instruction::read_instruction(opcode, &self.bus, &mut cursor) {
            Ok(instruction) => {
                self.program_counter = cursor;
                Ok(instruction)
            },
            Err(error) => Err(error),
        }
    }

    /// Adds `x`, `y` and the carry flag and returns the sum modulo 256.
    /// Carry tells that the sum went beyond 255, Overflow that the carry
    /// that came in differs from the one that went out. The other six
    /// flags, the registers and the bus stay as they are.
    pub fn add_with_carry(&mut self, x: u8, y: u8) -> (res: u8)
        ensures
            res == sum_with_carry(old(self)@.status, x, y).0,
            final(self)@ == (CpuState {
                status: sum_with_carry(old(self)@.status, x, y).1,
                ..old(self)@
            }),
            res == (x + y + carry_value(old(self)@.status.is_set(StatusFlag::Carry))) % 0x100,
            final(self)@.status.is_set(StatusFlag::Carry) == (x + y + carry_value(
                old(self)@.status.is_set(StatusFlag::Carry),
            ) > 0xFF),
            final(self)@.status.is_set(StatusFlag::Overflow) == (old(self)@.status.is_set(
                StatusFlag::Carry,
            ) != final(self)@.status.is_set(StatusFlag::Carry)),
            final(self)@.status.0 & 0xBE == old(self)@.status.0 & 0xBE,
    {
        proof {
            lemma_sum_with_carry_is_modular(self@.status, x, y);
            lemma_sum_with_carry_keeps_the_rest(self@.status, x, y);
        }
        let carry = self.processor_status.get_flag(StatusFlag::Carry);
        let partial = x.wrapping_add(y);
        let part_carry = partial < x;
        let res = partial.wrapping_add(if carry { 1 } else { 0 });
        let res_carry = res < partial;
        let res_carry = part_carry || res_carry;
        self.processor_status.set_flag(StatusFlag::Carry, res_carry);
        self.processor_status.set_flag(StatusFlag::Overflow, carry != res_carry);
        res
    }

    /// Sets Negative to bit 7 of `val` and Zero to whether `val` is zero.
    /// The other six flags, the registers and the bus stay as they are.
    pub fn flag_value(&mut self, val: u8)
        ensures
            final(self)@ == (CpuState {
                status: with_value_flags(old(self)@.status, val),
                ..old(self)@
            }),
            final(self)@.status.is_set(StatusFlag::Negative) == (val & 0x80 != 0),
            final(self)@.status.is_set(StatusFlag::Zero) == (val == 0),
            final(self)@.status.0 & 0x7D == old(self)@.status.0 & 0x7D,
    {
        assert((val & 0b1000_0000 != 0) == (val >= 0x80)) by (bit_vector);
        proof {
            lemma_value_flags(self@.status, val, StatusFlag::Negative);
            lemma_value_flags(self@.status, val, StatusFlag::Zero);
            lemma_value_flags_keep_the_rest(self@.status, val);
        }
        self.processor_status.set_flag(StatusFlag::Negative, (val & 0b1000_0000) != 0);
        self.processor_status.set_flag(StatusFlag::Zero, val == 0);
    }

    /// Compares the register value `x` with what `y` designates: Carry
    /// tells that `x` is not below it, Zero that the two are equal, and
    /// Negative is bit 7 of the difference modulo 256. The other five flags,
    /// the registers and the bus stay as they are.
    pub fn cmp(&mut self, x: u8, y: Addressing)
        ensures
            final(self)@ == compared_with(old(self)@, x, y),
            final(self)@.status.is_set(StatusFlag::Carry) == (x >= operand(old(self)@, y)),
            final(self)@.status.is_set(StatusFlag::Zero) == (x == operand(old(self)@, y)),
            final(self)@.status.is_set(StatusFlag::Negative) == ((x - operand(old(self)@, y))
                % 0x100 >= 0x80),
            final(self)@.status.0 & 0x7C == old(self)@.status.0 & 0x7C,
    {
        proof {
            let value = operand(self@, y);
            lemma_compared_flags(self@.status, x, value, StatusFlag::Carry);
            lemma_compared_flags(self@.status, x, value, StatusFlag::Zero);
            lemma_compared_flags(self@.status, x, value, StatusFlag::Negative);
            lemma_compared_keeps_the_rest(self@.status, x, value);
        }
        let y = self.load_addressing(y);
        self.processor_status.set_flag(StatusFlag::Carry, x >= y);
        self.processor_status.set_flag(StatusFlag::Zero, x == y);
        self.processor_status.set_flag(StatusFlag::Negative, x.wrapping_sub(y) >= 0x80);
    }

    /// Passes control to the handler stored at `vector`, saving the program
    /// counter and `saved` on the stack.
    fn enter_handler(&mut self, vector: u16, saved: ProcessorStatus)
        ensures
            final(self)@ == interrupted(old(self)@, vector, saved),
    {
        let handler = self.read_word(vector);
        self.stack_push_word(self.program_counter);
        self.stack_push(saved.0);
        self.processor_status.set_flag(StatusFlag::Interrupt, true);
        self.program_counter = handler;
    }

    /// Interrupts the processor: the program counter and the status are
    /// pushed, interrupts are disabled, and execution continues at the
    /// handler whose address is stored at `vector`.
    pub fn interrupt(&mut self, vector: u16)
        ensures
            final(self)@ == interrupted(old(self)@, vector, old(self)@.status),
    {
        self.enter_handler(vector, self.processor_status)
    }

    /// Pulls the status from the stack. Ignored and Break keep the values
    /// they have; the other six flags are those of the pulled byte. Apart
    /// from the stack pointer, the registers and the bus stay as they are.
    pub fn pull_status(&mut self)
        ensures
            final(self)@ == status_pulled(old(self)@),
            final(self)@.status.0 == (popped(old(self)@).1 & 0xCF) | (old(self)@.status.0 & 0x30),
            final(self)@ == (CpuState { status: final(self)@.status, ..popped(old(self)@).0 }),
    {
        proof {
            lemma_status_pulled_mixes_bits(self@);
        }
        let mut ps = ProcessorStatus::from(self.stack_pop());
        ps.set_flag(StatusFlag::Ignored, self.processor_status.get_flag(StatusFlag::Ignored));
        ps.set_flag(StatusFlag::Break, self.processor_status.get_flag(StatusFlag::Break));
        self.processor_status = ps;
    }
}

} // verus!
