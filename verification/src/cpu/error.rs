//! What can go wrong while the processor runs.

use vstd::prelude::*;
use vstd::string::*;

verus! {

/// A failure of one processor step.
#[derive(Clone, Copy, Debug, PartialEq, Eq)]
pub enum CpuError {
    /// The byte at the program counter encodes no instruction.
    UnknownOpcode(u8),
}

/// The upper-case hexadecimal digit for a value below sixteen.
pub open spec fn hex_digit(value: u8) -> char {
    if value < 10 {
        (0x30 + value) as char
    } else {
        (0x41 + value - 10) as char
    }
}

/// The two upper-case hexadecimal digits of a byte, high digit first.
pub open spec fn hex_byte(value: u8) -> Seq<char> {
    seq![hex_digit(value / 16), hex_digit(value % 16)]
}

/// The hexadecimal digit for `value` as text.
fn hex_digit_text(value: u8) -> (text: &'static str)
    requires
        value < 16,
    ensures
        text@ == seq![hex_digit(value)],
{
    proof {
        reveal_strlit("0");
        reveal_strlit("1");
        reveal_strlit("2");
        reveal_strlit("3");
        reveal_strlit("4");
        reveal_strlit("5");
        reveal_strlit("6");
        reveal_strlit("7");
        reveal_strlit("8");
        reveal_strlit("9");
        reveal_strlit("A");
        reveal_strlit("B");
        reveal_strlit("C");
        reveal_strlit("D");
        reveal_strlit("E");
        reveal_strlit("F");
    }
    let text = match value {
        0 => "0",
        1 => "1",
        2 => "2",
        3 => "3",
        4 => "4",
        5 => "5",
        6 => "6",
        7 => "7",
        8 => "8",
        9 => "9",
        10 => "A",
        11 => "B",
        12 => "C",
        13 => "D",
        14 => "E",
        _ => "F",
    };
    assert(text@ =~= seq![hex_digit(value)]);
    text
}

impl CpuError {
    /// What the error says to a reader: for an unknown opcode, the words
    /// `Unknown opcode 0x` and the opcode as two hexadecimal digits.
    pub open spec fn spec_message(self) -> Seq<char> {
        match self {
            CpuError::UnknownOpcode(opcode) => "Unknown opcode 0x"@ + hex_byte(opcode),
        }
    }

    /// What the error says to a reader.
    pub fn message(&self) -> (text: String)
        ensures
            text@ == self.spec_message(),
    {
        match self {
            CpuError::UnknownOpcode(opcode) => {
                let mut text = String::from_str("Unknown opcode 0x");
                text.append(hex_digit_text(*opcode / 16));
                text.append(hex_digit_text(*opcode % 16));
                assert(text@ =~= "Unknown opcode 0x"@ + hex_byte(*opcode));
                text
            },
        }
    }
}

} // verus!
