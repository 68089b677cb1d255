//! An emulator core for the MOS 6502 microprocessor.
//!
//! The crate models the processor's register file, its status flags, the
//! instruction decoder, the addressing-mode resolver and the execution of
//! every documented instruction over a byte-addressable bus.

pub mod cpu;
pub mod offset;
pub mod stack_memory;
