//! An emulator core for a small microcomputer with 8-bit register halves and
//! 16-bit addresses: instruction decoding, a register and flag file, bounds
//! checked memory, port I/O, and interrupt dispatch.
//!
//! Every executable function carries a contract that is stated over the
//! ghost model in [`machine`] and proved by Verus.

pub mod computer;
pub mod disk;
pub mod interrupts;
pub mod machine;
pub mod memory;
pub mod opcodes;
pub mod parser;
pub mod port;
pub mod serial;
pub mod theorems;
