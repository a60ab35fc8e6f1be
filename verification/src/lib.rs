//! Architectural state of a MIPS32 R3000A-class processor: the word store it
//! addresses, the firmware image it boots from, and its register file.
//!
//! Instruction fetch, decoding and execution are built on top of these
//! three pieces and are not part of this crate.

pub mod bios;
pub mod cpu;
pub mod memory;

pub use bios::BIOS;
pub use cpu::CPU;
pub use memory::Memory;
