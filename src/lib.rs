//! A small register machine that runs a compact big-endian bytecode.
//!
//! The register store maps register bytes to `i32` values, unknown registers
//! reading as zero. The decoder turns one instruction of the byte stream into
//! an `Instruction`; the emulator fetches, decodes and executes instructions
//! until its position reaches the end of the program.

pub mod emulator;
pub mod instruction;
pub mod laws;
pub mod machine;
pub mod wire;
