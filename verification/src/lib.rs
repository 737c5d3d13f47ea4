//! An emulator core for the RV64I base integer instruction set.
//!
//! The crate is organised around two subsystems: a total instruction
//! decoder from 32-bit words to a sum type of decoded instructions, and
//! a one-instruction-at-a-time executor (a "hart") that owns 32 general
//! registers, a program counter and a 4096-entry CSR bank, and talks to
//! guest memory through a width-parameterized interface.

pub mod bits;
pub mod cpu;
pub mod elf;
pub mod harness;
pub mod hart;
pub mod instruction;
pub mod mem_backend;
pub mod memory;
pub mod semantics;
