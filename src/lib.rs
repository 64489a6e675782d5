//! A small register machine: a bounded byte memory, a bank of 32-bit
//! registers and a fetch-decode-execute engine whose every fault is returned
//! as a typed value instead of aborting the host.

pub mod memory;
pub mod opcodes;
pub mod register;
pub mod cpu;
pub mod lemmas;

pub use cpu::{Fault, CPU};
pub use memory::{Memory, MEM_SIZE};
pub use opcodes::{Opcode, Program, ProgramBuilder};
