use vstd::prelude::*;

verus! {

/// Number of 32-bit registers in the register file.
pub const NUM_REGISTERS: usize = 14;

/// Accumulator: first operand and result of the arithmetic instructions.
pub const A: usize = 0;

/// Second operand of the arithmetic instructions.
pub const B: usize = 1;

/// Receives the remainder of a division.
pub const C: usize = 2;

pub const D: usize = 3;

pub const E: usize = 4;

pub const F: usize = 5;

pub const G: usize = 6;

pub const H: usize = 7;

pub const I: usize = 8;

pub const J: usize = 9;

pub const K: usize = 10;

/// Stack pointer: the byte address of the top of the downward-growing stack.
pub const SP: usize = 11;

/// Mirror of the instruction pointer, written after each decode step.
pub const IP: usize = 12;

/// Cycle counter: one more for every completed instruction.
pub const RT: usize = 13;

} // verus!
