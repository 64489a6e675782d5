//! Properties of the instruction set that hold for every state.

use vstd::prelude::*;

use crate::cpu::{advance, initialized, opcode_at, operand, step, Fault, State, Step};
use crate::memory::{i32_at, lemma_i32_round_trip, MEM_SIZE};
use crate::opcodes::{operand_bytes, Opcode};
use crate::register::{B, IP, NUM_REGISTERS, RT, SP};

verus! {

/// Whether the instruction at the instruction pointer writes register `r`
/// through its destination operand.
pub open spec fn writes_register(s: State, r: int) -> bool {
    match opcode_at(s) {
        Some(Opcode::Load) | Some(Opcode::LoadPointer) | Some(Opcode::LoadRegsiter) | Some(
            Opcode::Pop,
        ) => operand(s, 0) == r,
        _ => false,
    }
}

/// A completed instruction moves the instruction pointer past its opcode byte
/// and its operands, except `Jump`, which sets it to its operand.
pub proof fn lemma_ip_advance(s: State, t: State)
    requires
        step(s) == Step::Running(t),
    ensures
        match opcode_at(s) {
            Some(Opcode::Jump) => t.ip == i32_at(s.memory, s.ip + 1),
            Some(op) => t.ip == s.ip + 1 + operand_bytes(op),
            None => false,
        },
{
}

/// A cycle halts exactly when the byte at the instruction pointer is `Halt`
/// (a halting cycle leaves the state, instruction pointer included, as it is).
pub proof fn lemma_halt(s: State)
    ensures
        step(s) == Step::Halted <==> opcode_at(s) == Some(Opcode::Halt),
{
}

/// A completed instruction advances the cycle counter by one, unless it
/// loads the counter itself, and keeps the number of registers.
pub proof fn lemma_step_ticks(s: State, t: State)
    requires
        s.registers.len() == NUM_REGISTERS,
        step(s) == Step::Running(t),
        !writes_register(s, RT as int),
    ensures
        t.registers.len() == NUM_REGISTERS,
        t.registers[RT as int] == s.registers[RT as int].wrapping_add(1),
{
}

/// After `n` completed cycles since initialization, none of which loads the
/// cycle counter, the counter holds `n`.
pub proof fn lemma_cycle_count(s: State, n: nat)
    requires
        s.registers.len() == NUM_REGISTERS,
        advance(initialized(s), n) is Some,
        n <= i32::MAX,
        forall|k: nat|
            k < n ==> !writes_register(#[trigger] advance(initialized(s), k)->0, RT as int),
    ensures
        advance(initialized(s), n)->0.registers.len() == NUM_REGISTERS,
        advance(initialized(s), n)->0.registers[RT as int] == n,
    decreases n,
{
    if n > 0 {
        let m = (n - 1) as nat;
        lemma_cycle_count(s, m);
        let t = advance(initialized(s), m)->0;
        let u = advance(initialized(s), n)->0;
        lemma_step_ticks(t, u);
    }
}

/// A value stored from register `R` to address `X` is read back by a
/// following `LoadPointer` of `X` into register `R2`.
pub proof fn lemma_store_load_round_trip(s: State, s1: State, s2: State)
    requires
        s.registers.len() == NUM_REGISTERS,
        s.memory.len() == MEM_SIZE,
        step(s) == Step::Running(s1),
        step(s1) == Step::Running(s2),
        opcode_at(s) == Some(Opcode::Store),
        opcode_at(s1) == Some(Opcode::LoadPointer),
        i32_at(s1.memory, s1.ip + 5) == operand(s, 1),
        operand(s, 0) != IP,
        operand(s1, 0) != RT,
    ensures
        i32_at(s1.memory, operand(s, 1) as int) == s.registers[operand(s, 0) as int],
        s2.registers[operand(s1, 0) as int] == s.registers[operand(s, 0) as int],
{
    let r = operand(s, 0) as int;
    let x = operand(s, 1) as int;
    let next = (s.ip + 9) as usize;
    let regs = s.registers.update(IP as int, next as i32);
    lemma_i32_round_trip(s.memory, x, regs[r]);
}

/// Dividing by a zero register `B` faults, and the cycle changes nothing.
pub proof fn lemma_divide_by_zero_faults(s: State)
    requires
        s.registers.len() == NUM_REGISTERS,
        opcode_at(s) == Some(Opcode::Divide),
        s.registers[B as int] == 0,
    ensures
        step(s) == Step::Faulted(Fault::Arithmetic { ip: s.ip }),
{
}

/// `Push R` followed by `Pop R` restores register `R` and the stack pointer.
pub proof fn lemma_push_pop_restores(s: State, s1: State, s2: State)
    requires
        s.registers.len() == NUM_REGISTERS,
        s.memory.len() == MEM_SIZE,
        step(s) == Step::Running(s1),
        step(s1) == Step::Running(s2),
        opcode_at(s) == Some(Opcode::Push),
        opcode_at(s1) == Some(Opcode::Pop),
        operand(s1, 0) == operand(s, 0),
        operand(s, 0) != IP,
        operand(s, 0) != RT,
    ensures
        s2.registers[operand(s, 0) as int] == s.registers[operand(s, 0) as int],
        s2.registers[SP as int] == s.registers[SP as int],
{
    let r = operand(s, 0) as int;
    let next = (s.ip + 5) as usize;
    let sp = s.registers[SP as int] - 4;
    let pushed = s.registers.update(IP as int, next as i32).update(SP as int, sp as i32);
    lemma_i32_round_trip(s.memory, sp, pushed[r]);
}

} // verus!
