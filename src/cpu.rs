use vstd::prelude::*;

use crate::memory::{i32_at, in_bounds, with_word, word_at, Memory, MEM_SIZE};
use crate::opcodes::{decode, operand_bytes, Opcode};
use crate::register::{A, B, C, IP, NUM_REGISTERS, RT, SP};

verus! {

/// Why the machine stopped abnormally. Each carries the instruction pointer at
/// the time of the fault; no fault leaves an instruction half executed.
#[derive(Clone, Copy, Debug, PartialEq, Eq, Structural)]
pub enum Fault {
    /// The byte at the instruction pointer encodes no opcode.
    Decode { byte: u8, ip: usize },
    /// A register operand names no register.
    Register { index: u32, ip: usize },
    /// A fetch, an operand or an access would reach outside memory.
    Memory { address: i64, ip: usize },
    /// A division by zero, or one whose quotient does not fit in 32 bits.
    Arithmetic { ip: usize },
}

/// The whole observable state of a machine: instruction pointer, registers
/// and memory.
pub struct State {
    pub ip: usize,
    pub registers: Seq<i32>,
    pub memory: Seq<u8>,
}

/// What one cycle does to a state.
pub enum Step {
    /// The instruction is `Halt`: the state stays as it is.
    Halted,
    /// The instruction completed, giving this state.
    Running(State),
    /// The instruction faulted: the state stays as it is.
    Faulted(Fault),
}

/// The state of `cpu` running on `memory`.
pub open spec fn machine(cpu: CPU, memory: Memory) -> State {
    State { ip: cpu.ip, registers: cpu.registers@, memory: memory@ }
}

/// `registers` with the cycle counter advanced by one.
pub open spec fn tick(registers: Seq<i32>) -> Seq<i32> {
    registers.update(RT as int, registers[RT as int].wrapping_add(1))
}

/// The opcode at the instruction pointer, if the byte there encodes one.
pub open spec fn opcode_at(s: State) -> Option<Opcode> {
    if s.ip < MEM_SIZE {
        decode(s.memory[s.ip as int])
    } else {
        None
    }
}

/// The `k`-th four-byte operand of the instruction at the instruction pointer.
pub open spec fn operand(s: State, k: int) -> u32 {
    word_at(s.memory, s.ip + 1 + 4 * k)
}

/// One fetch-decode-execute cycle.
pub open spec fn step(s: State) -> Step {
    if s.ip >= MEM_SIZE {
        Step::Faulted(Fault::Memory { address: s.ip as i64, ip: s.ip })
    } else {
        match decode(s.memory[s.ip as int]) {
            None => Step::Faulted(Fault::Decode { byte: s.memory[s.ip as int], ip: s.ip }),
            Some(op) => if s.ip + 1 + operand_bytes(op) > MEM_SIZE {
                Step::Faulted(Fault::Memory { address: (s.ip + 1) as i64, ip: s.ip })
            } else {
                execute(s, op)
            },
        }
    }
}

/// Executes `op`, whose operands lie inside memory. After decoding, the
/// instruction-pointer register mirrors the new instruction pointer; after
/// execution the cycle counter is advanced.
pub open spec fn execute(s: State, op: Opcode) -> Step {
    let ip = s.ip;
    let m = s.memory;
    let first = operand(s, 0);
    let second = operand(s, 1);
    let next = (ip + 1 + operand_bytes(op)) as usize;
    let regs = s.registers.update(IP as int, next as i32);
    let a = regs[A as int];
    let b = regs[B as int];
    let done = |registers: Seq<i32>, memory: Seq<u8>|
        Step::Running(State { ip: next, registers: tick(registers), memory });
    let register_fault = Step::Faulted(Fault::Register { index: first, ip });
    match op {
        Opcode::Halt => Step::Halted,
        Opcode::Jump => {
            let target = i32_at(m, ip + 1);
            if target < 0 {
                Step::Faulted(Fault::Memory { address: target as i64, ip })
            } else {
                Step::Running(
                    State {
                        ip: target as usize,
                        registers: tick(s.registers.update(IP as int, target)),
                        memory: m,
                    },
                )
            }
        },
        Opcode::Store => if first >= NUM_REGISTERS {
            register_fault
        } else if !in_bounds(second as int, 4) {
            Step::Faulted(Fault::Memory { address: second as i64, ip })
        } else {
            done(regs, with_word(m, second as int, regs[first as int] as u32))
        },
        Opcode::Load => if first >= NUM_REGISTERS {
            register_fault
        } else {
            done(regs.update(first as int, i32_at(m, ip + 5)), m)
        },
        Opcode::LoadPointer => {
            let addr = i32_at(m, ip + 5);
            if first >= NUM_REGISTERS {
                register_fault
            } else if !in_bounds(addr as int, 4) {
                Step::Faulted(Fault::Memory { address: addr as i64, ip })
            } else {
                done(regs.update(first as int, i32_at(m, addr as int)), m)
            }
        },
        Opcode::LoadRegsiter => if first >= NUM_REGISTERS {
            register_fault
        } else if second >= NUM_REGISTERS {
            Step::Faulted(Fault::Register { index: second, ip })
        } else {
            done(regs.update(first as int, regs[second as int]), m)
        },
        Opcode::Add => done(regs.update(A as int, a.wrapping_add(b)), m),
        Opcode::Subtract => done(regs.update(A as int, a.wrapping_sub(b)), m),
        Opcode::Multiply => done(regs.update(A as int, a.wrapping_mul(b)), m),
        Opcode::Divide => match (a.checked_div(b), a.checked_rem(b)) {
            (Some(q), Some(r)) => done(regs.update(C as int, r).update(A as int, q), m),
            _ => Step::Faulted(Fault::Arithmetic { ip }),
        },
        Opcode::CompareInteger => done(
            regs.update(
                A as int,
                if a == b {
                    1i32
                } else {
                    0i32
                },
            ),
            m,
        ),
        Opcode::NoOperation => done(regs, m),
        Opcode::Push => {
            let sp = regs[SP as int] - 4;
            if first >= NUM_REGISTERS {
                register_fault
            } else if !in_bounds(sp, 4) {
                Step::Faulted(Fault::Memory { address: sp as i64, ip })
            } else {
                let pushed = regs.update(SP as int, sp as i32);
                done(pushed, with_word(m, sp, pushed[first as int] as u32))
            }
        },
        Opcode::Pop => {
            let sp = regs[SP as int] as int;
            if first >= NUM_REGISTERS {
                register_fault
            } else if !in_bounds(sp, 4) {
                Step::Faulted(Fault::Memory { address: sp as i64, ip })
            } else {
                done(regs.update(first as int, i32_at(m, sp)).update(SP as int, (sp + 4) as i32), m)
            }
        },
    }
}

/// `s` as `initialize` leaves it: instruction pointer and cycle counter at zero.
pub open spec fn initialized(s: State) -> State {
    State { ip: 0, registers: s.registers.update(RT as int, 0), memory: s.memory }
}

/// The state after `n` cycles from `s`, if each of them completed.
pub open spec fn advance(s: State, n: nat) -> Option<State>
    decreases n,
{
    if n == 0 {
        Some(s)
    } else {
        match advance(s, (n - 1) as nat) {
            Some(t) => match step(t) {
                Step::Running(u) => Some(u),
                _ => None,
            },
            None => None,
        }
    }
}

/// The unsigned word at `[addr, addr + 4)`.
fn read_word(memory: &Memory, addr: usize) -> (w: u32)
    requires
        addr + 4 <= MEM_SIZE,
    ensures
        w == word_at(memory@, addr as int),
{
    let v = memory.read_i32(addr);
    proof {
        let x = word_at(memory@, addr as int);
        assert((x as i32) as u32 == x) by (bit_vector);
    }
    v as u32
}

/// The execution engine: an instruction pointer and a register file.
pub struct CPU {
    pub ip: usize,
    pub registers: [i32; NUM_REGISTERS],
}

impl CPU {
    /// A machine at address 0 with every register zero but the stack pointer,
    /// which points past the top of memory.
    pub fn new() -> (cpu: CPU)
        ensures
            cpu.ip == 0,
            cpu.registers@ == Seq::new(
                NUM_REGISTERS as nat,
                |i: int|
                    if i == SP {
                        MEM_SIZE as i32
                    } else {
                        0i32
                    },
            ),
    {
        let mut registers = [0i32; NUM_REGISTERS];
        registers[SP] = MEM_SIZE as i32;
        let cpu = CPU { ip: 0, registers };
        assert(cpu.registers@ =~= Seq::new(
            NUM_REGISTERS as nat,
            |i: int|
                if i == SP {
                    MEM_SIZE as i32
                } else {
                    0i32
                },
        ));
        cpu
    }

    /// Moves the instruction pointer past `width` decoded bytes and mirrors it
    /// in the instruction-pointer register.
    pub fn consume(&mut self, width: usize)
        requires
            old(self).ip + width <= i32::MAX,
        ensures
            final(self).ip == old(self).ip + width,
            final(self).registers@ == old(self).registers@.update(
                IP as int,
                (old(self).ip + width) as i32,
            ),
    {
        self.ip = self.ip + width;
        self.registers[IP] = self.ip as i32;
    }

    /// Runs one fetch-decode-execute cycle. `Ok(true)`: an instruction
    /// completed; `Ok(false)`: the machine halted; `Err`: it faulted. Halting
    /// and faulting change nothing.
    pub fn cycle(&mut self, memory: &mut Memory) -> (r: Result<bool, Fault>)
        ensures
            match step(machine(*old(self), *old(memory))) {
                Step::Halted => r == Ok::<bool, Fault>(false) && *final(self) == *old(self)
                    && *final(memory) == *old(memory),
                Step::Running(s) => r == Ok::<bool, Fault>(true) && machine(
                    *final(self),
                    *final(memory),
                ) == s,
                Step::Faulted(f) => r == Err::<bool, Fault>(f) && *final(self) == *old(self)
                    && *final(memory) == *old(memory),
            },
    {
        let ghost s0 = machine(*self, *memory);
        let ip = self.ip;
        if ip >= MEM_SIZE {
            return Err(Fault::Memory { address: ip as i64, ip });
        }
        let byte = memory.read_u8(ip);
        let op = match Opcode::from(byte) {
            Ok(op) => op,
            Err(()) => {
                return Err(Fault::Decode { byte, ip });
            },
        };
        let width = op.operand_width();
        if width >= MEM_SIZE - ip {
            return Err(Fault::Memory { address: (ip + 1) as i64, ip });
        }
        match op {
            Opcode::Halt => {
                return Ok(false);
            },
            Opcode::Jump => {
                let target = memory.read_i32(ip + 1);
                if target < 0 {
                    return Err(Fault::Memory { address: target as i64, ip });
                }
                self.ip = target as usize;
                self.registers[IP] = target;
            },
            Opcode::Store => {
                let index = read_word(memory, ip + 1);
                let addr = read_word(memory, ip + 5);
                if index >= NUM_REGISTERS as u32 {
                    return Err(Fault::Register { index, ip });
                }
                if addr > (MEM_SIZE - 4) as u32 {
                    return Err(Fault::Memory { address: addr as i64, ip });
                }
                self.consume(1 + width);
                let value = self.registers[index as usize];
                memory.write_i32(addr as usize, value);
            },
            Opcode::Load => {
                let index = read_word(memory, ip + 1);
                if index >= NUM_REGISTERS as u32 {
                    return Err(Fault::Register { index, ip });
                }
                let value = memory.read_i32(ip + 5);
                self.consume(1 + width);
                self.registers[index as usize] = value;
            },
            Opcode::LoadPointer => {
                let index = read_word(memory, ip + 1);
                let addr = memory.read_i32(ip + 5);
                if index >= NUM_REGISTERS as u32 {
                    return Err(Fault::Register { index, ip });
                }
                if addr < 0 || addr > (MEM_SIZE - 4) as i32 {
                    return Err(Fault::Memory { address: addr as i64, ip });
                }
                let value = memory.read_i32(addr as usize);
                self.consume(1 + width);
                self.registers[index as usize] = value;
            },
            Opcode::LoadRegsiter => {
                let dest = read_word(memory, ip + 1);
                let src = read_word(memory, ip + 5);
                if dest >= NUM_REGISTERS as u32 {
                    return Err(Fault::Register { index: dest, ip });
                }
                if src >= NUM_REGISTERS as u32 {
                    return Err(Fault::Register { index: src, ip });
                }
                self.consume(1 + width);
                self.registers[dest as usize] = self.registers[src as usize];
            },
            Opcode::Add => {
                self.consume(1);
                self.registers[A] = self.registers[A].wrapping_add(self.registers[B]);
            },
            Opcode::Subtract => {
                self.consume(1);
                self.registers[A] = self.registers[A].wrapping_sub(self.registers[B]);
            },
            Opcode::Multiply => {
                self.consume(1);
                self.registers[A] = self.registers[A].wrapping_mul(self.registers[B]);
            },
            Opcode::Divide => {
                let a = self.registers[A];
                let b = self.registers[B];
                match (a.checked_div(b), a.checked_rem(b)) {
                    (Some(q), Some(r)) => {
                        self.consume(1);
                        self.registers[C] = r;
                        self.registers[A] = q;
                    },
                    _ => {
                        return Err(Fault::Arithmetic { ip });
                    },
                }
            },
            Opcode::CompareInteger => {
                self.consume(1);
                self.registers[A] = if self.registers[A] == self.registers[B] {
                    1
                } else {
                    0
                };
            },
            Opcode::NoOperation => {
                self.consume(1);
            },
            Opcode::Push => {
                let index = read_word(memory, ip + 1);
                if index >= NUM_REGISTERS as u32 {
                    return Err(Fault::Register { index, ip });
                }
                let sp = self.registers[SP];
                if sp < 4 || sp > MEM_SIZE as i32 {
                    return Err(Fault::Memory { address: sp as i64 - 4, ip });
                }
                self.consume(1 + width);
                self.registers[SP] = sp - 4;
                let value = self.registers[index as usize];
                memory.write_i32((sp - 4) as usize, value);
            },
            Opcode::Pop => {
                let index = read_word(memory, ip + 1);
                if index >= NUM_REGISTERS as u32 {
                    return Err(Fault::Register { index, ip });
                }
                let sp = self.registers[SP];
                if sp < 0 || sp > (MEM_SIZE - 4) as i32 {
                    return Err(Fault::Memory { address: sp as i64, ip });
                }
                let value = memory.read_i32(sp as usize);
                self.consume(1 + width);
                self.registers[index as usize] = value;
                self.registers[SP] = sp + 4;
            },
        }
        self.registers[RT] = self.registers[RT].wrapping_add(1);
        proof {
            if let Step::Running(t) = step(s0) {
                assert(self.registers@ =~= t.registers);
                assert(memory@ =~= t.memory);
            }
        }
        Ok(true)
    }

    /// Initializes the machine, then runs cycles until it halts, faults, or
    /// has completed `max_cycles` instructions. `Ok(false)`: it halted;
    /// `Ok(true)`: the budget ran out with the machine still running; `Err`:
    /// the fault that stopped it.
    pub fn run(&mut self, memory: &mut Memory, max_cycles: u64) -> (r: Result<bool, Fault>)
        ensures
            ({
                let start = initialized(machine(*old(self), *old(memory)));
                let end = machine(*final(self), *final(memory));
                match r {
                    Ok(true) => advance(start, max_cycles as nat) == Some(end),
                    Ok(false) => exists|n: nat|
                        n < max_cycles && #[trigger] advance(start, n) == Some(end) && step(end)
                            == Step::Halted,
                    Err(f) => exists|n: nat|
                        n < max_cycles && #[trigger] advance(start, n) == Some(end) && step(end)
                            == Step::Faulted(f),
                }
            }),
    {
        self.initialize();
        let ghost start = machine(*self, *memory);
        let mut count: u64 = 0;
        while count < max_cycles
            invariant
                count <= max_cycles,
                start == initialized(machine(*old(self), *old(memory))),
                advance(start, count as nat) == Some(machine(*self, *memory)),
            decreases max_cycles - count,
        {
            match self.cycle(memory) {
                Ok(true) => {},
                Ok(false) => {
                    return Ok(false);
                },
                Err(f) => {
                    return Err(f);
                },
            }
            count = count + 1;
        }
        Ok(true)
    }

    /// Sets register `register` to `value`.
    pub fn write_register(&mut self, register: usize, value: i32)
        requires
            register < NUM_REGISTERS,
        ensures
            final(self).ip == old(self).ip,
            final(self).registers@ == old(self).registers@.update(register as int, value),
    {
        self.registers[register] = value;
    }

    /// The value of register `register`.
    pub fn read_register(&self, register: usize) -> (r: i32)
        requires
            register < NUM_REGISTERS,
        ensures
            r == self.registers@[register as int],
    {
        self.registers[register]
    }

    /// Resets the instruction pointer and the cycle counter to zero; the other
    /// registers keep their values.
    pub fn initialize(&mut self)
        ensures
            final(self).ip == 0,
            final(self).registers@ == old(self).registers@.update(RT as int, 0),
    {
        self.ip = 0;
        self.registers[RT] = 0;
    }
}

} // verus!
