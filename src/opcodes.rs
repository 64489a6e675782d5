use vstd::prelude::*;

use crate::memory::{word_at, Memory, MEM_SIZE};

verus! {

/// The instruction set. An instruction is one opcode byte followed by its
/// operands; the byte of each opcode is its position in this list.
#[derive(Clone, Copy, Debug, PartialEq, Eq, Structural)]
pub enum Opcode {
    /// Stops the machine. No operands.
    Halt,
    /// Sets the instruction pointer. Operand: i32 absolute address.
    Jump,
    /// Copies a register to memory. Operands: u32 register, u32 address.
    Store,
    /// Sets a register to a literal. Operands: u32 register, i32 value.
    Load,
    /// Copies the word at an address to a register. Operands: u32 register, i32 address.
    LoadPointer,
    /// Copies one register to another. Operands: u32 destination, u32 source.
    LoadRegsiter,
    /// `A = A + B`, wrapping. No operands.
    Add,
    /// `A = A - B`, wrapping. No operands.
    Subtract,
    /// `A = A * B`, wrapping. No operands.
    Multiply,
    /// `A = A / B` and `C = A % B`, truncating. No operands.
    Divide,
    /// `A = 1` if `A == B`, else `A = 0`. No operands.
    CompareInteger,
    /// Does nothing. No operands.
    NoOperation,
    /// Moves the stack pointer down one word and stores a register there. Operand: u32 register.
    Push,
    /// Loads a register from the top of the stack and moves the stack pointer up. Operand: u32 register.
    Pop,
}

/// The byte that encodes `op`.
pub open spec fn opcode_byte(op: Opcode) -> u8 {
    match op {
        Opcode::Halt => 0,
        Opcode::Jump => 1,
        Opcode::Store => 2,
        Opcode::Load => 3,
        Opcode::LoadPointer => 4,
        Opcode::LoadRegsiter => 5,
        Opcode::Add => 6,
        Opcode::Subtract => 7,
        Opcode::Multiply => 8,
        Opcode::Divide => 9,
        Opcode::CompareInteger => 10,
        Opcode::NoOperation => 11,
        Opcode::Push => 12,
        Opcode::Pop => 13,
    }
}

/// The opcode that byte `b` encodes, if any.
pub open spec fn decode(b: u8) -> Option<Opcode> {
    if b == 0 {
        Some(Opcode::Halt)
    } else if b == 1 {
        Some(Opcode::Jump)
    } else if b == 2 {
        Some(Opcode::Store)
    } else if b == 3 {
        Some(Opcode::Load)
    } else if b == 4 {
        Some(Opcode::LoadPointer)
    } else if b == 5 {
        Some(Opcode::LoadRegsiter)
    } else if b == 6 {
        Some(Opcode::Add)
    } else if b == 7 {
        Some(Opcode::Subtract)
    } else if b == 8 {
        Some(Opcode::Multiply)
    } else if b == 9 {
        Some(Opcode::Divide)
    } else if b == 10 {
        Some(Opcode::CompareInteger)
    } else if b == 11 {
        Some(Opcode::NoOperation)
    } else if b == 12 {
        Some(Opcode::Push)
    } else if b == 13 {
        Some(Opcode::Pop)
    } else {
        None
    }
}

/// Number of operand bytes that follow the opcode byte of `op`.
pub open spec fn operand_bytes(op: Opcode) -> nat {
    match op {
        Opcode::Jump | Opcode::Push | Opcode::Pop => 4,
        Opcode::Store | Opcode::Load | Opcode::LoadPointer | Opcode::LoadRegsiter => 8,
        _ => 0,
    }
}

/// Decoding inverts encoding: every opcode's byte decodes to that opcode, and
/// every byte that decodes is the byte of the opcode it decodes to.
pub proof fn lemma_decode_inverts_encode(op: Opcode, b: u8)
    ensures
        decode(opcode_byte(op)) == Some(op),
        decode(b) == Some(op) ==> opcode_byte(op) == b,
        decode(b) is None <==> b >= 14,
{
}

/// The four little-endian bytes of `w`.
pub open spec fn le_bytes(w: u32) -> Seq<u8> {
    seq![(w % 0x100) as u8, (w / 0x100 % 0x100) as u8, (w / 0x1_0000 % 0x100) as u8, (w / 0x100_0000) as u8]
}

/// The word encoded by `le_bytes` is read back by `word_at`, wherever it stands.
pub proof fn lemma_le_bytes_decode(prefix: Seq<u8>, w: u32, suffix: Seq<u8>)
    ensures
        word_at(prefix + le_bytes(w) + suffix, prefix.len() as int) == w,
{
    let s = prefix + le_bytes(w) + suffix;
    let n = prefix.len() as int;
    assert(s[n] == le_bytes(w)[0] && s[n + 1] == le_bytes(w)[1] && s[n + 2] == le_bytes(w)[2]
        && s[n + 3] == le_bytes(w)[3]);
    assert(w == (w % 0x100) + (w / 0x100 % 0x100) * 0x100 + (w / 0x1_0000 % 0x100) * 0x1_0000 + (w
        / 0x100_0000) * 0x100_0000) by (nonlinear_arith);
}

impl Opcode {
    /// The opcode that `value` encodes; `Err` for a byte that encodes none.
    pub fn from(value: u8) -> (r: Result<Opcode, ()>)
        ensures
            r == (match decode(value) {
                Some(op) => Ok(op),
                None => Err(()),
            }),
    {
        match value {
            0 => Ok(Opcode::Halt),
            1 => Ok(Opcode::Jump),
            2 => Ok(Opcode::Store),
            3 => Ok(Opcode::Load),
            4 => Ok(Opcode::LoadPointer),
            5 => Ok(Opcode::LoadRegsiter),
            6 => Ok(Opcode::Add),
            7 => Ok(Opcode::Subtract),
            8 => Ok(Opcode::Multiply),
            9 => Ok(Opcode::Divide),
            10 => Ok(Opcode::CompareInteger),
            11 => Ok(Opcode::NoOperation),
            12 => Ok(Opcode::Push),
            13 => Ok(Opcode::Pop),
            _ => Err(()),
        }
    }

    /// The byte that encodes this opcode.
    pub fn to_byte(self) -> (r: u8)
        ensures
            r == opcode_byte(self),
    {
        match self {
            Opcode::Halt => 0,
            Opcode::Jump => 1,
            Opcode::Store => 2,
            Opcode::Load => 3,
            Opcode::LoadPointer => 4,
            Opcode::LoadRegsiter => 5,
            Opcode::Add => 6,
            Opcode::Subtract => 7,
            Opcode::Multiply => 8,
            Opcode::Divide => 9,
            Opcode::CompareInteger => 10,
            Opcode::NoOperation => 11,
            Opcode::Push => 12,
            Opcode::Pop => 13,
        }
    }

    /// Number of operand bytes that follow this opcode.
    pub fn operand_width(self) -> (r: usize)
        ensures
            r == operand_bytes(self),
    {
        match self {
            Opcode::Jump | Opcode::Push | Opcode::Pop => 4,
            Opcode::Store | Opcode::Load | Opcode::LoadPointer | Opcode::LoadRegsiter => 8,
            _ => 0,
        }
    }
}

/// A program as raw bytes.
pub type Program = Vec<u8>;

/// Appends opcodes and operands, encoded exactly as the machine decodes them.
pub struct ProgramBuilder {
    program: Program,
}

impl View for ProgramBuilder {
    type V = Seq<u8>;

    closed spec fn view(&self) -> Seq<u8> {
        self.program@
    }
}

impl ProgramBuilder {
    /// An empty program.
    pub fn new() -> (b: ProgramBuilder)
        ensures
            b@ == Seq::<u8>::empty(),
    {
        ProgramBuilder { program: Vec::new() }
    }

    /// Copies the program into `memory` from address 0 on; the bytes after it
    /// keep their contents.
    pub fn build(self, memory: &mut Memory)
        requires
            self@.len() <= MEM_SIZE,
        ensures
            final(memory)@ == self@ + old(memory)@.skip(self@.len() as int),
    {
        memory.load(self.program.as_slice());
    }

    /// Appends the byte of `ins`.
    pub fn instruction(&mut self, ins: Opcode) -> (r: &mut Self)
        ensures
            (*r)@ == old(self)@.push(opcode_byte(ins)),
            *final(self) == *final(r),
    {
        self.program.push(ins.to_byte());
        self
    }

    /// Appends one raw byte.
    pub fn u8(&mut self, byte: u8) -> (r: &mut Self)
        ensures
            (*r)@ == old(self)@.push(byte),
            *final(self) == *final(r),
    {
        self.program.push(byte);
        self
    }

    /// Appends `value` as four little-endian bytes.
    pub fn u32(&mut self, value: u32) -> (r: &mut Self)
        ensures
            (*r)@ == old(self)@ + le_bytes(value),
            *final(self) == *final(r),
    {
        self.program.push((value % 0x100) as u8);
        self.program.push((value / 0x100 % 0x100) as u8);
        self.program.push((value / 0x1_0000 % 0x100) as u8);
        self.program.push((value / 0x100_0000) as u8);
        assert(self@ =~= old(self)@ + le_bytes(value));
        self
    }

    /// Appends `value` as four little-endian, two's-complement bytes.
    pub fn i32(&mut self, value: i32) -> (r: &mut Self)
        ensures
            (*r)@ == old(self)@ + le_bytes(value as u32),
            *final(self) == *final(r),
    {
        self.u32(value as u32)
    }
}

} // verus!
