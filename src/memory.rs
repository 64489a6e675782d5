use vstd::prelude::*;

verus! {

/// Number of addressable bytes.
pub const MEM_SIZE: usize = 4096;

/// The unsigned 32-bit word stored little-endian in `bytes` at `[addr, addr + 4)`.
pub open spec fn word_at(bytes: Seq<u8>, addr: int) -> u32 {
    (bytes[addr] as int + bytes[addr + 1] as int * 0x100 + bytes[addr + 2] as int * 0x1_0000
        + bytes[addr + 3] as int * 0x100_0000) as u32
}

/// The signed 32-bit value stored little-endian, two's complement, at `[addr, addr + 4)`.
pub open spec fn i32_at(bytes: Seq<u8>, addr: int) -> i32 {
    word_at(bytes, addr) as i32
}

/// `bytes` with the word `w` written little-endian at `[addr, addr + 4)`.
pub open spec fn with_word(bytes: Seq<u8>, addr: int, w: u32) -> Seq<u8> {
    bytes.update(addr, (w % 0x100) as u8).update(addr + 1, (w / 0x100 % 0x100) as u8).update(
        addr + 2,
        (w / 0x1_0000 % 0x100) as u8,
    ).update(addr + 3, (w / 0x100_0000) as u8)
}

/// Whether the `width` bytes from `addr` on lie inside memory.
pub open spec fn in_bounds(addr: int, width: int) -> bool {
    0 <= addr && addr + width <= MEM_SIZE
}

/// A word written at `addr` reads back unchanged, and the bytes outside
/// `[addr, addr + 4)` are left as they were.
pub proof fn lemma_word_round_trip(bytes: Seq<u8>, addr: int, w: u32)
    requires
        0 <= addr,
        addr + 4 <= bytes.len(),
    ensures
        word_at(with_word(bytes, addr, w), addr) == w,
        with_word(bytes, addr, w).len() == bytes.len(),
        forall|i: int|
            0 <= i < bytes.len() && !(addr <= i < addr + 4) ==> #[trigger] with_word(
                bytes,
                addr,
                w,
            )[i] == bytes[i],
{
    assert(w == (w % 0x100) + (w / 0x100 % 0x100) * 0x100 + (w / 0x1_0000 % 0x100) * 0x1_0000 + (w
        / 0x100_0000) * 0x100_0000) by (nonlinear_arith);
}

/// A signed value written as its two's-complement word reads back unchanged.
pub proof fn lemma_i32_round_trip(bytes: Seq<u8>, addr: int, v: i32)
    requires
        0 <= addr,
        addr + 4 <= bytes.len(),
    ensures
        i32_at(with_word(bytes, addr, v as u32), addr) == v,
{
    lemma_word_round_trip(bytes, addr, v as u32);
    assert((v as u32) as i32 == v) by (bit_vector);
}

/// A flat, fixed-size, byte-addressable memory.
pub struct Memory {
    pub memory: [u8; MEM_SIZE],
}

impl View for Memory {
    type V = Seq<u8>;

    open spec fn view(&self) -> Seq<u8> {
        self.memory@
    }
}

impl Memory {
    /// A memory of `MEM_SIZE` zero bytes.
    pub fn new() -> (m: Memory)
        ensures
            m@ == Seq::new(MEM_SIZE as nat, |i: int| 0u8),
    {
        let m = Memory { memory: [0u8; MEM_SIZE] };
        assert(m@ =~= Seq::new(MEM_SIZE as nat, |i: int| 0u8));
        m
    }

    /// Writes `value` little-endian, two's complement, at `[addr, addr + 4)`.
    pub fn write_i32(&mut self, addr: usize, value: i32)
        requires
            addr + 4 <= MEM_SIZE,
        ensures
            final(self)@ == with_word(old(self)@, addr as int, value as u32),
    {
        let w = value as u32;
        self.memory[addr] = (w % 0x100) as u8;
        self.memory[addr + 1] = (w / 0x100 % 0x100) as u8;
        self.memory[addr + 2] = (w / 0x1_0000 % 0x100) as u8;
        self.memory[addr + 3] = (w / 0x100_0000) as u8;
        assert(self@ =~= with_word(old(self)@, addr as int, value as u32));
    }

    /// Writes one byte at `addr`.
    pub fn write_u8(&mut self, addr: usize, value: u8)
        requires
            addr < MEM_SIZE,
        ensures
            final(self)@ == old(self)@.update(addr as int, value),
    {
        self.memory[addr] = value;
        assert(self@ =~= old(self)@.update(addr as int, value));
    }

    /// Reads the little-endian, two's-complement value at `[addr, addr + 4)`.
    pub fn read_i32(&self, addr: usize) -> (r: i32)
        requires
            addr + 4 <= MEM_SIZE,
        ensures
            r == i32_at(self@, addr as int),
    {
        let w: u32 = self.memory[addr] as u32 + self.memory[addr + 1] as u32 * 0x100
            + self.memory[addr + 2] as u32 * 0x1_0000 + self.memory[addr + 3] as u32 * 0x100_0000;
        w as i32
    }

    /// Reads the byte at `addr`.
    pub fn read_u8(&self, addr: usize) -> (r: u8)
        requires
            addr < MEM_SIZE,
        ensures
            r == self@[addr as int],
    {
        self.memory[addr]
    }

    /// Copies `bytes` into memory from address 0 on; the bytes after them keep
    /// their contents.
    pub fn load(&mut self, bytes: &[u8])
        requires
            bytes@.len() <= MEM_SIZE,
        ensures
            final(self)@ == bytes@ + old(self)@.skip(bytes@.len() as int),
    {
        let mut i: usize = 0;
        while i < bytes.len()
            invariant
                i <= bytes@.len() <= MEM_SIZE,
                self@.len() == MEM_SIZE,
                forall|j: int| 0 <= j < i ==> self@[j] == bytes@[j],
                forall|j: int| i <= j < MEM_SIZE ==> self@[j] == old(self)@[j],
            decreases bytes@.len() - i,
        {
            self.write_u8(i, bytes[i]);
            i = i + 1;
        }
        assert(self@ =~= bytes@ + old(self)@.skip(bytes@.len() as int));
    }
}

} // verus!
