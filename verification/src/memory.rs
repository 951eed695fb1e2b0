//! A byte-addressable memory of fixed capacity with little-endian halfword
//! and word accessors. Every access is checked against the capacity, and a
//! rejected write leaves the memory as it was.

use vstd::prelude::*;

verus! {

/// The capacity of a default-constructed memory, in bytes.
pub const DEFAULT_MEMORY_POOL_SIZE: u32 = 1024;

/// Why a memory access was rejected.
#[derive(Debug, Clone, Copy, PartialEq, Eq, Structural)]
pub enum MemoryError {
    /// The access would reach past the end of the memory.
    OutOfBounds,
}

/// Whether `width` bytes starting at `address` lie within `mem`.
pub open spec fn in_bounds(mem: Seq<u8>, address: u32, width: nat) -> bool {
    address + width <= mem.len()
}

/// Byte `k` of `v`, counted from the least significant one.
pub open spec fn byte_of(v: u32, k: u32) -> u8 {
    ((v >> (8 * k) as u32) & 0xff) as u8
}

/// The halfword whose low byte is `b0` and whose high byte is `b1`.
pub open spec fn hw_from_bytes(b0: u8, b1: u8) -> u16 {
    (b0 as u16) | ((b1 as u16) << 8)
}

/// The word made of four bytes, `b0` the least significant.
pub open spec fn word_from_bytes(b0: u8, b1: u8, b2: u8, b3: u8) -> u32 {
    (b0 as u32) | ((b1 as u32) << 8) | ((b2 as u32) << 16) | ((b3 as u32) << 24)
}

/// The halfword stored at `address`, low address first.
pub open spec fn read_hw(mem: Seq<u8>, address: u32) -> u16 {
    hw_from_bytes(mem[address as int], mem[address + 1])
}

/// The word stored at `address`, low address first.
pub open spec fn read_word(mem: Seq<u8>, address: u32) -> u32 {
    word_from_bytes(mem[address as int], mem[address + 1], mem[address + 2], mem[address + 3])
}

/// `mem` with the byte at `address` replaced.
pub open spec fn write_byte(mem: Seq<u8>, address: u32, b: u8) -> Seq<u8> {
    mem.update(address as int, b)
}

/// `mem` with the halfword `hw` stored at `address`, low byte first.
pub open spec fn write_hw(mem: Seq<u8>, address: u32, hw: u16) -> Seq<u8> {
    mem.update(address as int, byte_of(hw as u32, 0)).update(address + 1, byte_of(hw as u32, 1))
}

/// `mem` with the word `w` stored at `address`, low byte first.
pub open spec fn write_word(mem: Seq<u8>, address: u32, w: u32) -> Seq<u8> {
    mem.update(address as int, byte_of(w, 0)).update(address + 1, byte_of(w, 1)).update(
        address + 2,
        byte_of(w, 2),
    ).update(address + 3, byte_of(w, 3))
}

/// A byte that was stored is read back.
pub proof fn lemma_byte_round_trip(mem: Seq<u8>, address: u32, b: u8)
    requires
        in_bounds(mem, address, 1),
    ensures
        write_byte(mem, address, b)[address as int] == b,
        write_byte(mem, address, b).len() == mem.len(),
{
}

/// A halfword that was stored is read back.
pub proof fn lemma_hw_round_trip(mem: Seq<u8>, address: u32, hw: u16)
    requires
        in_bounds(mem, address, 2),
    ensures
        read_hw(write_hw(mem, address, hw), address) == hw,
        write_hw(mem, address, hw).len() == mem.len(),
{
    assert(((((hw as u32) >> 0u32) & 0xff) as u8 as u16) | ((((((hw as u32) >> 8u32) & 0xff) as u8)
        as u16) << 8) == hw) by (bit_vector);
}

/// A word that was stored is read back.
pub proof fn lemma_word_round_trip(mem: Seq<u8>, address: u32, w: u32)
    requires
        in_bounds(mem, address, 4),
    ensures
        read_word(write_word(mem, address, w), address) == w,
        write_word(mem, address, w).len() == mem.len(),
{
    assert((((w >> 0u32) & 0xff) as u8 as u32) | ((((w >> 8u32) & 0xff) as u8 as u32) << 8) | ((((w
        >> 16u32) & 0xff) as u8 as u32) << 16) | ((((w >> 24u32) & 0xff) as u8 as u32) << 24) == w)
        by (bit_vector);
}

/// A stored word lies in memory least significant byte first: the byte at
/// `address + k` is `(w >> 8k) & 0xff`, and no byte outside the four changes.
pub proof fn lemma_word_little_endian(mem: Seq<u8>, address: u32, w: u32, k: u32)
    requires
        in_bounds(mem, address, 4),
        k < 4,
    ensures
        write_word(mem, address, w)[address + k] == (w >> (8 * k) as u32) & 0xff,
        forall|i: int|
            0 <= i < mem.len() && !(address <= i < address + 4) ==> write_word(mem, address, w)[i]
                == mem[i],
{
    let low = (w >> (8 * k) as u32) & 0xff;
    assert(low < 256) by (bit_vector)
        requires
            low == (w >> (8 * k) as u32) & 0xff,
    ;
}

/// A stored halfword lies in memory low byte first.
pub proof fn lemma_hw_little_endian(mem: Seq<u8>, address: u32, hw: u16, k: u32)
    requires
        in_bounds(mem, address, 2),
        k < 2,
    ensures
        write_hw(mem, address, hw)[address + k] == ((hw as u32) >> (8 * k) as u32) & 0xff,
        forall|i: int|
            0 <= i < mem.len() && !(address <= i < address + 2) ==> write_hw(mem, address, hw)[i]
                == mem[i],
{
    let low = ((hw as u32) >> (8 * k) as u32) & 0xff;
    assert(low < 256) by (bit_vector)
        requires
            low == ((hw as u32) >> (8 * k) as u32) & 0xff,
    ;
}

/// A fixed-size array of bytes.
#[derive(Debug)]
pub struct Memory {
    data: Vec<u8>,
}

impl View for Memory {
    type V = Seq<u8>;

    closed spec fn view(&self) -> Seq<u8> {
        self.data@
    }
}

impl Memory {
    /// A zero-filled memory of `pool` bytes.
    pub fn new(pool: u32) -> (m: Self)
        ensures
            m@.len() == pool,
            forall|i: int| 0 <= i < pool ==> m@[i] == 0,
    {
        let mut data: Vec<u8> = Vec::new();
        let mut n: u32 = 0;
        while n < pool
            invariant
                n <= pool,
                data@.len() == n,
                forall|i: int| 0 <= i < n ==> data@[i] == 0,
            decreases pool - n,
        {
            data.push(0);
            n = n + 1;
        }
        Memory { data }
    }

    /// The number of bytes the memory holds.
    pub fn capacity(&self) -> (n: usize)
        ensures
            n == self@.len(),
    {
        self.data.len()
    }

    /// Whether `width` bytes at `address` lie within the memory.
    fn holds(&self, address: u32, width: u64) -> (ok: bool)
        requires
            width <= 4,
        ensures
            ok == in_bounds(self@, address, width as nat),
            self@.len() <= usize::MAX,
    {
        address as u64 + width <= self.data.len() as u64
    }

    /// Reads the byte at `address`.
    pub fn byte_at(&self, address: u32) -> (r: Result<u8, MemoryError>)
        ensures
            match r {
                Ok(b) => in_bounds(self@, address, 1) && b == self@[address as int],
                Err(e) => !in_bounds(self@, address, 1) && e == MemoryError::OutOfBounds,
            },
    {
        if !self.holds(address, 1) {
            return Err(MemoryError::OutOfBounds);
        }
        Ok(self.data[address as usize])
    }

    /// Stores `b` at `address`.
    pub fn set_byte_at(&mut self, address: u32, b: u8) -> (r: Result<(), MemoryError>)
        ensures
            match r {
                Ok(_) => in_bounds(old(self)@, address, 1) && final(self)@ == write_byte(
                    old(self)@,
                    address,
                    b,
                ),
                Err(e) => !in_bounds(old(self)@, address, 1) && e == MemoryError::OutOfBounds
                    && final(self)@ == old(self)@,
            },
    {
        if !self.holds(address, 1) {
            return Err(MemoryError::OutOfBounds);
        }
        self.data.set(address as usize, b);
        Ok(())
    }

    /// Reads the little-endian halfword at `address` and `address + 1`.
    pub fn hw_at(&self, address: u32) -> (r: Result<u16, MemoryError>)
        ensures
            match r {
                Ok(hw) => in_bounds(self@, address, 2) && hw == read_hw(self@, address),
                Err(e) => !in_bounds(self@, address, 2) && e == MemoryError::OutOfBounds,
            },
    {
        if !self.holds(address, 2) {
            return Err(MemoryError::OutOfBounds);
        }
        let at: usize = address as usize;
        let b0: u16 = self.data[at] as u16;
        let b1: u16 = (self.data[at + 1] as u16) << 8;
        Ok(b0 | b1)
    }

    /// Stores `hw` at `address` and `address + 1`, low byte first.
    pub fn set_hw_at(&mut self, address: u32, hw: u16) -> (r: Result<(), MemoryError>)
        ensures
            match r {
                Ok(_) => in_bounds(old(self)@, address, 2) && final(self)@ == write_hw(
                    old(self)@,
                    address,
                    hw,
                ),
                Err(e) => !in_bounds(old(self)@, address, 2) && e == MemoryError::OutOfBounds
                    && final(self)@ == old(self)@,
            },
    {
        if !self.holds(address, 2) {
            return Err(MemoryError::OutOfBounds);
        }
        let at: usize = address as usize;
        let w: u32 = hw as u32;
        self.data.set(at, #[verifier::truncate] (((w >> 0) & 0xff) as u8));
        self.data.set(at + 1, #[verifier::truncate] (((w >> 8) & 0xff) as u8));
        Ok(())
    }

    /// Reads the little-endian word at `address` to `address + 3`.
    pub fn word_at(&self, address: u32) -> (r: Result<u32, MemoryError>)
        ensures
            match r {
                Ok(w) => in_bounds(self@, address, 4) && w == read_word(self@, address),
                Err(e) => !in_bounds(self@, address, 4) && e == MemoryError::OutOfBounds,
            },
    {
        if !self.holds(address, 4) {
            return Err(MemoryError::OutOfBounds);
        }
        let at: usize = address as usize;
        let b0: u32 = self.data[at] as u32;
        let b1: u32 = (self.data[at + 1] as u32) << 8;
        let b2: u32 = (self.data[at + 2] as u32) << 16;
        let b3: u32 = (self.data[at + 3] as u32) << 24;
        Ok(b0 | b1 | b2 | b3)
    }

    /// Stores `w` at `address` to `address + 3`, low byte first.
    pub fn set_word_at(&mut self, address: u32, w: u32) -> (r: Result<(), MemoryError>)
        ensures
            match r {
                Ok(_) => in_bounds(old(self)@, address, 4) && final(self)@ == write_word(
                    old(self)@,
                    address,
                    w,
                ),
                Err(e) => !in_bounds(old(self)@, address, 4) && e == MemoryError::OutOfBounds
                    && final(self)@ == old(self)@,
            },
    {
        if !self.holds(address, 4) {
            return Err(MemoryError::OutOfBounds);
        }
        let at: usize = address as usize;
        self.data.set(at, #[verifier::truncate] (((w >> 0) & 0xff) as u8));
        self.data.set(at + 1, #[verifier::truncate] (((w >> 8) & 0xff) as u8));
        self.data.set(at + 2, #[verifier::truncate] (((w >> 16) & 0xff) as u8));
        self.data.set(at + 3, #[verifier::truncate] (((w >> 24) & 0xff) as u8));
        Ok(())
    }
}

impl Default for Memory {
    /// A zero-filled memory of the default capacity.
    fn default() -> (m: Self)
        ensures
            m@.len() == DEFAULT_MEMORY_POOL_SIZE,
            forall|i: int| 0 <= i < DEFAULT_MEMORY_POOL_SIZE ==> m@[i] == 0,
    {
        Memory::new(DEFAULT_MEMORY_POOL_SIZE)
    }
}

} // verus!
