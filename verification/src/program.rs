//! A program: a read-only code image and the index of the word behind its
//! last instruction, with the driver that fetches, decodes and carries out
//! the instruction under the program counter.

use crate::cpu::{Register, REGISTER_INCREMENT};
use crate::memory::{
    in_bounds, lemma_word_round_trip, read_word, write_byte, write_word, Memory,
    DEFAULT_MEMORY_POOL_SIZE,
};
use crate::rv32i::instr::instruction::{Instruction, InstructionError};
use crate::rv32i::instr::operation::decode_operation;
use crate::vm::{meets, step_spec, MachineState, VM};
use vstd::prelude::*;

verus! {

/// The number of instructions after which `run` gives up on a program that
/// has not come to its end.
pub const RUN_STEP_LIMIT: u64 = u64::MAX;

/// The instruction that the code image `rom` holds at `pc`, or the error
/// that fetching or decoding it gives.
pub open spec fn fetch_spec(rom: Seq<u8>, pc: u32) -> Result<Instruction, InstructionError> {
    if !in_bounds(rom, pc, 4) {
        Err(InstructionError::InvalidMemory)
    } else {
        match decode_operation(read_word(rom, pc)) {
            Some(opcode) => Ok(Instruction { opcode, raw: read_word(rom, pc) }),
            None => Err(InstructionError::UnknownOperation(read_word(rom, pc))),
        }
    }
}

/// Whether the program counter of `s` stands on word `end`, one past the
/// last instruction.
pub open spec fn done_spec(s: MachineState, end: nat) -> bool {
    s.pc() / REGISTER_INCREMENT == end
}

/// One fetch, decode and execute: the next state or the error.
pub open spec fn program_step_spec(rom: Seq<u8>, s: MachineState) -> Result<
    MachineState,
    InstructionError,
> {
    match fetch_spec(rom, s.pc()) {
        Ok(i) => step_spec(s, i),
        Err(e) => Err(e),
    }
}

/// How a run stops: the state it stops in, the instruction that was handed
/// to the interpreter last, and whether an instruction was rejected.
pub struct RunOutcome {
    pub state: MachineState,
    pub last: Option<Instruction>,
    pub result: Result<(), InstructionError>,
}

/// How a run that starts in `s` stops: it steps until the program counter
/// stands on word `end`, an instruction is rejected, or `fuel` steps were
/// made. A rejected instruction leaves the state that it was met in; it is
/// recorded as the last instruction if it could be fetched and decoded.
pub open spec fn run_spec(
    rom: Seq<u8>,
    end: nat,
    s: MachineState,
    last: Option<Instruction>,
    fuel: nat,
) -> RunOutcome
    decreases fuel,
{
    if fuel == 0 || done_spec(s, end) {
        RunOutcome { state: s, last, result: Ok(()) }
    } else {
        match fetch_spec(rom, s.pc()) {
            Err(e) => RunOutcome { state: s, last, result: Err(e) },
            Ok(i) => match step_spec(s, i) {
                Ok(next) => run_spec(rom, end, next, Some(i), (fuel - 1) as nat),
                Err(e) => RunOutcome { state: s, last: Some(i), result: Err(e) },
            },
        }
    }
}

/// A code image and the index of the word behind its last instruction.
pub struct Program {
    end: usize,
    rom: Memory,
}

impl Program {
    /// The bytes of the code image.
    pub closed spec fn rom_spec(&self) -> Seq<u8> {
        self.rom@
    }

    /// The index of the word one past the last instruction.
    pub closed spec fn end_spec(&self) -> nat {
        self.end as nat
    }

    /// The program that holds the instruction `words` from byte 0 on,
    /// each word little-endian, and ends behind the last of them.
    pub fn from_asm(words: &[u32]) -> (prg: Self)
        requires
            4 * words@.len() <= DEFAULT_MEMORY_POOL_SIZE,
        ensures
            prg.end_spec() == words@.len(),
            prg.rom_spec().len() == DEFAULT_MEMORY_POOL_SIZE,
            forall|n: int|
                0 <= n < words@.len() ==> read_word(prg.rom_spec(), (4 * n) as u32) == words@[n],
            forall|k: int|
                4 * words@.len() <= k < DEFAULT_MEMORY_POOL_SIZE ==> prg.rom_spec()[k] == 0,
    {
        let mut prg: Self = Program::default();
        let mut n: usize = 0;
        while n < words.len()
            invariant
                n <= words@.len(),
                4 * words@.len() <= DEFAULT_MEMORY_POOL_SIZE,
                prg.rom@.len() == DEFAULT_MEMORY_POOL_SIZE,
                forall|m: int| 0 <= m < n ==> read_word(prg.rom@, (4 * m) as u32) == words@[m],
                forall|k: int| 4 * n <= k < DEFAULT_MEMORY_POOL_SIZE ==> prg.rom@[k] == 0,
            decreases words@.len() - n,
        {
            let at: u32 = (n * 4) as u32;
            let ghost before = prg.rom@;
            let stored = prg.rom.set_word_at(at, words[n]);
            assert(stored.is_ok());
            proof {
                lemma_word_round_trip(before, at, words@[n as int]);
                assert forall|m: int| 0 <= m < n implies read_word(prg.rom@, (4 * m) as u32)
                    == words@[m] by {
                    assert(read_word(before, (4 * m) as u32) == words@[m]);
                    assert(prg.rom@[4 * m] == before[4 * m]);
                    assert(prg.rom@[4 * m + 1] == before[4 * m + 1]);
                    assert(prg.rom@[4 * m + 2] == before[4 * m + 2]);
                    assert(prg.rom@[4 * m + 3] == before[4 * m + 3]);
                }
            }
            n = n + 1;
        }
        prg.end = words.len();
        prg
    }

    /// The number of bytes that the code image holds.
    pub fn rom_capacity(&self) -> (n: usize)
        ensures
            n == self.rom_spec().len(),
    {
        self.rom.capacity()
    }

    /// Places `byte` at position `pos` of the code image and lets the
    /// program end behind the word that holds it.
    pub fn write(&mut self, pos: u32, byte: u8)
        requires
            in_bounds(old(self).rom_spec(), pos, 1),
        ensures
            final(self).rom_spec() == write_byte(old(self).rom_spec(), pos, byte),
            final(self).end_spec() == pos / 4 + 1,
    {
        let stored = self.rom.set_byte_at(pos, byte);
        assert(stored.is_ok());
        self.end = (pos / 4) as usize + 1;
    }

    /// Whether the program counter of `vm` stands behind the last
    /// instruction.
    pub fn is_done(&self, vm: &VM) -> (done: bool)
        ensures
            done == done_spec(vm.state(), self.end_spec()),
    {
        (vm.cpu.register.get(Register::PC) / REGISTER_INCREMENT) as usize == self.end
    }

    /// Decodes the instruction under the program counter of `vm` without
    /// carrying it out.
    pub fn peek(&self, vm: &VM) -> (r: Result<Instruction, InstructionError>)
        ensures
            r == fetch_spec(self.rom_spec(), vm.state().pc()),
    {
        let pc = vm.cpu.register.get(Register::PC);
        match self.rom.word_at(pc) {
            Ok(code) => Instruction::parse(code),
            Err(e) => Err(InstructionError::from(e)),
        }
    }

    /// Fetches, decodes and carries out the instruction under the program
    /// counter of `vm`. Where any of the three fails, `vm` keeps its state.
    pub fn step(&self, vm: &mut VM, _iteration: usize) -> (r: Result<(), InstructionError>)
        ensures
            meets(
                old(vm).state(),
                final(vm).state(),
                r,
                program_step_spec(self.rom_spec(), old(vm).state()),
            ),
            match fetch_spec(self.rom_spec(), old(vm).state().pc()) {
                Ok(i) => final(vm).last == Some(i),
                Err(_) => final(vm).last == old(vm).last,
            },
    {
        let inst = self.peek(vm)?;
        vm.execute(inst)
    }

    /// Steps `vm` until its program counter stands behind the last
    /// instruction, an instruction is rejected, or `RUN_STEP_LIMIT` steps
    /// were made. On an error `vm` is left as the rejected instruction met
    /// it.
    pub fn run(&self, vm: &mut VM) -> (r: Result<(), InstructionError>)
        ensures
            (RunOutcome { state: final(vm).state(), last: final(vm).last, result: r }) == run_spec(
                self.rom_spec(),
                self.end_spec(),
                old(vm).state(),
                old(vm).last,
                RUN_STEP_LIMIT as nat,
            ),
    {
        let mut left: u64 = RUN_STEP_LIMIT;
        let mut iteration: usize = 0;
        while left > 0 && !self.is_done(vm)
            invariant
                run_spec(self.rom_spec(), self.end_spec(), vm.state(), vm.last, left as nat)
                    == run_spec(
                    self.rom_spec(),
                    self.end_spec(),
                    old(vm).state(),
                    old(vm).last,
                    RUN_STEP_LIMIT as nat,
                ),
            decreases left,
        {
            match self.step(vm, iteration) {
                Ok(()) => {},
                Err(e) => {
                    return Err(e);
                },
            }
            left = left - 1;
            iteration = iteration.wrapping_add(1);
        }
        Ok(())
    }
}

impl Default for Program {
    /// The empty program: a zero-filled code image of the default capacity
    /// that ends at word 0.
    fn default() -> (prg: Self)
        ensures
            prg.end_spec() == 0,
            prg.rom_spec().len() == DEFAULT_MEMORY_POOL_SIZE,
            forall|k: int| 0 <= k < DEFAULT_MEMORY_POOL_SIZE ==> prg.rom_spec()[k] == 0,
    {
        Program { end: 0, rom: Memory::default() }
    }
}

} // verus!
