//! The interpreter: one instruction carried out against the registers and
//! the memory. What an instruction does is stated by `step_spec`, a function
//! from the machine's state and the instruction to the next state or to the
//! error that rejects the instruction.

use crate::bitops::{
    add_signed, add_wrapping, from_signed, lemma_wrap_add, shift_right_arithmetic, shift_right_arithmetic_spec,
    sign_extend, sign_extend_spec, signed32, sub_wrapping, to_signed, wrap32,
};
use crate::cpu::{Register, REGISTER_INCREMENT, CPU};
use crate::memory::{
    byte_of, in_bounds, read_hw, read_word, write_byte, write_hw, write_word, Memory,
};
use crate::rv32i::instr::instruction::{Instruction, InstructionError};
use crate::rv32i::instr::operation::Operation;
use crate::rv32i::instr::part::Part;
use vstd::prelude::*;

verus! {

/// What an instruction reads and changes: the 33 register slots, slot 32
/// being the program counter, and the bytes of the memory.
pub struct MachineState {
    pub regs: Seq<u32>,
    pub mem: Seq<u8>,
}

impl MachineState {
    /// What the register in slot `k` reads as.
    pub open spec fn reg(self, k: u32) -> u32 {
        self.regs[k as int]
    }

    /// The program counter.
    pub open spec fn pc(self) -> u32 {
        self.regs[32]
    }

    /// The state after a write of `v` to slot `k`. A write to slot 0, the
    /// zero register, is discarded.
    pub open spec fn with_reg(self, k: u32, v: u32) -> MachineState {
        if k == 0 {
            self
        } else {
            MachineState { regs: self.regs.update(k as int, v), mem: self.mem }
        }
    }

    /// The state with the program counter set to `v`.
    pub open spec fn with_pc(self, v: u32) -> MachineState {
        MachineState { regs: self.regs.update(32, v), mem: self.mem }
    }

    /// The state with the memory replaced.
    pub open spec fn with_mem(self, mem: Seq<u8>) -> MachineState {
        MachineState { regs: self.regs, mem }
    }

    /// The state with the program counter moved on by one instruction.
    pub open spec fn advance(self) -> MachineState {
        self.with_pc(wrap32(self.pc() + REGISTER_INCREMENT))
    }
}

/// The destination register field.
pub open spec fn rd(raw: u32) -> u32 {
    Part::Dest.value_spec(raw)
}

/// The first source register field.
pub open spec fn rs1(raw: u32) -> u32 {
    Part::Reg1.value_spec(raw)
}

/// The second source register field.
pub open spec fn rs2(raw: u32) -> u32 {
    Part::Reg2.value_spec(raw)
}

/// The funct3 field.
pub open spec fn funct3(raw: u32) -> u32 {
    Part::Funct3.value_spec(raw)
}

/// The funct7 field.
pub open spec fn funct7(raw: u32) -> u32 {
    Part::Funct7.value_spec(raw)
}

/// The 12 immediate bits of an I-type word.
pub open spec fn imm_i_bits(raw: u32) -> u32 {
    Part::Imm110.value_spec(raw)
}

/// The 12 immediate bits of an S-type word, put together from its two
/// pieces.
pub open spec fn imm_s_bits(raw: u32) -> u32 {
    (Part::Imm115.value_spec(raw) << 5) | Part::Imm40.value_spec(raw)
}

/// The 13 immediate bits of a B-type word, put together from its four
/// pieces. Bit 0 is zero.
pub open spec fn imm_b_bits(raw: u32) -> u32 {
    (Part::B12b.value_spec(raw) << 12) | (Part::B11b.value_spec(raw) << 11) | (
    Part::Imm105.value_spec(raw) << 5) | (Part::Imm41.value_spec(raw) << 1)
}

/// The 21 immediate bits of a J-type word, put together from its four
/// pieces. Bit 0 is zero.
pub open spec fn imm_j_bits(raw: u32) -> u32 {
    (Part::B20j.value_spec(raw) << 20) | (Part::Imm1912.value_spec(raw) << 12) | (
    Part::B11j.value_spec(raw) << 11) | (Part::Imm101.value_spec(raw) << 1)
}

/// The immediate of a U-type word: its upper 20 bits in place, the low 12
/// bits zero.
pub open spec fn imm_u(raw: u32) -> u32 {
    Part::Imm3112.value_spec(raw) << 12
}

/// The sign-extended immediate of an I-type word.
pub open spec fn imm_i(raw: u32) -> int {
    sign_extend_spec(imm_i_bits(raw), 12)
}

/// The sign-extended immediate of an S-type word.
pub open spec fn imm_s(raw: u32) -> int {
    sign_extend_spec(imm_s_bits(raw), 12)
}

/// The sign-extended offset of a B-type word.
pub open spec fn imm_b(raw: u32) -> int {
    sign_extend_spec(imm_b_bits(raw), 13)
}

/// The sign-extended offset of a J-type word.
pub open spec fn imm_j(raw: u32) -> int {
    sign_extend_spec(imm_j_bits(raw), 21)
}

/// 1 where `b` holds, else 0.
pub open spec fn flag(b: bool) -> u32 {
    if b {
        1
    } else {
        0
    }
}

/// The result of a register-register operation on `a` and `b`, or `None`
/// where `f3` and `f7` name no operation.
pub open spec fn math_spec(f3: u32, f7: u32, a: u32, b: u32) -> Option<u32> {
    if f3 == 0b000 && f7 == 0b0000000 {
        Some(wrap32(a + b))
    } else if f3 == 0b000 && f7 == 0b0100000 {
        Some(wrap32(a - b))
    } else if f3 == 0b001 && f7 == 0b0000000 {
        Some(a << (b & 0x1f))
    } else if f3 == 0b010 && f7 == 0b0000000 {
        Some(flag(signed32(a) < signed32(b)))
    } else if f3 == 0b011 && f7 == 0b0000000 {
        Some(flag(a < b))
    } else if f3 == 0b100 && f7 == 0b0000000 {
        Some(a ^ b)
    } else if f3 == 0b101 && f7 == 0b0000000 {
        Some(a >> (b & 0x1f))
    } else if f3 == 0b101 && f7 == 0b0100000 {
        Some(shift_right_arithmetic_spec(a, b & 0x1f))
    } else if f3 == 0b110 && f7 == 0b0000000 {
        Some(a | b)
    } else if f3 == 0b111 && f7 == 0b0000000 {
        Some(a & b)
    } else {
        None
    }
}

/// The result of a register-immediate operation on `a` and the 12
/// immediate bits `imm`, or `None` where `f3` is a shift and the upper seven
/// immediate bits are neither of the two patterns that a shift allows.
pub open spec fn immediate_math_spec(f3: u32, imm: u32, a: u32) -> Option<u32> {
    let extended = sign_extend_spec(imm, 12);
    if f3 == 0b000 {
        Some(wrap32(a + extended))
    } else if f3 == 0b010 {
        Some(flag(signed32(a) < extended))
    } else if f3 == 0b011 {
        Some(flag(a < wrap32(extended)))
    } else if f3 == 0b100 {
        Some(a ^ wrap32(extended))
    } else if f3 == 0b110 {
        Some(a | wrap32(extended))
    } else if f3 == 0b111 {
        Some(a & wrap32(extended))
    } else if f3 == 0b001 && imm >> 5 == 0b0000000 {
        Some(a << (imm & 0x1f))
    } else if f3 == 0b101 && imm >> 5 == 0b0000000 {
        Some(a >> (imm & 0x1f))
    } else if f3 == 0b101 && imm >> 5 == 0b0100000 {
        Some(shift_right_arithmetic_spec(a, imm & 0x1f))
    } else {
        None
    }
}

/// The value that a load of kind `f3` reads at `address`, or the error
/// that rejects it.
pub open spec fn load_spec(f3: u32, mem: Seq<u8>, address: u32) -> Result<u32, InstructionError> {
    if f3 == 0b000 {
        if in_bounds(mem, address, 1) {
            Ok(wrap32(sign_extend_spec(mem[address as int] as u32, 8)))
        } else {
            Err(InstructionError::InvalidMemory)
        }
    } else if f3 == 0b001 {
        if in_bounds(mem, address, 2) {
            Ok(wrap32(sign_extend_spec(read_hw(mem, address) as u32, 16)))
        } else {
            Err(InstructionError::InvalidMemory)
        }
    } else if f3 == 0b010 {
        if in_bounds(mem, address, 4) {
            Ok(read_word(mem, address))
        } else {
            Err(InstructionError::InvalidMemory)
        }
    } else if f3 == 0b100 {
        if in_bounds(mem, address, 1) {
            Ok(mem[address as int] as u32)
        } else {
            Err(InstructionError::InvalidMemory)
        }
    } else if f3 == 0b101 {
        if in_bounds(mem, address, 2) {
            Ok(read_hw(mem, address) as u32)
        } else {
            Err(InstructionError::InvalidMemory)
        }
    } else {
        Err(InstructionError::InvalidOperation(Operation::Load))
    }
}

/// The memory after a store of kind `f3` of the low bytes of `v` at
/// `address`, or the error that rejects it.
pub open spec fn store_spec(f3: u32, mem: Seq<u8>, address: u32, v: u32) -> Result<
    Seq<u8>,
    InstructionError,
> {
    if f3 == 0b000 {
        if in_bounds(mem, address, 1) {
            Ok(write_byte(mem, address, byte_of(v, 0)))
        } else {
            Err(InstructionError::InvalidMemory)
        }
    } else if f3 == 0b001 {
        if in_bounds(mem, address, 2) {
            Ok(write_hw(mem, address, (v & 0xffff) as u16))
        } else {
            Err(InstructionError::InvalidMemory)
        }
    } else if f3 == 0b010 {
        if in_bounds(mem, address, 4) {
            Ok(write_word(mem, address, v))
        } else {
            Err(InstructionError::InvalidMemory)
        }
    } else {
        Err(InstructionError::InvalidOperation(Operation::Store))
    }
}

/// Whether the branch of kind `f3` is taken on `a` and `b`, or `None` where
/// `f3` names no branch.
pub open spec fn branch_spec(f3: u32, a: u32, b: u32) -> Option<bool> {
    if f3 == 0b000 {
        Some(a == b)
    } else if f3 == 0b001 {
        Some(a != b)
    } else if f3 == 0b100 {
        Some(signed32(a) < signed32(b))
    } else if f3 == 0b101 {
        Some(signed32(a) >= signed32(b))
    } else if f3 == 0b110 {
        Some(a < b)
    } else if f3 == 0b111 {
        Some(a >= b)
    } else {
        None
    }
}

/// The address that a jump to register plus offset lands on: bit 0 of the
/// sum is cleared.
pub open spec fn jalr_target(base: u32, raw: u32) -> u32 {
    wrap32(base + imm_i(raw)) & 0xffff_fffe
}

/// What the handler of an instruction does before the program counter is
/// moved on. A handler that sets the program counter sets it 4 below its
/// target, so that the increment which follows every handler lands on the
/// target.
pub open spec fn apply_spec(s: MachineState, i: Instruction) -> Result<
    MachineState,
    InstructionError,
> {
    let raw = i.raw;
    match i.opcode {
        Operation::LUI => Ok(s.with_reg(rd(raw), imm_u(raw))),
        Operation::AUIPC => Ok(s.with_reg(rd(raw), wrap32(s.pc() + imm_u(raw)))),
        Operation::Math => match math_spec(
            funct3(raw),
            funct7(raw),
            s.reg(rs1(raw)),
            s.reg(rs2(raw)),
        ) {
            Some(v) => Ok(s.with_reg(rd(raw), v)),
            None => Err(InstructionError::InvalidOperation(Operation::Math)),
        },
        Operation::ImmediateMath => match immediate_math_spec(
            funct3(raw),
            imm_i_bits(raw),
            s.reg(rs1(raw)),
        ) {
            Some(v) => Ok(s.with_reg(rd(raw), v)),
            None => Err(InstructionError::InvalidOperation(Operation::ImmediateMath)),
        },
        Operation::Load => match load_spec(
            funct3(raw),
            s.mem,
            wrap32(s.reg(rs1(raw)) + imm_i(raw)),
        ) {
            Ok(v) => Ok(s.with_reg(rd(raw), v)),
            Err(e) => Err(e),
        },
        Operation::Store => match store_spec(
            funct3(raw),
            s.mem,
            wrap32(s.reg(rs1(raw)) + imm_s(raw)),
            s.reg(rs2(raw)),
        ) {
            Ok(mem) => Ok(s.with_mem(mem)),
            Err(e) => Err(e),
        },
        Operation::Branch => match branch_spec(funct3(raw), s.reg(rs1(raw)), s.reg(rs2(raw))) {
            Some(taken) => if taken {
                Ok(s.with_pc(wrap32(s.pc() + imm_b(raw) - REGISTER_INCREMENT)))
            } else {
                Ok(s)
            },
            None => Err(InstructionError::InvalidOperation(Operation::Branch)),
        },
        Operation::JAL => Ok(
            s.with_reg(rd(raw), wrap32(s.pc() + REGISTER_INCREMENT)).with_pc(
                wrap32(s.pc() + imm_j(raw) - REGISTER_INCREMENT),
            ),
        ),
        Operation::JALR => Ok(
            s.with_reg(rd(raw), wrap32(s.pc() + REGISTER_INCREMENT)).with_pc(
                wrap32(jalr_target(s.reg(rs1(raw)), raw) - REGISTER_INCREMENT),
            ),
        ),
        Operation::FENCE => Err(InstructionError::InvalidOperation(Operation::FENCE)),
        Operation::Call => Err(InstructionError::InvalidOperation(Operation::Call)),
    }
}

/// What carrying out one instruction does: the handler's work, then the
/// program counter moved on by 4. A rejected instruction changes nothing.
pub open spec fn step_spec(s: MachineState, i: Instruction) -> Result<
    MachineState,
    InstructionError,
> {
    match apply_spec(s, i) {
        Ok(done) => Ok(done.advance()),
        Err(e) => Err(e),
    }
}

/// Where the program counter stands after `i` was carried out in state `s`:
/// on the target of a jump or of a branch that is taken, else on the next
/// instruction.
pub open spec fn next_pc(s: MachineState, i: Instruction) -> u32 {
    let raw = i.raw;
    match i.opcode {
        Operation::Branch => if branch_spec(funct3(raw), s.reg(rs1(raw)), s.reg(rs2(raw)))
            == Some(true) {
            wrap32(s.pc() + imm_b(raw))
        } else {
            wrap32(s.pc() + REGISTER_INCREMENT)
        },
        Operation::JAL => wrap32(s.pc() + imm_j(raw)),
        Operation::JALR => jalr_target(s.reg(rs1(raw)), raw),
        _ => wrap32(s.pc() + REGISTER_INCREMENT),
    }
}

/// Program counter progression: an instruction that is carried out leaves
/// the program counter 4 above where it was, unless it is a jump or a branch
/// that is taken, which leave it on their target.
pub proof fn lemma_pc_progression(s: MachineState, i: Instruction)
    requires
        s.regs.len() == 33,
    ensures
        match step_spec(s, i) {
            Ok(next) => next.pc() == next_pc(s, i),
            Err(_) => true,
        },
{
    let raw = i.raw;
    lemma_field_ranges(raw, 0);
    match i.opcode {
        Operation::Branch => {
            lemma_wrap_add(s.pc() + imm_b(raw) - REGISTER_INCREMENT, REGISTER_INCREMENT as int);
        },
        Operation::JAL => {
            lemma_wrap_add(s.pc() + imm_j(raw) - REGISTER_INCREMENT, REGISTER_INCREMENT as int);
        },
        Operation::JALR => {
            lemma_wrap_add(
                jalr_target(s.reg(rs1(raw)), raw) - REGISTER_INCREMENT,
                REGISTER_INCREMENT as int,
            );
        },
        _ => {},
    }
}

/// The zero register stays zero: in a state where slot 0 reads as 0, no
/// instruction leaves anything else there, whatever register it names as its
/// destination.
pub proof fn lemma_zero_register_stays(s: MachineState, i: Instruction)
    requires
        s.regs.len() == 33,
        s.regs[0] == 0,
    ensures
        match step_spec(s, i) {
            Ok(next) => next.regs.len() == 33 && next.regs[0] == 0,
            Err(_) => true,
        },
{
    lemma_field_ranges(i.raw, 0);
}

/// An instruction changes at most its destination register, the program
/// counter and, where it is a store, the memory.
pub proof fn lemma_step_frame(s: MachineState, i: Instruction, k: int)
    requires
        s.regs.len() == 33,
        0 <= k < 32,
        k != rd(i.raw),
    ensures
        match step_spec(s, i) {
            Ok(next) => next.regs[k] == s.regs[k] && (i.opcode != Operation::Store ==> next.mem
                == s.mem),
            Err(_) => true,
        },
{
    lemma_field_ranges(i.raw, 0);
}

/// Whether `outcome` and the state `after` are what `expected` asks for:
/// success with the expected state, or the expected error with the state
/// left as it was `before`.
pub open spec fn meets(
    before: MachineState,
    after: MachineState,
    outcome: Result<(), InstructionError>,
    expected: Result<MachineState, InstructionError>,
) -> bool {
    match expected {
        Ok(s) => outcome.is_ok() && after == s,
        Err(e) => outcome == Err::<(), InstructionError>(e) && after == before,
    }
}

/// A register field holds a number below 32, and so do the low five bits
/// of any word.
pub proof fn lemma_field_ranges(raw: u32, x: u32)
    by (bit_vector)
    ensures
        (raw & 0xf80) >> 7u32 <= 31,
        (raw & 0xf8000) >> 15u32 <= 31,
        (raw & 0x1f00000) >> 20u32 <= 31,
        x & 0x1f < 32,
{
}

/// A virtual machine: a processor and its memory.
#[derive(Debug)]
pub struct VM {
    /// The processor.
    pub cpu: CPU,
    /// The data memory.
    pub ram: Memory,
    /// The instruction that was handed to `execute` last.
    pub last: Option<Instruction>,
}

impl Default for VM {
    /// A machine with all registers zero and a zero-filled memory of the
    /// default capacity.
    fn default() -> (vm: Self)
        ensures
            vm.cpu.register@ == Seq::new(33, |i: int| 0u32),
            vm.ram@.len() == crate::memory::DEFAULT_MEMORY_POOL_SIZE,
            forall|i: int| 0 <= i < vm.ram@.len() ==> vm.ram@[i] == 0,
            vm.last.is_none(),
    {
        VM { cpu: CPU::default(), ram: Memory::default(), last: None }
    }
}

impl VM {
    /// The registers and the memory, as the instructions see them.
    pub open spec fn state(&self) -> MachineState {
        MachineState { regs: self.cpu.register@, mem: self.ram@ }
    }

    /// The instruction that was handed to `execute` last, if any was.
    pub fn last(&self) -> (i: Option<Instruction>)
        ensures
            i == self.last,
    {
        self.last
    }

    /// Carries out `i` and, where that succeeds, moves the program counter
    /// on by 4. Where `i` is rejected, nothing but the record of the last
    /// instruction changes.
    pub fn execute(&mut self, i: Instruction) -> (r: Result<(), InstructionError>)
        ensures
            meets(old(self).state(), final(self).state(), r, step_spec(old(self).state(), i)),
            final(self).last == Some(i),
    {
        self.last = Some(i);
        let result = match i.opcode {
            Operation::LUI => self.load_upper_immediate(i),
            Operation::AUIPC => self.add_upper_immediate(i),
            Operation::Math => self.register_math(i),
            Operation::ImmediateMath => self.immediate_math(i),
            Operation::JAL => self.unconditional_jump(i),
            Operation::JALR => self.unconditional_register_jump(i),
            Operation::Branch => self.branch(i),
            Operation::Load => self.load(i),
            Operation::Store => self.store(i),
            _ => Err(InstructionError::InvalidOperation(i.opcode)),
        };
        if result.is_ok() {
            self.cpu.increment_pc();
        }
        result
    }

    /// SB, SH, SW: stores the low bytes of `rs2` at `rs1` plus the offset.
    fn store(&mut self, i: Instruction) -> (r: Result<(), InstructionError>)
        requires
            i.opcode == Operation::Store,
        ensures
            meets(old(self).state(), final(self).state(), r, apply_spec(old(self).state(), i)),
            final(self).last == old(self).last,
    {
        let rs1 = Self::register_field(&i, Part::Reg1)?;
        let rs2 = Self::register_field(&i, Part::Reg2)?;
        let f3 = Self::field(&i, Part::Funct3)?;
        let im40 = Self::field(&i, Part::Imm40)?;
        let im115 = Self::field(&i, Part::Imm115)?;
        let immediate: u32 = (im115 << 5) | im40;
        let address = add_signed(self.cpu.register.get(rs1), sign_extend(immediate, 12));
        let value = self.cpu.register.get(rs2);
        let stored = if f3 == 0b000 {
            self.ram.set_byte_at(address, #[verifier::truncate] (((value >> 0) & 0xff) as u8))
        } else if f3 == 0b001 {
            self.ram.set_hw_at(address, #[verifier::truncate] ((value & 0xffff) as u16))
        } else if f3 == 0b010 {
            self.ram.set_word_at(address, value)
        } else {
            return Err(InstructionError::InvalidOperation(Operation::Store));
        };
        match stored {
            Ok(()) => Ok(()),
            Err(e) => Err(InstructionError::from(e)),
        }
    }

    /// LB, LH, LW, LBU, LHU: loads `rd` from `rs1` plus the offset.
    fn load(&mut self, i: Instruction) -> (r: Result<(), InstructionError>)
        requires
            i.opcode == Operation::Load,
        ensures
            meets(old(self).state(), final(self).state(), r, apply_spec(old(self).state(), i)),
            final(self).last == old(self).last,
    {
        let rsd = Self::register_field(&i, Part::Dest)?;
        let rs1 = Self::register_field(&i, Part::Reg1)?;
        let f3 = Self::field(&i, Part::Funct3)?;
        let immediate = Self::field(&i, Part::Imm110)?;
        let address = add_signed(self.cpu.register.get(rs1), sign_extend(immediate, 12));
        let loaded: Result<u32, crate::memory::MemoryError> = if f3 == 0b000 {
            match self.ram.byte_at(address) {
                Ok(b) => Ok(from_signed(sign_extend(b as u32, 8))),
                Err(e) => Err(e),
            }
        } else if f3 == 0b001 {
            match self.ram.hw_at(address) {
                Ok(hw) => Ok(from_signed(sign_extend(hw as u32, 16))),
                Err(e) => Err(e),
            }
        } else if f3 == 0b010 {
            self.ram.word_at(address)
        } else if f3 == 0b100 {
            match self.ram.byte_at(address) {
                Ok(b) => Ok(b as u32),
                Err(e) => Err(e),
            }
        } else if f3 == 0b101 {
            match self.ram.hw_at(address) {
                Ok(hw) => Ok(hw as u32),
                Err(e) => Err(e),
            }
        } else {
            return Err(InstructionError::InvalidOperation(Operation::Load));
        };
        match loaded {
            Ok(value) => {
                self.cpu.register.set(rsd, value);
                Ok(())
            },
            Err(e) => Err(InstructionError::from(e)),
        }
    }

    /// AUIPC: `rd` becomes the program counter plus the upper immediate.
    fn add_upper_immediate(&mut self, i: Instruction) -> (r: Result<(), InstructionError>)
        requires
            i.opcode == Operation::AUIPC,
        ensures
            meets(old(self).state(), final(self).state(), r, apply_spec(old(self).state(), i)),
            final(self).last == old(self).last,
    {
        let rsd = Self::register_field(&i, Part::Dest)?;
        let immediate = Self::field(&i, Part::Imm3112)?;
        let pc = self.cpu.register.get(Register::PC);
        self.cpu.register.set(rsd, add_wrapping(pc, immediate << 12));
        Ok(())
    }

    /// LUI: `rd` becomes the upper immediate, its low 12 bits zero.
    fn load_upper_immediate(&mut self, i: Instruction) -> (r: Result<(), InstructionError>)
        requires
            i.opcode == Operation::LUI,
        ensures
            meets(old(self).state(), final(self).state(), r, apply_spec(old(self).state(), i)),
            final(self).last == old(self).last,
    {
        let rsd = Self::register_field(&i, Part::Dest)?;
        let immediate = Self::field(&i, Part::Imm3112)?;
        self.cpu.register.set(rsd, immediate << 12);
        Ok(())
    }

    /// BEQ, BNE, BLT, BGE, BLTU, BGEU: where the comparison holds, sets the
    /// program counter 4 below the branch target.
    fn branch(&mut self, i: Instruction) -> (r: Result<(), InstructionError>)
        requires
            i.opcode == Operation::Branch,
        ensures
            meets(old(self).state(), final(self).state(), r, apply_spec(old(self).state(), i)),
            final(self).last == old(self).last,
    {
        let rs1 = Self::register_field(&i, Part::Reg1)?;
        let rs2 = Self::register_field(&i, Part::Reg2)?;
        let f3 = Self::field(&i, Part::Funct3)?;
        let b12 = Self::field(&i, Part::B12b)?;
        let b11 = Self::field(&i, Part::B11b)?;
        let im105 = Self::field(&i, Part::Imm105)?;
        let im41 = Self::field(&i, Part::Imm41)?;
        let immediate: u32 = (b12 << 12) | (b11 << 11) | (im105 << 5) | (im41 << 1);
        let offset: i32 = sign_extend(immediate, 13);
        let pc = self.cpu.register.get(Register::PC);
        let left = self.cpu.register.get(rs1);
        let right = self.cpu.register.get(rs2);
        let taken = if f3 == 0b000 {
            left == right
        } else if f3 == 0b001 {
            left != right
        } else if f3 == 0b100 {
            to_signed(left) < to_signed(right)
        } else if f3 == 0b101 {
            to_signed(left) >= to_signed(right)
        } else if f3 == 0b110 {
            left < right
        } else if f3 == 0b111 {
            left >= right
        } else {
            return Err(InstructionError::InvalidOperation(Operation::Branch));
        };
        if taken {
            let target = sub_wrapping(add_signed(pc, offset), REGISTER_INCREMENT);
            self.cpu.register.set(Register::PC, target);
        }
        Ok(())
    }

    /// JALR: links `rd` and sets the program counter 4 below `rs1` plus the
    /// offset, bit 0 cleared.
    fn unconditional_register_jump(&mut self, i: Instruction) -> (r: Result<
        (),
        InstructionError,
    >)
        requires
            i.opcode == Operation::JALR,
        ensures
            meets(old(self).state(), final(self).state(), r, apply_spec(old(self).state(), i)),
            final(self).last == old(self).last,
    {
        let rsd = Self::register_field(&i, Part::Dest)?;
        let rs1 = Self::register_field(&i, Part::Reg1)?;
        let immediate = Self::field(&i, Part::Imm110)?;
        let pc = self.cpu.register.get(Register::PC);
        let address = add_signed(self.cpu.register.get(rs1), sign_extend(immediate, 12))
            & 0xffff_fffe;
        self.cpu.register.set(rsd, add_wrapping(pc, REGISTER_INCREMENT));
        self.cpu.register.set(Register::PC, sub_wrapping(address, REGISTER_INCREMENT));
        Ok(())
    }

    /// JAL: links `rd` and sets the program counter 4 below the jump target.
    fn unconditional_jump(&mut self, i: Instruction) -> (r: Result<(), InstructionError>)
        requires
            i.opcode == Operation::JAL,
        ensures
            meets(old(self).state(), final(self).state(), r, apply_spec(old(self).state(), i)),
            final(self).last == old(self).last,
    {
        let rsd = Self::register_field(&i, Part::Dest)?;
        let b20 = Self::field(&i, Part::B20j)?;
        let im1912 = Self::field(&i, Part::Imm1912)?;
        let b11 = Self::field(&i, Part::B11j)?;
        let im101 = Self::field(&i, Part::Imm101)?;
        let immediate: u32 = (b20 << 20) | (im1912 << 12) | (b11 << 11) | (im101 << 1);
        let offset: i32 = sign_extend(immediate, 21);
        let pc = self.cpu.register.get(Register::PC);
        let link = add_wrapping(pc, REGISTER_INCREMENT);
        let target = sub_wrapping(add_signed(pc, offset), REGISTER_INCREMENT);
        let ghost before = self.state();
        assert(immediate == imm_j_bits(i.raw));
        assert(rsd.index_spec() == rd(i.raw));
        assert(target == wrap32(before.pc() + imm_j(i.raw) - REGISTER_INCREMENT)) by {
            lemma_wrap_add(pc + offset, -(REGISTER_INCREMENT as int));
        }
        self.cpu.register.set(rsd, link);
        assert(self.state() == before.with_reg(rd(i.raw), link));
        self.cpu.register.set(Register::PC, target);
        assert(self.state() == before.with_reg(rd(i.raw), link).with_pc(target));
        Ok(())
    }

    /// The register-immediate operations: the shifts go one way, the rest
    /// the other.
    fn immediate_math(&mut self, i: Instruction) -> (r: Result<(), InstructionError>)
        requires
            i.opcode == Operation::ImmediateMath,
        ensures
            meets(old(self).state(), final(self).state(), r, apply_spec(old(self).state(), i)),
            final(self).last == old(self).last,
    {
        let f3 = Self::field(&i, Part::Funct3)?;
        if f3 == 0b001 || f3 == 0b101 {
            self.immediate_math_shift(i)
        } else {
            self.immediate_math_normal(i)
        }
    }

    /// ADDI, SLTI, SLTIU, XORI, ORI, ANDI.
    fn immediate_math_normal(&mut self, i: Instruction) -> (r: Result<(), InstructionError>)
        requires
            i.opcode == Operation::ImmediateMath,
            funct3(i.raw) != 0b001,
            funct3(i.raw) != 0b101,
        ensures
            meets(old(self).state(), final(self).state(), r, apply_spec(old(self).state(), i)),
            final(self).last == old(self).last,
    {
        let f3 = Self::field(&i, Part::Funct3)?;
        let immediate = Self::field(&i, Part::Imm110)?;
        let extended: i32 = sign_extend(immediate, 12);
        let rs1 = Self::register_field(&i, Part::Reg1)?;
        let rsd = Self::register_field(&i, Part::Dest)?;
        let a = self.cpu.register.get(rs1);
        let result: u32 = if f3 == 0b000 {
            add_signed(a, extended)
        } else if f3 == 0b010 {
            if to_signed(a) < extended {
                1
            } else {
                0
            }
        } else if f3 == 0b011 {
            if a < from_signed(extended) {
                1
            } else {
                0
            }
        } else if f3 == 0b100 {
            a ^ from_signed(extended)
        } else if f3 == 0b110 {
            a | from_signed(extended)
        } else if f3 == 0b111 {
            a & from_signed(extended)
        } else {
            return Err(InstructionError::InvalidOperation(Operation::ImmediateMath));
        };
        self.cpu.register.set(rsd, result);
        Ok(())
    }

    /// SLLI, SRLI, SRAI: the low five immediate bits are the shift amount,
    /// the upper seven choose between the logical and the arithmetic shift.
    fn immediate_math_shift(&mut self, i: Instruction) -> (r: Result<(), InstructionError>)
        requires
            i.opcode == Operation::ImmediateMath,
            funct3(i.raw) == 0b001 || funct3(i.raw) == 0b101,
        ensures
            meets(old(self).state(), final(self).state(), r, apply_spec(old(self).state(), i)),
            final(self).last == old(self).last,
    {
        let f3 = Self::field(&i, Part::Funct3)?;
        let raw_immediate = Self::field(&i, Part::Imm110)?;
        let amount: u32 = raw_immediate & 0x1f;
        let shift: u32 = raw_immediate >> 5;
        let rs1 = Self::register_field(&i, Part::Reg1)?;
        let rsd = Self::register_field(&i, Part::Dest)?;
        let a = self.cpu.register.get(rs1);
        proof {
            lemma_field_ranges(i.raw, raw_immediate);
        }
        let result: u32 = if f3 == 0b001 && shift == 0b0000000 {
            a << amount
        } else if f3 == 0b101 && shift == 0b0000000 {
            a >> amount
        } else if f3 == 0b101 && shift == 0b0100000 {
            shift_right_arithmetic(a, amount)
        } else {
            return Err(InstructionError::InvalidOperation(Operation::ImmediateMath));
        };
        self.cpu.register.set(rsd, result);
        Ok(())
    }

    /// ADD, SUB, SLL, SLT, SLTU, XOR, SRL, SRA, OR, AND.
    fn register_math(&mut self, i: Instruction) -> (r: Result<(), InstructionError>)
        requires
            i.opcode == Operation::Math,
        ensures
            meets(old(self).state(), final(self).state(), r, apply_spec(old(self).state(), i)),
            final(self).last == old(self).last,
    {
        let f3 = Self::field(&i, Part::Funct3)?;
        let f7 = Self::field(&i, Part::Funct7)?;
        let rs1 = Self::register_field(&i, Part::Reg1)?;
        let rs2 = Self::register_field(&i, Part::Reg2)?;
        let rsd = Self::register_field(&i, Part::Dest)?;
        let a = self.cpu.register.get(rs1);
        let b = self.cpu.register.get(rs2);
        let amount: u32 = b & 0x1f;
        proof {
            lemma_field_ranges(i.raw, b);
        }
        let result: u32 = if f3 == 0b000 && f7 == 0b0000000 {
            add_wrapping(a, b)
        } else if f3 == 0b000 && f7 == 0b0100000 {
            sub_wrapping(a, b)
        } else if f3 == 0b001 && f7 == 0b0000000 {
            a << amount
        } else if f3 == 0b010 && f7 == 0b0000000 {
            if to_signed(a) < to_signed(b) {
                1
            } else {
                0
            }
        } else if f3 == 0b011 && f7 == 0b0000000 {
            if a < b {
                1
            } else {
                0
            }
        } else if f3 == 0b100 && f7 == 0b0000000 {
            a ^ b
        } else if f3 == 0b101 && f7 == 0b0000000 {
            a >> amount
        } else if f3 == 0b101 && f7 == 0b0100000 {
            shift_right_arithmetic(a, amount)
        } else if f3 == 0b110 && f7 == 0b0000000 {
            a | b
        } else if f3 == 0b111 && f7 == 0b0000000 {
            a & b
        } else {
            return Err(InstructionError::InvalidOperation(Operation::Math));
        };
        self.cpu.register.set(rsd, result);
        Ok(())
    }


    /// The number that the field `part` of `i` holds.
    fn field(i: &Instruction, part: Part) -> (r: Result<u32, InstructionError>)
        ensures
            match r {
                Ok(v) => i.field(part) == Some(v),
                Err(e) => i.field(part).is_none() && e == InstructionError::InvalidArgument(part),
            },
    {
        match i.value(part) {
            Ok(v) => Ok(v),
            Err(_) => Err(InstructionError::InvalidArgument(part)),
        }
    }

    /// The register that the field `part` of `i` names.
    fn register_field(i: &Instruction, part: Part) -> (r: Result<Register, InstructionError>)
        requires
            part == Part::Dest || part == Part::Reg1 || part == Part::Reg2,
        ensures
            match r {
                Ok(reg) => i.field(part) == Some(reg.index_spec() as u32) && reg != Register::PC,
                Err(e) => i.field(part).is_none() && e == InstructionError::InvalidArgument(part),
            },
    {
        let index = Self::field(i, part)?;
        proof {
            lemma_field_ranges(i.raw, 0);
        }
        match Register::from_index(index) {
            Ok(reg) => Ok(reg),
            Err(e) => Err(InstructionError::from(e)),
        }
    }
}

} // verus!
