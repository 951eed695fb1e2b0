//! The register-register and the register-immediate operations.

use super::{push_register, register_text};
use crate::rv32i::instr::instruction::Instruction;
use crate::rv32i::instr::operation::Operation;
use crate::rv32i::instr::part::Part;
use crate::text::{decimal, push_decimal};
use crate::vm::{funct3, funct7, imm_i_bits};
use vstd::prelude::*;
use vstd::string::StringExecFns;

verus! {

/// The mnemonic of the register-register operation that `f3` and `f7`
/// name.
pub open spec fn math_mnemonic(f3: u32, f7: u32) -> Option<Seq<char>> {
    if f3 == 0b000 && f7 == 0b0000000 {
        Some("add"@)
    } else if f3 == 0b000 && f7 == 0b0100000 {
        Some("sub"@)
    } else if f3 == 0b010 && f7 == 0b0000000 {
        Some("slt"@)
    } else if f3 == 0b011 && f7 == 0b0000000 {
        Some("sltu"@)
    } else if f3 == 0b001 && f7 == 0b0000000 {
        Some("sll"@)
    } else if f3 == 0b101 && f7 == 0b0000000 {
        Some("srl"@)
    } else if f3 == 0b101 && f7 == 0b0100000 {
        Some("sra"@)
    } else if f3 == 0b100 && f7 == 0b0000000 {
        Some("xor"@)
    } else if f3 == 0b110 && f7 == 0b0000000 {
        Some("or"@)
    } else if f3 == 0b111 && f7 == 0b0000000 {
        Some("and"@)
    } else {
        None
    }
}

/// The mnemonic of the register-immediate operation that `f3` and, for a
/// shift, the upper seven bits of the immediate `imm` name.
pub open spec fn immediate_mnemonic(f3: u32, imm: u32) -> Option<Seq<char>> {
    if f3 == 0b000 {
        Some("addi"@)
    } else if f3 == 0b010 {
        Some("slti"@)
    } else if f3 == 0b011 {
        Some("sltiu"@)
    } else if f3 == 0b100 {
        Some("xori"@)
    } else if f3 == 0b110 {
        Some("ori"@)
    } else if f3 == 0b111 {
        Some("andi"@)
    } else if f3 == 0b001 && imm >> 5 == 0b0000000 {
        Some("slli"@)
    } else if f3 == 0b101 && imm >> 5 == 0b0000000 {
        Some("srli"@)
    } else if f3 == 0b101 && imm >> 5 == 0b0100000 {
        Some("srai"@)
    } else {
        None
    }
}

/// The number that a register-immediate operation shows as its last
/// operand: the shift amount for a shift, else the 12-bit number in the
/// word.
pub open spec fn immediate_operand(f3: u32, imm: u32) -> u32 {
    if f3 == 0b001 || f3 == 0b101 {
        imm & 0x1f
    } else {
        imm
    }
}

/// `op rd, rs1, rs2`.
pub open spec fn register_text_spec(raw: u32) -> Seq<char> {
    math_mnemonic(funct3(raw), funct7(raw)).unwrap() + " "@ + register_text(raw, Part::Dest) + ", "@
        + register_text(raw, Part::Reg1) + ", "@ + register_text(raw, Part::Reg2)
}

/// `op rd, rs1, imm`.
pub open spec fn immediate_text(raw: u32) -> Seq<char> {
    immediate_mnemonic(funct3(raw), imm_i_bits(raw)).unwrap() + " "@ + register_text(
        raw,
        Part::Dest,
    ) + ", "@ + register_text(raw, Part::Reg1) + ", "@ + decimal(
        immediate_operand(funct3(raw), imm_i_bits(raw)) as nat,
    )
}

/// The mnemonic of the register-register operation that `f3` and `f7`
/// name.
pub fn math_name(f3: u32, f7: u32) -> (r: Option<&'static str>)
    ensures
        match r {
            Some(name) => math_mnemonic(f3, f7) == Some(name@),
            None => math_mnemonic(f3, f7).is_none(),
        },
{
    if f3 == 0b000 && f7 == 0b0000000 {
        Some("add")
    } else if f3 == 0b000 && f7 == 0b0100000 {
        Some("sub")
    } else if f3 == 0b010 && f7 == 0b0000000 {
        Some("slt")
    } else if f3 == 0b011 && f7 == 0b0000000 {
        Some("sltu")
    } else if f3 == 0b001 && f7 == 0b0000000 {
        Some("sll")
    } else if f3 == 0b101 && f7 == 0b0000000 {
        Some("srl")
    } else if f3 == 0b101 && f7 == 0b0100000 {
        Some("sra")
    } else if f3 == 0b100 && f7 == 0b0000000 {
        Some("xor")
    } else if f3 == 0b110 && f7 == 0b0000000 {
        Some("or")
    } else if f3 == 0b111 && f7 == 0b0000000 {
        Some("and")
    } else {
        None
    }
}

/// The mnemonic of the register-immediate operation that `f3` and `imm`
/// name.
pub fn immediate_name(f3: u32, imm: u32) -> (r: Option<&'static str>)
    ensures
        match r {
            Some(name) => immediate_mnemonic(f3, imm) == Some(name@),
            None => immediate_mnemonic(f3, imm).is_none(),
        },
{
    let upper: u32 = imm >> 5;
    if f3 == 0b000 {
        Some("addi")
    } else if f3 == 0b010 {
        Some("slti")
    } else if f3 == 0b011 {
        Some("sltiu")
    } else if f3 == 0b100 {
        Some("xori")
    } else if f3 == 0b110 {
        Some("ori")
    } else if f3 == 0b111 {
        Some("andi")
    } else if f3 == 0b001 && upper == 0b0000000 {
        Some("slli")
    } else if f3 == 0b101 && upper == 0b0000000 {
        Some("srli")
    } else if f3 == 0b101 && upper == 0b0100000 {
        Some("srai")
    } else {
        None
    }
}

/// The text of a register-register operation.
pub fn register(i: Instruction) -> (s: String)
    requires
        i.opcode == Operation::Math,
        math_mnemonic(funct3(i.raw), funct7(i.raw)).is_some(),
    ensures
        s@ == register_text_spec(i.raw),
{
    let mut s = match math_name(Part::Funct3.value(i.raw), Part::Funct7.value(i.raw)) {
        Some(name) => String::from_str(name),
        None => String::new(),
    };
    s.append(" ");
    push_register(&mut s, i.raw, Part::Dest);
    s.append(", ");
    push_register(&mut s, i.raw, Part::Reg1);
    s.append(", ");
    push_register(&mut s, i.raw, Part::Reg2);
    s
}

/// The text of a register-immediate operation.
pub fn immediate(i: Instruction) -> (s: String)
    requires
        i.opcode == Operation::ImmediateMath,
        immediate_mnemonic(funct3(i.raw), imm_i_bits(i.raw)).is_some(),
    ensures
        s@ == immediate_text(i.raw),
{
    let f3 = Part::Funct3.value(i.raw);
    let raw_immediate = Part::Imm110.value(i.raw);
    let shown: u32 = if f3 == 0b001 || f3 == 0b101 {
        raw_immediate & 0x1f
    } else {
        raw_immediate
    };
    let mut s = match immediate_name(f3, raw_immediate) {
        Some(name) => String::from_str(name),
        None => String::new(),
    };
    s.append(" ");
    push_register(&mut s, i.raw, Part::Dest);
    s.append(", ");
    push_register(&mut s, i.raw, Part::Reg1);
    s.append(", ");
    push_decimal(&mut s, shown as u64);
    s
}

} // verus!
