//! The conditional branches.

use super::{push_register, register_text};
use crate::bitops::sign_extend;
use crate::rv32i::instr::instruction::Instruction;
use crate::rv32i::instr::operation::Operation;
use crate::rv32i::instr::part::Part;
use crate::text::{push_signed_decimal, signed_decimal};
use crate::vm::{funct3, imm_b};
use vstd::prelude::*;
use vstd::string::StringExecFns;

verus! {

/// The mnemonic of the branch of kind `f3`.
pub open spec fn branch_mnemonic(f3: u32) -> Option<Seq<char>> {
    if f3 == 0b000 {
        Some("beq"@)
    } else if f3 == 0b001 {
        Some("bne"@)
    } else if f3 == 0b100 {
        Some("blt"@)
    } else if f3 == 0b101 {
        Some("bge"@)
    } else if f3 == 0b110 {
        Some("bltu"@)
    } else if f3 == 0b111 {
        Some("bgeu"@)
    } else {
        None
    }
}

/// The mnemonic, a tab, then `rs1, rs2, offset`, the offset as a signed
/// number of bytes.
pub open spec fn branch_text(raw: u32) -> Seq<char> {
    branch_mnemonic(funct3(raw)).unwrap() + "\t"@ + register_text(raw, Part::Reg1) + ", "@
        + register_text(raw, Part::Reg2) + ", "@ + signed_decimal(imm_b(raw))
}

/// The mnemonic of the branch of kind `f3`.
pub fn branch_name(f3: u32) -> (r: Option<&'static str>)
    ensures
        match r {
            Some(name) => branch_mnemonic(f3) == Some(name@),
            None => branch_mnemonic(f3).is_none(),
        },
{
    if f3 == 0b000 {
        Some("beq")
    } else if f3 == 0b001 {
        Some("bne")
    } else if f3 == 0b100 {
        Some("blt")
    } else if f3 == 0b101 {
        Some("bge")
    } else if f3 == 0b110 {
        Some("bltu")
    } else if f3 == 0b111 {
        Some("bgeu")
    } else {
        None
    }
}

/// The text of a branch.
pub fn disassemble(i: Instruction) -> (s: String)
    requires
        i.opcode == Operation::Branch,
        branch_mnemonic(funct3(i.raw)).is_some(),
    ensures
        s@ == branch_text(i.raw),
{
    let b12 = Part::B12b.value(i.raw);
    let b11 = Part::B11b.value(i.raw);
    let im105 = Part::Imm105.value(i.raw);
    let im41 = Part::Imm41.value(i.raw);
    let immediate: u32 = (b12 << 12) | (b11 << 11) | (im105 << 5) | (im41 << 1);
    let offset: i32 = sign_extend(immediate, 13);
    let mut s = match branch_name(Part::Funct3.value(i.raw)) {
        Some(name) => String::from_str(name),
        None => String::new(),
    };
    s.append("\t");
    push_register(&mut s, i.raw, Part::Reg1);
    s.append(", ");
    push_register(&mut s, i.raw, Part::Reg2);
    s.append(", ");
    push_signed_decimal(&mut s, offset as i64);
    s
}

} // verus!
