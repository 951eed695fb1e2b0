//! LUI and AUIPC.

use super::{push_register, register_text};
use crate::rv32i::instr::instruction::Instruction;
use crate::rv32i::instr::operation::Operation;
use crate::rv32i::instr::part::Part;
use crate::text::{decimal, push_decimal};
use vstd::prelude::*;
use vstd::string::StringExecFns;

verus! {

/// `lui rd, imm`, the immediate as the 20-bit number in the word.
pub open spec fn load_text(raw: u32) -> Seq<char> {
    "lui "@ + register_text(raw, Part::Dest) + ", "@ + decimal(Part::Imm3112.value_spec(raw) as nat)
}

/// `auipc rd, imm`, the immediate as the 20-bit number in the word.
pub open spec fn add_text(raw: u32) -> Seq<char> {
    "auipc "@ + register_text(raw, Part::Dest) + ", "@ + decimal(
        Part::Imm3112.value_spec(raw) as nat,
    )
}

/// The text of a LUI.
pub fn load(i: Instruction) -> (s: String)
    requires
        i.opcode == Operation::LUI,
    ensures
        s@ == load_text(i.raw),
{
    let mut s = String::from_str("lui ");
    push_register(&mut s, i.raw, Part::Dest);
    s.append(", ");
    push_decimal(&mut s, Part::Imm3112.value(i.raw) as u64);
    s
}

/// The text of an AUIPC.
pub fn add(i: Instruction) -> (s: String)
    requires
        i.opcode == Operation::AUIPC,
    ensures
        s@ == add_text(i.raw),
{
    let mut s = String::from_str("auipc ");
    push_register(&mut s, i.raw, Part::Dest);
    s.append(", ");
    push_decimal(&mut s, Part::Imm3112.value(i.raw) as u64);
    s
}

} // verus!
