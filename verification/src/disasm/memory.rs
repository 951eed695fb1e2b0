//! The loads and the stores.

use super::{push_register, register_text};
use crate::rv32i::instr::instruction::Instruction;
use crate::rv32i::instr::operation::Operation;
use crate::rv32i::instr::part::Part;
use crate::text::{decimal, push_decimal};
use crate::vm::{funct3, imm_i_bits, imm_s_bits};
use vstd::prelude::*;
use vstd::string::StringExecFns;

verus! {

/// The mnemonic of the load of kind `f3`. Kind 011 is the doubleword load
/// of the wider sets, which the interpreter does not carry out.
pub open spec fn load_mnemonic(f3: u32) -> Option<Seq<char>> {
    if f3 == 0b000 {
        Some("lb"@)
    } else if f3 == 0b001 {
        Some("lh"@)
    } else if f3 == 0b010 {
        Some("lw"@)
    } else if f3 == 0b100 {
        Some("lbu"@)
    } else if f3 == 0b101 {
        Some("lhu"@)
    } else if f3 == 0b011 {
        Some("ld"@)
    } else {
        None
    }
}

/// The mnemonic of the store of kind `f3`. Kind 011 is the doubleword store
/// of the wider sets, which the interpreter does not carry out.
pub open spec fn store_mnemonic(f3: u32) -> Option<Seq<char>> {
    if f3 == 0b000 {
        Some("sb"@)
    } else if f3 == 0b001 {
        Some("sh"@)
    } else if f3 == 0b010 {
        Some("sw"@)
    } else if f3 == 0b011 {
        Some("sd"@)
    } else {
        None
    }
}

/// `op rd, imm(rs1)`, the immediate as the 12-bit number in the word.
pub open spec fn load_text(raw: u32) -> Seq<char> {
    load_mnemonic(funct3(raw)).unwrap() + " "@ + register_text(raw, Part::Dest) + ", "@ + decimal(
        imm_i_bits(raw) as nat,
    ) + "("@ + register_text(raw, Part::Reg1) + ")"@
}

/// `op rs2, imm(rs1)`, the immediate as the 12-bit number that the two
/// pieces in the word make.
pub open spec fn store_text(raw: u32) -> Seq<char> {
    store_mnemonic(funct3(raw)).unwrap() + " "@ + register_text(raw, Part::Reg2) + ", "@ + decimal(
        imm_s_bits(raw) as nat,
    ) + "("@ + register_text(raw, Part::Reg1) + ")"@
}

/// The mnemonic of the load of kind `f3`.
pub fn load_name(f3: u32) -> (r: Option<&'static str>)
    ensures
        match r {
            Some(name) => load_mnemonic(f3) == Some(name@),
            None => load_mnemonic(f3).is_none(),
        },
{
    if f3 == 0b000 {
        Some("lb")
    } else if f3 == 0b001 {
        Some("lh")
    } else if f3 == 0b010 {
        Some("lw")
    } else if f3 == 0b100 {
        Some("lbu")
    } else if f3 == 0b101 {
        Some("lhu")
    } else if f3 == 0b011 {
        Some("ld")
    } else {
        None
    }
}

/// The mnemonic of the store of kind `f3`.
pub fn store_name(f3: u32) -> (r: Option<&'static str>)
    ensures
        match r {
            Some(name) => store_mnemonic(f3) == Some(name@),
            None => store_mnemonic(f3).is_none(),
        },
{
    if f3 == 0b000 {
        Some("sb")
    } else if f3 == 0b001 {
        Some("sh")
    } else if f3 == 0b010 {
        Some("sw")
    } else if f3 == 0b011 {
        Some("sd")
    } else {
        None
    }
}

/// The text of a load.
pub fn load(i: Instruction) -> (s: String)
    requires
        i.opcode == Operation::Load,
        load_mnemonic(funct3(i.raw)).is_some(),
    ensures
        s@ == load_text(i.raw),
{
    let mut s = match load_name(Part::Funct3.value(i.raw)) {
        Some(name) => String::from_str(name),
        None => String::new(),
    };
    s.append(" ");
    push_register(&mut s, i.raw, Part::Dest);
    s.append(", ");
    push_decimal(&mut s, Part::Imm110.value(i.raw) as u64);
    s.append("(");
    push_register(&mut s, i.raw, Part::Reg1);
    s.append(")");
    s
}

/// The text of a store.
pub fn store(i: Instruction) -> (s: String)
    requires
        i.opcode == Operation::Store,
        store_mnemonic(funct3(i.raw)).is_some(),
    ensures
        s@ == store_text(i.raw),
{
    let im40 = Part::Imm40.value(i.raw);
    let im115 = Part::Imm115.value(i.raw);
    let immediate: u32 = (im115 << 5) | im40;
    let mut s = match store_name(Part::Funct3.value(i.raw)) {
        Some(name) => String::from_str(name),
        None => String::new(),
    };
    s.append(" ");
    push_register(&mut s, i.raw, Part::Reg2);
    s.append(", ");
    push_decimal(&mut s, immediate as u64);
    s.append("(");
    push_register(&mut s, i.raw, Part::Reg1);
    s.append(")");
    s
}

} // verus!
