//! JAL and JALR.

use super::{push_register, register_text};
use crate::bitops::sign_extend;
use crate::rv32i::instr::instruction::Instruction;
use crate::rv32i::instr::operation::Operation;
use crate::rv32i::instr::part::Part;
use crate::text::{decimal, push_decimal, push_signed_decimal, signed_decimal};
use crate::vm::{imm_i_bits, imm_j, imm_j_bits};
use vstd::prelude::*;
use vstd::string::StringExecFns;

verus! {

/// `jal rd, offset`, the offset as a signed number of bytes.
pub open spec fn unconditional_text(raw: u32) -> Seq<char> {
    "jal "@ + register_text(raw, Part::Dest) + ", "@ + signed_decimal(imm_j(raw))
}

/// `jalr rd, rs1, imm`, the immediate as the 12-bit number in the word.
pub open spec fn register_jump_text(raw: u32) -> Seq<char> {
    "jalr "@ + register_text(raw, Part::Dest) + ", "@ + register_text(raw, Part::Reg1) + ", "@
        + decimal(imm_i_bits(raw) as nat)
}

/// The text of a JAL.
pub fn unconditional(i: Instruction) -> (s: String)
    requires
        i.opcode == Operation::JAL,
    ensures
        s@ == unconditional_text(i.raw),
{
    let b20 = Part::B20j.value(i.raw);
    let im1912 = Part::Imm1912.value(i.raw);
    let b11 = Part::B11j.value(i.raw);
    let im101 = Part::Imm101.value(i.raw);
    let immediate: u32 = (b20 << 20) | (im1912 << 12) | (b11 << 11) | (im101 << 1);
    let offset: i32 = sign_extend(immediate, 21);
    let mut s = String::from_str("jal ");
    push_register(&mut s, i.raw, Part::Dest);
    s.append(", ");
    push_signed_decimal(&mut s, offset as i64);
    s
}

/// The text of a JALR.
pub fn register(i: Instruction) -> (s: String)
    requires
        i.opcode == Operation::JALR,
    ensures
        s@ == register_jump_text(i.raw),
{
    let mut s = String::from_str("jalr ");
    push_register(&mut s, i.raw, Part::Dest);
    s.append(", ");
    push_register(&mut s, i.raw, Part::Reg1);
    s.append(", ");
    push_decimal(&mut s, Part::Imm110.value(i.raw) as u64);
    s
}

} // verus!
