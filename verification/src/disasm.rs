//! The disassembler: the text of a decoded instruction, its mnemonic
//! followed by its operands in the order of RV32I assembly.

pub mod branch;
pub mod jump;
pub mod math;
pub mod memory;
pub mod upper;

use crate::cpu::{register_name, Register};
use crate::rv32i::instr::instruction::Instruction;
use crate::rv32i::instr::operation::Operation;
use crate::rv32i::instr::part::Part;
use crate::vm::{funct3, funct7, imm_i_bits, lemma_field_ranges};
use vstd::prelude::*;
use vstd::string::StringExecFns;

verus! {

/// The name of the register that the field `part` of `raw` holds.
pub open spec fn register_text(raw: u32, part: Part) -> Seq<char> {
    register_name(Register::general(part.value_spec(raw) as int))
}

/// Appends the name of the register that the field `part` of `raw` holds.
pub fn push_register(out: &mut String, raw: u32, part: Part)
    requires
        part == Part::Dest || part == Part::Reg1 || part == Part::Reg2,
    ensures
        final(out)@ == old(out)@ + register_text(raw, part),
{
    proof {
        lemma_field_ranges(raw, 0);
    }
    match Register::from_index(part.value(raw)) {
        Ok(reg) => {
            let name = reg.name();
            out.append(name.as_str());
        },
        Err(_) => {
            assert(false);
        },
    }
}

/// Whether `i` has a text: its opcode is carried out by the interpreter and
/// its function bits name an instruction.
pub open spec fn can_disassemble(i: Instruction) -> bool {
    match i.opcode {
        Operation::LUI | Operation::AUIPC | Operation::JAL | Operation::JALR => true,
        Operation::Math => math::math_mnemonic(funct3(i.raw), funct7(i.raw)).is_some(),
        Operation::ImmediateMath => math::immediate_mnemonic(
            funct3(i.raw),
            imm_i_bits(i.raw),
        ).is_some(),
        Operation::Branch => branch::branch_mnemonic(funct3(i.raw)).is_some(),
        Operation::Load => memory::load_mnemonic(funct3(i.raw)).is_some(),
        Operation::Store => memory::store_mnemonic(funct3(i.raw)).is_some(),
        Operation::FENCE | Operation::Call => false,
    }
}

/// The text of `i`.
pub open spec fn disassemble_spec(i: Instruction) -> Seq<char> {
    match i.opcode {
        Operation::LUI => upper::load_text(i.raw),
        Operation::AUIPC => upper::add_text(i.raw),
        Operation::Math => math::register_text_spec(i.raw),
        Operation::ImmediateMath => math::immediate_text(i.raw),
        Operation::JAL => jump::unconditional_text(i.raw),
        Operation::JALR => jump::register_jump_text(i.raw),
        Operation::Branch => branch::branch_text(i.raw),
        Operation::Load => memory::load_text(i.raw),
        Operation::Store => memory::store_text(i.raw),
        Operation::FENCE | Operation::Call => Seq::empty(),
    }
}

/// Whether `i` has a text.
pub fn is_disassemblable(i: &Instruction) -> (b: bool)
    ensures
        b == can_disassemble(*i),
{
    let f3 = Part::Funct3.value(i.raw);
    match i.opcode {
        Operation::LUI | Operation::AUIPC | Operation::JAL | Operation::JALR => true,
        Operation::Math => math::math_name(f3, Part::Funct7.value(i.raw)).is_some(),
        Operation::ImmediateMath => math::immediate_name(f3, Part::Imm110.value(i.raw)).is_some(),
        Operation::Branch => branch::branch_name(f3).is_some(),
        Operation::Load => memory::load_name(f3).is_some(),
        Operation::Store => memory::store_name(f3).is_some(),
        Operation::FENCE | Operation::Call => false,
    }
}

/// The text of `i`.
pub fn disassemble(i: Instruction) -> (s: String)
    requires
        can_disassemble(i),
    ensures
        s@ == disassemble_spec(i),
{
    match i.opcode {
        Operation::LUI => upper::load(i),
        Operation::AUIPC => crate::disasm::upper::add(i),
        Operation::Math => math::register(i),
        Operation::ImmediateMath => math::immediate(i),
        Operation::JAL => jump::unconditional(i),
        Operation::JALR => jump::register(i),
        Operation::Branch => branch::disassemble(i),
        Operation::Load => memory::load(i),
        Operation::Store => memory::store(i),
        _ => {
            assert(false);
            String::new()
        },
    }
}

} // verus!
