//! The six instruction formats and the fields that each one holds.

use super::part::Part;
use vstd::prelude::*;

verus! {

/// The shape of an instruction word.
#[derive(Debug, Clone, Copy, PartialEq, Eq, Structural)]
pub enum Format {
    /// R: register to register.
    Register2register,
    /// I: register and 12-bit immediate.
    Immediate,
    /// U: upper 20-bit immediate.
    UpperImmediate,
    /// S: store.
    Store,
    /// B: branch.
    Branch,
    /// J: jump.
    Jump,
}

impl Format {
    /// The name of the format's variant.
    pub open spec fn label_spec(self) -> Seq<char> {
        match self {
            Format::Register2register => "Register2register"@,
            Format::Immediate => "Immediate"@,
            Format::UpperImmediate => "UpperImmediate"@,
            Format::Store => "Store"@,
            Format::Branch => "Branch"@,
            Format::Jump => "Jump"@,
        }
    }

    /// The name of the format's variant.
    pub fn label(&self) -> (s: &'static str)
        ensures
            s@ == self.label_spec(),
    {
        match self {
            Format::Register2register => "Register2register",
            Format::Immediate => "Immediate",
            Format::UpperImmediate => "UpperImmediate",
            Format::Store => "Store",
            Format::Branch => "Branch",
            Format::Jump => "Jump",
        }
    }

    /// The fields of the format, from the low end of the word to the high.
    pub open spec fn parts(self) -> Seq<Part> {
        match self {
            Format::Register2register => seq![
                Part::Opcode,
                Part::Dest,
                Part::Funct3,
                Part::Reg1,
                Part::Reg2,
                Part::Funct7,
            ],
            Format::Immediate => seq![
                Part::Opcode,
                Part::Dest,
                Part::Funct3,
                Part::Reg1,
                Part::Imm110,
            ],
            Format::UpperImmediate => seq![Part::Opcode, Part::Dest, Part::Imm3112],
            Format::Store => seq![
                Part::Opcode,
                Part::Imm40,
                Part::Funct3,
                Part::Reg1,
                Part::Reg2,
                Part::Imm115,
            ],
            Format::Branch => seq![
                Part::Opcode,
                Part::B11b,
                Part::Imm41,
                Part::Funct3,
                Part::Reg1,
                Part::Reg2,
                Part::Imm105,
                Part::B12b,
            ],
            Format::Jump => seq![
                Part::Opcode,
                Part::Dest,
                Part::Imm1912,
                Part::B11j,
                Part::Imm101,
                Part::B20j,
            ],
        }
    }

    /// Whether the format holds the field `part`.
    pub open spec fn has(self, part: Part) -> bool {
        self.parts().contains(part)
    }

    /// The fields of the format, from the low end of the word to the high.
    pub fn get(&self) -> (parts: Vec<Part>)
        ensures
            parts@ == self.parts(),
    {
        let parts = match self {
            Format::Register2register => vec![
                Part::Opcode,
                Part::Dest,
                Part::Funct3,
                Part::Reg1,
                Part::Reg2,
                Part::Funct7,
            ],
            Format::Immediate => vec![
                Part::Opcode,
                Part::Dest,
                Part::Funct3,
                Part::Reg1,
                Part::Imm110,
            ],
            Format::UpperImmediate => vec![Part::Opcode, Part::Dest, Part::Imm3112],
            Format::Store => vec![
                Part::Opcode,
                Part::Imm40,
                Part::Funct3,
                Part::Reg1,
                Part::Reg2,
                Part::Imm115,
            ],
            Format::Branch => vec![
                Part::Opcode,
                Part::B11b,
                Part::Imm41,
                Part::Funct3,
                Part::Reg1,
                Part::Reg2,
                Part::Imm105,
                Part::B12b,
            ],
            Format::Jump => vec![
                Part::Opcode,
                Part::Dest,
                Part::Imm1912,
                Part::B11j,
                Part::Imm101,
                Part::B20j,
            ],
        };
        assert(parts@ =~= self.parts());
        parts
    }
}

} // verus!
