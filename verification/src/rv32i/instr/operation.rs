//! The opcodes of the base instruction set and the format each one uses.

use super::format::Format;
use vstd::prelude::*;

verus! {

/// Why a word has no opcode.
#[derive(Debug, Clone, Copy, PartialEq, Eq, Structural)]
pub enum OperationError {
    /// The low seven bits of the word are not an opcode of the base set.
    UnknownOpcode(u32),
}

/// An opcode, or the family of instructions that share one.
#[derive(Debug, Clone, Copy, PartialEq, Eq, Structural)]
#[allow(clippy::upper_case_acronyms)]
pub enum Operation {
    /// Load upper immediate.
    LUI,
    /// Add upper immediate to the program counter.
    AUIPC,
    /// Jump and link.
    JAL,
    /// Jump and link to a register.
    JALR,
    /// Memory ordering; recognized, not carried out.
    FENCE,
    /// BEQ, BNE, BLT, BGE, BLTU, BGEU.
    Branch,
    /// LB, LH, LW, LBU, LHU.
    Load,
    /// SB, SH, SW.
    Store,
    /// ADDI, SLTI, SLTIU, XORI, ORI, ANDI, SLLI, SRLI, SRAI.
    ImmediateMath,
    /// ADD, SUB, SLL, SLT, SLTU, XOR, SRL, SRA, OR, AND.
    Math,
    /// ECALL, EBREAK; recognized, not carried out.
    Call,
}

/// The operation whose opcode is the low seven bits of `raw`, if there is
/// one.
pub open spec fn decode_operation(raw: u32) -> Option<Operation> {
    let code = raw & 0x7f;
    if code == 0b0110111 {
        Some(Operation::LUI)
    } else if code == 0b0010111 {
        Some(Operation::AUIPC)
    } else if code == 0b1101111 {
        Some(Operation::JAL)
    } else if code == 0b1100111 {
        Some(Operation::JALR)
    } else if code == 0b0001111 {
        Some(Operation::FENCE)
    } else if code == 0b1100011 {
        Some(Operation::Branch)
    } else if code == 0b0000011 {
        Some(Operation::Load)
    } else if code == 0b0100011 {
        Some(Operation::Store)
    } else if code == 0b0010011 {
        Some(Operation::ImmediateMath)
    } else if code == 0b0110011 {
        Some(Operation::Math)
    } else if code == 0b1110011 {
        Some(Operation::Call)
    } else {
        None
    }
}

impl Operation {
    /// The name of the operation's variant.
    pub open spec fn label_spec(self) -> Seq<char> {
        match self {
            Operation::LUI => "LUI"@,
            Operation::AUIPC => "AUIPC"@,
            Operation::JAL => "JAL"@,
            Operation::JALR => "JALR"@,
            Operation::FENCE => "FENCE"@,
            Operation::Branch => "Branch"@,
            Operation::Load => "Load"@,
            Operation::Store => "Store"@,
            Operation::ImmediateMath => "ImmediateMath"@,
            Operation::Math => "Math"@,
            Operation::Call => "Call"@,
        }
    }

    /// The name of the operation's variant.
    pub fn label(&self) -> (s: &'static str)
        ensures
            s@ == self.label_spec(),
    {
        match self {
            Operation::LUI => "LUI",
            Operation::AUIPC => "AUIPC",
            Operation::JAL => "JAL",
            Operation::JALR => "JALR",
            Operation::FENCE => "FENCE",
            Operation::Branch => "Branch",
            Operation::Load => "Load",
            Operation::Store => "Store",
            Operation::ImmediateMath => "ImmediateMath",
            Operation::Math => "Math",
            Operation::Call => "Call",
        }
    }

    /// The seven opcode bits.
    pub open spec fn code_spec(self) -> u32 {
        match self {
            Operation::LUI => 0b0110111,
            Operation::AUIPC => 0b0010111,
            Operation::JAL => 0b1101111,
            Operation::JALR => 0b1100111,
            Operation::FENCE => 0b0001111,
            Operation::Branch => 0b1100011,
            Operation::Load => 0b0000011,
            Operation::Store => 0b0100011,
            Operation::ImmediateMath => 0b0010011,
            Operation::Math => 0b0110011,
            Operation::Call => 0b1110011,
        }
    }

    /// The format of the instructions under this opcode.
    pub open spec fn format_spec(self) -> Format {
        match self {
            Operation::LUI => Format::UpperImmediate,
            Operation::AUIPC => Format::UpperImmediate,
            Operation::JAL => Format::Jump,
            Operation::JALR => Format::Immediate,
            Operation::FENCE => Format::Immediate,
            Operation::Branch => Format::Branch,
            Operation::Load => Format::Immediate,
            Operation::Store => Format::Store,
            Operation::ImmediateMath => Format::Immediate,
            Operation::Math => Format::Register2register,
            Operation::Call => Format::Immediate,
        }
    }

    /// The seven opcode bits.
    pub fn code(&self) -> (c: u32)
        ensures
            c == self.code_spec(),
            c <= 0x7f,
    {
        match self {
            Operation::LUI => 0b0110111,
            Operation::AUIPC => 0b0010111,
            Operation::JAL => 0b1101111,
            Operation::JALR => 0b1100111,
            Operation::FENCE => 0b0001111,
            Operation::Branch => 0b1100011,
            Operation::Load => 0b0000011,
            Operation::Store => 0b0100011,
            Operation::ImmediateMath => 0b0010011,
            Operation::Math => 0b0110011,
            Operation::Call => 0b1110011,
        }
    }

    /// The format of the instructions under this opcode.
    pub fn format(&self) -> (f: Format)
        ensures
            f == self.format_spec(),
    {
        match self {
            Operation::LUI => Format::UpperImmediate,
            Operation::AUIPC => Format::UpperImmediate,
            Operation::JAL => Format::Jump,
            Operation::JALR => Format::Immediate,
            Operation::FENCE => Format::Immediate,
            Operation::Branch => Format::Branch,
            Operation::Load => Format::Immediate,
            Operation::Store => Format::Store,
            Operation::ImmediateMath => Format::Immediate,
            Operation::Math => Format::Register2register,
            Operation::Call => Format::Immediate,
        }
    }

    /// The operation whose opcode is the low seven bits of `raw`.
    pub fn from_code(raw: u32) -> (r: Result<Operation, OperationError>)
        ensures
            match r {
                Ok(op) => decode_operation(raw) == Some(op),
                Err(e) => decode_operation(raw).is_none() && e == OperationError::UnknownOpcode(
                    raw,
                ),
            },
    {
        let code: u32 = raw & 0x7f;
        if code == 0b0110111 {
            Ok(Operation::LUI)
        } else if code == 0b0010111 {
            Ok(Operation::AUIPC)
        } else if code == 0b1101111 {
            Ok(Operation::JAL)
        } else if code == 0b1100111 {
            Ok(Operation::JALR)
        } else if code == 0b0001111 {
            Ok(Operation::FENCE)
        } else if code == 0b1100011 {
            Ok(Operation::Branch)
        } else if code == 0b0000011 {
            Ok(Operation::Load)
        } else if code == 0b0100011 {
            Ok(Operation::Store)
        } else if code == 0b0010011 {
            Ok(Operation::ImmediateMath)
        } else if code == 0b0110011 {
            Ok(Operation::Math)
        } else if code == 0b1110011 {
            Ok(Operation::Call)
        } else {
            Err(OperationError::UnknownOpcode(raw))
        }
    }
}

/// The operation of the word `raw`, or the error that names the word.
pub open spec fn operation_of(raw: u32) -> Result<Operation, OperationError> {
    match decode_operation(raw) {
        Some(op) => Ok(op),
        None => Err(OperationError::UnknownOpcode(raw)),
    }
}

impl TryFrom<u32> for Operation {
    type Error = OperationError;

    /// The operation whose opcode is the low seven bits of `raw`.
    fn try_from(raw: u32) -> (r: Result<Self, OperationError>) {
        Operation::from_code(raw)
    }
}

impl vstd::std_specs::convert::TryFromSpecImpl<u32> for Operation {
    open spec fn obeys_try_from_spec() -> bool {
        true
    }

    open spec fn try_from_spec(raw: u32) -> Result<Self, OperationError> {
        operation_of(raw)
    }
}

/// The opcode bits of an operation decode to that operation, whatever the
/// other bits of the word hold.
pub proof fn lemma_decode_code(op: Operation, raw: u32)
    requires
        raw & 0x7f == op.code_spec(),
    ensures
        decode_operation(raw) == Some(op),
{
}

} // verus!
