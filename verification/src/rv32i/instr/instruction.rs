//! A decoded instruction: the word, its opcode, and access to its fields.

use super::format::Format;
use super::operation::{decode_operation, Operation, OperationError};
use super::part::Part;
use crate::cpu::RegisterError;
use crate::memory::MemoryError;
use crate::text::{decimal, push_decimal};
use vstd::prelude::*;
use vstd::string::StringExecFns;

verus! {

/// Why an instruction could not be decoded or carried out.
#[derive(Debug, Clone, Copy, PartialEq, Eq, Structural)]
pub enum InstructionError {
    /// The field is not part of the instruction's format.
    Get,
    /// The field is not part of the instruction's format.
    Value,
    /// The word is no instruction.
    Parse,
    /// The low seven bits of the word are no opcode.
    UnknownOperation(u32),
    /// The opcode is known, but not this variant of it.
    InvalidOperation(Operation),
    /// A field that the operation needs is missing.
    InvalidArgument(Part),
    /// A register index is not one of 0 to 31.
    InvalidRegister,
    /// A memory access reaches past the end of the memory.
    InvalidMemory,
}

/// What an error says of itself.
pub open spec fn error_text(e: InstructionError) -> Seq<char> {
    match e {
        InstructionError::InvalidOperation(op) => "Invalid operation: "@ + op.label_spec(),
        InstructionError::InvalidArgument(part) => "Unknown argument: "@ + part.label_spec(),
        InstructionError::UnknownOperation(raw) => "Unknown operation: "@ + decimal(raw as nat),
        InstructionError::InvalidRegister => "Invalid register"@,
        InstructionError::InvalidMemory => "Invalid memory"@,
        InstructionError::Value => "Unable to extract value"@,
        InstructionError::Get => "Unable to get part"@,
        InstructionError::Parse => "Unable to parse instruction"@,
    }
}

impl InstructionError {
    /// What the error says of itself.
    pub fn message(&self) -> (s: String)
        ensures
            s@ == error_text(*self),
    {
        match self {
            InstructionError::InvalidOperation(op) => {
                let mut s = String::from_str("Invalid operation: ");
                s.append(op.label());
                s
            },
            InstructionError::InvalidArgument(part) => {
                let mut s = String::from_str("Unknown argument: ");
                s.append(part.label());
                s
            },
            InstructionError::UnknownOperation(raw) => {
                let mut s = String::from_str("Unknown operation: ");
                push_decimal(&mut s, *raw as u64);
                s
            },
            InstructionError::InvalidRegister => String::from_str("Invalid register"),
            InstructionError::InvalidMemory => String::from_str("Invalid memory"),
            InstructionError::Value => String::from_str("Unable to extract value"),
            InstructionError::Get => String::from_str("Unable to get part"),
            InstructionError::Parse => String::from_str("Unable to parse instruction"),
        }
    }
}

/// The instruction error that stands for an unknown opcode.
pub open spec fn of_operation_error(e: OperationError) -> InstructionError {
    match e {
        OperationError::UnknownOpcode(raw) => InstructionError::UnknownOperation(raw),
    }
}

impl From<OperationError> for InstructionError {
    fn from(e: OperationError) -> (r: Self) {
        match e {
            OperationError::UnknownOpcode(raw) => InstructionError::UnknownOperation(raw),
        }
    }
}

impl vstd::std_specs::convert::FromSpecImpl<OperationError> for InstructionError {
    open spec fn obeys_from_spec() -> bool {
        true
    }

    open spec fn from_spec(e: OperationError) -> Self {
        of_operation_error(e)
    }
}

/// The instruction error that stands for a bad register index.
pub open spec fn of_register_error(e: RegisterError) -> InstructionError {
    InstructionError::InvalidRegister
}

impl From<RegisterError> for InstructionError {
    fn from(e: RegisterError) -> (r: Self) {
        let _ = e;
        InstructionError::InvalidRegister
    }
}

impl vstd::std_specs::convert::FromSpecImpl<RegisterError> for InstructionError {
    open spec fn obeys_from_spec() -> bool {
        true
    }

    open spec fn from_spec(e: RegisterError) -> Self {
        of_register_error(e)
    }
}

/// The instruction error that stands for a rejected memory access.
pub open spec fn of_memory_error(e: MemoryError) -> InstructionError {
    InstructionError::InvalidMemory
}

impl From<MemoryError> for InstructionError {
    fn from(e: MemoryError) -> (r: Self) {
        let _ = e;
        InstructionError::InvalidMemory
    }
}

impl vstd::std_specs::convert::FromSpecImpl<MemoryError> for InstructionError {
    open spec fn obeys_from_spec() -> bool {
        true
    }

    open spec fn from_spec(e: MemoryError) -> Self {
        of_memory_error(e)
    }
}

/// A decoded instruction word.
#[derive(Debug, Clone, Copy, PartialEq, Eq, Structural)]
pub struct Instruction {
    /// The operation that the opcode bits name.
    pub opcode: Operation,
    /// The instruction word.
    pub raw: u32,
}

impl Instruction {
    /// The field `part` of the instruction, if its format has that field.
    pub open spec fn field(self, part: Part) -> Option<u32> {
        if self.opcode.format_spec().has(part) {
            Some(part.value_spec(self.raw))
        } else {
            None
        }
    }

    /// Decodes the word `raw`. Only the opcode is examined: a word with a
    /// known opcode is accepted whatever its other fields hold.
    pub fn parse(raw: u32) -> (r: Result<Self, InstructionError>)
        ensures
            match r {
                Ok(i) => decode_operation(raw) == Some(i.opcode) && i.raw == raw,
                Err(e) => decode_operation(raw).is_none() && e
                    == InstructionError::UnknownOperation(raw),
            },
    {
        match Operation::from_code(raw) {
            Ok(opcode) => Ok(Instruction { opcode, raw }),
            Err(e) => Err(InstructionError::from(e)),
        }
    }

    /// The format that the opcode determines.
    pub fn format(&self) -> (f: Format)
        ensures
            f == self.opcode.format_spec(),
    {
        self.opcode.format()
    }

    /// Whether the instruction's format holds `part`.
    fn has(&self, part: Part) -> (found: bool)
        ensures
            found == self.opcode.format_spec().has(part),
    {
        let parts = self.format().get();
        let mut n: usize = 0;
        while n < parts.len()
            invariant
                n <= parts@.len(),
                parts@ == self.opcode.format_spec().parts(),
                forall|k: int| 0 <= k < n ==> parts@[k] != part,
            decreases parts.len() - n,
        {
            if parts[n] == part {
                return true;
            }
            n = n + 1;
        }
        false
    }

    /// The bits of the field `part`, left in place.
    pub fn get(&self, part: Part) -> (r: Result<u32, InstructionError>)
        ensures
            match r {
                Ok(bits) => self.opcode.format_spec().has(part) && bits == part.get_spec(
                    self.raw,
                ),
                Err(e) => !self.opcode.format_spec().has(part) && e == InstructionError::Get,
            },
    {
        if self.has(part) {
            Ok(part.get(self.raw))
        } else {
            Err(InstructionError::Get)
        }
    }

    /// The number that the field `part` holds.
    pub fn value(&self, part: Part) -> (r: Result<u32, InstructionError>)
        ensures
            match r {
                Ok(v) => self.field(part) == Some(v),
                Err(e) => self.field(part).is_none() && e == InstructionError::Value,
            },
    {
        if self.has(part) {
            Ok(part.value(self.raw))
        } else {
            Err(InstructionError::Value)
        }
    }
}

} // verus!
