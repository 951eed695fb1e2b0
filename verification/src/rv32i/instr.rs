//! Instruction words: their fields, formats and opcodes, and how a word is
//! taken apart and put together.

pub mod builder;
pub mod format;
pub mod instruction;
pub mod operation;
pub mod part;
