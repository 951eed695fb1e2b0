//! The RV32I base integer instruction set.

pub mod instr;
