//! A virtual machine for the RV32I base integer instruction set: a bit-exact
//! instruction codec, an interpreter over a register file and a flat byte
//! memory, and the loaders and inspection helpers around them.

pub mod bitops;
pub mod cpu;
pub mod debug;
pub mod debugger;
pub mod disasm;
pub mod elf32;
pub mod loader;
pub mod memory;
pub mod program;
pub mod rv32i;
pub mod text;
pub mod vm;

pub use cpu::{Register, Registers, CPU, REGISTER_INCREMENT};
pub use memory::Memory;
pub use program::Program;
pub use rv32i::instr::instruction::{Instruction, InstructionError};
pub use vm::VM;
