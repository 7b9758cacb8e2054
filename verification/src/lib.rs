//! Instruction-execution core of an 8-bit CPU emulator of the LR35902/Z80
//! family: a register file with packed condition flags, a byte-addressed
//! memory bus, an opcode decoder, and an execution engine for the
//! add / add-with-carry arithmetic family.

pub mod bus;
pub mod cpu;
pub mod instruction;
pub mod register;
