//! Decoder for the MOV family of 8086 machine instructions.

pub mod bits;
pub mod driver;
pub mod instruction;
pub mod mode;
pub mod opcode;
pub mod register;
pub mod render;

pub use driver::disassemble;
