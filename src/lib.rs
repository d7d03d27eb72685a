//! A two-pass assembler for a small 16-bit register machine.
//!
//! Source text is scanned line by line into labels and instructions; label
//! references are resolved once the whole file is known, and every
//! instruction is packed into one little-endian 16-bit word.

pub mod isa;
pub mod literal;
pub mod instruction;
pub mod line;
pub mod error;
pub mod builder;
pub mod assembler;
pub mod laws;

pub use crate::assembler::{assemble, encode_program, Assembler, Label};
pub use crate::builder::build_instruction;
pub use crate::error::AssemblerError;
pub use crate::instruction::{Instruction, InstructionData};
pub use crate::isa::{Condition, OpCode, Register};
pub use crate::line::{parse_line, ParsedLine};
pub use crate::literal::parse_u16;
