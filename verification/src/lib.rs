//! Disassembler for the mov/add/sub/cmp subset of 8086 machine code.
//!
//! A byte buffer is decoded one instruction at a time into structured
//! [`instruction::Instruction`] values, which are then rendered as assembler
//! text. Every decoding and rendering step is specified over `Seq<u8>` and
//! `Seq<char>` and proved against that specification.

pub mod address;
pub mod cursor;
pub mod decoder;
pub mod disassembler;
pub mod error;
pub mod instruction;
pub mod laws;
pub mod opcode;
pub mod registers;
pub mod render;
pub mod text;

pub use crate::address::bin_to_address_calc;
pub use crate::disassembler::{decode_all, disassemble, disassemble_prefix};
pub use crate::opcode::instruction_bin_to_mnemonic;
pub use crate::registers::reg_bin_to_mnemonic;
