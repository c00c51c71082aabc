//! The ways in which decoding can fail.

use crate::text::{decimal_text, push_decimal};
use vstd::prelude::*;

verus! {

/// A failure to decode an instruction. Each one ends the pass: the bytes
/// after a failed instruction cannot be aligned again.
#[derive(Clone, Copy, Debug, PartialEq, Eq, Structural)]
pub enum DecodeError {
    /// The leading bits of `byte` select no known instruction shape, or its
    /// `reg` field selects no known arithmetic operation.
    UnsupportedOpcode { byte: u8, offset: usize },
    /// A mode field lies outside the four defined addressing modes.
    UnknownAddressingMode { byte: u8, offset: usize },
    /// The buffer ended at `offset`, `bytes_needed` bytes short of the field
    /// that was being read.
    TruncatedInstruction { offset: usize, bytes_needed: usize },
}

impl DecodeError {
    /// The byte offset at which decoding could not continue.
    pub open spec fn offset_spec(&self) -> usize {
        match *self {
            DecodeError::UnsupportedOpcode { offset, .. } => offset,
            DecodeError::UnknownAddressingMode { offset, .. } => offset,
            DecodeError::TruncatedInstruction { offset, .. } => offset,
        }
    }

    /// The one-line description of the failure.
    pub open spec fn message_text(&self) -> Seq<char> {
        match *self {
            DecodeError::UnsupportedOpcode { byte, offset } => "unsupported opcode byte "@
                + decimal_text(byte as nat) + " at offset "@ + decimal_text(offset as nat),
            DecodeError::UnknownAddressingMode { byte, offset } => "unknown addressing mode in byte "@
                + decimal_text(byte as nat) + " at offset "@ + decimal_text(offset as nat),
            DecodeError::TruncatedInstruction { offset, bytes_needed } => "truncated instruction at offset "@
                + decimal_text(offset as nat) + ", bytes needed: "@ + decimal_text(
                bytes_needed as nat,
            ),
        }
    }

    /// The byte offset at which decoding could not continue.
    #[verifier::when_used_as_spec(offset_spec)]
    pub fn offset(&self) -> (offset: usize)
        ensures
            offset == self.offset_spec(),
    {
        match self {
            DecodeError::UnsupportedOpcode { offset, .. } => *offset,
            DecodeError::UnknownAddressingMode { offset, .. } => *offset,
            DecodeError::TruncatedInstruction { offset, .. } => *offset,
        }
    }

    /// A one-line description of the failure, for display.
    pub fn message(&self) -> (text: String)
        ensures
            text@ == self.message_text(),
    {
        match self {
            DecodeError::UnsupportedOpcode { byte, offset } => {
                let mut text = String::from_str("unsupported opcode byte ");
                push_decimal(&mut text, *byte as u64);
                text.append(" at offset ");
                push_decimal(&mut text, *offset as u64);
                text
            },
            DecodeError::UnknownAddressingMode { byte, offset } => {
                let mut text = String::from_str("unknown addressing mode in byte ");
                push_decimal(&mut text, *byte as u64);
                text.append(" at offset ");
                push_decimal(&mut text, *offset as u64);
                text
            },
            DecodeError::TruncatedInstruction { offset, bytes_needed } => {
                let mut text = String::from_str("truncated instruction at offset ");
                push_decimal(&mut text, *offset as u64);
                text.append(", bytes needed: ");
                push_decimal(&mut text, *bytes_needed as u64);
                text
            },
        }
    }
}

} // verus!
