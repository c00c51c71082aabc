//! Opcode classification: from an instruction's leading byte to the shape
//! of the bytes that follow it and, where the opcode alone decides it, the
//! operation.

use crate::error::DecodeError;
use crate::registers::Width;
use vstd::prelude::*;

verus! {

/// The operation that an instruction performs.
#[derive(Clone, Copy, Debug, PartialEq, Eq, Structural)]
pub enum Mnemonic {
    Mov,
    Add,
    Sub,
    Cmp,
}

impl Mnemonic {
    /// The mnemonic in assembler text.
    pub open spec fn text(self) -> Seq<char> {
        match self {
            Mnemonic::Mov => "mov"@,
            Mnemonic::Add => "add"@,
            Mnemonic::Sub => "sub"@,
            Mnemonic::Cmp => "cmp"@,
        }
    }

    /// The mnemonic in assembler text.
    pub fn as_str(&self) -> (s: &'static str)
        ensures
            s@ == self.text(),
    {
        match self {
            Mnemonic::Mov => "mov",
            Mnemonic::Add => "add",
            Mnemonic::Sub => "sub",
            Mnemonic::Cmp => "cmp",
        }
    }

    /// Looks an opcode code up in the mnemonic table; `None` for a code
    /// that settles no operation.
    pub fn for_code(code: u8) -> (mnemonic: Option<Mnemonic>)
        ensures
            mnemonic == opcode_mnemonic(code as int),
    {
        match code {
            0b100010 | 0b110001 | 0b1011 | 0b101000 | 0b100011 => Some(Mnemonic::Mov),
            0b000000 | 0b000001 => Some(Mnemonic::Add),
            0b001010 => Some(Mnemonic::Sub),
            0b001110 | 0b001111 => Some(Mnemonic::Cmp),
            _ => None,
        }
    }
}

/// The mnemonic table: the operation that an opcode code settles by
/// itself, or `None` where it settles none. A code is the six leading bits
/// of an opcode byte, or the four leading bits 1011 of the short immediate
/// form of mov.
///
/// Code 100000, the arithmetic immediate family, has no entry: its
/// operation is chosen by the `reg` field of the mode byte (see
/// [`arithmetic_op_for`]), never by the opcode.
///
/// The table holds one entry for each value. The value 11 is the
/// short-form code 1011 and reads as mov; the six-bit code 001011 is the
/// same value, so the opcode bytes `2C` to `2F` read as mov with it.
pub open spec fn opcode_mnemonic(code: int) -> Option<Mnemonic> {
    if code == 0b100010 || code == 0b110001 || code == 0b1011 || code == 0b101000 || code
        == 0b100011 {
        Some(Mnemonic::Mov)
    } else if code == 0b000000 || code == 0b000001 {
        Some(Mnemonic::Add)
    } else if code == 0b001010 {
        Some(Mnemonic::Sub)
    } else if code == 0b001110 || code == 0b001111 {
        Some(Mnemonic::Cmp)
    } else {
        None
    }
}

/// The mnemonic that the opcode code `code`, read at `offset`, settles by
/// itself. A code without an entry in the mnemonic table is reported as an
/// unsupported opcode; the arithmetic immediate code 100000 is among
/// them, since its operation stands in the mode byte.
pub fn instruction_bin_to_mnemonic(code: u8, offset: usize) -> (outcome: Result<
    String,
    DecodeError,
>)
    ensures
        match opcode_mnemonic(code as int) {
            Some(mnemonic) => outcome matches Ok(text) && text@ == mnemonic.text(),
            None => outcome matches Err(e) && e == (DecodeError::UnsupportedOpcode {
                byte: code,
                offset,
            }),
        },
{
    match Mnemonic::for_code(code) {
        Some(mnemonic) => Ok(String::from_str(mnemonic.as_str())),
        None => Err(DecodeError::UnsupportedOpcode { byte: code, offset }),
    }
}

/// The operation of an arithmetic immediate instruction, which its opcode
/// leaves open and the `reg` field of its mode byte selects.
#[derive(Clone, Copy, Debug, PartialEq, Eq, Structural)]
pub enum ArithmeticOp {
    Add,
    Sub,
    Cmp,
}

/// The arithmetic operation that the opcode extension `reg` selects.
pub open spec fn arithmetic_op_for(reg: int) -> Option<ArithmeticOp> {
    if reg == 0b000 {
        Some(ArithmeticOp::Add)
    } else if reg == 0b101 {
        Some(ArithmeticOp::Sub)
    } else if reg == 0b111 {
        Some(ArithmeticOp::Cmp)
    } else {
        None
    }
}

impl ArithmeticOp {
    /// The mnemonic of the operation.
    pub open spec fn mnemonic(self) -> Mnemonic {
        match self {
            ArithmeticOp::Add => Mnemonic::Add,
            ArithmeticOp::Sub => Mnemonic::Sub,
            ArithmeticOp::Cmp => Mnemonic::Cmp,
        }
    }

    /// Reads the `reg` field of a mode byte as an opcode extension.
    pub fn from_extension(reg: u8) -> (op: Option<ArithmeticOp>)
        ensures
            op == arithmetic_op_for(reg as int),
    {
        match reg {
            0b000 => Some(ArithmeticOp::Add),
            0b101 => Some(ArithmeticOp::Sub),
            0b111 => Some(ArithmeticOp::Cmp),
            _ => None,
        }
    }

    /// The mnemonic of the operation.
    pub fn to_mnemonic(&self) -> (mnemonic: Mnemonic)
        ensures
            mnemonic == self.mnemonic(),
    {
        match self {
            ArithmeticOp::Add => Mnemonic::Add,
            ArithmeticOp::Sub => Mnemonic::Sub,
            ArithmeticOp::Cmp => Mnemonic::Cmp,
        }
    }
}

/// The decoding path that an opcode selects.
#[derive(Clone, Copy, Debug, PartialEq, Eq, Structural)]
pub enum InstructionShape {
    /// Width and destination register are packed into the opcode byte; the
    /// immediate follows at once.
    ImmediateToRegisterShort,
    /// A 16-bit direct address follows the opcode; the other operand is the
    /// accumulator.
    AccumulatorDirect,
    /// A mode byte, its displacement and an immediate follow; the
    /// destination is the operand that the mode byte addresses.
    ImmediateToRegMem,
    /// A mode byte and its displacement follow; the direction bit says which
    /// of the two operands is the destination.
    RegMemToFromReg,
}

/// What the leading byte of an instruction settles: the shape and, unless
/// an opcode extension will select it, the operation.
#[derive(Clone, Copy, Debug, PartialEq, Eq, Structural)]
pub struct Classification {
    pub shape: InstructionShape,
    pub mnemonic: Option<Mnemonic>,
}

/// The six leading bits of an opcode byte.
pub open spec fn opcode_code(byte: u8) -> int {
    byte as int / 4
}

/// The four leading bits of an opcode byte.
pub open spec fn short_form_code(byte: u8) -> int {
    byte as int / 16
}

/// The direction bit of an opcode byte: bit 1.
pub open spec fn direction_bit(byte: u8) -> int {
    (byte as int / 2) % 2
}

/// The width bit of an opcode byte: bit 0.
pub open spec fn width_bit(byte: u8) -> int {
    byte as int % 2
}

/// The width bit of a short-form opcode byte: bit 3.
pub open spec fn short_form_width_bit(byte: u8) -> int {
    (byte as int / 8) % 2
}

/// The register code of a short-form opcode byte: bits 0 to 2.
pub open spec fn short_form_register(byte: u8) -> int {
    byte as int % 8
}

/// The operand width of the instruction that `byte` opens: the short form
/// keeps its width bit in bit 3, every other shape in bit 0.
pub open spec fn instruction_width(byte: u8) -> Width {
    if short_form_code(byte) == 0b1011 {
        Width::of_bit(short_form_width_bit(byte))
    } else {
        Width::of_bit(width_bit(byte))
    }
}

/// The classification of a leading byte, or `None` where it opens no
/// supported instruction. The patterns are tried from the most specific to
/// the least: the four-bit short form, the accumulator form, the two
/// immediate-to-register/memory codes, then the mnemonic table.
pub open spec fn classification_of(byte: u8) -> Option<Classification> {
    if short_form_code(byte) == 0b1011 {
        Some(
            Classification {
                shape: InstructionShape::ImmediateToRegisterShort,
                mnemonic: Some(Mnemonic::Mov),
            },
        )
    } else if opcode_code(byte) == 0b101000 {
        Some(
            Classification {
                shape: InstructionShape::AccumulatorDirect,
                mnemonic: Some(Mnemonic::Mov),
            },
        )
    } else if opcode_code(byte) == 0b100000 {
        Some(Classification { shape: InstructionShape::ImmediateToRegMem, mnemonic: None })
    } else if opcode_code(byte) == 0b110001 {
        Some(
            Classification {
                shape: InstructionShape::ImmediateToRegMem,
                mnemonic: Some(Mnemonic::Mov),
            },
        )
    } else {
        match opcode_mnemonic(opcode_code(byte)) {
            Some(mnemonic) => Some(
                Classification { shape: InstructionShape::RegMemToFromReg, mnemonic: Some(mnemonic) },
            ),
            None => None,
        }
    }
}

/// What classifying the byte at `offset` yields.
pub open spec fn classify_spec(byte: u8, offset: usize) -> Result<Classification, DecodeError> {
    match classification_of(byte) {
        Some(classification) => Ok(classification),
        None => Err(DecodeError::UnsupportedOpcode { byte, offset }),
    }
}

/// Classifies the leading byte of the instruction at `offset`.
pub fn classify(byte: u8, offset: usize) -> (outcome: Result<Classification, DecodeError>)
    ensures
        outcome == classify_spec(byte, offset),
{
    let code = (byte & 0b11111100) >> 2;
    assert(code == byte / 4) by (bit_vector)
        requires
            code == (byte & 0b11111100) >> 2,
    ;
    assert(((byte & 0b11110000) == 0b10110000) == (byte / 16 == 0b1011)) by (bit_vector);
    if byte & 0b11110000 == 0b10110000 {
        Ok(
            Classification {
                shape: InstructionShape::ImmediateToRegisterShort,
                mnemonic: Some(Mnemonic::Mov),
            },
        )
    } else if code == 0b101000 {
        Ok(
            Classification {
                shape: InstructionShape::AccumulatorDirect,
                mnemonic: Some(Mnemonic::Mov),
            },
        )
    } else if code == 0b100000 {
        Ok(Classification { shape: InstructionShape::ImmediateToRegMem, mnemonic: None })
    } else if code == 0b110001 {
        Ok(
            Classification {
                shape: InstructionShape::ImmediateToRegMem,
                mnemonic: Some(Mnemonic::Mov),
            },
        )
    } else {
        match Mnemonic::for_code(code) {
            Some(mnemonic) => Ok(
                Classification { shape: InstructionShape::RegMemToFromReg, mnemonic: Some(mnemonic) },
            ),
            None => Err(DecodeError::UnsupportedOpcode { byte, offset }),
        }
    }
}

/// Whether the direction bit of an opcode byte is set.
pub fn direction_is_set(byte: u8) -> (set: bool)
    ensures
        set == (direction_bit(byte) == 1),
{
    assert(((byte & 0b00000010) >> 1 == 1) == ((byte / 2) % 2 == 1)) by (bit_vector);
    (byte & 0b00000010) >> 1 == 1
}

/// The operand width that the width bit of an opcode byte selects.
pub fn opcode_width(byte: u8) -> (width: Width)
    ensures
        width == Width::of_bit(width_bit(byte)),
{
    assert((byte & 0b00000001 == 1) == (byte % 2 == 1)) by (bit_vector);
    Width::from_flag(byte & 0b00000001 == 1)
}

/// The operand width that the width bit of a short-form opcode byte selects.
pub fn short_form_width(byte: u8) -> (width: Width)
    ensures
        width == Width::of_bit(short_form_width_bit(byte)),
{
    assert(((byte & 0b00001000) >> 3 == 1) == ((byte / 8) % 2 == 1)) by (bit_vector);
    Width::from_flag((byte & 0b00001000) >> 3 == 1)
}

/// The register code in the three low bits of a short-form opcode byte.
pub fn short_form_register_code(byte: u8) -> (code: u8)
    ensures
        code == short_form_register(byte),
        code < 8,
{
    assert(byte & 0b00000111 == byte % 8) by (bit_vector);
    byte & 0b00000111
}

} // verus!
