//! Operand decoding: from the bytes after an opcode to typed operands.
//!
//! Each decoding step has a specification over `Seq<u8>` and a position,
//! and an executable counterpart that reads through a [`ByteCursor`] and
//! leaves it just past the bytes that the step consumed.

use crate::address::{address_base_for, AddressBase};
use crate::cursor::{byte_at, word_at, ByteCursor};
use crate::error::DecodeError;
use crate::instruction::{DisplacementWidth, Instruction, Operand};
use crate::opcode::{
    arithmetic_op_for, classification_of, classify, direction_bit, direction_is_set, opcode_width,
    short_form_register, short_form_register_code, short_form_width, short_form_width_bit,
    width_bit, ArithmeticOp, Classification, InstructionShape, Mnemonic,
};
use crate::registers::{register_for, RegisterName, Width};
use vstd::prelude::*;

verus! {

/// The `mod` field of a mode byte: bits 6 and 7.
pub open spec fn mode_field(byte: u8) -> int {
    byte as int / 64
}

/// The `reg` field of a mode byte: bits 3 to 5.
pub open spec fn reg_field(byte: u8) -> int {
    (byte as int / 8) % 8
}

/// The `rm` field of a mode byte: bits 0 to 2.
pub open spec fn rm_field(byte: u8) -> int {
    byte as int % 8
}

/// An 8-bit displacement read as a signed offset.
pub open spec fn sign_extend_byte(byte: u8) -> int {
    if byte < 128 {
        byte as int
    } else {
        byte as int - 256
    }
}

/// A 16-bit displacement read as a signed offset.
pub open spec fn sign_extend_word(word: u16) -> int {
    if word < 32768 {
        word as int
    } else {
        word as int - 65536
    }
}

/// What the `mod` field of a mode byte says of the `rm` operand.
#[derive(Clone, Copy, Debug, PartialEq, Eq, Structural)]
pub enum AddressingMode {
    /// `mod = 00`: memory, no displacement; `rm = 110` is a direct address.
    MemoryNoDisplacement,
    /// `mod = 01`: memory, one displacement byte.
    MemoryByteDisplacement,
    /// `mod = 10`: memory, two displacement bytes.
    MemoryWordDisplacement,
    /// `mod = 11`: the operand is a register.
    RegisterDirect,
}

/// The addressing mode that a `mod` field selects; `None` for a value that
/// does not fit in two bits.
pub open spec fn addressing_mode_for(mode: int) -> Option<AddressingMode> {
    if mode == 0b00 {
        Some(AddressingMode::MemoryNoDisplacement)
    } else if mode == 0b01 {
        Some(AddressingMode::MemoryByteDisplacement)
    } else if mode == 0b10 {
        Some(AddressingMode::MemoryWordDisplacement)
    } else if mode == 0b11 {
        Some(AddressingMode::RegisterDirect)
    } else {
        None
    }
}

/// What reading `mode` as the `mod` field of `byte` at `offset` yields.
pub open spec fn addressing_mode_spec(mode: int, byte: u8, offset: usize) -> Result<
    AddressingMode,
    DecodeError,
> {
    match addressing_mode_for(mode) {
        Some(addressing) => Ok(addressing),
        None => Err(DecodeError::UnknownAddressingMode { byte, offset }),
    }
}

/// Reads `mode` as the `mod` field of the mode byte `byte` at `offset`.
pub fn addressing_mode(mode: u8, byte: u8, offset: usize) -> (outcome: Result<
    AddressingMode,
    DecodeError,
>)
    ensures
        outcome == addressing_mode_spec(mode as int, byte, offset),
{
    match mode {
        0b00 => Ok(AddressingMode::MemoryNoDisplacement),
        0b01 => Ok(AddressingMode::MemoryByteDisplacement),
        0b10 => Ok(AddressingMode::MemoryWordDisplacement),
        0b11 => Ok(AddressingMode::RegisterDirect),
        _ => Err(DecodeError::UnknownAddressingMode { byte, offset }),
    }
}

/// What a mode byte and its displacement decode to.
#[derive(Clone, Copy, Debug, PartialEq, Eq, Structural)]
pub struct ModRm {
    /// The mode byte itself.
    pub mode_byte: u8,
    /// Its `reg` field: a register code, or an opcode extension.
    pub reg: u8,
    /// The operand that its `mod` and `rm` fields address.
    pub operand: Operand,
    /// The number of bytes taken: the mode byte and its displacement.
    pub length: usize,
}

/// The mode byte at `pos` and the displacement behind it, decoded for an
/// instruction of width `width`.
pub open spec fn mod_rm_at(bytes: Seq<u8>, pos: int, width: Width) -> Result<ModRm, DecodeError> {
    match byte_at(bytes, pos) {
        Err(e) => Err(e),
        Ok(byte) => {
            let reg = reg_field(byte) as u8;
            let rm = rm_field(byte);
            match addressing_mode_spec(mode_field(byte), byte, pos as usize) {
                Err(e) => Err(e),
                Ok(AddressingMode::RegisterDirect) => Ok(
                    ModRm {
                        mode_byte: byte,
                        reg,
                        operand: Operand::Register { name: register_for(rm, width), width },
                        length: 1,
                    },
                ),
                Ok(AddressingMode::MemoryNoDisplacement) => if rm == 0b110 {
                    match word_at(bytes, pos + 1) {
                        Err(e) => Err(e),
                        Ok(address) => Ok(
                            ModRm {
                                mode_byte: byte,
                                reg,
                                operand: Operand::Memory {
                                    base: AddressBase::Direct,
                                    displacement: address as i32,
                                    displacement_width: DisplacementWidth::Bits16,
                                },
                                length: 3,
                            },
                        ),
                    }
                } else {
                    Ok(
                        ModRm {
                            mode_byte: byte,
                            reg,
                            operand: Operand::Memory {
                                base: address_base_for(rm),
                                displacement: 0,
                                displacement_width: DisplacementWidth::Absent,
                            },
                            length: 1,
                        },
                    )
                },
                Ok(AddressingMode::MemoryByteDisplacement) => match byte_at(bytes, pos + 1) {
                    Err(e) => Err(e),
                    Ok(displacement) => Ok(
                        ModRm {
                            mode_byte: byte,
                            reg,
                            operand: Operand::Memory {
                                base: address_base_for(rm),
                                displacement: sign_extend_byte(displacement) as i32,
                                displacement_width: DisplacementWidth::Bits8,
                            },
                            length: 2,
                        },
                    ),
                },
                Ok(AddressingMode::MemoryWordDisplacement) => match word_at(bytes, pos + 1) {
                    Err(e) => Err(e),
                    Ok(displacement) => Ok(
                        ModRm {
                            mode_byte: byte,
                            reg,
                            operand: Operand::Memory {
                                base: address_base_for(rm),
                                displacement: sign_extend_word(displacement) as i32,
                                displacement_width: DisplacementWidth::Bits16,
                            },
                            length: 3,
                        },
                    ),
                },
            }
        },
    }
}

/// The immediate of width `width` at `pos`.
pub open spec fn immediate_at(bytes: Seq<u8>, pos: int, width: Width) -> Result<
    Operand,
    DecodeError,
> {
    match width {
        Width::Byte => match byte_at(bytes, pos) {
            Err(e) => Err(e),
            Ok(value) => Ok(Operand::Immediate { value: value as u16, width }),
        },
        Width::Word => match word_at(bytes, pos) {
            Err(e) => Err(e),
            Ok(value) => Ok(Operand::Immediate { value, width }),
        },
    }
}

/// The operation of an immediate-to-register/memory instruction: the one
/// that the opcode settled, or else the one that the `reg` field of the
/// mode byte at `offset` selects as an opcode extension.
pub open spec fn operation_spec(settled: Option<Mnemonic>, mode_byte: u8, offset: usize) -> Result<
    Mnemonic,
    DecodeError,
> {
    match settled {
        Some(mnemonic) => Ok(mnemonic),
        None => match arithmetic_op_for(reg_field(mode_byte)) {
            Some(op) => Ok(op.mnemonic()),
            None => Err(DecodeError::UnsupportedOpcode { byte: mode_byte, offset }),
        },
    }
}

/// The register/memory-to/from-register instruction whose opcode byte is
/// `opcode` and whose mode byte stands at `pos`. With the direction bit set
/// the `reg` field names the destination; otherwise it names the source.
pub open spec fn reg_mem_to_from_reg_at(
    bytes: Seq<u8>,
    pos: int,
    opcode: u8,
    mnemonic: Mnemonic,
) -> Result<Instruction, DecodeError> {
    let width = Width::of_bit(width_bit(opcode));
    match mod_rm_at(bytes, pos, width) {
        Err(e) => Err(e),
        Ok(m) => {
            let register = Operand::Register { name: register_for(m.reg as int, width), width };
            let encoded_length = (1 + m.length) as usize;
            if direction_bit(opcode) == 1 {
                Ok(
                    Instruction {
                        mnemonic,
                        destination: register,
                        source: m.operand,
                        encoded_length,
                    },
                )
            } else {
                Ok(
                    Instruction {
                        mnemonic,
                        destination: m.operand,
                        source: register,
                        encoded_length,
                    },
                )
            }
        },
    }
}

/// The immediate-to-register/memory instruction whose opcode byte is
/// `opcode` and whose mode byte stands at `pos`. The mode byte and its
/// displacement come first, then the operation is resolved, then the
/// immediate is read. The destination is the operand that the mode byte
/// addresses, whatever the direction bit.
pub open spec fn immediate_to_reg_mem_at(
    bytes: Seq<u8>,
    pos: int,
    opcode: u8,
    settled: Option<Mnemonic>,
) -> Result<Instruction, DecodeError> {
    let width = Width::of_bit(width_bit(opcode));
    match mod_rm_at(bytes, pos, width) {
        Err(e) => Err(e),
        Ok(m) => match operation_spec(settled, m.mode_byte, pos as usize) {
            Err(e) => Err(e),
            Ok(mnemonic) => match immediate_at(bytes, pos + m.length, width) {
                Err(e) => Err(e),
                Ok(immediate) => Ok(
                    Instruction {
                        mnemonic,
                        destination: m.operand,
                        source: immediate,
                        encoded_length: (1 + m.length + width.byte_count()) as usize,
                    },
                ),
            },
        },
    }
}

/// The short-form immediate-to-register instruction whose opcode byte is
/// `opcode` and whose immediate stands at `pos`.
pub open spec fn immediate_to_register_short_at(
    bytes: Seq<u8>,
    pos: int,
    opcode: u8,
    mnemonic: Mnemonic,
) -> Result<Instruction, DecodeError> {
    let width = Width::of_bit(short_form_width_bit(opcode));
    match immediate_at(bytes, pos, width) {
        Err(e) => Err(e),
        Ok(immediate) => Ok(
            Instruction {
                mnemonic,
                destination: Operand::Register {
                    name: register_for(short_form_register(opcode), width),
                    width,
                },
                source: immediate,
                encoded_length: (1 + width.byte_count()) as usize,
            },
        ),
    }
}

/// The accumulator form whose opcode byte is `opcode` and whose 16-bit
/// direct address stands at `pos`. With the direction bit set the memory
/// operand is the destination; otherwise the accumulator is.
pub open spec fn accumulator_direct_at(
    bytes: Seq<u8>,
    pos: int,
    opcode: u8,
    mnemonic: Mnemonic,
) -> Result<Instruction, DecodeError> {
    let width = Width::of_bit(width_bit(opcode));
    match word_at(bytes, pos) {
        Err(e) => Err(e),
        Ok(address) => {
            let accumulator = Operand::Register { name: register_for(0, width), width };
            let memory = Operand::Memory {
                base: AddressBase::Direct,
                displacement: address as i32,
                displacement_width: DisplacementWidth::Bits16,
            };
            if direction_bit(opcode) == 1 {
                Ok(
                    Instruction {
                        mnemonic,
                        destination: memory,
                        source: accumulator,
                        encoded_length: 3,
                    },
                )
            } else {
                Ok(
                    Instruction {
                        mnemonic,
                        destination: accumulator,
                        source: memory,
                        encoded_length: 3,
                    },
                )
            }
        },
    }
}

/// The operands of the instruction whose opcode byte `opcode` was
/// classified as `classification`, read from `pos` on.
pub open spec fn operands_at(
    bytes: Seq<u8>,
    pos: int,
    opcode: u8,
    classification: Classification,
) -> Result<Instruction, DecodeError> {
    match classification.shape {
        InstructionShape::ImmediateToRegisterShort => immediate_to_register_short_at(
            bytes,
            pos,
            opcode,
            classification.mnemonic.unwrap(),
        ),
        InstructionShape::AccumulatorDirect => accumulator_direct_at(
            bytes,
            pos,
            opcode,
            classification.mnemonic.unwrap(),
        ),
        InstructionShape::ImmediateToRegMem => immediate_to_reg_mem_at(
            bytes,
            pos,
            opcode,
            classification.mnemonic,
        ),
        InstructionShape::RegMemToFromReg => reg_mem_to_from_reg_at(
            bytes,
            pos,
            opcode,
            classification.mnemonic.unwrap(),
        ),
    }
}

/// The instruction that starts at `pos`, or the reason why none does.
pub open spec fn decode_at(bytes: Seq<u8>, pos: int) -> Result<Instruction, DecodeError> {
    match byte_at(bytes, pos) {
        Err(e) => Err(e),
        Ok(opcode) => match classification_of(opcode) {
            None => Err(DecodeError::UnsupportedOpcode { byte: opcode, offset: pos as usize }),
            Some(classification) => operands_at(bytes, pos + 1, opcode, classification),
        },
    }
}

/// Reads an 8-bit displacement as a signed offset.
pub fn sign_extended_byte(byte: u8) -> (value: i32)
    ensures
        value == sign_extend_byte(byte),
{
    if byte < 128 {
        byte as i32
    } else {
        byte as i32 - 256
    }
}

/// Reads a 16-bit displacement as a signed offset.
pub fn sign_extended_word(word: u16) -> (value: i32)
    ensures
        value == sign_extend_word(word),
{
    if word < 32768 {
        word as i32
    } else {
        word as i32 - 65536
    }
}

/// Decodes the mode byte under the cursor and the displacement behind it.
/// A failure here is a truncation, and leaves the cursor at the end of the
/// buffer.
pub fn decode_mod_rm(cursor: &mut ByteCursor<'_>, width: Width) -> (outcome: Result<
    ModRm,
    DecodeError,
>)
    ensures
        outcome == mod_rm_at(old(cursor)@.bytes, old(cursor)@.position, width),
        old(cursor)@.reaches(final(cursor)@),
        match outcome {
            Ok(m) => final(cursor)@.position == old(cursor)@.position + m.length,
            Err(_) => final(cursor)@.position == old(cursor)@.bytes.len(),
        },
{
    let offset = cursor.position();
    let byte = cursor.take()?;
    let mode = (byte & 0b11000000) >> 6;
    let reg = (byte & 0b00111000) >> 3;
    let rm = byte & 0b00000111;
    assert(mode == byte / 64) by (bit_vector)
        requires
            mode == (byte & 0b11000000) >> 6,
    ;
    assert(reg == (byte / 8) % 8) by (bit_vector)
        requires
            reg == (byte & 0b00111000) >> 3,
    ;
    assert(rm == byte % 8) by (bit_vector)
        requires
            rm == byte & 0b00000111,
    ;
    let addressing = addressing_mode(mode, byte, offset)?;
    match addressing {
        AddressingMode::RegisterDirect => Ok(
            ModRm {
                mode_byte: byte,
                reg,
                operand: Operand::Register { name: RegisterName::lookup(rm, width), width },
                length: 1,
            },
        ),
        AddressingMode::MemoryNoDisplacement => {
            if rm == 0b110 {
                let address = cursor.take_word()?;
                Ok(
                    ModRm {
                        mode_byte: byte,
                        reg,
                        operand: Operand::Memory {
                            base: AddressBase::Direct,
                            displacement: address as i32,
                            displacement_width: DisplacementWidth::Bits16,
                        },
                        length: 3,
                    },
                )
            } else {
                Ok(
                    ModRm {
                        mode_byte: byte,
                        reg,
                        operand: Operand::Memory {
                            base: AddressBase::lookup(rm),
                            displacement: 0,
                            displacement_width: DisplacementWidth::Absent,
                        },
                        length: 1,
                    },
                )
            }
        },
        AddressingMode::MemoryByteDisplacement => {
            let displacement = cursor.take()?;
            Ok(
                ModRm {
                    mode_byte: byte,
                    reg,
                    operand: Operand::Memory {
                        base: AddressBase::lookup(rm),
                        displacement: sign_extended_byte(displacement),
                        displacement_width: DisplacementWidth::Bits8,
                    },
                    length: 2,
                },
            )
        },
        AddressingMode::MemoryWordDisplacement => {
            let displacement = cursor.take_word()?;
            Ok(
                ModRm {
                    mode_byte: byte,
                    reg,
                    operand: Operand::Memory {
                        base: AddressBase::lookup(rm),
                        displacement: sign_extended_word(displacement),
                        displacement_width: DisplacementWidth::Bits16,
                    },
                    length: 3,
                },
            )
        },
    }
}

/// Reads the immediate of width `width` under the cursor. A failure here
/// is a truncation, and leaves the cursor at the end of the buffer.
pub fn decode_immediate(cursor: &mut ByteCursor<'_>, width: Width) -> (outcome: Result<
    Operand,
    DecodeError,
>)
    ensures
        outcome == immediate_at(old(cursor)@.bytes, old(cursor)@.position, width),
        old(cursor)@.reaches(final(cursor)@),
        match outcome {
            Ok(_) => final(cursor)@.position == old(cursor)@.position + width.byte_count(),
            Err(_) => final(cursor)@.position == old(cursor)@.bytes.len(),
        },
{
    match width {
        Width::Byte => {
            let value = cursor.take()?;
            Ok(Operand::Immediate { value: value as u16, width })
        },
        Width::Word => {
            let value = cursor.take_word()?;
            Ok(Operand::Immediate { value, width })
        },
    }
}

/// Resolves the operation of an immediate-to-register/memory instruction
/// from what the opcode settled and from the mode byte at `offset`.
pub fn resolve_operation(settled: Option<Mnemonic>, mode_byte: u8, offset: usize) -> (outcome:
    Result<Mnemonic, DecodeError>)
    ensures
        outcome == operation_spec(settled, mode_byte, offset),
{
    match settled {
        Some(mnemonic) => Ok(mnemonic),
        None => {
            let reg = (mode_byte & 0b00111000) >> 3;
            assert(reg == (mode_byte / 8) % 8) by (bit_vector)
                requires
                    reg == (mode_byte & 0b00111000) >> 3,
            ;
            match ArithmeticOp::from_extension(reg) {
                Some(op) => Ok(op.to_mnemonic()),
                None => Err(DecodeError::UnsupportedOpcode { byte: mode_byte, offset }),
            }
        },
    }
}

/// Decodes the operands of a register/memory-to/from-register instruction
/// whose opcode byte `opcode` has just been read. A failure here is a
/// truncation, and leaves the cursor at the end of the buffer.
pub fn decode_reg_mem_to_from_reg(
    cursor: &mut ByteCursor<'_>,
    opcode: u8,
    mnemonic: Mnemonic,
) -> (outcome: Result<Instruction, DecodeError>)
    ensures
        outcome == reg_mem_to_from_reg_at(
            old(cursor)@.bytes,
            old(cursor)@.position,
            opcode,
            mnemonic,
        ),
        old(cursor)@.reaches(final(cursor)@),
        match outcome {
            Ok(instruction) => final(cursor)@.position == old(cursor)@.position
                + instruction.encoded_length - 1,
            Err(_) => final(cursor)@.position == old(cursor)@.bytes.len(),
        },
{
    let width = opcode_width(opcode);
    let m = decode_mod_rm(cursor, width)?;
    let register = Operand::Register { name: RegisterName::lookup(m.reg, width), width };
    let encoded_length = 1 + m.length;
    if direction_is_set(opcode) {
        Ok(Instruction { mnemonic, destination: register, source: m.operand, encoded_length })
    } else {
        Ok(Instruction { mnemonic, destination: m.operand, source: register, encoded_length })
    }
}

/// Decodes the operands of an immediate-to-register/memory instruction
/// whose opcode byte `opcode` has just been read. A truncation leaves the
/// cursor at the end of the buffer; an unknown opcode extension leaves it
/// behind the mode byte and its displacement.
pub fn decode_immediate_to_reg_mem(
    cursor: &mut ByteCursor<'_>,
    opcode: u8,
    settled: Option<Mnemonic>,
) -> (outcome: Result<Instruction, DecodeError>)
    ensures
        outcome == immediate_to_reg_mem_at(
            old(cursor)@.bytes,
            old(cursor)@.position,
            opcode,
            settled,
        ),
        old(cursor)@.reaches(final(cursor)@),
        match outcome {
            Ok(instruction) => final(cursor)@.position == old(cursor)@.position
                + instruction.encoded_length - 1,
            Err(DecodeError::TruncatedInstruction { .. }) => final(cursor)@.position == old(
                cursor,
            )@.bytes.len(),
            Err(_) => final(cursor)@.position == old(cursor)@.position + mod_rm_at(
                old(cursor)@.bytes,
                old(cursor)@.position,
                Width::of_bit(width_bit(opcode)),
            ).unwrap().length,
        },
{
    let width = opcode_width(opcode);
    let offset = cursor.position();
    let m = decode_mod_rm(cursor, width)?;
    let mnemonic = resolve_operation(settled, m.mode_byte, offset)?;
    let immediate = decode_immediate(cursor, width)?;
    Ok(
        Instruction {
            mnemonic,
            destination: m.operand,
            source: immediate,
            encoded_length: 1 + m.length + width.size(),
        },
    )
}

/// Decodes the immediate of a short-form immediate-to-register instruction
/// whose opcode byte `opcode` has just been read. A failure here is a
/// truncation, and leaves the cursor at the end of the buffer.
pub fn decode_immediate_to_register_short(
    cursor: &mut ByteCursor<'_>,
    opcode: u8,
    mnemonic: Mnemonic,
) -> (outcome: Result<Instruction, DecodeError>)
    ensures
        outcome == immediate_to_register_short_at(
            old(cursor)@.bytes,
            old(cursor)@.position,
            opcode,
            mnemonic,
        ),
        old(cursor)@.reaches(final(cursor)@),
        match outcome {
            Ok(instruction) => final(cursor)@.position == old(cursor)@.position
                + instruction.encoded_length - 1,
            Err(_) => final(cursor)@.position == old(cursor)@.bytes.len(),
        },
{
    let width = short_form_width(opcode);
    let code = short_form_register_code(opcode);
    let immediate = decode_immediate(cursor, width)?;
    Ok(
        Instruction {
            mnemonic,
            destination: Operand::Register { name: RegisterName::lookup(code, width), width },
            source: immediate,
            encoded_length: 1 + width.size(),
        },
    )
}

/// Decodes the direct address of an accumulator-form instruction whose
/// opcode byte `opcode` has just been read. A failure here is a truncation,
/// and leaves the cursor at the end of the buffer.
pub fn decode_accumulator_direct(
    cursor: &mut ByteCursor<'_>,
    opcode: u8,
    mnemonic: Mnemonic,
) -> (outcome: Result<Instruction, DecodeError>)
    ensures
        outcome == accumulator_direct_at(
            old(cursor)@.bytes,
            old(cursor)@.position,
            opcode,
            mnemonic,
        ),
        old(cursor)@.reaches(final(cursor)@),
        match outcome {
            Ok(instruction) => final(cursor)@.position == old(cursor)@.position
                + instruction.encoded_length - 1,
            Err(_) => final(cursor)@.position == old(cursor)@.bytes.len(),
        },
{
    let width = opcode_width(opcode);
    let address = cursor.take_word()?;
    let accumulator = Operand::Register { name: RegisterName::lookup(0, width), width };
    let memory = Operand::Memory {
        base: AddressBase::Direct,
        displacement: address as i32,
        displacement_width: DisplacementWidth::Bits16,
    };
    if direction_is_set(opcode) {
        Ok(Instruction { mnemonic, destination: memory, source: accumulator, encoded_length: 3 })
    } else {
        Ok(Instruction { mnemonic, destination: accumulator, source: memory, encoded_length: 3 })
    }
}

/// Reads the opcode byte under `cursor`, classifies it and decodes the
/// operands that its shape calls for.
fn decode_through(cursor: &mut ByteCursor<'_>) -> (outcome: Result<Instruction, DecodeError>)
    ensures
        outcome == decode_at(old(cursor)@.bytes, old(cursor)@.position),
        old(cursor)@.reaches(final(cursor)@),
        outcome matches Ok(instruction) ==> final(cursor)@.position == old(cursor)@.position
            + instruction.encoded_length,
{
    let offset = cursor.position();
    let opcode = cursor.take()?;
    let classification = classify(opcode, offset)?;
    match classification.shape {
        InstructionShape::ImmediateToRegisterShort => decode_immediate_to_register_short(
            cursor,
            opcode,
            classification.mnemonic.unwrap(),
        ),
        InstructionShape::AccumulatorDirect => decode_accumulator_direct(
            cursor,
            opcode,
            classification.mnemonic.unwrap(),
        ),
        InstructionShape::ImmediateToRegMem => decode_immediate_to_reg_mem(
            cursor,
            opcode,
            classification.mnemonic,
        ),
        InstructionShape::RegMemToFromReg => decode_reg_mem_to_from_reg(
            cursor,
            opcode,
            classification.mnemonic.unwrap(),
        ),
    }
}

/// Decodes the instruction under the cursor and steps past it. On failure
/// the cursor stays where it was: a failed instruction consumes nothing.
pub fn decode_instruction(cursor: &mut ByteCursor<'_>) -> (outcome: Result<
    Instruction,
    DecodeError,
>)
    ensures
        outcome == decode_at(old(cursor)@.bytes, old(cursor)@.position),
        old(cursor)@.reaches(final(cursor)@),
        match outcome {
            Ok(instruction) => final(cursor)@.position == old(cursor)@.position
                + instruction.encoded_length,
            Err(_) => final(cursor)@ == old(cursor)@,
        },
{
    let mut probe = *cursor;
    let outcome = decode_through(&mut probe);
    if outcome.is_ok() {
        *cursor = probe;
    }
    outcome
}

} // verus!
