use emu8086::address::AddressBase;
use emu8086::cursor::ByteCursor;
use emu8086::decoder::{
    addressing_mode, decode_accumulator_direct, decode_immediate, decode_immediate_to_reg_mem,
    decode_immediate_to_register_short, decode_instruction, decode_mod_rm,
    decode_reg_mem_to_from_reg, resolve_operation, sign_extended_byte, sign_extended_word,
    AddressingMode, ModRm,
};
use emu8086::error::DecodeError;
use emu8086::instruction::{DisplacementWidth, Instruction, Operand};
use emu8086::opcode::Mnemonic;
use emu8086::registers::{RegisterName, Width};

fn register(name: RegisterName, width: Width) -> Operand {
    Operand::Register { name, width }
}

fn memory(base: AddressBase, displacement: i32, displacement_width: DisplacementWidth) -> Operand {
    Operand::Memory { base, displacement, displacement_width }
}

fn decode(bytes: &[u8]) -> Result<Instruction, DecodeError> {
    let mut cursor = ByteCursor::new(bytes);
    decode_instruction(&mut cursor)
}

#[test]
fn addressing_modes_by_field() {
    assert_eq!(addressing_mode(0, 0x00, 1), Ok(AddressingMode::MemoryNoDisplacement));
    assert_eq!(addressing_mode(1, 0x40, 1), Ok(AddressingMode::MemoryByteDisplacement));
    assert_eq!(addressing_mode(2, 0x80, 1), Ok(AddressingMode::MemoryWordDisplacement));
    assert_eq!(addressing_mode(3, 0xC0, 1), Ok(AddressingMode::RegisterDirect));
}

#[test]
fn mode_field_wider_than_two_bits_is_unknown() {
    assert_eq!(
        addressing_mode(4, 0xC0, 9),
        Err(DecodeError::UnknownAddressingMode { byte: 0xC0, offset: 9 })
    );
    assert_eq!(
        addressing_mode(255, 0x12, 0),
        Err(DecodeError::UnknownAddressingMode { byte: 0x12, offset: 0 })
    );
}

#[test]
fn sign_extension_of_displacements() {
    assert_eq!(sign_extended_byte(0), 0);
    assert_eq!(sign_extended_byte(127), 127);
    assert_eq!(sign_extended_byte(128), -128);
    assert_eq!(sign_extended_byte(0xDB), -37);
    assert_eq!(sign_extended_byte(255), -1);
    assert_eq!(sign_extended_word(0), 0);
    assert_eq!(sign_extended_word(32767), 32767);
    assert_eq!(sign_extended_word(32768), -32768);
    assert_eq!(sign_extended_word(0xFED4), -300);
    assert_eq!(sign_extended_word(65535), -1);
}

#[test]
fn mode_byte_with_register_operand() {
    let mut cursor = ByteCursor::new(&[0xD9, 0x55]);
    assert_eq!(
        decode_mod_rm(&mut cursor, Width::Word),
        Ok(ModRm {
            mode_byte: 0xD9,
            reg: 0b011,
            operand: register(RegisterName::Cx, Width::Word),
            length: 1,
        })
    );
    assert_eq!(cursor.position(), 1);
}

#[test]
fn mode_byte_with_register_operand_at_byte_width() {
    let mut cursor = ByteCursor::new(&[0xC6]);
    assert_eq!(
        decode_mod_rm(&mut cursor, Width::Byte),
        Ok(ModRm {
            mode_byte: 0xC6,
            reg: 0b000,
            operand: register(RegisterName::Dh, Width::Byte),
            length: 1,
        })
    );
}

#[test]
fn mode_byte_without_displacement() {
    let mut cursor = ByteCursor::new(&[0x1B]);
    assert_eq!(
        decode_mod_rm(&mut cursor, Width::Word),
        Ok(ModRm {
            mode_byte: 0x1B,
            reg: 0b011,
            operand: memory(AddressBase::BpDi, 0, DisplacementWidth::Absent),
            length: 1,
        })
    );
    assert!(cursor.at_end());
}

#[test]
fn mode_byte_with_direct_address() {
    let mut cursor = ByteCursor::new(&[0x2E, 0x05, 0x00, 0x77]);
    assert_eq!(
        decode_mod_rm(&mut cursor, Width::Word),
        Ok(ModRm {
            mode_byte: 0x2E,
            reg: 0b101,
            operand: memory(AddressBase::Direct, 5, DisplacementWidth::Bits16),
            length: 3,
        })
    );
    assert_eq!(cursor.position(), 3);
}

#[test]
fn direct_address_above_the_signed_range_stays_positive() {
    let mut cursor = ByteCursor::new(&[0x06, 0xFF, 0xFF]);
    assert_eq!(
        decode_mod_rm(&mut cursor, Width::Word).map(|m| m.operand),
        Ok(memory(AddressBase::Direct, 65535, DisplacementWidth::Bits16))
    );
}

#[test]
fn mode_byte_with_byte_displacement() {
    let mut cursor = ByteCursor::new(&[0x60, 0x04]);
    assert_eq!(
        decode_mod_rm(&mut cursor, Width::Byte),
        Ok(ModRm {
            mode_byte: 0x60,
            reg: 0b100,
            operand: memory(AddressBase::BxSi, 4, DisplacementWidth::Bits8),
            length: 2,
        })
    );
    assert_eq!(cursor.position(), 2);
}

#[test]
fn byte_displacement_is_signed() {
    let mut cursor = ByteCursor::new(&[0x41, 0xDB]);
    assert_eq!(
        decode_mod_rm(&mut cursor, Width::Word).map(|m| m.operand),
        Ok(memory(AddressBase::BxDi, -37, DisplacementWidth::Bits8))
    );
}

#[test]
fn zero_byte_displacement_is_still_consumed() {
    let mut cursor = ByteCursor::new(&[0x56, 0x00, 0x99]);
    assert_eq!(
        decode_mod_rm(&mut cursor, Width::Word),
        Ok(ModRm {
            mode_byte: 0x56,
            reg: 0b010,
            operand: memory(AddressBase::Bp, 0, DisplacementWidth::Bits8),
            length: 2,
        })
    );
    assert_eq!(cursor.position(), 2);
}

#[test]
fn mode_byte_with_word_displacement() {
    let mut cursor = ByteCursor::new(&[0x80, 0x87, 0x13]);
    assert_eq!(
        decode_mod_rm(&mut cursor, Width::Byte),
        Ok(ModRm {
            mode_byte: 0x80,
            reg: 0b000,
            operand: memory(AddressBase::BxSi, 4999, DisplacementWidth::Bits16),
            length: 3,
        })
    );
}

#[test]
fn word_displacement_is_signed() {
    let mut cursor = ByteCursor::new(&[0x8C, 0xD4, 0xFE]);
    assert_eq!(
        decode_mod_rm(&mut cursor, Width::Word).map(|m| m.operand),
        Ok(memory(AddressBase::Si, -300, DisplacementWidth::Bits16))
    );
}

#[test]
fn mode_byte_with_base_bp_at_mode_two() {
    let mut cursor = ByteCursor::new(&[0x86, 0x00, 0x00]);
    assert_eq!(
        decode_mod_rm(&mut cursor, Width::Word).map(|m| m.operand),
        Ok(memory(AddressBase::Bp, 0, DisplacementWidth::Bits16))
    );
}

#[test]
fn truncated_mode_byte_and_displacements() {
    let mut cursor = ByteCursor::new(&[]);
    assert_eq!(
        decode_mod_rm(&mut cursor, Width::Word),
        Err(DecodeError::TruncatedInstruction { offset: 0, bytes_needed: 1 })
    );
    let mut cursor = ByteCursor::new(&[0x60]);
    assert_eq!(
        decode_mod_rm(&mut cursor, Width::Word),
        Err(DecodeError::TruncatedInstruction { offset: 1, bytes_needed: 1 })
    );
    assert!(cursor.at_end());
    let mut cursor = ByteCursor::new(&[0x80, 0x01]);
    assert_eq!(
        decode_mod_rm(&mut cursor, Width::Word),
        Err(DecodeError::TruncatedInstruction { offset: 2, bytes_needed: 1 })
    );
    assert!(cursor.at_end());
    let mut cursor = ByteCursor::new(&[0x06]);
    assert_eq!(
        decode_mod_rm(&mut cursor, Width::Word),
        Err(DecodeError::TruncatedInstruction { offset: 1, bytes_needed: 2 })
    );
}

#[test]
fn immediates_by_width() {
    let mut cursor = ByteCursor::new(&[0xF4, 0xF4, 0xFF]);
    assert_eq!(
        decode_immediate(&mut cursor, Width::Byte),
        Ok(Operand::Immediate { value: 244, width: Width::Byte })
    );
    assert_eq!(cursor.position(), 1);
    assert_eq!(
        decode_immediate(&mut cursor, Width::Word),
        Ok(Operand::Immediate { value: 65524, width: Width::Word })
    );
    assert_eq!(cursor.position(), 3);
    assert_eq!(
        decode_immediate(&mut cursor, Width::Byte),
        Err(DecodeError::TruncatedInstruction { offset: 3, bytes_needed: 1 })
    );
}

#[test]
fn operation_from_opcode_or_extension() {
    assert_eq!(resolve_operation(Some(Mnemonic::Mov), 0x3F, 1), Ok(Mnemonic::Mov));
    assert_eq!(resolve_operation(None, 0x07, 1), Ok(Mnemonic::Add));
    assert_eq!(resolve_operation(None, 0x2F, 1), Ok(Mnemonic::Sub));
    assert_eq!(resolve_operation(None, 0x3F, 1), Ok(Mnemonic::Cmp));
    assert_eq!(resolve_operation(None, 0xC6, 1), Ok(Mnemonic::Add));
    assert_eq!(
        resolve_operation(None, 0x0F, 5),
        Err(DecodeError::UnsupportedOpcode { byte: 0x0F, offset: 5 })
    );
}

#[test]
fn register_memory_form_after_its_opcode() {
    let mut cursor = ByteCursor::new(&[0x8B, 0x41, 0xDB]);
    assert_eq!(cursor.take(), Ok(0x8B));
    assert_eq!(
        decode_reg_mem_to_from_reg(&mut cursor, 0x8B, Mnemonic::Mov),
        Ok(Instruction {
            mnemonic: Mnemonic::Mov,
            destination: register(RegisterName::Ax, Width::Word),
            source: memory(AddressBase::BxDi, -37, DisplacementWidth::Bits8),
            encoded_length: 3,
        })
    );
    assert!(cursor.at_end());
}

#[test]
fn immediate_form_after_its_opcode() {
    let mut cursor = ByteCursor::new(&[0x80, 0x2F, 0x22]);
    assert_eq!(cursor.take(), Ok(0x80));
    assert_eq!(
        decode_immediate_to_reg_mem(&mut cursor, 0x80, None),
        Ok(Instruction {
            mnemonic: Mnemonic::Sub,
            destination: memory(AddressBase::Bx, 0, DisplacementWidth::Absent),
            source: Operand::Immediate { value: 34, width: Width::Byte },
            encoded_length: 3,
        })
    );
    assert!(cursor.at_end());
}

#[test]
fn unknown_extension_leaves_the_cursor_behind_the_displacement() {
    let mut cursor = ByteCursor::new(&[0x81, 0x8F, 0x10, 0x00, 0x01, 0x00]);
    assert_eq!(cursor.take(), Ok(0x81));
    assert_eq!(
        decode_immediate_to_reg_mem(&mut cursor, 0x81, None),
        Err(DecodeError::UnsupportedOpcode { byte: 0x8F, offset: 1 })
    );
    assert_eq!(cursor.position(), 4);
}

#[test]
fn truncated_displacement_is_reported_before_an_unknown_extension() {
    let mut cursor = ByteCursor::new(&[0x81, 0x8F, 0x10]);
    assert_eq!(cursor.take(), Ok(0x81));
    assert_eq!(
        decode_immediate_to_reg_mem(&mut cursor, 0x81, None),
        Err(DecodeError::TruncatedInstruction { offset: 3, bytes_needed: 1 })
    );
    assert!(cursor.at_end());
}

#[test]
fn short_form_after_its_opcode() {
    let mut cursor = ByteCursor::new(&[0xB1, 0x0C]);
    assert_eq!(cursor.take(), Ok(0xB1));
    assert_eq!(
        decode_immediate_to_register_short(&mut cursor, 0xB1, Mnemonic::Mov),
        Ok(Instruction {
            mnemonic: Mnemonic::Mov,
            destination: register(RegisterName::Cl, Width::Byte),
            source: Operand::Immediate { value: 12, width: Width::Byte },
            encoded_length: 2,
        })
    );
}

#[test]
fn accumulator_form_after_its_opcode() {
    let mut cursor = ByteCursor::new(&[0xA3, 0xFA, 0x09]);
    assert_eq!(cursor.take(), Ok(0xA3));
    assert_eq!(
        decode_accumulator_direct(&mut cursor, 0xA3, Mnemonic::Mov),
        Ok(Instruction {
            mnemonic: Mnemonic::Mov,
            destination: memory(AddressBase::Direct, 2554, DisplacementWidth::Bits16),
            source: register(RegisterName::Ax, Width::Word),
            encoded_length: 3,
        })
    );
}

#[test]
fn accumulator_is_al_at_byte_width() {
    assert_eq!(
        decode(&[0xA0, 0x10, 0x00]),
        Ok(Instruction {
            mnemonic: Mnemonic::Mov,
            destination: register(RegisterName::Al, Width::Byte),
            source: memory(AddressBase::Direct, 16, DisplacementWidth::Bits16),
            encoded_length: 3,
        })
    );
}

#[test]
fn instruction_advances_the_cursor_by_its_length() {
    let bytes = [0xC7, 0x85, 0x85, 0x03, 0x5B, 0x01, 0x89, 0xD9];
    let mut cursor = ByteCursor::new(&bytes);
    let first = decode_instruction(&mut cursor).unwrap();
    assert_eq!(
        first,
        Instruction {
            mnemonic: Mnemonic::Mov,
            destination: memory(AddressBase::Di, 901, DisplacementWidth::Bits16),
            source: Operand::Immediate { value: 347, width: Width::Word },
            encoded_length: 6,
        }
    );
    assert_eq!(cursor.position(), 6);
    let second = decode_instruction(&mut cursor).unwrap();
    assert_eq!(second.encoded_length, 2);
    assert!(cursor.at_end());
}

#[test]
fn failed_instruction_consumes_nothing() {
    let bytes = [0x89, 0xD9, 0x8B, 0x80, 0x01];
    let mut cursor = ByteCursor::new(&bytes);
    assert!(decode_instruction(&mut cursor).is_ok());
    assert_eq!(cursor.position(), 2);
    assert_eq!(
        decode_instruction(&mut cursor),
        Err(DecodeError::TruncatedInstruction { offset: 5, bytes_needed: 1 })
    );
    assert_eq!(cursor.position(), 2);
}

#[test]
fn unsupported_opcode_names_the_byte_and_its_offset() {
    let bytes = [0x89, 0xD9, 0x0F, 0x01];
    let mut cursor = ByteCursor::new(&bytes);
    assert!(decode_instruction(&mut cursor).is_ok());
    assert_eq!(
        decode_instruction(&mut cursor),
        Err(DecodeError::UnsupportedOpcode { byte: 0x0F, offset: 2 })
    );
    assert_eq!(cursor.position(), 2);
}

#[test]
fn unsupported_extension_names_the_mode_byte() {
    assert_eq!(
        decode(&[0x80, 0x0F, 0x22]),
        Err(DecodeError::UnsupportedOpcode { byte: 0x0F, offset: 1 })
    );
}

#[test]
fn decoding_at_the_end_of_the_buffer_is_a_truncation() {
    assert_eq!(
        decode(&[]),
        Err(DecodeError::TruncatedInstruction { offset: 0, bytes_needed: 1 })
    );
}

#[test]
fn truncated_immediates() {
    assert_eq!(
        decode(&[0xB8]),
        Err(DecodeError::TruncatedInstruction { offset: 1, bytes_needed: 2 })
    );
    assert_eq!(
        decode(&[0xB8, 0x01]),
        Err(DecodeError::TruncatedInstruction { offset: 2, bytes_needed: 1 })
    );
    assert_eq!(
        decode(&[0xC6, 0x03]),
        Err(DecodeError::TruncatedInstruction { offset: 2, bytes_needed: 1 })
    );
    assert_eq!(
        decode(&[0xA1, 0x34]),
        Err(DecodeError::TruncatedInstruction { offset: 2, bytes_needed: 1 })
    );
}

#[test]
fn direction_bit_is_ignored_by_immediate_forms() {
    let with_bit_clear = decode(&[0x80, 0xC3, 0x05]).unwrap();
    let with_bit_set = decode(&[0x82, 0xC3, 0x05]).unwrap();
    assert_eq!(with_bit_clear, with_bit_set);
    assert_eq!(with_bit_clear.destination, register(RegisterName::Bl, Width::Byte));
    assert_eq!(with_bit_clear.source, Operand::Immediate { value: 5, width: Width::Byte });
}
