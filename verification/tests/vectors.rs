use emu8086::disassembler::{disassemble, disassemble_prefix};
use emu8086::error::DecodeError;

fn lines_of(bytes: &[u8]) -> Vec<String> {
    disassemble(bytes).expect("the buffer decodes to its end")
}

#[test]
fn register_to_register_move() {
    assert_eq!(lines_of(&[0x89, 0xD9]), vec!["bits 16", "mov cx, bx"]);
}

#[test]
fn short_form_word_immediate() {
    assert_eq!(lines_of(&[0xB8, 0x01, 0x00]), vec!["bits 16", "mov ax, 1"]);
}

#[test]
fn accumulator_load_from_direct_address() {
    assert_eq!(lines_of(&[0xA1, 0x34, 0x12]), vec!["bits 16", "mov ax, [4660]"]);
}

#[test]
fn add_with_direction_bit_clear_writes_to_memory() {
    assert_eq!(lines_of(&[0x01, 0x18]), vec!["bits 16", "add [bx + si], bx"]);
}

#[test]
fn add_with_direction_bit_set_reads_from_memory() {
    assert_eq!(lines_of(&[0x03, 0x18]), vec!["bits 16", "add bx, [bx + si]"]);
}

#[test]
fn word_immediate_after_opcode_83_needs_two_bytes() {
    assert_eq!(
        disassemble(&[0x83, 0xC6, 0x02]),
        Err(DecodeError::TruncatedInstruction { offset: 3, bytes_needed: 1 })
    );
    assert_eq!(lines_of(&[0x83, 0xC6, 0x02, 0x00]), vec!["bits 16", "add si, 2"]);
}

#[test]
fn add_immediate_to_word_register() {
    assert_eq!(lines_of(&[0x81, 0xC6, 0x02, 0x00]), vec!["bits 16", "add si, 2"]);
    assert_eq!(lines_of(&[0x81, 0xC5, 0x02, 0x00]), vec!["bits 16", "add bp, 2"]);
}

#[test]
fn lone_opcode_is_truncated_at_offset_one() {
    assert_eq!(
        disassemble(&[0x89]),
        Err(DecodeError::TruncatedInstruction { offset: 1, bytes_needed: 1 })
    );
}

#[test]
fn empty_buffer_yields_the_header_alone() {
    assert_eq!(lines_of(&[]), vec!["bits 16"]);
}

#[test]
fn lines_before_a_failure_are_kept() {
    let disassembly = disassemble_prefix(&[0x89, 0xD9, 0xB8, 0x01, 0x00, 0x89]);
    assert_eq!(disassembly.lines, vec!["bits 16", "mov cx, bx", "mov ax, 1"]);
    assert_eq!(
        disassembly.failure,
        Some(DecodeError::TruncatedInstruction { offset: 6, bytes_needed: 1 })
    );
    assert_eq!(disassembly.failure.unwrap().offset(), 6);
}

#[test]
fn strict_disassembly_reports_the_failure_only() {
    assert_eq!(
        disassemble(&[0x89, 0xD9, 0xFF]),
        Err(DecodeError::UnsupportedOpcode { byte: 0xFF, offset: 2 })
    );
}
