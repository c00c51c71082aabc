use emu8086::cursor::ByteCursor;
use emu8086::error::DecodeError;

#[test]
fn new_cursor_stands_at_the_first_byte() {
    let cursor = ByteCursor::new(&[7, 8, 9]);
    assert_eq!(cursor.position(), 0);
    assert_eq!(cursor.remaining(), 3);
    assert!(!cursor.at_end());
}

#[test]
fn peek_does_not_advance() {
    let cursor = ByteCursor::new(&[7, 8]);
    assert_eq!(cursor.peek(), Some(7));
    assert_eq!(cursor.peek(), Some(7));
    assert_eq!(cursor.position(), 0);
}

#[test]
fn take_advances_by_one() {
    let mut cursor = ByteCursor::new(&[7, 8]);
    assert_eq!(cursor.take(), Ok(7));
    assert_eq!(cursor.position(), 1);
    assert_eq!(cursor.peek(), Some(8));
    assert_eq!(cursor.take(), Ok(8));
    assert_eq!(cursor.position(), 2);
    assert!(cursor.at_end());
    assert_eq!(cursor.remaining(), 0);
}

#[test]
fn take_at_the_end_reports_the_position() {
    let mut cursor = ByteCursor::new(&[7]);
    assert_eq!(cursor.take(), Ok(7));
    assert_eq!(cursor.peek(), None);
    assert_eq!(
        cursor.take(),
        Err(DecodeError::TruncatedInstruction { offset: 1, bytes_needed: 1 })
    );
    assert_eq!(cursor.position(), 1);
    assert_eq!(
        cursor.take(),
        Err(DecodeError::TruncatedInstruction { offset: 1, bytes_needed: 1 })
    );
}

#[test]
fn empty_buffer_is_at_its_end() {
    let mut cursor = ByteCursor::new(&[]);
    assert!(cursor.at_end());
    assert_eq!(cursor.peek(), None);
    assert_eq!(
        cursor.take(),
        Err(DecodeError::TruncatedInstruction { offset: 0, bytes_needed: 1 })
    );
    assert_eq!(
        cursor.take_word(),
        Err(DecodeError::TruncatedInstruction { offset: 0, bytes_needed: 2 })
    );
}

#[test]
fn take_word_is_little_endian() {
    let mut cursor = ByteCursor::new(&[0x34, 0x12, 0xFF, 0xFF, 0x00, 0x80]);
    assert_eq!(cursor.take_word(), Ok(0x1234));
    assert_eq!(cursor.position(), 2);
    assert_eq!(cursor.take_word(), Ok(0xFFFF));
    assert_eq!(cursor.take_word(), Ok(0x8000));
    assert!(cursor.at_end());
}

#[test]
fn take_word_with_one_byte_left_runs_to_the_end() {
    let mut cursor = ByteCursor::new(&[1, 2, 3]);
    assert_eq!(cursor.take_word(), Ok(0x0201));
    assert_eq!(
        cursor.take_word(),
        Err(DecodeError::TruncatedInstruction { offset: 3, bytes_needed: 1 })
    );
    assert!(cursor.at_end());
}

#[test]
fn a_copy_of_a_cursor_moves_on_its_own() {
    let mut cursor = ByteCursor::new(&[1, 2, 3]);
    let mut copy = cursor;
    assert_eq!(copy.take(), Ok(1));
    assert_eq!(copy.position(), 1);
    assert_eq!(cursor.position(), 0);
    assert_eq!(cursor.take(), Ok(1));
}
