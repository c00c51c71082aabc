//! A bounds-checked sequential reader over the instruction buffer.

use crate::error::DecodeError;
use vstd::prelude::*;

verus! {

/// The byte at `pos`, or the truncation found there.
pub open spec fn byte_at(bytes: Seq<u8>, pos: int) -> Result<u8, DecodeError> {
    if 0 <= pos < bytes.len() {
        Ok(bytes[pos])
    } else {
        Err(DecodeError::TruncatedInstruction { offset: bytes.len() as usize, bytes_needed: 1 })
    }
}

/// The little-endian 16-bit value of a low and a high byte.
pub open spec fn word_of(low: u8, high: u8) -> u16 {
    (low as int + 256 * (high as int)) as u16
}

/// The little-endian 16-bit value at `pos`, or the truncation found there:
/// the buffer's end, and how many of the two bytes lie beyond it.
pub open spec fn word_at(bytes: Seq<u8>, pos: int) -> Result<u16, DecodeError> {
    if 0 <= pos && pos + 2 <= bytes.len() {
        Ok(word_of(bytes[pos], bytes[pos + 1]))
    } else {
        Err(
            DecodeError::TruncatedInstruction {
                offset: bytes.len() as usize,
                bytes_needed: (pos + 2 - bytes.len()) as usize,
            },
        )
    }
}

/// What a cursor is: the bytes it reads and how many of them it has passed.
pub struct CursorView {
    pub bytes: Seq<u8>,
    pub position: int,
}

impl CursorView {
    /// Whether a cursor in this state can come to be in the state `later`:
    /// over the same bytes, no further back, and not past their end.
    pub open spec fn reaches(self, later: CursorView) -> bool {
        &&& later.bytes == self.bytes
        &&& self.position <= later.position <= self.bytes.len()
    }
}

/// A reader that walks a borrowed buffer from its first byte to its end.
/// The position never moves backwards and never passes the end.
#[derive(Clone, Copy)]
pub struct ByteCursor<'a> {
    buffer: &'a [u8],
    position: usize,
}

impl<'a> View for ByteCursor<'a> {
    type V = CursorView;

    closed spec fn view(&self) -> CursorView {
        CursorView { bytes: self.buffer@, position: self.position as int }
    }
}

impl<'a> ByteCursor<'a> {
    #[verifier::type_invariant]
    spec fn in_bounds(self) -> bool {
        self.position <= self.buffer@.len()
    }

    /// A cursor at the first byte of `buffer`.
    pub fn new(buffer: &'a [u8]) -> (cursor: Self)
        ensures
            cursor@.bytes == buffer@,
            cursor@.position == 0,
    {
        ByteCursor { buffer, position: 0 }
    }

    /// The number of bytes passed so far.
    pub fn position(&self) -> (position: usize)
        ensures
            position == self@.position,
            position <= self@.bytes.len(),
    {
        proof {
            use_type_invariant(self);
        }
        self.position
    }

    /// The number of bytes still to be read.
    pub fn remaining(&self) -> (count: usize)
        ensures
            count == self@.bytes.len() - self@.position,
    {
        proof {
            use_type_invariant(self);
        }
        self.buffer.len() - self.position
    }

    /// Whether every byte has been read.
    pub fn at_end(&self) -> (done: bool)
        ensures
            done == (self@.position == self@.bytes.len()),
    {
        proof {
            use_type_invariant(self);
        }
        self.position == self.buffer.len()
    }

    /// The byte at the current position, which stays where it is.
    pub fn peek(&self) -> (byte: Option<u8>)
        ensures
            byte == match byte_at(self@.bytes, self@.position) {
                Ok(b) => Some(b),
                Err(_) => None,
            },
    {
        if self.position < self.buffer.len() {
            Some(self.buffer[self.position])
        } else {
            None
        }
    }

    /// Reads the byte at the current position and steps past it. At the end
    /// of the buffer nothing is read and the truncation is reported.
    pub fn take(&mut self) -> (byte: Result<u8, DecodeError>)
        ensures
            byte == byte_at(old(self)@.bytes, old(self)@.position),
            old(self)@.reaches(final(self)@),
            byte is Ok ==> final(self)@.position == old(self)@.position + 1,
            byte is Err ==> final(self)@.position == old(self)@.position == old(self)@.bytes.len(),
    {
        proof {
            use_type_invariant(&*self);
        }
        if self.position < self.buffer.len() {
            let byte = self.buffer[self.position];
            self.position = self.position + 1;
            Ok(byte)
        } else {
            Err(
                DecodeError::TruncatedInstruction {
                    offset: self.buffer.len(),
                    bytes_needed: 1,
                },
            )
        }
    }

    /// Reads a little-endian 16-bit value and steps past it. Where fewer
    /// than two bytes are left, the cursor runs to the end of the buffer and
    /// the truncation is reported.
    pub fn take_word(&mut self) -> (word: Result<u16, DecodeError>)
        ensures
            word == word_at(old(self)@.bytes, old(self)@.position),
            old(self)@.reaches(final(self)@),
            word is Ok ==> final(self)@.position == old(self)@.position + 2,
            word is Err ==> final(self)@.position == old(self)@.bytes.len(),
    {
        proof {
            use_type_invariant(&*self);
        }
        let left = self.buffer.len() - self.position;
        if left >= 2 {
            let low = self.buffer[self.position];
            let high = self.buffer[self.position + 1];
            self.position = self.position + 2;
            assert((low as u16) | ((high as u16) << 8) == (low as u16) + 256 * (high as u16))
                by (bit_vector);
            Ok((low as u16) | ((high as u16) << 8))
        } else {
            self.position = self.buffer.len();
            Err(
                DecodeError::TruncatedInstruction {
                    offset: self.buffer.len(),
                    bytes_needed: 2 - left,
                },
            )
        }
    }
}

} // verus!
