//! The driver: decodes a whole buffer, instruction after instruction, and
//! renders the listing.

use crate::cursor::ByteCursor;
use crate::decoder::{decode_at, decode_instruction};
use crate::error::DecodeError;
use crate::instruction::Instruction;
use vstd::prelude::*;

verus! {

/// The instructions that decode one after the other from `pos` on, up to
/// the end of the buffer or to the first one that fails.
pub open spec fn decoded_prefix(bytes: Seq<u8>, pos: int) -> Seq<Instruction>
    decreases bytes.len() - pos,
{
    if pos < 0 || pos >= bytes.len() {
        Seq::empty()
    } else {
        match decode_at(bytes, pos) {
            Err(_) => Seq::empty(),
            Ok(instruction) => seq![instruction] + decoded_prefix(
                bytes,
                pos + instruction.encoded_length,
            ),
        }
    }
}

/// The failure that ends decoding from `pos` on; `None` where every
/// instruction decodes and the last one ends with the buffer.
pub open spec fn first_failure(bytes: Seq<u8>, pos: int) -> Option<DecodeError>
    decreases bytes.len() - pos,
{
    if pos < 0 || pos >= bytes.len() {
        None
    } else {
        match decode_at(bytes, pos) {
            Err(e) => Some(e),
            Ok(instruction) => first_failure(bytes, pos + instruction.encoded_length),
        }
    }
}

/// The header line of every listing.
pub open spec fn header_text() -> Seq<char> {
    "bits 16"@
}

/// The listing of `instructions`: the header line, then one line for each
/// instruction.
pub open spec fn listing(instructions: Seq<Instruction>) -> Seq<Seq<char>> {
    seq![header_text()] + Seq::new(instructions.len(), |i: int| instructions[i].text())
}

/// The instructions of a buffer, as far as they decode.
#[derive(Debug)]
pub struct Decoding {
    /// The instructions decoded before the failure, in buffer order.
    pub instructions: Vec<Instruction>,
    /// The failure that ended the pass, if one did.
    pub failure: Option<DecodeError>,
}

/// The listing of a buffer, as far as it decodes.
#[derive(Debug)]
pub struct Disassembly {
    /// The header line and the lines of the instructions decoded before the
    /// failure.
    pub lines: Vec<String>,
    /// The failure that ended the pass, if one did.
    pub failure: Option<DecodeError>,
}

/// Decodes `buffer` from its first byte on. The pass ends with the buffer
/// or at the first instruction that fails; what was decoded before a
/// failure is kept.
pub fn decode_all(buffer: &[u8]) -> (decoding: Decoding)
    ensures
        decoding.instructions@ == decoded_prefix(buffer@, 0),
        decoding.failure == first_failure(buffer@, 0),
{
    let mut cursor = ByteCursor::new(buffer);
    let mut instructions: Vec<Instruction> = Vec::new();
    while !cursor.at_end()
        invariant
            cursor@.bytes == buffer@,
            0 <= cursor@.position <= buffer@.len(),
            decoded_prefix(buffer@, 0) == instructions@ + decoded_prefix(
                buffer@,
                cursor@.position,
            ),
            first_failure(buffer@, 0) == first_failure(buffer@, cursor@.position),
        decreases buffer@.len() - cursor@.position,
    {
        let ghost before = cursor@.position;
        match decode_instruction(&mut cursor) {
            Ok(instruction) => {
                instructions.push(instruction);
                assert(instructions@ + decoded_prefix(buffer@, cursor@.position)
                    =~= instructions@.drop_last() + decoded_prefix(buffer@, before));
            },
            Err(e) => {
                assert(instructions@ + decoded_prefix(buffer@, before) =~= instructions@);
                return Decoding { instructions, failure: Some(e) };
            },
        }
    }
    assert(instructions@ + decoded_prefix(buffer@, cursor@.position) =~= instructions@);
    Decoding { instructions, failure: None }
}

/// The header line of every listing.
pub fn header() -> (line: &'static str)
    ensures
        line@ == header_text(),
{
    "bits 16"
}

/// Renders the listing of `instructions`.
pub fn render_listing(instructions: &Vec<Instruction>) -> (lines: Vec<String>)
    ensures
        lines.deep_view() == listing(instructions@),
{
    let mut lines: Vec<String> = Vec::new();
    lines.push(String::from_str(header()));
    let mut i: usize = 0;
    while i < instructions.len()
        invariant
            0 <= i <= instructions.len(),
            lines.len() == i + 1,
            lines[0]@ == header_text(),
            forall|k: int| 1 <= k <= i ==> (#[trigger] lines[k])@ == instructions[k - 1].text(),
        decreases instructions.len() - i,
    {
        lines.push(instructions[i].render());
        i = i + 1;
    }
    assert forall|k: int| 0 <= k < lines.len() implies #[trigger] lines.deep_view()[k] == listing(
        instructions@,
    )[k] by {
        assert(lines.deep_view()[k] == lines[k]@);
    }
    assert(lines.deep_view() =~= listing(instructions@));
    lines
}

/// Disassembles `buffer` as far as it decodes: the header line, a line for
/// each instruction decoded before the first failure, and that failure.
pub fn disassemble_prefix(buffer: &[u8]) -> (disassembly: Disassembly)
    ensures
        disassembly.lines.deep_view() == listing(decoded_prefix(buffer@, 0)),
        disassembly.failure == first_failure(buffer@, 0),
{
    let decoding = decode_all(buffer);
    Disassembly { lines: render_listing(&decoding.instructions), failure: decoding.failure }
}

/// Disassembles `buffer`: the header line and one line for each
/// instruction, or the failure that kept the buffer from decoding to its
/// end.
pub fn disassemble(buffer: &[u8]) -> (outcome: Result<Vec<String>, DecodeError>)
    ensures
        match outcome {
            Ok(lines) => {
                &&& first_failure(buffer@, 0) is None
                &&& lines.deep_view() == listing(decoded_prefix(buffer@, 0))
            },
            Err(e) => first_failure(buffer@, 0) == Some(e),
        },
{
    let disassembly = disassemble_prefix(buffer);
    match disassembly.failure {
        None => Ok(disassembly.lines),
        Some(e) => Err(e),
    }
}

} // verus!
