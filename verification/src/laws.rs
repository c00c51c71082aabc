//! What holds of every buffer: the properties of decoding and rendering
//! that do not depend on the bytes at hand.

use crate::address::AddressBase;
use crate::cursor::byte_at;
use crate::decoder::{decode_at, mod_rm_at, mode_field};
use crate::disassembler::{decoded_prefix, first_failure, Decoding};
use crate::error::DecodeError;
use crate::instruction::{total_encoded_length, Instruction, Operand};
use crate::opcode::{
    classification_of, instruction_width, short_form_width_bit, width_bit, InstructionShape,
};
use crate::registers::Width;
use crate::render::{memory_text, offset_term};
use crate::text::{decimal_text, lemma_decimal_text_leading_digit};
use vstd::prelude::*;

verus! {

/// An instruction that decodes lies within the buffer, takes between two
/// and six bytes, and is well formed.
pub proof fn lemma_decoded_instruction_fits(bytes: Seq<u8>, pos: int)
    requires
        0 <= pos,
        decode_at(bytes, pos) is Ok,
    ensures
        decode_at(bytes, pos).unwrap().wf(),
        pos + decode_at(bytes, pos).unwrap().encoded_length <= bytes.len(),
{
}

/// The shape of an instruction settles which fields follow its opcode
/// byte, and the encoded length is the opcode byte and those fields: the
/// immediate for the short form, the 16-bit address for the accumulator
/// form, the mode byte with its displacement for the two other shapes, and
/// the immediate behind them for the immediate-to-register/memory shape.
pub proof fn lemma_encoded_length_by_shape(bytes: Seq<u8>, pos: int)
    requires
        0 <= pos,
        decode_at(bytes, pos) is Ok,
    ensures
        ({
            let instruction = decode_at(bytes, pos).unwrap();
            let width = Width::of_bit(width_bit(bytes[pos]));
            let mode = mod_rm_at(bytes, pos + 1, width);
            match classification_of(bytes[pos]).unwrap().shape {
                InstructionShape::ImmediateToRegisterShort => instruction.encoded_length == 1
                    + Width::of_bit(short_form_width_bit(bytes[pos])).byte_count(),
                InstructionShape::AccumulatorDirect => instruction.encoded_length == 1 + 2,
                InstructionShape::RegMemToFromReg => mode is Ok && instruction.encoded_length == 1
                    + mode.unwrap().length,
                InstructionShape::ImmediateToRegMem => mode is Ok && instruction.encoded_length == 1
                    + mode.unwrap().length + width.byte_count(),
            }
        }),
{
}

/// A mode byte takes one byte and its displacement as many as the width
/// of the displacement says; a register operand has none.
pub proof fn lemma_mod_rm_length(bytes: Seq<u8>, pos: int, width: Width)
    requires
        0 <= pos,
        mod_rm_at(bytes, pos, width) is Ok,
    ensures
        ({
            let m = mod_rm_at(bytes, pos, width).unwrap();
            &&& m.operand.wf()
            &&& m.reg < 8
            &&& pos + m.length <= bytes.len()
            &&& match m.operand {
                Operand::Memory { displacement_width, .. } => m.length == 1
                    + displacement_width.byte_count(),
                _ => m.length == 1,
            }
        }),
{
}

/// Decoding stops where the decoded instructions end: at the end of the
/// buffer where nothing fails, else before it, at the start of the
/// instruction whose failure is reported.
pub proof fn lemma_failure_follows_prefix(bytes: Seq<u8>, pos: int)
    requires
        0 <= pos <= bytes.len(),
    ensures
        ({
            let stop = pos + total_encoded_length(decoded_prefix(bytes, pos));
            match first_failure(bytes, pos) {
                None => stop == bytes.len(),
                Some(e) => stop < bytes.len() && decode_at(bytes, stop) == Err::<
                    Instruction,
                    DecodeError,
                >(e),
            }
        }),
    decreases bytes.len() - pos,
{
    if pos < bytes.len() {
        if decode_at(bytes, pos) is Ok {
            let instruction = decode_at(bytes, pos).unwrap();
            lemma_decoded_instruction_fits(bytes, pos);
            let next = pos + instruction.encoded_length;
            lemma_failure_follows_prefix(bytes, next);
            assert(decoded_prefix(bytes, pos).drop_first() =~= decoded_prefix(bytes, next));
        }
    }
}

/// Where a buffer decodes to its end, the encoded lengths of its
/// instructions add up to the length of the buffer: the instructions leave
/// no gap and do not overlap.
pub proof fn lemma_lengths_cover_buffer(bytes: Seq<u8>)
    requires
        first_failure(bytes, 0) is None,
    ensures
        total_encoded_length(decoded_prefix(bytes, 0)) == bytes.len(),
{
    lemma_failure_follows_prefix(bytes, 0);
}

/// Whether `operand`, where it is a register or an immediate, has the width
/// `width`. A memory operand has no width of its own.
pub open spec fn agrees_with_width(operand: Operand, width: Width) -> bool {
    match operand {
        Operand::Register { name, width: w } => w == width && name.width() == width,
        Operand::Immediate { width: w, .. } => w == width,
        Operand::Memory { .. } => true,
    }
}

/// Every register and every immediate of a decoded instruction has the
/// width that the width bit of its opcode selects.
pub proof fn lemma_operands_have_instruction_width(bytes: Seq<u8>, pos: int)
    requires
        0 <= pos,
        decode_at(bytes, pos) is Ok,
    ensures
        agrees_with_width(decode_at(bytes, pos).unwrap().destination, instruction_width(bytes[pos])),
        agrees_with_width(decode_at(bytes, pos).unwrap().source, instruction_width(bytes[pos])),
{
}

/// In a register/memory-to/from-register instruction whose mode byte has
/// `mod = 11`, both operands are registers of the width that the width bit
/// of the opcode selects.
pub proof fn lemma_register_mode_operands(bytes: Seq<u8>, pos: int)
    requires
        0 <= pos,
        decode_at(bytes, pos) is Ok,
        classification_of(bytes[pos]).unwrap().shape == InstructionShape::RegMemToFromReg,
        mode_field(bytes[pos + 1]) == 0b11,
    ensures
        ({
            let instruction = decode_at(bytes, pos).unwrap();
            let width = Width::of_bit(width_bit(bytes[pos]));
            &&& instruction.destination matches Operand::Register { name, width: w }
                && w == width && name.width() == width
            &&& instruction.source matches Operand::Register { name, width: w } && w
                == width && name.width() == width
        }),
{
}

/// In an immediate-to-register/memory instruction whose mode byte has
/// `mod = 11`, the destination is a register and the source an immediate,
/// both of the width that the width bit of the opcode selects.
pub proof fn lemma_register_mode_immediate(bytes: Seq<u8>, pos: int)
    requires
        0 <= pos,
        decode_at(bytes, pos) is Ok,
        classification_of(bytes[pos]).unwrap().shape == InstructionShape::ImmediateToRegMem,
        mode_field(bytes[pos + 1]) == 0b11,
    ensures
        ({
            let instruction = decode_at(bytes, pos).unwrap();
            let width = Width::of_bit(width_bit(bytes[pos]));
            &&& instruction.destination matches Operand::Register { name, width: w }
                && w == width && name.width() == width
            &&& instruction.source matches Operand::Immediate { width: w, .. } && w == width
        }),
{
}

/// The `rm` operand of a mode byte with `mod = 11` is a register of the
/// width asked for; with any other `mod` it is a memory operand.
pub proof fn lemma_mode_selects_operand_kind(bytes: Seq<u8>, pos: int, width: Width)
    requires
        0 <= pos,
        mod_rm_at(bytes, pos, width) is Ok,
    ensures
        ({
            let operand = mod_rm_at(bytes, pos, width).unwrap().operand;
            if mode_field(bytes[pos]) == 0b11 {
                operand matches Operand::Register { name, width: w } && w == width && name.width()
                    == width
            } else {
                operand is Memory
            }
        }),
{
}

/// In the line of an immediate-to-register/memory instruction the
/// destination carries a size keyword if and only if it is a memory
/// operand, and the keyword is that of the instruction's width.
pub proof fn lemma_size_keyword_iff_memory(bytes: Seq<u8>, pos: int)
    requires
        0 <= pos,
        decode_at(bytes, pos) is Ok,
        classification_of(bytes[pos]).unwrap().shape == InstructionShape::ImmediateToRegMem,
    ensures
        ({
            let instruction = decode_at(bytes, pos).unwrap();
            let width = Width::of_bit(width_bit(bytes[pos]));
            &&& instruction.size_keyword() is Some <==> instruction.destination is Memory
            &&& instruction.destination is Memory ==> instruction.size_keyword() == Some(width)
                && instruction.destination_text() == width.keyword() + " "@
                + instruction.destination.text()
            &&& !(instruction.destination is Memory) ==> instruction.destination_text()
                == instruction.destination.text()
        }),
{
}

/// Outside the immediate-to-register/memory shape no destination carries a
/// size keyword.
pub proof fn lemma_no_size_keyword_elsewhere(bytes: Seq<u8>, pos: int)
    requires
        0 <= pos,
        decode_at(bytes, pos) is Ok,
        classification_of(bytes[pos]).unwrap().shape != InstructionShape::ImmediateToRegMem,
    ensures
        decode_at(bytes, pos).unwrap().size_keyword() is None,
{
}

/// A zero displacement leaves no trace in the text of a memory operand:
/// the brackets hold the base registers and nothing else. A displacement
/// that is rendered is never zero: its digits start with a digit other
/// than `0`.
pub proof fn lemma_zero_displacement_elided(base: AddressBase, displacement: int)
    requires
        base != AddressBase::Direct,
    ensures
        displacement == 0 ==> memory_text(base, displacement) == "["@ + base.text() + "]"@,
        displacement > 0 ==> offset_term(displacement) == " + "@ + decimal_text(
            displacement as nat,
        ) && decimal_text(displacement as nat)[0] != '0',
        displacement < 0 ==> offset_term(displacement) == " - "@ + decimal_text(
            (-displacement) as nat,
        ) && decimal_text((-displacement) as nat)[0] != '0',
{
    if displacement == 0 {
        assert("["@ + base.text() + offset_term(0) + "]"@ =~= "["@ + base.text() + "]"@);
    } else if displacement > 0 {
        lemma_decimal_text_leading_digit(displacement as nat);
    } else {
        lemma_decimal_text_leading_digit((-displacement) as nat);
    }
}

/// Decoding is a function of the buffer and the start offset: two passes
/// over the same bytes from the same offset yield the same instructions
/// and end in the same way.
pub proof fn lemma_decoding_deterministic(
    bytes: Seq<u8>,
    start: int,
    first: Decoding,
    second: Decoding,
)
    requires
        first.instructions@ == decoded_prefix(bytes, start),
        first.failure == first_failure(bytes, start),
        second.instructions@ == decoded_prefix(bytes, start),
        second.failure == first_failure(bytes, start),
    ensures
        first.instructions@ == second.instructions@,
        first.failure == second.failure,
{
}

/// Decoding looks at no byte before the start offset: buffers that agree
/// from `pos` on decode alike there, up to the offsets that failures
/// report.
pub proof fn lemma_decoding_ignores_earlier_bytes(first: Seq<u8>, second: Seq<u8>, pos: int)
    requires
        0 <= pos,
        first.len() == second.len(),
        forall|i: int| pos <= i < first.len() ==> first[i] == second[i],
    ensures
        decode_at(first, pos) == decode_at(second, pos),
{
}

/// An instruction decodes alike wherever it stands: the bytes from `pos`
/// on, taken as a buffer of their own, decode at 0 to the instruction that
/// the whole buffer decodes to at `pos`, and fail where it fails.
pub proof fn lemma_decoding_position_independent(bytes: Seq<u8>, pos: int)
    requires
        0 <= pos <= bytes.len(),
    ensures
        decode_at(bytes, pos) is Ok ==> decode_at(bytes.subrange(pos, bytes.len() as int), 0)
            == decode_at(bytes, pos),
        decode_at(bytes, pos) is Err ==> decode_at(bytes.subrange(pos, bytes.len() as int), 0)
            is Err,
{
    let tail = bytes.subrange(pos, bytes.len() as int);
    assert(forall|i: int| 0 <= i < tail.len() ==> tail[i] == bytes[pos + i]);
}

/// No buffer makes decoding fail with an unknown addressing mode: the two
/// bits of a `mod` field always name one of the four modes.
pub proof fn lemma_addressing_mode_always_known(bytes: Seq<u8>, pos: int)
    requires
        0 <= pos,
    ensures
        !(decode_at(bytes, pos) is Err && decode_at(bytes, pos).unwrap_err()
            is UnknownAddressingMode),
{
}

/// A failure is reported within the buffer: a truncation at its end, an
/// unsupported opcode at the offset of the byte that it names.
pub proof fn lemma_failure_is_located(bytes: Seq<u8>, pos: int)
    requires
        0 <= pos < bytes.len() <= usize::MAX,
        decode_at(bytes, pos) is Err,
    ensures
        match decode_at(bytes, pos).unwrap_err() {
            DecodeError::TruncatedInstruction { offset, bytes_needed } => offset == bytes.len()
                && 1 <= bytes_needed <= 2,
            DecodeError::UnsupportedOpcode { byte, offset } => pos <= offset <= pos + 1
                && byte_at(bytes, offset as int) == Ok::<u8, DecodeError>(byte),
            DecodeError::UnknownAddressingMode { .. } => false,
        },
{
}

} // verus!
