//! The decoded form of an instruction: a mnemonic and two typed operands.

use crate::address::AddressBase;
use crate::opcode::Mnemonic;
use crate::registers::{RegisterName, Width};
use vstd::prelude::*;

verus! {

/// How many displacement bytes followed the mode byte of a memory operand.
#[derive(Clone, Copy, Debug, PartialEq, Eq, Structural)]
pub enum DisplacementWidth {
    Absent,
    Bits8,
    Bits16,
}

impl DisplacementWidth {
    /// The number of displacement bytes.
    pub open spec fn byte_count(self) -> int {
        match self {
            DisplacementWidth::Absent => 0,
            DisplacementWidth::Bits8 => 1,
            DisplacementWidth::Bits16 => 2,
        }
    }
}

/// One operand of an instruction.
#[derive(Clone, Copy, Debug, PartialEq, Eq, Structural)]
pub enum Operand {
    /// A register, at the width of the instruction.
    Register { name: RegisterName, width: Width },
    /// A memory location: a base and a signed displacement from it. For the
    /// `Direct` base the displacement is the absolute 16-bit address.
    Memory { base: AddressBase, displacement: i32, displacement_width: DisplacementWidth },
    /// A constant held in the instruction itself.
    Immediate { value: u16, width: Width },
}

impl Operand {
    /// Whether the operand is one that decoding can produce: a register at
    /// its own width, a displacement within the range of its encoding, an
    /// immediate within the range of its width.
    pub open spec fn wf(self) -> bool {
        match self {
            Operand::Register { name, width } => name.width() == width,
            Operand::Memory { base, displacement, displacement_width } => match displacement_width {
                DisplacementWidth::Absent => base != AddressBase::Direct && displacement == 0,
                DisplacementWidth::Bits8 => base != AddressBase::Direct && -128 <= displacement
                    <= 127,
                DisplacementWidth::Bits16 => if base == AddressBase::Direct {
                    0 <= displacement <= 65535
                } else {
                    -32768 <= displacement <= 32767
                },
            },
            Operand::Immediate { value, width } => width == Width::Byte ==> value <= 255,
        }
    }
}

/// A decoded instruction. `encoded_length` is the number of bytes that the
/// instruction takes in the buffer, opcode byte included.
#[derive(Clone, Copy, Debug, PartialEq, Eq, Structural)]
pub struct Instruction {
    pub mnemonic: Mnemonic,
    pub destination: Operand,
    pub source: Operand,
    pub encoded_length: usize,
}

impl Instruction {
    /// Whether the instruction is one that decoding can produce.
    pub open spec fn wf(self) -> bool {
        &&& self.destination.wf()
        &&& self.source.wf()
        &&& self.destination !is Immediate
        &&& !(self.destination is Memory && self.source is Memory)
        &&& 2 <= self.encoded_length <= 6
    }
}

/// The total of the encoded lengths of `instructions`.
pub open spec fn total_encoded_length(instructions: Seq<Instruction>) -> int
    decreases instructions.len(),
{
    if instructions.len() == 0 {
        0
    } else {
        instructions[0].encoded_length + total_encoded_length(instructions.drop_first())
    }
}

} // verus!
