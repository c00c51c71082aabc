//! Rendering: from a decoded instruction to its line of assembler text.

use crate::address::AddressBase;
use crate::instruction::{Instruction, Operand};
use crate::registers::Width;
use crate::text::{decimal_text, push_decimal, push_signed_decimal, signed_decimal_text};
use vstd::prelude::*;

verus! {

/// The offset part of a memory operand: nothing for a zero displacement,
/// else ` + ` or ` - ` and the magnitude.
pub open spec fn offset_term(displacement: int) -> Seq<char> {
    if displacement == 0 {
        Seq::empty()
    } else if displacement > 0 {
        " + "@ + decimal_text(displacement as nat)
    } else {
        " - "@ + decimal_text((-displacement) as nat)
    }
}

/// The text of a memory operand: the bare address in brackets for a direct
/// address, else the base registers and the offset term in brackets.
pub open spec fn memory_text(base: AddressBase, displacement: int) -> Seq<char> {
    if base == AddressBase::Direct {
        "["@ + signed_decimal_text(displacement) + "]"@
    } else {
        "["@ + base.text() + offset_term(displacement) + "]"@
    }
}

impl Operand {
    /// The operand in assembler text, without a size keyword.
    pub open spec fn text(self) -> Seq<char> {
        match self {
            Operand::Register { name, .. } => name.text(),
            Operand::Memory { base, displacement, .. } => memory_text(base, displacement as int),
            Operand::Immediate { value, .. } => decimal_text(value as nat),
        }
    }

    /// Appends the operand's text to `out`.
    pub fn push_text(&self, out: &mut String)
        ensures
            final(out)@ == old(out)@ + self.text(),
    {
        match self {
            Operand::Register { name, .. } => {
                out.append(name.as_str());
            },
            Operand::Memory { base, displacement, .. } => {
                out.append("[");
                match base {
                    AddressBase::Direct => {
                        push_signed_decimal(out, *displacement as i64);
                    },
                    _ => {
                        out.append(base.as_str());
                        if *displacement > 0 {
                            out.append(" + ");
                            push_decimal(out, *displacement as u64);
                        } else if *displacement < 0 {
                            out.append(" - ");
                            push_decimal(out, (-(*displacement as i64)) as u64);
                        }
                    },
                }
                out.append("]");
                assert(out@ =~= old(out)@ + self.text());
            },
            Operand::Immediate { value, .. } => {
                push_decimal(out, *value as u64);
            },
        }
    }

    /// The operand in assembler text, without a size keyword.
    pub fn render(&self) -> (text: String)
        ensures
            text@ == self.text(),
    {
        let mut text = String::new();
        self.push_text(&mut text);
        assert(text@ =~= self.text());
        text
    }
}

impl Instruction {
    /// The size keyword that the destination carries: the width of the
    /// immediate where an immediate goes to memory, where no register tells
    /// the size of the operation; `None` everywhere else.
    pub open spec fn size_keyword_spec(&self) -> Option<Width> {
        match (self.destination, self.source) {
            (Operand::Memory { .. }, Operand::Immediate { width, .. }) => Some(width),
            _ => None,
        }
    }

    /// The destination as it stands in the line: the operand's text, behind
    /// the size keyword where there is one.
    pub open spec fn destination_text(self) -> Seq<char> {
        match self.size_keyword_spec() {
            Some(width) => width.keyword() + " "@ + self.destination.text(),
            None => self.destination.text(),
        }
    }

    /// The line of assembler text: mnemonic, destination, comma, source.
    pub open spec fn text(self) -> Seq<char> {
        self.mnemonic.text() + " "@ + self.destination_text() + ", "@ + self.source.text()
    }

    /// The size keyword that the destination carries in the line, if any.
    #[verifier::when_used_as_spec(size_keyword_spec)]
    pub fn size_keyword(&self) -> (keyword: Option<Width>)
        ensures
            keyword == self.size_keyword_spec(),
    {
        match (self.destination, self.source) {
            (Operand::Memory { .. }, Operand::Immediate { width, .. }) => Some(width),
            _ => None,
        }
    }

    /// The line of assembler text for the instruction.
    pub fn render(&self) -> (line: String)
        ensures
            line@ == self.text(),
    {
        let mut line = String::from_str(self.mnemonic.as_str());
        line.append(" ");
        match self.size_keyword() {
            Some(width) => {
                line.append(width.keyword_str());
                line.append(" ");
            },
            None => {},
        }
        self.destination.push_text(&mut line);
        line.append(", ");
        self.source.push_text(&mut line);
        assert(line@ =~= self.text());
        line
    }
}

} // verus!
