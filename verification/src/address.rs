//! Effective-address table: the base registers selected by a 3-bit r/m code.

use vstd::prelude::*;

verus! {

/// The base of a memory operand: one of the eight register combinations of
/// the r/m field, or no register at all for a direct address.
#[derive(Clone, Copy, Debug, PartialEq, Eq, Structural)]
pub enum AddressBase {
    BxSi,
    BxDi,
    BpSi,
    BpDi,
    Si,
    Di,
    Bp,
    Bx,
    Direct,
}

/// The effective-address table: the register combination that the r/m code
/// `rm` selects. It is defined for codes 0 to 7; any other code reads as
/// code 7. The table never yields `Direct`: that form is chosen by the
/// addressing mode, not by the table.
pub open spec fn address_base_for(rm: int) -> AddressBase {
    if rm == 0 {
        AddressBase::BxSi
    } else if rm == 1 {
        AddressBase::BxDi
    } else if rm == 2 {
        AddressBase::BpSi
    } else if rm == 3 {
        AddressBase::BpDi
    } else if rm == 4 {
        AddressBase::Si
    } else if rm == 5 {
        AddressBase::Di
    } else if rm == 6 {
        AddressBase::Bp
    } else {
        AddressBase::Bx
    }
}

impl AddressBase {
    /// The registers of the base as they stand between the brackets of a
    /// memory operand; empty for a direct address.
    pub open spec fn text(self) -> Seq<char> {
        match self {
            AddressBase::BxSi => "bx + si"@,
            AddressBase::BxDi => "bx + di"@,
            AddressBase::BpSi => "bp + si"@,
            AddressBase::BpDi => "bp + di"@,
            AddressBase::Si => "si"@,
            AddressBase::Di => "di"@,
            AddressBase::Bp => "bp"@,
            AddressBase::Bx => "bx"@,
            AddressBase::Direct => ""@,
        }
    }

    /// Looks `rm` up in the effective-address table.
    pub fn lookup(rm: u8) -> (base: AddressBase)
        requires
            rm < 8,
        ensures
            base == address_base_for(rm as int),
            base != AddressBase::Direct,
    {
        match rm {
            0 => AddressBase::BxSi,
            1 => AddressBase::BxDi,
            2 => AddressBase::BpSi,
            3 => AddressBase::BpDi,
            4 => AddressBase::Si,
            5 => AddressBase::Di,
            6 => AddressBase::Bp,
            _ => AddressBase::Bx,
        }
    }

    /// The registers of the base as they stand between the brackets of a
    /// memory operand.
    pub fn as_str(&self) -> (s: &'static str)
        ensures
            s@ == self.text(),
    {
        match self {
            AddressBase::BxSi => "bx + si",
            AddressBase::BxDi => "bx + di",
            AddressBase::BpSi => "bp + si",
            AddressBase::BpDi => "bp + di",
            AddressBase::Si => "si",
            AddressBase::Di => "di",
            AddressBase::Bp => "bp",
            AddressBase::Bx => "bx",
            AddressBase::Direct => "",
        }
    }
}

/// The bracketed address expression that the r/m code `code` selects, with
/// no displacement.
pub fn bin_to_address_calc(code: u8) -> (text: String)
    requires
        code < 8,
    ensures
        text@ == "["@ + address_base_for(code as int).text() + "]"@,
{
    let base = AddressBase::lookup(code);
    let mut text = String::from_str("[");
    text.append(base.as_str());
    text.append("]");
    text
}

} // verus!
