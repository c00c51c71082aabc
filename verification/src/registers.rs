//! Register table: the register selected by a 3-bit code at a given width.

use vstd::prelude::*;

verus! {

/// Operand size, as selected by an instruction's width bit.
#[derive(Clone, Copy, Debug, PartialEq, Eq, Structural)]
pub enum Width {
    Byte,
    Word,
}

impl Width {
    /// The width that a width bit selects: `Word` when the bit is set.
    pub open spec fn of_bit(bit: int) -> Width {
        if bit == 1 {
            Width::Word
        } else {
            Width::Byte
        }
    }

    /// The width that the flag `wide` selects.
    pub open spec fn of_flag(wide: bool) -> Width {
        if wide {
            Width::Word
        } else {
            Width::Byte
        }
    }

    /// The number of bytes that a value of this width takes.
    pub open spec fn byte_count(self) -> int {
        match self {
            Width::Byte => 1,
            Width::Word => 2,
        }
    }

    /// The size keyword of this width.
    pub open spec fn keyword(self) -> Seq<char> {
        match self {
            Width::Byte => "byte"@,
            Width::Word => "word"@,
        }
    }

    pub fn from_flag(wide: bool) -> (w: Width)
        ensures
            w == Width::of_flag(wide),
    {
        if wide {
            Width::Word
        } else {
            Width::Byte
        }
    }

    pub fn is_word(&self) -> (wide: bool)
        ensures
            wide == (*self == Width::Word),
            Width::of_flag(wide) == *self,
    {
        match self {
            Width::Byte => false,
            Width::Word => true,
        }
    }

    /// The number of bytes that a value of this width takes.
    pub fn size(&self) -> (count: usize)
        ensures
            count == self.byte_count(),
    {
        match self {
            Width::Byte => 1,
            Width::Word => 2,
        }
    }

    /// The keyword that marks an operand of this width in assembler text.
    pub fn keyword_str(&self) -> (s: &'static str)
        ensures
            s@ == self.keyword(),
    {
        match self {
            Width::Byte => "byte",
            Width::Word => "word",
        }
    }
}

/// The sixteen general-purpose register names of the 8086.
#[derive(Clone, Copy, Debug, PartialEq, Eq, Structural)]
pub enum RegisterName {
    Al,
    Cl,
    Dl,
    Bl,
    Ah,
    Ch,
    Dh,
    Bh,
    Ax,
    Cx,
    Dx,
    Bx,
    Sp,
    Bp,
    Si,
    Di,
}

/// The register table: the register that `code` names at `width`.
///
/// Only the three low bits of a register field carry meaning, so the table
/// is defined for codes 0 to 7; any other code reads as code 7.
pub open spec fn register_for(code: int, width: Width) -> RegisterName {
    match width {
        Width::Word => {
            if code == 0 {
                RegisterName::Ax
            } else if code == 1 {
                RegisterName::Cx
            } else if code == 2 {
                RegisterName::Dx
            } else if code == 3 {
                RegisterName::Bx
            } else if code == 4 {
                RegisterName::Sp
            } else if code == 5 {
                RegisterName::Bp
            } else if code == 6 {
                RegisterName::Si
            } else {
                RegisterName::Di
            }
        },
        Width::Byte => {
            if code == 0 {
                RegisterName::Al
            } else if code == 1 {
                RegisterName::Cl
            } else if code == 2 {
                RegisterName::Dl
            } else if code == 3 {
                RegisterName::Bl
            } else if code == 4 {
                RegisterName::Ah
            } else if code == 5 {
                RegisterName::Ch
            } else if code == 6 {
                RegisterName::Dh
            } else {
                RegisterName::Bh
            }
        },
    }
}

impl RegisterName {
    /// The operand size of the register.
    pub open spec fn width(self) -> Width {
        match self {
            RegisterName::Al
            | RegisterName::Cl
            | RegisterName::Dl
            | RegisterName::Bl
            | RegisterName::Ah
            | RegisterName::Ch
            | RegisterName::Dh
            | RegisterName::Bh => Width::Byte,
            _ => Width::Word,
        }
    }

    /// The 3-bit code that selects the register at its width.
    pub open spec fn code(self) -> int {
        match self {
            RegisterName::Al | RegisterName::Ax => 0,
            RegisterName::Cl | RegisterName::Cx => 1,
            RegisterName::Dl | RegisterName::Dx => 2,
            RegisterName::Bl | RegisterName::Bx => 3,
            RegisterName::Ah | RegisterName::Sp => 4,
            RegisterName::Ch | RegisterName::Bp => 5,
            RegisterName::Dh | RegisterName::Si => 6,
            RegisterName::Bh | RegisterName::Di => 7,
        }
    }

    /// The register's name in assembler text.
    pub open spec fn text(self) -> Seq<char> {
        match self {
            RegisterName::Al => "al"@,
            RegisterName::Cl => "cl"@,
            RegisterName::Dl => "dl"@,
            RegisterName::Bl => "bl"@,
            RegisterName::Ah => "ah"@,
            RegisterName::Ch => "ch"@,
            RegisterName::Dh => "dh"@,
            RegisterName::Bh => "bh"@,
            RegisterName::Ax => "ax"@,
            RegisterName::Cx => "cx"@,
            RegisterName::Dx => "dx"@,
            RegisterName::Bx => "bx"@,
            RegisterName::Sp => "sp"@,
            RegisterName::Bp => "bp"@,
            RegisterName::Si => "si"@,
            RegisterName::Di => "di"@,
        }
    }

    /// Looks `code` up in the register table.
    pub fn lookup(code: u8, width: Width) -> (name: RegisterName)
        requires
            code < 8,
        ensures
            name == register_for(code as int, width),
            name.width() == width,
            name.code() == code,
    {
        match width {
            Width::Word => match code {
                0 => RegisterName::Ax,
                1 => RegisterName::Cx,
                2 => RegisterName::Dx,
                3 => RegisterName::Bx,
                4 => RegisterName::Sp,
                5 => RegisterName::Bp,
                6 => RegisterName::Si,
                _ => RegisterName::Di,
            },
            Width::Byte => match code {
                0 => RegisterName::Al,
                1 => RegisterName::Cl,
                2 => RegisterName::Dl,
                3 => RegisterName::Bl,
                4 => RegisterName::Ah,
                5 => RegisterName::Ch,
                6 => RegisterName::Dh,
                _ => RegisterName::Bh,
            },
        }
    }

    /// The register's name in assembler text.
    pub fn as_str(&self) -> (s: &'static str)
        ensures
            s@ == self.text(),
    {
        match self {
            RegisterName::Al => "al",
            RegisterName::Cl => "cl",
            RegisterName::Dl => "dl",
            RegisterName::Bl => "bl",
            RegisterName::Ah => "ah",
            RegisterName::Ch => "ch",
            RegisterName::Dh => "dh",
            RegisterName::Bh => "bh",
            RegisterName::Ax => "ax",
            RegisterName::Cx => "cx",
            RegisterName::Dx => "dx",
            RegisterName::Bx => "bx",
            RegisterName::Sp => "sp",
            RegisterName::Bp => "bp",
            RegisterName::Si => "si",
            RegisterName::Di => "di",
        }
    }
}

/// The name of the register that `code` selects: a word register when `wide`
/// is set, a byte register otherwise.
pub fn reg_bin_to_mnemonic(code: u8, wide: bool) -> (name: String)
    requires
        code < 8,
    ensures
        name@ == register_for(code as int, Width::of_flag(wide)).text(),
{
    let register = RegisterName::lookup(code, Width::from_flag(wide));
    String::from_str(register.as_str())
}

/// Every register is the table's entry for its own code and width.
pub proof fn lemma_register_table_inverse(name: RegisterName)
    ensures
        0 <= name.code() < 8,
        register_for(name.code(), name.width()) == name,
{
}

} // verus!
