use vstd::prelude::*;
use vstd::std_specs::convert::FromSpecImpl;

verus! {

/// A 16-bit register operand of the arithmetic and load instructions.
#[derive(Clone, Copy, Debug, PartialEq, Eq, Structural)]
pub enum R16 {
    /// The pair B, C.
    BC,
    /// The pair D, E.
    DE,
    /// The pair H, L.
    HL,
    /// The stack pointer.
    SP,
}

impl R16 {
    /// The operand that the two low bits of `bits` select.
    pub open spec fn of_bits(bits: int) -> R16 {
        let field = bits % 4;
        if field == 0 {
            R16::BC
        } else if field == 1 {
            R16::DE
        } else if field == 2 {
            R16::HL
        } else {
            R16::SP
        }
    }
}

impl From<u8> for R16 {
    fn from(value: u8) -> (operand: R16) {
        let field: u8 = value % 4;
        if field == 0 {
            R16::BC
        } else if field == 1 {
            R16::DE
        } else if field == 2 {
            R16::HL
        } else {
            R16::SP
        }
    }
}

impl FromSpecImpl<u8> for R16 {
    open spec fn obeys_from_spec() -> bool {
        true
    }

    open spec fn from_spec(value: u8) -> R16 {
        R16::of_bits(value as int)
    }
}

} // verus!
