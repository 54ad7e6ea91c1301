use vstd::prelude::*;
use vstd::std_specs::convert::FromSpecImpl;

verus! {

/// An 8-bit operand: a register, or the byte that HL points at.
#[derive(Clone, Copy, Debug, PartialEq, Eq, Structural)]
pub enum R8 {
    /// Register B.
    B,
    /// Register C.
    C,
    /// Register D.
    D,
    /// Register E.
    E,
    /// Register H.
    H,
    /// Register L.
    L,
    /// The byte in memory at the address in HL.
    HL,
    /// The accumulator.
    A,
}

impl R8 {
    /// The operand that the three low bits of `bits` select.
    pub open spec fn of_bits(bits: int) -> R8 {
        let field = bits % 8;
        if field == 0 {
            R8::B
        } else if field == 1 {
            R8::C
        } else if field == 2 {
            R8::D
        } else if field == 3 {
            R8::E
        } else if field == 4 {
            R8::H
        } else if field == 5 {
            R8::L
        } else if field == 6 {
            R8::HL
        } else {
            R8::A
        }
    }
}

impl From<u8> for R8 {
    fn from(value: u8) -> (operand: R8) {
        let field: u8 = value % 8;
        if field == 0 {
            R8::B
        } else if field == 1 {
            R8::C
        } else if field == 2 {
            R8::D
        } else if field == 3 {
            R8::E
        } else if field == 4 {
            R8::H
        } else if field == 5 {
            R8::L
        } else if field == 6 {
            R8::HL
        } else {
            R8::A
        }
    }
}

impl FromSpecImpl<u8> for R8 {
    open spec fn obeys_from_spec() -> bool {
        true
    }

    open spec fn from_spec(value: u8) -> R8 {
        R8::of_bits(value as int)
    }
}

} // verus!
