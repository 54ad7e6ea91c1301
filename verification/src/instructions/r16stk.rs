use vstd::prelude::*;
use vstd::std_specs::convert::FromSpecImpl;

verus! {

/// A 16-bit register pair that can be pushed and popped.
#[derive(Clone, Copy, Debug, PartialEq, Eq, Structural)]
pub enum R16stk {
    /// The pair B, C.
    BC,
    /// The pair D, E.
    DE,
    /// The pair H, L.
    HL,
    /// The accumulator and the flags.
    AF,
}

impl R16stk {
    /// The operand that the two low bits of `bits` select.
    pub open spec fn of_bits(bits: int) -> R16stk {
        let field = bits % 4;
        if field == 0 {
            R16stk::BC
        } else if field == 1 {
            R16stk::DE
        } else if field == 2 {
            R16stk::HL
        } else {
            R16stk::AF
        }
    }
}

impl From<u8> for R16stk {
    fn from(value: u8) -> (operand: R16stk) {
        let field: u8 = value % 4;
        if field == 0 {
            R16stk::BC
        } else if field == 1 {
            R16stk::DE
        } else if field == 2 {
            R16stk::HL
        } else {
            R16stk::AF
        }
    }
}

impl FromSpecImpl<u8> for R16stk {
    open spec fn obeys_from_spec() -> bool {
        true
    }

    open spec fn from_spec(value: u8) -> R16stk {
        R16stk::of_bits(value as int)
    }
}

} // verus!
