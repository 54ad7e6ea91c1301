use vstd::prelude::*;
use vstd::std_specs::convert::FromSpecImpl;

verus! {

/// A branch condition on the zero or the carry flag.
#[derive(Clone, Copy, Debug, PartialEq, Eq, Structural)]
pub enum Cond {
    /// Zero flag clear.
    NZ,
    /// Zero flag set.
    Z,
    /// Carry flag clear.
    NC,
    /// Carry flag set.
    C,
}

impl Cond {
    /// The operand that the two low bits of `bits` select.
    pub open spec fn of_bits(bits: int) -> Cond {
        let field = bits % 4;
        if field == 0 {
            Cond::NZ
        } else if field == 1 {
            Cond::Z
        } else if field == 2 {
            Cond::NC
        } else {
            Cond::C
        }
    }
}

impl From<u8> for Cond {
    fn from(value: u8) -> (operand: Cond) {
        let field: u8 = value % 4;
        if field == 0 {
            Cond::NZ
        } else if field == 1 {
            Cond::Z
        } else if field == 2 {
            Cond::NC
        } else {
            Cond::C
        }
    }
}

impl FromSpecImpl<u8> for Cond {
    open spec fn obeys_from_spec() -> bool {
        true
    }

    open spec fn from_spec(value: u8) -> Cond {
        Cond::of_bits(value as int)
    }
}

} // verus!
