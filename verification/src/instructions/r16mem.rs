use vstd::prelude::*;
use vstd::std_specs::convert::FromSpecImpl;

verus! {

/// A 16-bit register used as an address, with the two self-stepping forms of HL.
#[derive(Clone, Copy, Debug, PartialEq, Eq, Structural)]
pub enum R16mem {
    /// The address in BC.
    BC,
    /// The address in DE.
    DE,
    /// The address in HL; HL is incremented afterwards.
    HLI,
    /// The address in HL; HL is decremented afterwards.
    HLD,
}

impl R16mem {
    /// The operand that the two low bits of `bits` select.
    pub open spec fn of_bits(bits: int) -> R16mem {
        let field = bits % 4;
        if field == 0 {
            R16mem::BC
        } else if field == 1 {
            R16mem::DE
        } else if field == 2 {
            R16mem::HLI
        } else {
            R16mem::HLD
        }
    }
}

impl From<u8> for R16mem {
    fn from(value: u8) -> (operand: R16mem) {
        let field: u8 = value % 4;
        if field == 0 {
            R16mem::BC
        } else if field == 1 {
            R16mem::DE
        } else if field == 2 {
            R16mem::HLI
        } else {
            R16mem::HLD
        }
    }
}

impl FromSpecImpl<u8> for R16mem {
    open spec fn obeys_from_spec() -> bool {
        true
    }

    open spec fn from_spec(value: u8) -> R16mem {
        R16mem::of_bits(value as int)
    }
}

} // verus!
