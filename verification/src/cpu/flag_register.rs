use crate::bits::bit_is_set;
use crate::instructions::cond::Cond;
use vstd::prelude::*;
use vstd::std_specs::convert::FromSpecImpl;

verus! {

/// The four condition flags. Held as four booleans, so the low nibble of the
/// flag byte has no storage and always reads as zero.
#[derive(Clone, Copy, Debug, PartialEq, Eq, Structural)]
pub struct FlagsRegister {
    pub zero: bool,
    pub subtract: bool,
    pub half_carry: bool,
    pub carry: bool,
}

impl FlagsRegister {
    /// The flag byte: Z in bit 7, N in bit 6, H in bit 5, C in bit 4.
    pub open spec fn byte(self) -> u8 {
        ((if self.zero {
            128int
        } else {
            0
        }) + (if self.subtract {
            64int
        } else {
            0
        }) + (if self.half_carry {
            32int
        } else {
            0
        }) + (if self.carry {
            16int
        } else {
            0
        })) as u8
    }

    /// The flags that the upper nibble of a byte holds.
    pub open spec fn of_byte(byte: u8) -> FlagsRegister {
        FlagsRegister {
            zero: bit_is_set(byte, 7),
            subtract: bit_is_set(byte, 6),
            half_carry: bit_is_set(byte, 5),
            carry: bit_is_set(byte, 4),
        }
    }

    /// Whether a branch condition holds of these flags.
    pub open spec fn holds(self, cond: Cond) -> bool {
        match cond {
            Cond::Z => self.zero,
            Cond::NZ => !self.zero,
            Cond::C => self.carry,
            Cond::NC => !self.carry,
        }
    }

    pub fn evaluate_condition(&self, cond: Cond) -> (met: bool)
        ensures
            met == self.holds(cond),
    {
        match cond {
            Cond::Z => self.zero,
            Cond::NZ => !self.zero,
            Cond::C => self.carry,
            Cond::NC => !self.carry,
        }
    }

    pub fn as_byte(&self) -> (byte: u8)
        ensures
            byte == self.byte(),
            byte % 16 == 0,
            byte & 0x0F == 0,
    {
        let mut byte: u8 = 0;
        if self.zero {
            byte = byte + 0x80;
        }
        if self.subtract {
            byte = byte + 0x40;
        }
        if self.half_carry {
            byte = byte + 0x20;
        }
        if self.carry {
            byte = byte + 0x10;
        }
        proof {
            lemma_low_nibble_mask(byte);
        }
        byte
    }
}

impl From<FlagsRegister> for u8 {
    fn from(flag: FlagsRegister) -> (byte: u8) {
        flag.as_byte()
    }
}

impl FromSpecImpl<FlagsRegister> for u8 {
    open spec fn obeys_from_spec() -> bool {
        true
    }

    open spec fn from_spec(flag: FlagsRegister) -> u8 {
        flag.byte()
    }
}

impl From<u8> for FlagsRegister {
    fn from(byte: u8) -> (flags: FlagsRegister) {
        FlagsRegister {
            zero: byte / 128 % 2 == 1,
            subtract: byte / 64 % 2 == 1,
            half_carry: byte / 32 % 2 == 1,
            carry: byte / 16 % 2 == 1,
        }
    }
}

impl FromSpecImpl<u8> for FlagsRegister {
    open spec fn obeys_from_spec() -> bool {
        true
    }

    open spec fn from_spec(byte: u8) -> FlagsRegister {
        FlagsRegister::of_byte(byte)
    }
}

/// Masking a byte with 0x0F leaves its remainder modulo 16.
pub proof fn lemma_low_nibble_mask(byte: u8)
    ensures
        byte & 0x0F == byte % 16,
{
    assert(byte & 0x0F == byte % 16) by (bit_vector);
}

/// Whatever the flags are, the low nibble of the flag byte is zero.
pub proof fn lemma_flag_byte_low_nibble(flags: FlagsRegister)
    ensures
        flags.byte() & 0x0F == 0,
        flags.byte() % 16 == 0,
{
    lemma_low_nibble_mask(flags.byte());
}

/// Packing the flags into a byte and unpacking them gives the flags back.
pub proof fn law_flags_round_trip(flags: FlagsRegister)
    ensures
        FlagsRegister::of_byte(flags.byte()) == flags,
{
}

/// Unpacking a byte and packing the flags again keeps the upper nibble and
/// clears the lower one.
pub proof fn law_flag_byte_round_trip(byte: u8)
    ensures
        FlagsRegister::of_byte(byte).byte() == byte - byte % 16,
{
}

} // verus!
