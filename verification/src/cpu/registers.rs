use super::flag_register::FlagsRegister;
use crate::bits::{high_byte, high_byte_of, low_byte, low_byte_of, make_word, word_of, wrap16};
use crate::instructions::r16::R16;
use crate::instructions::r16mem::R16mem;
use crate::instructions::r16stk::R16stk;
use crate::instructions::r8::R8;
use vstd::prelude::*;

verus! {

/// The register file: seven 8-bit registers, the flags, the stack pointer
/// and the program counter.
#[derive(Clone, Copy, Debug, PartialEq, Eq, Structural)]
pub struct Registers {
    pub a: u8,
    pub b: u8,
    pub c: u8,
    pub d: u8,
    pub e: u8,
    pub f: FlagsRegister,
    pub h: u8,
    pub l: u8,
    pub sp: u16,
    pub pc: u16,
}

impl Registers {
    /// The registers at power-on: all zero.
    pub open spec fn power_on() -> Registers {
        Registers {
            a: 0,
            b: 0,
            c: 0,
            d: 0,
            e: 0,
            f: FlagsRegister { zero: false, subtract: false, half_carry: false, carry: false },
            h: 0,
            l: 0,
            sp: 0,
            pc: 0,
        }
    }

    /// The registers as the boot program leaves them when it hands over to
    /// the cartridge at 0x0100.
    pub open spec fn after_boot() -> Registers {
        Registers {
            a: 0x01,
            b: 0,
            c: 0x13,
            d: 0,
            e: 0xD8,
            f: FlagsRegister { zero: true, subtract: false, half_carry: true, carry: true },
            h: 0x01,
            l: 0x4D,
            sp: 0xFFFE,
            pc: 0x100,
        }
    }

    /// The value of a 16-bit register.
    pub open spec fn r16(self, register: R16) -> u16 {
        match register {
            R16::SP => self.sp,
            R16::BC => word_of(self.b, self.c),
            R16::DE => word_of(self.d, self.e),
            R16::HL => word_of(self.h, self.l),
        }
    }

    /// The registers after a 16-bit register is set.
    pub open spec fn with_r16(self, register: R16, value: u16) -> Registers {
        match register {
            R16::SP => Registers { sp: value, ..self },
            R16::BC => Registers { b: high_byte_of(value), c: low_byte_of(value), ..self },
            R16::DE => Registers { d: high_byte_of(value), e: low_byte_of(value), ..self },
            R16::HL => Registers { h: high_byte_of(value), l: low_byte_of(value), ..self },
        }
    }

    /// The address that an address operand names.
    pub open spec fn r16_mem(self, register: R16mem) -> u16 {
        match register {
            R16mem::BC => self.r16(R16::BC),
            R16mem::DE => self.r16(R16::DE),
            R16mem::HLI | R16mem::HLD => self.r16(R16::HL),
        }
    }

    /// The registers after an address operand is used: HL steps up or down
    /// by one, wrapping at the ends of the address space, for the two
    /// self-stepping forms.
    pub open spec fn after_r16_mem(self, register: R16mem) -> Registers {
        match register {
            R16mem::BC | R16mem::DE => self,
            R16mem::HLI => self.with_r16(R16::HL, wrap16(self.r16(R16::HL) as int, 1)),
            R16mem::HLD => self.with_r16(R16::HL, wrap16(self.r16(R16::HL) as int, -1)),
        }
    }

    /// The value of a register pair as it is pushed. The low byte of AF is
    /// the flag byte, whose low nibble is zero.
    pub open spec fn r16_stk(self, register: R16stk) -> u16 {
        match register {
            R16stk::BC => self.r16(R16::BC),
            R16stk::DE => self.r16(R16::DE),
            R16stk::HL => self.r16(R16::HL),
            R16stk::AF => word_of(self.a, self.f.byte()),
        }
    }

    /// The registers after a register pair is popped. Of the low byte of AF
    /// only the upper nibble is kept.
    pub open spec fn with_r16_stk(self, register: R16stk, value: u16) -> Registers {
        match register {
            R16stk::BC => self.with_r16(R16::BC, value),
            R16stk::DE => self.with_r16(R16::DE, value),
            R16stk::HL => self.with_r16(R16::HL, value),
            R16stk::AF => Registers {
                a: high_byte_of(value),
                f: FlagsRegister::of_byte(low_byte_of(value)),
                ..self
            },
        }
    }

    /// The value of an 8-bit register. The operand `R8::HL` names a byte in
    /// memory, not a register.
    pub open spec fn r8(self, register: R8) -> u8
        recommends
            register != R8::HL,
    {
        match register {
            R8::A => self.a,
            R8::B => self.b,
            R8::C => self.c,
            R8::D => self.d,
            R8::E => self.e,
            R8::H => self.h,
            R8::L => self.l,
            R8::HL => 0,
        }
    }

    /// The registers after an 8-bit register is set.
    pub open spec fn with_r8(self, register: R8, value: u8) -> Registers
        recommends
            register != R8::HL,
    {
        match register {
            R8::A => Registers { a: value, ..self },
            R8::B => Registers { b: value, ..self },
            R8::C => Registers { c: value, ..self },
            R8::D => Registers { d: value, ..self },
            R8::E => Registers { e: value, ..self },
            R8::H => Registers { h: value, ..self },
            R8::L => Registers { l: value, ..self },
            R8::HL => self,
        }
    }

    /// The registers at the start of execution. With `after_boot` set they
    /// hold what the boot program leaves behind, and execution starts at the
    /// cartridge's entry point; otherwise all are zero and execution starts
    /// in the boot program.
    pub fn new(after_boot: bool) -> (registers: Registers)
        ensures
            registers == if after_boot {
                Registers::after_boot()
            } else {
                Registers::power_on()
            },
    {
        if after_boot {
            Registers {
                a: 0x1,
                b: 0,
                c: 0x13,
                d: 0,
                e: 0xD8,
                f: FlagsRegister::from(0xB0u8),
                h: 0x01,
                l: 0x4D,
                sp: 0xFFFE,
                pc: 0x100,
            }
        } else {
            Registers {
                a: 0,
                b: 0,
                c: 0,
                d: 0,
                e: 0,
                f: FlagsRegister::from(0u8),
                h: 0,
                l: 0,
                sp: 0,
                pc: 0,
            }
        }
    }

    pub fn set_r16(&mut self, register: R16, value: u16)
        ensures
            *final(self) == old(self).with_r16(register, value),
    {
        match register {
            R16::SP => self.sp = value,
            R16::BC => {
                self.b = high_byte(value);
                self.c = low_byte(value);
            },
            R16::HL => {
                self.h = high_byte(value);
                self.l = low_byte(value);
            },
            R16::DE => {
                self.d = high_byte(value);
                self.e = low_byte(value);
            },
        }
    }

    pub fn get_r16(&self, register: R16) -> (value: u16)
        ensures
            value == self.r16(register),
    {
        match register {
            R16::SP => self.sp,
            R16::BC => make_word(self.b, self.c),
            R16::DE => make_word(self.d, self.e),
            R16::HL => make_word(self.h, self.l),
        }
    }

    /// Returns the address that an address operand names, and steps HL for
    /// the two self-stepping forms.
    pub fn get_r16_mem(&mut self, register: R16mem) -> (address: u16)
        ensures
            address == old(self).r16_mem(register),
            *final(self) == old(self).after_r16_mem(register),
    {
        match register {
            R16mem::BC => self.get_r16(R16::BC),
            R16mem::DE => self.get_r16(R16::DE),
            R16mem::HLI => {
                let hl = self.get_r16(R16::HL);
                self.set_r16(R16::HL, if hl == 0xFFFF { 0 } else { hl + 1 });
                hl
            },
            R16mem::HLD => {
                let hl = self.get_r16(R16::HL);
                self.set_r16(R16::HL, if hl == 0 { 0xFFFF } else { hl - 1 });
                hl
            },
        }
    }

    pub fn get_r16_stk(&self, register: R16stk) -> (value: u16)
        ensures
            value == self.r16_stk(register),
            register == R16stk::AF ==> value % 16 == 0,
    {
        match register {
            R16stk::BC => self.get_r16(R16::BC),
            R16stk::DE => self.get_r16(R16::DE),
            R16stk::HL => self.get_r16(R16::HL),
            R16stk::AF => make_word(self.a, self.f.as_byte()),
        }
    }

    pub fn set_r16_stk(&mut self, register: R16stk, value: u16)
        ensures
            *final(self) == old(self).with_r16_stk(register, value),
    {
        match register {
            R16stk::BC => self.set_r16(R16::BC, value),
            R16stk::DE => self.set_r16(R16::DE, value),
            R16stk::HL => self.set_r16(R16::HL, value),
            R16stk::AF => {
                self.a = high_byte(value);
                self.f = FlagsRegister::from(low_byte(value));
            },
        }
    }

    pub fn get_r8(&self, register: R8) -> (value: u8)
        requires
            register != R8::HL,
        ensures
            value == self.r8(register),
    {
        match register {
            R8::A => self.a,
            R8::B => self.b,
            R8::C => self.c,
            R8::D => self.d,
            R8::E => self.e,
            R8::H => self.h,
            R8::L => self.l,
            R8::HL => 0,
        }
    }

    pub fn set_r8(&mut self, register: R8, value: u8)
        requires
            register != R8::HL,
        ensures
            *final(self) == old(self).with_r8(register, value),
    {
        match register {
            R8::A => self.a = value,
            R8::B => self.b = value,
            R8::C => self.c = value,
            R8::D => self.d = value,
            R8::E => self.e = value,
            R8::H => self.h = value,
            R8::L => self.l = value,
            R8::HL => {},
        }
    }
}

/// Setting a 16-bit register and reading it back gives the value; the other
/// 16-bit registers keep theirs.
pub proof fn law_r16_set_get(registers: Registers, register: R16, value: u16, other: R16)
    ensures
        registers.with_r16(register, value).r16(register) == value,
        other != register ==> registers.with_r16(register, value).r16(other) == registers.r16(
            other,
        ),
{
}

/// Popping into a register pair the value that was pushed from it is the
/// identity on the registers. For AF this holds because the flag byte that
/// is pushed has a zero low nibble.
pub proof fn lemma_r16_stk_round_trip(registers: Registers, register: R16stk)
    ensures
        registers.with_r16_stk(register, registers.r16_stk(register)) == registers,
{
}

/// A popped register pair reads back as the popped value, except that AF
/// loses the low nibble of its low byte.
pub proof fn law_r16_stk_set_get(registers: Registers, register: R16stk, value: u16)
    ensures
        registers.with_r16_stk(register, value).r16_stk(register) == if register == R16stk::AF {
            (value - value % 16) as u16
        } else {
            value
        },
{
}

} // verus!
