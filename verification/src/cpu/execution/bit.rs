use crate::cpu::alu::{
    alu_bit, alu_cpl, alu_daa, alu_rotate_a, alu_shift, alu_with_bit, bit_flags, ccf_flags,
    cpl_result, daa_result, rotate_a_result, scf_flags, shift_result, with_bit, Shift,
};
use crate::cpu::flag_register::FlagsRegister;
use crate::cpu::{agrees, Fault, CPU};
use crate::instructions::r8::R8;
use crate::mmu::MMU;
use vstd::prelude::*;

verus! {

impl CPU {
    /// BIT: the flags tell whether a bit of an operand is clear.
    pub open spec fn bit_model(self, mmu: MMU, reg: R8, index: u8) -> Result<(CPU, MMU), Fault> {
        match self.operand(mmu, reg) {
            Ok(value) => Ok((self.with_flags(bit_flags(index, value, self.registers.f)), mmu)),
            Err(fault) => Err(fault),
        }
    }

    /// RES and SET: one bit of an operand is cleared or set; the flags are
    /// not touched.
    pub open spec fn put_bit_model(self, mmu: MMU, reg: R8, index: u8, on: bool) -> Result<
        (CPU, MMU),
        Fault,
    > {
        match self.operand(mmu, reg) {
            Ok(value) => self.with_operand(mmu, reg, with_bit(value, index, on)),
            Err(fault) => Err(fault),
        }
    }

    /// A rotate or shift of the prefixed table on an operand.
    pub open spec fn shift_model(self, mmu: MMU, shift: Shift, reg: R8) -> Result<
        (CPU, MMU),
        Fault,
    > {
        match self.operand(mmu, reg) {
            Ok(value) => self.with_operand_flags(
                mmu,
                reg,
                shift_result(shift, value, self.registers.f.carry),
            ),
            Err(fault) => Err(fault),
        }
    }

    /// RLCA, RRCA, RLA and RRA: a rotate of the accumulator that leaves Z
    /// clear.
    pub open spec fn rotate_a_model(self, shift: Shift) -> CPU {
        self.with_a_flags(rotate_a_result(shift, self.registers.a, self.registers.f.carry))
    }

    pub open spec fn daa_model(self) -> CPU {
        self.with_a_flags(daa_result(self.registers.a, self.registers.f))
    }

    pub open spec fn cpl_model(self) -> CPU {
        self.with_a_flags(cpl_result(self.registers.a, self.registers.f))
    }

    pub open spec fn scf_model(self) -> CPU {
        self.with_flags(scf_flags(self.registers.f))
    }

    pub open spec fn ccf_model(self) -> CPU {
        self.with_flags(ccf_flags(self.registers.f))
    }

    pub fn bit(&mut self, mmu: &MMU, r: R8, bit_index: u8) -> (result: Result<(), Fault>)
        requires
            mmu.wf(),
            bit_index < 8,
        ensures
            agrees(
                old(self).bit_model(*mmu, r, bit_index),
                result,
                (*old(self), *mmu),
                (*final(self), *mmu),
            ),
    {
        match self.get_r8_byte(mmu, r) {
            Ok(value) => {
                self.registers.f = alu_bit(bit_index, value, self.registers.f);
                Ok(())
            },
            Err(fault) => Err(fault),
        }
    }

    /// Sets or clears one bit of an operand.
    pub fn put_bit(&mut self, mmu: &mut MMU, r: R8, bit_index: u8, on: bool) -> (result: Result<
        (),
        Fault,
    >)
        requires
            old(mmu).wf(),
            bit_index < 8,
        ensures
            final(mmu).wf(),
            agrees(
                old(self).put_bit_model(*old(mmu), r, bit_index, on),
                result,
                (*old(self), *old(mmu)),
                (*final(self), *final(mmu)),
            ),
    {
        match self.get_r8_byte(mmu, r) {
            Ok(value) => self.set_r8_byte(mmu, r, alu_with_bit(value, bit_index, on)),
            Err(fault) => Err(fault),
        }
    }

    pub fn res(&mut self, mmu: &mut MMU, r: R8, bit_index: u8) -> (result: Result<(), Fault>)
        requires
            old(mmu).wf(),
            bit_index < 8,
        ensures
            final(mmu).wf(),
            agrees(
                old(self).put_bit_model(*old(mmu), r, bit_index, false),
                result,
                (*old(self), *old(mmu)),
                (*final(self), *final(mmu)),
            ),
    {
        self.put_bit(mmu, r, bit_index, false)
    }

    pub fn set(&mut self, mmu: &mut MMU, r: R8, bit_index: u8) -> (result: Result<(), Fault>)
        requires
            old(mmu).wf(),
            bit_index < 8,
        ensures
            final(mmu).wf(),
            agrees(
                old(self).put_bit_model(*old(mmu), r, bit_index, true),
                result,
                (*old(self), *old(mmu)),
                (*final(self), *final(mmu)),
            ),
    {
        self.put_bit(mmu, r, bit_index, true)
    }

    /// Rotates or shifts an operand.
    pub fn shift(&mut self, mmu: &mut MMU, kind: Shift, r: R8) -> (result: Result<(), Fault>)
        requires
            old(mmu).wf(),
        ensures
            final(mmu).wf(),
            agrees(
                old(self).shift_model(*old(mmu), kind, r),
                result,
                (*old(self), *old(mmu)),
                (*final(self), *final(mmu)),
            ),
    {
        match self.get_r8_byte(mmu, r) {
            Ok(value) => {
                let (result, flags) = alu_shift(kind, value, self.registers.f.carry);
                self.set_r8_flags(mmu, r, result, flags)
            },
            Err(fault) => Err(fault),
        }
    }

    /// Rotates the accumulator and leaves Z clear.
    pub fn rotate_a(&mut self, kind: Shift)
        ensures
            *final(self) == old(self).rotate_a_model(kind),
    {
        let (result, flags) = alu_rotate_a(kind, self.registers.a, self.registers.f.carry);
        self.registers.a = result;
        self.registers.f = flags;
    }

    pub fn swap(&mut self, mmu: &mut MMU, r: R8) -> (result: Result<(), Fault>)
        requires
            old(mmu).wf(),
        ensures
            final(mmu).wf(),
            agrees(
                old(self).shift_model(*old(mmu), Shift::Swap, r),
                result,
                (*old(self), *old(mmu)),
                (*final(self), *final(mmu)),
            ),
    {
        self.shift(mmu, Shift::Swap, r)
    }

    pub fn rl(&mut self, mmu: &mut MMU, r: R8) -> (result: Result<(), Fault>)
        requires
            old(mmu).wf(),
        ensures
            final(mmu).wf(),
            agrees(
                old(self).shift_model(*old(mmu), Shift::Rl, r),
                result,
                (*old(self), *old(mmu)),
                (*final(self), *final(mmu)),
            ),
    {
        self.shift(mmu, Shift::Rl, r)
    }

    pub fn rla(&mut self)
        ensures
            *final(self) == old(self).rotate_a_model(Shift::Rl),
    {
        self.rotate_a(Shift::Rl)
    }

    pub fn rlc(&mut self, mmu: &mut MMU, r: R8) -> (result: Result<(), Fault>)
        requires
            old(mmu).wf(),
        ensures
            final(mmu).wf(),
            agrees(
                old(self).shift_model(*old(mmu), Shift::Rlc, r),
                result,
                (*old(self), *old(mmu)),
                (*final(self), *final(mmu)),
            ),
    {
        self.shift(mmu, Shift::Rlc, r)
    }

    pub fn rlca(&mut self)
        ensures
            *final(self) == old(self).rotate_a_model(Shift::Rlc),
    {
        self.rotate_a(Shift::Rlc)
    }

    pub fn srl(&mut self, mmu: &mut MMU, reg: R8) -> (result: Result<(), Fault>)
        requires
            old(mmu).wf(),
        ensures
            final(mmu).wf(),
            agrees(
                old(self).shift_model(*old(mmu), Shift::Srl, reg),
                result,
                (*old(self), *old(mmu)),
                (*final(self), *final(mmu)),
            ),
    {
        self.shift(mmu, Shift::Srl, reg)
    }

    pub fn sla(&mut self, mmu: &mut MMU, reg: R8) -> (result: Result<(), Fault>)
        requires
            old(mmu).wf(),
        ensures
            final(mmu).wf(),
            agrees(
                old(self).shift_model(*old(mmu), Shift::Sla, reg),
                result,
                (*old(self), *old(mmu)),
                (*final(self), *final(mmu)),
            ),
    {
        self.shift(mmu, Shift::Sla, reg)
    }

    pub fn sra(&mut self, mmu: &mut MMU, reg: R8) -> (result: Result<(), Fault>)
        requires
            old(mmu).wf(),
        ensures
            final(mmu).wf(),
            agrees(
                old(self).shift_model(*old(mmu), Shift::Sra, reg),
                result,
                (*old(self), *old(mmu)),
                (*final(self), *final(mmu)),
            ),
    {
        self.shift(mmu, Shift::Sra, reg)
    }

    pub fn cpl(&mut self)
        ensures
            *final(self) == old(self).cpl_model(),
    {
        let (value, flags) = alu_cpl(self.registers.a, self.registers.f);
        self.registers.a = value;
        self.registers.f = flags;
    }

    pub fn ccf(&mut self)
        ensures
            *final(self) == old(self).ccf_model(),
    {
        self.registers.f = FlagsRegister {
            zero: self.registers.f.zero,
            subtract: false,
            half_carry: false,
            carry: !self.registers.f.carry,
        };
    }

    pub fn scf(&mut self)
        ensures
            *final(self) == old(self).scf_model(),
    {
        self.registers.f = FlagsRegister {
            zero: self.registers.f.zero,
            subtract: false,
            half_carry: false,
            carry: true,
        };
    }

    pub fn rr(&mut self, mmu: &mut MMU, r: R8) -> (result: Result<(), Fault>)
        requires
            old(mmu).wf(),
        ensures
            final(mmu).wf(),
            agrees(
                old(self).shift_model(*old(mmu), Shift::Rr, r),
                result,
                (*old(self), *old(mmu)),
                (*final(self), *final(mmu)),
            ),
    {
        self.shift(mmu, Shift::Rr, r)
    }

    pub fn rra(&mut self)
        ensures
            *final(self) == old(self).rotate_a_model(Shift::Rr),
    {
        self.rotate_a(Shift::Rr)
    }

    pub fn rrc(&mut self, mmu: &mut MMU, r: R8) -> (result: Result<(), Fault>)
        requires
            old(mmu).wf(),
        ensures
            final(mmu).wf(),
            agrees(
                old(self).shift_model(*old(mmu), Shift::Rrc, r),
                result,
                (*old(self), *old(mmu)),
                (*final(self), *final(mmu)),
            ),
    {
        self.shift(mmu, Shift::Rrc, r)
    }

    pub fn rrca(&mut self)
        ensures
            *final(self) == old(self).rotate_a_model(Shift::Rrc),
    {
        self.rotate_a(Shift::Rrc)
    }

    pub fn daa(&mut self)
        ensures
            *final(self) == old(self).daa_model(),
    {
        let (value, flags) = alu_daa(self.registers.a, self.registers.f);
        self.registers.a = value;
        self.registers.f = flags;
    }
}

} // verus!
