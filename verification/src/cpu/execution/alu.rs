use crate::cpu::alu::{
    add16_result, add_result, add_sp_result, alu_add, alu_add16, alu_add_sp, alu_and, alu_dec,
    alu_inc, alu_or, alu_sub, alu_xor, and_result, dec_result, inc_result, or_result, sub_result,
    xor_result,
};
use crate::bits::wrap16;
use crate::cpu::flag_register::FlagsRegister;
use crate::cpu::registers::Registers;
use crate::cpu::{agrees, Fault, CPU};
use crate::instructions::r16::R16;
use crate::instructions::r8::R8;
use crate::mmu::MMU;
use vstd::prelude::*;

verus! {

impl CPU {
    /// The processor with other flags.
    pub open spec fn with_flags(self, flags: FlagsRegister) -> CPU {
        CPU { registers: Registers { f: flags, ..self.registers }, ..self }
    }

    /// The processor with the accumulator and the flags that an operation
    /// gave.
    pub open spec fn with_a_flags(self, out: (u8, FlagsRegister)) -> CPU {
        CPU { registers: Registers { a: out.0, f: out.1, ..self.registers }, ..self }
    }

    /// The machine after an 8-bit operand takes the value, and the flags the
    /// flags, that an operation gave.
    pub open spec fn with_operand_flags(self, mmu: MMU, reg: R8, out: (u8, FlagsRegister)) -> Result<
        (CPU, MMU),
        Fault,
    > {
        self.with_flags(out.1).with_operand(mmu, reg, out.0)
    }

    pub open spec fn and_model(self, b: u8) -> CPU {
        self.with_a_flags(and_result(self.registers.a, b))
    }

    pub open spec fn or_model(self, b: u8) -> CPU {
        self.with_a_flags(or_result(self.registers.a, b))
    }

    pub open spec fn xor_model(self, b: u8) -> CPU {
        self.with_a_flags(xor_result(self.registers.a, b))
    }

    pub open spec fn add_model(self, b: u8) -> CPU {
        self.with_a_flags(add_result(self.registers.a, b, false))
    }

    pub open spec fn adc_model(self, b: u8) -> CPU {
        self.with_a_flags(add_result(self.registers.a, b, self.registers.f.carry))
    }

    pub open spec fn sub_model(self, b: u8) -> CPU {
        self.with_a_flags(sub_result(self.registers.a, b, false))
    }

    pub open spec fn sbc_model(self, b: u8) -> CPU {
        self.with_a_flags(sub_result(self.registers.a, b, self.registers.f.carry))
    }

    /// CP: the flags of a subtraction; the accumulator keeps its value.
    pub open spec fn cp_model(self, b: u8) -> CPU {
        self.with_flags(sub_result(self.registers.a, b, false).1)
    }

    pub open spec fn inc_r16_model(self, reg: R16) -> CPU {
        self.with_registers(
            self.registers.with_r16(reg, wrap16(self.registers.r16(reg) as int, 1)),
        )
    }

    pub open spec fn dec_r16_model(self, reg: R16) -> CPU {
        self.with_registers(
            self.registers.with_r16(reg, wrap16(self.registers.r16(reg) as int, -1)),
        )
    }

    pub open spec fn inc_model(self, mmu: MMU, reg: R8) -> Result<(CPU, MMU), Fault> {
        match self.operand(mmu, reg) {
            Ok(value) => self.with_operand_flags(mmu, reg, inc_result(value, self.registers.f)),
            Err(fault) => Err(fault),
        }
    }

    pub open spec fn dec_model(self, mmu: MMU, reg: R8) -> Result<(CPU, MMU), Fault> {
        match self.operand(mmu, reg) {
            Ok(value) => self.with_operand_flags(mmu, reg, dec_result(value, self.registers.f)),
            Err(fault) => Err(fault),
        }
    }

    /// ADD to a 16-bit register: the sum, and the flags of a 16-bit
    /// addition.
    pub open spec fn add_r16_model(self, reg: R16, b: u16) -> CPU {
        let (sum, flags) = add16_result(self.registers.r16(reg), b, self.registers.f);
        self.with_flags(flags).with_registers(
            self.with_flags(flags).registers.with_r16(reg, sum),
        )
    }

    /// ADD SP, e8.
    pub open spec fn add_sp_model(self, offset: u8) -> CPU {
        let (sum, flags) = add_sp_result(self.registers.sp, offset);
        CPU { registers: Registers { sp: sum, f: flags, ..self.registers }, ..self }
    }

    pub fn and(&mut self, b: u8)
        ensures
            *final(self) == old(self).and_model(b),
    {
        let (value, flags) = alu_and(self.registers.a, b);
        self.registers.a = value;
        self.registers.f = flags;
    }

    pub fn or(&mut self, b: u8)
        ensures
            *final(self) == old(self).or_model(b),
    {
        let (value, flags) = alu_or(self.registers.a, b);
        self.registers.a = value;
        self.registers.f = flags;
    }

    pub fn xor(&mut self, b: u8)
        ensures
            *final(self) == old(self).xor_model(b),
    {
        let (value, flags) = alu_xor(self.registers.a, b);
        self.registers.a = value;
        self.registers.f = flags;
    }

    pub fn inc_r16(&mut self, a: R16)
        ensures
            *final(self) == old(self).inc_r16_model(a),
    {
        let value = self.registers.get_r16(a);
        self.registers.set_r16(a, if value == 0xFFFF { 0 } else { value + 1 });
    }

    pub fn dec_r16(&mut self, a: R16)
        ensures
            *final(self) == old(self).dec_r16_model(a),
    {
        let value = self.registers.get_r16(a);
        self.registers.set_r16(a, if value == 0 { 0xFFFF } else { value - 1 });
    }

    /// Sets an 8-bit operand and the flags to what an operation gave.
    pub fn set_r8_flags(&mut self, mmu: &mut MMU, reg: R8, value: u8, flags: FlagsRegister) -> (result:
        Result<(), Fault>)
        requires
            old(mmu).wf(),
        ensures
            final(mmu).wf(),
            agrees(
                old(self).with_operand_flags(*old(mmu), reg, (value, flags)),
                result,
                (*old(self), *old(mmu)),
                (*final(self), *final(mmu)),
            ),
    {
        match self.set_r8_byte(mmu, reg, value) {
            Ok(()) => {
                self.registers.f = flags;
                Ok(())
            },
            Err(fault) => Err(fault),
        }
    }

    pub fn inc(&mut self, mmu: &mut MMU, a: R8) -> (result: Result<(), Fault>)
        requires
            old(mmu).wf(),
        ensures
            final(mmu).wf(),
            agrees(
                old(self).inc_model(*old(mmu), a),
                result,
                (*old(self), *old(mmu)),
                (*final(self), *final(mmu)),
            ),
    {
        match self.get_r8_byte(mmu, a) {
            Ok(value) => {
                let (result, flags) = alu_inc(value, self.registers.f);
                self.set_r8_flags(mmu, a, result, flags)
            },
            Err(fault) => Err(fault),
        }
    }

    pub fn dec(&mut self, mmu: &mut MMU, r: R8) -> (result: Result<(), Fault>)
        requires
            old(mmu).wf(),
        ensures
            final(mmu).wf(),
            agrees(
                old(self).dec_model(*old(mmu), r),
                result,
                (*old(self), *old(mmu)),
                (*final(self), *final(mmu)),
            ),
    {
        match self.get_r8_byte(mmu, r) {
            Ok(value) => {
                let (result, flags) = alu_dec(value, self.registers.f);
                self.set_r8_flags(mmu, r, result, flags)
            },
            Err(fault) => Err(fault),
        }
    }

    pub fn add(&mut self, b: u8)
        ensures
            *final(self) == old(self).add_model(b),
    {
        let (value, flags) = alu_add(self.registers.a, b, false);
        self.registers.a = value;
        self.registers.f = flags;
    }

    pub fn add_r16(&mut self, a_reg: R16, b: u16)
        ensures
            *final(self) == old(self).add_r16_model(a_reg, b),
    {
        let a = self.registers.get_r16(a_reg);
        let (sum, flags) = alu_add16(a, b, self.registers.f);
        self.registers.f = flags;
        self.registers.set_r16(a_reg, sum);
    }

    pub fn add_sp(&mut self, offset: u8)
        ensures
            *final(self) == old(self).add_sp_model(offset),
    {
        let (sum, flags) = alu_add_sp(self.registers.sp, offset);
        self.registers.sp = sum;
        self.registers.f = flags;
    }

    pub fn adc(&mut self, value: u8)
        ensures
            *final(self) == old(self).adc_model(value),
    {
        let (result, flags) = alu_add(self.registers.a, value, self.registers.f.carry);
        self.registers.a = result;
        self.registers.f = flags;
    }

    pub fn sub(&mut self, b: u8)
        ensures
            *final(self) == old(self).sub_model(b),
    {
        let (value, flags) = alu_sub(self.registers.a, b, false);
        self.registers.a = value;
        self.registers.f = flags;
    }

    pub fn cp(&mut self, b: u8)
        ensures
            *final(self) == old(self).cp_model(b),
    {
        let (_, flags) = alu_sub(self.registers.a, b, false);
        self.registers.f = flags;
    }

    pub fn sbc(&mut self, value: u8)
        ensures
            *final(self) == old(self).sbc_model(value),
    {
        let (result, flags) = alu_sub(self.registers.a, value, self.registers.f.carry);
        self.registers.a = result;
        self.registers.f = flags;
    }
}

} // verus!
