use crate::bits::make_word;
use crate::cpu::alu::{add_sp_result, alu_add_sp};
use crate::cpu::registers::Registers;
use crate::cpu::{agrees, load, store, store_word, Fault, CPU};
use crate::instructions::r16::R16;
use crate::instructions::r16mem::R16mem;
use crate::instructions::r8::R8;
use crate::mmu::MMU;
use vstd::prelude::*;

verus! {

/// The address in the last page of the address space that a byte offset
/// names.
pub open spec fn high_page(offset: u8) -> u16 {
    (0xFF00 + offset) as u16
}

impl CPU {
    /// The processor with another accumulator.
    pub open spec fn with_a(self, value: u8) -> CPU {
        CPU { registers: Registers { a: value, ..self.registers }, ..self }
    }

    /// A load of the accumulator from memory.
    pub open spec fn lda_mem_model(self, mmu: MMU, addr: u16) -> Result<(CPU, MMU), Fault> {
        match load(mmu, addr) {
            Ok(value) => Ok((self.with_a(value), mmu)),
            Err(fault) => Err(fault),
        }
    }

    /// A store of a byte to memory.
    pub open spec fn store_model(self, mmu: MMU, addr: u16, value: u8) -> Result<
        (CPU, MMU),
        Fault,
    > {
        match store(mmu, addr, value) {
            Ok(after) => Ok((self, after)),
            Err(fault) => Err(fault),
        }
    }

    /// A load of the accumulator through an address operand, which steps HL
    /// in its two self-stepping forms.
    pub open spec fn lda_r16mem_model(self, mmu: MMU, reg: R16mem) -> Result<(CPU, MMU), Fault> {
        match load(mmu, self.registers.r16_mem(reg)) {
            Ok(value) => Ok(
                (self.with_registers(self.registers.after_r16_mem(reg)).with_a(value), mmu),
            ),
            Err(fault) => Err(fault),
        }
    }

    /// A store through an address operand, which steps HL in its two
    /// self-stepping forms.
    pub open spec fn ld_r16mem_model(self, mmu: MMU, reg: R16mem, value: u8) -> Result<
        (CPU, MMU),
        Fault,
    > {
        match store(mmu, self.registers.r16_mem(reg), value) {
            Ok(after) => Ok((self.with_registers(self.registers.after_r16_mem(reg)), after)),
            Err(fault) => Err(fault),
        }
    }

    /// A load of one 8-bit operand from another.
    pub open spec fn ld_r8_r8_model(self, mmu: MMU, target: R8, source: R8) -> Result<
        (CPU, MMU),
        Fault,
    > {
        match self.operand(mmu, source) {
            Ok(value) => self.with_operand(mmu, target, value),
            Err(fault) => Err(fault),
        }
    }

    pub open spec fn ld_r16_model(self, reg: R16, value: u16) -> CPU {
        self.with_registers(self.registers.with_r16(reg, value))
    }

    /// LD HL, SP + e8: as ADD SP, e8, but the sum goes to HL.
    pub open spec fn ld_hl_sp_model(self, e8: u8) -> CPU {
        let (sum, flags) = add_sp_result(self.registers.sp, e8);
        self.with_flags(flags).with_registers(
            self.with_flags(flags).registers.with_r16(R16::HL, sum),
        )
    }

    pub open spec fn ld_sp_hl_model(self) -> CPU {
        self.with_sp(self.registers.r16(R16::HL))
    }

    /// LD (nn), SP: the stack pointer goes to memory, low byte first.
    pub open spec fn ld_imm16_sp_model(self, mmu: MMU, addr: u16) -> Result<(CPU, MMU), Fault> {
        match store_word(mmu, addr, self.registers.sp) {
            Ok(after) => Ok((self, after)),
            Err(fault) => Err(fault),
        }
    }

    pub fn lda(&mut self, value: u8)
        ensures
            *final(self) == old(self).with_a(value),
    {
        self.registers.a = value;
    }

    /// Loads the accumulator from memory.
    pub fn lda_mem(&mut self, mmu: &MMU, addr: u16) -> (result: Result<(), Fault>)
        requires
            mmu.wf(),
        ensures
            agrees(
                old(self).lda_mem_model(*mmu, addr),
                result,
                (*old(self), *mmu),
                (*final(self), *mmu),
            ),
    {
        match CPU::read(mmu, addr) {
            Ok(value) => {
                self.registers.a = value;
                Ok(())
            },
            Err(fault) => Err(fault),
        }
    }

    pub fn lda_r16mem(&mut self, mmu: &mut MMU, reg: R16mem) -> (result: Result<(), Fault>)
        requires
            old(mmu).wf(),
        ensures
            final(mmu).wf(),
            agrees(
                old(self).lda_r16mem_model(*old(mmu), reg),
                result,
                (*old(self), *old(mmu)),
                (*final(self), *final(mmu)),
            ),
    {
        let saved = self.registers;
        let addr = self.registers.get_r16_mem(reg);
        match CPU::read(mmu, addr) {
            Ok(value) => {
                self.registers.a = value;
                Ok(())
            },
            Err(fault) => {
                self.registers = saved;
                Err(fault)
            },
        }
    }

    pub fn ld_r16mem(&mut self, mmu: &mut MMU, reg: R16mem, value: u8) -> (result: Result<
        (),
        Fault,
    >)
        requires
            old(mmu).wf(),
        ensures
            final(mmu).wf(),
            agrees(
                old(self).ld_r16mem_model(*old(mmu), reg, value),
                result,
                (*old(self), *old(mmu)),
                (*final(self), *final(mmu)),
            ),
    {
        let saved = self.registers;
        let addr = self.registers.get_r16_mem(reg);
        match CPU::write(mmu, addr, value) {
            Ok(()) => Ok(()),
            Err(fault) => {
                self.registers = saved;
                Err(fault)
            },
        }
    }

    pub fn ld_r8(&mut self, mmu: &mut MMU, reg: R8, value: u8) -> (result: Result<(), Fault>)
        requires
            old(mmu).wf(),
        ensures
            final(mmu).wf(),
            agrees(
                old(self).with_operand(*old(mmu), reg, value),
                result,
                (*old(self), *old(mmu)),
                (*final(self), *final(mmu)),
            ),
    {
        self.set_r8_byte(mmu, reg, value)
    }

    /// Loads one 8-bit operand from another.
    pub fn ld_r8_r8(&mut self, mmu: &mut MMU, target: R8, source: R8) -> (result: Result<
        (),
        Fault,
    >)
        requires
            old(mmu).wf(),
        ensures
            final(mmu).wf(),
            agrees(
                old(self).ld_r8_r8_model(*old(mmu), target, source),
                result,
                (*old(self), *old(mmu)),
                (*final(self), *final(mmu)),
            ),
    {
        match self.get_r8_byte(mmu, source) {
            Ok(value) => self.set_r8_byte(mmu, target, value),
            Err(fault) => Err(fault),
        }
    }

    pub fn ld_r16(&mut self, reg: R16, value: u16)
        ensures
            *final(self) == old(self).ld_r16_model(reg, value),
    {
        self.registers.set_r16(reg, value)
    }

    /// Stores a byte in the last page of the address space.
    pub fn ldh_addr(&mut self, mmu: &mut MMU, offset: u8, value: u8) -> (result: Result<(), Fault>)
        requires
            old(mmu).wf(),
        ensures
            final(mmu).wf(),
            agrees(
                old(self).store_model(*old(mmu), high_page(offset), value),
                result,
                (*old(self), *old(mmu)),
                (*final(self), *final(mmu)),
            ),
    {
        CPU::write(mmu, 0xFF00 + offset as u16, value)
    }

    pub fn ld_hl_sp(&mut self, e8: u8)
        ensures
            *final(self) == old(self).ld_hl_sp_model(e8),
    {
        let (sum, flags) = alu_add_sp(self.registers.sp, e8);
        self.registers.f = flags;
        self.registers.set_r16(R16::HL, sum);
    }

    pub fn ld_sp_hl(&mut self)
        ensures
            *final(self) == old(self).ld_sp_hl_model(),
    {
        self.registers.sp = make_word(self.registers.h, self.registers.l);
    }

    /// Stores the stack pointer in memory.
    pub fn ld_imm16_sp(&mut self, mmu: &mut MMU, addr: u16) -> (result: Result<(), Fault>)
        requires
            old(mmu).wf(),
        ensures
            final(mmu).wf(),
            agrees(
                old(self).ld_imm16_sp_model(*old(mmu), addr),
                result,
                (*old(self), *old(mmu)),
                (*final(self), *final(mmu)),
            ),
    {
        let sp = self.registers.sp;
        self.set_memory_word(mmu, addr, sp)
    }
}

} // verus!
