use crate::bits::{high_byte, low_byte, offset_address, wrap16};
use crate::cpu::registers::Registers;
use crate::cpu::{
    address_below, agrees, agrees_with, load_word, next_address, push_word, Fault, CPU,
};
use crate::instructions::cond::Cond;
use crate::instructions::r16stk::R16stk;
use crate::mmu::MMU;
use vstd::prelude::*;

verus! {

impl CPU {
    /// The processor with another program counter.
    pub open spec fn with_pc(self, pc: u16) -> CPU {
        CPU { registers: Registers { pc, ..self.registers }, ..self }
    }

    /// The processor with another stack pointer.
    pub open spec fn with_sp(self, sp: u16) -> CPU {
        CPU { registers: Registers { sp, ..self.registers }, ..self }
    }

    /// A jump when a condition holds, nothing otherwise.
    pub open spec fn jp_cond_model(self, addr: u16, cond: Cond) -> CPU {
        if self.registers.f.holds(cond) {
            self.with_pc(addr)
        } else {
            self
        }
    }

    /// A relative jump: the signed offset is added to the program counter,
    /// which by then points behind the jump instruction.
    pub open spec fn jr_model(self, offset: i8) -> CPU {
        self.with_pc(wrap16(self.registers.pc as int, offset as int))
    }

    pub open spec fn jr_cond_model(self, offset: i8, cond: Cond) -> CPU {
        if self.registers.f.holds(cond) {
            self.jr_model(offset)
        } else {
            self
        }
    }

    /// A push: the word goes below the stack pointer, high byte first, and
    /// the stack pointer goes down by two.
    pub open spec fn push_model(self, mmu: MMU, value: u16) -> Result<(CPU, MMU), Fault> {
        match push_word(mmu, self.registers.sp, value) {
            Ok(after) => Ok((self.with_sp(wrap16(self.registers.sp as int, -2)), after)),
            Err(fault) => Err(fault),
        }
    }

    /// A pop: the word at the stack pointer goes into a register pair, and
    /// the stack pointer goes up by two.
    pub open spec fn pop_model(self, mmu: MMU, reg: R16stk) -> Result<(CPU, MMU), Fault> {
        match load_word(mmu, self.registers.sp) {
            Ok(word) => Ok(
                (
                    self.with_registers(self.registers.with_r16_stk(reg, word)).with_sp(
                        wrap16(self.registers.sp as int, 2),
                    ),
                    mmu,
                ),
            ),
            Err(fault) => Err(fault),
        }
    }

    /// A call: the program counter, which by then points behind the call
    /// instruction, is pushed, and execution goes on at `addr`. RST is a
    /// call to one of eight fixed addresses.
    pub open spec fn call_model(self, mmu: MMU, addr: u16) -> Result<(CPU, MMU), Fault> {
        match self.push_model(mmu, self.registers.pc) {
            Ok((cpu, after)) => Ok((cpu.with_pc(addr), after)),
            Err(fault) => Err(fault),
        }
    }

    pub open spec fn call_cond_model(self, mmu: MMU, cond: Cond, addr: u16) -> Result<
        (CPU, MMU),
        Fault,
    > {
        if self.registers.f.holds(cond) {
            self.call_model(mmu, addr)
        } else {
            Ok((self, mmu))
        }
    }

    /// A return: the program counter is popped.
    pub open spec fn ret_model(self, mmu: MMU) -> Result<(CPU, MMU), Fault> {
        match load_word(mmu, self.registers.sp) {
            Ok(word) => Ok(
                (self.with_pc(word).with_sp(wrap16(self.registers.sp as int, 2)), mmu),
            ),
            Err(fault) => Err(fault),
        }
    }

    pub open spec fn ret_cond_model(self, mmu: MMU, cond: Cond) -> Result<(CPU, MMU), Fault> {
        if self.registers.f.holds(cond) {
            self.ret_model(mmu)
        } else {
            Ok((self, mmu))
        }
    }

    /// A return that also sets the master interrupt enable, at once.
    pub open spec fn reti_model(self, mmu: MMU) -> Result<(CPU, MMU), Fault> {
        match self.ret_model(mmu) {
            Ok((cpu, after)) => Ok((CPU { ime: true, ..cpu }, after)),
            Err(fault) => Err(fault),
        }
    }

    pub fn jp(&mut self, addr: u16)
        ensures
            *final(self) == old(self).with_pc(addr),
    {
        self.registers.pc = addr;
    }

    /// Jumps when the condition holds, and says whether it did.
    pub fn jp_cond(&mut self, addr: u16, cond: Cond) -> (taken: bool)
        ensures
            taken == old(self).registers.f.holds(cond),
            *final(self) == old(self).jp_cond_model(addr, cond),
    {
        if self.registers.f.evaluate_condition(cond) {
            self.jp(addr);
            true
        } else {
            false
        }
    }

    pub fn jr(&mut self, offset: i8)
        ensures
            *final(self) == old(self).jr_model(offset),
    {
        self.registers.pc = offset_address(self.registers.pc, offset);
    }

    /// Jumps when the condition holds, and says whether it did.
    pub fn jr_cond(&mut self, offset: i8, cond: Cond) -> (taken: bool)
        ensures
            taken == old(self).registers.f.holds(cond),
            *final(self) == old(self).jr_cond_model(offset, cond),
    {
        if self.registers.f.evaluate_condition(cond) {
            self.jr(offset);
            true
        } else {
            false
        }
    }

    pub fn call(&mut self, mmu: &mut MMU, addr: u16) -> (result: Result<(), Fault>)
        requires
            old(mmu).wf(),
        ensures
            final(mmu).wf(),
            agrees(
                old(self).call_model(*old(mmu), addr),
                result,
                (*old(self), *old(mmu)),
                (*final(self), *final(mmu)),
            ),
    {
        match self.push(mmu, self.registers.pc) {
            Ok(()) => {
                self.registers.pc = addr;
                Ok(())
            },
            Err(fault) => Err(fault),
        }
    }

    /// Calls when the condition holds, and says whether it did.
    pub fn call_cond(&mut self, mmu: &mut MMU, cond: Cond, addr: u16) -> (result: Result<
        bool,
        Fault,
    >)
        requires
            old(mmu).wf(),
        ensures
            final(mmu).wf(),
            agrees_with(
                old(self).call_cond_model(*old(mmu), cond, addr),
                old(self).registers.f.holds(cond),
                result,
                (*old(self), *old(mmu)),
                (*final(self), *final(mmu)),
            ),
    {
        if self.registers.f.evaluate_condition(cond) {
            match self.call(mmu, addr) {
                Ok(()) => Ok(true),
                Err(fault) => Err(fault),
            }
        } else {
            Ok(false)
        }
    }

    pub fn rst_tgt3(&mut self, mmu: &mut MMU, addr: u16) -> (result: Result<(), Fault>)
        requires
            old(mmu).wf(),
        ensures
            final(mmu).wf(),
            agrees(
                old(self).call_model(*old(mmu), addr),
                result,
                (*old(self), *old(mmu)),
                (*final(self), *final(mmu)),
            ),
    {
        self.call(mmu, addr)
    }

    pub fn ret(&mut self, mmu: &mut MMU) -> (result: Result<(), Fault>)
        requires
            old(mmu).wf(),
        ensures
            final(mmu).wf(),
            agrees(
                old(self).ret_model(*old(mmu)),
                result,
                (*old(self), *old(mmu)),
                (*final(self), *final(mmu)),
            ),
    {
        match self.get_memory_word(mmu, self.registers.sp) {
            Ok(word) => {
                self.registers.pc = word;
                self.registers.sp = next_address(next_address(self.registers.sp));
                Ok(())
            },
            Err(fault) => Err(fault),
        }
    }

    /// Returns when the condition holds, and says whether it did.
    pub fn ret_cond(&mut self, mmu: &mut MMU, cond: Cond) -> (result: Result<bool, Fault>)
        requires
            old(mmu).wf(),
        ensures
            final(mmu).wf(),
            agrees_with(
                old(self).ret_cond_model(*old(mmu), cond),
                old(self).registers.f.holds(cond),
                result,
                (*old(self), *old(mmu)),
                (*final(self), *final(mmu)),
            ),
    {
        if self.registers.f.evaluate_condition(cond) {
            match self.ret(mmu) {
                Ok(()) => Ok(true),
                Err(fault) => Err(fault),
            }
        } else {
            Ok(false)
        }
    }

    pub fn reti(&mut self, mmu: &mut MMU) -> (result: Result<(), Fault>)
        requires
            old(mmu).wf(),
        ensures
            final(mmu).wf(),
            agrees(
                old(self).reti_model(*old(mmu)),
                result,
                (*old(self), *old(mmu)),
                (*final(self), *final(mmu)),
            ),
    {
        match self.ret(mmu) {
            Ok(()) => {
                self.ime = true;
                Ok(())
            },
            Err(fault) => Err(fault),
        }
    }

    pub fn push(&mut self, mmu: &mut MMU, value: u16) -> (result: Result<(), Fault>)
        requires
            old(mmu).wf(),
        ensures
            final(mmu).wf(),
            agrees(
                old(self).push_model(*old(mmu), value),
                result,
                (*old(self), *old(mmu)),
                (*final(self), *final(mmu)),
            ),
    {
        let upper = address_below(self.registers.sp, 1);
        let lower = address_below(self.registers.sp, 2);
        let big = high_byte(value);
        let little = low_byte(value);
        if !MMU::can_write(upper, big) {
            return Err(Fault::Write { addr: upper });
        }
        if !MMU::can_write(lower, little) {
            return Err(Fault::Write { addr: lower });
        }
        mmu.write_byte(upper, big);
        mmu.write_byte(lower, little);
        self.registers.sp = lower;
        Ok(())
    }

    pub fn pop(&mut self, mmu: &mut MMU, reg: R16stk) -> (result: Result<(), Fault>)
        requires
            old(mmu).wf(),
        ensures
            final(mmu).wf(),
            agrees(
                old(self).pop_model(*old(mmu), reg),
                result,
                (*old(self), *old(mmu)),
                (*final(self), *final(mmu)),
            ),
    {
        match self.get_memory_word(mmu, self.registers.sp) {
            Ok(word) => {
                self.registers.set_r16_stk(reg, word);
                self.registers.sp = next_address(next_address(self.registers.sp));
                Ok(())
            },
            Err(fault) => Err(fault),
        }
    }
}

} // verus!
