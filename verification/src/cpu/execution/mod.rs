pub mod alu;
pub mod bit;
pub mod control_flow;
pub mod load;

use crate::cpu::alu::Shift;
use crate::cpu::{agrees, agrees_with, Fault, CPU};
use crate::instructions::r16::R16;
use crate::instructions::r8::R8;
use crate::instructions::Instruction;
use crate::mmu::MMU;
use load::high_page;
use vstd::prelude::*;

verus! {

/// The eight operations between the accumulator and an 8-bit value.
#[derive(Clone, Copy, Debug, PartialEq, Eq, Structural)]
pub enum AluOp {
    Add,
    Adc,
    Sub,
    Sbc,
    And,
    Xor,
    Or,
    Cp,
}

/// The families of instructions.
#[derive(Clone, Copy, Debug, PartialEq, Eq, Structural)]
pub enum Group {
    /// NOP, STOP, HALT, DI, EI, and what is no instruction.
    Control,
    Load,
    Arithmetic,
    /// The rotates and shifts, and DAA, CPL, SCF and CCF.
    Rotate,
    /// Jumps, calls, returns, pushes and pops.
    Flow,
    /// BIT, RES and SET.
    Bits,
}

/// The family of an instruction.
pub open spec fn group_of(instruction: Instruction) -> Group {
    match instruction {
        Instruction::Nop
        | Instruction::Stop
        | Instruction::Halt
        | Instruction::Di
        | Instruction::Ei
        | Instruction::ILLEGAL => Group::Control,
        Instruction::LdAImm16mem(_)
        | Instruction::LdAR16mem(_)
        | Instruction::LdHlSpImm8(_)
        | Instruction::LdImm16memA(_)
        | Instruction::LdImm16memSp(_)
        | Instruction::LdR16Imm16(_, _)
        | Instruction::LdR16memA(_)
        | Instruction::LdR8Imm8(_, _)
        | Instruction::LdR8R8(_, _)
        | Instruction::LdSpHl
        | Instruction::LdhACmem
        | Instruction::LdhAImm8mem(_)
        | Instruction::LdhCmemA
        | Instruction::LdhImm8memA(_) => Group::Load,
        Instruction::AdcAImm8(_)
        | Instruction::AdcAR8(_)
        | Instruction::AddAImm8(_)
        | Instruction::AddAR8(_)
        | Instruction::AddHlR16(_)
        | Instruction::AddSpImm8(_)
        | Instruction::AndAImm8(_)
        | Instruction::AndAR8(_)
        | Instruction::CpAImm8(_)
        | Instruction::CpAR8(_)
        | Instruction::DecR16(_)
        | Instruction::DecR8(_)
        | Instruction::IncR16(_)
        | Instruction::IncR8(_)
        | Instruction::OrAImm8(_)
        | Instruction::OrAR8(_)
        | Instruction::SbcAImm8(_)
        | Instruction::SbcAR8(_)
        | Instruction::SubAImm8(_)
        | Instruction::SubAR8(_)
        | Instruction::XorAImm8(_)
        | Instruction::XorAR8(_) => Group::Arithmetic,
        Instruction::Rlca
        | Instruction::Rrca
        | Instruction::Rla
        | Instruction::Rra
        | Instruction::Daa
        | Instruction::Cpl
        | Instruction::Scf
        | Instruction::Ccf
        | Instruction::RlcR8(_)
        | Instruction::RrcR8(_)
        | Instruction::RlR8(_)
        | Instruction::RrR8(_)
        | Instruction::SlaR8(_)
        | Instruction::SraR8(_)
        | Instruction::SwapR8(_)
        | Instruction::SrlR8(_) => Group::Rotate,
        Instruction::CallCondImm16(_, _)
        | Instruction::CallImm16(_)
        | Instruction::JpCondImm16(_, _)
        | Instruction::JpHl
        | Instruction::JpImm16(_)
        | Instruction::JrCondImm8(_, _)
        | Instruction::JrImm8(_)
        | Instruction::PopR16stk(_)
        | Instruction::PushR16stk(_)
        | Instruction::Ret
        | Instruction::RetCond(_)
        | Instruction::Reti
        | Instruction::RstTgt3(_) => Group::Flow,
        Instruction::BitB3R8(_, _) | Instruction::ResB3R8(_, _) | Instruction::SetB3R8(_, _) =>
            Group::Bits,
    }
}

/// The family of an instruction.
pub fn group(instruction: Instruction) -> (family: Group)
    ensures
        family == group_of(instruction),
{
    match instruction {
        Instruction::Nop
        | Instruction::Stop
        | Instruction::Halt
        | Instruction::Di
        | Instruction::Ei
        | Instruction::ILLEGAL => Group::Control,
        Instruction::LdAImm16mem(_)
        | Instruction::LdAR16mem(_)
        | Instruction::LdHlSpImm8(_)
        | Instruction::LdImm16memA(_)
        | Instruction::LdImm16memSp(_)
        | Instruction::LdR16Imm16(_, _)
        | Instruction::LdR16memA(_)
        | Instruction::LdR8Imm8(_, _)
        | Instruction::LdR8R8(_, _)
        | Instruction::LdSpHl
        | Instruction::LdhACmem
        | Instruction::LdhAImm8mem(_)
        | Instruction::LdhCmemA
        | Instruction::LdhImm8memA(_) => Group::Load,
        Instruction::Rlca
        | Instruction::Rrca
        | Instruction::Rla
        | Instruction::Rra
        | Instruction::Daa
        | Instruction::Cpl
        | Instruction::Scf
        | Instruction::Ccf
        | Instruction::RlcR8(_)
        | Instruction::RrcR8(_)
        | Instruction::RlR8(_)
        | Instruction::RrR8(_)
        | Instruction::SlaR8(_)
        | Instruction::SraR8(_)
        | Instruction::SwapR8(_)
        | Instruction::SrlR8(_) => Group::Rotate,
        Instruction::CallCondImm16(_, _)
        | Instruction::CallImm16(_)
        | Instruction::JpCondImm16(_, _)
        | Instruction::JpHl
        | Instruction::JpImm16(_)
        | Instruction::JrCondImm8(_, _)
        | Instruction::JrImm8(_)
        | Instruction::PopR16stk(_)
        | Instruction::PushR16stk(_)
        | Instruction::Ret
        | Instruction::RetCond(_)
        | Instruction::Reti
        | Instruction::RstTgt3(_) => Group::Flow,
        Instruction::BitB3R8(_, _) | Instruction::ResB3R8(_, _) | Instruction::SetB3R8(_, _) =>
            Group::Bits,
        _ => Group::Arithmetic,
    }
}

/// A change of the processor alone, as a change of the machine.
pub open spec fn only_cpu(cpu: CPU, mmu: MMU) -> Result<(CPU, MMU), Fault> {
    Ok((cpu, mmu))
}

impl CPU {
    /// An operation between the accumulator and a value.
    pub open spec fn alu_model(self, op: AluOp, value: u8) -> CPU {
        match op {
            AluOp::Add => self.add_model(value),
            AluOp::Adc => self.adc_model(value),
            AluOp::Sub => self.sub_model(value),
            AluOp::Sbc => self.sbc_model(value),
            AluOp::And => self.and_model(value),
            AluOp::Xor => self.xor_model(value),
            AluOp::Or => self.or_model(value),
            AluOp::Cp => self.cp_model(value),
        }
    }

    /// An operation between the accumulator and an 8-bit operand.
    pub open spec fn alu_r8_model(self, mmu: MMU, op: AluOp, reg: R8) -> Result<(CPU, MMU), Fault> {
        match self.operand(mmu, reg) {
            Ok(value) => Ok((self.alu_model(op, value), mmu)),
            Err(fault) => Err(fault),
        }
    }

    /// Whether an instruction is a conditional jump, call or return whose
    /// condition holds.
    pub open spec fn branch_taken(self, instruction: Instruction) -> bool {
        match instruction {
            Instruction::JrCondImm8(cond, _)
            | Instruction::JpCondImm16(cond, _)
            | Instruction::CallCondImm16(cond, _)
            | Instruction::RetCond(cond) => self.registers.f.holds(cond),
            _ => false,
        }
    }

    /// The clock ticks that an instruction takes on this processor: those
    /// of the taken branch where it is one.
    pub open spec fn cycles_model(self, instruction: Instruction) -> int {
        if self.branch_taken(instruction) {
            instruction.taken_cycles()
        } else {
            instruction.cycles()
        }
    }

    /// The machine after one of NOP, STOP, HALT, DI and EI has done its work; any other
    /// instruction changes nothing here.
    pub open spec fn control_model(self, mmu: MMU, instruction: Instruction) -> Result<
        (CPU, MMU),
        Fault,
    > {
        match instruction {
            Instruction::Nop | Instruction::Stop | Instruction::ILLEGAL => only_cpu(self, mmu),
            Instruction::Halt => only_cpu(CPU { halted: true, ..self }, mmu),
            Instruction::Di => only_cpu(CPU { ime: false, ei_pending: false, ..self }, mmu),
            Instruction::Ei => only_cpu(
                CPU { ei_pending: self.ei_pending || !self.ime, ..self },
                mmu,
            ),
            _ => only_cpu(self, mmu),
        }
    }

    /// The machine after one of the loads and stores has done its work; any other
    /// instruction changes nothing here.
    pub open spec fn load_model(self, mmu: MMU, instruction: Instruction) -> Result<
        (CPU, MMU),
        Fault,
    > {
        match instruction {
            Instruction::LdAImm16mem(addr) => self.lda_mem_model(mmu, addr),
            Instruction::LdAR16mem(reg) => self.lda_r16mem_model(mmu, reg),
            Instruction::LdHlSpImm8(e8) => only_cpu(self.ld_hl_sp_model(e8), mmu),
            Instruction::LdImm16memA(addr) => self.store_model(mmu, addr, self.registers.a),
            Instruction::LdImm16memSp(addr) => self.ld_imm16_sp_model(mmu, addr),
            Instruction::LdR16Imm16(reg, value) => only_cpu(self.ld_r16_model(reg, value), mmu),
            Instruction::LdR16memA(reg) => self.ld_r16mem_model(mmu, reg, self.registers.a),
            Instruction::LdR8Imm8(reg, value) => self.with_operand(mmu, reg, value),
            Instruction::LdR8R8(target, source) => self.ld_r8_r8_model(mmu, target, source),
            Instruction::LdSpHl => only_cpu(self.ld_sp_hl_model(), mmu),
            Instruction::LdhACmem => self.lda_mem_model(mmu, high_page(self.registers.c)),
            Instruction::LdhAImm8mem(offset) => self.lda_mem_model(mmu, high_page(offset)),
            Instruction::LdhCmemA => self.store_model(
                mmu,
                high_page(self.registers.c),
                self.registers.a,
            ),
            Instruction::LdhImm8memA(offset) => self.store_model(
                mmu,
                high_page(offset),
                self.registers.a,
            ),
            _ => only_cpu(self, mmu),
        }
    }

    /// The machine after one of the arithmetic and logic instructions has done its work; any other
    /// instruction changes nothing here.
    pub open spec fn arithmetic_model(self, mmu: MMU, instruction: Instruction) -> Result<
        (CPU, MMU),
        Fault,
    > {
        match instruction {
            Instruction::AdcAImm8(value) => only_cpu(self.alu_model(AluOp::Adc, value), mmu),
            Instruction::AdcAR8(reg) => self.alu_r8_model(mmu, AluOp::Adc, reg),
            Instruction::AddAImm8(value) => only_cpu(self.alu_model(AluOp::Add, value), mmu),
            Instruction::AddAR8(reg) => self.alu_r8_model(mmu, AluOp::Add, reg),
            Instruction::AddHlR16(reg) => only_cpu(
                self.add_r16_model(R16::HL, self.registers.r16(reg)),
                mmu,
            ),
            Instruction::AddSpImm8(e8) => only_cpu(self.add_sp_model(e8), mmu),
            Instruction::AndAImm8(value) => only_cpu(self.alu_model(AluOp::And, value), mmu),
            Instruction::AndAR8(reg) => self.alu_r8_model(mmu, AluOp::And, reg),
            Instruction::CpAImm8(value) => only_cpu(self.alu_model(AluOp::Cp, value), mmu),
            Instruction::CpAR8(reg) => self.alu_r8_model(mmu, AluOp::Cp, reg),
            Instruction::DecR16(reg) => only_cpu(self.dec_r16_model(reg), mmu),
            Instruction::DecR8(reg) => self.dec_model(mmu, reg),
            Instruction::IncR16(reg) => only_cpu(self.inc_r16_model(reg), mmu),
            Instruction::IncR8(reg) => self.inc_model(mmu, reg),
            Instruction::OrAImm8(value) => only_cpu(self.alu_model(AluOp::Or, value), mmu),
            Instruction::OrAR8(reg) => self.alu_r8_model(mmu, AluOp::Or, reg),
            Instruction::SbcAImm8(value) => only_cpu(self.alu_model(AluOp::Sbc, value), mmu),
            Instruction::SbcAR8(reg) => self.alu_r8_model(mmu, AluOp::Sbc, reg),
            Instruction::SubAImm8(value) => only_cpu(self.alu_model(AluOp::Sub, value), mmu),
            Instruction::SubAR8(reg) => self.alu_r8_model(mmu, AluOp::Sub, reg),
            Instruction::XorAImm8(value) => only_cpu(self.alu_model(AluOp::Xor, value), mmu),
            Instruction::XorAR8(reg) => self.alu_r8_model(mmu, AluOp::Xor, reg),
            _ => only_cpu(self, mmu),
        }
    }

    /// The machine after one of the rotates, shifts and accumulator adjustments has done its work; any other
    /// instruction changes nothing here.
    pub open spec fn rotate_model(self, mmu: MMU, instruction: Instruction) -> Result<
        (CPU, MMU),
        Fault,
    > {
        match instruction {
            Instruction::Rlca => only_cpu(self.rotate_a_model(Shift::Rlc), mmu),
            Instruction::Rrca => only_cpu(self.rotate_a_model(Shift::Rrc), mmu),
            Instruction::Rla => only_cpu(self.rotate_a_model(Shift::Rl), mmu),
            Instruction::Rra => only_cpu(self.rotate_a_model(Shift::Rr), mmu),
            Instruction::Daa => only_cpu(self.daa_model(), mmu),
            Instruction::Cpl => only_cpu(self.cpl_model(), mmu),
            Instruction::Scf => only_cpu(self.scf_model(), mmu),
            Instruction::Ccf => only_cpu(self.ccf_model(), mmu),
            Instruction::RlcR8(reg) => self.shift_model(mmu, Shift::Rlc, reg),
            Instruction::RrcR8(reg) => self.shift_model(mmu, Shift::Rrc, reg),
            Instruction::RlR8(reg) => self.shift_model(mmu, Shift::Rl, reg),
            Instruction::RrR8(reg) => self.shift_model(mmu, Shift::Rr, reg),
            Instruction::SlaR8(reg) => self.shift_model(mmu, Shift::Sla, reg),
            Instruction::SraR8(reg) => self.shift_model(mmu, Shift::Sra, reg),
            Instruction::SwapR8(reg) => self.shift_model(mmu, Shift::Swap, reg),
            Instruction::SrlR8(reg) => self.shift_model(mmu, Shift::Srl, reg),
            _ => only_cpu(self, mmu),
        }
    }

    /// The machine after one of the jumps, calls, returns, pushes and pops has done its work; any other
    /// instruction changes nothing here.
    pub open spec fn flow_model(self, mmu: MMU, instruction: Instruction) -> Result<
        (CPU, MMU),
        Fault,
    > {
        match instruction {
            Instruction::CallCondImm16(cond, addr) => self.call_cond_model(mmu, cond, addr),
            Instruction::CallImm16(addr) => self.call_model(mmu, addr),
            Instruction::JpCondImm16(cond, addr) => only_cpu(self.jp_cond_model(addr, cond), mmu),
            Instruction::JpHl => only_cpu(self.with_pc(self.registers.r16(R16::HL)), mmu),
            Instruction::JpImm16(addr) => only_cpu(self.with_pc(addr), mmu),
            Instruction::JrCondImm8(cond, offset) => only_cpu(
                self.jr_cond_model(offset, cond),
                mmu,
            ),
            Instruction::JrImm8(offset) => only_cpu(self.jr_model(offset), mmu),
            Instruction::PopR16stk(reg) => self.pop_model(mmu, reg),
            Instruction::PushR16stk(reg) => self.push_model(mmu, self.registers.r16_stk(reg)),
            Instruction::Ret => self.ret_model(mmu),
            Instruction::RetCond(cond) => self.ret_cond_model(mmu, cond),
            Instruction::Reti => self.reti_model(mmu),
            Instruction::RstTgt3(target) => self.call_model(mmu, target as u16),
            _ => only_cpu(self, mmu),
        }
    }

    /// The machine after one of BIT, RES and SET has done its work; any other
    /// instruction changes nothing here.
    pub open spec fn bits_model(self, mmu: MMU, instruction: Instruction) -> Result<
        (CPU, MMU),
        Fault,
    > {
        match instruction {
            Instruction::BitB3R8(index, reg) => self.bit_model(mmu, reg, index % 8),
            Instruction::ResB3R8(index, reg) => self.put_bit_model(mmu, reg, index % 8, false),
            Instruction::SetB3R8(index, reg) => self.put_bit_model(mmu, reg, index % 8, true),

            _ => only_cpu(self, mmu),
        }
    }

    /// The machine after an instruction has done its work. The program
    /// counter already points behind the instruction.
    pub open spec fn execute_model(self, mmu: MMU, instruction: Instruction) -> Result<
        (CPU, MMU),
        Fault,
    > {
        match group_of(instruction) {
            Group::Control => self.control_model(mmu, instruction),
            Group::Load => self.load_model(mmu, instruction),
            Group::Arithmetic => self.arithmetic_model(mmu, instruction),
            Group::Rotate => self.rotate_model(mmu, instruction),
            Group::Flow => self.flow_model(mmu, instruction),
            Group::Bits => self.bits_model(mmu, instruction),
        }
    }

    /// Applies an operation between the accumulator and a value.
    pub fn alu(&mut self, op: AluOp, value: u8)
        ensures
            *final(self) == old(self).alu_model(op, value),
    {
        match op {
            AluOp::Add => self.add(value),
            AluOp::Adc => self.adc(value),
            AluOp::Sub => self.sub(value),
            AluOp::Sbc => self.sbc(value),
            AluOp::And => self.and(value),
            AluOp::Xor => self.xor(value),
            AluOp::Or => self.or(value),
            AluOp::Cp => self.cp(value),
        }
    }

    /// Applies an operation between the accumulator and an 8-bit operand.
    pub fn alu_r8(&mut self, mmu: &MMU, op: AluOp, reg: R8) -> (result: Result<(), Fault>)
        requires
            mmu.wf(),
        ensures
            agrees(
                old(self).alu_r8_model(*mmu, op, reg),
                result,
                (*old(self), *mmu),
                (*final(self), *mmu),
            ),
    {
        match self.get_r8_byte(mmu, reg) {
            Ok(value) => {
                self.alu(op, value);
                Ok(())
            },
            Err(fault) => Err(fault),
        }
    }

    /// Does the work of one of NOP, STOP, HALT, DI and EI.
    pub fn execute_control(&mut self, instruction: Instruction)
        ensures
            forall|mmu: MMU| #[trigger]
                old(self).control_model(mmu, instruction) == only_cpu(*final(self), mmu),
    {
        match instruction {
            Instruction::Nop | Instruction::Stop | Instruction::ILLEGAL => {},
            Instruction::Halt => {
                self.halted = true;
            },
            Instruction::Di => {
                self.ime = false;
                self.ei_pending = false;
            },
            Instruction::Ei => {
                if !self.ime {
                    self.ei_pending = true;
                }
            },
            _ => {},
        }
    }

    /// Does the work of one of the loads and stores.
    pub fn execute_load(&mut self, mmu: &mut MMU, instruction: Instruction) -> (result: Result<
        (),
        Fault,
    >)
        requires
            old(mmu).wf(),
        ensures
            final(mmu).wf(),
            agrees(
                old(self).load_model(*old(mmu), instruction),
                result,
                (*old(self), *old(mmu)),
                (*final(self), *final(mmu)),
            ),
    {
        let a = self.registers.a;
        let c = self.registers.c;
        match instruction {
            Instruction::LdAImm16mem(addr) => self.lda_mem(mmu, addr),
            Instruction::LdAR16mem(reg) => self.lda_r16mem(mmu, reg),
            Instruction::LdHlSpImm8(e8) => {
                self.ld_hl_sp(e8);
                Ok(())
            },
            Instruction::LdImm16memA(addr) => CPU::write(mmu, addr, a),
            Instruction::LdImm16memSp(addr) => self.ld_imm16_sp(mmu, addr),
            Instruction::LdR16Imm16(reg, value) => {
                self.ld_r16(reg, value);
                Ok(())
            },
            Instruction::LdR16memA(reg) => self.ld_r16mem(mmu, reg, a),
            Instruction::LdR8Imm8(reg, value) => self.ld_r8(mmu, reg, value),
            Instruction::LdR8R8(target, source) => self.ld_r8_r8(mmu, target, source),
            Instruction::LdSpHl => {
                self.ld_sp_hl();
                Ok(())
            },
            Instruction::LdhACmem => self.lda_mem(mmu, 0xFF00 + c as u16),
            Instruction::LdhAImm8mem(offset) => self.lda_mem(mmu, 0xFF00 + offset as u16),
            Instruction::LdhCmemA => self.ldh_addr(mmu, c, a),
            Instruction::LdhImm8memA(offset) => self.ldh_addr(mmu, offset, a),
            _ => Ok(()),
        }
    }

    /// Does the work of one of the arithmetic and logic instructions.
    pub fn execute_arithmetic(&mut self, mmu: &mut MMU, instruction: Instruction) -> (result: Result<
        (),
        Fault,
    >)
        requires
            old(mmu).wf(),
        ensures
            final(mmu).wf(),
            agrees(
                old(self).arithmetic_model(*old(mmu), instruction),
                result,
                (*old(self), *old(mmu)),
                (*final(self), *final(mmu)),
            ),
    {
        match instruction {
            Instruction::AdcAImm8(value) => {
                self.alu(AluOp::Adc, value);
                Ok(())
            },
            Instruction::AdcAR8(reg) => self.alu_r8(mmu, AluOp::Adc, reg),
            Instruction::AddAImm8(value) => {
                self.alu(AluOp::Add, value);
                Ok(())
            },
            Instruction::AddAR8(reg) => self.alu_r8(mmu, AluOp::Add, reg),
            Instruction::AddHlR16(reg) => {
                let value = self.registers.get_r16(reg);
                self.add_r16(R16::HL, value);
                Ok(())
            },
            Instruction::AddSpImm8(e8) => {
                self.add_sp(e8);
                Ok(())
            },
            Instruction::AndAImm8(value) => {
                self.alu(AluOp::And, value);
                Ok(())
            },
            Instruction::AndAR8(reg) => self.alu_r8(mmu, AluOp::And, reg),
            Instruction::CpAImm8(value) => {
                self.alu(AluOp::Cp, value);
                Ok(())
            },
            Instruction::CpAR8(reg) => self.alu_r8(mmu, AluOp::Cp, reg),
            Instruction::DecR16(reg) => {
                self.dec_r16(reg);
                Ok(())
            },
            Instruction::DecR8(reg) => self.dec(mmu, reg),
            Instruction::IncR16(reg) => {
                self.inc_r16(reg);
                Ok(())
            },
            Instruction::IncR8(reg) => self.inc(mmu, reg),
            Instruction::OrAImm8(value) => {
                self.alu(AluOp::Or, value);
                Ok(())
            },
            Instruction::OrAR8(reg) => self.alu_r8(mmu, AluOp::Or, reg),
            Instruction::SbcAImm8(value) => {
                self.alu(AluOp::Sbc, value);
                Ok(())
            },
            Instruction::SbcAR8(reg) => self.alu_r8(mmu, AluOp::Sbc, reg),
            Instruction::SubAImm8(value) => {
                self.alu(AluOp::Sub, value);
                Ok(())
            },
            Instruction::SubAR8(reg) => self.alu_r8(mmu, AluOp::Sub, reg),
            Instruction::XorAImm8(value) => {
                self.alu(AluOp::Xor, value);
                Ok(())
            },
            Instruction::XorAR8(reg) => self.alu_r8(mmu, AluOp::Xor, reg),
            _ => Ok(()),
        }
    }

    /// Does the work of one of the rotates, shifts and accumulator adjustments.
    pub fn execute_rotate(&mut self, mmu: &mut MMU, instruction: Instruction) -> (result: Result<
        (),
        Fault,
    >)
        requires
            old(mmu).wf(),
        ensures
            final(mmu).wf(),
            agrees(
                old(self).rotate_model(*old(mmu), instruction),
                result,
                (*old(self), *old(mmu)),
                (*final(self), *final(mmu)),
            ),
    {
        match instruction {
            Instruction::Rlca => {
                self.rlca();
                Ok(())
            },
            Instruction::Rrca => {
                self.rrca();
                Ok(())
            },
            Instruction::Rla => {
                self.rla();
                Ok(())
            },
            Instruction::Rra => {
                self.rra();
                Ok(())
            },
            Instruction::Daa => {
                self.daa();
                Ok(())
            },
            Instruction::Cpl => {
                self.cpl();
                Ok(())
            },
            Instruction::Scf => {
                self.scf();
                Ok(())
            },
            Instruction::Ccf => {
                self.ccf();
                Ok(())
            },
            Instruction::RlcR8(reg) => self.rlc(mmu, reg),
            Instruction::RrcR8(reg) => self.rrc(mmu, reg),
            Instruction::RlR8(reg) => self.rl(mmu, reg),
            Instruction::RrR8(reg) => self.rr(mmu, reg),
            Instruction::SlaR8(reg) => self.sla(mmu, reg),
            Instruction::SraR8(reg) => self.sra(mmu, reg),
            Instruction::SwapR8(reg) => self.swap(mmu, reg),
            Instruction::SrlR8(reg) => self.srl(mmu, reg),
            _ => Ok(()),
        }
    }

    /// Does the work of one of the jumps, calls, returns, pushes and pops, and says whether it was a
    /// conditional one whose condition held.
    pub fn execute_flow(&mut self, mmu: &mut MMU, instruction: Instruction) -> (result: Result<
        bool,
        Fault,
    >)
        requires
            old(mmu).wf(),
        ensures
            final(mmu).wf(),
            agrees_with(
                old(self).flow_model(*old(mmu), instruction),
                old(self).branch_taken(instruction),
                result,
                (*old(self), *old(mmu)),
                (*final(self), *final(mmu)),
            ),
    {
        let done: Result<(), Fault> = match instruction {
            Instruction::CallCondImm16(cond, addr) => {
                return self.call_cond(mmu, cond, addr);
            },
            Instruction::CallImm16(addr) => self.call(mmu, addr),
            Instruction::JpCondImm16(cond, addr) => {
                return Ok(self.jp_cond(addr, cond));
            },
            Instruction::JpHl => {
                let target = self.registers.get_r16(R16::HL);
                self.jp(target);
                Ok(())
            },
            Instruction::JpImm16(addr) => {
                self.jp(addr);
                Ok(())
            },
            Instruction::JrCondImm8(cond, offset) => {
                return Ok(self.jr_cond(offset, cond));
            },
            Instruction::JrImm8(offset) => {
                self.jr(offset);
                Ok(())
            },
            Instruction::PopR16stk(reg) => self.pop(mmu, reg),
            Instruction::PushR16stk(reg) => {
                let value = self.registers.get_r16_stk(reg);
                self.push(mmu, value)
            },
            Instruction::Ret => self.ret(mmu),
            Instruction::RetCond(cond) => {
                return self.ret_cond(mmu, cond);
            },
            Instruction::Reti => self.reti(mmu),
            Instruction::RstTgt3(target) => self.rst_tgt3(mmu, target as u16),
            _ => Ok(()),
        };
        match done {
            Ok(()) => Ok(false),
            Err(fault) => Err(fault),
        }
    }

    /// Does the work of one of BIT, RES and SET.
    pub fn execute_bits(&mut self, mmu: &mut MMU, instruction: Instruction) -> (result: Result<
        (),
        Fault,
    >)
        requires
            old(mmu).wf(),
        ensures
            final(mmu).wf(),
            agrees(
                old(self).bits_model(*old(mmu), instruction),
                result,
                (*old(self), *old(mmu)),
                (*final(self), *final(mmu)),
            ),
    {
        match instruction {
            Instruction::BitB3R8(index, reg) => self.bit(mmu, reg, index % 8),
            Instruction::ResB3R8(index, reg) => self.res(mmu, reg, index % 8),
            Instruction::SetB3R8(index, reg) => self.set(mmu, reg, index % 8),

            _ => Ok(()),
        }
    }

    /// Does the work of one instruction, and says whether it was a
    /// conditional jump, call or return whose condition held. The program
    /// counter must already point behind the instruction. ILLEGAL is no
    /// instruction and does nothing here: `step` refuses it before it gets
    /// this far.
    pub fn execute(&mut self, mmu: &mut MMU, instruction: Instruction) -> (result: Result<
        bool,
        Fault,
    >)
        requires
            old(mmu).wf(),
        ensures
            final(mmu).wf(),
            agrees_with(
                old(self).execute_model(*old(mmu), instruction),
                old(self).branch_taken(instruction),
                result,
                (*old(self), *old(mmu)),
                (*final(self), *final(mmu)),
            ),
    {
        let done: Result<(), Fault> = match group(instruction) {
            Group::Control => {
                self.execute_control(instruction);
                Ok(())
            },
            Group::Load => self.execute_load(mmu, instruction),
            Group::Arithmetic => self.execute_arithmetic(mmu, instruction),
            Group::Rotate => self.execute_rotate(mmu, instruction),
            Group::Flow => {
                return self.execute_flow(mmu, instruction);
            },
            Group::Bits => self.execute_bits(mmu, instruction),
        };
        match done {
            Ok(()) => Ok(false),
            Err(fault) => Err(fault),
        }
    }
}

} // verus!
