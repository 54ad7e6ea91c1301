pub mod alu;
pub mod execution;
pub mod flag_register;
pub mod registers;

use crate::bits::{
    bit_is_set, high_byte, high_byte_of, low_byte, low_byte_of, make_word, word_of, wrap16,
};
use crate::cpu::alu::test_bit;
use crate::instructions::r16::R16;
use crate::instructions::r8::R8;
use crate::instructions::{decode, parse, Instruction};
use crate::mmu::{readable, writable, MMU};
use registers::Registers;
use vstd::prelude::*;

verus! {

/// The processor: its registers and its interrupt state.
#[derive(Clone, Copy, Debug, PartialEq, Eq, Structural)]
pub struct CPU {
    pub registers: Registers,
    /// The master interrupt enable.
    pub ime: bool,
    /// Set by EI: the master enable follows once the next instruction has
    /// retired.
    pub ei_pending: bool,
    /// Set by HALT: no instruction is fetched until an interrupt is pending.
    pub halted: bool,
}

/// A condition that stops the machine. The step that meets one changes
/// nothing.
#[derive(Clone, Copy, Debug, PartialEq, Eq, Structural)]
pub enum Fault {
    /// The byte at `pc` is no instruction.
    IllegalOpcode { pc: u16, opcode: u8 },
    /// A read of an address that the bus does not serve.
    Read { addr: u16 },
    /// A write that the bus does not serve.
    Write { addr: u16 },
}

/// The five sources of interrupts, in the order of their priority.
#[derive(Clone, Copy, Debug, PartialEq, Eq, Structural)]
pub enum Interrupt {
    VBlank,
    LcdStat,
    Timer,
    Serial,
    Joypad,
}

impl Interrupt {
    /// The bit of IE and IF that belongs to the source.
    pub open spec fn bit(self) -> int {
        match self {
            Interrupt::VBlank => 0,
            Interrupt::LcdStat => 1,
            Interrupt::Timer => 2,
            Interrupt::Serial => 3,
            Interrupt::Joypad => 4,
        }
    }

    /// The address at which the source's handler starts.
    pub open spec fn vector(self) -> u16 {
        (0x40 + 8 * self.bit()) as u16
    }

    /// Whether the source's latch is set. The serial port has none.
    pub open spec fn raised(self, mmu: MMU) -> bool {
        match self {
            Interrupt::VBlank => mmu.ppu.vblank_irq,
            Interrupt::LcdStat => mmu.ppu.stat_irq,
            Interrupt::Timer => mmu.timer.timer_irq,
            Interrupt::Serial => false,
            Interrupt::Joypad => mmu.joypad.joypad_irq,
        }
    }

    /// Whether the source is both raised and enabled in IE.
    pub open spec fn pending(self, mmu: MMU) -> bool {
        self.raised(mmu) && bit_is_set(mmu.ie, self.bit())
    }

    /// The bus with the source's latch cleared.
    pub open spec fn acknowledged(self, mmu: MMU) -> MMU {
        match self {
            Interrupt::VBlank => MMU {
                ppu: crate::mmu::ppu::PPU { vblank_irq: false, ..mmu.ppu },
                ..mmu
            },
            Interrupt::LcdStat => MMU {
                ppu: crate::mmu::ppu::PPU { stat_irq: false, ..mmu.ppu },
                ..mmu
            },
            Interrupt::Timer => MMU {
                timer: crate::mmu::timer::Timer { timer_irq: false, ..mmu.timer },
                ..mmu
            },
            Interrupt::Serial => mmu,
            Interrupt::Joypad => MMU {
                joypad: crate::mmu::joypad::Joypad { joypad_irq: false, ..mmu.joypad },
                ..mmu
            },
        }
    }
}

/// The pending interrupt of the highest priority, if any is pending.
pub open spec fn first_pending(mmu: MMU) -> Option<Interrupt> {
    if Interrupt::VBlank.pending(mmu) {
        Some(Interrupt::VBlank)
    } else if Interrupt::LcdStat.pending(mmu) {
        Some(Interrupt::LcdStat)
    } else if Interrupt::Timer.pending(mmu) {
        Some(Interrupt::Timer)
    } else if Interrupt::Joypad.pending(mmu) {
        Some(Interrupt::Joypad)
    } else {
        None
    }
}

/// A read through the bus: the byte, or the fault where the bus does not
/// serve the address.
pub open spec fn load(mmu: MMU, addr: u16) -> Result<u8, Fault> {
    if readable(addr) {
        Ok(mmu.read_model(addr))
    } else {
        Err(Fault::Read { addr })
    }
}

/// A write through the bus: the bus afterwards, or the fault where the bus
/// does not serve the write.
pub open spec fn store(mmu: MMU, addr: u16, value: u8) -> Result<MMU, Fault> {
    if writable(addr, value) {
        Ok(mmu.write_model(addr, value))
    } else {
        Err(Fault::Write { addr })
    }
}

/// A read of a 16-bit word: the low byte at `addr`, the high byte behind it.
pub open spec fn load_word(mmu: MMU, addr: u16) -> Result<u16, Fault> {
    let next = wrap16(addr as int, 1);
    if !readable(addr) {
        Err(Fault::Read { addr })
    } else if !readable(next) {
        Err(Fault::Read { addr: next })
    } else {
        Ok(word_of(mmu.read_model(next), mmu.read_model(addr)))
    }
}

/// A write of a 16-bit word: the low byte to `addr`, then the high byte
/// behind it. Nothing is written unless both writes are served.
pub open spec fn store_word(mmu: MMU, addr: u16, word: u16) -> Result<MMU, Fault> {
    let next = wrap16(addr as int, 1);
    if !writable(addr, low_byte_of(word)) {
        Err(Fault::Write { addr })
    } else if !writable(next, high_byte_of(word)) {
        Err(Fault::Write { addr: next })
    } else {
        Ok(mmu.write_model(addr, low_byte_of(word)).write_model(next, high_byte_of(word)))
    }
}

/// A push of a 16-bit word below `sp`: the high byte to `sp - 1`, then the
/// low byte to `sp - 2`. Nothing is written unless both writes are served.
pub open spec fn push_word(mmu: MMU, sp: u16, word: u16) -> Result<MMU, Fault> {
    let upper = wrap16(sp as int, -1);
    let lower = wrap16(sp as int, -2);
    if !writable(upper, high_byte_of(word)) {
        Err(Fault::Write { addr: upper })
    } else if !writable(lower, low_byte_of(word)) {
        Err(Fault::Write { addr: lower })
    } else {
        Ok(mmu.write_model(upper, high_byte_of(word)).write_model(lower, low_byte_of(word)))
    }
}

/// Whether an operation did what its model says: on success the processor
/// and the bus are the model's, on a fault the fault is the model's and
/// nothing has changed.
pub open spec fn agrees(
    model: Result<(CPU, MMU), Fault>,
    result: Result<(), Fault>,
    before: (CPU, MMU),
    after: (CPU, MMU),
) -> bool {
    match model {
        Ok(state) => result is Ok && after == state,
        Err(fault) => result == Err::<(), Fault>(fault) && after == before,
    }
}

/// As `agrees`, for an operation that also returns a value: on success it
/// returns `value`.
pub open spec fn agrees_with<T>(
    model: Result<(CPU, MMU), Fault>,
    value: T,
    result: Result<T, Fault>,
    before: (CPU, MMU),
    after: (CPU, MMU),
) -> bool {
    match model {
        Ok(state) => result == Ok::<T, Fault>(value) && after == state,
        Err(fault) => result == Err::<T, Fault>(fault) && after == before,
    }
}

/// The address one up, wrapping at the end of the address space.
pub fn next_address(addr: u16) -> (next: u16)
    ensures
        next == wrap16(addr as int, 1),
{
    if addr == 0xFFFF {
        0
    } else {
        addr + 1
    }
}

/// The address `count` down, wrapping at the start of the address space.
pub fn address_below(addr: u16, count: u16) -> (below: u16)
    requires
        count <= 2,
    ensures
        below == wrap16(addr as int, -(count as int)),
{
    if addr >= count {
        addr - count
    } else {
        (addr as u32 + 65536 - count as u32) as u16
    }
}

impl CPU {
    /// The processor at the start of execution.
    pub open spec fn start(after_boot: bool) -> CPU {
        CPU {
            registers: if after_boot {
                Registers::after_boot()
            } else {
                Registers::power_on()
            },
            ime: false,
            ei_pending: false,
            halted: false,
        }
    }

    /// The processor with other registers.
    pub open spec fn with_registers(self, registers: Registers) -> CPU {
        CPU { registers, ..self }
    }

    /// The value of an 8-bit operand: a register, or the byte at HL.
    pub open spec fn operand(self, mmu: MMU, reg: R8) -> Result<u8, Fault> {
        if reg == R8::HL {
            load(mmu, self.registers.r16(R16::HL))
        } else {
            Ok(self.registers.r8(reg))
        }
    }

    /// The machine after an 8-bit operand is set.
    pub open spec fn with_operand(self, mmu: MMU, reg: R8, value: u8) -> Result<(CPU, MMU), Fault> {
        if reg == R8::HL {
            match store(mmu, self.registers.r16(R16::HL), value) {
                Ok(after) => Ok((self, after)),
                Err(fault) => Err(fault),
            }
        } else {
            Ok((self.with_registers(self.registers.with_r8(reg, value)), mmu))
        }
    }

    /// With `after_boot` set, the registers hold what the boot program
    /// leaves behind and execution starts at the cartridge's entry point;
    /// otherwise execution starts in the boot program. Interrupts are
    /// disabled.
    pub fn new(after_boot: bool) -> (cpu: CPU)
        ensures
            cpu == CPU::start(after_boot),
    {
        CPU { registers: Registers::new(after_boot), ime: false, ei_pending: false, halted: false }
    }

    /// Reads a byte through the bus.
    pub fn read(mmu: &MMU, addr: u16) -> (value: Result<u8, Fault>)
        requires
            mmu.wf(),
        ensures
            value == load(*mmu, addr),
    {
        if MMU::can_read(addr) {
            Ok(mmu.read_byte(addr))
        } else {
            Err(Fault::Read { addr })
        }
    }

    /// Writes a byte through the bus.
    pub fn write(mmu: &mut MMU, addr: u16, value: u8) -> (result: Result<(), Fault>)
        requires
            old(mmu).wf(),
        ensures
            final(mmu).wf(),
            match store(*old(mmu), addr, value) {
                Ok(after) => result is Ok && *final(mmu) == after,
                Err(fault) => result == Err::<(), Fault>(fault) && *final(mmu) == *old(mmu),
            },
    {
        if MMU::can_write(addr, value) {
            mmu.write_byte(addr, value);
            Ok(())
        } else {
            Err(Fault::Write { addr })
        }
    }

    /// Writes a 16-bit word, low byte first.
    pub fn set_memory_word(&mut self, memory: &mut MMU, addr: u16, word: u16) -> (result: Result<
        (),
        Fault,
    >)
        requires
            old(memory).wf(),
        ensures
            final(memory).wf(),
            *final(self) == *old(self),
            match store_word(*old(memory), addr, word) {
                Ok(after) => result is Ok && *final(memory) == after,
                Err(fault) => result == Err::<(), Fault>(fault) && *final(memory) == *old(memory),
            },
    {
        let little = low_byte(word);
        let big = high_byte(word);
        let next = next_address(addr);
        if !MMU::can_write(addr, little) {
            return Err(Fault::Write { addr });
        }
        if !MMU::can_write(next, big) {
            return Err(Fault::Write { addr: next });
        }
        memory.write_byte(addr, little);
        memory.write_byte(next, big);
        Ok(())
    }

    /// Reads a 16-bit word, low byte first.
    pub fn get_memory_word(&mut self, memory: &MMU, addr: u16) -> (word: Result<u16, Fault>)
        requires
            memory.wf(),
        ensures
            *final(self) == *old(self),
            word == load_word(*memory, addr),
    {
        let next = next_address(addr);
        if !MMU::can_read(addr) {
            return Err(Fault::Read { addr });
        }
        if !MMU::can_read(next) {
            return Err(Fault::Read { addr: next });
        }
        let little = memory.read_byte(addr);
        let big = memory.read_byte(next);
        Ok(make_word(big, little))
    }

    /// Writes a 8-bit operand: a register, or the byte at HL.
    pub fn set_r8_byte(&mut self, mmu: &mut MMU, reg: R8, value: u8) -> (result: Result<(), Fault>)
        requires
            old(mmu).wf(),
        ensures
            final(mmu).wf(),
            agrees(
                old(self).with_operand(*old(mmu), reg, value),
                result,
                (*old(self), *old(mmu)),
                (*final(self), *final(mmu)),
            ),
    {
        match reg {
            R8::HL => CPU::write(mmu, self.registers.get_r16(R16::HL), value),
            _ => {
                self.registers.set_r8(reg, value);
                Ok(())
            },
        }
    }

    /// Reads an 8-bit operand: a register, or the byte at HL.
    pub fn get_r8_byte(&self, mmu: &MMU, reg: R8) -> (value: Result<u8, Fault>)
        requires
            mmu.wf(),
        ensures
            value == self.operand(*mmu, reg),
    {
        match reg {
            R8::HL => CPU::read(mmu, self.registers.get_r16(R16::HL)),
            _ => Ok(self.registers.get_r8(reg)),
        }
    }
}

/// The clock ticks that the dispatch of an interrupt takes.
pub const DISPATCH_CYCLES: u8 = 20;

/// The clock ticks that a step takes while the processor is halted.
pub const HALTED_CYCLES: u8 = 4;

/// The bus after `cycles` clock ticks have gone by: the pixel unit and the
/// timer have moved on, and may have raised their interrupts.
pub open spec fn retire(mmu: MMU, cycles: u8) -> MMU {
    MMU {
        ppu: mmu.ppu.advance_model(cycles as u32),
        timer: mmu.timer.advance_model(cycles),
        ..mmu
    }
}

/// The three bytes at an address: an opcode and its two possible operand
/// bytes. All three are read, whatever the opcode.
pub open spec fn fetch(mmu: MMU, pc: u16) -> Result<(u8, u8, u8), Fault> {
    let second = wrap16(pc as int, 1);
    let third = wrap16(pc as int, 2);
    if !readable(pc) {
        Err(Fault::Read { addr: pc })
    } else if !readable(second) {
        Err(Fault::Read { addr: second })
    } else if !readable(third) {
        Err(Fault::Read { addr: third })
    } else {
        Ok((mmu.read_model(pc), mmu.read_model(second), mmu.read_model(third)))
    }
}

impl CPU {
    /// The machine after an interrupt is dispatched: the source's latch is
    /// cleared, the master enable is cleared, the program counter is pushed,
    /// and execution goes on at the source's vector. A halted processor
    /// runs again.
    pub open spec fn dispatch_model(self, mmu: MMU, source: Interrupt) -> Result<
        (CPU, MMU),
        Fault,
    > {
        match push_word(source.acknowledged(mmu), self.registers.sp, self.registers.pc) {
            Ok(after) => Ok(
                (
                    CPU {
                        registers: Registers {
                            pc: source.vector(),
                            sp: wrap16(self.registers.sp as int, -2),
                            ..self.registers
                        },
                        ime: false,
                        ei_pending: false,
                        halted: false,
                    },
                    after,
                ),
            ),
            Err(fault) => Err(fault),
        }
    }

    /// The instruction at the program counter.
    pub open spec fn ins_model(self, mmu: MMU) -> Result<Instruction, Fault> {
        match fetch(mmu, self.registers.pc) {
            Ok((opcode, arg1, arg2)) => Ok(decode(opcode, arg1, arg2)),
            Err(fault) => Err(fault),
        }
    }

    /// The machine after it has run an instruction, and the clock ticks that
    /// took. The program counter moves behind the instruction before the
    /// instruction does its work. Where EI came just before, the master
    /// enable is set once the instruction has done its work, unless that
    /// instruction was DI. Then the devices move on by the ticks taken.
    pub open spec fn run_model(self, mmu: MMU, instruction: Instruction) -> Result<
        (CPU, MMU, u8),
        Fault,
    > {
        let ready = CPU { halted: false, ..self }.with_pc(
            wrap16(self.registers.pc as int, instruction.length()),
        );
        match ready.execute_model(mmu, instruction) {
            Ok((cpu, after)) => {
                let done = if self.ei_pending && cpu.ei_pending {
                    CPU { ime: true, ei_pending: false, ..cpu }
                } else {
                    cpu
                };
                let cycles = ready.cycles_model(instruction) as u8;
                Ok((done, retire(after, cycles), cycles))
            },
            Err(fault) => Err(fault),
        }
    }

    /// The machine after it has fetched, decoded and run the instruction at
    /// the program counter. What is no instruction stops the machine.
    pub open spec fn fetch_run_model(self, mmu: MMU) -> Result<(CPU, MMU, u8), Fault> {
        match self.ins_model(mmu) {
            Ok(instruction) => if instruction == Instruction::ILLEGAL {
                Err(
                    Fault::IllegalOpcode {
                        pc: self.registers.pc,
                        opcode: mmu.read_model(self.registers.pc),
                    },
                )
            } else {
                self.run_model(mmu, instruction)
            },
            Err(fault) => Err(fault),
        }
    }

    /// The machine after one step, and the clock ticks that the step took.
    /// With an interrupt pending and the master enable set, the step
    /// dispatches the interrupt of the highest priority, which takes 20
    /// ticks. With one pending and the master enable clear, a halted
    /// processor runs again. A processor that stays halted lets 4 ticks
    /// pass. Otherwise the step runs one instruction.
    pub open spec fn step_model(self, mmu: MMU) -> Result<(CPU, MMU, u8), Fault> {
        match first_pending(mmu) {
            Some(source) => if self.ime {
                match self.dispatch_model(mmu, source) {
                    Ok((cpu, after)) => Ok(
                        (cpu, retire(after, DISPATCH_CYCLES), DISPATCH_CYCLES),
                    ),
                    Err(fault) => Err(fault),
                }
            } else {
                self.fetch_run_model(mmu)
            },
            None => if self.halted {
                Ok((self, retire(mmu, HALTED_CYCLES), HALTED_CYCLES))
            } else {
                self.fetch_run_model(mmu)
            },
        }
    }

    /// The pending interrupt of the highest priority.
    pub fn pending_interrupt(mmu: &MMU) -> (source: Option<Interrupt>)
        ensures
            source == first_pending(*mmu),
    {
        if mmu.ppu.vblank_irq && test_bit(mmu.ie, 0) {
            Some(Interrupt::VBlank)
        } else if mmu.ppu.stat_irq && test_bit(mmu.ie, 1) {
            Some(Interrupt::LcdStat)
        } else if mmu.timer.timer_irq && test_bit(mmu.ie, 2) {
            Some(Interrupt::Timer)
        } else if mmu.joypad.joypad_irq && test_bit(mmu.ie, 4) {
            Some(Interrupt::Joypad)
        } else {
            None
        }
    }

    /// Dispatches an interrupt.
    pub fn dispatch(&mut self, mmu: &mut MMU, source: Interrupt) -> (result: Result<(), Fault>)
        requires
            old(mmu).wf(),
        ensures
            final(mmu).wf(),
            agrees(
                old(self).dispatch_model(*old(mmu), source),
                result,
                (*old(self), *old(mmu)),
                (*final(self), *final(mmu)),
            ),
    {
        let upper = address_below(self.registers.sp, 1);
        let lower = address_below(self.registers.sp, 2);
        let big = high_byte(self.registers.pc);
        let little = low_byte(self.registers.pc);
        if !MMU::can_write(upper, big) {
            return Err(Fault::Write { addr: upper });
        }
        if !MMU::can_write(lower, little) {
            return Err(Fault::Write { addr: lower });
        }
        let vector: u16 = match source {
            Interrupt::VBlank => {
                mmu.ppu.vblank_irq = false;
                0x40
            },
            Interrupt::LcdStat => {
                mmu.ppu.stat_irq = false;
                0x48
            },
            Interrupt::Timer => {
                mmu.timer.timer_irq = false;
                0x50
            },
            Interrupt::Serial => 0x58,
            Interrupt::Joypad => {
                mmu.joypad.joypad_irq = false;
                0x60
            },
        };
        mmu.write_byte(upper, big);
        mmu.write_byte(lower, little);
        self.registers.sp = lower;
        self.registers.pc = vector;
        self.ime = false;
        self.ei_pending = false;
        self.halted = false;
        Ok(())
    }

    /// Fetches and decodes the instruction at the program counter: the
    /// instruction, its length in bytes and its cost in clock ticks.
    pub fn ins(&self, mmu: &MMU) -> (decoded: Result<(Instruction, u16, u8), Fault>)
        requires
            mmu.wf(),
        ensures
            match self.ins_model(*mmu) {
                Ok(instruction) => decoded == Ok::<(Instruction, u16, u8), Fault>(
                    (instruction, instruction.length() as u16, instruction.cycles() as u8),
                ),
                Err(fault) => decoded == Err::<(Instruction, u16, u8), Fault>(fault),
            },
    {
        let pc = self.registers.pc;
        let second = next_address(pc);
        let third = next_address(second);
        if !MMU::can_read(pc) {
            return Err(Fault::Read { addr: pc });
        }
        if !MMU::can_read(second) {
            return Err(Fault::Read { addr: second });
        }
        if !MMU::can_read(third) {
            return Err(Fault::Read { addr: third });
        }
        let opcode = mmu.read_byte(pc);
        let arg_1 = mmu.read_byte(second);
        let arg_2 = mmu.read_byte(third);
        Ok(parse(opcode, arg_1, arg_2))
    }

    /// The clock ticks that an instruction takes when it is a conditional
    /// jump, call or return whose condition holds; `base`, the cost that the
    /// decoder gave, for any other.
    pub fn taken_cycles(instruction: Instruction, base: u8) -> (cycles: u8)
        requires
            base == instruction.cycles(),
        ensures
            cycles == instruction.taken_cycles(),
    {
        match instruction {
            Instruction::JrCondImm8(_, _) => 12,
            Instruction::JpCondImm16(_, _) => 16,
            Instruction::RetCond(_) => 20,
            Instruction::CallCondImm16(_, _) => 24,
            _ => base,
        }
    }

    /// Lets the devices move on by the clock ticks that a step took.
    pub fn retire_cycles(mmu: &mut MMU, cycles: u8)
        requires
            old(mmu).wf(),
        ensures
            final(mmu).wf(),
            *final(mmu) == retire(*old(mmu), cycles),
    {
        mmu.ppu.do_cycle(cycles as u32);
        mmu.timer.do_cycles(cycles);
    }

    /// Runs an instruction that has been fetched and decoded.
    pub fn run(&mut self, mmu: &mut MMU, instruction: Instruction, length: u16, base: u8) -> (result:
        Result<u8, Fault>)
        requires
            old(mmu).wf(),
            length == instruction.length(),
            base == instruction.cycles(),
        ensures
            final(mmu).wf(),
            match old(self).run_model(*old(mmu), instruction) {
                Ok((cpu, after, cycles)) => result == Ok::<u8, Fault>(cycles) && *final(self) == cpu
                    && *final(mmu) == after,
                Err(fault) => result == Err::<u8, Fault>(fault) && *final(self) == *old(self)
                    && *final(mmu) == *old(mmu),
            },
    {
        let saved = *self;
        let armed = self.ei_pending;
        self.halted = false;
        self.registers.pc = ((self.registers.pc as u32 + length as u32) % 65536) as u16;
        match self.execute(mmu, instruction) {
            Ok(taken) => {
                if armed && self.ei_pending {
                    self.ime = true;
                    self.ei_pending = false;
                }
                let cycles = if taken {
                    CPU::taken_cycles(instruction, base)
                } else {
                    base
                };
                CPU::retire_cycles(mmu, cycles);
                Ok(cycles)
            },
            Err(fault) => {
                *self = saved;
                Err(fault)
            },
        }
    }

    /// Takes one step and returns the clock ticks it took: dispatches a
    /// pending interrupt, or lets a halted processor idle, or runs one
    /// instruction. A step that meets a fault changes nothing.
    pub fn step(&mut self, mmu: &mut MMU) -> (result: Result<u8, Fault>)
        requires
            old(mmu).wf(),
        ensures
            final(mmu).wf(),
            match old(self).step_model(*old(mmu)) {
                Ok((cpu, after, cycles)) => result == Ok::<u8, Fault>(cycles) && *final(self) == cpu
                    && *final(mmu) == after,
                Err(fault) => result == Err::<u8, Fault>(fault) && *final(self) == *old(self)
                    && *final(mmu) == *old(mmu),
            },
    {
        match CPU::pending_interrupt(mmu) {
            Some(source) => {
                if self.ime {
                    return match self.dispatch(mmu, source) {
                        Ok(()) => {
                            CPU::retire_cycles(mmu, DISPATCH_CYCLES);
                            Ok(DISPATCH_CYCLES)
                        },
                        Err(fault) => Err(fault),
                    };
                }
            },
            None => {
                if self.halted {
                    CPU::retire_cycles(mmu, HALTED_CYCLES);
                    return Ok(HALTED_CYCLES);
                }
            },
        }
        match self.ins(mmu) {
            Ok((instruction, length, cycles)) => {
                match instruction {
                    Instruction::ILLEGAL => Err(
                        Fault::IllegalOpcode {
                            pc: self.registers.pc,
                            opcode: mmu.read_byte(self.registers.pc),
                        },
                    ),
                    _ => self.run(mmu, instruction, length, cycles),
                }
            },
            Err(fault) => Err(fault),
        }
    }
}

} // verus!
