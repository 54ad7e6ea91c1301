use crate::cartridge::CartridgeError;
use crate::cpu::{load, load_word, store, store_word, Fault, CPU};
use crate::instructions::Instruction;
use crate::mmu::MMU;
use std::collections::HashSet;
use std::collections::VecDeque;
use vstd::prelude::*;

verus! {

broadcast use vstd::std_specs::hash::group_hash_axioms;

/// The number of instructions that the history keeps.
pub const HISTORY_LIMIT: usize = 10000;

/// The console: the processor, the bus with its devices, and what a debug
/// console needs to follow and to stop the machine.
pub struct GameBoy {
    /// The addresses at which execution is to stop.
    pub breakpoints: HashSet<u16>,
    /// The addresses whose writes are watched.
    pub memory_breakpoints: HashSet<u16>,
    /// The last instructions that were run, each with its address, the
    /// oldest first.
    pub instruction_history: VecDeque<(u16, Instruction)>,
    pub mmu: MMU,
    pub cpu: CPU,
}

/// A history after one more entry: the entry is the newest, and the oldest
/// entries make room where the history would grow over its limit.
pub open spec fn recorded(history: Seq<(u16, Instruction)>, entry: (u16, Instruction)) -> Seq<
    (u16, Instruction),
> {
    let dropped = if history.len() >= HISTORY_LIMIT {
        history.len() + 1 - HISTORY_LIMIT
    } else {
        0
    };
    history.skip(dropped).push(entry)
}

impl GameBoy {
    /// Builds the console around a cartridge image and a boot program.
    /// The image is refused as `Cartridge::new` refuses it. With
    /// `after_boot` set, execution starts behind the boot program.
    pub fn new(rom_data: Vec<u8>, boot_rom: [u8; 256], after_boot: bool) -> (gameboy: Result<
        GameBoy,
        CartridgeError,
    >)
        ensures
            match gameboy {
                Ok(g) => {
                    &&& crate::cartridge::image_fault(rom_data@) is None
                    &&& g.mmu.at_power_on(rom_data@, boot_rom)
                    &&& g.cpu == CPU::start(after_boot)
                    &&& g.breakpoints@ == Set::<u16>::empty()
                    &&& g.memory_breakpoints@ == Set::<u16>::empty()
                    &&& g.instruction_history@ == Seq::<(u16, Instruction)>::empty()
                },
                Err(e) => crate::cartridge::image_fault(rom_data@) == Some(e),
            },
    {
        let mmu = match MMU::new(rom_data, boot_rom) {
            Ok(mmu) => mmu,
            Err(e) => {
                return Err(e);
            },
        };
        Ok(
            GameBoy {
                mmu,
                cpu: CPU::new(after_boot),
                breakpoints: HashSet::with_capacity(10),
                memory_breakpoints: HashSet::with_capacity(10),
                instruction_history: VecDeque::with_capacity(HISTORY_LIMIT),
            },
        )
    }

    /// Whether execution has reached a breakpoint.
    pub fn at_breakpoint(&self) -> (hit: bool)
        ensures
            hit == self.breakpoints@.contains(self.cpu.registers.pc),
    {
        self.breakpoints.contains(&self.cpu.registers.pc)
    }

    /// Sets a breakpoint where there is none, and removes the one that is
    /// there. Says whether there is one afterwards.
    pub fn toggle_breakpoint(&mut self, addr: u16) -> (set: bool)
        ensures
            set == !old(self).breakpoints@.contains(addr),
            final(self).breakpoints@ == if set {
                old(self).breakpoints@.insert(addr)
            } else {
                old(self).breakpoints@.remove(addr)
            },
            final(self).memory_breakpoints == old(self).memory_breakpoints,
            final(self).instruction_history == old(self).instruction_history,
            final(self).mmu == old(self).mmu,
            final(self).cpu == old(self).cpu,
    {
        if self.breakpoints.contains(&addr) {
            self.breakpoints.remove(&addr);
            false
        } else {
            self.breakpoints.insert(addr);
            true
        }
    }

    /// Watches the writes to an address.
    pub fn watch_memory(&mut self, addr: u16)
        ensures
            final(self).memory_breakpoints@ == old(self).memory_breakpoints@.insert(addr),
            final(self).breakpoints == old(self).breakpoints,
            final(self).instruction_history == old(self).instruction_history,
            final(self).mmu == old(self).mmu,
            final(self).cpu == old(self).cpu,
    {
        self.memory_breakpoints.insert(addr);
    }

    /// Whether the writes to an address are watched.
    pub fn is_watched(&self, addr: u16) -> (watched: bool)
        ensures
            watched == self.memory_breakpoints@.contains(addr),
    {
        self.memory_breakpoints.contains(&addr)
    }

    /// The instruction at the program counter.
    pub fn ins(&self) -> (instruction: Result<Instruction, Fault>)
        requires
            self.mmu.wf(),
        ensures
            instruction == self.cpu.ins_model(self.mmu),
    {
        match self.cpu.ins(&self.mmu) {
            Ok((instruction, _, _)) => Ok(instruction),
            Err(fault) => Err(fault),
        }
    }

    /// Reads a byte through the bus, for the host: a fault where the bus
    /// serves no read of the address.
    pub fn get_memory_byte(&self, addr: u16) -> (value: Result<u8, Fault>)
        requires
            self.mmu.wf(),
        ensures
            value == load(self.mmu, addr),
    {
        CPU::read(&self.mmu, addr)
    }

    /// Writes a byte through the bus, for the host, and says whether the
    /// address is watched: a fault, and nothing written, where the bus
    /// serves no such write.
    pub fn set_memory_byte(&mut self, addr: u16, byte: u8) -> (watched: Result<bool, Fault>)
        requires
            old(self).mmu.wf(),
        ensures
            final(self).mmu.wf(),
            final(self).cpu == old(self).cpu,
            final(self).breakpoints == old(self).breakpoints,
            final(self).memory_breakpoints == old(self).memory_breakpoints,
            final(self).instruction_history == old(self).instruction_history,
            match store(old(self).mmu, addr, byte) {
                Ok(after) => watched == Ok::<bool, Fault>(
                    old(self).memory_breakpoints@.contains(addr),
                ) && final(self).mmu == after,
                Err(fault) => watched == Err::<bool, Fault>(fault) && final(self).mmu == old(
                    self,
                ).mmu,
            },
    {
        match CPU::write(&mut self.mmu, addr, byte) {
            Ok(()) => Ok(self.memory_breakpoints.contains(&addr)),
            Err(fault) => Err(fault),
        }
    }

    /// Reads a 16-bit word through the bus, low byte first.
    pub fn get_memory_word(&mut self, addr: u16) -> (word: Result<u16, Fault>)
        requires
            old(self).mmu.wf(),
        ensures
            final(self).mmu == old(self).mmu,
            final(self).cpu == old(self).cpu,
            final(self).breakpoints == old(self).breakpoints,
            final(self).memory_breakpoints == old(self).memory_breakpoints,
            final(self).instruction_history == old(self).instruction_history,
            word == load_word(old(self).mmu, addr),
    {
        self.cpu.get_memory_word(&self.mmu, addr)
    }

    /// Writes a 16-bit word through the bus, low byte first; nothing where
    /// one of the two writes is not served.
    pub fn set_memory_word(&mut self, addr: u16, word: u16) -> (result: Result<(), Fault>)
        requires
            old(self).mmu.wf(),
        ensures
            final(self).mmu.wf(),
            final(self).cpu == old(self).cpu,
            final(self).breakpoints == old(self).breakpoints,
            final(self).memory_breakpoints == old(self).memory_breakpoints,
            final(self).instruction_history == old(self).instruction_history,
            match store_word(old(self).mmu, addr, word) {
                Ok(after) => result is Ok && final(self).mmu == after,
                Err(fault) => result == Err::<(), Fault>(fault) && final(self).mmu == old(
                    self,
                ).mmu,
            },
    {
        self.cpu.set_memory_word(&mut self.mmu, addr, word)
    }

    /// Adds an entry to the history.
    pub fn record(&mut self, entry: (u16, Instruction))
        ensures
            final(self).instruction_history@ == recorded(old(self).instruction_history@, entry),
            final(self).breakpoints == old(self).breakpoints,
            final(self).memory_breakpoints == old(self).memory_breakpoints,
            final(self).mmu == old(self).mmu,
            final(self).cpu == old(self).cpu,
    {
        let ghost start = self.instruction_history@;
        while self.instruction_history.len() >= HISTORY_LIMIT
            invariant
                self.breakpoints == old(self).breakpoints,
                self.memory_breakpoints == old(self).memory_breakpoints,
                self.mmu == old(self).mmu,
                self.cpu == old(self).cpu,
                self.instruction_history@.len() <= start.len(),
                self.instruction_history@ == start.skip(
                    start.len() - self.instruction_history@.len(),
                ),
                start.len() >= HISTORY_LIMIT ==> self.instruction_history@.len() >= HISTORY_LIMIT
                    - 1,
                start.len() < HISTORY_LIMIT ==> self.instruction_history@.len() == start.len(),
            decreases self.instruction_history@.len(),
        {
            let ghost before = self.instruction_history@;
            self.instruction_history.pop_front();
            assert(self.instruction_history@ =~= start.skip(
                start.len() - self.instruction_history@.len(),
            ));
        }
        assert(self.instruction_history@ =~= start.skip(
            if start.len() >= HISTORY_LIMIT {
                start.len() + 1 - HISTORY_LIMIT
            } else {
                0
            },
        ));
        self.instruction_history.push_back(entry);
    }

    /// Takes one step, as `CPU::step` does, and returns the clock ticks it
    /// took. The instruction at the program counter goes into the history
    /// first, if it can be fetched.
    pub fn step(&mut self) -> (result: Result<u8, Fault>)
        requires
            old(self).mmu.wf(),
        ensures
            final(self).mmu.wf(),
            final(self).breakpoints == old(self).breakpoints,
            final(self).memory_breakpoints == old(self).memory_breakpoints,
            final(self).instruction_history@ == match old(self).cpu.ins_model(old(self).mmu) {
                Ok(instruction) => recorded(
                    old(self).instruction_history@,
                    (old(self).cpu.registers.pc, instruction),
                ),
                Err(_) => old(self).instruction_history@,
            },
            match old(self).cpu.step_model(old(self).mmu) {
                Ok((cpu, mmu, cycles)) => result == Ok::<u8, Fault>(cycles) && final(self).cpu
                    == cpu && final(self).mmu == mmu,
                Err(fault) => result == Err::<u8, Fault>(fault) && final(self).cpu == old(
                    self,
                ).cpu && final(self).mmu == old(self).mmu,
            },
    {
        match self.ins() {
            Ok(instruction) => self.record((self.cpu.registers.pc, instruction)),
            Err(_) => {},
        }
        self.cpu.step(&mut self.mmu)
    }
}

} // verus!
