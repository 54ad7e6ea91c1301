use crate::cartridge::{in_rom, MBC, ROM_BANK_SIZE};
use vstd::prelude::*;

verus! {

/// A cartridge without a bank controller: 32 KiB of ROM and no RAM.
pub struct MBC0 {
    pub rom: Vec<u8>,
}

impl MBC0 {
    /// Takes the ROM image, which must cover the 32 KiB that the cartridge
    /// maps.
    pub fn new(rom: Vec<u8>) -> (mbc: MBC0)
        requires
            rom@.len() >= 2 * ROM_BANK_SIZE,
        ensures
            mbc.rom@ == rom@,
            mbc.wf(),
    {
        MBC0 { rom }
    }
}

impl MBC for MBC0 {
    open spec fn wf(&self) -> bool {
        self.rom@.len() >= 2 * ROM_BANK_SIZE
    }

    /// ROM addresses read the image directly; the RAM window reads 0xFF, as
    /// there is no RAM.
    open spec fn read_model(&self, addr: u16) -> u8 {
        if in_rom(addr) {
            self.rom@[addr as int]
        } else {
            0xFF
        }
    }

    /// Writes change nothing.
    open spec fn write_model(&self, addr: u16, value: u8) -> MBC0 {
        *self
    }

    fn read_byte(&self, addr: u16) -> (value: u8) {
        if addr < 0x8000 {
            self.rom[addr as usize]
        } else {
            0xFF
        }
    }

    fn write_byte(&mut self, addr: u16, value: u8) {
    }
}

} // verus!
