use crate::cartridge::{in_rom, MBC, RAM_WINDOW_START, ROM_BANK_SIZE};
use vstd::prelude::*;

verus! {

/// A cartridge with the first kind of bank controller: bank 0 of the ROM
/// fixed in the lower half of the ROM area, a selectable bank in the upper
/// half, and 8 KiB of RAM, if the cartridge has any, behind an enable latch.
pub struct MBC1 {
    /// The ROM image.
    pub rom: Vec<u8>,
    /// The bank register.
    pub rom_bank: u8,
    /// The cartridge RAM.
    pub ram: [u8; 0x2000],
    /// The RAM enable latch.
    pub ram_enabled: bool,
    /// Whether the cartridge has RAM.
    pub has_ram: bool,
}

/// The offset of the cartridge type code in the image.
pub const TYPE_CODE_OFFSET: usize = 0x147;

/// The bank that a write of `value` to the bank register selects, on a ROM
/// of `banks` banks: the low five bits of the value, 1 in place of 0, and the
/// last bank in place of one that the ROM does not have.
pub open spec fn selected_bank(value: u8, banks: int) -> u8 {
    let low = value % 32;
    if low == 0 {
        1
    } else if low >= banks {
        (banks - 1) as u8
    } else {
        low
    }
}

impl MBC1 {
    /// The number of whole 16 KiB banks in the ROM image.
    pub open spec fn banks(self) -> int {
        self.rom@.len() as int / ROM_BANK_SIZE as int
    }

    /// The bank that is visible in the upper half of the ROM area: the
    /// content of the bank register, with 1 in place of 0.
    pub open spec fn visible_bank(self) -> int {
        if self.rom_bank == 0 {
            1
        } else {
            self.rom_bank as int
        }
    }

    /// Whether reads and writes reach the RAM.
    pub open spec fn ram_open(self) -> bool {
        self.has_ram && self.ram_enabled
    }

    /// Takes the ROM image, which must hold two banks at least. The type
    /// code in its header says whether the cartridge has RAM. The bank
    /// register starts at zero, the RAM cleared and disabled.
    pub fn new(rom: Vec<u8>) -> (mbc: MBC1)
        requires
            rom@.len() >= 2 * ROM_BANK_SIZE,
        ensures
            mbc.wf(),
            mbc.rom@ == rom@,
            mbc.rom_bank == 0,
            !mbc.ram_enabled,
            mbc.has_ram == (rom@[TYPE_CODE_OFFSET as int] == 0x02 || rom@[TYPE_CODE_OFFSET as int]
                == 0x03),
            forall|i: int| 0 <= i < 0x2000 ==> mbc.ram@[i] == 0,
    {
        let code = rom[TYPE_CODE_OFFSET];
        MBC1 {
            rom,
            rom_bank: 0,
            ram: [0u8;0x2000],
            ram_enabled: false,
            has_ram: code == 0x02 || code == 0x03,
        }
    }
}

impl MBC for MBC1 {
    open spec fn wf(&self) -> bool {
        &&& self.rom@.len() >= 2 * ROM_BANK_SIZE
        &&& self.rom_bank < 32
        &&& self.rom_bank < self.banks()
    }

    open spec fn read_model(&self, addr: u16) -> u8 {
        if addr < ROM_BANK_SIZE {
            self.rom@[addr as int]
        } else if in_rom(addr) {
            self.rom@[self.visible_bank() * ROM_BANK_SIZE + (addr - ROM_BANK_SIZE)]
        } else if self.ram_open() {
            self.ram@[addr - RAM_WINDOW_START]
        } else {
            0xFF
        }
    }

    open spec fn write_model(&self, addr: u16, value: u8) -> MBC1 {
        if addr < 0x2000 {
            MBC1 { ram_enabled: value % 16 == 0x0A, ..*self }
        } else if addr < 0x4000 {
            MBC1 {
                rom_bank: selected_bank(value, self.banks()),
                ..*self
            }
        } else if in_rom(addr) {
            *self
        } else if self.ram_open() {
            MBC1 {
                ram: vstd::array::spec_array_update(self.ram, addr - RAM_WINDOW_START, value),
                ..*self
            }
        } else {
            *self
        }
    }

    fn read_byte(&self, addr: u16) -> (value: u8) {
        if addr < 0x4000 {
            self.rom[addr as usize]
        } else if addr < 0x8000 {
            let bank: usize = if self.rom_bank == 0 { 1 } else { self.rom_bank as usize };
            self.rom[bank * ROM_BANK_SIZE + (addr as usize - ROM_BANK_SIZE)]
        } else if self.has_ram && self.ram_enabled {
            self.ram[addr as usize - RAM_WINDOW_START]
        } else {
            0xFF
        }
    }

    fn write_byte(&mut self, addr: u16, value: u8) {
        if addr < 0x2000 {
            self.ram_enabled = value % 16 == 0x0A;
        } else if addr < 0x4000 {
            let banks: usize = self.rom.len() / ROM_BANK_SIZE;
            let low: u8 = value % 32;
            self.rom_bank = if low == 0 {
                1
            } else if low as usize >= banks {
                (banks - 1) as u8
            } else {
                low
            };
        } else if addr < 0x8000 {
        } else if self.has_ram && self.ram_enabled {
            self.ram[addr as usize - RAM_WINDOW_START] = value;
        }
    }
}

/// What a write to an MBC1 cartridge does.
pub proof fn law_mbc1_write(mbc: MBC1, addr: u16, value: u8)
    requires
        mbc.wf(),
        crate::cartridge::is_cartridge_address(addr),
    ensures
        ({
            let after = mbc.write_model(addr, value);
            &&& after.rom == mbc.rom
            &&& after.has_ram == mbc.has_ram
            &&& after.ram_enabled == if addr < 0x2000 {
                value % 16 == 0x0A
            } else {
                mbc.ram_enabled
            }
            &&& after.rom_bank == if 0x2000 <= addr < 0x4000 {
                selected_bank(value, mbc.banks())
            } else {
                mbc.rom_bank
            }
            &&& after.ram@ == if addr >= RAM_WINDOW_START && mbc.ram_open() {
                mbc.ram@.update(addr - RAM_WINDOW_START, value)
            } else {
                mbc.ram@
            }
        }),
{
}

} // verus!
