pub mod joypad;
pub mod notice;
pub mod ppu;
pub mod timer;

use crate::bits::bit_is_set;
use crate::cartridge::{in_rom, is_cartridge_address, Cartridge, CartridgeError, Controller};
use crate::cpu::alu::test_bit;
use joypad::Joypad;
use notice::{Notice, Notices};
use ppu::{in_oam, in_registers, in_vram, PPU};
use timer::Timer;
use vstd::array::spec_array_update;
use vstd::prelude::*;

verus! {

/// The address of the interrupt flag register, IF.
pub const INTERRUPT_FLAGS: u16 = 0xFF0F;

/// The address of the register that starts a transfer into object memory.
pub const DMA: u16 = 0xFF46;

/// The address of the boot overlay latch.
pub const BOOT_LATCH: u16 = 0xFF50;

/// The address of the interrupt enable register, IE.
pub const INTERRUPT_ENABLE: u16 = 0xFFFF;

/// The bytes that a transfer into object memory copies.
pub const DMA_LENGTH: u16 = 0xA0;

/// The memory map unit: every device behind the 16-bit address bus.
pub struct MMU {
    /// Set while the boot program overlays the first 256 bytes of the
    /// cartridge.
    pub boot_rom_enabled: bool,
    /// The boot program.
    pub boot_rom: [u8; 256],
    pub cartridge: Cartridge,
    /// Work RAM, at 0xC000 to 0xDFFF.
    pub wram: [u8; 0x2000],
    /// High RAM, at 0xFF80 to 0xFFFE.
    pub hram: [u8; 0x7F],
    pub joypad: Joypad,
    pub ppu: PPU,
    pub timer: Timer,
    /// The interrupt enable register.
    pub ie: u8,
    /// What the host is to log, each kind once.
    pub notices: Notices,
}

/// Whether an address lies in work RAM.
pub open spec fn in_wram(addr: u16) -> bool {
    0xC000 <= addr <= 0xDFFF
}

/// Whether an address lies in the mirror of work RAM, which no program in
/// scope may touch.
pub open spec fn in_echo(addr: u16) -> bool {
    0xE000 <= addr <= 0xFDFF
}

/// Whether an address lies in the unused gap behind object memory.
pub open spec fn in_gap(addr: u16) -> bool {
    0xFEA0 <= addr <= 0xFEFF
}

/// Whether an address is one of the two serial port registers.
pub open spec fn in_serial(addr: u16) -> bool {
    0xFF01 <= addr <= 0xFF02
}

/// Whether an address is one of the timer's registers.
pub open spec fn in_timer(addr: u16) -> bool {
    0xFF04 <= addr <= 0xFF07
}

/// Whether an address is one of the sound registers.
pub open spec fn in_sound(addr: u16) -> bool {
    0xFF10 <= addr <= 0xFF3F
}

/// Whether an address lies in high RAM.
pub open spec fn in_hram(addr: u16) -> bool {
    0xFF80 <= addr <= 0xFFFE
}

/// Whether an address lies in the I/O page and has no device behind it.
pub open spec fn is_reserved(addr: u16) -> bool {
    ||| addr == 0xFF03
    ||| 0xFF08 <= addr <= 0xFF0E
    ||| 0xFF4C <= addr <= 0xFF4F
    ||| 0xFF51 <= addr <= 0xFF7F
}

/// Whether the bus serves an address. It serves none in the mirror of work
/// RAM and none that is reserved.
pub open spec fn is_mapped(addr: u16) -> bool {
    !in_echo(addr) && !is_reserved(addr)
}

/// Whether a transfer into object memory may start at a page: all 160
/// source addresses must be mapped.
pub open spec fn dma_page_ok(page: u8) -> bool {
    page <= 0xDF || page == 0xFE
}

/// Whether a read of an address is served.
pub open spec fn readable(addr: u16) -> bool {
    is_mapped(addr)
}

/// Whether a write of a value to an address is served.
pub open spec fn writable(addr: u16, value: u8) -> bool {
    is_mapped(addr) && (addr == DMA ==> dma_page_ok(value))
}

impl MMU {
    /// Whether the cartridge's controller fits its ROM image.
    pub open spec fn wf(self) -> bool {
        self.cartridge.wf()
    }

    /// The interrupt flag register: a view of the four interrupt latches of
    /// the devices. Bit 0 is the vertical blank, bit 1 the LCD status, bit 2
    /// the timer and bit 4 the joypad; bit 3, the serial port's, is never
    /// set.
    pub open spec fn interrupt_flags(self) -> u8 {
        ((if self.ppu.vblank_irq {
            1int
        } else {
            0
        }) + (if self.ppu.stat_irq {
            2int
        } else {
            0
        }) + (if self.timer.timer_irq {
            4int
        } else {
            0
        }) + (if self.joypad.joypad_irq {
            16int
        } else {
            0
        })) as u8
    }

    /// The bus after a write to the interrupt flag register: each latch
    /// takes its bit of the value.
    pub open spec fn with_interrupt_flags(self, value: u8) -> MMU {
        MMU {
            ppu: PPU {
                vblank_irq: bit_is_set(value, 0),
                stat_irq: bit_is_set(value, 1),
                ..self.ppu
            },
            timer: Timer { timer_irq: bit_is_set(value, 2), ..self.timer },
            joypad: Joypad { joypad_irq: bit_is_set(value, 4), ..self.joypad },
            ..self
        }
    }

    /// The byte that a read returns. At an address that is not served the
    /// model says 0xFF.
    pub open spec fn read_model(self, addr: u16) -> u8 {
        if addr <= 0xFF && self.boot_rom_enabled {
            self.boot_rom@[addr as int]
        } else if is_cartridge_address(addr) {
            self.cartridge.read_model(addr)
        } else if in_vram(addr) || in_oam(addr) || in_registers(addr) {
            self.ppu.read_model(addr)
        } else if in_wram(addr) {
            self.wram@[addr - 0xC000]
        } else if addr == joypad::JOYPAD {
            self.joypad.read_model()
        } else if in_timer(addr) {
            self.timer.read_model(addr)
        } else if addr == INTERRUPT_FLAGS {
            self.interrupt_flags()
        } else if in_sound(addr) {
            0
        } else if addr == BOOT_LATCH {
            if self.boot_rom_enabled {
                1
            } else {
                0
            }
        } else if in_hram(addr) {
            self.hram@[addr - 0xFF80]
        } else if addr == INTERRUPT_ENABLE {
            self.ie
        } else {
            0xFF
        }
    }

    /// Object memory after the first `upto` bytes of a transfer from a page
    /// have arrived. The source is read as it was before the transfer.
    pub open spec fn dma_block(self, page: u8, upto: int) -> [u8; 0xA0]
        decreases upto,
    {
        if upto <= 0 {
            self.ppu.voam
        } else {
            spec_array_update(
                self.dma_block(page, upto - 1),
                upto - 1,
                self.read_model((page as int * 256 + upto - 1) as u16),
            )
        }
    }

    /// The bus after a transfer into object memory from a page: the 160
    /// bytes from the start of the page are copied, all at once.
    pub open spec fn dma_model(self, page: u8) -> MMU {
        MMU {
            ppu: PPU { voam: self.dma_block(page, DMA_LENGTH as int), dma: page, ..self.ppu },
            ..self
        }
    }

    /// The notice that a write is worth, if it is worth one: a write to the
    /// ROM of a cartridge without a controller, a write to the bank register
    /// that names a bank beyond the ROM, and a write to LY, which can only
    /// be read.
    pub open spec fn notice_of(self, addr: u16, value: u8) -> Option<Notice> {
        if in_rom(addr) {
            match self.cartridge.mbc {
                Controller::Plain(_) => Some(Notice::RomWriteIgnored),
                Controller::Banked(mbc) => if 0x2000 <= addr < 0x4000 && value % 32 >= mbc.banks() {
                    Some(Notice::BankClamped)
                } else {
                    None
                },
            }
        } else if addr == ppu::LY {
            Some(Notice::ReadOnlyRegister)
        } else {
            None
        }
    }

    /// The bus after a write: the devices as `routed` says, and the notice
    /// that the write is worth recorded.
    pub open spec fn write_model(self, addr: u16, value: u8) -> MMU {
        MMU {
            notices: self.notices.with(self.notice_of(addr, value)),
            ..self.routed(addr, value)
        }
    }

    /// The devices after a write. At an address that is not served, and
    /// where writes are ignored, they are unchanged.
    pub open spec fn routed(self, addr: u16, value: u8) -> MMU {
        if is_cartridge_address(addr) {
            MMU { cartridge: self.cartridge.write_model(addr, value), ..self }
        } else if addr == DMA {
            self.dma_model(value)
        } else if in_vram(addr) || in_oam(addr) || in_registers(addr) {
            MMU { ppu: self.ppu.write_model(addr, value), ..self }
        } else if in_wram(addr) {
            MMU { wram: spec_array_update(self.wram, addr - 0xC000, value), ..self }
        } else if addr == joypad::JOYPAD {
            MMU { joypad: self.joypad.write_model(value), ..self }
        } else if in_timer(addr) {
            MMU { timer: self.timer.write_model(addr, value), ..self }
        } else if addr == INTERRUPT_FLAGS {
            self.with_interrupt_flags(value)
        } else if addr == BOOT_LATCH {
            MMU { boot_rom_enabled: self.boot_rom_enabled && value == 0, ..self }
        } else if in_hram(addr) {
            MMU { hram: spec_array_update(self.hram, addr - 0xFF80, value), ..self }
        } else if addr == INTERRUPT_ENABLE {
            MMU { ie: value, ..self }
        } else {
            self
        }
    }

    /// Whether the bus is as it is at power-on, around a cartridge image and
    /// a boot program: the boot program overlays the cartridge; every device
    /// is as it is at power-on; RAM is cleared; no interrupt is enabled and
    /// no notice pending.
    pub open spec fn at_power_on(self, rom: Seq<u8>, boot_rom: [u8; 256]) -> bool {
        &&& self.wf()
        &&& self.cartridge.is_fresh(rom)
        &&& self.boot_rom_enabled
        &&& self.boot_rom == boot_rom
        &&& self.ie == 0
        &&& self.notices == Notices::quiet()
        &&& self.joypad == Joypad::power_on()
        &&& self.timer == Timer::power_on()
        &&& self.ppu.at_power_on()
        &&& forall|i: int| 0 <= i < 0x2000 ==> self.wram@[i] == 0
        &&& forall|i: int| 0 <= i < 0x7F ==> self.hram@[i] == 0
    }

    /// Builds the bus around a cartridge image and a boot program. The
    /// image is refused as `Cartridge::new` refuses it. The boot program
    /// overlays the cartridge; RAM is cleared; no interrupt is enabled.
    pub fn new(rom: Vec<u8>, boot_rom: [u8; 256]) -> (mmu: Result<MMU, CartridgeError>)
        ensures
            match mmu {
                Ok(m) => crate::cartridge::image_fault(rom@) is None && m.at_power_on(
                    rom@,
                    boot_rom,
                ),
                Err(e) => crate::cartridge::image_fault(rom@) == Some(e),
            },
    {
        let cartridge = match Cartridge::new(rom) {
            Ok(cartridge) => cartridge,
            Err(e) => {
                return Err(e);
            },
        };
        Ok(
            MMU {
                boot_rom_enabled: true,
                boot_rom,
                cartridge,
                wram: [0u8;0x2000],
                hram: [0u8;0x7F],
                joypad: Joypad::new(),
                ppu: PPU::new(),
                timer: Timer::new(),
                ie: 0,
                notices: Notices::new(),
            },
        )
    }

    /// Whether a read of an address is served.
    pub fn can_read(addr: u16) -> (served: bool)
        ensures
            served == readable(addr),
    {
        !(0xE000 <= addr && addr <= 0xFDFF) && !(addr == 0xFF03 || (0xFF08 <= addr && addr
            <= 0xFF0E) || (0xFF4C <= addr && addr <= 0xFF4F) || (0xFF51 <= addr && addr <= 0xFF7F))
    }

    /// Whether a write of a value to an address is served.
    pub fn can_write(addr: u16, value: u8) -> (served: bool)
        ensures
            served == writable(addr, value),
    {
        MMU::can_read(addr) && (addr != 0xFF46 || value <= 0xDF || value == 0xFE)
    }

    /// The interrupt flag register.
    pub fn get_interrupt_flags(&self) -> (flags: u8)
        ensures
            flags == self.interrupt_flags(),
            flags < 0x20,
    {
        let mut flags: u8 = 0;
        if self.ppu.vblank_irq {
            flags = flags + 1;
        }
        if self.ppu.stat_irq {
            flags = flags + 2;
        }
        if self.timer.timer_irq {
            flags = flags + 4;
        }
        if self.joypad.joypad_irq {
            flags = flags + 16;
        }
        flags
    }

    /// Sets each interrupt latch to its bit of `value`.
    pub fn set_interrupt_flags(&mut self, value: u8)
        ensures
            *final(self) == old(self).with_interrupt_flags(value),
    {
        self.ppu.vblank_irq = test_bit(value, 0);
        self.ppu.stat_irq = test_bit(value, 1);
        self.timer.timer_irq = test_bit(value, 2);
        self.joypad.joypad_irq = test_bit(value, 4);
    }

    pub fn read_byte(&self, addr: u16) -> (value: u8)
        requires
            self.wf(),
            readable(addr),
        ensures
            value == self.read_model(addr),
    {
        match addr {
            0x0000..=0x00FF => {
                if self.boot_rom_enabled {
                    self.boot_rom[addr as usize]
                } else {
                    self.cartridge.read_byte(addr)
                }
            },
            0x0100..=0x7FFF => self.cartridge.read_byte(addr),
            0x8000..=0x9FFF => self.ppu.get_byte(addr),
            0xA000..=0xBFFF => self.cartridge.read_byte(addr),
            0xC000..=0xDFFF => self.wram[(addr - 0xC000) as usize],
            0xFE00..=0xFE9F => self.ppu.get_byte(addr),
            0xFEA0..=0xFEFF => 0xFF,
            0xFF00 => self.joypad.read_byte(addr),
            0xFF01..=0xFF02 => 0xFF,
            0xFF04..=0xFF07 => self.timer.read_byte(addr),
            0xFF0F => self.get_interrupt_flags(),
            0xFF10..=0xFF3F => 0,
            0xFF40..=0xFF4B => self.ppu.get_byte(addr),
            0xFF50 => if self.boot_rom_enabled { 1 } else { 0 },
            0xFF80..=0xFFFE => self.hram[(addr - 0xFF80) as usize],
            0xFFFF => self.ie,
            _ => 0xFF,
        }
    }

    /// Copies the 160 bytes from the start of a page into object memory.
    pub fn dma_transfer(&mut self, page: u8)
        requires
            old(self).wf(),
            dma_page_ok(page),
        ensures
            *final(self) == old(self).dma_model(page),
    {
        let source: u16 = page as u16 * 256;
        let mut block = self.ppu.voam;
        let mut offset: u16 = 0;
        while offset < 0xA0
            invariant
                offset <= 0xA0,
                *self == *old(self),
                self.wf(),
                dma_page_ok(page),
                source == page * 256,
                block == self.dma_block(page, offset as int),
            decreases 0xA0 - offset,
        {
            block[offset as usize] = self.read_byte(source + offset);
            offset += 1;
        }
        self.ppu.voam = block;
        self.ppu.dma = page;
    }

    /// The notice that a write is worth, if it is worth one.
    pub fn notice_for(&self, addr: u16, value: u8) -> (notice: Option<Notice>)
        ensures
            notice == self.notice_of(addr, value),
    {
        if addr < 0x8000 {
            match &self.cartridge.mbc {
                Controller::Plain(_) => Some(Notice::RomWriteIgnored),
                Controller::Banked(mbc) => {
                    if 0x2000 <= addr && addr < 0x4000 && (value % 32) as usize >= mbc.rom.len()
                        / crate::cartridge::ROM_BANK_SIZE {
                        Some(Notice::BankClamped)
                    } else {
                        None
                    }
                },
            }
        } else if addr == ppu::LY {
            Some(Notice::ReadOnlyRegister)
        } else {
            None
        }
    }

    /// Hands out the kinds of notice that have occurred since the host last
    /// asked, each kind once in a session.
    pub fn take_notices(&mut self) -> (kinds: Vec<Notice>)
        ensures
            kinds@ == old(self).notices.pending(),
            *final(self) == (MMU { notices: old(self).notices.told(), ..*old(self) }),
    {
        self.notices.take()
    }

    pub fn write_byte(&mut self, addr: u16, value: u8)
        requires
            old(self).wf(),
            writable(addr, value),
        ensures
            *final(self) == old(self).write_model(addr, value),
            final(self).wf(),
    {
        match self.notice_for(addr, value) {
            Some(kind) => self.notices.raise(kind),
            None => {},
        }
        self.route(addr, value);
    }

    /// Routes a write to its device.
    pub fn route(&mut self, addr: u16, value: u8)
        requires
            old(self).wf(),
            writable(addr, value),
        ensures
            *final(self) == old(self).routed(addr, value),
            final(self).wf(),
    {
        match addr {
            0x0000..=0x7FFF => self.cartridge.write_byte(addr, value),
            0x8000..=0x9FFF => self.ppu.set_byte(addr, value),
            0xA000..=0xBFFF => self.cartridge.write_byte(addr, value),
            0xC000..=0xDFFF => self.wram[(addr - 0xC000) as usize] = value,
            0xFE00..=0xFE9F => self.ppu.set_byte(addr, value),
            0xFEA0..=0xFEFF => {},
            0xFF00 => self.joypad.write_byte(addr, value),
            0xFF01..=0xFF02 => {},
            0xFF04..=0xFF07 => self.timer.write_byte(addr, value),
            0xFF0F => self.set_interrupt_flags(value),
            0xFF10..=0xFF3F => {},
            0xFF46 => self.dma_transfer(value),
            0xFF40..=0xFF4B => self.ppu.set_byte(addr, value),
            0xFF50 => {
                if value != 0 {
                    self.boot_rom_enabled = false;
                }
            },
            0xFF80..=0xFFFE => self.hram[(addr - 0xFF80) as usize] = value,
            0xFFFF => self.ie = value,
            _ => {},
        }
    }
}

} // verus!
