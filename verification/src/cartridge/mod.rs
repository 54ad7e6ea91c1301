pub mod header;
pub mod mbc0;
pub mod mbc1;

use header::{CartridgeHeader, CartridgeType, HEADER_END, HEADER_START};
use mbc0::MBC0;
use mbc1::MBC1;
use vstd::prelude::*;

verus! {

/// The size of one ROM bank: 16 KiB.
pub const ROM_BANK_SIZE: usize = 0x4000;

/// The first address of the window onto the cartridge's RAM.
pub const RAM_WINDOW_START: usize = 0xA000;

/// Whether an address lies in the cartridge ROM area, 0x0000 to 0x7FFF.
pub open spec fn in_rom(addr: u16) -> bool {
    addr < 0x8000
}

/// Whether an address lies in the window onto the cartridge RAM, 0xA000 to
/// 0xBFFF.
pub open spec fn in_cartridge_ram(addr: u16) -> bool {
    0xA000 <= addr <= 0xBFFF
}

/// Whether an address is the cartridge's to serve.
pub open spec fn is_cartridge_address(addr: u16) -> bool {
    in_rom(addr) || in_cartridge_ram(addr)
}

/// A bank controller: what stands between the address bus and the
/// cartridge's ROM and RAM.
pub trait MBC: Sized {
    /// Whether the controller's state fits its ROM image.
    spec fn wf(&self) -> bool;

    /// The byte that a read returns.
    spec fn read_model(&self, addr: u16) -> u8;

    /// The controller after a write.
    spec fn write_model(&self, addr: u16, value: u8) -> Self;

    fn read_byte(&self, addr: u16) -> (value: u8)
        requires
            self.wf(),
            is_cartridge_address(addr),
        ensures
            value == self.read_model(addr),
    ;

    fn write_byte(&mut self, addr: u16, value: u8)
        requires
            old(self).wf(),
            is_cartridge_address(addr),
        ensures
            *final(self) == old(self).write_model(addr, value),
            final(self).wf(),
    ;
}

/// The controllers a cartridge can have.
pub enum Controller {
    Plain(MBC0),
    Banked(MBC1),
}

/// Why a cartridge image was refused.
#[derive(Clone, Copy, Debug, PartialEq, Eq, Structural)]
pub enum CartridgeError {
    /// The image ends before the header does, or holds less than the 32 KiB
    /// that every cartridge maps.
    ImageTooShort,
    /// The header names a controller that is not known. Holds the type code.
    UnknownType(u8),
}

/// A cartridge: its header and its bank controller.
pub struct Cartridge {
    pub header: CartridgeHeader,
    pub mbc: Controller,
}

/// The verdict on a cartridge image: the reason to refuse it, if there is
/// one.
pub open spec fn image_fault(rom: Seq<u8>) -> Option<CartridgeError> {
    if rom.len() < 2 * ROM_BANK_SIZE {
        Some(CartridgeError::ImageTooShort)
    } else if rom[mbc1::TYPE_CODE_OFFSET as int] > 0x03 {
        Some(CartridgeError::UnknownType(rom[mbc1::TYPE_CODE_OFFSET as int]))
    } else {
        None
    }
}

impl Cartridge {
    /// Whether the controller's state fits its ROM image.
    pub open spec fn wf(self) -> bool {
        match self.mbc {
            Controller::Plain(mbc) => mbc.wf(),
            Controller::Banked(mbc) => mbc.wf(),
        }
    }

    /// The ROM image.
    pub open spec fn rom(self) -> Seq<u8> {
        match self.mbc {
            Controller::Plain(mbc) => mbc.rom@,
            Controller::Banked(mbc) => mbc.rom@,
        }
    }

    /// The byte that a read returns.
    pub open spec fn read_model(self, addr: u16) -> u8 {
        match self.mbc {
            Controller::Plain(mbc) => mbc.read_model(addr),
            Controller::Banked(mbc) => mbc.read_model(addr),
        }
    }

    /// The cartridge after a write.
    pub open spec fn write_model(self, addr: u16, value: u8) -> Cartridge {
        match self.mbc {
            Controller::Plain(mbc) => Cartridge {
                mbc: Controller::Plain(mbc.write_model(addr, value)),
                ..self
            },
            Controller::Banked(mbc) => Cartridge {
                mbc: Controller::Banked(mbc.write_model(addr, value)),
                ..self
            },
        }
    }

    /// Whether the cartridge is as it is built for an image: the header is
    /// the image's; type code 0 gives a cartridge without a controller, any
    /// other one with a bank controller, whose bank register is zero and
    /// whose RAM, which it has for the type codes 2 and 3, is cleared and
    /// disabled.
    pub open spec fn is_fresh(self, rom: Seq<u8>) -> bool {
        &&& self.wf()
        &&& self.rom() == rom
        &&& self.header@ == rom.subrange(HEADER_START as int, HEADER_END as int)
        &&& self.mbc is Plain <==> rom[mbc1::TYPE_CODE_OFFSET as int] == 0
        &&& self.mbc matches Controller::Banked(mbc) ==> mbc.rom_bank == 0 && !mbc.ram_enabled && (
        mbc.has_ram <==> rom[mbc1::TYPE_CODE_OFFSET as int] >= 2) && (forall|i: int|
            0 <= i < 0x2000 ==> mbc.ram@[i] == 0)
    }

    /// Builds the cartridge for an image. The image is refused when it is
    /// shorter than 32 KiB and when its header names a controller that is
    /// not known. Type code 0 gives a cartridge without a controller, the
    /// codes 1 to 3 one with a bank controller.
    pub fn new(rom: Vec<u8>) -> (cartridge: Result<Cartridge, CartridgeError>)
        ensures
            match cartridge {
                Ok(c) => image_fault(rom@) is None && c.is_fresh(rom@),
                Err(e) => image_fault(rom@) == Some(e),
            },
    {
        if rom.len() < 2 * ROM_BANK_SIZE {
            return Err(CartridgeError::ImageTooShort);
        }
        let header = match CartridgeHeader::new(rom.as_slice()) {
            Ok(header) => header,
            Err(_) => {
                return Err(CartridgeError::ImageTooShort);
            },
        };
        if !header.has_known_type() {
            return Err(CartridgeError::UnknownType(header.byte_at(mbc1::TYPE_CODE_OFFSET)));
        }
        let mbc = match header.cartridge_type() {
            CartridgeType::RomOnly => Controller::Plain(MBC0::new(rom)),
            _ => Controller::Banked(MBC1::new(rom)),
        };
        Ok(Cartridge { header, mbc })
    }

    pub fn read_byte(&self, addr: u16) -> (value: u8)
        requires
            self.wf(),
            is_cartridge_address(addr),
        ensures
            value == self.read_model(addr),
    {
        match &self.mbc {
            Controller::Plain(mbc) => mbc.read_byte(addr),
            Controller::Banked(mbc) => mbc.read_byte(addr),
        }
    }

    pub fn write_byte(&mut self, addr: u16, value: u8)
        requires
            old(self).wf(),
            is_cartridge_address(addr),
        ensures
            *final(self) == old(self).write_model(addr, value),
            final(self).wf(),
    {
        match &mut self.mbc {
            Controller::Plain(mbc) => mbc.write_byte(addr, value),
            Controller::Banked(mbc) => mbc.write_byte(addr, value),
        }
    }
}

} // verus!
