use dmg_emu::cartridge::header::{CartridgeHeader, CartridgeType};
use dmg_emu::cartridge::mbc0::MBC0;
use dmg_emu::cartridge::mbc1::MBC1;
use dmg_emu::cartridge::{Cartridge, CartridgeError, MBC};
use dmg_emu::debugger::{
    disable_debug, enable_debug, enable_gameboy_doctor, is_debug_enabled, is_gameboy_doctor,
    on_break, BreakAction, DebugFlags,
};
use dmg_emu::mmu::joypad::{Button, Joypad, Key};
use dmg_emu::mmu::notice::{Mark, Notice, Notices};
use dmg_emu::mmu::ppu::{Layer, BLACK, DARK_GREY, LIGHT_GREY, PPU, WHITE};
use dmg_emu::mmu::timer::Timer;
use dmg_emu::mmu::MMU;

fn banked_image(banks: usize, kind: u8) -> Vec<u8> {
    let mut rom = vec![0u8; banks * 0x4000];
    for bank in 0..banks {
        for offset in 0..0x4000 {
            rom[bank * 0x4000 + offset] = bank as u8;
        }
    }
    rom[0x147] = kind;
    rom
}

fn bus() -> MMU {
    let mut mmu = MMU::new(vec![0u8; 0x8000], [0u8; 256]).unwrap();
    mmu.write_byte(0xFF50, 1);
    mmu
}

// Cartridge header

fn header_image(title: &[u8]) -> Vec<u8> {
    let mut rom = vec![0u8; 0x150];
    rom[0x134..0x134 + title.len()].copy_from_slice(title);
    rom
}

fn with_checksum(mut rom: Vec<u8>) -> Vec<u8> {
    let mut sum: u8 = 0;
    for offset in 0x134..=0x14C {
        sum = sum.wrapping_sub(rom[offset]).wrapping_sub(1);
    }
    rom[0x14D] = sum;
    rom
}

#[test]
fn header_needs_the_whole_header() {
    assert_eq!(
        CartridgeHeader::new(&vec![0u8; 0x14F]).err(),
        Some("Data is too short for a valid GBC header")
    );
    assert!(CartridgeHeader::new(&vec![0u8; 0x150]).is_ok());
    assert!(CartridgeHeader::new(&[]).is_err());
}

#[test]
fn header_title_is_trimmed_of_padding() {
    let header = CartridgeHeader::new(&header_image(b"TETRIS")).unwrap();
    assert_eq!(header.title(), "TETRIS");
    let header = CartridgeHeader::new(&header_image(b"SIXTEEN LETTERS!")).unwrap();
    assert_eq!(header.title(), "SIXTEEN LETTERS!");
    let header = CartridgeHeader::new(&header_image(b"")).unwrap();
    assert_eq!(header.title(), "");
    let header = CartridgeHeader::new(&header_image(b"A\0B")).unwrap();
    assert_eq!(header.title(), "A\0B");
}

#[test]
fn header_title_with_bytes_that_are_no_text() {
    let header = CartridgeHeader::new(&header_image(&[b'A', 0xFF, b'B'])).unwrap();
    assert_eq!(header.title(), "A\u{FFFD}B");
}

#[test]
fn header_fields() {
    let mut rom = header_image(b"GAME");
    rom[0x147] = 0x01;
    rom[0x148] = 0x05;
    rom[0x149] = 0x03;
    let header = CartridgeHeader::new(&rom).unwrap();
    assert!(header.has_known_type());
    assert_eq!(header.cartridge_type(), CartridgeType::Mbc1);
    assert_eq!(header.cartridge_type_name(), "MBC1");
    assert_eq!(header.rom_size_str(), "1024 Kib");
    assert_eq!(header.ram_size_str(), "32 KiB");
    assert_eq!(header.byte_at(0x134), b'G');
}

#[test]
fn header_names_for_every_code() {
    let names = [
        (0x00u8, "ROM ONLY"),
        (0x01, "MBC1"),
        (0x02, "MBC1+RAM"),
        (0x03, "MBC1+RAM+BATTERY"),
        (0x10, "MBC3+TIMER+RAM+BATTERY"),
        (0x04, "Unknown"),
        (0xFF, "Unknown"),
    ];
    for (code, name) in names {
        let mut rom = header_image(b"");
        rom[0x147] = code;
        let header = CartridgeHeader::new(&rom).unwrap();
        assert_eq!(header.cartridge_type_name(), name);
        assert_eq!(header.has_known_type(), code <= 3);
    }
    let sizes = [
        (0x00u8, "No RAM"),
        (0x01, "Unknown"),
        (0x02, "8 KiB"),
        (0x03, "32 KiB"),
        (0x04, "128 KiB"),
        (0x05, "64 KiB"),
        (0x06, "Unknown"),
    ];
    for (code, name) in sizes {
        let mut rom = header_image(b"");
        rom[0x149] = code;
        assert_eq!(CartridgeHeader::new(&rom).unwrap().ram_size_str(), name);
    }
    let kinds = [
        (0u8, CartridgeType::RomOnly),
        (1, CartridgeType::Mbc1),
        (2, CartridgeType::Mbc1Ram),
        (3, CartridgeType::Mbc1RamBattery),
    ];
    for (code, kind) in kinds {
        let mut rom = header_image(b"");
        rom[0x147] = code;
        assert_eq!(CartridgeHeader::new(&rom).unwrap().cartridge_type(), kind);
    }
}

#[test]
fn header_rom_sizes() {
    let expected = [(0u8, "32 Kib"), (1, "64 Kib"), (2, "128 Kib"), (8, "8192 Kib"), (26, "2147483648 Kib")];
    for (code, text) in expected {
        let mut rom = header_image(b"");
        rom[0x148] = code;
        assert_eq!(CartridgeHeader::new(&rom).unwrap().rom_size_str(), text);
    }
}

#[test]
fn header_checksum_matches_the_documented_fold() {
    let fixtures: [&[u8]; 4] = [b"TETRIS", b"SUPER MARIOLAND", b"", b"\xFF\xFF\xFF\xFF"];
    for (index, title) in fixtures.iter().enumerate() {
        let mut rom = header_image(title);
        rom[0x147] = (index % 4) as u8;
        rom[0x148] = index as u8;
        rom[0x14B] = 0x33;
        let rom = with_checksum(rom);
        let header = CartridgeHeader::new(&rom).unwrap();
        assert!(header.validate_header_checksum());
        let mut broken = rom.clone();
        broken[0x14D] = broken[0x14D].wrapping_add(1);
        assert!(!CartridgeHeader::new(&broken).unwrap().validate_header_checksum());
        let mut changed = rom.clone();
        changed[0x140] ^= 0x55;
        assert!(!CartridgeHeader::new(&changed).unwrap().validate_header_checksum());
    }
}

#[test]
fn header_checksum_of_an_empty_header() {
    // 25 zero bytes fold to -25, which is 0xE7 modulo 256.
    let mut rom = header_image(b"");
    rom[0x14D] = 0xE7;
    assert!(CartridgeHeader::new(&rom).unwrap().validate_header_checksum());
    // The byte at 0x14D itself is not covered.
    rom[0x14E] = 0x12;
    assert!(CartridgeHeader::new(&rom).unwrap().validate_header_checksum());
}

// Cartridges

#[test]
fn plain_cartridge_reads_the_image_and_ignores_writes() {
    let mut rom = vec![0u8; 0x8000];
    rom[0x0000] = 0x11;
    rom[0x4000] = 0x22;
    rom[0x7FFF] = 0x33;
    let mut mbc = MBC0::new(rom.clone());
    assert_eq!(mbc.read_byte(0x0000), 0x11);
    assert_eq!(mbc.read_byte(0x4000), 0x22);
    assert_eq!(mbc.read_byte(0x7FFF), 0x33);
    assert_eq!(mbc.read_byte(0xA000), 0xFF);
    mbc.write_byte(0x2000, 0x05);
    mbc.write_byte(0x0000, 0x99);
    mbc.write_byte(0xA000, 0x99);
    assert_eq!(mbc.read_byte(0x0000), 0x11);
    assert_eq!(mbc.read_byte(0x4000), 0x22);
    assert_eq!(mbc.read_byte(0xA000), 0xFF);
    let mut cartridge = Cartridge::new(rom).unwrap();
    cartridge.write_byte(0x2000, 0x05);
    assert_eq!(cartridge.read_byte(0x4000), 0x22);
}

#[test]
fn banked_cartridge_switches_banks() {
    let mut mbc = MBC1::new(banked_image(8, 0x01));
    assert_eq!(mbc.read_byte(0x0000), 0);
    assert_eq!(mbc.read_byte(0x3FFF), 0);
    // bank register 0 shows bank 1
    assert_eq!(mbc.read_byte(0x4000), 1);
    assert_eq!(mbc.read_byte(0x7FFF), 1);
    mbc.write_byte(0x2000, 0x03);
    assert_eq!(mbc.read_byte(0x4000), 3);
    assert_eq!(mbc.read_byte(0x0000), 0);
    mbc.write_byte(0x3FFF, 0x00);
    assert_eq!(mbc.read_byte(0x4000), 1);
    // only five bits count
    mbc.write_byte(0x2000, 0xE5);
    assert_eq!(mbc.read_byte(0x4000), 5);
    mbc.write_byte(0x2000, 0x20);
    assert_eq!(mbc.read_byte(0x4000), 1);
    // a bank that the image lacks is the last bank
    mbc.write_byte(0x2000, 0x1F);
    assert_eq!(mbc.read_byte(0x4000), 7);
    // the registers above are not there
    mbc.write_byte(0x4000, 0x01);
    mbc.write_byte(0x6000, 0x01);
    assert_eq!(mbc.read_byte(0x4000), 7);
}

#[test]
fn banked_cartridge_ram_is_gated() {
    let mut mbc = MBC1::new(banked_image(2, 0x03));
    assert_eq!(mbc.read_byte(0xA000), 0xFF);
    mbc.write_byte(0xA000, 0x12);
    assert_eq!(mbc.read_byte(0xA000), 0xFF);
    mbc.write_byte(0x0000, 0x0A);
    assert_eq!(mbc.read_byte(0xA000), 0x00);
    mbc.write_byte(0xA000, 0x12);
    mbc.write_byte(0xBFFF, 0x34);
    assert_eq!(mbc.read_byte(0xA000), 0x12);
    assert_eq!(mbc.read_byte(0xBFFF), 0x34);
    // only the low nibble of the enable value counts
    mbc.write_byte(0x1FFF, 0xFA);
    assert_eq!(mbc.read_byte(0xA000), 0x12);
    mbc.write_byte(0x0000, 0x0B);
    assert_eq!(mbc.read_byte(0xA000), 0xFF);
    mbc.write_byte(0xA000, 0x99);
    mbc.write_byte(0x0000, 0x0A);
    assert_eq!(mbc.read_byte(0xA000), 0x12);
}

#[test]
fn banked_cartridge_without_ram() {
    let mut mbc = MBC1::new(banked_image(2, 0x01));
    mbc.write_byte(0x0000, 0x0A);
    mbc.write_byte(0xA000, 0x12);
    assert_eq!(mbc.read_byte(0xA000), 0xFF);
}

#[test]
fn cartridge_is_built_from_the_type_code() {
    for kind in 0..=3u8 {
        let mut cartridge = Cartridge::new(banked_image(4, kind)).unwrap();
        cartridge.write_byte(0x2000, 0x02);
        assert_eq!(cartridge.read_byte(0x4000), if kind == 0 { 1 } else { 2 });
    }
    assert!(matches!(Cartridge::new(banked_image(4, 0x04)), Err(CartridgeError::UnknownType(0x04))));
    assert!(matches!(Cartridge::new(vec![0u8; 0x4000]), Err(CartridgeError::ImageTooShort)));
    assert!(matches!(Cartridge::new(Vec::new()), Err(CartridgeError::ImageTooShort)));
}

// Timer

#[test]
fn timer_at_power_on() {
    let timer = Timer::new();
    assert_eq!(timer.read_byte(0xFF04), 0);
    assert_eq!(timer.read_byte(0xFF05), 0);
    assert_eq!(timer.read_byte(0xFF06), 0);
    assert_eq!(timer.read_byte(0xFF07), 0xFB);
    assert!(!timer.timer_irq);
}

#[test]
fn divider_counts_once_in_256_ticks() {
    let mut timer = Timer::new();
    for _ in 0..63 {
        timer.do_cycles(4);
    }
    assert_eq!(timer.read_byte(0xFF04), 0);
    timer.do_cycles(4);
    assert_eq!(timer.read_byte(0xFF04), 1);
    for _ in 0..255 {
        timer.do_cycles(255);
    }
    // 256 + 255 * 255 ticks in all
    assert_eq!(timer.read_byte(0xFF04), ((256 + 255 * 255) / 256 % 256) as u8);
    timer.write_byte(0xFF04, 0x55);
    assert_eq!(timer.read_byte(0xFF04), 0);
    timer.do_cycles(255);
    assert_eq!(timer.read_byte(0xFF04), 0);
    timer.do_cycles(1);
    assert_eq!(timer.read_byte(0xFF04), 1);
}

#[test]
fn tima_rates() {
    for (rate, period) in [(0u8, 1024u32), (1, 16), (2, 64), (3, 256)] {
        let mut timer = Timer::new();
        timer.write_byte(0xFF07, 0x04 | rate);
        assert_eq!(timer.read_byte(0xFF07), 0xFC | rate);
        assert_eq!(timer.period(), period);
        let mut ticks = 0;
        while ticks + 4 < period {
            timer.do_cycles(4);
            ticks += 4;
        }
        assert_eq!(timer.read_byte(0xFF05), 0);
        timer.do_cycles(4);
        assert_eq!(timer.read_byte(0xFF05), 1);
    }
}

#[test]
fn tima_stands_still_while_disabled() {
    let mut timer = Timer::new();
    timer.write_byte(0xFF07, 0x01);
    for _ in 0..100 {
        timer.do_cycles(16);
    }
    assert_eq!(timer.read_byte(0xFF05), 0);
}

#[test]
fn tima_overflow_reloads_and_interrupts() {
    let mut timer = Timer::new();
    timer.write_byte(0xFF07, 0x05);
    timer.write_byte(0xFF06, 0xF0);
    timer.write_byte(0xFF05, 0xFE);
    timer.do_cycles(16);
    assert_eq!(timer.read_byte(0xFF05), 0xFF);
    assert!(!timer.timer_irq);
    timer.do_cycles(16);
    assert_eq!(timer.read_byte(0xFF05), 0xF0);
    assert!(timer.timer_irq);
    // several counts in one call
    timer.timer_irq = false;
    timer.do_cycles(48);
    assert_eq!(timer.read_byte(0xFF05), 0xF3);
    assert!(!timer.timer_irq);
    // a change of rate counts from the ticks that are waiting
    timer.do_cycles(8);
    timer.write_byte(0xFF07, 0x06);
    timer.do_cycles(56);
    assert_eq!(timer.read_byte(0xFF05), 0xF4);
}

// Joypad

#[test]
fn joypad_at_power_on() {
    let joypad = Joypad::new();
    assert_eq!(joypad.read_byte(0xFF00), 0xCF);
    assert!(!joypad.joypad_irq);
}

#[test]
fn joypad_rails() {
    let mut joypad = Joypad::new();
    joypad.handle_key(Button::Left, true);
    joypad.handle_key(Button::Start, true);
    joypad.joypad_irq = false;
    // both rails selected: the lines are combined
    joypad.write_byte(0xFF00, 0x00);
    assert_eq!(joypad.read_byte(0xFF00), 0xC0 | 0b0101);
    // bit 4 set: the action rail alone
    joypad.write_byte(0xFF00, 0x10);
    assert_eq!(joypad.read_byte(0xFF00), 0xD0 | 0b0111);
    // bit 5 set: the direction rail alone
    joypad.write_byte(0xFF00, 0x20);
    assert_eq!(joypad.read_byte(0xFF00), 0xE0 | 0b1101);
    // none
    joypad.write_byte(0xFF00, 0x30);
    assert_eq!(joypad.read_byte(0xFF00), 0xFF);
    joypad.handle_key(Button::Left, false);
    joypad.write_byte(0xFF00, 0x20);
    assert_eq!(joypad.read_byte(0xFF00), 0xEF);
}

#[test]
fn joypad_lines_of_every_button() {
    let lines = [
        (Button::Right, 0x20u8, 0b1110u8),
        (Button::Left, 0x20, 0b1101),
        (Button::Up, 0x20, 0b1011),
        (Button::Down, 0x20, 0b0111),
        (Button::A, 0x10, 0b1110),
        (Button::B, 0x10, 0b1101),
        (Button::Select, 0x10, 0b1011),
        (Button::Start, 0x10, 0b0111),
    ];
    for (button, select, seen) in lines {
        let mut joypad = Joypad::new();
        joypad.write_byte(0xFF00, select);
        joypad.handle_key(button, true);
        assert_eq!(joypad.read_byte(0xFF00) & 0x0F, seen);
        assert!(joypad.joypad_irq);
        joypad.handle_key(button, false);
        assert_eq!(joypad.read_byte(0xFF00) & 0x0F, 0x0F);
    }
}

#[test]
fn joypad_interrupt_needs_a_falling_line_on_a_selected_rail() {
    let mut joypad = Joypad::new();
    joypad.write_byte(0xFF00, 0x10);
    joypad.handle_key(Button::Up, true);
    assert!(!joypad.joypad_irq);
    joypad.handle_key(Button::A, false);
    assert!(!joypad.joypad_irq);
    joypad.handle_key(Button::A, true);
    assert!(joypad.joypad_irq);
    joypad.joypad_irq = false;
    joypad.handle_key(Button::A, true);
    assert!(!joypad.joypad_irq);
    joypad.handle_key(Button::A, false);
    assert!(!joypad.joypad_irq);
}

#[test]
fn joypad_host_keys() {
    let keys = [
        (Key::Right, Some(Button::Right)),
        (Key::Left, Some(Button::Left)),
        (Key::Up, Some(Button::Up)),
        (Key::Down, Some(Button::Down)),
        (Key::S, Some(Button::A)),
        (Key::A, Some(Button::B)),
        (Key::Space, Some(Button::Select)),
        (Key::Enter, Some(Button::Start)),
        (Key::Other, None),
    ];
    for (key, button) in keys {
        assert_eq!(Joypad::button_for(key), button);
    }
    let mut joypad = Joypad::new();
    joypad.handle_key_down(Key::Other);
    assert_eq!(joypad, Joypad::new());
    joypad.handle_key_down(Key::S);
    joypad.write_byte(0xFF00, 0x10);
    assert_eq!(joypad.read_byte(0xFF00), 0xDE);
    assert!(joypad.joypad_irq);
    joypad.handle_key_up(Key::S);
    assert_eq!(joypad.read_byte(0xFF00), 0xDF);
    joypad.handle_key_up(Key::Other);
    assert_eq!(joypad.read_byte(0xFF00), 0xDF);
}

// Bus

#[test]
fn bus_routes_ram() {
    let mut mmu = bus();
    for (addr, value) in [(0xC000u16, 1u8), (0xDFFF, 2), (0xFF80, 3), (0xFFFE, 4), (0x8000, 5), (0x9FFF, 6), (0xFE00, 7), (0xFE9F, 8)] {
        mmu.write_byte(addr, value);
    }
    for (addr, value) in [(0xC000u16, 1u8), (0xDFFF, 2), (0xFF80, 3), (0xFFFE, 4), (0x8000, 5), (0x9FFF, 6), (0xFE00, 7), (0xFE9F, 8)] {
        assert_eq!(mmu.read_byte(addr), value);
    }
    mmu.write_byte(0xFFFF, 0x1F);
    assert_eq!(mmu.read_byte(0xFFFF), 0x1F);
    assert_eq!(mmu.ie, 0x1F);
}

#[test]
fn bus_stubs_and_gaps() {
    let mut mmu = bus();
    for addr in [0xFEA0u16, 0xFEFF, 0xFF01, 0xFF02] {
        mmu.write_byte(addr, 0x12);
        assert_eq!(mmu.read_byte(addr), 0xFF);
    }
    for addr in [0xFF10u16, 0xFF26, 0xFF3F] {
        mmu.write_byte(addr, 0x12);
        assert_eq!(mmu.read_byte(addr), 0x00);
    }
}

#[test]
fn bus_knows_what_it_serves() {
    for addr in [0x0000u16, 0x7FFF, 0x8000, 0xA000, 0xC000, 0xDFFF, 0xFE00, 0xFEA0, 0xFEFF, 0xFF00, 0xFF01, 0xFF02, 0xFF04, 0xFF07, 0xFF0F, 0xFF10, 0xFF3F, 0xFF40, 0xFF4B, 0xFF50, 0xFF80, 0xFFFE, 0xFFFF] {
        assert!(MMU::can_read(addr), "{:#06x}", addr);
        assert!(MMU::can_write(addr, 0), "{:#06x}", addr);
    }
    for addr in [0xE000u16, 0xF000, 0xFDFF, 0xFF03, 0xFF08, 0xFF0E, 0xFF4C, 0xFF4F, 0xFF51, 0xFF7F] {
        assert!(!MMU::can_read(addr), "{:#06x}", addr);
        assert!(!MMU::can_write(addr, 0), "{:#06x}", addr);
    }
    assert!(MMU::can_write(0xFF46, 0xDF));
    assert!(!MMU::can_write(0xFF46, 0xE0));
    assert!(!MMU::can_write(0xFF46, 0xFD));
    assert!(MMU::can_write(0xFF46, 0xFE));
    assert!(!MMU::can_write(0xFF46, 0xFF));
}

#[test]
fn bus_interrupt_flags_are_a_view_of_the_latches() {
    let mut mmu = bus();
    assert_eq!(mmu.read_byte(0xFF0F), 0);
    mmu.ppu.vblank_irq = true;
    assert_eq!(mmu.read_byte(0xFF0F), 0x01);
    mmu.ppu.stat_irq = true;
    assert_eq!(mmu.read_byte(0xFF0F), 0x03);
    mmu.timer.timer_irq = true;
    assert_eq!(mmu.read_byte(0xFF0F), 0x07);
    mmu.joypad.joypad_irq = true;
    assert_eq!(mmu.read_byte(0xFF0F), 0x17);
    assert_eq!(mmu.get_interrupt_flags(), 0x17);
    mmu.write_byte(0xFF0F, 0x0A);
    assert!(!mmu.ppu.vblank_irq && mmu.ppu.stat_irq && !mmu.timer.timer_irq && !mmu.joypad.joypad_irq);
    // the serial bit has no latch
    assert_eq!(mmu.read_byte(0xFF0F), 0x02);
    mmu.write_byte(0xFF0F, 0xFF);
    assert_eq!(mmu.read_byte(0xFF0F), 0x17);
}

#[test]
fn bus_routes_devices() {
    let mut mmu = bus();
    mmu.write_byte(0xFF06, 0x44);
    assert_eq!(mmu.timer.read_byte(0xFF06), 0x44);
    mmu.write_byte(0xFF00, 0x20);
    mmu.joypad.handle_key(Button::Down, true);
    assert_eq!(mmu.read_byte(0xFF00), 0xE7);
    mmu.write_byte(0xFF42, 0x11);
    mmu.write_byte(0xFF43, 0x22);
    assert_eq!((mmu.ppu.scy, mmu.ppu.scx), (0x11, 0x22));
    assert_eq!(mmu.read_byte(0xFF42), 0x11);
}

#[test]
fn bus_routes_the_cartridge() {
    let mut mmu = MMU::new(banked_image(4, 0x03), [0xAAu8; 256]).unwrap();
    assert_eq!(mmu.read_byte(0x0000), 0xAA);
    assert_eq!(mmu.read_byte(0x00FF), 0xAA);
    assert_eq!(mmu.read_byte(0x0100), 0x00);
    assert_eq!(mmu.read_byte(0x4000), 0x01);
    mmu.write_byte(0x2000, 0x02);
    assert_eq!(mmu.read_byte(0x4000), 0x02);
    mmu.write_byte(0x0000, 0x0A);
    mmu.write_byte(0xA123, 0x77);
    assert_eq!(mmu.read_byte(0xA123), 0x77);
    assert_eq!(mmu.read_byte(0x0000), 0xAA);
    mmu.write_byte(0xFF50, 0x01);
    assert_eq!(mmu.read_byte(0x0000), 0x00);
}

#[test]
fn oam_dma_copies_a_page() {
    let mut mmu = bus();
    for offset in 0..0x100u16 {
        mmu.write_byte(0xC100 + offset, (offset as u8) ^ 0x5A);
    }
    mmu.write_byte(0xFF46, 0xC1);
    for offset in 0..0xA0u16 {
        assert_eq!(mmu.read_byte(0xFE00 + offset), (offset as u8) ^ 0x5A);
    }
    assert_eq!(mmu.read_byte(0xFF46), 0xC1);
    // from the cartridge
    let mut rom = vec![0u8; 0x8000];
    for offset in 0..0xA0 {
        rom[0x1200 + offset] = offset as u8;
    }
    let mut mmu = MMU::new(rom, [0u8; 256]).unwrap();
    mmu.write_byte(0xFF46, 0x12);
    for offset in 0..0xA0u16 {
        assert_eq!(mmu.read_byte(0xFE00 + offset), offset as u8);
    }
    // from object memory itself
    mmu.write_byte(0xFF46, 0xFE);
    for offset in 0..0xA0u16 {
        assert_eq!(mmu.read_byte(0xFE00 + offset), offset as u8);
    }
}

#[test]
fn oam_dma_holds_when_the_step_retires() {
    // LD A, 0xC2 ; LDH (0x46), A
    let mut rom = vec![0u8; 0x8000];
    rom[0x100..0x104].copy_from_slice(&[0x3E, 0xC2, 0xE0, 0x46]);
    let mut gameboy = dmg_emu::gameboy::GameBoy::new(rom, [0u8; 256], true).unwrap();
    for offset in 0..0xA0u16 {
        gameboy.mmu.write_byte(0xC200 + offset, 0xFF - offset as u8);
    }
    gameboy.step().unwrap();
    assert_eq!(gameboy.step(), Ok(12));
    for offset in 0..0xA0u16 {
        assert_eq!(gameboy.mmu.read_byte(0xFE00 + offset), 0xFF - offset as u8);
    }
}

// Pixel unit

#[test]
fn ppu_registers() {
    let mut ppu = PPU::new();
    let registers = [0xFF40u16, 0xFF42, 0xFF43, 0xFF45, 0xFF46, 0xFF47, 0xFF48, 0xFF49, 0xFF4A, 0xFF4B];
    for (index, addr) in registers.iter().enumerate() {
        ppu.set_byte(*addr, 0x10 + index as u8);
    }
    for (index, addr) in registers.iter().enumerate() {
        assert_eq!(ppu.get_byte(*addr), 0x10 + index as u8);
    }
    // LY cannot be written
    ppu.set_byte(0xFF44, 0x55);
    assert_eq!(ppu.get_byte(0xFF44), 0);
    ppu.fixed_ly = true;
    assert_eq!(ppu.get_byte(0xFF44), 0x90);
}

#[test]
fn ppu_status_register() {
    let mut ppu = PPU::new();
    ppu.set_byte(0xFF41, 0xFF);
    ppu.lyc = 0;
    // line 0, 32 ticks in: mode 2, LY == LYC
    assert_eq!(ppu.get_byte(0xFF41), 0xF8 | 0x04 | 0x02);
    ppu.do_cycle(48);
    assert_eq!(ppu.get_byte(0xFF41) & 0x03, 3);
    ppu.do_cycle(172);
    assert_eq!(ppu.get_byte(0xFF41) & 0x03, 0);
    ppu.lyc = 5;
    assert_eq!(ppu.get_byte(0xFF41) & 0x04, 0);
    ppu.ly = 144;
    assert_eq!(ppu.get_byte(0xFF41) & 0x03, 1);
}

#[test]
fn ppu_counts_scanlines() {
    let mut ppu = PPU::new();
    assert_eq!(ppu.modeclock, 32);
    ppu.do_cycle(423);
    assert_eq!((ppu.ly, ppu.modeclock), (0, 455));
    ppu.do_cycle(1);
    assert_eq!((ppu.ly, ppu.modeclock), (1, 0));
    ppu.do_cycle(456 * 3 + 7);
    assert_eq!((ppu.ly, ppu.modeclock), (4, 7));
}

#[test]
fn ppu_raises_vblank_and_completes_frames() {
    let mut ppu = PPU::new();
    ppu.modeclock = 0;
    ppu.do_cycle(456 * 143);
    assert_eq!(ppu.ly, 143);
    assert!(!ppu.vblank_irq);
    ppu.do_cycle(456);
    assert_eq!(ppu.ly, 144);
    assert!(ppu.vblank_irq);
    assert!(!ppu.frame_available);
    ppu.do_cycle(456 * 9);
    assert_eq!(ppu.ly, 153);
    assert!(!ppu.frame_available);
    ppu.do_cycle(456);
    assert_eq!(ppu.ly, 0);
    assert!(ppu.frame_available);
    assert_eq!(ppu.frame_number, 2);
    assert!(ppu.get_and_reset_frame_available());
    assert!(!ppu.get_and_reset_frame_available());
}

#[test]
fn ppu_raises_the_status_interrupt_on_the_compared_line() {
    let mut ppu = PPU::new();
    ppu.modeclock = 0;
    ppu.lyc = 3;
    ppu.do_cycle(456 * 4);
    assert!(!ppu.stat_irq);
    ppu.ly = 0;
    ppu.stat = 0x40;
    ppu.do_cycle(456 * 2);
    assert!(!ppu.stat_irq);
    ppu.do_cycle(456);
    assert!(ppu.stat_irq);
}

#[test]
fn ppu_frame_period() {
    for (line, clock) in [(0u8, 0u32), (0, 32), (77, 455), (143, 200), (144, 0), (153, 455)] {
        let mut ppu = PPU::new();
        ppu.lcdc = 0x80;
        ppu.ly = line;
        ppu.modeclock = clock;
        // in steps of the sizes that instructions take
        let mut ticks = 0;
        let sizes = [4u32, 8, 12, 16, 20, 24];
        let mut turn = 0;
        while ticks < 70224 {
            let size = sizes[turn % sizes.len()].min(70224 - ticks);
            ppu.do_cycle(size);
            ticks += size;
            turn += 1;
        }
        assert_eq!((ppu.ly, ppu.modeclock), (line, clock));
        ppu.do_cycle(70224);
        assert_eq!((ppu.ly, ppu.modeclock), (line, clock));
    }
}

/// Video memory with tile 1 set to a pattern whose row `r` shows colour
/// number `(r + c) % 4` in column `c`.
fn with_pattern_tile(ppu: &mut PPU, tile: u16, base: u16) {
    for row in 0..8u16 {
        let mut low = 0u8;
        let mut high = 0u8;
        for col in 0..8u16 {
            let index = (row + col) % 4;
            if index & 1 != 0 {
                low |= 0x80 >> col;
            }
            if index & 2 != 0 {
                high |= 0x80 >> col;
            }
        }
        ppu.set_byte(base + tile * 16 + row * 2, low);
        ppu.set_byte(base + tile * 16 + row * 2 + 1, high);
    }
}

fn shade(index: u16) -> u32 {
    [WHITE, LIGHT_GREY, DARK_GREY, BLACK][index as usize]
}

#[test]
fn ppu_colours() {
    let ppu = PPU::new();
    assert_eq!(ppu.palette(0), 0xFFFFFFFF);
    assert_eq!(ppu.palette(1), 0xFFBBBBBB);
    assert_eq!(ppu.palette(2), 0xFF666666);
    assert_eq!(ppu.palette(3), 0xFF000000);
    // palette 0b00_01_10_11 turns the colour numbers around
    for index in 0..4u8 {
        assert_eq!(ppu.shade_colour(0b00011011, index), ppu.palette(3 - index));
        assert_eq!(ppu.shade_colour(0b11100100, index), ppu.palette(index));
    }
}

#[test]
fn ppu_tile_pixels() {
    let mut ppu = PPU::new();
    with_pattern_tile(&mut ppu, 1, 0x8000);
    for row in 0..8u16 {
        for col in 0..8u16 {
            assert_eq!(ppu.get_tile_pixel(1, row, col, true) as u16, (row + col) % 4);
        }
    }
    let tile = ppu.get_object(1);
    for row in 0..8usize {
        for col in 0..8usize {
            assert_eq!(tile[col][row] as usize, (row + col) % 4);
        }
    }
    assert_eq!(ppu.get_tile(1), tile);
    with_pattern_tile(&mut ppu, 0x17F, 0x8000);
    assert_eq!(ppu.get_tile(0x17F), tile);
    assert_eq!(ppu.get_tile(0x1FF), [[0u8; 8]; 8]);
    // signed numbering counts from 0x9000: tile 0xFF lies at 0x8FF0, tile 1 at 0x9010
    with_pattern_tile(&mut ppu, 0xFF, 0x8000);
    assert_eq!(ppu.get_tile_pixel(0xFF, 1, 0, false), 1);
    assert_eq!(ppu.get_tile_pixel(1, 1, 0, false), 0);
    with_pattern_tile(&mut ppu, 1, 0x9000);
    assert_eq!(ppu.get_tile_pixel(1, 1, 0, false), 1);
    // with LCDC bit 4 the numbering is unsigned
    ppu.lcdc = 0x10;
    assert_eq!(ppu.get_tile_pixel(1, 2, 0, false), 2);
}

#[test]
fn ppu_paints_the_background() {
    let mut ppu = PPU::new();
    ppu.lcdc = 0x91; // on, unsigned tiles, background on, map at 0x9800
    ppu.bgp = 0b11100100;
    with_pattern_tile(&mut ppu, 1, 0x8000);
    // the map: tile 1 in column 2 of row 0, tile 0 elsewhere
    ppu.set_byte(0x9802, 1);
    ppu.render_scanline(3);
    for x in 0..160u16 {
        let expected = if (16..24).contains(&x) { shade((3 + x - 16) % 4) } else { WHITE };
        assert_eq!(ppu.frame_buffer[3 * 160 + x as usize], expected, "x = {}", x);
    }
    // other rows are untouched
    assert_eq!(ppu.frame_buffer[2 * 160 + 17], 0);
    // scrolled by (5, 2): screen (x, y) shows map (x + 5, y + 2)
    ppu.scx = 5;
    ppu.scy = 2;
    ppu.render_scanline(1);
    for x in 0..160u16 {
        let map_x = x + 5;
        let expected = if (16..24).contains(&map_x) { shade((3 + map_x - 16) % 4) } else { WHITE };
        assert_eq!(ppu.frame_buffer[160 + x as usize], expected, "x = {}", x);
    }
    // the plane wraps around
    ppu.scx = 250;
    ppu.scy = 0;
    ppu.render_scanline(0);
    assert_eq!(ppu.frame_buffer[22], shade(0));
    assert_eq!(ppu.frame_buffer[23], shade(1));
}

#[test]
fn ppu_background_off_paints_nothing() {
    let mut ppu = PPU::new();
    ppu.lcdc = 0x90;
    ppu.bgp = 0xFF;
    ppu.frame_buffer[0] = 0x12345678;
    ppu.render_scanline(0);
    assert_eq!(ppu.frame_buffer[0], 0x12345678);
    ppu.lcdc = 0x91;
    ppu.render_background(0);
    assert_eq!(ppu.frame_buffer[0], BLACK);
}

#[test]
fn ppu_second_background_map() {
    let mut ppu = PPU::new();
    ppu.lcdc = 0x99;
    ppu.bgp = 0b11100100;
    with_pattern_tile(&mut ppu, 1, 0x8000);
    ppu.set_byte(0x9C00, 1);
    ppu.render_scanline(0);
    assert_eq!(ppu.frame_buffer[1], shade(1));
    assert_eq!(ppu.frame_buffer[8], WHITE);
}

#[test]
fn ppu_paints_the_window_over_the_background() {
    let mut ppu = PPU::new();
    ppu.lcdc = 0xF1; // window on, window map at 0x9C00, unsigned tiles, background on
    ppu.bgp = 0b11100100;
    with_pattern_tile(&mut ppu, 1, 0x8000);
    // the window map shows tile 1 everywhere in its first row
    for col in 0..32u16 {
        ppu.set_byte(0x9C00 + col, 1);
    }
    ppu.wy = 2;
    ppu.wx = 7 + 100;
    ppu.render_scanline(1);
    assert_eq!(ppu.frame_buffer[160 + 120], WHITE);
    ppu.render_scanline(2);
    for x in 0..160u16 {
        let expected = if x >= 100 { shade((x - 100) % 4) } else { WHITE };
        assert_eq!(ppu.frame_buffer[2 * 160 + x as usize], expected, "x = {}", x);
    }
    ppu.render_scanline(3);
    assert_eq!(ppu.frame_buffer[3 * 160 + 100], shade(1));
    // without the background the window is off too
    ppu.lcdc = 0xF0;
    ppu.frame_buffer[4 * 160 + 100] = 7;
    ppu.render_scanline(4);
    assert_eq!(ppu.frame_buffer[4 * 160 + 100], 7);
}

fn place_object(ppu: &mut PPU, entry: u16, y: u8, x: u8, tile: u8, flags: u8) {
    ppu.set_byte(0xFE00 + entry * 4, y);
    ppu.set_byte(0xFE00 + entry * 4 + 1, x);
    ppu.set_byte(0xFE00 + entry * 4 + 2, tile);
    ppu.set_byte(0xFE00 + entry * 4 + 3, flags);
}

#[test]
fn ppu_paints_objects() {
    let mut ppu = PPU::new();
    ppu.lcdc = 0x93; // objects on, background on
    ppu.bgp = 0b11100100;
    ppu.obj_palette_0 = 0b11100100;
    ppu.obj_palette_1 = 0b00011011;
    with_pattern_tile(&mut ppu, 1, 0x8000);
    // top left corner at (20, 10)
    place_object(&mut ppu, 0, 10 + 16, 20 + 8, 1, 0x00);
    ppu.render_scanline(9);
    assert_eq!(ppu.frame_buffer[9 * 160 + 21], WHITE);
    ppu.render_scanline(12);
    for col in 0..8u16 {
        // colour number 0 is transparent: the background shows
        let index = (2 + col) % 4;
        assert_eq!(ppu.frame_buffer[12 * 160 + 20 + col as usize], shade(index), "col = {}", col);
    }
    assert_eq!(ppu.frame_buffer[12 * 160 + 19], WHITE);
    assert_eq!(ppu.frame_buffer[12 * 160 + 28], WHITE);
    ppu.render_scanline(18);
    assert_eq!(ppu.frame_buffer[18 * 160 + 21], WHITE);
    // the second palette
    place_object(&mut ppu, 0, 10 + 16, 20 + 8, 1, 0x10);
    ppu.render_scanline(10);
    assert_eq!(ppu.frame_buffer[10 * 160 + 21], shade(3 - 1));
    // mirrored left to right
    place_object(&mut ppu, 0, 10 + 16, 20 + 8, 1, 0x20);
    ppu.render_scanline(10);
    assert_eq!(ppu.frame_buffer[10 * 160 + 20], shade(7 % 4));
    assert_eq!(ppu.frame_buffer[10 * 160 + 27], WHITE);
    // mirrored top to bottom
    place_object(&mut ppu, 0, 10 + 16, 20 + 8, 1, 0x40);
    ppu.render_scanline(10);
    assert_eq!(ppu.frame_buffer[10 * 160 + 20], shade(7 % 4));
    ppu.render_scanline(17);
    assert_eq!(ppu.frame_buffer[17 * 160 + 21], shade(1));
}

#[test]
fn ppu_objects_off_the_left_edge_and_disabled() {
    let mut ppu = PPU::new();
    ppu.lcdc = 0x92;
    ppu.obj_palette_0 = 0b11100100;
    with_pattern_tile(&mut ppu, 1, 0x8000);
    place_object(&mut ppu, 0, 16, 4, 1, 0x00);
    ppu.render_scanline(0);
    // columns 4 to 7 show at x = 0 to 3
    for x in 0..4u16 {
        let index = (4 + x) % 4;
        let expected = if index == 0 { 0 } else { shade(index) };
        assert_eq!(ppu.frame_buffer[x as usize], expected);
    }
    assert_eq!(ppu.frame_buffer[4], 0);
    ppu.lcdc = 0x90;
    ppu.frame_buffer[1] = 9;
    ppu.render_scanline(0);
    assert_eq!(ppu.frame_buffer[1], 9);
}

#[test]
fn ppu_object_behind_the_background() {
    let mut ppu = PPU::new();
    ppu.lcdc = 0x93;
    ppu.bgp = 0b11100100;
    ppu.obj_palette_0 = 0b11111111;
    with_pattern_tile(&mut ppu, 1, 0x8000);
    // background: tile 1 in the first map cell; the object covers it, behind
    ppu.set_byte(0x9800, 1);
    place_object(&mut ppu, 0, 16, 8, 1, 0x80);
    ppu.render_scanline(0);
    // where the background shows colour number 0 the object shows (unless
    // its own number is 0, which is transparent); elsewhere the background
    for x in 0..8u16 {
        assert_eq!(ppu.frame_buffer[x as usize], shade(x % 4), "x = {}", x);
    }
    // in front, every opaque object pixel is black
    place_object(&mut ppu, 0, 16, 8, 1, 0x00);
    ppu.render_scanline(0);
    for x in 0..8u16 {
        let expected = if x % 4 == 0 { WHITE } else { BLACK };
        assert_eq!(ppu.frame_buffer[x as usize], expected, "x = {}", x);
    }
    // behind a background of colour number 0 the object shows
    ppu.set_byte(0x9800, 0);
    place_object(&mut ppu, 0, 16, 8, 1, 0x80);
    ppu.render_scanline(0);
    assert_eq!(ppu.frame_buffer[1], BLACK);
}

#[test]
fn ppu_tall_objects() {
    let mut ppu = PPU::new();
    ppu.lcdc = 0x96;
    ppu.obj_palette_0 = 0b11100100;
    with_pattern_tile(&mut ppu, 3, 0x8000);
    // a tall object of tiles 2 and 3, named by the odd number
    place_object(&mut ppu, 0, 16, 8, 3, 0x00);
    ppu.render_scanline(7);
    assert_eq!(ppu.frame_buffer[7 * 160 + 1], 0);
    ppu.render_scanline(9);
    assert_eq!(ppu.frame_buffer[9 * 160 + 1], shade(2));
    ppu.render_scanline(16);
    assert_eq!(ppu.frame_buffer[16 * 160 + 1], 0);
    // mirrored top to bottom, the lower tile comes first
    place_object(&mut ppu, 0, 16, 8, 3, 0x40);
    ppu.render_scanline(0);
    assert_eq!(ppu.frame_buffer[1], 0);
    ppu.render_scanline(6);
    assert_eq!(ppu.frame_buffer[6 * 160 + 1], shade(2));
}

#[test]
fn ppu_shows_ten_objects_on_a_line_at_most() {
    let mut ppu = PPU::new();
    ppu.lcdc = 0x92;
    ppu.obj_palette_0 = 0b11111111;
    // a tile that is opaque all over
    for row in 0..8u16 {
        ppu.set_byte(0x8010 + row * 2, 0xFF);
    }
    for entry in 0..12u16 {
        place_object(&mut ppu, entry, 16, 8 + 8 * entry as u8, 1, 0x00);
    }
    assert_eq!(ppu.get_line_objects(0), vec![0, 1, 2, 3, 4, 5, 6, 7, 8, 9]);
    assert_eq!(ppu.get_line_objects(8), Vec::<u8>::new());
    ppu.render_scanline(0);
    for x in 0..80usize {
        assert_eq!(ppu.frame_buffer[x], BLACK);
    }
    for x in 80..96usize {
        assert_eq!(ppu.frame_buffer[x], 0);
    }
}

#[test]
fn ppu_later_objects_cover_earlier_ones() {
    let mut ppu = PPU::new();
    ppu.lcdc = 0x92;
    ppu.obj_palette_0 = 0b01010101;
    ppu.obj_palette_1 = 0b10101010;
    for row in 0..8u16 {
        ppu.set_byte(0x8010 + row * 2, 0xFF);
    }
    place_object(&mut ppu, 0, 16, 8, 1, 0x00);
    place_object(&mut ppu, 1, 16, 12, 1, 0x10);
    ppu.render_objects(0);
    for x in 0..4usize {
        assert_eq!(ppu.frame_buffer[x], LIGHT_GREY);
    }
    for x in 4..12usize {
        assert_eq!(ppu.frame_buffer[x], DARK_GREY);
    }
    assert_eq!(ppu.frame_buffer[12], 0);
}

#[test]
fn ppu_paints_while_it_counts() {
    let mut ppu = PPU::new();
    ppu.lcdc = 0x91;
    ppu.bgp = 0b00000011;
    ppu.modeclock = 0;
    ppu.do_cycle(456);
    for x in 0..160usize {
        assert_eq!(ppu.frame_buffer[x], BLACK);
    }
    assert_eq!(ppu.frame_buffer[160], 0);
    ppu.paint(Layer::Window, 5);
    assert_eq!(ppu.frame_buffer[5 * 160], 0);
}

// Session switches

#[test]
fn session_switches() {
    let mut flags = DebugFlags::new();
    assert!(!is_debug_enabled(&flags));
    assert!(!is_gameboy_doctor(&flags));
    enable_debug(&mut flags);
    assert!(is_debug_enabled(&flags));
    disable_debug(&mut flags);
    assert!(!is_debug_enabled(&flags));
    enable_gameboy_doctor(&mut flags);
    assert!(is_gameboy_doctor(&flags));
    assert!(!is_debug_enabled(&flags));
    assert_eq!(on_break(&mut flags), BreakAction::EnterDebugger);
    assert!(is_debug_enabled(&flags));
    assert_eq!(on_break(&mut flags), BreakAction::Exit);
}

// Notices

#[test]
fn notices_are_handed_out_once() {
    let mut notices = Notices::new();
    assert_eq!(notices.take(), Vec::new());
    notices.raise(Notice::BankClamped);
    notices.raise(Notice::BankClamped);
    assert_eq!(notices.bank_clamp, Mark::Pending);
    assert_eq!(notices.take(), vec![Notice::BankClamped]);
    assert_eq!(notices.bank_clamp, Mark::Reported);
    notices.raise(Notice::BankClamped);
    assert_eq!(notices.take(), Vec::new());
    notices.raise(Notice::ReadOnlyRegister);
    notices.raise(Notice::RomWriteIgnored);
    assert_eq!(notices.take(), vec![Notice::RomWriteIgnored, Notice::ReadOnlyRegister]);
    assert_eq!(notices.take(), Vec::new());
}

#[test]
fn bus_raises_notices() {
    let mut mmu = bus();
    assert_eq!(mmu.take_notices(), Vec::new());
    mmu.write_byte(0xC000, 1);
    mmu.write_byte(0xFF40, 1);
    assert_eq!(mmu.take_notices(), Vec::new());
    assert_eq!(mmu.notice_for(0x1234, 0), Some(Notice::RomWriteIgnored));
    mmu.write_byte(0x1234, 0x56);
    mmu.write_byte(0x7FFF, 0x56);
    mmu.write_byte(0xFF44, 0x10);
    assert_eq!(mmu.take_notices(), vec![Notice::RomWriteIgnored, Notice::ReadOnlyRegister]);
    mmu.write_byte(0x1234, 0x56);
    mmu.write_byte(0xFF44, 0x10);
    assert_eq!(mmu.take_notices(), Vec::new());

    let mut mmu = MMU::new(banked_image(4, 0x01), [0u8; 256]).unwrap();
    mmu.write_byte(0x2000, 0x03);
    mmu.write_byte(0x2000, 0x00);
    mmu.write_byte(0x0000, 0x0A);
    mmu.write_byte(0x4000, 0x01);
    assert_eq!(mmu.take_notices(), Vec::new());
    mmu.write_byte(0x2000, 0x04);
    assert_eq!(mmu.read_byte(0x4000), 3);
    assert_eq!(mmu.take_notices(), vec![Notice::BankClamped]);
    mmu.write_byte(0x2000, 0x1F);
    assert_eq!(mmu.take_notices(), Vec::new());
}
