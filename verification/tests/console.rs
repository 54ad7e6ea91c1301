use dmg_emu::debugger::{
    memory_range, parse_command, parse_number, parse_radix, DebugCommand, RangeError,
};
use dmg_emu::host::{apply_key_events, frame_deficit, most_recent_frame, FRAME_NANOS};
use dmg_emu::mmu::joypad::{Joypad, Key};

#[test]
fn numbers_in_three_radices() {
    assert_eq!(parse_number(b"0"), Some(0));
    assert_eq!(parse_number(b"1234"), Some(1234));
    assert_eq!(parse_number(b"65535"), Some(65535));
    assert_eq!(parse_number(b"0x1f"), Some(0x1F));
    assert_eq!(parse_number(b"0X1F"), Some(0x1F));
    assert_eq!(parse_number(b"0xffff"), Some(0xFFFF));
    assert_eq!(parse_number(b"0xC64E"), Some(0xC64E));
    assert_eq!(parse_number(b"0b101"), Some(5));
    assert_eq!(parse_number(b"0B1111111111111111"), Some(0xFFFF));
    assert_eq!(parse_number(b"007"), Some(7));
    assert_eq!(parse_number(b"+12"), Some(12));
    assert_eq!(parse_number(b"0x+12"), Some(0x12));
}

#[test]
fn what_is_no_number() {
    for text in [
        &b""[..],
        b"+",
        b"-1",
        b"++1",
        b"12a",
        b"0x",
        b"0b",
        b"0xg",
        b"0b2",
        b"65536",
        b"99999999999",
        b"0x10000",
        b"0b10000000000000000",
        b" 1",
        b"1 ",
        b"0x 1",
        b"1_000",
        b"\xFF",
    ] {
        assert_eq!(parse_number(text), None, "{:?}", text);
    }
}

#[test]
fn numbers_agree_with_the_standard_parser() {
    let words = ["0", "9", "10", "255", "4096", "65535", "65536", "70000", "+5", "+", "", "1e3", "ff", "00000000000000000001"];
    for word in words {
        assert_eq!(parse_radix(word.as_bytes(), 0, 10), u16::from_str_radix(word, 10).ok(), "{}", word);
        assert_eq!(parse_radix(word.as_bytes(), 0, 16), u16::from_str_radix(word, 16).ok(), "{}", word);
        assert_eq!(parse_radix(word.as_bytes(), 0, 2), u16::from_str_radix(word, 2).ok(), "{}", word);
    }
    for number in (0..=65535u32).step_by(257) {
        let decimal = format!("{}", number);
        let hex = format!("{:#x}", number);
        let binary = format!("{:#b}", number);
        assert_eq!(parse_number(decimal.as_bytes()), Some(number as u16));
        assert_eq!(parse_number(hex.as_bytes()), Some(number as u16));
        assert_eq!(parse_number(binary.as_bytes()), Some(number as u16));
    }
    assert_eq!(parse_radix(b"xx12", 2, 10), Some(12));
    assert_eq!(parse_radix(b"12", 2, 10), None);
    assert_eq!(parse_radix(b"zz", 0, 36), Some(35 * 36 + 35));
}

#[test]
fn console_commands() {
    let commands = [
        ("", DebugCommand::Step),
        ("s", DebugCommand::Step),
        ("step", DebugCommand::Step),
        ("c", DebugCommand::Continue),
        ("continue", DebugCommand::Continue),
        ("d", DebugCommand::Debug),
        ("debug", DebugCommand::Debug),
        ("ppu", DebugCommand::Ppu),
        ("f", DebugCommand::Flush),
        ("flush", DebugCommand::Flush),
        ("ro", DebugCommand::Rom),
        ("rom", DebugCommand::Rom),
        ("r", DebugCommand::Registers),
        ("registers", DebugCommand::Registers),
        ("h", DebugCommand::Help),
        ("help", DebugCommand::Help),
        ("i", DebugCommand::Interrupts),
        ("interrupts", DebugCommand::Interrupts),
        ("ins", DebugCommand::Instructions),
        ("instructions", DebugCommand::Instructions),
        ("p", DebugCommand::Print),
        ("print", DebugCommand::Print),
        ("b", DebugCommand::Break),
        ("break", DebugCommand::Break),
        ("bm", DebugCommand::BreakMemory),
        ("breakmemory", DebugCommand::BreakMemory),
        ("STEP", DebugCommand::Step),
        ("Continue", DebugCommand::Continue),
        ("BM", DebugCommand::BreakMemory),
        ("x", DebugCommand::Invalid),
        ("ste", DebugCommand::Invalid),
        ("steps", DebugCommand::Invalid),
        ("pp", DebugCommand::Invalid),
        ("quit", DebugCommand::Invalid),
        ("s ", DebugCommand::Invalid),
    ];
    for (word, command) in commands {
        assert_eq!(parse_command(word.as_bytes()), command, "{:?}", word);
    }
}

#[test]
fn ranges_of_memory() {
    assert_eq!(memory_range(&[0x100]), Ok((0x100, 0x10F)));
    assert_eq!(memory_range(&[0xFFF0]), Ok((0xFFF0, 0xFFFF)));
    assert_eq!(memory_range(&[0xFFF8]), Ok((0xFFF8, 0xFFFF)));
    assert_eq!(memory_range(&[0x100, 0x200]), Ok((0x100, 0x200)));
    assert_eq!(memory_range(&[5, 5]), Ok((5, 5)));
    assert_eq!(memory_range(&[6, 5]), Err(RangeError::StartBehindEnd));
    assert_eq!(memory_range(&[]), Err(RangeError::WrongCount));
    assert_eq!(memory_range(&[1, 2, 3]), Err(RangeError::WrongCount));
}

#[test]
fn frames_are_paced() {
    assert_eq!(FRAME_NANOS, 16_666_667);
    assert_eq!(frame_deficit(0), 16_666_667);
    assert_eq!(frame_deficit(6_666_667), 10_000_000);
    assert_eq!(frame_deficit(16_666_666), 1);
    assert_eq!(frame_deficit(16_666_667), 0);
    assert_eq!(frame_deficit(u64::MAX), 0);
}

#[test]
fn newest_frame_wins() {
    assert_eq!(most_recent_frame(Vec::new()), None);
    assert_eq!(most_recent_frame(vec![vec![1, 2]]), Some(vec![1, 2]));
    assert_eq!(most_recent_frame(vec![vec![1], vec![2], vec![3, 4]]), Some(vec![3, 4]));
}

#[test]
fn key_events_apply_in_their_order() {
    let mut joypad = Joypad::new();
    joypad.write_byte(0xFF00, 0x20);
    apply_key_events(&mut joypad, &vec![(true, Key::Left), (false, Key::Left), (true, Key::Up)]);
    assert_eq!(joypad.read_byte(0xFF00), 0xE0 | 0b1011);
    assert!(joypad.joypad_irq);
    let mut joypad = Joypad::new();
    joypad.write_byte(0xFF00, 0x20);
    apply_key_events(&mut joypad, &vec![(false, Key::Left), (true, Key::Up), (true, Key::Left)]);
    assert_eq!(joypad.read_byte(0xFF00), 0xE0 | 0b1001);
    let before = joypad;
    apply_key_events(&mut joypad, &Vec::new());
    assert_eq!(joypad, before);
}
