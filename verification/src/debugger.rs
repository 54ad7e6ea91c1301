use vstd::prelude::*;

verus! {

/// The two switches that the host sets for a session.
#[derive(Clone, Copy, Debug, PartialEq, Eq, Structural)]
pub struct DebugFlags {
    /// Set while the debug console has the machine.
    pub debug: bool,
    /// Set for a session that feeds a conformance harness.
    pub gameboy_doctor: bool,
}

impl DebugFlags {
    /// Both switches off.
    pub fn new() -> (flags: DebugFlags)
        ensures
            !flags.debug,
            !flags.gameboy_doctor,
    {
        DebugFlags { debug: false, gameboy_doctor: false }
    }
}

pub fn enable_debug(flags: &mut DebugFlags)
    ensures
        final(flags).debug,
        final(flags).gameboy_doctor == old(flags).gameboy_doctor,
{
    flags.debug = true;
}

pub fn disable_debug(flags: &mut DebugFlags)
    ensures
        !final(flags).debug,
        final(flags).gameboy_doctor == old(flags).gameboy_doctor,
{
    flags.debug = false;
}

pub fn is_debug_enabled(flags: &DebugFlags) -> (enabled: bool)
    ensures
        enabled == flags.debug,
{
    flags.debug
}

pub fn enable_gameboy_doctor(flags: &mut DebugFlags)
    ensures
        final(flags).gameboy_doctor,
        final(flags).debug == old(flags).debug,
{
    flags.gameboy_doctor = true;
}

pub fn is_gameboy_doctor(flags: &DebugFlags) -> (enabled: bool)
    ensures
        enabled == flags.gameboy_doctor,
{
    flags.gameboy_doctor
}

/// What a first and a second interrupt from the operator do: the first hands
/// the machine to the debug console, the second ends the session.
#[derive(Clone, Copy, Debug, PartialEq, Eq, Structural)]
pub enum BreakAction {
    EnterDebugger,
    Exit,
}

/// Decides what an interrupt from the operator does, and records it.
pub fn on_break(flags: &mut DebugFlags) -> (action: BreakAction)
    ensures
        action == if old(flags).debug {
            BreakAction::Exit
        } else {
            BreakAction::EnterDebugger
        },
        final(flags).debug,
        final(flags).gameboy_doctor == old(flags).gameboy_doctor,
{
    if flags.debug {
        BreakAction::Exit
    } else {
        flags.debug = true;
        BreakAction::EnterDebugger
    }
}

/// The value of a digit in a radix, if the byte is a digit of that radix:
/// `0` to `9`, then the letters, in either case, from ten on.
pub open spec fn digit_of(byte: u8, radix: int) -> Option<int> {
    let value: int = if 0x30 <= byte <= 0x39 {
        byte - 0x30
    } else if 0x61 <= byte <= 0x7A {
        byte - 0x61 + 10
    } else if 0x41 <= byte <= 0x5A {
        byte - 0x41 + 10
    } else {
        36
    };
    if value < radix {
        Some(value)
    } else {
        None
    }
}

/// The number that a row of digits writes in a radix, the most significant
/// digit first; none if a byte is no digit. No digits write zero.
pub open spec fn digits_value(digits: Seq<u8>, radix: int) -> Option<int>
    decreases digits.len(),
{
    if digits.len() == 0 {
        Some(0)
    } else {
        match (digits_value(digits.drop_last(), radix), digit_of(digits.last(), radix)) {
            (Some(upper), Some(digit)) => Some(upper * radix + digit),
            _ => None,
        }
    }
}

/// The 16-bit number that a text writes in a radix: a plus sign, if there is
/// one, then one digit at least. None if the text is not of this form, or
/// writes a number beyond 16 bits.
pub open spec fn number_in(text: Seq<u8>, radix: int) -> Option<u16> {
    let digits = if text.len() > 0 && text[0] == 0x2B {
        text.skip(1)
    } else {
        text
    };
    if digits.len() == 0 {
        None
    } else {
        match digits_value(digits, radix) {
            Some(value) => if value <= 0xFFFF {
                Some(value as u16)
            } else {
                None
            },
            None => None,
        }
    }
}

/// The 16-bit number that a word of a console command writes: hexadecimal
/// behind `0x`, binary behind `0b` (the letter in either case), decimal
/// otherwise.
pub open spec fn number_of(text: Seq<u8>) -> Option<u16> {
    if text.len() >= 2 && text[0] == 0x30 && (text[1] == 0x78 || text[1] == 0x58) {
        number_in(text.skip(2), 16)
    } else if text.len() >= 2 && text[0] == 0x30 && (text[1] == 0x62 || text[1] == 0x42) {
        number_in(text.skip(2), 2)
    } else {
        number_in(text, 10)
    }
}

/// A row of digits writes a number that is not below the number that any
/// of its beginnings writes, and every beginning is a row of digits.
pub proof fn lemma_digits_grow(digits: Seq<u8>, radix: int, upto: int)
    requires
        2 <= radix <= 36,
        0 <= upto <= digits.len(),
        digits_value(digits, radix) is Some,
    ensures
        digits_value(digits.take(upto), radix) is Some,
        0 <= digits_value(digits.take(upto), radix)->0 <= digits_value(digits, radix)->0,
    decreases digits.len() - upto,
{
    if upto == digits.len() {
        assert(digits.take(upto) =~= digits);
        lemma_digits_not_negative(digits, radix);
    } else {
        lemma_digits_grow(digits, radix, upto + 1);
        let longer = digits.take(upto + 1);
        assert(longer.drop_last() =~= digits.take(upto));
        lemma_digits_not_negative(digits.take(upto), radix);
        let shorter = digits_value(digits.take(upto), radix)->0;
        assert(shorter * radix >= shorter) by (nonlinear_arith)
            requires
                shorter >= 0,
                radix >= 2,
        ;
    }
}

proof fn lemma_digits_not_negative(digits: Seq<u8>, radix: int)
    requires
        2 <= radix <= 36,
    ensures
        digits_value(digits, radix) matches Some(value) ==> value >= 0,
    decreases digits.len(),
{
    if digits.len() > 0 {
        lemma_digits_not_negative(digits.drop_last(), radix);
        if let Some(upper) = digits_value(digits.drop_last(), radix) {
            assert(upper * radix >= 0) by (nonlinear_arith)
                requires
                    upper >= 0,
                    radix >= 2,
            ;
        }
    }
}

/// The value of a digit in a radix.
pub fn digit_value(byte: u8, radix: u32) -> (digit: Option<u32>)
    requires
        2 <= radix <= 36,
    ensures
        digit matches Some(value) ==> digit_of(byte, radix as int) == Some(value as int),
        digit is None ==> digit_of(byte, radix as int) is None,
{
    let value: u32 = if 0x30 <= byte && byte <= 0x39 {
        (byte - 0x30) as u32
    } else if 0x61 <= byte && byte <= 0x7A {
        (byte - 0x61) as u32 + 10
    } else if 0x41 <= byte && byte <= 0x5A {
        (byte - 0x41) as u32 + 10
    } else {
        36
    };
    if value < radix {
        Some(value)
    } else {
        None
    }
}

/// Reads a 16-bit number in a radix from the bytes of a text, from `start`
/// on.
pub fn parse_radix(text: &[u8], start: usize, radix: u32) -> (number: Option<u16>)
    requires
        start <= text@.len(),
        2 <= radix <= 36,
    ensures
        number == number_in(text@.skip(start as int), radix as int),
{
    let ghost whole = text@.skip(start as int);
    let mut at: usize = start;
    if at < text.len() && text[at] == 0x2B {
        at += 1;
    }
    let ghost digits = text@.skip(at as int);
    assert(digits =~= if whole.len() > 0 && whole[0] == 0x2B {
        whole.skip(1)
    } else {
        whole
    });
    if at == text.len() {
        return None;
    }
    let first = at;
    let mut value: u32 = 0;
    assert(digits.take(0) =~= Seq::<u8>::empty());
    while at < text.len()
        invariant
            first <= at <= text@.len(),
            first < text@.len(),
            2 <= radix <= 36,
            digits == text@.skip(first as int),
            whole == text@.skip(start as int),
            digits == if whole.len() > 0 && whole[0] == 0x2B {
                whole.skip(1)
            } else {
                whole
            },
            digits_value(digits.take(at - first), radix as int) == Some(value as int),
            value <= 0xFFFF,
        decreases text@.len() - at,
    {
        let ghost seen = digits.take(at - first);
        let ghost next = digits.take(at - first + 1);
        proof {
            assert(next.drop_last() =~= seen);
            assert(next.last() == text@[at as int]);
        }
        match digit_value(text[at], radix) {
            Some(digit) => {
                assert(value * radix + digit <= 0xFFFF * 36 + 36) by (nonlinear_arith)
                    requires
                        value <= 0xFFFF,
                        radix <= 36,
                        digit < radix,
                ;
                value = value * radix + digit;
                assert(digits_value(next, radix as int) == Some(value as int));
                if value > 0xFFFF {
                    proof {
                        if digits_value(digits, radix as int) is Some {
                            lemma_digits_grow(digits, radix as int, at - first + 1);
                        }
                    }
                    return None;
                }
            },
            None => {
                proof {
                    assert(digits_value(next, radix as int) is None);
                    if digits_value(digits, radix as int) is Some {
                        lemma_digits_grow(digits, radix as int, at - first + 1);
                    }
                }
                return None;
            },
        }
        at += 1;
    }
    assert(digits.take(at - first) =~= digits);
    Some(value as u16)
}

/// Reads the 16-bit number that a word of a console command writes.
pub fn parse_number(text: &[u8]) -> (number: Option<u16>)
    ensures
        number == number_of(text@),
{
    if text.len() >= 2 && text[0] == 0x30 && (text[1] == 0x78 || text[1] == 0x58) {
        parse_radix(text, 2, 16)
    } else if text.len() >= 2 && text[0] == 0x30 && (text[1] == 0x62 || text[1] == 0x42) {
        parse_radix(text, 2, 2)
    } else {
        assert(text@.skip(0) =~= text@);
        parse_radix(text, 0, 10)
    }
}

/// What a line typed at the debug console asks for.
#[derive(Clone, Copy, Debug, PartialEq, Eq, Structural)]
pub enum DebugCommand {
    /// Run one instruction and come back.
    Step,
    /// Leave the console and run on.
    Continue,
    /// Show the whole machine.
    Debug,
    /// Show the pixel unit.
    Ppu,
    /// Push the frame to the screen.
    Flush,
    /// Show the cartridge header.
    Rom,
    /// Show the registers.
    Registers,
    /// Show the commands.
    Help,
    /// Show the interrupt state.
    Interrupts,
    /// Show the last instructions.
    Instructions,
    /// Show memory.
    Print,
    /// Set or remove a breakpoint.
    Break,
    /// Watch an address.
    BreakMemory,
    /// Not a command.
    Invalid,
}

/// The name `s`.
pub const NAME_S: [u8; 1] = [0x73];

/// The name `step`.
pub const NAME_STEP: [u8; 4] = [0x73, 0x74, 0x65, 0x70];

/// The name `c`.
pub const NAME_C: [u8; 1] = [0x63];

/// The name `continue`.
pub const NAME_CONTINUE: [u8; 8] = [0x63, 0x6F, 0x6E, 0x74, 0x69, 0x6E, 0x75, 0x65];

/// The name `d`.
pub const NAME_D: [u8; 1] = [0x64];

/// The name `debug`.
pub const NAME_DEBUG: [u8; 5] = [0x64, 0x65, 0x62, 0x75, 0x67];

/// The name `ppu`.
pub const NAME_PPU: [u8; 3] = [0x70, 0x70, 0x75];

/// The name `f`.
pub const NAME_F: [u8; 1] = [0x66];

/// The name `flush`.
pub const NAME_FLUSH: [u8; 5] = [0x66, 0x6C, 0x75, 0x73, 0x68];

/// The name `ro`.
pub const NAME_RO: [u8; 2] = [0x72, 0x6F];

/// The name `rom`.
pub const NAME_ROM: [u8; 3] = [0x72, 0x6F, 0x6D];

/// The name `r`.
pub const NAME_R: [u8; 1] = [0x72];

/// The name `registers`.
pub const NAME_REGISTERS: [u8; 9] = [0x72, 0x65, 0x67, 0x69, 0x73, 0x74, 0x65, 0x72, 0x73];

/// The name `h`.
pub const NAME_H: [u8; 1] = [0x68];

/// The name `help`.
pub const NAME_HELP: [u8; 4] = [0x68, 0x65, 0x6C, 0x70];

/// The name `i`.
pub const NAME_I: [u8; 1] = [0x69];

/// The name `interrupts`.
pub const NAME_INTERRUPTS: [u8; 10] = [0x69, 0x6E, 0x74, 0x65, 0x72, 0x72, 0x75, 0x70, 0x74, 0x73];

/// The name `ins`.
pub const NAME_INS: [u8; 3] = [0x69, 0x6E, 0x73];

/// The name `instructions`.
pub const NAME_INSTRUCTIONS: [u8; 12] = [0x69, 0x6E, 0x73, 0x74, 0x72, 0x75, 0x63, 0x74, 0x69, 0x6F, 0x6E, 0x73];

/// The name `p`.
pub const NAME_P: [u8; 1] = [0x70];

/// The name `print`.
pub const NAME_PRINT: [u8; 5] = [0x70, 0x72, 0x69, 0x6E, 0x74];

/// The name `b`.
pub const NAME_B: [u8; 1] = [0x62];

/// The name `break`.
pub const NAME_BREAK: [u8; 5] = [0x62, 0x72, 0x65, 0x61, 0x6B];

/// The name `bm`.
pub const NAME_BM: [u8; 2] = [0x62, 0x6D];

/// The name `breakmemory`.
pub const NAME_BREAKMEMORY: [u8; 11] = [0x62, 0x72, 0x65, 0x61, 0x6B, 0x6D, 0x65, 0x6D, 0x6F, 0x72, 0x79];

/// A letter in lower case; any other byte as it is.
pub open spec fn lower_of(byte: u8) -> u8 {
    if 0x41 <= byte <= 0x5A {
        (byte + 0x20) as u8
    } else {
        byte
    }
}

/// Whether a word is a given name, the case of its letters set aside.
pub open spec fn names(word: Seq<u8>, name: Seq<u8>) -> bool {
    word.len() == name.len() && forall|i: int| 0 <= i < word.len() ==> lower_of(word[i]) == name[i]
}

/// The command that the first word of a line names. Every command has a
/// long and a short name; an empty line steps.
pub open spec fn command_of(word: Seq<u8>) -> DebugCommand {
    if word.len() == 0 || names(word, NAME_S@) || names(
        word,
        NAME_STEP@,
    ) {
        DebugCommand::Step
    } else if names(word, NAME_C@) || names(
        word,
        NAME_CONTINUE@,
    ) {
        DebugCommand::Continue
    } else if names(word, NAME_D@) || names(word, NAME_DEBUG@) {
        DebugCommand::Debug
    } else if names(word, NAME_PPU@) {
        DebugCommand::Ppu
    } else if names(word, NAME_F@) || names(word, NAME_FLUSH@) {
        DebugCommand::Flush
    } else if names(word, NAME_RO@) || names(word, NAME_ROM@) {
        DebugCommand::Rom
    } else if names(word, NAME_R@) || names(
        word,
        NAME_REGISTERS@,
    ) {
        DebugCommand::Registers
    } else if names(word, NAME_H@) || names(word, NAME_HELP@) {
        DebugCommand::Help
    } else if names(word, NAME_I@) || names(
        word,
        NAME_INTERRUPTS@,
    ) {
        DebugCommand::Interrupts
    } else if names(word, NAME_INS@) || names(
        word,
        NAME_INSTRUCTIONS@,
    ) {
        DebugCommand::Instructions
    } else if names(word, NAME_P@) || names(word, NAME_PRINT@) {
        DebugCommand::Print
    } else if names(word, NAME_B@) || names(word, NAME_BREAK@) {
        DebugCommand::Break
    } else if names(word, NAME_BM@) || names(
        word,
        NAME_BREAKMEMORY@,
    ) {
        DebugCommand::BreakMemory
    } else {
        DebugCommand::Invalid
    }
}

/// Whether a word is a given name, the case of its letters set aside.
pub fn is_named(word: &[u8], name: &[u8]) -> (same: bool)
    ensures
        same == names(word@, name@),
{
    if word.len() != name.len() {
        return false;
    }
    let mut i: usize = 0;
    while i < word.len()
        invariant
            i <= word@.len(),
            word@.len() == name@.len(),
            forall|k: int| 0 <= k < i ==> lower_of(word@[k]) == name@[k],
        decreases word@.len() - i,
    {
        let byte = word[i];
        let lower: u8 = if 0x41 <= byte && byte <= 0x5A { byte + 0x20 } else { byte };
        if lower != name[i] {
            return false;
        }
        i += 1;
    }
    true
}

/// The command that the first word of a line names.
pub fn parse_command(word: &[u8]) -> (command: DebugCommand)
    ensures
        command == command_of(word@),
{
    if word.len() == 0 || is_named(word, &NAME_S) || is_named(word, &NAME_STEP) {
        DebugCommand::Step
    } else if is_named(word, &NAME_C) || is_named(
        word,
        &NAME_CONTINUE,
    ) {
        DebugCommand::Continue
    } else if is_named(word, &NAME_D) || is_named(word, &NAME_DEBUG) {
        DebugCommand::Debug
    } else if is_named(word, &NAME_PPU) {
        DebugCommand::Ppu
    } else if is_named(word, &NAME_F) || is_named(word, &NAME_FLUSH) {
        DebugCommand::Flush
    } else if is_named(word, &NAME_RO) || is_named(word, &NAME_ROM) {
        DebugCommand::Rom
    } else if is_named(word, &NAME_R) || is_named(
        word,
        &NAME_REGISTERS,
    ) {
        DebugCommand::Registers
    } else if is_named(word, &NAME_H) || is_named(word, &NAME_HELP) {
        DebugCommand::Help
    } else if is_named(word, &NAME_I) || is_named(
        word,
        &NAME_INTERRUPTS,
    ) {
        DebugCommand::Interrupts
    } else if is_named(word, &NAME_INS) || is_named(
        word,
        &NAME_INSTRUCTIONS,
    ) {
        DebugCommand::Instructions
    } else if is_named(word, &NAME_P) || is_named(word, &NAME_PRINT) {
        DebugCommand::Print
    } else if is_named(word, &NAME_B) || is_named(word, &NAME_BREAK) {
        DebugCommand::Break
    } else if is_named(word, &NAME_BM) || is_named(
        word,
        &NAME_BREAKMEMORY,
    ) {
        DebugCommand::BreakMemory
    } else {
        DebugCommand::Invalid
    }
}

/// Why a request to show memory was refused.
#[derive(Clone, Copy, Debug, PartialEq, Eq, Structural)]
pub enum RangeError {
    /// Not one number, nor two.
    WrongCount,
    /// The range starts behind its end.
    StartBehindEnd,
}

/// The range of memory that the numbers behind a print command name: from
/// the first to the second; with one number alone, the fifteen bytes from it
/// on, as far as the address space goes.
pub open spec fn range_of(numbers: Seq<u16>) -> Result<(u16, u16), RangeError> {
    if numbers.len() == 1 {
        Ok(
            (
                numbers[0],
                if numbers[0] <= 0xFFF0 {
                    (numbers[0] + 0xF) as u16
                } else {
                    0xFFFFu16
                },
            ),
        )
    } else if numbers.len() == 2 {
        if numbers[0] > numbers[1] {
            Err(RangeError::StartBehindEnd)
        } else {
            Ok((numbers[0], numbers[1]))
        }
    } else {
        Err(RangeError::WrongCount)
    }
}

/// The range of memory that the numbers behind a print command name.
pub fn memory_range(numbers: &[u16]) -> (range: Result<(u16, u16), RangeError>)
    ensures
        range == range_of(numbers@),
{
    if numbers.len() == 1 {
        let start = numbers[0];
        Ok((start, if start <= 0xFFF0 { start + 0xF } else { 0xFFFF }))
    } else if numbers.len() == 2 {
        if numbers[0] > numbers[1] {
            Err(RangeError::StartBehindEnd)
        } else {
            Ok((numbers[0], numbers[1]))
        }
    } else {
        Err(RangeError::WrongCount)
    }
}

} // verus!
