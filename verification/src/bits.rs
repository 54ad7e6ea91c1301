use vstd::prelude::*;

verus! {

/// The 16-bit word whose upper byte is `high` and whose lower byte is `low`.
pub open spec fn word_of(high: u8, low: u8) -> u16 {
    (high as int * 256 + low as int) as u16
}

/// The upper byte of a 16-bit word.
pub open spec fn high_byte_of(word: u16) -> u8 {
    (word as int / 256) as u8
}

/// The lower byte of a 16-bit word.
pub open spec fn low_byte_of(word: u16) -> u8 {
    (word as int % 256) as u8
}

/// The value of a byte read as a two's complement number.
pub open spec fn signed_of(byte: u8) -> int {
    if byte < 128 {
        byte as int
    } else {
        byte as int - 256
    }
}

/// Sixteen-bit addition that wraps around at 65536; `delta` may be negative.
pub open spec fn wrap16(base: int, delta: int) -> u16 {
    ((base + delta) % 65536) as u16
}

/// Eight-bit addition that wraps around at 256; `delta` may be negative.
pub open spec fn wrap8(base: int, delta: int) -> u8 {
    ((base + delta) % 256) as u8
}

/// Whether bit `index` (0 is the least significant) of `byte` is set.
pub open spec fn bit_is_set(byte: u8, index: int) -> bool
    recommends
        0 <= index < 8,
{
    (byte as int / pow2(index)) % 2 == 1
}

/// Two to the power `index`, for the eight bit positions of a byte.
pub open spec fn pow2(index: int) -> int {
    if index <= 0 {
        1
    } else if index == 1 {
        2
    } else if index == 2 {
        4
    } else if index == 3 {
        8
    } else if index == 4 {
        16
    } else if index == 5 {
        32
    } else if index == 6 {
        64
    } else {
        128
    }
}

pub fn make_word(high: u8, low: u8) -> (word: u16)
    ensures
        word == word_of(high, low),
{
    let h: u16 = high as u16;
    let l: u16 = low as u16;
    h * 256 + l
}

pub fn high_byte(word: u16) -> (byte: u8)
    ensures
        byte == high_byte_of(word),
{
    (word / 256) as u8
}

pub fn low_byte(word: u16) -> (byte: u8)
    ensures
        byte == low_byte_of(word),
{
    (word % 256) as u8
}

/// Reads a byte as a signed offset.
pub fn to_signed(byte: u8) -> (value: i8)
    ensures
        value as int == signed_of(byte),
{
    if byte < 128 {
        byte as i8
    } else {
        let below: i16 = byte as i16 - 256;
        below as i8
    }
}

/// Adds a signed byte offset to a 16-bit address, wrapping at the ends.
pub fn offset_address(base: u16, offset: i8) -> (address: u16)
    ensures
        address == wrap16(base as int, offset as int),
{
    let wide: i32 = base as i32 + offset as i32;
    if wide < 0 {
        (wide + 65536) as u16
    } else if wide >= 65536 {
        (wide - 65536) as u16
    } else {
        wide as u16
    }
}

/// Splitting a word into its bytes and joining them again gives the word back.
pub proof fn lemma_word_round_trip(word: u16)
    ensures
        word_of(high_byte_of(word), low_byte_of(word)) == word,
{
}

/// The bytes of a joined word are the bytes it was joined from.
pub proof fn law_word_bytes(high: u8, low: u8)
    ensures
        high_byte_of(word_of(high, low)) == high,
        low_byte_of(word_of(high, low)) == low,
{
}

} // verus!
