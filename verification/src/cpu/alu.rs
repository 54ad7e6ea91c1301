use super::flag_register::FlagsRegister;
use crate::bits::{bit_is_set, pow2, signed_of, wrap16, wrap8};
use vstd::prelude::*;

verus! {

/// One for a set carry, zero for a clear one.
pub open spec fn carry_in(carry: bool) -> int {
    if carry {
        1
    } else {
        0
    }
}

/// `a + b + carry` on bytes: the sum modulo 256; H is the carry out of the
/// low nibble, C the carry out of the byte.
pub open spec fn add_result(a: u8, b: u8, carry: bool) -> (u8, FlagsRegister) {
    let value = wrap8(a as int + b as int, carry_in(carry));
    (
        value,
        FlagsRegister {
            zero: value == 0,
            subtract: false,
            half_carry: a % 16 + b % 16 + carry_in(carry) > 15,
            carry: a + b + carry_in(carry) > 255,
        },
    )
}

/// `a - b - carry` on bytes: the difference modulo 256; H is the borrow into
/// the low nibble, C the borrow into the byte.
pub open spec fn sub_result(a: u8, b: u8, carry: bool) -> (u8, FlagsRegister) {
    let value = wrap8(a as int - b as int, -carry_in(carry));
    (
        value,
        FlagsRegister {
            zero: value == 0,
            subtract: true,
            half_carry: a % 16 < b % 16 + carry_in(carry),
            carry: a < b + carry_in(carry),
        },
    )
}

pub open spec fn and_result(a: u8, b: u8) -> (u8, FlagsRegister) {
    let value = a & b;
    (value, FlagsRegister { zero: value == 0, subtract: false, half_carry: true, carry: false })
}

pub open spec fn or_result(a: u8, b: u8) -> (u8, FlagsRegister) {
    let value = a | b;
    (value, FlagsRegister { zero: value == 0, subtract: false, half_carry: false, carry: false })
}

pub open spec fn xor_result(a: u8, b: u8) -> (u8, FlagsRegister) {
    let value = a ^ b;
    (value, FlagsRegister { zero: value == 0, subtract: false, half_carry: false, carry: false })
}

/// `value + 1` modulo 256. The carry flag is not touched.
pub open spec fn inc_result(value: u8, flags: FlagsRegister) -> (u8, FlagsRegister) {
    let result = wrap8(value as int, 1);
    (
        result,
        FlagsRegister {
            zero: result == 0,
            subtract: false,
            half_carry: value % 16 == 15,
            carry: flags.carry,
        },
    )
}

/// `value - 1` modulo 256. The carry flag is not touched.
pub open spec fn dec_result(value: u8, flags: FlagsRegister) -> (u8, FlagsRegister) {
    let result = wrap8(value as int, -1);
    (
        result,
        FlagsRegister {
            zero: result == 0,
            subtract: true,
            half_carry: value % 16 == 0,
            carry: flags.carry,
        },
    )
}

/// `a + b` on 16-bit words. H is the carry out of bit 11, C the carry out of
/// the word; the zero flag is not touched.
pub open spec fn add16_result(a: u16, b: u16, flags: FlagsRegister) -> (u16, FlagsRegister) {
    (
        wrap16(a as int, b as int),
        FlagsRegister {
            zero: flags.zero,
            subtract: false,
            half_carry: a % 4096 + b % 4096 > 4095,
            carry: a + b > 65535,
        },
    )
}

/// The stack pointer plus a signed byte offset. The flags come from adding
/// the offset, read as an unsigned byte, to the low byte of the stack
/// pointer.
pub open spec fn add_sp_result(sp: u16, offset: u8) -> (u16, FlagsRegister) {
    (
        wrap16(sp as int, signed_of(offset)),
        FlagsRegister {
            zero: false,
            subtract: false,
            half_carry: sp % 16 + offset % 16 > 15,
            carry: sp % 256 + offset > 255,
        },
    )
}

/// The eight rotates and shifts of the prefixed table.
#[derive(Clone, Copy, Debug, PartialEq, Eq, Structural)]
pub enum Shift {
    /// Rotate left; bit 7 goes to bit 0 and to the carry.
    Rlc,
    /// Rotate right; bit 0 goes to bit 7 and to the carry.
    Rrc,
    /// Rotate left through the carry.
    Rl,
    /// Rotate right through the carry.
    Rr,
    /// Shift left; bit 0 becomes zero.
    Sla,
    /// Shift right; bit 7 keeps its value.
    Sra,
    /// Exchange the two nibbles.
    Swap,
    /// Shift right; bit 7 becomes zero.
    Srl,
}

/// The byte that a rotate or shift produces.
pub open spec fn shift_value(shift: Shift, value: u8, carry: bool) -> u8 {
    let v = value as int;
    (match shift {
        Shift::Rlc => (v * 2) % 256 + v / 128,
        Shift::Rrc => v / 2 + (v % 2) * 128,
        Shift::Rl => (v * 2) % 256 + carry_in(carry),
        Shift::Rr => v / 2 + carry_in(carry) * 128,
        Shift::Sla => (v * 2) % 256,
        Shift::Sra => v / 2 + (v / 128) * 128,
        Shift::Swap => (v % 16) * 16 + v / 16,
        Shift::Srl => v / 2,
    }) as u8
}

/// The bit that a rotate or shift moves out of the byte. SWAP moves none.
pub open spec fn shift_carry(shift: Shift, value: u8) -> bool {
    match shift {
        Shift::Rlc | Shift::Rl | Shift::Sla => value >= 128,
        Shift::Rrc | Shift::Rr | Shift::Sra | Shift::Srl => value % 2 == 1,
        Shift::Swap => false,
    }
}

/// A rotate or shift of the prefixed table: Z is set on a zero result.
pub open spec fn shift_result(shift: Shift, value: u8, carry: bool) -> (u8, FlagsRegister) {
    let result = shift_value(shift, value, carry);
    (
        result,
        FlagsRegister {
            zero: result == 0,
            subtract: false,
            half_carry: false,
            carry: shift_carry(shift, value),
        },
    )
}

/// A rotate of the accumulator by one of the four unprefixed opcodes: as the
/// prefixed rotate, but Z is always clear.
pub open spec fn rotate_a_result(shift: Shift, value: u8, carry: bool) -> (u8, FlagsRegister) {
    let (result, flags) = shift_result(shift, value, carry);
    (result, FlagsRegister { zero: false, ..flags })
}

/// The flags after BIT: Z is set when the tested bit is clear; the carry
/// flag is not touched.
pub open spec fn bit_flags(index: u8, value: u8, flags: FlagsRegister) -> FlagsRegister {
    FlagsRegister {
        zero: !bit_is_set(value, index as int),
        subtract: false,
        half_carry: true,
        carry: flags.carry,
    }
}

/// A byte with one bit set or cleared and the others as they were.
pub open spec fn with_bit(value: u8, index: u8, on: bool) -> u8 {
    let weight = pow2(index as int);
    if on == bit_is_set(value, index as int) {
        value
    } else if on {
        (value + weight) as u8
    } else {
        (value - weight) as u8
    }
}

/// The correction that DAA applies: 0x06 when the low decimal digit needs
/// it, plus 0x60 when the high one does. After a subtraction only H and C
/// decide; after an addition the digits of the accumulator count too.
pub open spec fn daa_correction(a: u8, flags: FlagsRegister) -> int {
    let low: int = if flags.half_carry || (!flags.subtract && a % 16 > 9) {
        0x06
    } else {
        0
    };
    let high: int = if daa_carry(a, flags) {
        0x60
    } else {
        0
    };
    low + high
}

/// Whether DAA applies the high correction, which is also the carry it
/// leaves.
pub open spec fn daa_carry(a: u8, flags: FlagsRegister) -> bool {
    flags.carry || (!flags.subtract && a > 0x99)
}

/// Decimal adjustment of the accumulator after an addition or subtraction of
/// packed decimal numbers.
pub open spec fn daa_result(a: u8, flags: FlagsRegister) -> (u8, FlagsRegister) {
    let value = if flags.subtract {
        wrap8(a as int, -daa_correction(a, flags))
    } else {
        wrap8(a as int, daa_correction(a, flags))
    };
    (
        value,
        FlagsRegister {
            zero: value == 0,
            subtract: flags.subtract,
            half_carry: false,
            carry: daa_carry(a, flags),
        },
    )
}

/// The complement of the accumulator; N and H are set.
pub open spec fn cpl_result(a: u8, flags: FlagsRegister) -> (u8, FlagsRegister) {
    ((255 - a) as u8, FlagsRegister { subtract: true, half_carry: true, ..flags })
}

/// The flags after SCF: carry set, N and H clear.
pub open spec fn scf_flags(flags: FlagsRegister) -> FlagsRegister {
    FlagsRegister { subtract: false, half_carry: false, carry: true, ..flags }
}

/// The flags after CCF: carry inverted, N and H clear.
pub open spec fn ccf_flags(flags: FlagsRegister) -> FlagsRegister {
    FlagsRegister { subtract: false, half_carry: false, carry: !flags.carry, ..flags }
}

pub fn alu_add(a: u8, b: u8, carry: bool) -> (out: (u8, FlagsRegister))
    ensures
        out == add_result(a, b, carry),
{
    let c: u16 = if carry { 1 } else { 0 };
    let sum: u16 = a as u16 + b as u16 + c;
    let value: u8 = (sum % 256) as u8;
    (
        value,
        FlagsRegister {
            zero: value == 0,
            subtract: false,
            half_carry: (a % 16) as u16 + (b % 16) as u16 + c > 15,
            carry: sum > 255,
        },
    )
}

pub fn alu_sub(a: u8, b: u8, carry: bool) -> (out: (u8, FlagsRegister))
    ensures
        out == sub_result(a, b, carry),
{
    let c: u16 = if carry { 1 } else { 0 };
    let taken: u16 = b as u16 + c;
    let value: u8 = if a as u16 >= taken {
        (a as u16 - taken) as u8
    } else {
        (a as u16 + 256 - taken) as u8
    };
    (
        value,
        FlagsRegister {
            zero: value == 0,
            subtract: true,
            half_carry: ((a % 16) as u16) < (b % 16) as u16 + c,
            carry: (a as u16) < taken,
        },
    )
}

pub fn alu_and(a: u8, b: u8) -> (out: (u8, FlagsRegister))
    ensures
        out == and_result(a, b),
{
    let value = a & b;
    (value, FlagsRegister { zero: value == 0, subtract: false, half_carry: true, carry: false })
}

pub fn alu_or(a: u8, b: u8) -> (out: (u8, FlagsRegister))
    ensures
        out == or_result(a, b),
{
    let value = a | b;
    (value, FlagsRegister { zero: value == 0, subtract: false, half_carry: false, carry: false })
}

pub fn alu_xor(a: u8, b: u8) -> (out: (u8, FlagsRegister))
    ensures
        out == xor_result(a, b),
{
    let value = a ^ b;
    (value, FlagsRegister { zero: value == 0, subtract: false, half_carry: false, carry: false })
}

pub fn alu_inc(value: u8, flags: FlagsRegister) -> (out: (u8, FlagsRegister))
    ensures
        out == inc_result(value, flags),
{
    let result: u8 = if value == 255 { 0 } else { value + 1 };
    (
        result,
        FlagsRegister {
            zero: result == 0,
            subtract: false,
            half_carry: value % 16 == 15,
            carry: flags.carry,
        },
    )
}

pub fn alu_dec(value: u8, flags: FlagsRegister) -> (out: (u8, FlagsRegister))
    ensures
        out == dec_result(value, flags),
{
    let result: u8 = if value == 0 { 255 } else { value - 1 };
    (
        result,
        FlagsRegister {
            zero: result == 0,
            subtract: true,
            half_carry: value % 16 == 0,
            carry: flags.carry,
        },
    )
}

pub fn alu_add16(a: u16, b: u16, flags: FlagsRegister) -> (out: (u16, FlagsRegister))
    ensures
        out == add16_result(a, b, flags),
{
    let sum: u32 = a as u32 + b as u32;
    (
        (sum % 65536) as u16,
        FlagsRegister {
            zero: flags.zero,
            subtract: false,
            half_carry: (a % 4096) as u32 + (b % 4096) as u32 > 4095,
            carry: sum > 65535,
        },
    )
}

pub fn alu_add_sp(sp: u16, offset: u8) -> (out: (u16, FlagsRegister))
    ensures
        out == add_sp_result(sp, offset),
{
    let wide: u32 = if offset < 128 {
        sp as u32 + offset as u32
    } else {
        sp as u32 + 65536 + offset as u32 - 256
    };
    (
        (wide % 65536) as u16,
        FlagsRegister {
            zero: false,
            subtract: false,
            half_carry: (sp % 16) as u32 + (offset % 16) as u32 > 15,
            carry: (sp % 256) as u32 + offset as u32 > 255,
        },
    )
}

pub fn alu_shift(shift: Shift, value: u8, carry: bool) -> (out: (u8, FlagsRegister))
    ensures
        out == shift_result(shift, value, carry),
{
    let c: u8 = if carry { 1 } else { 0 };
    let doubled: u8 = ((value as u16 * 2) % 256) as u8;
    let (result, moved_out): (u8, bool) = match shift {
        Shift::Rlc => (doubled + value / 128, value >= 128),
        Shift::Rrc => (value / 2 + (value % 2) * 128, value % 2 == 1),
        Shift::Rl => (doubled + c, value >= 128),
        Shift::Rr => (value / 2 + c * 128, value % 2 == 1),
        Shift::Sla => (doubled, value >= 128),
        Shift::Sra => (value / 2 + (value / 128) * 128, value % 2 == 1),
        Shift::Swap => ((value % 16) * 16 + value / 16, false),
        Shift::Srl => (value / 2, value % 2 == 1),
    };
    (
        result,
        FlagsRegister { zero: result == 0, subtract: false, half_carry: false, carry: moved_out },
    )
}

pub fn alu_rotate_a(shift: Shift, value: u8, carry: bool) -> (out: (u8, FlagsRegister))
    ensures
        out == rotate_a_result(shift, value, carry),
{
    let (result, flags) = alu_shift(shift, value, carry);
    (
        result,
        FlagsRegister {
            zero: false,
            subtract: flags.subtract,
            half_carry: flags.half_carry,
            carry: flags.carry,
        },
    )
}

/// The weight of a bit position.
pub fn bit_weight(index: u8) -> (weight: u8)
    requires
        index < 8,
    ensures
        weight == pow2(index as int),
{
    match index {
        0 => 1,
        1 => 2,
        2 => 4,
        3 => 8,
        4 => 16,
        5 => 32,
        6 => 64,
        _ => 128,
    }
}

pub fn test_bit(value: u8, index: u8) -> (set: bool)
    requires
        index < 8,
    ensures
        set == bit_is_set(value, index as int),
{
    (value / bit_weight(index)) % 2 == 1
}

pub fn alu_bit(index: u8, value: u8, flags: FlagsRegister) -> (out: FlagsRegister)
    requires
        index < 8,
    ensures
        out == bit_flags(index, value, flags),
{
    FlagsRegister {
        zero: !test_bit(value, index),
        subtract: false,
        half_carry: true,
        carry: flags.carry,
    }
}

pub fn alu_with_bit(value: u8, index: u8, on: bool) -> (out: u8)
    requires
        index < 8,
    ensures
        out == with_bit(value, index, on),
{
    let weight = bit_weight(index);
    let set = test_bit(value, index);
    if on == set {
        value
    } else if on {
        proof {
            lemma_bit_room(value, index);
        }
        value + weight
    } else {
        proof {
            lemma_bit_room(value, index);
        }
        value - weight
    }
}

/// A byte with a bit clear has room for that bit's weight below 256; one
/// with the bit set is at least the weight.
pub proof fn lemma_bit_room(value: u8, index: u8)
    requires
        index < 8,
    ensures
        !bit_is_set(value, index as int) ==> value + pow2(index as int) <= 255,
        bit_is_set(value, index as int) ==> value >= pow2(index as int),
{
}

/// A bit that was set or cleared reads back as it was written, and the other
/// bits read as before.
pub proof fn lemma_with_bit_reads(value: u8, index: u8, on: bool)
    requires
        index < 8,
    ensures
        bit_is_set(with_bit(value, index, on), index as int) == on,
        forall|other: int|
            0 <= other < 8 && other != index ==> bit_is_set(with_bit(value, index, on), other)
                == bit_is_set(value, other),
{
    assert forall|other: int| 0 <= other < 8 implies bit_is_set(
        with_bit(value, index, on),
        other,
    ) == if other == index {
        on
    } else {
        bit_is_set(value, other)
    } by {
        lemma_with_bit_reads_at(value, index, on, other);
    }
}

/// What one bit reads after another, or the same, was set or cleared.
proof fn lemma_with_bit_reads_at(value: u8, index: u8, on: bool, other: int)
    requires
        index < 8,
        0 <= other < 8,
    ensures
        bit_is_set(with_bit(value, index, on), other) == if other == index {
            on
        } else {
            bit_is_set(value, other)
        },
{
    let weight = pow2(index as int) as u8;
    let probe = pow2(other) as u8;
    lemma_bit_mask(value, weight);
    lemma_bit_mask(value, probe);
    lemma_bit_mask(with_bit(value, index, on), probe);
    lemma_mask_update(value, weight, probe);
}

/// Whether a byte is the weight of one of its eight bits.
pub open spec fn is_bit_weight(weight: u8) -> bool {
    weight == 1 || weight == 2 || weight == 4 || weight == 8 || weight == 16 || weight == 32
        || weight == 64 || weight == 128
}

/// The bit of a given weight is set when the quotient by the weight is odd,
/// and that is when the mask of the weight meets the byte.
pub proof fn lemma_bit_mask(value: u8, weight: u8)
    by (bit_vector)
    requires
        is_bit_weight(weight),
    ensures
        ((value / weight) % 2 == 1) == (value & weight != 0),
{
}

/// Adding the weight of a clear bit sets that bit and no other; subtracting
/// the weight of a set bit clears that bit and no other.
proof fn lemma_mask_update(value: u8, weight: u8, probe: u8)
    by (bit_vector)
    requires
        is_bit_weight(weight),
        is_bit_weight(probe),
    ensures
        value & weight == 0 ==> ((((value + weight) as u8) & probe != 0) == (probe == weight
            || value & probe != 0)),
        value & weight != 0 ==> ((((value - weight) as u8) & probe != 0) == (probe != weight
            && value & probe != 0)),
{
}

pub fn alu_daa(a: u8, flags: FlagsRegister) -> (out: (u8, FlagsRegister))
    ensures
        out == daa_result(a, flags),
{
    let mut correction: u8 = 0;
    let mut set_carry = false;
    if flags.half_carry || (!flags.subtract && a % 16 > 9) {
        correction = correction + 0x06;
    }
    if flags.carry || (!flags.subtract && a > 0x99) {
        correction = correction + 0x60;
        set_carry = true;
    }
    let value: u8 = if flags.subtract {
        if a >= correction {
            a - correction
        } else {
            (a as u16 + 256 - correction as u16) as u8
        }
    } else {
        ((a as u16 + correction as u16) % 256) as u8
    };
    (
        value,
        FlagsRegister {
            zero: value == 0,
            subtract: flags.subtract,
            half_carry: false,
            carry: set_carry,
        },
    )
}

pub fn alu_cpl(a: u8, flags: FlagsRegister) -> (out: (u8, FlagsRegister))
    ensures
        out == cpl_result(a, flags),
{
    (
        255 - a,
        FlagsRegister {
            zero: flags.zero,
            subtract: true,
            half_carry: true,
            carry: flags.carry,
        },
    )
}

} // verus!
