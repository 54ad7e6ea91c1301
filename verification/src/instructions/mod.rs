pub mod cond;
pub mod r16;
pub mod r16mem;
pub mod r16stk;
pub mod r8;

use crate::bits::{make_word, signed_of, to_signed, word_of};
use cond::Cond;
use r16::R16;
use r16mem::R16mem;
use r16stk::R16stk;
use r8::R8;
use vstd::prelude::*;

verus! {

/// One decoded instruction, with its operands.
#[derive(Clone, Copy, Debug, PartialEq, Eq, Structural)]
pub enum Instruction {
    Nop,
    Stop,
    Halt,
    // Loads
    LdAImm16mem(u16),
    LdAR16mem(R16mem),
    LdHlSpImm8(u8),
    LdImm16memA(u16),
    LdImm16memSp(u16),
    LdR16Imm16(R16, u16),
    LdR16memA(R16mem),
    LdR8Imm8(R8, u8),
    LdR8R8(R8, R8),
    LdSpHl,
    LdhACmem,
    LdhAImm8mem(u8),
    LdhCmemA,
    LdhImm8memA(u8),
    // Arithmetic and logic
    AdcAImm8(u8),
    AdcAR8(R8),
    AddAImm8(u8),
    AddAR8(R8),
    AddHlR16(R16),
    AddSpImm8(u8),
    AndAImm8(u8),
    AndAR8(R8),
    CpAImm8(u8),
    CpAR8(R8),
    DecR16(R16),
    DecR8(R8),
    IncR16(R16),
    IncR8(R8),
    OrAImm8(u8),
    OrAR8(R8),
    SbcAImm8(u8),
    SbcAR8(R8),
    SubAImm8(u8),
    SubAR8(R8),
    XorAImm8(u8),
    XorAR8(R8),
    // Rotates, shifts and accumulator adjustments
    Rlca,
    Rrca,
    Rla,
    Rra,
    Daa,
    Cpl,
    Scf,
    Ccf,
    RlcR8(R8),
    RrcR8(R8),
    RlR8(R8),
    RrR8(R8),
    SlaR8(R8),
    SraR8(R8),
    SwapR8(R8),
    SrlR8(R8),
    // Control flow and stack
    CallCondImm16(Cond, u16),
    CallImm16(u16),
    JpCondImm16(Cond, u16),
    JpHl,
    JpImm16(u16),
    JrCondImm8(Cond, i8),
    JrImm8(i8),
    PopR16stk(R16stk),
    PushR16stk(R16stk),
    Ret,
    RetCond(Cond),
    Reti,
    RstTgt3(u8),
    // Interrupt control
    Di,
    Ei,
    // Single-bit operations
    BitB3R8(u8, R8),
    ResB3R8(u8, R8),
    SetB3R8(u8, R8),
    ILLEGAL,
}

impl Instruction {
    /// Whether the instruction is one of the 0xCB-prefixed rotates, shifts and
    /// bit operations.
    pub open spec fn is_prefixed(self) -> bool {
        match self {
            Instruction::RlcR8(_)
            | Instruction::RrcR8(_)
            | Instruction::RlR8(_)
            | Instruction::RrR8(_)
            | Instruction::SlaR8(_)
            | Instruction::SraR8(_)
            | Instruction::SwapR8(_)
            | Instruction::SrlR8(_)
            | Instruction::BitB3R8(_, _)
            | Instruction::ResB3R8(_, _)
            | Instruction::SetB3R8(_, _) => true,
            _ => false,
        }
    }

    /// Whether the instruction carries a 16-bit immediate.
    pub open spec fn has_imm16(self) -> bool {
        match self {
            Instruction::LdAImm16mem(_)
            | Instruction::LdImm16memA(_)
            | Instruction::LdImm16memSp(_)
            | Instruction::LdR16Imm16(_, _)
            | Instruction::CallCondImm16(_, _)
            | Instruction::CallImm16(_)
            | Instruction::JpCondImm16(_, _)
            | Instruction::JpImm16(_) => true,
            _ => false,
        }
    }

    /// Whether the instruction carries an 8-bit immediate. STOP counts: its
    /// second byte is skipped.
    pub open spec fn has_imm8(self) -> bool {
        match self {
            Instruction::Stop
            | Instruction::LdHlSpImm8(_)
            | Instruction::LdR8Imm8(_, _)
            | Instruction::LdhAImm8mem(_)
            | Instruction::LdhImm8memA(_)
            | Instruction::AdcAImm8(_)
            | Instruction::AddAImm8(_)
            | Instruction::AddSpImm8(_)
            | Instruction::AndAImm8(_)
            | Instruction::CpAImm8(_)
            | Instruction::OrAImm8(_)
            | Instruction::SbcAImm8(_)
            | Instruction::SubAImm8(_)
            | Instruction::XorAImm8(_)
            | Instruction::JrCondImm8(_, _)
            | Instruction::JrImm8(_) => true,
            _ => false,
        }
    }

    /// The number of bytes the instruction occupies: the opcode, a prefix
    /// byte or an 8-bit immediate, or a 16-bit immediate.
    pub open spec fn length(self) -> int {
        if self.has_imm16() {
            3
        } else if self.has_imm8() || self.is_prefixed() {
            2
        } else {
            1
        }
    }

    /// Whether the instruction reads or writes the byte that HL points at
    /// through an 8-bit operand field.
    pub open spec fn touches_hl_byte(self) -> bool {
        match self {
            Instruction::LdR8Imm8(r, _)
            | Instruction::AdcAR8(r)
            | Instruction::AddAR8(r)
            | Instruction::AndAR8(r)
            | Instruction::CpAR8(r)
            | Instruction::DecR8(r)
            | Instruction::IncR8(r)
            | Instruction::OrAR8(r)
            | Instruction::SbcAR8(r)
            | Instruction::SubAR8(r)
            | Instruction::XorAR8(r)
            | Instruction::RlcR8(r)
            | Instruction::RrcR8(r)
            | Instruction::RlR8(r)
            | Instruction::RrR8(r)
            | Instruction::SlaR8(r)
            | Instruction::SraR8(r)
            | Instruction::SwapR8(r)
            | Instruction::SrlR8(r)
            | Instruction::BitB3R8(_, r)
            | Instruction::ResB3R8(_, r)
            | Instruction::SetB3R8(_, r) => r == R8::HL,
            Instruction::LdR8R8(to, from) => to == R8::HL || from == R8::HL,
            _ => false,
        }
    }

    /// The clock ticks the instruction takes. For a conditional jump, call or
    /// return this is the cost when the condition fails; `taken_cycles` is
    /// the cost when it holds.
    pub open spec fn cycles(self) -> int {
        match self {
            Instruction::Nop
            | Instruction::Stop
            | Instruction::Halt
            | Instruction::Rlca
            | Instruction::Rrca
            | Instruction::Rla
            | Instruction::Rra
            | Instruction::Daa
            | Instruction::Cpl
            | Instruction::Scf
            | Instruction::Ccf
            | Instruction::JpHl
            | Instruction::Di
            | Instruction::Ei
            | Instruction::ILLEGAL => 4,
            Instruction::LdR8R8(_, _)
            | Instruction::AdcAR8(_)
            | Instruction::AddAR8(_)
            | Instruction::AndAR8(_)
            | Instruction::CpAR8(_)
            | Instruction::OrAR8(_)
            | Instruction::SbcAR8(_)
            | Instruction::SubAR8(_)
            | Instruction::XorAR8(_) => if self.touches_hl_byte() {
                8
            } else {
                4
            },
            Instruction::IncR8(_) | Instruction::DecR8(_) => if self.touches_hl_byte() {
                12
            } else {
                4
            },
            Instruction::LdR8Imm8(_, _) | Instruction::BitB3R8(_, _) => if self.touches_hl_byte() {
                12
            } else {
                8
            },
            Instruction::RlcR8(_)
            | Instruction::RrcR8(_)
            | Instruction::RlR8(_)
            | Instruction::RrR8(_)
            | Instruction::SlaR8(_)
            | Instruction::SraR8(_)
            | Instruction::SwapR8(_)
            | Instruction::SrlR8(_)
            | Instruction::ResB3R8(_, _)
            | Instruction::SetB3R8(_, _) => if self.touches_hl_byte() {
                16
            } else {
                8
            },
            Instruction::LdAR16mem(_)
            | Instruction::LdR16memA(_)
            | Instruction::LdSpHl
            | Instruction::LdhACmem
            | Instruction::LdhCmemA
            | Instruction::AdcAImm8(_)
            | Instruction::AddAImm8(_)
            | Instruction::AndAImm8(_)
            | Instruction::CpAImm8(_)
            | Instruction::OrAImm8(_)
            | Instruction::SbcAImm8(_)
            | Instruction::SubAImm8(_)
            | Instruction::XorAImm8(_)
            | Instruction::AddHlR16(_)
            | Instruction::DecR16(_)
            | Instruction::IncR16(_)
            | Instruction::JrCondImm8(_, _)
            | Instruction::RetCond(_) => 8,
            Instruction::LdR16Imm16(_, _)
            | Instruction::LdHlSpImm8(_)
            | Instruction::LdhAImm8mem(_)
            | Instruction::LdhImm8memA(_)
            | Instruction::JrImm8(_)
            | Instruction::JpCondImm16(_, _)
            | Instruction::CallCondImm16(_, _)
            | Instruction::PopR16stk(_) => 12,
            Instruction::LdAImm16mem(_)
            | Instruction::LdImm16memA(_)
            | Instruction::AddSpImm8(_)
            | Instruction::JpImm16(_)
            | Instruction::PushR16stk(_)
            | Instruction::Ret
            | Instruction::Reti
            | Instruction::RstTgt3(_) => 16,
            Instruction::LdImm16memSp(_) => 20,
            Instruction::CallImm16(_) => 24,
        }
    }

    /// The clock ticks a conditional jump, call or return takes when its
    /// condition holds; for every other instruction, `cycles`.
    pub open spec fn taken_cycles(self) -> int {
        match self {
            Instruction::JrCondImm8(_, _) => 12,
            Instruction::JpCondImm16(_, _) => 16,
            Instruction::RetCond(_) => 20,
            Instruction::CallCondImm16(_, _) => 24,
            _ => self.cycles(),
        }
    }
}

/// The arithmetic or logic operation that the three-bit field `op` selects,
/// applied to the accumulator and an 8-bit operand.
pub open spec fn alu_on_r8(op: int, operand: R8) -> Instruction {
    let field = op % 8;
    if field == 0 {
        Instruction::AddAR8(operand)
    } else if field == 1 {
        Instruction::AdcAR8(operand)
    } else if field == 2 {
        Instruction::SubAR8(operand)
    } else if field == 3 {
        Instruction::SbcAR8(operand)
    } else if field == 4 {
        Instruction::AndAR8(operand)
    } else if field == 5 {
        Instruction::XorAR8(operand)
    } else if field == 6 {
        Instruction::OrAR8(operand)
    } else {
        Instruction::CpAR8(operand)
    }
}

/// The arithmetic or logic operation that the three-bit field `op` selects,
/// applied to the accumulator and an immediate byte.
pub open spec fn alu_on_imm8(op: int, imm8: u8) -> Instruction {
    let field = op % 8;
    if field == 0 {
        Instruction::AddAImm8(imm8)
    } else if field == 1 {
        Instruction::AdcAImm8(imm8)
    } else if field == 2 {
        Instruction::SubAImm8(imm8)
    } else if field == 3 {
        Instruction::SbcAImm8(imm8)
    } else if field == 4 {
        Instruction::AndAImm8(imm8)
    } else if field == 5 {
        Instruction::XorAImm8(imm8)
    } else if field == 6 {
        Instruction::OrAImm8(imm8)
    } else {
        Instruction::CpAImm8(imm8)
    }
}

/// What the second byte of a 0xCB-prefixed instruction encodes. The top two
/// bits choose between the rotate and shift group and BIT, RES and SET; the
/// middle three choose the operation or the bit; the low three the operand.
pub open spec fn decode_prefixed(opcode: u8) -> Instruction {
    let operand = R8::of_bits(opcode as int);
    let middle = (opcode as int / 8) % 8;
    let group = opcode as int / 64;
    if group == 1 {
        Instruction::BitB3R8(middle as u8, operand)
    } else if group == 2 {
        Instruction::ResB3R8(middle as u8, operand)
    } else if group == 3 {
        Instruction::SetB3R8(middle as u8, operand)
    } else if middle == 0 {
        Instruction::RlcR8(operand)
    } else if middle == 1 {
        Instruction::RrcR8(operand)
    } else if middle == 2 {
        Instruction::RlR8(operand)
    } else if middle == 3 {
        Instruction::RrR8(operand)
    } else if middle == 4 {
        Instruction::SlaR8(operand)
    } else if middle == 5 {
        Instruction::SraR8(operand)
    } else if middle == 6 {
        Instruction::SwapR8(operand)
    } else {
        Instruction::SrlR8(operand)
    }
}

/// The opcodes below 0x40. The low bits of the opcode name the column of the
/// opcode grid, which fixes the operation; the bits above name the row, which
/// fixes the operand.
pub open spec fn decode_block0(opcode: u8, imm8: u8, imm16: u16) -> Instruction {
    let op = opcode as int;
    let pair = op / 16;
    let row = op / 8;
    if op % 16 == 1 {
        Instruction::LdR16Imm16(R16::of_bits(pair), imm16)
    } else if op % 16 == 2 {
        Instruction::LdR16memA(R16mem::of_bits(pair))
    } else if op % 16 == 3 {
        Instruction::IncR16(R16::of_bits(pair))
    } else if op % 16 == 9 {
        Instruction::AddHlR16(R16::of_bits(pair))
    } else if op % 16 == 10 {
        Instruction::LdAR16mem(R16mem::of_bits(pair))
    } else if op % 16 == 11 {
        Instruction::DecR16(R16::of_bits(pair))
    } else if op % 8 == 4 {
        Instruction::IncR8(R8::of_bits(row))
    } else if op % 8 == 5 {
        Instruction::DecR8(R8::of_bits(row))
    } else if op % 8 == 6 {
        Instruction::LdR8Imm8(R8::of_bits(row), imm8)
    } else if op % 8 == 7 {
        if row == 0 {
            Instruction::Rlca
        } else if row == 1 {
            Instruction::Rrca
        } else if row == 2 {
            Instruction::Rla
        } else if row == 3 {
            Instruction::Rra
        } else if row == 4 {
            Instruction::Daa
        } else if row == 5 {
            Instruction::Cpl
        } else if row == 6 {
            Instruction::Scf
        } else {
            Instruction::Ccf
        }
    } else if row == 0 {
        Instruction::Nop
    } else if row == 1 {
        Instruction::LdImm16memSp(imm16)
    } else if row == 2 {
        Instruction::Stop
    } else if row == 3 {
        Instruction::JrImm8(signed_of(imm8) as i8)
    } else {
        Instruction::JrCondImm8(Cond::of_bits(row), signed_of(imm8) as i8)
    }
}

/// The opcodes from 0xC0 up. Three columns are regular: arithmetic on an
/// immediate, the restarts, and the pushes and pops. Below 0xE0 the
/// conditional returns, jumps and calls are regular too. What is left is
/// listed opcode by opcode; an opcode that is not listed is illegal.
pub open spec fn decode_block3(opcode: u8, imm8: u8, imm16: u16) -> Instruction {
    let op = opcode as int;
    if op % 8 == 6 {
        alu_on_imm8(op / 8, imm8)
    } else if op % 8 == 7 {
        Instruction::RstTgt3((op - 0xC7) as u8)
    } else if op % 16 == 1 {
        Instruction::PopR16stk(R16stk::of_bits(op / 16))
    } else if op % 16 == 5 {
        Instruction::PushR16stk(R16stk::of_bits(op / 16))
    } else if op < 0xE0 && op % 8 == 0 {
        Instruction::RetCond(Cond::of_bits(op / 8))
    } else if op < 0xE0 && op % 8 == 2 {
        Instruction::JpCondImm16(Cond::of_bits(op / 8), imm16)
    } else if op < 0xE0 && op % 8 == 4 {
        Instruction::CallCondImm16(Cond::of_bits(op / 8), imm16)
    } else if op == 0xC3 {
        Instruction::JpImm16(imm16)
    } else if op == 0xC9 {
        Instruction::Ret
    } else if op == 0xCB {
        decode_prefixed(imm8)
    } else if op == 0xCD {
        Instruction::CallImm16(imm16)
    } else if op == 0xD9 {
        Instruction::Reti
    } else if op == 0xE0 {
        Instruction::LdhImm8memA(imm8)
    } else if op == 0xE2 {
        Instruction::LdhCmemA
    } else if op == 0xE8 {
        Instruction::AddSpImm8(imm8)
    } else if op == 0xE9 {
        Instruction::JpHl
    } else if op == 0xEA {
        Instruction::LdImm16memA(imm16)
    } else if op == 0xF0 {
        Instruction::LdhAImm8mem(imm8)
    } else if op == 0xF2 {
        Instruction::LdhACmem
    } else if op == 0xF3 {
        Instruction::Di
    } else if op == 0xF8 {
        Instruction::LdHlSpImm8(imm8)
    } else if op == 0xF9 {
        Instruction::LdSpHl
    } else if op == 0xFA {
        Instruction::LdAImm16mem(imm16)
    } else if op == 0xFB {
        Instruction::Ei
    } else {
        Instruction::ILLEGAL
    }
}

/// The instruction that an opcode and the two bytes after it encode. The top
/// two bits of the opcode divide the instruction set into four blocks: the
/// second holds the register-to-register loads (and HALT, where a load from
/// the HL byte to itself would stand), the third the accumulator arithmetic
/// on an 8-bit operand.
pub open spec fn decode(opcode: u8, arg1: u8, arg2: u8) -> Instruction {
    let imm16 = word_of(arg2, arg1);
    let block = opcode as int / 64;
    if block == 0 {
        decode_block0(opcode, arg1, imm16)
    } else if block == 1 {
        if opcode == 0x76 {
            Instruction::Halt
        } else {
            Instruction::LdR8R8(R8::of_bits(opcode as int / 8), R8::of_bits(opcode as int))
        }
    } else if block == 2 {
        alu_on_r8(opcode as int / 8, R8::of_bits(opcode as int))
    } else {
        decode_block3(opcode, arg1, imm16)
    }
}

/// Whether an 8-bit operand is the byte that HL points at.
pub fn is_hl(operand: R8) -> (hit: bool)
    ensures
        hit == (operand == R8::HL),
{
    match operand {
        R8::HL => true,
        _ => false,
    }
}


/// Decodes the second byte of a 0xCB-prefixed instruction. Length and cycles
/// count the prefix byte in.
pub fn parse_prefixed(opcode: u8) -> (decoded: (Instruction, u16, u8))
    ensures
        decoded.0 == decode_prefixed(opcode),
        decoded.1 == 2,
        decoded.1 == decoded.0.length(),
        decoded.2 == decoded.0.cycles(),
{
    let operand = R8::from(opcode);
    let middle: u8 = (opcode / 8) % 8;
    let on_memory = is_hl(operand);
    match opcode / 64 {
        0 => {
            let instruction = match middle {
                0 => Instruction::RlcR8(operand),
                1 => Instruction::RrcR8(operand),
                2 => Instruction::RlR8(operand),
                3 => Instruction::RrR8(operand),
                4 => Instruction::SlaR8(operand),
                5 => Instruction::SraR8(operand),
                6 => Instruction::SwapR8(operand),
                _ => Instruction::SrlR8(operand),
            };
            (instruction, 2, if on_memory { 16 } else { 8 })
        },
        1 => (Instruction::BitB3R8(middle, operand), 2, if on_memory { 12 } else { 8 }),
        2 => (Instruction::ResB3R8(middle, operand), 2, if on_memory { 16 } else { 8 }),
        _ => (Instruction::SetB3R8(middle, operand), 2, if on_memory { 16 } else { 8 }),
    }
}

/// Decodes the opcodes 0x00 to 0x3F: loads of immediates, 16-bit arithmetic, increments, relative jumps and the accumulator rotates.
fn parse_block0(opcode: u8, arg1: u8, arg2: u8) -> (decoded: (Instruction, u16, u8))
    requires
        0x00 <= opcode <= 0x3f,
    ensures
        decoded.0 == decode(opcode, arg1, arg2),
        decoded.1 == decoded.0.length(),
        decoded.2 == decoded.0.cycles(),
{
    let imm16: u16 = make_word(arg2, arg1);
    let imm8: u8 = arg1;
    let offset: i8 = to_signed(arg1);
    match opcode {
        0x00 => (Instruction::Nop, 1, 4),
        0x01 => (Instruction::LdR16Imm16(R16::BC, imm16), 3, 12),
        0x02 => (Instruction::LdR16memA(R16mem::BC), 1, 8),
        0x03 => (Instruction::IncR16(R16::BC), 1, 8),
        0x04 => (Instruction::IncR8(R8::B), 1, 4),
        0x05 => (Instruction::DecR8(R8::B), 1, 4),
        0x06 => (Instruction::LdR8Imm8(R8::B, imm8), 2, 8),
        0x07 => (Instruction::Rlca, 1, 4),
        0x08 => (Instruction::LdImm16memSp(imm16), 3, 20),
        0x09 => (Instruction::AddHlR16(R16::BC), 1, 8),
        0x0A => (Instruction::LdAR16mem(R16mem::BC), 1, 8),
        0x0B => (Instruction::DecR16(R16::BC), 1, 8),
        0x0C => (Instruction::IncR8(R8::C), 1, 4),
        0x0D => (Instruction::DecR8(R8::C), 1, 4),
        0x0E => (Instruction::LdR8Imm8(R8::C, imm8), 2, 8),
        0x0F => (Instruction::Rrca, 1, 4),
        0x10 => (Instruction::Stop, 2, 4),
        0x11 => (Instruction::LdR16Imm16(R16::DE, imm16), 3, 12),
        0x12 => (Instruction::LdR16memA(R16mem::DE), 1, 8),
        0x13 => (Instruction::IncR16(R16::DE), 1, 8),
        0x14 => (Instruction::IncR8(R8::D), 1, 4),
        0x15 => (Instruction::DecR8(R8::D), 1, 4),
        0x16 => (Instruction::LdR8Imm8(R8::D, imm8), 2, 8),
        0x17 => (Instruction::Rla, 1, 4),
        0x18 => (Instruction::JrImm8(offset), 2, 12),
        0x19 => (Instruction::AddHlR16(R16::DE), 1, 8),
        0x1A => (Instruction::LdAR16mem(R16mem::DE), 1, 8),
        0x1B => (Instruction::DecR16(R16::DE), 1, 8),
        0x1C => (Instruction::IncR8(R8::E), 1, 4),
        0x1D => (Instruction::DecR8(R8::E), 1, 4),
        0x1E => (Instruction::LdR8Imm8(R8::E, imm8), 2, 8),
        0x1F => (Instruction::Rra, 1, 4),
        0x20 => (Instruction::JrCondImm8(Cond::NZ, offset), 2, 8),
        0x21 => (Instruction::LdR16Imm16(R16::HL, imm16), 3, 12),
        0x22 => (Instruction::LdR16memA(R16mem::HLI), 1, 8),
        0x23 => (Instruction::IncR16(R16::HL), 1, 8),
        0x24 => (Instruction::IncR8(R8::H), 1, 4),
        0x25 => (Instruction::DecR8(R8::H), 1, 4),
        0x26 => (Instruction::LdR8Imm8(R8::H, imm8), 2, 8),
        0x27 => (Instruction::Daa, 1, 4),
        0x28 => (Instruction::JrCondImm8(Cond::Z, offset), 2, 8),
        0x29 => (Instruction::AddHlR16(R16::HL), 1, 8),
        0x2A => (Instruction::LdAR16mem(R16mem::HLI), 1, 8),
        0x2B => (Instruction::DecR16(R16::HL), 1, 8),
        0x2C => (Instruction::IncR8(R8::L), 1, 4),
        0x2D => (Instruction::DecR8(R8::L), 1, 4),
        0x2E => (Instruction::LdR8Imm8(R8::L, imm8), 2, 8),
        0x2F => (Instruction::Cpl, 1, 4),
        0x30 => (Instruction::JrCondImm8(Cond::NC, offset), 2, 8),
        0x31 => (Instruction::LdR16Imm16(R16::SP, imm16), 3, 12),
        0x32 => (Instruction::LdR16memA(R16mem::HLD), 1, 8),
        0x33 => (Instruction::IncR16(R16::SP), 1, 8),
        0x34 => (Instruction::IncR8(R8::HL), 1, 12),
        0x35 => (Instruction::DecR8(R8::HL), 1, 12),
        0x36 => (Instruction::LdR8Imm8(R8::HL, imm8), 2, 12),
        0x37 => (Instruction::Scf, 1, 4),
        0x38 => (Instruction::JrCondImm8(Cond::C, offset), 2, 8),
        0x39 => (Instruction::AddHlR16(R16::SP), 1, 8),
        0x3A => (Instruction::LdAR16mem(R16mem::HLD), 1, 8),
        0x3B => (Instruction::DecR16(R16::SP), 1, 8),
        0x3C => (Instruction::IncR8(R8::A), 1, 4),
        0x3D => (Instruction::DecR8(R8::A), 1, 4),
        0x3E => (Instruction::LdR8Imm8(R8::A, imm8), 2, 8),
        _ => (Instruction::Ccf, 1, 4),
    }
}

/// Decodes the opcodes 0x40 to 0x7F: the loads between 8-bit operands, and
/// HALT.
fn parse_block1(opcode: u8) -> (decoded: (Instruction, u16, u8))
    requires
        0x40 <= opcode <= 0x7F,
    ensures
        forall|arg1: u8, arg2: u8| decoded.0 == #[trigger] decode(opcode, arg1, arg2),
        decoded.1 == decoded.0.length(),
        decoded.2 == decoded.0.cycles(),
{
    if opcode == 0x76 {
        return (Instruction::Halt, 1, 4);
    }
    let target = R8::from(opcode / 8);
    let source = R8::from(opcode);
    let cycles: u8 = if is_hl(target) || is_hl(source) { 8 } else { 4 };
    (Instruction::LdR8R8(target, source), 1, cycles)
}

/// Decodes the opcodes 0x80 to 0xBF: arithmetic and logic between the
/// accumulator and an 8-bit operand.
fn parse_block2(opcode: u8) -> (decoded: (Instruction, u16, u8))
    requires
        0x80 <= opcode <= 0xBF,
    ensures
        forall|arg1: u8, arg2: u8| decoded.0 == #[trigger] decode(opcode, arg1, arg2),
        decoded.1 == decoded.0.length(),
        decoded.2 == decoded.0.cycles(),
{
    let operand = R8::from(opcode);
    let cycles: u8 = if is_hl(operand) { 8 } else { 4 };
    let instruction = match (opcode / 8) % 8 {
        0 => Instruction::AddAR8(operand),
        1 => Instruction::AdcAR8(operand),
        2 => Instruction::SubAR8(operand),
        3 => Instruction::SbcAR8(operand),
        4 => Instruction::AndAR8(operand),
        5 => Instruction::XorAR8(operand),
        6 => Instruction::OrAR8(operand),
        _ => Instruction::CpAR8(operand),
    };
    (instruction, 1, cycles)
}

/// Decodes the opcodes 0xC0 to 0xFF: returns, jumps, calls, stack transfers, arithmetic on immediates and the high-page loads.
fn parse_block3(opcode: u8, arg1: u8, arg2: u8) -> (decoded: (Instruction, u16, u8))
    requires
        0xc0 <= opcode <= 0xff,
    ensures
        decoded.0 == decode(opcode, arg1, arg2),
        decoded.1 == decoded.0.length(),
        decoded.2 == decoded.0.cycles(),
{
    let imm16: u16 = make_word(arg2, arg1);
    let imm8: u8 = arg1;
    let offset: i8 = to_signed(arg1);
    match opcode {
        0xC0 => (Instruction::RetCond(Cond::NZ), 1, 8),
        0xC1 => (Instruction::PopR16stk(R16stk::BC), 1, 12),
        0xC2 => (Instruction::JpCondImm16(Cond::NZ, imm16), 3, 12),
        0xC3 => (Instruction::JpImm16(imm16), 3, 16),
        0xC4 => (Instruction::CallCondImm16(Cond::NZ, imm16), 3, 12),
        0xC5 => (Instruction::PushR16stk(R16stk::BC), 1, 16),
        0xC6 => (Instruction::AddAImm8(imm8), 2, 8),
        0xC7 => (Instruction::RstTgt3(0x00), 1, 16),
        0xC8 => (Instruction::RetCond(Cond::Z), 1, 8),
        0xC9 => (Instruction::Ret, 1, 16),
        0xCA => (Instruction::JpCondImm16(Cond::Z, imm16), 3, 12),
        0xCB => parse_prefixed(arg1),
        0xCC => (Instruction::CallCondImm16(Cond::Z, imm16), 3, 12),
        0xCD => (Instruction::CallImm16(imm16), 3, 24),
        0xCE => (Instruction::AdcAImm8(imm8), 2, 8),
        0xCF => (Instruction::RstTgt3(0x08), 1, 16),
        0xD0 => (Instruction::RetCond(Cond::NC), 1, 8),
        0xD1 => (Instruction::PopR16stk(R16stk::DE), 1, 12),
        0xD2 => (Instruction::JpCondImm16(Cond::NC, imm16), 3, 12),
        0xD3 => (Instruction::ILLEGAL, 1, 4),
        0xD4 => (Instruction::CallCondImm16(Cond::NC, imm16), 3, 12),
        0xD5 => (Instruction::PushR16stk(R16stk::DE), 1, 16),
        0xD6 => (Instruction::SubAImm8(imm8), 2, 8),
        0xD7 => (Instruction::RstTgt3(0x10), 1, 16),
        0xD8 => (Instruction::RetCond(Cond::C), 1, 8),
        0xD9 => (Instruction::Reti, 1, 16),
        0xDA => (Instruction::JpCondImm16(Cond::C, imm16), 3, 12),
        0xDB => (Instruction::ILLEGAL, 1, 4),
        0xDC => (Instruction::CallCondImm16(Cond::C, imm16), 3, 12),
        0xDD => (Instruction::ILLEGAL, 1, 4),
        0xDE => (Instruction::SbcAImm8(imm8), 2, 8),
        0xDF => (Instruction::RstTgt3(0x18), 1, 16),
        0xE0 => (Instruction::LdhImm8memA(imm8), 2, 12),
        0xE1 => (Instruction::PopR16stk(R16stk::HL), 1, 12),
        0xE2 => (Instruction::LdhCmemA, 1, 8),
        0xE3 => (Instruction::ILLEGAL, 1, 4),
        0xE4 => (Instruction::ILLEGAL, 1, 4),
        0xE5 => (Instruction::PushR16stk(R16stk::HL), 1, 16),
        0xE6 => (Instruction::AndAImm8(imm8), 2, 8),
        0xE7 => (Instruction::RstTgt3(0x20), 1, 16),
        0xE8 => (Instruction::AddSpImm8(imm8), 2, 16),
        0xE9 => (Instruction::JpHl, 1, 4),
        0xEA => (Instruction::LdImm16memA(imm16), 3, 16),
        0xEB => (Instruction::ILLEGAL, 1, 4),
        0xEC => (Instruction::ILLEGAL, 1, 4),
        0xED => (Instruction::ILLEGAL, 1, 4),
        0xEE => (Instruction::XorAImm8(imm8), 2, 8),
        0xEF => (Instruction::RstTgt3(0x28), 1, 16),
        0xF0 => (Instruction::LdhAImm8mem(imm8), 2, 12),
        0xF1 => (Instruction::PopR16stk(R16stk::AF), 1, 12),
        0xF2 => (Instruction::LdhACmem, 1, 8),
        0xF3 => (Instruction::Di, 1, 4),
        0xF4 => (Instruction::ILLEGAL, 1, 4),
        0xF5 => (Instruction::PushR16stk(R16stk::AF), 1, 16),
        0xF6 => (Instruction::OrAImm8(imm8), 2, 8),
        0xF7 => (Instruction::RstTgt3(0x30), 1, 16),
        0xF8 => (Instruction::LdHlSpImm8(imm8), 2, 12),
        0xF9 => (Instruction::LdSpHl, 1, 8),
        0xFA => (Instruction::LdAImm16mem(imm16), 3, 16),
        0xFB => (Instruction::Ei, 1, 4),
        0xFC => (Instruction::ILLEGAL, 1, 4),
        0xFD => (Instruction::ILLEGAL, 1, 4),
        0xFE => (Instruction::CpAImm8(imm8), 2, 8),
        _ => (Instruction::RstTgt3(0x38), 1, 16),
    }
}

/// Decodes one instruction from its opcode and the two bytes that follow it.
/// Returns the instruction, its length in bytes and its cost in clock ticks;
/// for a conditional jump, call or return, the cost when the condition fails.
/// Reads no machine state.
pub fn parse(opcode: u8, arg1: u8, arg2: u8) -> (decoded: (Instruction, u16, u8))
    ensures
        decoded.0 == decode(opcode, arg1, arg2),
        decoded.1 == decoded.0.length(),
        decoded.2 == decoded.0.cycles(),
        1 <= decoded.1 <= 3,
        opcode == 0xCB ==> decoded.0 == decode_prefixed(arg1),
{
    if opcode < 0x40 {
        parse_block0(opcode, arg1, arg2)
    } else if opcode < 0x80 {
        parse_block1(opcode)
    } else if opcode < 0xC0 {
        parse_block2(opcode)
    } else {
        parse_block3(opcode, arg1, arg2)
    }
}

} // verus!
