use dmg_emu::cpu::CPU;
use dmg_emu::instructions::cond::Cond;
use dmg_emu::instructions::r16::R16;
use dmg_emu::instructions::r16mem::R16mem;
use dmg_emu::instructions::r16stk::R16stk;
use dmg_emu::instructions::r8::R8;
use dmg_emu::instructions::{parse, parse_prefixed, Instruction};

/// The length in bytes of every opcode but the prefix.
const LENGTHS: [u16; 256] = [
    1, 3, 1, 1, 1, 1, 2, 1, 3, 1, 1, 1, 1, 1, 2, 1, // 0x
    2, 3, 1, 1, 1, 1, 2, 1, 2, 1, 1, 1, 1, 1, 2, 1, // 1x
    2, 3, 1, 1, 1, 1, 2, 1, 2, 1, 1, 1, 1, 1, 2, 1, // 2x
    2, 3, 1, 1, 1, 1, 2, 1, 2, 1, 1, 1, 1, 1, 2, 1, // 3x
    1, 1, 1, 1, 1, 1, 1, 1, 1, 1, 1, 1, 1, 1, 1, 1, // 4x
    1, 1, 1, 1, 1, 1, 1, 1, 1, 1, 1, 1, 1, 1, 1, 1, // 5x
    1, 1, 1, 1, 1, 1, 1, 1, 1, 1, 1, 1, 1, 1, 1, 1, // 6x
    1, 1, 1, 1, 1, 1, 1, 1, 1, 1, 1, 1, 1, 1, 1, 1, // 7x
    1, 1, 1, 1, 1, 1, 1, 1, 1, 1, 1, 1, 1, 1, 1, 1, // 8x
    1, 1, 1, 1, 1, 1, 1, 1, 1, 1, 1, 1, 1, 1, 1, 1, // 9x
    1, 1, 1, 1, 1, 1, 1, 1, 1, 1, 1, 1, 1, 1, 1, 1, // Ax
    1, 1, 1, 1, 1, 1, 1, 1, 1, 1, 1, 1, 1, 1, 1, 1, // Bx
    1, 1, 3, 3, 3, 1, 2, 1, 1, 1, 3, 2, 3, 3, 2, 1, // Cx
    1, 1, 3, 1, 3, 1, 2, 1, 1, 1, 3, 1, 3, 1, 2, 1, // Dx
    2, 1, 1, 1, 1, 1, 2, 1, 2, 1, 3, 1, 1, 1, 2, 1, // Ex
    2, 1, 1, 1, 1, 1, 2, 1, 2, 1, 3, 1, 1, 1, 2, 1, // Fx
];

/// The cost in clock ticks of every opcode but the prefix; for a conditional
/// jump, call or return, the cost when the condition fails.
const CYCLES: [u8; 256] = [
    4, 12, 8, 8, 4, 4, 8, 4, 20, 8, 8, 8, 4, 4, 8, 4, // 0x
    4, 12, 8, 8, 4, 4, 8, 4, 12, 8, 8, 8, 4, 4, 8, 4, // 1x
    8, 12, 8, 8, 4, 4, 8, 4, 8, 8, 8, 8, 4, 4, 8, 4, // 2x
    8, 12, 8, 8, 12, 12, 12, 4, 8, 8, 8, 8, 4, 4, 8, 4, // 3x
    4, 4, 4, 4, 4, 4, 8, 4, 4, 4, 4, 4, 4, 4, 8, 4, // 4x
    4, 4, 4, 4, 4, 4, 8, 4, 4, 4, 4, 4, 4, 4, 8, 4, // 5x
    4, 4, 4, 4, 4, 4, 8, 4, 4, 4, 4, 4, 4, 4, 8, 4, // 6x
    8, 8, 8, 8, 8, 8, 4, 8, 4, 4, 4, 4, 4, 4, 8, 4, // 7x
    4, 4, 4, 4, 4, 4, 8, 4, 4, 4, 4, 4, 4, 4, 8, 4, // 8x
    4, 4, 4, 4, 4, 4, 8, 4, 4, 4, 4, 4, 4, 4, 8, 4, // 9x
    4, 4, 4, 4, 4, 4, 8, 4, 4, 4, 4, 4, 4, 4, 8, 4, // Ax
    4, 4, 4, 4, 4, 4, 8, 4, 4, 4, 4, 4, 4, 4, 8, 4, // Bx
    8, 12, 12, 16, 12, 16, 8, 16, 8, 16, 12, 0, 12, 24, 8, 16, // Cx
    8, 12, 12, 4, 12, 16, 8, 16, 8, 16, 12, 4, 12, 4, 8, 16, // Dx
    12, 12, 8, 4, 4, 16, 8, 16, 16, 4, 16, 4, 4, 4, 8, 16, // Ex
    12, 12, 8, 4, 4, 16, 8, 16, 12, 8, 16, 4, 4, 4, 8, 16, // Fx
];

/// The opcodes of the conditional jumps, calls and returns, with their cost
/// when the condition holds.
const TAKEN: [(u8, u8); 16] = [
    (0x20, 12),
    (0x28, 12),
    (0x30, 12),
    (0x38, 12),
    (0xC0, 20),
    (0xC8, 20),
    (0xD0, 20),
    (0xD8, 20),
    (0xC2, 16),
    (0xCA, 16),
    (0xD2, 16),
    (0xDA, 16),
    (0xC4, 24),
    (0xCC, 24),
    (0xD4, 24),
    (0xDC, 24),
];

const ILLEGAL: [u8; 11] = [0xD3, 0xDB, 0xDD, 0xE3, 0xE4, 0xEB, 0xEC, 0xED, 0xF4, 0xFC, 0xFD];

#[test]
fn lengths_and_cycles_agree_with_the_opcode_table() {
    for opcode in 0..=255u8 {
        if opcode == 0xCB {
            continue;
        }
        for arg1 in 0..=255u8 {
            for arg2 in [0x00u8, 0x01, 0x7F, 0x80, 0xCB, 0xFF] {
                let (_, length, cycles) = parse(opcode, arg1, arg2);
                assert_eq!(length, LENGTHS[opcode as usize], "opcode {:#04x}", opcode);
                assert_eq!(cycles, CYCLES[opcode as usize], "opcode {:#04x}", opcode);
            }
        }
    }
}

#[test]
fn prefixed_lengths_and_cycles_agree_with_the_opcode_table() {
    for opcode in 0..=255u8 {
        let on_memory = opcode & 0x07 == 0x06;
        let expected = if !on_memory {
            8
        } else if (0x40..0x80).contains(&opcode) {
            12
        } else {
            16
        };
        for arg2 in [0x00u8, 0x55, 0xFF] {
            let (instruction, length, cycles) = parse(0xCB, opcode, arg2);
            assert_eq!(length, 2, "opcode {:#04x}", opcode);
            assert_eq!(cycles, expected, "opcode {:#04x}", opcode);
            assert_eq!((instruction, length, cycles), parse_prefixed(opcode));
        }
    }
}

#[test]
fn taken_branches_cost_more() {
    for (opcode, taken) in TAKEN {
        let (instruction, _, base) = parse(opcode, 0, 0);
        assert_eq!(CPU::taken_cycles(instruction, base), taken, "opcode {:#04x}", opcode);
        assert!(taken > base);
    }
    for opcode in 0..=255u8 {
        if TAKEN.iter().any(|(conditional, _)| *conditional == opcode) {
            continue;
        }
        let (instruction, _, base) = parse(opcode, 0x12, 0x34);
        assert_eq!(CPU::taken_cycles(instruction, base), base);
    }
}

#[test]
fn illegal_opcodes() {
    for opcode in 0..=255u8 {
        let (instruction, length, cycles) = parse(opcode, 0, 0);
        if ILLEGAL.contains(&opcode) {
            assert_eq!((instruction, length, cycles), (Instruction::ILLEGAL, 1, 4));
        } else {
            assert_ne!(instruction, Instruction::ILLEGAL, "opcode {:#04x}", opcode);
        }
    }
}

fn operand(bits: u8) -> R8 {
    [R8::B, R8::C, R8::D, R8::E, R8::H, R8::L, R8::HL, R8::A][(bits & 7) as usize]
}

#[test]
fn register_loads_decode_by_their_fields() {
    for opcode in 0x40..0x80u8 {
        let (instruction, _, _) = parse(opcode, 0, 0);
        if opcode == 0x76 {
            assert_eq!(instruction, Instruction::Halt);
        } else {
            assert_eq!(instruction, Instruction::LdR8R8(operand(opcode >> 3), operand(opcode)));
        }
    }
}

#[test]
fn accumulator_arithmetic_decodes_by_its_fields() {
    for opcode in 0x80..0xC0u8 {
        let r = operand(opcode);
        let expected = match (opcode >> 3) & 7 {
            0 => Instruction::AddAR8(r),
            1 => Instruction::AdcAR8(r),
            2 => Instruction::SubAR8(r),
            3 => Instruction::SbcAR8(r),
            4 => Instruction::AndAR8(r),
            5 => Instruction::XorAR8(r),
            6 => Instruction::OrAR8(r),
            _ => Instruction::CpAR8(r),
        };
        assert_eq!(parse(opcode, 0, 0).0, expected);
    }
}

#[test]
fn prefixed_instructions_decode_by_their_fields() {
    for opcode in 0..=255u8 {
        let r = operand(opcode);
        let middle = (opcode >> 3) & 7;
        let expected = match opcode >> 6 {
            1 => Instruction::BitB3R8(middle, r),
            2 => Instruction::ResB3R8(middle, r),
            3 => Instruction::SetB3R8(middle, r),
            _ => match middle {
                0 => Instruction::RlcR8(r),
                1 => Instruction::RrcR8(r),
                2 => Instruction::RlR8(r),
                3 => Instruction::RrR8(r),
                4 => Instruction::SlaR8(r),
                5 => Instruction::SraR8(r),
                6 => Instruction::SwapR8(r),
                _ => Instruction::SrlR8(r),
            },
        };
        assert_eq!(parse_prefixed(opcode).0, expected);
    }
}

#[test]
fn immediates_are_read_low_byte_first() {
    assert_eq!(parse(0xEA, 0x34, 0x12).0, Instruction::LdImm16memA(0x1234));
    assert_eq!(parse(0xFA, 0xFF, 0x00).0, Instruction::LdAImm16mem(0x00FF));
    assert_eq!(parse(0xCD, 0x00, 0x80).0, Instruction::CallImm16(0x8000));
    assert_eq!(parse(0x18, 0x80, 0).0, Instruction::JrImm8(-128));
    assert_eq!(parse(0x18, 0x7F, 0).0, Instruction::JrImm8(127));
    assert_eq!(parse(0x38, 0xFE, 0).0, Instruction::JrCondImm8(Cond::C, -2));
    assert_eq!(parse(0xE8, 0xFE, 0).0, Instruction::AddSpImm8(0xFE));
    assert_eq!(parse(0xF8, 0x02, 0).0, Instruction::LdHlSpImm8(0x02));
    assert_eq!(parse(0xE0, 0x44, 0).0, Instruction::LdhImm8memA(0x44));
    assert_eq!(parse(0xF0, 0x44, 0).0, Instruction::LdhAImm8mem(0x44));
}

#[test]
fn grid_columns_decode_by_their_rows() {
    let pairs = [R16::BC, R16::DE, R16::HL, R16::SP];
    let addresses = [R16mem::BC, R16mem::DE, R16mem::HLI, R16mem::HLD];
    let stacked = [R16stk::BC, R16stk::DE, R16stk::HL, R16stk::AF];
    let conditions = [Cond::NZ, Cond::Z, Cond::NC, Cond::C];
    for row in 0..4u8 {
        let i = row as usize;
        assert_eq!(parse(row << 4 | 0x1, 1, 2).0, Instruction::LdR16Imm16(pairs[i], 0x0201));
        assert_eq!(parse(row << 4 | 0x2, 0, 0).0, Instruction::LdR16memA(addresses[i]));
        assert_eq!(parse(row << 4 | 0x3, 0, 0).0, Instruction::IncR16(pairs[i]));
        assert_eq!(parse(row << 4 | 0x9, 0, 0).0, Instruction::AddHlR16(pairs[i]));
        assert_eq!(parse(row << 4 | 0xA, 0, 0).0, Instruction::LdAR16mem(addresses[i]));
        assert_eq!(parse(row << 4 | 0xB, 0, 0).0, Instruction::DecR16(pairs[i]));
        assert_eq!(parse(0xC1 + (row << 4), 0, 0).0, Instruction::PopR16stk(stacked[i]));
        assert_eq!(parse(0xC5 + (row << 4), 0, 0).0, Instruction::PushR16stk(stacked[i]));
        assert_eq!(parse(0x20 + (row << 3), 5, 0).0, Instruction::JrCondImm8(conditions[i], 5));
        assert_eq!(parse(0xC0 + (row << 3), 0, 0).0, Instruction::RetCond(conditions[i]));
        assert_eq!(parse(0xC2 + (row << 3), 1, 2).0, Instruction::JpCondImm16(conditions[i], 0x0201));
        assert_eq!(parse(0xC4 + (row << 3), 1, 2).0, Instruction::CallCondImm16(conditions[i], 0x0201));
    }
    for row in 0..8u8 {
        assert_eq!(parse(row << 3 | 0x4, 0, 0).0, Instruction::IncR8(operand(row)));
        assert_eq!(parse(row << 3 | 0x5, 0, 0).0, Instruction::DecR8(operand(row)));
        assert_eq!(parse(row << 3 | 0x6, 9, 0).0, Instruction::LdR8Imm8(operand(row), 9));
        assert_eq!(parse(0xC7 + (row << 3), 0, 0).0, Instruction::RstTgt3(row << 3));
    }
}

#[test]
fn operand_fields() {
    for bits in 0..=255u8 {
        assert_eq!(R8::from(bits), operand(bits));
        assert_eq!(R16::from(bits), [R16::BC, R16::DE, R16::HL, R16::SP][(bits & 3) as usize]);
        assert_eq!(
            R16mem::from(bits),
            [R16mem::BC, R16mem::DE, R16mem::HLI, R16mem::HLD][(bits & 3) as usize]
        );
        assert_eq!(
            R16stk::from(bits),
            [R16stk::BC, R16stk::DE, R16stk::HL, R16stk::AF][(bits & 3) as usize]
        );
        assert_eq!(Cond::from(bits), [Cond::NZ, Cond::Z, Cond::NC, Cond::C][(bits & 3) as usize]);
    }
}
