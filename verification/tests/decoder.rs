use dmg_emu::instructions::cond::Cond;
use dmg_emu::instructions::parse;
use dmg_emu::instructions::r16::R16;
use dmg_emu::instructions::r16mem::R16mem;
use dmg_emu::instructions::r8::R8;
use dmg_emu::instructions::Instruction;

fn get_instruction(opcode: u8, imm8: u8, arg2: u8) -> Instruction {
    match parse(opcode, imm8, arg2) {
        (ins, _, _) => ins,
    }
}

// Block 0
#[test]
fn nop() {
    assert!(matches!(get_instruction(0x0, 0x0, 0x0), Instruction::Nop))
}

#[test]
fn jp_imm16() {
    assert!(matches!(
        get_instruction(0xC3, 0xC6, 0x5),
        Instruction::JpImm16(0x05C6)
    ))
}

#[test]
fn ld_r16_imm16() {
    assert!(matches!(
        get_instruction(0x01, 0xC6, 0x5),
        Instruction::LdR16Imm16(R16::BC, 0x05C6)
    ));

    assert!(matches!(
        get_instruction(0x31, 0x0, 0x0),
        Instruction::LdR16Imm16(R16::SP, 0x0)
    ))
}

#[test]
fn ld_r16mem_a() {
    assert!(matches!(
        get_instruction(0x02, 0x0, 0x0),
        Instruction::LdR16memA(R16mem::BC)
    ));
}

#[test]
fn ld_a_r16mem() {
    assert!(matches!(
        get_instruction(0xA, 0x0, 0x0),
        Instruction::LdAR16mem(R16mem::BC)
    ));
}

#[test]
fn ld_imm16_sp() {
    assert!(matches!(
        get_instruction(0x8, 0x34, 0x12),
        Instruction::LdImm16memSp(0x1234)
    ));
}

#[test]
fn inc_r16() {
    assert!(matches!(
        get_instruction(0x3, 0x0, 0x0),
        Instruction::IncR16(R16::BC)
    ));
}

#[test]
fn dec_r16() {
    assert!(matches!(
        get_instruction(0xB, 0x0, 0x0),
        Instruction::DecR16(R16::BC)
    ));
}

#[test]
fn add_hl_r16() {
    assert!(matches!(
        get_instruction(0x9, 0x0, 0x0),
        Instruction::AddHlR16(R16::BC)
    ));
}

#[test]
fn inc_r8() {
    assert!(matches!(
        get_instruction(0x4, 0x0, 0x0),
        Instruction::IncR8(R8::B)
    ));
}

#[test]
fn dec_r8() {
    assert!(matches!(
        get_instruction(0x5, 0x0, 0x0),
        Instruction::DecR8(R8::B)
    ));
}

#[test]
fn ld_r8_imm8() {
    assert!(matches!(
        get_instruction(0x6, 0x01, 0x02),
        Instruction::LdR8Imm8(R8::B, 0x1)
    ));
}

#[test]
fn rlca() {
    assert!(matches!(
        get_instruction(0b111, 0x0, 0x0),
        Instruction::Rlca
    ))
}

#[test]
fn rrca() {
    assert!(matches!(
        get_instruction(0b1111, 0x0, 0x0),
        Instruction::Rrca
    ))
}

#[test]
fn rla() {
    assert!(matches!(
        get_instruction(0b10111, 0x0, 0x0),
        Instruction::Rla
    ))
}

#[test]
fn rra() {
    assert!(matches!(
        get_instruction(0b11111, 0x0, 0x0),
        Instruction::Rra
    ))
}

#[test]
fn daa() {
    assert!(matches!(
        get_instruction(0b100111, 0x0, 0x0),
        Instruction::Daa
    ))
}

#[test]
fn cpl() {
    assert!(matches!(
        get_instruction(0b101111, 0x0, 0x0),
        Instruction::Cpl
    ))
}

#[test]
fn scf() {
    assert!(matches!(
        get_instruction(0b110111, 0x0, 0x0),
        Instruction::Scf
    ))
}

#[test]
fn ccf() {
    assert!(matches!(
        get_instruction(0b111111, 0x0, 0x0),
        Instruction::Ccf
    ))
}

#[test]
fn jr_imm8() {
    assert!(matches!(
        get_instruction(0x18, 0xFF, 0x0),
        Instruction::JrImm8(-1)
    ))
}

#[test]
fn jr_cond_imm8() {
    assert!(matches!(
        get_instruction(0x20, 0x20, 0x0),
        Instruction::JrCondImm8(Cond::NZ, 0x20)
    ))
}

#[test]
fn stop() {
    assert!(matches!(
        get_instruction(0x10, 0x00, 0x0),
        Instruction::Stop
    ))
}

// block 1
#[test]
fn ld_r8_r8() {
    assert!(matches!(
        get_instruction(0x61, 0x00, 0x0),
        Instruction::LdR8R8(R8::H, R8::C)
    ))
}

#[test]
fn halt() {
    assert!(matches!(
        get_instruction(0b01110110, 0x0, 0x0),
        Instruction::Halt
    ))
}

// Block 2
#[test]
fn add_a_r8() {
    assert!(matches!(
        get_instruction(0b10000000, 0x0, 0x0),
        Instruction::AddAR8(R8::B)
    ))
}

#[test]
fn adc_a_r8() {
    assert!(matches!(
        get_instruction(0b10001000, 0x0, 0x0),
        Instruction::AdcAR8(R8::B)
    ))
}

#[test]
fn sub_a_r8() {
    assert!(matches!(
        get_instruction(0b10010000, 0x0, 0x0),
        Instruction::SubAR8(R8::B)
    ))
}

#[test]
fn sbc_a_r8() {
    assert!(matches!(
        get_instruction(0b10011000, 0x0, 0x0),
        Instruction::SbcAR8(R8::B)
    ))
}

#[test]
fn and_a_r8() {
    assert!(matches!(
        get_instruction(0b10100000, 0x0, 0x0),
        Instruction::AndAR8(R8::B)
    ))
}

#[test]
fn xor_a_r8() {
    assert!(matches!(
        get_instruction(0b10101000, 0x0, 0x0),
        Instruction::XorAR8(R8::B)
    ))
}

#[test]
fn or_a_r8() {
    assert!(matches!(
        get_instruction(0b10110000, 0x0, 0x0),
        Instruction::OrAR8(R8::B)
    ))
}

#[test]
fn cp_a_r8() {
    assert!(matches!(
        get_instruction(0b10111000, 0x0, 0x0),
        Instruction::CpAR8(R8::B)
    ))
}

// Block 3
#[test]
fn add_a_imm8() {
    assert!(matches!(
        get_instruction(0b11000110, 0x1, 0x0),
        Instruction::AddAImm8(0x1)
    ))
}

#[test]
fn adc_a_imm8() {
    assert!(matches!(
        get_instruction(0b11001110, 0x1, 0x0),
        Instruction::AdcAImm8(0x1)
    ))
}

#[test]
fn sub_a_imm8() {
    assert!(matches!(
        get_instruction(0b11010110, 0x1, 0x0),
        Instruction::SubAImm8(0x1)
    ))
}

#[test]
fn sbc_a_imm8() {
    assert!(matches!(
        get_instruction(0b11011110, 0x1, 0x0),
        Instruction::SbcAImm8(0x1)
    ))
}

#[test]
fn and_a_imm8() {
    assert!(matches!(
        get_instruction(0b11100110, 0x1, 0x0),
        Instruction::AndAImm8(0x1)
    ))
}

#[test]
fn xor_a_imm8() {
    assert!(matches!(
        get_instruction(0b11101110, 0x1, 0x0),
        Instruction::XorAImm8(0x1)
    ))
}

#[test]
fn or_a_imm8() {
    assert!(matches!(
        get_instruction(0b11110110, 0x1, 0x0),
        Instruction::OrAImm8(0x1)
    ))
}

#[test]
fn cp_a_imm8() {
    assert!(matches!(
        get_instruction(0b11111110, 0x1, 0x0),
        Instruction::CpAImm8(0x1)
    ))
}

#[test]
fn sub_a_r8a() {
    assert!(matches!(
        get_instruction(0xD2, 0x0, 0x0),
        Instruction::JpCondImm16(Cond::NC, _)
    ))
}
