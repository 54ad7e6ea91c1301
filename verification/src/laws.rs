use crate::bits::{high_byte_of, low_byte_of, word_of, wrap16};
use crate::cartridge::{in_cartridge_ram, Controller};
use crate::bits::bit_is_set;
use crate::cpu::alu::{shift_carry, shift_value, with_bit, Shift};
use crate::cpu::flag_register::lemma_flag_byte_low_nibble;
use crate::cpu::registers::lemma_r16_stk_round_trip;
use crate::cpu::execution::{group_of, Group};
use crate::cpu::{first_pending, retire, Interrupt, CPU};
use crate::instructions::r16::R16;
use crate::instructions::r16stk::R16stk;
use crate::instructions::r8::R8;
use crate::instructions::{decode, Instruction};
use crate::mmu::ppu::{
    in_oam, in_vram, lemma_same_colour, same_picture, Layer, FRAME_LINES, LINE_TICKS, PPU,
};
use crate::mmu::{dma_page_ok, in_hram, in_wram, writable, DMA, DMA_LENGTH, MMU};
use vstd::prelude::*;

verus! {

/// The clock ticks of one frame: 154 scanlines of 456 ticks.
pub const FRAME_TICKS: u32 = 70224;

/// Units that show the same picture and hold the same frame hold the same
/// frame after a layer is painted.
pub proof fn lemma_same_painted(a: PPU, b: PPU, layer: Layer, y: u8, upto: int)
    requires
        same_picture(a, b),
        a.frame_buffer == b.frame_buffer,
    ensures
        a.painted(layer, y, upto) == b.painted(layer, y, upto),
    decreases upto,
{
    if upto > 0 {
        lemma_same_painted(a, b, layer, y, upto - 1);
        lemma_same_colour(a, b, layer, y, (upto - 1) as u8);
    }
}

/// What a layer leaves in the frame: on the painted scanline, the layer's
/// colour where it has one; everywhere else, what was there.
pub proof fn law_painted_pixels(ppu: PPU, layer: Layer, y: u8, upto: int, at: int)
    requires
        y < 144,
        0 <= upto <= 160,
        0 <= at < 23040,
    ensures
        ppu.painted(layer, y, upto)@[at] == if y * 160 <= at < y * 160 + upto && ppu.layer_colour(
            layer,
            y,
            (at - y * 160) as u8,
        ) is Some {
            ppu.layer_colour(layer, y, (at - y * 160) as u8)->0
        } else {
            ppu.frame_buffer@[at]
        },
    decreases upto,
{
    if upto > 0 {
        law_painted_pixels(ppu, layer, y, upto - 1, at);
    }
}

/// Painting a scanline changes the frame and nothing else.
pub proof fn lemma_scanline_keeps_registers(ppu: PPU, y: u8)
    ensures
        ppu.scanline_model(y) == (PPU { frame_buffer: ppu.scanline_model(y).frame_buffer, ..ppu }),
{
}

/// The pixel unit's clock does not show in what the end of a scanline does.
proof fn lemma_next_line_ignores_clock(ppu: PPU, clock: u32)
    ensures
        (PPU { modeclock: clock, ..ppu }).next_line() == (PPU {
            modeclock: clock,
            ..ppu.next_line()
        }),
{
    let other = PPU { modeclock: clock, ..ppu };
    let y = ppu.ly;
    lemma_same_painted(other, ppu, Layer::Background, y, 160);
    let a1 = other.paint_model(Layer::Background, y);
    let b1 = ppu.paint_model(Layer::Background, y);
    lemma_same_painted(a1, b1, Layer::Window, y, 160);
    let a2 = a1.paint_model(Layer::Window, y);
    let b2 = b1.paint_model(Layer::Window, y);
    lemma_same_painted(a2, b2, Layer::Objects, y, 160);
}

proof fn lemma_after_lines_ignores_clock(ppu: PPU, clock: u32, lines: nat)
    ensures
        (PPU { modeclock: clock, ..ppu }).after_lines(lines) == (PPU {
            modeclock: clock,
            ..ppu.after_lines(lines)
        }),
    decreases lines,
{
    if lines > 0 {
        lemma_after_lines_ignores_clock(ppu, clock, (lines - 1) as nat);
        lemma_next_line_ignores_clock(ppu.after_lines((lines - 1) as nat), clock);
    }
}

/// Scanlines that end one after another add up.
pub proof fn lemma_after_lines_add(ppu: PPU, first: nat, second: nat)
    ensures
        ppu.after_lines(first).after_lines(second) == ppu.after_lines(first + second),
    decreases second,
{
    if second > 0 {
        lemma_after_lines_add(ppu, first, (second - 1) as nat);
        assert((first + second - 1) as nat == first + (second - 1) as nat);
    }
}

/// Letting clock ticks pass in two parts is letting them pass at once.
pub proof fn law_advance_adds(ppu: PPU, first: u32, second: u32)
    requires
        first + second <= u32::MAX,
        ppu.modeclock + first + second <= u32::MAX,
    ensures
        ppu.advance_model(first).advance_model(second) == ppu.advance_model(
            (first + second) as u32,
        ),
{
    let total = ppu.modeclock + first;
    let lines = (total / 456) as nat;
    let rest = (total % 456) as u32;
    let more = ((rest + second) / 456) as nat;
    let mid = ppu.advance_model(first);
    assert(mid == PPU { modeclock: rest, ..ppu.after_lines(lines) });
    lemma_after_lines_ignores_clock(ppu.after_lines(lines), rest, more);
    lemma_after_lines_add(ppu, lines, more);
    assert(lines + more == (ppu.modeclock + first + second) / 456);
    assert((rest + second) % 456 == (ppu.modeclock + first + second) % 456);
}

/// The end of a scanline moves the unit to the next scanline and leaves its
/// clock and its control register alone.
pub proof fn lemma_next_line_fields(ppu: PPU)
    ensures
        ppu.next_line().ly == (ppu.ly + 1) % 154,
        ppu.next_line().modeclock == ppu.modeclock,
        ppu.next_line().lcdc == ppu.lcdc,
{
    lemma_scanline_keeps_registers(ppu, ppu.ly);
}

/// The scanline after a number of scanlines have ended.
pub proof fn lemma_line_after(ppu: PPU, lines: nat)
    requires
        ppu.ly < FRAME_LINES,
    ensures
        ppu.after_lines(lines).ly == (ppu.ly + lines) % 154,
        ppu.after_lines(lines).modeclock == ppu.modeclock,
        ppu.after_lines(lines).lcdc == ppu.lcdc,
    decreases lines,
{
    if lines > 0 {
        let before = ppu.after_lines((lines - 1) as nat);
        lemma_line_after(ppu, (lines - 1) as nat);
        lemma_next_line_fields(before);
        lemma_next_in_frame(ppu.ly + lines - 1);
    }
}

/// Counting scanlines modulo the frame, one step at a time.
proof fn lemma_next_in_frame(count: int)
    requires
        count >= 0,
    ensures
        ((count % 154) + 1) % 154 == (count + 1) % 154,
{
}

/// After the clock ticks of a full frame the unit is on the scanline, and at
/// the point of the scanline, where it was.
pub proof fn law_frame_period(ppu: PPU)
    requires
        ppu.wf(),
        ppu.lcd_enabled(),
    ensures
        ppu.advance_model(FRAME_TICKS).ly == ppu.ly,
        ppu.advance_model(FRAME_TICKS).modeclock == ppu.modeclock,
        ppu.advance_model(FRAME_TICKS).wf(),
        ppu.advance_model(FRAME_TICKS).lcd_enabled(),
{
    assert((ppu.modeclock + 70224) / 456 == 154);
    assert((ppu.modeclock + 70224) % 456 == ppu.modeclock as int);
    lemma_line_after(ppu, 154);
}

/// The unit after clock ticks have passed in a number of parts, one after
/// another.
pub open spec fn advance_all(ppu: PPU, parts: Seq<u32>) -> PPU
    decreases parts.len(),
{
    if parts.len() == 0 {
        ppu
    } else {
        advance_all(ppu, parts.drop_last()).advance_model(parts.last())
    }
}

/// The sum of the parts.
pub open spec fn ticks_in(parts: Seq<u32>) -> int
    decreases parts.len(),
{
    if parts.len() == 0 {
        0
    } else {
        ticks_in(parts.drop_last()) + parts.last()
    }
}

/// Letting clock ticks pass in parts is letting their sum pass at once.
pub proof fn law_advance_all(ppu: PPU, parts: Seq<u32>)
    requires
        ppu.modeclock < LINE_TICKS,
        ppu.modeclock + ticks_in(parts) <= u32::MAX,
    ensures
        0 <= ticks_in(parts),
        advance_all(ppu, parts) == ppu.advance_model(ticks_in(parts) as u32),
    decreases parts.len(),
{
    if parts.len() == 0 {
        lemma_advance_nothing(ppu);
    } else {
        lemma_ticks_not_negative(parts.drop_last());
        law_advance_all(ppu, parts.drop_last());
        law_advance_adds(ppu, ticks_in(parts.drop_last()) as u32, parts.last());
    }
}

proof fn lemma_ticks_not_negative(parts: Seq<u32>)
    ensures
        0 <= ticks_in(parts),
    decreases parts.len(),
{
    if parts.len() > 0 {
        lemma_ticks_not_negative(parts.drop_last());
    }
}

/// Letting no clock tick pass changes nothing, for a unit whose clock is
/// within the scanline.
proof fn lemma_advance_nothing(ppu: PPU)
    ensures
        ppu.modeclock < LINE_TICKS ==> ppu.advance_model(0) == ppu,
{
}

/// However the clock ticks of a full frame are divided among the steps of
/// the processor, after the last of them the unit is on the scanline where
/// it was before the first.
pub proof fn law_frame_period_in_parts(ppu: PPU, parts: Seq<u32>)
    requires
        ppu.wf(),
        ppu.lcd_enabled(),
        ticks_in(parts) == FRAME_TICKS,
    ensures
        advance_all(ppu, parts).ly == ppu.ly,
{
    law_advance_all(ppu, parts);
    law_frame_period(ppu);
}

/// Whether an address holds what is written to it: it lies in work RAM,
/// high RAM, video memory or object memory, or in the cartridge's RAM while
/// that is there and enabled.
pub open spec fn keeps_bytes(mmu: MMU, addr: u16) -> bool {
    ||| in_wram(addr)
    ||| in_hram(addr)
    ||| in_vram(addr)
    ||| in_oam(addr)
    ||| (in_cartridge_ram(addr) && (mmu.cartridge.mbc matches Controller::Banked(mbc)
        && mbc.ram_open()))
}

/// A write to an address that holds bytes is served, reads back, and shows
/// at no other address.
pub proof fn law_write_then_read(mmu: MMU, addr: u16, value: u8, other: u16)
    requires
        keeps_bytes(mmu, addr),
    ensures
        writable(addr, value),
        mmu.write_model(addr, value).read_model(addr) == value,
        other != addr ==> mmu.write_model(addr, value).read_model(other) == mmu.read_model(
            other,
        ),
        keeps_bytes(mmu.write_model(addr, value), other) == keeps_bytes(mmu, other),
{
}

/// A write of the byte that an address already holds changes nothing.
pub proof fn law_write_same(mmu: MMU, addr: u16)
    requires
        keeps_bytes(mmu, addr),
    ensures
        mmu.write_model(addr, mmu.read_model(addr)) == mmu,
{
    let after = mmu.write_model(addr, mmu.read_model(addr));
    assert(after.wram =~= mmu.wram);
    assert(after.hram =~= mmu.hram);
    assert(after.ppu.vram =~= mmu.ppu.vram);
    assert(after.ppu.voam =~= mmu.ppu.voam);
    match mmu.cartridge.mbc {
        Controller::Banked(mbc) => {
            if in_cartridge_ram(addr) {
                let written = crate::cartridge::MBC::write_model(&mbc, addr, mmu.read_model(addr));
                assert(written.ram =~= mbc.ram);
            }
        },
        _ => {},
    }
}

/// Object memory while a transfer is under way: what has arrived is the
/// source, the rest is what was there.
pub proof fn lemma_dma_block(mmu: MMU, page: u8, upto: int, i: int)
    requires
        0 <= upto <= DMA_LENGTH,
        0 <= i < DMA_LENGTH,
    ensures
        mmu.dma_block(page, upto)@[i] == if i < upto {
            mmu.read_model((page as int * 256 + i) as u16)
        } else {
            mmu.ppu.voam@[i]
        },
    decreases upto,
{
    if upto > 0 {
        lemma_dma_block(mmu, page, upto - 1, i);
    }
}

/// After a write of a page number to the DMA register, each of the 160 bytes
/// of object memory reads as the byte at the same place of the page read
/// before the write, and goes on to do so when the step that wrote has
/// retired.
pub proof fn law_oam_dma(mmu: MMU, page: u8, i: int, cycles: u8)
    requires
        dma_page_ok(page),
        0 <= i < DMA_LENGTH,
    ensures
        writable(DMA, page),
        mmu.write_model(DMA, page).read_model((0xFE00 + i) as u16) == mmu.read_model(
            (page as int * 256 + i) as u16,
        ),
        retire(mmu.write_model(DMA, page), cycles).read_model((0xFE00 + i) as u16)
            == mmu.read_model((page as int * 256 + i) as u16),
{
    lemma_dma_block(mmu, page, DMA_LENGTH as int, i);
    let after = mmu.write_model(DMA, page);
    lemma_advance_keeps_memory(after.ppu, cycles as u32);
}

/// Painting and counting scanlines leave video memory and object memory
/// alone.
pub proof fn lemma_advance_keeps_memory(ppu: PPU, ticks: u32)
    ensures
        ppu.advance_model(ticks).voam == ppu.voam,
        ppu.advance_model(ticks).vram == ppu.vram,
{
    lemma_lines_keep_memory(ppu, ((ppu.modeclock + ticks) / 456) as nat);
}

proof fn lemma_lines_keep_memory(ppu: PPU, lines: nat)
    ensures
        ppu.after_lines(lines).voam == ppu.voam,
        ppu.after_lines(lines).vram == ppu.vram,
    decreases lines,
{
    if lines > 0 {
        let before = ppu.after_lines((lines - 1) as nat);
        lemma_lines_keep_memory(ppu, (lines - 1) as nat);
        lemma_scanline_keeps_registers(before, before.ly);
    }
}

/// The flag byte after a step, whatever the step did, has a zero low nibble.
pub proof fn law_flags_low_nibble(cpu: CPU, mmu: MMU)
    ensures
        cpu.registers.f.byte() & 0x0F == 0,
        cpu.step_model(mmu) matches Ok((after, _, _)) ==> after.registers.f.byte() & 0x0F == 0,
{
    lemma_flag_byte_low_nibble(cpu.registers.f);
    match cpu.step_model(mmu) {
        Ok((after, _, _)) => {
            lemma_flag_byte_low_nibble(after.registers.f);
        },
        Err(_) => {},
    }
}

/// The machine after a number of steps, or the fault that stopped it.
pub open spec fn steps_model(cpu: CPU, mmu: MMU, count: nat) -> Result<(CPU, MMU), crate::cpu::Fault>
    decreases count,
{
    if count == 0 {
        Ok((cpu, mmu))
    } else {
        match steps_model(cpu, mmu, (count - 1) as nat) {
            Ok((before, bus)) => match before.step_model(bus) {
                Ok((after, then, _)) => Ok((after, then)),
                Err(fault) => Err(fault),
            },
            Err(fault) => Err(fault),
        }
    }
}

/// After any number of steps the flag byte has a zero low nibble.
pub proof fn law_flags_low_nibble_always(cpu: CPU, mmu: MMU, count: nat)
    ensures
        steps_model(cpu, mmu, count) matches Ok((after, _)) ==> after.registers.f.byte() & 0x0F
            == 0,
{
    match steps_model(cpu, mmu, count) {
        Ok((after, _)) => {
            lemma_flag_byte_low_nibble(after.registers.f);
        },
        Err(_) => {},
    }
}

/// A word that is pushed is the word that is read at the new stack pointer.
/// The two bytes below the stack pointer must hold what is written to them.
#[verifier::rlimit(60)]
pub proof fn lemma_push_then_load(mmu: MMU, sp: u16, word: u16)
    requires
        keeps_bytes(mmu, wrap16(sp as int, -1)),
        keeps_bytes(mmu, wrap16(sp as int, -2)),
    ensures
        crate::cpu::push_word(mmu, sp, word) matches Ok(stacked) && crate::cpu::load_word(
            stacked,
            wrap16(sp as int, -2),
        ) == Ok::<u16, crate::cpu::Fault>(word),
{
    let upper = wrap16(sp as int, -1);
    let lower = wrap16(sp as int, -2);
    let first = mmu.write_model(upper, high_byte_of(word));
    let second = first.write_model(lower, low_byte_of(word));
    law_write_then_read(mmu, upper, high_byte_of(word), lower);
    law_write_then_read(first, lower, low_byte_of(word), upper);
    assert(wrap16(lower as int, 1) == upper);
    assert(second.read_model(upper) == high_byte_of(word));
    assert(second.read_model(lower) == low_byte_of(word));
    crate::bits::lemma_word_round_trip(word);
    assert(crate::mmu::readable(upper) && crate::mmu::readable(lower));
}

/// A push followed by a pop, at the level of the two operations.
pub proof fn lemma_push_pop_models(cpu: CPU, mmu: MMU, reg: R16stk)
    requires
        keeps_bytes(mmu, wrap16(cpu.registers.sp as int, -1)),
        keeps_bytes(mmu, wrap16(cpu.registers.sp as int, -2)),
    ensures
        cpu.push_model(mmu, cpu.registers.r16_stk(reg)) matches Ok((pushed, stacked))
            && pushed.pop_model(stacked, reg) == Ok::<(CPU, MMU), crate::cpu::Fault>(
            (cpu, stacked),
        ),
{
    let sp = cpu.registers.sp;
    let lower = wrap16(sp as int, -2);
    let word = cpu.registers.r16_stk(reg);
    lemma_push_then_load(mmu, sp, word);
    lemma_r16_stk_round_trip(cpu.registers, reg);
    assert(wrap16(lower as int, 2) == sp);
    let pushed = cpu.with_sp(lower);
    assert(pushed.registers.with_r16_stk(reg, word) == (crate::cpu::registers::Registers {
        sp: lower,
        ..cpu.registers.with_r16_stk(reg, word)
    }));
}

/// A push of a register pair followed by a pop into the same pair leaves
/// every register as it was, the stack pointer among them. The two bytes
/// below the stack pointer must hold what is written to them.
pub proof fn law_push_pop(cpu: CPU, mmu: MMU, reg: R16stk)
    requires
        keeps_bytes(mmu, wrap16(cpu.registers.sp as int, -1)),
        keeps_bytes(mmu, wrap16(cpu.registers.sp as int, -2)),
    ensures
        cpu.execute_model(mmu, Instruction::PushR16stk(reg)) matches Ok((pushed, stacked))
            && pushed.execute_model(stacked, Instruction::PopR16stk(reg)) matches Ok(
            (popped, after),
        ) && popped == cpu && after == stacked,
{
    lemma_push_pop_models(cpu, mmu, reg);
}

/// A load of one register from another, followed by the load back, leaves
/// the source as it was and the target equal to it.
pub proof fn law_load_and_back(cpu: CPU, mmu: MMU, target: R8, source: R8)
    requires
        target != R8::HL,
        source != R8::HL,
    ensures
        cpu.execute_model(mmu, Instruction::LdR8R8(target, source)) matches Ok((loaded, bus))
            && loaded.execute_model(bus, Instruction::LdR8R8(source, target)) matches Ok(
            (back, after),
        ) && after == mmu && back == loaded && back.registers.r8(source) == cpu.registers.r8(
            source,
        ) && back.registers.r8(target) == cpu.registers.r8(source),
{
}

/// A load of one 8-bit operand from another, followed by the load back,
/// restores both, and the whole machine, where the two held the same value
/// before. Where one of them is the byte at HL, that byte must be readable
/// and its address must hold what is written to it.
pub proof fn law_load_round_trip(cpu: CPU, mmu: MMU, target: R8, source: R8)
    requires
        !(target == R8::HL && source == R8::HL),
        target == R8::HL || source == R8::HL ==> keeps_bytes(mmu, cpu.registers.r16(R16::HL)),
        cpu.operand(mmu, target) == cpu.operand(mmu, source),
    ensures
        cpu.execute_model(mmu, Instruction::LdR8R8(target, source)) matches Ok((loaded, bus))
            && loaded.execute_model(bus, Instruction::LdR8R8(source, target)) matches Ok(
            (back, after),
        ) && back == cpu && after == mmu,
{
    let hl = cpu.registers.r16(R16::HL);
    if target == R8::HL || source == R8::HL {
        law_write_then_read(mmu, hl, mmu.read_model(hl), hl);
        law_write_same(mmu, hl);
    }
}

/// Whether two instructions are of one kind and agree in every operand but
/// their immediates, so that they have one length and one cost.
pub open spec fn same_shape(a: Instruction, b: Instruction) -> bool {
    &&& a.length() == b.length()
    &&& a.cycles() == b.cycles()
    &&& a.taken_cycles() == b.taken_cycles()
}

proof fn lemma_block0_shape(opcode: u8, a1: u8, a16: u16, b1: u8, b16: u16)
    requires
        opcode < 0x40,
    ensures
        same_shape(
            crate::instructions::decode_block0(opcode, a1, a16),
            crate::instructions::decode_block0(opcode, b1, b16),
        ),
{
    let op = opcode as int;
    if op % 16 == 1 || op % 16 == 2 || op % 16 == 3 || op % 16 == 9 || op % 16 == 10 || op % 16
        == 11 {
    } else if op % 8 == 4 || op % 8 == 5 || op % 8 == 6 {
    } else if op % 8 == 7 {
    } else {
    }
}

proof fn lemma_block3_shape(opcode: u8, a1: u8, a16: u16, b1: u8, b16: u16)
    requires
        opcode >= 0xC0,
        opcode != 0xCB || a1 == b1,
    ensures
        same_shape(
            crate::instructions::decode_block3(opcode, a1, a16),
            crate::instructions::decode_block3(opcode, b1, b16),
        ),
{
    let op = opcode as int;
    if op % 8 == 6 {
        let field = (op / 8) % 8;
        assert(same_shape(
            crate::instructions::alu_on_imm8(op / 8, a1),
            crate::instructions::alu_on_imm8(op / 8, b1),
        ));
    } else if op % 8 == 7 || op % 16 == 1 || op % 16 == 5 {
    } else if op < 0xE0 && (op % 8 == 0 || op % 8 == 2 || op % 8 == 4) {
    } else {
    }
}

/// The length and the cost of an instruction are told by its opcode alone,
/// whatever the two bytes behind it are, unless the opcode is the prefix
/// 0xCB; then they are told by the byte behind the prefix.
pub proof fn law_opcode_tells_length(opcode: u8, a1: u8, a2: u8, b1: u8, b2: u8)
    requires
        opcode != 0xCB || a1 == b1,
    ensures
        decode(opcode, a1, a2).length() == decode(opcode, b1, b2).length(),
        decode(opcode, a1, a2).cycles() == decode(opcode, b1, b2).cycles(),
        decode(opcode, a1, a2).taken_cycles() == decode(opcode, b1, b2).taken_cycles(),
{
    if opcode < 0x40 {
        lemma_block0_shape(opcode, a1, word_of(a2, a1), b1, word_of(b2, b1));
    } else if opcode >= 0xC0 {
        lemma_block3_shape(opcode, a1, word_of(a2, a1), b1, word_of(b2, b1));
    }
}

/// An instruction with every 8-bit operand that is the byte at HL replaced
/// by a register.
pub open spec fn on_register(instruction: Instruction, reg: R8) -> Instruction {
    let put = |operand: R8|
        if operand == R8::HL {
            reg
        } else {
            operand
        };
    match instruction {
        Instruction::LdR8Imm8(r, value) => Instruction::LdR8Imm8(put(r), value),
        Instruction::LdR8R8(target, source) => Instruction::LdR8R8(put(target), put(source)),
        Instruction::AdcAR8(r) => Instruction::AdcAR8(put(r)),
        Instruction::AddAR8(r) => Instruction::AddAR8(put(r)),
        Instruction::AndAR8(r) => Instruction::AndAR8(put(r)),
        Instruction::CpAR8(r) => Instruction::CpAR8(put(r)),
        Instruction::DecR8(r) => Instruction::DecR8(put(r)),
        Instruction::IncR8(r) => Instruction::IncR8(put(r)),
        Instruction::OrAR8(r) => Instruction::OrAR8(put(r)),
        Instruction::SbcAR8(r) => Instruction::SbcAR8(put(r)),
        Instruction::SubAR8(r) => Instruction::SubAR8(put(r)),
        Instruction::XorAR8(r) => Instruction::XorAR8(put(r)),
        Instruction::RlcR8(r) => Instruction::RlcR8(put(r)),
        Instruction::RrcR8(r) => Instruction::RrcR8(put(r)),
        Instruction::RlR8(r) => Instruction::RlR8(put(r)),
        Instruction::RrR8(r) => Instruction::RrR8(put(r)),
        Instruction::SlaR8(r) => Instruction::SlaR8(put(r)),
        Instruction::SraR8(r) => Instruction::SraR8(put(r)),
        Instruction::SwapR8(r) => Instruction::SwapR8(put(r)),
        Instruction::SrlR8(r) => Instruction::SrlR8(put(r)),
        Instruction::BitB3R8(index, r) => Instruction::BitB3R8(index, put(r)),
        Instruction::ResB3R8(index, r) => Instruction::ResB3R8(index, put(r)),
        Instruction::SetB3R8(index, r) => Instruction::SetB3R8(index, put(r)),
        other => other,
    }
}

/// An instruction that works on the byte at HL costs more clock ticks than
/// the same instruction on a register, and is as long.
pub proof fn law_memory_operand_costs_more(instruction: Instruction, reg: R8)
    requires
        instruction.touches_hl_byte(),
        reg != R8::HL,
    ensures
        instruction.cycles() > on_register(instruction, reg).cycles(),
        instruction.length() == on_register(instruction, reg).length(),
        !on_register(instruction, reg).touches_hl_byte(),
{
}

/// A conditional jump, call or return has two costs, and the one for the
/// condition that holds is the higher; any other instruction has one.
pub proof fn law_taken_branch_costs_more(cpu: CPU, instruction: Instruction)
    ensures
        cpu.branch_taken(instruction) ==> instruction.taken_cycles() > instruction.cycles(),
        !cpu.branch_taken(instruction) ==> cpu.cycles_model(instruction) == instruction.cycles(),
        instruction.cycles() <= cpu.cycles_model(instruction) <= 24,
        instruction.cycles() >= 4,
{
}

/// The rotates and shifts, which the model writes with sums and quotients,
/// are the usual operations on bits.
pub proof fn law_shifts_move_bits(value: u8, carry: bool)
    ensures
        shift_value(Shift::Rlc, value, carry) == (value << 1u8) | (value >> 7u8),
        shift_value(Shift::Rrc, value, carry) == (value >> 1u8) | (value << 7u8),
        shift_value(Shift::Rl, value, carry) == (value << 1u8) | (if carry {
            1u8
        } else {
            0u8
        }),
        shift_value(Shift::Rr, value, carry) == (value >> 1u8) | (if carry {
            0x80u8
        } else {
            0u8
        }),
        shift_value(Shift::Sla, value, carry) == value << 1u8,
        shift_value(Shift::Sra, value, carry) == (value >> 1u8) | (value & 0x80u8),
        shift_value(Shift::Swap, value, carry) == (value << 4u8) | (value >> 4u8),
        shift_value(Shift::Srl, value, carry) == value >> 1u8,
        shift_carry(Shift::Rlc, value) == (value & 0x80u8 != 0),
        shift_carry(Shift::Rrc, value) == (value & 1u8 != 0),
{
    lemma_shift_bits(value);
}

proof fn lemma_shift_bits(value: u8)
    by (bit_vector)
    ensures
        (((value as u16 * 2) % 256) as u8) + value / 128 == (value << 1u8) | (value >> 7u8),
        value / 2 + (value % 2) * 128 == (value >> 1u8) | (value << 7u8),
        (((value as u16 * 2) % 256) as u8) + 1 == (value << 1u8) | 1u8,
        (((value as u16 * 2) % 256) as u8) == (value << 1u8) | 0u8,
        value / 2 + 128 == (value >> 1u8) | 0x80u8,
        value / 2 == (value >> 1u8) | 0u8,
        (((value as u16 * 2) % 256) as u8) == value << 1u8,
        value / 2 + (value / 128) * 128 == (value >> 1u8) | (value & 0x80u8),
        (value % 16) * 16 + value / 16 == (value << 4u8) | (value >> 4u8),
        value / 2 == value >> 1u8,
        (value >= 128) == (value & 0x80u8 != 0),
        (value % 2 == 1) == (value & 1u8 != 0),
{
}

/// Setting a bit is an OR with its mask, clearing it an AND with the
/// complement of the mask, and testing it an AND with the mask.
pub proof fn law_bits_are_masks(value: u8, index: u8)
    requires
        index < 8,
    ensures
        with_bit(value, index, true) == value | (1u8 << index),
        with_bit(value, index, false) == value & !(1u8 << index),
        bit_is_set(value, index as int) == (value & (1u8 << index) != 0),
{
    let weight = crate::bits::pow2(index as int) as u8;
    lemma_mask_of(index);
    crate::cpu::alu::lemma_bit_mask(value, weight);
    lemma_mask_arithmetic(value, weight);
}

proof fn lemma_mask_of(index: u8)
    by (bit_vector)
    requires
        index < 8,
    ensures
        1u8 << index == if index == 0 {
            1u8
        } else if index == 1 {
            2u8
        } else if index == 2 {
            4u8
        } else if index == 3 {
            8u8
        } else if index == 4 {
            16u8
        } else if index == 5 {
            32u8
        } else if index == 6 {
            64u8
        } else {
            128u8
        },
{
}

proof fn lemma_mask_arithmetic(value: u8, weight: u8)
    by (bit_vector)
    requires
        crate::cpu::alu::is_bit_weight(weight),
    ensures
        value & weight == 0 ==> value + weight == (value | weight) as int,
        value & weight != 0 ==> value - weight == (value & !weight) as int,
        value & weight != 0 ==> value == value | weight,
        value & weight == 0 ==> value == value & !weight,
{
}

/// The interrupt that a step dispatches is pending, and no source of a
/// higher priority is; none is dispatched only when none is pending.
pub proof fn law_dispatch_priority(mmu: MMU, other: Interrupt)
    ensures
        match first_pending(mmu) {
            Some(source) => source.pending(mmu) && (other.pending(mmu) ==> source.bit()
                <= other.bit()),
            None => !other.pending(mmu),
        },
{
}

/// What the dispatch of an interrupt leaves behind: execution is at the
/// source's vector, the master enable is clear, the source's latch is clear,
/// and the program counter that was is the word at the new stack pointer.
/// The two bytes below the stack pointer must hold what is written to them.
/// The step that dispatches takes 20 clock ticks, by which the devices move
/// on afterwards.
pub proof fn law_dispatch(cpu: CPU, mmu: MMU)
    requires
        cpu.ime,
        first_pending(mmu) is Some,
        keeps_bytes(mmu, wrap16(cpu.registers.sp as int, -1)),
        keeps_bytes(mmu, wrap16(cpu.registers.sp as int, -2)),
    ensures
        ({
            let source = first_pending(mmu)->0;
            &&& cpu.dispatch_model(mmu, source) matches Ok((after, bus)) && after.registers.pc
                == source.vector() && !after.ime && !after.halted && after.registers.sp == wrap16(
                cpu.registers.sp as int,
                -2,
            ) && !source.raised(bus) && crate::cpu::load_word(bus, after.registers.sp) == Ok::<
                u16,
                crate::cpu::Fault,
            >(cpu.registers.pc) && cpu.step_model(mmu) == Ok::<(CPU, MMU, u8), crate::cpu::Fault>(
                (after, retire(bus, 20), 20),
            )
        }),
{
    let source = first_pending(mmu)->0;
    let cleared = source.acknowledged(mmu);
    lemma_push_then_load(cleared, cpu.registers.sp, cpu.registers.pc);
    let upper = wrap16(cpu.registers.sp as int, -1);
    let lower = wrap16(cpu.registers.sp as int, -2);
    let first = cleared.write_model(upper, high_byte_of(cpu.registers.pc));
    assert(!source.raised(first));
    assert(!source.raised(first.write_model(lower, low_byte_of(cpu.registers.pc))));
}

/// An interrupt is pending when the interrupt enable register, the interrupt
/// flag register and the mask of the five sources have a bit in common.
pub proof fn law_pending_is_a_common_bit(mmu: MMU)
    ensures
        first_pending(mmu) is Some <==> mmu.ie & mmu.interrupt_flags() & 0x1F != 0,
{
    let flags = mmu.interrupt_flags();
    lemma_common_bits(mmu.ie, flags);
    assert(bit_is_set(flags, 0) == mmu.ppu.vblank_irq);
    assert(bit_is_set(flags, 1) == mmu.ppu.stat_irq);
    assert(bit_is_set(flags, 2) == mmu.timer.timer_irq);
    assert(!bit_is_set(flags, 3));
    assert(bit_is_set(flags, 4) == mmu.joypad.joypad_irq);
}

proof fn lemma_common_bits(enabled: u8, flags: u8)
    by (bit_vector)
    ensures
        (enabled & flags & 0x1F != 0) == (((enabled / 1) % 2 == 1 && (flags / 1) % 2 == 1) || ((
        enabled / 2) % 2 == 1 && (flags / 2) % 2 == 1) || ((enabled / 4) % 2 == 1 && (flags / 4)
            % 2 == 1) || ((enabled / 8) % 2 == 1 && (flags / 8) % 2 == 1) || ((enabled / 16) % 2
            == 1 && (flags / 16) % 2 == 1)),
{
}

proof fn lemma_load_keeps_switches(cpu: CPU, mmu: MMU, instruction: Instruction)
    ensures
        cpu.load_model(mmu, instruction) matches Ok((after, _)) ==> after.ei_pending
            == cpu.ei_pending && after.ime == cpu.ime && after.halted == cpu.halted,
{
}

proof fn lemma_arithmetic_keeps_switches(cpu: CPU, mmu: MMU, instruction: Instruction)
    ensures
        cpu.arithmetic_model(mmu, instruction) matches Ok((after, _)) ==> after.ei_pending
            == cpu.ei_pending && after.ime == cpu.ime && after.halted == cpu.halted,
{
}

proof fn lemma_shift_keeps_switches(cpu: CPU, mmu: MMU, shift: Shift, reg: R8)
    ensures
        cpu.shift_model(mmu, shift, reg) matches Ok((after, _)) ==> after.ei_pending
            == cpu.ei_pending && after.ime == cpu.ime && after.halted == cpu.halted,
{
    match cpu.operand(mmu, reg) {
        Ok(value) => {
            let out = crate::cpu::alu::shift_result(shift, value, cpu.registers.f.carry);
            lemma_operand_keeps_switches(cpu.with_flags(out.1), mmu, reg, out.0);
        },
        Err(_) => {},
    }
}

proof fn lemma_operand_keeps_switches(cpu: CPU, mmu: MMU, reg: R8, value: u8)
    ensures
        cpu.with_operand(mmu, reg, value) matches Ok((after, _)) ==> after.ei_pending
            == cpu.ei_pending && after.ime == cpu.ime && after.halted == cpu.halted,
{
}

proof fn lemma_rotate_keeps_switches(cpu: CPU, mmu: MMU, instruction: Instruction)
    ensures
        cpu.rotate_model(mmu, instruction) matches Ok((after, _)) ==> after.ei_pending
            == cpu.ei_pending && after.ime == cpu.ime && after.halted == cpu.halted,
{
    match instruction {
        Instruction::RlcR8(reg) => lemma_shift_keeps_switches(cpu, mmu, Shift::Rlc, reg),
        Instruction::RrcR8(reg) => lemma_shift_keeps_switches(cpu, mmu, Shift::Rrc, reg),
        Instruction::RlR8(reg) => lemma_shift_keeps_switches(cpu, mmu, Shift::Rl, reg),
        Instruction::RrR8(reg) => lemma_shift_keeps_switches(cpu, mmu, Shift::Rr, reg),
        Instruction::SlaR8(reg) => lemma_shift_keeps_switches(cpu, mmu, Shift::Sla, reg),
        Instruction::SraR8(reg) => lemma_shift_keeps_switches(cpu, mmu, Shift::Sra, reg),
        Instruction::SwapR8(reg) => lemma_shift_keeps_switches(cpu, mmu, Shift::Swap, reg),
        Instruction::SrlR8(reg) => lemma_shift_keeps_switches(cpu, mmu, Shift::Srl, reg),
        Instruction::Rlca => {
            assert(cpu.rotate_a_model(Shift::Rlc).ime == cpu.ime);
        },
        Instruction::Rrca => {
            assert(cpu.rotate_a_model(Shift::Rrc).ime == cpu.ime);
        },
        Instruction::Rla => {
            assert(cpu.rotate_a_model(Shift::Rl).ime == cpu.ime);
        },
        Instruction::Rra => {
            assert(cpu.rotate_a_model(Shift::Rr).ime == cpu.ime);
        },
        Instruction::Daa => {
            assert(cpu.daa_model().ime == cpu.ime);
        },
        Instruction::Cpl => {},
        Instruction::Scf => {},
        Instruction::Ccf => {},
        _ => {},
    }
}

proof fn lemma_bits_keeps_switches(cpu: CPU, mmu: MMU, instruction: Instruction)
    ensures
        cpu.bits_model(mmu, instruction) matches Ok((after, _)) ==> after.ei_pending
            == cpu.ei_pending && after.ime == cpu.ime && after.halted == cpu.halted,
{
}

proof fn lemma_flow_keeps_switches(cpu: CPU, mmu: MMU, instruction: Instruction)
    ensures
        cpu.flow_model(mmu, instruction) matches Ok((after, _)) ==> after.ei_pending
            == cpu.ei_pending && after.ime == (cpu.ime || instruction == Instruction::Reti)
            && after.halted == cpu.halted,
{
}

/// An instruction other than DI and EI leaves the interrupt switches as they
/// are, but that RETI sets the master enable.
pub proof fn lemma_execute_keeps_switches(cpu: CPU, mmu: MMU, instruction: Instruction)
    requires
        instruction != Instruction::Di,
        instruction != Instruction::Ei,
    ensures
        cpu.execute_model(mmu, instruction) matches Ok((after, _)) ==> after.ei_pending
            == cpu.ei_pending && after.ime == (cpu.ime || instruction == Instruction::Reti),
{
    lemma_load_keeps_switches(cpu, mmu, instruction);
    lemma_arithmetic_keeps_switches(cpu, mmu, instruction);
    lemma_rotate_keeps_switches(cpu, mmu, instruction);
    lemma_bits_keeps_switches(cpu, mmu, instruction);
    lemma_flow_keeps_switches(cpu, mmu, instruction);
}

/// What running an instruction other than DI and EI does to the interrupt
/// switches: the master enable is set where it was armed, and by RETI; the
/// arming is used up.
pub proof fn lemma_run_switches(cpu: CPU, mmu: MMU, instruction: Instruction)
    requires
        instruction != Instruction::Di,
        instruction != Instruction::Ei,
    ensures
        cpu.run_model(mmu, instruction) matches Ok((after, _, _)) ==> after.ime == (cpu.ime
            || cpu.ei_pending || instruction == Instruction::Reti) && (cpu.ei_pending
            ==> !after.ei_pending),
{
    let ready = CPU { halted: false, ..cpu }.with_pc(
        wrap16(cpu.registers.pc as int, instruction.length()),
    );
    lemma_execute_keeps_switches(ready, mmu, instruction);
}

/// What running EI or DI does to the interrupt switches. EI arms the master
/// enable where it is clear; DI clears it and disarms it.
pub proof fn lemma_run_ei_di(cpu: CPU, mmu: MMU)
    ensures
        cpu.run_model(mmu, Instruction::Ei) matches Ok((after, _, _)) && (!cpu.ei_pending
            ==> after.ime == cpu.ime && after.ei_pending == !cpu.ime),
        cpu.run_model(mmu, Instruction::Di) matches Ok((after, _, _)) && !after.ime
            && !after.ei_pending,
{
    let ready = CPU { halted: false, ..cpu }.with_pc(wrap16(cpu.registers.pc as int, 1));
    assert(group_of(Instruction::Ei) == Group::Control);
    assert(group_of(Instruction::Di) == Group::Control);
    assert(ready.execute_model(mmu, Instruction::Ei) == crate::cpu::execution::only_cpu(
        CPU { ei_pending: ready.ei_pending || !ready.ime, ..ready },
        mmu,
    ));
    assert(ready.execute_model(mmu, Instruction::Di) == crate::cpu::execution::only_cpu(
        CPU { ime: false, ei_pending: false, ..ready },
        mmu,
    ));
}

/// EI takes effect one instruction late. The step that runs EI leaves the
/// master enable clear and arms it; the step that runs the next instruction
/// sets it once that instruction has done its work, unless the instruction
/// is DI. While the master enable is clear no interrupt is dispatched, so
/// the instruction behind EI always runs.
pub proof fn law_ei_delay(cpu: CPU, mmu: MMU, next: Instruction)
    requires
        !cpu.ime,
        !cpu.ei_pending,
    ensures
        cpu.run_model(mmu, Instruction::Ei) matches Ok((armed, bus, _)) && !armed.ime
            && armed.ei_pending && (armed.run_model(bus, next) matches Ok((after, _, _))
            ==> after.ime == (next != Instruction::Di) && !after.ei_pending),
{
    lemma_run_ei_di(cpu, mmu);
    let (armed, bus, _) = cpu.run_model(mmu, Instruction::Ei)->Ok_0;
    if next == Instruction::Di {
        lemma_run_ei_di(armed, bus);
    } else if next == Instruction::Ei {
        lemma_run_ei_again(armed, bus);
    } else {
        lemma_run_switches(armed, bus, next);
    }
}

/// The same in steps of the machine. While the master enable is clear no
/// interrupt is dispatched, so the step behind EI runs the instruction
/// behind EI, whatever is pending.
pub proof fn law_ei_delay_in_steps(cpu: CPU, mmu: MMU)
    requires
        !cpu.ime,
        !cpu.ei_pending,
        !cpu.halted,
        cpu.ins_model(mmu) == Ok::<Instruction, crate::cpu::Fault>(Instruction::Ei),
    ensures
        cpu.step_model(mmu) matches Ok((armed, bus, cycles)) && cycles == 4 && !armed.ime
            && armed.ei_pending && !armed.halted && (armed.step_model(bus) matches Ok(
            (after, _, _),
        ) ==> armed.ins_model(bus) matches Ok(next) && after.ime == (next != Instruction::Di)),
{
    law_ei_delay(cpu, mmu, Instruction::Nop);
    let (armed, bus, _) = cpu.step_model(mmu)->Ok_0;
    assert(!armed.halted) by {
        lemma_run_ei_di(cpu, mmu);
        let ready = CPU { halted: false, ..cpu }.with_pc(wrap16(cpu.registers.pc as int, 1));
        assert(group_of(Instruction::Ei) == Group::Control);
    }
    match armed.ins_model(bus) {
        Ok(next) => {
            law_ei_delay(cpu, mmu, next);
        },
        Err(_) => {},
    }
}

/// EI behind EI: the first one's arming takes effect.
proof fn lemma_run_ei_again(cpu: CPU, mmu: MMU)
    requires
        cpu.ei_pending,
    ensures
        cpu.run_model(mmu, Instruction::Ei) matches Ok((after, _, _)) && after.ime
            && !after.ei_pending,
{
    let ready = CPU { halted: false, ..cpu }.with_pc(wrap16(cpu.registers.pc as int, 1));
    assert(group_of(Instruction::Ei) == Group::Control);
    assert(ready.execute_model(mmu, Instruction::Ei) == crate::cpu::execution::only_cpu(
        CPU { ei_pending: ready.ei_pending || !ready.ime, ..ready },
        mmu,
    ));
}

} // verus!
