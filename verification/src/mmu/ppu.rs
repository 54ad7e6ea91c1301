use crate::bits::{bit_is_set, signed_of};
use crate::cpu::alu::test_bit;
use vstd::array::spec_array_update;
use vstd::prelude::*;

verus! {

pub const SCREEN_WIDTH: usize = 160;

pub const SCREEN_HEIGHT: usize = 144;

/// The clock ticks that one scanline takes.
pub const LINE_TICKS: u32 = 456;

/// The scanlines of one frame: the visible ones and ten of vertical blank.
pub const FRAME_LINES: u8 = 154;

/// The address of LY, the register that holds the current scanline.
pub const LY: u16 = 0xFF44;

/// The four colours of the screen, from the lightest to the darkest.
pub const WHITE: u32 = 0xFFFFFFFF;

pub const LIGHT_GREY: u32 = 0xFFBBBBBB;

pub const DARK_GREY: u32 = 0xFF666666;

pub const BLACK: u32 = 0xFF000000;

/// The pixels of one tile as colour numbers; the first index is the column.
pub type Tile = [[u8; 8]; 8];

/// The three layers that make up a scanline, in the order they are painted.
#[derive(Clone, Copy, Debug, PartialEq, Eq, Structural)]
pub enum Layer {
    Background,
    Window,
    Objects,
}

/// The pixel-processing unit: video memory, the registers through which a
/// program controls it, the scanline clock and the frame it paints.
pub struct PPU {
    /// The frame: 144 rows of 160 pixels, each a 32-bit colour.
    pub frame_buffer: [u32; 23040],
    /// Set when a frame is complete; cleared when the host takes it.
    pub frame_available: bool,
    pub frame_number: u32,
    /// The vertical blank interrupt latch.
    pub vblank_irq: bool,
    /// The LCD status interrupt latch.
    pub stat_irq: bool,
    pub vram: [u8; 0x2000],
    pub voam: [u8; 0xA0],
    pub scy: u8,
    pub scx: u8,
    pub ly: u8,
    pub lyc: u8,
    pub lcdc: u8,
    pub bgp: u8,
    /// The clock ticks into the current scanline.
    pub modeclock: u32,
    pub wy: u8,
    pub wx: u8,
    pub obj_palette_0: u8,
    pub obj_palette_1: u8,
    pub stat: u8,
    /// The byte last written to the DMA register.
    pub dma: u8,
    /// When set, LY reads as 0x90 whatever the scanline is, for conformance
    /// harnesses that must not depend on video timing.
    pub fixed_ly: bool,
}

/// The colour of a shade.
pub open spec fn colour_of(shade: int) -> u32 {
    if shade == 0 {
        WHITE
    } else if shade == 1 {
        LIGHT_GREY
    } else if shade == 2 {
        DARK_GREY
    } else {
        BLACK
    }
}

/// The shade that a palette register gives a colour number: the two bits of
/// the register at twice the number.
pub open spec fn shade_of(palette: u8, index: u8) -> int
    recommends
        index < 4,
{
    let weight: int = if index == 0 {
        1
    } else if index == 1 {
        4
    } else if index == 2 {
        16
    } else {
        64
    };
    (palette as int / weight) % 4
}

/// Whether an address lies in video memory.
pub open spec fn in_vram(addr: u16) -> bool {
    0x8000 <= addr <= 0x9FFF
}

/// Whether an address lies in object attribute memory.
pub open spec fn in_oam(addr: u16) -> bool {
    0xFE00 <= addr <= 0xFE9F
}

/// Whether an address is one of the unit's registers.
pub open spec fn in_registers(addr: u16) -> bool {
    0xFF40 <= addr <= 0xFF4B
}

/// Whether an address is the unit's to serve.
pub open spec fn is_ppu_address(addr: u16) -> bool {
    in_vram(addr) || in_oam(addr) || in_registers(addr)
}

impl PPU {
    /// Whether the state is one that the unit reaches: the scanline is one of
    /// the 154, and the clock is within the line.
    pub open spec fn wf(self) -> bool {
        self.ly < FRAME_LINES && self.modeclock < LINE_TICKS
    }

    pub open spec fn lcd_enabled(self) -> bool {
        bit_is_set(self.lcdc, 7)
    }

    pub open spec fn window_map_high(self) -> bool {
        bit_is_set(self.lcdc, 6)
    }

    pub open spec fn window_enabled(self) -> bool {
        bit_is_set(self.lcdc, 5)
    }

    pub open spec fn unsigned_tiles(self) -> bool {
        bit_is_set(self.lcdc, 4)
    }

    pub open spec fn bg_map_high(self) -> bool {
        bit_is_set(self.lcdc, 3)
    }

    pub open spec fn tall_objects(self) -> bool {
        bit_is_set(self.lcdc, 2)
    }

    pub open spec fn objects_enabled(self) -> bool {
        bit_is_set(self.lcdc, 1)
    }

    pub open spec fn bg_enabled(self) -> bool {
        bit_is_set(self.lcdc, 0)
    }

    /// The mode that the status register reports: 1 in vertical blank;
    /// otherwise 2 for the first 80 ticks of a line, 3 for the next 172 and 0
    /// for the rest.
    pub open spec fn mode(self) -> u8 {
        if self.ly >= SCREEN_HEIGHT {
            1
        } else if self.modeclock < 80 {
            2
        } else if self.modeclock < 252 {
            3
        } else {
            0
        }
    }

    /// The offset in video memory of the sixteen bytes of a tile. With
    /// `use_8000`, or when LCDC selects it, tiles are numbered from 0x8000
    /// up; otherwise the number is signed and counts from 0x9000.
    pub open spec fn tile_offset(self, tile_index: u8, use_8000: bool) -> int {
        if self.unsigned_tiles() || use_8000 {
            tile_index as int * 16
        } else {
            0x1000 + signed_of(tile_index) * 16
        }
    }

    /// The colour number of one pixel of a tile. A row of eight pixels is two
    /// bytes: the first holds the low bits, the second the high bits, the
    /// leftmost pixel in bit 7.
    pub open spec fn tile_pixel(self, tile_index: u8, line: int, col: int, use_8000: bool) -> u8
        recommends
            0 <= line < 16,
            0 <= col < 8,
    {
        let at = self.tile_offset(tile_index, use_8000) + 2 * line;
        let low: int = if bit_is_set(self.vram@[at], 7 - col) {
            1
        } else {
            0
        };
        let high: int = if bit_is_set(self.vram@[at + 1], 7 - col) {
            2
        } else {
            0
        };
        (high + low) as u8
    }

    /// The colour number of one pixel of a sixteen-byte block of video memory
    /// read as a tile, the blocks counted from the start of video memory.
    pub open spec fn block_pixel(self, block: int, line: int, col: int) -> u8
        recommends
            0 <= block < 512,
            0 <= line < 8,
            0 <= col < 8,
    {
        let at = block * 16 + 2 * line;
        let low: int = if bit_is_set(self.vram@[at], 7 - col) {
            1
        } else {
            0
        };
        let high: int = if bit_is_set(self.vram@[at + 1], 7 - col) {
            2
        } else {
            0
        };
        (high + low) as u8
    }

    /// The colour number that a tile map shows at a point of its 256 by 256
    /// pixel plane. The map is a grid of 32 by 32 tile numbers, at 0x9C00
    /// when `high_map` is set and at 0x9800 otherwise.
    pub open spec fn map_pixel(self, high_map: bool, y: int, x: int) -> u8
        recommends
            0 <= y < 256,
            0 <= x < 256,
    {
        let base: int = if high_map {
            0x1C00
        } else {
            0x1800
        };
        let tile = self.vram@[base + (y / 8) * 32 + x / 8];
        self.tile_pixel(tile, y % 8, x % 8, false)
    }

    /// The colour number of the background at a point of the screen: the
    /// background map, scrolled by SCX and SCY and wrapping around.
    pub open spec fn bg_index(self, y: u8, x: u8) -> u8 {
        self.map_pixel(self.bg_map_high(), (y + self.scy) % 256, (x + self.scx) % 256)
    }

    /// Whether the window covers a point of the screen: it is enabled
    /// together with the background, and the point is at or below WY and at
    /// or right of WX - 7, within the 160 columns of the window.
    pub open spec fn window_covers(self, y: u8, x: u8) -> bool {
        &&& self.window_enabled()
        &&& self.bg_enabled()
        &&& y >= self.wy
        &&& 0 <= x + 7 - self.wx < SCREEN_WIDTH
    }

    /// The colour number of the window at a point of the screen that it
    /// covers.
    pub open spec fn window_index(self, y: u8, x: u8) -> u8 {
        self.map_pixel(self.window_map_high(), y - self.wy, x + 7 - self.wx)
    }

    /// The colour number of what lies behind the objects at a point of the
    /// screen: the window where it covers the point, else the background,
    /// and 0 where neither is shown.
    pub open spec fn backdrop_index(self, y: u8, x: u8) -> u8 {
        if self.window_covers(y, x) {
            self.window_index(y, x)
        } else if self.bg_enabled() {
            self.bg_index(y, x)
        } else {
            0
        }
    }

    /// The height of an object in pixels.
    pub open spec fn object_height(self) -> int {
        if self.tall_objects() {
            16
        } else {
            8
        }
    }

    /// The row of an object that a scanline crosses. The object's Y byte is
    /// its top edge plus 16.
    pub open spec fn object_row(self, object: int, y: u8) -> int {
        y + 16 - self.voam@[4 * object]
    }

    /// Whether a scanline crosses an object.
    pub open spec fn object_on_line(self, object: int, y: u8) -> bool {
        0 <= self.object_row(object, y) < self.object_height()
    }

    /// The objects that are shown on a scanline, out of the first `upto`
    /// entries of object memory: the first ten that the line crosses, in
    /// the order of their entries.
    pub open spec fn line_objects(self, y: u8, upto: int) -> Seq<u8>
        decreases upto,
    {
        if upto <= 0 {
            Seq::empty()
        } else {
            let before = self.line_objects(y, upto - 1);
            if before.len() < 10 && self.object_on_line(upto - 1, y) {
                before.push((upto - 1) as u8)
            } else {
                before
            }
        }
    }

    /// The colour that one object shows at a point of the screen, if it
    /// shows any. The object's X byte is its left edge plus 8. Flag bit 5
    /// mirrors it left to right, bit 6 top to bottom; bit 4 selects the
    /// second object palette; with bit 7 it hides behind every backdrop
    /// colour but 0. Colour number 0 is transparent. A tall object is a pair
    /// of tiles starting at an even tile number.
    pub open spec fn object_colour(self, object: int, y: u8, x: u8) -> Option<u32> {
        let column = x + 8 - self.voam@[4 * object + 1];
        let row = self.object_row(object, y);
        let tile = self.voam@[4 * object + 2];
        let flags = self.voam@[4 * object + 3];
        let line: int = if bit_is_set(flags, 6) {
            self.object_height() - 1 - row
        } else {
            row
        };
        let col: int = if bit_is_set(flags, 5) {
            7 - column
        } else {
            column
        };
        let first_tile: u8 = if self.tall_objects() {
            (tile - tile % 2) as u8
        } else {
            tile
        };
        let index = self.tile_pixel(first_tile, line, col, true);
        let palette = if bit_is_set(flags, 4) {
            self.obj_palette_1
        } else {
            self.obj_palette_0
        };
        if !(0 <= column < 8) || !self.object_on_line(object, y) || index == 0 {
            None
        } else if bit_is_set(flags, 7) && self.backdrop_index(y, x) != 0 {
            None
        } else {
            Some(colour_of(shade_of(palette, index)))
        }
    }

    /// The colour that a list of objects shows at a point of the screen: that
    /// of the last object in the list that shows one there.
    pub open spec fn objects_colour(self, objects: Seq<u8>, y: u8, x: u8) -> Option<u32>
        decreases objects.len(),
    {
        if objects.len() == 0 {
            None
        } else {
            match self.object_colour(objects.last() as int, y, x) {
                Some(colour) => Some(colour),
                None => self.objects_colour(objects.drop_last(), y, x),
            }
        }
    }

    /// The colour that a layer paints at a point of the screen, if it paints
    /// there.
    pub open spec fn layer_colour(self, layer: Layer, y: u8, x: u8) -> Option<u32> {
        match layer {
            Layer::Background => if self.bg_enabled() {
                Some(colour_of(shade_of(self.bgp, self.bg_index(y, x))))
            } else {
                None
            },
            Layer::Window => if self.window_covers(y, x) {
                Some(colour_of(shade_of(self.bgp, self.window_index(y, x))))
            } else {
                None
            },
            Layer::Objects => if self.objects_enabled() {
                self.objects_colour(self.line_objects(y, 40), y, x)
            } else {
                None
            },
        }
    }

    /// The frame after a layer has painted the first `upto` pixels of a
    /// scanline.
    pub open spec fn painted(self, layer: Layer, y: u8, upto: int) -> [u32; 23040]
        decreases upto,
    {
        if upto <= 0 {
            self.frame_buffer
        } else {
            let before = self.painted(layer, y, upto - 1);
            match self.layer_colour(layer, y, (upto - 1) as u8) {
                Some(colour) => spec_array_update(before, y * SCREEN_WIDTH + upto - 1, colour),
                None => before,
            }
        }
    }

    /// The unit after a layer has painted a scanline.
    pub open spec fn paint_model(self, layer: Layer, y: u8) -> PPU {
        PPU { frame_buffer: self.painted(layer, y, SCREEN_WIDTH as int), ..self }
    }

    /// The unit after a scanline is painted: the background, over it the
    /// window, over both the objects.
    pub open spec fn scanline_model(self, y: u8) -> PPU {
        self.paint_model(Layer::Background, y).paint_model(Layer::Window, y).paint_model(
            Layer::Objects,
            y,
        )
    }

    /// The unit after the current scanline ends. A visible line is painted.
    /// The next line begins; after the last line of a frame, the first. On
    /// entry to line 144 the vertical blank interrupt is raised. When the
    /// new line is the one that LYC names and bit 6 of STAT is set, the
    /// status interrupt is raised. On entry to line 0 a frame is complete.
    pub open spec fn next_line(self) -> PPU {
        let drawn = if self.ly < SCREEN_HEIGHT {
            self.scanline_model(self.ly)
        } else {
            self
        };
        let ly = ((self.ly + 1) % (FRAME_LINES as int)) as u8;
        PPU {
            ly,
            vblank_irq: self.vblank_irq || ly == SCREEN_HEIGHT,
            stat_irq: self.stat_irq || (ly == self.lyc && bit_is_set(self.stat, 6)),
            frame_available: self.frame_available || ly == 0,
            frame_number: if ly == 0 {
                ((self.frame_number + 1) % 0x1_0000_0000) as u32
            } else {
                self.frame_number
            },
            ..drawn
        }
    }

    /// The unit after `lines` scanlines have ended.
    pub open spec fn after_lines(self, lines: nat) -> PPU
        decreases lines,
    {
        if lines == 0 {
            self
        } else {
            self.after_lines((lines - 1) as nat).next_line()
        }
    }

    /// The unit after `ticks` clock ticks: the ticks are added to the clock,
    /// and for every 456 on the clock a scanline ends.
    pub open spec fn advance_model(self, ticks: u32) -> PPU {
        let total = self.modeclock + ticks;
        PPU {
            modeclock: (total % (LINE_TICKS as int)) as u32,
            ..self.after_lines((total / (LINE_TICKS as int)) as nat)
        }
    }

    /// The byte that a read returns.
    pub open spec fn read_model(self, addr: u16) -> u8 {
        if in_vram(addr) {
            self.vram@[addr - 0x8000]
        } else if in_oam(addr) {
            self.voam@[addr - 0xFE00]
        } else if addr == 0xFF40 {
            self.lcdc
        } else if addr == 0xFF41 {
            self.stat_byte()
        } else if addr == 0xFF42 {
            self.scy
        } else if addr == 0xFF43 {
            self.scx
        } else if addr == 0xFF44 {
            if self.fixed_ly {
                0x90
            } else {
                self.ly
            }
        } else if addr == 0xFF45 {
            self.lyc
        } else if addr == 0xFF46 {
            self.dma
        } else if addr == 0xFF47 {
            self.bgp
        } else if addr == 0xFF48 {
            self.obj_palette_0
        } else if addr == 0xFF49 {
            self.obj_palette_1
        } else if addr == 0xFF4A {
            self.wy
        } else {
            self.wx
        }
    }

    /// The status register as it reads: the upper five bits as written, bit
    /// 2 set while LY equals LYC, and the mode in the lower two bits.
    pub open spec fn stat_byte(self) -> u8 {
        ((self.stat as int / 8) * 8 + (if self.ly == self.lyc {
            4int
        } else {
            0
        }) + self.mode()) as u8
    }

    /// The unit after a write. LY cannot be written. A write to the DMA
    /// register is only recorded here: the transfer needs the whole bus.
    pub open spec fn write_model(self, addr: u16, value: u8) -> PPU {
        if in_vram(addr) {
            PPU { vram: spec_array_update(self.vram, addr - 0x8000, value), ..self }
        } else if in_oam(addr) {
            PPU { voam: spec_array_update(self.voam, addr - 0xFE00, value), ..self }
        } else if addr == 0xFF40 {
            PPU { lcdc: value, ..self }
        } else if addr == 0xFF41 {
            PPU { stat: value, ..self }
        } else if addr == 0xFF42 {
            PPU { scy: value, ..self }
        } else if addr == 0xFF43 {
            PPU { scx: value, ..self }
        } else if addr == 0xFF44 {
            self
        } else if addr == 0xFF45 {
            PPU { lyc: value, ..self }
        } else if addr == 0xFF46 {
            PPU { dma: value, ..self }
        } else if addr == 0xFF47 {
            PPU { bgp: value, ..self }
        } else if addr == 0xFF48 {
            PPU { obj_palette_0: value, ..self }
        } else if addr == 0xFF49 {
            PPU { obj_palette_1: value, ..self }
        } else if addr == 0xFF4A {
            PPU { wy: value, ..self }
        } else {
            PPU { wx: value, ..self }
        }
    }

    /// Whether the unit is as it is at power-on. Memory, the frame and the
    /// registers are cleared, but that the window's origin is at (1, 1); no
    /// interrupt is raised; the clock is 32 ticks into line 0 of frame 1.
    pub open spec fn at_power_on(self) -> bool {
        &&& self.ly == 0
        &&& self.modeclock == 32
        &&& !self.frame_available && !self.vblank_irq && !self.stat_irq && !self.fixed_ly
        &&& self.frame_number == 1
        &&& self.scy == 0 && self.scx == 0 && self.lyc == 0 && self.lcdc == 0 && self.bgp == 0
            && self.stat == 0 && self.dma == 0
        &&& self.wy == 1 && self.wx == 1
        &&& self.obj_palette_0 == 0 && self.obj_palette_1 == 0
        &&& forall|i: int| 0 <= i < 0x2000 ==> self.vram@[i] == 0
        &&& forall|i: int| 0 <= i < 0xA0 ==> self.voam@[i] == 0
        &&& forall|i: int| 0 <= i < 23040 ==> self.frame_buffer@[i] == 0
    }

    /// The unit at power-on.
    pub fn new() -> (ppu: PPU)
        ensures
            ppu.at_power_on(),
            ppu.wf(),
    {
        PPU {
            frame_buffer: [0u32;23040],
            frame_available: false,
            frame_number: 1,
            vblank_irq: false,
            stat_irq: false,
            vram: [0u8;0x2000],
            voam: [0u8;0xA0],
            scy: 0,
            scx: 0,
            ly: 0,
            lyc: 0,
            lcdc: 0,
            bgp: 0,
            modeclock: 32,
            wy: 1,
            wx: 1,
            obj_palette_0: 0,
            obj_palette_1: 0,
            stat: 0,
            dma: 0,
            fixed_ly: false,
        }
    }

    /// Lets `ticks` clock ticks pass.
    pub fn do_cycle(&mut self, ticks: u32)
        ensures
            *final(self) == old(self).advance_model(ticks),
    {
        let total: u64 = self.modeclock as u64 + ticks as u64;
        let mut clock: u64 = total;
        let ghost mut ended: nat = 0;
        while clock >= 456
            invariant
                clock + ended * 456 == total,
                *self == old(self).after_lines(ended),
            decreases clock,
        {
            if self.ly < 144 {
                self.render_scanline(self.ly);
            }
            self.ly = if self.ly >= 153 { ((self.ly as u16 + 1) % 154) as u8 } else { self.ly + 1 };
            if self.ly == 144 {
                self.vblank_irq = true;
            }
            if self.ly == self.lyc && test_bit(self.stat, 6) {
                self.stat_irq = true;
            }
            if self.ly == 0 {
                self.frame_number = if self.frame_number == u32::MAX {
                    0
                } else {
                    self.frame_number + 1
                };
                self.frame_available = true;
            }
            clock = clock - 456;
            proof {
                ended = ended + 1;
            }
        }
        self.modeclock = clock as u32;
    }

    pub fn get_byte(&self, addr: u16) -> (value: u8)
        requires
            is_ppu_address(addr),
        ensures
            value == self.read_model(addr),
    {
        match addr {
            0x8000..=0x9FFF => self.vram[(addr - 0x8000) as usize],
            0xFE00..=0xFE9F => self.voam[(addr - 0xFE00) as usize],
            0xFF40 => self.lcdc,
            0xFF41 => {
                let mode: u8 = if self.ly >= 144 {
                    1
                } else if self.modeclock < 80 {
                    2
                } else if self.modeclock < 252 {
                    3
                } else {
                    0
                };
                (self.stat / 8) * 8 + (if self.ly == self.lyc { 4 } else { 0 }) + mode
            },
            0xFF42 => self.scy,
            0xFF43 => self.scx,
            0xFF44 => if self.fixed_ly { 0x90 } else { self.ly },
            0xFF45 => self.lyc,
            0xFF46 => self.dma,
            0xFF47 => self.bgp,
            0xFF48 => self.obj_palette_0,
            0xFF49 => self.obj_palette_1,
            0xFF4A => self.wy,
            _ => self.wx,
        }
    }

    pub fn set_byte(&mut self, addr: u16, value: u8)
        requires
            is_ppu_address(addr),
        ensures
            *final(self) == old(self).write_model(addr, value),
    {
        match addr {
            0x8000..=0x9FFF => self.vram[(addr - 0x8000) as usize] = value,
            0xFE00..=0xFE9F => self.voam[(addr - 0xFE00) as usize] = value,
            0xFF40 => self.lcdc = value,
            0xFF41 => self.stat = value,
            0xFF42 => self.scy = value,
            0xFF43 => self.scx = value,
            0xFF44 => {},
            0xFF45 => self.lyc = value,
            0xFF46 => self.dma = value,
            0xFF47 => self.bgp = value,
            0xFF48 => self.obj_palette_0 = value,
            0xFF49 => self.obj_palette_1 = value,
            0xFF4A => self.wy = value,
            _ => self.wx = value,
        }
    }

    /// Says whether a frame is complete, and forgets it.
    pub fn get_and_reset_frame_available(&mut self) -> (available: bool)
        ensures
            available == old(self).frame_available,
            *final(self) == (PPU { frame_available: false, ..*old(self) }),
    {
        let result = self.frame_available;
        self.frame_available = false;
        result
    }

    pub fn get_tile_pixel(&self, tile_index: u8, line_index: u16, col_index: u16, use_8000: bool) -> (index: u8)
        requires
            line_index < 16,
            col_index < 8,
        ensures
            index == self.tile_pixel(tile_index, line_index as int, col_index as int, use_8000),
            index < 4,
    {
        let start: usize = if test_bit(self.lcdc, 4) || use_8000 {
            tile_index as usize * 16
        } else if tile_index < 128 {
            0x1000 + tile_index as usize * 16
        } else {
            0x1000 + tile_index as usize * 16 - 4096
        };
        let at: usize = start + 2 * line_index as usize;
        let byte_a = self.vram[at];
        let byte_b = self.vram[at + 1];
        let bit: u8 = 7 - col_index as u8;
        let low: u8 = if test_bit(byte_a, bit) { 1 } else { 0 };
        let high: u8 = if test_bit(byte_b, bit) { 2 } else { 0 };
        high + low
    }

    /// The pixels of one of the 512 sixteen-byte blocks of video memory,
    /// read as a tile: colour numbers, the column first.
    pub fn get_tile(&self, tile_index: usize) -> (tile: Tile)
        requires
            tile_index < 512,
        ensures
            forall|col: int, line: int|
                0 <= col < 8 && 0 <= line < 8 ==> (#[trigger] tile@[col]@[line])
                    == self.block_pixel(tile_index as int, line, col),
    {
        let mut tile: Tile = [[0u8;8];8];
        let mut col: u8 = 0;
        while col < 8
            invariant
                col <= 8,
                tile_index < 512,
                forall|c: int, line: int|
                    0 <= c < col && 0 <= line < 8 ==> (#[trigger] tile@[c]@[line])
                        == self.block_pixel(tile_index as int, line, c),
            decreases 8 - col,
        {
            let mut column = [0u8;8];
            let mut line: usize = 0;
            while line < 8
                invariant
                    line <= 8,
                    col < 8,
                    tile_index < 512,
                    forall|l: int|
                        0 <= l < line ==> (#[trigger] column@[l]) == self.block_pixel(
                            tile_index as int,
                            l,
                            col as int,
                        ),
                decreases 8 - line,
            {
                let at: usize = tile_index * 16 + 2 * line;
                let low: u8 = if test_bit(self.vram[at], 7 - col) { 1 } else { 0 };
                let high: u8 = if test_bit(self.vram[at + 1], 7 - col) { 2 } else { 0 };
                column[line] = high + low;
                line += 1;
            }
            tile[col as usize] = column;
            col += 1;
        }
        tile
    }

    /// The pixels of an object tile as colour numbers, the column first.
    pub fn get_object(&self, tile_index: u8) -> (tile: Tile)
        ensures
            forall|col: int, line: int|
                0 <= col < 8 && 0 <= line < 8 ==> (#[trigger] tile@[col]@[line]) == self.tile_pixel(
                    tile_index,
                    line,
                    col,
                    true,
                ),
    {
        let mut tile: Tile = [[0u8;8];8];
        let mut col: u16 = 0;
        while col < 8
            invariant
                col <= 8,
                forall|c: int, line: int|
                    0 <= c < col && 0 <= line < 8 ==> (#[trigger] tile@[c]@[line])
                        == self.tile_pixel(tile_index, line, c, true),
            decreases 8 - col,
        {
            let mut column = [0u8;8];
            let mut line: u16 = 0;
            while line < 8
                invariant
                    line <= 8,
                    col < 8,
                    forall|l: int|
                        0 <= l < line ==> (#[trigger] column@[l]) == self.tile_pixel(
                            tile_index,
                            l,
                            col as int,
                            true,
                        ),
                decreases 8 - line,
            {
                column[line as usize] = self.get_tile_pixel(tile_index, line, col, true);
                line += 1;
            }
            tile[col as usize] = column;
            col += 1;
        }
        tile
    }

    /// The colour of a shade.
    pub fn palette(&self, id: u8) -> (colour: u32)
        requires
            id < 4,
        ensures
            colour == colour_of(id as int),
    {
        match id {
            0x0 => WHITE,
            0x1 => LIGHT_GREY,
            0x2 => DARK_GREY,
            _ => BLACK,
        }
    }

    /// The colour that a palette register gives a colour number.
    pub fn shade_colour(&self, palette: u8, index: u8) -> (colour: u32)
        requires
            index < 4,
        ensures
            colour == colour_of(shade_of(palette, index)),
    {
        let weight: u8 = match index {
            0 => 1,
            1 => 4,
            2 => 16,
            _ => 64,
        };
        self.palette((palette / weight) % 4)
    }

    /// The colour number that a tile map shows at a point of its plane.
    pub fn get_map_pixel(&self, high_map: bool, y: u8, x: u8) -> (index: u8)
        ensures
            index == self.map_pixel(high_map, y as int, x as int),
            index < 4,
    {
        let base: usize = if high_map { 0x1C00 } else { 0x1800 };
        let tile = self.vram[base + (y as usize / 8) * 32 + x as usize / 8];
        self.get_tile_pixel(tile, (y % 8) as u16, (x % 8) as u16, false)
    }

    /// The colour number of the background at a point of the screen.
    pub fn get_bg_index(&self, y: u8, x: u8) -> (index: u8)
        ensures
            index == self.bg_index(y, x),
            index < 4,
    {
        let map_y: u8 = ((y as u16 + self.scy as u16) % 256) as u8;
        let map_x: u8 = ((x as u16 + self.scx as u16) % 256) as u8;
        self.get_map_pixel(test_bit(self.lcdc, 3), map_y, map_x)
    }

    /// Whether the window covers a point of the screen.
    pub fn is_window_at(&self, y: u8, x: u8) -> (covered: bool)
        ensures
            covered == self.window_covers(y, x),
    {
        test_bit(self.lcdc, 5) && test_bit(self.lcdc, 0) && y >= self.wy && x as u16 + 7
            >= self.wx as u16 && x as u16 + 7 - (self.wx as u16) < 160
    }

    /// The colour number of the window at a point of the screen that it
    /// covers.
    pub fn get_window_index(&self, y: u8, x: u8) -> (index: u8)
        requires
            self.window_covers(y, x),
        ensures
            index == self.window_index(y, x),
            index < 4,
    {
        let map_x: u8 = (x as u16 + 7 - self.wx as u16) as u8;
        self.get_map_pixel(test_bit(self.lcdc, 6), y - self.wy, map_x)
    }

    /// The colour number of what lies behind the objects at a point of the
    /// screen.
    pub fn get_backdrop_index(&self, y: u8, x: u8) -> (index: u8)
        ensures
            index == self.backdrop_index(y, x),
    {
        if self.is_window_at(y, x) {
            self.get_window_index(y, x)
        } else if test_bit(self.lcdc, 0) {
            self.get_bg_index(y, x)
        } else {
            0
        }
    }

    /// Whether a scanline crosses an object.
    pub fn is_object_on_line(&self, object: u8, y: u8) -> (crossed: bool)
        requires
            object < 40,
        ensures
            crossed == self.object_on_line(object as int, y),
    {
        let height: u16 = if test_bit(self.lcdc, 2) { 16 } else { 8 };
        let top: u16 = self.voam[4 * object as usize] as u16;
        let line: u16 = y as u16 + 16;
        line >= top && line - top < height
    }

    /// The objects that are shown on a scanline.
    pub fn get_line_objects(&self, y: u8) -> (objects: Vec<u8>)
        ensures
            objects@ == self.line_objects(y, 40),
            objects@.len() <= 10,
            forall|i: int| 0 <= i < objects@.len() ==> objects@[i] < 40,
    {
        let mut objects: Vec<u8> = Vec::new();
        let mut object: u8 = 0;
        while object < 40
            invariant
                object <= 40,
                objects@ == self.line_objects(y, object as int),
                objects@.len() <= 10,
                forall|i: int| 0 <= i < objects@.len() ==> objects@[i] < 40,
            decreases 40 - object,
        {
            if objects.len() < 10 && self.is_object_on_line(object, y) {
                objects.push(object);
            }
            object += 1;
        }
        objects
    }

    /// The colour that one object shows at a point of the screen, if it
    /// shows any.
    pub fn get_object_colour(&self, object: u8, y: u8, x: u8) -> (colour: Option<u32>)
        requires
            object < 40,
        ensures
            colour == self.object_colour(object as int, y, x),
    {
        let entry: usize = 4 * object as usize;
        let left: u16 = self.voam[entry + 1] as u16;
        let tile = self.voam[entry + 2];
        let flags = self.voam[entry + 3];
        let place: u16 = x as u16 + 8;
        if place < left || place - left >= 8 || !self.is_object_on_line(object, y) {
            return None;
        }
        let column: u16 = place - left;
        let tall = test_bit(self.lcdc, 2);
        let height: u16 = if tall { 16 } else { 8 };
        let row: u16 = y as u16 + 16 - self.voam[entry] as u16;
        let line: u16 = if test_bit(flags, 6) { height - 1 - row } else { row };
        let col: u16 = if test_bit(flags, 5) { 7 - column } else { column };
        let first_tile: u8 = if tall { tile - tile % 2 } else { tile };
        let index = self.get_tile_pixel(first_tile, line, col, true);
        if index == 0 {
            return None;
        }
        if test_bit(flags, 7) && self.get_backdrop_index(y, x) != 0 {
            return None;
        }
        let palette = if test_bit(flags, 4) { self.obj_palette_1 } else { self.obj_palette_0 };
        Some(self.shade_colour(palette, index))
    }

    /// The colour that a list of objects shows at a point of the screen.
    pub fn get_objects_colour(&self, objects: &Vec<u8>, y: u8, x: u8) -> (colour: Option<u32>)
        requires
            forall|i: int| 0 <= i < objects@.len() ==> objects@[i] < 40,
        ensures
            colour == self.objects_colour(objects@, y, x),
    {
        let mut i: usize = objects.len();
        assert(objects@.take(i as int) =~= objects@);
        while i > 0
            invariant
                i <= objects@.len(),
                forall|k: int| 0 <= k < objects@.len() ==> objects@[k] < 40,
                self.objects_colour(objects@, y, x) == self.objects_colour(
                    objects@.take(i as int),
                    y,
                    x,
                ),
            decreases i,
        {
            proof {
                let shown = objects@.take(i as int);
                assert(shown.last() == objects@[i - 1]);
                assert(shown.drop_last() =~= objects@.take(i - 1));
            }
            match self.get_object_colour(objects[i - 1], y, x) {
                Some(colour) => {
                    return Some(colour);
                },
                None => {},
            }
            i -= 1;
        }
        assert(objects@.take(0).len() == 0);
        None
    }

    /// Paints one layer of a scanline into the frame.
    pub fn paint(&mut self, layer: Layer, line: u8)
        requires
            line < SCREEN_HEIGHT,
        ensures
            *final(self) == old(self).paint_model(layer, line),
    {
        let objects = match layer {
            Layer::Objects => self.get_line_objects(line),
            _ => Vec::new(),
        };
        let row: usize = line as usize * SCREEN_WIDTH;
        let mut x: u8 = 0;
        while x < 160
            invariant
                x <= 160,
                line < SCREEN_HEIGHT,
                row == line * SCREEN_WIDTH,
                layer == Layer::Objects ==> objects@ == old(self).line_objects(line, 40),
                forall|i: int| 0 <= i < objects@.len() ==> objects@[i] < 40,
                *self == (PPU { frame_buffer: self.frame_buffer, ..*old(self) }),
                self.frame_buffer == old(self).painted(layer, line, x as int),
            decreases 160 - x,
        {
            let ghost before = *self;
            let colour: Option<u32> = match layer {
                Layer::Background => if test_bit(self.lcdc, 0) {
                    Some(self.shade_colour(self.bgp, self.get_bg_index(line, x)))
                } else {
                    None
                },
                Layer::Window => if self.is_window_at(line, x) {
                    Some(self.shade_colour(self.bgp, self.get_window_index(line, x)))
                } else {
                    None
                },
                Layer::Objects => if test_bit(self.lcdc, 1) {
                    self.get_objects_colour(&objects, line, x)
                } else {
                    None
                },
            };
            proof {
                lemma_same_colour(before, *old(self), layer, line, x);
            }
            match colour {
                Some(colour) => {
                    self.frame_buffer[row + x as usize] = colour;
                },
                None => {},
            }
            x += 1;
        }
    }

    pub fn render_background(&mut self, line: u8)
        requires
            line < SCREEN_HEIGHT,
        ensures
            *final(self) == old(self).paint_model(Layer::Background, line),
    {
        self.paint(Layer::Background, line)
    }

    pub fn render_window(&mut self, line: u8)
        requires
            line < SCREEN_HEIGHT,
        ensures
            *final(self) == old(self).paint_model(Layer::Window, line),
    {
        self.paint(Layer::Window, line)
    }

    pub fn render_objects(&mut self, line: u8)
        requires
            line < SCREEN_HEIGHT,
        ensures
            *final(self) == old(self).paint_model(Layer::Objects, line),
    {
        self.paint(Layer::Objects, line)
    }

    /// Paints a scanline into the frame.
    pub fn render_scanline(&mut self, line: u8)
        requires
            line < SCREEN_HEIGHT,
        ensures
            *final(self) == old(self).scanline_model(line),
    {
        self.render_background(line);
        self.render_window(line);
        self.render_objects(line);
    }
}

/// Whether two units show the same picture: they agree on video memory,
/// object memory and every register that painting reads.
pub open spec fn same_picture(a: PPU, b: PPU) -> bool {
    &&& a.vram == b.vram
    &&& a.voam == b.voam
    &&& a.lcdc == b.lcdc
    &&& a.scy == b.scy
    &&& a.scx == b.scx
    &&& a.wy == b.wy
    &&& a.wx == b.wx
    &&& a.bgp == b.bgp
    &&& a.obj_palette_0 == b.obj_palette_0
    &&& a.obj_palette_1 == b.obj_palette_1
}

/// Units that show the same picture paint the same colours and show the
/// same objects on a scanline: what the frame holds, and where the unit is
/// in the frame, does not count.
pub proof fn lemma_same_colour(a: PPU, b: PPU, layer: Layer, y: u8, x: u8)
    requires
        same_picture(a, b),
    ensures
        a.layer_colour(layer, y, x) == b.layer_colour(layer, y, x),
        a.line_objects(y, 40) == b.line_objects(y, 40),
{
    lemma_same_line_objects(a, b, y, 40);
    lemma_same_objects_colour(a, b, a.line_objects(y, 40), y, x);
}

proof fn lemma_same_line_objects(a: PPU, b: PPU, y: u8, upto: int)
    requires
        same_picture(a, b),
    ensures
        a.line_objects(y, upto) == b.line_objects(y, upto),
    decreases upto,
{
    if upto > 0 {
        lemma_same_line_objects(a, b, y, upto - 1);
    }
}

proof fn lemma_same_objects_colour(a: PPU, b: PPU, objects: Seq<u8>, y: u8, x: u8)
    requires
        same_picture(a, b),
    ensures
        a.objects_colour(objects, y, x) == b.objects_colour(objects, y, x),
    decreases objects.len(),
{
    if objects.len() > 0 {
        lemma_same_objects_colour(a, b, objects.drop_last(), y, x);
    }
}

} // verus!
