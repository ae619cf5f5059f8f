use vstd::prelude::*;

use crate::lcdc::Lcdc;
use crate::stat::{Mode, Stat};

verus! {

pub const SCREEN_WIDTH: usize = 160;
pub const SCREEN_HEIGHT: usize = 144;
pub const CANVAS_SIZE: usize = 92160;
pub const PRIORITY_SIZE: usize = 23040;
pub const VRAM_SIZE: usize = 0x2000;
pub const OAM_SIZE: usize = 160;
pub const PALETTE_RAM_SIZE: usize = 64;
pub const NUMBER_OF_OBJECTS: usize = 40;
pub const MAX_OBJECTS_PER_LINE: usize = 10;

/// Interrupt bits that the PPU raises, as in IF.
pub const VBLANK_BIT: u8 = 0x01;
pub const LCD_STAT_BIT: u8 = 0x02;

/// The four DMG shades.
#[derive(Copy, Clone, Debug, PartialEq, Eq, Structural)]
pub enum Color {
    White,
    LightGray,
    DarkGray,
    Black,
}

pub open spec fn spec_shade(index: u8) -> u8 {
    if index == 0 {
        255
    } else if index == 1 {
        170
    } else if index == 2 {
        85
    } else {
        0
    }
}

impl Color {
    pub fn from_index(n: u8) -> (r: Color)
        requires
            n <= 3,
        ensures
            r.spec_level() == spec_shade(n),
    {
        if n == 0 {
            Color::White
        } else if n == 1 {
            Color::LightGray
        } else if n == 2 {
            Color::DarkGray
        } else {
            Color::Black
        }
    }

    pub open spec fn spec_level(self) -> u8 {
        match self {
            Color::White => 255,
            Color::LightGray => 170,
            Color::DarkGray => 85,
            Color::Black => 0,
        }
    }

    /// The grey level of the shade.
    pub fn level(&self) -> (r: u8)
        ensures
            r == self.spec_level(),
    {
        match self {
            Color::White => 255,
            Color::LightGray => 170,
            Color::DarkGray => 85,
            Color::Black => 0,
        }
    }
}

#[derive(Copy, Clone, Debug, PartialEq, Eq, Structural)]
pub struct Pixel {
    pub r: u8,
    pub g: u8,
    pub b: u8,
}

impl Pixel {
    pub fn white() -> (r: Pixel)
        ensures
            r == (Pixel { r: 255, g: 255, b: 255 }),
    {
        Pixel { r: 255, g: 255, b: 255 }
    }

    pub fn from_color(color: Color) -> (r: Pixel)
        ensures
            r == (Pixel { r: color.spec_level(), g: color.spec_level(), b: color.spec_level() }),
    {
        let v = color.level();
        Pixel { r: v, g: v, b: v }
    }
}

pub open spec fn expand5(c: u8) -> u8 {
    ((c << 3u8) | (c >> 2u8)) as u8
}

pub open spec fn spec_rgb555(first: u8, second: u8) -> Pixel {
    let r5 = first & 0x1F;
    let g5 = ((first >> 5u8) | ((second & 0x03) << 3u8)) as u8;
    let b5 = (second >> 2u8) & 0x1F;
    Pixel { r: expand5(r5), g: expand5(g5), b: expand5(b5) }
}

/// Expands a little-endian RGB555 colour (R in bits 0–4, G in 5–9, B in 10–14) to 8 bits a channel.
pub fn rgb555_to_rgb888(first: u8, second: u8) -> (r: Pixel)
    ensures
        r == spec_rgb555(first, second),
{
    let r_5 = first & 0x1F;
    let g_5 = (first >> 5) | ((second & 0x03) << 3);
    let b_5 = (second >> 2) & 0x1F;
    let r = (r_5 << 3) | (r_5 >> 2);
    let g = (g_5 << 3) | (g_5 >> 2);
    let b = (b_5 << 3) | (b_5 >> 2);
    Pixel { r, g, b }
}

pub open spec fn spec_color_index(data: u8, color_data: u8, bit: u8) -> u8 {
    (((data >> bit) & 1) | (((color_data >> bit) & 1) << 1u8)) as u8
}

/// The 2-bit colour index of pixel bit `bit` of a tile row given by its two bytes.
pub fn get_color_index(tile_data: u8, tile_color_data: u8, pixel_index: u8) -> (r: u8)
    requires
        pixel_index < 8,
    ensures
        r == spec_color_index(tile_data, tile_color_data, pixel_index),
        r <= 3,
{
    let r = ((tile_data >> pixel_index) & 1) | (((tile_color_data >> pixel_index) & 1) << 1);
    assert(((((tile_data >> pixel_index) & 1) | (((tile_color_data >> pixel_index) & 1) << 1u8)) as u8)
        <= 3) by (bit_vector);
    r
}

pub open spec fn spec_map_address(base: u16, y: u8, x: u8) -> u16 {
    (base + (y / 8) * 32 + x / 8) as u16
}

/// Address of the tile-map entry for the pixel at (`x`, `y`) of the 256×256 map at `base`.
pub fn calculate_address(address: u16, y: u8, x: u8) -> (r: u16)
    requires
        address == 0x9800 || address == 0x9C00,
    ensures
        r == spec_map_address(address, y, x),
        address <= r < address + 0x400,
{
    address + (y as u16 / 8 * 32) + (x as u16 / 8)
}

/// The DMG shade that palette byte `palette` gives colour index `index`.
pub open spec fn spec_dmg_pixel(palette: u8, index: u8) -> Pixel {
    let level = spec_shade(((palette >> (2 * index) as u8) & 3) as u8);
    Pixel { r: level, g: level, b: level }
}

fn dmg_pixel(palette: u8, index: u8) -> (r: Pixel)
    requires
        index <= 3,
    ensures
        r == spec_dmg_pixel(palette, index),
{
    let shade = (palette >> (2 * index)) & 3;
    assert(((palette >> (2 * index) as u8) & 3) <= 3) by (bit_vector);
    Pixel::from_color(Color::from_index(shade))
}

/// The colour of entry `index` of CGB palette `number` held in the 64 bytes `ram`.
pub open spec fn spec_cgb_pixel(ram: Seq<u8>, number: u8, index: u8) -> Pixel {
    spec_rgb555(ram[number * 8 + index * 2], ram[number * 8 + index * 2 + 1])
}

fn cgb_pixel(ram: &Vec<u8>, number: u8, index: u8) -> (r: Pixel)
    requires
        ram@.len() == PALETTE_RAM_SIZE,
        number <= 7,
        index <= 3,
    ensures
        r == spec_cgb_pixel(ram@, number, index),
{
    let i = number as usize * 8 + index as usize * 2;
    rgb555_to_rgb888(ram[i], ram[i + 1])
}

#[derive(Copy, Clone, Debug, PartialEq, Eq, Structural)]
pub enum GameBoyMode {
    Dmg,
    Cgb,
}

#[derive(Copy, Clone, Debug, PartialEq, Eq, Structural)]
pub enum Interrupt {
    VBlank,
    LCDStat,
}

impl Interrupt {
    pub open spec fn spec_bit(self) -> u8 {
        match self {
            Interrupt::VBlank => VBLANK_BIT,
            Interrupt::LCDStat => LCD_STAT_BIT,
        }
    }
}

/// One OAM entry, decoded for the scan line it is drawn on.
#[derive(Copy, Clone, Debug, PartialEq, Eq, Structural)]
pub struct ObjectData {
    pub x: i16,
    pub y: i16,
    pub tile: u8,
    pub palette_one: bool,
    pub xflip: bool,
    pub yflip: bool,
    pub priority: bool,
    pub cgb_palette: u8,
    pub bank: bool,
}

/// `s` with `o` inserted after its last entry whose X is not above `o`'s (scanning from the end).
pub open spec fn insert_by_x(s: Seq<ObjectData>, o: ObjectData) -> Seq<ObjectData>
    decreases s.len(),
{
    if s.len() == 0 {
        seq![o]
    } else if s.last().x > o.x {
        insert_by_x(s.drop_last(), o).push(s.last())
    } else {
        s.push(o)
    }
}

/// Priority side-buffer bits: the background pixel had colour 0; its attribute had bit 7 set.
pub const PRIORITY_COLOR0: u8 = 0x01;
pub const PRIORITY_ATTRIBUTE: u8 = 0x02;

pub struct Gpu {
    pub canvas_buffer: Vec<u8>,
    pub vram: Vec<u8>,
    pub vram1: Vec<u8>,
    pub oam: Vec<u8>,
    pub line_check: u8,
    pub line: u8,
    pub cycles: u16,
    pub window_x: u8,
    pub window_y: u8,
    pub scroll_x: u8,
    pub scroll_y: u8,
    pub lcdc: Lcdc,
    pub stat: Stat,
    pub wly: u8,
    pub bg_priority_map: Vec<u8>,
    pub palettes: [u8; 3],
    pub bgpi: u8,
    pub obpi: u8,
    pub bg_palette: Vec<u8>,
    pub object_palette: Vec<u8>,
    pub auto_increment_bg: bool,
    pub auto_increment_object: bool,
    pub vram_bank: u8,
    pub speed: u8,
    pub gb_mode: GameBoyMode,
    pub boot_rom: bool,
    pub interrupts_fired: u8,
}

pub open spec fn threshold(mode: Mode) -> int {
    match mode {
        Mode::HorizontalBlank => 204,
        Mode::VerticalBlank => 456,
        Mode::OAMAccess => 80,
        Mode::VRAMAccess => 172,
    }
}

/// The mode that follows `mode` when its time is up on line `line`.
pub open spec fn next_mode(mode: Mode, line: u8) -> Mode {
    match mode {
        Mode::OAMAccess => Mode::VRAMAccess,
        Mode::VRAMAccess => Mode::HorizontalBlank,
        Mode::HorizontalBlank => if line + 1 == 144 {
            Mode::VerticalBlank
        } else {
            Mode::OAMAccess
        },
        Mode::VerticalBlank => if line == 153 {
            Mode::OAMAccess
        } else {
            Mode::VerticalBlank
        },
    }
}

/// LY after leaving `mode` on line `line`.
pub open spec fn next_line(mode: Mode, line: u8) -> u8 {
    match mode {
        Mode::HorizontalBlank => (line + 1) as u8,
        Mode::VerticalBlank => if line == 153 {
            0
        } else {
            (line + 1) as u8
        },
        _ => line,
    }
}

impl Gpu {
    pub open spec fn wf(&self) -> bool {
        &&& self.canvas_buffer@.len() == CANVAS_SIZE
        &&& self.vram@.len() == VRAM_SIZE
        &&& self.vram1@.len() == VRAM_SIZE
        &&& self.oam@.len() == OAM_SIZE
        &&& self.bg_priority_map@.len() == PRIORITY_SIZE
        &&& self.bg_palette@.len() == PALETTE_RAM_SIZE
        &&& self.object_palette@.len() == PALETTE_RAM_SIZE
        &&& self.bgpi < 64
        &&& self.obpi < 64
        &&& self.vram_bank <= 1
        &&& self.cycles < 456
        &&& self.line <= 153
        &&& self.lcdc.display_enabled && (self.stat.mode == Mode::HorizontalBlank || self.stat.mode
            == Mode::OAMAccess || self.stat.mode == Mode::VRAMAccess) ==> self.line < 144
        &&& self.lcdc.display_enabled && self.stat.mode == Mode::VerticalBlank ==> self.line >= 144
    }

    /// The bits of the STAT interrupt raised on entering `mode`.
    pub open spec fn mode_stat_bit(&self, mode: Mode) -> u8 {
        if (mode == Mode::OAMAccess && self.stat.oam_interrupt) || (mode == Mode::VerticalBlank
            && self.stat.v_blank_interrupt) || (mode == Mode::HorizontalBlank
            && self.stat.h_blank_interrupt) {
            LCD_STAT_BIT
        } else {
            0
        }
    }

    /// The bits raised when LY becomes `line`.
    pub open spec fn line_stat_bit(&self, line: u8) -> u8 {
        if line == self.line_check && self.stat.coincidence_interrupt {
            LCD_STAT_BIT
        } else {
            0
        }
    }

    /// Whether `cycles` more T-cycles end the current mode.
    pub open spec fn transition_due(&self, cycles: u8) -> bool {
        self.lcdc.display_enabled && self.cycles + cycles >= threshold(self.stat.mode)
    }

    /// The interrupt bits that a step of `cycles` raises.
    #[verifier::opaque]
    pub open spec fn raised(&self, cycles: u8) -> u8 {
        if !self.transition_due(cycles) {
            0
        } else {
            let mode = self.stat.mode;
            let m2 = next_mode(mode, self.line);
            let l2 = next_line(mode, self.line);
            let vb: u8 = if mode == Mode::HorizontalBlank && m2 == Mode::VerticalBlank {
                VBLANK_BIT
            } else {
                0
            };
            let ms: u8 = if m2 != mode { self.mode_stat_bit(m2) } else { 0 };
            let ls: u8 = if l2 != self.line || mode == Mode::VerticalBlank {
                self.line_stat_bit(l2)
            } else {
                0
            };
            (vb | ms | ls) as u8
        }
    }

    /// Everything but the picture and the window line counter, after a step of `cycles`.
    #[verifier::opaque]
    pub open spec fn timing_post(&self, new: &Gpu, cycles: u8) -> bool {
        if !self.lcdc.display_enabled {
            new.line == self.line && new.cycles == self.cycles && new.stat == self.stat
        } else if !self.transition_due(cycles) {
            new.line == self.line && new.cycles == self.cycles + cycles && new.stat == self.stat
        } else {
            let mode = self.stat.mode;
            let l2 = next_line(mode, self.line);
            &&& new.cycles == (self.cycles + cycles) % threshold(mode)
            &&& new.stat.mode == next_mode(mode, self.line)
            &&& new.line == l2
            &&& new.stat.coincidence_flag == if mode == Mode::HorizontalBlank || mode
                == Mode::VerticalBlank {
                l2 == self.line_check
            } else {
                self.stat.coincidence_flag
            }
            &&& new.stat.coincidence_interrupt == self.stat.coincidence_interrupt
            &&& new.stat.oam_interrupt == self.stat.oam_interrupt
            &&& new.stat.v_blank_interrupt == self.stat.v_blank_interrupt
            &&& new.stat.h_blank_interrupt == self.stat.h_blank_interrupt
        }
    }

    /// Every register that neither timing nor drawing changes (VRAM aside).
    pub open spec fn same_registers(&self, new: &Gpu) -> bool {
        &&& new.oam@ == self.oam@
        &&& new.line_check == self.line_check
        &&& new.window_x == self.window_x
        &&& new.window_y == self.window_y
        &&& new.scroll_x == self.scroll_x
        &&& new.scroll_y == self.scroll_y
        &&& new.lcdc == self.lcdc
        &&& new.palettes == self.palettes
        &&& new.bgpi == self.bgpi
        &&& new.obpi == self.obpi
        &&& new.bg_palette@ == self.bg_palette@
        &&& new.object_palette@ == self.object_palette@
        &&& new.auto_increment_bg == self.auto_increment_bg
        &&& new.auto_increment_object == self.auto_increment_object
        &&& new.vram_bank == self.vram_bank
        &&& new.speed == self.speed
        &&& new.gb_mode == self.gb_mode
        &&& new.boot_rom == self.boot_rom
    }

    /// The registers and memories that neither timing nor drawing change.
    pub open spec fn same_setup(&self, new: &Gpu) -> bool {
        &&& new.vram@ == self.vram@
        &&& new.vram1@ == self.vram1@
        &&& new.oam@ == self.oam@
        &&& new.line_check == self.line_check
        &&& new.window_x == self.window_x
        &&& new.window_y == self.window_y
        &&& new.scroll_x == self.scroll_x
        &&& new.scroll_y == self.scroll_y
        &&& new.lcdc == self.lcdc
        &&& new.palettes == self.palettes
        &&& new.bgpi == self.bgpi
        &&& new.obpi == self.obpi
        &&& new.bg_palette@ == self.bg_palette@
        &&& new.object_palette@ == self.object_palette@
        &&& new.auto_increment_bg == self.auto_increment_bg
        &&& new.auto_increment_object == self.auto_increment_object
        &&& new.vram_bank == self.vram_bank
        &&& new.speed == self.speed
        &&& new.gb_mode == self.gb_mode
        &&& new.boot_rom == self.boot_rom
    }

    /// What a CPU read of VRAM offset `index` returns in the selected bank.
    pub open spec fn spec_read_vram(&self, index: int) -> u8 {
        if self.vram_bank == 1 {
            self.vram1@[index]
        } else {
            self.vram@[index]
        }
    }

    pub fn new(gb_mode: GameBoyMode, boot_rom: bool) -> (r: Gpu)
        ensures
            r.wf(),
            r.gb_mode == gb_mode,
            r.boot_rom == boot_rom,
            r.line == 0 && r.cycles == 0 && r.wly == 0 && r.interrupts_fired == 0,
            r.stat.mode == Mode::HorizontalBlank,
            !r.lcdc.display_enabled,
            r.vram_bank == 0 && r.bgpi == 0 && r.obpi == 0,
            !r.auto_increment_bg && !r.auto_increment_object,
            r.palettes == [0u8, 0u8, 0u8],
            forall|i: int| 0 <= i < VRAM_SIZE ==> r.vram@[i] == 0 && r.vram1@[i] == 0,
            forall|i: int| 0 <= i < OAM_SIZE ==> r.oam@[i] == 0,
            forall|i: int| 0 <= i < PALETTE_RAM_SIZE ==> r.bg_palette@[i] == 0 && r.object_palette@[i] == 0,
    {
        let r = Gpu {
            canvas_buffer: vec![0u8; CANVAS_SIZE],
            vram: vec![0u8; VRAM_SIZE],
            vram1: vec![0u8; VRAM_SIZE],
            oam: vec![0u8; OAM_SIZE],
            line_check: 0,
            line: 0,
            cycles: 0,
            window_x: 0,
            window_y: 0,
            scroll_x: 0,
            scroll_y: 0,
            lcdc: Lcdc::new(),
            stat: Stat::new(),
            wly: 0,
            bg_priority_map: vec![0u8; PRIORITY_SIZE],
            palettes: [0u8, 0u8, 0u8],
            bgpi: 0,
            obpi: 0,
            bg_palette: vec![0u8; PALETTE_RAM_SIZE],
            object_palette: vec![0u8; PALETTE_RAM_SIZE],
            auto_increment_bg: false,
            auto_increment_object: false,
            vram_bank: 0,
            speed: 0,
            gb_mode,
            boot_rom,
            interrupts_fired: 0,
        };
        assert(0u8 & 0x80 == 0) by (bit_vector);
        r
    }
    /// The PPU after an LCDC write of `value`.
    pub open spec fn spec_write_lcdc(self, value: u8) -> Gpu {
        if value & 0x80 == 0 {
            Gpu {
                lcdc: Lcdc::spec_from_byte(value),
                stat: Stat { mode: Mode::HorizontalBlank, ..self.stat },
                ..self
            }
        } else if self.lcdc.display_enabled {
            Gpu { lcdc: Lcdc::spec_from_byte(value), ..self }
        } else {
            Gpu {
                lcdc: Lcdc::spec_from_byte(value),
                line: 0,
                cycles: 0,
                wly: 0,
                stat: Stat { mode: Mode::OAMAccess, coincidence_flag: self.line_check == 0, ..self.stat },
                ..self
            }
        }
    }

    /// LCDC write. Clearing bit 7 puts the PPU in H-blank with LY frozen; setting it while
    /// the display is off restarts the scan-line machine at line 0 in OAM scan.
    pub fn write_lcdc(&mut self, value: u8)
        requires
            old(self).wf(),
        ensures
            final(self).wf(),
            *final(self) == old(self).spec_write_lcdc(value),
    {
        let was_enabled = self.lcdc.display_enabled;
        self.lcdc.from_byte(value);
        if value & 0x80 == 0 {
            self.stat.mode = Mode::HorizontalBlank;
        } else if !was_enabled {
            self.line = 0;
            self.cycles = 0;
            self.wly = 0;
            self.stat.mode = Mode::OAMAccess;
            self.stat.coincidence_flag = self.line_check == 0;
        }
    }

    /// Only LY, the cycle counter, STAT and the raised bits may differ.
    pub open spec fn same_picture(&self, new: &Gpu) -> bool {
        &&& new.canvas_buffer@ == self.canvas_buffer@
        &&& new.bg_priority_map@ == self.bg_priority_map@
        &&& new.wly == self.wly
    }

    /// Drawing changed nothing but row `line` of the picture and of the priority buffer.
    pub open spec fn row_drawn(&self, new: &Gpu, line: int) -> bool {
        &&& self.same_setup(new)
        &&& new.line == self.line && new.cycles == self.cycles && new.stat == self.stat
        &&& new.interrupts_fired == self.interrupts_fired
        &&& row_frame(self.canvas_buffer@, new.canvas_buffer@, line * 640, 640)
        &&& row_frame(self.bg_priority_map@, new.bg_priority_map@, line * 160, 160)
    }

    pub fn write_vram(&mut self, index: usize, value: u8)
        requires
            old(self).wf(),
            index < VRAM_SIZE,
        ensures
            final(self).wf(),
            old(self).vram_bank == 1 ==> *final(self) == (Gpu { vram1: final(self).vram1, ..*old(self) })
                && final(self).vram1@ == old(self).vram1@.update(index as int, value),
            old(self).vram_bank != 1 ==> *final(self) == (Gpu { vram: final(self).vram, ..*old(self) })
                && final(self).vram@ == old(self).vram@.update(index as int, value),
    {
        if self.vram_bank == 1 {
            self.vram1.set(index, value);
        } else {
            self.vram.set(index, value);
        }
    }

    pub fn read_vram(&self, index: usize) -> (r: u8)
        requires
            self.wf(),
            index < VRAM_SIZE,
        ensures
            r == self.spec_read_vram(index as int),
    {
        if self.vram_bank == 1 {
            self.vram1[index]
        } else {
            self.vram[index]
        }
    }

    pub fn write_oam(&mut self, index: usize, value: u8)
        requires
            old(self).wf(),
            index < OAM_SIZE,
        ensures
            final(self).wf(),
            *final(self) == (Gpu { oam: final(self).oam, ..*old(self) }),
            final(self).oam@ == old(self).oam@.update(index as int, value),
    {
        self.oam.set(index, value);
    }

    /// BGP write: the palette byte maps colour index i to shade bits 2i..2i+1.
    pub fn set_bg_palette(&mut self, value: u8)
        ensures
            *final(self) == (Gpu { palettes: final(self).palettes, ..*old(self) }),
            final(self).palettes@ == old(self).palettes@.update(0, value),
    {
        self.palettes[0] = value;
    }

    /// OBP0 (`index` 0) or OBP1 (`index` 1) write.
    pub fn set_dmg_object_palette(&mut self, value: u8, index: usize)
        requires
            index <= 1,
        ensures
            *final(self) == (Gpu { palettes: final(self).palettes, ..*old(self) }),
            final(self).palettes@ == old(self).palettes@.update(index as int + 1, value),
    {
        self.palettes[index + 1] = value;
    }

    /// BCPD write: stores at the BCPS index, which then advances (mod 64) when auto-increment is on.
    pub fn set_cgb_bg_palette(&mut self, value: u8)
        requires
            old(self).wf(),
        ensures
            final(self).wf(),
            *final(self) == (Gpu { bg_palette: final(self).bg_palette, bgpi: final(self).bgpi, ..*old(self) }),
            final(self).bg_palette@ == old(self).bg_palette@.update(old(self).bgpi as int, value),
            final(self).bgpi == if old(self).auto_increment_bg {
                ((old(self).bgpi + 1) % 64) as u8
            } else {
                old(self).bgpi
            },
    {
        self.bg_palette.set(self.bgpi as usize, value);
        if self.auto_increment_bg {
            self.bgpi = (self.bgpi + 1) % 64;
        }
    }

    /// OCPD write: as BCPD, for the object palettes.
    pub fn set_cgb_object_palette(&mut self, value: u8)
        requires
            old(self).wf(),
        ensures
            final(self).wf(),
            *final(self) == (Gpu { object_palette: final(self).object_palette, obpi: final(self).obpi, ..*old(self) }),
            final(self).object_palette@ == old(self).object_palette@.update(old(self).obpi as int, value),
            final(self).obpi == if old(self).auto_increment_object {
                ((old(self).obpi + 1) % 64) as u8
            } else {
                old(self).obpi
            },
    {
        self.object_palette.set(self.obpi as usize, value);
        if self.auto_increment_object {
            self.obpi = (self.obpi + 1) % 64;
        }
    }

    fn fire_interrupt(&mut self, interrupt: Interrupt)
        ensures
            *final(self) == (Gpu {
                interrupts_fired: old(self).interrupts_fired | interrupt.spec_bit(),
                ..*old(self)
            }),
    {
        match interrupt {
            Interrupt::VBlank => self.interrupts_fired = self.interrupts_fired | VBLANK_BIT,
            Interrupt::LCDStat => self.interrupts_fired = self.interrupts_fired | LCD_STAT_BIT,
        }
    }

    fn fire_stat_interrupt(&mut self)
        ensures
            *final(self) == (Gpu {
                interrupts_fired: old(self).interrupts_fired | old(self).mode_stat_bit(old(self).stat.mode),
                ..*old(self)
            }),
    {
        let fire = match self.stat.mode {
            Mode::OAMAccess => self.stat.oam_interrupt,
            Mode::VerticalBlank => self.stat.v_blank_interrupt,
            Mode::HorizontalBlank => self.stat.h_blank_interrupt,
            Mode::VRAMAccess => false,
        };
        if fire {
            self.fire_interrupt(Interrupt::LCDStat);
        } else {
            assert(self.interrupts_fired | 0 == self.interrupts_fired) by (bit_vector);
        }
    }

    fn set_mode(&mut self, mode: Mode)
        ensures
            *final(self) == (Gpu {
                stat: Stat { mode, ..old(self).stat },
                interrupts_fired: old(self).interrupts_fired | old(self).mode_stat_bit(mode),
                ..*old(self)
            }),
    {
        self.stat.mode = mode;
        self.fire_stat_interrupt();
    }

    fn set_equal_lines_check(&mut self)
        ensures
            *final(self) == (Gpu {
                stat: Stat { coincidence_flag: old(self).line == old(self).line_check, ..old(self).stat },
                interrupts_fired: old(self).interrupts_fired | old(self).line_stat_bit(old(self).line),
                ..*old(self)
            }),
    {
        self.stat.coincidence_flag = false;
        if self.line == self.line_check {
            self.stat.coincidence_flag = true;
            if self.stat.coincidence_interrupt {
                self.fire_interrupt(Interrupt::LCDStat);
                return;
            }
        }
        assert(self.interrupts_fired | 0 == self.interrupts_fired) by (bit_vector);
    }

    fn set_current_line(&mut self, value: u8)
        ensures
            *final(self) == (Gpu {
                line: value,
                stat: Stat { coincidence_flag: value == old(self).line_check, ..old(self).stat },
                interrupts_fired: old(self).interrupts_fired | old(self).line_stat_bit(value),
                ..*old(self)
            }),
    {
        self.line = value;
        self.set_equal_lines_check();
    }

    /// The PPU after a step of `cycles` T-cycles, apart from the raised bits.
    pub open spec fn step_post(&self, new: &Gpu, cycles: u8) -> bool {
        &&& new.wf()
        &&& self.timing_post(new, cycles)
        &&& self.same_setup(new)
        &&& !(self.transition_due(cycles) && self.stat.mode == Mode::VRAMAccess) ==> new.canvas_buffer@ == self.canvas_buffer@ && new.bg_priority_map@ == self.bg_priority_map@
        &&& new.wly == if self.transition_due(cycles) && self.stat.mode == Mode::VerticalBlank && self.line == 153 { 0 } else if self.transition_due(cycles) && self.stat.mode == Mode::VRAMAccess && self.lcdc.window_display_enabled && self.window_visible() { ((self.wly + 1) % 256) as u8 } else { self.wly }
        &&& self.transition_due(cycles) && self.stat.mode == Mode::VRAMAccess ==> forall|c: int|
            0 <= c < 160 ==> #[trigger] pixel_at(new.canvas_buffer@, self.line as int, c) == self.line_pixel(new, c)
                && new.bg_priority_map@[self.line * 160 + c] == self.line_flag(c)
        &&& self.transition_due(cycles) && self.stat.mode == Mode::VRAMAccess ==> row_frame( self.canvas_buffer@, new.canvas_buffer@, self.line * 640, 640, ) && row_frame(self.bg_priority_map@, new.bg_priority_map@, self.line * 160, 160)
    }

    /// Advances the mode state machine by `cycles` T-cycles; leaving the drawing mode renders
    /// the current line. Returns the interrupt bits raised (V-blank bit 0, STAT bit 1).
    pub fn step(&mut self, cycles: u8) -> (r: u8)
        requires
            old(self).wf(),
            old(self).interrupts_fired == 0,
        ensures
            old(self).step_post(final(self), cycles),
            r == old(self).raised(cycles),
            final(self).interrupts_fired == 0,
    {
        if !self.lcdc.display_enabled {
            proof {
                reveal(Gpu::timing_post);
                reveal(Gpu::raised);
            }
            return 0;
        }
        match self.stat.mode {
            Mode::HorizontalBlank => self.step_hblank(cycles),
            Mode::VerticalBlank => self.step_vblank(cycles),
            Mode::OAMAccess => self.step_oam(cycles),
            Mode::VRAMAccess => self.step_vram(cycles),
        }
        let ghost mid = *self;
        let r = self.interrupts_fired;
        self.interrupts_fired = 0;
        proof {
            lemma_step_post_ignores_fired(*old(self), mid, cycles);
            assert(*self == (Gpu { interrupts_fired: 0, ..mid }));
        }
        r
    }

    /// A step that starts in H-blank.
    fn step_hblank(&mut self, cycles: u8)
        requires
            old(self).wf(),
            old(self).lcdc.display_enabled,
            old(self).stat.mode == Mode::HorizontalBlank,
            old(self).interrupts_fired == 0,
        ensures
            old(self).step_post(final(self), cycles),
            final(self).interrupts_fired == old(self).raised(cycles),
    {
        proof {
            reveal(Gpu::timing_post);
            reveal(Gpu::raised);
            lemma_or3(0, 0, 0, 0);
        }
        let total = self.cycles + cycles as u16;
        if total >= 204 {
            self.leave_hblank(total % 204);
            proof {
                let y = old(self).raised(cycles);
                assert(0u8 | y == y) by (bit_vector);
            }
        } else {
            self.cycles = total;
        }
    }

    /// A step that starts in V-blank.
    fn step_vblank(&mut self, cycles: u8)
        requires
            old(self).wf(),
            old(self).lcdc.display_enabled,
            old(self).stat.mode == Mode::VerticalBlank,
            old(self).interrupts_fired == 0,
        ensures
            old(self).step_post(final(self), cycles),
            final(self).interrupts_fired == old(self).raised(cycles),
    {
        proof {
            reveal(Gpu::timing_post);
            reveal(Gpu::raised);
            lemma_or3(0, 0, 0, 0);
        }
        let total = self.cycles + cycles as u16;
        if total >= 456 {
            self.leave_vblank(total % 456);
            proof {
                let y = old(self).raised(cycles);
                assert(0u8 | y == y) by (bit_vector);
            }
        } else {
            self.cycles = total;
        }
    }

    /// A step that starts in the OAM scan.
    fn step_oam(&mut self, cycles: u8)
        requires
            old(self).wf(),
            old(self).lcdc.display_enabled,
            old(self).stat.mode == Mode::OAMAccess,
            old(self).interrupts_fired == 0,
        ensures
            old(self).step_post(final(self), cycles),
            final(self).interrupts_fired == old(self).raised(cycles),
    {
        proof {
            reveal(Gpu::timing_post);
            reveal(Gpu::raised);
            lemma_or3(0, 0, 0, 0);
        }
        let total = self.cycles + cycles as u16;
        if total >= 80 {
            self.cycles = total % 80;
            self.stat.mode = Mode::VRAMAccess;
        } else {
            self.cycles = total;
        }
    }

    /// A step that starts in the drawing mode.
    fn step_vram(&mut self, cycles: u8)
        requires
            old(self).wf(),
            old(self).lcdc.display_enabled,
            old(self).stat.mode == Mode::VRAMAccess,
            old(self).interrupts_fired == 0,
        ensures
            old(self).step_post(final(self), cycles),
            final(self).interrupts_fired == old(self).raised(cycles),
    {
        proof {
            reveal(Gpu::timing_post);
            reveal(Gpu::raised);
            lemma_or3(0, 0, 0, 0);
        }
        let total = self.cycles + cycles as u16;
        if total >= 172 {
            self.cycles = total % 172;
            self.set_mode(Mode::HorizontalBlank);
            proof {
                lemma_or3(0, 0, old(self).mode_stat_bit(Mode::HorizontalBlank), 0);
            }
            let ghost mid = *self;
            self.render_line();
            proof {
                lemma_collected_congruent(mid, *old(self), 40);
                assert forall|c: int| 0 <= c < 160 implies #[trigger] pixel_at(self.canvas_buffer@, old(self).line as int, c)
                    == old(self).line_pixel(self, c) && self.bg_priority_map@[old(self).line * 160 + c] == old(self).line_flag(c) by {
                    reveal(Gpu::cgb_tile_color_index);
                    lemma_top_congruent(Gpu { bg_priority_map: self.bg_priority_map, ..mid }, Gpu { bg_priority_map: self.bg_priority_map, ..*old(self) }, old(self).collected(40), 0, c, old(self).gb_mode == GameBoyMode::Cgb, old(self).line_below(c));
                }
            }
        } else {
            self.cycles = total;
        }
    }

    /// End of an H-blank line: LY advances; line 144 starts V-blank, any other an OAM scan.
    fn leave_hblank(&mut self, rest: u16)
        requires
            old(self).wf(),
            old(self).stat.mode == Mode::HorizontalBlank,
            old(self).lcdc.display_enabled,
            rest < 204,
        ensures
            final(self).wf(),
            final(self).cycles == rest,
            final(self).line == next_line(Mode::HorizontalBlank, old(self).line),
            final(self).stat == (Stat {
                mode: next_mode(Mode::HorizontalBlank, old(self).line),
                coincidence_flag: final(self).line == old(self).line_check,
                ..old(self).stat
            }),
            final(self).interrupts_fired == old(self).interrupts_fired | ((
            (if final(self).stat.mode == Mode::VerticalBlank { VBLANK_BIT } else { 0u8 })
                | old(self).mode_stat_bit(final(self).stat.mode)) | old(self).line_stat_bit(final(self).line)),
            old(self).same_setup(final(self)),
            old(self).same_picture(final(self)),
    {
        let f0 = self.interrupts_fired;
        let ghost g0 = *self;
        self.cycles = rest;
        let next = self.line + 1;
        self.set_current_line(next);
        if next == 144 {
            self.set_mode(Mode::VerticalBlank);
            self.fire_interrupt(Interrupt::VBlank);
        } else {
            self.set_mode(Mode::OAMAccess);
        }
        proof {
            lemma_or3(f0, g0.line_stat_bit(next), g0.mode_stat_bit(self.stat.mode),
                if next == 144 { VBLANK_BIT } else { 0 });
        }
    }

    /// End of a V-blank line: LY advances, and after line 153 a new frame starts at line 0.
    fn leave_vblank(&mut self, rest: u16)
        requires
            old(self).wf(),
            old(self).stat.mode == Mode::VerticalBlank,
            old(self).lcdc.display_enabled,
            rest < 456,
        ensures
            final(self).wf(),
            final(self).cycles == rest,
            final(self).line == next_line(Mode::VerticalBlank, old(self).line),
            final(self).stat == (Stat {
                mode: next_mode(Mode::VerticalBlank, old(self).line),
                coincidence_flag: final(self).line == old(self).line_check,
                ..old(self).stat
            }),
            final(self).interrupts_fired == old(self).interrupts_fired | ((0u8 | (
            if final(self).stat.mode != Mode::VerticalBlank {
                old(self).mode_stat_bit(final(self).stat.mode)
            } else {
                0
            })) | old(self).line_stat_bit(final(self).line)),
            old(self).same_setup(final(self)),
            final(self).canvas_buffer@ == old(self).canvas_buffer@,
            final(self).bg_priority_map@ == old(self).bg_priority_map@,
            final(self).wly == if old(self).line == 153 { 0 } else { old(self).wly },
    {
        let f0 = self.interrupts_fired;
        let ghost g0 = *self;
        self.cycles = rest;
        if self.line == 153 {
            self.wly = 0;
            self.set_current_line(0);
            self.set_mode(Mode::OAMAccess);
            proof {
                lemma_or3(f0, g0.line_stat_bit(0), g0.mode_stat_bit(Mode::OAMAccess), 0);
            }
        } else {
            let next = self.line + 1;
            self.set_current_line(next);
            proof {
                lemma_or3(f0, g0.line_stat_bit(next), 0, 0);
            }
        }
    }
}

pub open spec fn row_frame(old: Seq<u8>, new: Seq<u8>, start: int, len: int) -> bool {
    &&& new.len() == old.len()
    &&& forall|i: int| 0 <= i < old.len() && !(start <= i < start + len) ==> new[i] == old[i]
}

/// The objects of a line depend only on LY, LCDC, OAM and the mode.
proof fn lemma_collected_congruent(a: Gpu, b: Gpu, n: int)
    requires
        a.line == b.line,
        a.lcdc == b.lcdc,
        a.oam@ == b.oam@,
        a.gb_mode == b.gb_mode,
    ensures
        a.collected(n) == b.collected(n),
    decreases n,
{
    if n > 0 {
        lemma_collected_congruent(a, b, n - 1);
        assert(a.oam_object(n - 1) == b.oam_object(n - 1));
    }
}

/// The drawn object colour depends only on the fields that object drawing reads.
proof fn lemma_top_congruent(a: Gpu, b: Gpu, objs: Seq<ObjectData>, n: int, c: int, cgb: bool, below: Pixel)
    requires
        a.line == b.line,
        a.lcdc == b.lcdc,
        a.vram@ == b.vram@,
        a.vram1@ == b.vram1@,
        a.palettes == b.palettes,
        a.object_palette@ == b.object_palette@,
        a.gb_mode == b.gb_mode,
        a.bg_priority_map@ == b.bg_priority_map@,
    ensures
        a.top_object_pixel(objs, n, c, cgb, below) == b.top_object_pixel(objs, n, c, cgb, below),
    decreases objs.len() - n,
{
    if 0 <= n < objs.len() {
        lemma_top_congruent(a, b, objs, n + 1, c, cgb, below);
    }
}

proof fn lemma_step_post_ignores_fired(a: Gpu, b: Gpu, cycles: u8)
    requires
        a.step_post(&b, cycles),
    ensures
        a.step_post(&Gpu { interrupts_fired: 0, ..b }, cycles),
{
    reveal(Gpu::timing_post);
}

proof fn lemma_or3(f: u8, a: u8, b: u8, c: u8)
    ensures
        ((f | a) | b) | c == f | ((c | b) | a),
        (f | a) | b == f | ((0u8 | b) | a),
        f | a == f | ((0u8 | 0u8) | a),
        f | 0 == f,
        (0u8 | b) | 0 == b,
        (0u8 | 0u8) | b == b,
        (c | b) | 0 == c | b,
{
    assert(((f | a) | b) | c == f | ((c | b) | a) && (f | a) | b == f | ((0u8 | b) | a) && f | a == f | ((0u8
        | 0u8) | a) && f | 0 == f && (0u8 | b) | 0 == b && (0u8 | 0u8) | b == b && (c | b) | 0 == c | b)
        by (bit_vector);
}

/// The colour that canvas bytes hold for pixel (`x`, `y`), alpha aside.
pub open spec fn pixel_at(canvas: Seq<u8>, y: int, x: int) -> Pixel {
    Pixel { r: canvas[(y * 160 + x) * 4], g: canvas[(y * 160 + x) * 4 + 1], b: canvas[(y * 160 + x) * 4 + 2] }
}

impl Gpu {
    /// Colour index of background pixel `x` on line LY, after scrolling.
    pub open spec fn bg_color_index(&self, x: int) -> u8 {
        let ty = ((self.line + self.scroll_y) % 256) as u8;
        let tx = ((x + self.scroll_x) % 256) as u8;
        let map = spec_map_address(self.bg_map(), ty, tx);
        let tile_number = self.vram@[map - 0x8000];
        let row = self.spec_tile_address(tile_number) - 0x8000 + (ty % 8) * 2;
        spec_color_index(self.vram@[row], self.vram@[row + 1], (7 - tx % 8) as u8)
    }

    /// Colour index of column `px`, row `py` of a tile under CGB attributes.
    #[verifier::opaque]
    pub open spec fn cgb_tile_color_index(&self, tile_number: u8, attributes: u8, px: u8, py: u8) -> u8 {
        let tile = self.spec_tile_address(tile_number) - 0x8000;
        let bit = if attributes & 0x20 != 0 { px } else { (7 - px) as u8 };
        let row_in_tile = if attributes & 0x40 != 0 { 7 - py } else { py as int };
        let row = tile + row_in_tile * 2;
        if attributes & 0x08 != 0 {
            spec_color_index(self.vram1@[row], self.vram1@[row + 1], bit)
        } else {
            spec_color_index(self.vram@[row], self.vram@[row + 1], bit)
        }
    }

    /// Map index (from $8000) of the background tile under pixel `x` of line LY.
    pub open spec fn bg_map_index(&self, x: int) -> int {
        let ty = ((self.line + self.scroll_y) % 256) as u8;
        let tx = ((x + self.scroll_x) % 256) as u8;
        spec_map_address(self.bg_map(), ty, tx) - 0x8000
    }

    pub open spec fn cgb_bg_color_index(&self, x: int) -> u8 {
        let ty = ((self.line + self.scroll_y) % 256) as u8;
        let tx = ((x + self.scroll_x) % 256) as u8;
        let m = self.bg_map_index(x);
        self.cgb_tile_color_index(self.vram@[m], self.vram1@[m], tx % 8, ty % 8)
    }

    /// The CGB background colour of pixel `x` on line LY, from the tile's attribute palette.
    pub open spec fn cgb_bg_pixel(&self, x: int) -> Pixel {
        let m = self.bg_map_index(x);
        spec_cgb_pixel(self.bg_palette@, self.vram1@[m] & 0x07, self.cgb_bg_color_index(x))
    }

    /// The CGB window colour at screen column `x` on window line WLY.
    pub open spec fn cgb_window_pixel(&self, x: int) -> Pixel {
        let x_offset = (x + 7 - self.window_x) as u8;
        let m = spec_map_address(self.window_map(), self.wly, x_offset) - 0x8000;
        let ci = self.cgb_tile_color_index(self.vram@[m], self.vram1@[m], x_offset % 8, self.wly % 8);
        spec_cgb_pixel(self.bg_palette@, self.vram1@[m] & 0x07, ci)
    }

    /// Priority-buffer byte that the DMG window writes at column `x`.
    pub open spec fn window_flag(&self, x: int) -> u8 {
        if self.window_color_index(x) == 0 { PRIORITY_COLOR0 } else { 0 }
    }

    /// Priority-buffer byte that the CGB window writes at column `x`: colour 0, attribute bit 7.
    pub open spec fn cgb_window_flag(&self, x: int) -> u8 {
        let x_offset = (x + 7 - self.window_x) as u8;
        let m = spec_map_address(self.window_map(), self.wly, x_offset) - 0x8000;
        let ci = self.cgb_tile_color_index(self.vram@[m], self.vram1@[m], x_offset % 8, self.wly % 8);
        ((if ci == 0 { PRIORITY_COLOR0 } else { 0u8 }) | (if self.vram1@[m] & 0x80 != 0 { PRIORITY_ATTRIBUTE } else { 0u8 })) as u8
    }

    /// Priority-buffer byte that the CGB background writes at column `x`.
    pub open spec fn cgb_bg_flag(&self, x: int) -> u8 {
        let m = self.bg_map_index(x);
        ((if self.cgb_bg_color_index(x) == 0 { PRIORITY_COLOR0 } else { 0u8 }) | (if self.vram1@[m] & 0x80 != 0 {
            PRIORITY_ATTRIBUTE
        } else {
            0u8
        })) as u8
    }

    /// Priority-buffer byte of a DMG line at column `c` once background and window are drawn.
    pub open spec fn dmg_line_flag(&self, c: int) -> u8 {
        if self.lcdc.window_display_enabled && self.window_visible() && c >= self.window_start() {
            self.window_flag(c)
        } else if self.lcdc.bg_window_enabled {
            if self.bg_color_index(c) == 0 { PRIORITY_COLOR0 } else { 0 }
        } else {
            PRIORITY_COLOR0
        }
    }

    /// A CGB line without objects: the window where it is shown, else the background.
    pub open spec fn cgb_line_pixel(&self, c: int) -> Pixel {
        if self.lcdc.window_display_enabled && self.window_visible() && c >= self.window_start() {
            self.cgb_window_pixel(c)
        } else {
            self.cgb_bg_pixel(c)
        }
    }

    pub open spec fn cgb_line_flag(&self, c: int) -> u8 {
        if self.lcdc.window_display_enabled && self.window_visible() && c >= self.window_start() {
            self.cgb_window_flag(c)
        } else {
            self.cgb_bg_flag(c)
        }
    }

    /// Colour and priority byte of a rendered line in this mode, before objects.
    pub open spec fn line_below(&self, c: int) -> Pixel {
        if self.gb_mode == GameBoyMode::Dmg { self.dmg_line_pixel(c) } else { self.cgb_line_pixel(c) }
    }

    pub open spec fn line_flag(&self, c: int) -> u8 {
        if self.gb_mode == GameBoyMode::Dmg { self.dmg_line_flag(c) } else { self.cgb_line_flag(c) }
    }

    /// Pixel `c` of line LY as rendering leaves it, given the priority buffer `prio` it wrote:
    /// the line below, with the objects drawn over it when they are enabled.
    pub open spec fn line_pixel(&self, prio: &Gpu, c: int) -> Pixel {
        if self.lcdc.object_display_enabled {
            (Gpu { bg_priority_map: prio.bg_priority_map, ..*self }).top_object_pixel(
                self.collected(40),
                0,
                c,
                self.gb_mode == GameBoyMode::Cgb,
                self.line_below(c),
            )
        } else {
            self.line_below(c)
        }
    }

    /// Column `j` of line LY holds the CGB background colour, priority byte and full alpha of `g0`.
    pub open spec fn cgb_bg_column_done(&self, g0: &Gpu, j: int) -> bool {
        &&& pixel_at(self.canvas_buffer@, g0.line as int, j) == g0.cgb_bg_pixel(j)
        &&& self.bg_priority_map@[g0.line * 160 + j] == g0.cgb_bg_flag(j)
        &&& self.canvas_buffer@[(g0.line * 160 + j) * 4 + 3] == 255
    }

    /// First screen column that the window covers.
    pub open spec fn window_start(&self) -> int {
        if self.window_x >= 7 { self.window_x - 7 } else { 0 }
    }

    /// Colour index of window pixel at screen column `x` on window line WLY.
    pub open spec fn window_color_index(&self, x: int) -> u8 {
        let x_offset = (x + 7 - self.window_x) as u8;
        let map = spec_map_address(self.window_map(), self.wly, x_offset);
        let tile_number = self.vram@[map - 0x8000];
        let row = self.spec_tile_address(tile_number) - 0x8000 + (self.wly % 8) * 2;
        spec_color_index(self.vram@[row], self.vram@[row + 1], (7 - x_offset % 8) as u8)
    }

    pub open spec fn window_pixel(&self, x: int) -> Pixel {
        if self.boot_rom {
            spec_cgb_pixel(self.bg_palette@, 0, self.window_color_index(x))
        } else {
            spec_dmg_pixel(self.palettes[0], self.window_color_index(x))
        }
    }

    /// A DMG line without objects: the window where it is shown, else the background, or
    /// white with the background disabled.
    pub open spec fn dmg_line_pixel(&self, x: int) -> Pixel {
        if self.lcdc.window_display_enabled && self.window_visible() && x >= self.window_start() {
            self.window_pixel(x)
        } else if self.lcdc.bg_window_enabled {
            self.bg_pixel(x)
        } else {
            Pixel { r: 255, g: 255, b: 255 }
        }
    }

    /// The DMG background colour of pixel `x` on line LY (palette 0 of the CGB palette RAM
    /// while a boot ROM runs).
    pub open spec fn bg_pixel(&self, x: int) -> Pixel {
        if self.boot_rom {
            spec_cgb_pixel(self.bg_palette@, 0, self.bg_color_index(x))
        } else {
            spec_dmg_pixel(self.palettes[0], self.bg_color_index(x))
        }
    }
}

impl Gpu {
    /// Tile-map base for the background ($9C00 when LCDC bit 3 is set).
    pub open spec fn bg_map(&self) -> u16 {
        if self.lcdc.bg_tile_map { 0x9C00 } else { 0x9800 }
    }

    /// Tile-map base for the window ($9C00 when LCDC bit 6 is set).
    pub open spec fn window_map(&self) -> u16 {
        if self.lcdc.window_tile_map { 0x9C00 } else { 0x9800 }
    }

    pub open spec fn spec_tile_address(&self, tile_number: u8) -> u16 {
        if self.lcdc.bg_window_tile_data {
            (0x8000 + tile_number * 16) as u16
        } else {
            (0x9000 + (tile_number as i8) * 16) as u16
        }
    }

    /// Whether the window covers part of the current line.
    pub open spec fn window_visible(&self) -> bool {
        self.window_y <= self.line && 0 < self.window_x < 167 && self.line < 144
    }

    fn calculate_bg_address(&self, y: u8, x: u8) -> (r: u16)
        ensures
            r == spec_map_address(self.bg_map(), y, x),
            0x9800 <= r < 0xA000,
    {
        let tile_map: u16 = if self.lcdc.bg_tile_map { 0x9C00 } else { 0x9800 };
        calculate_address(tile_map, y, x)
    }

    /// Map address for window column `x_offset` (counted from the window's left edge) on window
    /// line `y`.
    fn calculate_window_address(&self, y: u8, x_offset: u8) -> (r: u16)
        ensures
            r == spec_map_address(self.window_map(), y, x_offset),
            0x9800 <= r < 0xA000,
    {
        let tile_map: u16 = if self.lcdc.window_tile_map { 0x9C00 } else { 0x9800 };
        calculate_address(tile_map, y, x_offset)
    }

    /// Address of a tile's data: $8000 + 16n unsigned, or $9000 + 16n with n signed.
    fn calculate_tile_address(&self, tile_number: u8) -> (r: u16)
        ensures
            r == self.spec_tile_address(tile_number),
            0x8000 <= r <= 0x97F0,
    {
        if self.lcdc.bg_window_tile_data {
            return 0x8000 + tile_number as u16 * 16;
        }
        let signed = tile_number as i8;
        if signed >= 0 {
            0x9000 + signed as u16 * 16
        } else {
            0x9000 - ((-(signed as i16)) as u16) * 16
        }
    }

    fn draw_pixel_to_buffer(&mut self, x: usize, y: usize, pixel: Pixel)
        requires
            old(self).wf(),
            x < SCREEN_WIDTH,
            y < SCREEN_HEIGHT,
        ensures
            final(self).wf(),
            final(self).canvas_buffer@ == old(self).canvas_buffer@.update((y * 160 + x) * 4, pixel.r).update(
                (y * 160 + x) * 4 + 1,
                pixel.g,
            ).update((y * 160 + x) * 4 + 2, pixel.b).update((y * 160 + x) * 4 + 3, 255),
            *final(self) == (Gpu { canvas_buffer: final(self).canvas_buffer, ..*old(self) }),
    {
        let offset = (x * 4) + (y * SCREEN_WIDTH * 4);
        self.canvas_buffer.set(offset, pixel.r);
        self.canvas_buffer.set(offset + 1, pixel.g);
        self.canvas_buffer.set(offset + 2, pixel.b);
        self.canvas_buffer.set(offset + 3, 255);
    }

    fn set_priority(&mut self, x: usize, y: usize, value: u8)
        requires
            old(self).wf(),
            x < SCREEN_WIDTH,
            y < SCREEN_HEIGHT,
        ensures
            final(self).wf(),
            final(self).bg_priority_map@ == old(self).bg_priority_map@.update(y * 160 + x, value),
            *final(self) == (Gpu { bg_priority_map: final(self).bg_priority_map, ..*old(self) }),
    {
        self.bg_priority_map.set(y * SCREEN_WIDTH + x, value);
    }

    /// Renders line LY: background (or white), then window, then objects.
    fn render_line(&mut self)
        requires
            old(self).wf(),
            old(self).line < 144,
        ensures
            final(self).wf(),
            old(self).row_drawn(final(self), old(self).line as int),
            final(self).wly == if old(self).lcdc.window_display_enabled && old(self).window_visible() {
                ((old(self).wly + 1) % 256) as u8
            } else {
                old(self).wly
            },
            forall|c: int| 0 <= c < 160 ==> #[trigger] final(self).bg_priority_map@[old(self).line * 160 + c] == old(self).line_flag(c),
            forall|c: int| 0 <= c < 160 ==> #[trigger] pixel_at(final(self).canvas_buffer@, old(self).line as int, c) == old(self).line_pixel(final(self), c),
    {
        if self.gb_mode == GameBoyMode::Dmg {
            self.render_scan_line();
        } else {
            self.render_scan_line_cgb();
        }
    }

    fn render_scan_line(&mut self)
        requires
            old(self).wf(),
            old(self).gb_mode == GameBoyMode::Dmg,
            old(self).line < 144,
        ensures
            final(self).wf(),
            old(self).row_drawn(final(self), old(self).line as int),
            final(self).wly == if old(self).lcdc.window_display_enabled && old(self).window_visible() {
                ((old(self).wly + 1) % 256) as u8
            } else {
                old(self).wly
            },
            forall|c: int| 0 <= c < 160 ==> #[trigger] final(self).bg_priority_map@[old(self).line * 160 + c] == old(self).dmg_line_flag(c),
            forall|c: int| 0 <= c < 160 ==> #[trigger] pixel_at(final(self).canvas_buffer@, old(self).line as int, c) == old(self).line_pixel(final(self), c),
    {
        let ghost g0 = *self;
        if self.lcdc.bg_window_enabled {
            self.render_background_line();
        } else {
            self.fill_white_line();
        }
        if self.lcdc.window_display_enabled {
            self.render_window_line();
        }
        let ghost g2 = *self;
        assert forall|c: int| 0 <= c < 160 implies #[trigger] pixel_at(g2.canvas_buffer@, g0.line as int, c) == g0.line_below(c) by {}
        assert forall|c: int| 0 <= c < 160 implies #[trigger] g2.bg_priority_map@[g0.line * 160 + c] == g0.dmg_line_flag(c) by {}
        if self.lcdc.object_display_enabled {
            self.render_object_line();
            proof {
                assert forall|c: int| 0 <= c < 160 implies #[trigger] self.bg_priority_map@[g0.line * 160 + c] == g0.dmg_line_flag(c) by {
                    assert(g2.bg_priority_map@[g0.line * 160 + c] == g0.dmg_line_flag(c));
                }
                lemma_collected_congruent(g2, g0, 40);
                assert forall|c: int| 0 <= c < 160 implies #[trigger] pixel_at(self.canvas_buffer@, g0.line as int, c) == g0.line_pixel(self, c) by {
                    lemma_top_congruent(g2, Gpu { bg_priority_map: self.bg_priority_map, ..g0 }, g0.collected(40), 0, c, false, pixel_at(g2.canvas_buffer@, g0.line as int, c));
                }
            }
        }
    }

    fn render_scan_line_cgb(&mut self)
        requires
            old(self).wf(),
            old(self).gb_mode == GameBoyMode::Cgb,
            old(self).line < 144,
        ensures
            final(self).wf(),
            old(self).row_drawn(final(self), old(self).line as int),
            final(self).wly == if old(self).lcdc.window_display_enabled && old(self).window_visible() {
                ((old(self).wly + 1) % 256) as u8
            } else {
                old(self).wly
            },
            forall|c: int| 0 <= c < 160 ==> #[trigger] final(self).bg_priority_map@[old(self).line * 160 + c] == old(self).cgb_line_flag(c),
            forall|c: int| 0 <= c < 160 ==> #[trigger] pixel_at(final(self).canvas_buffer@, old(self).line as int, c) == old(self).line_pixel(final(self), c),
    {
        let ghost g0 = *self;
        self.render_background_line_cgb();
        if self.lcdc.window_display_enabled {
            self.render_window_line_cgb();
        }
        let ghost g2 = *self;
        assert forall|c: int| 0 <= c < 160 implies #[trigger] pixel_at(g2.canvas_buffer@, g0.line as int, c) == g0.line_below(c) by {
            reveal(Gpu::cgb_tile_color_index);
        }
        assert forall|c: int| 0 <= c < 160 implies #[trigger] g2.bg_priority_map@[g0.line * 160 + c] == g0.cgb_line_flag(c) by {
            reveal(Gpu::cgb_tile_color_index);
        }
        if self.lcdc.object_display_enabled {
            self.render_object_line_cgb();
            proof {
                assert forall|c: int| 0 <= c < 160 implies #[trigger] self.bg_priority_map@[g0.line * 160 + c] == g0.cgb_line_flag(c) by {
                    assert(g2.bg_priority_map@[g0.line * 160 + c] == g0.cgb_line_flag(c));
                }
                lemma_collected_congruent(g2, g0, 40);
                assert forall|c: int| 0 <= c < 160 implies #[trigger] pixel_at(self.canvas_buffer@, g0.line as int, c) == g0.line_pixel(self, c) by {
                    lemma_top_congruent(g2, Gpu { bg_priority_map: self.bg_priority_map, ..g0 }, g0.collected(40), 0, c, true, pixel_at(g2.canvas_buffer@, g0.line as int, c));
                }
            }
        }
    }

    /// The line with background disabled on DMG: white, every pixel counted as colour 0.
    fn fill_white_line(&mut self)
        requires
            old(self).wf(),
            old(self).line < 144,
        ensures
            final(self).wf(),
            old(self).row_drawn(final(self), old(self).line as int),
            final(self).wly == old(self).wly,
            forall|x: int|
                0 <= x < 160 ==> #[trigger] pixel_at(final(self).canvas_buffer@, old(self).line as int, x)
                    == (Pixel { r: 255, g: 255, b: 255 }),
            forall|c: int| 0 <= c < 160 ==> #[trigger] final(self).bg_priority_map@[old(self).line * 160 + c] == PRIORITY_COLOR0,
    {
        let ghost g0 = *self;
        let line = self.line as usize;
        let mut x: usize = 0;
        while x < SCREEN_WIDTH
            invariant
                self.wf(),
                line == g0.line,
                line < 144,
                x <= SCREEN_WIDTH,
                g0.row_drawn(self, line as int),
                self.wly == g0.wly,
                forall|j: int|
                    0 <= j < x ==> #[trigger] pixel_at(self.canvas_buffer@, line as int, j) == (Pixel {
                        r: 255,
                        g: 255,
                        b: 255,
                    }),
                forall|j: int| 0 <= j < x ==> #[trigger] self.bg_priority_map@[line * 160 + j] == PRIORITY_COLOR0,
            decreases SCREEN_WIDTH - x,
        {
            let ghost before = *self;
            self.set_priority(x, line, PRIORITY_COLOR0);
            self.draw_pixel_to_buffer(x, line, Pixel::white());
            assert forall|j: int| 0 <= j <= x implies #[trigger] pixel_at(self.canvas_buffer@, line as int, j) == (Pixel {
                r: 255,
                g: 255,
                b: 255,
            }) by {
                if j < x {
                    assert(pixel_at(self.canvas_buffer@, line as int, j) == pixel_at(before.canvas_buffer@, line as int, j));
                }
            }
            assert forall|j: int| 0 <= j <= x implies #[trigger] self.bg_priority_map@[line * 160 + j] == PRIORITY_COLOR0 by {
                if j < x {
                    assert(self.bg_priority_map@[line * 160 + j] == before.bg_priority_map@[line * 160 + j]);
                }
            }
            x = x + 1;
        }
    }

    #[verifier::rlimit(100)]
    fn render_background_line(&mut self)
        requires
            old(self).wf(),
            old(self).line < 144,
        ensures
            final(self).wf(),
            old(self).row_drawn(final(self), old(self).line as int),
            final(self).wly == old(self).wly,
            forall|x: int|
                0 <= x < 160 ==> #[trigger] pixel_at(final(self).canvas_buffer@, old(self).line as int, x)
                    == old(self).bg_pixel(x),
            forall|x: int|
                0 <= x < 160 ==> #[trigger] final(self).bg_priority_map@[old(self).line * 160 + x] == if old(
                    self,
                ).bg_color_index(x) == 0 {
                    PRIORITY_COLOR0
                } else {
                    0
                },
    {
        let ghost g0 = *self;
        let line = self.line;
        let tile_y_index = self.line.wrapping_add(self.scroll_y);
        let mut x: u8 = 0;
        while x < 160
            invariant
                self.wf(),
                line == g0.line,
                line < 144,
                tile_y_index == (g0.line + g0.scroll_y) % 256,
                x <= 160,
                g0.row_drawn(self, line as int),
                self.wly == g0.wly,
                forall|j: int| 0 <= j < x ==> #[trigger] pixel_at(self.canvas_buffer@, line as int, j) == g0.bg_pixel(j),
                forall|j: int|
                    0 <= j < x ==> #[trigger] self.bg_priority_map@[line * 160 + j] == if g0.bg_color_index(j) == 0 {
                        PRIORITY_COLOR0
                    } else {
                        0
                    },
            decreases 160 - x,
        {
            let tile_x_index = x.wrapping_add(self.scroll_x);
            let tile_address = self.calculate_bg_address(tile_y_index, tile_x_index);
            let tile_number = self.vram[(tile_address - 0x8000) as usize];
            let tile = self.calculate_tile_address(tile_number) - 0x8000;
            let pixel_index = 7 - (tile_x_index % 8);
            let row = (tile + (tile_y_index % 8 * 2) as u16) as usize;
            let color_index = get_color_index(self.vram[row], self.vram[row + 1], pixel_index);
            assert(color_index == g0.bg_color_index(x as int));
            let pixel = if self.boot_rom {
                cgb_pixel(&self.bg_palette, 0, color_index)
            } else {
                dmg_pixel(self.palettes[0], color_index)
            };
            let flag = if color_index == 0 { PRIORITY_COLOR0 } else { 0 };
            let ghost before = *self;
            self.set_priority(x as usize, line as usize, flag);
            self.draw_pixel_to_buffer(x as usize, line as usize, pixel);
            assert forall|j: int| 0 <= j <= x implies #[trigger] pixel_at(self.canvas_buffer@, line as int, j) == g0.bg_pixel(j) by {
                if j < x {
                    assert(pixel_at(self.canvas_buffer@, line as int, j) == pixel_at(before.canvas_buffer@, line as int, j));
                }
            }
            x = x + 1;
        }
    }

    #[verifier::rlimit(100)]
    fn render_window_line(&mut self)
        requires
            old(self).wf(),
            old(self).line < 144,
        ensures
            final(self).wf(),
            old(self).row_drawn(final(self), old(self).line as int),
            final(self).wly == if old(self).window_visible() {
                ((old(self).wly + 1) % 256) as u8
            } else {
                old(self).wly
            },
            forall|x: int|
                0 <= x < 160 ==> #[trigger] pixel_at(final(self).canvas_buffer@, old(self).line as int, x) == if old(
                    self,
                ).window_visible() && x >= old(self).window_start() {
                    old(self).window_pixel(x)
                } else {
                    pixel_at(old(self).canvas_buffer@, old(self).line as int, x)
                },
            !old(self).window_visible() ==> *final(self) == *old(self),
            forall|x: int|
                0 <= x < 160 ==> #[trigger] final(self).bg_priority_map@[old(self).line * 160 + x] == if old(self).window_visible()
                    && x >= old(self).window_start() {
                    old(self).window_flag(x)
                } else {
                    old(self).bg_priority_map@[old(self).line * 160 + x]
                },
            forall|x: int|
                old(self).window_visible() && old(self).window_start() <= x < 160 ==> #[trigger] final(self).canvas_buffer@[(old(self).line * 160 + x) * 4 + 3] == 255,
    {
        if self.line < self.window_y || self.window_x == 0 || self.window_x >= 167 || self.line >= 144 {
            return;
        }
        let ghost g0 = *self;
        let line = self.line;
        let wx = self.window_x;
        let mut x: u8 = if wx >= 7 { wx - 7 } else { 0 };
        while x < 160
            invariant
                self.wf(),
                line == g0.line,
                line < 144,
                wx == g0.window_x,
                0 < wx < 167,
                g0.window_visible(),
                x >= g0.window_start(),
                x <= 160,
                g0.row_drawn(self, line as int),
                self.wly == g0.wly,
                forall|j: int|
                    0 <= j < 160 ==> #[trigger] pixel_at(self.canvas_buffer@, line as int, j) == if g0.window_start() <= j
                        < x {
                        g0.window_pixel(j)
                    } else {
                        pixel_at(g0.canvas_buffer@, line as int, j)
                    },
                forall|j: int|
                    0 <= j < 160 ==> #[trigger] self.bg_priority_map@[line * 160 + j] == if g0.window_start() <= j < x {
                        g0.window_flag(j)
                    } else {
                        g0.bg_priority_map@[line * 160 + j]
                    },
                forall|j: int| g0.window_start() <= j < x ==> #[trigger] self.canvas_buffer@[(line * 160 + j) * 4 + 3] == 255,
            decreases 160 - x,
        {
            let x_offset: u8 = x + 7 - wx;
            let tile_address = self.calculate_window_address(self.wly, x_offset);
            let tile_number = self.vram[(tile_address - 0x8000) as usize];
            let tile = self.calculate_tile_address(tile_number) - 0x8000;
            let pixel_index = 7 - (x_offset % 8);
            let row = (tile + (self.wly % 8 * 2) as u16) as usize;
            let color_index = get_color_index(self.vram[row], self.vram[row + 1], pixel_index);
            assert(color_index == g0.window_color_index(x as int));
            let pixel = if self.boot_rom {
                cgb_pixel(&self.bg_palette, 0, color_index)
            } else {
                dmg_pixel(self.palettes[0], color_index)
            };
            let flag = if color_index == 0 { PRIORITY_COLOR0 } else { 0 };
            let ghost before = *self;
            self.set_priority(x as usize, line as usize, flag);
            self.draw_pixel_to_buffer(x as usize, line as usize, pixel);
            assert forall|j: int| 0 <= j < 160 implies #[trigger] pixel_at(self.canvas_buffer@, line as int, j) == if g0.window_start()
                <= j < x + 1 {
                g0.window_pixel(j)
            } else {
                pixel_at(g0.canvas_buffer@, line as int, j)
            } by {
                if j != x {
                    assert(pixel_at(self.canvas_buffer@, line as int, j) == pixel_at(before.canvas_buffer@, line as int, j));
                }
            }
            assert(flag == g0.window_flag(x as int));
            assert forall|j: int| 0 <= j < 160 implies #[trigger] self.bg_priority_map@[line * 160 + j] == if g0.window_start() <= j < x + 1 {
                g0.window_flag(j)
            } else {
                g0.bg_priority_map@[line * 160 + j]
            } by {
                if j != x {
                    assert(self.bg_priority_map@[line * 160 + j] == before.bg_priority_map@[line * 160 + j]);
                }
            }
            assert forall|j: int| g0.window_start() <= j < x + 1 implies #[trigger] self.canvas_buffer@[(line * 160 + j) * 4 + 3] == 255 by {
                if j != x {
                    assert(self.canvas_buffer@[(line * 160 + j) * 4 + 3] == before.canvas_buffer@[(line * 160 + j) * 4 + 3]);
                }
            }
            x = x + 1;
        }
        self.wly = self.wly.wrapping_add(1);
    }

    #[verifier::rlimit(100)]
    fn render_background_line_cgb(&mut self)
        requires
            old(self).wf(),
            old(self).line < 144,
        ensures
            final(self).wf(),
            old(self).row_drawn(final(self), old(self).line as int),
            final(self).wly == old(self).wly,
            forall|x: int|
                0 <= x < 160 ==> #[trigger] pixel_at(final(self).canvas_buffer@, old(self).line as int, x)
                    == old(self).cgb_bg_pixel(x),
            forall|x: int| 0 <= x < 160 ==> #[trigger] final(self).bg_priority_map@[old(self).line * 160 + x] == old(self).cgb_bg_flag(x),
            forall|x: int| 0 <= x < 160 ==> #[trigger] final(self).canvas_buffer@[(old(self).line * 160 + x) * 4 + 3] == 255,
    {
        let ghost g0 = *self;
        let line = self.line;
        let tile_y_index = self.line.wrapping_add(self.scroll_y);
        let mut x: u8 = 0;
        while x < 160
            invariant
                self.wf(),
                line == g0.line,
                line < 144,
                tile_y_index == (g0.line + g0.scroll_y) % 256,
                x <= 160,
                g0.row_drawn(self, line as int),
                self.wly == g0.wly,
                forall|j: int| 0 <= j < x ==> #[trigger] self.cgb_bg_column_done(&g0, j),
            decreases 160 - x,
        {
            let tile_x_index = x.wrapping_add(self.scroll_x);
            let tile_address = self.calculate_bg_address(tile_y_index, tile_x_index);
            let map_index = (tile_address - 0x8000) as usize;
            let tile_number = self.vram[map_index];
            let attributes = self.vram1[map_index];
            let (color_index, pixel) = self.cgb_tile_pixel(tile_number, attributes, tile_x_index % 8, tile_y_index % 8);
            assert(map_index == g0.bg_map_index(x as int));
            assert(tile_number == g0.vram@[g0.bg_map_index(x as int)] && attributes == g0.vram1@[g0.bg_map_index(x as int)]);
            assert(tile_x_index % 8 == ((x + g0.scroll_x) % 256) as u8 % 8 && tile_y_index % 8 == ((g0.line + g0.scroll_y) % 256) as u8 % 8);
            assert(self.cgb_tile_color_index(tile_number, attributes, tile_x_index % 8, tile_y_index % 8)
                == g0.cgb_tile_color_index(tile_number, attributes, tile_x_index % 8, tile_y_index % 8)) by {
                reveal(Gpu::cgb_tile_color_index);
            }
            assert(pixel == g0.cgb_bg_pixel(x as int));
            let flag = (if color_index == 0 { PRIORITY_COLOR0 } else { 0 }) | (if attributes & 0x80 != 0 {
                PRIORITY_ATTRIBUTE
            } else {
                0
            });
            let ghost before = *self;
            self.set_priority(x as usize, line as usize, flag);
            self.draw_pixel_to_buffer(x as usize, line as usize, pixel);
            assert(flag == g0.cgb_bg_flag(x as int));
            assert forall|j: int| 0 <= j <= x implies #[trigger] self.cgb_bg_column_done(&g0, j) by {
                if j < x {
                    assert(before.cgb_bg_column_done(&g0, j));
                    assert(pixel_at(self.canvas_buffer@, line as int, j) == pixel_at(before.canvas_buffer@, line as int, j));
                    assert(self.bg_priority_map@[line * 160 + j] == before.bg_priority_map@[line * 160 + j]);
                    assert(self.canvas_buffer@[(line * 160 + j) * 4 + 3] == before.canvas_buffer@[(line * 160 + j) * 4 + 3]);
                }
            }
            x = x + 1;
        }
        assert forall|j: int| 0 <= j < 160 implies #[trigger] pixel_at(self.canvas_buffer@, old(self).line as int, j) == old(self).cgb_bg_pixel(j) by {
            assert(self.cgb_bg_column_done(&g0, j));
        }
        assert forall|j: int| 0 <= j < 160 implies #[trigger] self.bg_priority_map@[old(self).line * 160 + j] == old(self).cgb_bg_flag(j) by {
            assert(self.cgb_bg_column_done(&g0, j));
        }
        assert forall|j: int| 0 <= j < 160 implies #[trigger] self.canvas_buffer@[(old(self).line * 160 + j) * 4 + 3] == 255 by {
            assert(self.cgb_bg_column_done(&g0, j));
        }
    }

    /// Colour index and colour of column `px`, row `py` of a background tile under CGB
    /// attributes: palette bits 0–2, bank bit 3, X-flip bit 5, Y-flip bit 6.
    fn cgb_tile_pixel(&self, tile_number: u8, attributes: u8, px: u8, py: u8) -> (r: (u8, Pixel))
        requires
            self.wf(),
            px < 8,
            py < 8,
        ensures
            r.0 <= 3,
            r.0 == self.cgb_tile_color_index(tile_number, attributes, px, py),
            r.1 == spec_cgb_pixel(self.bg_palette@, attributes & 0x07, r.0),
    {
        proof {
            reveal(Gpu::cgb_tile_color_index);
        }
        let tile = (self.calculate_tile_address(tile_number) - 0x8000) as usize;
        let bit = if attributes & 0x20 != 0 { px } else { 7 - px };
        let row_in_tile = if attributes & 0x40 != 0 { 7 - py } else { py };
        let row = tile + row_in_tile as usize * 2;
        let (lo, hi) = if attributes & 0x08 != 0 {
            (self.vram1[row], self.vram1[row + 1])
        } else {
            (self.vram[row], self.vram[row + 1])
        };
        let color_index = get_color_index(lo, hi, bit);
        assert(attributes & 0x07 <= 7) by (bit_vector);
        (color_index, cgb_pixel(&self.bg_palette, attributes & 0x07, color_index))
    }

    #[verifier::rlimit(100)]
    fn render_window_line_cgb(&mut self)
        requires
            old(self).wf(),
            old(self).line < 144,
        ensures
            final(self).wf(),
            old(self).row_drawn(final(self), old(self).line as int),
            final(self).wly == if old(self).window_visible() {
                ((old(self).wly + 1) % 256) as u8
            } else {
                old(self).wly
            },
            forall|x: int|
                0 <= x < 160 ==> #[trigger] pixel_at(final(self).canvas_buffer@, old(self).line as int, x) == if old(
                    self,
                ).window_visible() && x >= old(self).window_start() {
                    old(self).cgb_window_pixel(x)
                } else {
                    pixel_at(old(self).canvas_buffer@, old(self).line as int, x)
                },
            !old(self).window_visible() ==> *final(self) == *old(self),
            forall|x: int|
                0 <= x < 160 ==> #[trigger] final(self).bg_priority_map@[old(self).line * 160 + x] == if old(self).window_visible()
                    && x >= old(self).window_start() {
                    old(self).cgb_window_flag(x)
                } else {
                    old(self).bg_priority_map@[old(self).line * 160 + x]
                },
            forall|x: int|
                old(self).window_visible() && old(self).window_start() <= x < 160 ==> #[trigger] final(self).canvas_buffer@[(old(self).line * 160 + x) * 4 + 3] == 255,
    {
        if self.line < self.window_y || self.window_x == 0 || self.window_x >= 167 || self.line >= 144 {
            return;
        }
        let ghost g0 = *self;
        let line = self.line;
        let wx = self.window_x;
        let mut x: u8 = if wx >= 7 { wx - 7 } else { 0 };
        while x < 160
            invariant
                self.wf(),
                line == g0.line,
                line < 144,
                wx == g0.window_x,
                0 < wx < 167,
                g0.window_visible(),
                x >= g0.window_start(),
                x <= 160,
                g0.row_drawn(self, line as int),
                self.wly == g0.wly,
                forall|j: int|
                    0 <= j < 160 ==> #[trigger] pixel_at(self.canvas_buffer@, line as int, j) == if g0.window_start() <= j
                        < x {
                        g0.cgb_window_pixel(j)
                    } else {
                        pixel_at(g0.canvas_buffer@, line as int, j)
                    },
                forall|j: int|
                    0 <= j < 160 ==> #[trigger] self.bg_priority_map@[line * 160 + j] == if g0.window_start() <= j < x {
                        g0.cgb_window_flag(j)
                    } else {
                        g0.bg_priority_map@[line * 160 + j]
                    },
                forall|j: int| g0.window_start() <= j < x ==> #[trigger] self.canvas_buffer@[(line * 160 + j) * 4 + 3] == 255,
            decreases 160 - x,
        {
            let x_offset: u8 = x + 7 - wx;
            let tile_address = self.calculate_window_address(self.wly, x_offset);
            let map_index = (tile_address - 0x8000) as usize;
            let tile_number = self.vram[map_index];
            let attributes = self.vram1[map_index];
            let (color_index, pixel) = self.cgb_tile_pixel(tile_number, attributes, x_offset % 8, self.wly % 8);
            assert(x_offset == (x + 7 - g0.window_x) as u8);
            assert(map_index == spec_map_address(g0.window_map(), g0.wly, x_offset) - 0x8000);
            assert(tile_number == g0.vram@[map_index as int] && attributes == g0.vram1@[map_index as int]);
            assert(self.cgb_tile_color_index(tile_number, attributes, x_offset % 8, self.wly % 8)
                == g0.cgb_tile_color_index(tile_number, attributes, x_offset % 8, self.wly % 8)) by {
                reveal(Gpu::cgb_tile_color_index);
            }
            assert(pixel == g0.cgb_window_pixel(x as int));
            let flag = (if color_index == 0 { PRIORITY_COLOR0 } else { 0 }) | (if attributes & 0x80 != 0 {
                PRIORITY_ATTRIBUTE
            } else {
                0
            });
            let ghost before = *self;
            self.set_priority(x as usize, line as usize, flag);
            self.draw_pixel_to_buffer(x as usize, line as usize, pixel);
            assert forall|j: int| 0 <= j < 160 implies #[trigger] pixel_at(self.canvas_buffer@, line as int, j) == if g0.window_start()
                <= j < x + 1 {
                g0.cgb_window_pixel(j)
            } else {
                pixel_at(g0.canvas_buffer@, line as int, j)
            } by {
                if j != x {
                    assert(pixel_at(self.canvas_buffer@, line as int, j) == pixel_at(before.canvas_buffer@, line as int, j));
                }
            }
            assert(flag == g0.cgb_window_flag(x as int));
            assert forall|j: int| 0 <= j < 160 implies #[trigger] self.bg_priority_map@[line * 160 + j] == if g0.window_start() <= j < x + 1 {
                g0.cgb_window_flag(j)
            } else {
                g0.bg_priority_map@[line * 160 + j]
            } by {
                if j != x {
                    assert(self.bg_priority_map@[line * 160 + j] == before.bg_priority_map@[line * 160 + j]);
                }
            }
            assert forall|j: int| g0.window_start() <= j < x + 1 implies #[trigger] self.canvas_buffer@[(line * 160 + j) * 4 + 3] == 255 by {
                if j != x {
                    assert(self.canvas_buffer@[(line * 160 + j) * 4 + 3] == before.canvas_buffer@[(line * 160 + j) * 4 + 3]);
                }
            }
            x = x + 1;
        }
        self.wly = self.wly.wrapping_add(1);
    }

    pub open spec fn object_height(&self) -> int {
        if self.lcdc.sprite_size { 16 } else { 8 }
    }

    /// Whether OAM entry `i` covers line LY.
    pub open spec fn object_on_line(&self, i: int) -> bool {
        let y = self.oam@[i * 4] - 16;
        y <= self.line < y + self.object_height()
    }

    /// OAM entry `i`, decoded: coordinates less 8 / 16, tile low bit cleared for 8×16 objects,
    /// attribute bits 0–2 CGB palette, 3 bank, 4 DMG palette, 5 X-flip, 6 Y-flip, 7 priority.
    pub open spec fn oam_object(&self, i: int) -> ObjectData {
        let a = i * 4;
        let options = self.oam@[a + 3];
        ObjectData {
            x: (self.oam@[a + 1] - 8) as i16,
            y: (self.oam@[a] - 16) as i16,
            tile: if self.lcdc.sprite_size { self.oam@[a + 2] & 0xFE } else { self.oam@[a + 2] },
            palette_one: options & 0x10 != 0,
            xflip: options & 0x20 != 0,
            yflip: options & 0x40 != 0,
            priority: options & 0x80 != 0,
            cgb_palette: options & 0x07,
            bank: options & 0x08 != 0,
        }
    }

    /// The objects of line LY among the first `n` OAM entries: the first ten that cover LY, in
    /// OAM order on CGB, and on DMG each one inserted after all entries with X not above its own
    /// (a stable sort by X).
    pub open spec fn collected(&self, n: int) -> Seq<ObjectData>
        decreases n,
    {
        if n <= 0 {
            Seq::empty()
        } else {
            let p = self.collected(n - 1);
            if p.len() < 10 && self.object_on_line(n - 1) {
                if self.gb_mode == GameBoyMode::Dmg {
                    insert_by_x(p, self.oam_object(n - 1))
                } else {
                    p.push(self.oam_object(n - 1))
                }
            } else {
                p
            }
        }
    }

    /// Up to ten OAM entries on line LY, in OAM order; on DMG then stably ordered by X.
    #[verifier::rlimit(100)]
    fn fetch_objects(&self) -> (r: Vec<ObjectData>)
        requires
            self.wf(),
        ensures
            r@ == self.collected(NUMBER_OF_OBJECTS as int),
            r.len() <= MAX_OBJECTS_PER_LINE,
            forall|k: int| 0 <= k < r.len() ==> (#[trigger] r@[k]).y <= self.line < r@[k].y + self.object_height(),
            forall|k: int| 0 <= k < r.len() ==> -8 <= #[trigger] r@[k].x < 248 && r@[k].cgb_palette <= 7,
            self.gb_mode == GameBoyMode::Dmg ==> forall|a: int, b: int| 0 <= a < b < r.len() ==> (#[trigger] r@[a]).x <= (#[trigger] r@[b]).x,
    {
        let object_height: i16 = if self.lcdc.sprite_size { 16 } else { 8 };
        let line = self.line as i16;
        let mut objects: Vec<ObjectData> = Vec::new();
        let mut i: usize = 0;
        while i < NUMBER_OF_OBJECTS
            invariant
                self.wf(),
                i <= NUMBER_OF_OBJECTS,
                objects@ == self.collected(i as int),
                objects.len() <= MAX_OBJECTS_PER_LINE,
                object_height == self.object_height(),
                line == self.line,
                forall|k: int| 0 <= k < objects.len() ==> (#[trigger] objects@[k]).y <= line < objects@[k].y + object_height,
                forall|k: int| 0 <= k < objects.len() ==> -8 <= #[trigger] objects@[k].x < 248 && objects@[k].cgb_palette <= 7,
                self.gb_mode == GameBoyMode::Dmg ==> forall|a: int, b: int| 0 <= a < b < objects.len() ==> (#[trigger] objects@[a]).x <= (#[trigger] objects@[b]).x,
            decreases NUMBER_OF_OBJECTS - i,
        {
            let address = i * 4;
            let y = self.oam[address] as i16 - 16;
            if objects.len() < MAX_OBJECTS_PER_LINE && y <= line && line < y + object_height {
                let mut tile = self.oam[address + 2];
                let options = self.oam[address + 3];
                if object_height == 16 {
                    tile = tile & 0xFE;
                }
                assert(options & 0x07 <= 7) by (bit_vector);
                let object = ObjectData {
                    x: self.oam[address + 1] as i16 - 8,
                    y,
                    tile,
                    palette_one: options & 0x10 != 0,
                    xflip: options & 0x20 != 0,
                    yflip: options & 0x40 != 0,
                    priority: options & 0x80 != 0,
                    cgb_palette: options & 0x07,
                    bank: options & 0x08 != 0,
                };
                assert(object == self.oam_object(i as int));
                if self.gb_mode == GameBoyMode::Dmg {
                    let ghost s0 = objects@;
                    let mut pos = objects.len();
                    proof {
                        assert(s0.take(pos as int) =~= s0);
                        assert(insert_by_x(s0, object) + s0.skip(pos as int) =~= insert_by_x(s0, object));
                    }
                    while pos > 0 && objects[pos - 1].x > object.x
                        invariant
                            pos <= objects.len(),
                            objects@ == s0,
                            insert_by_x(s0, object) == insert_by_x(s0.take(pos as int), object) + s0.skip(pos as int),
                            forall|a: int, b: int| 0 <= a < b < objects.len() ==> (#[trigger] objects@[a]).x <= (#[trigger] objects@[b]).x,
                            forall|k: int| pos <= k < objects.len() ==> (#[trigger] objects@[k]).x > object.x,
                        decreases pos,
                    {
                        proof {
                            let t = s0.take(pos as int);
                            assert(t.drop_last() =~= s0.take(pos - 1));
                            assert(t.last() == s0[pos - 1]);
                            assert(insert_by_x(t, object) == insert_by_x(s0.take(pos - 1), object).push(s0[pos - 1]));
                            assert(insert_by_x(s0.take(pos - 1), object).push(s0[pos - 1]) + s0.skip(pos as int)
                                =~= insert_by_x(s0.take(pos - 1), object) + s0.skip(pos - 1));
                        }
                        pos = pos - 1;
                    }
                    proof {
                        let t = s0.take(pos as int);
                        if pos == 0 {
                            assert(t =~= Seq::<ObjectData>::empty());
                            assert(insert_by_x(t, object) =~= seq![object]);
                        } else {
                            assert(t.last() == s0[pos - 1]);
                            assert(insert_by_x(t, object) == t.push(object));
                        }
                        assert(t.push(object) + s0.skip(pos as int) =~= s0.insert(pos as int, object));
                    }
                    objects.insert(pos, object);
                } else {
                    objects.push(object);
                }
            }
            i = i + 1;
        }
        objects
    }

    /// Whether the background pixel at priority-buffer `offset` hides an object pixel.
    pub open spec fn spec_background_has_priority(&self, priority: bool, offset: int) -> bool {
        let p = self.bg_priority_map@[offset];
        if self.gb_mode == GameBoyMode::Dmg {
            priority && p & PRIORITY_COLOR0 == 0
        } else {
            p & PRIORITY_COLOR0 == 0 && self.lcdc.bg_window_enabled && (priority || p & PRIORITY_ATTRIBUTE != 0)
        }
    }

    fn background_has_priority(&self, priority: bool, offset: usize) -> (r: bool)
        requires
            self.wf(),
            offset < PRIORITY_SIZE,
        ensures
            r == self.spec_background_has_priority(priority, offset as int),
    {
        let p = self.bg_priority_map[offset];
        if self.gb_mode == GameBoyMode::Dmg {
            return priority && p & PRIORITY_COLOR0 == 0;
        }
        if p & PRIORITY_COLOR0 != 0 {
            false
        } else if !self.lcdc.bg_window_enabled {
            false
        } else {
            priority || p & PRIORITY_ATTRIBUTE != 0
        }
    }

    /// Colour index of object `o` at screen column `col` on line LY, after the flips.
    pub open spec fn obj_color_index(&self, o: ObjectData, col: int, cgb: bool) -> u8 {
        let off = self.line - o.y;
        let lo = if o.yflip { self.object_height() - 1 - off } else { off };
        let row = o.tile * 16 + lo * 2;
        let xo = col - o.x;
        let bit = (if o.xflip { xo } else { 7 - xo }) as u8;
        if cgb && o.bank {
            spec_color_index(self.vram1@[row], self.vram1@[row + 1], bit)
        } else {
            spec_color_index(self.vram@[row], self.vram@[row + 1], bit)
        }
    }

    /// Whether object `o` draws column `col` of line LY: it covers the column on screen, its
    /// colour index there is not 0, and the background does not have priority.
    pub open spec fn paints(&self, o: ObjectData, col: int, cgb: bool) -> bool {
        &&& o.x <= col < o.x + 8
        &&& 0 <= col < 160
        &&& self.obj_color_index(o, col, cgb) != 0
        &&& !self.spec_background_has_priority(o.priority, self.line * 160 + col)
    }

    /// The colour object `o` draws at `col`: OBP0/OBP1 shades on DMG, object palette RAM on CGB.
    pub open spec fn obj_pixel(&self, o: ObjectData, col: int, cgb: bool) -> Pixel {
        let ci = self.obj_color_index(o, col, cgb);
        if cgb {
            spec_cgb_pixel(self.object_palette@, o.cgb_palette, ci)
        } else {
            spec_dmg_pixel(if o.palette_one { self.palettes[2] } else { self.palettes[1] }, ci)
        }
    }

    /// The colour at `col` once `objs[n..]` are drawn over `below`: that of the first of them
    /// that paints the column, or `below` if none does.
    pub open spec fn top_object_pixel(&self, objs: Seq<ObjectData>, n: int, col: int, cgb: bool, below: Pixel) -> Pixel
        decreases objs.len() - n,
    {
        if n < 0 || n >= objs.len() {
            below
        } else if self.paints(objs[n], col, cgb) {
            self.obj_pixel(objs[n], col, cgb)
        } else {
            self.top_object_pixel(objs, n + 1, col, cgb, below)
        }
    }

    /// Draws the objects of line LY, last-listed first, so that earlier entries end on top.
    fn render_object_line(&mut self)
        requires
            old(self).wf(),
            old(self).line < 144,
        ensures
            final(self).wf(),
            old(self).row_drawn(final(self), old(self).line as int),
            final(self).bg_priority_map@ == old(self).bg_priority_map@,
            final(self).wly == old(self).wly,
            forall|c: int|
                0 <= c < 160 ==> #[trigger] pixel_at(final(self).canvas_buffer@, old(self).line as int, c)
                    == old(self).top_object_pixel(old(self).collected(40), 0, c, false, pixel_at(old(self).canvas_buffer@, old(self).line as int, c)),
    {
        self.render_objects(false);
    }

    fn render_object_line_cgb(&mut self)
        requires
            old(self).wf(),
            old(self).line < 144,
        ensures
            final(self).wf(),
            old(self).row_drawn(final(self), old(self).line as int),
            final(self).bg_priority_map@ == old(self).bg_priority_map@,
            final(self).wly == old(self).wly,
            forall|c: int|
                0 <= c < 160 ==> #[trigger] pixel_at(final(self).canvas_buffer@, old(self).line as int, c)
                    == old(self).top_object_pixel(old(self).collected(40), 0, c, true, pixel_at(old(self).canvas_buffer@, old(self).line as int, c)),
    {
        self.render_objects(true);
    }

    /// Object pixels with colour index 0 are transparent; the others are drawn unless the
    /// background has priority there. DMG colours come from OBP0/OBP1, CGB ones from the
    /// object palette RAM.
    #[verifier::rlimit(100)]
    fn render_objects(&mut self, cgb: bool)
        requires
            old(self).wf(),
            old(self).line < 144,
        ensures
            final(self).wf(),
            old(self).row_drawn(final(self), old(self).line as int),
            final(self).bg_priority_map@ == old(self).bg_priority_map@,
            final(self).wly == old(self).wly,
            forall|c: int|
                0 <= c < 160 ==> #[trigger] pixel_at(final(self).canvas_buffer@, old(self).line as int, c)
                    == old(self).top_object_pixel(old(self).collected(40), 0, c, cgb, pixel_at(old(self).canvas_buffer@, old(self).line as int, c)),
    {
        let ghost g0 = *self;
        let object_height: i16 = if self.lcdc.sprite_size { 16 } else { 8 };
        let line = self.line;
        let objects = self.fetch_objects();
        let ghost objs = objects@;
        let mut n = objects.len();
        while n > 0
            invariant
                self.wf(),
                line == g0.line,
                line < 144,
                n <= objects.len(),
                objs == objects@,
                objs == g0.collected(40),
                objects.len() <= MAX_OBJECTS_PER_LINE,
                object_height == g0.object_height(),
                forall|k: int| 0 <= k < objects.len() ==> (#[trigger] objects@[k]).y <= line < objects@[k].y + object_height,
                forall|k: int| 0 <= k < objects.len() ==> -8 <= #[trigger] objects@[k].x < 248 && objects@[k].cgb_palette <= 7,
                g0.row_drawn(self, line as int),
                self.bg_priority_map@ == g0.bg_priority_map@,
                self.wly == g0.wly,
                forall|c: int|
                    0 <= c < 160 ==> #[trigger] pixel_at(self.canvas_buffer@, line as int, c) == g0.top_object_pixel(
                        objs,
                        n as int,
                        c,
                        cgb,
                        pixel_at(g0.canvas_buffer@, line as int, c),
                    ),
            decreases n,
        {
            n = n - 1;
            let object = objects[n];
            assert(-8 <= objects@[n as int].x < 248 && objects@[n as int].cgb_palette <= 7);
            assert(objects@[n as int].y <= line < objects@[n as int].y + object_height);
            let offset_in = line as i16 - object.y;
            let line_offset = if object.yflip { object_height - 1 - offset_in } else { offset_in };
            let row = object.tile as usize * 16 + line_offset as usize * 2;
            let (lo, hi) = if cgb && object.bank {
                (self.vram1[row], self.vram1[row + 1])
            } else {
                (self.vram[row], self.vram[row + 1])
            };
            let mut x: u8 = 0;
            while x < 8
                invariant
                    self.wf(),
                    line == g0.line,
                    line < 144,
                    0 <= n < objects.len(),
                    objs == objects@,
                    object == objs[n as int],
                    -8 <= object.x < 248,
                    object.cgb_palette <= 7,
                    object.y <= line < object.y + object_height,
                    object_height == g0.object_height(),
                    row == object.tile * 16 + (if object.yflip { object_height - 1 - (line - object.y) } else { line - object.y }) * 2,
                    cgb && object.bank ==> lo == g0.vram1@[row as int] && hi == g0.vram1@[row + 1],
                    !(cgb && object.bank) ==> lo == g0.vram@[row as int] && hi == g0.vram@[row + 1],
                    x <= 8,
                    g0.row_drawn(self, line as int),
                    self.bg_priority_map@ == g0.bg_priority_map@,
                    self.wly == g0.wly,
                    forall|c: int|
                        0 <= c < 160 ==> #[trigger] pixel_at(self.canvas_buffer@, line as int, c) == if object.x <= c
                            < object.x + x && g0.paints(object, c, cgb) {
                            g0.obj_pixel(object, c, cgb)
                        } else {
                            g0.top_object_pixel(objs, n + 1, c, cgb, pixel_at(g0.canvas_buffer@, line as int, c))
                        },
                decreases 8 - x,
            {
                let x_offset = object.x + x as i16;
                if 0 <= x_offset && x_offset < 160 {
                    let bit = if object.xflip { x } else { 7 - x };
                    let color_index = get_color_index(lo, hi, bit);
                    assert(color_index == g0.obj_color_index(object, x_offset as int, cgb));
                    if color_index != 0 {
                        let offset = line as usize * SCREEN_WIDTH + x_offset as usize;
                        if !self.background_has_priority(object.priority, offset) {
                            let pixel = if cgb {
                                cgb_pixel(&self.object_palette, object.cgb_palette, color_index)
                            } else {
                                let palette = if object.palette_one { self.palettes[2] } else { self.palettes[1] };
                                dmg_pixel(palette, color_index)
                            };
                            assert(pixel == g0.obj_pixel(object, x_offset as int, cgb));
                            let ghost before = *self;
                            self.draw_pixel_to_buffer(x_offset as usize, line as usize, pixel);
                            assert forall|c: int| 0 <= c < 160 && c != x_offset implies #[trigger] pixel_at(self.canvas_buffer@, line as int, c)
                                == pixel_at(before.canvas_buffer@, line as int, c) by {}
                        }
                    }
                }
                x = x + 1;
            }
        }
    }

}

/// Palette RAM after writing `bytes` one by one with auto-increment from index `start`.
pub open spec fn palette_writes(pal: Seq<u8>, start: int, bytes: Seq<u8>) -> Seq<u8>
    decreases bytes.len(),
{
    if bytes.len() == 0 {
        pal
    } else {
        palette_writes(pal, start, bytes.drop_last()).update((start + bytes.len() - 1) % 64, bytes.last())
    }
}

proof fn lemma_palette_prefix(pal: Seq<u8>, bytes: Seq<u8>)
    requires
        pal.len() == 64,
        bytes.len() <= 64,
    ensures
        palette_writes(pal, 0, bytes).len() == 64,
        forall|j: int| 0 <= j < bytes.len() ==> palette_writes(pal, 0, bytes)[j] == bytes[j],
        forall|j: int| bytes.len() <= j < 64 ==> palette_writes(pal, 0, bytes)[j] == pal[j],
    decreases bytes.len(),
{
    if bytes.len() > 0 {
        let prev = bytes.drop_last();
        lemma_palette_prefix(pal, prev);
        let k = bytes.len() - 1;
        assert((0 + bytes.len() - 1) % 64 == k);
        assert forall|j: int| 0 <= j < bytes.len() implies palette_writes(pal, 0, bytes)[j] == bytes[j] by {
            if j < k {
                assert(prev[j] == bytes[j]);
            }
        }
    }
}

/// Writing 64 bytes through BCPD/OCPD with auto-increment from index 0 leaves exactly those
/// bytes in palette RAM, so reading them back gives them again. Each write is the update that
/// `set_cgb_bg_palette` performs: store at the index, then advance it by one (mod 64).
pub proof fn lemma_palette_round_trip(pal: Seq<u8>, bytes: Seq<u8>, v: u8)
    requires
        pal.len() == 64,
        bytes.len() == 64,
    ensures
        palette_writes(pal, 0, bytes) == bytes,
        palette_writes(pal, 0, bytes.push(v)) == palette_writes(pal, 0, bytes).update(0, v),
{
    lemma_palette_prefix(pal, bytes);
    assert(palette_writes(pal, 0, bytes) =~= bytes);
    assert(bytes.push(v).drop_last() =~= bytes);
}

/// Frame order: V-blank is raised exactly by the step that leaves H-blank on line 143 (which
/// enters V-blank on line 144); LY otherwise stays, grows by one, or wraps from 153 to 0 into
/// the OAM scan of a new frame.
pub proof fn lemma_frame_order(g: Gpu, n: Gpu, c: u8)
    requires
        g.wf(),
        g.lcdc.display_enabled,
        g.timing_post(&n, c),
    ensures
        (g.raised(c) & VBLANK_BIT != 0) <==> (g.transition_due(c) && g.stat.mode == Mode::HorizontalBlank
            && g.line == 143),
        n.line == g.line || n.line == g.line + 1 || (g.line == 153 && n.line == 0),
        g.stat.mode == Mode::HorizontalBlank && n.stat.mode == Mode::VerticalBlank ==> g.line == 143
            && n.line == 144,
        n.line == 0 && g.line != 0 ==> g.line == 153 && n.stat.mode == Mode::OAMAccess,
{
    reveal(Gpu::timing_post);
    reveal(Gpu::raised);
    let due = g.transition_due(c);
    let mode = g.stat.mode;
    let m2 = next_mode(mode, g.line);
    let l2 = next_line(mode, g.line);
    let vb: u8 = if mode == Mode::HorizontalBlank && m2 == Mode::VerticalBlank { VBLANK_BIT } else { 0 };
    let ms: u8 = if m2 != mode { g.mode_stat_bit(m2) } else { 0 };
    let ls: u8 = if l2 != g.line || mode == Mode::VerticalBlank { g.line_stat_bit(l2) } else { 0 };
    assert((vb == 0 || vb == 1) && (ms == 0 || ms == 2) && (ls == 0 || ls == 2) ==> ((((vb | ms) | ls) & 1
        != 0) <==> vb == 1)) by (bit_vector);
    assert(0u8 & 1 == 0) by (bit_vector);
}

} // verus!
