use vstd::prelude::*;

use crate::cartridge::{byte_or_ff, Cartridge};
use crate::gpu::{GameBoyMode, Gpu, LCD_STAT_BIT, VBLANK_BIT, VRAM_SIZE};
use crate::interrupts::InterruptFlags;
use crate::joypad::Joypad;
use crate::stat::Mode;
use crate::timer::{Frequency, Timer};

verus! {

pub const WRAM_SIZE: usize = 0x8000;
pub const HRAM_SIZE: usize = 0x7F;

#[derive(Copy, Clone, Debug, PartialEq, Eq, Structural)]
pub enum DmaMode {
    Gdma,
    Hdma,
}

/// The bus: work and high RAM, interrupt registers, timers, PPU, cartridge, joypad, boot ROM
/// overlay and the VRAM DMA engine.
pub struct Memory {
    pub wram: Vec<u8>,
    pub hram: Vec<u8>,
    pub interrupt_enable: InterruptFlags,
    pub interrupt_flags: InterruptFlags,
    pub timer: Timer,
    pub divider: Timer,
    pub gpu: Gpu,
    pub cartridge: Cartridge,
    pub joypad: Joypad,
    pub key0: u8,
    pub wram_bank: u8,
    pub boot_rom: Vec<u8>,
    pub boot_active: bool,
    pub dma_source: u16,
    pub dma_destination: u16,
    pub dma_length: u16,
    pub dma_mode: DmaMode,
    pub hblank_started: bool,
    pub serial: u8,
    pub serial_control: u8,
}

pub open spec fn frequency_bits(f: Frequency) -> u8 {
    match f {
        Frequency::F4096 => 0,
        Frequency::F262144 => 1,
        Frequency::F65536 => 2,
        Frequency::F16384 => 3,
    }
}

pub open spec fn frequency_of(bits: u8) -> Frequency {
    if bits == 0 {
        Frequency::F4096
    } else if bits == 1 {
        Frequency::F262144
    } else if bits == 2 {
        Frequency::F65536
    } else {
        Frequency::F16384
    }
}

impl Memory {
    pub open spec fn wf(&self) -> bool {
        &&& self.wram@.len() == WRAM_SIZE
        &&& self.hram@.len() == HRAM_SIZE
        &&& 1 <= self.wram_bank <= 7
        &&& self.gpu.wf()
        &&& self.gpu.interrupts_fired == 0
        &&& self.cartridge.wf()
        &&& self.timer.wf()
        &&& self.divider.wf()
        &&& self.divider.frequency == Frequency::F16384
        &&& self.divider.enabled
        &&& self.joypad.wf()
        &&& self.dma_length <= 0x80
    }

    /// Index into work RAM for an address in $C000–$FDFF (the echo area mirrors $C000–$DDFF).
    pub open spec fn wram_index(&self, a: u16) -> int {
        let base: int = if a >= 0xE000 { a - 0xE000 } else { a - 0xC000 };
        if base < 0x1000 {
            base
        } else {
            self.wram_bank * 0x1000 + (base - 0x1000)
        }
    }

    pub open spec fn spec_tac(&self) -> u8 {
        ((if self.timer.enabled { 4u8 } else { 0u8 }) | frequency_bits(self.timer.frequency)) as u8
    }

    /// What a read of I/O register `a` ($FF00–$FF7F) returns.
    pub open spec fn spec_read_io(&self, a: u16) -> u8 {
        if a == 0xFF00 {
            self.joypad.spec_read_input()
        } else if a == 0xFF01 {
            self.serial
        } else if a == 0xFF02 {
            self.serial_control
        } else if a == 0xFF04 {
            self.divider.counter
        } else if a == 0xFF05 {
            self.timer.counter
        } else if a == 0xFF06 {
            self.timer.modulo
        } else if a == 0xFF07 {
            self.spec_tac()
        } else if a == 0xFF0F {
            self.interrupt_flags.spec_to_byte()
        } else if a == 0xFF40 {
            self.gpu.lcdc.spec_to_byte()
        } else if a == 0xFF41 {
            (self.gpu.stat.spec_to_byte() | 0x80) as u8
        } else if a == 0xFF42 {
            self.gpu.scroll_y
        } else if a == 0xFF43 {
            self.gpu.scroll_x
        } else if a == 0xFF44 {
            self.gpu.line
        } else if a == 0xFF45 {
            self.gpu.line_check
        } else if a == 0xFF47 {
            self.gpu.palettes[0]
        } else if a == 0xFF48 {
            self.gpu.palettes[1]
        } else if a == 0xFF49 {
            self.gpu.palettes[2]
        } else if a == 0xFF4A {
            self.gpu.window_y
        } else if a == 0xFF4B {
            self.gpu.window_x
        } else if a == 0xFF4C {
            self.key0
        } else if a == 0xFF4D {
            self.gpu.speed
        } else if a == 0xFF4F {
            (self.gpu.vram_bank | 0xFE) as u8
        } else if a == 0xFF55 {
            self.dma_length as u8
        } else if a == 0xFF68 {
            (self.gpu.bgpi | if self.gpu.auto_increment_bg { 0x80u8 } else { 0u8 }) as u8
        } else if a == 0xFF69 {
            self.gpu.bg_palette@[self.gpu.bgpi as int]
        } else if a == 0xFF6A {
            (self.gpu.obpi | if self.gpu.auto_increment_object { 0x80u8 } else { 0u8 }) as u8
        } else if a == 0xFF6B {
            self.gpu.object_palette@[self.gpu.obpi as int]
        } else if a == 0xFF70 {
            self.wram_bank
        } else {
            0xFF
        }
    }

    /// What a CPU read of `a` returns.
    pub open spec fn spec_read(&self, a: u16) -> u8 {
        if a < 0x4000 {
            if self.boot_active && (a <= 0xFF || 0x200 <= a <= 0x8FF) {
                byte_or_ff(self.boot_rom@, a as int)
            } else {
                self.cartridge.spec_read(a)
            }
        } else if a < 0x8000 {
            self.cartridge.spec_read(a)
        } else if a < 0xA000 {
            self.gpu.spec_read_vram(a - 0x8000)
        } else if a < 0xC000 {
            self.cartridge.spec_read_ram(a)
        } else if a < 0xFE00 {
            self.wram@[self.wram_index(a)]
        } else if a < 0xFEA0 {
            self.gpu.oam@[a - 0xFE00]
        } else if a < 0xFF00 {
            0xFF
        } else if a < 0xFF80 {
            self.spec_read_io(a)
        } else if a < 0xFFFF {
            self.hram@[a - 0xFF80]
        } else {
            self.interrupt_enable.spec_to_byte()
        }
    }

    /// Whether an enabled interrupt is flagged.
    pub open spec fn pending(&self) -> bool {
        (self.interrupt_enable.vblank && self.interrupt_flags.vblank) || (self.interrupt_enable.lcd_stat
            && self.interrupt_flags.lcd_stat) || (self.interrupt_enable.timer && self.interrupt_flags.timer)
            || (self.interrupt_enable.serial && self.interrupt_flags.serial) || (
        self.interrupt_enable.joypad && self.interrupt_flags.joypad)
    }

    /// The bus for `cartridge`. With a boot ROM the machine starts in CGB mode with the boot ROM
    /// mapped; without one the cartridge's CGB flag ($80 or $C0) decides the mode.
    pub fn new(cartridge: Cartridge, boot: Option<Vec<u8>>) -> (r: Memory)
        requires
            cartridge.wf(),
        ensures
            r.wf(),
            r.cartridge == cartridge,
            r.boot_active == boot.is_some(),
            boot.is_some() ==> r.boot_rom@ == boot.unwrap()@ && r.gpu.gb_mode == GameBoyMode::Cgb,
            boot.is_none() ==> r.gpu.gb_mode == if cartridge.cgb_flag() == 0x80 || cartridge.cgb_flag()
                == 0xC0 {
                GameBoyMode::Cgb
            } else {
                GameBoyMode::Dmg
            },
            r.gpu.line == 0 && r.gpu.cycles == 0 && r.gpu.wly == 0,
            r.gpu.stat.mode == Mode::HorizontalBlank,
            !r.gpu.lcdc.display_enabled,
            r.gpu.vram_bank == 0 && r.gpu.bgpi == 0 && r.gpu.obpi == 0,
            !r.gpu.auto_increment_bg && !r.gpu.auto_increment_object,
            r.gpu.palettes == [0u8, 0u8, 0u8],
            r.gpu.boot_rom == boot.is_some(),
            forall|i: int| 0 <= i < VRAM_SIZE ==> r.gpu.vram@[i] == 0 && r.gpu.vram1@[i] == 0,
            forall|i: int| 0 <= i < 160 ==> r.gpu.oam@[i] == 0,
            forall|i: int| 0 <= i < 64 ==> r.gpu.bg_palette@[i] == 0 && r.gpu.object_palette@[i] == 0,
            r.wram_bank == 1,
            r.dma_length == 0,
            r.serial == 0 && r.serial_control == 0,
            forall|i: int| 0 <= i < WRAM_SIZE ==> r.wram@[i] == 0,
            forall|i: int| 0 <= i < HRAM_SIZE ==> r.hram@[i] == 0,
            r.interrupt_enable == InterruptFlags::spec_from_byte(0),
            r.interrupt_flags == InterruptFlags::spec_from_byte(0),
            r.timer == (Timer { frequency: Frequency::F4096, counter: 0, modulo: 0, enabled: false, cycles: 0 }),
            r.divider == (Timer { frequency: Frequency::F16384, counter: 0, modulo: 0, enabled: true, cycles: 0 }),
    {
        let mut divider = Timer::new(Frequency::F16384);
        divider.enabled = true;
        let (boot_rom, boot_active, gb_mode) = match boot {
            Some(b) => (b, true, GameBoyMode::Cgb),
            None => {
                let flag = cartridge.get_cgb_flag();
                let mode = if flag == 0x80 || flag == 0xC0 {
                    GameBoyMode::Cgb
                } else {
                    GameBoyMode::Dmg
                };
                (Vec::new(), false, mode)
            },
        };
        assert(0u8 & 0x01 == 0 && 0u8 & 0x02 == 0 && 0u8 & 0x04 == 0 && 0u8 & 0x08 == 0 && 0u8 & 0x10 == 0)
            by (bit_vector);
        Memory {
            wram: vec![0u8; WRAM_SIZE],
            hram: vec![0u8; HRAM_SIZE],
            interrupt_enable: InterruptFlags::new(),
            interrupt_flags: InterruptFlags::new(),
            timer: Timer::new(Frequency::F4096),
            divider,
            gpu: Gpu::new(gb_mode, boot_active),
            cartridge,
            joypad: Joypad::new(),
            key0: 0,
            wram_bank: 1,
            boot_rom,
            boot_active,
            dma_source: 0,
            dma_destination: 0,
            dma_length: 0,
            dma_mode: DmaMode::Gdma,
            hblank_started: false,
            serial: 0,
            serial_control: 0,
        }
    }

    pub fn interrupt_called(&self) -> (r: bool)
        ensures
            r == self.pending(),
    {
        (self.interrupt_enable.joypad && self.interrupt_flags.joypad) || (self.interrupt_enable.lcd_stat
            && self.interrupt_flags.lcd_stat) || (self.interrupt_enable.serial && self.interrupt_flags.serial)
            || (self.interrupt_enable.timer && self.interrupt_flags.timer) || (self.interrupt_enable.vblank
            && self.interrupt_flags.vblank)
    }

    fn wram_offset(&self, a: u16) -> (r: usize)
        requires
            self.wf(),
            0xC000 <= a < 0xFE00,
        ensures
            r == self.wram_index(a),
            r < WRAM_SIZE,
    {
        let base: usize = if a >= 0xE000 { a as usize - 0xE000 } else { a as usize - 0xC000 };
        if base < 0x1000 {
            base
        } else {
            self.wram_bank as usize * 0x1000 + (base - 0x1000)
        }
    }

    fn read_io(&self, address: u16) -> (r: u8)
        requires
            self.wf(),
            0xFF00 <= address < 0xFF80,
        ensures
            r == self.spec_read_io(address),
    {
        match address {
            0xFF00 => self.joypad.read_input(),
            0xFF01 => self.serial,
            0xFF02 => self.serial_control,
            0xFF04 => self.divider.counter,
            0xFF05 => self.timer.counter,
            0xFF06 => self.timer.modulo,
            0xFF07 => {
                let enabled: u8 = if self.timer.enabled { 4 } else { 0 };
                let frequency: u8 = match self.timer.frequency {
                    Frequency::F4096 => 0,
                    Frequency::F262144 => 1,
                    Frequency::F65536 => 2,
                    Frequency::F16384 => 3,
                };
                enabled | frequency
            },
            0xFF0F => self.interrupt_flags.to_byte(),
            0xFF40 => self.gpu.lcdc.to_byte(),
            0xFF41 => self.gpu.stat.to_byte() | 0x80,
            0xFF42 => self.gpu.scroll_y,
            0xFF43 => self.gpu.scroll_x,
            0xFF44 => self.gpu.line,
            0xFF45 => self.gpu.line_check,
            0xFF47 => self.gpu.palettes[0],
            0xFF48 => self.gpu.palettes[1],
            0xFF49 => self.gpu.palettes[2],
            0xFF4A => self.gpu.window_y,
            0xFF4B => self.gpu.window_x,
            0xFF4C => self.key0,
            0xFF4D => self.gpu.speed,
            0xFF4F => self.gpu.vram_bank | 0xFE,
            0xFF55 => self.dma_length as u8,
            0xFF68 => self.gpu.bgpi | if self.gpu.auto_increment_bg { 0x80 } else { 0x00 },
            0xFF69 => self.gpu.bg_palette[self.gpu.bgpi as usize],
            0xFF6A => self.gpu.obpi | if self.gpu.auto_increment_object { 0x80 } else { 0x00 },
            0xFF6B => self.gpu.object_palette[self.gpu.obpi as usize],
            0xFF70 => self.wram_bank,
            _ => 0xFF,
        }
    }

    pub fn read_byte(&self, address: u16) -> (r: u8)
        requires
            self.wf(),
        ensures
            r == self.spec_read(address),
    {
        if address < 0x4000 {
            if self.boot_active && (address <= 0xFF || (0x200 <= address && address <= 0x8FF)) {
                let i = address as usize;
                if i < self.boot_rom.len() {
                    self.boot_rom[i]
                } else {
                    0xFF
                }
            } else {
                self.cartridge.read(address)
            }
        } else if address < 0x8000 {
            self.cartridge.read(address)
        } else if address < 0xA000 {
            self.gpu.read_vram(address as usize - 0x8000)
        } else if address < 0xC000 {
            self.cartridge.read_ram(address)
        } else if address < 0xFE00 {
            self.wram[self.wram_offset(address)]
        } else if address < 0xFEA0 {
            self.gpu.oam[address as usize - 0xFE00]
        } else if address < 0xFF00 {
            0xFF
        } else if address < 0xFF80 {
            self.read_io(address)
        } else if address < 0xFFFF {
            self.hram[address as usize - 0xFF80]
        } else {
            self.interrupt_enable.to_byte()
        }
    }
}

impl Memory {
    /// The bus after a write of `v` to I/O register `a`.
    pub open spec fn io_write_post(&self, new: &Memory, a: u16, v: u8) -> bool {
        if a == 0xFF00 {
            *new == Memory { joypad: Joypad { selected_buttons: v, ..self.joypad }, ..*self }
        } else if a == 0xFF01 {
            *new == Memory { serial: v, ..*self }
        } else if a == 0xFF02 {
            *new == Memory { serial_control: v, ..*self }
        } else if a == 0xFF04 {
            *new == Memory { divider: Timer { counter: 0, ..self.divider }, ..*self }
        } else if a == 0xFF05 {
            *new == Memory { timer: Timer { counter: v, ..self.timer }, ..*self }
        } else if a == 0xFF06 {
            *new == Memory { timer: Timer { modulo: v, ..self.timer }, ..*self }
        } else if a == 0xFF07 {
            *new == Memory {
                timer: Timer {
                    enabled: v & 4 != 0,
                    frequency: frequency_of(v & 3),
                    cycles: (self.timer.cycles as nat % frequency_of(v & 3).spec_cycles_per_tick()) as usize,
                    ..self.timer
                },
                ..*self
            }
        } else if a == 0xFF0F {
            *new == Memory { interrupt_flags: InterruptFlags::spec_from_byte(v), ..*self }
        } else if a == 0xFF40 {
            *new == Memory { gpu: self.gpu.spec_write_lcdc(v), ..*self }
        } else if a == 0xFF41 {
            *new == Memory {
                gpu: Gpu {
                    stat: crate::stat::Stat {
                        coincidence_interrupt: v & 0x40 != 0,
                        oam_interrupt: v & 0x20 != 0,
                        v_blank_interrupt: v & 0x10 != 0,
                        h_blank_interrupt: v & 0x08 != 0,
                        ..self.gpu.stat
                    },
                    ..self.gpu
                },
                ..*self
            }
        } else if a == 0xFF42 {
            *new == Memory { gpu: Gpu { scroll_y: v, ..self.gpu }, ..*self }
        } else if a == 0xFF43 {
            *new == Memory { gpu: Gpu { scroll_x: v, ..self.gpu }, ..*self }
        } else if a == 0xFF45 {
            *new == Memory { gpu: Gpu { line_check: v, ..self.gpu }, ..*self }
        } else if a == 0xFF46 {
            &&& *new == Memory { gpu: new.gpu, ..*self }
            &&& new.gpu == Gpu { oam: new.gpu.oam, ..self.gpu }
            &&& new.gpu.oam@.len() == 160
            &&& forall|i: int| 0 <= i < 160 ==> #[trigger] new.gpu.oam@[i] == self.spec_read((v as int * 256 + i) as u16)
        } else if 0xFF47 <= a <= 0xFF49 {
            &&& *new == Memory { gpu: Gpu { palettes: new.gpu.palettes, ..self.gpu }, ..*self }
            &&& new.gpu.palettes@ == self.gpu.palettes@.update(a - 0xFF47, v)
        } else if a == 0xFF4A {
            *new == Memory { gpu: Gpu { window_y: v, ..self.gpu }, ..*self }
        } else if a == 0xFF4B {
            *new == Memory { gpu: Gpu { window_x: v, ..self.gpu }, ..*self }
        } else if a == 0xFF4C {
            *new == Memory {
                key0: v,
                gpu: Gpu {
                    gb_mode: if v == 0x80 || v == 0xC0 { GameBoyMode::Cgb } else { GameBoyMode::Dmg },
                    ..self.gpu
                },
                ..*self
            }
        } else if a == 0xFF4F {
            *new == Memory { gpu: Gpu { vram_bank: v & 1, ..self.gpu }, ..*self }
        } else if a == 0xFF50 {
            *new == Memory { boot_active: self.boot_active && v == 0, ..*self }
        } else if a == 0xFF51 {
            *new == Memory { dma_source: ((self.dma_source & 0x00FF) | ((v as u16) << 8u16)) as u16, ..*self }
        } else if a == 0xFF52 {
            *new == Memory { dma_source: ((self.dma_source & 0xFF00) | (v as u16 & 0xF0)) as u16, ..*self }
        } else if a == 0xFF53 {
            *new == Memory {
                dma_destination: ((self.dma_destination & 0x00FF) | ((v as u16) << 8u16)) as u16,
                ..*self
            }
        } else if a == 0xFF54 {
            *new == Memory {
                dma_destination: ((self.dma_destination & 0xFF00) | (v as u16 & 0xF0)) as u16,
                ..*self
            }
        } else if a == 0xFF55 {
            *new == Memory {
                dma_mode: if v & 0x80 != 0 { DmaMode::Hdma } else { DmaMode::Gdma },
                dma_length: ((v & 0x7F) + 1) as u16,
                ..*self
            }
        } else if a == 0xFF68 {
            *new == Memory {
                gpu: Gpu { bgpi: v & 0x3F, auto_increment_bg: v & 0x80 != 0, ..self.gpu },
                ..*self
            }
        } else if a == 0xFF69 {
            &&& *new == Memory { gpu: Gpu { bg_palette: new.gpu.bg_palette, bgpi: new.gpu.bgpi, ..self.gpu }, ..*self }
            &&& new.gpu.bg_palette@ == self.gpu.bg_palette@.update(self.gpu.bgpi as int, v)
            &&& new.gpu.bgpi == if self.gpu.auto_increment_bg { ((self.gpu.bgpi + 1) % 64) as u8 } else { self.gpu.bgpi }
        } else if a == 0xFF6A {
            *new == Memory {
                gpu: Gpu { obpi: v & 0x3F, auto_increment_object: v & 0x80 != 0, ..self.gpu },
                ..*self
            }
        } else if a == 0xFF6B {
            &&& *new == Memory { gpu: Gpu { object_palette: new.gpu.object_palette, obpi: new.gpu.obpi, ..self.gpu }, ..*self }
            &&& new.gpu.object_palette@ == self.gpu.object_palette@.update(self.gpu.obpi as int, v)
            &&& new.gpu.obpi == if self.gpu.auto_increment_object { ((self.gpu.obpi + 1) % 64) as u8 } else { self.gpu.obpi }
        } else if a == 0xFF70 {
            *new == Memory { wram_bank: if v & 7 == 0 { 1 } else { v & 7 }, ..*self }
        } else {
            *new == *self
        }
    }

    /// OAM DMA: copies the 160 bytes at `value` × $100 to $FE00–$FE9F.
    fn oam_dma(&mut self, value: u8)
        requires
            old(self).wf(),
        ensures
            final(self).wf(),
            old(self).io_write_post(final(self), 0xFF46, value),
    {
        let ghost m0 = *self;
        let start: u16 = (value as u16) * 256;
        let mut i: u16 = 0;
        while i < 160
            invariant
                self.wf(),
                m0.wf(),
                start == value as int * 256,
                i <= 160,
                *self == (Memory { gpu: self.gpu, ..m0 }),
                self.gpu == (Gpu { oam: self.gpu.oam, ..m0.gpu }),
                forall|j: int| 0 <= j < i ==> #[trigger] self.gpu.oam@[j] == m0.spec_read((value as int * 256 + j) as u16),
                forall|j: int| i <= j < 160 ==> #[trigger] self.gpu.oam@[j] == m0.gpu.oam@[j],
            decreases 160 - i,
        {
            let a: u16 = start + i;
            let byte = self.read_byte(a);
            assert(self.spec_read(a) == m0.spec_read(a));
            self.gpu.write_oam(i as usize, byte);
            i = i + 1;
        }
    }

    fn write_io(&mut self, address: u16, value: u8)
        requires
            old(self).wf(),
            0xFF00 <= address < 0xFF80,
        ensures
            final(self).wf(),
            old(self).io_write_post(final(self), address, value),
    {
        if address < 0xFF40 {
            self.write_io_system(address, value);
        } else if address < 0xFF46 {
            self.write_io_lcd(address, value);
        } else if address < 0xFF50 {
            self.write_io_video(address, value);
        } else if address < 0xFF60 {
            self.write_io_dma(address, value);
        } else {
            self.write_io_cgb(address, value);
        }
    }

    /// Joypad, serial, timer and interrupt-flag registers.
    fn write_io_system(&mut self, address: u16, value: u8)
        requires
            old(self).wf(),
            0xFF00 <= address < 0xFF40,
        ensures
            final(self).wf(),
            old(self).io_write_post(final(self), address, value),
    {
        match address {
            0xFF00 => self.joypad.write(value),
            0xFF01 => self.serial = value,
            0xFF02 => self.serial_control = value,
            0xFF04 => self.divider.counter = 0,
            0xFF05 => self.timer.counter = value,
            0xFF06 => self.timer.modulo = value,
            0xFF07 => {
                self.timer.enabled = value & 4 != 0;
                let bits = value & 3;
                let frequency = if bits == 0 {
                    Frequency::F4096
                } else if bits == 1 {
                    Frequency::F262144
                } else if bits == 2 {
                    Frequency::F65536
                } else {
                    Frequency::F16384
                };
                self.timer.frequency = frequency;
                self.timer.cycles = self.timer.cycles % frequency.cycles_per_tick();
            },
            0xFF0F => self.interrupt_flags.from_byte(value),
            _ => {},
        }
    }

    /// LCD control, status, scroll and LY compare registers.
    #[verifier::rlimit(100)]
    fn write_io_lcd(&mut self, address: u16, value: u8)
        requires
            old(self).wf(),
            0xFF40 <= address < 0xFF46,
        ensures
            final(self).wf(),
            old(self).io_write_post(final(self), address, value),
    {
        match address {
            0xFF40 => self.gpu.write_lcdc(value),
            0xFF41 => self.gpu.stat.from_byte(value),
            0xFF42 => self.gpu.scroll_y = value,
            0xFF43 => self.gpu.scroll_x = value,
            0xFF45 => self.gpu.line_check = value,
            _ => {},
        }
    }

    /// OAM DMA, DMG palettes, window position, KEY0 and VRAM bank.
    #[verifier::rlimit(100)]
    fn write_io_video(&mut self, address: u16, value: u8)
        requires
            old(self).wf(),
            0xFF46 <= address < 0xFF50,
        ensures
            final(self).wf(),
            old(self).io_write_post(final(self), address, value),
    {
        match address {
            0xFF46 => self.oam_dma(value),
            0xFF47 => self.gpu.set_bg_palette(value),
            0xFF48 => self.gpu.set_dmg_object_palette(value, 0),
            0xFF49 => self.gpu.set_dmg_object_palette(value, 1),
            0xFF4A => self.gpu.window_y = value,
            0xFF4B => self.gpu.window_x = value,
            0xFF4C => {
                self.gpu.gb_mode = if value == 0x80 || value == 0xC0 {
                    GameBoyMode::Cgb
                } else {
                    GameBoyMode::Dmg
                };
                self.key0 = value;
            },
            0xFF4F => {
                self.gpu.vram_bank = value & 0x01;
                assert(value & 0x01 <= 1) by (bit_vector);
            },
            _ => {},
        }
    }

    /// Boot ROM latch and VRAM DMA registers.
    #[verifier::rlimit(100)]
    fn write_io_dma(&mut self, address: u16, value: u8)
        requires
            old(self).wf(),
            0xFF50 <= address < 0xFF60,
        ensures
            final(self).wf(),
            old(self).io_write_post(final(self), address, value),
    {
        match address {
            0xFF50 => {
                if value != 0 {
                    self.boot_active = false;
                }
            },
            0xFF51 => self.dma_source = (self.dma_source & 0x00FF) | ((value as u16) << 8),
            0xFF52 => self.dma_source = (self.dma_source & 0xFF00) | (value as u16 & 0xF0),
            0xFF53 => self.dma_destination = (self.dma_destination & 0x00FF) | ((value as u16) << 8),
            0xFF54 => self.dma_destination = (self.dma_destination & 0xFF00) | (value as u16 & 0xF0),
            0xFF55 => {
                self.dma_mode = if value & 0x80 != 0 {
                    DmaMode::Hdma
                } else {
                    DmaMode::Gdma
                };
                assert(value & 0x7F <= 0x7F) by (bit_vector);
                self.dma_length = ((value & 0x7F) + 1) as u16;
            },
            _ => {},
        }
    }

    /// CGB palettes and WRAM bank.
    #[verifier::rlimit(100)]
    fn write_io_cgb(&mut self, address: u16, value: u8)
        requires
            old(self).wf(),
            0xFF60 <= address < 0xFF80,
        ensures
            final(self).wf(),
            old(self).io_write_post(final(self), address, value),
    {
        match address {
            0xFF68 => {
                self.gpu.bgpi = value & 0x3F;
                self.gpu.auto_increment_bg = value & 0x80 != 0;
                assert(value & 0x3F < 64) by (bit_vector);
            },
            0xFF69 => self.gpu.set_cgb_bg_palette(value),
            0xFF6A => {
                self.gpu.obpi = value & 0x3F;
                self.gpu.auto_increment_object = value & 0x80 != 0;
                assert(value & 0x3F < 64) by (bit_vector);
            },
            0xFF6B => self.gpu.set_cgb_object_palette(value),
            0xFF70 => {
                let bank = value & 0x07;
                assert(value & 0x07 <= 7) by (bit_vector);
                self.wram_bank = if bank == 0 { 1 } else { bank };
            },
            _ => {},
        }
    }
}

impl Memory {
    /// The bus after a CPU write of `v` to `a`.
    pub open spec fn write_post(&self, new: &Memory, a: u16, v: u8) -> bool {
        if a < 0x8000 {
            &&& *new == Memory { cartridge: new.cartridge, ..*self }
            &&& self.cartridge.spec_write_post(&new.cartridge, a, v)
            &&& new.cartridge.rom() == self.cartridge.rom() && new.cartridge.ram() == self.cartridge.ram()
        } else if a < 0xA000 {
            &&& *new == Memory { gpu: new.gpu, ..*self }
            &&& if self.gpu.vram_bank == 1 {
                new.gpu == Gpu { vram1: new.gpu.vram1, ..self.gpu } && new.gpu.vram1@ == self.gpu.vram1@.update(
                    a - 0x8000,
                    v,
                )
            } else {
                new.gpu == Gpu { vram: new.gpu.vram, ..self.gpu } && new.gpu.vram@ == self.gpu.vram@.update(
                    a - 0x8000,
                    v,
                )
            }
        } else if a < 0xC000 {
            &&& *new == Memory { cartridge: new.cartridge, ..*self }
            &&& self.cartridge.write_ram_post(&new.cartridge, a, v)
        } else if a < 0xFE00 {
            &&& *new == Memory { wram: new.wram, ..*self }
            &&& new.wram@ == self.wram@.update(self.wram_index(a), v)
        } else if a < 0xFEA0 {
            &&& *new == Memory { gpu: Gpu { oam: new.gpu.oam, ..self.gpu }, ..*self }
            &&& new.gpu.oam@ == self.gpu.oam@.update(a - 0xFE00, v)
        } else if a < 0xFF00 {
            *new == *self
        } else if a < 0xFF80 {
            self.io_write_post(new, a, v)
        } else if a < 0xFFFF {
            &&& *new == Memory { hram: new.hram, ..*self }
            &&& new.hram@ == self.hram@.update(a - 0xFF80, v)
        } else {
            *new == Memory { interrupt_enable: InterruptFlags::spec_from_byte(v), ..*self }
        }
    }

    pub fn write_byte(&mut self, address: u16, value: u8)
        requires
            old(self).wf(),
        ensures
            final(self).wf(),
            old(self).write_post(final(self), address, value),
    {
        if address < 0x8000 {
            self.cartridge.write(address, value);
        } else if address < 0xA000 {
            self.gpu.write_vram(address as usize - 0x8000, value);
        } else if address < 0xC000 {
            self.cartridge.write_ram(address, value);
        } else if address < 0xFE00 {
            let i = self.wram_offset(address);
            self.wram.set(i, value);
        } else if address < 0xFEA0 {
            self.gpu.write_oam(address as usize - 0xFE00, value);
        } else if address < 0xFF00 {
        } else if address < 0xFF80 {
            self.write_io(address, value);
        } else if address < 0xFFFF {
            self.hram.set(address as usize - 0xFF80, value);
        } else {
            self.interrupt_enable.from_byte(value);
        }
    }

    /// Copies `bytes` bytes from the DMA source to VRAM at the DMA destination (within
    /// $8000–$9FFF, wrapping), and advances both by `bytes`.
    fn dma_copy(&mut self, bytes: u16)
        requires
            old(self).wf(),
            bytes <= 0x800,
        ensures
            final(self).wf(),
            *final(self) == (Memory {
                gpu: final(self).gpu,
                dma_source: final(self).dma_source,
                dma_destination: final(self).dma_destination,
                ..*old(self)
            }),
            final(self).gpu == (Gpu { vram: final(self).gpu.vram, vram1: final(self).gpu.vram1, ..old(self).gpu }),
            final(self).dma_source == (old(self).dma_source + bytes) % 0x10000,
            final(self).dma_destination == (old(self).dma_destination + bytes) % 0x10000,
            (forall|j: int| 0 <= j < bytes ==> !(0x8000 <= #[trigger] ((old(self).dma_source + j) % 0x10000) < 0xA000))
                ==> forall|j: int|
                0 <= j < bytes ==> #[trigger] final(self).gpu.spec_read_vram(((old(self).dma_destination & 0x1FFF) + j) % 0x2000)
                    == old(self).spec_read(((old(self).dma_source + j) % 0x10000) as u16),
    {
        let ghost m0 = *self;
        let ghost clear = forall|j: int| 0 <= j < bytes ==> !(0x8000 <= #[trigger] ((m0.dma_source + j) % 0x10000) < 0xA000);
        let source = self.dma_source;
        let destination = self.dma_destination;
        let mut i: u16 = 0;
        while i < bytes
            invariant
                self.wf(),
                m0.wf(),
                i <= bytes,
                bytes <= 0x800,
                source == m0.dma_source,
                destination == m0.dma_destination,
                *self == (Memory { gpu: self.gpu, ..m0 }),
                self.gpu == (Gpu { vram: self.gpu.vram, vram1: self.gpu.vram1, ..m0.gpu }),
                clear == forall|j: int| 0 <= j < bytes ==> !(0x8000 <= #[trigger] ((m0.dma_source + j) % 0x10000) < 0xA000),
                clear ==> forall|j: int|
                    0 <= j < i ==> #[trigger] self.gpu.spec_read_vram(((destination & 0x1FFF) + j) % 0x2000)
                        == m0.spec_read(((source + j) % 0x10000) as u16),
            decreases bytes - i,
        {
            let a = source.wrapping_add(i);
            let byte = self.read_byte(a);
            proof {
                if clear {
                    assert(!(0x8000 <= ((m0.dma_source + i) % 0x10000) < 0xA000));
                    assert(self.spec_read(a) == m0.spec_read(a));
                }
            }
            let target = ((destination & 0x1FFF) as usize + i as usize) % VRAM_SIZE;
            let ghost before = self.gpu;
            self.gpu.write_vram(target, byte);
            proof {
                if clear {
                    assert forall|j: int| 0 <= j < i + 1 implies #[trigger] self.gpu.spec_read_vram(((destination & 0x1FFF) + j) % 0x2000)
                        == m0.spec_read(((source + j) % 0x10000) as u16) by {
                        if j < i {
                            assert(((destination & 0x1FFF) + j) % 0x2000 != ((destination & 0x1FFF) + i) % 0x2000);
                            assert(self.gpu.spec_read_vram(((destination & 0x1FFF) + j) % 0x2000) == before.spec_read_vram(((destination & 0x1FFF) + j) % 0x2000));
                        }
                    }
                }
            }
            i = i + 1;
        }
        self.dma_source = source.wrapping_add(bytes);
        self.dma_destination = destination.wrapping_add(bytes);
    }

    /// General DMA: the whole pending length at once.
    pub fn gdma_step(&mut self)
        requires
            old(self).wf(),
        ensures
            final(self).wf(),
            final(self).dma_length == 0,
            *final(self) == (Memory {
                gpu: final(self).gpu,
                dma_source: final(self).dma_source,
                dma_destination: final(self).dma_destination,
                dma_length: final(self).dma_length,
                ..*old(self)
            }),
            final(self).gpu == (Gpu { vram: final(self).gpu.vram, vram1: final(self).gpu.vram1, ..old(self).gpu }),
            old(self).dma_length == 0 ==> *final(self) == *old(self),
            (forall|j: int| 0 <= j < old(self).dma_length * 16 ==> !(0x8000 <= #[trigger] ((old(self).dma_source + j) % 0x10000) < 0xA000))
                ==> forall|j: int|
                0 <= j < old(self).dma_length * 16 ==> #[trigger] final(self).gpu.spec_read_vram(((old(self).dma_destination & 0x1FFF) + j) % 0x2000)
                    == old(self).spec_read(((old(self).dma_source + j) % 0x10000) as u16),
    {
        if self.dma_length == 0 {
            return;
        }
        self.dma_copy(self.dma_length * 16);
        self.dma_length = 0;
    }

    /// H-blank DMA: one 16-byte block when the PPU has just entered H-blank.
    pub fn hdma_step(&mut self)
        requires
            old(self).wf(),
        ensures
            final(self).wf(),
            final(self).dma_length == if old(self).dma_length > 0 && old(self).hblank_started {
                (old(self).dma_length - 1) as u16
            } else {
                old(self).dma_length
            },
            *final(self) == (Memory {
                gpu: final(self).gpu,
                dma_source: final(self).dma_source,
                dma_destination: final(self).dma_destination,
                dma_length: final(self).dma_length,
                ..*old(self)
            }),
            final(self).gpu == (Gpu { vram: final(self).gpu.vram, vram1: final(self).gpu.vram1, ..old(self).gpu }),
            !(old(self).dma_length > 0 && old(self).hblank_started) ==> *final(self) == *old(self),
            old(self).dma_length > 0 && old(self).hblank_started && (forall|j: int| 0 <= j < 16 ==> !(0x8000 <= #[trigger] ((old(self).dma_source + j) % 0x10000) < 0xA000))
                ==> forall|j: int|
                0 <= j < 16 ==> #[trigger] final(self).gpu.spec_read_vram(((old(self).dma_destination & 0x1FFF) + j) % 0x2000)
                    == old(self).spec_read(((old(self).dma_source + j) % 0x10000) as u16),
    {
        if self.dma_length == 0 || !self.hblank_started {
            return;
        }
        self.dma_copy(16);
        self.dma_length = self.dma_length - 1;
    }

    /// What a bus step leaves alone: RAM, cartridge, joypad, boot ROM, serial and IE.
    pub open spec fn unchanged_by_step(&self, new: &Memory) -> bool {
        &&& new.interrupt_enable == self.interrupt_enable
        &&& new.wram@ == self.wram@
        &&& new.hram@ == self.hram@
        &&& new.cartridge == self.cartridge
        &&& new.joypad == self.joypad
        &&& new.wram_bank == self.wram_bank
        &&& new.boot_active == self.boot_active
        &&& new.boot_rom == self.boot_rom
        &&& new.serial == self.serial
        &&& new.serial_control == self.serial_control
        &&& new.key0 == self.key0
    }

    /// The PPU part of a step: it runs the PPU and merges what it raised into IF.
    #[verifier::rlimit(100)]
    fn step_gpu(&mut self, cycles: u8)
        requires
            old(self).wf(),
        ensures
            final(self).wf(),
            old(self).gpu.timing_post(&final(self).gpu, cycles),
            final(self).interrupt_flags == (InterruptFlags {
                vblank: old(self).interrupt_flags.vblank || old(self).gpu.raised(cycles) & VBLANK_BIT != 0,
                lcd_stat: old(self).interrupt_flags.lcd_stat || old(self).gpu.raised(cycles) & LCD_STAT_BIT
                    != 0,
                ..old(self).interrupt_flags
            }),
            old(self).unchanged_by_step(final(self)),
            final(self).timer == old(self).timer && final(self).divider == old(self).divider,
            old(self).gpu.same_setup(&final(self).gpu),
            final(self).dma_mode == old(self).dma_mode && final(self).dma_length == old(self).dma_length,
    {
        let was_hblank = self.gpu.stat.mode == Mode::HorizontalBlank;
        let fired = self.gpu.step(cycles);
        self.hblank_started = !was_hblank && self.gpu.stat.mode == Mode::HorizontalBlank;
        if fired & VBLANK_BIT != 0 {
            self.interrupt_flags.vblank = true;
        }
        if fired & LCD_STAT_BIT != 0 {
            self.interrupt_flags.lcd_stat = true;
        }
    }

    /// The bus after a step of `cycles` T-cycles.
    #[verifier::opaque]
    pub open spec fn step_post(&self, new: &Memory, cycles: u8) -> bool {
        &&& new.wf()
        &&& new.timer == self.timer.stepped(cycles).0
        &&& new.divider == self.divider.stepped(cycles).0
        &&& self.gpu.timing_post(&new.gpu, cycles)
        &&& new.interrupt_flags == (InterruptFlags { timer: self.interrupt_flags.timer || self.timer.stepped(cycles).1, vblank: self.interrupt_flags.vblank || self.gpu.raised(cycles) & VBLANK_BIT != 0, lcd_stat: self.interrupt_flags.lcd_stat || self.gpu.raised(cycles) & LCD_STAT_BIT != 0, ..self.interrupt_flags })
        &&& self.unchanged_by_step(new)
        &&& self.gpu.same_registers(&new.gpu)
        &&& new.dma_mode == self.dma_mode
        &&& new.dma_length == if self.dma_mode == DmaMode::Gdma {
            0
        } else if self.dma_length > 0 && self.hblank_started {
            (self.dma_length - 1) as u16
        } else {
            self.dma_length
        }
        &&& (self.dma_length == 0 || (self.dma_mode == DmaMode::Hdma && !self.hblank_started)) ==> new.gpu.vram@
            == self.gpu.vram@ && new.gpu.vram1@ == self.gpu.vram1@
        &&& self.dma_mode == DmaMode::Gdma && (forall|j: int|
            0 <= j < self.dma_length * 16 ==> !(0x8000 <= #[trigger] ((self.dma_source + j) % 0x10000) < 0xA000))
            ==> forall|j: int|
            0 <= j < self.dma_length * 16 ==> #[trigger] new.gpu.spec_read_vram(((self.dma_destination & 0x1FFF) + j) % 0x2000)
                == self.spec_read(((self.dma_source + j) % 0x10000) as u16)
        &&& self.dma_mode == DmaMode::Hdma && self.dma_length > 0 && self.hblank_started && (forall|j: int|
            0 <= j < 16 ==> !(0x8000 <= #[trigger] ((self.dma_source + j) % 0x10000) < 0xA000)) ==> forall|j: int|
            0 <= j < 16 ==> #[trigger] new.gpu.spec_read_vram(((self.dma_destination & 0x1FFF) + j) % 0x2000)
                == self.spec_read(((self.dma_source + j) % 0x10000) as u16)
    }

    /// Runs the peripherals for `cycles` T-cycles: DMA, then TIMA, then DIV, then the PPU;
    /// timer overflow and the PPU's interrupts are merged into IF.
    #[verifier::rlimit(100)]
    pub fn step(&mut self, cycles: u8)
        requires
            old(self).wf(),
        ensures
            final(self).wf(),
            old(self).step_post(final(self), cycles),
    {
        if self.dma_mode == DmaMode::Hdma {
            self.hdma_step();
        } else {
            self.gdma_step();
        }
        let ghost g1 = self.gpu;
        let ghost m1 = *self;
        if self.timer.step(cycles) {
            self.interrupt_flags.timer = true;
        }
        self.divider.step(cycles);
        self.step_gpu(cycles);
        proof {
            reveal(Memory::step_post);
            lemma_timing_congruent(old(self).gpu, g1, self.gpu, cycles);
            assert(self.gpu.vram@ == m1.gpu.vram@ && self.gpu.vram1@ == m1.gpu.vram1@ && self.gpu.vram_bank == m1.gpu.vram_bank);
            assert forall|k: int| #[trigger] self.gpu.spec_read_vram(k) == m1.gpu.spec_read_vram(k) by {}
        }
    }
}

/// Timing depends only on LCDC, STAT, LY, LYC, the cycle counter and the raised bits.
proof fn lemma_timing_congruent(a: Gpu, b: Gpu, n: Gpu, cycles: u8)
    requires
        a.lcdc == b.lcdc,
        a.stat == b.stat,
        a.line == b.line,
        a.line_check == b.line_check,
        a.cycles == b.cycles,
        a.interrupts_fired == b.interrupts_fired,
        b.timing_post(&n, cycles),
    ensures
        a.raised(cycles) == b.raised(cycles),
        a.timing_post(&n, cycles),
{
    reveal(Gpu::timing_post);
    reveal(Gpu::raised);
}

/// DIV runs at 16384 Hz (256 T-cycles a tick) whatever TAC says: a TAC write leaves the
/// divider as it was, and a bus step advances it by its own rate alone.
pub proof fn lemma_div_ignores_tac(m: Memory, new: Memory, v: u8)
    requires
        m.wf(),
        m.io_write_post(&new, 0xFF07, v),
    ensures
        new.divider == m.divider,
        m.divider.frequency.spec_cycles_per_tick() == 256,
        m.divider.enabled,
        new.timer.frequency == frequency_of(v & 3),
{
}

} // verus!
