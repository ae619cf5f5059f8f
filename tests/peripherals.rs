use gameboy::cartridge::new_cartridge;
use gameboy::gpu::{GameBoyMode, Gpu, LCD_STAT_BIT, VBLANK_BIT};
use gameboy::interrupts::InterruptFlags;
use gameboy::lcdc::Lcdc;
use gameboy::mmu::Memory;
use gameboy::stat::Mode;
use gameboy::timer::{Frequency, Timer};

fn memory() -> Memory {
    let mut rom = vec![0u8; 0x8000];
    rom[0x147] = 0;
    Memory::new(new_cartridge(rom, vec![]).unwrap(), None)
}

#[test]
fn tima_overflow_point() {
    for (frequency, cpt) in [
        (Frequency::F4096, 1024u32),
        (Frequency::F262144, 16),
        (Frequency::F65536, 64),
        (Frequency::F16384, 256),
    ] {
        for init in [0u8, 0xF0, 0xFF] {
            let mut t = Timer::new(frequency);
            t.enabled = true;
            t.counter = init;
            t.modulo = 0xAB;
            let total = (256 - init as u32) * cpt;
            let mut elapsed = 0u32;
            let mut overflowed_at = None;
            while overflowed_at.is_none() && elapsed <= total + 8 {
                elapsed += 4;
                if t.step(4) {
                    overflowed_at = Some(elapsed);
                }
            }
            assert_eq!(overflowed_at, Some(total));
            assert_eq!(t.counter, 0xAB);
        }
    }
}

#[test]
fn disabled_timer_does_not_tick() {
    let mut t = Timer::new(Frequency::F262144);
    assert!(!t.step(200));
    assert_eq!(t.counter, 0);
}

#[test]
fn timer_interrupt_and_reload_through_bus() {
    let mut mem = memory();
    mem.write_byte(0xFF06, 0x10);
    mem.write_byte(0xFF05, 0xFF);
    mem.write_byte(0xFF07, 0x05);
    assert_eq!(mem.read_byte(0xFF07), 0x05);
    mem.step(16);
    assert_eq!(mem.read_byte(0xFF05), 0x10);
    assert_eq!(mem.read_byte(0xFF0F) & 0x04, 0x04);
}

#[test]
fn div_ignores_tac() {
    for tac in [0x00u8, 0x04, 0x05, 0x06, 0x07] {
        let mut mem = memory();
        mem.write_byte(0xFF07, tac);
        for _ in 0..64 {
            mem.step(4);
        }
        assert_eq!(mem.read_byte(0xFF04), 1);
        for _ in 0..(64 * 3) {
            mem.step(4);
        }
        assert_eq!(mem.read_byte(0xFF04), 4);
        mem.write_byte(0xFF04, 0x77);
        assert_eq!(mem.read_byte(0xFF04), 0);
    }
}

#[test]
fn one_frame_of_ppu() {
    let mut gpu = Gpu::new(GameBoyMode::Dmg, false);
    gpu.write_lcdc(0x80);
    assert_eq!(gpu.line, 0);
    assert_eq!(gpu.stat.mode, Mode::OAMAccess);
    let mut lines = vec![gpu.line];
    let mut vblanks = 0;
    let mut hblank_to_vblank = 0;
    for _ in 0..(70224 / 4) {
        let before = gpu.stat.mode;
        let raised = gpu.step(4);
        if raised & VBLANK_BIT != 0 {
            vblanks += 1;
        }
        if before == Mode::HorizontalBlank && gpu.stat.mode == Mode::VerticalBlank {
            hblank_to_vblank += 1;
            assert_eq!(gpu.line, 144);
        }
        if *lines.last().unwrap() != gpu.line {
            lines.push(gpu.line);
        }
    }
    assert_eq!(vblanks, 1);
    assert_eq!(hblank_to_vblank, 1);
    let expected: Vec<u8> = (0..=153u8).chain(std::iter::once(0)).collect();
    assert_eq!(lines, expected);
    assert_eq!(gpu.stat.mode, Mode::OAMAccess);
    assert_eq!(gpu.cycles, 0);
}

#[test]
fn stat_sources_and_coincidence() {
    let mut gpu = Gpu::new(GameBoyMode::Dmg, false);
    gpu.write_lcdc(0x80);
    gpu.line_check = 1;
    gpu.stat.from_byte(0x48);
    let mut raised = 0u8;
    for _ in 0..(456 / 4) {
        raised |= gpu.step(4);
    }
    assert_eq!(gpu.line, 1);
    assert!(gpu.stat.coincidence_flag);
    assert_eq!(raised & LCD_STAT_BIT, LCD_STAT_BIT);
    assert_eq!(raised & VBLANK_BIT, 0);
}

#[test]
fn lcd_off_freezes_line() {
    let mut mem = memory();
    mem.write_byte(0xFF40, 0x80);
    for _ in 0..300 {
        mem.step(4);
    }
    let line = mem.read_byte(0xFF44);
    assert_eq!(line, 2);
    mem.write_byte(0xFF40, 0x00);
    assert_eq!(mem.read_byte(0xFF41) & 0x03, 0);
    for _ in 0..300 {
        mem.step(4);
    }
    assert_eq!(mem.read_byte(0xFF44), line);
    mem.write_byte(0xFF44, 0x50);
    assert_eq!(mem.read_byte(0xFF44), line);
    mem.write_byte(0xFF40, 0x80);
    assert_eq!(mem.read_byte(0xFF44), 0);
}

#[test]
fn background_pixels_follow_bgp() {
    let mut mem = memory();
    // tile 1: first row has colour indices 3,2,1,0,0,0,0,0
    mem.write_byte(0x8010, 0b1010_0000);
    mem.write_byte(0x8011, 0b1100_0000);
    mem.write_byte(0x9800, 0x01);
    mem.write_byte(0xFF47, 0b1110_0100);
    mem.write_byte(0xFF40, 0x91);
    for _ in 0..(252 / 4) {
        mem.step(4);
    }
    let canvas = &mem.gpu.canvas_buffer;
    let levels: Vec<u8> = (0..5).map(|x| canvas[x * 4]).collect();
    assert_eq!(levels, vec![0, 85, 170, 255, 255]);
    assert_eq!(canvas[3], 255);
}

#[test]
fn vram_dma_general() {
    let mut mem = memory();
    for i in 0..32u16 {
        mem.write_byte(0xC000 + i, i as u8 + 1);
    }
    mem.write_byte(0xFF51, 0xC0);
    mem.write_byte(0xFF52, 0x00);
    mem.write_byte(0xFF53, 0x81);
    mem.write_byte(0xFF54, 0x00);
    mem.write_byte(0xFF55, 0x01);
    assert_eq!(mem.read_byte(0xFF55), 2);
    mem.step(4);
    for i in 0..32u16 {
        assert_eq!(mem.read_byte(0x8100 + i), i as u8 + 1);
    }
    assert_eq!(mem.read_byte(0xFF55), 0);
}

#[test]
fn register_byte_round_trips() {
    let mut l = Lcdc::new();
    l.from_byte(0xA5);
    assert_eq!(l.to_byte(), 0xA5);
    let mut f = InterruptFlags::new();
    f.from_byte(0xFF);
    assert_eq!(f.to_byte(), 0x1F);
    let flags = gameboy::flags_register::FlagsRegister::from_byte(0xFF);
    assert_eq!(flags.to_byte(), 0xF0);
}

#[test]
fn boot_rom_overlay() {
    let mut rom = vec![0u8; 0x8000];
    rom[0x0000] = 0x11;
    rom[0x0300] = 0x22;
    rom[0x0150] = 0x33;
    let boot = vec![0xAAu8; 0x900];
    let mut mem = Memory::new(new_cartridge(rom, vec![]).unwrap(), Some(boot));
    assert_eq!(mem.gpu.gb_mode, GameBoyMode::Cgb);
    assert_eq!(mem.read_byte(0x0000), 0xAA);
    assert_eq!(mem.read_byte(0x0300), 0xAA);
    assert_eq!(mem.read_byte(0x0150), 0x33);
    mem.write_byte(0xFF50, 0x00);
    assert_eq!(mem.read_byte(0x0000), 0xAA);
    mem.write_byte(0xFF50, 0x01);
    assert_eq!(mem.read_byte(0x0000), 0x11);
    assert_eq!(mem.read_byte(0x0300), 0x22);
}

#[test]
fn window_covers_from_wx_minus_seven() {
    let mut mem = memory();
    mem.write_byte(0x8010, 0xFF);
    mem.write_byte(0x8011, 0xFF);
    mem.write_byte(0x9800, 0x01);
    mem.write_byte(0x9801, 0x01);
    mem.write_byte(0xFF47, 0b1110_0100);
    mem.write_byte(0xFF4A, 0);
    mem.write_byte(0xFF4B, 15);
    mem.write_byte(0xFF40, 0xB9);
    for _ in 0..(252 / 4) {
        mem.step(4);
    }
    let canvas = &mem.gpu.canvas_buffer;
    for x in 0..8usize {
        assert_eq!(canvas[x * 4], 255);
    }
    for x in 8..24usize {
        assert_eq!(canvas[x * 4], 0);
    }
    assert_eq!(mem.gpu.wly, 1);
}

#[test]
fn cgb_background_uses_attribute_palette() {
    let mut rom = vec![0u8; 0x8000];
    rom[0x143] = 0x80;
    let mut mem = Memory::new(new_cartridge(rom, vec![]).unwrap(), None);
    assert_eq!(mem.gpu.gb_mode, GameBoyMode::Cgb);
    // palette 1, colour 3 = pure red
    mem.write_byte(0xFF68, 1 * 8 + 3 * 2);
    mem.write_byte(0xFF69, 0x1F);
    mem.write_byte(0xFF68, 1 * 8 + 3 * 2 + 1);
    mem.write_byte(0xFF69, 0x00);
    mem.write_byte(0x8010, 0xFF);
    mem.write_byte(0x8011, 0xFF);
    mem.write_byte(0x9800, 0x01);
    mem.write_byte(0xFF4F, 0x01);
    mem.write_byte(0x9800, 0x01);
    mem.write_byte(0xFF4F, 0x00);
    mem.write_byte(0xFF40, 0x91);
    for _ in 0..(252 / 4) {
        mem.step(4);
    }
    let canvas = &mem.gpu.canvas_buffer;
    assert_eq!((canvas[0], canvas[1], canvas[2], canvas[3]), (255, 0, 0, 255));
    assert_eq!((canvas[8 * 4], canvas[8 * 4 + 1]), (0, 0));
}

#[test]
fn objects_drawn_over_background() {
    let mut mem = memory();
    // tile 2 row 0: colour index 1 everywhere but the last pixel (index 0, transparent)
    mem.write_byte(0x8020, 0xFE);
    mem.write_byte(0x8021, 0x00);
    mem.write_byte(0xFF47, 0b1110_0100);
    mem.write_byte(0xFF48, 0b1110_0100);
    mem.write_byte(0xFE00, 16);
    mem.write_byte(0xFE01, 8);
    mem.write_byte(0xFE02, 2);
    mem.write_byte(0xFE03, 0);
    mem.write_byte(0xFF40, 0x93);
    for _ in 0..(252 / 4) {
        mem.step(4);
    }
    let canvas = &mem.gpu.canvas_buffer;
    for x in 0..7usize {
        assert_eq!(canvas[x * 4], 170);
    }
    assert_eq!(canvas[7 * 4], 255);
    assert_eq!(canvas[8 * 4], 255);
}
