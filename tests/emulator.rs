use gameboy::cartridge::{new_cartridge, Cartridge, CartridgeError};
use gameboy::cpu::Cpu;
use gameboy::gpu::GameBoyMode;
use gameboy::instructions::{Instruction, JumpCondition, StackTarget};
use gameboy::mmu::Memory;

fn rom_with(cgb_flag: u8, kind: u8, size: usize) -> Vec<u8> {
    let mut rom = vec![0u8; size];
    rom[0x143] = cgb_flag;
    rom[0x147] = kind;
    rom
}

fn machine_from_rom(rom: Vec<u8>) -> Cpu {
    let cartridge = new_cartridge(rom, vec![]).unwrap();
    Cpu::new(Memory::new(cartridge, None))
}

fn machine() -> Cpu {
    machine_from_rom(rom_with(0x00, 0x00, 0x8000))
}

#[test]
fn bootless_dmg_entry() {
    let mut cpu = machine();
    assert_eq!(cpu.mem.gpu.gb_mode, GameBoyMode::Dmg);
    cpu.boot();
    assert_eq!(cpu.registers.a, 0x01);
    assert_eq!(cpu.registers.get_bc(), 0x0013);
    assert_eq!(cpu.registers.get_de(), 0x00D8);
    assert_eq!(cpu.registers.get_hl(), 0x014D);
    assert_eq!(cpu.sp, 0xFFFE);
    assert_eq!(cpu.pc, 0x0100);
    assert!(cpu.registers.f.z && cpu.registers.f.n && cpu.registers.f.h && cpu.registers.f.c);
}

#[test]
fn cgb_entry() {
    for flag in [0x80u8, 0xC0u8] {
        let mut cpu = machine_from_rom(rom_with(flag, 0x00, 0x8000));
        assert_eq!(cpu.mem.gpu.gb_mode, GameBoyMode::Cgb);
        cpu.boot_cgb();
        assert_eq!(cpu.registers.a, 0x11);
        assert_eq!(cpu.registers.get_bc(), 0x0100);
        assert_eq!(cpu.registers.get_de(), 0xFF56);
        assert_eq!(cpu.registers.get_hl(), 0x000D);
        assert_eq!(cpu.sp, 0xFFFE);
        assert_eq!(cpu.pc, 0x0100);
        assert!(cpu.registers.f.z && !cpu.registers.f.n && !cpu.registers.f.h && !cpu.registers.f.c);
    }
}

#[test]
fn serial_stdout() {
    let mut cpu = machine();
    cpu.boot();
    cpu.mem.write_byte(0xFF01, 0x42);
    cpu.mem.write_byte(0xFF02, 0x81);
    let (_, out) = cpu.step();
    assert_eq!(out, Some(0x42));
    assert_eq!(cpu.mem.read_byte(0xFF02), 0x00);
    let (_, out) = cpu.step();
    assert_eq!(out, None);
}

#[test]
fn oam_dma_copies_pattern() {
    let mut cpu = machine();
    for i in 0..0xA0u16 {
        cpu.mem.write_byte(0xC000 + i, (i as u8).wrapping_mul(7).wrapping_add(3));
    }
    cpu.mem.write_byte(0xFF46, 0xC0);
    for i in 0..0xA0u16 {
        assert_eq!(cpu.mem.read_byte(0xFE00 + i), (i as u8).wrapping_mul(7).wrapping_add(3));
    }
}

#[test]
fn jr_taken_backwards() {
    let mut rom = rom_with(0, 0, 0x8000);
    rom[0xF8] = 0x18;
    rom[0xF9] = 0xFC;
    let mut cpu = machine_from_rom(rom);
    cpu.pc = 0x00F8;
    assert_eq!(cpu.execute(Instruction::Jr(JumpCondition::Always)), (0x00F6, 12));
    let (cycles, _) = cpu.step();
    assert_eq!(cpu.pc, 0x00F6);
    assert_eq!(cycles, 12);
}

#[test]
fn jr_forward_and_untaken() {
    let mut rom = rom_with(0, 0, 0x8000);
    rom[0xF8] = 0x20;
    rom[0xF9] = 0x04;
    let mut cpu = machine_from_rom(rom);
    cpu.pc = 0x00F8;
    cpu.registers.f.z = false;
    assert_eq!(cpu.execute(Instruction::Jr(JumpCondition::NotZero)), (0x00FE, 12));
    cpu.registers.f.z = true;
    assert_eq!(cpu.execute(Instruction::Jr(JumpCondition::NotZero)), (0x00FA, 8));
}

#[test]
fn add_sp_minus_one_half_carry() {
    let mut rom = rom_with(0, 0, 0x8000);
    rom[0x200] = 0xE8;
    rom[0x201] = 0xFF;
    let mut cpu = machine_from_rom(rom);
    cpu.pc = 0x200;
    cpu.sp = 0x0001;
    let (cycles, _) = cpu.step();
    assert_eq!(cpu.sp, 0x0000);
    assert_eq!(cpu.pc, 0x202);
    assert_eq!(cycles, 16);
    let f = cpu.registers.f;
    assert!(!f.z && !f.n && f.h && f.c);
}

#[test]
fn opcode_widths_and_cycles() {
    // (opcode bytes, expected pc advance, expected cycles), starting at $0200 with flags clear
    let cases: [(&[u8], u16, u8); 12] = [
        (&[0x00], 1, 4),
        (&[0x01, 0x34, 0x12], 3, 12),
        (&[0x06, 0x99], 2, 8),
        (&[0x36, 0x99], 2, 12),
        (&[0x41], 1, 4),
        (&[0x46], 1, 8),
        (&[0x86], 1, 8),
        (&[0xC6, 0x01], 2, 8),
        (&[0xCB, 0x11], 2, 8),
        (&[0xCB, 0x46], 2, 12),
        (&[0xCB, 0xC6], 2, 16),
        (&[0x08, 0x00, 0xC0], 3, 20),
    ];
    for (bytes, width, cycles) in cases.iter() {
        let mut rom = rom_with(0, 0, 0x8000);
        for (i, b) in bytes.iter().enumerate() {
            rom[0x200 + i] = *b;
        }
        let mut cpu = machine_from_rom(rom);
        cpu.pc = 0x200;
        cpu.sp = 0xDFF0;
        cpu.registers.set_hl(0xC100);
        cpu.registers.f.z = false;
        cpu.registers.f.c = false;
        let instruction = cpu.get_instruction().unwrap();
        let (next, c) = cpu.execute(instruction);
        assert_eq!(next, 0x200 + width, "opcode {:02X?}", bytes);
        assert_eq!(c, *cycles, "opcode {:02X?}", bytes);
    }
}

#[test]
fn branch_cycle_pairs() {
    let mut rom = rom_with(0, 0, 0x8000);
    rom[0x200] = 0x34;
    rom[0x201] = 0x12;
    let mut cpu = machine_from_rom(rom);
    cpu.pc = 0x1FF;
    cpu.sp = 0xDFF0;
    cpu.registers.f.c = true;
    assert_eq!(cpu.execute(Instruction::Jp(JumpCondition::Carry)), (0x1234, 16));
    assert_eq!(cpu.execute(Instruction::Jp(JumpCondition::NotCarry)), (0x202, 12));
    assert_eq!(cpu.execute(Instruction::Call(JumpCondition::NotCarry)), (0x202, 12));
    assert_eq!(cpu.sp, 0xDFF0);
    assert_eq!(cpu.execute(Instruction::Call(JumpCondition::Carry)), (0x1234, 24));
    assert_eq!(cpu.sp, 0xDFEE);
    assert_eq!(cpu.execute(Instruction::Ret(JumpCondition::NotCarry)), (0x200, 8));
    assert_eq!(cpu.execute(Instruction::Ret(JumpCondition::Carry)), (0x202, 20));
    assert_eq!(cpu.sp, 0xDFF0);
    cpu.push(0x4321);
    assert_eq!(cpu.execute(Instruction::Ret(JumpCondition::Always)), (0x4321, 16));
    assert_eq!(cpu.execute(Instruction::Rst(0x28)), (0x0028, 16));
}

#[test]
fn push_pop_restores_stack() {
    let mut cpu = machine();
    cpu.sp = 0xD010;
    cpu.mem.write_byte(0xD00D, 0xAA);
    cpu.mem.write_byte(0xD010, 0xBB);
    let values = [0x1234u16, 0xBEEF, 0x0001];
    for v in values.iter() {
        cpu.push(*v);
    }
    assert_eq!(cpu.sp, 0xD00A);
    for v in values.iter().rev() {
        assert_eq!(cpu.pop(), *v);
    }
    assert_eq!(cpu.sp, 0xD010);
    assert_eq!(cpu.mem.read_byte(0xD010), 0xBB);
    assert_eq!(cpu.mem.read_byte(0xD009), 0x00);
}

#[test]
fn pop_af_clears_low_nibble() {
    for v in [0x00u8, 0x0F, 0xFF, 0xA5] {
        let mut cpu = machine();
        cpu.sp = 0xC000;
        cpu.mem.write_byte(0xC000, v);
        cpu.mem.write_byte(0xC001, 0x12);
        cpu.execute(Instruction::Pop(StackTarget::AF));
        assert_eq!(cpu.registers.a, 0x12);
        assert_eq!(cpu.registers.get_af() & 0x0F, 0);
        assert_eq!((cpu.registers.get_af() & 0xF0) as u8, v & 0xF0);
    }
}

#[test]
fn alu_flag_rules() {
    let mut cpu = machine();
    cpu.registers.a = 0x0F;
    cpu.add(0x01);
    assert_eq!(cpu.registers.a, 0x10);
    assert!(!cpu.registers.f.z && !cpu.registers.f.n && cpu.registers.f.h && !cpu.registers.f.c);
    cpu.registers.a = 0xFF;
    cpu.add(0x01);
    assert_eq!(cpu.registers.a, 0x00);
    assert!(cpu.registers.f.z && cpu.registers.f.h && cpu.registers.f.c);
    cpu.registers.a = 0x07;
    cpu.registers.f.c = true;
    cpu.adc(0x08);
    assert_eq!(cpu.registers.a, 0x10);
    assert!(cpu.registers.f.h && !cpu.registers.f.c);
    cpu.registers.a = 0x10;
    cpu.sub(0x01);
    assert_eq!(cpu.registers.a, 0x0F);
    assert!(cpu.registers.f.n && cpu.registers.f.h && !cpu.registers.f.c);
    cpu.registers.a = 0x00;
    cpu.registers.f.c = true;
    cpu.sbc(0x00);
    assert_eq!(cpu.registers.a, 0xFF);
    assert!(cpu.registers.f.h && cpu.registers.f.c);
    cpu.registers.a = 0x07;
    cpu.cp(0x07);
    assert_eq!(cpu.registers.a, 0x07);
    assert!(cpu.registers.f.z && cpu.registers.f.n && !cpu.registers.f.h && !cpu.registers.f.c);
    cpu.registers.a = 0b1010;
    cpu.and(0b0110);
    assert_eq!(cpu.registers.a, 0b0010);
    assert!(cpu.registers.f.h && !cpu.registers.f.c);
    cpu.registers.a = 0x5A;
    cpu.xor(0x5A);
    assert!(cpu.registers.f.z && !cpu.registers.f.h);
    assert_eq!(cpu.inc(0xFF), 0x00);
    assert!(cpu.registers.f.z && cpu.registers.f.h && !cpu.registers.f.n);
    assert_eq!(cpu.dec(0x10), 0x0F);
    assert!(cpu.registers.f.n && cpu.registers.f.h);
}

#[test]
fn rotates_and_shifts() {
    let mut cpu = machine();
    cpu.registers.f.c = false;
    assert_eq!(cpu.rotate_left_through_carry_set_zero(0b1011_0101), 0b0110_1010);
    assert!(cpu.registers.f.c);
    assert_eq!(cpu.rotate_left_through_carry_set_zero(0b1011_0101), 0b0110_1011);
    cpu.registers.f.c = false;
    assert_eq!(cpu.rotate_right_through_carry_set_zero(0b1011_0101), 0b0101_1010);
    assert!(cpu.registers.f.c);
    assert_eq!(cpu.rotate_left_retain_zero(0x80), 0x01);
    assert!(!cpu.registers.f.z && cpu.registers.f.c);
    assert_eq!(cpu.rotate_left_through_carry_retain_zero(0x80), 0x01);
    cpu.registers.f.c = false;
    assert_eq!(cpu.rotate_left_through_carry_retain_zero(0x80), 0x00);
    assert!(!cpu.registers.f.z);
    cpu.registers.f.c = false;
    assert_eq!(cpu.rotate_left_through_carry_set_zero(0x80), 0x00);
    assert!(cpu.registers.f.z);
    assert_eq!(cpu.rotate_right_retain_zero(0x01), 0x80);
    assert_eq!(cpu.swap(0b1011_0101), 0b0101_1011);
    assert_eq!(cpu.sra(0x81), 0xC0);
    assert!(cpu.registers.f.c);
    assert_eq!(cpu.srl(0x81), 0x40);
    assert_eq!(cpu.sla(0x81), 0x02);
    assert_eq!(cpu.set_bit(0b1011_0100, 1), 0b1011_0110);
    assert_eq!(cpu.reset_bit(0b1011_0100, 2), 0b1011_0000);
    cpu.test_bit(0b1011_0100, 3);
    assert!(cpu.registers.f.z && cpu.registers.f.h);
}

#[test]
fn daa_after_bcd_add() {
    let mut cpu = machine();
    cpu.registers.a = 0x15;
    cpu.add(0x27);
    cpu.daa();
    assert_eq!(cpu.registers.a, 0x42);
    assert!(!cpu.registers.f.c && !cpu.registers.f.h);
}

#[test]
fn add_hl_keeps_zero_flag() {
    let mut cpu = machine();
    cpu.registers.set_hl(0x0FFF);
    cpu.registers.f.z = true;
    cpu.add_hl(0x0001);
    assert_eq!(cpu.registers.get_hl(), 0x1000);
    assert!(cpu.registers.f.z && cpu.registers.f.h && !cpu.registers.f.c);
    cpu.add_hl(0xF000);
    assert_eq!(cpu.registers.get_hl(), 0x0000);
    assert!(cpu.registers.f.c);
}

#[test]
fn interrupt_service_priority() {
    let mut cpu = machine();
    cpu.boot();
    cpu.ime = true;
    cpu.mem.write_byte(0xFFFF, 0x1F);
    cpu.mem.write_byte(0xFF0F, 0x14);
    let (cycles, _) = cpu.step();
    assert_eq!(cpu.pc, 0x50);
    assert!(!cpu.ime);
    assert_eq!(cycles, 4 + 12);
    assert_eq!(cpu.mem.read_byte(0xFF0F) & 0x1F, 0x10);
    assert_eq!(cpu.sp, 0xFFFC);
}

#[test]
fn ei_takes_effect_after_next_instruction() {
    let mut rom = rom_with(0, 0, 0x8000);
    rom[0x100] = 0xFB;
    let mut cpu = machine_from_rom(rom);
    cpu.boot();
    cpu.mem.write_byte(0xFFFF, 0x01);
    cpu.mem.write_byte(0xFF0F, 0x01);
    cpu.step();
    assert_eq!(cpu.pc, 0x101);
    assert!(!cpu.ime);
    cpu.step();
    assert_eq!(cpu.pc, 0x40);
}

#[test]
fn halt_waits_for_interrupt() {
    let mut rom = rom_with(0, 0, 0x8000);
    rom[0x100] = 0x76;
    let mut cpu = machine_from_rom(rom);
    cpu.boot();
    cpu.step();
    assert!(cpu.is_halted);
    assert_eq!(cpu.pc, 0x100);
    cpu.step();
    assert_eq!(cpu.pc, 0x100);
    cpu.mem.write_byte(0xFFFF, 0x04);
    cpu.mem.write_byte(0xFF0F, 0x04);
    cpu.step();
    assert!(!cpu.is_halted);
    assert_eq!(cpu.pc, 0x101);
}

#[test]
fn unsupported_cartridge_type() {
    let result = new_cartridge(rom_with(0, 0x05, 0x8000), vec![]);
    assert!(matches!(result, Err(CartridgeError::UnsupportedType(0x05))));
    let result = new_cartridge(vec![0u8; 0x100], vec![]);
    assert!(matches!(result, Err(CartridgeError::RomTooSmall)));
    let mut rom = rom_with(0, 0x03, 0x8000);
    rom[0x149] = 0x02;
    let result = new_cartridge(rom.clone(), vec![0u8; 100]);
    assert!(matches!(result, Err(CartridgeError::SaveSizeMismatch)));
    let result = new_cartridge(rom, vec![0u8; 0x2000]);
    assert!(matches!(result, Ok(Cartridge::Mbc1(_))));
}

#[test]
fn mbc1_zero_bank_write_selects_bank_one() {
    let mut rom = rom_with(0, 0x01, 0x4000 * 4);
    for bank in 0..4usize {
        rom[bank * 0x4000 + 0x10] = bank as u8 + 0xA0;
    }
    let mut cpu = machine_from_rom(rom);
    cpu.mem.write_byte(0x2000, 0x03);
    assert_eq!(cpu.mem.read_byte(0x4010), 0xA3);
    cpu.mem.write_byte(0x2000, 0x00);
    assert_eq!(cpu.mem.read_byte(0x4010), 0xA1);
    cpu.mem.write_byte(0x3FFF, 0x20);
    assert_eq!(cpu.mem.read_byte(0x4010), 0xA1);
    cpu.mem.write_byte(0x0000, 0x42);
    assert_eq!(cpu.mem.read_byte(0x0010), 0xA0);
}

#[test]
fn mbc1_ram_enable_and_disable() {
    let mut rom = rom_with(0, 0x03, 0x8000);
    rom[0x149] = 0x02;
    let cartridge = new_cartridge(rom, vec![0u8; 0x2000]).unwrap();
    let mut mem = Memory::new(cartridge, None);
    mem.write_byte(0xA000, 0x55);
    assert_eq!(mem.read_byte(0xA000), 0xFF);
    mem.write_byte(0x0000, 0x0A);
    mem.write_byte(0xA000, 0x55);
    assert_eq!(mem.read_byte(0xA000), 0x55);
    assert_eq!(mem.cartridge.ram_bytes()[0], 0x55);
    mem.write_byte(0x0000, 0x00);
    assert_eq!(mem.read_byte(0xA000), 0xFF);
}

#[test]
fn mbc3_banks_and_rtc_select() {
    let mut rom = rom_with(0, 0x13, 0x4000 * 8);
    rom[0x149] = 0x03;
    for bank in 0..8usize {
        rom[bank * 0x4000 + 0x20] = bank as u8;
    }
    let cartridge = new_cartridge(rom, vec![0u8; 0x8000]).unwrap();
    let mut mem = Memory::new(cartridge, None);
    mem.write_byte(0x2000, 0x00);
    assert_eq!(mem.read_byte(0x4020), 1);
    mem.write_byte(0x2000, 0x07);
    assert_eq!(mem.read_byte(0x4020), 7);
    mem.write_byte(0x0000, 0x0A);
    mem.write_byte(0x4000, 0x02);
    mem.write_byte(0xA001, 0x77);
    assert_eq!(mem.read_byte(0xA001), 0x77);
    assert_eq!(mem.cartridge.ram_bytes()[0x4001], 0x77);
    mem.write_byte(0x4000, 0x08);
    assert_eq!(mem.read_byte(0xA001), 0x00);
}

#[test]
fn cgb_palette_round_trip() {
    let mut mem = machine().mem;
    mem.write_byte(0xFF68, 0x80);
    for i in 0..64u8 {
        mem.write_byte(0xFF69, i.wrapping_mul(37) ^ 0x5C);
    }
    assert_eq!(mem.read_byte(0xFF68), 0x80);
    for i in 0..64u8 {
        mem.write_byte(0xFF68, i);
        assert_eq!(mem.read_byte(0xFF69), i.wrapping_mul(37) ^ 0x5C);
    }
    mem.write_byte(0xFF6A, 0x80);
    for i in 0..64u8 {
        mem.write_byte(0xFF6B, i);
    }
    mem.write_byte(0xFF6A, 0x05);
    assert_eq!(mem.read_byte(0xFF6B), 5);
}

#[test]
fn rgb555_expansion() {
    let p = gameboy::gpu::rgb555_to_rgb888(0xFF, 0x7F);
    assert_eq!((p.r, p.g, p.b), (255, 255, 255));
    let p = gameboy::gpu::rgb555_to_rgb888(0x1F, 0x00);
    assert_eq!((p.r, p.g, p.b), (255, 0, 0));
    let p = gameboy::gpu::rgb555_to_rgb888(0xE0, 0x03);
    assert_eq!((p.r, p.g, p.b), (0, 255, 0));
    let p = gameboy::gpu::rgb555_to_rgb888(0x01, 0x00);
    assert_eq!((p.r, p.g, p.b), (8, 0, 0));
}

#[test]
fn wram_banks_and_echo() {
    let mut mem = machine().mem;
    mem.write_byte(0xC123, 0x11);
    assert_eq!(mem.read_byte(0xE123), 0x11);
    mem.write_byte(0xFF70, 0x00);
    assert_eq!(mem.read_byte(0xFF70), 1);
    mem.write_byte(0xD000, 0x21);
    mem.write_byte(0xFF70, 0x03);
    assert_eq!(mem.read_byte(0xD000), 0x00);
    mem.write_byte(0xD000, 0x23);
    mem.write_byte(0xFF70, 0x01);
    assert_eq!(mem.read_byte(0xD000), 0x21);
    assert_eq!(mem.read_byte(0xF000), 0x21);
    mem.write_byte(0xFEA5, 0x12);
    assert_eq!(mem.read_byte(0xFEA5), 0xFF);
    mem.write_byte(0xFF80, 0x99);
    assert_eq!(mem.read_byte(0xFF80), 0x99);
    assert_eq!(mem.read_byte(0xFF7F), 0xFF);
    assert_eq!(mem.read_byte(0xFF10), 0xFF);
}

#[test]
fn joypad_selection() {
    let mut mem = machine().mem;
    mem.joypad.push_button(gameboy::joypad::Key::A);
    mem.joypad.push_button(gameboy::joypad::Key::Down);
    mem.write_byte(0xFF00, 0x20);
    assert_eq!(mem.read_byte(0xFF00), 0x20 | 0x0E);
    mem.write_byte(0xFF00, 0x10);
    assert_eq!(mem.read_byte(0xFF00), 0x10 | 0x07);
    mem.write_byte(0xFF00, 0x30);
    assert_eq!(mem.read_byte(0xFF00), 0xCF);
    mem.write_byte(0xFF00, 0x00);
    assert_eq!(mem.read_byte(0xFF00), 0x00);
    mem.joypad.release_button(gameboy::joypad::Key::A);
    mem.write_byte(0xFF00, 0x20);
    assert_eq!(mem.read_byte(0xFF00), 0x2F);
}

#[test]
fn rgb555_ignores_bit_fifteen() {
    let p = gameboy::gpu::rgb555_to_rgb888(0x00, 0x80);
    assert_eq!((p.r, p.g, p.b), (0, 0, 0));
    let p = gameboy::gpu::rgb555_to_rgb888(0x00, 0xFC);
    assert_eq!(p.b, 255);
}

#[test]
fn daa_after_bcd_subtract() {
    let mut cpu = machine();
    cpu.registers.a = 0x42;
    cpu.sub(0x15);
    cpu.daa();
    assert_eq!(cpu.registers.a, 0x27);
    assert!(!cpu.registers.f.c && cpu.registers.f.n);
    cpu.registers.a = 0x15;
    cpu.sub(0x27);
    cpu.daa();
    assert_eq!(cpu.registers.a, 0x88);
    assert!(cpu.registers.f.c);
}
