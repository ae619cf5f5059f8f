//! A Game Boy / Game Boy Color core: the LR35902 CPU with its instruction set and interrupt
//! handling, the memory bus with cartridge banking, timers, joypad, DMA, and the scan-line PPU.

pub mod cartridge;
pub mod cpu;
pub mod flags_register;
pub mod gpu;
pub mod instructions;
pub mod interrupts;
pub mod joypad;
pub mod lcdc;
pub mod mmu;
pub mod registers;
pub mod stat;
pub mod timer;
