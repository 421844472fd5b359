//! A Game Boy (DMG) emulator core: CPU, memory bus, cartridge mappers,
//! PPU, timer, joypad and APU, each with machine-checked contracts.

pub mod bits;
pub mod cpu;
pub mod memory;
pub mod timer;
pub mod joypad;
pub mod ppu;
pub mod apu;
pub mod emulator;
