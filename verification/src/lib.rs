//! A Game Boy (DMG) emulator core: CPU, memory map, cartridge mappers,
//! timer, joypad and picture processing, each with a verified contract.
pub mod apu;
pub mod cartridge;
pub mod cpu;
pub mod emulator;
pub mod gpu;
pub mod input;
pub mod mmu;
pub mod ppu;
pub mod ram;
pub mod timer;
