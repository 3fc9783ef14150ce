use gameboy::cartridge::{Mapper, MBC0};
use gameboy::input::Joypad;
use gameboy::mmu::MMU;
use gameboy::ppu::PPU;

fn setup() -> (MMU, PPU) {
    let mut mmu = MMU::new(Joypad::new(), Mapper::RomOnly(MBC0::new(vec![0u8; 0x8000])));
    let ppu = PPU::new(&mut mmu);
    (mmu, ppu)
}

#[test]
fn ppu_starts_on_line_zero() {
    let (mmu, ppu) = setup();
    assert_eq!(ppu.scanline, 0);
    assert_eq!(mmu.read(0xFF44), 0);
    assert_eq!(ppu.get_framebuffer().len(), 160 * 144 * 3);
}

#[test]
fn lcd_off_stays_on_line_zero() {
    let (mut mmu, mut ppu) = setup();
    for _ in 0..500 {
        ppu.step(&mut mmu);
    }
    assert_eq!(ppu.scanline, 0);
    assert!(!ppu.lcd_on);
}

#[test]
fn a_line_takes_456_clock_cycles() {
    let (mut mmu, mut ppu) = setup();
    mmu.write(0xFF40, 0x91);
    for _ in 0..113 {
        ppu.step(&mut mmu);
    }
    assert_eq!(ppu.scanline, 0);
    ppu.step(&mut mmu);
    assert_eq!(ppu.scanline, 1);
    assert_eq!(mmu.read(0xFF44), 1);
}

#[test]
fn vblank_requests_an_interrupt() {
    let (mut mmu, mut ppu) = setup();
    mmu.write(0xFF40, 0x91);
    for _ in 0..(144 * 114) {
        ppu.step(&mut mmu);
    }
    assert_eq!(ppu.scanline, 144);
    assert_eq!(mmu.read(0xFF0F) & 0x01, 0x01);
}

#[test]
fn frame_wraps_after_line_153() {
    let (mut mmu, mut ppu) = setup();
    mmu.write(0xFF40, 0x91);
    for _ in 0..(154 * 114) {
        ppu.step(&mut mmu);
    }
    assert_eq!(ppu.scanline, 0);
}

#[test]
fn blank_tiles_render_white() {
    let (mut mmu, mut ppu) = setup();
    mmu.write(0xFF47, 0xE4);
    mmu.write(0xFF40, 0x91);
    for _ in 0..30 {
        ppu.step(&mut mmu);
    }
    let fb = ppu.get_framebuffer();
    assert_eq!(&fb[0..3], &[255, 255, 255]);
    assert_eq!(fb[159 * 3], 255);
}

#[test]
fn check_status_reads_lcdc() {
    let (mut mmu, mut ppu) = setup();
    mmu.write(0xFF40, 0x97);
    ppu.check_status(&mut mmu);
    assert!(ppu.lcd_on);
    assert!(ppu.object_enabled);
    assert!(ppu.object_size);
}
