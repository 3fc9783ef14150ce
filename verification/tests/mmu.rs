use gameboy::cartridge::{Mapper, MBC0};
use gameboy::input::{Joypad, Key};
use gameboy::mmu::MMU;

fn memory() -> MMU {
    let mut rom = vec![0u8; 0x8000];
    rom[0x0000] = 0x31;
    rom[0x4000] = 0x32;
    MMU::new(Joypad::new(), Mapper::RomOnly(MBC0::new(rom)))
}

#[test]
fn mmu_reads_the_cartridge() {
    let m = memory();
    assert_eq!(m.read(0x0000), 0x31);
    assert_eq!(m.read(0x4000), 0x32);
}

#[test]
fn work_ram_roundtrip_and_echo() {
    let mut m = memory();
    m.write(0xC123, 0xAB);
    assert_eq!(m.read(0xC123), 0xAB);
    assert_eq!(m.read(0xE123), 0xAB);
    m.write(0xDDFF, 0x01);
    assert_eq!(m.read(0xFDFF), 0x01);
}

#[test]
fn high_ram_and_interrupt_enable() {
    let mut m = memory();
    m.write(0xFF80, 0x11);
    m.write(0xFFFE, 0x22);
    m.write(0xFFFF, 0x1F);
    assert_eq!(m.read(0xFF80), 0x11);
    assert_eq!(m.read(0xFFFE), 0x22);
    assert_eq!(m.read(0xFFFF), 0x1F);
}

#[test]
fn video_ram_roundtrip() {
    let mut m = memory();
    m.write(0x8000, 0x3C);
    assert_eq!(m.read(0x8000), 0x3C);
    assert!(m.vram_changed);
}

#[test]
fn writing_div_clears_it() {
    let mut m = memory();
    m.update_div(0x42);
    assert_eq!(m.read(0xFF04), 0x42);
    m.write(0xFF04, 0x99);
    assert_eq!(m.read(0xFF04), 0x00);
    assert!(m.div_written);
}

#[test]
fn serial_output_collects_bytes() {
    let mut m = memory();
    m.write(0xFF01, b'H');
    m.write(0xFF02, 0x81);
    m.write(0xFF01, b'i');
    m.write(0xFF02, 0x81);
    assert_eq!(m.serial_output, vec![b'H', b'i']);
}

#[test]
fn joypad_register_goes_to_the_joypad() {
    let mut m = memory();
    m.joypad.set_key(Key::S, true);
    m.write(0xFF00, 0x20);
    assert_eq!(m.read(0xFF00) & 0x0F, 0x07);
}

#[test]
fn dma_copies_a_page_into_oam() {
    let mut m = memory();
    for i in 0..160u16 {
        m.write(0xC000 + i, i as u8 ^ 0x5A);
    }
    m.write(0xFF80, 0x77);
    m.write(0xFF46, 0xC0);
    assert!(m.oma_dma);
    // only high RAM can be used meanwhile
    assert_eq!(m.read(0xC000), 0xFF);
    assert_eq!(m.read(0xFF80), 0x77);
    m.write(0xC000, 0x00);
    for _ in 0..160 {
        m.oam_dma_transfer();
    }
    assert!(!m.oma_dma);
    for i in 0..160u16 {
        assert_eq!(m.read(0xFE00 + i), i as u8 ^ 0x5A);
    }
    // the write during the transfer was dropped
    assert_eq!(m.read(0xC000), 0x5A);
}

#[test]
fn dma_engine_writes_oam_directly() {
    let mut m = memory();
    m.write_during_dma(0xFE10, 0x66);
    assert_eq!(m.read(0xFE10), 0x66);
    m.write_during_dma(0xC010, 0x67);
    assert_eq!(m.read(0xC010), 0x67);
}

#[test]
fn unusable_area_reads_ff() {
    let m = memory();
    assert_eq!(m.read(0xFEA0), 0xFF);
}

#[test]
fn dma_from_oam_itself_keeps_oam() {
    let mut m = memory();
    for i in 0..160u16 {
        m.write(0xFE00 + i, i as u8);
    }
    m.write(0xFF46, 0xFE);
    for k in 0..160u16 {
        assert!(m.oma_dma);
        assert_eq!(m.oma_cycles, k);
        m.oam_dma_transfer();
    }
    assert!(!m.oma_dma);
    for i in 0..160u16 {
        assert_eq!(m.read(0xFE00 + i), i as u8);
    }
}
