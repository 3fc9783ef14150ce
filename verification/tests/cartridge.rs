use gameboy::cartridge::{Cartridge, Mapper, MBC0, MBC1, MBC3};

/// A ROM of `banks` 16 KiB banks, each byte holding its bank number.
fn banked_rom(banks: usize) -> Vec<u8> {
    let mut rom = vec![0u8; banks * 0x4000];
    for (i, b) in rom.iter_mut().enumerate() {
        *b = (i / 0x4000) as u8;
    }
    rom
}

#[test]
fn rom_only_reads_rom_and_ignores_writes() {
    let mut rom = vec![0u8; 0x8000];
    rom[0x0150] = 0x42;
    rom[0x7FFF] = 0x24;
    let mut c = MBC0::new(rom);
    assert_eq!(c.read(0x0150), 0x42);
    assert_eq!(c.read(0x7FFF), 0x24);
    c.write(0x0150, 0x99);
    assert_eq!(c.read(0x0150), 0x42);
}

#[test]
fn rom_only_reads_ff_past_the_end() {
    let c = MBC0::new(vec![1u8; 0x100]);
    assert_eq!(c.read(0x0100), 0xFF);
    assert_eq!(c.read(0x00FF), 0x01);
}

#[test]
fn mbc1_switches_rom_banks() {
    let mut c = MBC1::new(banked_rom(8), 0);
    assert_eq!(c.active_rom_bank(), 1);
    assert_eq!(c.read(0x4000), 1);
    c.write(0x2000, 5);
    assert_eq!(c.active_rom_bank(), 5);
    assert_eq!(c.read(0x4000), 5);
    assert_eq!(c.read_rom(0x7FFF), 5);
    // bank 0 selects bank 1
    c.write(0x2000, 0);
    assert_eq!(c.active_rom_bank(), 1);
    // bank 0 stays at 0x0000-0x3FFF
    assert_eq!(c.read(0x0000), 0);
}

#[test]
fn mbc1_caps_the_bank_at_the_last_one() {
    let mut c = MBC1::new(banked_rom(4), 0);
    c.write(0x2000, 0x1F);
    assert_eq!(c.active_rom_bank(), 3);
    assert_eq!(c.read(0x4000), 3);
}

#[test]
fn mbc1_upper_bank_bits() {
    let mut c = MBC1::new(banked_rom(64), 0);
    c.write(0x4000, 0x01);
    c.write(0x2000, 0x02);
    assert_eq!(c.active_rom_bank(), 0x22);
    assert_eq!(c.read(0x4000), 0x22);
}

#[test]
fn mbc1_ram_needs_enabling() {
    let mut c = MBC1::new(banked_rom(2), 0x2000);
    c.write(0xA000, 0x55);
    assert_eq!(c.read(0xA000), 0xFF);
    c.write(0x0000, 0x0A);
    c.write(0xA000, 0x55);
    assert_eq!(c.read(0xA000), 0x55);
    c.write(0x0000, 0x00);
    assert_eq!(c.read(0xA000), 0xFF);
}

#[test]
fn mbc1_ram_banks() {
    let mut c = MBC1::new(banked_rom(2), 0x8000);
    c.write(0x0000, 0x0A);
    c.write(0x6000, 0x01);
    c.write(0x4000, 0x02);
    c.write(0xA000, 0x77);
    c.write(0x4000, 0x00);
    assert_eq!(c.read(0xA000), 0x00);
    c.write(0x4000, 0x02);
    assert_eq!(c.read(0xA000), 0x77);
}

#[test]
fn mbc3_switches_rom_banks() {
    let mut c = MBC3::new(banked_rom(8), 0);
    assert_eq!(c.read(0x4000), 1);
    c.write(0x2000, 6);
    assert_eq!(c.read(0x4000), 6);
    c.write(0x2000, 0);
    assert_eq!(c.read(0x4000), 1);
}

#[test]
fn mbc3_ram_roundtrip() {
    let mut c = MBC3::new(banked_rom(2), 0x2000);
    c.write(0x0000, 0x0A);
    c.write(0xA123, 0x5A);
    assert_eq!(c.read(0xA123), 0x5A);
}

#[test]
fn mapper_dispatches_to_its_cartridge() {
    let mut m = Mapper::Mbc1(MBC1::new(banked_rom(4), 0x2000));
    m.write(0x2000, 2);
    assert_eq!(m.read(0x4000), 2);
    m.write(0x0000, 0x0A);
    m.write(0xB000, 0x11);
    assert_eq!(m.read(0xB000), 0x11);
    let r = Mapper::RomOnly(MBC0::new(vec![7u8; 0x8000]));
    assert_eq!(r.read(0x1234), 7);
}

#[test]
fn mbc3_clock_reads_latched_values() {
    let mut c = MBC3::new(banked_rom(2), 0x2000);
    c.write(0x0000, 0x0A);
    // select the seconds register and set it
    c.write(0x4000, 0x08);
    c.write(0xA000, 0x2A);
    assert_eq!(c.read(0xA000), 0x00);
    // latch: 0x00 then 0x01
    c.write(0x6000, 0x00);
    c.write(0x6000, 0x01);
    assert_eq!(c.read(0xA000), 0x2A);
    // back to RAM bank 0
    c.write(0x4000, 0x00);
    assert_eq!(c.read(0xA000), 0x00);
}

#[test]
fn mbc3_bank_registers_stay_in_range() {
    let mut c = MBC3::new(banked_rom(128), 0x8000);
    c.write(0x2000, 0xFF);
    assert_eq!(c.read(0x4000), 0x7F);
    c.write(0x2000, 0x80);
    assert_eq!(c.read(0x4000), 1);
    c.write(0x0000, 0x0A);
    c.write(0x4000, 0x03);
    c.write(0xA000, 0x33);
    c.write(0x4000, 0x07);
    c.write(0x4000, 0x03);
    assert_eq!(c.read(0xA000), 0x33);
}

#[test]
fn mbc3_without_rom_still_serves_ram() {
    let mut c = MBC3::new(Vec::new(), 0x2000);
    assert_eq!(c.read(0x0000), 0xFF);
    c.write(0x0000, 0x0A);
    c.write(0xA010, 0x44);
    assert_eq!(c.read(0xA010), 0x44);
}
