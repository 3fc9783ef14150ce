use gameboy::ram::RAM;
use gameboy::timer::Timer;

fn banked_rom() -> Vec<u8> {
    let mut rom = vec![0u8; 4 * 0x4000];
    for (i, b) in rom.iter_mut().enumerate() {
        *b = (i / 0x4000) as u8;
    }
    rom
}

#[test]
fn ram_maps_rom_banks() {
    let mut r = RAM::new(banked_rom());
    assert_eq!(r.read(0x0000), 0);
    assert_eq!(r.read(0x4000), 1);
    r.write(0x2000, 3);
    assert_eq!(r.read(0x4000), 3);
    // a bank past the end reads 0xFF
    r.write(0x2000, 9);
    assert_eq!(r.read(0x4000), 0xFF);
}

#[test]
fn ram_regions_roundtrip() {
    let mut r = RAM::new(banked_rom());
    r.write(0x8001, 1);
    r.write(0xA002, 2);
    r.write(0xC003, 3);
    r.write(0xFE04, 4);
    r.write(0xFF05, 5);
    r.write(0xFF86, 6);
    r.write(0xFFFF, 7);
    assert_eq!(r.read(0x8001), 1);
    assert_eq!(r.read(0xA002), 2);
    assert_eq!(r.read(0xC003), 3);
    assert_eq!(r.read(0xE003), 3);
    assert_eq!(r.read(0xFE04), 4);
    assert_eq!(r.read(0xFF05), 5);
    assert_eq!(r.read(0xFF86), 6);
    assert_eq!(r.read(0xFFFF), 7);
    assert_eq!(r.read(0xFEA0), 0x00);
}

#[test]
fn ram_div_and_serial() {
    let mut r = RAM::new(banked_rom());
    r.update_div(0x10);
    assert_eq!(r.read(0xFF04), 0x10);
    r.write(0xFF04, 0x55);
    assert_eq!(r.read(0xFF04), 0x00);
    r.write(0xFF01, b'O');
    r.write(0xFF02, 0x81);
    assert_eq!(r.serial_output, vec![b'O']);
}

#[test]
fn div_counts_every_256_cycles() {
    let mut r = RAM::new(banked_rom());
    let mut t = Timer::new();
    t.timer(&mut r, 256);
    assert_eq!(r.read(0xFF04), 1);
    t.timer(&mut r, 100);
    assert_eq!(r.read(0xFF04), 1);
    t.timer(&mut r, 156);
    assert_eq!(r.read(0xFF04), 2);
    t.timer(&mut r, 1024);
    assert_eq!(r.read(0xFF04), 6);
}

#[test]
fn tima_counts_at_the_selected_rate() {
    let mut r = RAM::new(banked_rom());
    let mut t = Timer::new();
    // enabled, 262144 Hz: one increment per 16 cycles
    r.write(0xFF07, 0x05);
    t.timer(&mut r, 40);
    assert_eq!(r.read(0xFF05), 2);
    t.timer(&mut r, 8);
    assert_eq!(r.read(0xFF05), 3);
    // 4096 Hz: one per 1024 cycles
    r.write(0xFF07, 0x04);
    r.write(0xFF05, 0);
    t.timer(&mut r, 1023);
    assert_eq!(r.read(0xFF05), 0);
}

#[test]
fn tima_disabled_does_not_count() {
    let mut r = RAM::new(banked_rom());
    let mut t = Timer::new();
    r.write(0xFF07, 0x01);
    t.timer(&mut r, 4000);
    assert_eq!(r.read(0xFF05), 0);
}

#[test]
fn tima_overflow_reloads_tma_and_interrupts() {
    let mut r = RAM::new(banked_rom());
    let mut t = Timer::new();
    r.write(0xFF05, 0xFF);
    r.write(0xFF06, 0x10);
    r.write(0xFF07, 0x05);
    t.timer(&mut r, 16);
    assert_eq!(r.read(0xFF05), 0x00);
    assert_eq!(r.read(0xFF0F) & 0x04, 0);
    t.timer(&mut r, 4);
    assert_eq!(r.read(0xFF05), 0x10);
    assert_eq!(r.read(0xFF0F) & 0x04, 0x04);
}
