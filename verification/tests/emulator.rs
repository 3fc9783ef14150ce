use gameboy::emulator::EMULATOR;

/// A 64 KiB ROM with the given cartridge type and RAM size codes.
fn rom(kind: u8, ram_code: u8) -> Vec<u8> {
    let mut rom = vec![0u8; 0x10000];
    rom[0x0147] = kind;
    rom[0x0149] = ram_code;
    rom
}

#[test]
fn emulator_starts_the_cpu_at_0x100() {
    let e = EMULATOR::new(rom(0x00, 0x00));
    assert_eq!(e.cpu.registers.get_pc(), 0x0100);
    assert_eq!(e.cpu.cycles, 0);
    assert_eq!(e.ppu.scanline, 0);
    assert!(!e.battery);
    assert!(!e.rtc_enabled);
}

#[test]
fn cartridge_kinds_set_battery_and_clock() {
    let e = EMULATOR::new(rom(0x03, 0x02));
    assert!(e.battery && !e.rtc_enabled);
    let e = EMULATOR::new(rom(0x0F, 0x00));
    assert!(e.battery && e.rtc_enabled);
    let e = EMULATOR::new(rom(0x10, 0x03));
    assert!(e.battery && e.rtc_enabled);
    let e = EMULATOR::new(rom(0x11, 0x00));
    assert!(!e.battery && !e.rtc_enabled);
    let e = EMULATOR::new(rom(0x13, 0x04));
    assert!(e.battery && !e.rtc_enabled);
    let e = EMULATOR::new(rom(0x01, 0x05));
    assert!(!e.battery);
}

#[test]
fn saves_need_a_battery() {
    let mut e = EMULATOR::new(rom(0x01, 0x02));
    assert_eq!(e.save_to_file(), Err("Cartridge does not support battery saves".to_string()));
    assert_eq!(e.load_save(Ok(vec![1, 2, 3])), Err("Cartridge does not support battery saves".to_string()));
}

#[test]
fn empty_save_is_refused() {
    let mut e = EMULATOR::new(rom(0x03, 0x02));
    assert_eq!(e.load_save(Ok(Vec::new())), Err("Save file is empty".to_string()));
}

#[test]
fn unreadable_save_passes_its_error_on() {
    let mut e = EMULATOR::new(rom(0x03, 0x02));
    let err = Err("Failed to read save file: missing".to_string());
    assert_eq!(e.load_save(err.clone()), Err("Failed to read save file: missing".to_string()));
}

#[test]
fn save_roundtrip_through_cartridge_ram() {
    let mut e = EMULATOR::new(rom(0x03, 0x02));
    // enable cartridge RAM
    e.cpu.ram.write(0x0000, 0x0A);
    assert_eq!(e.load_save(Ok(vec![1, 2, 3])), Ok(()));
    let data = e.save_to_file().unwrap();
    assert_eq!(data.len(), 0x2000);
    assert_eq!(&data[0..4], &[1, 2, 3, 0]);
    assert_eq!(e.cpu.ram.read(0xA001), 2);
}

#[test]
fn save_larger_than_the_window_is_cut() {
    let mut e = EMULATOR::new(rom(0x13, 0x03));
    e.cpu.ram.write(0x0000, 0x0A);
    let big = vec![7u8; 0x3000];
    assert_eq!(e.load_save(Ok(big)), Ok(()));
    let data = e.save_to_file().unwrap();
    assert!(data.iter().all(|&b| b == 7));
}

#[test]
fn disabled_cartridge_ram_saves_as_ff() {
    let e = EMULATOR::new(rom(0x03, 0x02));
    let data = e.save_to_file().unwrap();
    assert!(data.iter().all(|&b| b == 0xFF));
}

#[test]
fn step_runs_the_next_instruction() {
    let mut r = rom(0x00, 0x00);
    // LD A,0x42 at 0x0100
    r[0x100] = 0x3E;
    r[0x101] = 0x42;
    let mut e = EMULATOR::new(r);
    e.step();
    assert_eq!(e.cpu.registers.get_a(), 0x42);
    assert_eq!(e.cpu.registers.get_pc(), 0x0102);
    assert_eq!(e.cpu.cycles, 8);
}

#[test]
fn step_idles_while_halted() {
    let mut r = rom(0x00, 0x00);
    r[0x100] = 0x76;
    let mut e = EMULATOR::new(r);
    e.step();
    assert!(e.cpu.halted);
    e.step();
    assert_eq!(e.cpu.registers.get_pc(), 0x0101);
    assert_eq!(e.cpu.cycles, 8);
}

#[test]
fn step_idles_during_dma() {
    let mut e = EMULATOR::new(rom(0x00, 0x00));
    e.cpu.ram.write(0xFF46, 0xC0);
    e.step();
    assert_eq!(e.cpu.registers.get_pc(), 0x0100);
    assert_eq!(e.cpu.cycles, 4);
}

#[test]
fn key_down_requests_the_joypad_interrupt() {
    let mut e = EMULATOR::new(rom(0x00, 0x00));
    e.cpu.stopped = true;
    e.key_event(gameboy::input::Key::Return, true);
    assert!(!e.cpu.stopped);
    assert_eq!(e.cpu.ram.read(0xFF0F) & 0x10, 0x10);
    e.cpu.ram.write(0xFF00, 0x10);
    assert_eq!(e.cpu.ram.read(0xFF00) & 0x0F, 0x07);
    e.cpu.ram.write(0xFF0F, 0x00);
    e.key_event(gameboy::input::Key::Return, false);
    assert_eq!(e.cpu.ram.read(0xFF0F) & 0x10, 0x00);
    assert_eq!(e.cpu.ram.read(0xFF00) & 0x0F, 0x0F);
}
