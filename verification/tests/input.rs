use gameboy::input::{Joypad, Key};

#[test]
fn joypad_reads_all_released() {
    let mut j = Joypad::new();
    assert_eq!(j.read(), 0xFF);
    j.write(0x20);
    assert_eq!(j.read(), 0xEF);
}

#[test]
fn pressed_direction_reads_as_zero() {
    let mut j = Joypad::new();
    j.set_key(Key::D, true);
    // select the direction pad (bit 4 low)
    j.write(0x20);
    assert_eq!(j.read() & 0x0F, 0x0E);
    j.set_key(Key::D, false);
    assert_eq!(j.read() & 0x0F, 0x0F);
}

#[test]
fn pressed_button_reads_as_zero() {
    let mut j = Joypad::new();
    j.set_key(Key::Return, true);
    // select the buttons (bit 5 low)
    j.write(0x10);
    assert_eq!(j.read() & 0x0F, 0x07);
    // the direction pad does not see it
    j.write(0x20);
    assert_eq!(j.read() & 0x0F, 0x0F);
}

#[test]
fn both_lines_selected_combine() {
    let mut j = Joypad::new();
    j.set_key(Key::W, true);
    j.set_key(Key::Z, true);
    j.write(0x00);
    assert_eq!(j.read(), 0xC0 | 0x0A);
}

#[test]
fn other_keys_do_nothing() {
    let mut j = Joypad::new();
    j.set_key(Key::Other, true);
    j.write(0x00);
    assert_eq!(j.read() & 0x0F, 0x0F);
}

#[test]
fn top_bits_always_read_set() {
    let mut j = Joypad::new();
    j.write(0x00);
    assert_eq!(j.read() & 0xC0, 0xC0);
}

#[test]
fn keys_do_not_disturb_each_other() {
    let mut j = Joypad::new();
    j.set_key(Key::A, true);
    j.set_key(Key::S, true);
    j.set_key(Key::A, false);
    j.write(0x20);
    // only down (bit 3) stays pressed
    assert_eq!(j.read() & 0x0F, 0x07);
    j.set_key(Key::X, true);
    assert_eq!(j.read() & 0x0F, 0x07);
    j.write(0x10);
    assert_eq!(j.read() & 0x0F, 0x0D);
}
