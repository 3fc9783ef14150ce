use gameboy::apu::{Audio, Channel};
use gameboy::cartridge::{Mapper, MBC0};
use gameboy::input::Joypad;
use gameboy::mmu::MMU;

fn memory() -> MMU {
    MMU::new(Joypad::new(), Mapper::RomOnly(MBC0::new(vec![0u8; 0x8000])))
}

#[test]
fn audio_starts_silent() {
    let a = Audio::new();
    assert!(!a.audio_enabled);
    assert!(!a.channel_1_enabled && !a.channel_4_enabled);
    assert_eq!(a.counter, 0);
    let c = Channel::new();
    assert_eq!(c.volume, 0);
    assert_eq!(c.length_timer, 0);
}

#[test]
fn audio_master_switch_and_channels() {
    let mut m = memory();
    m.write(0xFF26, 0x85);
    m.write(0xFF25, 0x21);
    let mut a = Audio::new();
    a.check_status(&m);
    assert!(a.audio_enabled);
    assert!(a.channel_1_enabled);
    assert!(!a.channel_2_enabled);
    assert!(a.channel_3_enabled);
    assert!(!a.channel_4_enabled);
    assert!(a.channel_2.pan_left && !a.channel_1.pan_left);
    assert!(a.channel_1.pan_right && !a.channel_2.pan_right);
}

#[test]
fn audio_off_ignores_the_channel_bits() {
    let mut m = memory();
    m.write(0xFF26, 0x0F);
    let mut a = Audio::new();
    a.check_status(&m);
    assert!(!a.audio_enabled);
    assert!(!a.channel_1_enabled);
}

#[test]
fn audio_step_counts_cycles() {
    let m = memory();
    let mut a = Audio::new();
    a.step(&m);
    a.step(&m);
    assert_eq!(a.counter, 8);
}

#[test]
fn expired_length_timer_disables_a_channel() {
    let mut m = memory();
    m.write(0xFF26, 0x00);
    let mut a = Audio::new();
    a.channel_1_enabled = true;
    a.channel_2_enabled = true;
    a.channel_2.length_timer = 64;
    a.step(&m);
    assert!(a.channel_1_enabled);
    assert!(!a.channel_2_enabled);
}
