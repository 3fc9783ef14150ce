use gameboy::cpu::registers::{FLAGS, REGISTERS, FLAG_C, FLAG_H, FLAG_N, FLAG_Z};

#[test]
fn registers_boot_values() {
    let r = REGISTERS::new();
    assert_eq!(r.get_a(), 0x01);
    assert_eq!(r.get_f(), 0xB0);
    assert_eq!(r.get_b(), 0x00);
    assert_eq!(r.get_c(), 0x13);
    assert_eq!(r.get_d(), 0x00);
    assert_eq!(r.get_e(), 0xD8);
    assert_eq!(r.get_h(), 0x01);
    assert_eq!(r.get_l(), 0x4D);
    assert_eq!(r.get_pc(), 0x0100);
    assert_eq!(r.get_sp(), 0xFFFE);
}

#[test]
fn eight_bit_setters_and_getters() {
    let mut r = REGISTERS::new();
    r.set_a(1);
    r.set_b(2);
    r.set_c(3);
    r.set_d(4);
    r.set_e(5);
    r.set_h(6);
    r.set_l(7);
    assert_eq!((r.get_a(), r.get_b(), r.get_c(), r.get_d()), (1, 2, 3, 4));
    assert_eq!((r.get_e(), r.get_h(), r.get_l()), (5, 6, 7));
}

#[test]
fn f_drops_its_low_nibble() {
    let mut r = REGISTERS::new();
    r.set_f(0xFF);
    assert_eq!(r.get_f(), 0xF0);
    r.set_af(0x12FF);
    assert_eq!(r.get_a(), 0x12);
    assert_eq!(r.get_f(), 0xF0);
    assert_eq!(r.get_af(), 0x12F0);
}

#[test]
fn pairs_join_high_and_low() {
    let mut r = REGISTERS::new();
    r.set_bc(0xBEEF);
    assert_eq!(r.get_b(), 0xBE);
    assert_eq!(r.get_c(), 0xEF);
    assert_eq!(r.get_bc(), 0xBEEF);
    r.set_d(0x12);
    r.set_e(0x34);
    assert_eq!(r.get_de(), 0x1234);
    r.set_hl(0x8001);
    assert_eq!(r.get_h(), 0x80);
    assert_eq!(r.get_l(), 0x01);
    assert_eq!(r.get_hl(), 0x8001);
}

#[test]
fn pc_and_sp() {
    let mut r = REGISTERS::new();
    r.set_pc(0x1234);
    r.set_sp(0xC000);
    assert_eq!(r.get_pc(), 0x1234);
    assert_eq!(r.get_sp(), 0xC000);
}

#[test]
fn get_and_inc_pc_wraps() {
    let mut r = REGISTERS::new();
    assert_eq!(r.get_and_inc_pc(), 0x0100);
    assert_eq!(r.get_pc(), 0x0101);
    r.set_pc(0xFFFF);
    assert_eq!(r.get_and_inc_pc(), 0xFFFF);
    assert_eq!(r.get_pc(), 0x0000);
}

#[test]
fn flag_masks() {
    assert_eq!(FLAGS::Z.mask(), FLAG_Z);
    assert_eq!(FLAGS::N.mask(), FLAG_N);
    assert_eq!(FLAGS::H.mask(), FLAG_H);
    assert_eq!(FLAGS::C.mask(), FLAG_C);
    assert_eq!(FLAG_Z | FLAG_N | FLAG_H | FLAG_C, 0xF0);
}
