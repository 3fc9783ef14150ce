use gameboy::cartridge::{Mapper, MBC0};
use gameboy::cpu::CPU;
use gameboy::cpu::timer::Timer;
use gameboy::input::Joypad;
use gameboy::mmu::MMU;
use gameboy::ppu::PPU;

/// A machine running `program` from 0x0100 of a 32 KiB ROM-only cartridge.
fn machine(program: &[u8]) -> (CPU, PPU) {
    let mut rom = vec![0u8; 0x8000];
    rom[0x100..0x100 + program.len()].copy_from_slice(program);
    let mmu = MMU::new(Joypad::new(), Mapper::RomOnly(MBC0::new(rom)));
    let mut cpu = CPU::new(mmu);
    let ppu = PPU::new(&mut cpu.ram);
    (cpu, ppu)
}

fn step(cpu: &mut CPU, ppu: &mut PPU) {
    let opcode = cpu.fetch();
    cpu.execute(opcode, ppu);
}

#[test]
fn cpu_starts_where_the_boot_rom_leaves_it() {
    let (cpu, _ppu) = machine(&[]);
    assert_eq!(cpu.registers.get_pc(), 0x0100);
    assert_eq!(cpu.registers.get_sp(), 0xFFFE);
    assert_eq!(cpu.registers.get_af(), 0x01B0);
    assert_eq!(cpu.registers.get_bc(), 0x0013);
    assert_eq!(cpu.registers.get_de(), 0x00D8);
    assert_eq!(cpu.registers.get_hl(), 0x014D);
    assert_eq!(cpu.cycles, 0);
    assert!(cpu.ime);
    assert!(!cpu.halted);
}

#[test]
fn fetch_reads_at_pc_and_advances() {
    let (mut cpu, _ppu) = machine(&[0x3E, 0x42]);
    assert_eq!(cpu.fetch(), 0x3E);
    assert_eq!(cpu.registers.get_pc(), 0x0101);
    assert_eq!(cpu.cycles, 0);
}

#[test]
fn ld_a_d8_loads_the_operand() {
    let (mut cpu, mut ppu) = machine(&[0x3E, 0x42]);
    step(&mut cpu, &mut ppu);
    assert_eq!(cpu.registers.get_a(), 0x42);
    assert_eq!(cpu.registers.get_pc(), 0x0102);
    assert_eq!(cpu.cycles, 8);
}

#[test]
fn nop_takes_one_machine_cycle() {
    let (mut cpu, mut ppu) = machine(&[0x00]);
    step(&mut cpu, &mut ppu);
    assert_eq!(cpu.cycles, 4);
    assert_eq!(cpu.registers.get_pc(), 0x0101);
}

#[test]
fn add_sets_zero_half_carry_and_carry() {
    // LD A,0x3A ; LD B,0xC6 ; ADD A,B
    let (mut cpu, mut ppu) = machine(&[0x3E, 0x3A, 0x06, 0xC6, 0x80]);
    for _ in 0..3 {
        step(&mut cpu, &mut ppu);
    }
    assert_eq!(cpu.registers.get_a(), 0x00);
    assert_eq!(cpu.registers.get_f(), 0xB0);
}

#[test]
fn sub_sets_the_subtract_flag() {
    // LD A,0x3E ; SUB 0x0F
    let (mut cpu, mut ppu) = machine(&[0x3E, 0x3E, 0xD6, 0x0F]);
    step(&mut cpu, &mut ppu);
    step(&mut cpu, &mut ppu);
    assert_eq!(cpu.registers.get_a(), 0x2F);
    // N and H (borrow from bit 4)
    assert_eq!(cpu.registers.get_f(), 0x60);
}

#[test]
fn cp_keeps_a() {
    // LD A,0x3C ; CP 0x3C
    let (mut cpu, mut ppu) = machine(&[0x3E, 0x3C, 0xFE, 0x3C]);
    step(&mut cpu, &mut ppu);
    step(&mut cpu, &mut ppu);
    assert_eq!(cpu.registers.get_a(), 0x3C);
    assert_eq!(cpu.registers.get_f(), 0xC0);
}

#[test]
fn inc_wraps_and_keeps_carry() {
    // LD A,0xFF ; SCF ; INC A
    let (mut cpu, mut ppu) = machine(&[0x3E, 0xFF, 0x37, 0x3C]);
    for _ in 0..3 {
        step(&mut cpu, &mut ppu);
    }
    assert_eq!(cpu.registers.get_a(), 0x00);
    assert_eq!(cpu.registers.get_f(), 0xB0);
}

#[test]
fn dec_to_zero_sets_zero_and_subtract() {
    // LD B,0x01 ; DEC B
    let (mut cpu, mut ppu) = machine(&[0x06, 0x01, 0x05]);
    step(&mut cpu, &mut ppu);
    let carry = cpu.registers.get_f() & 0x10;
    step(&mut cpu, &mut ppu);
    assert_eq!(cpu.registers.get_b(), 0x00);
    assert_eq!(cpu.registers.get_f(), 0xC0 | carry);
}

#[test]
fn xor_a_clears_a() {
    let (mut cpu, mut ppu) = machine(&[0xAF]);
    step(&mut cpu, &mut ppu);
    assert_eq!(cpu.registers.get_a(), 0x00);
    assert_eq!(cpu.registers.get_f(), 0x80);
}

#[test]
fn daa_adjusts_a_bcd_sum() {
    // LD A,0x15 ; ADD A,0x27 ; DAA
    let (mut cpu, mut ppu) = machine(&[0x3E, 0x15, 0xC6, 0x27, 0x27]);
    for _ in 0..3 {
        step(&mut cpu, &mut ppu);
    }
    assert_eq!(cpu.registers.get_a(), 0x42);
    assert_eq!(cpu.registers.get_f() & 0x80, 0);
}

#[test]
fn ld_rr_d16_is_little_endian() {
    // LD HL,0xC123
    let (mut cpu, mut ppu) = machine(&[0x21, 0x23, 0xC1]);
    step(&mut cpu, &mut ppu);
    assert_eq!(cpu.registers.get_hl(), 0xC123);
    assert_eq!(cpu.registers.get_pc(), 0x0103);
    assert_eq!(cpu.cycles, 12);
}

#[test]
fn store_and_load_through_hl() {
    // LD HL,0xC000 ; LD (HL),0x99 ; LD B,(HL)
    let (mut cpu, mut ppu) = machine(&[0x21, 0x00, 0xC0, 0x36, 0x99, 0x46]);
    for _ in 0..3 {
        step(&mut cpu, &mut ppu);
    }
    assert_eq!(cpu.ram.read(0xC000), 0x99);
    assert_eq!(cpu.registers.get_b(), 0x99);
}

#[test]
fn jr_jumps_relative_to_the_next_instruction() {
    let (mut cpu, mut ppu) = machine(&[0x18, 0x05]);
    step(&mut cpu, &mut ppu);
    assert_eq!(cpu.registers.get_pc(), 0x0107);
    assert_eq!(cpu.cycles, 12);
}

#[test]
fn jr_backwards() {
    // JR -2 jumps onto itself
    let (mut cpu, mut ppu) = machine(&[0x18, 0xFE]);
    step(&mut cpu, &mut ppu);
    assert_eq!(cpu.registers.get_pc(), 0x0100);
}

#[test]
fn jp_a16() {
    let (mut cpu, mut ppu) = machine(&[0xC3, 0x50, 0x01]);
    step(&mut cpu, &mut ppu);
    assert_eq!(cpu.registers.get_pc(), 0x0150);
    assert_eq!(cpu.cycles, 16);
}

#[test]
fn push_then_pop_moves_a_pair() {
    // PUSH BC ; POP DE
    let (mut cpu, mut ppu) = machine(&[0xC5, 0xD1]);
    step(&mut cpu, &mut ppu);
    assert_eq!(cpu.registers.get_sp(), 0xFFFC);
    assert_eq!(cpu.ram.read(0xFFFD), 0x00);
    assert_eq!(cpu.ram.read(0xFFFC), 0x13);
    assert_eq!(cpu.cycles, 16);
    step(&mut cpu, &mut ppu);
    assert_eq!(cpu.registers.get_de(), 0x0013);
    assert_eq!(cpu.registers.get_sp(), 0xFFFE);
    assert_eq!(cpu.cycles, 28);
}

#[test]
fn push_pop_af_restores_af() {
    // PUSH AF ; LD A,0 ; POP AF
    let (mut cpu, mut ppu) = machine(&[0xF5, 0x3E, 0x00, 0xF1]);
    for _ in 0..3 {
        step(&mut cpu, &mut ppu);
    }
    assert_eq!(cpu.registers.get_af(), 0x01B0);
    assert_eq!(cpu.registers.get_sp(), 0xFFFE);
}

#[test]
fn call_and_ret() {
    let mut program = vec![0u8; 0x200];
    // CALL 0x0200 at 0x0100, RET at 0x0200
    program[0] = 0xCD;
    program[1] = 0x00;
    program[2] = 0x02;
    program[0x100] = 0xC9;
    let (mut cpu, mut ppu) = machine(&program);
    step(&mut cpu, &mut ppu);
    assert_eq!(cpu.registers.get_pc(), 0x0200);
    assert_eq!(cpu.registers.get_sp(), 0xFFFC);
    assert_eq!(cpu.ram.read(0xFFFD), 0x01);
    assert_eq!(cpu.ram.read(0xFFFC), 0x03);
    assert_eq!(cpu.cycles, 24);
    step(&mut cpu, &mut ppu);
    assert_eq!(cpu.registers.get_pc(), 0x0103);
    assert_eq!(cpu.registers.get_sp(), 0xFFFE);
    assert_eq!(cpu.cycles, 40);
}

#[test]
fn rst_pushes_and_jumps() {
    // RST 0x38
    let (mut cpu, mut ppu) = machine(&[0xFF]);
    step(&mut cpu, &mut ppu);
    assert_eq!(cpu.registers.get_pc(), 0x0038);
    assert_eq!(cpu.registers.get_sp(), 0xFFFC);
    assert_eq!(cpu.ram.read(0xFFFC), 0x01);
    assert_eq!(cpu.ram.read(0xFFFD), 0x01);
}

#[test]
fn cb_swap_a() {
    // LD A,0x01 ; SWAP A
    let (mut cpu, mut ppu) = machine(&[0x3E, 0x01, 0xCB, 0x37]);
    step(&mut cpu, &mut ppu);
    step(&mut cpu, &mut ppu);
    assert_eq!(cpu.registers.get_a(), 0x10);
    assert_eq!(cpu.registers.get_f(), 0x00);
}

#[test]
fn cb_bit_tests_a_bit() {
    // BIT 7,A with A = 0x01: Z set, H set, C kept
    let (mut cpu, mut ppu) = machine(&[0xCB, 0x7F]);
    step(&mut cpu, &mut ppu);
    assert_eq!(cpu.registers.get_f(), 0xA0 | 0x10);
    assert_eq!(cpu.registers.get_a(), 0x01);
}

#[test]
fn cb_set_and_res() {
    // SET 3,B ; RES 0,C
    let (mut cpu, mut ppu) = machine(&[0xCB, 0xD8, 0xCB, 0x81]);
    step(&mut cpu, &mut ppu);
    step(&mut cpu, &mut ppu);
    assert_eq!(cpu.registers.get_b(), 0x08);
    assert_eq!(cpu.registers.get_c(), 0x12);
}

#[test]
fn rlca_rotates_into_carry() {
    // LD A,0x85 ; RLCA
    let (mut cpu, mut ppu) = machine(&[0x3E, 0x85, 0x07]);
    step(&mut cpu, &mut ppu);
    step(&mut cpu, &mut ppu);
    assert_eq!(cpu.registers.get_a(), 0x0B);
    assert_eq!(cpu.registers.get_f(), 0x10);
}

#[test]
fn halt_halts() {
    let (mut cpu, mut ppu) = machine(&[0x76]);
    step(&mut cpu, &mut ppu);
    assert!(cpu.halted);
    assert_eq!(cpu.cycles, 4);
}

#[test]
fn di_and_ei() {
    // DI ; EI
    let (mut cpu, mut ppu) = machine(&[0xF3, 0xFB]);
    step(&mut cpu, &mut ppu);
    assert!(!cpu.ime);
    step(&mut cpu, &mut ppu);
    assert!(cpu.ime_queued || cpu.ime);
}

#[test]
fn every_instruction_takes_whole_machine_cycles() {
    let program = [0x00, 0x3E, 0x12, 0x06, 0x34, 0x80, 0xC5, 0xD1, 0x21, 0x00, 0xC0, 0x77, 0x23, 0xCB, 0x27, 0x18, 0x00];
    let (mut cpu, mut ppu) = machine(&program);
    for _ in 0..11 {
        let before = cpu.cycles;
        step(&mut cpu, &mut ppu);
        let taken = cpu.cycles - before;
        assert!(taken >= 4 && taken <= 24);
        assert_eq!(taken % 4, 0);
    }
}

#[test]
fn vblank_interrupt_is_serviced() {
    let (mut cpu, mut ppu) = machine(&[]);
    cpu.ram.write(0xFFFF, 0x01);
    cpu.ram.write(0xFF0F, 0x01);
    cpu.handle_interrupt(&mut ppu);
    assert_eq!(cpu.registers.get_pc(), 0x0040);
    assert_eq!(cpu.registers.get_sp(), 0xFFFC);
    assert_eq!(cpu.ram.read(0xFFFD), 0x01);
    assert_eq!(cpu.ram.read(0xFFFC), 0x00);
    assert_eq!(cpu.ram.read(0xFF0F) & 0x01, 0);
    assert!(!cpu.ime);
    assert_eq!(cpu.cycles, 20);
}

#[test]
fn interrupts_go_by_priority() {
    let (mut cpu, mut ppu) = machine(&[]);
    cpu.ram.write(0xFFFF, 0x1F);
    cpu.ram.write(0xFF0F, 0x14);
    cpu.handle_interrupt(&mut ppu);
    // timer (bit 2) before joypad (bit 4)
    assert_eq!(cpu.registers.get_pc(), 0x0050);
    assert_eq!(cpu.ram.read(0xFF0F) & 0x14, 0x10);
}

#[test]
fn no_interrupt_without_a_request() {
    let (mut cpu, mut ppu) = machine(&[]);
    cpu.ram.write(0xFFFF, 0x01);
    cpu.handle_interrupt(&mut ppu);
    assert_eq!(cpu.registers.get_pc(), 0x0100);
    assert_eq!(cpu.cycles, 0);
}

#[test]
fn interrupt_wakes_halt_without_ime() {
    let (mut cpu, mut ppu) = machine(&[0xF3, 0x76, 0x00]);
    step(&mut cpu, &mut ppu);
    step(&mut cpu, &mut ppu);
    assert!(cpu.halted);
    cpu.ram.write(0xFFFF, 0x04);
    cpu.ram.write(0xFF0F, 0x04);
    cpu.handle_interrupt(&mut ppu);
    // not serviced: the halt bug runs the next opcode without advancing PC
    assert!(!cpu.halted);
    assert_eq!(cpu.registers.get_pc(), 0x0102);
}

#[test]
fn div_counts_after_boot_value() {
    let (mut cpu, mut ppu) = machine(&[0x00]);
    step(&mut cpu, &mut ppu);
    assert_eq!(cpu.ram.read(0xFF04), 0xAB);
}

#[test]
fn nop_and_tick_advance_the_clock() {
    let (mut cpu, mut ppu) = machine(&[]);
    cpu.nop(&mut ppu);
    assert_eq!(cpu.cycles, 4);
    cpu.tick(&mut ppu);
    assert_eq!(cpu.cycles, 4);
}

#[test]
fn hardware_ticks_leave_work_ram_alone() {
    let (mut cpu, mut ppu) = machine(&[]);
    cpu.ram.write(0xC100, 0x5A);
    cpu.ram.write(0xFF90, 0xA5);
    // LCD and timer running
    cpu.ram.write(0xFF40, 0x91);
    cpu.ram.write(0xFF07, 0x05);
    for _ in 0..20000 {
        cpu.nop(&mut ppu);
    }
    assert_eq!(cpu.ram.read(0xC100), 0x5A);
    assert_eq!(cpu.ram.read(0xFF90), 0xA5);
    assert!(ppu.scanline <= 153);
}

#[test]
fn push_bc_pop_de_and_af_masking() {
    // LD BC,0x12FF ; PUSH BC ; POP AF
    let (mut cpu, mut ppu) = machine(&[0x01, 0xFF, 0x12, 0xC5, 0xF1]);
    for _ in 0..3 {
        step(&mut cpu, &mut ppu);
    }
    assert_eq!(cpu.registers.get_af(), 0x12F0);
    assert_eq!(cpu.registers.get_sp(), 0xFFFE);
}

#[test]
fn swap_twice_and_rlc_rrc_give_the_register_back() {
    // LD D,0x9C ; SWAP D ; SWAP D ; RLC D ; RRC D
    let (mut cpu, mut ppu) = machine(&[0x16, 0x9C, 0xCB, 0x32, 0xCB, 0x32, 0xCB, 0x02, 0xCB, 0x0A]);
    step(&mut cpu, &mut ppu);
    step(&mut cpu, &mut ppu);
    assert_eq!(cpu.registers.get_d(), 0xC9);
    step(&mut cpu, &mut ppu);
    assert_eq!(cpu.registers.get_d(), 0x9C);
    step(&mut cpu, &mut ppu);
    assert_eq!(cpu.registers.get_d(), 0x39);
    step(&mut cpu, &mut ppu);
    assert_eq!(cpu.registers.get_d(), 0x9C);
}

#[test]
fn nothing_pending_applies_a_queued_ei() {
    // EI
    let (mut cpu, mut ppu) = machine(&[0xF3, 0xFB]);
    step(&mut cpu, &mut ppu);
    step(&mut cpu, &mut ppu);
    let cycles = cpu.cycles;
    cpu.handle_interrupt(&mut ppu);
    assert!(cpu.ime);
    assert!(!cpu.ime_queued);
    assert_eq!(cpu.cycles, cycles);
}

#[test]
fn timer_runs_compose() {
    let (mut cpu_a, _p) = machine(&[]);
    let (mut cpu_b, _q) = machine(&[]);
    cpu_a.ram.write(0xFF07, 0x05);
    cpu_b.ram.write(0xFF07, 0x05);
    let mut t1 = Timer::new();
    let mut t2 = Timer::new();
    t1.timer(&mut cpu_a.ram, 300);
    t1.timer(&mut cpu_a.ram, 700);
    t2.timer(&mut cpu_b.ram, 1000);
    assert_eq!(cpu_a.ram.read(0xFF04), cpu_b.ram.read(0xFF04));
    assert_eq!(cpu_a.ram.read(0xFF05), cpu_b.ram.read(0xFF05));
    assert_eq!(cpu_a.ram.read(0xFF0F), cpu_b.ram.read(0xFF0F));
    assert_eq!(cpu_a.ram.read(0xFF05) as u32, 1000 / 16);
}
