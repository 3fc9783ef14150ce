//! Laws of the instruction set that hold across instructions.
use vstd::prelude::*;
use crate::cpu::{MachineView, cycles_ok, tick};
use crate::cpu::registers::{RegFile, pair};
use crate::cpu::spec::{add16, get_r8, set_r8, shift_value, flags, interrupt_spec, carry_in, alu_result, inc_result, dec_result};
use crate::cpu::timer::lemma_timer_keeps_ram;
use crate::mmu::{MMUView, in_ram, same_ram, lemma_same_ram_read, lemma_ram_write_read, lemma_ram_write_other};
use crate::ppu::lemma_ppu_keeps_ram;
use crate::cpu::spec::{execute_spec, execute_low, execute_load, execute_alu, execute_high, execute_cb,
    low_col0, low_col1, low_col2, low_col3, low_col45, low_col6, low_col7, high_ret, high_pop, high_push,
    high_jp, high_call, high_other, is_ret, is_pop, is_push, is_jp, is_call, reset_spec};

verus! {

/// The clock advanced by a whole number of machine cycles (four clock
/// cycles each), at least one and at most six.
pub open spec fn whole_machine_cycles(before: u64, after: u64) -> bool {
    &&& 4 <= after - before <= 24
    &&& (after - before) % 4 == 0
}

/// Every instruction takes between one and six machine cycles.
#[verifier::spinoff_prover]
pub proof fn lemma_instruction_cycles(op: u8, s: MachineView)
    requires
        cycles_ok(s.cycles),
    ensures
        whole_machine_cycles(s.cycles, execute_spec(op, s).cycles),
{
    if op < 0x40 {
        lemma_low_cycles(op, s);
    } else if op < 0x80 {
        assert(whole_machine_cycles(s.cycles, execute_load(op, s).cycles));
    } else if op < 0xC0 {
        assert(whole_machine_cycles(s.cycles, execute_alu(op, s).cycles));
    } else {
        lemma_high_cycles(op, s);
    }
}

#[verifier::spinoff_prover]
proof fn lemma_low_cycles(op: u8, s: MachineView)
    requires
        cycles_ok(s.cycles),
        op < 0x40,
    ensures
        whole_machine_cycles(s.cycles, execute_low(op, s).cycles),
{
    let col = op % 8;
    if col == 0 {
        assert(whole_machine_cycles(s.cycles, low_col0(op, s).cycles));
    } else if col == 1 {
        assert(whole_machine_cycles(s.cycles, low_col1(op, s).cycles));
    } else if col == 2 {
        assert(whole_machine_cycles(s.cycles, low_col2(op, s).cycles));
    } else if col == 3 {
        assert(whole_machine_cycles(s.cycles, low_col3(op, s).cycles));
    } else if col == 4 || col == 5 {
        assert(whole_machine_cycles(s.cycles, low_col45(op, s).cycles));
    } else if col == 6 {
        assert(whole_machine_cycles(s.cycles, low_col6(op, s).cycles));
    } else {
        assert(whole_machine_cycles(s.cycles, low_col7(op, s).cycles));
    }
}

#[verifier::spinoff_prover]
#[verifier::rlimit(100)]
proof fn lemma_high_cycles(op: u8, s: MachineView)
    requires
        cycles_ok(s.cycles),
        op >= 0xC0,
    ensures
        whole_machine_cycles(s.cycles, execute_high(op, s).cycles),
{
    if is_ret(op) {
        assert(whole_machine_cycles(s.cycles, high_ret(op, s).cycles));
    } else if is_pop(op) {
        assert(whole_machine_cycles(s.cycles, high_pop(op, s).cycles));
    } else if is_push(op) {
        assert(whole_machine_cycles(s.cycles, high_push(op, s).cycles));
    } else if is_jp(op) {
        assert(whole_machine_cycles(s.cycles, high_jp(op, s).cycles));
    } else if is_call(op) {
        assert(whole_machine_cycles(s.cycles, high_call(op, s).cycles));
    } else if op % 8 == 7 {
        assert(whole_machine_cycles(s.cycles, reset_spec(s, (op - 0xC7) as u16).cycles));
    } else if op % 8 == 6 {
        let (d, s1) = s.fetch();
        assert(whole_machine_cycles(s.cycles, s1.alu((op / 8 % 8) as u8, d).nop().cycles));
    } else if op == 0xCB {
        let (cb, s1) = s.fetch();
        assert(whole_machine_cycles(s1.cycles, execute_cb(cb, s1).cycles));
    } else {
        assert(whole_machine_cycles(s.cycles, high_other(op, s).cycles));
    }
}

/// While no OAM DMA transfer runs, the hardware beside the CPU (timer and
/// PPU) leaves work RAM and high RAM alone and starts no transfer.
pub proof fn lemma_tick_keeps_ram(s: MachineView)
    requires
        !s.mmu.oma_dma,
    ensures
        same_ram(s.mmu, tick(s).mmu),
{
    let (t, m) = crate::cpu::timer::timer_run(s.timer, s.mmu, 4);
    lemma_timer_keeps_ram(s.timer, s.mmu, 4);
    lemma_ppu_keeps_ram(s.ppu, m);
}

/// An idle machine cycle keeps the registers, work RAM, high RAM and DMA.
proof fn lemma_nop_keeps(s: MachineView, address: u16)
    requires
        !s.mmu.oma_dma,
        in_ram(address),
    ensures
        s.nop().regs == s.regs,
        same_ram(s.mmu, s.nop().mmu),
        s.nop().mmu.read(address) == s.mmu.read(address),
{
    lemma_tick_keeps_ram(MachineView { cycles: (s.cycles + 4) as u64, ..s });
    lemma_same_ram_read(s.mmu, s.nop().mmu, address);
}

/// The stack slots below SP: both in work RAM or high RAM.
pub open spec fn stack_in_ram(sp: u16) -> bool {
    in_ram(add16(sp, -1)) && in_ram(add16(sp, -2))
}

/// What PUSH leaves: SP two lower, the pair's high byte below the old SP
/// and its low byte below that.
proof fn lemma_push_effect(push: u8, s: MachineView) -> (v: u16)
    requires
        push == 0xC5 || push == 0xD5 || push == 0xE5 || push == 0xF5,
        s.mmu.wram.len() == 0x2000,
        s.mmu.hram.len() == 0x7F,
        !s.mmu.oma_dma,
        stack_in_ram(s.regs.sp),
    ensures
        v == (if push == 0xC5 { s.regs.bc() } else if push == 0xD5 { s.regs.de() } else if push == 0xE5 { s.regs.hl() } else { s.regs.af() }),
        ({
            let s1 = high_push(push, s);
            &&& s1.regs == RegFile { sp: add16(s.regs.sp, -2), ..s.regs }
            &&& s1.mmu.read(add16(s.regs.sp, -1)) == (v / 256) as u8
            &&& s1.mmu.read(add16(s.regs.sp, -2)) == (v % 256) as u8
            &&& !s1.mmu.oma_dma
            &&& s1.mmu.wram.len() == 0x2000
            &&& s1.mmu.hram.len() == 0x7F
        }),
{
    let r = s.regs;
    let a1 = add16(r.sp, -1);
    let a2 = add16(r.sp, -2);
    let v = if push == 0xC5 { r.bc() } else if push == 0xD5 { r.de() } else if push == 0xE5 { r.hl() } else { r.af() };
    let hi = (v / 256) as u8;
    let lo = (v % 256) as u8;
    if push == 0xC5 || push == 0xF5 {
        let t1 = s.nop();
        lemma_nop_keeps(s, a1);
        let t2 = t1.sp_down();
        let t3 = t2.nop();
        lemma_nop_keeps(t2, a1);
        let t4 = t3.write(t3.regs.sp, hi);
        lemma_ram_write_read(t3.mmu, a1, hi);
        let t5 = t4.nop();
        lemma_nop_keeps(t4, a1);
        let t6 = t5.sp_down();
        let t7 = t6.write(t6.regs.sp, lo);
        lemma_ram_write_read(t6.mmu, a2, lo);
        lemma_ram_write_other(t6.mmu, a2, lo, a1);
        let t8 = t7.nop();
        lemma_nop_keeps(t7, a1);
        lemma_nop_keeps(t7, a2);
        assert(t8 == high_push(push, s));
    } else {
        let t1 = s.sp_down();
        let t2 = t1.nop();
        lemma_nop_keeps(t1, a1);
        let t3 = t2.write(t2.regs.sp, hi);
        lemma_ram_write_read(t2.mmu, a1, hi);
        let t4 = t3.nop();
        lemma_nop_keeps(t3, a1);
        let t5 = t4.sp_down();
        let t6 = t5.nop();
        lemma_nop_keeps(t5, a1);
        let t7 = t6.write(t6.regs.sp, lo);
        lemma_ram_write_read(t6.mmu, a2, lo);
        lemma_ram_write_other(t6.mmu, a2, lo, a1);
        let t8 = t7.nop();
        lemma_nop_keeps(t7, a1);
        lemma_nop_keeps(t7, a2);
        assert(t8 == high_push(push, s));
    }
    v
}

/// What POP reads: the low byte at SP and the high byte above it, with
/// SP two higher; nothing else of the registers changes (POP AF drops the
/// low nibble of F).
proof fn lemma_pop_effect(pop: u8, s: MachineView)
    requires
        pop == 0xC1 || pop == 0xD1 || pop == 0xE1 || pop == 0xF1,
        !s.mmu.oma_dma,
        in_ram(s.regs.sp),
        in_ram(add16(s.regs.sp, 1)),
    ensures
        ({
            let lo = s.mmu.read(s.regs.sp);
            let hi = s.mmu.read(add16(s.regs.sp, 1));
            let r = RegFile { sp: add16(s.regs.sp, 2), ..s.regs };
            high_pop(pop, s).regs == (if pop == 0xC1 {
                r.with_bc(pair(hi, lo))
            } else if pop == 0xD1 {
                r.with_de(pair(hi, lo))
            } else if pop == 0xE1 {
                r.with_hl(pair(hi, lo))
            } else {
                r.with_af(pair(hi, lo & 0xF0))
            })
        }),
{
    let b1 = add16(s.regs.sp, 1);
    if pop == 0xC1 {
        lemma_nop_keeps(s.sp_up(), b1);
        let s1 = s.sp_up().nop();
        lemma_nop_keeps(s1.sp_up(), b1);
    } else if pop == 0xE1 {
        lemma_nop_keeps(s, b1);
        let s1 = s.nop().sp_up();
        lemma_nop_keeps(s1.sp_up(), b1);
    } else {
        lemma_nop_keeps(s, b1);
        let s0 = s.nop().sp_up();
        lemma_nop_keeps(s0, b1);
        let s1 = s0.nop();
        lemma_nop_keeps(s1.sp_up(), b1);
    }
}

proof fn lemma_push_pop_steps(k: u8, s: MachineView)
    requires
        k < 4,
        s.mmu.wram.len() == 0x2000,
        s.mmu.hram.len() == 0x7F,
        !s.mmu.oma_dma,
        s.regs.f & 0x0F == 0,
        stack_in_ram(s.regs.sp),
    ensures
        high_pop((0xC1 + 16 * k) as u8, high_push((0xC5 + 16 * k) as u8, s)).regs == s.regs,
{
    let push = (0xC5 + 16 * k) as u8;
    let pop = (0xC1 + 16 * k) as u8;
    let r = s.regs;
    let v = lemma_push_effect(push, s);
    let s1 = high_push(push, s);
    lemma_pop_effect(pop, s1);
    assert(add16(add16(r.sp, -2), 1) == add16(r.sp, -1));
    assert(add16(add16(r.sp, -2), 2) == r.sp);
    lemma_pair_split((v / 256) as u8, (v % 256) as u8);
    lemma_pair_split(r.b, r.c);
    lemma_pair_split(r.d, r.e);
    lemma_pair_split(r.h, r.l);
    lemma_pair_split(r.a, r.f);
    let f = r.f;
    assert(f & 0xF0 == f) by (bit_vector)
        requires
            f & 0x0F == 0,
    ;
}

/// PUSH rr then POP rr gives the registers back: the pair (BC, DE, HL or
/// AF, by `k`) and SP, with the stack in work RAM or high RAM and no OAM
/// DMA transfer running. F keeps its low nibble clear, as it always does.
#[verifier::spinoff_prover]
#[verifier::rlimit(100)]
pub proof fn lemma_push_pop(k: u8, s: MachineView)
    requires
        k < 4,
        s.mmu.wram.len() == 0x2000,
        s.mmu.hram.len() == 0x7F,
        !s.mmu.oma_dma,
        s.regs.f & 0x0F == 0,
        stack_in_ram(s.regs.sp),
    ensures
        execute_spec((0xC1 + 16 * k) as u8, execute_spec((0xC5 + 16 * k) as u8, s)).regs == s.regs,
{
    let push = (0xC5 + 16 * k) as u8;
    let pop = (0xC1 + 16 * k) as u8;
    lemma_push_pop_steps(k, s);
    lemma_execute_push(push, s);
    lemma_execute_pop(pop, high_push(push, s));
}

/// A pair splits back into its two bytes.
proof fn lemma_pair_split(hi: u8, lo: u8)
    ensures
        (pair(hi, lo) / 256) as u8 == hi,
        (pair(hi, lo) % 256) as u8 == lo,
        pair((pair(hi, lo) / 256) as u8, (pair(hi, lo) % 256) as u8) == pair(hi, lo),
{
}

#[verifier::spinoff_prover]
proof fn lemma_execute_push(op: u8, s: MachineView)
    requires
        is_push(op),
    ensures
        execute_spec(op, s) == high_push(op, s),
{
}

#[verifier::spinoff_prover]
proof fn lemma_execute_pop(op: u8, s: MachineView)
    requires
        is_pop(op),
    ensures
        execute_spec(op, s) == high_pop(op, s),
{
}

/// The register pair with index `k` (BC, DE, HL, AF).
pub open spec fn pair_of(r: RegFile, k: u8) -> u16 {
    if k == 0 { r.bc() } else if k == 1 { r.de() } else if k == 2 { r.hl() } else { r.af() }
}

/// The register file with the pair of index `k` set to `v` (for AF the low
/// nibble of F is dropped).
pub open spec fn with_pair(r: RegFile, k: u8, v: u16) -> RegFile {
    if k == 0 { r.with_bc(v) } else if k == 1 { r.with_de(v) } else if k == 2 { r.with_hl(v) } else { r.with_af(v) }
}

/// PUSH of one pair then POP into another moves the value: the second pair
/// takes what the first held (POP AF dropping the low nibble of F), SP
/// comes back, and every other register is kept; the stack lies in work or
/// high RAM and no OAM DMA transfer runs.
#[verifier::spinoff_prover]
#[verifier::rlimit(100)]
pub proof fn lemma_push_pop_moves(k1: u8, k2: u8, s: MachineView)
    requires
        k1 < 4,
        k2 < 4,
        s.mmu.wram.len() == 0x2000,
        s.mmu.hram.len() == 0x7F,
        !s.mmu.oma_dma,
        stack_in_ram(s.regs.sp),
    ensures
        execute_spec((0xC1 + 16 * k2) as u8, execute_spec((0xC5 + 16 * k1) as u8, s)).regs
            == with_pair(s.regs, k2, pair_of(s.regs, k1)),
{
    let push = (0xC5 + 16 * k1) as u8;
    let pop = (0xC1 + 16 * k2) as u8;
    lemma_push_pop_moves_steps(k1, k2, s);
    lemma_execute_push(push, s);
    lemma_execute_pop(pop, high_push(push, s));
}

proof fn lemma_push_pop_moves_steps(k1: u8, k2: u8, s: MachineView)
    requires
        k1 < 4,
        k2 < 4,
        s.mmu.wram.len() == 0x2000,
        s.mmu.hram.len() == 0x7F,
        !s.mmu.oma_dma,
        stack_in_ram(s.regs.sp),
    ensures
        high_pop((0xC1 + 16 * k2) as u8, high_push((0xC5 + 16 * k1) as u8, s)).regs
            == with_pair(s.regs, k2, pair_of(s.regs, k1)),
{
    let push = (0xC5 + 16 * k1) as u8;
    let pop = (0xC1 + 16 * k2) as u8;
    let r = s.regs;
    let v = lemma_push_effect(push, s);
    let s1 = high_push(push, s);
    lemma_pop_effect(pop, s1);
    assert(add16(add16(r.sp, -2), 1) == add16(r.sp, -1));
    assert(add16(add16(r.sp, -2), 2) == r.sp);
    lemma_pair_split(r.b, r.c);
    lemma_pair_split(r.d, r.e);
    lemma_pair_split(r.h, r.l);
    lemma_pair_split(r.a, r.f);
    let lo = (v % 256) as u8;
    assert((lo & 0xF0) & 0xF0 == lo & 0xF0) by (bit_vector);
    lemma_pair_split((v / 256) as u8, lo);
    lemma_pair_split((v / 256) as u8, lo & 0xF0);
}

/// CALL a16 then RET comes back after the CALL: PC is the address past the
/// CALL's operand, SP is restored and every other register is kept; the
/// stack lies in work or high RAM and no OAM DMA transfer runs.
#[verifier::spinoff_prover]
#[verifier::rlimit(100)]
pub proof fn lemma_call_ret(s: MachineView)
    requires
        s.mmu.wram.len() == 0x2000,
        s.mmu.hram.len() == 0x7F,
        !s.mmu.oma_dma,
        stack_in_ram(s.regs.sp),
    ensures
        execute_spec(0xC9, execute_spec(0xCD, s)).regs == (RegFile { pc: add16(s.regs.pc, 2), ..s.regs }),
{
    lemma_call_ret_steps(s);
    lemma_execute_call(s);
    lemma_execute_ret(high_call(0xCD, s));
}

proof fn lemma_call_ret_steps(s: MachineView)
    requires
        s.mmu.wram.len() == 0x2000,
        s.mmu.hram.len() == 0x7F,
        !s.mmu.oma_dma,
        stack_in_ram(s.regs.sp),
    ensures
        high_ret(0xC9, high_call(0xCD, s)).regs == (RegFile { pc: add16(s.regs.pc, 2), ..s.regs }),
{
    let r = s.regs;
    let a1 = add16(r.sp, -1);
    let a2 = add16(r.sp, -2);
    // CALL: two operand bytes, then the return address pushed
    let (lo, s1) = s.fetch();
    lemma_nop_keeps(s1, a1);
    let (hi, s2) = s1.nop().fetch();
    lemma_nop_keeps(s2, a1);
    let s3 = s2.nop();
    let pc = s3.regs.pc;
    assert(pc == add16(r.pc, 2));
    let s4 = s3.sp_down().nop();
    lemma_nop_keeps(s3.sp_down(), a1);
    let t1 = s4.write(s4.regs.sp, (pc / 256) as u8);
    lemma_ram_write_read(s4.mmu, a1, (pc / 256) as u8);
    lemma_nop_keeps(t1, a1);
    let s5 = t1.nop().sp_down().nop();
    lemma_nop_keeps(t1.nop().sp_down(), a1);
    let t2 = s5.write(s5.regs.sp, (pc % 256) as u8);
    lemma_ram_write_read(s5.mmu, a2, (pc % 256) as u8);
    lemma_ram_write_other(s5.mmu, a2, (pc % 256) as u8, a1);
    let c = t2.with_pc(pair(hi, lo)).nop();
    lemma_nop_keeps(t2.with_pc(pair(hi, lo)), a1);
    lemma_nop_keeps(t2.with_pc(pair(hi, lo)), a2);
    assert(c == high_call(0xCD, s));
    // RET: the return address popped
    let b1 = c.nop().sp_up();
    lemma_nop_keeps(c, a1);
    lemma_nop_keeps(b1, a1);
    assert(add16(a2, 1) == a1);
    assert(add16(add16(a2, 1), 1) == r.sp);
    lemma_pair_split((pc / 256) as u8, (pc % 256) as u8);
    assert(pair((pc / 256) as u8, (pc % 256) as u8) == pc);
}

#[verifier::spinoff_prover]
proof fn lemma_execute_call(s: MachineView)
    ensures
        execute_spec(0xCD, s) == high_call(0xCD, s),
{
}

#[verifier::spinoff_prover]
proof fn lemma_execute_ret(s: MachineView)
    ensures
        execute_spec(0xC9, s) == high_ret(0xC9, s),
{
}

/// SWAP on a register twice gives the register back; one SWAP exchanges
/// its nibbles and leaves only Z in F, set for a zero value.
pub proof fn lemma_swap_twice(i: u8, s: MachineView)
    requires
        i < 8,
        i != 6,
    ensures
        get_r8(execute_cb(0x30 | i, execute_cb(0x30 | i, s)).regs, i) == get_r8(s.regs, i),
        ({
            let v = get_r8(s.regs, i);
            let r1 = execute_cb(0x30 | i, s).regs;
            &&& get_r8(r1, i) == (v >> 4u8) | (v << 4u8)
            &&& r1.f == (if v == 0 { 0x80u8 } else { 0x00u8 })
        }),
{
    let v = get_r8(s.regs, i);
    assert((0x30 | i) % 8 == i && (0x30 | i) / 8 % 8 == 6 && (0x30 | i) / 64 == 0) by (bit_vector)
        requires
            i < 8,
    ;
    assert(((((v >> 4u8) | (v << 4u8)) >> 4u8) | (((v >> 4u8) | (v << 4u8)) << 4u8)) == v
        && (((v >> 4u8) | (v << 4u8)) == 0 <==> v == 0)) by (bit_vector);
    assert(flags(true, false, false, false) == 0x80 && flags(false, false, false, false) == 0x00);
}

/// RLC then RRC on a register gives the register back.
pub proof fn lemma_rlc_rrc(i: u8, s: MachineView)
    requires
        i < 8,
        i != 6,
    ensures
        get_r8(execute_cb(0x08 | i, execute_cb(i, s)).regs, i) == get_r8(s.regs, i),
{
    let v = get_r8(s.regs, i);
    assert((0x08 | i) % 8 == i && (0x08 | i) / 8 % 8 == 1 && (0x08 | i) / 64 == 0
        && i % 8 == i && i / 8 % 8 == 0 && i / 64 == 0) by (bit_vector)
        requires
            i < 8,
    ;
    assert(((((v << 1u8) | (v >> 7u8)) >> 1u8) | (((v << 1u8) | (v >> 7u8)) << 7u8)) == v) by (bit_vector);
}

/// With no interrupt both requested and enabled, interrupt handling only
/// lets a pending EI take effect: IME is set if it was or EI asked for it,
/// and nothing else changes.
pub proof fn lemma_no_interrupt_pending(s: MachineView)
    requires
        s.read(0xFFFF) & s.read(0xFF0F) == 0,
    ensures
        interrupt_spec(s) == (MachineView { ime: s.ime || s.ime_queued, ime_queued: false, ..s }),
{
}

/// Each flag of F sits in its own bit: Z bit 7, N bit 6, H bit 5, C bit 4.
pub proof fn lemma_flag_bits(z: bool, n: bool, h: bool, c: bool)
    ensures
        (flags(z, n, h, c) & 0x80 != 0) == z,
        (flags(z, n, h, c) & 0x40 != 0) == n,
        (flags(z, n, h, c) & 0x20 != 0) == h,
        (flags(z, n, h, c) & 0x10 != 0) == c,
        flags(z, n, h, c) & 0x0F == 0,
{
    let zb: u8 = if z { 1 } else { 0 };
    let nb: u8 = if n { 1 } else { 0 };
    let hb: u8 = if h { 1 } else { 0 };
    let cb: u8 = if c { 1 } else { 0 };
    let v: u8 = flags(z, n, h, c);
    assert(v == zb * 0x80 + nb * 0x40 + hb * 0x20 + cb * 0x10);
    assert(zb <= 1 && nb <= 1 && hb <= 1 && cb <= 1 && v == zb * 0x80 + nb * 0x40 + hb * 0x20 + cb * 0x10 ==> (
        (v & 0x80 != 0) == (zb == 1) && (v & 0x40 != 0) == (nb == 1) && (v & 0x20 != 0) == (hb == 1)
        && (v & 0x10 != 0) == (cb == 1) && v & 0x0F == 0)) by (bit_vector);
}

/// ADC adds the carry flag too: A becomes A + b + C, C being the carry
/// before the instruction, wrapped to 8 bits; C is set exactly when that sum
/// passes 0xFF, Z exactly when A becomes 0, and N is clear. With the carry
/// clear ADC gives what ADD gives; with it set, one more.
pub proof fn lemma_adc_adds_carry(s: MachineView, b: u8)
    ensures
        ({
            let cin: int = if s.regs.f & 0x10 != 0 { 1 } else { 0 };
            let sum = s.regs.a + b + cin;
            let r = s.alu(1, b).regs;
            &&& r.a as int == sum % 256
            &&& (r.f & 0x10 != 0) == (sum > 0xFF)
            &&& (r.f & 0x80 != 0) == (sum % 256 == 0)
            &&& r.f & 0x40 == 0
            &&& (r.a as int == (s.alu(0, b).regs.a + cin) % 256)
        }),
{
    let a = s.regs.a;
    let c = carry_in(s.regs.f);
    let r = ((a + b + c) % 256) as u8;
    lemma_flag_bits(r == 0, false, (a & 0x0F) + (b & 0x0F) + c > 0x0F, a + b + c > 0xFF);
}

/// The arithmetic of the ALU on A and b, C being the carry before the
/// instruction: ADD gives A + b, SUB A - b, SBC A - b - C and CP keeps A,
/// each wrapped to 8 bits; C is set exactly when the sum passes 0xFF or the
/// difference drops below 0, Z exactly when the result (for CP, A - b) is 0,
/// and N exactly for the subtractions.
pub proof fn lemma_alu_arithmetic(a: u8, b: u8, f: u8)
    ensures
        ({
            let (r, g) = alu_result(0, a, b, f);
            r as int == (a + b) % 256 && (g & 0x10 != 0) == (a + b > 0xFF) && (g & 0x80 != 0) == (r == 0)
                && g & 0x40 == 0
        }),
        ({
            let (r, g) = alu_result(2, a, b, f);
            r as int == (a - b + 256) % 256 && (g & 0x10 != 0) == (a < b) && (g & 0x80 != 0) == (a == b)
                && g & 0x40 != 0
        }),
        ({
            let cin: int = if f & 0x10 != 0 { 1 } else { 0 };
            let (r, g) = alu_result(3, a, b, f);
            r as int == (a - b - cin + 512) % 256 && (g & 0x10 != 0) == (a < b + cin) && (g & 0x80 != 0) == (r == 0)
                && g & 0x40 != 0
        }),
        ({
            let (r, g) = alu_result(7, a, b, f);
            r == a && (g & 0x10 != 0) == (a < b) && (g & 0x80 != 0) == (a == b) && g & 0x40 != 0
        }),
{
    let c = carry_in(f);
    let r0 = ((a + b) % 256) as u8;
    lemma_flag_bits(r0 == 0, false, (a & 0x0F) + (b & 0x0F) > 0x0F, a + b > 0xFF);
    let r2 = ((a - b + 256) % 256) as u8;
    lemma_flag_bits(r2 == 0, true, (a & 0x0F) < (b & 0x0F), a < b);
    let r3 = ((a - b - c + 512) % 256) as u8;
    lemma_flag_bits(r3 == 0, true, (a & 0x0F) < (b & 0x0F) + c, a < b + c);
    lemma_flag_bits(a == b, true, (a & 0x0F) < (b & 0x0F), a < b);
}

/// INC and DEC count by one, wrapping at 8 bits: INC of v gives v + 1,
/// DEC gives v - 1; Z is set exactly for a result of 0, N only for DEC, and
/// the carry flag is kept as it was.
pub proof fn lemma_inc_dec(v: u8, f: u8)
    ensures
        ({
            let (r, g) = inc_result(v, f);
            r as int == (v + 1) % 256 && (g & 0x80 != 0) == (v == 0xFF) && g & 0x40 == 0
                && (g & 0x10 != 0) == (f & 0x10 != 0)
        }),
        ({
            let (r, g) = dec_result(v, f);
            r as int == (v - 1 + 256) % 256 && (g & 0x80 != 0) == (v == 1) && g & 0x40 != 0
                && (g & 0x10 != 0) == (f & 0x10 != 0)
        }),
        dec_result(inc_result(v, f).0, f).0 == v,
{
    let r1 = ((v + 1) % 256) as u8;
    lemma_flag_bits(r1 == 0, false, (v & 0x0F) + 1 > 0x0F, f & 0x10 != 0);
    let r2 = ((v + 255) % 256) as u8;
    lemma_flag_bits(r2 == 0, true, (v & 0x0F) == 0, f & 0x10 != 0);
}

/// The shifts as arithmetic on v: SLA doubles (C the top bit), SRL halves
/// (C the bottom bit), SRA halves keeping the sign bit, RLC and RRC rotate
/// by one; RL and RR shift the carry in at the other end.
pub proof fn lemma_shift_arithmetic(v: u8, f: u8)
    ensures
        shift_value(4, v, f).0 as int == (v * 2) % 256 && shift_value(4, v, f).1 == (v >= 128),
        shift_value(7, v, f).0 as int == v / 2 && shift_value(7, v, f).1 == (v % 2 == 1),
        shift_value(5, v, f).0 as int == v / 2 + (if v >= 128 { 128int } else { 0 }),
        shift_value(0, v, f).0 as int == (v * 2) % 256 + v / 128 && shift_value(0, v, f).1 == (v >= 128),
        shift_value(1, v, f).0 as int == v / 2 + (v % 2) * 128 && shift_value(1, v, f).1 == (v % 2 == 1),
        shift_value(2, v, f).0 as int == (v * 2) % 256 + carry_in(f) && shift_value(2, v, f).1 == (v >= 128),
        shift_value(3, v, f).0 as int == v / 2 + carry_in(f) * 128 && shift_value(3, v, f).1 == (v % 2 == 1),
{
    let cin: u8 = carry_in(f) as u8;
    assert(cin <= 1 ==> (
        (v << 1u8) as int == (v * 2) % 256 && (v & 0x80 != 0) == (v >= 128)
        && (v >> 1u8) as int == v / 2 && (v & 0x01 != 0) == (v % 2 == 1)
        && ((v >> 1u8) | (v & 0x80)) as int == v / 2 + (if v >= 128 { 128int } else { 0 })
        && ((v << 1u8) | (v >> 7u8)) as int == (v * 2) % 256 + v / 128
        && ((v >> 1u8) | (v << 7u8)) as int == v / 2 + (v % 2) * 128
        && ((v << 1u8) | cin) as int == (v * 2) % 256 + cin
        && ((v >> 1u8) | (cin << 7u8)) as int == v / 2 + cin * 128)) by (bit_vector);
}

} // verus!
