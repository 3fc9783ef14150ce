//! What each instruction does, machine cycle by machine cycle.
use vstd::prelude::*;
use super::MachineView;
use super::registers::{RegFile, FLAGS, pair};

verus! {

/// The F register with the given flags set: Z (bit 7), N (bit 6),
/// H (bit 5) and C (bit 4).
pub open spec fn flags(z: bool, n: bool, h: bool, c: bool) -> u8 {
    ((if z { 0x80int } else { 0 }) + (if n { 0x40int } else { 0 }) + (if h { 0x20int } else { 0 })
        + (if c { 0x10int } else { 0 })) as u8
}

/// The signed offset a byte stands for in relative jumps and SP arithmetic.
pub open spec fn sext(e: u8) -> int {
    if e < 128 { e as int } else { e as int - 256 }
}

/// `v` plus `d`, wrapped to 16 bits.
pub open spec fn add16(v: u16, d: int) -> u16 {
    ((v + d + 0x10000) % 0x10000) as u16
}

/// The eight-bit operand with the given index in an opcode: B, C, D, E,
/// H, L, (HL), A. Index 6 is memory and has no register.
pub open spec fn get_r8(r: RegFile, idx: u8) -> u8 {
    if idx == 0 { r.b } else if idx == 1 { r.c } else if idx == 2 { r.d } else if idx == 3 { r.e }
    else if idx == 4 { r.h } else if idx == 5 { r.l } else { r.a }
}

pub open spec fn set_r8(r: RegFile, idx: u8, v: u8) -> RegFile {
    if idx == 0 { RegFile { b: v, ..r } } else if idx == 1 { RegFile { c: v, ..r } }
    else if idx == 2 { RegFile { d: v, ..r } } else if idx == 3 { RegFile { e: v, ..r } }
    else if idx == 4 { RegFile { h: v, ..r } } else if idx == 5 { RegFile { l: v, ..r } }
    else { RegFile { a: v, ..r } }
}

/// The sixteen-bit register pair with the given index in an opcode: BC,
/// DE, HL, SP.
pub open spec fn get_r16(r: RegFile, idx: u8) -> u16 {
    if idx == 0 { r.bc() } else if idx == 1 { r.de() } else if idx == 2 { r.hl() } else { r.sp }
}

pub open spec fn set_r16(r: RegFile, idx: u8, v: u16) -> RegFile {
    if idx == 0 { r.with_bc(v) } else if idx == 1 { r.with_de(v) } else if idx == 2 { r.with_hl(v) }
    else { RegFile { sp: v, ..r } }
}

/// 1 when the carry flag is set, else 0.
pub open spec fn carry_in(f: u8) -> int {
    if f & 0x10 != 0 { 1 } else { 0 }
}

/// The eight arithmetic and logic operations of opcodes 0x80-0xBF and
/// 0xC6-0xFE: ADD, ADC, SUB, SBC, AND, XOR, OR, CP. The result is the new
/// A and F; H is the carry (or borrow) out of bit 3, C out of bit 7.
pub open spec fn alu_result(op: u8, a: u8, b: u8, f: u8) -> (u8, u8) {
    let c = carry_in(f);
    if op == 0 {
        let r = ((a + b) % 256) as u8;
        (r, flags(r == 0, false, (a & 0x0F) + (b & 0x0F) > 0x0F, a + b > 0xFF))
    } else if op == 1 {
        let r = ((a + b + c) % 256) as u8;
        (r, flags(r == 0, false, (a & 0x0F) + (b & 0x0F) + c > 0x0F, a + b + c > 0xFF))
    } else if op == 2 {
        let r = ((a - b + 256) % 256) as u8;
        (r, flags(r == 0, true, (a & 0x0F) < (b & 0x0F), a < b))
    } else if op == 3 {
        let r = ((a - b - c + 512) % 256) as u8;
        (r, flags(r == 0, true, (a & 0x0F) < (b & 0x0F) + c, a < b + c))
    } else if op == 4 {
        let r = a & b;
        (r, flags(r == 0, false, true, false))
    } else if op == 5 {
        let r = a ^ b;
        (r, flags(r == 0, false, false, false))
    } else if op == 6 {
        let r = a | b;
        (r, flags(r == 0, false, false, false))
    } else {
        (a, flags(a == b, true, (a & 0x0F) < (b & 0x0F), a < b))
    }
}

/// The eight rotations and shifts of CB opcodes 0x00-0x3F: RLC, RRC, RL,
/// RR, SLA, SRA, SWAP, SRL. The result is the new value and the bit moved
/// out, which goes to C.
pub open spec fn shift_value(op: u8, v: u8, f: u8) -> (u8, bool) {
    let cin = carry_in(f) as u8;
    if op == 0 {
        ((v << 1u8) | (v >> 7u8), v & 0x80 != 0)
    } else if op == 1 {
        ((v >> 1u8) | (v << 7u8), v & 0x01 != 0)
    } else if op == 2 {
        ((v << 1u8) | cin, v & 0x80 != 0)
    } else if op == 3 {
        ((v >> 1u8) | (cin << 7u8), v & 0x01 != 0)
    } else if op == 4 {
        (v << 1u8, v & 0x80 != 0)
    } else if op == 5 {
        ((v >> 1u8) | (v & 0x80), v & 0x01 != 0)
    } else if op == 6 {
        ((v >> 4u8) | (v << 4u8), false)
    } else {
        (v >> 1u8, v & 0x01 != 0)
    }
}

/// A rotation or shift with its flags: Z from the result, C the bit moved
/// out, N and H clear.
pub open spec fn shift_result(op: u8, v: u8, f: u8) -> (u8, u8) {
    let (r, c) = shift_value(op, v, f);
    (r, flags(r == 0, false, false, c))
}

/// INC of an eight-bit value: C is kept.
pub open spec fn inc_result(v: u8, f: u8) -> (u8, u8) {
    let r = ((v + 1) % 256) as u8;
    (r, flags(r == 0, false, (v & 0x0F) + 1 > 0x0F, f & 0x10 != 0))
}

/// DEC of an eight-bit value: C is kept.
pub open spec fn dec_result(v: u8, f: u8) -> (u8, u8) {
    let r = ((v + 255) % 256) as u8;
    (r, flags(r == 0, true, (v & 0x0F) == 0, f & 0x10 != 0))
}

/// DAA: A adjusted to binary coded decimal after an addition (N clear)
/// or a subtraction (N set).
pub open spec fn daa_result(a: u8, f: u8) -> (u8, u8) {
    let n = f & 0x40 != 0;
    let c = f & 0x10 != 0;
    let h = f & 0x20 != 0;
    let r = if !n {
        let hi: int = if c || a > 0x99 { 0x60 } else { 0 };
        let lo: int = if h || (a & 0x0F) > 0x09 { 0x06 } else { 0 };
        ((a + hi + lo) % 256) as u8
    } else {
        let hi: int = if c { 0x60 } else { 0 };
        let lo: int = if h { 0x06 } else { 0 };
        ((a - hi - lo + 512) % 256) as u8
    };
    (r, flags(r == 0, n, false, c || (!n && a > 0x99)))
}

/// ADD HL,rr: H from bit 11, C from bit 15; Z is kept.
pub open spec fn add16_flags(v1: u16, v2: u16, f: u8) -> u8 {
    flags(f & 0x80 != 0, false, (v1 & 0xFFF) + (v2 & 0xFFF) > 0xFFF, v1 + v2 > 0xFFFF)
}

/// ADD SP,e and LD HL,SP+e: H and C from the unsigned addition of the
/// offset byte to the low nibble and low byte of SP; Z and N clear.
pub open spec fn sp_offset_flags(sp: u16, e: u8) -> u8 {
    flags(false, false, (sp & 0x0F) + (e & 0x0F) > 0x0F, (sp & 0xFF) + e > 0xFF)
}

/// Whether the condition of a conditional jump, call or return holds:
/// NZ, Z, NC, C.
pub open spec fn condition(r: RegFile, cc: u8) -> bool {
    if cc == 0 { !r.flag(FLAGS::Z) } else if cc == 1 { r.flag(FLAGS::Z) }
    else if cc == 2 { !r.flag(FLAGS::C) } else { r.flag(FLAGS::C) }
}

impl MachineView {
    pub open spec fn with_a_f(self, a: u8, f: u8) -> MachineView {
        self.set_regs(RegFile { a, f, ..self.regs })
    }

    pub open spec fn with_f(self, f: u8) -> MachineView {
        self.set_regs(RegFile { f, ..self.regs })
    }

    pub open spec fn with_pc(self, pc: u16) -> MachineView {
        self.set_regs(RegFile { pc, ..self.regs })
    }

    pub open spec fn with_sp(self, sp: u16) -> MachineView {
        self.set_regs(RegFile { sp, ..self.regs })
    }

    /// SP moved down by one.
    pub open spec fn sp_down(self) -> MachineView {
        self.with_sp(add16(self.regs.sp, -1))
    }

    /// SP moved up by one.
    pub open spec fn sp_up(self) -> MachineView {
        self.with_sp(add16(self.regs.sp, 1))
    }

    /// An ALU operation on A and `b`, one machine cycle.
    pub open spec fn alu(self, op: u8, b: u8) -> MachineView {
        let (a, f) = alu_result(op, self.regs.a, b, self.regs.f);
        self.with_a_f(a, f).nop()
    }
}


/// RLCA, RRCA, RLA and RRA: the rotations of CB opcodes 0x00-0x1F applied
/// to A, with Z cleared.
pub open spec fn rotate_a_result(op: u8, a: u8, f: u8) -> (u8, u8) {
    let (r, c) = shift_value(op, a, f);
    (r, flags(false, false, false, c))
}

/// LD rr,d16 for the pair with index `idx`: two operand bytes, little
/// endian.
pub open spec fn ld_rr_d16(s: MachineView, idx: u8) -> MachineView {
    let (lo, s1) = s.fetch();
    let (hi, s2) = s1.nop().fetch();
    let s3 = s2.nop().nop();
    s3.set_regs(set_r16(s3.regs, idx, pair(hi, lo)))
}

/// The instructions 0x00-0x3F, by column (bits 0-2 of the opcode).
pub open spec fn execute_low(op: u8, s: MachineView) -> MachineView {
    let col = op % 8;
    if col == 0 {
        low_col0(op, s)
    } else if col == 1 {
        low_col1(op, s)
    } else if col == 2 {
        low_col2(op, s)
    } else if col == 3 {
        low_col3(op, s)
    } else if col == 4 || col == 5 {
        low_col45(op, s)
    } else if col == 6 {
        low_col6(op, s)
    } else {
        low_col7(op, s)
    }
}

/// NOP, LD (a16),SP, STOP, JR e and JR cc,e.
pub open spec fn low_col0(op: u8, s: MachineView) -> MachineView {
    let row = op / 8;
    if op == 0x00 {
        s.nop()
    } else if op == 0x08 {
        // LD (a16),SP
        let (lo, s1) = s.fetch();
        let (hi, s2) = s1.nop().fetch();
        let s3 = s2.nop();
        let address = pair(hi, lo);
        let sp = s3.regs.sp;
        s3.nop().write(address, (sp % 256) as u8).nop().write(add16(address, 1), (sp / 256) as u8).nop()
    } else if op == 0x10 {
        // STOP
        MachineView { stopped: true, ..s }.nop()
    } else if op == 0x18 {
        // JR e
        let (e, s1) = s.fetch();
        let s2 = s1.nop();
        s2.nop().with_pc(add16(s2.regs.pc, sext(e))).nop()
    } else {
        // JR cc,e
        let (e, s1) = s.fetch();
        let s2 = s1.nop();
        if condition(s2.regs, (row - 4) as u8) {
            s2.nop().with_pc(add16(s2.regs.pc, sext(e))).nop()
        } else {
            s2.nop()
        }
    }
}

/// LD rr,d16 and ADD HL,rr.
pub open spec fn low_col1(op: u8, s: MachineView) -> MachineView {
    let row = op / 8;
    let r = s.regs;
    if row % 2 == 0 {
        ld_rr_d16(s, (row / 2) as u8)
    } else if op == 0x39 {
        // ADD HL,SP
        let hl = r.hl();
        let s1 = s.set_regs(r.with_hl(add16(hl, r.sp as int))).nop();
        s1.with_f(add16_flags(hl, r.sp, r.f)).nop()
    } else {
        // ADD HL,rr
        let s1 = s.nop();
        let hl = r.hl();
        let v = get_r16(r, (row / 2) as u8);
        let s2 = s1.with_f(add16_flags(hl, v, r.f)).nop();
        s2.set_regs(s2.regs.with_hl(add16(hl, v as int)))
    }
}

/// Loads and stores through BC, DE and HL.
pub open spec fn low_col2(op: u8, s: MachineView) -> MachineView {
    let r = s.regs;
    if op == 0x02 {
        s.write(r.bc(), r.a).nop().nop()
    } else if op == 0x12 {
        s.write(r.de(), r.a).nop().nop()
    } else if op == 0x22 {
        // LD (HL+),A
        let s1 = s.write(r.hl(), r.a).nop();
        s1.set_regs(s1.regs.with_hl(add16(r.hl(), 1))).nop()
    } else if op == 0x32 {
        // LD (HL-),A
        let s1 = s.write(r.hl(), r.a).nop();
        s1.set_regs(s1.regs.with_hl(add16(r.hl(), -1))).nop()
    } else if op == 0x0A || op == 0x1A {
        let v = s.read(if op == 0x0A { r.bc() } else { r.de() });
        let s1 = s.nop();
        s1.set_regs(RegFile { a: v, ..s1.regs }).nop()
    } else if op == 0x2A {
        // LD A,(HL+)
        let v = s.read(r.hl());
        let s1 = s.set_regs(r.with_hl(add16(r.hl(), 1))).nop();
        s1.set_regs(RegFile { a: v, ..s1.regs }).nop()
    } else {
        // LD A,(HL-)
        let v = s.read(r.hl());
        let s1 = s.nop();
        s1.set_regs(RegFile { a: v, ..s1.regs.with_hl(add16(r.hl(), -1)) }).nop()
    }
}

/// INC rr and DEC rr.
pub open spec fn low_col3(op: u8, s: MachineView) -> MachineView {
    let row = op / 8;
    let idx = (row / 2) as u8;
    let d: int = if row % 2 == 0 { 1 } else { -1 };
    let s1 = s.nop();
    s1.set_regs(set_r16(s1.regs, idx, add16(get_r16(s.regs, idx), d))).nop()
}

/// INC and DEC of registers and of (HL).
pub open spec fn low_col45(op: u8, s: MachineView) -> MachineView {
    let row = op / 8;
    let col = op % 8;
    let r = s.regs;
    if op == 0x34 || op == 0x35 {
        let address = r.hl();
        let v = s.read(address);
        let (res, f) = if op == 0x34 { inc_result(v, r.f) } else { dec_result(v, r.f) };
        s.nop().write(address, res).nop().with_f(f).nop()
    } else {
        let v = get_r8(r, row as u8);
        let (res, f) = if col == 4 { inc_result(v, r.f) } else { dec_result(v, r.f) };
        let s1 = s.with_f(f).nop();
        s1.set_regs(set_r8(s1.regs, row as u8, res))
    }
}

/// LD r,d8 and LD (HL),d8.
pub open spec fn low_col6(op: u8, s: MachineView) -> MachineView {
    let row = op / 8;
    if op == 0x36 {
        // LD (HL),d8
        let (d, s1) = s.fetch();
        s1.nop().write(s.regs.hl(), d).nop().nop()
    } else if op == 0x06 || op == 0x16 || op == 0x26 {
        // idle cycle first
        let (d, s1) = s.nop().fetch();
        s1.set_regs(set_r8(s1.regs, row as u8, d)).nop()
    } else {
        // operand first
        let (d, s1) = s.fetch();
        let s2 = s1.nop();
        s2.set_regs(set_r8(s2.regs, row as u8, d)).nop()
    }
}

/// RLCA, RRCA, RLA, RRA, DAA, CPL, SCF and CCF.
pub open spec fn low_col7(op: u8, s: MachineView) -> MachineView {
    let row = op / 8;
    let r = s.regs;
    if op == 0x27 {
        let (a, f) = daa_result(r.a, r.f);
        s.with_a_f(a, f).nop()
    } else if op == 0x2F {
        // CPL
        s.with_a_f(!r.a, flags(r.flag(FLAGS::Z), true, true, r.flag(FLAGS::C))).nop()
    } else if op == 0x37 {
        // SCF
        s.with_f(flags(r.flag(FLAGS::Z), false, false, true)).nop()
    } else if op == 0x3F {
        // CCF
        s.with_f(flags(r.flag(FLAGS::Z), false, false, !r.flag(FLAGS::C))).nop()
    } else {
        // RLCA, RRCA, RLA, RRA
        let (a, f) = rotate_a_result(row as u8, r.a, r.f);
        s.with_a_f(a, f).nop()
    }
}

/// The loads 0x40-0x7F (with HALT at 0x76): LD dst,src where the register
/// indices are bits 3-5 and 0-2 of the opcode.
pub open spec fn execute_load(op: u8, s: MachineView) -> MachineView {
    let dst = (op / 8 % 8) as u8;
    let src = (op % 8) as u8;
    let r = s.regs;
    if op == 0x76 {
        MachineView { halted: true, ..s }.nop()
    } else if src == 6 {
        let v = s.read(r.hl());
        let s1 = s.nop();
        s1.set_regs(set_r8(s1.regs, dst, v)).nop()
    } else if dst == 6 {
        s.write(r.hl(), get_r8(r, src)).nop().nop()
    } else {
        s.set_regs(set_r8(r, dst, get_r8(r, src))).nop()
    }
}

/// The ALU operations 0x80-0xBF: the operation is bits 3-5, the operand
/// register bits 0-2.
pub open spec fn execute_alu(op: u8, s: MachineView) -> MachineView {
    let aop = (op / 8 % 8) as u8;
    let src = (op % 8) as u8;
    if src == 6 {
        s.alu(aop, s.read(s.regs.hl())).nop()
    } else {
        s.alu(aop, get_r8(s.regs, src))
    }
}

/// CB-prefixed instructions: rotations and shifts, BIT, RES and SET.
pub open spec fn execute_cb(op: u8, s: MachineView) -> MachineView {
    let reg = (op % 8) as u8;
    let n = (op / 8 % 8) as u8;
    let group = op / 64;
    let r = s.regs;
    if group == 0 {
        if reg == 6 {
            let address = r.hl();
            let s1 = s.nop();
            let (res, f) = shift_result(n, s1.read(address), r.f);
            s1.nop().with_f(f).write(address, res).nop().nop()
        } else {
            let (res, f) = shift_result(n, get_r8(r, reg), r.f);
            let s1 = s.nop().with_f(f);
            s1.set_regs(set_r8(s1.regs, reg, res)).nop()
        }
    } else if group == 1 {
        let (v, s1) = if reg == 6 {
            let s1 = s.nop();
            (s1.read(r.hl()), s1)
        } else {
            (get_r8(r, reg), s)
        };
        s1.nop().nop().with_f(flags(v & (1u8 << n) == 0, false, true, r.flag(FLAGS::C)))
    } else {
        let update = |v: u8| if group == 2 { v & !(1u8 << n) } else { v | (1u8 << n) };
        if reg == 6 {
            let address = r.hl();
            let s1 = s.nop();
            let d = s1.read(address);
            s1.nop().write(address, update(d)).nop().nop()
        } else {
            let s1 = s.nop();
            s1.set_regs(set_r8(s1.regs, reg, update(get_r8(r, reg)))).nop()
        }
    }
}

/// RST n: the return address pushed, then a jump to `address`.
pub open spec fn reset_spec(s: MachineView, address: u16) -> MachineView {
    let pc = s.regs.pc;
    let s1 = s.sp_down().nop();
    let s2 = s1.write(s1.regs.sp, (pc / 256) as u8).nop().sp_down().nop();
    s2.write(s2.regs.sp, (pc % 256) as u8).with_pc(address).nop()
}

/// Whether `op` is one of RET cc, RET, RETI.
pub open spec fn is_ret(op: u8) -> bool {
    op == 0xC0 || op == 0xC8 || op == 0xD0 || op == 0xD8 || op == 0xC9 || op == 0xD9
}

pub open spec fn is_pop(op: u8) -> bool {
    op == 0xC1 || op == 0xD1 || op == 0xE1 || op == 0xF1
}

pub open spec fn is_push(op: u8) -> bool {
    op == 0xC5 || op == 0xD5 || op == 0xE5 || op == 0xF5
}

pub open spec fn is_jp(op: u8) -> bool {
    op == 0xC2 || op == 0xC3 || op == 0xCA || op == 0xD2 || op == 0xDA
}

pub open spec fn is_call(op: u8) -> bool {
    op == 0xC4 || op == 0xCC || op == 0xCD || op == 0xD4 || op == 0xDC
}

/// The instructions 0xC0-0xFF, by kind.
pub open spec fn execute_high(op: u8, s: MachineView) -> MachineView {
    if is_ret(op) {
        high_ret(op, s)
    } else if is_pop(op) {
        high_pop(op, s)
    } else if is_push(op) {
        high_push(op, s)
    } else if is_jp(op) {
        high_jp(op, s)
    } else if is_call(op) {
        high_call(op, s)
    } else if op % 8 == 7 {
        // RST
        reset_spec(s, (op - 0xC7) as u16)
    } else if op % 8 == 6 {
        // ALU A,d8
        let (d, s1) = s.fetch();
        s1.alu((op / 8 % 8) as u8, d).nop()
    } else if op == 0xCB {
        let (cb, s1) = s.fetch();
        execute_cb(cb, s1)
    } else {
        high_other(op, s)
    }
}

/// RET cc, RET and RETI.
pub open spec fn high_ret(op: u8, s: MachineView) -> MachineView {
    let r = s.regs;
    let cc = (op / 8 % 4) as u8;
    if op == 0xC9 || op == 0xD9 {
        let lo = s.read(r.sp);
        let s1 = s.nop().sp_up().nop();
        let hi = s1.read(s1.regs.sp);
        if op == 0xC9 {
            s1.nop().sp_up().nop().with_pc(pair(hi, lo))
        } else {
            MachineView { ime: true, ..s1.nop().sp_up().with_pc(pair(hi, lo)) }.nop()
        }
    } else {
        let s1 = s.nop();
        if condition(r, cc) {
            if op == 0xC0 {
                let lo = s1.read(r.sp);
                let s2 = s1.nop().sp_up().nop();
                let hi = s2.read(s2.regs.sp);
                s2.sp_up().nop().with_pc(pair(hi, lo)).nop()
            } else if op == 0xD0 {
                let s2 = s1.nop();
                let lo = s2.read(r.sp);
                let s3 = s2.sp_up().nop();
                let hi = s3.read(s3.regs.sp);
                s3.nop().sp_up().with_pc(pair(hi, lo)).nop()
            } else {
                let lo = s1.read(r.sp);
                let s2 = s1.nop().sp_up().nop();
                let hi = s2.read(s2.regs.sp);
                s2.nop().sp_up().with_pc(pair(hi, lo)).nop()
            }
        } else {
            s1.nop()
        }
    }
}

/// POP BC, DE, HL and AF (the low nibble of F is dropped).
pub open spec fn high_pop(op: u8, s: MachineView) -> MachineView {
    let lo = s.read(s.regs.sp);
    if op == 0xC1 {
        let s1 = s.sp_up().nop();
        let hi = s1.read(s1.regs.sp);
        let s2 = s1.sp_up().nop();
        s2.set_regs(s2.regs.with_bc(pair(hi, lo))).nop()
    } else if op == 0xE1 {
        let s1 = s.nop().sp_up();
        let hi = s1.read(s1.regs.sp);
        let s2 = s1.sp_up().nop();
        s2.set_regs(s2.regs.with_hl(pair(hi, lo))).nop()
    } else {
        let s1 = s.nop().sp_up().nop();
        let hi = s1.read(s1.regs.sp);
        let s2 = s1.sp_up().nop();
        if op == 0xD1 {
            s2.set_regs(s2.regs.with_de(pair(hi, lo)))
        } else {
            s2.set_regs(s2.regs.with_af(pair(hi, lo & 0xF0)))
        }
    }
}

/// PUSH BC, DE, HL and AF: high byte first, SP moving down.
pub open spec fn high_push(op: u8, s: MachineView) -> MachineView {
    let r = s.regs;
    let v = if op == 0xC5 { r.bc() } else if op == 0xD5 { r.de() } else if op == 0xE5 { r.hl() } else { r.af() };
    if op == 0xC5 || op == 0xF5 {
        let s1 = s.nop().sp_down().nop();
        let s2 = s1.write(s1.regs.sp, (v / 256) as u8).nop().sp_down();
        s2.write(s2.regs.sp, (v % 256) as u8).nop()
    } else {
        let s1 = s.sp_down().nop();
        let s2 = s1.write(s1.regs.sp, (v / 256) as u8).nop().sp_down().nop();
        s2.write(s2.regs.sp, (v % 256) as u8).nop()
    }
}

/// JP cc,a16 and JP a16.
pub open spec fn high_jp(op: u8, s: MachineView) -> MachineView {
    let (lo, s1) = s.fetch();
    let (hi, s2) = s1.nop().fetch();
    let s3 = s2.nop();
    if op == 0xC3 || condition(s.regs, (op / 8 % 4) as u8) {
        s3.nop().with_pc(pair(hi, lo)).nop()
    } else {
        s3.nop()
    }
}

/// CALL cc,a16 and CALL a16: the address after the operand is pushed.
pub open spec fn high_call(op: u8, s: MachineView) -> MachineView {
    let (lo, s1) = s.fetch();
    let (hi, s2) = s1.nop().fetch();
    let s3 = s2.nop();
    let pc = s3.regs.pc;
    let address = pair(hi, lo);
    if op == 0xCD || condition(s.regs, (op / 8 % 4) as u8) {
        if op == 0xC4 {
            let s4 = s3.sp_down().nop();
            let s5 = s4.write(s4.regs.sp, (pc / 256) as u8).nop().sp_down();
            s5.write(s5.regs.sp, (pc % 256) as u8).nop().with_pc(address).nop()
        } else if op == 0xCC {
            let s4 = s3.nop().sp_down().nop();
            let s5 = s4.write(s4.regs.sp, (pc / 256) as u8).nop().sp_down().nop();
            s5.write(s5.regs.sp, (pc % 256) as u8).with_pc(address)
        } else if op == 0xCD {
            let s4 = s3.sp_down().nop();
            let s5 = s4.write(s4.regs.sp, (pc / 256) as u8).nop().sp_down().nop();
            s5.write(s5.regs.sp, (pc % 256) as u8).with_pc(address).nop()
        } else {
            let s4 = s3.nop().sp_down().nop();
            let s5 = s4.write(s4.regs.sp, (pc / 256) as u8).nop().sp_down();
            s5.write(s5.regs.sp, (pc % 256) as u8).with_pc(address).nop()
        }
    } else {
        s3.nop()
    }
}

/// High-page loads, loads through a 16-bit address, SP arithmetic, JP HL,
/// DI, EI and the unused opcodes.
pub open spec fn high_other(op: u8, s: MachineView) -> MachineView {
    let r = s.regs;
    if op == 0xE0 || op == 0xF0 {
        // LDH (a8),A and LDH A,(a8)
        let (off, s1) = s.fetch();
        let address = (0xFF00 + off) as u16;
        let s2 = s1.nop();
        if op == 0xE0 {
            s2.write(address, r.a).nop().nop()
        } else {
            let v = s2.read(address);
            s2.nop().set_regs(RegFile { a: v, ..s2.regs }).nop()
        }
    } else if op == 0xE2 {
        // LD (0xFF00+C),A
        s.write((0xFF00 + r.c) as u16, r.a).nop().nop()
    } else if op == 0xF2 {
        // LD A,(0xFF00+C)
        let v = s.read((0xFF00 + r.c) as u16);
        s.nop().set_regs(RegFile { a: v, ..r }).nop()
    } else if op == 0xE8 || op == 0xF8 {
        // ADD SP,e and LD HL,SP+e
        let sp = r.sp;
        let (e, s1) = s.nop().fetch();
        let s2 = s1.nop();
        let result = add16(sp, sext(e));
        let f = sp_offset_flags(sp, e);
        if op == 0xE8 {
            let s3 = s2.nop();
            s3.set_regs(RegFile { sp: result, f, ..s3.regs }).nop()
        } else {
            s2.set_regs(RegFile { f, ..s2.regs.with_hl(result) }).nop()
        }
    } else if op == 0xE9 {
        // JP HL
        s.with_pc(r.hl()).nop()
    } else if op == 0xF9 {
        // LD SP,HL
        s.nop().with_sp(r.hl()).nop()
    } else if op == 0xEA || op == 0xFA {
        // LD (a16),A and LD A,(a16)
        let (lo, s1) = s.fetch();
        let (hi, s2) = s1.fetch();
        let s3 = s2.nop().nop();
        let address = pair(hi, lo);
        if op == 0xEA {
            s3.write(address, r.a).nop().nop()
        } else {
            let v = s3.read(address);
            s3.set_regs(RegFile { a: v, ..s3.regs }).nop().nop()
        }
    } else if op == 0xF3 {
        // DI
        MachineView { ime: false, ..s }.nop()
    } else if op == 0xFB {
        // EI takes effect one instruction later
        MachineView { ime_queued: true, ..s }.nop()
    } else {
        // unused opcodes
        s.nop()
    }
}

/// What the instruction with opcode `op` does to the machine.
pub open spec fn execute_spec(op: u8, s: MachineView) -> MachineView {
    if op < 0x40 {
        execute_low(op, s)
    } else if op < 0x80 {
        execute_load(op, s)
    } else if op < 0xC0 {
        execute_alu(op, s)
    } else {
        execute_high(op, s)
    }
}


/// PC pushed on the stack, high byte first, two machine cycles.
pub open spec fn push_pc_spec(s: MachineView) -> MachineView {
    let v = s.regs.pc;
    let s1 = s.nop().sp_down();
    let s2 = s1.write(s1.regs.sp, (v / 256) as u8).nop().sp_down();
    s2.write(s2.regs.sp, (v % 256) as u8)
}

/// Servicing the interrupt of bit `bit` of IF: interrupts disabled, PC
/// pushed, the request cleared and a jump to `vector`, five machine cycles.
pub open spec fn service_interrupt_spec(s: MachineView, bit: u8, vector: u16) -> MachineView {
    let s1 = MachineView { halted: false, ime: false, ..s }.nop();
    let s2 = push_pc_spec(s1).nop();
    let request = s2.read(0xFF0F) & !(1u8 << bit);
    s2.write(0xFF0F, request).with_pc(vector).nop()
}

/// The HALT bug: the CPU leaves HALT and runs the instruction at PC
/// without advancing PC past its opcode.
pub open spec fn halt_bug_spec(s: MachineView) -> MachineView {
    let s1 = MachineView { halted: false, ..s };
    execute_spec(s1.read(s1.regs.pc), s1)
}

/// Interrupt handling between instructions: a pending EI takes effect;
/// with a requested and enabled interrupt (IF & IE) the CPU leaves HALT and,
/// if IME is set, services the one with the lowest bit (VBlank, LCD STAT,
/// timer, serial, joypad). A request while halted with IME clear triggers
/// the HALT bug.
pub open spec fn interrupt_spec(s: MachineView) -> MachineView {
    let s1 = if s.ime_queued { MachineView { ime: true, ime_queued: false, ..s } } else { s };
    let pending = s1.read(0xFFFF) & s1.read(0xFF0F);
    if pending == 0 {
        s1
    } else if !s1.ime && s1.halted {
        halt_bug_spec(s1)
    } else {
        let s2 = MachineView { halted: false, ..s1 };
        if !s2.ime {
            s2
        } else if pending & 0x01 != 0 {
            service_interrupt_spec(s2, 0, 0x0040)
        } else if pending & 0x02 != 0 {
            service_interrupt_spec(s2, 1, 0x0048)
        } else if pending & 0x04 != 0 {
            service_interrupt_spec(s2, 2, 0x0050)
        } else if pending & 0x08 != 0 {
            service_interrupt_spec(s2, 3, 0x0058)
        } else if pending & 0x10 != 0 {
            service_interrupt_spec(s2, 4, 0x0060)
        } else {
            s2
        }
    }
}

} // verus!
