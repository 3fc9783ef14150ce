//! The building blocks of instructions: loads, stores, ALU operations,
//! rotations, bit operations and the stack, each one or more machine
//! cycles long.
use vstd::prelude::*;
use super::{CPU, MachineView};
use super::registers::{REGISTERS, RegFile, FLAGS, FLAG_C, FLAG_H, FLAG_N, FLAG_Z, pair};
use super::spec::{flags, inc_result, dec_result, shift_result, daa_result};
use crate::ppu::PPU;

verus! {

/// A byte whose low nibble is clear keeps its value under the F mask.
proof fn lemma_high_nibble_mask() by (bit_vector)
    ensures
        forall|x: u8| x % 16 == 0 ==> #[trigger] (x & 0xF0) == x,
{
}

/// The F register built from the four flags.
fn make_flags(z: bool, n: bool, h: bool, c: bool) -> (r: u8)
    ensures
        r == flags(z, n, h, c),
        r % 16 == 0,
{
    let mut f: u8 = 0;
    if z { f = f + FLAG_Z; }
    if n { f = f + FLAG_N; }
    if h { f = f + FLAG_H; }
    if c { f = f + FLAG_C; }
    f
}

/// Sets F from the four flags.
fn set_flags(regs: &mut REGISTERS, z: bool, n: bool, h: bool, c: bool)
    ensures
        final(regs)@ == (RegFile { f: flags(z, n, h, c), ..old(regs)@ }),
{
    let f = make_flags(z, n, h, c);
    proof { lemma_high_nibble_mask(); }
    regs.set_f(f);
}

impl CPU {
    /// Sets F from the four flags.
    pub(crate) fn set_flags(&mut self, z: bool, n: bool, h: bool, c: bool)
        ensures
            final(self).registers@ == (RegFile { f: flags(z, n, h, c), ..old(self).registers@ }),
            final(self).ram == old(self).ram,
            final(self).timer == old(self).timer,
            final(self).cycles == old(self).cycles,
            final(self).ime == old(self).ime,
            final(self).ime_queued == old(self).ime_queued,
            final(self).halted == old(self).halted,
            final(self).stopped == old(self).stopped,
    {
        set_flags(&mut self.registers, z, n, h, c);
    }

    /// Reads a byte and spends one machine cycle.
    pub(crate) fn load_16(&mut self, address: u16, ppu: &mut PPU) -> (r: u8)
        requires
            old(self).state(old(ppu)).well_formed(),
            old(self).cycles <= u64::MAX - 4,
        ensures
            r == old(self).state(old(ppu)).read(address),
            final(self).state(final(ppu)) == old(self).state(old(ppu)).nop(),
            final(self).state(final(ppu)).well_formed(),
    {
        let value = self.ram.read(address);
        self.nop(ppu);
        value
    }

    /// Writes a byte, then spends one machine cycle.
    pub(crate) fn store(&mut self, address: u16, data: u8, ppu: &mut PPU)
        requires
            old(self).state(old(ppu)).well_formed(),
            old(self).cycles <= u64::MAX - 4,
        ensures
            final(self).state(final(ppu)) == old(self).state(old(ppu)).write(address, data).nop(),
            final(self).state(final(ppu)).well_formed(),
    {
        self.ram.write(address, data);
        self.nop(ppu);
    }

    /// An operation of the ALU on A and `b`: ADD, ADC, SUB, SBC, AND, XOR,
    /// OR or CP; one machine cycle.
    pub(crate) fn alu(&mut self, op: u8, b: u8, ppu: &mut PPU)
        requires
            op < 8,
            old(self).state(old(ppu)).well_formed(),
            old(self).cycles <= u64::MAX - 4,
        ensures
            final(self).state(final(ppu)) == old(self).state(old(ppu)).alu(op, b),
            final(self).state(final(ppu)).well_formed(),
    {
        if op == 0 {
            self.add_8bit(b, ppu);
        } else if op == 1 {
            self.add_with_carry(b, ppu);
        } else if op == 2 {
            self.sub_8bit(b, ppu);
        } else if op == 3 {
            self.sub_with_carry(b, ppu);
        } else if op == 4 {
            self.and(b, ppu);
        } else if op == 5 {
            self.xor(b, ppu);
        } else if op == 6 {
            self.or(b, ppu);
        } else {
            self.compare(b, ppu);
        }
    }

    /// ADD A,b.
    fn add_8bit(&mut self, b: u8, ppu: &mut PPU)
        requires
            old(self).state(old(ppu)).well_formed(),
            old(self).cycles <= u64::MAX - 4,
        ensures
            final(self).state(final(ppu)) == old(self).state(old(ppu)).alu(0, b),
            final(self).state(final(ppu)).well_formed(),
    {
        let a = self.registers.get_a();
        let result = a.wrapping_add(b);
        let carry = a as u16 + b as u16 > 0xFF;
        self.registers.set_a(result);
        set_flags(&mut self.registers, result == 0, false, (a & 0x0F) as u16 + (b & 0x0F) as u16 > 0x0F, carry);
        self.nop(ppu);
    }

    /// ADC A,b: adds the carry too.
    fn add_with_carry(&mut self, b: u8, ppu: &mut PPU)
        requires
            old(self).state(old(ppu)).well_formed(),
            old(self).cycles <= u64::MAX - 4,
        ensures
            final(self).state(final(ppu)) == old(self).state(old(ppu)).alu(1, b),
            final(self).state(final(ppu)).well_formed(),
    {
        let a = self.registers.get_a();
        let carry: u8 = if self.flag(FLAGS::C) { 1 } else { 0 };
        let result = a.wrapping_add(b).wrapping_add(carry);
        let carry_out = a as u16 + b as u16 + carry as u16 > 0xFF;
        set_flags(&mut self.registers, result == 0, false, (a & 0x0F) as u16 + (b & 0x0F) as u16 + carry as u16 > 0x0F, carry_out);
        self.registers.set_a(result);
        self.nop(ppu);
    }

    /// SUB A,b.
    fn sub_8bit(&mut self, b: u8, ppu: &mut PPU)
        requires
            old(self).state(old(ppu)).well_formed(),
            old(self).cycles <= u64::MAX - 4,
        ensures
            final(self).state(final(ppu)) == old(self).state(old(ppu)).alu(2, b),
            final(self).state(final(ppu)).well_formed(),
    {
        let a = self.registers.get_a();
        let result = a.wrapping_sub(b);
        // half borrow: borrow out of bit 4
        set_flags(&mut self.registers, result == 0, true, (a & 0x0F) < (b & 0x0F), a < b);
        self.registers.set_a(result);
        self.nop(ppu);
    }

    /// SBC A,b: subtracts the carry too.
    fn sub_with_carry(&mut self, b: u8, ppu: &mut PPU)
        requires
            old(self).state(old(ppu)).well_formed(),
            old(self).cycles <= u64::MAX - 4,
        ensures
            final(self).state(final(ppu)) == old(self).state(old(ppu)).alu(3, b),
            final(self).state(final(ppu)).well_formed(),
    {
        let a = self.registers.get_a();
        let carry: u8 = if self.flag(FLAGS::C) { 1 } else { 0 };
        let result = a.wrapping_sub(b).wrapping_sub(carry);
        self.registers.set_a(result);
        set_flags(
            &mut self.registers,
            result == 0,
            true,
            ((a & 0x0F) as u16) < (b & 0x0F) as u16 + carry as u16,
            (a as u16) < b as u16 + carry as u16,
        );
        self.nop(ppu);
    }

    /// AND A,b.
    fn and(&mut self, b: u8, ppu: &mut PPU)
        requires
            old(self).state(old(ppu)).well_formed(),
            old(self).cycles <= u64::MAX - 4,
        ensures
            final(self).state(final(ppu)) == old(self).state(old(ppu)).alu(4, b),
            final(self).state(final(ppu)).well_formed(),
    {
        let a = self.registers.get_a();
        let result = a & b;
        self.registers.set_a(result);
        set_flags(&mut self.registers, result == 0, false, true, false);
        self.nop(ppu);
    }

    /// XOR A,b.
    fn xor(&mut self, b: u8, ppu: &mut PPU)
        requires
            old(self).state(old(ppu)).well_formed(),
            old(self).cycles <= u64::MAX - 4,
        ensures
            final(self).state(final(ppu)) == old(self).state(old(ppu)).alu(5, b),
            final(self).state(final(ppu)).well_formed(),
    {
        let a = self.registers.get_a();
        let result = a ^ b;
        self.registers.set_a(result);
        set_flags(&mut self.registers, result == 0, false, false, false);
        self.nop(ppu);
    }

    /// OR A,b.
    fn or(&mut self, b: u8, ppu: &mut PPU)
        requires
            old(self).state(old(ppu)).well_formed(),
            old(self).cycles <= u64::MAX - 4,
        ensures
            final(self).state(final(ppu)) == old(self).state(old(ppu)).alu(6, b),
            final(self).state(final(ppu)).well_formed(),
    {
        let a = self.registers.get_a();
        let result = a | b;
        self.registers.set_a(result);
        set_flags(&mut self.registers, result == 0, false, false, false);
        self.nop(ppu);
    }

    /// CP A,n8: the flags of SUB, A unchanged.
    fn compare(&mut self, n8: u8, ppu: &mut PPU)
        requires
            old(self).state(old(ppu)).well_formed(),
            old(self).cycles <= u64::MAX - 4,
        ensures
            final(self).state(final(ppu)) == old(self).state(old(ppu)).alu(7, n8),
            final(self).state(final(ppu)).well_formed(),
    {
        let a = self.registers.get_a();
        let result = a.wrapping_sub(n8);
        set_flags(&mut self.registers, result == 0, true, (a & 0x0F) < (n8 & 0x0F), a < n8);
        self.nop(ppu);
    }

    /// INC of an eight-bit value, one machine cycle; returns the result.
    pub(crate) fn increment_8_bit(&mut self, data: u8, ppu: &mut PPU) -> (r: u8)
        requires
            old(self).state(old(ppu)).well_formed(),
            old(self).cycles <= u64::MAX - 4,
        ensures
            r == inc_result(data, old(self).registers@.f).0,
            final(self).state(final(ppu)) == old(self).state(old(ppu)).with_f(inc_result(data, old(self).registers@.f).1).nop(),
            final(self).state(final(ppu)).well_formed(),
    {
        let result = data.wrapping_add(1);
        let c = self.flag(FLAGS::C);
        set_flags(&mut self.registers, result == 0, false, (data & 0x0F) as u16 + 1 > 0x0F, c);
        self.nop(ppu);
        result
    }

    /// DEC of an eight-bit value, one machine cycle; returns the result.
    pub(crate) fn decrement_8_bit(&mut self, data: u8, ppu: &mut PPU) -> (r: u8)
        requires
            old(self).state(old(ppu)).well_formed(),
            old(self).cycles <= u64::MAX - 4,
        ensures
            r == dec_result(data, old(self).registers@.f).0,
            final(self).state(final(ppu)) == old(self).state(old(ppu)).with_f(dec_result(data, old(self).registers@.f).1).nop(),
            final(self).state(final(ppu)).well_formed(),
    {
        let result = data.wrapping_sub(1);
        let c = self.flag(FLAGS::C);
        set_flags(&mut self.registers, result == 0, true, (data & 0x0F) == 0, c);
        self.nop(ppu);
        result
    }

    /// RES: `value` with bit `bit` cleared, after one machine cycle.
    pub(crate) fn zero_bit_8bit(&mut self, value: u8, bit: u8, ppu: &mut PPU) -> (r: u8)
        requires
            bit < 8,
            old(self).state(old(ppu)).well_formed(),
            old(self).cycles <= u64::MAX - 4,
        ensures
            r == value & !(1u8 << bit),
            final(self).state(final(ppu)) == old(self).state(old(ppu)).nop(),
            final(self).state(final(ppu)).well_formed(),
    {
        self.nop(ppu);
        value & !(1u8 << bit)
    }

    /// SET: `value` with bit `bit` set, after one machine cycle.
    pub(crate) fn set_bit_8bit(&mut self, value: u8, bit: u8, ppu: &mut PPU) -> (r: u8)
        requires
            bit < 8,
            old(self).state(old(ppu)).well_formed(),
            old(self).cycles <= u64::MAX - 4,
        ensures
            r == value | (1u8 << bit),
            final(self).state(final(ppu)) == old(self).state(old(ppu)).nop(),
            final(self).state(final(ppu)).well_formed(),
    {
        self.nop(ppu);
        value | (1u8 << bit)
    }

    /// A rotation or shift of CB opcodes 0x00-0x3F, after one machine cycle;
    /// returns the result and sets F.
    pub(crate) fn cb_shift(&mut self, op: u8, value: u8, ppu: &mut PPU) -> (r: u8)
        requires
            op < 8,
            old(self).state(old(ppu)).well_formed(),
            old(self).cycles <= u64::MAX - 4,
        ensures
            r == shift_result(op, value, old(self).registers@.f).0,
            final(self).state(final(ppu)) == old(self).state(old(ppu)).nop().with_f(shift_result(op, value, old(self).registers@.f).1),
            final(self).state(final(ppu)).well_formed(),
    {
        if op == 0 {
            self.rotate_without_carry(value, 0, ppu)
        } else if op == 1 {
            self.rotate_without_carry(value, 1, ppu)
        } else if op == 2 {
            self.rotate(value, 0, ppu)
        } else if op == 3 {
            self.rotate(value, 1, ppu)
        } else if op == 4 {
            self.shift(value, 0, ppu)
        } else if op == 5 {
            self.shift(value, 1, ppu)
        } else if op == 6 {
            self.swap(value, ppu)
        } else {
            self.right_shift(value, ppu)
        }
    }

    /// RLC (type 0) or RRC (type 1): rotate, the bit rotated out goes to C.
    fn rotate_without_carry(&mut self, value: u8, type_: u8, ppu: &mut PPU) -> (r: u8)
        requires
            type_ < 2,
            old(self).state(old(ppu)).well_formed(),
            old(self).cycles <= u64::MAX - 4,
        ensures
            r == shift_result(type_, value, old(self).registers@.f).0,
            final(self).state(final(ppu)) == old(self).state(old(ppu)).nop().with_f(shift_result(type_, value, old(self).registers@.f).1),
            final(self).state(final(ppu)).well_formed(),
    {
        self.nop(ppu);
        let (result, carry) = if type_ == 0 {
            ((value << 1u8) | (value >> 7u8), (value & 0x80) != 0)
        } else {
            ((value >> 1u8) | (value << 7u8), (value & 0x01) != 0)
        };
        set_flags(&mut self.registers, result == 0, false, false, carry);
        result
    }

    /// RL (type 0) or RR (type 1): rotate through the carry.
    fn rotate(&mut self, value: u8, type_: u8, ppu: &mut PPU) -> (r: u8)
        requires
            type_ < 2,
            old(self).state(old(ppu)).well_formed(),
            old(self).cycles <= u64::MAX - 4,
        ensures
            r == shift_result((type_ + 2) as u8, value, old(self).registers@.f).0,
            final(self).state(final(ppu)) == old(self).state(old(ppu)).nop().with_f(shift_result((type_ + 2) as u8, value, old(self).registers@.f).1),
            final(self).state(final(ppu)).well_formed(),
    {
        self.nop(ppu);
        let carry: u8 = if self.flag(FLAGS::C) { 1 } else { 0 };
        let (result, out) = if type_ == 0 {
            ((value << 1u8) | carry, (value & 0x80) != 0)
        } else {
            ((value >> 1u8) | (carry << 7u8), (value & 0x01) != 0)
        };
        set_flags(&mut self.registers, result == 0, false, false, out);
        result
    }

    /// SLA (type 0) or SRA (type 1): arithmetic shift, bit 7 kept by SRA.
    fn shift(&mut self, value: u8, type_: u8, ppu: &mut PPU) -> (r: u8)
        requires
            type_ < 2,
            old(self).state(old(ppu)).well_formed(),
            old(self).cycles <= u64::MAX - 4,
        ensures
            r == shift_result((type_ + 4) as u8, value, old(self).registers@.f).0,
            final(self).state(final(ppu)) == old(self).state(old(ppu)).nop().with_f(shift_result((type_ + 4) as u8, value, old(self).registers@.f).1),
            final(self).state(final(ppu)).well_formed(),
    {
        self.nop(ppu);
        let (result, out) = if type_ == 0 {
            (value << 1u8, (value & 0x80) != 0)
        } else {
            ((value >> 1u8) | (value & 0x80), (value & 0x01) != 0)
        };
        set_flags(&mut self.registers, result == 0, false, false, out);
        result
    }

    /// SWAP: exchanges the two nibbles.
    fn swap(&mut self, value: u8, ppu: &mut PPU) -> (r: u8)
        requires
            old(self).state(old(ppu)).well_formed(),
            old(self).cycles <= u64::MAX - 4,
        ensures
            r == shift_result(6, value, old(self).registers@.f).0,
            final(self).state(final(ppu)) == old(self).state(old(ppu)).nop().with_f(shift_result(6, value, old(self).registers@.f).1),
            final(self).state(final(ppu)).well_formed(),
    {
        self.nop(ppu);
        let result = (value >> 4u8) | (value << 4u8);
        set_flags(&mut self.registers, result == 0, false, false, false);
        result
    }

    /// SRL: logical shift right.
    fn right_shift(&mut self, value: u8, ppu: &mut PPU) -> (r: u8)
        requires
            old(self).state(old(ppu)).well_formed(),
            old(self).cycles <= u64::MAX - 4,
        ensures
            r == shift_result(7, value, old(self).registers@.f).0,
            final(self).state(final(ppu)) == old(self).state(old(ppu)).nop().with_f(shift_result(7, value, old(self).registers@.f).1),
            final(self).state(final(ppu)).well_formed(),
    {
        self.nop(ppu);
        let lsb = (value & 0x01) != 0;
        let result = value >> 1u8;
        set_flags(&mut self.registers, result == 0, false, false, lsb);
        result
    }

    /// BIT: Z tells whether bit `bit` of `value` is clear; H set, N clear,
    /// C kept; two machine cycles.
    pub(crate) fn bit(&mut self, value: u8, bit: u8, ppu: &mut PPU)
        requires
            bit < 8,
            old(self).state(old(ppu)).well_formed(),
            old(self).cycles <= u64::MAX - 8,
        ensures
            final(self).state(final(ppu)) == old(self).state(old(ppu)).nop().nop().with_f(
                flags(value & (1u8 << bit) == 0, false, true, old(self).registers@.flag(FLAGS::C))),
            final(self).state(final(ppu)).well_formed(),
    {
        self.nop(ppu);
        self.nop(ppu);
        let tested_bit = value & (1u8 << bit);
        let c = self.flag(FLAGS::C);
        set_flags(&mut self.registers, tested_bit == 0, false, true, c);
    }

    /// DAA: decimal adjust of A.
    #[verifier::spinoff_prover]
    #[verifier::rlimit(50)]
    pub(crate) fn daa(&mut self, ppu: &mut PPU)
        requires
            old(self).state(old(ppu)).well_formed(),
            old(self).cycles <= u64::MAX - 4,
        ensures
            ({
                let (a, f) = daa_result(old(self).registers@.a, old(self).registers@.f);
                final(self).state(final(ppu)) == old(self).state(old(ppu)).with_a_f(a, f).nop()
            }),
            final(self).state(final(ppu)).well_formed(),
    {
        let a = self.registers.get_a();
        let n = self.flag(FLAGS::N);
        let c = self.flag(FLAGS::C);
        let h = self.flag(FLAGS::H);
        let mut result = a;
        let mut carry = c;
        if !n {
            if c || a > 0x99 {
                result = result.wrapping_add(0x60);
                carry = true;
            }
            if h || (a & 0x0F) > 0x09 {
                result = result.wrapping_add(0x06);
            }
        } else {
            if c {
                result = result.wrapping_sub(0x60);
            }
            if h {
                result = result.wrapping_sub(0x06);
            }
        }
        self.registers.set_a(result);
        set_flags(&mut self.registers, result == 0, n, false, carry);
        self.nop(ppu);
    }

    /// RLCA: rotate A left; Z, N and H clear.
    pub(crate) fn rlca(&mut self, ppu: &mut PPU)
        requires
            old(self).state(old(ppu)).well_formed(),
            old(self).cycles <= u64::MAX - 4,
        ensures
            ({
                let a = old(self).registers@.a;
                final(self).state(final(ppu)) == old(self).state(old(ppu)).with_a_f(
                    (a << 1u8) | (a >> 7u8), flags(false, false, false, a & 0x80 != 0)).nop()
            }),
            final(self).state(final(ppu)).well_formed(),
    {
        let a = self.registers.get_a();
        let carry = (a & 0x80) != 0;
        let result = (a << 1u8) | (a >> 7u8);
        self.registers.set_a(result);
        set_flags(&mut self.registers, false, false, false, carry);
        self.nop(ppu);
    }
}

} // verus!
