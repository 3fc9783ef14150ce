//! Opcodes 0x00-0x3F: 16-bit loads and arithmetic, relative jumps,
//! increments, immediate loads and the accumulator rotations.
use vstd::prelude::*;
use super::{CPU, MachineView, get_r8_exec, set_r8_exec, get_r16_exec, set_r16_exec, add_signed, cycles_ok};
use super::registers::{RegFile, FLAGS, pair};
use super::spec::{execute_low, low_col0, low_col1, low_col2, low_col3, low_col45, low_col6, low_col7, add16, add16_flags, flags};
use crate::ppu::PPU;

verus! {

impl CPU {
    /// Opcodes 0x00-0x3F.
    pub(crate) fn execute_low(&mut self, opcode: u8, ppu: &mut PPU)
        requires
            opcode < 0x40,
            old(self).state(old(ppu)).well_formed(),
            cycles_ok(old(self).cycles),
        ensures
            final(self).state(final(ppu)) == execute_low(opcode, old(self).state(old(ppu))),
            final(self).state(final(ppu)).well_formed(),
    {
        let col = opcode % 8;
        if col == 0 {
            self.execute_col0(opcode, ppu);
        } else if col == 1 {
            self.execute_col1(opcode, ppu);
        } else if col == 2 {
            self.execute_col2(opcode, ppu);
        } else if col == 3 {
            self.execute_col3(opcode, ppu);
        } else if col == 4 || col == 5 {
            self.execute_col45(opcode, ppu);
        } else if col == 6 {
            self.execute_col6(opcode, ppu);
        } else {
            self.execute_col7(opcode, ppu);
        }
    }

    /// NOP, LD (a16),SP, STOP and the relative jumps.
    fn execute_col0(&mut self, opcode: u8, ppu: &mut PPU)
        requires
            opcode < 0x40,
            opcode % 8 == 0,
            old(self).state(old(ppu)).well_formed(),
            cycles_ok(old(self).cycles),
        ensures
            final(self).state(final(ppu)) == low_col0(opcode, old(self).state(old(ppu))),
            final(self).state(final(ppu)).well_formed(),
    {
        if opcode == 0x00 {
            self.nop(ppu);
        } else if opcode == 0x08 {
            // store SP at the operand address
            let lower_byte = self.fetch();
            self.nop(ppu);
            let upper_byte = self.fetch();
            self.nop(ppu);
            let address = ((upper_byte as u16) << 8) | lower_byte as u16;
            assert(((upper_byte as u16) << 8) | lower_byte as u16 == upper_byte as u16 * 256 + lower_byte as u16) by (bit_vector);
            let sp = self.registers.get_sp();
            self.nop(ppu);
            self.ram.write(address, (sp % 256) as u8);
            self.nop(ppu);
            self.ram.write(address.wrapping_add(1), (sp / 256) as u8);
            self.nop(ppu);
        } else if opcode == 0x10 {
            self.stopped = true;
            self.nop(ppu);
        } else if opcode == 0x18 {
            // relative jump
            let jump = self.fetch();
            self.nop(ppu);
            let new_pc = add_signed(self.registers.get_pc(), jump);
            self.nop(ppu);
            self.registers.set_pc(new_pc);
            self.nop(ppu);
        } else {
            // conditional relative jump: NZ, Z, NC, C
            let jump = self.fetch();
            self.nop(ppu);
            let taken = if opcode == 0x20 {
                !self.flag(FLAGS::Z)
            } else if opcode == 0x28 {
                self.flag(FLAGS::Z)
            } else if opcode == 0x30 {
                !self.flag(FLAGS::C)
            } else {
                self.flag(FLAGS::C)
            };
            if taken {
                self.nop(ppu);
                let new_pc = add_signed(self.registers.get_pc(), jump);
                self.registers.set_pc(new_pc);
                self.nop(ppu);
            } else {
                self.nop(ppu);
            }
        }
    }

    /// LD rr,d16 and ADD HL,rr.
    fn execute_col1(&mut self, opcode: u8, ppu: &mut PPU)
        requires
            opcode < 0x40,
            opcode % 8 == 1,
            old(self).state(old(ppu)).well_formed(),
            cycles_ok(old(self).cycles),
        ensures
            final(self).state(final(ppu)) == low_col1(opcode, old(self).state(old(ppu))),
            final(self).state(final(ppu)).well_formed(),
    {
        let row = opcode / 8;
        if row % 2 == 0 {
            // load two bytes into the pair
            let address = self.registers.get_and_inc_pc();
            let lower_byte = self.load_16(address, ppu);
            let address = self.registers.get_and_inc_pc();
            let upper_byte = self.load_16(address, ppu);
            let data = ((upper_byte as u16) << 8) | (lower_byte as u16);
            assert(((upper_byte as u16) << 8) | lower_byte as u16 == upper_byte as u16 * 256 + lower_byte as u16) by (bit_vector);
            self.nop(ppu);
            set_r16_exec(&mut self.registers, row / 2, data);
        } else if opcode == 0x39 {
            // ADD HL,SP
            let hl = self.registers.get_hl();
            let sp = self.registers.get_sp();
            let result = hl.wrapping_add(sp);
            self.registers.set_hl(result);
            self.nop(ppu);
            let z = self.flag(FLAGS::Z);
            self.set_flags(z, false, (hl & 0x0FFF) as u32 + (sp & 0x0FFF) as u32 > 0x0FFF, hl as u32 + sp as u32 > 0xFFFF);
            self.nop(ppu);
        } else {
            // ADD HL,rr
            self.nop(ppu);
            let hl = self.registers.get_hl();
            let v = get_r16_exec(&self.registers, row / 2);
            let result = self.add_16bit(hl, v, ppu);
            self.registers.set_hl(result);
        }
    }

    /// ADD HL,rr: H from bit 11, C from bit 15, Z kept, one machine
    /// cycle; returns the sum.
    fn add_16bit(&mut self, value1: u16, value2: u16, ppu: &mut PPU) -> (r: u16)
        requires
            old(self).state(old(ppu)).well_formed(),
            old(self).cycles <= u64::MAX - 4,
        ensures
            r == add16(value1, value2 as int),
            final(self).state(final(ppu)) == old(self).state(old(ppu)).with_f(add16_flags(value1, value2, old(self).registers@.f)).nop(),
            final(self).state(final(ppu)).well_formed(),
    {
        let result = value1.wrapping_add(value2);
        let z = self.flag(FLAGS::Z);
        self.set_flags(z, false, (value1 & 0xFFF) as u32 + (value2 & 0xFFF) as u32 > 0xFFF, value1 as u32 + value2 as u32 > 0xFFFF);
        self.nop(ppu);
        result
    }

    /// Loads and stores through BC, DE and HL.
    fn execute_col2(&mut self, opcode: u8, ppu: &mut PPU)
        requires
            opcode < 0x40,
            opcode % 8 == 2,
            old(self).state(old(ppu)).well_formed(),
            cycles_ok(old(self).cycles),
        ensures
            final(self).state(final(ppu)) == low_col2(opcode, old(self).state(old(ppu))),
            final(self).state(final(ppu)).well_formed(),
    {
        if opcode == 0x02 || opcode == 0x12 || opcode == 0x22 || opcode == 0x32 {
            self.execute_col2_store(opcode, ppu);
        } else {
            self.execute_col2_load(opcode, ppu);
        }
    }

    /// LD (BC),A, LD (DE),A, LD (HL+),A and LD (HL-),A.
    #[verifier::spinoff_prover]
    #[verifier::rlimit(50)]
    fn execute_col2_store(&mut self, opcode: u8, ppu: &mut PPU)
        requires
            opcode == 0x02 || opcode == 0x12 || opcode == 0x22 || opcode == 0x32,
            old(self).state(old(ppu)).well_formed(),
            cycles_ok(old(self).cycles),
        ensures
            final(self).state(final(ppu)) == low_col2(opcode, old(self).state(old(ppu))),
            final(self).state(final(ppu)).well_formed(),
    {
        if opcode == 0x02 {
            // store A at (BC)
            self.store(self.registers.get_bc(), self.registers.get_a(), ppu);
            self.nop(ppu);
        } else if opcode == 0x12 {
            self.store(self.registers.get_de(), self.registers.get_a(), ppu);
            self.nop(ppu);
        } else if opcode == 0x22 {
            // store A at (HL), then increment HL
            let hl = self.registers.get_hl();
            self.store(hl, self.registers.get_a(), ppu);
            self.registers.set_hl(hl.wrapping_add(1));
            self.nop(ppu);
        } else if opcode == 0x32 {
            let hl = self.registers.get_hl();
            self.store(hl, self.registers.get_a(), ppu);
            self.registers.set_hl(hl.wrapping_sub(1));
            self.nop(ppu);
        }
    }

    /// LD A,(BC), LD A,(DE), LD A,(HL+) and LD A,(HL-).
    fn execute_col2_load(&mut self, opcode: u8, ppu: &mut PPU)
        requires
            opcode == 0x0A || opcode == 0x1A || opcode == 0x2A || opcode == 0x3A,
            old(self).state(old(ppu)).well_formed(),
            cycles_ok(old(self).cycles),
        ensures
            final(self).state(final(ppu)) == low_col2(opcode, old(self).state(old(ppu))),
            final(self).state(final(ppu)).well_formed(),
    {
        if opcode == 0x0A || opcode == 0x1A {
            let address = if opcode == 0x0A { self.registers.get_bc() } else { self.registers.get_de() };
            let data = self.ram.read(address);
            self.load_a(data, ppu);
            self.nop(ppu);
        } else if opcode == 0x2A {
            let address = self.registers.get_hl();
            let data = self.ram.read(address);
            self.registers.set_hl(address.wrapping_add(1));
            self.load_a(data, ppu);
            self.nop(ppu);
        } else {
            let hl = self.registers.get_hl();
            let data = self.ram.read(hl);
            self.nop(ppu);
            self.registers.set_hl(hl.wrapping_sub(1));
            self.registers.set_a(data);
            self.nop(ppu);
        }
    }

    /// One machine cycle, then A takes `value`.
    fn load_a(&mut self, value: u8, ppu: &mut PPU)
        requires
            old(self).state(old(ppu)).well_formed(),
            old(self).cycles <= u64::MAX - 4,
        ensures
            ({
                let s = old(self).state(old(ppu)).nop();
                final(self).state(final(ppu)) == s.set_regs(RegFile { a: value, ..s.regs })
            }),
            final(self).state(final(ppu)).well_formed(),
    {
        self.nop(ppu);
        self.registers.set_a(value);
    }

    /// INC rr and DEC rr.
    fn execute_col3(&mut self, opcode: u8, ppu: &mut PPU)
        requires
            opcode < 0x40,
            opcode % 8 == 3,
            old(self).state(old(ppu)).well_formed(),
            cycles_ok(old(self).cycles),
        ensures
            final(self).state(final(ppu)) == low_col3(opcode, old(self).state(old(ppu))),
            final(self).state(final(ppu)).well_formed(),
    {
        let row = opcode / 8;
        let idx = row / 2;
        let value = get_r16_exec(&self.registers, idx);
        self.nop(ppu);
        if row % 2 == 0 {
            set_r16_exec(&mut self.registers, idx, value.wrapping_add(1));
        } else {
            set_r16_exec(&mut self.registers, idx, value.wrapping_sub(1));
        }
        self.nop(ppu);
    }

    /// INC and DEC of registers and of (HL).
    fn execute_col45(&mut self, opcode: u8, ppu: &mut PPU)
        requires
            opcode < 0x40,
            opcode % 8 == 4 || opcode % 8 == 5,
            old(self).state(old(ppu)).well_formed(),
            cycles_ok(old(self).cycles),
        ensures
            final(self).state(final(ppu)) == low_col45(opcode, old(self).state(old(ppu))),
            final(self).state(final(ppu)).well_formed(),
    {
        let row = opcode / 8;
        if opcode == 0x34 || opcode == 0x35 {
            let address = self.registers.get_hl();
            let value = self.ram.read(address);
            self.nop(ppu);
            let c = self.flag(FLAGS::C);
            if opcode == 0x34 {
                let result = value.wrapping_add(1);
                self.ram.write(address, result);
                self.nop(ppu);
                self.set_flags(result == 0, false, (value & 0x0F) as u16 + 1 > 0x0F, c);
            } else {
                let result = value.wrapping_sub(1);
                self.ram.write(address, result);
                self.nop(ppu);
                self.set_flags(result == 0, true, (value & 0x0F) == 0, c);
            }
            self.nop(ppu);
        } else {
            let value = get_r8_exec(&self.registers, row);
            let data = if opcode % 8 == 4 {
                self.increment_8_bit(value, ppu)
            } else {
                self.decrement_8_bit(value, ppu)
            };
            set_r8_exec(&mut self.registers, row, data);
        }
    }

    /// LD r,d8 and LD (HL),d8.
    fn execute_col6(&mut self, opcode: u8, ppu: &mut PPU)
        requires
            opcode < 0x40,
            opcode % 8 == 6,
            old(self).state(old(ppu)).well_formed(),
            cycles_ok(old(self).cycles),
        ensures
            final(self).state(final(ppu)) == low_col6(opcode, old(self).state(old(ppu))),
            final(self).state(final(ppu)).well_formed(),
    {
        let row = opcode / 8;
        if opcode == 0x36 {
            let address = self.registers.get_hl();
            let data = self.fetch();
            self.nop(ppu);
            self.ram.write(address, data);
            self.nop(ppu);
            self.nop(ppu);
        } else if opcode == 0x06 || opcode == 0x16 || opcode == 0x26 {
            self.nop(ppu);
            let data = self.fetch();
            set_r8_exec(&mut self.registers, row, data);
            self.nop(ppu);
        } else {
            let data = self.fetch();
            self.nop(ppu);
            set_r8_exec(&mut self.registers, row, data);
            self.nop(ppu);
        }
    }

    /// The accumulator rotations, DAA, CPL, SCF and CCF.
    fn execute_col7(&mut self, opcode: u8, ppu: &mut PPU)
        requires
            opcode < 0x40,
            opcode % 8 == 7,
            old(self).state(old(ppu)).well_formed(),
            cycles_ok(old(self).cycles),
        ensures
            final(self).state(final(ppu)) == low_col7(opcode, old(self).state(old(ppu))),
            final(self).state(final(ppu)).well_formed(),
    {
        let a = self.registers.get_a();
        let z = self.flag(FLAGS::Z);
        let c = self.flag(FLAGS::C);
        if opcode == 0x07 {
            self.rlca(ppu);
        } else if opcode == 0x0F {
            // RRCA
            self.registers.set_a((a >> 1u8) | (a << 7u8));
            self.set_flags(false, false, false, a & 0x01 != 0);
            self.nop(ppu);
        } else if opcode == 0x17 {
            // RLA: through the carry
            let carry: u8 = if c { 1 } else { 0 };
            self.registers.set_a((a << 1u8) | carry);
            self.set_flags(false, false, false, a & 0x80 != 0);
            self.nop(ppu);
        } else if opcode == 0x1F {
            // RRA: through the carry
            let carry: u8 = if c { 1 } else { 0 };
            self.registers.set_a((a >> 1u8) | (carry << 7u8));
            self.set_flags(false, false, false, a & 0x01 != 0);
            self.nop(ppu);
        } else if opcode == 0x27 {
            self.daa(ppu);
        } else if opcode == 0x2F {
            // complement A; N and H set
            self.registers.set_a(!a);
            self.set_flags(z, true, true, c);
            self.nop(ppu);
        } else if opcode == 0x37 {
            // set carry
            self.set_flags(z, false, false, true);
            self.nop(ppu);
        } else {
            // complement carry
            self.set_flags(z, false, false, !c);
            self.nop(ppu);
        }
    }
}

} // verus!
