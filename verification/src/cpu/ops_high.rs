//! Opcodes 0xC0-0xFF: returns, stack, jumps, calls, restarts, immediate
//! ALU operations, high-page loads and SP arithmetic.
use vstd::prelude::*;
use super::{CPU, MachineView, add_signed, cycles_ok};
use super::registers::{RegFile, FLAGS};
use super::spec::{
    execute_high, high_ret, high_pop, high_push, high_jp, high_call, high_other, reset_spec,
    is_ret, is_pop, is_push, is_jp, is_call,
};
use crate::ppu::PPU;

verus! {

impl CPU {
    /// Opcodes 0xC0-0xFF.
    pub(crate) fn execute_high(&mut self, opcode: u8, ppu: &mut PPU)
        requires
            opcode >= 0xC0,
            old(self).state(old(ppu)).well_formed(),
            cycles_ok(old(self).cycles),
        ensures
            final(self).state(final(ppu)) == execute_high(opcode, old(self).state(old(ppu))),
            final(self).state(final(ppu)).well_formed(),
    {
        if opcode == 0xC0 || opcode == 0xC8 || opcode == 0xD0 || opcode == 0xD8 || opcode == 0xC9 || opcode == 0xD9 {
            self.execute_ret(opcode, ppu);
        } else if opcode == 0xC1 || opcode == 0xD1 || opcode == 0xE1 || opcode == 0xF1 {
            self.execute_pop(opcode, ppu);
        } else if opcode == 0xC5 || opcode == 0xD5 || opcode == 0xE5 || opcode == 0xF5 {
            self.execute_push(opcode, ppu);
        } else if opcode == 0xC2 || opcode == 0xC3 || opcode == 0xCA || opcode == 0xD2 || opcode == 0xDA {
            self.execute_jp(opcode, ppu);
        } else if opcode == 0xC4 || opcode == 0xCC || opcode == 0xCD || opcode == 0xD4 || opcode == 0xDC {
            self.execute_call(opcode, ppu);
        } else if opcode % 8 == 7 {
            self.reset((opcode - 0xC7) as u16, ppu);
        } else if opcode % 8 == 6 {
            // ALU operation with an immediate operand
            let data = self.fetch();
            self.alu(opcode / 8 % 8, data, ppu);
            self.nop(ppu);
        } else if opcode == 0xCB {
            let opcode = self.fetch();
            self.cb(opcode, ppu);
        } else {
            self.execute_other(opcode, ppu);
        }
    }

    /// Whether the condition of a conditional instruction holds: NZ, Z,
    /// NC or C, from bits 3-4 of the opcode.
    fn condition(&self, cc: u8) -> (r: bool)
        ensures
            r == super::spec::condition(self.registers@, cc),
    {
        if cc == 0 {
            !self.flag(FLAGS::Z)
        } else if cc == 1 {
            self.flag(FLAGS::Z)
        } else if cc == 2 {
            !self.flag(FLAGS::C)
        } else {
            self.flag(FLAGS::C)
        }
    }

    /// SP moved down by one.
    fn sp_down(&mut self)
        ensures
            final(self).registers@ == (RegFile { sp: super::spec::add16(old(self).registers@.sp, -1), ..old(self).registers@ }),
            final(self).ram == old(self).ram,
            final(self).timer == old(self).timer,
            final(self).cycles == old(self).cycles,
            final(self).ime == old(self).ime,
            final(self).ime_queued == old(self).ime_queued,
            final(self).halted == old(self).halted,
            final(self).stopped == old(self).stopped,
    {
        self.registers.set_sp(self.registers.get_sp().wrapping_sub(1));
    }

    /// SP moved up by one.
    fn sp_up(&mut self)
        ensures
            final(self).registers@ == (RegFile { sp: super::spec::add16(old(self).registers@.sp, 1), ..old(self).registers@ }),
            final(self).ram == old(self).ram,
            final(self).timer == old(self).timer,
            final(self).cycles == old(self).cycles,
            final(self).ime == old(self).ime,
            final(self).ime_queued == old(self).ime_queued,
            final(self).halted == old(self).halted,
            final(self).stopped == old(self).stopped,
    {
        self.registers.set_sp(self.registers.get_sp().wrapping_add(1));
    }

    /// RET cc, RET and RETI.
    fn execute_ret(&mut self, opcode: u8, ppu: &mut PPU)
        requires
            is_ret(opcode),
            old(self).state(old(ppu)).well_formed(),
            cycles_ok(old(self).cycles),
        ensures
            final(self).state(final(ppu)) == high_ret(opcode, old(self).state(old(ppu))),
            final(self).state(final(ppu)).well_formed(),
    {
        if opcode == 0xC9 || opcode == 0xD9 {
            self.execute_ret_always(opcode, ppu);
        } else {
            self.execute_ret_conditional(opcode, ppu);
        }
    }

    /// RET and RETI.
    fn execute_ret_always(&mut self, opcode: u8, ppu: &mut PPU)
        requires
            opcode == 0xC9 || opcode == 0xD9,
            old(self).state(old(ppu)).well_formed(),
            cycles_ok(old(self).cycles),
        ensures
            final(self).state(final(ppu)) == high_ret(opcode, old(self).state(old(ppu))),
            final(self).state(final(ppu)).well_formed(),
    {
        let lower_byte = self.ram.read(self.registers.get_sp());
        self.nop(ppu);
        self.sp_up();
        self.nop(ppu);
        let upper_byte = self.ram.read(self.registers.get_sp());
        self.nop(ppu);
        self.sp_up();
        let address = upper_byte as u16 * 256 + lower_byte as u16;
        if opcode == 0xC9 {
            self.nop(ppu);
            self.registers.set_pc(address);
        } else {
            self.registers.set_pc(address);
            self.ime = true;
            self.nop(ppu);
        }
    }

    /// RET cc.
    fn execute_ret_conditional(&mut self, opcode: u8, ppu: &mut PPU)
        requires
            opcode == 0xC0 || opcode == 0xC8 || opcode == 0xD0 || opcode == 0xD8,
            old(self).state(old(ppu)).well_formed(),
            cycles_ok(old(self).cycles),
        ensures
            final(self).state(final(ppu)) == high_ret(opcode, old(self).state(old(ppu))),
            final(self).state(final(ppu)).well_formed(),
    {
        self.nop(ppu);
        if self.condition(opcode / 8 % 4) {
            if opcode == 0xC0 {
                let lower_byte = self.ram.read(self.registers.get_sp());
                self.nop(ppu);
                self.sp_up();
                self.nop(ppu);
                let upper_byte = self.ram.read(self.registers.get_sp());
                self.sp_up();
                self.nop(ppu);
                self.registers.set_pc(upper_byte as u16 * 256 + lower_byte as u16);
                self.nop(ppu);
            } else if opcode == 0xD0 {
                self.nop(ppu);
                let lower_byte = self.ram.read(self.registers.get_sp());
                self.sp_up();
                self.nop(ppu);
                let upper_byte = self.ram.read(self.registers.get_sp());
                self.nop(ppu);
                self.sp_up();
                self.registers.set_pc(upper_byte as u16 * 256 + lower_byte as u16);
                self.nop(ppu);
            } else {
                let lower_byte = self.ram.read(self.registers.get_sp());
                self.nop(ppu);
                self.sp_up();
                self.nop(ppu);
                let upper_byte = self.ram.read(self.registers.get_sp());
                self.nop(ppu);
                self.sp_up();
                self.registers.set_pc(upper_byte as u16 * 256 + lower_byte as u16);
                self.nop(ppu);
            }
        } else {
            self.nop(ppu);
        }
    }

    /// POP BC, DE, HL and AF.
    fn execute_pop(&mut self, opcode: u8, ppu: &mut PPU)
        requires
            is_pop(opcode),
            old(self).state(old(ppu)).well_formed(),
            cycles_ok(old(self).cycles),
        ensures
            final(self).state(final(ppu)) == high_pop(opcode, old(self).state(old(ppu))),
            final(self).state(final(ppu)).well_formed(),
    {
        let lower_byte = self.ram.read(self.registers.get_sp());
        if opcode == 0xC1 {
            self.sp_up();
            self.nop(ppu);
            let upper_byte = self.ram.read(self.registers.get_sp());
            self.sp_up();
            self.nop(ppu);
            self.registers.set_bc(upper_byte as u16 * 256 + lower_byte as u16);
            self.nop(ppu);
        } else if opcode == 0xE1 {
            self.nop(ppu);
            self.sp_up();
            let upper_byte = self.ram.read(self.registers.get_sp());
            self.sp_up();
            self.nop(ppu);
            self.registers.set_hl(upper_byte as u16 * 256 + lower_byte as u16);
            self.nop(ppu);
        } else {
            self.nop(ppu);
            self.sp_up();
            self.nop(ppu);
            let upper_byte = self.ram.read(self.registers.get_sp());
            self.sp_up();
            self.nop(ppu);
            if opcode == 0xD1 {
                self.registers.set_de(upper_byte as u16 * 256 + lower_byte as u16);
            } else {
                // the low nibble of F does not exist
                self.registers.set_af(upper_byte as u16 * 256 + (lower_byte & 0xF0) as u16);
            }
        }
    }

    /// PUSH BC, DE, HL and AF.
    fn execute_push(&mut self, opcode: u8, ppu: &mut PPU)
        requires
            is_push(opcode),
            old(self).state(old(ppu)).well_formed(),
            cycles_ok(old(self).cycles),
        ensures
            final(self).state(final(ppu)) == high_push(opcode, old(self).state(old(ppu))),
            final(self).state(final(ppu)).well_formed(),
    {
        let value = if opcode == 0xC5 {
            self.registers.get_bc()
        } else if opcode == 0xD5 {
            self.registers.get_de()
        } else if opcode == 0xE5 {
            self.registers.get_hl()
        } else {
            self.registers.get_af()
        };
        if opcode == 0xC5 || opcode == 0xF5 {
            self.nop(ppu);
            self.sp_down();
            self.nop(ppu);
            self.ram.write(self.registers.get_sp(), (value / 256) as u8);
            self.nop(ppu);
            self.sp_down();
            self.ram.write(self.registers.get_sp(), (value % 256) as u8);
            self.nop(ppu);
        } else {
            self.sp_down();
            self.nop(ppu);
            self.ram.write(self.registers.get_sp(), (value / 256) as u8);
            self.nop(ppu);
            self.sp_down();
            self.nop(ppu);
            self.ram.write(self.registers.get_sp(), (value % 256) as u8);
            self.nop(ppu);
        }
    }

    /// JP cc,a16 and JP a16.
    fn execute_jp(&mut self, opcode: u8, ppu: &mut PPU)
        requires
            is_jp(opcode),
            old(self).state(old(ppu)).well_formed(),
            cycles_ok(old(self).cycles),
        ensures
            final(self).state(final(ppu)) == high_jp(opcode, old(self).state(old(ppu))),
            final(self).state(final(ppu)).well_formed(),
    {
        let taken = opcode == 0xC3 || self.condition(opcode / 8 % 4);
        let lower_byte = self.fetch();
        self.nop(ppu);
        let upper_byte = self.fetch();
        self.nop(ppu);
        let address = upper_byte as u16 * 256 + lower_byte as u16;
        if taken {
            self.nop(ppu);
            self.registers.set_pc(address);
            self.nop(ppu);
        } else {
            self.nop(ppu);
        }
    }

    /// CALL cc,a16 and CALL a16.
    #[verifier::rlimit(40)]
    fn execute_call(&mut self, opcode: u8, ppu: &mut PPU)
        requires
            is_call(opcode),
            old(self).state(old(ppu)).well_formed(),
            cycles_ok(old(self).cycles),
        ensures
            final(self).state(final(ppu)) == high_call(opcode, old(self).state(old(ppu))),
            final(self).state(final(ppu)).well_formed(),
    {
        let taken = opcode == 0xCD || self.condition(opcode / 8 % 4);
        let lower_byte = self.fetch();
        self.nop(ppu);
        let upper_byte = self.fetch();
        self.nop(ppu);
        let address = upper_byte as u16 * 256 + lower_byte as u16;
        let pc = self.registers.get_pc();
        if !taken {
            self.nop(ppu);
            return;
        }
        if opcode == 0xC4 {
            self.sp_down();
            self.nop(ppu);
            self.ram.write(self.registers.get_sp(), (pc / 256) as u8);
            self.nop(ppu);
            self.sp_down();
            self.ram.write(self.registers.get_sp(), (pc % 256) as u8);
            self.nop(ppu);
            self.registers.set_pc(address);
            self.nop(ppu);
        } else if opcode == 0xCC {
            self.nop(ppu);
            self.sp_down();
            self.nop(ppu);
            self.ram.write(self.registers.get_sp(), (pc / 256) as u8);
            self.nop(ppu);
            self.sp_down();
            self.nop(ppu);
            self.ram.write(self.registers.get_sp(), (pc % 256) as u8);
            self.registers.set_pc(address);
        } else if opcode == 0xCD {
            self.sp_down();
            self.nop(ppu);
            self.ram.write(self.registers.get_sp(), (pc / 256) as u8);
            self.nop(ppu);
            self.sp_down();
            self.nop(ppu);
            self.ram.write(self.registers.get_sp(), (pc % 256) as u8);
            self.registers.set_pc(address);
            self.nop(ppu);
        } else {
            self.nop(ppu);
            self.sp_down();
            self.nop(ppu);
            self.ram.write(self.registers.get_sp(), (pc / 256) as u8);
            self.nop(ppu);
            self.sp_down();
            self.ram.write(self.registers.get_sp(), (pc % 256) as u8);
            self.registers.set_pc(address);
            self.nop(ppu);
        }
    }

    /// RST: pushes PC and jumps to `address`.
    fn reset(&mut self, address: u16, ppu: &mut PPU)
        requires
            old(self).state(old(ppu)).well_formed(),
            cycles_ok(old(self).cycles),
        ensures
            final(self).state(final(ppu)) == reset_spec(old(self).state(old(ppu)), address),
            final(self).state(final(ppu)).well_formed(),
    {
        let pc = self.registers.get_pc();
        self.sp_down();
        self.nop(ppu);
        self.ram.write(self.registers.get_sp(), (pc / 256) as u8);
        self.nop(ppu);
        self.sp_down();
        self.nop(ppu);
        self.ram.write(self.registers.get_sp(), (pc % 256) as u8);
        self.registers.set_pc(address);
        self.nop(ppu);
    }

    /// High-page loads, loads through a 16-bit address, SP arithmetic,
    /// JP HL, DI, EI and the unused opcodes.
    #[verifier::rlimit(40)]
    fn execute_other(&mut self, opcode: u8, ppu: &mut PPU)
        requires
            opcode >= 0xC0,
            !is_ret(opcode) && !is_pop(opcode) && !is_push(opcode) && !is_jp(opcode) && !is_call(opcode),
            opcode % 8 != 7 && opcode % 8 != 6 && opcode != 0xCB,
            old(self).state(old(ppu)).well_formed(),
            cycles_ok(old(self).cycles),
        ensures
            final(self).state(final(ppu)) == high_other(opcode, old(self).state(old(ppu))),
            final(self).state(final(ppu)).well_formed(),
    {
        if opcode == 0xE0 || opcode == 0xF0 {
            let offset = self.fetch();
            let address = 0xFF00u16 + offset as u16;
            self.nop(ppu);
            if opcode == 0xE0 {
                self.ram.write(address, self.registers.get_a());
                self.nop(ppu);
                self.nop(ppu);
            } else {
                let value = self.ram.read(address);
                self.nop(ppu);
                self.registers.set_a(value);
                self.nop(ppu);
            }
        } else if opcode == 0xE2 {
            let address = 0xFF00u16 + self.registers.get_c() as u16;
            self.ram.write(address, self.registers.get_a());
            self.nop(ppu);
            self.nop(ppu);
        } else if opcode == 0xF2 {
            let address = 0xFF00u16 + self.registers.get_c() as u16;
            let data = self.ram.read(address);
            self.nop(ppu);
            self.registers.set_a(data);
            self.nop(ppu);
        } else if opcode == 0xE8 || opcode == 0xF8 {
            let sp = self.registers.get_sp();
            self.nop(ppu);
            let imm = self.fetch();
            self.nop(ppu);
            let result = add_signed(sp, imm);
            let h = (sp & 0x0F) as u32 + (imm & 0x0F) as u32 > 0x0F;
            let c = (sp & 0xFF) as u32 + imm as u32 > 0xFF;
            if opcode == 0xE8 {
                self.nop(ppu);
                self.registers.set_sp(result);
            } else {
                self.registers.set_hl(result);
            }
            self.set_flags(false, false, h, c);
            self.nop(ppu);
        } else if opcode == 0xE9 {
            self.registers.set_pc(self.registers.get_hl());
            self.nop(ppu);
        } else if opcode == 0xF9 {
            let value = self.registers.get_hl();
            self.nop(ppu);
            self.registers.set_sp(value);
            self.nop(ppu);
        } else if opcode == 0xEA || opcode == 0xFA {
            let lower = self.fetch();
            let upper = self.fetch();
            self.nop(ppu);
            let address = upper as u16 * 256 + lower as u16;
            self.nop(ppu);
            if opcode == 0xEA {
                self.ram.write(address, self.registers.get_a());
                self.nop(ppu);
                self.nop(ppu);
            } else {
                let value = self.ram.read(address);
                self.registers.set_a(value);
                self.nop(ppu);
                self.nop(ppu);
            }
        } else if opcode == 0xF3 {
            self.ime = false;
            self.nop(ppu);
        } else if opcode == 0xFB {
            // interrupts are enabled after the next instruction
            self.ime_queued = true;
            self.nop(ppu);
        } else {
            self.nop(ppu);
        }
    }
}

} // verus!
