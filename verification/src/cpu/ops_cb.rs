//! CB-prefixed opcodes: rotations and shifts, BIT, RES and SET on
//! registers and on (HL).
use vstd::prelude::*;
use super::{CPU, MachineView, get_r8_exec, set_r8_exec, cycles_ok};
use super::spec::execute_cb;
use crate::ppu::PPU;

verus! {

impl CPU {
    /// The instruction after the 0xCB prefix.
    pub(crate) fn cb(&mut self, opcode: u8, ppu: &mut PPU)
        requires
            old(self).state(old(ppu)).well_formed(),
            cycles_ok(old(self).cycles),
        ensures
            final(self).state(final(ppu)) == execute_cb(opcode, old(self).state(old(ppu))),
            final(self).state(final(ppu)).well_formed(),
    {
        let reg = opcode % 8;
        let n = opcode / 8 % 8;
        let group = opcode / 64;
        if group == 0 {
            // rotations and shifts
            if reg == 6 {
                let address = self.registers.get_hl();
                self.nop(ppu);
                let value = self.ram.read(address);
                let data = self.cb_shift(n, value, ppu);
                self.ram.write(address, data);
                self.nop(ppu);
                self.nop(ppu);
            } else {
                let value = get_r8_exec(&self.registers, reg);
                let data = self.cb_shift(n, value, ppu);
                set_r8_exec(&mut self.registers, reg, data);
                self.nop(ppu);
            }
        } else if group == 1 {
            // BIT n
            if reg == 6 {
                self.nop(ppu);
                let value = self.ram.read(self.registers.get_hl());
                self.bit(value, n, ppu);
            } else {
                let value = get_r8_exec(&self.registers, reg);
                self.bit(value, n, ppu);
            }
        } else if group == 2 {
            // RES n
            if reg == 6 {
                let address = self.registers.get_hl();
                self.nop(ppu);
                let data = self.ram.read(address);
                self.nop(ppu);
                self.ram.write(address, data & !(1u8 << n));
                self.nop(ppu);
                self.nop(ppu);
            } else {
                let value = get_r8_exec(&self.registers, reg);
                let data = self.zero_bit_8bit(value, n, ppu);
                set_r8_exec(&mut self.registers, reg, data);
                self.nop(ppu);
            }
        } else {
            // SET n
            if reg == 6 {
                let address = self.registers.get_hl();
                self.nop(ppu);
                let byte = self.ram.read(address);
                self.nop(ppu);
                let new_byte = byte | (1u8 << n);
                self.ram.write(address, new_byte);
                self.nop(ppu);
                self.nop(ppu);
            } else {
                let value = get_r8_exec(&self.registers, reg);
                let data = self.set_bit_8bit(value, n, ppu);
                set_r8_exec(&mut self.registers, reg, data);
                self.nop(ppu);
            }
        }
    }
}

} // verus!
