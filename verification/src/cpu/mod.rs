//! The SM83 CPU: fetch, decode and execute, one machine cycle at a time,
//! with the timer, the PPU and OAM DMA advancing on every machine cycle.
pub mod registers;
pub mod timer;
pub mod alu;
pub mod spec;
pub mod ops_low;
pub mod ops_high;
pub mod ops_cb;
pub mod laws;

use vstd::prelude::*;
use crate::mmu::{MMU, MMUView};
use crate::ppu::{PPU, PPUView};
use registers::{REGISTERS, RegFile, FLAGS, FLAG_C, FLAG_H, FLAG_N, FLAG_Z};
use timer::{Timer, TimerView, timer_run};

verus! {

/// Everything an instruction can change: registers, CPU state, timer,
/// memory map and PPU.
pub struct MachineView {
    pub regs: RegFile,
    pub ime: bool,
    pub ime_queued: bool,
    pub cycles: u64,
    pub halted: bool,
    pub stopped: bool,
    pub timer: TimerView,
    pub mmu: MMUView,
    pub ppu: PPUView,
}

/// Headroom left in the cycle counter for the longest instruction.
pub open spec fn cycles_ok(cycles: u64) -> bool {
    cycles <= u64::MAX - 256
}

/// One machine cycle of the hardware around the CPU: the timer runs four
/// clock cycles, the PPU one step, and a running OAM DMA copies one byte.
pub open spec fn tick(s: MachineView) -> MachineView {
    let (t, m) = timer_run(s.timer, s.mmu, 4);
    let (p, m) = s.ppu.step(m);
    let m = if m.oma_dma { m.dma_step() } else { m };
    MachineView { timer: t, mmu: m, ppu: p, ..s }
}

impl MachineView {
    /// The machine can run: memory map and PPU well formed.
    pub open spec fn well_formed(self) -> bool {
        self.mmu.well_formed() && self.ppu.well_formed()
    }

    /// An idle machine cycle: the cycle count advances by 4 and the
    /// hardware ticks.
    pub open spec fn nop(self) -> MachineView {
        tick(MachineView { cycles: (self.cycles + 4) as u64, ..self })
    }

    pub open spec fn read(self, address: u16) -> u8 {
        self.mmu.read(address)
    }

    pub open spec fn write(self, address: u16, value: u8) -> MachineView {
        MachineView { mmu: self.mmu.write(address, value), ..self }
    }

    pub open spec fn set_regs(self, regs: RegFile) -> MachineView {
        MachineView { regs, ..self }
    }

    /// The byte at PC, with PC advanced past it.
    pub open spec fn fetch(self) -> (u8, MachineView) {
        (
            self.read(self.regs.pc),
            self.set_regs(RegFile { pc: ((self.regs.pc + 1) % 0x10000) as u16, ..self.regs }),
        )
    }
}

/// Reads the eight-bit register with the given operand index.
pub fn get_r8_exec(regs: &REGISTERS, idx: u8) -> (r: u8)
    ensures
        r == spec::get_r8(regs@, idx),
{
    if idx == 0 { regs.get_b() } else if idx == 1 { regs.get_c() } else if idx == 2 { regs.get_d() }
    else if idx == 3 { regs.get_e() } else if idx == 4 { regs.get_h() } else if idx == 5 { regs.get_l() }
    else { regs.get_a() }
}

/// Writes the eight-bit register with the given operand index.
pub fn set_r8_exec(regs: &mut REGISTERS, idx: u8, v: u8)
    ensures
        final(regs)@ == spec::set_r8(old(regs)@, idx, v),
{
    if idx == 0 { regs.set_b(v) } else if idx == 1 { regs.set_c(v) } else if idx == 2 { regs.set_d(v) }
    else if idx == 3 { regs.set_e(v) } else if idx == 4 { regs.set_h(v) } else if idx == 5 { regs.set_l(v) }
    else { regs.set_a(v) }
}

/// Reads the register pair with the given operand index.
pub fn get_r16_exec(regs: &REGISTERS, idx: u8) -> (r: u16)
    ensures
        r == spec::get_r16(regs@, idx),
{
    if idx == 0 { regs.get_bc() } else if idx == 1 { regs.get_de() } else if idx == 2 { regs.get_hl() }
    else { regs.get_sp() }
}

/// Writes the register pair with the given operand index.
pub fn set_r16_exec(regs: &mut REGISTERS, idx: u8, v: u16)
    ensures
        final(regs)@ == spec::set_r16(old(regs)@, idx, v),
{
    if idx == 0 { regs.set_bc(v) } else if idx == 1 { regs.set_de(v) } else if idx == 2 { regs.set_hl(v) }
    else { regs.set_sp(v) }
}

/// `v` plus the signed offset byte `e`, wrapping at 16 bits.
pub fn add_signed(v: u16, e: u8) -> (r: u16)
    ensures
        r == spec::add16(v, spec::sext(e)),
{
    if e < 128 {
        v.wrapping_add(e as u16)
    } else {
        v.wrapping_sub(256 - e as u16)
    }
}

/// The CPU.
pub struct CPU {
    pub registers: REGISTERS,
    // whether interrupts are enabled, and whether EI asked for them to be
    // enabled at the next opportunity
    pub ime: bool,
    pub ime_queued: bool,
    pub cycles: u64,
    pub ram: MMU,
    pub timer: Timer,
    // different cpu states
    pub halted: bool,
    pub stopped: bool,
}

impl CPU {
    /// The machine state seen from the CPU and the PPU it drives.
    pub open spec fn state(&self, ppu: &PPU) -> MachineView {
        MachineView {
            regs: self.registers@,
            ime: self.ime,
            ime_queued: self.ime_queued,
            cycles: self.cycles,
            halted: self.halted,
            stopped: self.stopped,
            timer: self.timer@,
            mmu: self.ram@,
            ppu: ppu@,
        }
    }

    /// A CPU in the state the boot ROM leaves, around the given memory map.
    pub fn new(ram: MMU) -> (r: Self)
        ensures
            r.registers@ == registers::boot_regs(),
            r.ime,
            !r.ime_queued,
            r.cycles == 0,
            r.ram@ == ram@,
            r.timer@ == timer::initial_timer(),
            !r.halted,
            !r.stopped,
    {
        CPU {
            registers: REGISTERS::new(),
            ime: true,
            ime_queued: false,
            cycles: 0,
            ram,
            timer: Timer::new(),
            halted: false,
            stopped: false,
        }
    }

    /// Fetches the byte at PC and advances PC.
    pub fn fetch(&mut self) -> (r: u8)
        requires
            old(self).ram@.well_formed(),
        ensures
            r == old(self).ram@.read(old(self).registers@.pc),
            final(self).registers@ == (RegFile { pc: ((old(self).registers@.pc + 1) % 0x10000) as u16, ..old(self).registers@ }),
            final(self).ram == old(self).ram,
            final(self).timer == old(self).timer,
            final(self).cycles == old(self).cycles,
            final(self).ime == old(self).ime,
            final(self).ime_queued == old(self).ime_queued,
            final(self).halted == old(self).halted,
            final(self).stopped == old(self).stopped,
    {
        let pc = self.registers.get_pc();
        let value = self.ram.read(pc);
        self.registers.set_pc(pc.wrapping_add(1));
        value
    }

    /// One machine cycle of timer, PPU and OAM DMA.
    pub fn tick(&mut self, ppu: &mut PPU)
        requires
            old(self).state(old(ppu)).well_formed(),
        ensures
            final(self).state(final(ppu)) == tick(old(self).state(old(ppu))),
            final(self).state(final(ppu)).well_formed(),
    {
        self.timer.timer(&mut self.ram, 4);
        ppu.step(&mut self.ram);
        if self.ram.oma_dma {
            self.ram.oam_dma_transfer();
        }
    }

    /// The instruction that does nothing: one machine cycle.
    pub fn nop(&mut self, ppu: &mut PPU)
        requires
            old(self).state(old(ppu)).well_formed(),
            old(self).cycles <= u64::MAX - 4,
        ensures
            final(self).state(final(ppu)) == old(self).state(old(ppu)).nop(),
            final(self).state(final(ppu)).well_formed(),
    {
        self.cycles += 4;
        self.tick(ppu);
    }

    /// Decodes and executes one instruction.
    pub fn execute(&mut self, opcode: u8, ppu: &mut PPU)
        requires
            old(self).state(old(ppu)).well_formed(),
            cycles_ok(old(self).cycles),
        ensures
            final(self).state(final(ppu)) == spec::execute_spec(opcode, old(self).state(old(ppu))),
            final(self).state(final(ppu)).well_formed(),
    {
        if opcode < 0x40 {
            self.execute_low(opcode, ppu);
        } else if opcode < 0x80 {
            self.execute_load(opcode, ppu);
        } else if opcode < 0xC0 {
            self.execute_alu(opcode, ppu);
        } else {
            self.execute_high(opcode, ppu);
        }
    }

    /// Opcodes 0x40-0x7F: LD r,r', LD r,(HL), LD (HL),r and HALT.
    fn execute_load(&mut self, opcode: u8, ppu: &mut PPU)
        requires
            0x40 <= opcode < 0x80,
            old(self).state(old(ppu)).well_formed(),
            cycles_ok(old(self).cycles),
        ensures
            final(self).state(final(ppu)) == spec::execute_load(opcode, old(self).state(old(ppu))),
            final(self).state(final(ppu)).well_formed(),
    {
        let dst = opcode / 8 % 8;
        let src = opcode % 8;
        if opcode == 0x76 {
            self.halted = true;
            self.nop(ppu);
        } else if src == 6 {
            let value = self.ram.read(self.registers.get_hl());
            self.nop(ppu);
            set_r8_exec(&mut self.registers, dst, value);
            self.nop(ppu);
        } else if dst == 6 {
            let address = self.registers.get_hl();
            self.ram.write(address, get_r8_exec(&self.registers, src));
            self.nop(ppu);
            self.nop(ppu);
        } else {
            let value = get_r8_exec(&self.registers, src);
            set_r8_exec(&mut self.registers, dst, value);
            self.nop(ppu);
        }
    }

    /// Opcodes 0x80-0xBF: ADD, ADC, SUB, SBC, AND, XOR, OR and CP with a
    /// register or (HL).
    fn execute_alu(&mut self, opcode: u8, ppu: &mut PPU)
        requires
            0x80 <= opcode < 0xC0,
            old(self).state(old(ppu)).well_formed(),
            cycles_ok(old(self).cycles),
        ensures
            final(self).state(final(ppu)) == spec::execute_alu(opcode, old(self).state(old(ppu))),
            final(self).state(final(ppu)).well_formed(),
    {
        let op = opcode / 8 % 8;
        let src = opcode % 8;
        if src == 6 {
            let value = self.ram.read(self.registers.get_hl());
            self.alu(op, value, ppu);
            self.nop(ppu);
        } else {
            let value = get_r8_exec(&self.registers, src);
            self.alu(op, value, ppu);
        }
    }

    /// Services interrupts between instructions.
    pub fn handle_interrupt(&mut self, ppu: &mut PPU)
        requires
            old(self).state(old(ppu)).well_formed(),
            cycles_ok(old(self).cycles),
        ensures
            final(self).state(final(ppu)) == spec::interrupt_spec(old(self).state(old(ppu))),
            final(self).state(final(ppu)).well_formed(),
            // with nothing requested and enabled, only a queued EI takes effect
            old(self).state(old(ppu)).read(0xFFFF) & old(self).state(old(ppu)).read(0xFF0F) == 0
                ==> final(self).state(final(ppu)) == (MachineView {
                ime: old(self).ime || old(self).ime_queued,
                ime_queued: false,
                ..old(self).state(old(ppu))
            }),
    {
        proof {
            let s0 = self.state(ppu);
            if s0.read(0xFFFF) & s0.read(0xFF0F) == 0 {
                laws::lemma_no_interrupt_pending(s0);
            }
        }
        // a queued EI takes effect
        if self.ime_queued {
            self.ime = true;
            self.ime_queued = false;
        }
        let interrupt_enable = self.ram.read(0xFFFF);
        let interrupt_flags = self.ram.read(0xFF0F);
        let pending = interrupt_enable & interrupt_flags;
        // nothing requested
        if pending == 0 {
            return;
        }
        // HALT with IME clear: the HALT bug
        if !self.ime && self.halted {
            self.halt_bug(ppu);
            return;
        }
        // a pending interrupt ends HALT
        self.halted = false;
        // with IME clear no interrupt is serviced
        if self.ime {
            if pending & 0x01 != 0 {
                self.service_interrupt(0, 0x0040, ppu);  // VBlank
            } else if pending & 0x02 != 0 {
                self.service_interrupt(1, 0x0048, ppu);  // LCD STAT
            } else if pending & 0x04 != 0 {
                self.service_interrupt(2, 0x0050, ppu);  // timer
            } else if pending & 0x08 != 0 {
                self.service_interrupt(3, 0x0058, ppu);  // serial
            } else if pending & 0x10 != 0 {
                self.service_interrupt(4, 0x0060, ppu);  // joypad
            }
        }
    }

    fn service_interrupt(&mut self, bit: u8, vector: u16, ppu: &mut PPU)
        requires
            bit < 8,
            old(self).state(old(ppu)).well_formed(),
            cycles_ok(old(self).cycles),
        ensures
            final(self).state(final(ppu)) == spec::service_interrupt_spec(old(self).state(old(ppu)), bit, vector),
            final(self).state(final(ppu)).well_formed(),
    {
        self.halted = false;
        self.ime = false;
        // internal delay
        self.nop(ppu);
        self.push_pc(ppu);
        self.nop(ppu);
        // the request is acknowledged
        let mut interrupt_flag = self.ram.read(0xFF0F);
        interrupt_flag &= !(1u8 << bit);
        self.ram.write(0xFF0F, interrupt_flag);
        // jump to the vector
        self.registers.set_pc(vector);
        self.nop(ppu);
    }

    // the opcode at PC runs, but PC is not advanced past it
    fn halt_bug(&mut self, ppu: &mut PPU)
        requires
            old(self).state(old(ppu)).well_formed(),
            cycles_ok(old(self).cycles),
        ensures
            final(self).state(final(ppu)) == spec::halt_bug_spec(old(self).state(old(ppu))),
            final(self).state(final(ppu)).well_formed(),
    {
        self.halted = false;
        let pc = self.registers.get_pc();
        let opcode = self.ram.read(pc);
        self.execute(opcode, ppu);
    }

    fn push_pc(&mut self, ppu: &mut PPU)
        requires
            old(self).state(old(ppu)).well_formed(),
            old(self).cycles <= u64::MAX - 8,
        ensures
            final(self).state(final(ppu)) == spec::push_pc_spec(old(self).state(old(ppu))),
            final(self).state(final(ppu)).well_formed(),
    {
        let value = self.registers.get_pc();
        self.nop(ppu);
        self.registers.set_sp(self.registers.get_sp().wrapping_sub(1));
        self.ram.write(self.registers.get_sp(), (value / 256) as u8);
        self.nop(ppu);
        self.registers.set_sp(self.registers.get_sp().wrapping_sub(1));
        self.ram.write(self.registers.get_sp(), (value % 256) as u8);
    }

    /// Whether a flag of F is set.
    fn flag(&self, flag: FLAGS) -> (r: bool)
        ensures
            r == self.registers@.flag(flag),
    {
        self.registers.get_f() & flag.mask() != 0
    }
}

} // verus!
