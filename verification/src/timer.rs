//! The divider and programmable timer of the flat memory map (`ram`),
//! advanced by a number of oscillator cycles at a time.
use vstd::prelude::*;
use crate::ram::{RAM, RAMView};

verus! {

/// The timer's own state.
pub struct TimerView {
    pub div_counter: u16,
    pub tima_counter: u16,
    pub timer_overflow_delay: Option<u16>,
}

/// Oscillator cycles per TIMA increment for the clock select bits of TAC:
/// 4096, 262144, 65536 and 16384 Hz.
pub open spec fn tima_period(tac: u8) -> u16 {
    let sel = tac & 0b11;
    if sel == 0 { 1024 } else if sel == 1 { 16 } else if sel == 2 { 64 } else { 256 }
}

/// One TIMA increment of (TIMA, pending reload delay): an overflow leaves 0
/// and schedules the reload four cycles later.
pub open spec fn tima_tick(s: (u8, Option<u16>)) -> (u8, Option<u16>) {
    if s.0 == 0xFF {
        (0, Some(4))
    } else {
        ((s.0 + 1) as u8, s.1)
    }
}

/// `n` TIMA increments.
pub open spec fn tima_ticks(tima: u8, delay: Option<u16>, n: nat) -> (u8, Option<u16>)
    decreases n,
{
    if n == 0 {
        (tima, delay)
    } else {
        tima_tick(tima_ticks(tima, delay, (n - 1) as nat))
    }
}

/// The divider after `cycles` more oscillator cycles: DIV (0xFF04) counts
/// the whole multiples of 256 cycles, and the remainder is kept. A DIV that
/// reads 0 (it was written) restarts the count.
pub open spec fn div_run(t: TimerView, m: RAMView, cycles: u16) -> (TimerView, RAMView) {
    let base: u16 = if m.io[4] == 0 { 0 } else { t.div_counter };
    let total = ((base + cycles) % 0x10000) as u16;
    let div = ((m.io[4] + total / 256) % 256) as u8;
    (TimerView { div_counter: (total % 256) as u16, ..t }, RAMView { io: m.io.update(4, div), ..m })
}

/// The pending reload: once its delay runs out TIMA takes TMA (0xFF06) and
/// the timer interrupt (bit 2 of IF) is requested.
pub open spec fn reload_run(t: TimerView, m: RAMView, cycles: u16) -> (TimerView, RAMView) {
    match t.timer_overflow_delay {
        Some(d) => if cycles >= d {
            let io1 = m.io.update(5, m.io[6]);
            let io2 = io1.update(0xF, io1[0xF] | 0b0000_0100);
            (TimerView { timer_overflow_delay: None, ..t }, RAMView { io: io2, ..m })
        } else {
            (TimerView { timer_overflow_delay: Some((d - cycles) as u16), ..t }, m)
        },
        None => (t, m),
    }
}

/// TIMA while the timer is enabled (bit 2 of TAC): one increment per whole
/// period of accumulated cycles.
pub open spec fn tima_run(t: TimerView, m: RAMView, cycles: u16) -> (TimerView, RAMView) {
    let tac = m.io[7];
    if tac & 0b0000_0100 != 0 {
        let period = tima_period(tac);
        let acc = t.tima_counter + cycles;
        let (tima, delay) = tima_ticks(m.io[5], t.timer_overflow_delay, (acc / (period as int)) as nat);
        (
            TimerView { tima_counter: (acc % (period as int)) as u16, timer_overflow_delay: delay, ..t },
            RAMView { io: m.io.update(5, tima), ..m },
        )
    } else {
        (t, m)
    }
}

/// The divider, the pending reload and TIMA after `cycles` oscillator
/// cycles, in that order.
pub open spec fn timer_run(t: TimerView, m: RAMView, cycles: u16) -> (TimerView, RAMView) {
    let (t1, m1) = div_run(t, m, cycles);
    let (t2, m2) = reload_run(t1, m1, cycles);
    tima_run(t2, m2, cycles)
}

/// The divider and timer.
pub struct Timer {
    div_counter: u16,
    tima_counter: u16,
    timer_overflow_delay: Option<u16>,
}

impl View for Timer {
    type V = TimerView;

    closed spec fn view(&self) -> TimerView {
        TimerView {
            div_counter: self.div_counter,
            tima_counter: self.tima_counter,
            timer_overflow_delay: self.timer_overflow_delay,
        }
    }
}

impl Timer {
    /// Fewer cycles are pending than the longest period.
    #[verifier::type_invariant]
    spec fn pending_below_period(self) -> bool {
        self.tima_counter < 1024
    }

    pub fn new() -> (r: Self)
        ensures
            r@ == (TimerView { div_counter: 0, tima_counter: 0, timer_overflow_delay: None }),
    {
        Timer { div_counter: 0, tima_counter: 0, timer_overflow_delay: None }
    }

    /// Runs the divider and timer for `osc_cycles` oscillator cycles.
    pub fn timer(&mut self, ram: &mut RAM, osc_cycles: u16)
        requires
            // the cycles pending for TIMA must fit in 16 bits
            old(ram)@.io[7] & 0b0000_0100 != 0 ==> old(self)@.tima_counter + osc_cycles <= 0xFFFF,
        ensures
            (final(self)@, final(ram)@) == timer_run(old(self)@, old(ram)@, osc_cycles),
    {
        proof { use_type_invariant(&*self); }
        let ghost t0 = self@;
        let ghost m0 = ram@;
        let ff04 = ram.read(0xFF04);
        if ff04 == 0 {
            self.div_counter = 0;
        }
        self.div_counter = self.div_counter.wrapping_add(osc_cycles);
        let ghost total = self.div_counter;
        let ghost mut k: nat = 0;
        proof {
            assert(m0.io.update(4, ((m0.io[4] + k) % 256) as u8) =~= m0.io);
        }
        while self.div_counter >= 256
            invariant
                ram@ == (RAMView { io: m0.io.update(4, ((m0.io[4] + k) % 256) as u8), ..m0 }),
                m0.io.len() == 0x80,
                self.div_counter + 256 * k == total,
                self.tima_counter == t0.tima_counter,
                self.timer_overflow_delay == t0.timer_overflow_delay,
                self.tima_counter < 1024,
            decreases self.div_counter,
        {
            // DIV ticks once every 256 cycles
            let ff04 = ram.read(0xFF04);
            ram.update_div(ff04.wrapping_add(1));
            self.div_counter -= 256;
            proof {
                vstd::arithmetic::div_mod::lemma_add_mod_noop(m0.io[4] + k, 1, 256);
                k = k + 1;
                assert(ram@.io =~= m0.io.update(4, ((m0.io[4] + k) % 256) as u8));
            }
        }
        proof {
            assert(k == total / 256 && self.div_counter == total % 256) by (nonlinear_arith)
                requires
                    m0.io.len() == 0x80,
                self.div_counter + 256 * k == total,
                    self.div_counter < 256,
            ;
            assert(ram@ == div_run(t0, m0, osc_cycles).1);
        }
        let ghost t1 = self@;
        let ghost m1 = ram@;

        // a pending reload, four cycles after the overflow
        if let Some(delay) = self.timer_overflow_delay {
            if osc_cycles >= delay {
                let tma = ram.read(0xFF06);
                ram.write(0xFF05, tma);
                let if_reg = ram.read(0xFF0F) | 0b0000_0100;
                ram.write(0xFF0F, if_reg);
                self.timer_overflow_delay = None;
            } else {
                self.timer_overflow_delay = Some(delay - osc_cycles);
            }
        }
        proof {
            assert((self@, ram@) == reload_run(t1, m1, osc_cycles));
        }
        self.tima_update(ram, osc_cycles);
    }

    /// TIMA: one increment per whole period of accumulated cycles.
    fn tima_update(&mut self, ram: &mut RAM, osc_cycles: u16)
        requires
            old(ram)@.io[7] & 0b0000_0100 != 0 ==> old(self)@.tima_counter + osc_cycles <= 0xFFFF,
        ensures
            (final(self)@, final(ram)@) == tima_run(old(self)@, old(ram)@, osc_cycles),
    {
        proof { use_type_invariant(&*self); }
        let ghost t0 = self@;
        let ghost m0 = ram@;
        let ff07 = ram.read(0xFF07);
        if ff07 & 0b0000_0100 != 0 {
            let frequency: u16 = match ff07 & 0b0000_0011 {
                0 => 1024,  // 4096 Hz
                1 => 16,  // 262144 Hz
                2 => 64,  // 65536 Hz
                _ => 256,  // 16384 Hz
            };
            let mut counter: u16 = self.tima_counter + osc_cycles;
            let mut delay = self.timer_overflow_delay;
            let ghost acc = counter;
            let ghost mut k: nat = 0;
            proof {
                assert(m0.io.update(5, m0.io[5]) =~= m0.io);
            }
            while counter >= frequency
                invariant
                    frequency == tima_period(ff07),
                    16 <= frequency <= 1024,
                    m0.io.len() == 0x80,
                    counter + frequency * k == acc,
                    ram@ == (RAMView { io: m0.io.update(5, tima_ticks(m0.io[5], t0.timer_overflow_delay, k).0), ..m0 }),
                    delay == tima_ticks(m0.io[5], t0.timer_overflow_delay, k).1,
                decreases counter,
            {
                counter -= frequency;
                let ff05 = ram.read(0xFF05);
                if ff05 != 0xFF {
                    ram.write(0xFF05, ff05 + 1);
                } else {
                    // TIMA reads 0 until TMA is reloaded, four cycles later
                    ram.write(0xFF05, 0);
                    delay = Some(4);
                }
                proof {
                    k = k + 1;
                    assert(ram@.io =~= m0.io.update(5, tima_ticks(m0.io[5], t0.timer_overflow_delay, k).0));
                }
            }
            proof {
                assert(k == acc / frequency && counter == acc % frequency) by (nonlinear_arith)
                    requires
                        m0.io.len() == 0x80,
                    counter + frequency * k == acc,
                        counter < frequency,
                        frequency > 0,
                ;
            }
            self.tima_counter = counter;
            self.timer_overflow_delay = delay;
        }
    }
}

} // verus!
