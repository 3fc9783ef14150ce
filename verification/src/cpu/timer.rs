//! The divider (DIV, 0xFF04) and the programmable timer (TIMA 0xFF05,
//! TMA 0xFF06, TAC 0xFF07), stepped one clock cycle at a time.
use vstd::prelude::*;
use crate::mmu::{MMU, MMUView, lemma_write_well_formed, same_ram, lemma_io_write_keeps_ram};

verus! {

/// The timer's own state.
pub struct TimerView {
    pub div_counter: u16,
    pub timer_overflow_delay: bool,
    pub tima_overflowed: bool,
}

/// The bit of the 16-bit divider whose falling edge increments TIMA, for
/// the clock select bits of TAC: 4096, 262144, 65536 and 16384 Hz.
pub open spec fn timer_bit_position(tac: u8) -> u16 {
    let sel = tac & 0b11;
    if sel == 0 { 9 } else if sel == 1 { 3 } else if sel == 2 { 5 } else { 7 }
}

pub open spec fn timer_bit(counter: u16, tac: u8) -> bool {
    (counter >> timer_bit_position(tac)) & 1 == 1
}

/// TIMA incremented; an overflow leaves 0 in TIMA and schedules the reload.
pub open spec fn increment_tima(t: TimerView, m: MMUView) -> (TimerView, MMUView) {
    let tima = m.read(0xFF05);
    if tima == 0xFF {
        (TimerView { timer_overflow_delay: true, tima_overflowed: true, ..t }, m.write(0xFF05, 0))
    } else {
        (t, m.write(0xFF05, (tima + 1) as u8))
    }
}

/// The reload one cycle after an overflow: TIMA takes TMA and the timer
/// interrupt (bit 2 of IF) is requested.
pub open spec fn reload_step(t: TimerView, m: MMUView) -> (TimerView, MMUView) {
    if t.timer_overflow_delay {
        (TimerView { timer_overflow_delay: false, ..t }, m)
    } else if t.tima_overflowed {
        let m1 = m.write(0xFF05, m.read(0xFF06));
        let m2 = m1.write(0xFF0F, m1.read(0xFF0F) | 0b0000_0100);
        (TimerView { tima_overflowed: false, ..t }, m2)
    } else {
        (t, m)
    }
}

/// One clock cycle: the pending reload, the divider tick (DIV is its upper
/// byte), and a TIMA increment on a falling edge of the selected bit.
pub open spec fn timer_cycle(t: TimerView, m: MMUView, tac: u8, enabled: bool) -> (TimerView, MMUView) {
    let (t1, m1) = reload_step(t, m);
    let old_bit = enabled && timer_bit(t1.div_counter, tac);
    let div = ((t1.div_counter + 1) % 0x10000) as u16;
    let t2 = TimerView { div_counter: div, ..t1 };
    let m2 = m1.set_div((div / 256) as u8);
    if enabled && old_bit && !timer_bit(div, tac) {
        increment_tima(t2, m2)
    } else {
        (t2, m2)
    }
}

/// `n` clock cycles.
pub open spec fn timer_cycles(t: TimerView, m: MMUView, tac: u8, enabled: bool, n: nat) -> (TimerView, MMUView)
    decreases n,
{
    if n == 0 {
        (t, m)
    } else {
        let (t1, m1) = timer_cycles(t, m, tac, enabled, (n - 1) as nat);
        timer_cycle(t1, m1, tac, enabled)
    }
}

/// A write to DIV resets the divider; the reset may itself be a falling
/// edge of the selected bit.
pub open spec fn div_reset(t: TimerView, m: MMUView, tac: u8, enabled: bool) -> (TimerView, MMUView) {
    if m.div_written {
        let old_bit = timer_bit(t.div_counter, tac);
        let t1 = TimerView { div_counter: 0, ..t };
        let m1 = MMUView { div_written: false, ..m };
        if enabled && old_bit && !timer_bit(0, tac) {
            increment_tima(t1, m1)
        } else {
            (t1, m1)
        }
    } else {
        (t, m)
    }
}

/// The timer after `n` clock cycles, with TAC read once at the start.
#[verifier::opaque]
pub open spec fn timer_run(t: TimerView, m: MMUView, n: nat) -> (TimerView, MMUView) {
    let tac = m.read(0xFF07);
    let enabled = tac & 0x4 != 0;
    let (t1, m1) = div_reset(t, m, tac, enabled);
    timer_cycles(t1, m1, tac, enabled, n)
}

/// The divider and timer.
pub struct Timer {
    div_counter: u16,
    timer_overflow_delay: bool,
    pub tima_overflowed: bool,
}

impl View for Timer {
    type V = TimerView;

    closed spec fn view(&self) -> TimerView {
        TimerView {
            div_counter: self.div_counter,
            timer_overflow_delay: self.timer_overflow_delay,
            tima_overflowed: self.tima_overflowed,
        }
    }
}

/// The timer after the boot ROM: DIV reads 0xAB.
pub open spec fn initial_timer() -> TimerView {
    TimerView { div_counter: 0xAB00, timer_overflow_delay: false, tima_overflowed: false }
}

proof fn lemma_timer_preserves_wf(t: TimerView, m: MMUView, tac: u8, enabled: bool, n: nat)
    requires
        m.well_formed(),
    ensures
        timer_cycles(t, m, tac, enabled, n).1.well_formed(),
    decreases n,
{
    if n > 0 {
        lemma_timer_preserves_wf(t, m, tac, enabled, (n - 1) as nat);
        let (t1, m1) = timer_cycles(t, m, tac, enabled, (n - 1) as nat);
        lemma_cycle_preserves_wf(t1, m1, tac, enabled);
    }
}

proof fn lemma_cycle_preserves_wf(t: TimerView, m: MMUView, tac: u8, enabled: bool)
    requires
        m.well_formed(),
    ensures
        timer_cycle(t, m, tac, enabled).1.well_formed(),
{
    reveal(MMUView::write);
}

impl Timer {
    pub fn new() -> (r: Self)
        ensures
            r@ == initial_timer(),
    {
        // DIV starts at 0xAB after boot
        Timer { div_counter: 0xAB00, timer_overflow_delay: false, tima_overflowed: false }
    }

    /// Runs the divider and timer for `t_cycles` clock cycles.
    pub fn timer(&mut self, ram: &mut MMU, t_cycles: u16)
        requires
            old(ram)@.well_formed(),
        ensures
            (final(self)@, final(ram)@) == timer_run(old(self)@, old(ram)@, t_cycles as nat),
            final(ram)@.well_formed(),
    {
        proof { reveal(timer_run); }
        let tac = ram.read(0xFF07);
        let timer_enabled = tac & 0x4 != 0;

        // a write to DIV resets the divider
        if ram.div_written {
            let old_bit = self.get_timer_bit(self.div_counter, tac);
            self.div_counter = 0;
            ram.div_written = false;
            // the reset can cause a falling edge
            let new_bit = self.get_timer_bit(self.div_counter, tac);
            if timer_enabled && old_bit && !new_bit {
                self.increment_tima(ram);
            }
        }
        let ghost t0 = self@;
        let ghost m0 = ram@;
        // one clock cycle at a time, to catch every edge
        for i in 0..t_cycles
            invariant
                m0.well_formed(),
                ram@.well_formed(),
                (self@, ram@) == timer_cycles(t0, m0, tac, timer_enabled, i as nat),
        {
            proof { lemma_timer_preserves_wf(t0, m0, tac, timer_enabled, i as nat); }
            self.cycle(ram, tac, timer_enabled);
        }
    }

    fn increment_tima(&mut self, ram: &mut MMU)
        requires
            old(ram)@.well_formed(),
        ensures
            (final(self)@, final(ram)@) == increment_tima(old(self)@, old(ram)@),
            final(ram)@.well_formed(),
    {
        let tima = ram.read(0xFF05);
        if tima == 0xFF {
            ram.write(0xFF05, 0x00);
            self.timer_overflow_delay = true;
            self.tima_overflowed = true;
        } else {
            ram.write(0xFF05, tima + 1);
        }
    }

    fn cycle(&mut self, ram: &mut MMU, tac: u8, timer_enabled: bool)
        requires
            old(ram)@.well_formed(),
        ensures
            (final(self)@, final(ram)@) == timer_cycle(old(self)@, old(ram)@, tac, timer_enabled),
            final(ram)@.well_formed(),
    {
        // the overflow state machine first
        if self.timer_overflow_delay {
            self.timer_overflow_delay = false;
        } else if self.tima_overflowed {
            let timer_modulo = ram.read(0xFF06);
            ram.write(0xFF05, timer_modulo);
            let interrupt = ram.read(0xFF0F) | 0b0000_0100;
            ram.write(0xFF0F, interrupt);
            self.tima_overflowed = false;
        }
        let old_bit = if timer_enabled {
            self.get_timer_bit(self.div_counter, tac)
        } else {
            false
        };
        self.div_counter = self.div_counter.wrapping_add(1);
        let div = self.div_counter;
        assert((div >> 8) as u8 == (div / 256) as u8) by (bit_vector);
        ram.update_div((div >> 8) as u8);
        if timer_enabled {
            let new_bit = self.get_timer_bit(self.div_counter, tac);
            if old_bit && !new_bit {
                self.increment_tima(ram);
            }
        }
    }

    /// The state of the divider bit selected by TAC.
    fn get_timer_bit(&self, counter: u16, tac: u8) -> (r: bool)
        ensures
            r == timer_bit(counter, tac),
    {
        let bit_position: u16 = match tac & 0b11 {
            0 => 9,  // 4096 Hz: every 1024 t-cycles
            1 => 3,  // 262144 Hz: every 16 t-cycles
            2 => 5,  // 65536 Hz: every 64 t-cycles
            _ => 7,  // 16384 Hz: every 256 t-cycles
        };
        (counter >> bit_position) & 1 == 1
    }
}

/// The timer only touches its I/O registers: work RAM, high RAM and DMA
/// stay as they were.
pub proof fn lemma_timer_keeps_ram(t: TimerView, m: MMUView, n: nat)
    ensures
        same_ram(m, timer_run(t, m, n).1),
{
    reveal(timer_run);
    let tac = m.read(0xFF07);
    let enabled = tac & 0x4 != 0;
    let (t1, m1) = div_reset(t, m, tac, enabled);
    lemma_increment_keeps_ram(TimerView { div_counter: 0, ..t }, MMUView { div_written: false, ..m });
    lemma_cycles_keep_ram(t1, m1, tac, enabled, n);
}

proof fn lemma_increment_keeps_ram(t: TimerView, m: MMUView)
    ensures
        same_ram(m, increment_tima(t, m).1),
{
    lemma_io_write_keeps_ram(m, 0xFF05, 0);
    lemma_io_write_keeps_ram(m, 0xFF05, (m.read(0xFF05) + 1) as u8);
}

proof fn lemma_cycles_keep_ram(t: TimerView, m: MMUView, tac: u8, enabled: bool, n: nat)
    ensures
        same_ram(m, timer_cycles(t, m, tac, enabled, n).1),
    decreases n,
{
    if n > 0 {
        lemma_cycles_keep_ram(t, m, tac, enabled, (n - 1) as nat);
        let (t1, m1) = timer_cycles(t, m, tac, enabled, (n - 1) as nat);
        // the reload writes TIMA and IF
        let ma = m1.write(0xFF05, m1.read(0xFF06));
        lemma_io_write_keeps_ram(m1, 0xFF05, m1.read(0xFF06));
        lemma_io_write_keeps_ram(ma, 0xFF0F, ma.read(0xFF0F) | 0b0000_0100);
        let (t2, m2) = reload_step(t1, m1);
        let div = ((t2.div_counter + 1) % 0x10000) as u16;
        lemma_increment_keeps_ram(TimerView { div_counter: div, ..t2 }, m2.set_div((div / 256) as u8));
    }
}

/// A timer cycle keeps TAC, the DIV-written flag and DMA.
proof fn lemma_cycle_keeps_control(t: TimerView, m: MMUView, tac: u8, enabled: bool)
    requires
        m.io.len() == 0x80,
    ensures
        timer_cycle(t, m, tac, enabled).1.io[7] == m.io[7],
        timer_cycle(t, m, tac, enabled).1.div_written == m.div_written,
        timer_cycle(t, m, tac, enabled).1.oma_dma == m.oma_dma,
        timer_cycle(t, m, tac, enabled).1.io.len() == m.io.len(),
{
    reveal(MMUView::write);
}

proof fn lemma_cycles_keep_control(t: TimerView, m: MMUView, tac: u8, enabled: bool, n: nat)
    requires
        m.io.len() == 0x80,
    ensures
        timer_cycles(t, m, tac, enabled, n).1.io[7] == m.io[7],
        timer_cycles(t, m, tac, enabled, n).1.div_written == m.div_written,
        timer_cycles(t, m, tac, enabled, n).1.oma_dma == m.oma_dma,
        timer_cycles(t, m, tac, enabled, n).1.io.len() == m.io.len(),
    decreases n,
{
    if n > 0 {
        lemma_cycles_keep_control(t, m, tac, enabled, (n - 1) as nat);
        let (t1, m1) = timer_cycles(t, m, tac, enabled, (n - 1) as nat);
        lemma_cycle_keeps_control(t1, m1, tac, enabled);
    }
}

proof fn lemma_cycles_compose(t: TimerView, m: MMUView, tac: u8, enabled: bool, a: nat, b: nat)
    ensures
        ({
            let (t1, m1) = timer_cycles(t, m, tac, enabled, a);
            timer_cycles(t1, m1, tac, enabled, b)
        }) == timer_cycles(t, m, tac, enabled, a + b),
    decreases b,
{
    if b > 0 {
        lemma_cycles_compose(t, m, tac, enabled, a, (b - 1) as nat);
        assert((a + b - 1) as nat == a + (b - 1) as nat);
    }
}

/// Running the timer for `a` clock cycles and then for `b` is running it
/// for `a + b`, as long as DIV was not written in between (nothing else
/// touches the memory map between the runs).
pub proof fn lemma_timer_runs_compose(t: TimerView, m: MMUView, a: nat, b: nat)
    requires
        !m.div_written,
        m.io.len() == 0x80,
    ensures
        ({
            let (t1, m1) = timer_run(t, m, a);
            timer_run(t1, m1, b)
        }) == timer_run(t, m, a + b),
{
    reveal(timer_run);
    reveal(MMUView::read);
    let tac = m.read(0xFF07);
    let enabled = tac & 0x4 != 0;
    lemma_cycles_keep_control(t, m, tac, enabled, a);
    let (t1, m1) = timer_cycles(t, m, tac, enabled, a);
    assert(m1.read(0xFF07) == tac);
    lemma_cycles_compose(t, m, tac, enabled, a, b);
}

/// Clock cycles per TIMA increment for the clock select bits of TAC:
/// 4096, 262144, 65536 and 16384 Hz of a 4194304 Hz clock.
pub open spec fn tima_period(tac: u8) -> int {
    let sel = tac & 0b11;
    if sel == 0 { 1024 } else if sel == 1 { 16 } else if sel == 2 { 64 } else { 256 }
}

/// The divider bit that TAC selects falls, from one clock cycle to the
/// next, exactly when the divider reaches a multiple of the selected period:
/// once per 1024, 16, 64 or 256 cycles.
pub proof fn lemma_timer_edge_rate(counter: u16, tac: u8)
    ensures
        (timer_bit(counter, tac) && !timer_bit(((counter + 1) % 0x10000) as u16, tac))
            == ((counter + 1) % tima_period(tac) == 0),
{
    let sel = tac & 0b11;
    assert(tac & 0b11u8 <= 3u8) by (bit_vector);
    if sel == 0 {
        assert(((counter >> 9u16) & 1u16 == 1u16 && (((((counter + 1) % 0x10000) as u16) >> 9u16) & 1u16) != 1u16)
            == (counter & 1023u16 == 1023u16) && counter & 1023u16 == counter % 1024u16) by (bit_vector);
    } else if sel == 1 {
        assert(((counter >> 3u16) & 1u16 == 1u16 && (((((counter + 1) % 0x10000) as u16) >> 3u16) & 1u16) != 1u16)
            == (counter & 15u16 == 15u16) && counter & 15u16 == counter % 16u16) by (bit_vector);
    } else if sel == 2 {
        assert(((counter >> 5u16) & 1u16 == 1u16 && (((((counter + 1) % 0x10000) as u16) >> 5u16) & 1u16) != 1u16)
            == (counter & 63u16 == 63u16) && counter & 63u16 == counter % 64u16) by (bit_vector);
    } else {
        assert(((counter >> 7u16) & 1u16 == 1u16 && (((((counter + 1) % 0x10000) as u16) >> 7u16) & 1u16) != 1u16)
            == (counter & 255u16 == 255u16) && counter & 255u16 == counter % 256u16) by (bit_vector);
    }
}

/// With the timer enabled and no overflow in flight, one clock cycle adds
/// one to TIMA exactly when the divider reaches a multiple of the period TAC
/// selects (so TIMA counts once per 1024, 16, 64 or 256 cycles), and leaves
/// it as it was otherwise; with the timer off TIMA is left alone.
pub proof fn lemma_tima_rate(t: TimerView, m: MMUView, tac: u8, enabled: bool)
    requires
        m.well_formed(),
        !m.oma_dma,
        !t.timer_overflow_delay,
        !t.tima_overflowed,
        m.read(0xFF05) < 0xFF,
    ensures
        timer_cycle(t, m, tac, enabled).1.read(0xFF05) == (if enabled && (t.div_counter + 1) % tima_period(tac) == 0 {
            (m.read(0xFF05) + 1) as u8
        } else {
            m.read(0xFF05)
        }),
{
    lemma_timer_edge_rate(t.div_counter, tac);
    reveal(MMUView::write);
    reveal(MMUView::read);
}

/// After every clock cycle DIV (0xFF04) holds the upper byte of the
/// divider.
pub proof fn lemma_div_is_upper_byte(t: TimerView, m: MMUView, tac: u8, enabled: bool)
    requires
        m.well_formed(),
    ensures
        ({
            let (t1, m1) = timer_cycle(t, m, tac, enabled);
            m1.io[4] == (t1.div_counter / 256) as u8
        }),
{
    reveal(MMUView::write);
}

} // verus!
