//! The audio unit: master control (NR52, 0xFF26), panning (NR51, 0xFF25)
//! and the length timers of the four channels. No sound is produced.
use vstd::prelude::*;
use crate::mmu::{MMU, MMUView};

verus! {

/// The state of one sound channel.
#[derive(Copy, Clone)]
pub struct Channel {
    pub period_counter: u8,
    pub wave_form: u8,
    pub length_timer: u16,
    pub volume: u8,
    pub pan_left: bool,
    pub pan_right: bool,
}

impl Channel {
    /// A silent channel.
    pub fn new() -> (r: Self)
        ensures
            r == Channel::silent(),
    {
        Channel {
            period_counter: 0,
            wave_form: 0,
            length_timer: 0,
            volume: 0,
            pan_left: false,
            pan_right: false,
        }
    }

    pub open spec fn silent() -> Channel {
        Channel {
            period_counter: 0,
            wave_form: 0,
            length_timer: 0,
            volume: 0,
            pan_left: false,
            pan_right: false,
        }
    }
}

/// The audio unit.
pub struct Audio {
    pub audio_enabled: bool,
    pub channel_1_enabled: bool,
    pub channel_2_enabled: bool,
    pub channel_3_enabled: bool,
    pub channel_4_enabled: bool,
    // channels
    pub channel_1: Channel,
    pub channel_2: Channel,
    pub channel_3: Channel,
    pub channel_4: Channel,
    // counter
    pub counter: u16,
}

/// The audio unit after reading NR52 (0xFF26): bit 7 turns audio on; with
/// audio on, bits 0-3 are the channel enables and NR51 (0xFF25) pans each
/// channel left (bits 4-7) and right (bits 0-3).
pub open spec fn check_status_spec(a: Audio, m: MMUView) -> Audio {
    let ff26 = m.read(0xFF26);
    let enabled = ff26 & 0b1000_0000 != 0;
    if !enabled {
        Audio { audio_enabled: false, ..a }
    } else {
        let ff25 = m.read(0xFF25);
        Audio {
            audio_enabled: true,
            channel_4_enabled: ff26 & 0b0000_1000 != 0,
            channel_3_enabled: ff26 & 0b0000_0100 != 0,
            channel_2_enabled: ff26 & 0b0000_0010 != 0,
            channel_1_enabled: ff26 & 0b0000_0001 != 0,
            channel_4: Channel { pan_left: ff25 & 0b1000_0000 != 0, pan_right: ff25 & 0b0000_1000 != 0, ..a.channel_4 },
            channel_3: Channel { pan_left: ff25 & 0b0100_0000 != 0, pan_right: ff25 & 0b0000_0100 != 0, ..a.channel_3 },
            channel_2: Channel { pan_left: ff25 & 0b0010_0000 != 0, pan_right: ff25 & 0b0000_0010 != 0, ..a.channel_2 },
            channel_1: Channel { pan_left: ff25 & 0b0001_0000 != 0, pan_right: ff25 & 0b0000_0001 != 0, ..a.channel_1 },
            ..a
        }
    }
}

/// One step: the counter advances by 4, channels whose length timer ran out
/// (64 steps, 256 for channel 3) are turned off, then the registers are read.
pub open spec fn step_spec(a: Audio, m: MMUView) -> Audio {
    let a1 = Audio {
        counter: (a.counter + 4) as u16,
        channel_1_enabled: if a.channel_1.length_timer >= 64 { false } else { a.channel_1_enabled },
        channel_2_enabled: if a.channel_2.length_timer >= 64 { false } else { a.channel_2_enabled },
        channel_3_enabled: if a.channel_3.length_timer >= 256 { false } else { a.channel_3_enabled },
        channel_4_enabled: if a.channel_4.length_timer >= 64 { false } else { a.channel_4_enabled },
        ..a
    };
    check_status_spec(a1, m)
}

impl Audio {
    /// A silent audio unit.
    pub fn new() -> (r: Self)
        ensures
            !r.audio_enabled,
            !r.channel_1_enabled && !r.channel_2_enabled && !r.channel_3_enabled && !r.channel_4_enabled,
            r.channel_1 == Channel::silent() && r.channel_2 == Channel::silent(),
            r.channel_3 == Channel::silent() && r.channel_4 == Channel::silent(),
            r.counter == 0,
    {
        let channel_struct = Channel::new();
        Audio {
            audio_enabled: false,
            channel_1_enabled: false,
            channel_2_enabled: false,
            channel_3_enabled: false,
            channel_4_enabled: false,
            channel_1: channel_struct,
            channel_2: channel_struct,
            channel_3: channel_struct,
            channel_4: channel_struct,
            counter: 0,
        }
    }

    /// One step of the audio unit.
    pub fn step(&mut self, ram: &MMU)
        requires
            ram@.well_formed(),
            old(self).counter <= u16::MAX - 4,
            // the length timer of channel 1 never reaches 256: the catch-up
            // loop below would count past the end of the 16-bit timers
            old(self).channel_1.length_timer < 256,
        ensures
            *final(self) == step_spec(*old(self), ram@),
    {
        self.counter += 4;
        // catch-up of the length timers; it never runs here, since a length
        // timer of 256 or more (which it would count on forever) is excluded
        let ghost a0 = *self;
        while self.channel_1.length_timer >= 256
            invariant
                *self == a0,
                a0.channel_1.length_timer < 256,
            decreases 0nat,
        {
            self.channel_1.length_timer += 1;
            self.channel_2.length_timer += 1;
            self.channel_3.length_timer += 1;
            self.channel_4.length_timer += 1;
        }
        if self.channel_1.length_timer >= 64 {
            self.channel_1_enabled = false;
        }
        if self.channel_2.length_timer >= 64 {
            self.channel_2_enabled = false;
        }
        if self.channel_3.length_timer >= 256 {
            self.channel_3_enabled = false;
        }
        if self.channel_4.length_timer >= 64 {
            self.channel_4_enabled = false;
        }
        self.check_status(ram);
    }

    /// Reads the master control and panning registers.
    pub fn check_status(&mut self, ram: &MMU)
        requires
            ram@.well_formed(),
        ensures
            *final(self) == check_status_spec(*old(self), ram@),
    {
        // 0xFF26: audio master control
        let ff26 = ram.read(0xFF26);
        self.audio_enabled = ff26 & 0b1000_0000 != 0;
        if !self.audio_enabled {
            return;
        }
        self.channel_4_enabled = ff26 & 0b0000_1000 != 0;
        self.channel_3_enabled = ff26 & 0b0000_0100 != 0;
        self.channel_2_enabled = ff26 & 0b0000_0010 != 0;
        self.channel_1_enabled = ff26 & 0b0000_0001 != 0;
        // 0xFF25: the panning of each channel
        let ff25 = ram.read(0xFF25);
        self.channel_4.pan_left = ff25 & 0b1000_0000 != 0;
        self.channel_3.pan_left = ff25 & 0b0100_0000 != 0;
        self.channel_2.pan_left = ff25 & 0b0010_0000 != 0;
        self.channel_1.pan_left = ff25 & 0b0001_0000 != 0;
        self.channel_4.pan_right = ff25 & 0b0000_1000 != 0;
        self.channel_3.pan_right = ff25 & 0b0000_0100 != 0;
        self.channel_2.pan_right = ff25 & 0b0000_0010 != 0;
        self.channel_1.pan_right = ff25 & 0b0000_0001 != 0;
    }
}

} // verus!
