//! The joypad register at 0xFF00.
use vstd::prelude::*;

verus! {

/// The keyboard keys the emulator listens to; every other key is `Other`.
#[derive(Copy, Clone, Debug, PartialEq, Eq)]
pub enum Key {
    W,
    A,
    S,
    D,
    Z,
    X,
    Backspace,
    Return,
    Other,
}

/// Which line of the joypad a key drives: the direction pad or the buttons,
/// and the bit of that line (a pressed key reads as 0).
pub open spec fn key_line(key: Key) -> Option<(bool, u8)> {
    match key {
        Key::D => Some((true, 0x01)),         // right
        Key::A => Some((true, 0x02)),         // left
        Key::W => Some((true, 0x04)),         // up
        Key::S => Some((true, 0x08)),         // down
        Key::Z => Some((false, 0x01)),        // A button
        Key::X => Some((false, 0x02)),        // B button
        Key::Backspace => Some((false, 0x04)),  // select
        Key::Return => Some((false, 0x08)),   // start
        Key::Other => None,
    }
}

/// The state of the joypad: the direction lines, the button lines and the
/// select bits written by the game.
pub struct JoypadView {
    pub dpad: u8,
    pub buttons: u8,
    pub reg: u8,
}

/// A line after a key on it was pressed (bit cleared) or released (bit set).
pub open spec fn press(line: u8, mask: u8, pressed: bool) -> u8 {
    if pressed { line & !mask } else { line | mask }
}

impl JoypadView {
    /// The value the game reads at 0xFF00: bits 6-7 always set, bits 4-5 the
    /// select bits, bits 0-3 the selected lines (both ANDed, or all set).
    pub open spec fn read(self) -> u8 {
        let select_dpad = (self.reg & 0x10) == 0;
        let select_buttons = (self.reg & 0x20) == 0;
        let result = self.reg | 0xC0;
        if select_dpad && select_buttons {
            (result & 0xF0) | ((self.dpad & self.buttons) & 0x0F)
        } else if select_dpad {
            (result & 0xF0) | (self.dpad & 0x0F)
        } else if select_buttons {
            (result & 0xF0) | (self.buttons & 0x0F)
        } else {
            result | 0x0F
        }
    }

    pub open spec fn write(self, value: u8) -> JoypadView {
        JoypadView { reg: value | 0xC0, ..self }
    }

    pub open spec fn set_key(self, key: Key, pressed: bool) -> JoypadView {
        match key_line(key) {
            Some((true, mask)) => JoypadView { dpad: press(self.dpad, mask, pressed), ..self },
            Some((false, mask)) => JoypadView { buttons: press(self.buttons, mask, pressed), ..self },
            None => self,
        }
    }
}

/// The joypad: a direction pad and four buttons, read through one register.
#[derive(Clone)]
pub struct Joypad {
    dpad: u8,
    buttons: u8,
    reg: u8,
}

impl View for Joypad {
    type V = JoypadView;

    closed spec fn view(&self) -> JoypadView {
        JoypadView { dpad: self.dpad, buttons: self.buttons, reg: self.reg }
    }
}

/// The joypad at power-on: nothing pressed, nothing selected.
pub open spec fn initial_joypad() -> JoypadView {
    JoypadView { dpad: 0x0F, buttons: 0x0F, reg: 0xFF }
}

impl Joypad {
    pub fn new() -> (r: Self)
        ensures
            r@ == initial_joypad(),
    {
        Joypad { dpad: 0x0F, buttons: 0x0F, reg: 0xFF }
    }

    /// Updates the state of a key on keydown (`pressed`) or keyup.
    pub fn set_key(&mut self, key: Key, pressed: bool)
        ensures
            final(self)@ == old(self)@.set_key(key, pressed),
    {
        match key {
            Key::W => {
                // bit 2 or the up key
                if pressed { self.dpad &= !0x04; } else { self.dpad |= 0x04; }
            },
            Key::A => {
                // bit 1 or the left key
                if pressed { self.dpad &= !0x02; } else { self.dpad |= 0x02; }
            },
            Key::S => {
                // bit 3 or the down key
                if pressed { self.dpad &= !0x08; } else { self.dpad |= 0x08; }
            },
            Key::D => {
                // bit 0 or the right key
                if pressed { self.dpad &= !0x01; } else { self.dpad |= 0x01; }
            },
            Key::Z => {
                // bit 0 or the A button
                if pressed { self.buttons &= !0x01; } else { self.buttons |= 0x01; }
            },
            Key::X => {
                // bit 1 or the B button
                if pressed { self.buttons &= !0x02; } else { self.buttons |= 0x02; }
            },
            Key::Backspace => {
                // bit 2 or the select button
                if pressed { self.buttons &= !0x04; } else { self.buttons |= 0x04; }
            },
            Key::Return => {
                // bit 3 or the start button
                if pressed { self.buttons &= !0x08; } else { self.buttons |= 0x08; }
            },
            Key::Other => {},
        }
    }

    /// The value of the joypad register, as the memory map reads it.
    pub fn read(&self) -> (r: u8)
        ensures
            r == self@.read(),
    {
        let select_dpad = (self.reg & 0x10) == 0;
        let select_buttons = (self.reg & 0x20) == 0;
        let mut result = self.reg | 0xC0;
        if select_dpad && select_buttons {
            result = (result & 0xF0) | ((self.dpad & self.buttons) & 0x0F);
        } else if select_dpad {
            result = (result & 0xF0) | (self.dpad & 0x0F);
        } else if select_buttons {
            result = (result & 0xF0) | (self.buttons & 0x0F);
        } else {
            result |= 0x0F;
        }
        result
    }

    /// Writes the select bits; bits 6-7 always read as set.
    pub fn write(&mut self, value: u8)
        ensures
            final(self)@ == old(self)@.write(value),
    {
        self.reg = value | 0xC0;
    }
}

/// Bits 6 and 7 of the joypad register always read as set.
pub proof fn lemma_read_top_bits_set(j: JoypadView)
    ensures
        j.read() & 0xC0 == 0xC0,
{
    let reg = j.reg;
    let dpad = j.dpad;
    let buttons = j.buttons;
    assert((((reg | 0xC0) & 0xF0) | ((dpad & buttons) & 0x0F)) & 0xC0 == 0xC0) by (bit_vector);
    assert((((reg | 0xC0) & 0xF0) | (dpad & 0x0F)) & 0xC0 == 0xC0) by (bit_vector);
    assert((((reg | 0xC0) & 0xF0) | (buttons & 0x0F)) & 0xC0 == 0xC0) by (bit_vector);
    assert(((reg | 0xC0) | 0x0F) & 0xC0 == 0xC0) by (bit_vector);
}

/// A pressed key reads as 0 while its line alone is selected, and a
/// released key as 1.
pub proof fn lemma_press_then_read(j: JoypadView, key: Key, pressed: bool)
    requires
        key != Key::Other,
        // the key's line selected (bit 4 low for the pad, bit 5 for the buttons), the other not
        j.reg & 0x30 == (if key_line(key)->Some_0.0 { 0x20u8 } else { 0x10u8 }),
    ensures
        ({
            let mask = key_line(key)->Some_0.1;
            (j.set_key(key, pressed).read() & mask == 0) == pressed
        }),
{
    let reg = j.reg;
    let line = if key_line(key)->Some_0.0 { j.dpad } else { j.buttons };
    let mask = key_line(key)->Some_0.1;
    assert(mask == 1 || mask == 2 || mask == 4 || mask == 8);
    assert((mask == 1 || mask == 2 || mask == 4 || mask == 8) ==> (
        (((reg | 0xC0) & 0xF0) | ((line & !mask) & 0x0F)) & mask == 0
        && (((reg | 0xC0) & 0xF0) | ((line | mask) & 0x0F)) & mask != 0)) by (bit_vector);
    assert((reg & 0x30 == 0x20 ==> (reg & 0x10) == 0 && (reg & 0x20) != 0)
        && (reg & 0x30 == 0x10 ==> (reg & 0x10) != 0 && (reg & 0x20) == 0)) by (bit_vector);
}

/// Pressing or releasing a key leaves the state of every other key as it
/// was.
pub proof fn lemma_keys_independent(j: JoypadView, key: Key, pressed: bool, other: Key)
    requires
        key != Key::Other,
        other != Key::Other,
        other != key,
    ensures
        ({
            let (pad, mask) = key_line(other)->Some_0;
            let after = j.set_key(key, pressed);
            if pad { after.dpad & mask == j.dpad & mask } else { after.buttons & mask == j.buttons & mask }
        }),
{
    assert(forall|line: u8, a: u8, b: u8|
        #![trigger (line & !a) & b]
        #![trigger (line | a) & b]
        (a == 1 || a == 2 || a == 4 || a == 8) && (b == 1 || b == 2 || b == 4 || b == 8) && a != b
            ==> (line & !a) & b == line & b && (line | a) & b == line & b) by (bit_vector);
}

} // verus!
