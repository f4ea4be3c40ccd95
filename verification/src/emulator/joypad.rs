//! The input controller: eight buttons read out one at a time through a
//! single serial port.

use vstd::prelude::*;
use crate::emulator::flags::Flags;
use crate::emulator::flags::put;

verus! {

pub const RIGHT: u8 = 0b1000_0000;

pub const LEFT: u8 = 0b0100_0000;

pub const DOWN: u8 = 0b0010_0000;

pub const UP: u8 = 0b0001_0000;

pub const START: u8 = 0b0000_1000;

pub const SELECT: u8 = 0b0000_0100;

pub const B: u8 = 0b0000_0010;

pub const A: u8 = 0b0000_0001;

/// Number of buttons that one read-out reports.
pub const BUTTONS: u8 = 8;

/// The controller's state. `cursor` counts the buttons already reported since
/// the last strobe; `buffer` holds the answer to the next read.
#[derive(Clone, Copy, Debug, PartialEq, Eq, Structural)]
pub struct Joypad {
    pub strobe: bool,
    pub cursor: u8,
    pub state: Flags,
    pub buffer: u8,
}

/// The button reported at position `i` of a read-out: from `RIGHT` down to `A`.
pub open spec fn button_at(i: u8) -> u8 {
    0x80u8 >> i
}

/// A write latches the strobe from bit 0; a raised strobe restarts the read-out.
pub open spec fn joypad_write(j: Joypad, value: u8) -> Joypad {
    let strobe = value & 1 == 1;
    Joypad { strobe, cursor: if strobe { 0 } else { j.cursor }, ..j }
}

/// A read answers with the buffered byte. With the strobe low and buttons
/// left, it then buffers the next button's bit, masked by what is pressed.
pub open spec fn joypad_read(j: Joypad) -> (Joypad, u8) {
    if !j.strobe && j.cursor < 8 {
        (
            Joypad {
                buffer: button_at(j.cursor) & j.state@,
                cursor: (j.cursor + 1) as u8,
                ..j
            },
            j.buffer,
        )
    } else {
        (j, j.buffer)
    }
}

/// The next button's bit, masked by what is pressed, or 1 once all eight are out.
pub open spec fn joypad_next(j: Joypad) -> (Joypad, u8) {
    if j.cursor < 8 {
        (Joypad { cursor: (j.cursor + 1) as u8, ..j }, button_at(j.cursor) & j.state@)
    } else {
        (j, 1)
    }
}

impl Joypad {
    /// A controller with nothing pressed, strobe low, at the start of a read-out.
    pub fn new() -> (r: Joypad)
        ensures
            r == (Joypad { strobe: false, cursor: 0, state: Flags { bits: 0 }, buffer: 0 }),
    {
        Joypad { strobe: false, cursor: 0, state: Flags::empty(), buffer: 0 }
    }

    /// Handles a write to the serial port.
    pub fn write(&mut self, value: u8)
        ensures
            *final(self) == joypad_write(*old(self), value),
    {
        self.strobe = value & 1 == 1;
        if self.strobe {
            self.cursor = 0;
        }
    }

    /// Handles a read of the serial port.
    pub fn read(&mut self) -> (r: u8)
        ensures
            (*final(self), r) == joypad_read(*old(self)),
    {
        let current_state = self.buffer;
        if !self.strobe {
            if self.cursor < BUTTONS {
                self.buffer = (0x80u8 >> self.cursor) & self.state.bits();
                self.cursor = self.cursor + 1;
            }
        }
        current_state
    }

    /// Marks the buttons of `button` as held down.
    pub fn press(&mut self, button: u8)
        ensures
            *final(self) == (Joypad {
                state: Flags { bits: put(old(self).state@, button, true) },
                ..*old(self)
            }),
    {
        self.state.insert(button);
    }

    /// Marks the buttons of `button` as let go.
    pub fn release(&mut self, button: u8)
        ensures
            *final(self) == (Joypad {
                state: Flags { bits: put(old(self).state@, button, false) },
                ..*old(self)
            }),
    {
        self.state.remove(button);
    }

    /// Advances the read-out by one button, whatever the strobe.
    pub fn next(&mut self) -> (r: u8)
        ensures
            (*final(self), r) == joypad_next(*old(self)),
    {
        if self.cursor < BUTTONS {
            let bit = (0x80u8 >> self.cursor) & self.state.bits();
            self.cursor = self.cursor + 1;
            bit
        } else {
            1
        }
    }

    /// What the next read of the serial port would answer, without reading it.
    pub fn read_debugging(&self) -> (r: u8)
        ensures
            r == self.buffer,
    {
        self.buffer
    }
}

} // verus!
