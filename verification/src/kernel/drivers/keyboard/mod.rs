//! The PS/2 keyboard.
use vstd::prelude::*;

pub mod scancodes;

use scancodes::{key_char, is_shift_press, is_shift_release, KeyboardState};

verus! {

/// A PS/2 keyboard and its modifier state.
pub struct Keyboard {
    state: KeyboardState,
}

impl Keyboard {
    /// Whether shift is held.
    pub closed spec fn shift_pressed(&self) -> bool {
        self.state.shift_pressed
    }

    /// A keyboard with no modifier held.
    pub fn new() -> (r: Keyboard)
        ensures
            !r.shift_pressed(),
    {
        Keyboard { state: KeyboardState::new() }
    }

    /// Takes the scan code just read from the data port (0x60) and returns the
    /// character it produces, if any.
    pub fn pop_char(&mut self, scancode: u8) -> (r: Option<char>)
        ensures
            final(self).shift_pressed() == (if is_shift_press(scancode) {
                true
            } else if is_shift_release(scancode) {
                false
            } else {
                old(self).shift_pressed()
            }),
            r == (if is_shift_press(scancode) || is_shift_release(scancode) || scancode >= 0x80 {
                None
            } else {
                key_char(scancode, old(self).shift_pressed())
            }),
    {
        self.state.process_scancode(scancode)
    }
}

} // verus!
