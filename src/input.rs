//! The joypad: the button mask and the value the joypad register reads.
use vstd::prelude::*;

verus! {

/// A button number: the bit of the button mask that the button clears when pressed.
pub type Button = u8;

pub const A: Button = 0;

pub const B: Button = 1;

pub const SELECT: Button = 2;

pub const START: Button = 3;

pub const RIGHT: Button = 4;

pub const LEFT: Button = 5;

pub const UP: Button = 6;

pub const DOWN: Button = 7;

/// The buttons' state: a clear bit is a pressed button.
pub struct Input {
    pub mask: u8,
}

/// The joypad register as read, given the select lines last written.
pub open spec fn joypad_spec(mask: u8, current: u8) -> u8 {
    let i: u8 = if (current >> 4u8) & 1 == 1 {
        mask & 0xF
    } else if (current >> 5u8) & 1 == 1 {
        (mask >> 4u8) & 0xF
    } else {
        0xF
    };
    current | 0xC0 | i
}

impl Input {
    /// Merges the button mask with the select lines in `current`: bit 4
    /// selects the low nibble of the mask, else bit 5 the high nibble.
    pub fn joypad_value(&self, current: u8) -> (r: u8)
        ensures
            r == joypad_spec(self.mask, current),
    {
        let mut i: u8 = 0xF;
        if crate::bit_functions::test(current, 4) {
            i = self.mask & 0xF;
        } else if crate::bit_functions::test(current, 5) {
            i = (self.mask >> 4) & 0xF;
        }
        current | 0xC0 | i
    }
}

} // verus!
