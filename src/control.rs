use vstd::prelude::*;

verus! {

/// The joypad port: which of the two columns the program selects, and which
/// keys of each column the host reports as held (bit set = held).
#[derive(Copy, Clone, Debug, PartialEq, Eq, Structural)]
pub struct Joypad {
    pub buttons_selected: bool,
    pub directions_selected: bool,
    /// A, B, Select, Start in bits 0..3.
    pub buttons: u8,
    /// Right, Left, Up, Down in bits 0..3.
    pub directions: u8,
}

/// Whether key `i` (0 to 3) reads as held: held in a selected column.
pub open spec fn key_down(j: Joypad, i: int) -> bool {
    (j.buttons_selected && (j.buttons as int / pow2_4(i)) % 2 == 1) || (j.directions_selected && (
    j.directions as int / pow2_4(i)) % 2 == 1)
}

pub open spec fn pow2_4(i: int) -> int {
    if i == 0 {
        1
    } else if i == 1 {
        2
    } else if i == 2 {
        4
    } else {
        8
    }
}

pub open spec fn up_bit(j: Joypad, i: int) -> int {
    if key_down(j, i) {
        0
    } else {
        pow2_4(i)
    }
}

/// The port as read: bits 7..6 set, bit 5 clear when the buttons are selected,
/// bit 4 clear when the directions are, and bits 3..0 clear for each key held
/// in a selected column.
pub open spec fn joypad_byte(j: Joypad) -> int {
    192 + (if j.buttons_selected { 0int } else { 32 }) + (if j.directions_selected { 0int } else { 16 })
        + up_bit(j, 0) + up_bit(j, 1) + up_bit(j, 2) + up_bit(j, 3)
}

impl Joypad {
    /// No column selected and no key held.
    pub fn new() -> (r: Joypad)
        ensures
            !r.buttons_selected && !r.directions_selected && r.buttons == 0 && r.directions == 0,
    {
        Joypad { buttons_selected: false, directions_selected: false, buttons: 0, directions: 0 }
    }

    /// Selects the columns: a clear bit 5 selects the buttons, a clear bit 4
    /// the directions.
    pub fn write(&mut self, v: u8)
        ensures
            final(self).buttons_selected == ((v / 32) % 2 == 0),
            final(self).directions_selected == ((v / 16) % 2 == 0),
            final(self).buttons == old(self).buttons,
            final(self).directions == old(self).directions,
    {
        self.buttons_selected = (v / 32) % 2 == 0;
        self.directions_selected = (v / 16) % 2 == 0;
    }

    fn key_held(&self, i: u8, div: u8) -> (r: bool)
        requires
            i < 4,
            div == pow2_4(i as int),
        ensures
            r == key_down(*self, i as int),
    {
        (self.buttons_selected && (self.buttons / div) % 2 == 1) || (self.directions_selected && (self.directions
            / div) % 2 == 1)
    }

    /// Reads the port.
    pub fn read(&self) -> (r: u8)
        ensures
            r == joypad_byte(*self),
    {
        let mut r: u8 = 192;
        if !self.buttons_selected {
            r = r + 32;
        }
        if !self.directions_selected {
            r = r + 16;
        }
        if !self.key_held(0, 1) {
            r = r + 1;
        }
        if !self.key_held(1, 2) {
            r = r + 2;
        }
        if !self.key_held(2, 4) {
            r = r + 4;
        }
        if !self.key_held(3, 8) {
            r = r + 8;
        }
        r
    }

    /// The host reports the held buttons.
    pub fn set_buttons(&mut self, held: u8)
        requires
            held < 16,
        ensures
            *final(self) == (Joypad { buttons: held, ..*old(self) }),
    {
        self.buttons = held;
    }

    /// The host reports the held directions.
    pub fn set_directions(&mut self, held: u8)
        requires
            held < 16,
        ensures
            *final(self) == (Joypad { directions: held, ..*old(self) }),
    {
        self.directions = held;
    }
}

} // verus!
