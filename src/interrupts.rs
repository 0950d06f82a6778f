use vstd::prelude::*;

verus! {

pub const VBLANK_VECTOR: u16 = 0x40;
pub const LCDSTAT_VECTOR: u16 = 0x48;
pub const TIMER_VECTOR: u16 = 0x50;
pub const SERIAL_VECTOR: u16 = 0x58;
pub const JOYPAD_VECTOR: u16 = 0x60;

/// A five-bit set of interrupt sources, bit 0 to bit 4 in priority order.
#[derive(Copy, Clone, Debug, PartialEq, Eq, Structural)]
pub struct InterruptFlags {
    pub vblank: bool,
    pub lcdstat: bool,
    pub timer: bool,
    pub serial: bool,
    pub joypad: bool,
}

pub open spec fn flag_bit(b: bool) -> int {
    if b {
        1
    } else {
        0
    }
}

/// The five bits of a set of sources.
pub open spec fn flags_value(f: InterruptFlags) -> int {
    flag_bit(f.vblank) + 2 * flag_bit(f.lcdstat) + 4 * flag_bit(f.timer) + 8 * flag_bit(f.serial) + 16
        * flag_bit(f.joypad)
}

/// The sources whose bits are set in `v`; bits 7..5 are ignored.
pub open spec fn flags_from(v: int) -> InterruptFlags {
    InterruptFlags {
        vblank: v % 2 == 1,
        lcdstat: (v / 2) % 2 == 1,
        timer: (v / 4) % 2 == 1,
        serial: (v / 8) % 2 == 1,
        joypad: (v / 16) % 2 == 1,
    }
}

impl InterruptFlags {
    pub fn new() -> (r: InterruptFlags)
        ensures
            flags_value(r) == 0,
    {
        InterruptFlags { vblank: false, lcdstat: false, timer: false, serial: false, joypad: false }
    }

    pub fn from_byte(v: u8) -> (r: InterruptFlags)
        ensures
            r == flags_from(v as int),
    {
        InterruptFlags {
            vblank: v % 2 == 1,
            lcdstat: (v / 2) % 2 == 1,
            timer: (v / 4) % 2 == 1,
            serial: (v / 8) % 2 == 1,
            joypad: (v / 16) % 2 == 1,
        }
    }

    pub fn to_byte(&self) -> (r: u8)
        ensures
            r == flags_value(*self),
    {
        let mut r: u8 = 0;
        if self.vblank {
            r = r + 1;
        }
        if self.lcdstat {
            r = r + 2;
        }
        if self.timer {
            r = r + 4;
        }
        if self.serial {
            r = r + 8;
        }
        if self.joypad {
            r = r + 16;
        }
        r
    }
}

/// Whether some source is both enabled and requested.
pub open spec fn any_pending(enable: InterruptFlags, flag: InterruptFlags) -> bool {
    (enable.vblank && flag.vblank) || (enable.lcdstat && flag.lcdstat) || (enable.timer && flag.timer) || (
    enable.serial && flag.serial) || (enable.joypad && flag.joypad)
}

} // verus!
