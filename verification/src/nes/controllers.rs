//! The two standard controller ports at $4016 and $4017.
//!
//! Writing 1 to bit 0 of $4016 starts polling: both pads' buttons are latched
//! into shift registers. While polling continues, a read returns the A
//! button; once polling stops, each read shifts out the next button (A, B,
//! Select, Start, Up, Down, Left, Right) and then returns 1.

use vstd::prelude::*;
use crate::mos::Pinout;

verus! {

/// The bits of the data bus a controller read leaves alone (open bus).
pub const NESS001_MASK: u8 = 0b11100000;
pub const NESS101_MASK: u8 = 0b11100100;

/// The buttons of a standard pad, one bit each.
#[derive(Clone, Copy, PartialEq, Eq, Structural, Debug)]
pub struct JoypadInput {
    bits: u8,
}

impl JoypadInput {
    /// The button bits.
    pub closed spec fn spec_bits(&self) -> u8 {
        self.bits
    }

    pub fn bits(&self) -> (r: u8)
        ensures r == self.spec_bits(),
    {
        self.bits
    }

    pub fn from_bits_truncate(bits: u8) -> (r: JoypadInput)
        ensures r.spec_bits() == bits,
    {
        JoypadInput { bits }
    }

    #[allow(non_snake_case)]
    pub fn A() -> (r: JoypadInput)
        ensures r.spec_bits() == 0b00000001,
    {
        JoypadInput { bits: 0b00000001 }
    }

    #[allow(non_snake_case)]
    pub fn B() -> (r: JoypadInput)
        ensures r.spec_bits() == 0b00000010,
    {
        JoypadInput { bits: 0b00000010 }
    }

    #[allow(non_snake_case)]
    pub fn SELECT() -> (r: JoypadInput)
        ensures r.spec_bits() == 0b00000100,
    {
        JoypadInput { bits: 0b00000100 }
    }

    #[allow(non_snake_case)]
    pub fn START() -> (r: JoypadInput)
        ensures r.spec_bits() == 0b00001000,
    {
        JoypadInput { bits: 0b00001000 }
    }

    #[allow(non_snake_case)]
    pub fn UP() -> (r: JoypadInput)
        ensures r.spec_bits() == 0b00010000,
    {
        JoypadInput { bits: 0b00010000 }
    }

    #[allow(non_snake_case)]
    pub fn DOWN() -> (r: JoypadInput)
        ensures r.spec_bits() == 0b00100000,
    {
        JoypadInput { bits: 0b00100000 }
    }

    #[allow(non_snake_case)]
    pub fn LEFT() -> (r: JoypadInput)
        ensures r.spec_bits() == 0b01000000,
    {
        JoypadInput { bits: 0b01000000 }
    }

    #[allow(non_snake_case)]
    pub fn RIGHT() -> (r: JoypadInput)
        ensures r.spec_bits() == 0b10000000,
    {
        JoypadInput { bits: 0b10000000 }
    }

    /// No button pressed.
    pub fn new() -> (r: JoypadInput)
        ensures r.spec_bits() == 0,
    {
        JoypadInput::from_bits_truncate(0)
    }

    /// Releases every button.
    pub fn clear(&mut self)
        ensures final(self).spec_bits() == 0,
    {
        self.bits = 0;
    }

    /// Whether every button of `other` is pressed.
    pub fn contains(&self, other: JoypadInput) -> (r: bool)
        ensures r == (self.spec_bits() & other.spec_bits() == other.spec_bits()),
    {
        self.bits & other.bits == other.bits
    }

    /// Presses (`value`) or releases the buttons of `other`.
    pub fn set(&mut self, other: JoypadInput, value: bool)
        ensures
            final(self).spec_bits() == (if value {
                old(self).spec_bits() | other.spec_bits()
            } else {
                old(self).spec_bits() & !other.spec_bits()
            }),
    {
        if value {
            self.bits = self.bits | other.bits;
        } else {
            self.bits = self.bits & !other.bits;
        }
    }
}

/// The controller ports.
#[derive(Debug, Clone, Copy)]
pub struct NesControllers {
    pub joypad1: JoypadInput,
    pub joypad2: JoypadInput,
    pub joypad1_latch: u8,
    pub joypad2_latch: u8,
    pub shift1_count: u8,
    pub shift2_count: u8,
    pub polling: bool,
}

/// One read of a port: the data bus, and the latch and count after it.
///
/// While polling the first button is returned over and over; afterwards each
/// read shifts one button out, and once all eight are out the port reads 1.
pub open spec fn spec_port_read(polling: bool, latch: u8, count: u8, data: u8) -> (u8, u8, u8) {
    if polling {
        ((data & NESS001_MASK) | (latch & 0x1), latch, count)
    } else if count > 0 {
        ((data & NESS001_MASK) | (latch & 0x1), latch >> 1u8, (count - 1) as u8)
    } else {
        ((data & NESS001_MASK) | 0x1, latch, count)
    }
}

fn port_read(polling: bool, latch: u8, count: u8, data: u8) -> (r: (u8, u8, u8))
    ensures
        r == spec_port_read(polling, latch, count, data),
{
    if polling == true {
        ((data & NESS001_MASK) | (latch & 0x1), latch, count)
    } else {
        if count > 0 {
            ((data & NESS001_MASK) | (latch & 0x1), latch >> 1, count.saturating_sub(1))
        } else {
            ((data & NESS001_MASK) | 0x1, latch, count)
        }
    }
}

/// The controllers after a write of `data` to $4016.
pub open spec fn spec_after_4016_write(c: NesControllers, data: u8) -> NesControllers {
    if (data & 0x01) == 1 && !c.polling {
        NesControllers {
            polling: true,
            shift1_count: 8,
            shift2_count: 8,
            joypad1_latch: c.joypad1.spec_bits(),
            joypad2_latch: c.joypad2.spec_bits(),
            ..c
        }
    } else {
        NesControllers { polling: false, ..c }
    }
}

impl NesControllers {
    pub fn from_power_on() -> (r: Self)
        ensures
            r.joypad1.spec_bits() == 0,
            r.joypad2.spec_bits() == 0,
            r.joypad1_latch == 0,
            r.joypad2_latch == 0,
            r.shift1_count == 0,
            r.shift2_count == 0,
            !r.polling,
    {
        NesControllers {
            joypad1: JoypadInput::new(),
            joypad2: JoypadInput::new(),
            shift1_count: 0,
            shift2_count: 0,
            joypad1_latch: 0,
            joypad2_latch: 0,
            polling: false,
        }
    }

    /// The buttons pad 1 holds from now on.
    pub fn set_joypad1_state(&mut self, controller: JoypadInput)
        ensures
            *final(self) == (NesControllers { joypad1: controller, ..*old(self) }),
    {
        self.joypad1 = controller;
    }

    /// The buttons pad 2 holds from now on.
    pub fn set_joypad2_state(&mut self, controller: JoypadInput)
        ensures
            *final(self) == (NesControllers { joypad2: controller, ..*old(self) }),
    {
        self.joypad2 = controller;
    }

    /// Releases every button of both pads.
    pub fn clear_joypads_state(&mut self)
        ensures
            final(self).joypad1.spec_bits() == 0,
            final(self).joypad2.spec_bits() == 0,
            final(self).joypad1_latch == old(self).joypad1_latch,
            final(self).joypad2_latch == old(self).joypad2_latch,
            final(self).shift1_count == old(self).shift1_count,
            final(self).shift2_count == old(self).shift2_count,
            final(self).polling == old(self).polling,
    {
        self.joypad1.clear();
        self.joypad2.clear();
    }

    /// A write to $4016: bit 0 set starts polling (latching both pads),
    /// anything else ends it. The pinout passes through.
    pub fn write_4016(&mut self, pinout: Pinout) -> (r: Pinout)
        ensures
            r == pinout,
            *final(self) == spec_after_4016_write(*old(self), pinout.data),
    {
        if (pinout.data & 0x01) == 1 && self.polling == false {
            self.polling = true;
            self.shift1_count = 8;
            self.shift2_count = 8;
            self.joypad1_latch = self.joypad1.bits();
            self.joypad2_latch = self.joypad2.bits();
        } else {
            self.polling = false;
        }
        pinout
    }

    /// A read of $4016, pad 1.
    pub fn read_4016(&mut self, pinout: Pinout) -> (r: Pinout)
        ensures
            ({
                let t = spec_port_read(old(self).polling, old(self).joypad1_latch, old(self).shift1_count, pinout.data);
                &&& r == (Pinout { data: t.0, ..pinout })
                &&& *final(self) == (NesControllers { joypad1_latch: t.1, shift1_count: t.2, ..*old(self) })
            }),
    {
        let mut pinout = pinout;
        let (data, latch, count) = port_read(self.polling, self.joypad1_latch, self.shift1_count, pinout.data);
        pinout.data = data;
        self.joypad1_latch = latch;
        self.shift1_count = count;
        pinout
    }

    /// A read of $4017, pad 2.
    pub fn read_4017(&mut self, pinout: Pinout) -> (r: Pinout)
        ensures
            ({
                let t = spec_port_read(old(self).polling, old(self).joypad2_latch, old(self).shift2_count, pinout.data);
                &&& r == (Pinout { data: t.0, ..pinout })
                &&& *final(self) == (NesControllers { joypad2_latch: t.1, shift2_count: t.2, ..*old(self) })
            }),
    {
        let mut pinout = pinout;
        let (data, latch, count) = port_read(self.polling, self.joypad2_latch, self.shift2_count, pinout.data);
        pinout.data = data;
        self.joypad2_latch = latch;
        self.shift2_count = count;
        pinout
    }
}

/// After a poll of pad 1 ends, the reads return its buttons in order, A
/// first, bit `i` of the latched state on read `i`; the bus bits above bit 4
/// pass through.
pub proof fn lemma_shift_out_order(latch: u8, count: u8, data: u8, i: u8)
    requires
        i < count <= 8,
    ensures
        ({
            let r = spec_port_read(false, latch >> i, (count - i) as u8, data);
            r.0 == (data & NESS001_MASK) | ((latch >> i) & 1) && r.1 == latch >> ((i + 1) as u8)
        }),
{
    assert((latch >> i) >> 1u8 == latch >> ((i + 1) as u8)) by (bit_vector)
        requires
            i < 8,
    ;
}

} // verus!
