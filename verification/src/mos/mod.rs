//! The MOS 6502 as found in the RP2A03.
//!
//! Pins emulated:
//! IRQ, NMI, RDY, RES and HALT inputs, RW and SYNC outputs, the 16 bit
//! address bus and the 8 bit data bus. The CPU is driven one cycle at a time
//! by `rp2a03::Rp2a03::tick`.

use vstd::prelude::*;

pub mod bus;
pub mod cpu_state;
pub mod instructions;
pub mod operations;
pub mod rp2a03;

verus! {

/// The control pins of the CPU, one boolean per pin.
#[derive(Clone, Copy, PartialEq, Eq, Structural, Debug)]
pub struct Ctrl {
    /// R read / W write
    pub rw: bool,
    /// first cycle of an instruction
    pub sync: bool,
    /// /IRQ maskable interrupt (active when false)
    pub irq: bool,
    /// /NMI non maskable interrupt (active when false)
    pub nmi: bool,
    /// RDY: when false the cpu pauses during its next read cycle
    pub rdy: bool,
    /// /HALT (Atari "SALLY" only)
    pub halt: bool,
}

pub open spec fn flag_bit(b: bool, v: int) -> int {
    if b { v } else { 0 }
}

impl Ctrl {
    pub open spec fn spec_empty() -> Ctrl {
        Ctrl { rw: false, sync: false, irq: false, nmi: false, rdy: false, halt: false }
    }

    pub fn empty() -> (r: Ctrl)
        ensures r == Ctrl::spec_empty(),
    {
        Ctrl { rw: false, sync: false, irq: false, nmi: false, rdy: false, halt: false }
    }

    #[allow(non_snake_case)]
    pub fn RW() -> (r: Ctrl)
        ensures r == (Ctrl { rw: true, ..Ctrl::spec_empty() }),
    {
        Ctrl { rw: true, ..Ctrl::empty() }
    }

    #[allow(non_snake_case)]
    pub fn SYNC() -> (r: Ctrl)
        ensures r == (Ctrl { sync: true, ..Ctrl::spec_empty() }),
    {
        Ctrl { sync: true, ..Ctrl::empty() }
    }

    #[allow(non_snake_case)]
    pub fn IRQ() -> (r: Ctrl)
        ensures r == (Ctrl { irq: true, ..Ctrl::spec_empty() }),
    {
        Ctrl { irq: true, ..Ctrl::empty() }
    }

    #[allow(non_snake_case)]
    pub fn NMI() -> (r: Ctrl)
        ensures r == (Ctrl { nmi: true, ..Ctrl::spec_empty() }),
    {
        Ctrl { nmi: true, ..Ctrl::empty() }
    }

    #[allow(non_snake_case)]
    pub fn RDY() -> (r: Ctrl)
        ensures r == (Ctrl { rdy: true, ..Ctrl::spec_empty() }),
    {
        Ctrl { rdy: true, ..Ctrl::empty() }
    }

    #[allow(non_snake_case)]
    pub fn HALT() -> (r: Ctrl)
        ensures r == (Ctrl { halt: true, ..Ctrl::spec_empty() }),
    {
        Ctrl { halt: true, ..Ctrl::empty() }
    }

    /// Every pin set in `other` is set in `self`.
    pub open spec fn spec_contains(&self, other: Ctrl) -> bool {
        &&& other.rw ==> self.rw
        &&& other.sync ==> self.sync
        &&& other.irq ==> self.irq
        &&& other.nmi ==> self.nmi
        &&& other.rdy ==> self.rdy
        &&& other.halt ==> self.halt
    }

    #[verifier::when_used_as_spec(spec_contains)]
    pub fn contains(&self, other: Ctrl) -> (r: bool)
        ensures r == self.spec_contains(other),
    {
        (!other.rw || self.rw) && (!other.sync || self.sync) && (!other.irq || self.irq)
            && (!other.nmi || self.nmi) && (!other.rdy || self.rdy) && (!other.halt || self.halt)
    }

    /// The pins of `self` after the pins named in `other` are driven to `value`.
    pub open spec fn spec_with(self, other: Ctrl, value: bool) -> Ctrl {
        Ctrl {
            rw: if other.rw { value } else { self.rw },
            sync: if other.sync { value } else { self.sync },
            irq: if other.irq { value } else { self.irq },
            nmi: if other.nmi { value } else { self.nmi },
            rdy: if other.rdy { value } else { self.rdy },
            halt: if other.halt { value } else { self.halt },
        }
    }

    pub fn set(&mut self, other: Ctrl, value: bool)
        ensures *final(self) == old(self).spec_with(other, value),
    {
        if other.rw { self.rw = value; }
        if other.sync { self.sync = value; }
        if other.irq { self.irq = value; }
        if other.nmi { self.nmi = value; }
        if other.rdy { self.rdy = value; }
        if other.halt { self.halt = value; }
    }

    /// The pins as the bit layout `00 HALT RDY NMI IRQ SYNC RW`.
    pub open spec fn spec_bits(&self) -> u8 {
        (flag_bit(self.rw, 0x01) + flag_bit(self.sync, 0x02) + flag_bit(self.irq, 0x04)
            + flag_bit(self.nmi, 0x08) + flag_bit(self.rdy, 0x10) + flag_bit(self.halt, 0x20)) as u8
    }

    pub fn bits(&self) -> (r: u8)
        ensures r == self.spec_bits(),
    {
        (if self.rw { 0x01u8 } else { 0 }) + (if self.sync { 0x02u8 } else { 0 })
            + (if self.irq { 0x04u8 } else { 0 }) + (if self.nmi { 0x08u8 } else { 0 })
            + (if self.rdy { 0x10u8 } else { 0 }) + (if self.halt { 0x20u8 } else { 0 })
    }

    /// Reads the pins from a bit pattern; bits 6 and 7 are ignored.
    pub fn from_bits_truncate(bits: u8) -> (r: Ctrl)
        ensures
            r.rw == (bits & 0x01 != 0),
            r.sync == (bits & 0x02 != 0),
            r.irq == (bits & 0x04 != 0),
            r.nmi == (bits & 0x08 != 0),
            r.rdy == (bits & 0x10 != 0),
            r.halt == (bits & 0x20 != 0),
    {
        Ctrl {
            rw: bits & 0x01 != 0,
            sync: bits & 0x02 != 0,
            irq: bits & 0x04 != 0,
            nmi: bits & 0x08 != 0,
            rdy: bits & 0x10 != 0,
            halt: bits & 0x20 != 0,
        }
    }

    /// The power on pin state: RW, IRQ, NMI, RDY and HALT high.
    pub open spec fn spec_default() -> Ctrl {
        Ctrl { rw: true, sync: false, irq: true, nmi: true, rdy: true, halt: true }
    }
}

impl Default for Ctrl {
    fn default() -> (r: Ctrl)
        ensures r == Ctrl::spec_default(),
    {
        Ctrl { rw: true, sync: false, irq: true, nmi: true, rdy: true, halt: true }
    }
}

/// The external state of the cpu: its address, data and control pins.
#[derive(Clone, Copy, PartialEq, Eq, Structural, Debug)]
pub struct Pinout {
    pub address: u16,
    pub opt0: u16,
    pub opt1: u8,
    pub data: u8,
    /// io pins of the 6510, controller pins of the rp2a03
    pub io: u8,
    pub ctrl: Ctrl,
}

impl Pinout {
    pub open spec fn spec_new() -> Pinout {
        Pinout { address: 0, opt0: 0, opt1: 0, data: 0, io: 0, ctrl: Ctrl::spec_default() }
    }

    pub fn new() -> (r: Pinout)
        ensures r == Pinout::spec_new(),
    {
        Pinout { address: 0, data: 0, opt0: 0, opt1: 0, io: 0, ctrl: Ctrl::default() }
    }
}

/// The bit layout of `Ctrl::bits` and `Ctrl::from_bits_truncate` agree: a
/// pin state survives the trip through its bits.
pub proof fn lemma_ctrl_bits_roundtrip(c: Ctrl)
    ensures
        (c.spec_bits() & 0x01 != 0) == c.rw,
        (c.spec_bits() & 0x02 != 0) == c.sync,
        (c.spec_bits() & 0x04 != 0) == c.irq,
        (c.spec_bits() & 0x08 != 0) == c.nmi,
        (c.spec_bits() & 0x10 != 0) == c.rdy,
        (c.spec_bits() & 0x20 != 0) == c.halt,
{
    let a: u8 = if c.rw { 1 } else { 0 };
    let b: u8 = if c.sync { 2 } else { 0 };
    let d: u8 = if c.irq { 4 } else { 0 };
    let e: u8 = if c.nmi { 8 } else { 0 };
    let f: u8 = if c.rdy { 16 } else { 0 };
    let g: u8 = if c.halt { 32 } else { 0 };
    assert(c.spec_bits() == (a + b + d + e + f + g) as u8);
    lemma_six_flags(a, b, d, e, f, g);
}

pub proof fn lemma_six_flags(a: u8, b: u8, d: u8, e: u8, f: u8, g: u8)
    requires
        a == 0 || a == 1,
        b == 0 || b == 2,
        d == 0 || d == 4,
        e == 0 || e == 8,
        f == 0 || f == 16,
        g == 0 || g == 32,
    ensures
        ((a + b + d + e + f + g) as u8 & 0x01 != 0) == (a == 1),
        ((a + b + d + e + f + g) as u8 & 0x02 != 0) == (b == 2),
        ((a + b + d + e + f + g) as u8 & 0x04 != 0) == (d == 4),
        ((a + b + d + e + f + g) as u8 & 0x08 != 0) == (e == 8),
        ((a + b + d + e + f + g) as u8 & 0x10 != 0) == (f == 16),
        ((a + b + d + e + f + g) as u8 & 0x20 != 0) == (g == 32),
{
    assert(((a + b + d + e + f + g) as u8 & 0x01 != 0) == (a == 1)
        && ((a + b + d + e + f + g) as u8 & 0x02 != 0) == (b == 2)
        && ((a + b + d + e + f + g) as u8 & 0x04 != 0) == (d == 4)
        && ((a + b + d + e + f + g) as u8 & 0x08 != 0) == (e == 8)
        && ((a + b + d + e + f + g) as u8 & 0x10 != 0) == (f == 16)
        && ((a + b + d + e + f + g) as u8 & 0x20 != 0) == (g == 32)) by (bit_vector)
        requires
            a == 0 || a == 1,
            b == 0 || b == 2,
            d == 0 || d == 4,
            e == 0 || e == 8,
            f == 0 || f == 16,
            g == 0 || g == 32;
}

} // verus!
