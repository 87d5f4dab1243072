//! The PPU seen only through its eight CPU ports: the registers, OAM and
//! palette RAM they reach, and the io latch that reads of write-only ports
//! return. Nothing here draws; `rp2c02` is the full PPU.

use vstd::prelude::*;
use super::ppu_registers::{AddrReg, ControlRegister, MaskRegister, StatusRegister};

verus! {

/// The PPU's bus control pins.
#[derive(Debug, Clone, Copy, PartialEq, Eq, Structural)]
pub struct Ctrl {
    bits: u8,
}

impl Ctrl {
    pub closed spec fn spec_bits(&self) -> u8 {
        self.bits
    }

    /// Read pin.
    #[allow(non_snake_case)]
    pub fn RD() -> (r: Self) ensures r.spec_bits() == 0b00000001, { Ctrl { bits: 0b00000001 } }
    /// Write pin.
    #[allow(non_snake_case)]
    pub fn WR() -> (r: Self) ensures r.spec_bits() == 0b00000010, { Ctrl { bits: 0b00000010 } }
    /// Address latch enable for a read.
    #[allow(non_snake_case)]
    pub fn RDALE() -> (r: Self) ensures r.spec_bits() == 0b00000100, { Ctrl { bits: 0b00000100 } }
    /// Address latch enable for a write.
    #[allow(non_snake_case)]
    pub fn WRALE() -> (r: Self) ensures r.spec_bits() == 0b00001000, { Ctrl { bits: 0b00001000 } }

    /// No pin asserted.
    pub fn new() -> (r: Self)
        ensures r.spec_bits() == 0,
    {
        Ctrl { bits: 0 }
    }

    pub fn bits(&self) -> (r: u8)
        ensures r == self.spec_bits(),
    {
        self.bits
    }

    pub fn contains(&self, other: Self) -> (r: bool)
        ensures r == (self.spec_bits() & other.spec_bits() == other.spec_bits()),
    {
        self.bits & other.bits == other.bits
    }

    pub fn set(&mut self, other: Self, value: bool)
        ensures
            final(self).spec_bits() == (if value {
                old(self).spec_bits() | other.spec_bits()
            } else {
                old(self).spec_bits() & !other.spec_bits()
            }),
    {
        if value {
            self.bits = self.bits | other.bits;
        } else {
            self.bits = self.bits & !other.bits;
        }
    }
}

/// The PPU's address and data pins.
#[derive(Debug, PartialEq, Eq, Structural, Clone, Copy)]
pub struct Pinout {
    pub address: u16,
    pub latch: u8,
    pub ctrl: Ctrl,
}

impl Pinout {
    pub fn new() -> (r: Self)
        ensures
            r.address == 0,
            r.latch == 0,
            r.ctrl.spec_bits() == 0,
    {
        Pinout { address: 0, latch: 0, ctrl: Ctrl::new() }
    }
}

/// Masking to 14 bits keeps the low byte.
proof fn lemma_low_byte(a: u16)
    ensures
        (a & 0x3FFF) & 0x00FF == a & 0xFF,
{
    assert((a & 0x3FFF) & 0x00FF == a & 0xFF) by (bit_vector);
}

pub struct PPU {
    pub palette_ram: [u8; 32],
    pub oam_ram: [u8; 256],
    pub scanline: u16,
    pub scanline_cycle: u16,
    pub pinout: Pinout,
    /// Reading a write-only port returns the internal data bus, which holds
    /// the last value driven on it.
    pub io_latch: u8,
    /// Data buffered by a PPUDATA read.
    pub ppudata_buffer: u8,
    pub oam_addr: u8,
    pub addr_reg: AddrReg,
    pub control_reg: ControlRegister,
    pub mask_reg: MaskRegister,
    pub status_reg: StatusRegister,
}

impl PPU {
    /// Everything cleared, on the pre-render line.
    pub fn from_power_on() -> (r: PPU)
        ensures
            r.palette_ram@ == Seq::new(32, |i: int| 0u8),
            r.oam_ram@ == Seq::new(256, |i: int| 0u8),
            r.scanline == 261,
            r.scanline_cycle == 0,
            r.pinout.address == 0,
            r.pinout.latch == 0,
            r.pinout.ctrl.spec_bits() == 0,
            r.io_latch == 0,
            r.ppudata_buffer == 0,
            r.oam_addr == 0,
            r.addr_reg == AddrReg::spec_new(),
            r.control_reg.spec_bits() == 0,
            r.mask_reg.spec_bits() == 0,
            r.status_reg.spec_bits() == 0,
    {
        let r = PPU {
            palette_ram: [0; 32],
            oam_ram: [0; 256],
            scanline: 261,
            scanline_cycle: 0,
            io_latch: 0,
            ppudata_buffer: 0,
            oam_addr: 0,
            addr_reg: AddrReg::new(),
            control_reg: ControlRegister::new(),
            mask_reg: MaskRegister::new(),
            status_reg: StatusRegister::new(),
            pinout: Pinout::new(),
        };
        assert(r.palette_ram@ =~= Seq::new(32, |i: int| 0u8));
        assert(r.oam_ram@ =~= Seq::new(256, |i: int| 0u8));
        r
    }

    /// A read of a write-only port: the io latch.
    pub fn read_port(&self) -> (r: u8)
        ensures
            r == self.io_latch,
    {
        self.io_latch
    }

    pub fn write_ppuctrl(&mut self, data: u8)
        ensures
            final(self).io_latch == data,
            final(self).control_reg.spec_bits() == data,
            *final(self) == (PPU { io_latch: data, control_reg: final(self).control_reg, ..*old(self) }),
    {
        self.io_latch = data;
        self.control_reg.io_write(data);
    }

    pub fn write_ppumask(&mut self, data: u8)
        ensures
            final(self).io_latch == data,
            final(self).mask_reg.spec_bits() == data,
            *final(self) == (PPU { io_latch: data, mask_reg: final(self).mask_reg, ..*old(self) }),
    {
        self.io_latch = data;
        self.mask_reg.io_write(data);
    }

    /// The status flags with the low five bits from the io latch; the read
    /// clears the vblank flag.
    pub fn read_ppustatus(&mut self) -> (r: u8)
        ensures
            r == (old(self).status_reg.spec_bits() & 0xE0) | (old(self).io_latch & 0x1F),
            final(self).status_reg.spec_bits() == old(self).status_reg.spec_bits() & 0x7F,
            *final(self) == (PPU { status_reg: final(self).status_reg, ..*old(self) }),
    {
        self.status_reg.io_read(self.io_latch)
    }

    /// Writing to a read-only port only fills the io latch.
    pub fn write_ppustatus(&mut self, data: u8)
        ensures
            *final(self) == (PPU { io_latch: data, ..*old(self) }),
    {
        self.io_latch = data;
    }

    pub fn write_oamaddr(&mut self, data: u8)
        ensures
            *final(self) == (PPU { io_latch: data, oam_addr: data, ..*old(self) }),
    {
        self.io_latch = data;
        self.oam_addr = data;
    }

    /// The OAM byte at OAMADDR, without incrementing it.
    pub fn read_oamdata(&mut self) -> (r: u8)
        ensures
            r == old(self).oam_ram@[old(self).oam_addr as int],
            *final(self) == (PPU { io_latch: r, ..*old(self) }),
    {
        self.io_latch = self.oam_ram[self.oam_addr as usize];
        self.io_latch
    }

    /// Outside vblank (lines 0-239 and 261) OAM is not written and OAMADDR
    /// takes a glitchy step in its high six bits; during vblank the byte is
    /// stored and OAMADDR moves on by one.
    pub fn write_oamdata(&mut self, data: u8)
        requires
            old(self).scanline <= 261,
        ensures
            old(self).scanline <= 239 || old(self).scanline == 261 ==> *final(self) == (PPU {
                io_latch: data,
                oam_addr: (old(self).oam_addr.wrapping_add(4) & 0xFC) | (old(self).oam_addr & 0x03),
                ..*old(self)
            }),
            240 <= old(self).scanline <= 260 ==> {
                &&& final(self).oam_ram@ == old(self).oam_ram@.update(old(self).oam_addr as int, data)
                &&& *final(self) == (PPU {
                    io_latch: data,
                    oam_ram: final(self).oam_ram,
                    oam_addr: old(self).oam_addr.wrapping_add(1),
                    ..*old(self)
                })
            },
    {
        self.io_latch = data;
        if self.scanline <= 239 || self.scanline == 261 {
            // no OAM write, but a glitchy increment of the high six bits
            let lb = self.oam_addr & 0x03;
            self.oam_addr = (self.oam_addr.wrapping_add(4) & 0xFC) | lb;
        } else {
            self.oam_ram[self.oam_addr as usize] = data;
            self.oam_addr = self.oam_addr.wrapping_add(1);
        }
    }

    pub fn write_ppuscroll(&mut self, data: u8)
        ensures
            final(self).addr_reg == old(self).addr_reg.spec_write_2005(data),
            *final(self) == (PPU { io_latch: data, addr_reg: final(self).addr_reg, ..*old(self) }),
    {
        self.io_latch = data;
        self.addr_reg.io_write_2005(data);
    }

    pub fn write_ppuaddr(&mut self, data: u8)
        ensures
            final(self).addr_reg == old(self).addr_reg.spec_write_2006(data),
            *final(self) == (PPU { io_latch: data, addr_reg: final(self).addr_reg, ..*old(self) }),
    {
        self.io_latch = data;
        self.addr_reg.io_write_2006(data);
    }

    /// A PPUDATA read raises the read address latch. A palette address reads
    /// the palette entry at its low byte; any other address returns the
    /// buffered byte.
    pub fn read_ppudata(&mut self) -> (r: u8)
        requires
            (old(self).addr_reg.v & 0x3FFF) >= 0x3F00 ==> (old(self).addr_reg.v & 0xFF) < 32,
        ensures
            ({
                let v = old(self).addr_reg.v & 0x3FFF;
                r == (if v >= 0x3F00 { old(self).palette_ram@[(v & 0x00FF) as int] } else { old(self).ppudata_buffer })
            }),
            final(self).pinout.ctrl.spec_bits() == old(self).pinout.ctrl.spec_bits() | 0b00000100,
            *final(self) == (PPU { io_latch: r, pinout: final(self).pinout, ..*old(self) }),
            final(self).pinout == (Pinout { ctrl: final(self).pinout.ctrl, ..old(self).pinout }),
    {
        self.pinout.ctrl.set(Ctrl::RDALE(), true);
        let v = self.addr_reg.vram_address();
        if v >= 0x3F00 {
            // a palette read also loads the buffer with the nametable byte
            // underneath (not modelled: there is no nametable here)
            proof {
                lemma_low_byte(self.addr_reg.v);
            }
            self.io_latch = self.palette_ram[(v & 0x00FF) as usize];
            self.io_latch
        } else {
            self.io_latch = self.ppudata_buffer;
            self.ppudata_buffer
        }
    }

    /// A PPUDATA write stores a palette entry at a palette address and
    /// raises the write address latch otherwise.
    pub fn write_ppudata(&mut self, data: u8)
        requires
            (old(self).addr_reg.v & 0x3FFF) >= 0x3F00 ==> (old(self).addr_reg.v & 0xFF) < 32,
        ensures
            ({
                let v = old(self).addr_reg.v & 0x3FFF;
                &&& v >= 0x3F00 ==> final(self).palette_ram@ == old(self).palette_ram@.update((v & 0x00FF) as int, data)
                    && final(self).pinout == old(self).pinout
                &&& v < 0x3F00 ==> final(self).palette_ram == old(self).palette_ram
                    && final(self).pinout.ctrl.spec_bits() == old(self).pinout.ctrl.spec_bits() | 0b00001000
                    && final(self).pinout == (Pinout { ctrl: final(self).pinout.ctrl, ..old(self).pinout })
            }),
            *final(self) == (PPU { io_latch: data, palette_ram: final(self).palette_ram, pinout: final(self).pinout, ..*old(self) }),
    {
        self.io_latch = data;
        let v = self.addr_reg.vram_address();
        if v >= 0x3F00 {
            proof {
                lemma_low_byte(self.addr_reg.v);
            }
            self.palette_ram[(v & 0x00FF) as usize] = data;
        } else {
            self.pinout.ctrl.set(Ctrl::WRALE(), true);
        }
    }
}

} // verus!
