//! The RP2C02 picture processing unit.

use vstd::prelude::*;

pub mod ppu_registers;
pub mod bus;
pub mod background;
pub mod sprites;
pub mod ssprites;
pub mod cpu_ports;
pub mod ppu_operations;
pub mod palette_ram;
pub mod scanline;
pub mod rp2c02;

use ppu_registers::{AddrReg, ControlRegister, MaskRegister, StatusRegister};

verus! {

/// The PPU's memory control pins, one boolean per pin.
#[derive(Clone, Copy, PartialEq, Eq, Structural, Debug)]
pub struct Ctrl {
    /// /RD read from VRAM (active when false); also asserted on palette reads
    pub rd: bool,
    /// /WR write to VRAM (active when false); not asserted on palette writes
    pub wr: bool,
    /// ALE goes high at the beginning of a VRAM access
    pub ale: bool,
}

impl Ctrl {
    #[allow(non_snake_case)]
    pub fn RD() -> (r: Ctrl)
        ensures r == (Ctrl { rd: true, wr: false, ale: false }),
    {
        Ctrl { rd: true, wr: false, ale: false }
    }

    #[allow(non_snake_case)]
    pub fn WR() -> (r: Ctrl)
        ensures r == (Ctrl { rd: false, wr: true, ale: false }),
    {
        Ctrl { rd: false, wr: true, ale: false }
    }

    #[allow(non_snake_case)]
    pub fn ALE() -> (r: Ctrl)
        ensures r == (Ctrl { rd: false, wr: false, ale: true }),
    {
        Ctrl { rd: false, wr: false, ale: true }
    }

    /// Whether every pin raised in `other` is raised here.
    pub fn contains(&self, other: Ctrl) -> (r: bool)
        ensures r == ((other.rd ==> self.rd) && (other.wr ==> self.wr) && (other.ale ==> self.ale)),
    {
        (!other.rd || self.rd) && (!other.wr || self.wr) && (!other.ale || self.ale)
    }

    /// Raises (`value`) or lowers the pins of `other`.
    pub fn set(&mut self, other: Ctrl, value: bool)
        ensures
            final(self).rd == (if other.rd { value } else { old(self).rd }),
            final(self).wr == (if other.wr { value } else { old(self).wr }),
            final(self).ale == (if other.ale { value } else { old(self).ale }),
    {
        if other.rd {
            self.rd = value;
        }
        if other.wr {
            self.wr = value;
        }
        if other.ale {
            self.ale = value;
        }
    }
}

impl Default for Ctrl {
    /// /WR and /RD high: no access.
    fn default() -> (r: Ctrl)
        ensures r == (Ctrl { rd: true, wr: true, ale: false }),
    {
        Ctrl { rd: true, wr: true, ale: false }
    }
}

/// The PPU's side of its memory bus.
#[derive(Debug, PartialEq, Eq, Structural, Clone, Copy)]
pub struct Pinout {
    pub ctrl: Ctrl,
    pub address: u16,
    pub data: u8,
}

impl Pinout {
    pub open spec fn spec_new() -> Pinout {
        Pinout { ctrl: Ctrl { rd: true, wr: true, ale: false }, address: 0, data: 0 }
    }

    pub fn new() -> (r: Self)
        ensures r == Pinout::spec_new(),
    {
        Pinout { ctrl: Ctrl::default(), address: 0, data: 0 }
    }
}

/// The PPU's registers and timing state.
#[derive(Clone, Copy)]
pub struct Context {
    pub palette_ram: [u8; 32],
    pub cycle: u64,
    pub frame: u64,
    /// Cycle of the last PPUSTATUS read (for the vblank / NMI race).
    pub read_2002_cycle: u64,
    pub addr_reg: AddrReg,
    pub control_reg: ControlRegister,
    /// PPUCTRL before its last write (for repeated NMIs during vblank).
    pub prev_control_reg: ControlRegister,
    pub mask_reg: MaskRegister,
    pub status_reg: StatusRegister,
    /// The scanline, 0 to 261.
    pub scanline_index: u16,
    /// The dot within the scanline, 0 to 340.
    pub scanline_dot: u16,
    /// The latch formed by the long traces of the data bus.
    pub io_db: u8,
    pub odd_frame: bool,
    /// Writes to PPUCTRL, PPUMASK, PPUSCROLL and PPUADDR are ignored until
    /// the PPU has warmed up.
    pub write_block: bool,
    /// The last cycle of a frame has just run.
    pub last_frame_cycle: bool,
    /// Primary OAM: 64 sprites of 4 bytes.
    pub oam_ram_primary: [u8; 256],
    /// OAMADDR.
    pub oam_addr_reg: u8,
}

impl Context {
    pub open spec fn spec_is_new(c: Context) -> bool {
        &&& c.palette_ram@ == Seq::new(32, |i: int| 0u8)
        &&& c.cycle == 0
        &&& c.frame == 0
        &&& c.read_2002_cycle == 0
        &&& c.addr_reg == AddrReg::spec_new()
        &&& c.control_reg.spec_bits() == 0
        &&& c.prev_control_reg.spec_bits() == 0
        &&& c.mask_reg.spec_bits() == 0
        &&& c.status_reg.spec_bits() == 0
        &&& c.scanline_index == 0
        &&& c.scanline_dot == 1
        &&& c.io_db == 0
        &&& !c.odd_frame
        &&& c.write_block
        &&& !c.last_frame_cycle
        &&& c.oam_ram_primary@ == Seq::new(256, |i: int| 0u8)
        &&& c.oam_addr_reg == 0
    }

    pub fn new() -> (r: Self)
        ensures Context::spec_is_new(r),
    {
        let c = Context {
            palette_ram: [0; 32],
            cycle: 0,
            frame: 0,
            read_2002_cycle: 0,
            addr_reg: AddrReg::new(),
            control_reg: ControlRegister::new(),
            prev_control_reg: ControlRegister::new(),
            mask_reg: MaskRegister::new(),
            status_reg: StatusRegister::new(),
            scanline_index: 0,
            scanline_dot: 1,
            io_db: 0,
            odd_frame: false,
            write_block: true,
            last_frame_cycle: false,
            oam_ram_primary: [0; 256],
            oam_addr_reg: 0,
        };
        assert(c.palette_ram@ =~= Seq::new(32, |i: int| 0u8));
        assert(c.oam_ram_primary@ =~= Seq::new(256, |i: int| 0u8));
        c
    }
}

} // verus!
