//! The PPU's CPU visible registers and its internal VRAM address registers.

use vstd::prelude::*;

verus! {

/// The internal scroll / address registers shared by PPUSCROLL ($2005) and
/// PPUADDR ($2006).
///
/// `v` is the current VRAM address (15 bits), `t` the temporary address
/// (the top left of the screen), `x` the fine x scroll (3 bits) and `w` the
/// first / second write toggle.
#[derive(Debug, Clone, Copy, PartialEq, Eq, Structural)]
pub struct AddrReg {
    pub v: u16,
    pub t: u16,
    pub x: u16,
    pub w: bool,
}

impl AddrReg {
    pub open spec fn spec_new() -> AddrReg {
        AddrReg { v: 0, t: 0, x: 0, w: false }
    }

    pub fn new() -> (r: Self)
        ensures r == AddrReg::spec_new(),
    {
        AddrReg { v: 0, t: 0, x: 0, w: false }
    }

    /// The registers after a write of `data` to PPUADDR.
    pub open spec fn spec_write_2006(self, data: u8) -> AddrReg {
        if !self.w {
            // high byte: bits 8..13 of t, bit 14 cleared
            AddrReg { t: ((self.t & 0xC0FF) | ((data as u16) << 8u16)) & 0x3FFF, w: true, ..self }
        } else {
            // low byte, then t is copied to v
            let t = (self.t & 0xFF00) | (data as u16);
            AddrReg { t: t, v: t, w: false, ..self }
        }
    }

    /// A write to PPUADDR: high byte first, then low byte.
    pub fn io_write_2006(&mut self, data: u8)
        ensures *final(self) == old(self).spec_write_2006(data),
    {
        if self.w == false {
            self.t = (self.t & 0xC0FF) | ((data as u16) << 8);
            // v has 15 bits but the ppu address bus only 14
            self.t = self.t & 0x3FFF;
        } else {
            self.t = (self.t & 0xFF00) | (data as u16);
            self.v = self.t;
        }
        self.w = !self.w;
    }

    /// The registers after a write of `data` to PPUSCROLL.
    pub open spec fn spec_write_2005(self, data: u8) -> AddrReg {
        if !self.w {
            // x scroll: fine x and coarse x
            AddrReg { x: (data as u16) & 0x07, t: (self.t & 0xFFE0) | ((data as u16) >> 3u16), w: true, ..self }
        } else {
            // y scroll: fine y and coarse y
            let cba = ((data & 0x07) as u16) << 12u16;
            let hgfed = ((data >> 3u8) as u16) << 5u16;
            AddrReg { t: (((self.t & 0x8FFF) | cba) & 0xFC1F) | hgfed, w: false, ..self }
        }
    }

    /// A write to PPUSCROLL: x scroll first, then y scroll.
    pub fn io_write_2005(&mut self, data: u8)
        ensures *final(self) == old(self).spec_write_2005(data),
    {
        if self.w == false {
            self.x = (data as u16) & 0x07;
            self.t = (self.t & 0xFFE0) | ((data as u16) >> 3);
        } else {
            let cba = ((data & 0x07) as u16) << 12;
            let hgfed = ((data >> 3) as u16) << 5;

            self.t = (self.t & 0x8FFF) | cba;
            self.t = (self.t & 0xFC1F) | hgfed;
        }
        self.w = !self.w;
    }

    /// A write to PPUCTRL puts its nametable bits into t.
    pub fn io_write_2000(&mut self, data: u8)
        ensures
            *final(self) == (AddrReg { t: (old(self).t & 0xF3FF) | (((data & 0x03) as u16) << 10u16), ..*old(self) }),
    {
        self.t = (self.t & 0xF3FF) | (((data & 0x03) as u16) << 10);
    }

    /// A read of PPUSTATUS resets the write toggle.
    pub fn io_read_2002(&mut self)
        ensures
            *final(self) == (AddrReg { w: false, ..*old(self) }),
    {
        self.w = false;
    }

    /// The address on the 14 bit PPU address bus.
    pub fn vram_address(&self) -> (r: u16)
        ensures r == self.v & 0x3FFF,
    {
        self.v & 0x3FFF
    }

    /// `v` advanced by `inc` (1 or 32 after a PPUDATA access), wrapping.
    pub fn increment(&mut self, inc: u16)
        ensures
            *final(self) == (AddrReg { v: old(self).v.wrapping_add(inc), ..*old(self) }),
    {
        self.v = self.v.wrapping_add(inc);
    }

    pub open spec fn spec_coarse_x_increment(v: u16) -> u16 {
        if v & 0x001F == 31 {
            (v & !0x001Fu16) ^ 0x0400
        } else {
            (v + 1) as u16
        }
    }

    /// Next tile to the right: coarse x wraps from 31 to 0 and switches the
    /// horizontal nametable.
    pub fn coarse_x_increment(&mut self)
        ensures
            *final(self) == (AddrReg { v: Self::spec_coarse_x_increment(old(self).v), ..*old(self) }),
    {
        if (self.v & 0x001F) == 31 {
            self.v &= !0x001F;
            self.v ^= 0x0400;
        } else {
            let v = self.v;
            assert((v & 0x001F) != 31 ==> v < 0xFFFF) by (bit_vector);
            self.v += 1;
        }
    }

    pub open spec fn spec_y_increment(v: u16) -> u16 {
        if v & 0x7000 != 0x7000 {
            (v + 0x1000) as u16
        } else {
            let v0 = v & !0x7000u16;
            let y = (v0 & 0x03E0) >> 5u16;
            let (y1, v1) = if y == 29 {
                (0u16, v0 ^ 0x0800)
            } else if y == 31 {
                (0u16, v0)
            } else {
                ((y + 1) as u16, v0)
            };
            (v1 & !0x03E0u16) | (y1 << 5u16)
        }
    }

    /// Next pixel row: fine y counts to 7, then coarse y advances; coarse y
    /// wraps at 29 (switching the vertical nametable) or at 31 (not
    /// switching).
    pub fn y_increment(&mut self)
        ensures
            *final(self) == (AddrReg { v: Self::spec_y_increment(old(self).v), ..*old(self) }),
    {
        if (self.v & 0x7000) != 0x7000 {
            let v = self.v;
            assert((v & 0x7000) != 0x7000 ==> v < 0xF000) by (bit_vector);
            self.v += 0x1000;
        } else {
            self.v &= !0x7000;
            let v = self.v;
            let mut y = (v & 0x03E0) >> 5;
            assert((v & 0x03E0) >> 5u16 <= 31) by (bit_vector);
            if y == 29 {
                y = 0;
                self.v ^= 0x0800;
            } else if y == 31 {
                y = 0;
            } else {
                y += 1;
            }
            self.v = (self.v & !0x03E0) | (y << 5);
        }
    }

    /// A PPUDATA access during rendering bumps both coarse x and y.
    pub fn ppu_2007_during_render_increment(&mut self)
        ensures
            *final(self) == (AddrReg {
                v: Self::spec_y_increment(Self::spec_coarse_x_increment(old(self).v)),
                ..*old(self)
            }),
    {
        self.coarse_x_increment();
        self.y_increment();
    }

    /// The nametable byte address of the current tile.
    pub fn tile_address(&self) -> (r: u16)
        ensures r == 0x2000 | (self.v & 0x0FFF),
    {
        0x2000 | (self.v & 0x0FFF)
    }

    /// The attribute byte address of the current tile.
    pub fn attribute_address(&self) -> (r: u16)
        ensures r == 0x23C0 | (self.v & 0x0C00) | ((self.v >> 4u16) & 0x38) | ((self.v >> 2u16) & 0x07),
    {
        0x23C0 | (self.v & 0x0C00) | ((self.v >> 4) & 0x38) | ((self.v >> 2) & 0x07)
    }

    /// The two palette bits of the current tile's quadrant in an attribute
    /// byte.
    pub fn attribute_bits(&self, attribute: u8) -> (r: u8)
        ensures r == (attribute >> ((((self.v >> 4u16) & 4) | (self.v & 2)) as u8)) & 0x03,
    {
        let v = self.v;
        assert((((v >> 4u16) & 4) | (v & 2)) <= 6) by (bit_vector);
        let shift = (((v >> 4) & 4) | (v & 2)) as u8;
        (attribute >> shift) & 0x03
    }

    /// The fine y scroll: the row within the current tile.
    pub fn tile_line(&self) -> (r: u16)
        ensures r == (self.v >> 12u16) & 0x07,
    {
        (self.v >> 12) & 0x07
    }

    /// Copies the horizontal position bits of t into v.
    pub fn horizontal_copy(&mut self)
        ensures
            *final(self) == (AddrReg { v: (old(self).v & 0xFBE0) | (old(self).t & 0x041F), ..*old(self) }),
    {
        self.v = (self.v & 0xFBE0) | (self.t & 0x041F);
    }

    /// Copies the vertical position bits of t into v.
    pub fn vertical_copy(&mut self)
        ensures
            *final(self) == (AddrReg { v: (old(self).v & 0x841F) | (old(self).t & 0x7BE0), ..*old(self) }),
            final(self).v & 0x7BE0 == old(self).t & 0x7BE0,
    {
        let v = self.v;
        let t = self.t;
        assert(((v & 0x841F) | (t & 0x7BE0)) & 0x7BE0 == t & 0x7BE0) by (bit_vector);
        self.v = (self.v & 0x841F) | (self.t & 0x7BE0);
    }
}

/// A PPUSCROLL write keeps the fine x scroll a 3 bit value.
pub proof fn lemma_write_2005_fine_x(r: AddrReg, data: u8)
    requires
        r.x < 8,
    ensures
        r.spec_write_2005(data).x < 8,
{
    assert((data as u16) & 0x07 < 8) by (bit_vector);
}

/// Two writes to PPUADDR, high byte then low byte, load v with the 14 bit
/// address they spell and leave the toggle as it was.
pub proof fn lemma_ppuaddr_two_writes(r: AddrReg, hi: u8, lo: u8)
    requires
        !r.w,
    ensures
        r.spec_write_2006(hi).spec_write_2006(lo).v == (((hi as u16) << 8u16) | (lo as u16)) & 0x3FFF,
        r.spec_write_2006(hi).spec_write_2006(lo).v == r.spec_write_2006(hi).spec_write_2006(lo).t,
        !r.spec_write_2006(hi).spec_write_2006(lo).w,
{
    let t = r.t;
    assert(((((t & 0xC0FF) | ((hi as u16) << 8u16)) & 0x3FFF) & 0xFF00) | (lo as u16)
        == (((hi as u16) << 8u16) | (lo as u16)) & 0x3FFF) by (bit_vector);
}

/// PPUCTRL ($2000).
#[derive(Debug, Clone, Copy, PartialEq, Eq, Structural)]
pub struct ControlRegister {
    bits: u8,
}

impl ControlRegister {
    pub closed spec fn spec_bits(&self) -> u8 {
        self.bits
    }

    pub fn bits(&self) -> (r: u8)
        ensures r == self.spec_bits(),
    {
        self.bits
    }

    pub fn from_bits_truncate(bits: u8) -> (r: Self)
        ensures r.spec_bits() == bits,
    {
        ControlRegister { bits }
    }

    #[allow(non_snake_case)]
    pub fn NAMETABLE0() -> (r: Self) ensures r.spec_bits() == 0b00000001, { ControlRegister { bits: 0b00000001 } }
    #[allow(non_snake_case)]
    pub fn NAMETABLE1() -> (r: Self) ensures r.spec_bits() == 0b00000010, { ControlRegister { bits: 0b00000010 } }
    #[allow(non_snake_case)]
    pub fn VRAM_ADD_INCREMENT() -> (r: Self) ensures r.spec_bits() == 0b00000100, { ControlRegister { bits: 0b00000100 } }
    #[allow(non_snake_case)]
    pub fn SPRITE_PATTERN_ADDR() -> (r: Self) ensures r.spec_bits() == 0b00001000, { ControlRegister { bits: 0b00001000 } }
    #[allow(non_snake_case)]
    pub fn BACKROUND_PATTERN_ADDR() -> (r: Self) ensures r.spec_bits() == 0b00010000, { ControlRegister { bits: 0b00010000 } }
    #[allow(non_snake_case)]
    pub fn SPRITE_SIZE() -> (r: Self) ensures r.spec_bits() == 0b00100000, { ControlRegister { bits: 0b00100000 } }
    #[allow(non_snake_case)]
    pub fn MASTER_SLAVE_SELECT() -> (r: Self) ensures r.spec_bits() == 0b01000000, { ControlRegister { bits: 0b01000000 } }
    #[allow(non_snake_case)]
    pub fn GENERATE_NMI() -> (r: Self) ensures r.spec_bits() == 0b10000000, { ControlRegister { bits: 0b10000000 } }

    pub fn new() -> (r: Self)
        ensures r.spec_bits() == 0,
    {
        ControlRegister::from_bits_truncate(0x00)
    }

    pub fn contains(&self, other: Self) -> (r: bool)
        ensures r == (self.spec_bits() & other.spec_bits() == other.spec_bits()),
    {
        self.bits & other.bits == other.bits
    }

    pub fn set(&mut self, other: Self, value: bool)
        ensures
            final(self).spec_bits() == (if value {
                old(self).spec_bits() | other.spec_bits()
            } else {
                old(self).spec_bits() & !other.spec_bits()
            }),
    {
        if value {
            self.bits = self.bits | other.bits;
        } else {
            self.bits = self.bits & !other.bits;
        }
    }

    /// How far v moves after a PPUDATA access: 32 (down) or 1 (across).
    pub fn vram_addr_increment(&self) -> (r: u16)
        ensures r == (if self.spec_bits() & 0b100 == 0b100 { 32u16 } else { 1u16 }),
    {
        if self.bits & 0b100 == 0b100 {
            32
        } else {
            1
        }
    }

    /// The same as `vram_addr_increment`.
    pub fn vram_addr_increment_amount(&self) -> (r: u16)
        ensures r == (if self.spec_bits() & 0b100 == 0b100 { 32u16 } else { 1u16 }),
    {
        self.vram_addr_increment()
    }

    /// The base nametable address: $2000, $2400, $2800 or $2C00.
    pub fn base_nametable_address(&self) -> (r: u16)
        ensures r == 0x2000 + 0x400 * ((self.spec_bits() & 0x03) as u16),
    {
        let b = self.bits;
        let n1 = b & 0b10 == 0b10;
        let n0 = b & 0b01 == 0b01;
        assert(((b & 0x03 == 0) == (!(b & 0b10 == 0b10) && !(b & 0b01 == 0b01)))
            && ((b & 0x03 == 1) == (!(b & 0b10 == 0b10) && (b & 0b01 == 0b01)))
            && ((b & 0x03 == 2) == ((b & 0b10 == 0b10) && !(b & 0b01 == 0b01)))
            && ((b & 0x03 == 3) == ((b & 0b10 == 0b10) && (b & 0b01 == 0b01)))) by (bit_vector);
        match (n1, n0) {
            (false, false) => 0x2000,
            (false, true) => 0x2400,
            (true, false) => 0x2800,
            (true, true) => 0x2C00,
        }
    }

    /// Background pattern table: $0000 or $1000.
    pub fn background_table_address(&self) -> (r: u16)
        ensures r == (if self.spec_bits() & 0b10000 == 0b10000 { 0x1000u16 } else { 0u16 }),
    {
        if self.bits & 0b10000 == 0b10000 {
            0x1000
        } else {
            0
        }
    }

    /// Pattern table of 8x8 sprites: $0000 or $1000.
    pub fn sprite_table_address(&self) -> (r: u16)
        ensures r == (if self.spec_bits() & 0b1000 == 0b1000 { 0x1000u16 } else { 0u16 }),
    {
        if self.bits & 0b1000 == 0b1000 {
            0x1000
        } else {
            0
        }
    }

    /// Sprites are 8x16 pixels.
    pub fn tall_sprites(&self) -> (r: bool)
        ensures r == (self.spec_bits() & 0b100000 == 0b100000),
    {
        self.bits & 0b100000 == 0b100000
    }

    /// Raise NMI at the start of vblank.
    pub fn generate_nmi(&self) -> (r: bool)
        ensures r == (self.spec_bits() & 0b10000000 == 0b10000000),
    {
        self.bits & 0b10000000 == 0b10000000
    }

    /// A write to PPUCTRL.
    pub fn io_write(&mut self, data: u8)
        ensures final(self).spec_bits() == data,
    {
        self.bits = data;
    }
}

/// PPUMASK ($2001).
#[derive(Debug, Clone, Copy, PartialEq, Eq, Structural)]
pub struct MaskRegister {
    bits: u8,
}

impl MaskRegister {
    pub closed spec fn spec_bits(&self) -> u8 {
        self.bits
    }

    pub fn bits(&self) -> (r: u8)
        ensures r == self.spec_bits(),
    {
        self.bits
    }

    pub fn from_bits_truncate(bits: u8) -> (r: Self)
        ensures r.spec_bits() == bits,
    {
        MaskRegister { bits }
    }

    #[allow(non_snake_case)]
    pub fn GREYSCALE() -> (r: Self) ensures r.spec_bits() == 0b00000001, { MaskRegister { bits: 0b00000001 } }
    #[allow(non_snake_case)]
    pub fn LEFTMOST_8PXL_BACKGROUND() -> (r: Self) ensures r.spec_bits() == 0b00000010, { MaskRegister { bits: 0b00000010 } }
    #[allow(non_snake_case)]
    pub fn LEFTMOST_8PXL_SPRITE() -> (r: Self) ensures r.spec_bits() == 0b00000100, { MaskRegister { bits: 0b00000100 } }
    #[allow(non_snake_case)]
    pub fn SHOW_BACKGROUND() -> (r: Self) ensures r.spec_bits() == 0b00001000, { MaskRegister { bits: 0b00001000 } }
    #[allow(non_snake_case)]
    pub fn SHOW_SPRITES() -> (r: Self) ensures r.spec_bits() == 0b00010000, { MaskRegister { bits: 0b00010000 } }

    pub fn new() -> (r: Self)
        ensures r.spec_bits() == 0,
    {
        MaskRegister::from_bits_truncate(0x00)
    }

    pub fn contains(&self, other: Self) -> (r: bool)
        ensures r == (self.spec_bits() & other.spec_bits() == other.spec_bits()),
    {
        self.bits & other.bits == other.bits
    }

    pub fn set(&mut self, other: Self, value: bool)
        ensures
            final(self).spec_bits() == (if value {
                old(self).spec_bits() | other.spec_bits()
            } else {
                old(self).spec_bits() & !other.spec_bits()
            }),
    {
        if value {
            self.bits = self.bits | other.bits;
        } else {
            self.bits = self.bits & !other.bits;
        }
    }

    /// The emphasis bits (7..5) moved to bits 8..6 of a colour index.
    pub fn emphasis_mask(&self) -> (r: u16)
        ensures r == ((self.spec_bits() & 0xE0) as u16) << 1u16,
    {
        ((self.bits & 0xE0) as u16) << 1
    }

    /// Background or sprites are shown.
    pub fn rendering_enabled(&self) -> (r: bool)
        ensures r == (self.spec_bits() & 0b00011000 != 0),
    {
        self.bits & 0b00011000 != 0
    }

    /// The mask that greyscale mode applies to a colour index.
    pub fn monochrome_mask(&self) -> (r: u8)
        ensures r == (if self.spec_bits() & 1 == 1 { 0x30u8 } else { 0x3Fu8 }),
    {
        if self.bits & 1 == 1 {
            0x30
        } else {
            0x3F
        }
    }

    /// A write to PPUMASK.
    pub fn io_write(&mut self, data: u8)
        ensures final(self).spec_bits() == data,
    {
        self.bits = data;
    }
}

/// PPUSTATUS ($2002).
#[derive(Debug, Clone, Copy, PartialEq, Eq, Structural)]
pub struct StatusRegister {
    bits: u8,
}

impl StatusRegister {
    pub closed spec fn spec_bits(&self) -> u8 {
        self.bits
    }

    pub fn bits(&self) -> (r: u8)
        ensures r == self.spec_bits(),
    {
        self.bits
    }

    pub fn from_bits_truncate(bits: u8) -> (r: Self)
        ensures r.spec_bits() == bits & 0xE0,
    {
        StatusRegister { bits: bits & 0xE0 }
    }

    proof fn lemma_zero_truncates()
        ensures (0u8 & 0xE0u8) == 0u8,
    {
        assert((0u8 & 0xE0u8) == 0u8) by (bit_vector);
    }

    #[allow(non_snake_case)]
    pub fn SPRITE_OVERFLOW() -> (r: Self) ensures r.spec_bits() == 0b00100000, { StatusRegister { bits: 0b00100000 } }
    #[allow(non_snake_case)]
    pub fn SPRITE_ZERO_HIT() -> (r: Self) ensures r.spec_bits() == 0b01000000, { StatusRegister { bits: 0b01000000 } }
    #[allow(non_snake_case)]
    pub fn VBLANK_STARTED() -> (r: Self) ensures r.spec_bits() == 0b10000000, { StatusRegister { bits: 0b10000000 } }

    pub fn new() -> (r: Self)
        ensures r.spec_bits() == 0,
    {
        proof {
            Self::lemma_zero_truncates();
        }
        StatusRegister::from_bits_truncate(0x00)
    }

    pub fn contains(&self, other: Self) -> (r: bool)
        ensures r == (self.spec_bits() & other.spec_bits() == other.spec_bits()),
    {
        self.bits & other.bits == other.bits
    }

    pub fn set(&mut self, other: Self, value: bool)
        ensures
            final(self).spec_bits() == (if value {
                old(self).spec_bits() | other.spec_bits()
            } else {
                old(self).spec_bits() & !other.spec_bits()
            }),
    {
        if value {
            self.bits = self.bits | other.bits;
        } else {
            self.bits = self.bits & !other.bits;
        }
    }

    /// A read of PPUSTATUS: the status bits, with the low five bits taken
    /// from the io latch (what was last written to a PPU register); the
    /// read clears the vblank flag.
    pub fn io_read(&mut self, io_latch: u8) -> (r: u8)
        ensures
            r == (old(self).spec_bits() & 0xE0) | (io_latch & 0x1F),
            final(self).spec_bits() == old(self).spec_bits() & 0x7F,
    {
        let r = (self.bits & 0xE0) | (io_latch & 0x1F);
        self.bits = self.bits & 0x7F;
        r
    }
}

} // verus!
