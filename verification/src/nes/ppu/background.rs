//! Background rendering: the tile fetch latches and the shift registers that
//! feed one background pixel per dot.

use vstd::prelude::*;
use super::Context;

verus! {

pub const PATTERN0_OFFSET: u16 = 0;
pub const PATTERN1_OFFSET: u16 = 8;
pub const PATTERN0_INDEX: usize = 0;
pub const PATTERN1_INDEX: usize = 1;

#[derive(Debug, Clone, Copy)]
pub struct Background {
    /// The pattern bit planes of two tiles, the current one in the high byte.
    pub pattern_queue: [u16; 2],
    /// The palette bits of the same two tiles, each bit repeated 8 times.
    pub attribute_queue: [u16; 2],
    pub next_pattern: [u8; 2],
    pub next_tile_index: u16,
    pub next_attribute: u8,
}

/// Bit `n` of `v`.
pub open spec fn bit16(v: u16, n: u16) -> u16 {
    (v >> n) & 1
}

/// The background pixel: the palette and pattern bits at fine x.
pub open spec fn spec_bg_pixel(pq0: u16, pq1: u16, aq0: u16, aq1: u16, x: u16) -> u8 {
    let mask: u16 = 0x8000u16 >> x;
    (((pq0 & mask) >> ((15 - x) as u16)) | ((pq1 & mask) >> ((14 - x) as u16))
        | ((aq0 & mask) >> ((13 - x) as u16)) | (((aq1 & mask) >> ((12 - x) as u16)) & 0xFF)) as u8
}

/// The background pixel is the 4 bit value whose bits are taken, in order,
/// from bit 15 - x of the two pattern and the two attribute registers.
pub proof fn lemma_bg_pixel_bits(pq0: u16, pq1: u16, aq0: u16, aq1: u16, x: u16)
    requires
        x < 8,
    ensures
        spec_bg_pixel(pq0, pq1, aq0, aq1, x) as u16 == bit16(pq0, (15 - x) as u16) | (bit16(pq1, (15 - x) as u16) << 1u16)
            | (bit16(aq0, (15 - x) as u16) << 2u16) | (bit16(aq1, (15 - x) as u16) << 3u16),
{
    assert(
        ((((pq0 & (0x8000u16 >> x)) >> ((15 - x) as u16)) | ((pq1 & (0x8000u16 >> x)) >> ((14 - x) as u16))
        | ((aq0 & (0x8000u16 >> x)) >> ((13 - x) as u16)) | (((aq1 & (0x8000u16 >> x)) >> ((12 - x) as u16)) & 0xFF)) as u8) as u16
        == ((pq0 >> ((15 - x) as u16)) & 1) | (((pq1 >> ((15 - x) as u16)) & 1) << 1u16)
            | (((aq0 >> ((15 - x) as u16)) & 1) << 2u16) | (((aq1 >> ((15 - x) as u16)) & 1) << 3u16)
    ) by (bit_vector)
        requires
            x < 8,
    ;
}

/// 0xFF when bit `n` of `v` is set, 0 otherwise.
pub open spec fn spec_replicated(v: u8, n: u8) -> u16 {
    (((v >> n) & 0x01) * 0xff) as u16
}

impl Background {
    pub fn new() -> (r: Self)
        ensures
            r.pattern_queue@ == seq![0u16, 0u16],
            r.attribute_queue@ == seq![0u16, 0u16],
            r.next_pattern@ == seq![0u8, 0u8],
            r.next_tile_index == 0,
            r.next_attribute == 0,
    {
        let r = Background {
            pattern_queue: [0; 2],
            attribute_queue: [0; 2],
            next_pattern: [0; 2],
            next_attribute: 0,
            next_tile_index: 0,
        };
        assert(r.pattern_queue@ =~= seq![0u16, 0u16]);
        assert(r.attribute_queue@ =~= seq![0u16, 0u16]);
        assert(r.next_pattern@ =~= seq![0u8, 0u8]);
        r
    }

    pub fn set_next_pattern0(&mut self, data: u8)
        ensures
            final(self).next_pattern@ == old(self).next_pattern@.update(0, data),
            final(self).pattern_queue == old(self).pattern_queue,
            final(self).attribute_queue == old(self).attribute_queue,
            final(self).next_tile_index == old(self).next_tile_index,
            final(self).next_attribute == old(self).next_attribute,
    {
        self.next_pattern[PATTERN0_INDEX] = data;
    }

    pub fn set_next_pattern1(&mut self, data: u8)
        ensures
            final(self).next_pattern@ == old(self).next_pattern@.update(1, data),
            final(self).pattern_queue == old(self).pattern_queue,
            final(self).attribute_queue == old(self).attribute_queue,
            final(self).next_tile_index == old(self).next_tile_index,
            final(self).next_attribute == old(self).next_attribute,
    {
        self.next_pattern[PATTERN1_INDEX] = data;
    }

    /// The pattern table address of the next tile's row: the table chosen
    /// by PPUCTRL, the tile index, the plane `offset` and the fine y of v.
    pub open spec fn spec_pattern_address(self, ppu: Context, offset: u16) -> u16 {
        ((if ppu.control_reg.spec_bits() & 0b10000 == 0b10000 { 0x1000u16 } else { 0u16 })
            | (self.next_tile_index << 4u16) | offset | ((ppu.addr_reg.v >> 12u16) & 0x07)) & 0xFFFF
    }

    /// The background pixel the shift registers show at the dot of `ppu`: 0
    /// where the background is hidden (off, or in the left 8 pixels when
    /// those are masked).
    pub open spec fn spec_output(self, ppu: Context) -> u8 {
        let shown = (ppu.mask_reg.spec_bits() & 0b10 == 0b10 || ppu.scanline_dot >= 8)
            && ppu.mask_reg.spec_bits() & 0b1000 == 0b1000;
        if shown {
            spec_bg_pixel(self.pattern_queue@[0], self.pattern_queue@[1], self.attribute_queue@[0], self.attribute_queue@[1], ppu.addr_reg.x)
        } else {
            0u8
        }
    }

    /// The background pixel of this dot (0 where the background is hidden),
    /// then every register moves one pixel on.
    pub fn select_background_pixel(&mut self, ppu: &mut Context) -> (r: u8)
        requires
            old(ppu).addr_reg.x < 8,
        ensures
            ({
                let s = *old(self);
                &&& r == s.spec_output(*old(ppu))
                &&& final(self).pattern_queue@ == seq![s.pattern_queue@[0] << 1u16, s.pattern_queue@[1] << 1u16]
                &&& final(self).attribute_queue@ == seq![s.attribute_queue@[0] << 1u16, s.attribute_queue@[1] << 1u16]
                &&& final(self).next_pattern == s.next_pattern
                &&& final(self).next_tile_index == s.next_tile_index
                &&& final(self).next_attribute == s.next_attribute
            }),
            *final(ppu) == *old(ppu),
    {
        let pixel: u8;
        let left = ppu.mask_reg.contains(super::ppu_registers::MaskRegister::LEFTMOST_8PXL_BACKGROUND());
        let show = ppu.mask_reg.contains(super::ppu_registers::MaskRegister::SHOW_BACKGROUND());
        if (left || ppu.scanline_dot >= 8) && show {
            let x = ppu.addr_reg.x;
            let mask: u16 = 0x8000 >> x;
            pixel = (((self.pattern_queue[0] & mask) >> (15 - x)) | ((self.pattern_queue[1] & mask) >> (14 - x))
                | ((self.attribute_queue[0] & mask) >> (13 - x)) | (((self.attribute_queue[1] & mask) >> (12 - x)) & 0xFF)) as u8;
        } else {
            pixel = 0x0;
        }

        let p0 = self.pattern_queue[0] << 1;
        let p1 = self.pattern_queue[1] << 1;
        let a0 = self.attribute_queue[0] << 1;
        let a1 = self.attribute_queue[1] << 1;
        self.pattern_queue[0] = p0;
        self.pattern_queue[1] = p1;
        self.attribute_queue[0] = a0;
        self.attribute_queue[1] = a1;
        assert(self.pattern_queue@ =~= seq![p0, p1]);
        assert(self.attribute_queue@ =~= seq![a0, a1]);
        pixel
    }

    /// Loads the fetched tile into the low byte of the registers.
    pub fn update_shift_registers_render(&mut self)
        ensures
            ({
                let s = *old(self);
                &&& final(self).pattern_queue@ == seq![s.pattern_queue@[0] | (s.next_pattern@[0] as u16), s.pattern_queue@[1] | (s.next_pattern@[1] as u16)]
                &&& final(self).attribute_queue@ == seq![s.attribute_queue@[0] | spec_replicated(s.next_attribute, 0), s.attribute_queue@[1] | spec_replicated(s.next_attribute, 1)]
                &&& final(self).next_pattern == s.next_pattern
                &&& final(self).next_tile_index == s.next_tile_index
                &&& final(self).next_attribute == s.next_attribute
            }),
    {
        let p0 = self.pattern_queue[0] | self.next_pattern[0] as u16;
        let p1 = self.pattern_queue[1] | self.next_pattern[1] as u16;
        let b0 = (self.next_attribute >> 0) & 0x01;
        let b1 = (self.next_attribute >> 1) & 0x01;
        assert(b0 <= 1 && b1 <= 1) by {
            let na = self.next_attribute;
            assert((na >> 0u8) & 0x01 <= 1 && (na >> 1u8) & 0x01 <= 1) by (bit_vector);
        }
        // the bit is repeated 8 times: it covers the whole tile
        let a0 = self.attribute_queue[0] | ((b0 * 0xff) as u16);
        let a1 = self.attribute_queue[1] | ((b1 * 0xff) as u16);
        self.pattern_queue[0] = p0;
        self.pattern_queue[1] = p1;
        self.attribute_queue[0] = a0;
        self.attribute_queue[1] = a1;
        assert(self.pattern_queue@ =~= seq![p0, p1]);
        assert(self.attribute_queue@ =~= seq![a0, a1]);
    }

    /// Moves the registers on by a whole tile, then loads the next one.
    pub fn update_shift_registers_idle(&mut self)
        ensures
            ({
                let s = *old(self);
                &&& final(self).pattern_queue@ == seq![(s.pattern_queue@[0] << 8u16) | (s.next_pattern@[0] as u16), (s.pattern_queue@[1] << 8u16) | (s.next_pattern@[1] as u16)]
                &&& final(self).attribute_queue@ == seq![(s.attribute_queue@[0] << 8u16) | spec_replicated(s.next_attribute, 0), (s.attribute_queue@[1] << 8u16) | spec_replicated(s.next_attribute, 1)]
                &&& final(self).next_pattern == s.next_pattern
                &&& final(self).next_tile_index == s.next_tile_index
                &&& final(self).next_attribute == s.next_attribute
            }),
    {
        let p0 = self.pattern_queue[0] << 8;
        let p1 = self.pattern_queue[1] << 8;
        let a0 = self.attribute_queue[0] << 8;
        let a1 = self.attribute_queue[1] << 8;
        self.pattern_queue[0] = p0;
        self.pattern_queue[1] = p1;
        self.attribute_queue[0] = a0;
        self.attribute_queue[1] = a1;
        self.update_shift_registers_render();
    }

    /// The address of the low bit plane of the next tile's current row.
    pub fn pattern0_address(&mut self, ppu: &mut Context) -> (r: u16)
        ensures
            r == old(self).spec_pattern_address(*old(ppu), PATTERN0_OFFSET),
            *final(self) == *old(self),
            *final(ppu) == *old(ppu),
    {
        (ppu.control_reg.background_table_address() | (self.next_tile_index << 4) | PATTERN0_OFFSET | ppu.addr_reg.tile_line()) & 0xFFFF
    }

    /// The address of the high bit plane of the next tile's current row.
    pub fn pattern1_address(&mut self, ppu: &mut Context) -> (r: u16)
        ensures
            r == old(self).spec_pattern_address(*old(ppu), PATTERN1_OFFSET),
            *final(self) == *old(self),
            *final(ppu) == *old(ppu),
    {
        (ppu.control_reg.background_table_address() | (self.next_tile_index << 4) | PATTERN1_OFFSET | ppu.addr_reg.tile_line()) & 0xFFFF
    }
}

} // verus!
