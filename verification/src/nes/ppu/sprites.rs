//! Sprites: evaluation of primary OAM into secondary OAM, the fetch of the
//! eight sprites of the next line, and the choice of the sprite pixel.

use vstd::prelude::*;
use super::Context;
use super::ppu_registers::{MaskRegister, StatusRegister};

verus! {

pub const PATTERN0_INDEX: usize = 0;
pub const PATTERN0_OFFSET: u16 = 0;
pub const PATTERN1_INDEX: usize = 1;
pub const PATTERN1_OFFSET: u16 = 8;
pub const SPRITE_8X_SIZE: u8 = 8;
pub const SPRITE_16X_SIZE: u8 = 16;
pub const SPRITE_8X_FLIPMASK: u8 = 0b00000111;
pub const SPRITE_16X_FLIPMASK: u8 = 0b00001111;

/// An OAM address seen as sprite `n` (bits 2-7) and byte `m` (bits 0-1).
#[derive(Debug, Clone, Copy, PartialEq, Eq, Structural)]
pub struct OamIndex(pub u8);

impl OamIndex {
    /// The sprite.
    pub fn n(&self) -> (r: u8)
        ensures r == (self.0 & 0xFC) >> 2u8, r < 64,
    {
        let v = self.0;
        assert((v & 0xFC) >> 2u8 < 64) by (bit_vector);
        (self.0 & 0xFC) >> 2
    }

    /// The byte within the sprite.
    pub fn m(&self) -> (r: u8)
        ensures r == self.0 & 0x3, r < 4,
    {
        let v = self.0;
        assert(v & 0x3 < 4) by (bit_vector);
        self.0 & 0x3
    }

    pub fn increment(&mut self)
        ensures final(self).0 == old(self).0.wrapping_add(1),
    {
        self.0 = self.0.wrapping_add(1);
    }

    /// Next sprite, same byte (wraps after sprite 63).
    pub fn increment_n(&mut self)
        ensures final(self).0 == (old(self).0 & 0x03) | (old(self).0 & 0xFC).wrapping_add(4),
    {
        self.0 = (self.0 & 0x03) | (self.0 & 0xFC).wrapping_add(4);
    }

    /// Next byte of the same sprite; a carry out of the byte field is kept
    /// as it falls.
    pub fn increment_m(&mut self)
        ensures final(self).0 == (old(self).0 & 0xFC) | (old(self).0 & 0x03).wrapping_add(1),
    {
        self.0 = (self.0 & 0xFC) | (self.0 & 0x03).wrapping_add(1);
    }
}

/// Stepping sprite by sprite visits every one of the 64 sprites and keeps
/// the byte field.
pub proof fn lemma_increment_n_steps(i: u8)
    ensures
        ((i & 0x03) | (i & 0xFC).wrapping_add(4)) & 0x03 == i & 0x03,
        (((i & 0x03) | (i & 0xFC).wrapping_add(4)) & 0xFC) >> 2u8 == (((i & 0xFC) >> 2u8) + 1) % 64,
{
    assert(((i & 0x03) | (i & 0xFC).wrapping_add(4)) & 0x03 == i & 0x03
        && (((i & 0x03) | (i & 0xFC).wrapping_add(4)) & 0xFC) >> 2u8 == (((i & 0xFC) >> 2u8) + 1) % 64) by (bit_vector);
}

#[derive(Debug, Clone, Copy, PartialEq, Eq, Structural)]
pub enum EvalState {
    StateYRead,
    StateYWrite,
    StateIndexRead,
    StateIndexWrite,
    StateAttribRead,
    StateYAttribWrite,
    StateXRead,
    StateXWrite,
    StateSecondaryOamFull,
    StateOamIndexOverflow,
}

/// A sprite's attribute byte.
///
/// bits 0-1 palette (4 to 7), bit 5 priority (behind the background),
/// bit 6 horizontal flip, bit 7 vertical flip.
#[derive(Debug, Clone, Copy, PartialEq, Eq, Structural)]
pub struct SpriteAttribute {
    bits: u8,
}

impl SpriteAttribute {
    pub closed spec fn spec_bits(&self) -> u8 {
        self.bits
    }

    pub fn from_bits_truncate(bits: u8) -> (r: Self)
        ensures r.spec_bits() == bits & 0b11100011,
    {
        SpriteAttribute { bits: bits & 0b11100011 }
    }

    pub fn bits(&self) -> (r: u8)
        ensures r == self.spec_bits(),
    {
        self.bits
    }

    pub fn new() -> (r: Self)
        ensures r.spec_bits() == 0b11100011,
    {
        SpriteAttribute { bits: 0b11100011 }
    }

    /// The sprite palette, 0 to 3.
    pub fn pallete_index(&self) -> (r: u8)
        ensures r == self.spec_bits() & 0x03,
    {
        let b = self.bits;
        assert(b & 0x03 == (if b & 0b10 == 0b10 { 2u8 } else { 0u8 }) + (if b & 0b01 == 0b01 { 1u8 } else { 0u8 })) by (bit_vector);
        match (self.bits & 0b10 == 0b10, self.bits & 0b01 == 0b01) {
            (false, false) => 0,
            (false, true) => 1,
            (true, false) => 2,
            (true, true) => 3,
        }
    }

    pub fn hflip(&self) -> (r: bool)
        ensures r == (self.spec_bits() & 0b01000000 == 0b01000000),
    {
        self.bits & 0b01000000 == 0b01000000
    }

    pub fn vflip(&self) -> (r: bool)
        ensures r == (self.spec_bits() & 0b10000000 == 0b10000000),
    {
        self.bits & 0b10000000 == 0b10000000
    }

    pub fn infront_of_background(&self) -> (r: bool)
        ensures r == !(self.spec_bits() & 0b00100000 == 0b00100000),
    {
        !(self.bits & 0b00100000 == 0b00100000)
    }

    pub fn behind_background(&self) -> (r: bool)
        ensures r == (self.spec_bits() & 0b00100000 == 0b00100000),
    {
        self.bits & 0b00100000 == 0b00100000
    }
}

/// `b` is `a` after a fetched pattern byte is stored as bit plane `plane`
/// of the sprite that fetch dot `dot` serves (flipped for a horizontally
/// flipped sprite); the other sprites stay.
pub open spec fn spec_pattern_stored(a: Sprites, b: Sprites, dot: u16, plane: int, data: u8) -> bool {
    let i = spec_fetch_index(dot) as int;
    let s = a.sprite_data@[i];
    let d = if s.attribute.spec_bits() & 0b01000000 == 0b01000000 { spec_reverse_bits(data) } else { data };
    &&& b.sprite_data@[i] == (SpriteData { pattern: b.sprite_data@[i].pattern, ..s })
    &&& b.sprite_data@[i].pattern@ == s.pattern@.update(plane, d)
    &&& forall|j: int| 0 <= j < 8 && j != i ==> b.sprite_data@[j] == a.sprite_data@[j]
    &&& b.secondary_oam == a.secondary_oam
    &&& b.sprites_count == a.sprites_count
    &&& b.left_most_x == a.left_most_x
}

/// The 2 bit pixel sprite `spr` has at pixel `index` of the line (0 where
/// the sprite does not cover it; a y of $FF marks an empty slot).
pub open spec fn spec_sprite_pixel_of(spr: SpriteData, index: u16) -> u8 {
    if spr.y_pos != 0xFF && spr.x_pos as u16 <= index && index < spr.x_pos as u16 + 8 {
        let shift = (7 - (index - spr.x_pos as u16)) as u8;
        ((spr.pattern@[0] >> shift) & 0x01) | (((spr.pattern@[1] >> shift) << 1u8) & 0x02)
    } else {
        0u8
    }
}

/// One of the eight sprites fetched for a line.
#[derive(Debug, Clone, Copy)]
pub struct SpriteData {
    pub y_pos: u8,
    pub x_pos: u8,
    pub tile_index: u8,
    pub attribute: SpriteAttribute,
    pub pattern: [u8; 2],
}

impl SpriteData {
    /// An empty slot: every byte 0xFF.
    pub open spec fn spec_is_new(self) -> bool {
        &&& self.y_pos == 0xFF
        &&& self.x_pos == 0xFF
        &&& self.tile_index == 0xFF
        &&& self.attribute.spec_bits() == 0b11100011
        &&& self.pattern@ == seq![0xFFu8, 0xFFu8]
    }

    pub fn new() -> (r: Self)
        ensures
            r.spec_is_new(),
    {
        let r = SpriteData {
            y_pos: 0xFF,
            x_pos: 0xFF,
            tile_index: 0xFF,
            attribute: SpriteAttribute::new(),
            pattern: [0xFF; 2],
        };
        assert(r.pattern@ =~= seq![0xFFu8, 0xFFu8]);
        r
    }
}

/// The bits of `d` in reverse order.
pub open spec fn spec_reverse_bits(d: u8) -> u8 {
    ((d & 0x01) << 7u8) | ((d & 0x02) << 5u8) | ((d & 0x04) << 3u8) | ((d & 0x08) << 1u8)
        | ((d & 0x10) >> 1u8) | ((d & 0x20) >> 3u8) | ((d & 0x40) >> 5u8) | ((d & 0x80) >> 7u8)
}

/// The bits of `d` in reverse order (a horizontally flipped sprite row).
pub fn reverse_bits(d: u8) -> (r: u8)
    ensures r == spec_reverse_bits(d),
{
    ((d & 0x01) << 7) | ((d & 0x02) << 5) | ((d & 0x04) << 3) | ((d & 0x08) << 1)
        | ((d & 0x10) >> 1) | ((d & 0x20) >> 3) | ((d & 0x40) >> 5) | ((d & 0x80) >> 7)
}

/// Flipping a row twice gives it back.
pub proof fn lemma_reverse_bits_involution(d: u8)
    ensures
        spec_reverse_bits(spec_reverse_bits(d)) == d,
{
    assert(spec_reverse_bits(spec_reverse_bits(d)) == d) by (bit_vector);
}

#[derive(Debug, Clone, Copy)]
pub struct Sprites {
    pub secondary_oam: [u8; 32],
    pub sprite_data: [SpriteData; 8],
    pub sprites_count: u8,
    pub next_sprites_count: u8,
    pub primary_oam_index: OamIndex,
    pub sprite_data_index: u8,
    pub left_most_x: u8,
    pub next_left_most_x: u8,
    pub eval_state: EvalState,
}

/// Raising a flag keeps it raised and leaves the other bits.
pub proof fn lemma_set_flag(b: u8, m: u8)
    ensures
        (b | m) & m == m,
        (b | m) & !m == b & !m,
        b & m == m ==> (b | m) & m == m,
{
    assert((b | m) & m == m && (b | m) & !m == b & !m) by (bit_vector);
}

/// The states that copy a sprite into secondary OAM.
pub open spec fn is_copy_state(s: EvalState) -> bool {
    !(s is StateSecondaryOamFull) && !(s is StateOamIndexOverflow)
}

/// The sprite that dot `dot` of the fetch phase works on.
pub open spec fn spec_fetch_index(dot: u16) -> u16 {
    (((dot - 1) as u16) >> 3u16) & 0x07
}

/// The sprite number taken from a dot count is one of the eight slots.
pub proof fn lemma_fetch_index_bounded(d: u16)
    ensures
        (d >> 3u16) & 0x07 < 8,
{
    assert((d >> 3u16) & 0x07 < 8) by (bit_vector);
}

/// Whether a sprite at `y_pos` covers `scanline`, for sprites `size` high.
pub open spec fn spec_in_range(scanline: u16, size: u16, y_pos: u16) -> bool {
    scanline.wrapping_sub(y_pos) < size
}

/// OAM address `i` moved to the next sprite, byte kept.
pub open spec fn spec_next_n(i: u8) -> u8 {
    (i & 0x03) | (i & 0xFC).wrapping_add(4)
}

/// OAM address `i` moved to the next byte (a carry out of the byte field is
/// kept).
pub open spec fn spec_next_m(i: u8) -> u8 {
    (i & 0xFC) | (i & 0x03).wrapping_add(1)
}

/// One dot of sprite evaluation from `s` on line `ppu.scanline_index`: the
/// sprite unit after it, and whether it raised the sprite overflow flag.
///
/// A Y byte in range starts the copy of its sprite into the next free slot
/// of secondary OAM (as the row the line falls on), the tile, attribute and
/// X bytes follow on the next write dots, and the X write counts the sprite
/// and moves to the next one; a Y byte out of range skips to the next
/// sprite. With eight sprites found, the search for a ninth steps through
/// OAM with the hardware's bug (the byte index moves along with the sprite
/// index). Evaluation stops when the sprite index wraps.
pub open spec fn spec_evaluate(s: Sprites, ppu: Context) -> (Sprites, bool) {
    let size: u16 = if ppu.control_reg.spec_bits() & 0b100000 == 0b100000 { 16 } else { 8 };
    let slot = s.next_sprites_count * 4;
    let idx = s.primary_oam_index.0;
    let oam = ppu.oam_ram_primary@;
    let next_n = spec_next_n(idx);
    match s.eval_state {
        EvalState::StateYRead => (Sprites { eval_state: EvalState::StateYWrite, ..s }, false),
        EvalState::StateYWrite => {
            let data = oam[idx as int];
            if spec_in_range(ppu.scanline_index, size, data as u16) {
                (Sprites {
                    secondary_oam: vstd::array::spec_array_update(s.secondary_oam, slot,
                        ppu.scanline_index.wrapping_sub(data as u16) as u8),
                    eval_state: EvalState::StateIndexRead,
                    ..s
                }, false)
            } else {
                (Sprites {
                    primary_oam_index: OamIndex(next_n),
                    eval_state: if next_n == 0 { EvalState::StateOamIndexOverflow } else { EvalState::StateYWrite },
                    ..s
                }, false)
            }
        },
        EvalState::StateIndexRead => (Sprites { eval_state: EvalState::StateIndexWrite, ..s }, false),
        EvalState::StateIndexWrite => (Sprites {
            secondary_oam: vstd::array::spec_array_update(s.secondary_oam, slot + 1, oam[idx.wrapping_add(1) as int]),
            eval_state: EvalState::StateAttribRead,
            ..s
        }, false),
        EvalState::StateAttribRead => (Sprites { eval_state: EvalState::StateYAttribWrite, ..s }, false),
        EvalState::StateYAttribWrite => (Sprites {
            secondary_oam: vstd::array::spec_array_update(s.secondary_oam, slot + 2, oam[idx.wrapping_add(2) as int]),
            eval_state: EvalState::StateXRead,
            ..s
        }, false),
        EvalState::StateXRead => (Sprites { eval_state: EvalState::StateXWrite, ..s }, false),
        EvalState::StateXWrite => {
            let data = oam[idx.wrapping_add(3) as int];
            let count = (s.next_sprites_count + 1) as u8;
            (Sprites {
                secondary_oam: vstd::array::spec_array_update(s.secondary_oam, slot + 3, data),
                next_left_most_x: if data < s.next_left_most_x { data } else { s.next_left_most_x },
                next_sprites_count: count,
                primary_oam_index: OamIndex(next_n),
                eval_state: if next_n == 0 {
                    EvalState::StateOamIndexOverflow
                } else if count >= 8 {
                    EvalState::StateSecondaryOamFull
                } else {
                    EvalState::StateYRead
                },
                ..s
            }, false)
        },
        EvalState::StateSecondaryOamFull => {
            let data = oam[idx as int];
            if spec_in_range(ppu.scanline_index, size, data as u16) {
                let i = idx.wrapping_add(1);
                (Sprites {
                    primary_oam_index: OamIndex(i),
                    eval_state: if i == 0 { EvalState::StateOamIndexOverflow } else { EvalState::StateSecondaryOamFull },
                    ..s
                }, true)
            } else {
                let i = spec_next_n(spec_next_m(idx));
                (Sprites {
                    primary_oam_index: OamIndex(i),
                    eval_state: if (i & 0xFC) >> 2u8 == 0 { EvalState::StateOamIndexOverflow } else { EvalState::StateSecondaryOamFull },
                    ..s
                }, false)
            }
        },
        EvalState::StateOamIndexOverflow => (Sprites { primary_oam_index: OamIndex(next_n), ..s }, false),
    }
}

impl Sprites {
    /// The counts fit the eight sprite slots; while copying, a slot is free.
    pub open spec fn wf(&self) -> bool {
        &&& self.sprites_count <= 8
        &&& self.next_sprites_count <= 8
        &&& is_copy_state(self.eval_state) ==> self.next_sprites_count < 8
    }

    pub fn new() -> (r: Self)
        ensures
            r.wf(),
            r.secondary_oam@ == Seq::new(32, |i: int| 0xFFu8),
            r.sprites_count == 0,
            r.next_sprites_count == 0,
            r.primary_oam_index == OamIndex(0),
            r.left_most_x == 0xFF,
            r.next_left_most_x == 0xFF,
            r.eval_state == EvalState::StateYRead,
            r.sprite_data_index == 0,
            forall|i: int| 0 <= i < 8 ==> #[trigger] r.sprite_data@[i].spec_is_new(),
    {
        let r = Sprites {
            secondary_oam: [0xFF; 32],
            sprite_data: [SpriteData::new(), SpriteData::new(), SpriteData::new(), SpriteData::new(),
                SpriteData::new(), SpriteData::new(), SpriteData::new(), SpriteData::new()],
            sprites_count: 0,
            next_sprites_count: 0,
            primary_oam_index: OamIndex(0x0),
            sprite_data_index: 0,
            left_most_x: 0xFF,
            next_left_most_x: 0xFF,
            eval_state: EvalState::StateYRead,
        };
        assert(r.secondary_oam@ =~= Seq::new(32, |i: int| 0xFFu8));
        r
    }

    /// Whether a sprite at `y_pos` covers the current line.
    fn sprite_in_range(&self, ppu: &Context, sprite_size: u16, y_pos: u16) -> (r: bool)
        ensures r == spec_in_range(ppu.scanline_index, sprite_size, y_pos),
    {
        // sprite evaluation is for the next scanline
        let sprite_line = ppu.scanline_index.wrapping_sub(y_pos);
        sprite_line < sprite_size
    }

    /// Starts an evaluation at OAM address `oam_addr` with an empty
    /// secondary OAM.
    /// Secondary OAM cleared for a new evaluation that starts at OAM
    /// address `oam_addr`.
    pub open spec fn spec_cleared(s0: Sprites, s1: Sprites, oam_addr: u8) -> bool {
        &&& s1.secondary_oam@ == Seq::new(32, |i: int| 0xFFu8)
        &&& s1 == (Sprites {
                secondary_oam: s1.secondary_oam,
                primary_oam_index: OamIndex(oam_addr),
                next_sprites_count: 0,
                next_left_most_x: 0xFF,
                eval_state: EvalState::StateYRead,
                ..s0
            })
    }

    pub fn clear_secondary_oam(&mut self, oam_addr: u8)
        requires
            old(self).wf(),
        ensures
            Sprites::spec_cleared(*old(self), *final(self), oam_addr),
            final(self).wf(),
            final(self).primary_oam_index == OamIndex(oam_addr),
            final(self).next_sprites_count == 0,
            final(self).next_left_most_x == 0xFF,
            final(self).eval_state == EvalState::StateYRead,
            final(self).secondary_oam@ == Seq::new(32, |i: int| 0xFFu8),
            final(self).sprites_count == old(self).sprites_count,
            final(self).left_most_x == old(self).left_most_x,
            final(self).sprite_data == old(self).sprite_data,
    {
        self.primary_oam_index = OamIndex(oam_addr);
        self.next_sprites_count = 0;
        self.next_left_most_x = 0xFF;
        self.eval_state = EvalState::StateYRead;
        let mut i: usize = 0;
        while i < 32
            invariant
                i <= 32,
                self.secondary_oam@.len() == 32,
                forall|j: int| 0 <= j < i ==> self.secondary_oam@[j] == 0xFFu8,
                self.primary_oam_index == OamIndex(oam_addr),
                self.next_sprites_count == 0,
                self.next_left_most_x == 0xFF,
                self.eval_state == EvalState::StateYRead,
                self.sprites_count == old(self).sprites_count,
                self.left_most_x == old(self).left_most_x,
                self.sprite_data == old(self).sprite_data,
                self.sprites_count <= 8,
                *self == (Sprites {
                    secondary_oam: self.secondary_oam,
                    primary_oam_index: OamIndex(oam_addr),
                    next_sprites_count: 0,
                    next_left_most_x: 0xFF,
                    eval_state: EvalState::StateYRead,
                    ..*old(self)
                }),
            decreases 32 - i,
        {
            self.secondary_oam[i] = 0xFF;
            i = i + 1;
        }
        assert(self.secondary_oam@ =~= Seq::new(32, |i: int| 0xFFu8));
    }

    /// One dot of sprite evaluation (dots 65 to 256): reads alternate with
    /// writes; sprites on the next line are copied to secondary OAM until
    /// eight are found, then the (buggy) overflow search runs.
    pub fn evaluate(&mut self, ppu: &mut Context)
        requires
            old(self).wf(),
        ensures
            final(self).wf(),
            final(ppu).oam_addr_reg == old(self).primary_oam_index.0,
            final(self).next_sprites_count >= old(self).next_sprites_count,
            final(self).next_sprites_count <= old(self).next_sprites_count + 1,
            final(self).sprites_count == old(self).sprites_count,
            final(self).sprite_data == old(self).sprite_data,
            final(self).left_most_x == old(self).left_most_x,
            final(self).next_left_most_x <= old(self).next_left_most_x,
            old(ppu).status_reg.spec_bits() & 0x20 == 0x20 ==> final(ppu).status_reg.spec_bits() & 0x20 == 0x20,
            !(old(self).eval_state is StateSecondaryOamFull) ==> final(ppu).status_reg == old(ppu).status_reg,
            // secondary OAM only changes in the slot being filled
            forall|j: int| 0 <= j < 32 && (j < old(self).next_sprites_count * 4 || j >= old(self).next_sprites_count * 4 + 4)
                ==> final(self).secondary_oam@[j] == old(self).secondary_oam@[j],
            *final(ppu) == (Context { oam_addr_reg: final(ppu).oam_addr_reg, status_reg: final(ppu).status_reg, ..*old(ppu) }),
            *final(self) == spec_evaluate(*old(self), *old(ppu)).0,
            final(ppu).status_reg.spec_bits() == (if spec_evaluate(*old(self), *old(ppu)).1 {
                old(ppu).status_reg.spec_bits() | 0x20
            } else {
                old(ppu).status_reg.spec_bits()
            }),
    {
        // OAMDATA exposes the OAM accesses during evaluation
        ppu.oam_addr_reg = self.primary_oam_index.0;
        let sprite_size: u16 = if ppu.control_reg.tall_sprites() { 16 } else { 8 };
        let slot = (self.next_sprites_count as usize) * 4;
        let idx = self.primary_oam_index.0;

        match self.eval_state {
            EvalState::StateYRead => {
                self.eval_state = EvalState::StateYWrite;
            }
            EvalState::StateYWrite => {
                let data = ppu.oam_ram_primary[idx as usize];
                if self.sprite_in_range(ppu, sprite_size, data as u16) {
                    let sprite_line = ppu.scanline_index.wrapping_sub(data as u16);
                    self.secondary_oam[slot] = sprite_line as u8;
                    self.eval_state = EvalState::StateIndexRead;
                } else {
                    self.primary_oam_index.increment_n();
                    if self.primary_oam_index.0 == 0 {
                        self.eval_state = EvalState::StateOamIndexOverflow;
                    }
                }
            }
            EvalState::StateIndexRead => {
                self.eval_state = EvalState::StateIndexWrite;
            }
            EvalState::StateIndexWrite => {
                let data = ppu.oam_ram_primary[idx.wrapping_add(1) as usize];
                self.secondary_oam[slot + 1] = data;
                self.eval_state = EvalState::StateAttribRead;
            }
            EvalState::StateAttribRead => {
                self.eval_state = EvalState::StateYAttribWrite;
            }
            EvalState::StateYAttribWrite => {
                let data = ppu.oam_ram_primary[idx.wrapping_add(2) as usize];
                self.secondary_oam[slot + 2] = data;
                self.eval_state = EvalState::StateXRead;
            }
            EvalState::StateXRead => {
                self.eval_state = EvalState::StateXWrite;
            }
            EvalState::StateXWrite => {
                let data = ppu.oam_ram_primary[idx.wrapping_add(3) as usize];
                self.secondary_oam[slot + 3] = data;
                if data < self.next_left_most_x {
                    self.next_left_most_x = data;
                }
                self.eval_state = EvalState::StateYRead;
                // eight sprites found?
                self.next_sprites_count = self.next_sprites_count + 1;
                if self.next_sprites_count >= 8 {
                    self.eval_state = EvalState::StateSecondaryOamFull;
                }
                self.primary_oam_index.increment_n();
                if self.primary_oam_index.0 == 0 {
                    self.eval_state = EvalState::StateOamIndexOverflow;
                }
            }
            EvalState::StateSecondaryOamFull => {
                // eight sprites already: look for a ninth (sprite overflow)
                let data = ppu.oam_ram_primary[idx as usize];
                if self.sprite_in_range(ppu, sprite_size, data as u16) {
                    let ghost old_bits = ppu.status_reg.spec_bits();
                    ppu.status_reg.set(StatusRegister::SPRITE_OVERFLOW(), true);
                    proof {
                        lemma_set_flag(old_bits, 0x20);
                    }
                    self.primary_oam_index.increment();
                    if self.primary_oam_index.0 == 0 {
                        self.eval_state = EvalState::StateOamIndexOverflow;
                    }
                } else {
                    self.primary_oam_index.increment_m();
                    self.primary_oam_index.increment_n();
                    if self.primary_oam_index.n() == 0 {
                        self.eval_state = EvalState::StateOamIndexOverflow;
                    }
                }
            }
            EvalState::StateOamIndexOverflow => {
                self.primary_oam_index.increment_n();
            }
        }
    }

    /// The sprite of the current fetch dot (257 to 320) is copied from
    /// secondary OAM; a vertically flipped sprite has its row flipped.
    /// The sprite of fetch dot `ppu.scanline_dot` taken from secondary OAM
    /// into the sprite slots (`s0` before, `s1` after), the count and the
    /// leftmost x of the next line taken over.
    pub open spec fn spec_sprite_fetched(s0: Sprites, s1: Sprites, ppu: Context) -> bool {
        &&& s1 == (Sprites {
                sprites_count: s0.next_sprites_count,
                left_most_x: s0.next_left_most_x,
                sprite_data: s1.sprite_data,
                ..s0
            })
        &&& ({
                let i = spec_fetch_index(ppu.scanline_dot) as int;
                let y = s0.secondary_oam@[i * 4];
                let s = s1.sprite_data@[i];
                &&& i < s0.next_sprites_count ==> {
                    let attr = s0.secondary_oam@[i * 4 + 2] & 0b11100011;
                    &&& s.tile_index == s0.secondary_oam@[i * 4 + 1]
                    &&& s.attribute.spec_bits() == attr
                    &&& s.x_pos == s0.secondary_oam@[i * 4 + 3]
                    &&& s.y_pos == (if attr & 0x80 == 0x80 {
                            if ppu.control_reg.spec_bits() & 0b100000 == 0b100000 { y ^ SPRITE_16X_FLIPMASK } else { y ^ SPRITE_8X_FLIPMASK }
                        } else {
                            y
                        })
                    &&& s.pattern == s0.sprite_data@[i].pattern
                }
                &&& i >= s0.next_sprites_count ==> s == (SpriteData { y_pos: y, ..s0.sprite_data@[i] })
                &&& forall|j: int| 0 <= j < 8 && j != i ==> s1.sprite_data@[j] == s0.sprite_data@[j]
            })
    }

    pub fn fetch_sprite_data(&mut self, ppu: &mut Context)
        requires
            old(self).wf(),
            old(ppu).scanline_dot >= 1,
        ensures
            Sprites::spec_sprite_fetched(*old(self), *final(self), *old(ppu)),
            final(self).wf(),
            final(self).sprites_count == old(self).next_sprites_count,
            final(self).left_most_x == old(self).next_left_most_x,
            ({
                let i = spec_fetch_index(old(ppu).scanline_dot) as int;
                let y = old(self).secondary_oam@[i * 4];
                let s = final(self).sprite_data@[i];
                &&& i < old(self).next_sprites_count ==> {
                    let attr = old(self).secondary_oam@[i * 4 + 2] & 0b11100011;
                    &&& s.tile_index == old(self).secondary_oam@[i * 4 + 1]
                    &&& s.attribute.spec_bits() == attr
                    &&& s.x_pos == old(self).secondary_oam@[i * 4 + 3]
                    &&& s.y_pos == (if attr & 0x80 == 0x80 {
                            if old(ppu).control_reg.spec_bits() & 0b100000 == 0b100000 { y ^ SPRITE_16X_FLIPMASK } else { y ^ SPRITE_8X_FLIPMASK }
                        } else {
                            y
                        })
                    &&& s.pattern == old(self).sprite_data@[i].pattern
                }
                &&& i >= old(self).next_sprites_count ==> s == (SpriteData { y_pos: y, ..old(self).sprite_data@[i] })
                &&& forall|j: int| 0 <= j < 8 && j != i ==> final(self).sprite_data@[j] == old(self).sprite_data@[j]
            }),
            final(self).secondary_oam == old(self).secondary_oam,
            final(self).next_sprites_count == old(self).next_sprites_count,
            final(self).eval_state == old(self).eval_state,
            final(self).primary_oam_index == old(self).primary_oam_index,
            *final(ppu) == *old(ppu),
    {
        self.left_most_x = self.next_left_most_x;
        self.sprites_count = self.next_sprites_count;

        let i = ((ppu.scanline_dot - 1) >> 3) & 0x07;
        let dot1 = ppu.scanline_dot - 1;
        proof {
            lemma_fetch_index_bounded(dot1);
        }
        let iu = i as usize;
        let y = self.secondary_oam[iu * 4];
        let mut spr = self.sprite_data[iu];
        spr.y_pos = y;
        if i < (self.sprites_count as u16) {
            spr.tile_index = self.secondary_oam[iu * 4 + 1];
            spr.attribute = SpriteAttribute::from_bits_truncate(self.secondary_oam[iu * 4 + 2]);
            spr.x_pos = self.secondary_oam[iu * 4 + 3];

            if spr.attribute.vflip() && ppu.control_reg.tall_sprites() {
                spr.y_pos = spr.y_pos ^ SPRITE_16X_FLIPMASK;
            } else if spr.attribute.vflip() {
                spr.y_pos = spr.y_pos ^ SPRITE_8X_FLIPMASK;
            }
        }
        self.sprite_data[iu] = spr;
    }

    /// The pattern address of bit plane `offset` (0 or 8) of the current
    /// fetch sprite; sprites past the count fetch tile $FF.
    pub open spec fn spec_pattern_address(&self, ppu: Context, offset: u16) -> u16 {
        let i = spec_fetch_index(ppu.scanline_dot) as int;
        let tall = ppu.control_reg.spec_bits() & 0b100000 == 0b100000;
        let table: u16 = if ppu.control_reg.spec_bits() & 0b1000 == 0b1000 { 0x1000 } else { 0 };
        let tile: u16 = if i < self.sprites_count { self.sprite_data@[i].tile_index as u16 } else { 0xFF };
        let y: u16 = if i < self.sprites_count { self.sprite_data@[i].y_pos as u16 } else { 0xFF };
        if tall {
            (((tile & 1) << 12u16) | ((tile & 0xfe) << 4u16) | offset | (y & 7) | ((y & 0x08) << 1u16)) & 0xffff
        } else {
            (table | (tile << 4u16) | offset | y) & 0xffff
        }
    }

    fn pattern_address(&self, ppu: &Context, offset: u16) -> (r: u16)
        requires
            self.wf(),
            ppu.scanline_dot >= 1,
        ensures
            r == self.spec_pattern_address(*ppu, offset),
    {
        let i = ((ppu.scanline_dot - 1) >> 3) & 0x07;
        let dot1 = ppu.scanline_dot - 1;
        proof {
            lemma_fetch_index_bounded(dot1);
        }
        let (tile, y) = if i < (self.sprites_count as u16) {
            let spr = self.sprite_data[i as usize];
            (spr.tile_index as u16, spr.y_pos as u16)
        } else {
            // dummy fetch of tile $FF
            (0xFFu16, 0xFFu16)
        };
        if ppu.control_reg.tall_sprites() {
            (((tile & 1) << 12) | ((tile & 0xfe) << 4) | offset | (y & 7) | ((y & 0x08) << 1)) & 0xffff
        } else {
            (ppu.control_reg.sprite_table_address() | (tile << 4) | offset | y) & 0xffff
        }
    }

    /// The address of the low bit plane of the current fetch sprite's row.
    pub fn pattern0_address(&mut self, ppu: &mut Context) -> (r: u16)
        requires
            old(self).wf(),
            old(ppu).scanline_dot >= 1,
        ensures
            r == old(self).spec_pattern_address(*old(ppu), PATTERN0_OFFSET),
            *final(self) == *old(self),
            *final(ppu) == *old(ppu),
    {
        self.pattern_address(ppu, PATTERN0_OFFSET)
    }

    /// The address of the high bit plane of the current fetch sprite's row.
    pub fn pattern1_address(&mut self, ppu: &mut Context) -> (r: u16)
        requires
            old(self).wf(),
            old(ppu).scanline_dot >= 1,
        ensures
            r == old(self).spec_pattern_address(*old(ppu), PATTERN1_OFFSET),
            *final(self) == *old(self),
            *final(ppu) == *old(ppu),
    {
        self.pattern_address(ppu, PATTERN1_OFFSET)
    }

    fn set_pattern(&mut self, ppu: &Context, plane: usize, data: u8)
        requires
            old(self).wf(),
            ppu.scanline_dot >= 1,
            plane < 2,
        ensures
            final(self).wf(),
            ({
                let i = spec_fetch_index(ppu.scanline_dot) as int;
                let s = old(self).sprite_data@[i];
                let d = if s.attribute.spec_bits() & 0b01000000 == 0b01000000 { spec_reverse_bits(data) } else { data };
                &&& final(self).sprite_data@[i] == (SpriteData { pattern: final(self).sprite_data@[i].pattern, ..s })
                &&& final(self).sprite_data@[i].pattern@ == s.pattern@.update(plane as int, d)
                &&& forall|j: int| 0 <= j < 8 && j != i ==> final(self).sprite_data@[j] == old(self).sprite_data@[j]
            }),
            final(self).secondary_oam == old(self).secondary_oam,
            final(self).sprites_count == old(self).sprites_count,
            final(self).next_sprites_count == old(self).next_sprites_count,
            final(self).left_most_x == old(self).left_most_x,
            final(self).next_left_most_x == old(self).next_left_most_x,
            final(self).eval_state == old(self).eval_state,
            final(self).primary_oam_index == old(self).primary_oam_index,
    {
        let i = ((ppu.scanline_dot - 1) >> 3) & 0x07;
        let dot1 = ppu.scanline_dot - 1;
        proof {
            lemma_fetch_index_bounded(dot1);
        }
        let mut spr = self.sprite_data[i as usize];
        let d = if spr.attribute.hflip() { reverse_bits(data) } else { data };
        spr.pattern[plane] = d;
        self.sprite_data[i as usize] = spr;
    }

    /// Stores the fetched low bit plane (flipped for a horizontally flipped
    /// sprite).
    pub fn set_pattern0(&mut self, ppu: &mut Context, data: u8)
        requires
            old(self).wf(),
            old(ppu).scanline_dot >= 1,
        ensures
            final(self).wf(),
            ({
                let i = spec_fetch_index(old(ppu).scanline_dot) as int;
                let s = old(self).sprite_data@[i];
                let d = if s.attribute.spec_bits() & 0b01000000 == 0b01000000 { spec_reverse_bits(data) } else { data };
                &&& final(self).sprite_data@[i].pattern@ == s.pattern@.update(0, d)
                &&& forall|j: int| 0 <= j < 8 && j != i ==> final(self).sprite_data@[j] == old(self).sprite_data@[j]
            }),
            spec_pattern_stored(*old(self), *final(self), old(ppu).scanline_dot, 0, data),
            *final(ppu) == *old(ppu),
    {
        self.set_pattern(ppu, PATTERN0_INDEX, data);
    }

    /// Stores the fetched high bit plane (flipped for a horizontally flipped
    /// sprite).
    pub fn set_pattern1(&mut self, ppu: &mut Context, data: u8)
        requires
            old(self).wf(),
            old(ppu).scanline_dot >= 1,
        ensures
            final(self).wf(),
            ({
                let i = spec_fetch_index(old(ppu).scanline_dot) as int;
                let s = old(self).sprite_data@[i];
                let d = if s.attribute.spec_bits() & 0b01000000 == 0b01000000 { spec_reverse_bits(data) } else { data };
                &&& final(self).sprite_data@[i].pattern@ == s.pattern@.update(1, d)
                &&& forall|j: int| 0 <= j < 8 && j != i ==> final(self).sprite_data@[j] == old(self).sprite_data@[j]
            }),
            spec_pattern_stored(*old(self), *final(self), old(ppu).scanline_dot, 1, data),
            *final(ppu) == *old(ppu),
    {
        self.set_pattern(ppu, PATTERN1_INDEX, data);
    }

    /// Whether sprites are drawn at pixel `index` of the line: a sprite
    /// starts at or before it, sprites are shown, and the left 8 pixels are
    /// not masked.
    pub open spec fn spec_sprites_drawn(&self, ppu: Context, index: u16) -> bool {
        let bits = ppu.mask_reg.spec_bits();
        &&& self.left_most_x as u16 <= index
        &&& (bits & 0b100 == 0b100 || index >= 8)
        &&& bits & 0b10000 == 0b10000
    }

    /// The first of the line's sprites, from `i` on, with an opaque pixel
    /// at `index`.
    pub open spec fn spec_first_opaque(&self, index: u16, i: int) -> Option<int>
        decreases 8 - i,
    {
        if i < 0 || i >= self.sprites_count || i >= 8 {
            None
        } else if spec_sprite_pixel_of(self.sprite_data@[i], index) & 0x03 > 0 {
            Some(i)
        } else {
            self.spec_first_opaque(index, i + 1)
        }
    }

    /// The pixel drawn over background pixel `bg` at the dot of `ppu`: the
    /// first opaque sprite wins, with its palette (bit 4 set); it shows
    /// unless it is behind an opaque background pixel.
    pub open spec fn spec_output(&self, ppu: Context, bg: u8) -> u8 {
        let index = (ppu.scanline_dot - 1) as u16;
        if self.spec_sprites_drawn(ppu, index) {
            match self.spec_first_opaque(index, 0) {
                Some(j) => {
                    let spr = self.sprite_data@[j];
                    let a = spr.attribute.spec_bits();
                    if !(a & 0b00100000 == 0b00100000) || bg & 0x03 == 0 {
                        ((0x10u8 | spec_sprite_pixel_of(spr, index) | ((a & 0x03) << 2u8)) & 0xffu8) as u8
                    } else {
                        bg
                    }
                },
                None => bg,
            }
        } else {
            bg
        }
    }

    /// Sprite 0 hit at the dot of `ppu`: sprite 0 is opaque over an opaque
    /// background pixel, not on the rightmost pixel.
    pub open spec fn spec_zero_hit(&self, ppu: Context, bg: u8) -> bool {
        let index = (ppu.scanline_dot - 1) as u16;
        &&& self.spec_sprites_drawn(ppu, index)
        &&& self.spec_first_opaque(index, 0) == Some(0int)
        &&& index < 255
        &&& bg & 0x03 > 0
    }

    /// The pixel of this dot once sprites are drawn over `bg_pixel`: the
    /// first opaque sprite wins; it shows unless it is behind an opaque
    /// background pixel. Sprite 0 over an opaque background pixel sets the
    /// sprite 0 hit flag.
    pub fn select_sprite_pixel(&mut self, ppu: &mut Context, bg_pixel: u8) -> (r: u8)
        requires
            old(self).wf(),
            old(ppu).scanline_dot >= 1,
            old(ppu).scanline_dot <= 340,
        ensures
            *final(self) == *old(self),
            r == old(self).spec_output(*old(ppu), bg_pixel),
            // a transparent result leaves the background
            r & 0x10 == 0 ==> r == bg_pixel,
            final(ppu).status_reg.spec_bits() == (if old(self).spec_zero_hit(*old(ppu), bg_pixel) {
                old(ppu).status_reg.spec_bits() | 0x40
            } else {
                old(ppu).status_reg.spec_bits()
            }),
            final(ppu).status_reg.spec_bits() & !0x40u8 == old(ppu).status_reg.spec_bits() & !0x40u8,
            old(ppu).status_reg.spec_bits() & 0x40 == 0x40 ==> final(ppu).status_reg.spec_bits() & 0x40 == 0x40,
            *final(ppu) == (Context { status_reg: final(ppu).status_reg, ..*old(ppu) }),
    {
        let index = ppu.scanline_dot - 1;
        // any sprite this far right?
        if (self.left_most_x as u16) <= index {
            let left = ppu.mask_reg.contains(MaskRegister::LEFTMOST_8PXL_SPRITE());
            let show = ppu.mask_reg.contains(MaskRegister::SHOW_SPRITES());
            if (left || index >= 8) && show {
                let mut i: u8 = 0;
                while i < self.sprites_count
                    invariant
                        i <= self.sprites_count <= 8,
                        self.wf(),
                        *self == *old(self),
                        index == old(ppu).scanline_dot - 1,
                        index <= 339,
                        self.spec_sprites_drawn(*old(ppu), index),
                        self.spec_first_opaque(index, 0) == self.spec_first_opaque(index, i as int),
                        *ppu == *old(ppu),
                    decreases self.sprites_count - i,
                {
                    let spr = self.sprite_data[i as usize];
                    let x_offset = index.wrapping_sub(spr.x_pos as u16);
                    assert((x_offset < 8) == (spr.x_pos as u16 <= index && index < spr.x_pos as u16 + 8));
                    assert(x_offset < 8 ==> x_offset == index - spr.x_pos as u16);
                    // is this sprite on this pixel?
                    if spr.y_pos != 0xFF && x_offset < 8 {
                        let p0 = spr.pattern[PATTERN0_INDEX];
                        let p1 = spr.pattern[PATTERN1_INDEX];
                        let shift = (7 - x_offset) as u8;
                        let sprite_pixel = ((p0 >> shift) & 0x01) | (((p1 >> shift) << 0x01) & 0x02);
                        assert(sprite_pixel == spec_sprite_pixel_of(spr, index));

                        if (sprite_pixel & 0x03) > 0 {
                            // sprite 0 over an opaque background pixel; never on
                            // the rightmost pixel
                            if i == 0 && index < 255 && (bg_pixel & 0x03) > 0 {
                                let ghost old_bits = ppu.status_reg.spec_bits();
                                ppu.status_reg.set(StatusRegister::SPRITE_ZERO_HIT(), true);
                                proof {
                                    lemma_set_flag(old_bits, 0x40);
                                }
                            }
                            if spr.attribute.infront_of_background() || (bg_pixel & 0x03) == 0 {
                                let pal = spr.attribute.pallete_index();
                                let sp = sprite_pixel;
                                let r = (0x10 | sp | (pal << 2)) & 0xff;
                                assert(((0x10u8 | sp | (pal << 2u8)) & 0xffu8) & 0x10u8 == 0x10u8) by (bit_vector);
                                return r;
                            }
                            return bg_pixel;
                        }
                    }
                    proof {
                        if !(spr.y_pos != 0xFF && x_offset < 8) {
                            assert(0u8 & 0x03u8 == 0u8) by (bit_vector);
                        }
                        assert(spec_sprite_pixel_of(self.sprite_data@[i as int], index) & 0x03 == 0);
                        assert(self.spec_first_opaque(index, i as int) == self.spec_first_opaque(index, i as int + 1));
                    }
                    i = i + 1;
                }
            }
        }
        bg_pixel
    }
}


/// The sprite height a control register asks for.
pub open spec fn spec_sprite_size(ppu: Context) -> u16 {
    if ppu.control_reg.spec_bits() & 0b100000 == 0b100000 { 16 } else { 8 }
}

/// The sprites among the first `k` of OAM that lie on the PPU's line, in
/// OAM order.
pub open spec fn spec_found(ppu: Context, k: int) -> Seq<int>
    decreases k,
{
    if k <= 0 {
        Seq::empty()
    } else {
        let f = spec_found(ppu, k - 1);
        if spec_in_range(ppu.scanline_index, spec_sprite_size(ppu), ppu.oam_ram_primary@[4 * (k - 1)] as u16) {
            f.push(k - 1)
        } else {
            f
        }
    }
}

/// Secondary OAM slot `t` holds sprite `j` as evaluation copies it: the row
/// of the sprite on the line, then its tile, attribute and X bytes.
pub open spec fn spec_slot_holds(sec: Seq<u8>, t: int, ppu: Context, j: int) -> bool {
    let oam = ppu.oam_ram_primary@;
    &&& sec[4 * t] == ppu.scanline_index.wrapping_sub(oam[4 * j] as u16) as u8
    &&& sec[4 * t + 1] == oam[4 * j + 1]
    &&& sec[4 * t + 2] == oam[4 * j + 2]
    &&& sec[4 * t + 3] == oam[4 * j + 3]
}

/// The first `c` slots of secondary OAM hold the first `c` sprites of
/// `found`.
pub open spec fn spec_copied(sec: Seq<u8>, ppu: Context, found: Seq<int>, c: int) -> bool {
    forall|t: int| 0 <= t < c ==> #[trigger] spec_slot_holds(sec, t, ppu, found[t])
}

/// What sprite evaluation keeps true, dot after dot, on the PPU's line:
/// while it copies, it stands at sprite `k` (byte 0) with the sprites on
/// the line among the first `k` in the first slots, and the bytes of sprite
/// `k` copied so far in the next slot; once it has eight sprites or has
/// been through OAM, the slots hold the first eight (or all) sprites on the
/// line.
pub open spec fn spec_eval_inv(s: Sprites, ppu: Context) -> bool {
    let idx = s.primary_oam_index.0;
    let k = idx / 4;
    let c = s.next_sprites_count as int;
    let sec = s.secondary_oam@;
    let oam = ppu.oam_ram_primary@;
    let all = spec_found(ppu, 64);
    match s.eval_state {
        EvalState::StateSecondaryOamFull | EvalState::StateOamIndexOverflow => {
            &&& c == (if all.len() < 8 { all.len() as int } else { 8 })
            &&& spec_copied(sec, ppu, all, c)
        },
        _ => {
            let found = spec_found(ppu, k as int);
            let on_line = spec_in_range(ppu.scanline_index, spec_sprite_size(ppu), oam[4 * k] as u16);
            let copying = !(s.eval_state is StateYRead) && !(s.eval_state is StateYWrite);
            &&& idx % 4 == 0
            &&& c == found.len()
            &&& c < 8
            &&& spec_copied(sec, ppu, found, c)
            &&& copying ==> on_line && sec[4 * c] == ppu.scanline_index.wrapping_sub(oam[4 * k] as u16) as u8
            &&& (copying && !(s.eval_state is StateIndexRead) && !(s.eval_state is StateIndexWrite))
                ==> sec[4 * c + 1] == oam[4 * k + 1]
            &&& (s.eval_state is StateXRead || s.eval_state is StateXWrite) ==> sec[4 * c + 2] == oam[4 * k + 2]
        },
    }
}

/// The sprites found among the first `j` are the first ones found among
/// the first `k >= j`; no more than `k` are found among the first `k`.
pub proof fn lemma_found_prefix(ppu: Context, j: int, k: int)
    requires
        0 <= j <= k,
    ensures
        spec_found(ppu, k).len() >= spec_found(ppu, j).len(),
        spec_found(ppu, k).len() <= k,
        spec_found(ppu, k).subrange(0, spec_found(ppu, j).len() as int) == spec_found(ppu, j),
        forall|t: int| 0 <= t < spec_found(ppu, k).len() ==> 0 <= #[trigger] spec_found(ppu, k)[t] < k,
    decreases k,
{
    if k > 0 {
        if j < k {
            lemma_found_prefix(ppu, j, k - 1);
            let f = spec_found(ppu, k - 1);
            let g = spec_found(ppu, k);
            assert(g.subrange(0, f.len() as int) == f);
            assert(g.subrange(0, spec_found(ppu, j).len() as int)
                == f.subrange(0, spec_found(ppu, j).len() as int));
        } else {
            lemma_found_prefix(ppu, k - 1, k - 1);
            assert(spec_found(ppu, k).subrange(0, spec_found(ppu, k).len() as int) == spec_found(ppu, k));
        }
    }
}

/// The next sprite's byte 0 after byte 0 of sprite `idx / 4`.
proof fn lemma_next_sprite_index(idx: u8)
    requires
        idx % 4 == 0,
    ensures
        spec_next_n(idx) == (if idx == 252 { 0u8 } else { (idx + 4) as u8 }),
        idx <= 252,
{
    assert(idx & 0x03 == 0 && idx & 0xFC == idx && idx <= 252) by (bit_vector)
        requires idx % 4 == 0;
    assert(0u8 | ((idx + 4) as u8) == (idx + 4) as u8 && 0u8 | 0u8 == 0u8) by (bit_vector);
}


/// Writing past the first `c` slots keeps them.
proof fn lemma_copied_update(sec: Seq<u8>, ppu: Context, found: Seq<int>, c: int, i: int, v: u8)
    requires
        spec_copied(sec, ppu, found, c),
        4 * c <= i < sec.len(),
    ensures
        spec_copied(sec.update(i, v), ppu, found, c),
{
    assert forall|t: int| 0 <= t < c implies #[trigger] spec_slot_holds(sec.update(i, v), t, ppu, found[t]) by {
        assert(spec_slot_holds(sec, t, ppu, found[t]));
    }
}

/// Another sprite in the next slot: one more copied.
proof fn lemma_copied_push(sec: Seq<u8>, ppu: Context, found: Seq<int>, c: int, k: int)
    requires
        spec_copied(sec, ppu, found, c),
        found.len() == c,
        spec_slot_holds(sec, c, ppu, k),
    ensures
        spec_copied(sec, ppu, found.push(k), c + 1),
{
    assert forall|t: int| 0 <= t < c + 1 implies #[trigger] spec_slot_holds(sec, t, ppu, found.push(k)[t]) by {
        if t < c {
            assert(found.push(k)[t] == found[t]);
            assert(spec_slot_holds(sec, t, ppu, found[t]));
        }
    }
}

/// Copied from a prefix is copied from the whole.
proof fn lemma_copied_prefix(sec: Seq<u8>, ppu: Context, found: Seq<int>, all: Seq<int>, c: int)
    requires
        spec_copied(sec, ppu, found, c),
        c <= found.len() <= all.len(),
        all.subrange(0, found.len() as int) == found,
    ensures
        spec_copied(sec, ppu, all, c),
{
    assert forall|t: int| 0 <= t < c implies #[trigger] spec_slot_holds(sec, t, ppu, all[t]) by {
        assert(all.subrange(0, found.len() as int)[t] == all[t]);
        assert(spec_slot_holds(sec, t, ppu, found[t]));
    }
}

/// Every dot of sprite evaluation keeps `spec_eval_inv`: secondary OAM
/// holds exactly the sprites on the line found so far, in OAM order, and
/// once evaluation has eight or has been through OAM, the first eight (or
/// all) of them.
pub proof fn lemma_eval_step(s: Sprites, ppu: Context)
    requires
        spec_eval_inv(s, ppu),
    ensures
        spec_eval_inv(spec_evaluate(s, ppu).0, ppu),
{
    let idx = s.primary_oam_index.0;
    let k = (idx / 4) as int;
    let c = s.next_sprites_count as int;
    let sec = s.secondary_oam@;
    let n = spec_evaluate(s, ppu).0;
    let oam = ppu.oam_ram_primary@;
    let size = spec_sprite_size(ppu);
    if s.eval_state is StateSecondaryOamFull || s.eval_state is StateOamIndexOverflow {
        assert(n.secondary_oam == s.secondary_oam && n.next_sprites_count == s.next_sprites_count);
        assert(n.eval_state is StateSecondaryOamFull || n.eval_state is StateOamIndexOverflow);
    } else {
        lemma_next_sprite_index(idx);
        lemma_found_prefix(ppu, k, k + 1);
        lemma_found_prefix(ppu, k + 1, 64);
        assert(4 * k == idx);
        let on_line = spec_in_range(ppu.scanline_index, size, oam[4 * k] as u16);
        let f = spec_found(ppu, k);
        let f1 = spec_found(ppu, k + 1);
        assert(f1 == (if on_line { f.push(k) } else { f }));
        match s.eval_state {
            EvalState::StateYWrite => {
                if on_line {
                    lemma_copied_update(sec, ppu, f, c, 4 * c, ppu.scanline_index.wrapping_sub(oam[4 * k] as u16) as u8);
                } else if idx == 252 {
                    assert(f1 == f);
                } else {
                    assert(n.primary_oam_index.0 / 4 == k + 1);
                }
            },
            EvalState::StateIndexWrite => {
                assert(idx.wrapping_add(1) == idx + 1);
                lemma_copied_update(sec, ppu, f, c, 4 * c + 1, oam[4 * k + 1]);
            },
            EvalState::StateYAttribWrite => {
                assert(idx.wrapping_add(2) == idx + 2);
                lemma_copied_update(sec, ppu, f, c, 4 * c + 2, oam[4 * k + 2]);
            },
            EvalState::StateXWrite => {
                assert(idx.wrapping_add(3) == idx + 3);
                let sec1 = sec.update(4 * c + 3, oam[4 * k + 3]);
                assert(n.secondary_oam@ == sec1);
                lemma_copied_update(sec, ppu, f, c, 4 * c + 3, oam[4 * k + 3]);
                assert(spec_slot_holds(sec1, c, ppu, k));
                lemma_copied_push(sec1, ppu, f, c, k);
                if idx == 252 {
                    assert(f1 == spec_found(ppu, 64));
                } else if c + 1 >= 8 {
                    lemma_copied_prefix(sec1, ppu, f1, spec_found(ppu, 64), c + 1);
                } else {
                    assert(n.primary_oam_index.0 / 4 == k + 1);
                }
            },
            _ => {},
        }
    }
}


/// The sprite unit after `n` dots of evaluation on the PPU's line.
pub open spec fn spec_evaluations(s: Sprites, ppu: Context, n: nat) -> Sprites
    decreases n,
{
    if n == 0 {
        s
    } else {
        spec_evaluations(spec_evaluate(s, ppu).0, ppu, (n - 1) as nat)
    }
}

/// Sprite evaluation copies the sprites on the line into secondary OAM in
/// OAM order: started at sprite 0 with no sprite found, after any number of
/// dots the slots filled hold the first sprites on the line, and once
/// evaluation has found eight or been through OAM they hold the first
/// eight of them (all of them if fewer).
pub proof fn lemma_evaluation_copies_sprites_on_line(s: Sprites, ppu: Context, n: nat)
    requires
        s.eval_state == EvalState::StateYRead,
        s.primary_oam_index.0 == 0,
        s.next_sprites_count == 0,
    ensures
        spec_eval_inv(spec_evaluations(s, ppu, n), ppu),
        ({
            let e = spec_evaluations(s, ppu, n);
            let all = spec_found(ppu, 64);
            (e.eval_state is StateSecondaryOamFull || e.eval_state is StateOamIndexOverflow) ==> {
                &&& e.next_sprites_count == (if all.len() < 8 { all.len() as int } else { 8 })
                &&& spec_copied(e.secondary_oam@, ppu, all, e.next_sprites_count as int)
            }
        }),
    decreases n,
{
    if n == 0 {
        assert(spec_found(ppu, 0).len() == 0);
    } else {
        lemma_eval_steps(s, ppu, n);
    }
}

/// `spec_eval_inv` holds after any number of dots from a state where it
/// holds.
proof fn lemma_eval_steps(s: Sprites, ppu: Context, n: nat)
    requires
        spec_eval_inv(s, ppu),
    ensures
        spec_eval_inv(spec_evaluations(s, ppu, n), ppu),
    decreases n,
{
    if n > 0 {
        lemma_eval_step(s, ppu);
        lemma_eval_steps(spec_evaluate(s, ppu).0, ppu, (n - 1) as nat);
    }
}

} // verus!
