//! A sprite unit that keeps OAM itself and works from the beam position
//! (`vpos`, `hpos`): sprite evaluation as the read/write state machine of
//! the hardware, with OAMADDR split into sprite `n` (bits 2-7) and byte `m`
//! (bits 0-1), the fetch of the eight sprites of the next line, and the
//! choice of the sprite pixel.

use vstd::prelude::*;
use super::ppu_registers::{ControlRegister, MaskRegister, StatusRegister};
use super::sprites::{reverse_bits, spec_reverse_bits};

verus! {

pub const PATTERN0_INDEX: usize = 0;
pub const PATTERN0_OFFSET: u16 = 0;
pub const PATTERN1_INDEX: usize = 1;
pub const PATTERN1_OFFSET: u16 = 8;
pub const SPRITE_8X_SIZE: u8 = 8;
pub const SPRITE_16X_SIZE: u8 = 16;
pub const SPRITE_8X_FLIPMASK: u8 = 0b00000111;
pub const SPRITE_16X_FLIPMASK: u8 = 0b00001111;
/// Marks, in a copied attribute byte, the sprite that came from OAM[0..4].
pub const OAM_ZERO: u8 = 0b00010000;
pub const OAM_PRIORITY: u8 = 0b00100000;
pub const VFLIP: u8 = 0b10000000;
pub const HFLIP: u8 = 0b01000000;
pub const WRITE: bool = true;
pub const READ: bool = false;

/// The beam position and the PPU registers the sprite unit reads.
#[derive(Debug, Clone, Copy)]
pub struct Context {
    /// Scanline.
    pub vpos: u16,
    /// Dot within the scanline.
    pub hpos: u16,
    pub control_reg: ControlRegister,
    pub mask_reg: MaskRegister,
    pub status_reg: StatusRegister,
}

impl Context {
    pub fn new() -> (r: Self)
        ensures
            r.vpos == 0,
            r.hpos == 0,
            r.control_reg.spec_bits() == 0,
            r.mask_reg.spec_bits() == 0,
            r.status_reg.spec_bits() == 0,
    {
        Context {
            vpos: 0,
            hpos: 0,
            control_reg: ControlRegister::new(),
            mask_reg: MaskRegister::new(),
            status_reg: StatusRegister::new(),
        }
    }
}

/// One of the eight sprites of the line being drawn.
#[derive(Debug, Clone, Copy)]
pub struct SpriteInfo {
    pub pattern_queue: [u8; 2],
    /// The row of the sprite to fetch, already flipped for a vertically
    /// flipped sprite.
    pub sprite_line: u8,
    pub attribute: u8,
    pub xpos_counter: u8,
    pub tile_index: u8,
    pub valid_sprite: bool,
    pub sprite_0: bool,
}

impl SpriteInfo {
    pub open spec fn spec_new() -> SpriteInfo {
        SpriteInfo {
            pattern_queue: [0u8, 0u8],
            sprite_line: 0,
            attribute: 0,
            xpos_counter: 0,
            tile_index: 0,
            valid_sprite: false,
            sprite_0: false,
        }
    }

    pub fn new() -> (r: Self)
        ensures
            r == Self::spec_new(),
    {
        SpriteInfo {
            pattern_queue: [0u8, 0u8],
            sprite_line: 0,
            attribute: 0,
            xpos_counter: 0,
            tile_index: 0,
            valid_sprite: false,
            sprite_0: false,
        }
    }
}

/// Where sprite evaluation stands: which byte of a sprite it handles and
/// whether that byte is being read or written next.
#[derive(Debug, Clone, Copy, PartialEq, Eq, Structural)]
pub enum SpriteEvalState {
    /// Copying sprites on the next line into secondary OAM.
    SpriteSearch(u8, bool),
    /// Secondary OAM is full: looking (with the hardware's bug) for a ninth
    /// sprite.
    OverflowSearch(u8, bool),
    /// All of OAM has been seen.
    End(bool),
}

/// The state after `s` for a read or write step that stays in its phase.
pub open spec fn spec_transition(s: SpriteEvalState) -> SpriteEvalState {
    match s {
        SpriteEvalState::SpriteSearch(index, rw) => if rw == READ {
            SpriteEvalState::SpriteSearch(index, WRITE)
        } else {
            SpriteEvalState::SpriteSearch((index + 1) as u8, READ)
        },
        SpriteEvalState::OverflowSearch(index, rw) => if rw == READ {
            SpriteEvalState::OverflowSearch(index, WRITE)
        } else {
            SpriteEvalState::OverflowSearch((index + 1) as u8, READ)
        },
        SpriteEvalState::End(rw) => SpriteEvalState::End(!rw),
    }
}

impl SpriteEvalState {
    pub fn from_start_state() -> (r: Self)
        ensures r == SpriteEvalState::SpriteSearch(0, READ),
    {
        SpriteEvalState::SpriteSearch(0, READ)
    }

    pub fn from_overflow_state() -> (r: Self)
        ensures r == SpriteEvalState::OverflowSearch(0, READ),
    {
        SpriteEvalState::OverflowSearch(0, READ)
    }

    pub fn from_end_state() -> (r: Self)
        ensures r == SpriteEvalState::End(READ),
    {
        SpriteEvalState::End(READ)
    }

    /// A read is followed by the write of the same byte, a write by the
    /// read of the next byte.
    pub fn transition(&mut self)
        requires
            !(*old(self) == SpriteEvalState::SpriteSearch(255, WRITE)),
            !(*old(self) == SpriteEvalState::OverflowSearch(255, WRITE)),
        ensures
            *final(self) == spec_transition(*old(self)),
    {
        *self = match *self {
            SpriteEvalState::SpriteSearch(index, rw) => if rw == READ {
                SpriteEvalState::SpriteSearch(index, WRITE)
            } else {
                SpriteEvalState::SpriteSearch(index + 1, READ)
            },
            SpriteEvalState::OverflowSearch(index, rw) => if rw == READ {
                SpriteEvalState::OverflowSearch(index, WRITE)
            } else {
                SpriteEvalState::OverflowSearch(index + 1, READ)
            },
            SpriteEvalState::End(rw) => SpriteEvalState::End(!rw),
        };
    }
}

/// OAMADDR moved to the next sprite, byte kept.
pub open spec fn spec_increment_high_n(a: usize) -> usize {
    (a & 0x03) | (((a & 0xFC) + 4) as usize & 0xFC)
}

/// OAMADDR moved to the next byte of the same sprite; the carry out of the
/// byte field is lost.
pub open spec fn spec_increment_low_m(a: usize) -> usize {
    (a & 0xfc) | (((a & 0x03) + 1) as usize & 0x03)
}

proof fn lemma_increments_bounded(a: usize)
    requires
        a < 256,
    ensures
        a & 0xFC <= 0xFC,
        a & 0x03 <= 0x03,
        spec_increment_high_n(a) < 256,
        spec_increment_low_m(a) < 256,
        ((a + 1) as usize) & 0xFF < 256,
        ((a + 4) as usize) & 0xFF < 256,
        a & 0x1F < 32,
{
    assert(a & 0xFC <= 0xFC && a & 0x03 <= 0x03
        && (a & 0x03) | (((a & 0xFC) + 4) as usize & 0xFC) < 256
        && (a & 0xfc) | (((a & 0x03) + 1) as usize & 0x03) < 256
        && ((a + 1) as usize) & 0xFF < 256 && ((a + 4) as usize) & 0xFF < 256 && a & 0x1F < 32) by (bit_vector)
        requires a < 256usize;
}

fn next_n(a: usize) -> (r: usize)
    requires
        a < 256,
    ensures
        r == spec_increment_high_n(a),
        r < 256,
{
    proof {
        lemma_increments_bounded(a);
    }
    (a & 0x03) | (((a & 0xFC) + 4) & 0xFC)
}

fn next_m(a: usize) -> (r: usize)
    requires
        a < 256,
    ensures
        r == spec_increment_low_m(a),
        r < 256,
{
    proof {
        lemma_increments_bounded(a);
    }
    (a & 0xfc) | (((a & 0x03) + 1) & 0x03)
}

#[derive(Debug, Clone, Copy)]
pub struct Sprites {
    pub primary_oam: [u8; 256],
    pub secondary_oam: [u8; 32],
    pub sprites: [SpriteInfo; 8],
    pub oam_addr: usize,
    pub secondary_oam_addr: usize,
    pub oam_data_buffer: u8,
    pub eval_state: SpriteEvalState,
    pub sprite_count: u8,
}

/// A sprite whose top is `y` is on line `vpos` or within its height below
/// it (8 or 16 lines).
pub open spec fn spec_sprite_in_range(context: Context, y: u8) -> bool {
    let size: int = if context.control_reg.spec_bits() & 0b100000 == 0b100000 { 16 } else { 8 };
    context.vpos <= y && y < context.vpos + size
}

/// The evaluation state at the first evaluation dot (65) of a line.
pub open spec fn spec_begin_evaluation(s: Sprites) -> Sprites {
    Sprites {
        secondary_oam_addr: 0,
        sprite_count: 0,
        eval_state: SpriteEvalState::SpriteSearch(0, READ),
        ..s
    }
}

/// One dot of sprite evaluation from `s`: the sprite unit after it, and
/// whether it raised the sprite overflow flag.
///
/// Reads fetch the OAM byte at OAMADDR into the latch (byte 2 of sprite 0
/// is tagged with `OAM_ZERO`). While searching, writes copy the latch to
/// secondary OAM; a Y byte out of range skips to the next sprite, and the
/// fourth byte of a sprite counts it. Once eight sprites are found, writes
/// only read secondary OAM and the overflow search steps through OAM with
/// both `n` and `m`, as the hardware does. When `n` wraps, evaluation ends.
pub open spec fn spec_eval_step(s: Sprites, context: Context) -> (Sprites, bool) {
    let a = s.oam_addr;
    let sa = s.secondary_oam_addr;
    let buf = s.oam_data_buffer;
    let read = s.primary_oam@[a as int];
    let sec_read = s.secondary_oam@[(sa & 0x1F) as int];
    match s.eval_state {
        SpriteEvalState::SpriteSearch(k, rw) => if rw == READ {
            let b = if k == 2 && a < 4 { read | OAM_ZERO } else { read };
            (Sprites { oam_data_buffer: b, eval_state: SpriteEvalState::SpriteSearch(k, WRITE), ..s }, false)
        } else {
            let sec = vstd::array::spec_array_update(s.secondary_oam, sa as int, buf);
            if k == 0 && !spec_sprite_in_range(context, buf) {
                let a2 = spec_increment_high_n(a);
                (Sprites {
                    secondary_oam: sec,
                    oam_addr: a2,
                    eval_state: if a2 & 0xFC == 0 { SpriteEvalState::End(READ) } else { SpriteEvalState::SpriteSearch(0, READ) },
                    ..s
                }, false)
            } else if k < 3 {
                (Sprites {
                    secondary_oam: sec,
                    secondary_oam_addr: (sa + 1) as usize,
                    oam_addr: spec_increment_low_m(a),
                    eval_state: SpriteEvalState::SpriteSearch((k + 1) as u8, READ),
                    ..s
                }, false)
            } else {
                let a2 = spec_increment_high_n(spec_increment_low_m(a));
                let sa2 = (sa + 1) as usize;
                (Sprites {
                    secondary_oam: sec,
                    oam_addr: a2,
                    sprite_count: (s.sprite_count + 1) as u8,
                    secondary_oam_addr: if a2 & 0xFC != 0 && sa2 >= 0x20 { 0x1F } else { sa2 },
                    eval_state: if a2 & 0xFC == 0 {
                        SpriteEvalState::End(READ)
                    } else if sa2 >= 0x20 {
                        SpriteEvalState::OverflowSearch(0, READ)
                    } else {
                        SpriteEvalState::SpriteSearch(0, READ)
                    },
                    ..s
                }, false)
            }
        },
        SpriteEvalState::OverflowSearch(k, rw) => if rw == READ {
            (Sprites { oam_data_buffer: read, eval_state: SpriteEvalState::OverflowSearch(k, WRITE), ..s }, false)
        } else if k == 0 && spec_sprite_in_range(context, buf) {
            (Sprites {
                oam_data_buffer: sec_read,
                oam_addr: spec_increment_low_m(a),
                eval_state: SpriteEvalState::OverflowSearch(1, READ),
                ..s
            }, true)
        } else if k == 1 || k == 2 {
            (Sprites {
                oam_data_buffer: sec_read,
                oam_addr: spec_increment_low_m(a),
                eval_state: SpriteEvalState::OverflowSearch((k + 1) as u8, READ),
                ..s
            }, false)
        } else {
            let a2 = spec_increment_low_m(spec_increment_high_n(a));
            (Sprites {
                oam_data_buffer: sec_read,
                oam_addr: a2,
                eval_state: if a2 & 0xFC == 0 { SpriteEvalState::End(READ) } else { SpriteEvalState::OverflowSearch(0, READ) },
                ..s
            }, false)
        },
        SpriteEvalState::End(rw) => if rw == READ {
            (Sprites { oam_data_buffer: read, eval_state: SpriteEvalState::End(WRITE), ..s }, false)
        } else {
            (Sprites { oam_data_buffer: sec_read, oam_addr: spec_increment_high_n(a), eval_state: SpriteEvalState::End(READ), ..s }, false)
        },
    }
}

/// The Y byte of sprite `j` in secondary OAM.
pub open spec fn spec_secondary_y(s: Sprites, j: int) -> u8 {
    s.secondary_oam@[4 * j]
}

/// Every sprite found starts on line `vpos` or above it, so the row to
/// fetch is `vpos` minus its Y.
pub open spec fn spec_rows_at_or_above(s: Sprites, vpos: u16) -> bool {
    forall|j: int| 0 <= j < s.sprite_count ==> #[trigger] spec_secondary_y(s, j) <= vpos
}

/// The sprite that dot `hpos` of the fetch phase works on.
pub open spec fn spec_current_sprite_index(hpos: u16) -> int {
    ((((hpos - 1) as u16) >> 3u16) & 0x07) as int
}

/// Sprite `j` of secondary OAM as the fetch phase loads it for line `vpos`:
/// X, attribute and tile copied, the row the line falls on (flipped for a
/// vertically flipped sprite), marked valid.
pub open spec fn spec_fetched_sprite(s: Sprites, context: Context, j: int) -> SpriteInfo {
    let y = s.secondary_oam@[4 * j];
    let attribute = s.secondary_oam@[4 * j + 2];
    let line = (context.vpos - y) as u8;
    let tall = context.control_reg.spec_bits() & 0b100000 == 0b100000;
    SpriteInfo {
        xpos_counter: s.secondary_oam@[4 * j + 3],
        attribute: attribute,
        tile_index: s.secondary_oam@[4 * j + 1],
        sprite_line: if attribute & VFLIP > 0 {
            if tall { line ^ SPRITE_16X_FLIPMASK } else { line ^ SPRITE_8X_FLIPMASK }
        } else {
            line
        },
        valid_sprite: true,
        ..s.sprites@[j]
    }
}

/// The pattern address of bit plane `offset` (0 or 8) for the sprite of
/// the current fetch dot.
pub open spec fn spec_pattern_address(s: Sprites, context: Context, offset: u16) -> u16 {
    let spr = s.sprites@[spec_current_sprite_index(context.hpos)];
    let tile = spr.tile_index as u16;
    let line = spr.sprite_line as u16;
    if context.control_reg.spec_bits() & 0b100000 == 0b100000 {
        (((tile & 1) << 12u16) | ((tile & 0xfe) << 4u16) | offset | (line & 7) | ((line & 0x08) << 1u16)) & 0xffff
    } else {
        let table: u16 = if context.control_reg.spec_bits() & 0b1000 == 0b1000 { 0x1000 } else { 0 };
        (table | (tile << 4u16) | offset | line) & 0xffff
    }
}

/// How far pixel `px` lies into a sprite (meaningful where the sprite
/// covers the pixel).
pub open spec fn spec_x_offset(spr: SpriteInfo, px: u16) -> u16 {
    if px >= spr.xpos_counter { (px - spr.xpos_counter) as u16 } else { 0 }
}

/// The sprite covers pixel `px`: x <= px < x + 8.
pub open spec fn spec_covers(spr: SpriteInfo, px: u16) -> bool {
    spr.xpos_counter <= px && px - spr.xpos_counter < 8
}

/// The two-bit colour of the sprite at pixel `px`.
pub open spec fn spec_sprite_pixel(spr: SpriteInfo, px: u16) -> u8 {
    let shift = (7 - spec_x_offset(spr, px)) as u8;
    ((spr.pattern_queue[0] >> shift) & 0x01) | (((spr.pattern_queue[1] >> shift) << 1u8) & 0x02)
}

/// The sprite shows an opaque pixel at `px`.
pub open spec fn spec_sprite_opaque(spr: SpriteInfo, px: u16) -> bool {
    spr.valid_sprite && spec_covers(spr, px) && spec_sprite_pixel(spr, px) & 0x03 > 0
}

/// The first sprite from `j` on with an opaque pixel at `px` (8: none).
pub open spec fn spec_first_opaque(sprites: Seq<SpriteInfo>, j: int, px: u16) -> int
    decreases 8 - j,
{
    if j < 0 || j >= 8 {
        8
    } else if spec_sprite_opaque(sprites[j], px) {
        j
    } else {
        spec_first_opaque(sprites, j + 1, px)
    }
}

/// Sprites are drawn at dot `hpos`: sprites are shown and the pixel is not
/// in a hidden leftmost column.
pub open spec fn spec_sprites_shown(context: Context) -> bool {
    (context.mask_reg.spec_bits() & 0b100 == 0b100 || context.hpos - 1 >= 8)
        && context.mask_reg.spec_bits() & 0b10000 == 0b10000
}

/// OAMDATA writes are ignored (with a glitchy OAMADDR step) on the lines
/// the PPU renders, the pre-render line and lines 0-239, while rendering
/// is on.
pub open spec fn spec_oam_write_blocked(context: Context) -> bool {
    (context.vpos <= 239 || context.vpos == 261) && context.mask_reg.spec_bits() & 0b00011000 != 0
}

/// The pixel when sprite `spr` is drawn over `bg_pixel`: the sprite's
/// colour in its palette (attribute bits 0-1), unless the sprite is behind
/// an opaque background pixel.
pub open spec fn spec_mixed_pixel(spr: SpriteInfo, px: u16, bg_pixel: u8) -> u8 {
    if spr.attribute & OAM_PRIORITY == 0 || bg_pixel & 0x03 == 0 {
        0x10 | spec_sprite_pixel(spr, px) | (((spr.attribute & 0x03) << 2u8) & 0xff)
    } else {
        bg_pixel
    }
}

impl Sprites {
    /// OAMADDR is a byte address, at most eight sprites are counted, and the
    /// secondary OAM address follows the evaluation state: while searching,
    /// it points at byte `k` of the next free slot; during the overflow
    /// search it rests on the last byte.
    pub open spec fn wf(&self) -> bool {
        &&& self.oam_addr < 256
        &&& self.sprite_count <= 8
        &&& match self.eval_state {
            SpriteEvalState::SpriteSearch(k, _) => k <= 3 && self.sprite_count < 8
                && self.secondary_oam_addr == 4 * self.sprite_count + k,
            SpriteEvalState::OverflowSearch(k, _) => k <= 3 && self.secondary_oam_addr == 0x1F,
            SpriteEvalState::End(_) => self.secondary_oam_addr <= 0x20,
        }
    }

    pub fn new() -> (r: Self)
        ensures
            r.wf(),
            r.primary_oam@ == Seq::new(256, |i: int| 0xFFu8),
            r.secondary_oam@ == Seq::new(32, |i: int| 0xFFu8),
            r.sprites@ == Seq::new(8, |i: int| SpriteInfo::spec_new()),
            r.oam_addr == 0,
            r.secondary_oam_addr == 0,
            r.oam_data_buffer == 0,
            r.eval_state == SpriteEvalState::SpriteSearch(0, READ),
            r.sprite_count == 0,
    {
        let r = Sprites {
            primary_oam: [0xFF; 256],
            secondary_oam: [0xFF; 32],
            sprites: [SpriteInfo::new(); 8],
            oam_addr: 0,
            secondary_oam_addr: 0,
            oam_data_buffer: 0,
            eval_state: SpriteEvalState::from_start_state(),
            sprite_count: 0,
        };
        assert(r.primary_oam@ =~= Seq::new(256, |i: int| 0xFFu8));
        assert(r.secondary_oam@ =~= Seq::new(32, |i: int| 0xFFu8));
        assert(r.sprites@ =~= Seq::new(8, |i: int| SpriteInfo::spec_new()));
        r
    }

    /// OAMADDR ($2003).
    pub fn write_oamaddr_reg(&mut self, data: u8)
        requires
            old(self).wf(),
        ensures
            final(self).wf(),
            *final(self) == (Sprites { oam_addr: data as usize, ..*old(self) }),
    {
        self.oam_addr = data as usize;
    }

    /// A read of OAMDATA ($2004): while lines are drawn with rendering on,
    /// the evaluation's latch; otherwise the OAM byte at OAMADDR.
    pub fn read_oamdata_reg(&mut self, context: &Context) -> (r: u8)
        requires
            old(self).wf(),
        ensures
            *final(self) == *old(self),
            r == (if context.vpos <= 239 && context.mask_reg.spec_bits() & 0b00011000 != 0 {
                old(self).oam_data_buffer
            } else {
                old(self).primary_oam@[old(self).oam_addr as int]
            }),
    {
        if context.vpos <= 239 && context.mask_reg.rendering_enabled() {
            // while the screen is drawn
            self.oam_data_buffer
        } else {
            self.primary_oam[self.oam_addr]
        }
    }

    /// A write of OAMDATA ($2004). Outside rendering the byte is stored at
    /// OAMADDR (the three unused bits of an attribute byte read back as 0)
    /// and OAMADDR moves on by one. During rendering (the pre-render line
    /// and lines 0-239, rendering on) OAM keeps its value and OAMADDR takes
    /// a glitchy step in its high six bits.
    pub fn write_oamdata_reg(&mut self, context: &Context, data: u8)
        requires
            old(self).wf(),
        ensures
            final(self).wf(),
            !spec_oam_write_blocked(*context) ==> {
                let a = old(self).oam_addr;
                let d = if a & 0x03 == 0x02 { data & 0xE3 } else { data };
                &&& final(self).primary_oam@ == old(self).primary_oam@.update(a as int, d)
                &&& *final(self) == (Sprites {
                    primary_oam: final(self).primary_oam,
                    oam_addr: ((a + 1) as usize) & 0xFF,
                    ..*old(self)
                })
            },
            spec_oam_write_blocked(*context)
                ==> *final(self) == (Sprites { oam_addr: ((old(self).oam_addr + 4) as usize) & 0xFF, ..*old(self) }),
    {
        if !((context.vpos <= 239 || context.vpos == 261) && context.mask_reg.rendering_enabled()) {
            let mut d = data;
            if (self.oam_addr & 0x03) == 0x02 {
                d = d & 0xE3;
            }
            let a = self.oam_addr;
            proof {
                lemma_increments_bounded(a);
            }
            self.primary_oam[a] = d;
            self.oam_addr = (a + 1) & 0xFF;
        } else {
            let a = self.oam_addr;
            proof {
                lemma_increments_bounded(a);
            }
            self.oam_addr = (a + 4) & 0xFF;
        }
    }

    /// Fills secondary OAM with $FF; the OAMDATA latch reads $FF.
    pub fn clear_secondary_oam(&mut self)
        requires
            old(self).wf(),
        ensures
            final(self).wf(),
            final(self).secondary_oam@ == Seq::new(32, |i: int| 0xFFu8),
            *final(self) == (Sprites {
                secondary_oam: final(self).secondary_oam,
                oam_data_buffer: 0xFF,
                ..*old(self)
            }),
    {
        let mut i: usize = 0;
        while i < 32
            invariant
                i <= 32,
                forall|j: int| 0 <= j < i ==> self.secondary_oam@[j] == 0xFFu8,
                *self == (Sprites { secondary_oam: self.secondary_oam, ..*old(self) }),
            decreases 32 - i,
        {
            self.secondary_oam[i] = 0xFF;
            i = i + 1;
        }
        self.oam_data_buffer = 0xFF;
        assert(self.secondary_oam@ =~= Seq::new(32, |i: int| 0xFFu8));
    }

    /// Next sprite in OAM (bits 2-7 of OAMADDR), same byte.
    pub fn increment_high_n(&mut self)
        requires
            old(self).wf(),
        ensures
            final(self).wf(),
            *final(self) == (Sprites { oam_addr: spec_increment_high_n(old(self).oam_addr), ..*old(self) }),
    {
        self.oam_addr = next_n(self.oam_addr);
    }

    /// Next byte of the sprite (bits 0-1 of OAMADDR), without carry.
    pub fn increment_low_m(&mut self)
        requires
            old(self).wf(),
        ensures
            final(self).wf(),
            *final(self) == (Sprites { oam_addr: spec_increment_low_m(old(self).oam_addr), ..*old(self) }),
    {
        self.oam_addr = next_m(self.oam_addr);
    }

    fn sprite_in_range(&self, context: &Context, y_pos: u8) -> (r: bool)
        ensures
            r == spec_sprite_in_range(*context, y_pos),
    {
        let size: u32 = if context.control_reg.tall_sprites() { SPRITE_16X_SIZE as u32 } else { SPRITE_8X_SIZE as u32 };
        (y_pos as u16) >= context.vpos && (y_pos as u32) < (context.vpos as u32) + size
    }

    fn begin_evaluation(&mut self)
        requires
            old(self).wf(),
        ensures
            final(self).wf(),
            *final(self) == spec_begin_evaluation(*old(self)),
    {
        self.secondary_oam_addr = 0;
        self.sprite_count = 0;
        self.eval_state = SpriteEvalState::from_start_state();
    }

    /// One dot of evaluation from the current state (see `spec_eval_step`).
    fn eval_step(&mut self, context: &mut Context)
        requires
            old(self).wf(),
        ensures
            final(self).wf(),
            *final(self) == spec_eval_step(*old(self), *old(context)).0,
            final(context).status_reg.spec_bits() == (if spec_eval_step(*old(self), *old(context)).1 {
                old(context).status_reg.spec_bits() | 0x20
            } else {
                old(context).status_reg.spec_bits()
            }),
            *final(context) == (Context { status_reg: final(context).status_reg, ..*old(context) }),
    {
        let a = self.oam_addr;
        let sa = self.secondary_oam_addr;
        proof {
            lemma_increments_bounded(sa);
        }
        match self.eval_state {
            SpriteEvalState::SpriteSearch(k, rw) => {
                if rw == READ {
                    self.oam_data_buffer = self.primary_oam[a];
                    if k == 2 && a < 4 {
                        // sprite 0 is OAM[0] - OAM[3]
                        self.oam_data_buffer = self.oam_data_buffer | OAM_ZERO;
                    }
                    self.eval_state = SpriteEvalState::SpriteSearch(k, WRITE);
                } else {
                    self.secondary_oam[sa] = self.oam_data_buffer;
                    if k == 0 && !self.sprite_in_range(context, self.oam_data_buffer) {
                        self.oam_addr = next_n(a);
                        // has the OAM address wrapped?
                        if (self.oam_addr & 0xFC) == 0 {
                            self.eval_state = SpriteEvalState::from_end_state();
                        } else {
                            self.eval_state = SpriteEvalState::from_start_state();
                        }
                    } else if k < 3 {
                        // copy the remaining bytes of the sprite
                        self.secondary_oam_addr = sa + 1;
                        self.oam_addr = next_m(a);
                        self.eval_state = SpriteEvalState::SpriteSearch(k + 1, READ);
                    } else {
                        self.oam_addr = next_n(next_m(a));
                        self.secondary_oam_addr = sa + 1;
                        self.sprite_count = self.sprite_count + 1;
                        if (self.oam_addr & 0xFC) == 0 {
                            self.eval_state = SpriteEvalState::from_end_state();
                        } else if self.secondary_oam_addr >= 0x20 {
                            self.secondary_oam_addr = 0x1F;
                            self.eval_state = SpriteEvalState::from_overflow_state();
                        } else {
                            self.eval_state = SpriteEvalState::from_start_state();
                        }
                    }
                }
            }
            SpriteEvalState::OverflowSearch(k, rw) => {
                if rw == READ {
                    self.oam_data_buffer = self.primary_oam[a];
                    self.eval_state = SpriteEvalState::OverflowSearch(k, WRITE);
                } else {
                    let buffer = self.oam_data_buffer;
                    // writes to secondary OAM turn into reads
                    self.oam_data_buffer = self.secondary_oam[sa & 0x1F];
                    if k == 0 && self.sprite_in_range(context, buffer) {
                        // a ninth sprite: raise the overflow flag and read the
                        // rest of the sprite
                        context.status_reg.set(StatusRegister::SPRITE_OVERFLOW(), true);
                        self.oam_addr = next_m(a);
                        self.eval_state = SpriteEvalState::OverflowSearch(1, READ);
                    } else if k == 1 || k == 2 {
                        self.oam_addr = next_m(a);
                        self.eval_state = SpriteEvalState::OverflowSearch(k + 1, READ);
                    } else {
                        // next sprite, and (the hardware bug) next byte too
                        self.oam_addr = next_m(next_n(a));
                        if (self.oam_addr & 0xFC) == 0 {
                            self.eval_state = SpriteEvalState::from_end_state();
                        } else {
                            self.eval_state = SpriteEvalState::from_overflow_state();
                        }
                    }
                }
            }
            SpriteEvalState::End(rw) => {
                if rw == READ {
                    // attempt (and fail) to copy OAM[n][0] into secondary OAM
                    self.oam_data_buffer = self.primary_oam[a];
                    self.eval_state = SpriteEvalState::End(WRITE);
                } else {
                    // the write turns into a read of secondary OAM
                    self.oam_data_buffer = self.secondary_oam[sa & 0x1F];
                    self.oam_addr = next_n(a);
                    self.eval_state = SpriteEvalState::End(READ);
                }
            }
        }
    }

    /// One dot (65 to 256) of sprite evaluation; dot 65 starts it afresh.
    pub fn process_sprite_evaluation(&mut self, context: &mut Context)
        requires
            old(self).wf(),
        ensures
            final(self).wf(),
            ({
                let s0 = if old(context).hpos == 65 { spec_begin_evaluation(*old(self)) } else { *old(self) };
                let (s1, overflow) = spec_eval_step(s0, *old(context));
                &&& *final(self) == s1
                &&& final(context).status_reg.spec_bits() == (if overflow {
                        old(context).status_reg.spec_bits() | 0x20
                    } else {
                        old(context).status_reg.spec_bits()
                    })
            }),
            *final(context) == (Context { status_reg: final(context).status_reg, ..*old(context) }),
    {
        if context.hpos == 65 {
            self.begin_evaluation();
        }
        self.eval_step(context);
    }

    /// Loads the sprites found by evaluation for the line `vpos` (all at
    /// once; the fetch has no side effects on the bus).
    pub fn fetch_sprite_tile_data(&mut self, context: &mut Context)
        requires
            old(self).wf(),
            spec_rows_at_or_above(*old(self), old(context).vpos),
        ensures
            final(self).wf(),
            forall|j: int| 0 <= j < 8 ==> final(self).sprites@[j] == (if j < old(self).sprite_count {
                spec_fetched_sprite(*old(self), *old(context), j)
            } else {
                old(self).sprites@[j]
            }),
            *final(self) == (Sprites { sprites: final(self).sprites, ..*old(self) }),
            *final(context) == *old(context),
    {
        let sc = self.sprite_count as usize;
        let mut sprite_index: usize = 0;
        while sprite_index < sc
            invariant
                sc == old(self).sprite_count,
                sprite_index <= sc <= 8,
                old(self).wf(),
                spec_rows_at_or_above(*old(self), context.vpos),
                *context == *old(context),
                forall|j: int| 0 <= j < 8 ==> self.sprites@[j] == (if j < sprite_index {
                    spec_fetched_sprite(*old(self), *old(context), j)
                } else {
                    old(self).sprites@[j]
                }),
                *self == (Sprites { sprites: self.sprites, ..*old(self) }),
            decreases sc - sprite_index,
        {
            let i = sprite_index * 4;
            assert(spec_secondary_y(*old(self), sprite_index as int) <= context.vpos);
            let mut spr = self.sprites[sprite_index];
            spr.xpos_counter = self.secondary_oam[i + 3];
            spr.attribute = self.secondary_oam[i + 2];
            spr.tile_index = self.secondary_oam[i + 1];
            spr.sprite_line = (context.vpos - (self.secondary_oam[i] as u16)) as u8;
            spr.valid_sprite = if sprite_index < (self.sprite_count as usize) { true } else { false };
            // adjust for vertical flip
            if (spr.attribute & VFLIP) > 0 && context.control_reg.tall_sprites() {
                spr.sprite_line = spr.sprite_line ^ SPRITE_16X_FLIPMASK;
            } else if (spr.attribute & VFLIP) > 0 {
                spr.sprite_line = spr.sprite_line ^ SPRITE_8X_FLIPMASK;
            }
            self.sprites[sprite_index] = spr;
            sprite_index = sprite_index + 1;
        }
    }

    fn current_sprite_index(context: &Context) -> (r: usize)
        requires
            context.hpos >= 1,
        ensures
            r == spec_current_sprite_index(context.hpos),
            r < 8,
    {
        let d = context.hpos - 1;
        proof {
            super::sprites::lemma_fetch_index_bounded(d);
        }
        ((d >> 3) & 0x07) as usize
    }

    fn pattern_address(&self, context: &Context, offset: u16) -> (r: u16)
        requires
            context.hpos >= 1,
        ensures
            r == spec_pattern_address(*self, *context, offset),
    {
        let spr = self.sprites[Self::current_sprite_index(context)];
        let tile = spr.tile_index as u16;
        let line = spr.sprite_line as u16;
        if context.control_reg.tall_sprites() {
            (((tile & 1) << 12) | ((tile & 0xfe) << 4) | offset | (line & 7) | ((line & 0x08) << 1)) & 0xffff
        } else {
            (context.control_reg.sprite_table_address() | (tile << 4) | offset | line) & 0xffff
        }
    }

    /// The address of the low bit plane of the current fetch sprite's row.
    pub fn pattern0_address(&mut self, context: &mut Context) -> (r: u16)
        requires
            old(context).hpos >= 1,
        ensures
            r == spec_pattern_address(*old(self), *old(context), PATTERN0_OFFSET),
            *final(self) == *old(self),
            *final(context) == *old(context),
    {
        self.pattern_address(context, PATTERN0_OFFSET)
    }

    /// The address of the high bit plane of the current fetch sprite's row.
    pub fn pattern1_address(&mut self, context: &mut Context) -> (r: u16)
        requires
            old(context).hpos >= 1,
        ensures
            r == spec_pattern_address(*old(self), *old(context), PATTERN1_OFFSET),
            *final(self) == *old(self),
            *final(context) == *old(context),
    {
        self.pattern_address(context, PATTERN1_OFFSET)
    }

    fn set_pattern(&mut self, context: &Context, plane: usize, data: u8)
        requires
            old(self).wf(),
            context.hpos >= 1,
            plane < 2,
        ensures
            final(self).wf(),
            ({
                let i = spec_current_sprite_index(context.hpos);
                let spr = old(self).sprites@[i];
                let d = if i >= old(self).sprite_count {
                    0u8
                } else if spr.attribute & HFLIP > 0 {
                    spec_reverse_bits(data)
                } else {
                    data
                };
                &&& final(self).sprites@[i].pattern_queue@ == spr.pattern_queue@.update(plane as int, d)
                &&& final(self).sprites@[i] == (SpriteInfo { pattern_queue: final(self).sprites@[i].pattern_queue, ..spr })
                &&& forall|j: int| 0 <= j < 8 && j != i ==> final(self).sprites@[j] == old(self).sprites@[j]
            }),
            *final(self) == (Sprites { sprites: final(self).sprites, ..*old(self) }),
    {
        let i = Self::current_sprite_index(context);
        let mut spr = self.sprites[i];
        if i >= (self.sprite_count as usize) {
            // load the pattern with transparent data
            spr.pattern_queue[plane] = 0;
        } else if (spr.attribute & HFLIP) > 0 {
            spr.pattern_queue[plane] = reverse_bits(data);
        } else {
            spr.pattern_queue[plane] = data;
        }
        self.sprites[i] = spr;
    }

    /// Stores the low bit plane fetched for the current sprite: transparent
    /// past the sprite count, mirrored for a horizontally flipped sprite.
    pub fn set_pattern0(&mut self, context: &mut Context, data: u8)
        requires
            old(self).wf(),
            old(context).hpos >= 1,
        ensures
            final(self).wf(),
            ({
                let i = spec_current_sprite_index(old(context).hpos);
                let spr = old(self).sprites@[i];
                let d = if i >= old(self).sprite_count {
                    0u8
                } else if spr.attribute & HFLIP > 0 {
                    spec_reverse_bits(data)
                } else {
                    data
                };
                &&& final(self).sprites@[i].pattern_queue@ == spr.pattern_queue@.update(0, d)
                &&& final(self).sprites@[i] == (SpriteInfo { pattern_queue: final(self).sprites@[i].pattern_queue, ..spr })
                &&& forall|j: int| 0 <= j < 8 && j != i ==> final(self).sprites@[j] == old(self).sprites@[j]
            }),
            *final(self) == (Sprites { sprites: final(self).sprites, ..*old(self) }),
            *final(context) == *old(context),
    {
        self.set_pattern(context, PATTERN0_INDEX, data);
    }

    /// Stores the high bit plane fetched for the current sprite:
    /// transparent past the sprite count, mirrored for a horizontally
    /// flipped sprite.
    pub fn set_pattern1(&mut self, context: &mut Context, data: u8)
        requires
            old(self).wf(),
            old(context).hpos >= 1,
        ensures
            final(self).wf(),
            ({
                let i = spec_current_sprite_index(old(context).hpos);
                let spr = old(self).sprites@[i];
                let d = if i >= old(self).sprite_count {
                    0u8
                } else if spr.attribute & HFLIP > 0 {
                    spec_reverse_bits(data)
                } else {
                    data
                };
                &&& final(self).sprites@[i].pattern_queue@ == spr.pattern_queue@.update(1, d)
                &&& final(self).sprites@[i] == (SpriteInfo { pattern_queue: final(self).sprites@[i].pattern_queue, ..spr })
                &&& forall|j: int| 0 <= j < 8 && j != i ==> final(self).sprites@[j] == old(self).sprites@[j]
            }),
            *final(self) == (Sprites { sprites: final(self).sprites, ..*old(self) }),
            *final(context) == *old(context),
    {
        self.set_pattern(context, PATTERN1_INDEX, data);
    }

    /// The pixel of dot `hpos` once sprites are drawn over `bg_pixel`: the
    /// first valid sprite with an opaque pixel there decides. Sprite 0 over
    /// an opaque background pixel sets the sprite 0 hit flag (never at dot
    /// 255).
    pub fn select_sprite_pixel(&mut self, context: &mut Context, bg_pixel: u8) -> (r: u8)
        requires
            old(context).hpos >= 1,
        ensures
            *final(self) == *old(self),
            ({
                let px = (old(context).hpos - 1) as u16;
                let k = spec_first_opaque(old(self).sprites@, 0, px);
                let drawn = spec_sprites_shown(*old(context)) && k < 8;
                let spr = old(self).sprites@[k];
                &&& r == (if drawn { spec_mixed_pixel(spr, px, bg_pixel) } else { bg_pixel })
                &&& final(context).status_reg.spec_bits() == (if drawn && spr.attribute & OAM_ZERO > 0
                        && old(context).hpos < 255 && bg_pixel & 0x03 > 0 {
                        old(context).status_reg.spec_bits() | 0x40
                    } else {
                        old(context).status_reg.spec_bits()
                    })
            }),
            *final(context) == (Context { status_reg: final(context).status_reg, ..*old(context) }),
    {
        let pixel_index = context.hpos - 1;
        let left = context.mask_reg.contains(MaskRegister::LEFTMOST_8PXL_SPRITE());
        let show = context.mask_reg.contains(MaskRegister::SHOW_SPRITES());
        // check if sprites should be drawn
        if (left || pixel_index >= 8) && show {
            let mut i: usize = 0;
            while i < 8
                invariant
                    i <= 8,
                    pixel_index == old(context).hpos - 1,
                    *self == *old(self),
                    *context == *old(context),
                    spec_first_opaque(self.sprites@, 0, pixel_index) == spec_first_opaque(self.sprites@, i as int, pixel_index),
                    spec_sprites_shown(*old(context)),
                    old(context).hpos >= 1,
                decreases 8 - i,
            {
                let sprite = self.sprites[i];
                if sprite.valid_sprite {
                    // the first sprite visible on this pixel wins
                    if pixel_index >= sprite.xpos_counter as u16 && pixel_index - (sprite.xpos_counter as u16) < 8 {
                        let x_offset = pixel_index - (sprite.xpos_counter as u16);
                        let shift = (7 - x_offset) as u8;
                        let spr_pixel = ((sprite.pattern_queue[PATTERN0_INDEX] >> shift) & 0x01)
                            | (((sprite.pattern_queue[PATTERN1_INDEX] >> shift) << 1) & 0x02);
                        assert(spec_x_offset(sprite, pixel_index) == x_offset);
                        assert(spec_sprite_pixel(sprite, pixel_index) == spr_pixel);
                        if (spr_pixel & 0x03) > 0 {
                            assert(spec_first_opaque(self.sprites@, i as int, pixel_index) == i);
                            // no sprite 0 hit at dot 255
                            if (sprite.attribute & OAM_ZERO) > 0 && context.hpos < 255 && (bg_pixel & 0x03) > 0 {
                                context.status_reg.set(StatusRegister::SPRITE_ZERO_HIT(), true);
                            }
                            if (sprite.attribute & OAM_PRIORITY) == 0 || (bg_pixel & 0x03) == 0 {
                                let r = 0x10 | spr_pixel | (((sprite.attribute & 0x03) << 2) & 0xff);
                                return r;
                            }
                            return bg_pixel;
                        }
                    }
                }
                i = i + 1;
            }
        }
        bg_pixel
    }

    /// Called during pre-render so that no sprite is drawn on line 0.
    pub fn clear_sprites(&mut self)
        requires
            old(self).wf(),
        ensures
            final(self).wf(),
            forall|j: int| 0 <= j < 8 ==> final(self).sprites@[j] == (SpriteInfo {
                valid_sprite: false,
                pattern_queue: [0u8, 0u8],
                ..old(self).sprites@[j]
            }),
            *final(self) == (Sprites { sprites: final(self).sprites, ..*old(self) }),
    {
        let mut i: usize = 0;
        while i < 8
            invariant
                i <= 8,
                forall|j: int| 0 <= j < 8 ==> self.sprites@[j] == (if j < i {
                    SpriteInfo { valid_sprite: false, pattern_queue: [0u8, 0u8], ..old(self).sprites@[j] }
                } else {
                    old(self).sprites@[j]
                }),
                *self == (Sprites { sprites: self.sprites, ..*old(self) }),
            decreases 8 - i,
        {
            let mut spr = self.sprites[i];
            spr.valid_sprite = false;
            spr.pattern_queue = [0u8, 0u8];
            self.sprites[i] = spr;
            i = i + 1;
        }
    }

    /// OAMADDR is cleared on each of dots 257-320 of the pre-render and
    /// visible lines.
    pub fn clear_oam_addr(&mut self)
        requires
            old(self).wf(),
        ensures
            final(self).wf(),
            *final(self) == (Sprites { oam_addr: 0, ..*old(self) }),
    {
        self.oam_addr = 0;
    }
}

} // verus!
