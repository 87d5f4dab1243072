//! What the PPU does on each dot of each kind of scanline: the visible lines
//! 0-239, the post-render line 240, the vblank lines 241-260 and the
//! pre-render line 261.

use vstd::prelude::*;
use crate::mos;
use crate::nes::mappers::Mapper;
use super::Context;
use super::bus::{Bus, IOAction, spec_fetch, spec_idle_access};
use super::background::Background;
use super::sprites::Sprites;
use super::palette_ram::PaletteRam;
use super::ppu_registers::{StatusRegister, AddrReg};
use super::ppu_operations::{
    render_idle_cycle, prerender_idle_cycle, nonrender_cycle, open_tile_index, read_tile_index,
    open_background_attribute, read_background_attribute, open_background_pattern0, read_background_pattern0,
    open_background_pattern1, read_background_pattern1, open_sprite_pattern0, read_sprite_pattern0,
    open_sprite_pattern1, read_sprite_pattern1, enter_vblank, vblank_nmi_update,
};

verus! {

/// Pixels in a frame: 256 x 240.
pub const FRAME_PIXELS: usize = 61440;

/// The dot after `dot` on a line of 341 dots.
pub open spec fn spec_next_dot(dot: u16) -> u16 {
    if dot == 340 { 0 } else { (dot + 1) as u16 }
}

/// The line the PPU is on after the dot.
pub open spec fn spec_next_line(line: u16, dot: u16) -> u16 {
    if dot == 340 { (line + 1) as u16 } else { line }
}

/// The parts of the context a dot keeps: the fine x scroll stays a 3 bit
/// value, the cycle counters stay ordered, the frame counter is only
/// touched by vblank.
pub open spec fn spec_keeps(a: Context, b: Context) -> bool {
    &&& b.addr_reg.x == a.addr_reg.x
    &&& b.cycle == a.cycle
    &&& b.read_2002_cycle == a.read_2002_cycle
    &&& b.frame == a.frame
    &&& b.control_reg == a.control_reg
    &&& b.mask_reg == a.mask_reg
    &&& b.odd_frame == a.odd_frame
    &&& b.last_frame_cycle == a.last_frame_cycle
}

/// The first four steps of a tile fetch, and the pattern steps of the
/// background: phase 0 puts the nametable address of v on the bus, phase 1
/// latches the tile index, phase 2 puts the attribute address on the bus,
/// phase 3 latches the tile's two attribute bits, phase 5 the low pattern
/// byte; phases 4 and 6 only address the bus. A read step also serves a
/// pending PPUDATA access, which moves v on.
pub open spec fn spec_fetch_step(p0: Context, p1: Context, b0: Bus, b1: Bus, g0: Background, g1: Background, phase: u16) -> bool {
    let v = p0.addr_reg.v;
    let a = super::ppu_operations::spec_after_render_io(p0.addr_reg, b0.io_action != IOAction::Idle);
    &&& phase == 0 ==> b1.pinout.address == 0x2000 | (v & 0x0FFF) && p1 == p0 && g1 == g0
    &&& phase == 1 ==> g1.next_tile_index == b1.pinout.data as u16 && p1.addr_reg == a
        && b1.pinout.address == 0x2000 | (v & 0x0FFF)
    &&& phase == 2 ==> b1.pinout.address == 0x23C0 | (v & 0x0C00) | ((v >> 4u16) & 0x38) | ((v >> 2u16) & 0x07)
        && p1 == p0 && g1 == g0
    &&& phase == 3 ==> g1.next_attribute == (b1.pinout.data >> ((((a.v >> 4u16) & 4) | (a.v & 2)) as u8)) & 0x03
        && p1.addr_reg == a
        && b1.pinout.address == 0x23C0 | (v & 0x0C00) | ((v >> 4u16) & 0x38) | ((v >> 2u16) & 0x07)
    &&& (phase == 4 || phase == 6) ==> p1 == p0 && g1 == g0
    &&& (phase == 4 || phase == 5) ==> b1.pinout.address == g0.spec_pattern_address(p0, 0)
    &&& (phase == 6 || phase == 7) ==> b1.pinout.address == g0.spec_pattern_address(p0, 8)
    &&& phase == 5 ==> g1.next_pattern@ == g0.next_pattern@.update(0, b1.pinout.data) && p1.addr_reg == a
        && g1.pattern_queue == g0.pattern_queue && g1.attribute_queue == g0.attribute_queue
}

/// The mapper side of a fetch step: the data steps (odd phases) fetch at
/// the address on the bus, the address steps leave the mapper and the data
/// on the bus alone.
pub open spec fn spec_fetch_mem<M: Mapper>(b0: Bus, b1: Bus, m0: M, m1: M, phase: u16) -> bool {
    if phase % 2 == 1 {
        spec_fetch(b0, b1, m0, m1, b1.pinout.address)
    } else {
        m1 == m0 && b1.pinout.data == b0.pinout.data
    }
}

/// The bus cycle of a rendering dot: dot 0 is idle (only a pending PPUDATA
/// access reaches the mapper), the even dots fetch at the address on the
/// bus, the odd dots only put an address on the bus.
pub open spec fn spec_dot_bus<M: Mapper>(b0: Bus, b1: Bus, m0: M, m1: M, dot: u16) -> bool {
    if dot == 0 {
        spec_idle_access(b0, b1, m0, m1, b1.pinout.address)
    } else if dot % 2 == 0 {
        spec_fetch(b0, b1, m0, m1, b1.pinout.address)
    } else {
        m1 == m0 && b1.pinout.data == b0.pinout.data
    }
}

/// The background unit after fetch step `phase` (from `g0` to `g1`), `data`
/// being the byte on the bus and `a` the address register the step works
/// with: the data steps latch the tile index, the tile's two attribute
/// bits, and the low and high pattern bytes; after the high byte the tile
/// enters the shift registers (shifted in a byte when `idle_update`, in
/// the free low byte otherwise); the address steps change nothing.
pub open spec fn spec_bg_fetch(g0: Background, g1: Background, a: AddrReg, data: u8, phase: u16, idle_update: bool) -> bool {
    if phase == 1 {
        g1 == (Background { next_tile_index: data as u16, ..g0 })
    } else if phase == 3 {
        g1 == (Background { next_attribute: (data >> ((((a.v >> 4u16) & 4) | (a.v & 2)) as u8)) & 0x03, ..g0 })
    } else if phase == 5 {
        &&& g1.next_pattern@ == g0.next_pattern@.update(0, data)
        &&& g1 == (Background { next_pattern: g1.next_pattern, ..g0 })
    } else if phase == 7 {
        let np = g0.next_pattern@.update(1, data);
        let q = g0.pattern_queue@;
        let aq = g0.attribute_queue@;
        &&& g1.next_pattern@ == np
        &&& g1.pattern_queue@ == (if idle_update {
                seq![(q[0] << 8u16) | (np[0] as u16), (q[1] << 8u16) | (np[1] as u16)]
            } else {
                seq![q[0] | (np[0] as u16), q[1] | (np[1] as u16)]
            })
        &&& g1.attribute_queue@ == (if idle_update {
                seq![(aq[0] << 8u16) | super::background::spec_replicated(g0.next_attribute, 0),
                    (aq[1] << 8u16) | super::background::spec_replicated(g0.next_attribute, 1)]
            } else {
                seq![aq[0] | super::background::spec_replicated(g0.next_attribute, 0),
                    aq[1] | super::background::spec_replicated(g0.next_attribute, 1)]
            })
        &&& g1.next_tile_index == g0.next_tile_index
        &&& g1.next_attribute == g0.next_attribute
    } else {
        g1 == g0
    }
}

/// The background unit after a drawn pixel: both shift registers move on
/// by one bit.
pub open spec fn spec_bg_shifted(g0: Background, g1: Background) -> bool {
    &&& g1.pattern_queue@ == seq![g0.pattern_queue@[0] << 1u16, g0.pattern_queue@[1] << 1u16]
    &&& g1.attribute_queue@ == seq![g0.attribute_queue@[0] << 1u16, g0.attribute_queue@[1] << 1u16]
    &&& g1.next_pattern == g0.next_pattern
    &&& g1.next_tile_index == g0.next_tile_index
    &&& g1.next_attribute == g0.next_attribute
}

/// The address register after a rendering dot (visible or pre-render
/// line), from `a`, `served` telling whether a pending PPUDATA access took
/// the dot's bus cycle (it moves v on by a tile and a line): the last
/// fetch of each tile (dots 8, 16, ... 256, 328, 336) moves v to the next
/// tile; dot 256 moves it down a line; dot 257 copies the horizontal
/// position, dots 280-304 the vertical position from t.
pub open spec fn spec_render_addr(a: AddrReg, served: bool, dot: u16) -> AddrReg {
    let io = super::ppu_operations::spec_after_render_io(a, served);
    if dot == 0 {
        io
    } else if dot <= 256 || (321 <= dot <= 336) {
        let ph = if dot <= 256 { (dot - 1) % 8 } else { (dot - 321) % 8 };
        let f = if ph == 7 {
            if served { io } else { AddrReg { v: AddrReg::spec_coarse_x_increment(a.v), ..a } }
        } else if ph % 2 == 1 {
            io
        } else {
            a
        };
        if dot == 256 { AddrReg { v: AddrReg::spec_y_increment(f.v), ..f } } else { f }
    } else if dot <= 320 {
        let f = if (dot - 257) % 8 % 2 == 1 { io } else { a };
        let g = if dot == 257 { AddrReg { v: (f.v & 0xFBE0) | (f.t & 0x041F), ..f } } else { f };
        if 280 <= dot <= 304 { AddrReg { v: (g.v & 0x841F) | (g.t & 0x7BE0), ..g } } else { g }
    } else if dot == 337 || dot == 339 {
        a
    } else {
        io
    }
}

/// The background unit after a rendering dot's fetch (`g0` before any
/// fetch, `a` the address register before the dot, `data` the byte on the
/// bus after it): dots 1-256 fetch the next tiles (idle update off), dots
/// 257-320 make two garbage nametable fetches per sprite, dots 321-336
/// fetch the first two tiles of the next line, dots 338 and 340 fetch a
/// tile index.
pub open spec fn spec_render_bg_fetch(g0: Background, g1: Background, a: AddrReg, served: bool, data: u8, dot: u16) -> bool {
    let io = super::ppu_operations::spec_after_render_io(a, served);
    if 1 <= dot <= 256 {
        spec_bg_fetch(g0, g1, io, data, ((dot - 1) % 8) as u16, false)
    } else if 257 <= dot <= 320 {
        let ph = (dot - 257) % 8;
        if ph < 4 { spec_bg_fetch(g0, g1, io, data, ph as u16, false) } else { g1 == g0 }
    } else if 321 <= dot <= 336 {
        spec_bg_fetch(g0, g1, io, data, ((dot - 321) % 8) as u16, true)
    } else if dot == 338 || dot == 340 {
        g1 == (Background { next_tile_index: data as u16, ..g0 })
    } else {
        g1 == g0
    }
}

/// The sprite unit's fetches on dots 257-320 (`s0` before, `s1` after,
/// `data` the byte on the bus after the dot): with `take_sprite`, the
/// first dot of each sprite's slot takes the sprite from secondary OAM;
/// the fifth and seventh store its low and high pattern bytes.
pub open spec fn spec_sprite_fetch_dot(s0: Sprites, s1: Sprites, ppu: Context, data: u8, take_sprite: bool) -> bool {
    let ph = (ppu.scanline_dot - 257) % 8;
    if ph == 0 && take_sprite {
        Sprites::spec_sprite_fetched(s0, s1, ppu)
    } else if ph == 5 {
        super::sprites::spec_pattern_stored(s0, s1, ppu.scanline_dot, 0, data)
    } else if ph == 7 {
        super::sprites::spec_pattern_stored(s0, s1, ppu.scanline_dot, 1, data)
    } else {
        s1 == s0
    }
}

/// The address a rendering dot (1 to 340) puts on the PPU bus, from the
/// context `p`, background unit `g` and sprite unit `s` before the dot:
/// each tile fetch goes nametable byte, attribute byte, low and high
/// pattern byte (two dots each); on dots 257-320 the pattern bytes are the
/// sprites'; dots 337-340 fetch nametable bytes.
pub open spec fn spec_render_fetch_address(p: Context, g: Background, s: Sprites, dot: u16) -> u16 {
    let v = p.addr_reg.v;
    let ph = if dot <= 256 { (dot - 1) % 8 } else if dot <= 320 { (dot - 257) % 8 } else if dot <= 336 { (dot - 321) % 8 } else { 0 };
    if ph < 2 {
        0x2000 | (v & 0x0FFF)
    } else if ph < 4 {
        0x23C0 | (v & 0x0C00) | ((v >> 4u16) & 0x38) | ((v >> 2u16) & 0x07)
    } else if 257 <= dot <= 320 {
        s.spec_pattern_address(p, if ph < 6 { 0 } else { 8 })
    } else {
        g.spec_pattern_address(p, if ph < 6 { 0 } else { 8 })
    }
}

/// What a dot of a visible line with rendering on does to the PPU's units
/// (`p`, `b`, `g`, `s`: the context, bus, background and sprite units
/// before and after): the address register, the background fetches, the
/// sprite unit and the address each fetch reads.
pub open spec fn spec_render_units(p0: Context, p1: Context, b0: Bus, b1: Bus, g0: Background, g1: Background, s0: Sprites, s1: Sprites) -> bool {
    &&& p1.addr_reg == spec_render_addr(p0.addr_reg, b0.io_action != IOAction::Idle, p0.scanline_dot)
    // the background unit: a drawn pixel shifts it, then the dot's fetch
    &&& 1 <= p0.scanline_dot <= 256 ==> exists|g: Background| #[trigger] spec_bg_shifted(g0, g)
        && spec_render_bg_fetch(g, g1, p0.addr_reg, b0.io_action != IOAction::Idle,
            b1.pinout.data, p0.scanline_dot)
    &&& !(1 <= p0.scanline_dot <= 256) ==> spec_render_bg_fetch(g0, g1, p0.addr_reg,
        b0.io_action != IOAction::Idle, b1.pinout.data, p0.scanline_dot)
    // the sprite unit: secondary OAM cleared at dot 1, the next line's
    // sprites evaluated on dots 65-256 (raising sprite overflow), fetched
    // on dots 257-320
    &&& p0.scanline_dot == 1 ==> Sprites::spec_cleared(s0, s1, p0.oam_addr_reg)
    &&& 2 <= p0.scanline_dot <= 64 ==> s1 == s0
    &&& 65 <= p0.scanline_dot <= 256 ==> exists|p: Context| {
        let e = #[trigger] super::sprites::spec_evaluate(s0, p);
        &&& p == (Context { status_reg: p.status_reg, ..p0 })
        &&& p.status_reg.spec_bits() == (if s0.spec_zero_hit(p0, g0.spec_output(p0)) {
                p0.status_reg.spec_bits() | 0x40
            } else {
                p0.status_reg.spec_bits()
            })
        &&& s1 == e.0
        &&& p1.status_reg.spec_bits() == (if e.1 { p.status_reg.spec_bits() | 0x20 } else { p.status_reg.spec_bits() })
        &&& p1.oam_addr_reg == s0.primary_oam_index.0
    }
    &&& 257 <= p0.scanline_dot <= 320 ==> spec_sprite_fetch_dot(s0, s1, p0, b1.pinout.data, true)
    &&& (p0.scanline_dot == 0 || p0.scanline_dot >= 321) ==> s1 == s0
    &&& 1 <= p0.scanline_dot ==> b1.pinout.address == spec_render_fetch_address(p0, g0, s0, p0.scanline_dot)
    &&& p0.scanline_dot == 0 ==> b1.pinout.address == g0.spec_pattern_address(p0, 0)
}

/// What a dot of the pre-render line with rendering on does to the PPU's
/// units: the same address register updates and fetches as a visible line,
/// but nothing is drawn (the first tiles' fetches shift in whole bytes),
/// no sprites are evaluated and none taken from secondary OAM.
pub open spec fn spec_prerender_units(p0: Context, p1: Context, b0: Bus, b1: Bus, g0: Background, g1: Background, s0: Sprites, s1: Sprites) -> bool {
    &&& p1.addr_reg == spec_render_addr(p0.addr_reg, b0.io_action != IOAction::Idle, p0.scanline_dot)
    &&& 1 <= p0.scanline_dot <= 256 ==> spec_bg_fetch(g0, g1,
            super::ppu_operations::spec_after_render_io(p0.addr_reg, b0.io_action != IOAction::Idle),
            b1.pinout.data, ((p0.scanline_dot - 1) % 8) as u16, true)
    &&& !(1 <= p0.scanline_dot <= 256) ==> spec_render_bg_fetch(g0, g1, p0.addr_reg,
            b0.io_action != IOAction::Idle, b1.pinout.data, p0.scanline_dot)
    &&& 257 <= p0.scanline_dot <= 320 ==> spec_sprite_fetch_dot(s0, s1, p0, b1.pinout.data, false)
    &&& !(257 <= p0.scanline_dot <= 320) ==> s1 == s0
    &&& 1 <= p0.scanline_dot ==> b1.pinout.address == spec_render_fetch_address(p0, g0, s0, p0.scanline_dot)
    &&& p0.scanline_dot == 0 ==> b1.pinout.address == p0.addr_reg.v & 0x3FFF
}

/// One background fetch step: `phase` 0-7 of the tile fetch (nametable,
/// attribute, low and high pattern bytes, each an address cycle and a data
/// cycle). After the last step the tile enters the shift registers.
fn background_fetch<M: Mapper>(ppu: &mut Context, bus: &mut Bus, bg: &mut Background, mapper: &mut M, phase: u16, idle_update: bool)
    requires
        phase < 8,
    ensures
        spec_keeps(*old(ppu), *final(ppu)),
        final(ppu).scanline_index == old(ppu).scanline_index,
        final(ppu).scanline_dot == old(ppu).scanline_dot,
        final(ppu).status_reg == old(ppu).status_reg,
        final(ppu).oam_addr_reg == old(ppu).oam_addr_reg,
        final(ppu).oam_ram_primary == old(ppu).oam_ram_primary,
        spec_fetch_step(*old(ppu), *final(ppu), *old(bus), *final(bus), *old(bg), *final(bg), phase),
        spec_fetch_mem(*old(bus), *final(bus), *old(mapper), *final(mapper), phase),
        spec_bg_fetch(*old(bg), *final(bg),
            super::ppu_operations::spec_after_render_io(old(ppu).addr_reg, old(bus).io_action != IOAction::Idle),
            final(bus).pinout.data, phase, idle_update),
        phase == 7 && old(bus).io_action != IOAction::Idle ==> final(ppu).addr_reg
            == super::ppu_operations::spec_after_render_io(old(ppu).addr_reg, true),
        phase == 7 ==> ({
            let np = final(bg).next_pattern@;
            let q = old(bg).pattern_queue@;
            &&& np == old(bg).next_pattern@.update(1, final(bus).pinout.data)
            &&& final(bg).pattern_queue@ == (if idle_update {
                    seq![(q[0] << 8u16) | (np[0] as u16), (q[1] << 8u16) | (np[1] as u16)]
                } else {
                    seq![q[0] | (np[0] as u16), q[1] | (np[1] as u16)]
                })
            &&& old(bus).io_action == IOAction::Idle ==> final(ppu).addr_reg
                == (AddrReg { v: AddrReg::spec_coarse_x_increment(old(ppu).addr_reg.v), ..old(ppu).addr_reg })
        }),
{
    if phase == 0 {
        open_tile_index(ppu, bus, mapper);
    } else if phase == 1 {
        read_tile_index(ppu, bus, bg, mapper);
    } else if phase == 2 {
        open_background_attribute(ppu, bus, mapper);
    } else if phase == 3 {
        read_background_attribute(ppu, bus, bg, mapper);
    } else if phase == 4 {
        open_background_pattern0(ppu, bus, bg, mapper);
    } else if phase == 5 {
        read_background_pattern0(ppu, bus, bg, mapper);
    } else if phase == 6 {
        open_background_pattern1(ppu, bus, bg, mapper);
    } else {
        read_background_pattern1(ppu, bus, bg, mapper);
        if idle_update {
            bg.update_shift_registers_idle();
        } else {
            bg.update_shift_registers_render();
        }
    }
}

/// One sprite fetch step: `phase` 0-7 (two garbage nametable fetches,
/// then the low and high pattern bytes of a sprite).
fn sprite_fetch<M: Mapper>(ppu: &mut Context, bus: &mut Bus, bg: &mut Background, sp: &mut Sprites, mapper: &mut M, phase: u16)
    requires
        phase < 8,
        old(sp).wf(),
        old(ppu).scanline_dot >= 1,
    ensures
        final(sp).wf(),
        spec_keeps(*old(ppu), *final(ppu)),
        final(ppu).scanline_index == old(ppu).scanline_index,
        final(ppu).scanline_dot == old(ppu).scanline_dot,
        final(ppu).status_reg == old(ppu).status_reg,
        final(ppu).oam_addr_reg == old(ppu).oam_addr_reg,
        phase < 4 ==> spec_fetch_step(*old(ppu), *final(ppu), *old(bus), *final(bus), *old(bg), *final(bg), phase),
        phase >= 4 ==> *final(bg) == *old(bg),
        phase == 4 ==> final(bus).pinout.address == old(sp).spec_pattern_address(*old(ppu), 0)
            && *final(ppu) == *old(ppu) && *final(sp) == *old(sp),
        phase == 6 ==> final(bus).pinout.address == old(sp).spec_pattern_address(*old(ppu), 8)
            && *final(ppu) == *old(ppu) && *final(sp) == *old(sp),
        phase == 5 ==> super::sprites::spec_pattern_stored(*old(sp), *final(sp), old(ppu).scanline_dot, 0, final(bus).pinout.data)
            && final(ppu).addr_reg == super::ppu_operations::spec_after_render_io(old(ppu).addr_reg, old(bus).io_action != IOAction::Idle),
        phase == 7 ==> super::sprites::spec_pattern_stored(*old(sp), *final(sp), old(ppu).scanline_dot, 1, final(bus).pinout.data)
            && final(ppu).addr_reg == super::ppu_operations::spec_after_render_io(old(ppu).addr_reg, old(bus).io_action != IOAction::Idle),
        phase < 4 ==> *final(sp) == *old(sp),
        phase < 4 ==> spec_bg_fetch(*old(bg), *final(bg),
            super::ppu_operations::spec_after_render_io(old(ppu).addr_reg, old(bus).io_action != IOAction::Idle),
            final(bus).pinout.data, phase, false),
        spec_fetch_mem(*old(bus), *final(bus), *old(mapper), *final(mapper), phase),
        phase == 5 ==> final(bus).pinout.address == old(sp).spec_pattern_address(*old(ppu), 0),
        phase == 7 ==> final(bus).pinout.address == old(sp).spec_pattern_address(*old(ppu), 8),
{
    if phase == 0 {
        open_tile_index(ppu, bus, mapper);
    } else if phase == 1 {
        read_tile_index(ppu, bus, bg, mapper);
    } else if phase == 2 {
        open_background_attribute(ppu, bus, mapper);
    } else if phase == 3 {
        read_background_attribute(ppu, bus, bg, mapper);
    } else if phase == 4 {
        open_sprite_pattern0(ppu, bus, sp, mapper);
    } else if phase == 5 {
        read_sprite_pattern0(ppu, bus, sp, mapper);
    } else if phase == 6 {
        open_sprite_pattern1(ppu, bus, sp, mapper);
    } else {
        read_sprite_pattern1(ppu, bus, sp, mapper);
    }
}

/// The frame buffer entry of a dot on a visible line: dots 1 to 256 draw
/// the pixels 0 to 255 of the line.
pub open spec fn spec_pixel_index(line: u16, dot: u16) -> int {
    (dot - 1) + line * 256
}

/// A palette entry as it reaches the frame buffer: greyscale masks the
/// colour, the emphasis bits go above it.
pub open spec fn spec_colour(entry: u8, mask_bits: u8) -> u16 {
    ((entry & (if mask_bits & 1 == 1 { 0x30u8 } else { 0x3Fu8 })) as u16) | (((mask_bits & 0xE0) as u16) << 1u16)
}

/// The entry drawn with rendering off: the backdrop, or the palette entry
/// that v points at when v is in the palette.
pub open spec fn spec_blank_entry(ppu: Context, pram: Seq<u8>) -> u8 {
    let v = ppu.addr_reg.v & 0x3FFF;
    if v >= 0x3F00 { pram[super::ppu_operations::spec_palette_index(v)] } else { pram[super::ppu_operations::spec_palette_index(0)] }
}

/// What a dot does to the frame buffer: a dot 1 to 256 of a visible line
/// writes `colour` to its own pixel and no other entry; every other dot
/// leaves the frame buffer alone.
pub open spec fn spec_dot_writes(before: Seq<u16>, after: Seq<u16>, c: Context, colour: u16) -> bool {
    if c.scanline_index < 240 && 1 <= c.scanline_dot <= 256 {
        after == before.update(spec_pixel_index(c.scanline_index, c.scanline_dot), colour)
    } else {
        after == before
    }
}

/// The colour of a pixel drawn while rendering: the palette entry of
/// `drawn`, the pixel the background and sprite units put out.
pub open spec fn spec_render_colour(c: Context, pram: Seq<u8>, drawn: u8) -> u16 {
    spec_colour(pram[super::ppu_operations::spec_render_palette_index(drawn as u16)], c.mask_reg.spec_bits())
}

/// The colour of a pixel drawn with rendering off.
pub open spec fn spec_blank_colour(c: Context, pram: Seq<u8>) -> u16 {
    spec_colour(spec_blank_entry(c, pram), c.mask_reg.spec_bits())
}

/// The frame buffer entry of the current dot.
fn pixel_index(ppu: &Context) -> (r: usize)
    requires
        1 <= ppu.scanline_dot <= 256,
        ppu.scanline_index < 240,
    ensures
        r == spec_pixel_index(ppu.scanline_index, ppu.scanline_dot),
        r < FRAME_PIXELS,
{
    ((ppu.scanline_dot - 1) as usize) + (ppu.scanline_index as usize) * 256
}

/// Draws the pixel of the current dot: the background pixel, the sprites
/// over it, through the palette, with greyscale and emphasis applied.
fn select_pixel(fb: &mut Vec<u16>, ppu: &mut Context, pram: &mut PaletteRam, bg: &mut Background, sp: &mut Sprites)
    requires
        old(fb)@.len() >= FRAME_PIXELS,
        1 <= old(ppu).scanline_dot <= 256,
        old(ppu).scanline_index < 240,
        old(ppu).addr_reg.x < 8,
        old(sp).wf(),
    ensures
        final(fb)@.len() == old(fb)@.len(),
        final(sp).wf(),
        spec_keeps(*old(ppu), *final(ppu)),
        final(ppu).scanline_index == old(ppu).scanline_index,
        final(ppu).scanline_dot == old(ppu).scanline_dot,
        final(ppu).addr_reg == old(ppu).addr_reg,
        final(ppu).oam_addr_reg == old(ppu).oam_addr_reg,
        *final(pram) == *old(pram),
        final(fb)@ == old(fb)@.update(spec_pixel_index(old(ppu).scanline_index, old(ppu).scanline_dot),
            spec_render_colour(*old(ppu), old(pram).ram@, old(sp).spec_output(*old(ppu), old(bg).spec_output(*old(ppu))))),
        final(ppu).status_reg.spec_bits() == (if old(sp).spec_zero_hit(*old(ppu), old(bg).spec_output(*old(ppu))) {
            old(ppu).status_reg.spec_bits() | 0x40
        } else {
            old(ppu).status_reg.spec_bits()
        }),
        *final(ppu) == (Context { status_reg: final(ppu).status_reg, ..*old(ppu) }),
        spec_bg_shifted(*old(bg), *final(bg)),
        *final(sp) == *old(sp),
{
    let index = pixel_index(ppu);
    // the background pixel is the default
    let bg_pixel = bg.select_background_pixel(ppu);
    let pixel = sp.select_sprite_pixel(ppu, bg_pixel);
    let colour = ((pram.read_during_render(pixel as u16) & ppu.mask_reg.monochrome_mask()) as u16) | ppu.mask_reg.emphasis_mask();
    fb[index] = colour;
    assert(fb@[index as int] == spec_colour(old(pram).ram@[super::ppu_operations::spec_render_palette_index(pixel as u16)], old(ppu).mask_reg.spec_bits()));
}

/// Draws the backdrop (or, when v points into the palette, that palette
/// entry) on a line with rendering off.
fn select_blank_pixel(fb: &mut Vec<u16>, ppu: &mut Context, pram: &mut PaletteRam)
    requires
        old(fb)@.len() >= FRAME_PIXELS,
        1 <= old(ppu).scanline_dot <= 256,
        old(ppu).scanline_index < 240,
    ensures
        final(fb)@.len() == old(fb)@.len(),
        *final(ppu) == *old(ppu),
        *final(pram) == *old(pram),
        final(fb)@ == old(fb)@.update(spec_pixel_index(old(ppu).scanline_index, old(ppu).scanline_dot),
            spec_colour(spec_blank_entry(*old(ppu), old(pram).ram@), old(ppu).mask_reg.spec_bits())),
{
    let index = pixel_index(ppu);
    let v = ppu.addr_reg.vram_address();
    let entry = if v >= 0x3F00 { pram.read(v) } else { pram.read(0x00) };
    fb[index] = ((entry & ppu.mask_reg.monochrome_mask()) as u16) | ppu.mask_reg.emphasis_mask();
}

/// Raising the overflow flag keeps sprite 0 hit; raising sprite 0 hit
/// sets it.
proof fn lemma_hit_bit(b: u8)
    ensures
        (b | 0x20) & 0x40 == b & 0x40,
        (b | 0x40) & 0x40 == 0x40,
{
    assert((b | 0x20) & 0x40 == b & 0x40 && (b | 0x40) & 0x40 == 0x40) by (bit_vector);
}

/// One dot of a visible line with rendering on.
#[verifier::spinoff_prover]
pub fn scanline_render_tick<M: Mapper>(fb: &mut Vec<u16>, ppu: &mut Context, bus: &mut Bus, pram: &mut PaletteRam, bg: &mut Background, sp: &mut Sprites, mapper: &mut M)
    requires
        old(fb)@.len() >= FRAME_PIXELS,
        old(ppu).scanline_index < 240,
        old(ppu).scanline_dot <= 340,
        old(ppu).addr_reg.x < 8,
        old(sp).wf(),
    ensures
        final(fb)@.len() == old(fb)@.len(),
        final(sp).wf(),
        spec_keeps(*old(ppu), *final(ppu)),
        final(ppu).scanline_dot == spec_next_dot(old(ppu).scanline_dot),
        final(ppu).scanline_index == spec_next_line(old(ppu).scanline_index, old(ppu).scanline_dot),
        spec_dot_writes(old(fb)@, final(fb)@, *old(ppu),
            spec_render_colour(*old(ppu), old(pram).ram@, old(sp).spec_output(*old(ppu), old(bg).spec_output(*old(ppu))))),
        280 <= old(ppu).scanline_dot <= 304 ==> final(ppu).addr_reg.v & 0x7BE0 == final(ppu).addr_reg.t & 0x7BE0,
        1 <= old(ppu).scanline_dot <= 256 ==> final(ppu).status_reg.spec_bits() & 0x40 == (
            if old(sp).spec_zero_hit(*old(ppu), old(bg).spec_output(*old(ppu))) { 0x40u8 } else { old(ppu).status_reg.spec_bits() & 0x40 }),
        *final(pram) == *old(pram),
        old(ppu).scanline_dot == 257 ==> final(ppu).addr_reg == (AddrReg {
            v: (old(ppu).addr_reg.v & 0xFBE0) | (old(ppu).addr_reg.t & 0x041F),
            ..old(ppu).addr_reg
        }),
        old(ppu).scanline_dot == 257 ==> final(ppu).oam_addr_reg == 0,
        spec_dot_bus(*old(bus), *final(bus), *old(mapper), *final(mapper), old(ppu).scanline_dot),
        spec_render_units(*old(ppu), *final(ppu), *old(bus), *final(bus), *old(bg), *final(bg), *old(sp), *final(sp)),
{
    let dot = ppu.scanline_dot;
    if dot == 0 {
        render_idle_cycle(ppu, bus, bg, mapper);
    } else if dot <= 256 {
        // pixels out, tile data fetched, sprites evaluated
        select_pixel(fb, ppu, pram, bg, sp);
        let ghost shifted = *bg;
        let ghost p_mid = *ppu;
        let ghost hit_bits = ppu.status_reg.spec_bits();
        proof {
            lemma_hit_bit(old(ppu).status_reg.spec_bits());
            lemma_hit_bit(hit_bits);
        }
        if dot == 1 {
            sp.clear_secondary_oam(ppu.oam_addr_reg);
        }
        background_fetch(ppu, bus, bg, mapper, (dot - 1) % 8, false);
        if dot >= 65 {
            sp.evaluate(ppu);
            assert(super::sprites::spec_evaluate(*old(sp), p_mid) == super::sprites::spec_evaluate(*old(sp), p_mid));
        }
        if dot == 256 {
            ppu.addr_reg.y_increment();
        }
        assert(spec_bg_shifted(*old(bg), shifted));
    } else if dot <= 320 {
        // sprite data for the next line
        let phase = (dot - 257) % 8;
        if phase == 0 {
            open_tile_index(ppu, bus, mapper);
            if dot == 257 {
                // OAMADDR is cleared during sprite fetches
                ppu.oam_addr_reg = 0;
            }
            sp.fetch_sprite_data(ppu);
            if dot == 257 {
                // v takes the horizontal position from t
                ppu.addr_reg.horizontal_copy();
            }
        } else {
            sprite_fetch(ppu, bus, bg, sp, mapper, phase);
        }
        if 280 <= dot && dot <= 304 {
            // v takes the vertical position from t
            ppu.addr_reg.vertical_copy();
        }
    } else if dot <= 336 {
        // the first two tiles of the next line
        background_fetch(ppu, bus, bg, mapper, (dot - 321) % 8, true);
    } else if dot == 337 || dot == 339 {
        // garbage nametable fetches
        open_tile_index(ppu, bus, mapper);
    } else {
        read_tile_index(ppu, bus, bg, mapper);
    }

    if dot == 340 {
        ppu.scanline_dot = 0;
        ppu.scanline_index = ppu.scanline_index + 1;
    } else {
        ppu.scanline_dot = dot + 1;
    }
}

/// One dot of a visible line with rendering off: the backdrop is drawn and
/// pending PPUDATA accesses are served.
pub fn scanline_render_nonvisible_tick<M: Mapper>(fb: &mut Vec<u16>, ppu: &mut Context, bus: &mut Bus, pram: &mut PaletteRam, mapper: &mut M)
    requires
        old(fb)@.len() >= FRAME_PIXELS,
        old(ppu).scanline_index < 240,
        old(ppu).scanline_dot <= 340,
    ensures
        final(fb)@.len() == old(fb)@.len(),
        spec_keeps(*old(ppu), *final(ppu)),
        final(ppu).scanline_dot == spec_next_dot(old(ppu).scanline_dot),
        final(ppu).scanline_index == spec_next_line(old(ppu).scanline_index, old(ppu).scanline_dot),
        spec_dot_writes(old(fb)@, final(fb)@, *old(ppu), spec_blank_colour(*old(ppu), old(pram).ram@)),
        *final(pram) == *old(pram),
        spec_idle_access(*old(bus), *final(bus), *old(mapper), *final(mapper), old(ppu).addr_reg.v & 0x3FFF),
{
    let dot = ppu.scanline_dot;
    if 1 <= dot && dot <= 256 {
        select_blank_pixel(fb, ppu, pram);
    }
    nonrender_cycle(ppu, bus, mapper);
    if dot == 340 {
        ppu.scanline_dot = 0;
        ppu.scanline_index = ppu.scanline_index + 1;
    } else {
        ppu.scanline_dot = dot + 1;
    }
}

/// One dot of the post-render line 240.
pub fn scanline_postrender_tick<M: Mapper>(ppu: &mut Context, bus: &mut Bus, mapper: &mut M)
    requires
        old(ppu).scanline_index == 240,
        old(ppu).scanline_dot <= 340,
    ensures
        spec_keeps(*old(ppu), *final(ppu)),
        final(ppu).scanline_dot == spec_next_dot(old(ppu).scanline_dot),
        final(ppu).scanline_index == spec_next_line(old(ppu).scanline_index, old(ppu).scanline_dot),
        spec_idle_access(*old(bus), *final(bus), *old(mapper), *final(mapper), old(ppu).addr_reg.v & 0x3FFF),
{
    let dot = ppu.scanline_dot;
    nonrender_cycle(ppu, bus, mapper);
    if dot == 340 {
        ppu.scanline_dot = 0;
        ppu.scanline_index = ppu.scanline_index + 1;
    } else {
        ppu.scanline_dot = dot + 1;
    }
}

/// One dot of a vblank line (241-260). Dot 0 of line 241 ends the frame,
/// dot 1 starts vblank; later dots may raise NMI again.
pub fn scanline_vblank_tick<M: Mapper>(ppu: &mut Context, bus: &mut Bus, mapper: &mut M, cpu_pinout: mos::Pinout) -> (r: mos::Pinout)
    requires
        241 <= old(ppu).scanline_index <= 260,
        old(ppu).scanline_dot <= 340,
        old(ppu).read_2002_cycle <= old(ppu).cycle,
        old(ppu).frame < u64::MAX,
    ensures
        final(ppu).addr_reg.x == old(ppu).addr_reg.x,
        final(ppu).cycle == old(ppu).cycle,
        final(ppu).read_2002_cycle == old(ppu).read_2002_cycle,
        final(ppu).frame == (if old(ppu).scanline_index == 241 && old(ppu).scanline_dot == 0 {
            old(ppu).frame + 1
        } else {
            old(ppu).frame as int
        }),
        final(ppu).last_frame_cycle == (old(ppu).scanline_index == 241 && old(ppu).scanline_dot == 0) || old(ppu).last_frame_cycle,
        final(ppu).scanline_dot == spec_next_dot(old(ppu).scanline_dot),
        final(ppu).scanline_index == spec_next_line(old(ppu).scanline_index, old(ppu).scanline_dot),
        final(ppu).control_reg == old(ppu).control_reg,
        old(ppu).scanline_index == 241 && old(ppu).scanline_dot == 1 && old(ppu).cycle - old(ppu).read_2002_cycle != 1
            ==> final(ppu).status_reg.spec_bits() == old(ppu).status_reg.spec_bits() | 0x80,
        old(ppu).scanline_index == 241 && old(ppu).scanline_dot == 1 && old(ppu).cycle - old(ppu).read_2002_cycle > 1
            && old(ppu).control_reg.spec_bits() & 0x80 == 0x80 ==> !r.ctrl.nmi,
        !(old(ppu).scanline_index == 241 && old(ppu).scanline_dot == 1) ==> final(ppu).status_reg == old(ppu).status_reg,
        spec_idle_access(*old(bus), *final(bus), *old(mapper), *final(mapper), old(ppu).addr_reg.v & 0x3FFF),
{
    let mut cpu_pinout = cpu_pinout;
    let dot = ppu.scanline_dot;
    if dot == 0 {
        if ppu.scanline_index == 241 {
            ppu.last_frame_cycle = true;
            ppu.frame = ppu.frame + 1;
        }
    } else if dot == 1 {
        if ppu.scanline_index == 241 {
            cpu_pinout = enter_vblank(ppu, cpu_pinout);
        }
    } else {
        cpu_pinout = vblank_nmi_update(ppu, cpu_pinout);
    }
    nonrender_cycle(ppu, bus, mapper);
    if dot == 340 {
        ppu.scanline_dot = 0;
        ppu.scanline_index = ppu.scanline_index + 1;
    } else {
        ppu.scanline_dot = dot + 1;
    }
    cpu_pinout
}

/// Clears sprite overflow, sprite 0 hit and vblank.
fn clear_status_flags(ppu: &mut Context)
    ensures
        final(ppu).status_reg.spec_bits() == old(ppu).status_reg.spec_bits() & !0x20u8 & !0x40u8 & !0x80u8,
        *final(ppu) == (Context { status_reg: final(ppu).status_reg, ..*old(ppu) }),
{
    ppu.status_reg.set(StatusRegister::SPRITE_OVERFLOW(), false);
    ppu.status_reg.set(StatusRegister::SPRITE_ZERO_HIT(), false);
    ppu.status_reg.set(StatusRegister::VBLANK_STARTED(), false);
}

/// One dot of the pre-render line 261 with rendering on: the flags are
/// cleared at dot 1, the first two tiles of line 0 are fetched, and v takes
/// the vertical position from t during dots 280-304. On odd frames the
/// idle dot 0 of line 0 is skipped.
#[verifier::spinoff_prover]
pub fn scanline_prerender_tick<M: Mapper>(ppu: &mut Context, bus: &mut Bus, bg: &mut Background, sp: &mut Sprites, mapper: &mut M)
    requires
        old(ppu).scanline_index == 261,
        old(ppu).scanline_dot <= 340,
        old(sp).wf(),
    ensures
        final(sp).wf(),
        spec_keeps(*old(ppu), *final(ppu)),
        old(ppu).scanline_dot == 340 ==> final(ppu).scanline_index == 0
            && final(ppu).scanline_dot == (if old(ppu).odd_frame { 1u16 } else { 0u16 }),
        old(ppu).scanline_dot == 257 ==> final(ppu).scanline_index == 261 && final(ppu).scanline_dot == 259,
        old(ppu).scanline_dot != 340 && old(ppu).scanline_dot != 257 ==> final(ppu).scanline_index == 261
            && final(ppu).scanline_dot == old(ppu).scanline_dot + 1,
        old(ppu).scanline_dot == 1 ==> final(ppu).status_reg.spec_bits() == old(ppu).status_reg.spec_bits() & !0x20u8 & !0x40u8 & !0x80u8,
        280 <= old(ppu).scanline_dot <= 304 ==> final(ppu).addr_reg.v & 0x7BE0 == final(ppu).addr_reg.t & 0x7BE0,
        old(ppu).scanline_dot == 257 ==> final(ppu).addr_reg == (AddrReg {
            v: (old(ppu).addr_reg.v & 0xFBE0) | (old(ppu).addr_reg.t & 0x041F),
            ..old(ppu).addr_reg
        }),
        spec_dot_bus(*old(bus), *final(bus), *old(mapper), *final(mapper), old(ppu).scanline_dot),
        spec_prerender_units(*old(ppu), *final(ppu), *old(bus), *final(bus), *old(bg), *final(bg), *old(sp), *final(sp)),
{
    let dot = ppu.scanline_dot;
    if dot == 0 {
        prerender_idle_cycle(ppu, bus, mapper);
    } else if dot <= 256 {
        if dot == 1 {
            clear_status_flags(ppu);
        }
        background_fetch(ppu, bus, bg, mapper, (dot - 1) % 8, true);
        if dot == 256 {
            ppu.addr_reg.y_increment();
        }
    } else if dot <= 320 {
        let phase = (dot - 257) % 8;
        if phase == 0 {
            open_tile_index(ppu, bus, mapper);
            if dot == 257 {
                ppu.oam_addr_reg = 0;
                ppu.addr_reg.horizontal_copy();
            }
        } else {
            sprite_fetch(ppu, bus, bg, sp, mapper, phase);
        }
        if 280 <= dot && dot <= 304 {
            ppu.addr_reg.vertical_copy();
        }
    } else if dot <= 336 {
        background_fetch(ppu, bus, bg, mapper, (dot - 321) % 8, true);
    } else if dot == 337 || dot == 339 {
        open_tile_index(ppu, bus, mapper);
    } else {
        read_tile_index(ppu, bus, bg, mapper);
    }

    if dot == 340 {
        ppu.scanline_index = 0;
        // on odd frames dot 0 of line 0 is skipped
        ppu.scanline_dot = if ppu.odd_frame { 1 } else { 0 };
    } else if dot == 257 {
        // dot 258 is skipped on this line
        ppu.scanline_dot = 259;
    } else {
        ppu.scanline_dot = dot + 1;
    }
}

/// One dot of the pre-render line with rendering off.
pub fn scanline_prerender_nonvisible_tick<M: Mapper>(ppu: &mut Context, bus: &mut Bus, mapper: &mut M)
    requires
        old(ppu).scanline_index == 261,
        old(ppu).scanline_dot <= 340,
    ensures
        spec_keeps(*old(ppu), *final(ppu)),
        old(ppu).scanline_dot == 340 ==> final(ppu).scanline_index == 0 && final(ppu).scanline_dot == 0,
        old(ppu).scanline_dot != 340 ==> final(ppu).scanline_index == 261 && final(ppu).scanline_dot == old(ppu).scanline_dot + 1,
        old(ppu).scanline_dot == 1 ==> final(ppu).status_reg.spec_bits() == old(ppu).status_reg.spec_bits() & !0x20u8 & !0x40u8 & !0x80u8,
        spec_idle_access(*old(bus), *final(bus), *old(mapper), *final(mapper), old(ppu).addr_reg.v & 0x3FFF),
{
    let dot = ppu.scanline_dot;
    if dot == 1 {
        clear_status_flags(ppu);
    }
    nonrender_cycle(ppu, bus, mapper);
    if dot == 340 {
        // the idle dot is not skipped with rendering off
        ppu.scanline_dot = 0;
        ppu.scanline_index = 0;
    } else {
        ppu.scanline_dot = dot + 1;
    }
}

} // verus!
