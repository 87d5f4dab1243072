//! The operations the PPU performs on a dot: bus fetches, the address
//! register updates they cause, vblank and the palette.

use vstd::prelude::*;
use crate::mos;
use crate::nes::mappers::Mapper;
use super::Context;
use super::ppu_registers::{AddrReg, ControlRegister, StatusRegister};
use super::background::Background;
use super::sprites::Sprites;
use super::bus::{Bus, IOAction, spec_fetch, spec_idle_access};

verus! {

/// The address register after a PPUDATA access was served during a
/// rendering fetch (or `a` unchanged when none was).
pub open spec fn spec_after_render_io(a: AddrReg, served: bool) -> AddrReg {
    if served {
        AddrReg { v: AddrReg::spec_y_increment(AddrReg::spec_coarse_x_increment(a.v)), ..a }
    } else {
        a
    }
}

/// Dot 0 of a visible line: the bus shows the pattern address of the next
/// tile; a pending PPUDATA access is served.
pub fn render_idle_cycle<M: Mapper>(ppu: &mut Context, bus: &mut Bus, bg: &mut Background, mapper: &mut M)
    ensures
        *final(ppu) == (Context { addr_reg: final(ppu).addr_reg, ..*old(ppu) }),
        final(ppu).addr_reg == spec_after_render_io(old(ppu).addr_reg, old(bus).io_action != IOAction::Idle),
        final(bus).io_action == IOAction::Idle,
        *final(bg) == *old(bg),
        spec_idle_access(*old(bus), *final(bus), *old(mapper), *final(mapper), old(bg).spec_pattern_address(*old(ppu), super::background::PATTERN0_OFFSET)),
{
    let addr = bg.pattern0_address(ppu);
    let b = bus.idle(mapper, addr);
    if b {
        ppu.addr_reg.ppu_2007_during_render_increment();
    }
}

/// Dot 0 of the pre-render line.
pub fn prerender_idle_cycle<M: Mapper>(ppu: &mut Context, bus: &mut Bus, mapper: &mut M)
    ensures
        *final(ppu) == (Context { addr_reg: final(ppu).addr_reg, ..*old(ppu) }),
        final(ppu).addr_reg == spec_after_render_io(old(ppu).addr_reg, old(bus).io_action != IOAction::Idle),
        final(bus).io_action == IOAction::Idle,
        spec_idle_access(*old(bus), *final(bus), *old(mapper), *final(mapper), old(ppu).addr_reg.v & 0x3FFF),
{
    let addr = ppu.addr_reg.vram_address();
    let b = bus.idle(mapper, addr);
    if b {
        ppu.addr_reg.ppu_2007_during_render_increment();
    }
}

/// A dot with rendering off: a pending PPUDATA access is served at v, and v
/// then moves by 1 or 32.
pub fn nonrender_cycle<M: Mapper>(ppu: &mut Context, bus: &mut Bus, mapper: &mut M)
    ensures
        *final(ppu) == (Context { addr_reg: final(ppu).addr_reg, ..*old(ppu) }),
        old(bus).io_action != IOAction::Idle ==> final(ppu).addr_reg == (AddrReg {
            v: old(ppu).addr_reg.v.wrapping_add(if old(ppu).control_reg.spec_bits() & 0b100 == 0b100 { 32u16 } else { 1u16 }),
            ..old(ppu).addr_reg
        }),
        old(bus).io_action == IOAction::Idle ==> final(ppu).addr_reg == old(ppu).addr_reg,
        final(bus).io_action == IOAction::Idle,
        final(ppu).control_reg == old(ppu).control_reg,
        final(ppu).status_reg == old(ppu).status_reg,
        final(ppu).mask_reg == old(ppu).mask_reg,
        spec_idle_access(*old(bus), *final(bus), *old(mapper), *final(mapper), old(ppu).addr_reg.v & 0x3FFF),
{
    let addr = ppu.addr_reg.vram_address();
    let b = bus.idle(mapper, addr);
    if b {
        let inc = ppu.control_reg.vram_addr_increment_amount();
        ppu.addr_reg.increment(inc);
    }
}

pub fn open_tile_index<M: Mapper>(ppu: &mut Context, bus: &mut Bus, mapper: &mut M)
    ensures
        final(bus).pinout.address == 0x2000 | (old(ppu).addr_reg.v & 0x0FFF),
        final(bus).pinout.ctrl.ale,
        final(bus).io_action == old(bus).io_action,
        *final(ppu) == *old(ppu),
        *final(mapper) == *old(mapper) && final(bus).pinout.data == old(bus).pinout.data,
{
    let addr = ppu.addr_reg.tile_address();
    bus.latch(mapper, addr);
}

pub fn read_tile_index<M: Mapper>(ppu: &mut Context, bus: &mut Bus, bg: &mut Background, mapper: &mut M)
    ensures
        *final(ppu) == (Context { addr_reg: final(ppu).addr_reg, ..*old(ppu) }),
        *final(bg) == (Background { next_tile_index: final(bus).pinout.data as u16, ..*old(bg) }),
        final(ppu).addr_reg == spec_after_render_io(old(ppu).addr_reg, old(bus).io_action != IOAction::Idle),
        final(bus).io_action == IOAction::Idle,
        spec_fetch(*old(bus), *final(bus), *old(mapper), *final(mapper), 0x2000 | (old(ppu).addr_reg.v & 0x0FFF)),
{
    let addr = ppu.addr_reg.tile_address();
    let (d, b) = bus.read(mapper, addr);
    if b {
        ppu.addr_reg.ppu_2007_during_render_increment();
    }
    bg.next_tile_index = d as u16;
}

pub fn open_background_attribute<M: Mapper>(ppu: &mut Context, bus: &mut Bus, mapper: &mut M)
    ensures
        final(bus).pinout.address == 0x23C0 | (old(ppu).addr_reg.v & 0x0C00) | ((old(ppu).addr_reg.v >> 4u16) & 0x38) | ((old(ppu).addr_reg.v >> 2u16) & 0x07),
        final(bus).io_action == old(bus).io_action,
        *final(ppu) == *old(ppu),
        *final(mapper) == *old(mapper) && final(bus).pinout.data == old(bus).pinout.data,
{
    let addr = ppu.addr_reg.attribute_address();
    bus.latch(mapper, addr);
}

pub fn read_background_attribute<M: Mapper>(ppu: &mut Context, bus: &mut Bus, bg: &mut Background, mapper: &mut M)
    ensures
        *final(ppu) == (Context { addr_reg: final(ppu).addr_reg, ..*old(ppu) }),
        ({
            let a = spec_after_render_io(old(ppu).addr_reg, old(bus).io_action != IOAction::Idle);
            &&& final(ppu).addr_reg == a
            &&& *final(bg) == (Background {
                next_attribute: (final(bus).pinout.data >> ((((a.v >> 4u16) & 4) | (a.v & 2)) as u8)) & 0x03,
                ..*old(bg)
            })
        }),
        final(bus).io_action == IOAction::Idle,
        spec_fetch(*old(bus), *final(bus), *old(mapper), *final(mapper), 0x23C0 | (old(ppu).addr_reg.v & 0x0C00) | ((old(ppu).addr_reg.v >> 4u16) & 0x38) | ((old(ppu).addr_reg.v >> 2u16) & 0x07)),
{
    let addr = ppu.addr_reg.attribute_address();
    let (d, b) = bus.read(mapper, addr);
    if b {
        ppu.addr_reg.ppu_2007_during_render_increment();
    }
    bg.next_attribute = ppu.addr_reg.attribute_bits(d);
}

pub fn open_background_pattern0<M: Mapper>(ppu: &mut Context, bus: &mut Bus, bg: &mut Background, mapper: &mut M)
    ensures
        final(bus).io_action == old(bus).io_action,
        *final(ppu) == *old(ppu),
        *final(bg) == *old(bg),
        *final(mapper) == *old(mapper) && final(bus).pinout.data == old(bus).pinout.data,
        final(bus).pinout.address == old(bg).spec_pattern_address(*old(ppu), super::background::PATTERN0_OFFSET),
{
    let addr = bg.pattern0_address(ppu);
    bus.latch(mapper, addr);
}

pub fn read_background_pattern0<M: Mapper>(ppu: &mut Context, bus: &mut Bus, bg: &mut Background, mapper: &mut M)
    ensures
        *final(ppu) == (Context { addr_reg: final(ppu).addr_reg, ..*old(ppu) }),
        final(bg).next_pattern@ == old(bg).next_pattern@.update(0, final(bus).pinout.data),
        final(bg).pattern_queue == old(bg).pattern_queue,
        final(bg).attribute_queue == old(bg).attribute_queue,
        final(bg).next_tile_index == old(bg).next_tile_index,
        final(bg).next_attribute == old(bg).next_attribute,
        final(ppu).addr_reg == spec_after_render_io(old(ppu).addr_reg, old(bus).io_action != IOAction::Idle),
        final(bus).io_action == IOAction::Idle,
        spec_fetch(*old(bus), *final(bus), *old(mapper), *final(mapper), old(bg).spec_pattern_address(*old(ppu), super::background::PATTERN0_OFFSET)),
{
    let addr = bg.pattern0_address(ppu);
    let (d, b) = bus.read(mapper, addr);
    if b {
        ppu.addr_reg.ppu_2007_during_render_increment();
    }
    bg.set_next_pattern0(d);
}

pub fn open_background_pattern1<M: Mapper>(ppu: &mut Context, bus: &mut Bus, bg: &mut Background, mapper: &mut M)
    ensures
        final(bus).io_action == old(bus).io_action,
        *final(ppu) == *old(ppu),
        *final(bg) == *old(bg),
        *final(mapper) == *old(mapper) && final(bus).pinout.data == old(bus).pinout.data,
        final(bus).pinout.address == old(bg).spec_pattern_address(*old(ppu), super::background::PATTERN1_OFFSET),
{
    let addr = bg.pattern1_address(ppu);
    bus.latch(mapper, addr);
}

/// The last fetch of a tile: v moves to the next tile (or, when a PPUDATA
/// access took the cycle, the access's own increment happens instead).
pub fn read_background_pattern1<M: Mapper>(ppu: &mut Context, bus: &mut Bus, bg: &mut Background, mapper: &mut M)
    ensures
        *final(ppu) == (Context { addr_reg: final(ppu).addr_reg, ..*old(ppu) }),
        final(bg).next_pattern@ == old(bg).next_pattern@.update(1, final(bus).pinout.data),
        final(bg).pattern_queue == old(bg).pattern_queue,
        final(bg).attribute_queue == old(bg).attribute_queue,
        final(bg).next_tile_index == old(bg).next_tile_index,
        final(bg).next_attribute == old(bg).next_attribute,
        old(bus).io_action != IOAction::Idle ==> final(ppu).addr_reg == spec_after_render_io(old(ppu).addr_reg, true),
        old(bus).io_action == IOAction::Idle ==> final(ppu).addr_reg == (AddrReg {
            v: AddrReg::spec_coarse_x_increment(old(ppu).addr_reg.v),
            ..old(ppu).addr_reg
        }),
        final(bus).io_action == IOAction::Idle,
        spec_fetch(*old(bus), *final(bus), *old(mapper), *final(mapper), old(bg).spec_pattern_address(*old(ppu), super::background::PATTERN1_OFFSET)),
{
    let addr = bg.pattern1_address(ppu);
    let (d, b) = bus.read(mapper, addr);
    if b {
        ppu.addr_reg.ppu_2007_during_render_increment();
    } else {
        ppu.addr_reg.coarse_x_increment();
    }
    bg.set_next_pattern1(d);
}

pub fn open_sprite_pattern0<M: Mapper>(ppu: &mut Context, bus: &mut Bus, sp: &mut Sprites, mapper: &mut M)
    requires
        old(sp).wf(),
        old(ppu).scanline_dot >= 1,
    ensures
        final(bus).pinout.address == old(sp).spec_pattern_address(*old(ppu), 0),
        final(bus).io_action == old(bus).io_action,
        *final(ppu) == *old(ppu),
        *final(sp) == *old(sp),
        *final(mapper) == *old(mapper) && final(bus).pinout.data == old(bus).pinout.data,
{
    let addr = sp.pattern0_address(ppu);
    bus.latch(mapper, addr);
}

pub fn read_sprite_pattern0<M: Mapper>(ppu: &mut Context, bus: &mut Bus, sp: &mut Sprites, mapper: &mut M)
    requires
        old(sp).wf(),
        old(ppu).scanline_dot >= 1,
    ensures
        *final(ppu) == (Context { addr_reg: final(ppu).addr_reg, ..*old(ppu) }),
        final(sp).wf(),
        super::sprites::spec_pattern_stored(*old(sp), *final(sp), old(ppu).scanline_dot, 0, final(bus).pinout.data),
        final(ppu).addr_reg == spec_after_render_io(old(ppu).addr_reg, old(bus).io_action != IOAction::Idle),
        final(ppu).scanline_dot == old(ppu).scanline_dot,
        final(bus).io_action == IOAction::Idle,
        spec_fetch(*old(bus), *final(bus), *old(mapper), *final(mapper), old(sp).spec_pattern_address(*old(ppu), 0)),
{
    let addr = sp.pattern0_address(ppu);
    let (d, b) = bus.read(mapper, addr);
    if b {
        ppu.addr_reg.ppu_2007_during_render_increment();
    }
    sp.set_pattern0(ppu, d);
}

pub fn open_sprite_pattern1<M: Mapper>(ppu: &mut Context, bus: &mut Bus, sp: &mut Sprites, mapper: &mut M)
    requires
        old(sp).wf(),
        old(ppu).scanline_dot >= 1,
    ensures
        final(bus).pinout.address == old(sp).spec_pattern_address(*old(ppu), 8),
        final(bus).io_action == old(bus).io_action,
        *final(ppu) == *old(ppu),
        *final(sp) == *old(sp),
        *final(mapper) == *old(mapper) && final(bus).pinout.data == old(bus).pinout.data,
{
    let addr = sp.pattern1_address(ppu);
    bus.latch(mapper, addr);
}

pub fn read_sprite_pattern1<M: Mapper>(ppu: &mut Context, bus: &mut Bus, sp: &mut Sprites, mapper: &mut M)
    requires
        old(sp).wf(),
        old(ppu).scanline_dot >= 1,
    ensures
        *final(ppu) == (Context { addr_reg: final(ppu).addr_reg, ..*old(ppu) }),
        final(sp).wf(),
        super::sprites::spec_pattern_stored(*old(sp), *final(sp), old(ppu).scanline_dot, 1, final(bus).pinout.data),
        final(ppu).addr_reg == spec_after_render_io(old(ppu).addr_reg, old(bus).io_action != IOAction::Idle),
        final(ppu).scanline_dot == old(ppu).scanline_dot,
        final(bus).io_action == IOAction::Idle,
        spec_fetch(*old(bus), *final(bus), *old(mapper), *final(mapper), old(sp).spec_pattern_address(*old(ppu), 8)),
{
    let addr = sp.pattern1_address(ppu);
    let (d, b) = bus.read(mapper, addr);
    if b {
        ppu.addr_reg.ppu_2007_during_render_increment();
    }
    sp.set_pattern1(ppu, d);
}

/// Dot 1 of line 241: vblank starts. A PPUSTATUS read on this very cycle
/// sees the flag but suppresses the NMI; one a cycle earlier sees it clear
/// and suppresses both; otherwise the flag is set and, if enabled, NMI is
/// pulled low.
pub fn enter_vblank(ppu: &mut Context, pinout: mos::Pinout) -> (r: mos::Pinout)
    requires
        old(ppu).read_2002_cycle <= old(ppu).cycle,
    ensures
        ({
            let diff = old(ppu).cycle - old(ppu).read_2002_cycle;
            let nmi_on = old(ppu).control_reg.spec_bits() & 0x80 == 0x80;
            &&& diff == 1 ==> *final(ppu) == *old(ppu) && r == pinout
            &&& diff != 1 ==> final(ppu).status_reg.spec_bits() == old(ppu).status_reg.spec_bits() | 0x80
            &&& (diff == 0 || !nmi_on) ==> r == pinout
            &&& diff > 1 && nmi_on ==> r == (mos::Pinout { ctrl: mos::Ctrl { nmi: false, ..pinout.ctrl }, ..pinout })
                && final(ppu).prev_control_reg == old(ppu).control_reg
        }),
        *final(ppu) == (Context { status_reg: final(ppu).status_reg, prev_control_reg: final(ppu).prev_control_reg, ..*old(ppu) }),
{
    let mut pinout = pinout;
    let ppu_diff = ppu.cycle - ppu.read_2002_cycle;
    if ppu_diff == 0 {
        // read on the same cycle: reads as set, no NMI
        ppu.status_reg.set(StatusRegister::VBLANK_STARTED(), true);
    } else if ppu_diff == 1 {
        // read one cycle before: reads clear, never set this frame
    } else {
        ppu.status_reg.set(StatusRegister::VBLANK_STARTED(), true);
        if ppu.control_reg.contains(ControlRegister::GENERATE_NMI()) {
            ppu.prev_control_reg = ppu.control_reg;
            pinout.ctrl.set(mos::Ctrl::NMI(), false);
        }
    }
    pinout
}

/// During vblank, turning NMI generation on (while the vblank flag is still
/// set) pulls NMI low again.
pub fn vblank_nmi_update(ppu: &mut Context, pinout: mos::Pinout) -> (r: mos::Pinout)
    ensures
        ({
            let again = old(ppu).control_reg.spec_bits() & 0x80 == 0x80
                && old(ppu).status_reg.spec_bits() & 0x80 == 0x80
                && !(old(ppu).prev_control_reg.spec_bits() & 0x80 == 0x80);
            r == (if again { mos::Pinout { ctrl: mos::Ctrl { nmi: false, ..pinout.ctrl }, ..pinout } } else { pinout })
        }),
        *final(ppu) == *old(ppu),
{
    let mut pinout = pinout;
    if ppu.control_reg.contains(ControlRegister::GENERATE_NMI())
        && ppu.status_reg.contains(StatusRegister::VBLANK_STARTED())
        && !ppu.prev_control_reg.contains(ControlRegister::GENERATE_NMI()) {
        pinout.ctrl.set(mos::Ctrl::NMI(), false);
    }
    pinout
}

/// The palette RAM entry an address reaches: $3F10/$14/$18/$1C mirror
/// $3F00/$04/$08/$0C.
pub open spec fn spec_palette_index(address: u16) -> int {
    let a = address & 0x1F;
    if a == 0x10 || a == 0x14 || a == 0x18 || a == 0x1C {
        (a - 0x10) as int
    } else {
        a as int
    }
}

/// The entry a read during rendering shows: every backdrop entry ($x4,
/// $x8, $xC and the sprite mirrors) shows $3F00.
pub open spec fn spec_render_palette_index(address: u16) -> int {
    let a = address & 0x1F;
    if a == 0x04 || a == 0x08 || a == 0x0C || a == 0x10 || a == 0x14 || a == 0x18 || a == 0x1C {
        0
    } else {
        a as int
    }
}

proof fn lemma_palette_mask(address: u16)
    ensures
        address & 0x1F < 32,
{
    assert(address & 0x1F < 32) by (bit_vector);
}

/// A palette read while rendering.
pub fn read_palette_rendering(ppu: &mut Context, address: u16) -> (r: u8)
    ensures
        r == old(ppu).palette_ram@[spec_render_palette_index(address)],
        *final(ppu) == *old(ppu),
{
    proof {
        lemma_palette_mask(address);
    }
    let address = address & 0x1F;
    if address == 0x04 || address == 0x08 || address == 0x0C || address == 0x10 || address == 0x14
        || address == 0x18 || address == 0x1C {
        ppu.palette_ram[0x00]
    } else {
        ppu.palette_ram[address as usize]
    }
}

/// A palette read with rendering off (e.g. through PPUDATA).
pub fn read_palette_nonrender(ppu: &mut Context, address: u16) -> (r: u8)
    ensures
        r == old(ppu).palette_ram@[spec_palette_index(address)],
        *final(ppu) == *old(ppu),
{
    proof {
        lemma_palette_mask(address);
    }
    let address = address & 0x1F;
    if address == 0x10 || address == 0x14 || address == 0x18 || address == 0x1C {
        ppu.palette_ram[(address - 0x10) as usize]
    } else {
        ppu.palette_ram[address as usize]
    }
}

/// A palette write.
pub fn write_palette(ppu: &mut Context, address: u16, data: u8)
    ensures
        final(ppu).palette_ram@ == old(ppu).palette_ram@.update(spec_palette_index(address), data),
        *final(ppu) == (Context { palette_ram: final(ppu).palette_ram, ..*old(ppu) }),
{
    proof {
        lemma_palette_mask(address);
    }
    let address = address & 0x1F;
    if address == 0x10 || address == 0x14 || address == 0x18 || address == 0x1C {
        ppu.palette_ram[(address - 0x10) as usize] = data;
    } else {
        ppu.palette_ram[address as usize] = data;
    }
}

/// A palette write followed by a read of the same entry, at any of its
/// mirrors, gives the byte written.
pub proof fn lemma_palette_write_read(ram: Seq<u8>, a: u16, b: u16, data: u8)
    requires
        ram.len() == 32,
        spec_palette_index(a) == spec_palette_index(b),
    ensures
        ram.update(spec_palette_index(a), data)[spec_palette_index(b)] == data,
{
    lemma_palette_mask(a);
}

/// The PPU is fetching: rendering is on and the line is not in vblank.
pub fn is_rendering(ppu: &mut Context) -> (r: bool)
    ensures
        r == !((240 <= old(ppu).scanline_index <= 260) || !(old(ppu).mask_reg.spec_bits() & 0b00011000 != 0)),
        *final(ppu) == *old(ppu),
{
    if (ppu.scanline_index >= 240 && ppu.scanline_index <= 260) || ppu.mask_reg.rendering_enabled() == false {
        false
    } else {
        true
    }
}

} // verus!
