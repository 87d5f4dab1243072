//! The RP2C02: its CPU visible ports and its dot clock.

use vstd::prelude::*;
use crate::mos;
use crate::nes::mappers::Mapper;
use super::{Context, Pinout};
use super::bus::Bus;
use super::palette_ram::PaletteRam;
use super::background::Background;
use super::sprites::Sprites;
use super::ppu_registers::{AddrReg, lemma_write_2005_fine_x};
use super::ppu_operations::{is_rendering, spec_palette_index, spec_render_palette_index};
use super::scanline::{
    FRAME_PIXELS, scanline_render_tick, scanline_render_nonvisible_tick, scanline_postrender_tick,
    scanline_vblank_tick, scanline_prerender_tick, scanline_prerender_nonvisible_tick,
};

verus! {

/// The PPU ignores writes to PPUCTRL, PPUMASK, PPUSCROLL and PPUADDR for
/// about 29658 CPU cycles after power on.
pub const WRITE_BLOCK_CYCLES: u64 = 88974;

#[derive(Clone, Copy)]
pub struct Rp2c02 {
    context: Context,
    bus: Bus,
    palette_ram: PaletteRam,
    bg: Background,
    sp: Sprites,
}

/// Where the beam is after one dot from `c`: the next dot of a 341 dot
/// line, the next line after dot 340, line 0 after line 261. With rendering
/// on, the pre-render line skips dot 258, and on odd frames dot 0 of line 0.
pub open spec fn spec_next_position(c: Context) -> (u16, u16) {
    let line = c.scanline_index;
    let dot = c.scanline_dot;
    let rendering = c.mask_reg.spec_bits() & 0b00011000 != 0;
    if line == 261 {
        if dot == 340 {
            (0u16, if rendering && c.odd_frame { 1u16 } else { 0u16 })
        } else if rendering && dot == 257 {
            (261u16, 259u16)
        } else {
            (261u16, (dot + 1) as u16)
        }
    } else if dot == 340 {
        ((line + 1) as u16, 0u16)
    } else {
        (line, (dot + 1) as u16)
    }
}

/// The dots from beam position (`line`, `dot`) until dot 0 of line 241,
/// the dot that ends a frame (at most one frame of 262 lines of 341 dots).
pub open spec fn spec_dots_to_frame_end(line: u16, dot: u16) -> int {
    let idx = line * 341 + dot;
    if idx <= 241 * 341 { 241 * 341 - idx } else { 241 * 341 + 262 * 341 - idx }
}

/// Every dot that does not end a frame brings the end of the frame nearer.
pub proof fn lemma_frame_end_nearer(c: Context)
    requires
        c.scanline_index <= 261,
        c.scanline_dot <= 340,
        !(c.scanline_index == 241 && c.scanline_dot == 0),
    ensures
        ({
            let (l, d) = spec_next_position(c);
            spec_dots_to_frame_end(l, d) < spec_dots_to_frame_end(c.scanline_index, c.scanline_dot)
        }),
        spec_dots_to_frame_end(c.scanline_index, c.scanline_dot) < 262 * 341,
{
}

impl Rp2c02 {
    pub closed spec fn spec_context(&self) -> Context {
        self.context
    }

    pub closed spec fn spec_bus(&self) -> Bus {
        self.bus
    }

    /// The background unit.
    pub closed spec fn spec_bg(&self) -> Background {
        self.bg
    }

    /// The sprite unit.
    pub closed spec fn spec_sp(&self) -> Sprites {
        self.sp
    }

    pub closed spec fn spec_palette(&self) -> Seq<u8> {
        self.palette_ram.ram@
    }

    /// The pixel the background and sprite units put out at the current
    /// dot: the sprites drawn over the background pixel.
    pub closed spec fn spec_drawn_pixel(&self) -> u8 {
        self.sp.spec_output(self.context, self.bg.spec_output(self.context))
    }

    /// Sprite 0 is opaque over an opaque background pixel at the current dot.
    pub closed spec fn spec_sprite_zero_hit(&self) -> bool {
        self.sp.spec_zero_hit(self.context, self.bg.spec_output(self.context))
    }

    /// A well-formed PPU stands on the 262 x 341 grid.
    pub proof fn lemma_wf_position(&self)
        requires self.wf(),
        ensures self.spec_context().scanline_index <= 261, self.spec_context().scanline_dot <= 340,
    {
    }

    /// The timing position is on the 262 x 341 grid, the fine x scroll is 3
    /// bits, the sprite counters fit, and the last PPUSTATUS read is not in
    /// the future.
    pub closed spec fn wf(&self) -> bool {
        &&& self.context.scanline_index <= 261
        &&& self.context.scanline_dot <= 340
        &&& self.context.addr_reg.x < 8
        &&& self.sp.wf()
        &&& self.context.read_2002_cycle <= self.context.cycle
    }

    /// The bus, the background and the sprite units as at power on.
    pub closed spec fn spec_units_at_power_on(&self) -> bool {
        &&& self.bus == (Bus { pinout: Pinout::spec_new(), rd_buffer: 0, wr_buffer: 0, io_action: super::bus::IOAction::Idle })
        &&& self.bg.pattern_queue@ == seq![0u16, 0u16]
        &&& self.bg.attribute_queue@ == seq![0u16, 0u16]
        &&& self.bg.next_pattern@ == seq![0u8, 0u8]
        &&& self.bg.next_tile_index == 0
        &&& self.bg.next_attribute == 0
        &&& self.sp.secondary_oam@ == Seq::new(32, |i: int| 0xFFu8)
        &&& self.sp.sprites_count == 0
        &&& self.sp.next_sprites_count == 0
        &&& self.sp.primary_oam_index == super::sprites::OamIndex(0)
        &&& self.sp.sprite_data_index == 0
        &&& self.sp.left_most_x == 0xFF
        &&& self.sp.next_left_most_x == 0xFF
        &&& self.sp.eval_state == super::sprites::EvalState::StateYRead
        &&& forall|i: int| 0 <= i < 8 ==> #[trigger] self.sp.sprite_data@[i].spec_is_new()
    }

    /// The state at power on: every register, the palette and the units
    /// cleared.
    pub open spec fn spec_is_power_on(&self) -> bool {
        &&& self.spec_units_at_power_on()
        &&& Context::spec_is_new(self.spec_context())
        &&& self.spec_palette() == Seq::new(32, |i: int| 0u8)
    }

    /// The state after a reset of `before`: as at power on, except that
    /// the VRAM address registers (with the write toggle cleared) and the
    /// palette are kept.
    pub open spec fn spec_is_reset_of(&self, before: Rp2c02) -> bool {
        &&& self.spec_context().addr_reg == (AddrReg { w: false, ..before.spec_context().addr_reg })
        &&& Context::spec_is_new(Context { addr_reg: AddrReg::spec_new(), ..self.spec_context() })
        &&& self.spec_palette() == before.spec_palette()
        &&& self.spec_units_at_power_on()
    }

    pub fn from_power_on() -> (r: Rp2c02)
        ensures
            r.wf(),
            r.spec_is_power_on(),
    {
        Rp2c02 {
            context: Context::new(),
            bus: Bus::new(),
            palette_ram: PaletteRam::from_power_on(),
            bg: Background::new(),
            sp: Sprites::new(),
        }
    }

    /// After a reset: the registers are back to power on, except that the
    /// palette and the VRAM address are kept (the write toggle is cleared).
    pub fn from_reset(&self) -> (r: Rp2c02)
        requires
            self.wf(),
        ensures
            r.wf(),
            r.spec_is_reset_of(*self),
    {
        let mut rp2c02 = Rp2c02 {
            context: Context::new(),
            bus: Bus::new(),
            palette_ram: self.palette_ram.from_reset(),
            bg: Background::new(),
            sp: Sprites::new(),
        };
        // PPUADDR survives a reset
        if self.context.addr_reg.x < 8 {
            rp2c02.context.addr_reg = self.context.addr_reg;
            rp2c02.context.addr_reg.w = false;
        }
        rp2c02
    }

    pub fn frame_number(&self) -> (r: u64)
        ensures r == self.spec_context().frame,
    {
        self.context.frame
    }

    /// The last dot of a frame (dot 0 of line 241) has just run.
    pub fn is_end_of_frame(&mut self) -> (r: bool)
        ensures
            r == old(self).spec_context().last_frame_cycle,
            *final(self) == *old(self),
    {
        self.context.last_frame_cycle
    }

    /// A read of a write only port returns the io latch.
    pub fn read_port(&self, pinout: mos::Pinout) -> (r: mos::Pinout)
        ensures r == (mos::Pinout { data: self.spec_context().io_db, ..pinout }),
    {
        let mut pinout = pinout;
        pinout.data = self.context.io_db;
        pinout
    }

    /// PPUCTRL.
    pub fn write_ppuctrl(&mut self, pinout: mos::Pinout) -> (r: mos::Pinout)
        requires
            old(self).wf(),
        ensures
            final(self).wf(),
            final(self).spec_context().frame == old(self).spec_context().frame,
            final(self).spec_context().cycle == old(self).spec_context().cycle,
            final(self).spec_context().scanline_index == old(self).spec_context().scanline_index,
            final(self).spec_context().scanline_dot == old(self).spec_context().scanline_dot,
            r == pinout,
            final(self).spec_context().io_db == pinout.data,
            !old(self).spec_context().write_block ==> final(self).spec_context().control_reg.spec_bits() == pinout.data
                && final(self).spec_context().prev_control_reg == old(self).spec_context().control_reg
                && final(self).spec_context().addr_reg.t == (old(self).spec_context().addr_reg.t & 0xF3FF) | (((pinout.data & 0x03) as u16) << 10u16),
            old(self).spec_context().write_block ==> final(self).spec_context().control_reg == old(self).spec_context().control_reg,
    {
        self.context.io_db = pinout.data;
        if self.context.write_block {
            return pinout;
        }
        self.context.prev_control_reg = self.context.control_reg;
        self.context.control_reg.io_write(pinout.data);
        self.context.addr_reg.io_write_2000(pinout.data);
        pinout
    }

    /// PPUMASK.
    pub fn write_ppumask(&mut self, pinout: mos::Pinout) -> (r: mos::Pinout)
        requires
            old(self).wf(),
        ensures
            final(self).wf(),
            final(self).spec_context().frame == old(self).spec_context().frame,
            final(self).spec_context().cycle == old(self).spec_context().cycle,
            final(self).spec_context().scanline_index == old(self).spec_context().scanline_index,
            final(self).spec_context().scanline_dot == old(self).spec_context().scanline_dot,
            r == pinout,
            final(self).spec_context().io_db == pinout.data,
            !old(self).spec_context().write_block ==> final(self).spec_context().mask_reg.spec_bits() == pinout.data,
            old(self).spec_context().write_block ==> final(self).spec_context().mask_reg == old(self).spec_context().mask_reg,
    {
        self.context.io_db = pinout.data;
        if self.context.write_block {
            return pinout;
        }
        self.context.mask_reg.io_write(pinout.data);
        pinout
    }

    /// PPUSTATUS: the flags and the low bits of the io latch; the write
    /// toggle is reset and the cycle noted (for the vblank race).
    pub fn read_ppustatus(&mut self, pinout: mos::Pinout) -> (r: mos::Pinout)
        requires
            old(self).wf(),
        ensures
            final(self).wf(),
            final(self).spec_context().frame == old(self).spec_context().frame,
            final(self).spec_context().cycle == old(self).spec_context().cycle,
            final(self).spec_context().scanline_index == old(self).spec_context().scanline_index,
            final(self).spec_context().scanline_dot == old(self).spec_context().scanline_dot,
            r == (mos::Pinout {
                data: (old(self).spec_context().status_reg.spec_bits() & 0xE0) | (old(self).spec_context().io_db & 0x1F),
                ..pinout
            }),
            final(self).spec_context() == (Context {
                read_2002_cycle: old(self).spec_context().cycle,
                addr_reg: AddrReg { w: false, ..old(self).spec_context().addr_reg },
                status_reg: final(self).spec_context().status_reg,
                ..old(self).spec_context()
            }),
            final(self).spec_context().status_reg.spec_bits() == old(self).spec_context().status_reg.spec_bits() & 0x7F,
            final(self).spec_palette() == old(self).spec_palette(),
            final(self).spec_bus() == old(self).spec_bus(),
    {
        let mut pinout = pinout;
        self.context.read_2002_cycle = self.context.cycle;
        self.context.addr_reg.io_read_2002();
        pinout.data = self.context.status_reg.io_read(self.context.io_db);
        pinout
    }

    /// Writing the read only PPUSTATUS only fills the io latch.
    pub fn write_ppustatus(&mut self, pinout: mos::Pinout) -> (r: mos::Pinout)
        requires
            old(self).wf(),
        ensures
            final(self).wf(),
            final(self).spec_context().frame == old(self).spec_context().frame,
            final(self).spec_context().cycle == old(self).spec_context().cycle,
            final(self).spec_context().scanline_index == old(self).spec_context().scanline_index,
            final(self).spec_context().scanline_dot == old(self).spec_context().scanline_dot,
            r == pinout,
            final(self).spec_context() == (Context { io_db: pinout.data, ..old(self).spec_context() }),
    {
        self.context.io_db = pinout.data;
        pinout
    }

    /// OAMADDR.
    pub fn write_oamaddr(&mut self, pinout: mos::Pinout) -> (r: mos::Pinout)
        requires
            old(self).wf(),
        ensures
            final(self).wf(),
            final(self).spec_context().frame == old(self).spec_context().frame,
            final(self).spec_context().cycle == old(self).spec_context().cycle,
            final(self).spec_context().scanline_index == old(self).spec_context().scanline_index,
            final(self).spec_context().scanline_dot == old(self).spec_context().scanline_dot,
            r == pinout,
            final(self).spec_context() == (Context { io_db: pinout.data, oam_addr_reg: pinout.data, ..old(self).spec_context() }),
    {
        self.context.io_db = pinout.data;
        self.context.oam_addr_reg = pinout.data;
        pinout
    }

    /// OAMDATA read: the OAM byte at OAMADDR.
    pub fn read_oamdata(&mut self, pinout: mos::Pinout) -> (r: mos::Pinout)
        requires
            old(self).wf(),
        ensures
            final(self).wf(),
            final(self).spec_context().frame == old(self).spec_context().frame,
            final(self).spec_context().cycle == old(self).spec_context().cycle,
            final(self).spec_context().scanline_index == old(self).spec_context().scanline_index,
            final(self).spec_context().scanline_dot == old(self).spec_context().scanline_dot,
            r == (mos::Pinout { data: old(self).spec_context().oam_ram_primary@[old(self).spec_context().oam_addr_reg as int], ..pinout }),
            *final(self) == *old(self),
    {
        let mut pinout = pinout;
        pinout.data = self.context.oam_ram_primary[self.context.oam_addr_reg as usize];
        pinout
    }

    /// OAMDATA write: outside rendering the byte is stored and OAMADDR
    /// advances; during rendering nothing is stored and only the sprite
    /// number (the high 6 bits) of OAMADDR advances.
    pub fn write_oamdata(&mut self, pinout: mos::Pinout) -> (r: mos::Pinout)
        requires
            old(self).wf(),
        ensures
            final(self).wf(),
            final(self).spec_context().frame == old(self).spec_context().frame,
            final(self).spec_context().cycle == old(self).spec_context().cycle,
            final(self).spec_context().scanline_index == old(self).spec_context().scanline_index,
            final(self).spec_context().scanline_dot == old(self).spec_context().scanline_dot,
            r == pinout,
            final(self).spec_context().io_db == pinout.data,
            ({
                let c = old(self).spec_context();
                let rendering = !((240 <= c.scanline_index <= 260) || !(c.mask_reg.spec_bits() & 0b00011000 != 0));
                &&& !rendering ==> final(self).spec_context().oam_ram_primary@ == c.oam_ram_primary@.update(c.oam_addr_reg as int, pinout.data)
                    && final(self).spec_context().oam_addr_reg == c.oam_addr_reg.wrapping_add(1)
                &&& rendering ==> final(self).spec_context().oam_ram_primary == c.oam_ram_primary
                    && final(self).spec_context().oam_addr_reg == ((c.oam_addr_reg & 0xFC).wrapping_add(4) | (c.oam_addr_reg & 0x03))
            }),
    {
        self.context.io_db = pinout.data;
        if is_rendering(&mut self.context) {
            // no write; the glitchy increment moves to the next sprite
            let lb = self.context.oam_addr_reg & 0x03;
            self.context.oam_addr_reg = (self.context.oam_addr_reg & 0xFC).wrapping_add(4) | lb;
        } else {
            let a = self.context.oam_addr_reg as usize;
            self.context.oam_ram_primary[a] = pinout.data;
            self.context.oam_addr_reg = self.context.oam_addr_reg.wrapping_add(1);
        }
        pinout
    }

    /// PPUSCROLL.
    pub fn write_ppuscroll(&mut self, pinout: mos::Pinout) -> (r: mos::Pinout)
        requires
            old(self).wf(),
        ensures
            final(self).wf(),
            final(self).spec_context().frame == old(self).spec_context().frame,
            final(self).spec_context().cycle == old(self).spec_context().cycle,
            final(self).spec_context().scanline_index == old(self).spec_context().scanline_index,
            final(self).spec_context().scanline_dot == old(self).spec_context().scanline_dot,
            r == pinout,
            final(self).spec_context().io_db == pinout.data,
            !old(self).spec_context().write_block ==> final(self).spec_context().addr_reg == old(self).spec_context().addr_reg.spec_write_2005(pinout.data),
            old(self).spec_context().write_block ==> final(self).spec_context().addr_reg == old(self).spec_context().addr_reg,
    {
        self.context.io_db = pinout.data;
        if self.context.write_block {
            return pinout;
        }
        proof {
            lemma_write_2005_fine_x(self.context.addr_reg, pinout.data);
        }
        self.context.addr_reg.io_write_2005(pinout.data);
        pinout
    }

    /// PPUADDR.
    pub fn write_ppuaddr(&mut self, pinout: mos::Pinout) -> (r: mos::Pinout)
        requires
            old(self).wf(),
        ensures
            final(self).wf(),
            final(self).spec_context().frame == old(self).spec_context().frame,
            final(self).spec_context().cycle == old(self).spec_context().cycle,
            final(self).spec_context().scanline_index == old(self).spec_context().scanline_index,
            final(self).spec_context().scanline_dot == old(self).spec_context().scanline_dot,
            r == pinout,
            final(self).spec_context().io_db == pinout.data,
            !old(self).spec_context().write_block ==> final(self).spec_context().addr_reg == old(self).spec_context().addr_reg.spec_write_2006(pinout.data),
            old(self).spec_context().write_block ==> final(self).spec_context().addr_reg == old(self).spec_context().addr_reg,
    {
        self.context.io_db = pinout.data;
        if self.context.write_block {
            return pinout;
        }
        self.context.addr_reg.io_write_2006(pinout.data);
        pinout
    }

    /// PPUDATA read. The palette answers at once; below the palette the
    /// read buffer is returned and refilled on the next free bus cycle.
    pub fn read_ppudata(&mut self, pinout: mos::Pinout) -> (r: mos::Pinout)
        requires
            old(self).wf(),
        ensures
            final(self).wf(),
            final(self).spec_context().frame == old(self).spec_context().frame,
            final(self).spec_context().cycle == old(self).spec_context().cycle,
            final(self).spec_context().scanline_index == old(self).spec_context().scanline_index,
            final(self).spec_context().scanline_dot == old(self).spec_context().scanline_dot,
            ({
                let c = old(self).spec_context();
                let v = c.addr_reg.v & 0x3FFF;
                let rendering = !((240 <= c.scanline_index <= 260) || !(c.mask_reg.spec_bits() & 0b00011000 != 0));
                let data = if v >= 0x3F00 {
                    if rendering {
                        old(self).spec_palette()[spec_render_palette_index(v)]
                    } else {
                        old(self).spec_palette()[spec_palette_index(v)]
                    }
                } else {
                    old(self).spec_bus().rd_buffer
                };
                &&& r == (mos::Pinout { data, ..pinout })
                &&& final(self).spec_context() == (Context { io_db: data, ..c })
                &&& final(self).spec_bus() == (Bus { io_action: super::bus::IOAction::Read, ..old(self).spec_bus() })
                &&& final(self).spec_palette() == old(self).spec_palette()
            }),
    {
        let mut pinout = pinout;
        let v = self.context.addr_reg.vram_address();
        if v >= 0x3F00 {
            // the read buffer is still refilled from the nametable under
            // the palette
            pinout.data = if is_rendering(&mut self.context) {
                self.palette_ram.read_during_render(v)
            } else {
                self.palette_ram.read(v)
            };
            self.bus.io_palette_read();
        } else {
            pinout.data = self.bus.io_read();
        }
        self.context.io_db = pinout.data;
        pinout
    }

    /// PPUDATA write. The palette is written at once; below the palette the
    /// write happens on the next free bus cycle.
    pub fn write_ppudata(&mut self, pinout: mos::Pinout) -> (r: mos::Pinout)
        requires
            old(self).wf(),
        ensures
            final(self).wf(),
            final(self).spec_context().frame == old(self).spec_context().frame,
            final(self).spec_context().cycle == old(self).spec_context().cycle,
            final(self).spec_context().scanline_index == old(self).spec_context().scanline_index,
            final(self).spec_context().scanline_dot == old(self).spec_context().scanline_dot,
            r == pinout,
            ({
                let c = old(self).spec_context();
                let v = c.addr_reg.v & 0x3FFF;
                &&& final(self).spec_context() == (Context { io_db: pinout.data, ..c })
                &&& v >= 0x3F00 ==> final(self).spec_palette() == old(self).spec_palette().update(spec_palette_index(v), pinout.data)
                    && final(self).spec_bus().io_action == super::bus::IOAction::PaletteWrite
                &&& v < 0x3F00 ==> final(self).spec_palette() == old(self).spec_palette()
                    && final(self).spec_bus().io_action == super::bus::IOAction::Write
                    && final(self).spec_bus().wr_buffer == pinout.data
            }),
    {
        let v = self.context.addr_reg.vram_address();
        if v >= 0x3F00 {
            self.palette_ram.write(v, pinout.data);
            self.bus.io_palette_write();
        } else {
            self.bus.io_write(pinout.data);
        }
        self.context.io_db = pinout.data;
        pinout
    }

    pub fn get_context(&self) -> (r: Context)
        ensures r == self.spec_context(),
    {
        self.context
    }

    pub fn get_pinout(&self) -> (r: Pinout)
        ensures r == self.spec_bus().pinout,
    {
        self.bus.get_pinout()
    }

    /// One PPU dot: the work of the current dot of the current line, then
    /// the cycle counter moves on and the mapper sees the bus.
    ///
    /// Dots 1 to 256 of the visible lines each draw their own pixel of `fb`:
    /// the backdrop when rendering is off, else the palette entry of the
    /// sprite or background pixel of the dot; no other dot touches `fb`.
    /// Sprite 0 opaque over an opaque background pixel sets sprite 0 hit.
    /// With rendering on, dot 257 copies the horizontal scroll from t to v,
    /// and dots 280 to 304 of the pre-render and visible lines the vertical
    /// scroll.
    ///
    /// Dot 1 of line 241 sets the vblank flag (unless $2002 was read one
    /// cycle before) and, with NMI generation on, pulls the CPU's NMI pin
    /// low; dot 1 of the pre-render line clears vblank, sprite 0 hit and
    /// sprite overflow.
#[verifier::spinoff_prover]
    pub fn tick<M: Mapper>(&mut self, fb: &mut Vec<u16>, mapper: &mut M, cpu_pinout: mos::Pinout) -> (r: mos::Pinout)
        requires
            old(self).wf(),
            old(fb)@.len() >= FRAME_PIXELS,
            old(self).spec_context().cycle < u64::MAX,
            old(self).spec_context().frame < u64::MAX,
        ensures
            final(self).wf(),
            final(fb)@.len() == old(fb)@.len(),
            final(self).spec_context().cycle == old(self).spec_context().cycle + 1,
            final(self).spec_context().last_frame_cycle == (old(self).spec_context().scanline_index == 241
                && old(self).spec_context().scanline_dot == 0),
            final(self).spec_context().frame == (if old(self).spec_context().scanline_index == 241
                && old(self).spec_context().scanline_dot == 0 {
                old(self).spec_context().frame + 1
            } else {
                old(self).spec_context().frame as int
            }),
            !(241 <= old(self).spec_context().scanline_index <= 260) ==> r == cpu_pinout,
            (final(self).spec_context().scanline_index, final(self).spec_context().scanline_dot)
                == spec_next_position(old(self).spec_context()),
            super::scanline::spec_dot_writes(old(fb)@, final(fb)@, old(self).spec_context(),
                if old(self).spec_context().mask_reg.spec_bits() & 0x18 != 0 {
                    super::scanline::spec_render_colour(old(self).spec_context(), old(self).spec_palette(), old(self).spec_drawn_pixel())
                } else {
                    super::scanline::spec_blank_colour(old(self).spec_context(), old(self).spec_palette())
                }),
            final(self).spec_palette() == old(self).spec_palette(),
            // the units of a rendering dot: address register, fetches,
            // background and sprite units
            ({
                let c = old(self).spec_context();
                let c0 = Context {
                    last_frame_cycle: false,
                    write_block: if c.cycle == WRITE_BLOCK_CYCLES { false } else { c.write_block },
                    ..c
                };
                let rendering = c.mask_reg.spec_bits() & 0x18 != 0;
                &&& rendering && c.scanline_index < 240 ==> super::scanline::spec_render_units(c0, final(self).spec_context(),
                    old(self).spec_bus(), final(self).spec_bus(), old(self).spec_bg(), final(self).spec_bg(),
                    old(self).spec_sp(), final(self).spec_sp())
                &&& rendering && c.scanline_index == 261 ==> super::scanline::spec_prerender_units(c0, final(self).spec_context(),
                    old(self).spec_bus(), final(self).spec_bus(), old(self).spec_bg(), final(self).spec_bg(),
                    old(self).spec_sp(), final(self).spec_sp())
            }),
            // the dot's bus cycle, then the mapper sees the bus
            exists|mid: M| #![trigger M::spec_ppu_ticked(mid, *final(mapper), final(self).spec_bus().pinout)]
                M::spec_ppu_ticked(mid, *final(mapper), final(self).spec_bus().pinout)
                && (if old(self).spec_context().mask_reg.spec_bits() & 0x18 != 0
                    && (old(self).spec_context().scanline_index < 240 || old(self).spec_context().scanline_index == 261) {
                    super::scanline::spec_dot_bus(old(self).spec_bus(), final(self).spec_bus(), *old(mapper), mid,
                        old(self).spec_context().scanline_dot)
                } else {
                    super::bus::spec_idle_access(old(self).spec_bus(), final(self).spec_bus(), *old(mapper), mid,
                        old(self).spec_context().addr_reg.v & 0x3FFF)
                }),
            ({
                let c = old(self).spec_context();
                let vblank_start = c.scanline_index == 241 && c.scanline_dot == 1;
                &&& vblank_start && c.cycle - c.read_2002_cycle != 1
                    ==> final(self).spec_context().status_reg.spec_bits() == c.status_reg.spec_bits() | 0x80
                &&& vblank_start && c.cycle - c.read_2002_cycle > 1 && c.control_reg.spec_bits() & 0x80 == 0x80
                    ==> !r.ctrl.nmi
                &&& c.scanline_index == 261 && c.scanline_dot == 1
                    ==> final(self).spec_context().status_reg.spec_bits() == c.status_reg.spec_bits() & !0x20u8 & !0x40u8 & !0x80u8
                // the scroll copies from t to v, with rendering on
                &&& c.mask_reg.spec_bits() & 0x18 != 0 && (c.scanline_index < 240 || c.scanline_index == 261)
                    && c.scanline_dot == 257 ==> final(self).spec_context().addr_reg == (AddrReg {
                        v: (c.addr_reg.v & 0xFBE0) | (c.addr_reg.t & 0x041F),
                        ..c.addr_reg
                    })
                &&& c.mask_reg.spec_bits() & 0x18 != 0 && (c.scanline_index < 240 || c.scanline_index == 261) && 280 <= c.scanline_dot <= 304
                    ==> final(self).spec_context().addr_reg.v & 0x7BE0 == final(self).spec_context().addr_reg.t & 0x7BE0
                // sprite 0 hit, on the visible dots with rendering on
                &&& c.mask_reg.spec_bits() & 0x18 != 0 && c.scanline_index < 240 && 1 <= c.scanline_dot <= 256
                    ==> final(self).spec_context().status_reg.spec_bits() & 0x40 == (if old(self).spec_sprite_zero_hit() {
                        0x40u8
                    } else {
                        c.status_reg.spec_bits() & 0x40
                    })
            }),
    {
        let mut cpu_pinout = cpu_pinout;
        self.context.last_frame_cycle = false;

        if self.context.cycle == WRITE_BLOCK_CYCLES {
            self.context.write_block = false;
        }

        let line = self.context.scanline_index;
        let rendering = self.context.mask_reg.rendering_enabled();
        if line == 261 {
            if rendering {
                scanline_prerender_tick(&mut self.context, &mut self.bus, &mut self.bg, &mut self.sp, mapper);
            } else {
                scanline_prerender_nonvisible_tick(&mut self.context, &mut self.bus, mapper);
            }
        } else if line <= 239 {
            if rendering {
                scanline_render_tick(fb, &mut self.context, &mut self.bus, &mut self.palette_ram, &mut self.bg, &mut self.sp, mapper);
            } else {
                scanline_render_nonvisible_tick(fb, &mut self.context, &mut self.bus, &mut self.palette_ram, mapper);
            }
        } else if line == 240 {
            scanline_postrender_tick(&mut self.context, &mut self.bus, mapper);
        } else {
            cpu_pinout = scanline_vblank_tick(&mut self.context, &mut self.bus, mapper, cpu_pinout);
        }

        self.context.cycle = self.context.cycle + 1;
        let ghost mid = *mapper;
        let p = mapper.ppu_tick(self.bus.get_pinout());
        self.bus.set_pinout(p);
        assert(M::spec_ppu_ticked(mid, *mapper, self.bus.pinout));
        cpu_pinout
    }
}

} // verus!
