//! The CPU's view of the NES: which device answers each address.
//!
//! ```text
//! $0000-$07FF  2 KB internal RAM, mirrored to $1FFF
//! $2000-$2007  PPU registers, mirrored to $3FFF
//! $4014        OAM DMA
//! $4016-$4017  controllers
//! $4020-$5FFF  expansion ROM
//! $6000-$7FFF  work RAM
//! $8000-$FFFF  PRG ROM
//! ```
//! $4020-$FFFF belongs to the cartridge.

use vstd::prelude::*;
use crate::mos::Pinout;
use crate::mos::bus::Bus;
use super::dma::{Dma, ApuDmaInterconnect};
use super::mappers::Mapper;
use super::ppu::rp2c02::Rp2c02;
use super::controllers::{NesControllers, spec_port_read, spec_after_4016_write};

verus! {

/// Which device a CPU address belongs to.
#[derive(Debug, Clone, Copy, PartialEq, Eq, Structural)]
pub enum Region {
    InternalRam,
    PpuPort(u8),
    OamDma,
    Joypad1,
    Joypad2,
    ExpansionRom,
    WorkRam,
    PrgRom,
    OpenBus,
}

pub open spec fn spec_region(address: u16) -> Region {
    if address >= 0x8000 {
        Region::PrgRom
    } else if address <= 0x1FFF {
        Region::InternalRam
    } else if address <= 0x3FFF {
        Region::PpuPort((address & 0x07) as u8)
    } else if address == 0x4014 {
        Region::OamDma
    } else if address == 0x4016 {
        Region::Joypad1
    } else if address == 0x4017 {
        Region::Joypad2
    } else if 0x4020 <= address <= 0x5FFF {
        Region::ExpansionRom
    } else if 0x6000 <= address <= 0x7FFF {
        Region::WorkRam
    } else {
        Region::OpenBus
    }
}

proof fn lemma_port_bits(a: u16)
    by (bit_vector)
    ensures
        a & 0x07 < 8,
{
}

/// A PPU register that cannot be read: the io latch answers.
pub open spec fn spec_latch_port(address: u16) -> bool {
    0x2000 <= address <= 0x3FFF && (address & 0x07) != 2 && (address & 0x07) != 4 && (address & 0x07) != 7
}

/// The device an address belongs to.
pub fn region(address: u16) -> (r: Region)
    ensures r == spec_region(address),
{
    if address >= 0x8000 {
        Region::PrgRom
    } else if address <= 0x1FFF {
        Region::InternalRam
    } else if address <= 0x3FFF {
        let port = address & 0x07;
        proof {
            lemma_port_bits(address);
        }
        Region::PpuPort(port as u8)
    } else if address == 0x4014 {
        Region::OamDma
    } else if address == 0x4016 {
        Region::Joypad1
    } else if address == 0x4017 {
        Region::Joypad2
    } else if 0x4020 <= address && address <= 0x5FFF {
        Region::ExpansionRom
    } else if 0x6000 <= address && address <= 0x7FFF {
        Region::WorkRam
    } else {
        Region::OpenBus
    }
}

/// The regions the cartridge connector answers: internal RAM (wired
/// through the cartridge model), expansion, work RAM and PRG ROM.
pub open spec fn spec_cartridge_region(region: Region) -> bool {
    region == Region::InternalRam || region == Region::ExpansionRom || region == Region::WorkRam
        || region == Region::PrgRom
}

/// What a CPU read of `address` gives from the mapper `m`.
pub open spec fn spec_cartridge_read<M: Mapper>(m: M, address: u16, open_bus: u8) -> u8 {
    match spec_region(address) {
        Region::InternalRam => m.spec_ram_read(address, open_bus),
        Region::ExpansionRom => m.spec_exp_read(address, open_bus),
        Region::WorkRam => m.spec_wram_read(address, open_bus),
        Region::PrgRom => m.spec_prg_read(address, open_bus),
        _ => open_bus,
    }
}

/// `b` is `a` after a CPU write of `data` to `address` on the cartridge.
pub open spec fn spec_cartridge_written<M: Mapper>(a: M, b: M, address: u16, data: u8) -> bool {
    match spec_region(address) {
        Region::InternalRam => M::spec_ram_written(a, b, address, data),
        Region::ExpansionRom => M::spec_exp_written(a, b, address, data),
        Region::WorkRam => M::spec_wram_written(a, b, address, data),
        Region::PrgRom => M::spec_prg_written(a, b, address, data),
        _ => b == a,
    }
}

/// The PPU's frame and dot counters and its beam position as one number:
/// the frame count, then the 64 bits of the dot count, then the line and
/// the dot within it, 16 bits each.
pub open spec fn spec_ppu_clock(c: crate::nes::ppu::Context) -> int {
    ((c.frame as int * 0x1_0000_0000_0000_0000 + c.cycle as int) * 0x10000 + c.scanline_index as int) * 0x10000
        + c.scanline_dot as int
}

/// Equal clocks mean equal counters and beam positions.
pub proof fn lemma_ppu_clock_eq(a: crate::nes::ppu::Context, b: crate::nes::ppu::Context)
    requires
        spec_ppu_clock(a) == spec_ppu_clock(b),
    ensures
        a.frame == b.frame,
        a.cycle == b.cycle,
        a.scanline_index == b.scanline_index,
        a.scanline_dot == b.scanline_dot,
{
    let x = a.frame as int * 0x1_0000_0000_0000_0000 + a.cycle as int;
    let y = b.frame as int * 0x1_0000_0000_0000_0000 + b.cycle as int;
    assert(a.scanline_dot == b.scanline_dot && (x * 0x10000 + a.scanline_index as int) == (y * 0x10000 + b.scanline_index as int))
        by (nonlinear_arith)
        requires
            (x * 0x10000 + a.scanline_index as int) * 0x10000 + a.scanline_dot as int
                == (y * 0x10000 + b.scanline_index as int) * 0x10000 + b.scanline_dot as int,
            0 <= a.scanline_dot < 0x10000, 0 <= b.scanline_dot < 0x10000;
    assert(a.scanline_index == b.scanline_index && x == y) by (nonlinear_arith)
        requires
            x * 0x10000 + a.scanline_index as int == y * 0x10000 + b.scanline_index as int,
            0 <= a.scanline_index < 0x10000, 0 <= b.scanline_index < 0x10000;
}

/// What a read of PPU port `port` returns (`r`, for the request `pinout`)
/// and does to the PPU (`a` before, `b` after): PPUSTATUS gives the status
/// bits over the io latch, clears vblank and the write toggle and notes the
/// cycle; OAMDATA gives the OAM byte at OAMADDR; PPUDATA gives the palette
/// entry at once, elsewhere the read buffer, and queues a fetch that
/// refills it; the write only ports give the io latch.
pub open spec fn spec_ppu_port_read(a: Rp2c02, b: Rp2c02, port: u8, pinout: Pinout, r: Pinout) -> bool {
    let c = a.spec_context();
    &&& port == 2 ==> r == (Pinout { data: (c.status_reg.spec_bits() & 0xE0) | (c.io_db & 0x1F), ..pinout })
        && b.spec_context() == (crate::nes::ppu::Context {
            read_2002_cycle: c.cycle,
            addr_reg: crate::nes::ppu::ppu_registers::AddrReg { w: false, ..c.addr_reg },
            status_reg: b.spec_context().status_reg,
            ..c
        })
        && b.spec_context().status_reg.spec_bits() == c.status_reg.spec_bits() & 0x7F
        && b.spec_palette() == a.spec_palette() && b.spec_bus() == a.spec_bus()
    &&& port == 4 ==> r == (Pinout { data: c.oam_ram_primary@[c.oam_addr_reg as int], ..pinout }) && b == a
    &&& port == 7 ==> ({
        let v = c.addr_reg.v & 0x3FFF;
        let rendering = !((240 <= c.scanline_index <= 260) || !(c.mask_reg.spec_bits() & 0b00011000 != 0));
        let data = if v >= 0x3F00 {
            if rendering {
                a.spec_palette()[crate::nes::ppu::ppu_operations::spec_render_palette_index(v)]
            } else {
                a.spec_palette()[crate::nes::ppu::ppu_operations::spec_palette_index(v)]
            }
        } else {
            a.spec_bus().rd_buffer
        };
        &&& r == (Pinout { data, ..pinout })
        &&& b.spec_context() == (crate::nes::ppu::Context { io_db: data, ..c })
        &&& b.spec_bus() == (crate::nes::ppu::bus::Bus { io_action: crate::nes::ppu::bus::IOAction::Read, ..a.spec_bus() })
        &&& b.spec_palette() == a.spec_palette()
    })
    &&& port != 2 && port != 4 && port != 7 ==> r == (Pinout { data: c.io_db, ..pinout }) && b == a
}

/// The PPU port reads: $2002 status, $2004 OAM data, $2007 VRAM data;
/// the write only ports answer with the io latch.
fn ppu_read(ppu: &mut Rp2c02, port: u8, pinout: Pinout) -> (r: Pinout)
    requires
        old(ppu).wf(),
    ensures
        final(ppu).wf(),
        final(ppu).spec_context().frame == old(ppu).spec_context().frame,
        final(ppu).spec_context().cycle == old(ppu).spec_context().cycle,
        final(ppu).spec_context().scanline_index == old(ppu).spec_context().scanline_index,
        final(ppu).spec_context().scanline_dot == old(ppu).spec_context().scanline_dot,
        port != 2 && port != 4 && port != 7 ==> r == (Pinout { data: old(ppu).spec_context().io_db, ..pinout })
            && *final(ppu) == *old(ppu),
        port == 2 ==> r.data == (old(ppu).spec_context().status_reg.spec_bits() & 0xE0) | (old(ppu).spec_context().io_db & 0x1F),
        port == 4 ==> r.data == old(ppu).spec_context().oam_ram_primary@[old(ppu).spec_context().oam_addr_reg as int],
        spec_ppu_port_read(*old(ppu), *final(ppu), port, pinout, r),
{
    if port == 2 {
        ppu.read_ppustatus(pinout)
    } else if port == 4 {
        ppu.read_oamdata(pinout)
    } else if port == 7 {
        ppu.read_ppudata(pinout)
    } else {
        ppu.read_port(pinout)
    }
}

/// What a write of `data` to PPU port `port` does to the PPU (`a` before,
/// `b` after): PPUCTRL, PPUMASK, PPUSCROLL and PPUADDR are ignored while
/// writes are still blocked after power on; OAMADDR takes the byte; a
/// PPUDATA write stores into the palette at once, elsewhere it waits for a
/// free bus cycle.
pub open spec fn spec_ppu_port_written(a: Rp2c02, b: Rp2c02, port: u8, data: u8) -> bool {
    let c = a.spec_context();
    let d = b.spec_context();
    &&& port == 0 ==> (if !c.write_block {
            d.control_reg.spec_bits() == data
                && d.addr_reg.t == (c.addr_reg.t & 0xF3FF) | (((data & 0x03) as u16) << 10u16)
        } else {
            d.control_reg == c.control_reg
        })
    &&& port == 1 ==> (if !c.write_block { d.mask_reg.spec_bits() == data } else { d.mask_reg == c.mask_reg })
    &&& port == 3 ==> d.oam_addr_reg == data
    &&& port == 5 ==> d.addr_reg == (if !c.write_block { c.addr_reg.spec_write_2005(data) } else { c.addr_reg })
    &&& port == 6 ==> d.addr_reg == (if !c.write_block { c.addr_reg.spec_write_2006(data) } else { c.addr_reg })
    &&& port == 7 ==> ({
        let v = c.addr_reg.v & 0x3FFF;
        &&& d == (crate::nes::ppu::Context { io_db: data, ..c })
        &&& v >= 0x3F00 ==> b.spec_palette() == a.spec_palette().update(
                crate::nes::ppu::ppu_operations::spec_palette_index(v), data)
            && b.spec_bus().io_action == crate::nes::ppu::bus::IOAction::PaletteWrite
        &&& v < 0x3F00 ==> b.spec_palette() == a.spec_palette()
            && b.spec_bus().io_action == crate::nes::ppu::bus::IOAction::Write
            && b.spec_bus().wr_buffer == data
    })
}

/// The PPU port writes.
fn ppu_write(ppu: &mut Rp2c02, port: u8, pinout: Pinout) -> (r: Pinout)
    requires
        old(ppu).wf(),
    ensures
        final(ppu).wf(),
        final(ppu).spec_context().frame == old(ppu).spec_context().frame,
        final(ppu).spec_context().cycle == old(ppu).spec_context().cycle,
        final(ppu).spec_context().scanline_index == old(ppu).spec_context().scanline_index,
        final(ppu).spec_context().scanline_dot == old(ppu).spec_context().scanline_dot,
        r == pinout,
        final(ppu).spec_context().io_db == pinout.data,
        spec_ppu_port_written(*old(ppu), *final(ppu), port, pinout.data),
{
    if port == 0 {
        ppu.write_ppuctrl(pinout)
    } else if port == 1 {
        ppu.write_ppumask(pinout)
    } else if port == 2 {
        ppu.write_ppustatus(pinout)
    } else if port == 3 {
        ppu.write_oamaddr(pinout)
    } else if port == 4 {
        ppu.write_oamdata(pinout)
    } else if port == 5 {
        ppu.write_ppuscroll(pinout)
    } else if port == 6 {
        ppu.write_ppuaddr(pinout)
    } else {
        ppu.write_ppudata(pinout)
    }
}

//==================================================
// DMA bus
//===================================================

/// The devices on the CPU's bus apart from the DMA unit: what a DMA
/// transfer reads and writes.
pub struct DmaBus<M: Mapper> {
    pub mapper: M,
    pub ppu: Rp2c02,
    pub controllers: NesControllers,
    /// The requests handed to the devices, oldest first.
    pub requests: Ghost<Seq<Pinout>>,
}

impl<M: Mapper> DmaBus<M> {
    pub fn new(mapper: M, ppu: Rp2c02, controllers: NesControllers) -> (r: DmaBus<M>)
        ensures
            r.mapper == mapper,
            r.ppu == ppu,
            r.controllers == controllers,
    {
        DmaBus { mapper, ppu, controllers, requests: Ghost(Seq::empty()) }
    }
}

impl<M: Mapper> Bus for DmaBus<M> {
    open spec fn ready(&self) -> bool {
        self.ppu.wf()
    }

    /// The frames the PPU has finished and the dots it has run, as one
    /// number.
    open spec fn spec_clock(&self) -> int {
        spec_ppu_clock(self.ppu.spec_context())
    }

    open spec fn spec_requests(&self) -> Seq<Pinout> {
        self.requests@
    }

    fn read(&mut self, pinout: Pinout) -> (r: Pinout)
        ensures
            ({
                let region = spec_region(pinout.address);
                &&& spec_latch_port(pinout.address) ==> r == (Pinout { data: old(self).ppu.spec_context().io_db, ..pinout })
                &&& region == Region::PpuPort(2) ==> r.data == (old(self).ppu.spec_context().status_reg.spec_bits() & 0xE0)
                    | (old(self).ppu.spec_context().io_db & 0x1F)
                &&& region == Region::Joypad1 ==> r.data == spec_port_read(old(self).controllers.polling,
                    old(self).controllers.joypad1_latch, old(self).controllers.shift1_count, pinout.data).0
                &&& region == Region::Joypad2 ==> r.data == spec_port_read(old(self).controllers.polling,
                    old(self).controllers.joypad2_latch, old(self).controllers.shift2_count, pinout.data).0
                &&& (region == Region::OpenBus || region == Region::OamDma) ==> r == pinout
                    && final(self).ppu == old(self).ppu && final(self).controllers == old(self).controllers
                &&& region matches Region::PpuPort(port) ==> spec_ppu_port_read(old(self).ppu, final(self).ppu, port, pinout, r)
                    && final(self).controllers == old(self).controllers
                &&& !spec_cartridge_region(region) ==> final(self).mapper == old(self).mapper
                &&& region == Region::Joypad1 ==> final(self).ppu == old(self).ppu && ({
                        let t = spec_port_read(old(self).controllers.polling, old(self).controllers.joypad1_latch,
                            old(self).controllers.shift1_count, pinout.data);
                        final(self).controllers == (NesControllers { joypad1_latch: t.1, shift1_count: t.2, ..old(self).controllers })
                    })
                &&& region == Region::Joypad2 ==> final(self).ppu == old(self).ppu && ({
                        let t = spec_port_read(old(self).controllers.polling, old(self).controllers.joypad2_latch,
                            old(self).controllers.shift2_count, pinout.data);
                        final(self).controllers == (NesControllers { joypad2_latch: t.1, shift2_count: t.2, ..old(self).controllers })
                    })
                &&& spec_cartridge_region(region) ==> r == (Pinout {
                        data: spec_cartridge_read(old(self).mapper, pinout.address, pinout.data),
                        ..pinout
                    }) && final(self).mapper == old(self).mapper && final(self).ppu == old(self).ppu
                    && final(self).controllers == old(self).controllers
            }),
    {
        proof {
            lemma_port_bits(pinout.address);
            self.requests@ = self.requests@.push(pinout);
        }
        match region(pinout.address) {
            Region::PrgRom => self.mapper.read_cpu_prg(pinout),
            Region::InternalRam => self.mapper.read_cpu_internal_ram(pinout),
            Region::ExpansionRom => self.mapper.read_cpu_exp(pinout),
            Region::WorkRam => self.mapper.read_cpu_wram(pinout),
            Region::PpuPort(port) => ppu_read(&mut self.ppu, port, pinout),
            Region::Joypad1 => self.controllers.read_4016(pinout),
            Region::Joypad2 => self.controllers.read_4017(pinout),
            // open bus
            Region::OamDma | Region::OpenBus => pinout,
        }
    }

    fn write(&mut self, pinout: Pinout) -> (r: Pinout)
        ensures
            ({
                let region = spec_region(pinout.address);
                &&& region is PpuPort ==> r == pinout && final(self).ppu.spec_context().io_db == pinout.data
                &&& region matches Region::PpuPort(port) ==> spec_ppu_port_written(old(self).ppu, final(self).ppu, port, pinout.data)
                &&& (region == Region::OpenBus || region == Region::OamDma || region == Region::Joypad2) ==> r == pinout
                    && final(self).ppu == old(self).ppu
                &&& spec_cartridge_region(region) ==> r == pinout
                    && spec_cartridge_written(old(self).mapper, final(self).mapper, pinout.address, pinout.data)
                    && final(self).ppu == old(self).ppu && final(self).controllers == old(self).controllers
                &&& region == Region::Joypad1 ==> r == pinout && final(self).ppu == old(self).ppu
                    && final(self).mapper == old(self).mapper
                    && final(self).controllers == spec_after_4016_write(old(self).controllers, pinout.data)
            }),
    {
        proof {
            self.requests@ = self.requests@.push(pinout);
        }
        match region(pinout.address) {
            Region::PrgRom => self.mapper.write_cpu_prg(pinout),
            Region::InternalRam => self.mapper.write_cpu_internal_ram(pinout),
            Region::ExpansionRom => self.mapper.write_cpu_exp(pinout),
            Region::WorkRam => self.mapper.write_cpu_wram(pinout),
            Region::Joypad1 => self.controllers.write_4016(pinout),
            Region::PpuPort(port) => ppu_write(&mut self.ppu, port, pinout),
            // $4017 writes go to the APU frame counter
            Region::Joypad2 | Region::OamDma | Region::OpenBus => pinout,
        }
    }
}

impl<M: Mapper> ApuDmaInterconnect for DmaBus<M> {
    /// The APU is not emulated: the sample is dropped.
    fn update_dmc_sample(&mut self, _sample: u8) {
    }
}

//=========================================================
// CPU Bus
//=========================================================

/// Everything on the CPU's bus: the devices and the DMA unit ($4014).
pub struct CpuBus<M: Mapper> {
    pub devices: DmaBus<M>,
    pub dma: Dma,
    /// The requests the CPU handed to the bus, oldest first.
    pub requests: Ghost<Seq<Pinout>>,
}

impl<M: Mapper> CpuBus<M> {
    pub fn new(mapper: M, dma: Dma, ppu: Rp2c02, controllers: NesControllers) -> (r: CpuBus<M>)
        ensures
            r.devices.mapper == mapper,
            r.dma == dma,
            r.devices.ppu == ppu,
            r.devices.controllers == controllers,
    {
        CpuBus { devices: DmaBus::new(mapper, ppu, controllers), dma, requests: Ghost(Seq::empty()) }
    }
}

impl<M: Mapper> Bus for CpuBus<M> {
    open spec fn ready(&self) -> bool {
        self.devices.ppu.wf()
    }

    /// The frames the PPU has finished and the dots it has run, as one
    /// number.
    open spec fn spec_clock(&self) -> int {
        spec_ppu_clock(self.devices.ppu.spec_context())
    }

    open spec fn spec_requests(&self) -> Seq<Pinout> {
        self.requests@
    }

    /// Reads go to the devices.
    fn read(&mut self, pinout: Pinout) -> (r: Pinout)
        ensures
            ({
                let region = spec_region(pinout.address);
                let dev = old(self).devices;
                &&& spec_latch_port(pinout.address) ==> r == (Pinout { data: dev.ppu.spec_context().io_db, ..pinout })
                &&& region == Region::PpuPort(2) ==> r.data == (dev.ppu.spec_context().status_reg.spec_bits() & 0xE0)
                    | (dev.ppu.spec_context().io_db & 0x1F)
                &&& region == Region::Joypad1 ==> r.data == spec_port_read(dev.controllers.polling,
                    dev.controllers.joypad1_latch, dev.controllers.shift1_count, pinout.data).0
                &&& region == Region::Joypad2 ==> r.data == spec_port_read(dev.controllers.polling,
                    dev.controllers.joypad2_latch, dev.controllers.shift2_count, pinout.data).0
                &&& (region == Region::OpenBus || region == Region::OamDma) ==> r == pinout
                    && final(self).devices.ppu == dev.ppu && final(self).devices.controllers == dev.controllers
                &&& region matches Region::PpuPort(port) ==> spec_ppu_port_read(dev.ppu, final(self).devices.ppu, port, pinout, r)
                    && final(self).devices.controllers == dev.controllers
                &&& !spec_cartridge_region(region) ==> final(self).devices.mapper == dev.mapper
                &&& region == Region::Joypad1 ==> final(self).devices.ppu == dev.ppu && ({
                        let t = spec_port_read(dev.controllers.polling, dev.controllers.joypad1_latch,
                            dev.controllers.shift1_count, pinout.data);
                        final(self).devices.controllers == (NesControllers { joypad1_latch: t.1, shift1_count: t.2, ..dev.controllers })
                    })
                &&& region == Region::Joypad2 ==> final(self).devices.ppu == dev.ppu && ({
                        let t = spec_port_read(dev.controllers.polling, dev.controllers.joypad2_latch,
                            dev.controllers.shift2_count, pinout.data);
                        final(self).devices.controllers == (NesControllers { joypad2_latch: t.1, shift2_count: t.2, ..dev.controllers })
                    })
                &&& spec_cartridge_region(region) ==> r == (Pinout {
                        data: spec_cartridge_read(dev.mapper, pinout.address, pinout.data),
                        ..pinout
                    }) && final(self).devices.mapper == old(self).devices.mapper
                    && final(self).devices.ppu == old(self).devices.ppu
                    && final(self).devices.controllers == old(self).devices.controllers
                &&& final(self).dma == old(self).dma
            }),
    {
        proof {
            self.requests@ = self.requests@.push(pinout);
        }
        self.devices.read(pinout)
    }

    /// A write of $4014 starts an OAM DMA of page `data`; other writes go to
    /// the devices.
    fn write(&mut self, pinout: Pinout) -> (r: Pinout)
        ensures
            ({
                let region = spec_region(pinout.address);
                &&& region is PpuPort ==> r == pinout && final(self).devices.ppu.spec_context().io_db == pinout.data
                &&& region matches Region::PpuPort(port) ==> spec_ppu_port_written(old(self).devices.ppu,
                    final(self).devices.ppu, port, pinout.data)
                &&& region == Region::OamDma ==> r == pinout && final(self).dma == (Dma {
                        oam_addr: (pinout.data as u16) << 8u16,
                        oam_triggered: true,
                        ..old(self).dma
                    }) && final(self).devices.ppu == old(self).devices.ppu
                &&& region != Region::OamDma ==> final(self).dma == old(self).dma
                &&& region == Region::OpenBus ==> r == pinout
                &&& spec_cartridge_region(region) ==> r == pinout
                    && spec_cartridge_written(old(self).devices.mapper, final(self).devices.mapper, pinout.address, pinout.data)
                    && final(self).devices.ppu == old(self).devices.ppu
                    && final(self).devices.controllers == old(self).devices.controllers
            }),
    {
        proof {
            self.requests@ = self.requests@.push(pinout);
        }
        if pinout.address == 0x4014 {
            self.dma.oam_execute(pinout.data);
            pinout
        } else {
            self.devices.write(pinout)
        }
    }
}

} // verus!
