//! A mapper for tests: 16 KB of PRG and 8 KB of CHR, both writable, and
//! direct access to every memory.

use vstd::prelude::*;
use crate::mos;
use crate::nes::ppu;
use crate::nes::paging::{AddressMapper, SIZE_8K, SIZE_16K};
use crate::nes::rom::NametableMirroring;
use super::{Context, Mapper, set_nametable_from_mirroring_type, spec_nametable_layout};
use super::mapper_nrom::spec_zeros;

verus! {

pub struct MapperDebug {
    pub context: Context,
}

impl MapperDebug {
    /// Zeroed PRG (mirrored into both halves of $8000-$FFFF) and CHR,
    /// identity CHR banking, horizontal mirroring.
    pub fn new() -> (r: MapperDebug)
        ensures
            r.context.spec_prg_rom() == spec_zeros(SIZE_16K as nat),
            r.context.spec_chr() == spec_zeros(SIZE_8K as nat),
            r.context.spec_sys_ram() == spec_zeros(0x800),
            r.context.spec_vram() == spec_zeros(0x1000),
            r.context.spec_prg_pages() == AddressMapper::<32>::spec_with_region(
                AddressMapper::<32>::spec_with_region(AddressMapper::<32>::spec_identity_pages(), 0, 0, SIZE_16K), 1, 0, SIZE_16K),
            r.context.spec_chr_pages() == AddressMapper::<8>::spec_identity_pages(),
            spec_nametable_layout(r.context.spec_nt_pages(), 0, 0, 1, 1),
    {
        let mut mapper = MapperDebug { context: Context::new() };

        let prg: Vec<u8> = vec![0; SIZE_16K];
        assert(prg@ =~= spec_zeros(SIZE_16K as nat));
        let chr: Vec<u8> = vec![0; SIZE_8K];
        assert(chr@ =~= spec_zeros(SIZE_8K as nat));
        mapper.context.set_prg_rom(prg);
        mapper.context.set_chr(chr);

        let ghost c0 = mapper.context;
        mapper.context.set_prg_region(0, 0, SIZE_16K);
        let ghost c1 = mapper.context;
        proof { Context::lemma_same_except_prg_pages(c0, c1); }
        mapper.context.set_prg_region(1, 0, SIZE_16K);
        proof { Context::lemma_same_except_prg_pages(c1, mapper.context); }
        let ghost c2 = mapper.context;
        set_nametable_from_mirroring_type(&mut mapper.context, NametableMirroring::Horizontal);
        proof { Context::lemma_same_except_nt(c2, mapper.context); }

        mapper
    }

    pub fn poke_internal_ram(&mut self, index: usize, data: u8)
        requires index < old(self).context.spec_sys_ram().len(),
        ensures final(self).context.spec_sys_ram() == old(self).context.spec_sys_ram().update(index as int, data),
    {
        self.context.poke_sys_ram(index, data);
    }

    pub fn peek_internal_ram(&mut self, index: usize) -> (r: u8)
        requires index < old(self).context.spec_sys_ram().len(),
        ensures r == old(self).context.spec_sys_ram()[index as int], *final(self) == *old(self),
    {
        self.context.peek_sys_ram(index)
    }

    pub fn poke_prg(&mut self, index: usize, data: u8)
        requires index < old(self).context.spec_prg_rom().len(),
        ensures final(self).context.spec_prg_rom() == old(self).context.spec_prg_rom().update(index as int, data),
    {
        self.context.poke_prg_rom(index, data);
    }

    pub fn peek_prg(&mut self, index: usize) -> (r: u8)
        requires index < old(self).context.spec_prg_rom().len(),
        ensures r == old(self).context.spec_prg_rom()[index as int], *final(self) == *old(self),
    {
        self.context.peek_prg_rom(index)
    }

    pub fn poke_chr(&mut self, index: usize, data: u8)
        requires index < old(self).context.spec_chr().len(),
        ensures
            final(self).context.spec_chr() == old(self).context.spec_chr().update(index as int, data),
            final(self).context.spec_chr_pages() == old(self).context.spec_chr_pages(),
    {
        self.context.poke_chr(index, data);
        proof { Context::lemma_same_tables_pages(old(self).context, self.context); }
    }

    pub fn peek_chr(&mut self, index: usize) -> (r: u8)
        requires index < old(self).context.spec_chr().len(),
        ensures r == old(self).context.spec_chr()[index as int], *final(self) == *old(self),
    {
        self.context.peek_chr(index)
    }

    pub fn poke_nt(&mut self, index: usize, data: u8)
        requires index < old(self).context.spec_vram().len(),
        ensures final(self).context.spec_vram() == old(self).context.spec_vram().update(index as int, data),
    {
        self.context.poke_vram(index, data);
    }

    pub fn peek_nt(&mut self, index: usize) -> (r: u8)
        requires index < old(self).context.spec_vram().len(),
        ensures r == old(self).context.spec_vram()[index as int], *final(self) == *old(self),
    {
        self.context.peek_vram(index)
    }
}

impl Mapper for MapperDebug {
    open spec fn spec_ram_read(&self, address: u16, open_bus: u8) -> u8 {
        self.context.spec_ram_read(address, open_bus)
    }

    open spec fn spec_ram_written(a: Self, b: Self, address: u16, data: u8) -> bool {
        Context::spec_ram_written(a.context, b.context, address, data) && b == (MapperDebug { context: b.context, ..a })
    }

    open spec fn spec_has_ram(&self) -> bool {
        self.context.spec_sys_ram().len() == crate::nes::paging::SIZE_2K
    }

    /// Open bus.
    open spec fn spec_exp_read(&self, address: u16, open_bus: u8) -> u8 {
        open_bus
    }

    open spec fn spec_wram_read(&self, address: u16, open_bus: u8) -> u8 {
        open_bus
    }

    open spec fn spec_prg_read(&self, address: u16, open_bus: u8) -> u8 {
        self.context.spec_prg_read(address, open_bus)
    }

    open spec fn spec_chr_read(&self, address: u16, open_bus: u8) -> u8 {
        self.context.spec_chr_read(address, open_bus)
    }

    open spec fn spec_nt_read(&self, address: u16, open_bus: u8) -> u8 {
        self.context.spec_nt_read(address, open_bus)
    }

    open spec fn spec_exp_written(a: Self, b: Self, address: u16, data: u8) -> bool {
        b == a
    }

    open spec fn spec_wram_written(a: Self, b: Self, address: u16, data: u8) -> bool {
        b == a
    }

    open spec fn spec_prg_written(a: Self, b: Self, address: u16, data: u8) -> bool {
        b == a
    }

    open spec fn spec_chr_written(a: Self, b: Self, address: u16, data: u8) -> bool {
        Context::spec_chr_written(a.context, b.context, address, data)
    }

    open spec fn spec_nt_written(a: Self, b: Self, address: u16, data: u8) -> bool {
        Context::spec_nt_written(a.context, b.context, address, data)
    }

    open spec fn spec_cpu_ticked(a: Self, b: Self, pinout: mos::Pinout) -> bool {
        b == a
    }

    open spec fn spec_ppu_ticked(a: Self, b: Self, pinout: ppu::Pinout) -> bool {
        b == a
    }

    proof fn lemma_ram_write_read(a: Self, b: Self, address: u16, other: u16, data: u8, open_bus: u8) {
        if a.spec_has_ram() {
            crate::nes::mappers::lemma_context_ram_write_read(a.context, b.context, address, other, data, open_bus);
        }
    }

    fn read_cpu_internal_ram(&mut self, pinout: mos::Pinout) -> (r: mos::Pinout)
        ensures
            r == (mos::Pinout { data: old(self).context.spec_ram_read(pinout.address, pinout.data), ..pinout }),
            *final(self) == *old(self),
    {
        self.context.read_internal_ram(pinout)
    }

    /// Open bus.
    fn read_cpu_exp(&mut self, pinout: mos::Pinout) -> (r: mos::Pinout)
        ensures r == pinout, *final(self) == *old(self),
    {
        pinout
    }

    /// Open bus.
    fn read_cpu_wram(&mut self, pinout: mos::Pinout) -> (r: mos::Pinout)
        ensures r == pinout, *final(self) == *old(self),
    {
        pinout
    }

    fn read_cpu_prg(&mut self, pinout: mos::Pinout) -> (r: mos::Pinout)
        ensures
            r == (mos::Pinout { data: old(self).context.spec_prg_read(pinout.address, pinout.data), ..pinout }),
            *final(self) == *old(self),
    {
        self.context.read_prg(pinout)
    }

    fn write_cpu_internal_ram(&mut self, pinout: mos::Pinout) -> (r: mos::Pinout)
        ensures
            r == pinout,
            Context::spec_ram_written(old(self).context, final(self).context, pinout.address, pinout.data),
    {
        self.context.write_internal_ram(pinout);
        pinout
    }

    /// Open bus.
    fn write_cpu_exp(&mut self, pinout: mos::Pinout) -> (r: mos::Pinout)
        ensures r == pinout, *final(self) == *old(self),
    {
        pinout
    }

    /// Ignored.
    fn write_cpu_wram(&mut self, pinout: mos::Pinout) -> (r: mos::Pinout)
        ensures r == pinout, *final(self) == *old(self),
    {
        pinout
    }

    /// Ignored.
    fn write_cpu_prg(&mut self, pinout: mos::Pinout) -> (r: mos::Pinout)
        ensures r == pinout, *final(self) == *old(self),
    {
        pinout
    }

    fn read_ppu_chr(&mut self, pinout: ppu::Pinout) -> (r: ppu::Pinout)
        ensures
            r == (ppu::Pinout { data: old(self).context.spec_chr_read(pinout.address, pinout.data), ..pinout }),
            *final(self) == *old(self),
    {
        self.context.read_chr(pinout)
    }

    fn read_ppu_nt(&mut self, pinout: ppu::Pinout) -> (r: ppu::Pinout)
        ensures
            r == (ppu::Pinout { data: old(self).context.spec_nt_read(pinout.address, pinout.data), ..pinout }),
            *final(self) == *old(self),
    {
        self.context.read_nt(pinout)
    }

    /// CHR is writable.
    fn write_ppu_chr(&mut self, pinout: ppu::Pinout) -> (r: ppu::Pinout)
        ensures
            r == pinout,
            Context::spec_chr_written(old(self).context, final(self).context, pinout.address, pinout.data),
    {
        self.context.write_chr(pinout);
        pinout
    }

    fn write_ppu_nt(&mut self, pinout: ppu::Pinout) -> (r: ppu::Pinout)
        ensures
            r == pinout,
            Context::spec_nt_written(old(self).context, final(self).context, pinout.address, pinout.data),
    {
        self.context.write_nt(pinout);
        pinout
    }

    fn cpu_tick(&mut self, pinout: mos::Pinout) -> (r: mos::Pinout)
        ensures r == pinout, *final(self) == *old(self),
    {
        pinout
    }

    fn ppu_tick(&mut self, pinout: ppu::Pinout) -> (r: ppu::Pinout)
        ensures r == pinout, *final(self) == *old(self),
    {
        pinout
    }
}

} // verus!
