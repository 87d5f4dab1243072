//! CNROM (mapper 3): fixed PRG ROM, 8 KB CHR ROM banks selected by writes to
//! $8000-$FFFF.

use vstd::prelude::*;
use crate::mos;
use crate::nes::ppu;
use crate::nes::paging::{AddressMapper, SIZE_8K, SIZE_16K, SIZE_32K};
use crate::nes::rom::{RomImage, NametableMirroring};
use super::{Context, Mapper, set_nametable_from_mirroring_type};
use super::mapper_nrom::{copy_bytes, spec_fixed_prg_pages, spec_single_8k_pages, spec_mirroring_layout};

verus! {

pub struct Mapper3 {
    pub context: Context,
}

impl Mapper3 {
    pub fn new() -> (r: Mapper3)
        ensures
            Context::spec_is_power_on(r.context),
    {
        Mapper3 { context: Context::new() }
    }

    /// The CNROM board of a ROM image: PRG ROM mirrored to fill
    /// $8000-$FFFF, CHR bank 0, the header's nametable mirroring.
    pub fn from_ines(rom: &RomImage) -> (r: Mapper3)
        requires
            rom.prg_rom_size == SIZE_16K || rom.prg_rom_size == SIZE_32K,
            rom.chr_data@.len() != 0,
            rom.nametable_mirroring != NametableMirroring::Other,
        ensures
            r.context.spec_prg_rom() == rom.prg_data@,
            r.context.spec_chr() == rom.chr_data@,
            r.context.spec_prg_pages() == spec_fixed_prg_pages(rom.prg_rom_size),
            r.context.spec_chr_pages() == spec_single_8k_pages(),
            r.context.spec_wram_pages() == spec_single_8k_pages(),
            spec_mirroring_layout(r.context.spec_nt_pages(), rom.nametable_mirroring),
    {
        let mut mapper3 = Mapper3::new();

        mapper3.context.set_prg_rom(copy_bytes(&rom.prg_data));
        mapper3.context.set_chr(copy_bytes(&rom.chr_data));

        let ghost c0 = mapper3.context;
        if rom.prg_rom_size as usize == SIZE_16K {
            mapper3.context.set_prg_region(0, 0, SIZE_16K);
            let ghost c1 = mapper3.context;
            proof { Context::lemma_same_except_prg_pages(c0, c1); }
            mapper3.context.set_prg_region(1, 0, SIZE_16K);
            proof { Context::lemma_same_except_prg_pages(c1, mapper3.context); }
        } else {
            mapper3.context.set_prg_region(0, 0, SIZE_32K);
            proof { Context::lemma_same_except_prg_pages(c0, mapper3.context); }
        }

        mapper3.context.set_wram_region(0, 0, SIZE_8K);
        let ghost c2 = mapper3.context;
        mapper3.context.set_chr_region(0, 0, SIZE_8K);
        proof { Context::lemma_same_except_chr_pages(c2, mapper3.context); }
        let ghost c3 = mapper3.context;
        set_nametable_from_mirroring_type(&mut mapper3.context, rom.nametable_mirroring);
        proof { Context::lemma_same_except_nt(c3, mapper3.context); }

        mapper3
    }

    /// A write to $8000-$FFFF selects the 8 KB CHR bank.
    pub fn write_handler(&mut self, pinout: mos::Pinout)
        ensures
            final(self).context.spec_chr_pages() == AddressMapper::<8>::spec_with_region(
                old(self).context.spec_chr_pages(), 0, pinout.data as usize, SIZE_8K),
            Context::spec_same_except_chr_pages(old(self).context, final(self).context),
    {
        // CNROM only decodes the low 2 bits; other boards decode more
        let bank_index = pinout.data as usize;
        self.context.set_chr_region(0, bank_index, SIZE_8K);
    }
}

impl Mapper for Mapper3 {
    open spec fn spec_ram_read(&self, address: u16, open_bus: u8) -> u8 {
        self.context.spec_ram_read(address, open_bus)
    }

    open spec fn spec_ram_written(a: Self, b: Self, address: u16, data: u8) -> bool {
        Context::spec_ram_written(a.context, b.context, address, data) && b == (Mapper3 { context: b.context, ..a })
    }

    open spec fn spec_has_ram(&self) -> bool {
        self.context.spec_sys_ram().len() == crate::nes::paging::SIZE_2K
    }

    /// Open bus.
    open spec fn spec_exp_read(&self, address: u16, open_bus: u8) -> u8 {
        open_bus
    }

    open spec fn spec_wram_read(&self, address: u16, open_bus: u8) -> u8 {
        open_bus
    }

    open spec fn spec_prg_read(&self, address: u16, open_bus: u8) -> u8 {
        self.context.spec_prg_read(address, open_bus)
    }

    open spec fn spec_chr_read(&self, address: u16, open_bus: u8) -> u8 {
        self.context.spec_chr_read(address, open_bus)
    }

    open spec fn spec_nt_read(&self, address: u16, open_bus: u8) -> u8 {
        self.context.spec_nt_read(address, open_bus)
    }

    open spec fn spec_exp_written(a: Self, b: Self, address: u16, data: u8) -> bool {
        b == a
    }

    open spec fn spec_wram_written(a: Self, b: Self, address: u16, data: u8) -> bool {
        b == a
    }

    open spec fn spec_prg_written(a: Self, b: Self, address: u16, data: u8) -> bool {
        b.context.spec_chr_pages() == AddressMapper::<8>::spec_with_region(a.context.spec_chr_pages(), 0, data as usize, SIZE_8K)
            && Context::spec_same_except_chr_pages(a.context, b.context)
    }

    open spec fn spec_chr_written(a: Self, b: Self, address: u16, data: u8) -> bool {
        b == a
    }

    open spec fn spec_nt_written(a: Self, b: Self, address: u16, data: u8) -> bool {
        Context::spec_nt_written(a.context, b.context, address, data)
    }

    open spec fn spec_cpu_ticked(a: Self, b: Self, pinout: mos::Pinout) -> bool {
        b == a
    }

    open spec fn spec_ppu_ticked(a: Self, b: Self, pinout: ppu::Pinout) -> bool {
        b == a
    }

    proof fn lemma_ram_write_read(a: Self, b: Self, address: u16, other: u16, data: u8, open_bus: u8) {
        if a.spec_has_ram() {
            crate::nes::mappers::lemma_context_ram_write_read(a.context, b.context, address, other, data, open_bus);
        }
    }

    fn read_cpu_internal_ram(&mut self, pinout: mos::Pinout) -> (r: mos::Pinout)
        ensures
            r == (mos::Pinout { data: old(self).context.spec_ram_read(pinout.address, pinout.data), ..pinout }),
            *final(self) == *old(self),
    {
        self.context.read_internal_ram(pinout)
    }

    /// Open bus.
    fn read_cpu_exp(&mut self, pinout: mos::Pinout) -> (r: mos::Pinout)
        ensures r == pinout, *final(self) == *old(self),
    {
        pinout
    }

    /// No work RAM: open bus.
    fn read_cpu_wram(&mut self, pinout: mos::Pinout) -> (r: mos::Pinout)
        ensures r == pinout, *final(self) == *old(self),
    {
        pinout
    }

    fn read_cpu_prg(&mut self, pinout: mos::Pinout) -> (r: mos::Pinout)
        ensures
            r == (mos::Pinout { data: old(self).context.spec_prg_read(pinout.address, pinout.data), ..pinout }),
            *final(self) == *old(self),
    {
        self.context.read_prg(pinout)
    }

    fn write_cpu_internal_ram(&mut self, pinout: mos::Pinout) -> (r: mos::Pinout)
        ensures
            r == pinout,
            Context::spec_ram_written(old(self).context, final(self).context, pinout.address, pinout.data),
    {
        self.context.write_internal_ram(pinout);
        pinout
    }

    /// Open bus.
    fn write_cpu_exp(&mut self, pinout: mos::Pinout) -> (r: mos::Pinout)
        ensures r == pinout, *final(self) == *old(self),
    {
        pinout
    }

    /// No work RAM.
    fn write_cpu_wram(&mut self, pinout: mos::Pinout) -> (r: mos::Pinout)
        ensures r == pinout, *final(self) == *old(self),
    {
        pinout
    }

    /// Selects the CHR bank.
    fn write_cpu_prg(&mut self, pinout: mos::Pinout) -> (r: mos::Pinout)
        ensures
            r == pinout,
            final(self).context.spec_chr_pages() == AddressMapper::<8>::spec_with_region(
                old(self).context.spec_chr_pages(), 0, pinout.data as usize, SIZE_8K),
            Context::spec_same_except_chr_pages(old(self).context, final(self).context),
    {
        self.write_handler(pinout);
        pinout
    }

    fn read_ppu_chr(&mut self, pinout: ppu::Pinout) -> (r: ppu::Pinout)
        ensures
            r == (ppu::Pinout { data: old(self).context.spec_chr_read(pinout.address, pinout.data), ..pinout }),
            *final(self) == *old(self),
    {
        self.context.read_chr(pinout)
    }

    fn read_ppu_nt(&mut self, pinout: ppu::Pinout) -> (r: ppu::Pinout)
        ensures
            r == (ppu::Pinout { data: old(self).context.spec_nt_read(pinout.address, pinout.data), ..pinout }),
            *final(self) == *old(self),
    {
        self.context.read_nt(pinout)
    }

    /// CHR ROM: writes are ignored.
    fn write_ppu_chr(&mut self, pinout: ppu::Pinout) -> (r: ppu::Pinout)
        ensures r == pinout, *final(self) == *old(self),
    {
        pinout
    }

    fn write_ppu_nt(&mut self, pinout: ppu::Pinout) -> (r: ppu::Pinout)
        ensures
            r == pinout,
            Context::spec_nt_written(old(self).context, final(self).context, pinout.address, pinout.data),
    {
        self.context.write_nt(pinout);
        pinout
    }

    fn cpu_tick(&mut self, pinout: mos::Pinout) -> (r: mos::Pinout)
        ensures r == pinout, *final(self) == *old(self),
    {
        pinout
    }

    fn ppu_tick(&mut self, pinout: ppu::Pinout) -> (r: ppu::Pinout)
        ensures r == pinout, *final(self) == *old(self),
    {
        pinout
    }
}

} // verus!
