//! NROM (mapper 0): 16 or 32 KB of PRG ROM, 8 KB of CHR ROM or RAM, no bank
//! switching.

use vstd::prelude::*;
use crate::mos;
use crate::nes::ppu;
use crate::nes::paging::{AddressMapper, SIZE_8K, SIZE_16K, SIZE_32K};
use crate::nes::rom::{RomImage, NametableMirroring};
use super::{Context, Mapper, set_nametable_from_mirroring_type, spec_nametable_layout};

verus! {

/// `n` zero bytes.
pub open spec fn spec_zeros(n: nat) -> Seq<u8> {
    Seq::new(n, |i: int| 0u8)
}

/// A copy of `v`.
pub fn copy_bytes(v: &Vec<u8>) -> (r: Vec<u8>)
    ensures
        r@ == v@,
{
    let r = v.clone();
    assert(r@ =~= v@);
    r
}

/// The nametable layout the header's mirroring selects.
pub open spec fn spec_mirroring_layout(pages: Seq<crate::nes::paging::Bank>, mirroring: NametableMirroring) -> bool {
    match mirroring {
        NametableMirroring::Horizontal => spec_nametable_layout(pages, 0, 0, 1, 1),
        NametableMirroring::Vertical => spec_nametable_layout(pages, 0, 1, 0, 1),
        NametableMirroring::FourScreens => spec_nametable_layout(pages, 0, 1, 2, 3),
        NametableMirroring::Other => true,
    }
}

/// The PRG page table of a fixed 16 or 32 KB PRG ROM: 16 KB is mirrored
/// into both halves of $8000-$FFFF.
pub open spec fn spec_fixed_prg_pages(prg_rom_size: u32) -> Seq<crate::nes::paging::Bank> {
    let id = AddressMapper::<32>::spec_identity_pages();
    if prg_rom_size == SIZE_16K {
        AddressMapper::<32>::spec_with_region(AddressMapper::<32>::spec_with_region(id, 0, 0, SIZE_16K), 1, 0, SIZE_16K)
    } else {
        AddressMapper::<32>::spec_with_region(id, 0, 0, SIZE_32K)
    }
}

/// The page table of a single 8 KB bank.
pub open spec fn spec_single_8k_pages() -> Seq<crate::nes::paging::Bank> {
    AddressMapper::<8>::spec_with_region(AddressMapper::<8>::spec_identity_pages(), 0, 0, SIZE_8K)
}

pub struct MapperNrom {
    pub context: Context,
    pub uses_chr_ram: bool,
}

impl MapperNrom {
    pub fn new() -> (r: MapperNrom)
        ensures
            Context::spec_is_power_on(r.context),
            !r.uses_chr_ram,
    {
        MapperNrom { context: Context::new(), uses_chr_ram: false }
    }

    /// The NROM board of a ROM image: PRG ROM mirrored to fill $8000-$FFFF,
    /// the CHR ROM (or 8 KB of CHR RAM when the image has none), the
    /// header's nametable mirroring.
    pub fn from_ines(rom: &RomImage) -> (r: MapperNrom)
        requires
            rom.prg_rom_size == SIZE_16K || rom.prg_rom_size == SIZE_32K,
            rom.nametable_mirroring != NametableMirroring::Other,
        ensures
            r.context.spec_prg_rom() == rom.prg_data@,
            rom.chr_data@.len() == 0 ==> r.context.spec_chr() == spec_zeros(SIZE_8K as nat) && r.uses_chr_ram,
            rom.chr_data@.len() != 0 ==> r.context.spec_chr() == rom.chr_data@ && !r.uses_chr_ram,
            r.context.spec_prg_pages() == spec_fixed_prg_pages(rom.prg_rom_size),
            r.context.spec_chr_pages() == spec_single_8k_pages(),
            r.context.spec_wram_pages() == spec_single_8k_pages(),
            spec_mirroring_layout(r.context.spec_nt_pages(), rom.nametable_mirroring),
            r.context.spec_sys_ram() == spec_zeros(0x800),
            r.context.spec_vram() == spec_zeros(0x1000),
            r.context.spec_prg_ram().len() == 0,
    {
        let mut mapper_nrom = MapperNrom::new();

        mapper_nrom.context.set_prg_rom(copy_bytes(&rom.prg_data));
        mapper_nrom.context.set_chr(copy_bytes(&rom.chr_data));

        if mapper_nrom.context.chr_len() == 0 {
            // chr ram
            mapper_nrom.context.set_chr(vec![0; SIZE_8K]);
            mapper_nrom.uses_chr_ram = true;
        }
        let ghost c0 = mapper_nrom.context;
        if rom.prg_rom_size as usize == SIZE_16K {
            mapper_nrom.context.set_prg_region(0, 0, SIZE_16K);
            let ghost c1 = mapper_nrom.context;
            proof { Context::lemma_same_except_prg_pages(c0, c1); }
            mapper_nrom.context.set_prg_region(1, 0, SIZE_16K);
            proof { Context::lemma_same_except_prg_pages(c1, mapper_nrom.context); }
        } else {
            mapper_nrom.context.set_prg_region(0, 0, SIZE_32K);
            proof { Context::lemma_same_except_prg_pages(c0, mapper_nrom.context); }
        }
        let ghost c2 = mapper_nrom.context;
        mapper_nrom.context.set_chr_region(0, 0, SIZE_8K);
        proof { Context::lemma_same_except_chr_pages(c2, mapper_nrom.context); }
        mapper_nrom.context.set_wram_region(0, 0, SIZE_8K);
        let ghost c3 = mapper_nrom.context;
        set_nametable_from_mirroring_type(&mut mapper_nrom.context, rom.nametable_mirroring);
        proof { Context::lemma_same_except_nt(c3, mapper_nrom.context); }

        mapper_nrom
    }
}

impl Mapper for MapperNrom {
    open spec fn spec_ram_read(&self, address: u16, open_bus: u8) -> u8 {
        self.context.spec_ram_read(address, open_bus)
    }

    open spec fn spec_ram_written(a: Self, b: Self, address: u16, data: u8) -> bool {
        Context::spec_ram_written(a.context, b.context, address, data) && b == (MapperNrom { context: b.context, ..a })
    }

    open spec fn spec_has_ram(&self) -> bool {
        self.context.spec_sys_ram().len() == crate::nes::paging::SIZE_2K
    }

    /// Open bus.
    open spec fn spec_exp_read(&self, address: u16, open_bus: u8) -> u8 {
        open_bus
    }

    open spec fn spec_wram_read(&self, address: u16, open_bus: u8) -> u8 {
        self.context.spec_wram_read(address, open_bus)
    }

    open spec fn spec_prg_read(&self, address: u16, open_bus: u8) -> u8 {
        self.context.spec_prg_read(address, open_bus)
    }

    open spec fn spec_chr_read(&self, address: u16, open_bus: u8) -> u8 {
        self.context.spec_chr_read(address, open_bus)
    }

    open spec fn spec_nt_read(&self, address: u16, open_bus: u8) -> u8 {
        self.context.spec_nt_read(address, open_bus)
    }

    open spec fn spec_exp_written(a: Self, b: Self, address: u16, data: u8) -> bool {
        b == a
    }

    open spec fn spec_wram_written(a: Self, b: Self, address: u16, data: u8) -> bool {
        Context::spec_wram_written(a.context, b.context, address, data) && b.uses_chr_ram == a.uses_chr_ram
    }

    open spec fn spec_prg_written(a: Self, b: Self, address: u16, data: u8) -> bool {
        b == a
    }

    open spec fn spec_chr_written(a: Self, b: Self, address: u16, data: u8) -> bool {
        if a.uses_chr_ram {
            Context::spec_chr_written(a.context, b.context, address, data) && b.uses_chr_ram == a.uses_chr_ram
        } else {
            b == a
        }
    }

    open spec fn spec_nt_written(a: Self, b: Self, address: u16, data: u8) -> bool {
        Context::spec_nt_written(a.context, b.context, address, data) && b.uses_chr_ram == a.uses_chr_ram
    }

    open spec fn spec_cpu_ticked(a: Self, b: Self, pinout: mos::Pinout) -> bool {
        b == a
    }

    open spec fn spec_ppu_ticked(a: Self, b: Self, pinout: ppu::Pinout) -> bool {
        b == a
    }

    proof fn lemma_ram_write_read(a: Self, b: Self, address: u16, other: u16, data: u8, open_bus: u8) {
        if a.spec_has_ram() {
            crate::nes::mappers::lemma_context_ram_write_read(a.context, b.context, address, other, data, open_bus);
        }
    }

    fn read_cpu_internal_ram(&mut self, pinout: mos::Pinout) -> (r: mos::Pinout)
        ensures
            r == (mos::Pinout { data: old(self).context.spec_ram_read(pinout.address, pinout.data), ..pinout }),
            *final(self) == *old(self),
    {
        self.context.read_internal_ram(pinout)
    }

    /// Open bus.
    fn read_cpu_exp(&mut self, pinout: mos::Pinout) -> (r: mos::Pinout)
        ensures r == pinout, *final(self) == *old(self),
    {
        pinout
    }

    fn read_cpu_wram(&mut self, pinout: mos::Pinout) -> (r: mos::Pinout)
        ensures
            r == (mos::Pinout { data: old(self).context.spec_wram_read(pinout.address, pinout.data), ..pinout }),
            *final(self) == *old(self),
    {
        self.context.read_wram(pinout)
    }

    fn read_cpu_prg(&mut self, pinout: mos::Pinout) -> (r: mos::Pinout)
        ensures
            r == (mos::Pinout { data: old(self).context.spec_prg_read(pinout.address, pinout.data), ..pinout }),
            *final(self) == *old(self),
    {
        self.context.read_prg(pinout)
    }

    fn write_cpu_internal_ram(&mut self, pinout: mos::Pinout) -> (r: mos::Pinout)
        ensures
            r == pinout,
            Context::spec_ram_written(old(self).context, final(self).context, pinout.address, pinout.data),
            final(self).uses_chr_ram == old(self).uses_chr_ram,
    {
        self.context.write_internal_ram(pinout);
        pinout
    }

    /// Open bus.
    fn write_cpu_exp(&mut self, pinout: mos::Pinout) -> (r: mos::Pinout)
        ensures r == pinout, *final(self) == *old(self),
    {
        pinout
    }

    fn write_cpu_wram(&mut self, pinout: mos::Pinout) -> (r: mos::Pinout)
        ensures
            r == pinout,
            Context::spec_wram_written(old(self).context, final(self).context, pinout.address, pinout.data),
            final(self).uses_chr_ram == old(self).uses_chr_ram,
    {
        self.context.write_wram(pinout);
        pinout
    }

    /// ROM: writes are ignored.
    fn write_cpu_prg(&mut self, pinout: mos::Pinout) -> (r: mos::Pinout)
        ensures r == pinout, *final(self) == *old(self),
    {
        pinout
    }

    fn read_ppu_chr(&mut self, pinout: ppu::Pinout) -> (r: ppu::Pinout)
        ensures
            r == (ppu::Pinout { data: old(self).context.spec_chr_read(pinout.address, pinout.data), ..pinout }),
            *final(self) == *old(self),
    {
        self.context.read_chr(pinout)
    }

    fn read_ppu_nt(&mut self, pinout: ppu::Pinout) -> (r: ppu::Pinout)
        ensures
            r == (ppu::Pinout { data: old(self).context.spec_nt_read(pinout.address, pinout.data), ..pinout }),
            *final(self) == *old(self),
    {
        self.context.read_nt(pinout)
    }

    /// Only CHR RAM can be written.
    fn write_ppu_chr(&mut self, pinout: ppu::Pinout) -> (r: ppu::Pinout)
        ensures
            r == pinout,
            old(self).uses_chr_ram ==> Context::spec_chr_written(old(self).context, final(self).context, pinout.address, pinout.data),
            !old(self).uses_chr_ram ==> *final(self) == *old(self),
            final(self).uses_chr_ram == old(self).uses_chr_ram,
    {
        if self.uses_chr_ram {
            self.context.write_chr(pinout);
        }
        pinout
    }

    fn write_ppu_nt(&mut self, pinout: ppu::Pinout) -> (r: ppu::Pinout)
        ensures
            r == pinout,
            Context::spec_nt_written(old(self).context, final(self).context, pinout.address, pinout.data),
            final(self).uses_chr_ram == old(self).uses_chr_ram,
    {
        self.context.write_nt(pinout);
        pinout
    }

    fn cpu_tick(&mut self, pinout: mos::Pinout) -> (r: mos::Pinout)
        ensures r == pinout, *final(self) == *old(self),
    {
        pinout
    }

    fn ppu_tick(&mut self, pinout: ppu::Pinout) -> (r: ppu::Pinout)
        ensures r == pinout, *final(self) == *old(self),
    {
        pinout
    }
}

} // verus!
