//! The mapper of an empty cartridge slot.

use vstd::prelude::*;
use crate::mos;
use crate::nes::ppu;
use super::Mapper;

verus! {

/// No cartridge: every access is open bus, nothing is stored.
pub struct MapperNull;

impl Mapper for MapperNull {
    /// No RAM: a read leaves the open bus value.
    open spec fn spec_ram_read(&self, address: u16, open_bus: u8) -> u8 {
        open_bus
    }

    open spec fn spec_ram_written(a: Self, b: Self, address: u16, data: u8) -> bool {
        b == a
    }

    open spec fn spec_has_ram(&self) -> bool {
        false
    }

    open spec fn spec_exp_read(&self, address: u16, open_bus: u8) -> u8 {
        open_bus
    }

    open spec fn spec_wram_read(&self, address: u16, open_bus: u8) -> u8 {
        open_bus
    }

    open spec fn spec_prg_read(&self, address: u16, open_bus: u8) -> u8 {
        open_bus
    }

    open spec fn spec_chr_read(&self, address: u16, open_bus: u8) -> u8 {
        open_bus
    }

    open spec fn spec_nt_read(&self, address: u16, open_bus: u8) -> u8 {
        open_bus
    }

    open spec fn spec_exp_written(a: Self, b: Self, address: u16, data: u8) -> bool {
        b == a
    }

    open spec fn spec_wram_written(a: Self, b: Self, address: u16, data: u8) -> bool {
        b == a
    }

    open spec fn spec_prg_written(a: Self, b: Self, address: u16, data: u8) -> bool {
        b == a
    }

    open spec fn spec_chr_written(a: Self, b: Self, address: u16, data: u8) -> bool {
        b == a
    }

    open spec fn spec_nt_written(a: Self, b: Self, address: u16, data: u8) -> bool {
        b == a
    }

    open spec fn spec_cpu_ticked(a: Self, b: Self, pinout: mos::Pinout) -> bool {
        b == a
    }

    open spec fn spec_ppu_ticked(a: Self, b: Self, pinout: ppu::Pinout) -> bool {
        b == a
    }

    proof fn lemma_ram_write_read(a: Self, b: Self, address: u16, other: u16, data: u8, open_bus: u8) {
    }

    fn read_cpu_internal_ram(&mut self, pinout: mos::Pinout) -> (r: mos::Pinout) ensures r == pinout, { pinout }
    fn read_cpu_exp(&mut self, pinout: mos::Pinout) -> (r: mos::Pinout) ensures r == pinout, { pinout }
    fn read_cpu_wram(&mut self, pinout: mos::Pinout) -> (r: mos::Pinout) ensures r == pinout, { pinout }
    fn read_cpu_prg(&mut self, pinout: mos::Pinout) -> (r: mos::Pinout) ensures r == pinout, { pinout }

    fn write_cpu_internal_ram(&mut self, pinout: mos::Pinout) -> (r: mos::Pinout) ensures r == pinout, { pinout }
    fn write_cpu_exp(&mut self, pinout: mos::Pinout) -> (r: mos::Pinout) ensures r == pinout, { pinout }
    fn write_cpu_wram(&mut self, pinout: mos::Pinout) -> (r: mos::Pinout) ensures r == pinout, { pinout }
    fn write_cpu_prg(&mut self, pinout: mos::Pinout) -> (r: mos::Pinout) ensures r == pinout, { pinout }

    fn read_ppu_chr(&mut self, pinout: ppu::Pinout) -> (r: ppu::Pinout) ensures r == pinout, { pinout }
    fn read_ppu_nt(&mut self, pinout: ppu::Pinout) -> (r: ppu::Pinout) ensures r == pinout, { pinout }

    fn write_ppu_chr(&mut self, pinout: ppu::Pinout) -> (r: ppu::Pinout) ensures r == pinout, { pinout }
    fn write_ppu_nt(&mut self, pinout: ppu::Pinout) -> (r: ppu::Pinout) ensures r == pinout, { pinout }

    fn cpu_tick(&mut self, pinout: mos::Pinout) -> (r: mos::Pinout) ensures r == pinout, { pinout }
    fn ppu_tick(&mut self, pinout: ppu::Pinout) -> (r: ppu::Pinout) ensures r == pinout, { pinout }
}

} // verus!
