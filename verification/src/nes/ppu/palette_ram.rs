//! The 32 bytes of palette RAM.

use vstd::prelude::*;
use super::ppu_operations::{spec_palette_index, spec_render_palette_index};

verus! {

#[derive(Clone, Copy)]
pub struct PaletteRam {
    pub ram: [u8; 32],
}

proof fn lemma_palette_mask(address: u16)
    ensures
        address & 0x1F < 32,
{
    assert(address & 0x1F < 32) by (bit_vector);
}

impl PaletteRam {
    /// Unspecified at power on; zeroed here.
    pub fn from_power_on() -> (r: PaletteRam)
        ensures r.ram@ == Seq::new(32, |i: int| 0u8),
    {
        let r = PaletteRam { ram: [0; 32] };
        assert(r.ram@ =~= Seq::new(32, |i: int| 0u8));
        r
    }

    /// Unchanged by a reset.
    pub fn from_reset(&self) -> (r: PaletteRam)
        ensures r.ram == self.ram,
    {
        PaletteRam { ram: self.ram }
    }

    /// A read with rendering off.
    pub fn read(&self, address: u16) -> (r: u8)
        ensures r == self.ram@[spec_palette_index(address)],
    {
        proof {
            lemma_palette_mask(address);
        }
        let address = address & 0x1F;
        if address == 0x10 || address == 0x14 || address == 0x18 || address == 0x1C {
            self.ram[(address - 0x10) as usize]
        } else {
            self.ram[address as usize]
        }
    }

    /// A read while rendering: the backdrop entries all show $3F00.
    pub fn read_during_render(&self, address: u16) -> (r: u8)
        ensures r == self.ram@[spec_render_palette_index(address)],
    {
        proof {
            lemma_palette_mask(address);
        }
        let address = address & 0x1F;
        if address == 0x04 || address == 0x08 || address == 0x0C || address == 0x10 || address == 0x14
            || address == 0x18 || address == 0x1C {
            self.ram[0x00]
        } else {
            self.ram[address as usize]
        }
    }

    pub fn write(&mut self, address: u16, data: u8)
        ensures final(self).ram@ == old(self).ram@.update(spec_palette_index(address), data),
    {
        proof {
            lemma_palette_mask(address);
        }
        let address = address & 0x1F;
        if address == 0x10 || address == 0x14 || address == 0x18 || address == 0x1C {
            self.ram[(address - 0x10) as usize] = data;
        } else {
            self.ram[address as usize] = data;
        }
    }
}

} // verus!
