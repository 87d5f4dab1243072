//! A debug view of the pattern tables: the 512 tiles of the 8 KB pattern
//! table drawn as 32 tiles per row, 16 rows (256 x 128 pixels), with the
//! first background palette.

use vstd::prelude::*;
use crate::nes::ppu::palette_ram::PaletteRam;
use crate::nes::ppu::ppu_operations::spec_render_palette_index;

verus! {

pub const CHR_WIDTH: usize = 256;
pub const CHR_HEIGHT: usize = 128;

/// A PPU output pixel: the colour index with the emphasis bits of
/// `ppu_mask` above it.
pub open spec fn spec_ppu_output(color_index: u8, ppu_mask: u8) -> u16 {
    (((ppu_mask & 0b11100000) as u16) << 1u16) | ((color_index & 0b00111111) as u16)
}

pub fn ppu_output(color_index: u8, ppu_mask: u8) -> (r: u16)
    ensures
        r == spec_ppu_output(color_index, ppu_mask),
{
    let pixel = (color_index & 0b00111111) as u16;
    // the emphasis bits go above the colour index
    let emp_bits = ((ppu_mask & 0b11100000) as u16) << 1;
    emp_bits | pixel
}

/// The two-bit colour of pixel `bit` (0 leftmost) of a tile row whose bit
/// planes are `left` and `right`.
pub open spec fn spec_plane_pixel(left: u8, right: u8, bit: int) -> u8 {
    let s = (7 - bit) as u8;
    ((left >> s) & 1) | (((right >> s) & 1) << 1u8)
}

/// Pixel `j` of the view (row-major, 256 wide): the tile under it, the row
/// of that tile, the bit, and the colour from the palette.
pub open spec fn spec_chr_pixel(pattern_table: Seq<u8>, palette: Seq<u8>, j: int) -> u16 {
    let y = j / 256;
    let x = j % 256;
    let tile = (y / 8) * 32 + x / 8;
    let left = pattern_table[tile * 16 + y % 8];
    let right = pattern_table[tile * 16 + 8 + y % 8];
    let index = spec_plane_pixel(left, right, x % 8);
    spec_ppu_output(palette[spec_render_palette_index(index as u16)], 0)
}

pub struct PpuViewer {
    ppu_output_buffer: Vec<u16>,
    palette: Vec<u32>,
}

impl PpuViewer {
    pub closed spec fn spec_buffer(&self) -> Seq<u16> {
        self.ppu_output_buffer@
    }

    pub closed spec fn spec_palette(&self) -> Seq<u32> {
        self.palette@
    }

    /// The palette covers every colour index, and the view is whole rows of
    /// colour indices.
    pub closed spec fn wf(&self) -> bool {
        &&& self.palette@.len() >= 64
        &&& self.ppu_output_buffer@.len() % 256 == 0
        &&& forall|i: int| 0 <= i < self.ppu_output_buffer@.len() ==> self.ppu_output_buffer@[i] < 64
    }

    /// An empty view that colours with `palette` (RGB for each colour
    /// index).
    pub fn new(palette: Vec<u32>) -> (r: PpuViewer)
        requires
            palette@.len() >= 64,
        ensures
            r.wf(),
            r.spec_buffer() == Seq::<u16>::empty(),
            r.spec_palette() == palette@,
    {
        PpuViewer { ppu_output_buffer: Vec::new(), palette }
    }

    /// Draws the 8 KB `pattern_table` with the first background palette
    /// of `palette_ram`.
    pub fn gen_chr_data(&mut self, pattern_table: &[u8], palette_ram: &PaletteRam)
        requires
            old(self).wf(),
            pattern_table@.len() == 0x2000,
        ensures
            final(self).wf(),
            final(self).spec_palette() == old(self).spec_palette(),
            final(self).spec_buffer().len() == CHR_WIDTH * CHR_HEIGHT,
            forall|j: int| 0 <= j < CHR_WIDTH * CHR_HEIGHT ==>
                #[trigger] final(self).spec_buffer()[j] == spec_chr_pixel(pattern_table@, palette_ram.ram@, j),
    {
        self.ppu_output_buffer.clear();
        let mut y: usize = 0;
        while y < CHR_HEIGHT
            invariant
                y <= CHR_HEIGHT,
                pattern_table@.len() == 0x2000,
                self.palette@ == old(self).palette@,
                self.palette@.len() >= 64,
                self.ppu_output_buffer@.len() == 256 * y,
                forall|j: int| 0 <= j < self.ppu_output_buffer@.len() ==>
                    #[trigger] self.ppu_output_buffer@[j] == spec_chr_pixel(pattern_table@, palette_ram.ram@, j),
                forall|i: int| 0 <= i < self.ppu_output_buffer@.len() ==> self.ppu_output_buffer@[i] < 64,
            decreases CHR_HEIGHT - y,
        {
            let mut x: usize = 0;
            while x < CHR_WIDTH
                invariant
                    y < CHR_HEIGHT,
                    x <= CHR_WIDTH,
                    pattern_table@.len() == 0x2000,
                    self.palette@ == old(self).palette@,
                    self.palette@.len() >= 64,
                    self.ppu_output_buffer@.len() == 256 * y + x,
                    forall|j: int| 0 <= j < self.ppu_output_buffer@.len() ==>
                        #[trigger] self.ppu_output_buffer@[j] == spec_chr_pixel(pattern_table@, palette_ram.ram@, j),
                    forall|i: int| 0 <= i < self.ppu_output_buffer@.len() ==> self.ppu_output_buffer@[i] < 64,
                decreases CHR_WIDTH - x,
            {
                let tile = (y / 8) * 32 + x / 8;
                let left = pattern_table[tile * 16 + y % 8];
                let right = pattern_table[tile * 16 + 8 + y % 8];
                let s = (7 - x % 8) as u8;
                let index = ((left >> s) & 1) | (((right >> s) & 1) << 1);
                let color_index = palette_ram.read_during_render(index as u16);
                let pixel = ppu_output(color_index, 0);
                proof {
                    let j = 256 * y + x;
                    vstd::arithmetic::div_mod::lemma_fundamental_div_mod_converse(j as int, 256, y as int, x as int);
                    assert(spec_chr_pixel(pattern_table@, palette_ram.ram@, j as int) == pixel);
                    assert(pixel < 64) by (bit_vector)
                        requires pixel == (((0u8 & 0b11100000) as u16) << 1u16) | ((color_index & 0b00111111) as u16);
                }
                self.ppu_output_buffer.push(pixel);
                x = x + 1;
            }
            y = y + 1;
        }
    }

    /// The view in RGB: each colour index looked up in the palette.
    pub fn chr_buffer(&mut self) -> (r: Vec<u32>)
        requires
            old(self).wf(),
        ensures
            *final(self) == *old(self),
            r@.len() == old(self).spec_buffer().len(),
            forall|i: int| 0 <= i < r@.len() ==> #[trigger] r@[i] == old(self).spec_palette()[old(self).spec_buffer()[i] as int],
    {
        let scanlines = self.ppu_output_buffer.len() / 256;
        let n = 256 * scanlines;
        let mut ntsc_pixel_buffer: Vec<u32> = Vec::new();
        while ntsc_pixel_buffer.len() < n
            invariant
                n == self.ppu_output_buffer@.len(),
                ntsc_pixel_buffer@.len() <= n,
                *self == *old(self),
                old(self).wf(),
                forall|i: int| 0 <= i < ntsc_pixel_buffer@.len() ==>
                    #[trigger] ntsc_pixel_buffer@[i] == self.palette@[self.ppu_output_buffer@[i] as int],
            decreases n - ntsc_pixel_buffer@.len(),
        {
            let i = ntsc_pixel_buffer.len();
            let p = self.ppu_output_buffer[i];
            ntsc_pixel_buffer.push(self.palette[p as usize]);
        }
        ntsc_pixel_buffer
    }
}

} // verus!
