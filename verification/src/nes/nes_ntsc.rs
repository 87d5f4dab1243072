//! The integer part of the NTSC composite filter: where each of the three
//! input pixels of a chunk starts in the filter kernel, the sign of its
//! colour carrier, and the sizes of a blit. The kernel weights themselves
//! are floating point and stay with the filter's colour code.

use vstd::prelude::*;

verus! {

pub const NES_NTSC_ENTRY_SIZE: u32 = 128;
/// 6 bit colour + 3 bit emphasis.
pub const NES_NTSC_PALETTE_SIZE: u32 = 512;
/// Number of input pixels read per chunk.
pub const NES_NTSC_IN_CHUNK: u32 = 3;
/// Number of output pixels generated per chunk.
pub const NES_NTSC_OUT_CHUNK: u32 = 7;
/// Palette index of black.
pub const NES_NTSC_BLACK: u32 = 15;
/// The burst phase cycles through 0, 1 and 2.
pub const NES_NTSC_BURST_COUNT: u32 = 3;
pub const KERNEL_HALF: u32 = 16;
pub const KERNEL_SIZE: u32 = 33;
pub const RESCALE_OUT: u32 = 7;
pub const RESCALE_IN: u32 = 8;
pub const ALIGNMENT_COUNT: u32 = 3;

/// `x / 7` rounded toward zero, as Rust's integer division does.
pub open spec fn spec_div7_toward_zero(x: int) -> int {
    if x >= 0 { x / 7 } else { -((-x) / 7) }
}

/// Where the kernel of the pixel at composite sample `ntsc` and output
/// position `scaled` starts in the rescaled kernel table.
pub open spec fn spec_pixel_offset(ntsc: int, scaled: int) -> int {
    let ntsc_t = ntsc - spec_div7_toward_zero(scaled) * RESCALE_IN;
    let scaled_t = (scaled + RESCALE_OUT * 10) % (RESCALE_OUT as int);
    KERNEL_SIZE / 2 + ntsc_t + 1 + (RESCALE_OUT - scaled_t) % (RESCALE_OUT as int) + KERNEL_SIZE * 2 * scaled_t
}

/// The kernel offset of the pixel at composite sample `ntsc` and output
/// position `scaled`.
pub fn pixel_offset(ntsc: i32, scaled: i32) -> (r: i32)
    requires
        -70 <= scaled <= 70,
        -1000 <= ntsc <= 1000,
    ensures
        r == spec_pixel_offset(ntsc as int, scaled as int),
{
    let q: i32 = if scaled >= 0 { ((scaled as u32) / 7) as i32 } else { -(((-scaled) as u32 / 7) as i32) };
    let ntsc_t = ntsc - q * (RESCALE_IN as i32);
    let st: u32 = (scaled + 70) as u32 % 7;
    assert(st < 7);
    let scaled_t = st as i32;
    let rt: u32 = (7 - scaled_t) as u32 % 7;
    assert(rt < 7);
    let rest = rt as i32;
    16 + ntsc_t + 1 + rest + 66 * scaled_t
}

/// The sign of the colour carrier for composite sample `ntsc`: -1 where
/// the composite signal starts at an odd multiple of 2.
pub open spec fn spec_pixel_negate(ntsc: int) -> int {
    if ((ntsc + 100) / 2) % 2 == 1 { -1 } else { 1 }
}

pub fn pixel_negate(ntsc: i32) -> (r: i32)
    requires
        -100 <= ntsc <= 1000,
    ensures
        r == spec_pixel_negate(ntsc as int),
{
    let v = (ntsc + 100) as u32;
    if (v / 2) % 2 == 1 { -1 } else { 1 }
}

/// Where one input pixel of a chunk lands among the composite samples.
#[derive(Debug, Clone, Copy, PartialEq, Eq, Structural)]
pub struct PixelInfo {
    pub offset: i32,
    /// +1 or -1.
    pub negate: i32,
}

/// The three input pixels of a chunk map onto eight composite samples.
pub fn nes_ntsc_pixels() -> (r: [PixelInfo; 3])
    ensures
        r@[0] == (PixelInfo { offset: spec_pixel_offset(-4, -9) as i32, negate: spec_pixel_negate(-4) as i32 }),
        r@[1] == (PixelInfo { offset: spec_pixel_offset(-2, -7) as i32, negate: spec_pixel_negate(-2) as i32 }),
        r@[2] == (PixelInfo { offset: spec_pixel_offset(0, -5) as i32, negate: spec_pixel_negate(0) as i32 }),
{
    [
        PixelInfo { offset: pixel_offset(-4, -9), negate: pixel_negate(-4) },
        PixelInfo { offset: pixel_offset(-2, -7), negate: pixel_negate(-2) },
        PixelInfo { offset: pixel_offset(0, -5), negate: pixel_negate(0) },
    ]
}

/// Number of output pixels the blitter writes for `in_width` input pixels
/// (256 is not rounded down).
pub fn nes_ntsc_out_width(in_width: u32) -> (r: u32)
    requires
        in_width >= 1,
        ((in_width - 1) as u32 / 4) * 7 <= u32::MAX,
    ensures
        r == ((in_width - 1) as u32 / 4) * 7,
{
    ((in_width - 1) / (NES_NTSC_IN_CHUNK + 1)) * NES_NTSC_OUT_CHUNK
}

/// Number of input pixels that fit in `out_width` output pixels.
pub fn nes_ntsc_in_width(out_width: u32) -> (r: u32)
    ensures
        r == (out_width / 6) * 4,
{
    (out_width / (NES_NTSC_OUT_CHUNK - 1)) * (NES_NTSC_IN_CHUNK + 1)
}

/// The filter's lookup table: one kernel of `NES_NTSC_ENTRY_SIZE` packed
/// RGB values per palette entry.
pub struct NesNtsc {
    table: Vec<u32>,
}

impl NesNtsc {
    pub closed spec fn spec_table(&self) -> Seq<u32> {
        self.table@
    }

    /// An all-zero table.
    pub fn new() -> (r: Self)
        ensures
            r.spec_table() == Seq::new((NES_NTSC_PALETTE_SIZE * NES_NTSC_ENTRY_SIZE) as nat, |i: int| 0u32),
    {
        let n: usize = (NES_NTSC_PALETTE_SIZE * NES_NTSC_ENTRY_SIZE) as usize;
        let mut table: Vec<u32> = Vec::new();
        while table.len() < n
            invariant
                table.len() <= n,
                n == NES_NTSC_PALETTE_SIZE * NES_NTSC_ENTRY_SIZE,
                forall|i: int| 0 <= i < table.len() ==> table@[i] == 0u32,
            decreases n - table.len(),
        {
            table.push(0);
        }
        assert(table@ =~= Seq::new(n as nat, |i: int| 0u32));
        NesNtsc { table }
    }
}

/// Blits `in_height` rows of `in_width` palette indices; the row loop does
/// not convert any pixel yet, so nothing is written.
pub fn nes_ntsc_blit(
    ntsc: &mut NesNtsc,
    input: &[u16],
    row_width: u32,
    burst_phase: u32,
    in_width: u32,
    in_height: u32,
    rgb_out: &mut [u32],
    long_pitch: u32,
)
    requires
        in_width >= 1,
    ensures
        final(ntsc).spec_table() == old(ntsc).spec_table(),
        final(rgb_out)@ == old(rgb_out)@,
{
    let _chunk_count = (in_width - 1) / NES_NTSC_IN_CHUNK;
    let mut row: u32 = 0;
    while row < in_height
        invariant
            row <= in_height,
        decreases in_height - row,
    {
        row = row + 1;
    }
}

} // verus!
