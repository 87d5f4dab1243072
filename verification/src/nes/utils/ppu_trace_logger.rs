//! A log of PPU cycles, large enough for an NTSC or PAL frame, with the
//! names of scanlines and of the devices on the PPU's bus.

use vstd::prelude::*;
use crate::nes::ppu::{Context, Pinout};

verus! {

pub const LOG_SIZE: usize = 110000;

/// The kind of an NTSC scanline.
#[derive(Debug, Clone, Copy, PartialEq, Eq, Structural)]
pub enum NtscScanline {
    Prerender,
    Render,
    Postrender,
    Vblank,
}

/// Lines 0-239 are drawn, 240 is idle, 241-260 are vblank and 261 prepares
/// the next frame.
pub fn vpos_to_ntsc_scanline(vpos: u16) -> (r: NtscScanline)
    requires
        vpos <= 261,
    ensures
        r == (if vpos == 261 {
            NtscScanline::Prerender
        } else if vpos <= 239 {
            NtscScanline::Render
        } else if vpos == 240 {
            NtscScanline::Postrender
        } else {
            NtscScanline::Vblank
        }),
{
    if vpos == 261 {
        NtscScanline::Prerender
    } else if vpos <= 239 {
        NtscScanline::Render
    } else if vpos == 240 {
        NtscScanline::Postrender
    } else {
        NtscScanline::Vblank
    }
}

impl NtscScanline {
    /// The line's column in a trace line.
    pub open spec fn spec_label(&self) -> &'static str {
        match self {
            NtscScanline::Prerender => "Prerender ",
            NtscScanline::Render => "Render    ",
            NtscScanline::Postrender => "Postrender",
            NtscScanline::Vblank => "Vblank    ",
        }
    }

    pub fn label(&self) -> (r: &'static str)
        ensures r == self.spec_label(),
    {
        match self {
            NtscScanline::Prerender => "Prerender ",
            NtscScanline::Render => "Render    ",
            NtscScanline::Postrender => "Postrender",
            NtscScanline::Vblank => "Vblank    ",
        }
    }
}

/// The device of a PPU bus address.
#[derive(Debug, Clone, Copy, PartialEq, Eq, Structural)]
pub enum PpuDevice {
    /// Pattern tables, $0000-$1FFF.
    Chr,
    /// Nametables, $2000-$3FFF.
    Nt,
}

pub fn address_to_device(addr: u16) -> (r: PpuDevice)
    requires
        addr <= 0x3FFF,
    ensures
        r == (if addr <= 0x1FFF { PpuDevice::Chr } else { PpuDevice::Nt }),
{
    if addr <= 0x1FFF { PpuDevice::Chr } else { PpuDevice::Nt }
}

impl PpuDevice {
    /// The device's column in a trace line.
    pub open spec fn spec_label(&self) -> &'static str {
        match self {
            PpuDevice::Chr => "CHR",
            PpuDevice::Nt => "NT ",
        }
    }

    pub fn label(&self) -> (r: &'static str)
        ensures r == self.spec_label(),
    {
        match self {
            PpuDevice::Chr => "CHR",
            PpuDevice::Nt => "NT ",
        }
    }
}

/// The first `size` PPU cycles logged since the last `clear`.
pub struct PpuTraceLogger {
    ppu_cache: Vec<(Context, Pinout)>,
    size: usize,
}

impl PpuTraceLogger {
    /// The cycles logged, oldest first.
    pub closed spec fn spec_log(&self) -> Seq<(Context, Pinout)> {
        self.ppu_cache@.subrange(0, self.size as int)
    }

    pub closed spec fn wf(&self) -> bool {
        self.ppu_cache@.len() == LOG_SIZE && self.size <= LOG_SIZE
    }

    /// The log holds at most `LOG_SIZE` dots.
    pub proof fn lemma_log_bounded(&self)
        requires
            self.wf(),
        ensures
            self.spec_log().len() <= LOG_SIZE,
    {
    }

    pub fn new() -> (r: PpuTraceLogger)
        ensures
            r.wf(),
            r.spec_log() == Seq::<(Context, Pinout)>::empty(),
    {
        let blank = (Context::new(), Pinout::new());
        let mut ppu_cache: Vec<(Context, Pinout)> = Vec::new();
        while ppu_cache.len() < LOG_SIZE
            invariant
                ppu_cache.len() <= LOG_SIZE,
            decreases LOG_SIZE - ppu_cache.len(),
        {
            ppu_cache.push(blank);
        }
        let r = PpuTraceLogger { ppu_cache, size: 0 };
        assert(r.spec_log() =~= Seq::<(Context, Pinout)>::empty());
        r
    }

    /// Forgets the logged cycles.
    pub fn clear(&mut self)
        requires
            old(self).wf(),
        ensures
            final(self).wf(),
            final(self).spec_log() == Seq::<(Context, Pinout)>::empty(),
    {
        self.size = 0;
        assert(self.spec_log() =~= Seq::<(Context, Pinout)>::empty());
    }

    /// Appends a cycle; a full log ignores it.
    pub fn log(&mut self, context: Context, pinout: Pinout)
        requires
            old(self).wf(),
        ensures
            final(self).wf(),
            final(self).spec_log() == (if old(self).spec_log().len() < LOG_SIZE {
                old(self).spec_log().push((context, pinout))
            } else {
                old(self).spec_log()
            }),
    {
        if self.size < LOG_SIZE {
            self.ppu_cache.set(self.size, (context, pinout));
            self.size = self.size + 1;
            assert(self.spec_log() =~= old(self).spec_log().push((context, pinout)));
        }
    }

    /// The number of cycles logged.
    pub fn size(&self) -> (r: usize)
        requires
            self.wf(),
        ensures
            r == self.spec_log().len(),
    {
        self.size
    }

    /// Logged cycle `i`.
    pub fn entry(&self, i: usize) -> (r: (Context, Pinout))
        requires
            self.wf(),
            i < self.spec_log().len(),
        ensures
            r == self.spec_log()[i as int],
    {
        self.ppu_cache[i]
    }
}

} // verus!
