//! A log of CPU cycles: the CPU state and pins of each cycle, up to a fixed
//! number of entries, and which device each address belongs to.

use vstd::prelude::*;
use crate::mos::Pinout;
use crate::mos::cpu_state::Context;

verus! {

pub const LOG_SIZE: usize = 38000;

/// The device a CPU address reaches.
#[derive(Debug, Clone, Copy, PartialEq, Eq, Structural)]
pub enum CpuDevice {
    Ram,
    Ppu,
    Apu,
    PpuDma,
    Ctrl1,
    Ctrl2,
    Disabled,
    Cart,
}

pub open spec fn spec_address_to_device(addr: u16, rw: bool) -> CpuDevice {
    if addr <= 0x1FFF {
        CpuDevice::Ram
    } else if addr <= 0x3FFF {
        CpuDevice::Ppu
    } else if addr <= 0x4013 {
        CpuDevice::Apu
    } else if addr == 0x4014 {
        CpuDevice::PpuDma
    } else if addr == 0x4015 {
        CpuDevice::Apu
    } else if addr == 0x4016 {
        CpuDevice::Ctrl1
    } else if addr == 0x4017 {
        // reads are the second joypad; writes go to the APU frame counter
        if rw { CpuDevice::Ctrl2 } else { CpuDevice::Apu }
    } else if addr <= 0x401F {
        CpuDevice::Disabled
    } else {
        CpuDevice::Cart
    }
}

/// The device of address `addr` for a read (`rw`) or a write.
pub fn address_to_device(addr: u16, rw: bool) -> (r: CpuDevice)
    ensures
        r == spec_address_to_device(addr, rw),
{
    if addr <= 0x1FFF {
        CpuDevice::Ram
    } else if addr <= 0x3FFF {
        CpuDevice::Ppu
    } else if addr <= 0x4013 {
        CpuDevice::Apu
    } else if addr == 0x4014 {
        CpuDevice::PpuDma
    } else if addr == 0x4015 {
        CpuDevice::Apu
    } else if addr == 0x4016 {
        CpuDevice::Ctrl1
    } else if addr == 0x4017 {
        if rw { CpuDevice::Ctrl2 } else { CpuDevice::Apu }
    } else if addr <= 0x401F {
        CpuDevice::Disabled
    } else {
        CpuDevice::Cart
    }
}

impl CpuDevice {
    /// The device's column in a trace line.
    pub open spec fn spec_label(&self) -> &'static str {
        match self {
            CpuDevice::Ram => "RAM      ",
            CpuDevice::Ppu => "PPU      ",
            CpuDevice::Apu => "APU      ",
            CpuDevice::PpuDma => "PPU-DMA  ",
            CpuDevice::Ctrl1 => "CTRL1    ",
            CpuDevice::Ctrl2 => "CTRL2    ",
            CpuDevice::Disabled => "DISABLED ",
            CpuDevice::Cart => "CART     ",
        }
    }

    /// The device's column in a trace line (nine characters).
    pub fn label(&self) -> (r: &'static str)
        ensures r == self.spec_label(),
    {
        match self {
            CpuDevice::Ram => "RAM      ",
            CpuDevice::Ppu => "PPU      ",
            CpuDevice::Apu => "APU      ",
            CpuDevice::PpuDma => "PPU-DMA  ",
            CpuDevice::Ctrl1 => "CTRL1    ",
            CpuDevice::Ctrl2 => "CTRL2    ",
            CpuDevice::Disabled => "DISABLED ",
            CpuDevice::Cart => "CART     ",
        }
    }
}

/// The first `size` cycles logged since the last `clear`.
pub struct TraceLogger {
    cpu_cache: Vec<(Context, Pinout)>,
    size: usize,
}

impl TraceLogger {
    /// The cycles logged, oldest first.
    pub closed spec fn spec_log(&self) -> Seq<(Context, Pinout)> {
        self.cpu_cache@.subrange(0, self.size as int)
    }

    pub closed spec fn wf(&self) -> bool {
        self.cpu_cache@.len() == LOG_SIZE && self.size <= LOG_SIZE
    }

    pub fn new() -> (r: TraceLogger)
        ensures
            r.wf(),
            r.spec_log() == Seq::<(Context, Pinout)>::empty(),
    {
        let blank = (Context::new(), Pinout::new());
        let mut cpu_cache: Vec<(Context, Pinout)> = Vec::new();
        while cpu_cache.len() < LOG_SIZE
            invariant
                cpu_cache.len() <= LOG_SIZE,
            decreases LOG_SIZE - cpu_cache.len(),
        {
            cpu_cache.push(blank);
        }
        let r = TraceLogger { cpu_cache, size: 0 };
        assert(r.spec_log() =~= Seq::<(Context, Pinout)>::empty());
        r
    }

    /// Forgets the logged cycles (the entries are plain data and are kept
    /// for reuse).
    pub fn clear(&mut self)
        requires
            old(self).wf(),
        ensures
            final(self).wf(),
            final(self).spec_log() == Seq::<(Context, Pinout)>::empty(),
    {
        self.size = 0;
        assert(self.spec_log() =~= Seq::<(Context, Pinout)>::empty());
    }

    /// Appends a cycle; a full log ignores it.
    pub fn log(&mut self, context: Context, pinout: Pinout)
        requires
            old(self).wf(),
        ensures
            final(self).wf(),
            final(self).spec_log() == (if old(self).spec_log().len() < LOG_SIZE {
                old(self).spec_log().push((context, pinout))
            } else {
                old(self).spec_log()
            }),
    {
        if self.size < LOG_SIZE {
            self.cpu_cache.set(self.size, (context, pinout));
            self.size = self.size + 1;
            assert(self.spec_log() =~= old(self).spec_log().push((context, pinout)));
        }
    }

    /// The number of cycles logged.
    pub fn size(&self) -> (r: usize)
        requires
            self.wf(),
        ensures
            r == self.spec_log().len(),
    {
        self.size
    }

    /// Logged cycle `i`.
    pub fn entry(&self, i: usize) -> (r: (Context, Pinout))
        requires
            self.wf(),
            i < self.spec_log().len(),
        ensures
            r == self.spec_log()[i as int],
    {
        self.cpu_cache[i]
    }
}

} // verus!
