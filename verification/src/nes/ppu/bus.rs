//! The PPU's memory bus: rendering fetches, and the CPU's PPUDATA accesses
//! that are carried out on the next free bus cycle.

use vstd::prelude::*;
use super::{Ctrl, Pinout};
use crate::nes::mappers::Mapper;

verus! {

/// A pending PPUDATA access.
#[derive(Clone, Copy, PartialEq, Eq, Structural, Debug)]
pub enum IOAction {
    Idle,
    Read,
    Write,
    /// A palette write does not reach the bus, but the bus cycle is still
    /// taken.
    PaletteWrite,
}

#[derive(Clone, Copy)]
pub struct Bus {
    pub pinout: Pinout,
    /// The PPUDATA read buffer.
    pub rd_buffer: u8,
    /// The byte a PPUDATA write waits to store.
    pub wr_buffer: u8,
    pub io_action: IOAction,
}

/// The byte that a read of `address` on the PPU bus gets through the
/// mapper: CHR below $2000, the nametables up to $3FFF; above that the bus
/// keeps `data`.
pub open spec fn spec_mem_read<M: Mapper>(m: M, address: u16, data: u8) -> u8 {
    if address <= 0x1fff {
        m.spec_chr_read(address, data)
    } else if address <= 0x3fff {
        m.spec_nt_read(address, data)
    } else {
        data
    }
}

/// `after` is the mapper `before` with `data` written at `address` of the
/// PPU bus (nothing happens above $3FFF).
pub open spec fn spec_mem_written<M: Mapper>(before: M, after: M, address: u16, data: u8) -> bool {
    if address <= 0x1fff {
        M::spec_chr_written(before, after, address, data)
    } else if address <= 0x3fff {
        M::spec_nt_written(before, after, address, data)
    } else {
        after == before
    }
}

/// A fetch cycle at `address` (bus `b0` to `b1`, mapper `m0` to `m1`): the
/// byte on the bus is what the mapper holds there, and the mapper is left
/// alone; a pending PPUDATA write takes the cycle instead and stores its
/// byte there.
pub open spec fn spec_fetch<M: Mapper>(b0: Bus, b1: Bus, m0: M, m1: M, address: u16) -> bool {
    &&& b1.pinout.address == address
    &&& b0.io_action != IOAction::Write ==> b1.pinout.data == spec_mem_read(m0, address, b0.pinout.data) && m1 == m0
    &&& b0.io_action == IOAction::Write ==> b1.pinout.data == b0.wr_buffer
        && spec_mem_written(m0, m1, address, b0.wr_buffer)
}

/// A cycle with no fetch at `address`: only a pending PPUDATA access
/// reaches the mapper, a read taking the byte there, a write storing its
/// byte there.
pub open spec fn spec_idle_access<M: Mapper>(b0: Bus, b1: Bus, m0: M, m1: M, address: u16) -> bool {
    &&& b1.pinout.address == address
    &&& b0.io_action == IOAction::Read ==> b1.pinout.data == spec_mem_read(m0, address, b0.pinout.data)
    &&& b0.io_action != IOAction::Write ==> m1 == m0
    &&& b0.io_action == IOAction::Write ==> b1.pinout.data == b0.wr_buffer
        && spec_mem_written(m0, m1, address, b0.wr_buffer)
}

impl Bus {
    pub fn new() -> (r: Bus)
        ensures
            r.pinout == Pinout::spec_new(),
            r.rd_buffer == 0,
            r.wr_buffer == 0,
            r.io_action == IOAction::Idle,
    {
        Bus { pinout: Pinout::new(), rd_buffer: 0, wr_buffer: 0, io_action: IOAction::Idle }
    }

    pub fn get_pinout(&self) -> (r: Pinout)
        ensures r == self.pinout,
    {
        self.pinout
    }

    pub fn set_pinout(&mut self, pinout: Pinout)
        ensures *final(self) == (Bus { pinout, ..*old(self) }),
    {
        self.pinout = pinout;
    }

    /// A PPUDATA read: hands out the read buffer and schedules a fetch.
    pub fn io_read(&mut self) -> (r: u8)
        ensures
            r == old(self).rd_buffer,
            *final(self) == (Bus { io_action: IOAction::Read, ..*old(self) }),
    {
        self.io_action = IOAction::Read;
        self.rd_buffer
    }

    /// A PPUDATA write: schedules the store of `data`.
    pub fn io_write(&mut self, data: u8)
        ensures
            *final(self) == (Bus { io_action: IOAction::Write, wr_buffer: data, ..*old(self) }),
    {
        self.io_action = IOAction::Write;
        self.wr_buffer = data;
    }

    /// A PPUDATA read of the palette: the buffer is still refilled from the
    /// memory under the palette.
    pub fn io_palette_read(&mut self)
        ensures
            *final(self) == (Bus { io_action: IOAction::Read, ..*old(self) }),
    {
        self.io_action = IOAction::Read;
    }

    /// A PPUDATA write of the palette.
    pub fn io_palette_write(&mut self)
        ensures
            *final(self) == (Bus { io_action: IOAction::PaletteWrite, ..*old(self) }),
    {
        self.io_action = IOAction::PaletteWrite;
    }

    /// The first cycle of a fetch: the address is latched.
    pub fn latch<M: Mapper>(&mut self, mapper: &mut M, address: u16)
        ensures
            *final(self) == (Bus {
                pinout: Pinout { ctrl: Ctrl { ale: true, wr: true, rd: true }, address, ..old(self).pinout },
                ..*old(self)
            }),
            *final(mapper) == *old(mapper),
    {
        self.pinout.ctrl.set(Ctrl::ALE(), true);
        self.pinout.ctrl.set(Ctrl::WR(), true);
        self.pinout.ctrl.set(Ctrl::RD(), true);
        self.pinout.address = address;
    }

    /// The second cycle of a fetch. A pending PPUDATA access takes the
    /// cycle: a pending write stores its byte at `address` instead of the
    /// fetch, a pending read refills the read buffer with the fetched byte.
    /// Returns the byte on the bus and whether a PPUDATA access was served.
    pub fn read<M: Mapper>(&mut self, mapper: &mut M, address: u16) -> (r: (u8, bool))
        ensures
            r.0 == final(self).pinout.data,
            r.1 == (old(self).io_action != IOAction::Idle),
            final(self).io_action == IOAction::Idle,
            final(self).wr_buffer == old(self).wr_buffer,
            old(self).io_action == IOAction::Read ==> final(self).rd_buffer == r.0,
            old(self).io_action != IOAction::Read ==> final(self).rd_buffer == old(self).rd_buffer,
            old(self).io_action == IOAction::Write ==> r.0 == old(self).wr_buffer,
            spec_fetch(*old(self), *final(self), *old(mapper), *final(mapper), address),
    {
        self.pinout.ctrl.set(Ctrl::ALE(), false);
        self.pinout.ctrl.set(Ctrl::WR(), true);
        // read is always asserted on read action
        self.pinout.ctrl.set(Ctrl::RD(), false);
        self.pinout.address = address;

        match self.io_action {
            IOAction::Idle => {
                self.internal_read(mapper);
                (self.pinout.data, false)
            }
            IOAction::Read => {
                self.io_action = IOAction::Idle;
                self.internal_read(mapper);
                self.rd_buffer = self.pinout.data;
                (self.pinout.data, true)
            }
            IOAction::Write => {
                self.io_action = IOAction::Idle;
                // the pending write takes the cycle
                self.pinout.ctrl.set(Ctrl::WR(), false);
                self.pinout.data = self.wr_buffer;
                self.internal_write(mapper);
                (self.pinout.data, true)
            }
            IOAction::PaletteWrite => {
                self.io_action = IOAction::Idle;
                self.internal_read(mapper);
                (self.pinout.data, true)
            }
        }
    }

    /// A bus cycle with no fetch: a pending PPUDATA access is carried out at
    /// `address`. Returns whether one was.
    pub fn idle<M: Mapper>(&mut self, mapper: &mut M, address: u16) -> (r: bool)
        ensures
            r == (old(self).io_action != IOAction::Idle),
            final(self).io_action == IOAction::Idle,
            final(self).wr_buffer == old(self).wr_buffer,
            old(self).io_action == IOAction::Read ==> final(self).rd_buffer == final(self).pinout.data,
            old(self).io_action != IOAction::Read ==> final(self).rd_buffer == old(self).rd_buffer,
            old(self).io_action == IOAction::Write ==> final(self).pinout.data == old(self).wr_buffer,
            spec_idle_access(*old(self), *final(self), *old(mapper), *final(mapper), address),
    {
        self.pinout.ctrl.set(Ctrl::ALE(), false);
        self.pinout.ctrl.set(Ctrl::WR(), true);
        self.pinout.ctrl.set(Ctrl::RD(), true);
        self.pinout.address = address;

        match self.io_action {
            IOAction::Idle => false,
            IOAction::Read => {
                self.io_action = IOAction::Idle;
                self.pinout.ctrl.set(Ctrl::RD(), false);
                self.internal_read(mapper);
                self.rd_buffer = self.pinout.data;
                true
            }
            IOAction::Write => {
                self.io_action = IOAction::Idle;
                self.pinout.ctrl.set(Ctrl::WR(), false);
                self.pinout.data = self.wr_buffer;
                self.internal_write(mapper);
                true
            }
            IOAction::PaletteWrite => {
                self.io_action = IOAction::Idle;
                true
            }
        }
    }

    /// Reads CHR ($0000-$1FFF) or the nametables ($2000-$3FFF) through the
    /// mapper; above that the bus floats.
    fn internal_read<M: Mapper>(&mut self, mapper: &mut M)
        ensures
            final(self).io_action == old(self).io_action,
            final(self).rd_buffer == old(self).rd_buffer,
            final(self).wr_buffer == old(self).wr_buffer,
            *final(mapper) == *old(mapper),
            ({
                let p = old(self).pinout;
                final(self).pinout == (Pinout {
                    ctrl: Ctrl { rd: false, ..p.ctrl },
                    data: if p.address <= 0x1fff {
                        old(mapper).spec_chr_read(p.address, p.data)
                    } else if p.address <= 0x3fff {
                        old(mapper).spec_nt_read(p.address, p.data)
                    } else {
                        p.data
                    },
                    ..p
                })
            }),
    {
        self.pinout.ctrl.set(Ctrl::RD(), false);
        if self.pinout.address <= 0x1fff {
            self.pinout = mapper.read_ppu_chr(self.pinout);
        } else if self.pinout.address <= 0x3fff {
            self.pinout = mapper.read_ppu_nt(self.pinout);
        }
    }

    /// Writes CHR or the nametables through the mapper; the data on the bus
    /// stays what was written.
    fn internal_write<M: Mapper>(&mut self, mapper: &mut M)
        ensures
            final(self).io_action == old(self).io_action,
            final(self).rd_buffer == old(self).rd_buffer,
            final(self).wr_buffer == old(self).wr_buffer,
            final(self).pinout.data == old(self).pinout.data,
            final(self).pinout == (Pinout { ctrl: Ctrl { wr: false, ..old(self).pinout.ctrl }, ..old(self).pinout }),
            ({
                let p = old(self).pinout;
                &&& p.address <= 0x1fff ==> M::spec_chr_written(*old(mapper), *final(mapper), p.address, p.data)
                &&& 0x1fff < p.address <= 0x3fff ==> M::spec_nt_written(*old(mapper), *final(mapper), p.address, p.data)
                &&& p.address > 0x3fff ==> *final(mapper) == *old(mapper)
            }),
    {
        self.pinout.ctrl.set(Ctrl::WR(), false);
        let data = self.pinout.data;
        if self.pinout.address <= 0x1fff {
            self.pinout = mapper.write_ppu_chr(self.pinout);
        } else if self.pinout.address <= 0x3fff {
            self.pinout = mapper.write_ppu_nt(self.pinout);
        }
        self.pinout.data = data;
    }
}

} // verus!
