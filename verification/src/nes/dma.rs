//! The RP2A03's DMA unit: OAM DMA ($4014) copies a page of CPU memory to
//! OAMDATA, DMC DMA fetches sample bytes for the APU. Both halt the CPU
//! through its RDY pin.

use vstd::prelude::*;
use crate::mos::{Ctrl, Pinout};
use crate::mos::bus::Bus;

verus! {

#[derive(PartialEq, Eq, Structural, Debug, Clone, Copy)]
pub enum OamStatus {
    Idle,
    Halt,
    Align,
    Read,
    Write,
}

#[derive(PartialEq, Eq, Structural, Debug, Clone, Copy)]
pub enum DmcStatus {
    Idle,
    Halt,
    Dummy,
    Align,
    Dmc,
}

/// The APU and the DMA unit are in the same package: a DMC sample goes
/// straight to the APU, not over the bus.
pub trait ApuDmaInterconnect: Bus {
    fn update_dmc_sample(&mut self, sample: u8)
        requires
            old(self).ready(),
        ensures
            final(self).ready(),
            final(self).spec_clock() == old(self).spec_clock(),
            final(self).spec_requests() == old(self).spec_requests(),
    ;
}

#[derive(Debug, Clone, Copy, PartialEq, Eq, Structural)]
pub struct Dma {
    pub oam_status: OamStatus,
    pub dmc_status: DmcStatus,
    /// The states of the last cycle, for tracing.
    pub cur_oam_status: OamStatus,
    pub cur_dmc_status: DmcStatus,
    pub oam_addr: u16,
    pub dmc_addr: u16,
    pub data: u8,
    pub oam_tm: u8,
    pub oam_triggered: bool,
    pub dmc_triggered: bool,
    pub get_cycle: bool,
    pub put_cycle: bool,
    pub oam_rdy: bool,
    pub dmc_rdy: bool,
}

/// The DMC state after one cycle, and whether it used the bus.
pub open spec fn spec_dmc_step(d: Dma, rw: bool) -> (DmcStatus, bool) {
    match d.dmc_status {
        DmcStatus::Halt => (if rw { DmcStatus::Dummy } else { DmcStatus::Halt }, false),
        DmcStatus::Dummy => (if d.get_cycle { DmcStatus::Align } else { DmcStatus::Dmc }, false),
        DmcStatus::Align => (DmcStatus::Dmc, false),
        DmcStatus::Dmc => (DmcStatus::Idle, true),
        DmcStatus::Idle => (DmcStatus::Idle, false),
    }
}

/// The DMA state after the DMC step of a cycle.
pub open spec fn spec_dmc_part(d: Dma, rw: bool) -> Dma {
    let (dmc1, dmc_read) = spec_dmc_step(d, rw);
    Dma {
        cur_oam_status: d.oam_status,
        cur_dmc_status: d.dmc_status,
        dmc_status: dmc1,
        dmc_rdy: if dmc_read { true } else { d.dmc_rdy },
        ..d
    }
}

/// The DMA state after the OAM step of a cycle (`pause`: the DMC used the
/// bus), apart from the byte read.
pub open spec fn spec_oam_part(s1: Dma, rw1: bool, pause: bool) -> Dma {
    match s1.oam_status {
        OamStatus::Halt => if rw1 {
            Dma { oam_status: if s1.get_cycle { OamStatus::Align } else { OamStatus::Read }, ..s1 }
        } else {
            s1
        },
        OamStatus::Align => if !pause { Dma { oam_status: OamStatus::Read, ..s1 } } else { s1 },
        OamStatus::Read => if !pause {
            Dma { oam_status: OamStatus::Write, oam_addr: s1.oam_addr.wrapping_add(1), ..s1 }
        } else {
            Dma { oam_status: OamStatus::Align, ..s1 }
        },
        OamStatus::Write => if !pause {
            if s1.oam_tm == 255 {
                Dma { oam_status: OamStatus::Idle, oam_rdy: true, oam_tm: s1.oam_tm.wrapping_add(1), ..s1 }
            } else {
                Dma { oam_status: OamStatus::Read, oam_tm: s1.oam_tm.wrapping_add(1), ..s1 }
            }
        } else {
            s1
        },
        OamStatus::Idle => s1,
    }
}

/// The DMA state after the triggers of the cycle are taken up and the
/// get / put phase flips.
pub open spec fn spec_trigger_part(s2: Dma) -> Dma {
    let s3 = if s2.dmc_triggered {
        Dma {
            dmc_status: if s2.oam_status == OamStatus::Idle { DmcStatus::Halt } else { DmcStatus::Dummy },
            dmc_rdy: false,
            dmc_triggered: false,
            ..s2
        }
    } else {
        s2
    };
    let s4 = if s3.oam_triggered {
        Dma { oam_status: OamStatus::Halt, oam_tm: 0, oam_rdy: false, oam_triggered: false, ..s3 }
    } else {
        s3
    };
    Dma { put_cycle: !s4.put_cycle, get_cycle: !s4.get_cycle, ..s4 }
}

/// The DMA state after one cycle, apart from the byte read for OAM.
pub open spec fn spec_tick(d: Dma, rw: bool) -> Dma {
    let dmc_read = spec_dmc_step(d, rw).1;
    // a DMC read leaves RW high
    let rw1 = if dmc_read { true } else { rw };
    spec_trigger_part(spec_oam_part(spec_dmc_part(d, rw), rw1, dmc_read))
}

/// Whether the OAM step of this cycle reads a byte.
pub open spec fn spec_oam_reads(d: Dma, rw: bool) -> bool {
    d.oam_status == OamStatus::Read && !spec_dmc_step(d, rw).1
}

/// Whether the OAM step of this cycle writes OAMDATA.
pub open spec fn spec_oam_writes(d: Dma, rw: bool) -> bool {
    d.oam_status == OamStatus::Write && !spec_dmc_step(d, rw).1
}

impl Dma {
    pub open spec fn spec_power_on() -> Dma {
        Dma {
            oam_status: OamStatus::Idle,
            dmc_status: DmcStatus::Idle,
            cur_oam_status: OamStatus::Idle,
            cur_dmc_status: DmcStatus::Idle,
            oam_addr: 0,
            dmc_addr: 0,
            data: 0,
            oam_tm: 0,
            oam_triggered: false,
            dmc_triggered: false,
            get_cycle: true,
            put_cycle: false,
            oam_rdy: true,
            dmc_rdy: true,
        }
    }

    pub fn from_power_on() -> (r: Dma)
        ensures r == Dma::spec_power_on(),
    {
        Dma {
            oam_status: OamStatus::Idle,
            dmc_status: DmcStatus::Idle,
            cur_oam_status: OamStatus::Idle,
            cur_dmc_status: DmcStatus::Idle,
            oam_addr: 0,
            dmc_addr: 0,
            data: 0,
            oam_tm: 0,
            oam_triggered: false,
            dmc_triggered: false,
            get_cycle: true,
            put_cycle: false,
            oam_rdy: true,
            dmc_rdy: true,
        }
    }

    pub fn reset(&mut self)
        ensures *final(self) == Dma::spec_power_on(),
    {
        self.oam_status = OamStatus::Idle;
        self.dmc_status = DmcStatus::Idle;
        self.cur_oam_status = OamStatus::Idle;
        self.cur_dmc_status = DmcStatus::Idle;
        self.oam_addr = 0;
        self.dmc_addr = 0;
        self.data = 0;
        self.oam_tm = 0;
        self.oam_triggered = false;
        self.dmc_triggered = false;
        self.get_cycle = true;
        self.put_cycle = false;
        self.oam_rdy = true;
        self.dmc_rdy = true;
    }

    /// A write to $4014: copy page `addr` to OAM.
    pub fn oam_execute(&mut self, addr: u8)
        ensures
            *final(self) == (Dma { oam_addr: (addr as u16) << 8u16, oam_triggered: true, ..*old(self) }),
    {
        // dma only watches address 0x4014
        self.oam_addr = (addr as u16) << 8;
        self.oam_triggered = true;
    }

    /// A DMC sample fetch from $C000 + 64 * `sample_addr`
    /// (%11AAAAAA.AA000000).
    pub fn dmc_execute(&mut self, sample_addr: u8)
        ensures
            *final(self) == (Dma { dmc_addr: 0xC000 | ((sample_addr as u16) << 6u16), dmc_triggered: true, ..*old(self) }),
    {
        self.dmc_addr = 0xC000 | ((sample_addr as u16) << 6);
        self.dmc_triggered = true;
    }

    /// The DMC step of a cycle: returns the pinout and whether the DMC used
    /// the bus (which pauses the OAM copy).
    #[verifier::spinoff_prover]
    fn dmc_step<B: Bus + ApuDmaInterconnect>(&mut self, bus: &mut B, pinout: Pinout) -> (r: (Pinout, bool))
        requires
            old(bus).ready(),
        ensures
            final(bus).ready(),
            final(bus).spec_clock() == old(bus).spec_clock(),
            *final(self) == spec_dmc_part(*old(self), pinout.ctrl.rw),
            r.1 == spec_dmc_step(*old(self), pinout.ctrl.rw).1,
            r.1 ==> r.0.ctrl.rw,
            !r.1 ==> r.0 == pinout && final(bus).spec_requests() == old(bus).spec_requests(),
            r.1 ==> final(bus).spec_requests()
                == old(bus).spec_requests().push(Pinout { address: old(self).dmc_addr, ctrl: Ctrl { rw: true, ..pinout.ctrl }, ..pinout }),
    {
        let mut pinout = pinout;
        // for tracing
        self.cur_dmc_status = self.dmc_status;
        self.cur_oam_status = self.oam_status;

        match self.dmc_status {
            DmcStatus::Halt => {
                // a read cycle: the cpu is halted
                if pinout.ctrl.contains(Ctrl::RW()) {
                    self.dmc_status = DmcStatus::Dummy;
                }
                (pinout, false)
            }
            DmcStatus::Dummy => {
                self.dmc_status = if self.get_cycle == true { DmcStatus::Align } else { DmcStatus::Dmc };
                (pinout, false)
            }
            DmcStatus::Align => {
                self.dmc_status = DmcStatus::Dmc;
                (pinout, false)
            }
            DmcStatus::Dmc => {
                pinout.ctrl.set(Ctrl::RW(), true);
                pinout.address = self.dmc_addr;
                pinout = bus.read(pinout);
                // whatever the bus did, this was a read cycle
                pinout.ctrl.rw = true;
                bus.update_dmc_sample(pinout.data);
                self.dmc_rdy = true;
                self.dmc_status = DmcStatus::Idle;
                (pinout, true)
            }
            DmcStatus::Idle => (pinout, false),
        }
    }

    /// The OAM step of a cycle.
    #[verifier::spinoff_prover]
    fn oam_step<B: Bus + ApuDmaInterconnect>(&mut self, bus: &mut B, pinout: Pinout, oam_pause: bool) -> (r: Pinout)
        requires
            old(bus).ready(),
        ensures
            final(bus).ready(),
            final(bus).spec_clock() == old(bus).spec_clock(),
            *final(self) == (Dma { data: final(self).data, ..spec_oam_part(*old(self), pinout.ctrl.rw, oam_pause) }),
            !(old(self).oam_status == OamStatus::Read && !oam_pause) ==> final(self).data == old(self).data,
            old(self).oam_status == OamStatus::Read && !oam_pause ==> final(self).data == r.data,
            !((old(self).oam_status == OamStatus::Read || old(self).oam_status == OamStatus::Write) && !oam_pause) ==> r == pinout
                && final(bus).spec_requests() == old(bus).spec_requests(),
            old(self).oam_status == OamStatus::Read && !oam_pause ==> final(bus).spec_requests()
                == old(bus).spec_requests().push(Pinout { address: old(self).oam_addr, ctrl: Ctrl { rw: true, ..pinout.ctrl }, ..pinout }),
            old(self).oam_status == OamStatus::Write && !oam_pause ==> final(bus).spec_requests()
                == old(bus).spec_requests().push(Pinout { address: 0x2004, data: old(self).data, ctrl: Ctrl { rw: false, ..pinout.ctrl }, ..pinout }),
    {
        let mut pinout = pinout;
        match self.oam_status {
            OamStatus::Halt => {
                if pinout.ctrl.contains(Ctrl::RW()) {
                    self.oam_status = if self.get_cycle { OamStatus::Align } else { OamStatus::Read };
                }
            }
            OamStatus::Align => {
                if !oam_pause {
                    self.oam_status = OamStatus::Read;
                }
            }
            OamStatus::Read => {
                if !oam_pause {
                    pinout.ctrl.set(Ctrl::RW(), true);
                    pinout.address = self.oam_addr;
                    pinout = bus.read(pinout);
                    self.data = pinout.data;
                    self.oam_status = OamStatus::Write;
                    self.oam_addr = self.oam_addr.wrapping_add(1);
                } else {
                    // paused for the dmc: re-align
                    self.oam_status = OamStatus::Align;
                }
            }
            OamStatus::Write => {
                if !oam_pause {
                    // the byte goes to OAMDATA
                    pinout.ctrl.set(Ctrl::RW(), false);
                    pinout.address = 0x2004;
                    pinout.data = self.data;
                    pinout = bus.write(pinout);
                    self.oam_status = if self.oam_tm == 255 {
                        self.oam_rdy = true;
                        OamStatus::Idle
                    } else {
                        OamStatus::Read
                    };
                    self.oam_tm = self.oam_tm.wrapping_add(1);
                }
            }
            OamStatus::Idle => {}
        }
        pinout
    }

    /// One CPU cycle of the DMA unit. A DMC fetch takes priority and pauses
    /// an OAM copy for the cycle; an OAM copy alternates reads of the page
    /// with writes to $2004; each waits for the CPU to be halted (a read
    /// cycle) and aligns to get / put cycles. RDY is held low while either
    /// is running.
    pub fn tick<B: Bus + ApuDmaInterconnect>(&mut self, bus: &mut B, pinout: Pinout) -> (r: Pinout)
        requires
            old(bus).ready(),
        ensures
            final(bus).ready(),
            final(bus).spec_clock() == old(bus).spec_clock(),
            ({
                let expected = spec_tick(*old(self), pinout.ctrl.rw);
                &&& *final(self) == (Dma { data: final(self).data, ..expected })
                &&& !spec_oam_reads(*old(self), pinout.ctrl.rw) ==> final(self).data == old(self).data
                &&& spec_oam_reads(*old(self), pinout.ctrl.rw) ==> final(self).data == r.data
                &&& r.ctrl.rdy == (final(self).oam_rdy && final(self).dmc_rdy)
                &&& !spec_dmc_step(*old(self), pinout.ctrl.rw).1 && !spec_oam_reads(*old(self), pinout.ctrl.rw)
                    && !spec_oam_writes(*old(self), pinout.ctrl.rw)
                    ==> r == (Pinout { ctrl: Ctrl { rdy: final(self).oam_rdy && final(self).dmc_rdy, ..pinout.ctrl }, ..pinout })
                        && final(bus).spec_requests() == old(bus).spec_requests()
                // a DMC fetch reads its sample address (and pauses the OAM copy)
                &&& spec_dmc_step(*old(self), pinout.ctrl.rw).1 ==> final(bus).spec_requests()
                    == old(bus).spec_requests().push(Pinout { address: old(self).dmc_addr, ctrl: Ctrl { rw: true, ..pinout.ctrl }, ..pinout })
                // the OAM copy reads the next byte of the page ...
                &&& spec_oam_reads(*old(self), pinout.ctrl.rw) ==> final(bus).spec_requests()
                    == old(bus).spec_requests().push(Pinout { address: old(self).oam_addr, ctrl: Ctrl { rw: true, ..pinout.ctrl }, ..pinout })
                // ... and writes the byte it holds to OAMDATA
                &&& spec_oam_writes(*old(self), pinout.ctrl.rw) ==> final(bus).spec_requests()
                    == old(bus).spec_requests().push(Pinout { address: 0x2004, data: old(self).data, ctrl: Ctrl { rw: false, ..pinout.ctrl }, ..pinout })
            }),
    {
        let (p1, oam_pause) = self.dmc_step(bus, pinout);
        let mut pinout = self.oam_step(bus, p1, oam_pause);

        if self.dmc_triggered {
            // an OAM copy in progress skips the dmc halt cycle
            self.dmc_status = if self.oam_status == OamStatus::Idle { DmcStatus::Halt } else { DmcStatus::Dummy };
            self.dmc_rdy = false;
            self.dmc_triggered = false;
        }

        if self.oam_triggered {
            self.oam_status = OamStatus::Halt;
            self.oam_tm = 0;
            self.oam_rdy = false;
            self.oam_triggered = false;
        }

        // the cpu runs only when both are idle
        pinout.ctrl.set(Ctrl::RDY(), self.oam_rdy && self.dmc_rdy);
        // alternate get / put cycles
        self.put_cycle = !self.put_cycle;
        self.get_cycle = !self.get_cycle;
        pinout
    }

    /// The trace text of the last cycle: "[G]" or "[P]" for a get or put
    /// cycle, then the OAM and DMC states.
    pub fn trace_text(&self) -> (r: (bool, &'static str, &'static str))
        ensures
            r.0 == !self.put_cycle,
            r.1 == spec_oam_text(self.cur_oam_status),
            r.2 == spec_dmc_text(self.cur_dmc_status),
    {
        let oam_str = match self.cur_oam_status {
            OamStatus::Idle => "Idle",
            OamStatus::Align => "Align",
            OamStatus::Halt => "Halt",
            OamStatus::Read => "Read",
            OamStatus::Write => "Write",
        };
        let dmc_str = match self.cur_dmc_status {
            DmcStatus::Idle => "Idle",
            DmcStatus::Align => "Align",
            DmcStatus::Halt => "Halt",
            DmcStatus::Dummy => "Dummy",
            DmcStatus::Dmc => "Dmc",
        };
        // if put then the current cycle must have been get
        (!self.put_cycle, oam_str, dmc_str)
    }
}

/// The name of an OAM DMA state in a trace line.
pub open spec fn spec_oam_text(s: OamStatus) -> &'static str {
    match s {
        OamStatus::Idle => "Idle",
        OamStatus::Align => "Align",
        OamStatus::Halt => "Halt",
        OamStatus::Read => "Read",
        OamStatus::Write => "Write",
    }
}

/// The name of a DMC DMA state in a trace line.
pub open spec fn spec_dmc_text(s: DmcStatus) -> &'static str {
    match s {
        DmcStatus::Idle => "Idle",
        DmcStatus::Align => "Align",
        DmcStatus::Halt => "Halt",
        DmcStatus::Dummy => "Dummy",
        DmcStatus::Dmc => "Dmc",
    }
}

/// No DMC transfer is running or pending and no new OAM DMA is triggered.
pub open spec fn spec_quiet(d: Dma) -> bool {
    d.dmc_status == DmcStatus::Idle && !d.dmc_triggered && !d.oam_triggered
}

/// The DMA state after a run of cycles, `rws[i]` being the CPU's RW pin on
/// cycle `i`.
pub open spec fn spec_ticks(d: Dma, rws: Seq<bool>) -> Dma
    decreases rws.len(),
{
    if rws.len() == 0 {
        d
    } else {
        spec_ticks(spec_tick(d, rws[0]), rws.drop_first())
    }
}

/// One byte of an OAM copy takes two cycles, whatever the CPU's pins: a
/// read of the next byte of the page, then its write to OAMDATA. After the
/// 256th byte the unit goes idle and releases RDY.
pub proof fn lemma_oam_copy_byte(d: Dma, rw1: bool, rw2: bool)
    requires
        spec_quiet(d),
        d.oam_status == OamStatus::Read,
    ensures
        ({
            let m = spec_tick(d, rw1);
            let n = spec_tick(m, rw2);
            &&& spec_oam_reads(d, rw1)
            &&& m.oam_status == OamStatus::Write && spec_oam_writes(m, rw2)
            &&& m.oam_rdy == d.oam_rdy
            &&& spec_quiet(n)
            &&& n.oam_addr == d.oam_addr.wrapping_add(1)
            &&& n.oam_tm == d.oam_tm.wrapping_add(1)
            &&& d.oam_tm < 255 ==> n.oam_status == OamStatus::Read && n.oam_rdy == d.oam_rdy
            &&& d.oam_tm == 255 ==> n.oam_status == OamStatus::Idle && n.oam_rdy
        }),
{
}

/// An OAM copy that has reached its reading phase with `256 - tm` bytes
/// left runs for exactly two cycles a byte: then it is idle, RDY is
/// released, and the source address has moved on by one per byte.
pub proof fn lemma_oam_copy(d: Dma, rws: Seq<bool>)
    requires
        spec_quiet(d),
        d.oam_status == OamStatus::Read,
        rws.len() == 2 * (256 - d.oam_tm),
    ensures
        spec_ticks(d, rws).oam_status == OamStatus::Idle,
        spec_ticks(d, rws).oam_rdy,
        spec_ticks(d, rws).oam_tm == 0,
        spec_ticks(d, rws).oam_addr == ((d.oam_addr + (256 - d.oam_tm)) % 65536) as u16,
        spec_quiet(spec_ticks(d, rws)),
    decreases 256 - d.oam_tm,
{
    lemma_oam_copy_byte(d, rws[0], rws[1]);
    let m = spec_tick(d, rws[0]);
    let n = spec_tick(m, rws[1]);
    let rest = rws.drop_first().drop_first();
    assert(spec_ticks(d, rws) == spec_ticks(m, rws.drop_first()));
    assert(rws.drop_first()[0] == rws[1]);
    assert(spec_ticks(m, rws.drop_first()) == spec_ticks(n, rest));
    if d.oam_tm == 255 {
        assert(rest.len() == 0);
    } else {
        lemma_oam_copy(n, rest);
    }
}

/// The DMA unit after the first `i` cycles of `rws`.
pub open spec fn spec_ticks_prefix(d: Dma, rws: Seq<bool>, i: int) -> Dma {
    spec_ticks(d, rws.take(i))
}

/// An OAM copy in its reading phase, cycle by cycle: cycle `2k` reads byte
/// `k` of the copy, at `oam_addr + k`, and cycle `2k + 1` writes it to
/// OAMDATA; RDY, low when the phase starts, stays low until the cycle of
/// the last write, which releases it.
#[verifier::spinoff_prover]
pub proof fn lemma_oam_copy_trace(d: Dma, rws: Seq<bool>)
    requires
        spec_quiet(d),
        d.oam_status == OamStatus::Read,
        !d.oam_rdy,
        rws.len() == 2 * (256 - d.oam_tm),
    ensures
        forall|k: int| 0 <= k < 256 - d.oam_tm ==> {
            let s = #[trigger] spec_ticks_prefix(d, rws, 2 * k);
            let m = spec_tick(s, rws[2 * k]);
            let n = spec_tick(m, rws[2 * k + 1]);
            &&& spec_oam_reads(s, rws[2 * k])
            &&& s.oam_addr == ((d.oam_addr + k) % 65536) as u16
            &&& spec_oam_writes(m, rws[2 * k + 1])
            &&& !m.oam_rdy
            &&& n.oam_rdy == (k == 255 - d.oam_tm)
        },
    decreases 256 - d.oam_tm,
{
    lemma_oam_copy_byte(d, rws[0], rws[1]);
    let m = spec_tick(d, rws[0]);
    let n = spec_tick(m, rws[1]);
    let rest = rws.drop_first().drop_first();
    if d.oam_tm < 255 {
        lemma_oam_copy_trace(n, rest);
    }
    assert forall|k: int| 0 <= k < 256 - d.oam_tm implies {
        let s = #[trigger] spec_ticks_prefix(d, rws, 2 * k);
        let m = spec_tick(s, rws[2 * k]);
        let n = spec_tick(m, rws[2 * k + 1]);
        &&& spec_oam_reads(s, rws[2 * k])
        &&& s.oam_addr == ((d.oam_addr + k) % 65536) as u16
        &&& spec_oam_writes(m, rws[2 * k + 1])
        &&& !m.oam_rdy
        &&& n.oam_rdy == (k == 255 - d.oam_tm)
    } by {
        if k == 0 {
            assert(rws.take(0) =~= Seq::<bool>::empty());
        } else {
            let p = rws.take(2 * k);
            assert(p[0] == rws[0]);
            assert(p.drop_first()[0] == rws[1]);
            assert(p.drop_first().drop_first() =~= rest.take(2 * (k - 1)));
            assert(spec_ticks(d, p) == spec_ticks(m, p.drop_first()));
            assert(spec_ticks(m, p.drop_first()) == spec_ticks(n, p.drop_first().drop_first()));
            assert(spec_ticks_prefix(d, rws, 2 * k) == spec_ticks_prefix(n, rest, 2 * (k - 1)));
            assert(rest[2 * (k - 1)] == rws[2 * k]);
            assert(rest[2 * (k - 1) + 1] == rws[2 * k + 1]);
        }
    }
}

/// A whole OAM DMA: a write of `page` to $4014 (cycle 0 of `rws`) with no
/// DMC activity, the CPU on a read cycle next (so it halts at once), takes
/// 513 cycles after the write when the write falls on a get cycle and 514
/// when an alignment cycle is needed; then the unit is idle, RDY is
/// released and the 256 bytes of the page have been copied.
#[verifier::spinoff_prover]
pub proof fn lemma_oam_dma(d: Dma, page: u8, rws: Seq<bool>)
    requires
        d.oam_status == OamStatus::Idle,
        d.dmc_status == DmcStatus::Idle,
        !d.dmc_triggered,
        rws.len() == (if d.get_cycle { 514int } else { 515int }),
        rws[1],
    ensures
        ({
            let n = spec_ticks(Dma { oam_addr: (page as u16) << 8u16, oam_triggered: true, ..d }, rws);
            &&& n.oam_status == OamStatus::Idle
            &&& n.oam_rdy
            &&& n.oam_addr == ((((page as u16) << 8u16) + 256) % 65536) as u16
            &&& spec_quiet(n)
        }),
        // cycle by cycle: after the halt (and alignment) cycles, byte k of
        // the page is read at (page << 8) + k and written to OAMDATA on the
        // next cycle; RDY is low from the write of $4014 until the cycle of
        // the last write
        ({
            let t = Dma { oam_addr: (page as u16) << 8u16, oam_triggered: true, ..d };
            let off: int = if d.get_cycle { 2 } else { 3 };
            &&& forall|i: int| 1 <= i <= off ==> !(#[trigger] spec_ticks_prefix(t, rws, i)).oam_rdy
            &&& forall|k: int| 0 <= k < 256 ==> {
                let s = #[trigger] spec_ticks_prefix(t, rws, off + 2 * k);
                let m = spec_tick(s, rws[off + 2 * k]);
                let n = spec_tick(m, rws[off + 2 * k + 1]);
                &&& spec_oam_reads(s, rws[off + 2 * k])
                &&& s.oam_addr == ((((page as u16) << 8u16) + k) % 65536) as u16
                &&& spec_oam_writes(m, rws[off + 2 * k + 1])
                &&& !m.oam_rdy
                &&& n.oam_rdy == (k == 255)
            }
        }),
{
    let t = Dma { oam_addr: (page as u16) << 8u16, oam_triggered: true, ..d };
    let off: int = if d.get_cycle { 2 } else { 3 };
    let h = spec_tick(t, rws[0]);
    let r1 = rws.drop_first();
    assert(spec_ticks(t, rws) == spec_ticks(h, r1));
    assert(h.oam_status == OamStatus::Halt && spec_quiet(h) && h.get_cycle == !d.get_cycle && !h.oam_rdy);
    let a = spec_tick(h, r1[0]);
    let r2 = r1.drop_first();
    assert(spec_ticks(h, r1) == spec_ticks(a, r2));
    let q1 = rws.take(1);
    assert(q1.drop_first() =~= Seq::<bool>::empty());
    assert(q1[0] == rws[0]);
    assert(spec_ticks(h, q1.drop_first()) == h);
    assert(spec_ticks(t, q1) == spec_ticks(h, q1.drop_first()));
    assert(spec_ticks_prefix(t, rws, 1) == h);
    let q2 = rws.take(2);
    assert(q2.drop_first().drop_first() =~= Seq::<bool>::empty());
    assert(q2[0] == rws[0]);
    assert(q2.drop_first()[0] == r1[0]);
    assert(spec_ticks(a, q2.drop_first().drop_first()) == a);
    assert(spec_ticks(h, q2.drop_first()) == spec_ticks(a, q2.drop_first().drop_first()));
    assert(spec_ticks(t, q2) == spec_ticks(h, q2.drop_first()));
    assert(spec_ticks_prefix(t, rws, 2) == a);
    // the copy phase starts at cycle `off`
    let (c, rc) = if d.get_cycle {
        (a, r2)
    } else {
        (spec_tick(a, r2[0]), r2.drop_first())
    };
    if d.get_cycle {
        assert(a.oam_status == OamStatus::Read && a.oam_tm == 0);
        lemma_oam_copy(a, r2);
    } else {
        assert(a.oam_status == OamStatus::Align);
        let b = spec_tick(a, r2[0]);
        let r3 = r2.drop_first();
        assert(spec_ticks(a, r2) == spec_ticks(b, r3));
        assert(b.oam_status == OamStatus::Read && b.oam_tm == 0);
        lemma_oam_copy(b, r3);
        let q3 = rws.take(3);
        assert(q3.drop_first().drop_first().drop_first() =~= Seq::<bool>::empty());
        assert(q3[0] == rws[0]);
        assert(q3.drop_first()[0] == r1[0]);
        assert(q3.drop_first().drop_first()[0] == r2[0]);
        assert(spec_ticks(b, q3.drop_first().drop_first().drop_first()) == b);
        assert(spec_ticks(a, q3.drop_first().drop_first()) == spec_ticks(b, q3.drop_first().drop_first().drop_first()));
        assert(spec_ticks(h, q3.drop_first()) == spec_ticks(a, q3.drop_first().drop_first()));
        assert(spec_ticks(t, q3) == spec_ticks(h, q3.drop_first()));
        assert(spec_ticks_prefix(t, rws, 3) == b);
        assert(!b.oam_rdy);
    }
    assert(spec_ticks_prefix(t, rws, off) == c);
    assert(c.oam_status == OamStatus::Read && c.oam_tm == 0 && !c.oam_rdy && spec_quiet(c));
    assert(c.oam_addr == (page as u16) << 8u16);
    assert(rc =~= rws.subrange(off, rws.len() as int));
    lemma_oam_copy_trace(c, rc);
    assert forall|k: int| 0 <= k < 256 implies {
        let s = #[trigger] spec_ticks_prefix(t, rws, off + 2 * k);
        let m = spec_tick(s, rws[off + 2 * k]);
        let n = spec_tick(m, rws[off + 2 * k + 1]);
        &&& spec_oam_reads(s, rws[off + 2 * k])
        &&& s.oam_addr == ((((page as u16) << 8u16) + k) % 65536) as u16
        &&& spec_oam_writes(m, rws[off + 2 * k + 1])
        &&& !m.oam_rdy
        &&& n.oam_rdy == (k == 255)
    } by {
        lemma_ticks_split(t, rws, off, off + 2 * k);
        assert(rws.subrange(off, off + 2 * k) =~= rc.take(2 * k));
        assert(spec_ticks_prefix(t, rws, off + 2 * k) == spec_ticks_prefix(c, rc, 2 * k));
        assert(rc[2 * k] == rws[off + 2 * k]);
        assert(rc[2 * k + 1] == rws[off + 2 * k + 1]);
    }
}

/// Running the first `j` cycles is running the first `i`, then the ones
/// from `i` to `j`.
pub proof fn lemma_ticks_split(d: Dma, rws: Seq<bool>, i: int, j: int)
    requires
        0 <= i <= j <= rws.len(),
    ensures
        spec_ticks_prefix(d, rws, j) == spec_ticks(spec_ticks_prefix(d, rws, i), rws.subrange(i, j)),
    decreases i,
{
    if i == 0 {
        assert(rws.take(0) =~= Seq::<bool>::empty());
        assert(rws.subrange(0, j) =~= rws.take(j));
    } else {
        let d1 = spec_tick(d, rws[0]);
        let r1 = rws.drop_first();
        lemma_ticks_split(d1, r1, i - 1, j - 1);
        assert(rws.take(j).drop_first() =~= r1.take(j - 1));
        assert(rws.take(j)[0] == rws[0]);
        assert(rws.take(i).drop_first() =~= r1.take(i - 1));
        assert(rws.take(i)[0] == rws[0]);
        assert(r1.subrange(i - 1, j - 1) =~= rws.subrange(i, j));
    }
}

/// An OAM DMA started from idle, with no DMC activity: on the next cycle
/// the unit halts the CPU (RDY low), with its byte count at 0 and the first
/// address of the page loaded.
pub proof fn lemma_oam_dma_starts(d: Dma, rw: bool, page: u8)
    requires
        d.oam_status == OamStatus::Idle,
        d.dmc_status == DmcStatus::Idle,
        !d.dmc_triggered,
        d.dmc_rdy,
    ensures
        ({
            let t = Dma { oam_addr: (page as u16) << 8u16, oam_triggered: true, ..d };
            let n = spec_tick(t, rw);
            &&& n.oam_status == OamStatus::Halt
            &&& n.oam_tm == 0
            &&& !n.oam_rdy
            &&& n.oam_addr == (page as u16) << 8u16
        }),
{
}

} // verus!
