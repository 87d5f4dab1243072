//! The NTSC NES: RP2A03 cpu at one third of the RP2C02's dot clock.

use vstd::prelude::*;
use crate::mos::{Pinout, rp2a03::Rp2a03};
use crate::nes::dma::Dma;
use crate::nes::ppu::rp2c02::{Rp2c02, spec_dots_to_frame_end, lemma_frame_end_nearer};
use crate::nes::ppu::scanline::FRAME_PIXELS;
use crate::nes::mappers::Mapper;
use crate::nes::mappers::cartridge::{Cartridge, create_mapper, create_mapper_null};
use crate::nes::controllers::{NesControllers, JoypadInput};
use crate::nes::bus::CpuBus;
use crate::nes::rom::RomImage;
use crate::nes::utils::trace_logger::TraceLogger;
use crate::nes::utils::ppu_trace_logger::PpuTraceLogger;
use super::{Console, ConsoleError};

verus! {

pub const WIDTH: usize = 256;
pub const HEIGHT: usize = 240;

/// A frame takes 29781 CPU cycles; a run this long without the end of a
/// frame means the PPU is not advancing.
pub const FRAME_CPU_CYCLE_LIMIT: u32 = 100000;

pub struct NesNtsc {
    cpu: Rp2a03,
    cpu_pinout: Pinout,
    /// The DMA unit, the cartridge, the PPU and the controllers.
    bus: CpuBus<Cartridge>,
    /// The CPU cycles of the last frame.
    cpu_logger: TraceLogger,
    /// The PPU dots of the last frame.
    ppu_logger: PpuTraceLogger,
    pbuffer: Vec<u16>,
}

/// `n` zeros.
pub open spec fn spec_blank_frame() -> Seq<u16> {
    Seq::new(FRAME_PIXELS as nat, |i: int| 0u16)
}

fn blank_frame() -> (r: Vec<u16>)
    ensures r@ == spec_blank_frame(),
{
    let r: Vec<u16> = vec![0; WIDTH * HEIGHT];
    assert(r@ =~= spec_blank_frame());
    r
}

/// The PPU has just ended a frame: it stands at one of the first dots of
/// line 241, and has counted at least one frame.
pub open spec fn spec_just_after_frame_end(c: crate::nes::ppu::Context) -> bool {
    c.scanline_index == 241 && 1 <= c.scanline_dot <= 3 && c.frame >= 1
}

/// `next` is a state the CPU can reach from `c` with pins `p` in one tick,
/// whatever the bus answered.
#[verifier::opaque]
pub open spec fn spec_ticked_from(c: crate::mos::cpu_state::Context, p: Pinout, next: crate::mos::cpu_state::Context) -> bool {
    exists|raw: Pinout| #[trigger] crate::mos::rp2a03::spec_ticked(c, p, raw) == next
}

/// Every logged CPU state is one tick on from the one logged before it.
#[verifier::opaque]
pub open spec fn spec_ticks_chain(log: Seq<(crate::mos::cpu_state::Context, Pinout)>) -> bool {
    forall|i: int| #![trigger log[i]] 0 <= i < log.len() - 1 ==> spec_ticked_from(log[i].0, log[i].1, log[i + 1].0)
}

/// A logged step keeps the log a chain of ticks that starts one tick from
/// (`c0`, `p0`).
proof fn lemma_log_step(
    log0: Seq<(crate::mos::cpu_state::Context, Pinout)>,
    cpu0: crate::mos::cpu_state::Context,
    pin0: Pinout,
    c: crate::mos::cpu_state::Context,
    p: Pinout,
    c0: crate::mos::cpu_state::Context,
    p0: Pinout,
)
    requires
        spec_ticks_chain(log0),
        log0.len() > 0 ==> log0.last() == (cpu0, pin0) && spec_ticked_from(c0, p0, log0[0].0),
        log0.len() == 0 ==> cpu0 == c0 && pin0 == p0,
        spec_ticked_from(cpu0, pin0, c),
    ensures
        spec_ticks_chain(log0.push((c, p))),
        spec_ticked_from(c0, p0, log0.push((c, p))[0].0),
{
    reveal(spec_ticks_chain);
    let log = log0.push((c, p));
    assert forall|i: int| #![trigger log[i]] 0 <= i < log.len() - 1 implies spec_ticked_from(log[i].0, log[i].1, log[i + 1].0) by {
        if i < log0.len() - 1 {
            assert(log[i] == log0[i] && log[i + 1] == log0[i + 1]);
        } else {
            assert(log[i] == log0.last());
        }
    }
    if log0.len() > 0 {
        assert(log[0] == log0[0]);
    }
}

impl NesNtsc {
    /// The PPU's invariants hold and the frame buffer has a pixel per dot.
    pub closed spec fn spec_wf(&self) -> bool {
        &&& self.bus.devices.ppu.wf()
        &&& crate::mos::rp2a03::spec_valid_ir(self.cpu.spec_cpu().ir)
        &&& self.pbuffer@.len() == FRAME_PIXELS
        &&& self.cpu_logger.wf()
        &&& self.ppu_logger.wf()
    }

    pub closed spec fn spec_ppu(&self) -> Rp2c02 {
        self.bus.devices.ppu
    }

    pub closed spec fn spec_cpu(&self) -> Rp2a03 {
        self.cpu
    }

    pub closed spec fn spec_cpu_pinout(&self) -> Pinout {
        self.cpu_pinout
    }

    pub closed spec fn spec_dma(&self) -> Dma {
        self.bus.dma
    }

    /// The requests the CPU has handed to the bus, oldest first.
    pub closed spec fn spec_cpu_requests(&self) -> Seq<Pinout> {
        self.bus.requests@
    }

    pub closed spec fn spec_controllers(&self) -> NesControllers {
        self.bus.devices.controllers
    }

    pub closed spec fn spec_mapper(&self) -> Cartridge {
        self.bus.devices.mapper
    }

    /// The CPU cycles logged during the last frame.
    pub closed spec fn spec_cpu_log(&self) -> Seq<(crate::mos::cpu_state::Context, Pinout)> {
        self.cpu_logger.spec_log()
    }

    /// The PPU dots logged during the last frame.
    pub closed spec fn spec_ppu_log(&self) -> Seq<(crate::nes::ppu::Context, crate::nes::ppu::Pinout)> {
        self.ppu_logger.spec_log()
    }

    pub closed spec fn spec_pbuffer(&self) -> Seq<u16> {
        self.pbuffer@
    }

    /// A console at power on with an empty cartridge slot.
    pub fn new() -> (r: Self)
        ensures
            r.spec_wf(),
            r.spec_mapper() is Null,
            r.spec_pbuffer() == spec_blank_frame(),
            r.spec_ppu().spec_context().frame == 0,
    {
        let (cpu, cpu_pinout) = Rp2a03::from_power_on();
        NesNtsc {
            cpu,
            cpu_pinout,
            bus: CpuBus::new(create_mapper_null(), Dma::from_power_on(), Rp2c02::from_power_on(), NesControllers::from_power_on()),
            cpu_logger: TraceLogger::new(),
            ppu_logger: PpuTraceLogger::new(),
            pbuffer: blank_frame(),
        }
    }

    /// One CPU cycle and the three PPU dots that go with it.
#[verifier::spinoff_prover]
    #[verifier::rlimit(60)]
    fn step(&mut self) -> (r: Result<bool, ConsoleError>)
        requires
            old(self).spec_wf(),
        ensures
            final(self).spec_wf(),
            r is Err ==> r == Err::<bool, ConsoleError>(ConsoleError::CounterOverflow),
            r == Ok::<bool, ConsoleError>(true) ==> spec_just_after_frame_end(final(self).spec_ppu().spec_context())
                && final(self).spec_ppu().spec_context().frame == old(self).spec_ppu().spec_context().frame + 1,
            r == Ok::<bool, ConsoleError>(false) ==> final(self).spec_ppu().spec_context().frame == old(self).spec_ppu().spec_context().frame,
            r is Ok ==> spec_ticked_from(old(self).spec_cpu().spec_cpu(), old(self).spec_cpu_pinout(), final(self).spec_cpu().spec_cpu()),
            // one CPU cycle, with its bus requests, then one DMA cycle on the
            // R/W line the CPU left
            r is Ok ==> ({
                let c0 = old(self).spec_cpu().spec_cpu();
                let pin = old(self).spec_cpu_pinout();
                let c1 = if !pin.ctrl.nmi { crate::mos::cpu_state::Context { nmi_detected: true, ..c0 } } else { c0 };
                let p1 = Pinout { ctrl: crate::mos::Ctrl { rw: true, ..pin.ctrl }, ..pin };
                &&& final(self).spec_cpu_requests() == old(self).spec_cpu_requests()
                    + crate::mos::rp2a03::spec_cycle_requests(c1, p1, c0.ir.spec_code())
                // `raw` is what the bus answered; `d` the DMA unit as the
                // CPU's access left it (a write of $4014 starts a copy)
                &&& exists|raw: Pinout, d: Dma| {
                    let s = crate::mos::rp2a03::spec_cycle(c1, p1, raw, c0.ir.spec_code());
                    &&& final(self).spec_cpu().spec_cpu() == (crate::mos::cpu_state::Context { cycle: (s.cycle + 1) as u64, ..s })
                    &&& final(self).spec_dma() == (Dma {
                            data: final(self).spec_dma().data,
                            ..#[trigger] crate::nes::dma::spec_tick(d, raw.ctrl.rw)
                        })
                }
            }),
            // a step that does not end the frame brings its end three dots nearer
            r == Ok::<bool, ConsoleError>(false) ==> spec_dots_to_frame_end(
                final(self).spec_ppu().spec_context().scanline_index, final(self).spec_ppu().spec_context().scanline_dot) + 3
                <= spec_dots_to_frame_end(old(self).spec_ppu().spec_context().scanline_index,
                    old(self).spec_ppu().spec_context().scanline_dot),
            ({
                let c = old(self).spec_ppu().spec_context();
                let cpu_cycle = old(self).spec_cpu().spec_cpu().cycle;
                &&& cpu_cycle < u64::MAX && c.cycle < u64::MAX - 2 && c.frame < u64::MAX - 1 ==> r is Ok
                &&& r is Err ==> cpu_cycle == u64::MAX || c.cycle >= u64::MAX - 2 || c.frame >= u64::MAX - 1
                &&& r is Ok ==> final(self).spec_ppu().spec_context().cycle == c.cycle + 3
                &&& r is Ok ==> final(self).spec_cpu().spec_cpu().cycle == (
                    if old(self).spec_cpu().spec_cpu().ir == (crate::mos::cpu_state::InstructionRegister { opcode: 0x00, tm: 0x18 }) {
                        8
                    } else {
                        cpu_cycle + 1
                    })
                &&& r is Ok ==> final(self).spec_cpu_log() == (if old(self).spec_cpu_log().len() < crate::nes::utils::trace_logger::LOG_SIZE {
                        old(self).spec_cpu_log().push((final(self).spec_cpu().spec_cpu(), final(self).spec_cpu_pinout()))
                    } else {
                        old(self).spec_cpu_log()
                    })
                &&& r is Ok ==> final(self).spec_ppu_log().len() == (if old(self).spec_ppu_log().len() + 3 < crate::nes::utils::ppu_trace_logger::LOG_SIZE {
                        old(self).spec_ppu_log().len() + 3int
                    } else {
                        crate::nes::utils::ppu_trace_logger::LOG_SIZE as int
                    })
            }),
    {
        if self.cpu.cycle_count() == u64::MAX {
            return Err(ConsoleError::CounterOverflow);
        }
        let ghost c0 = old(self).spec_cpu().spec_cpu();
        let ghost pin = old(self).spec_cpu_pinout();
        let ghost c1 = if !pin.ctrl.nmi { crate::mos::cpu_state::Context { nmi_detected: true, ..c0 } } else { c0 };
        let ghost p1 = Pinout { ctrl: crate::mos::Ctrl { rw: true, ..pin.ctrl }, ..pin };
        let ghost code = c0.ir.spec_code();
        self.cpu_pinout = self.cpu.tick(&mut self.bus, self.cpu_pinout);
        let ghost raw = choose|raw: Pinout| #[trigger] crate::mos::rp2a03::spec_pulled_up(raw) == self.cpu_pinout && {
            let s = crate::mos::rp2a03::spec_cycle(c1, p1, raw, code);
            self.spec_cpu().spec_cpu() == (crate::mos::cpu_state::Context { cycle: (s.cycle + 1) as u64, ..s })
        };
        assert(self.cpu_pinout.ctrl.rw == raw.ctrl.rw);
        let ghost d = self.spec_dma();
        self.cpu_pinout = self.bus.dma.tick(&mut self.bus.devices, self.cpu_pinout);
        let ghost dma1 = self.spec_dma();
        let ghost req1 = self.spec_cpu_requests();

        let ghost f0 = old(self).spec_ppu().spec_context().frame;
        let ghost c0 = old(self).spec_ppu().spec_context().cycle;
        let ghost l0 = old(self).spec_ppu_log().len();
        let ghost cpu1 = self.spec_cpu();
        proof {
            crate::nes::bus::lemma_ppu_clock_eq(old(self).spec_ppu().spec_context(), self.spec_ppu().spec_context());
            self.ppu_logger.lemma_log_bounded();
        }
        assert(self.spec_ppu().spec_context().frame == f0);
        let mut end_of_frame = false;
        let mut dot: u8 = 0;
        while dot < 3
            invariant
                self.spec_wf(),
                dot <= 3,
                self.spec_ppu().spec_context().cycle == c0 + dot,
                self.spec_ppu_log().len() == (if l0 + dot < crate::nes::utils::ppu_trace_logger::LOG_SIZE {
                    l0 + dot as int
                } else {
                    crate::nes::utils::ppu_trace_logger::LOG_SIZE as int
                }),
                self.spec_cpu() == cpu1,
                self.spec_dma() == dma1,
                self.spec_cpu_requests() == req1,
                self.spec_cpu_log() == old(self).spec_cpu_log(),
                c0 == old(self).spec_ppu().spec_context().cycle,
                f0 == old(self).spec_ppu().spec_context().frame,
                l0 == old(self).spec_ppu_log().len(),
                self.spec_ppu().spec_context().frame == f0 + (if end_of_frame { 1int } else { 0int }),
                end_of_frame ==> self.spec_ppu().spec_context().scanline_index == 241
                    && 1 <= self.spec_ppu().spec_context().scanline_dot <= dot
                    && self.spec_ppu().spec_context().frame >= 1,
                !end_of_frame ==> spec_dots_to_frame_end(self.spec_ppu().spec_context().scanline_index,
                    self.spec_ppu().spec_context().scanline_dot) + dot <= spec_dots_to_frame_end(
                    old(self).spec_ppu().spec_context().scanline_index, old(self).spec_ppu().spec_context().scanline_dot),
            decreases 3 - dot,
        {
            let ghost before = self.spec_ppu().spec_context();
            proof {
                self.bus.devices.ppu.lemma_wf_position();
                if !(before.scanline_index == 241 && before.scanline_dot == 0) {
                    lemma_frame_end_nearer(before);
                }
            }
            let context = self.bus.devices.ppu.get_context();
            if context.cycle == u64::MAX || context.frame == u64::MAX {
                return Err(ConsoleError::CounterOverflow);
            }
            self.cpu_pinout = self.bus.devices.ppu.tick(&mut self.pbuffer, &mut self.bus.devices.mapper, self.cpu_pinout);
            self.ppu_logger.log(self.bus.devices.ppu.get_context(), self.bus.devices.ppu.get_pinout());
            if self.bus.devices.ppu.is_end_of_frame() {
                end_of_frame = true;
            }
            dot = dot + 1;
        }

        // the APU is not emulated
        self.cpu_pinout = self.bus.devices.mapper.cpu_tick(self.cpu_pinout);
        self.cpu_logger.log(self.cpu.context(), self.cpu_pinout);
        assert(crate::mos::rp2a03::spec_ticked(old(self).spec_cpu().spec_cpu(), pin, raw) == self.spec_cpu().spec_cpu());
        proof {
            reveal(spec_ticked_from);
        }
        assert(self.spec_cpu_requests() == old(self).spec_cpu_requests() + crate::mos::rp2a03::spec_cycle_requests(c1, p1, code));
        assert(self.spec_cpu().spec_cpu() == ({
            let s = crate::mos::rp2a03::spec_cycle(c1, p1, raw, code);
            crate::mos::cpu_state::Context { cycle: (s.cycle + 1) as u64, ..s }
        }));
        assert(self.spec_dma() == (Dma { data: self.spec_dma().data, ..crate::nes::dma::spec_tick(d, raw.ctrl.rw) }));
        Ok(end_of_frame)
    }

    /// The CPU cycles logged during the last frame.
    pub fn cpu_log(&self) -> (r: &TraceLogger)
        requires self.spec_wf(),
        ensures r.wf(), r.spec_log() == self.spec_cpu_log(),
    {
        &self.cpu_logger
    }

    /// The PPU dots logged during the last frame.
    pub fn ppu_log(&self) -> (r: &PpuTraceLogger)
        requires self.spec_wf(),
        ensures r.wf(), r.spec_log() == self.spec_ppu_log(),
    {
        &self.ppu_logger
    }

    /// A trace line of the cpu: its state and the pins.
    pub fn cpu_state(&self) -> (r: (crate::mos::cpu_state::Context, Pinout))
        ensures r.0 == self.spec_cpu().spec_cpu(), r.1 == self.spec_cpu_pinout(),
    {
        (self.cpu.context(), self.cpu_pinout)
    }
}

impl Console for NesNtsc {
    open spec fn wf(&self) -> bool {
        self.spec_wf()
    }

    /// Parses the image, builds its mapper and powers on (the CPU about to
    /// run its reset sequence, the frame cleared); a failure leaves the
    /// console as it was.
    fn load_rom_bytes(&mut self, bytes: &[u8]) -> (r: Result<(), ConsoleError>)
        ensures
            r is Err ==> *final(self) == *old(self),
            ({
                let p = crate::nes::rom::spec_parse(bytes@);
                &&& p matches Err(e) ==> r == Err::<(), ConsoleError>(ConsoleError::Rom(e))
                &&& p matches Ok(v) ==> match crate::nes::mappers::cartridge::spec_create_error(
                        v.mapper, v.prg_rom_size, v.prg_data.len(), v.chr_data.len(), v.nametable_mirroring) {
                    Some(e) => r == Err::<(), ConsoleError>(ConsoleError::Mapper(e)),
                    None => r is Ok && crate::nes::mappers::cartridge::spec_built_from(final(self).spec_mapper(), v),
                }
            }),
            r is Ok ==> !(final(self).spec_mapper() is Null)
                && final(self).spec_pbuffer() == spec_blank_frame()
                && final(self).spec_ppu().spec_context().frame == 0
                && final(self).spec_cpu().spec_cpu().ir == (crate::mos::cpu_state::InstructionRegister { opcode: 0x00, tm: crate::mos::cpu_state::RST_TM }),
    {
        let rom = match RomImage::from_ines_bytes(bytes) {
            Ok(rom) => rom,
            Err(e) => {
                return Err(ConsoleError::Rom(e));
            }
        };
        let mapper = match create_mapper(&rom) {
            Ok(m) => m,
            Err(e) => {
                return Err(ConsoleError::Mapper(e));
            }
        };
        self.bus.devices.mapper = mapper;
        self.power_on_console();
        Ok(())
    }

    /// CPU, PPU and DMA at power on; the frame cleared.
    fn power_on_console(&mut self)
        ensures
            final(self).spec_pbuffer() == spec_blank_frame(),
            final(self).spec_ppu().spec_context().frame == 0,
            final(self).spec_mapper() == old(self).spec_mapper(),
            final(self).spec_controllers() == old(self).spec_controllers(),
            final(self).spec_cpu().spec_cpu().ir == (crate::mos::cpu_state::InstructionRegister { opcode: 0x00, tm: crate::mos::cpu_state::RST_TM }),
            final(self).spec_cpu().spec_cpu() == (crate::mos::cpu_state::Context {
                ir: crate::mos::cpu_state::InstructionRegister { opcode: 0x00, tm: crate::mos::cpu_state::RST_TM },
                ..crate::mos::cpu_state::Context::spec_new()
            }),
            final(self).spec_cpu_pinout() == Pinout::spec_new(),
            final(self).spec_ppu().spec_is_power_on(),
            final(self).spec_dma() == Dma::spec_power_on(),
    {
        let (cpu, cpu_pinout) = Rp2a03::from_power_on();
        self.cpu = cpu;
        self.cpu_pinout = cpu_pinout;
        self.bus.devices.ppu = Rp2c02::from_power_on();
        self.bus.dma = Dma::from_power_on();
        self.pbuffer = blank_frame();
    }

    /// The reset button: the CPU runs its reset sequence, the PPU keeps its
    /// palette and VRAM address.
    fn restart_console(&mut self)
        ensures
            final(self).spec_pbuffer() == spec_blank_frame(),
            final(self).spec_mapper() == old(self).spec_mapper(),
            final(self).spec_controllers() == old(self).spec_controllers(),
            final(self).spec_cpu().spec_cpu() == (crate::mos::cpu_state::Context {
                ir: crate::mos::cpu_state::InstructionRegister { opcode: 0x00, tm: crate::mos::cpu_state::RST_TM },
                ..crate::mos::cpu_state::Context::spec_new()
            }),
            final(self).spec_cpu_pinout() == Pinout::spec_new(),
            final(self).spec_ppu().spec_is_reset_of(old(self).spec_ppu()),
            final(self).spec_dma() == Dma::spec_power_on(),
    {
        self.cpu.reset();
        self.cpu_pinout = Pinout::new();
        self.bus.devices.ppu = self.bus.devices.ppu.from_reset();
        self.bus.dma = Dma::from_power_on();
        self.pbuffer = blank_frame();
    }

    fn get_frame_number(&self) -> (r: u64)
        ensures r == self.spec_ppu().spec_context().frame,
    {
        self.bus.devices.ppu.frame_number()
    }

    fn get_index_buffer(&self) -> (r: &Vec<u16>)
        ensures r@ == self.spec_pbuffer(),
    {
        &self.pbuffer
    }

    /// Runs until the PPU finishes a frame: on success the frame counter
    /// has moved on by exactly one and the PPU stands just past the end of
    /// that frame. A frame ends within 89342 dots, a third of that in CPU
    /// cycles, well inside the limit of `FRAME_CPU_CYCLE_LIMIT`; so the
    /// run fails only where a counter would overflow.
#[verifier::spinoff_prover]
    fn execute_frame(&mut self) -> (r: Result<(), ConsoleError>)
        ensures
            r is Err ==> r == Err::<(), ConsoleError>(ConsoleError::CounterOverflow),
            r is Ok ==> spec_just_after_frame_end(final(self).spec_ppu().spec_context())
                && final(self).spec_ppu().spec_context().frame == old(self).spec_ppu().spec_context().frame + 1,
            old(self).spec_cpu().spec_cpu().cycle < u64::MAX - FRAME_CPU_CYCLE_LIMIT
                && old(self).spec_ppu().spec_context().cycle < u64::MAX - 3 * FRAME_CPU_CYCLE_LIMIT
                && old(self).spec_ppu().spec_context().frame < u64::MAX - 1 ==> r is Ok,
            // the frame's CPU cycles, one per three dots, each logged: every
            // logged state is a tick of the one before it
            r is Ok ==> ({
                let log = final(self).spec_cpu_log();
                let n = log.len();
                &&& 1 <= n <= 29781
                &&& final(self).spec_ppu().spec_context().cycle == old(self).spec_ppu().spec_context().cycle + 3 * n
                &&& log.last() == (final(self).spec_cpu().spec_cpu(), final(self).spec_cpu_pinout())
                &&& spec_ticked_from(old(self).spec_cpu().spec_cpu(), old(self).spec_cpu_pinout(), log[0].0)
                &&& spec_ticks_chain(log)
            }),
    {
        self.cpu_logger.clear();
        self.ppu_logger.clear();
        proof {
            reveal(spec_ticks_chain);
        }
        let ghost c0 = old(self).spec_ppu().spec_context();
        let ghost cc0: int = if old(self).spec_cpu().spec_cpu().cycle < 8 { 8 } else {
            old(self).spec_cpu().spec_cpu().cycle as int
        };
        proof {
            old(self).bus.devices.ppu.lemma_wf_position();
        }
        let mut budget: u32 = FRAME_CPU_CYCLE_LIMIT;
        loop
            invariant
                self.spec_wf(),
                budget <= FRAME_CPU_CYCLE_LIMIT,
                c0 == old(self).spec_ppu().spec_context(),
                c0.scanline_index <= 261,
                c0.scanline_dot <= 340,
                cc0 >= old(self).spec_cpu().spec_cpu().cycle,
                cc0 >= 8,
                cc0 <= old(self).spec_cpu().spec_cpu().cycle + 8,
                self.spec_ppu().spec_context().frame == c0.frame,
                self.spec_ppu().spec_context().cycle == c0.cycle + 3 * (FRAME_CPU_CYCLE_LIMIT - budget),
                self.spec_cpu().spec_cpu().cycle <= cc0 + (FRAME_CPU_CYCLE_LIMIT - budget),
                spec_dots_to_frame_end(self.spec_ppu().spec_context().scanline_index,
                    self.spec_ppu().spec_context().scanline_dot) + 3 * (FRAME_CPU_CYCLE_LIMIT - budget)
                    <= spec_dots_to_frame_end(c0.scanline_index, c0.scanline_dot),
                self.spec_cpu_log().len() == FRAME_CPU_CYCLE_LIMIT - budget,
                self.spec_cpu_log().len() > 0 ==> self.spec_cpu_log().last() == (self.spec_cpu().spec_cpu(), self.spec_cpu_pinout()),
                self.spec_cpu_log().len() > 0 ==> spec_ticked_from(old(self).spec_cpu().spec_cpu(),
                    old(self).spec_cpu_pinout(), self.spec_cpu_log()[0].0),
                spec_ticks_chain(self.spec_cpu_log()),
                self.spec_cpu_log().len() == 0 ==> self.spec_cpu() == old(self).spec_cpu() && self.spec_cpu_pinout() == old(self).spec_cpu_pinout(),
            decreases budget,
        {
            proof {
                self.bus.devices.ppu.lemma_wf_position();
                assert(spec_dots_to_frame_end(c0.scanline_index, c0.scanline_dot) < 262 * 341);
                assert(spec_dots_to_frame_end(self.spec_ppu().spec_context().scanline_index,
                    self.spec_ppu().spec_context().scanline_dot) >= 0);
            }
            let ghost log0 = self.spec_cpu_log();
            let ghost cpu0 = self.spec_cpu().spec_cpu();
            let ghost pin0 = self.spec_cpu_pinout();
            let end_of_frame = match self.step() {
                Ok(e) => e,
                Err(e) => {
                    return Err(e);
                }
            };
            proof {
                lemma_log_step(log0, cpu0, pin0, self.spec_cpu().spec_cpu(), self.spec_cpu_pinout(),
                    old(self).spec_cpu().spec_cpu(), old(self).spec_cpu_pinout());
            }
            if end_of_frame {
                return Ok(());
            }
            proof {
                self.bus.devices.ppu.lemma_wf_position();
                assert(spec_dots_to_frame_end(self.spec_ppu().spec_context().scanline_index,
                    self.spec_ppu().spec_context().scanline_dot) >= 0);
            }
            if budget == 0 {
                // unreachable: 3 * FRAME_CPU_CYCLE_LIMIT dots would pass the frame's end
                return Err(ConsoleError::FrameTooLong);
            }
            budget = budget - 1;
        }
    }

    fn input_joypad1_state(&mut self, controller: JoypadInput)
        ensures
            final(self).spec_controllers() == (NesControllers { joypad1: controller, ..old(self).spec_controllers() }),
    {
        self.bus.devices.controllers.set_joypad1_state(controller);
    }

    fn input_joypad2_state(&mut self, controller: JoypadInput)
        ensures
            final(self).spec_controllers() == (NesControllers { joypad2: controller, ..old(self).spec_controllers() }),
    {
        self.bus.devices.controllers.set_joypad2_state(controller);
    }

    /// Each pixel's colour index looked up in `palette`; an index past 63
    /// is an error. `frame_buffer` is written up to the shorter length.
    fn output_pixel_buffer(&mut self, palette: &Vec<u32>, frame_buffer: &mut Vec<u32>) -> (r: Result<(), ConsoleError>)
        ensures
            *final(self) == *old(self),
            final(frame_buffer)@.len() == old(frame_buffer)@.len(),
            r is Ok ==> forall|i: int| 0 <= i < old(self).spec_pbuffer().len() && i < old(frame_buffer)@.len()
                ==> final(frame_buffer)@[i] == palette@[old(self).spec_pbuffer()[i] as int],
            r is Ok <==> (forall|i: int| 0 <= i < old(self).spec_pbuffer().len() && i < old(frame_buffer)@.len()
                ==> old(self).spec_pbuffer()[i] <= 63),
            r is Err ==> r == Err::<(), ConsoleError>(ConsoleError::PixBufferError),
            // on an error: converted up to the first bad index, untouched from there on
            r is Err ==> exists|k: int| #![trigger old(self).spec_pbuffer()[k]]
                0 <= k < old(self).spec_pbuffer().len() && k < old(frame_buffer)@.len()
                && old(self).spec_pbuffer()[k] > 63
                && (forall|j: int| 0 <= j < k ==> old(self).spec_pbuffer()[j] <= 63
                    && final(frame_buffer)@[j] == palette@[old(self).spec_pbuffer()[j] as int])
                && (forall|j: int| k <= j < old(frame_buffer)@.len() ==> final(frame_buffer)@[j] == old(frame_buffer)@[j]),
    {
        let n = if self.pbuffer.len() < frame_buffer.len() { self.pbuffer.len() } else { frame_buffer.len() };
        let mut i: usize = 0;
        while i < n
            invariant
                i <= n,
                n <= self.pbuffer@.len(),
                n <= frame_buffer@.len(),
                n == self.pbuffer@.len() || n == frame_buffer@.len(),
                palette@.len() >= 64,
                frame_buffer@.len() == old(frame_buffer)@.len(),
                *self == *old(self),
                old(self).spec_wf(),
                forall|j: int| 0 <= j < i ==> self.pbuffer@[j] <= 63,
                forall|j: int| 0 <= j < i ==> frame_buffer@[j] == palette@[self.pbuffer@[j] as int],
                forall|j: int| i <= j < frame_buffer@.len() ==> frame_buffer@[j] == old(frame_buffer)@[j],
            decreases n - i,
        {
            let fi = self.pbuffer[i];
            if fi > 63 {
                assert(old(self).spec_pbuffer()[i as int] > 63);
                return Err(ConsoleError::PixBufferError);
            }
            frame_buffer[i] = palette[fi as usize];
            i = i + 1;
        }
        Ok(())
    }
}

} // verus!
