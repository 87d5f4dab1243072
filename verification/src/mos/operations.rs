//! The cycles of the 6502 instructions.
//!
//! Each function performs one cpu cycle: at most one bus access plus the
//! internal work of that cycle. Cycles that read stall while RDY is low.
//! The bus decides what a read returns, so the contracts state the cpu state
//! after the cycle in terms of the pinout the bus handed back.

use vstd::prelude::*;
use super::{Ctrl, Pinout};
use super::cpu_state::{
    Context, InstructionRegister, OpState, ProgramCounter, StatusRegister, spec_address,
    NMI_VEC_LOW, IRQ_BRK_VEC_LOW, NMI_TM, IRQ_TM,
};
use super::instructions::{Instruction, lemma_u8_bits};
use super::bus::Bus;

verus! {

/// The 16 bit address with high byte `hb` and low byte `lb`.
pub fn to_address(hb: u8, lb: u8) -> (r: u16)
    ensures
        r == spec_address(hb, lb),
        r as int == hb as int * 256 + lb as int,
{
    (hb as u16) * 256 + (lb as u16)
}

/// An 8 bit add that reports whether it carried out of bit 7.
pub fn overflowing_add(a: u8, b: u8) -> (r: (u8, bool))
    ensures
        r.0 == a.wrapping_add(b),
        r.1 == (a + b > 255),
{
    (a.wrapping_add(b), (a as u16) + (b as u16) > 255)
}

/// An 8 bit subtract that reports whether it borrowed.
pub fn overflowing_sub(a: u8, b: u8) -> (r: (u8, bool))
    ensures
        r.0 == a.wrapping_sub(b),
        r.1 == (a < b),
{
    (a.wrapping_sub(b), a < b)
}

/// The NMI edge has been seen and not yet serviced.
pub open spec fn spec_nmi_asserted(cpu: Context) -> bool {
    cpu.nmi_detected
}

/// The IRQ line is held low and interrupts are enabled.
pub open spec fn spec_irq_asserted(cpu: Context, pinout: Pinout) -> bool {
    !pinout.ctrl.irq && !cpu.p.interrupt_disable
}

fn is_nmi_asserted(cpu: &mut Context) -> (r: bool)
    ensures
        *final(cpu) == *old(cpu),
        r == spec_nmi_asserted(*old(cpu)),
{
    cpu.nmi_detected
}

fn is_irq_asserted(cpu: &mut Context, pinout: Pinout) -> (r: bool)
    ensures
        *final(cpu) == *old(cpu),
        r == spec_irq_asserted(*old(cpu), pinout),
{
    pinout.ctrl.contains(Ctrl::IRQ()) == false && cpu.p.interrupt_disable == false
}

/// The cpu redirected into the NMI sequence.
pub open spec fn spec_enter_nmi(cpu: Context) -> Context {
    Context {
        nmi_detected: false,
        ops: OpState::spec_new(),
        ir: InstructionRegister { opcode: 0, tm: NMI_TM },
        int_vec_low: NMI_VEC_LOW,
        ..cpu
    }
}

/// The cpu redirected into the IRQ sequence.
pub open spec fn spec_enter_irq(cpu: Context) -> Context {
    Context {
        ops: OpState::spec_new(),
        ir: InstructionRegister { opcode: 0, tm: IRQ_TM },
        int_vec_low: IRQ_BRK_VEC_LOW,
        ..cpu
    }
}

/// Interrupt polling at the end of an instruction: a pending NMI wins over
/// an IRQ; NMI is edge detected, IRQ level detected.
pub open spec fn spec_poll(cpu: Context, pinout: Pinout) -> Context {
    if spec_nmi_asserted(cpu) {
        spec_enter_nmi(cpu)
    } else if spec_irq_asserted(cpu, pinout) {
        spec_enter_irq(cpu)
    } else {
        cpu
    }
}

/// Interrupt polling with the IRQ line sampled a cycle earlier (SEI, CLI
/// and PLP change the I flag on their last cycle).
pub open spec fn spec_delayed_poll(cpu: Context, irq_detected: bool) -> Context {
    if spec_nmi_asserted(cpu) {
        spec_enter_nmi(cpu)
    } else if irq_detected {
        spec_enter_irq(cpu)
    } else {
        cpu
    }
}

pub fn poll_interrupts(cpu: &mut Context, pinout: Pinout)
    ensures
        *final(cpu) == spec_poll(*old(cpu), pinout),
{
    // nmi is edge detected, only needs to be held one cycle to set flag
    if is_nmi_asserted(cpu) {
        cpu.nmi_detected = false;
        cpu.ops.reset();
        cpu.ir.reset_to_nmi();
        cpu.int_vec_low = NMI_VEC_LOW;
    }
    // irq is level detected and must be held every cycle until handled
    else if is_irq_asserted(cpu, pinout) {
        cpu.ops.reset();
        cpu.ir.reset_to_irq();
        cpu.int_vec_low = IRQ_BRK_VEC_LOW;
    }
}

pub fn delayed_poll_interrupts(cpu: &mut Context, irq_detected: bool)
    ensures
        *final(cpu) == spec_delayed_poll(*old(cpu), irq_detected),
{
    if is_nmi_asserted(cpu) {
        cpu.nmi_detected = false;
        cpu.ops.reset();
        cpu.ir.reset_to_nmi();
        cpu.int_vec_low = NMI_VEC_LOW;
    } else if irq_detected {
        cpu.ops.reset();
        cpu.ir.reset_to_irq();
        cpu.int_vec_low = IRQ_BRK_VEC_LOW;
    }
}

/// After a read cycle: the byte read sits in the data latch and the timing
/// state moves on.
pub open spec fn spec_after_read(cpu: Context, data: u8) -> Context {
    Context { ops: OpState { dl: data, ..cpu.ops }, ir: cpu.ir.spec_incremented(), ..cpu }
}

/// After a write cycle the timing state moves on.
pub open spec fn spec_after_write(cpu: Context) -> Context {
    Context { ir: cpu.ir.spec_incremented(), ..cpu }
}

/// After the opcode fetch: a new instruction starts at its first timing
/// state, its working registers cleared, the program counter past the
/// opcode.
pub open spec fn spec_after_first_cycle(cpu: Context, opcode: u8) -> Context {
    Context {
        ir: InstructionRegister { opcode, tm: 0 },
        ops: OpState::spec_new(),
        pc: cpu.pc.spec_incremented(),
        ..cpu
    }
}

/// The pinout of a read cycle at `addr`.
pub open spec fn spec_read_request(pinout: Pinout, addr: u16) -> Pinout {
    Pinout { address: addr, ctrl: Ctrl { rw: true, ..pinout.ctrl }, ..pinout }
}

/// The pinout of a write cycle of `data` at `addr`.
pub open spec fn spec_write_request(pinout: Pinout, addr: u16, data: u8) -> Pinout {
    Pinout { address: addr, data, ctrl: Ctrl { rw: false, ..pinout.ctrl }, ..pinout }
}

/// Drives the pins for a read of `addr`.
pub fn read_request(pinout: Pinout, addr: u16) -> (r: Pinout)
    ensures
        r == spec_read_request(pinout, addr),
{
    let mut pinout = pinout;
    pinout.ctrl.set(Ctrl::RW(), true);
    pinout.address = addr;
    pinout
}

/// Drives the pins for a write of `data` to `addr`.
pub fn write_request(pinout: Pinout, addr: u16, data: u8) -> (r: Pinout)
    ensures
        r == spec_write_request(pinout, addr, data),
{
    let mut pinout = pinout;
    pinout.ctrl.set(Ctrl::RW(), false);
    pinout.address = addr;
    pinout.data = data;
    pinout
}

/// The opcode fetch: the first cycle of every instruction, with SYNC high.
pub fn first_cycle<B: Bus>(cpu: &mut Context, bus: &mut B, pinout: Pinout) -> (r: Pinout)
    requires
        old(bus).ready(),
    ensures
        final(bus).ready(),
        final(bus).spec_clock() == old(bus).spec_clock(),
        final(bus).spec_requests() == old(bus).spec_requests().push(
            spec_read_request(Pinout { ctrl: Ctrl { sync: true, ..pinout.ctrl }, ..pinout }, old(cpu).pc.spec_value())),
        *final(cpu) == spec_after_first_cycle(*old(cpu), r.data),
{
    let mut pinout = pinout;
    // sync used to track first cycle of instruction
    pinout.ctrl.set(Ctrl::SYNC(), true);
    let addr = cpu.pc.value();
    pinout = read_request(pinout, addr);
    // always fetch opcode
    pinout = bus.read(pinout);
    // set instruction register to new opcode
    cpu.ir.reset(pinout.data);
    cpu.ops.reset();
    cpu.pc.increment();
    pinout
}

/// The second cycle of every instruction: the byte after the opcode is read.
pub fn second_cycle<B: Bus>(cpu: &mut Context, bus: &mut B, pinout: Pinout) -> (r: Pinout)
    requires
        old(bus).ready(),
    ensures
        final(bus).ready(),
        final(bus).spec_clock() == old(bus).spec_clock(),
        final(bus).spec_requests() == old(bus).spec_requests().push(
            spec_read_request(Pinout { ctrl: Ctrl { sync: false, ..pinout.ctrl }, ..pinout }, old(cpu).pc.spec_value())),
        *final(cpu) == spec_after_read(*old(cpu), r.data),
{
    let mut pinout = pinout;
    pinout.ctrl.set(Ctrl::SYNC(), false);
    let addr = cpu.pc.value();
    pinout = read_request(pinout, addr);
    pinout = bus.read(pinout);
    cpu.ops.dl = pinout.data;
    cpu.ir.increment();
    pinout
}

/// A read of `addr` into the data latch.
pub fn read_cycle<B: Bus>(cpu: &mut Context, bus: &mut B, pinout: Pinout, addr: u16) -> (r: Pinout)
    requires
        old(bus).ready(),
    ensures
        final(bus).ready(),
        final(bus).spec_clock() == old(bus).spec_clock(),
        final(bus).spec_requests() == old(bus).spec_requests().push(spec_read_request(pinout, addr)),
        *final(cpu) == spec_after_read(*old(cpu), r.data),
{
    let mut pinout = read_request(pinout, addr);
    pinout = bus.read(pinout);
    cpu.ops.dl = pinout.data;
    cpu.ir.increment();
    pinout
}

/// A write of `data` to `addr`.
pub fn write_cycle<B: Bus>(cpu: &mut Context, bus: &mut B, pinout: Pinout, addr: u16, data: u8) -> (r: Pinout)
    requires
        old(bus).ready(),
    ensures
        final(bus).ready(),
        final(bus).spec_clock() == old(bus).spec_clock(),
        final(bus).spec_requests() == old(bus).spec_requests().push(spec_write_request(pinout, addr, data)),
        *final(cpu) == spec_after_write(*old(cpu)),
{
    let mut pinout = write_request(pinout, addr, data);
    pinout = bus.write(pinout);
    cpu.ir.increment();
    pinout
}

/// The cpu state after the cycle `rst_c0` runs, `r` being the pinout it
/// returns.
pub open spec fn spec_rst_c0(cpu: Context, pinout: Pinout, r: Pinout) -> Context {
    ({ let s0 = cpu; let s1 = Context { a: 0xAA, ..s0 }; let s2 = Context { p: StatusRegister::spec_power_on(), ..s1 }; let s3 = Context { pc: ProgramCounter::spec_from_value(0x00FF), ..s2 }; let s4 = spec_after_read(s3, r.data); s4 })
}

/// The requests the cycle `rst_c0` puts on the bus, oldest first.
pub open spec fn spec_rst_c0_requests(cpu: Context, pinout: Pinout) -> Seq<Pinout> {
    seq![spec_read_request(pinout, 0x00FF)]
}

pub fn rst_c0<B: Bus>(cpu: &mut Context, bus: &mut B, pinout: Pinout) -> (r: Pinout)
    requires
        old(bus).ready(),
    ensures
        final(bus).ready(),
        final(bus).spec_clock() == old(bus).spec_clock(),
        *final(cpu) == spec_rst_c0(*old(cpu), pinout, r),
        ({ let s0 = *old(cpu); let s1 = Context { a: 0xAA, ..s0 }; let s2 = Context { p: StatusRegister::spec_power_on(), ..s1 }; let s3 = Context { pc: ProgramCounter::spec_from_value(0x00FF), ..s2 }; let s4 = spec_after_read(s3, r.data); *final(cpu) == s4 }),
        final(bus).spec_requests() == old(bus).spec_requests() + spec_rst_c0_requests(*old(cpu), pinout),
{
    let mut pinout = pinout;
    cpu.a = 0xAA;
    cpu.p = StatusRegister::from_power_on();
    cpu.pc = ProgramCounter::from_value(0x00FF);
    let addr = 0x00FF;
    pinout = read_cycle(cpu, bus, pinout, addr);
    pinout
}

/// The cpu state after the cycle `rst_c1` runs, `r` being the pinout it
/// returns.
pub open spec fn spec_rst_c1(cpu: Context, pinout: Pinout, r: Pinout) -> Context {
    ({ let s0 = cpu; let s1 = spec_after_read(s0, r.data); s1 })
}

/// The requests the cycle `rst_c1` puts on the bus, oldest first.
pub open spec fn spec_rst_c1_requests(cpu: Context, pinout: Pinout) -> Seq<Pinout> {
    seq![spec_read_request(pinout, 0x00FF)]
}

pub fn rst_c1<B: Bus>(cpu: &mut Context, bus: &mut B, pinout: Pinout) -> (r: Pinout)
    requires
        old(bus).ready(),
    ensures
        final(bus).ready(),
        final(bus).spec_clock() == old(bus).spec_clock(),
        *final(cpu) == spec_rst_c1(*old(cpu), pinout, r),
        ({ let s0 = *old(cpu); let s1 = spec_after_read(s0, r.data); *final(cpu) == s1 }),
        final(bus).spec_requests() == old(bus).spec_requests() + spec_rst_c1_requests(*old(cpu), pinout),
{
    let mut pinout = pinout;
    let addr = 0x00FF;
    pinout = read_cycle(cpu, bus, pinout, addr);
    pinout
}

/// The cpu state after the cycle `rst_c2` runs, `r` being the pinout it
/// returns.
pub open spec fn spec_rst_c2(cpu: Context, pinout: Pinout, r: Pinout) -> Context {
    ({ let s0 = cpu; let s1 = spec_after_read(s0, r.data); s1 })
}

/// The requests the cycle `rst_c2` puts on the bus, oldest first.
pub open spec fn spec_rst_c2_requests(cpu: Context, pinout: Pinout) -> Seq<Pinout> {
    seq![spec_read_request(pinout, 0x00FF)]
}

pub fn rst_c2<B: Bus>(cpu: &mut Context, bus: &mut B, pinout: Pinout) -> (r: Pinout)
    requires
        old(bus).ready(),
    ensures
        final(bus).ready(),
        final(bus).spec_clock() == old(bus).spec_clock(),
        *final(cpu) == spec_rst_c2(*old(cpu), pinout, r),
        ({ let s0 = *old(cpu); let s1 = spec_after_read(s0, r.data); *final(cpu) == s1 }),
        final(bus).spec_requests() == old(bus).spec_requests() + spec_rst_c2_requests(*old(cpu), pinout),
{
    let mut pinout = pinout;
    let addr = 0x00FF;
    pinout = read_cycle(cpu, bus, pinout, addr);
    pinout
}

/// The cpu state after the cycle `rst_c3` runs, `r` being the pinout it
/// returns.
pub open spec fn spec_rst_c3(cpu: Context, pinout: Pinout, r: Pinout) -> Context {
    ({ let s0 = cpu; let s1 = spec_after_read(s0, r.data); s1 })
}

/// The requests the cycle `rst_c3` puts on the bus, oldest first.
pub open spec fn spec_rst_c3_requests(cpu: Context, pinout: Pinout) -> Seq<Pinout> {
    seq![spec_read_request(pinout, 0x0100)]
}

pub fn rst_c3<B: Bus>(cpu: &mut Context, bus: &mut B, pinout: Pinout) -> (r: Pinout)
    requires
        old(bus).ready(),
    ensures
        final(bus).ready(),
        final(bus).spec_clock() == old(bus).spec_clock(),
        *final(cpu) == spec_rst_c3(*old(cpu), pinout, r),
        ({ let s0 = *old(cpu); let s1 = spec_after_read(s0, r.data); *final(cpu) == s1 }),
        final(bus).spec_requests() == old(bus).spec_requests() + spec_rst_c3_requests(*old(cpu), pinout),
{
    let mut pinout = pinout;
    let addr = 0x0100;
    pinout = read_cycle(cpu, bus, pinout, addr);
    pinout
}

/// The cpu state after the cycle `rst_c4` runs, `r` being the pinout it
/// returns.
pub open spec fn spec_rst_c4(cpu: Context, pinout: Pinout, r: Pinout) -> Context {
    ({ let s0 = cpu; let s1 = spec_after_read(s0, r.data); s1 })
}

/// The requests the cycle `rst_c4` puts on the bus, oldest first.
pub open spec fn spec_rst_c4_requests(cpu: Context, pinout: Pinout) -> Seq<Pinout> {
    seq![spec_read_request(pinout, 0x01FF)]
}

pub fn rst_c4<B: Bus>(cpu: &mut Context, bus: &mut B, pinout: Pinout) -> (r: Pinout)
    requires
        old(bus).ready(),
    ensures
        final(bus).ready(),
        final(bus).spec_clock() == old(bus).spec_clock(),
        *final(cpu) == spec_rst_c4(*old(cpu), pinout, r),
        ({ let s0 = *old(cpu); let s1 = spec_after_read(s0, r.data); *final(cpu) == s1 }),
        final(bus).spec_requests() == old(bus).spec_requests() + spec_rst_c4_requests(*old(cpu), pinout),
{
    let mut pinout = pinout;
    let addr = 0x01FF;
    pinout = read_cycle(cpu, bus, pinout, addr);
    pinout
}

/// The cpu state after the cycle `rst_c5` runs, `r` being the pinout it
/// returns.
pub open spec fn spec_rst_c5(cpu: Context, pinout: Pinout, r: Pinout) -> Context {
    ({ let s0 = cpu; let s1 = spec_after_read(s0, r.data); let s2 = Context { sp: 0xFD, ..s1 }; s2 })
}

/// The requests the cycle `rst_c5` puts on the bus, oldest first.
pub open spec fn spec_rst_c5_requests(cpu: Context, pinout: Pinout) -> Seq<Pinout> {
    seq![spec_read_request(pinout, 0x01FE)]
}

pub fn rst_c5<B: Bus>(cpu: &mut Context, bus: &mut B, pinout: Pinout) -> (r: Pinout)
    requires
        old(bus).ready(),
    ensures
        final(bus).ready(),
        final(bus).spec_clock() == old(bus).spec_clock(),
        *final(cpu) == spec_rst_c5(*old(cpu), pinout, r),
        ({ let s0 = *old(cpu); let s1 = spec_after_read(s0, r.data); let s2 = Context { sp: 0xFD, ..s1 }; *final(cpu) == s2 }),
        final(bus).spec_requests() == old(bus).spec_requests() + spec_rst_c5_requests(*old(cpu), pinout),
{
    let mut pinout = pinout;
    let addr = 0x01FE;
    pinout = read_cycle(cpu, bus, pinout, addr);
    cpu.sp = 0xFD;
    pinout
}

/// The cpu state after the cycle `rst_c6` runs, `r` being the pinout it
/// returns.
pub open spec fn spec_rst_c6(cpu: Context, pinout: Pinout, r: Pinout) -> Context {
    ({ let s0 = cpu; let s1 = spec_after_read(s0, r.data); let s2 = Context { ops: OpState { adl: s1.ops.dl, ..s1.ops }, ..s1 }; s2 })
}

/// The requests the cycle `rst_c6` puts on the bus, oldest first.
pub open spec fn spec_rst_c6_requests(cpu: Context, pinout: Pinout) -> Seq<Pinout> {
    seq![spec_read_request(pinout, 0xFFFC)]
}

pub fn rst_c6<B: Bus>(cpu: &mut Context, bus: &mut B, pinout: Pinout) -> (r: Pinout)
    requires
        old(bus).ready(),
    ensures
        final(bus).ready(),
        final(bus).spec_clock() == old(bus).spec_clock(),
        *final(cpu) == spec_rst_c6(*old(cpu), pinout, r),
        ({ let s0 = *old(cpu); let s1 = spec_after_read(s0, r.data); let s2 = Context { ops: OpState { adl: s1.ops.dl, ..s1.ops }, ..s1 }; *final(cpu) == s2 }),
        final(bus).spec_requests() == old(bus).spec_requests() + spec_rst_c6_requests(*old(cpu), pinout),
{
    let mut pinout = pinout;
    let addr = 0xFFFC;
    pinout = read_cycle(cpu, bus, pinout, addr);
    cpu.ops.adl = cpu.ops.dl;
    pinout
}

/// The cpu state after the cycle `rst_c7` runs, `r` being the pinout it
/// returns.
pub open spec fn spec_rst_c7(cpu: Context, pinout: Pinout, r: Pinout) -> Context {
    ({ let s0 = cpu; let s1 = spec_after_read(s0, r.data); let s2 = Context { ops: OpState { adh: s1.ops.dl, ..s1.ops }, ..s1 }; s2 })
}

/// The requests the cycle `rst_c7` puts on the bus, oldest first.
pub open spec fn spec_rst_c7_requests(cpu: Context, pinout: Pinout) -> Seq<Pinout> {
    seq![spec_read_request(pinout, 0xFFFD)]
}

pub fn rst_c7<B: Bus>(cpu: &mut Context, bus: &mut B, pinout: Pinout) -> (r: Pinout)
    requires
        old(bus).ready(),
    ensures
        final(bus).ready(),
        final(bus).spec_clock() == old(bus).spec_clock(),
        *final(cpu) == spec_rst_c7(*old(cpu), pinout, r),
        ({ let s0 = *old(cpu); let s1 = spec_after_read(s0, r.data); let s2 = Context { ops: OpState { adh: s1.ops.dl, ..s1.ops }, ..s1 }; *final(cpu) == s2 }),
        final(bus).spec_requests() == old(bus).spec_requests() + spec_rst_c7_requests(*old(cpu), pinout),
{
    let mut pinout = pinout;
    let addr = 0xFFFD;
    pinout = read_cycle(cpu, bus, pinout, addr);
    cpu.ops.adh = cpu.ops.dl;
    pinout
}

/// The cpu state after the cycle `rst_c8` runs, `r` being the pinout it
/// returns.
pub open spec fn spec_rst_c8(cpu: Context, pinout: Pinout, r: Pinout) -> Context {
    ({ let s0 = cpu; let s1 = Context { pc: ProgramCounter { pcl: s0.ops.adl, ..s0.pc }, ..s0 }; let s2 = Context { pc: ProgramCounter { pch: s1.ops.adh, ..s1.pc }, ..s1 }; let s3 = Context { cycle: 7, ..s2 }; let s4 = spec_after_first_cycle(s3, r.data); s4 })
}

/// The requests the cycle `rst_c8` puts on the bus, oldest first.
pub open spec fn spec_rst_c8_requests(cpu: Context, pinout: Pinout) -> Seq<Pinout> {
    let s1 = Context { pc: ProgramCounter { pcl: cpu.ops.adl, ..cpu.pc }, ..cpu };
    let s2 = Context { pc: ProgramCounter { pch: s1.ops.adh, ..s1.pc }, ..s1 };
    let s3 = Context { cycle: 7, ..s2 };
    seq![spec_read_request(Pinout { ctrl: Ctrl { sync: true, ..pinout.ctrl }, ..pinout }, s3.pc.spec_value())]
}

pub fn rst_c8<B: Bus>(cpu: &mut Context, bus: &mut B, pinout: Pinout) -> (r: Pinout)
    requires
        old(bus).ready(),
    ensures
        final(bus).ready(),
        final(bus).spec_clock() == old(bus).spec_clock(),
        *final(cpu) == spec_rst_c8(*old(cpu), pinout, r),
        ({ let s0 = *old(cpu); let s1 = Context { pc: ProgramCounter { pcl: s0.ops.adl, ..s0.pc }, ..s0 }; let s2 = Context { pc: ProgramCounter { pch: s1.ops.adh, ..s1.pc }, ..s1 }; let s3 = Context { cycle: 7, ..s2 }; let s4 = spec_after_first_cycle(s3, r.data); *final(cpu) == s4 }),
        final(bus).spec_requests() == old(bus).spec_requests() + spec_rst_c8_requests(*old(cpu), pinout),
{
    let mut pinout = pinout;
    cpu.pc.pcl = cpu.ops.adl;
    cpu.pc.pch = cpu.ops.adh;
    cpu.cycle = 7;
    pinout = first_cycle(cpu, bus, pinout);
    pinout
}

/// The cpu state after the cycle `brk_c0` runs, `r` being the pinout it
/// returns.
pub open spec fn spec_brk_c0(cpu: Context, pinout: Pinout, r: Pinout) -> Context {
    if !pinout.ctrl.rdy {
        cpu
    } else {
        ({ let s0 = cpu; let s1 = spec_after_read(s0, r.data); let s2 = Context { pc: s1.pc.spec_incremented(), ..s1 }; s2 })
    }
}

/// The requests the cycle `brk_c0` puts on the bus, oldest first.
pub open spec fn spec_brk_c0_requests(cpu: Context, pinout: Pinout) -> Seq<Pinout> {
    if !pinout.ctrl.rdy {
        Seq::empty()
    } else {
        seq![spec_read_request(Pinout { ctrl: Ctrl { sync: false, ..pinout.ctrl }, ..pinout }, cpu.pc.spec_value())]
    }
}

pub fn brk_c0<B: Bus>(cpu: &mut Context, bus: &mut B, pinout: Pinout) -> (r: Pinout)
    requires
        old(bus).ready(),
    ensures
        final(bus).ready(),
        final(bus).spec_clock() == old(bus).spec_clock(),
        *final(cpu) == spec_brk_c0(*old(cpu), pinout, r),
        !pinout.ctrl.rdy ==> r == pinout && *final(cpu) == *old(cpu) && *final(bus) == *old(bus),
        pinout.ctrl.rdy ==> ({ let s0 = *old(cpu); let s1 = spec_after_read(s0, r.data); let s2 = Context { pc: s1.pc.spec_incremented(), ..s1 }; *final(cpu) == s2 }),
        final(bus).spec_requests() == old(bus).spec_requests() + spec_brk_c0_requests(*old(cpu), pinout),
{
    let mut pinout = pinout;
    if pinout.ctrl.contains(Ctrl::RDY()) == false {
        return pinout;
    }
    pinout = second_cycle(cpu, bus, pinout);
    cpu.pc.increment();
    pinout
}

/// The cpu state after the cycle `brk_c1` runs, `r` being the pinout it
/// returns.
pub open spec fn spec_brk_c1(cpu: Context, pinout: Pinout, r: Pinout) -> Context {
    ({ let s0 = cpu; let s1 = spec_after_write(s0); let s2 = Context { sp: s1.sp.wrapping_sub(1), ..s1 }; s2 })
}

/// The requests the cycle `brk_c1` puts on the bus, oldest first.
pub open spec fn spec_brk_c1_requests(cpu: Context, pinout: Pinout) -> Seq<Pinout> {
    seq![spec_write_request(pinout, spec_address(0x01, cpu.sp), cpu.pc.pch)]
}

pub fn brk_c1<B: Bus>(cpu: &mut Context, bus: &mut B, pinout: Pinout) -> (r: Pinout)
    requires
        old(bus).ready(),
    ensures
        final(bus).ready(),
        final(bus).spec_clock() == old(bus).spec_clock(),
        *final(cpu) == spec_brk_c1(*old(cpu), pinout, r),
        ({ let s0 = *old(cpu); let s1 = spec_after_write(s0); let s2 = Context { sp: s1.sp.wrapping_sub(1), ..s1 }; *final(cpu) == s2 }),
        final(bus).spec_requests() == old(bus).spec_requests() + spec_brk_c1_requests(*old(cpu), pinout),
{
    let mut pinout = pinout;
    let addr = to_address(0x01, cpu.sp);
    let data = cpu.pc.pch;
    pinout = write_cycle(cpu, bus, pinout, addr, data);
    cpu.sp = cpu.sp.wrapping_sub(1);
    pinout
}

/// The cpu state after the cycle `brk_c3` runs, `r` being the pinout it
/// returns.
pub open spec fn spec_brk_c3(cpu: Context, pinout: Pinout, r: Pinout) -> Context {
    ({ let s0 = cpu; let s1 = spec_after_write(s0); let s2 = Context { sp: s1.sp.wrapping_sub(1), ..s1 }; s2 })
}

/// The requests the cycle `brk_c3` puts on the bus, oldest first.
pub open spec fn spec_brk_c3_requests(cpu: Context, pinout: Pinout) -> Seq<Pinout> {
    seq![spec_write_request(pinout, spec_address(0x01, cpu.sp), (cpu.p.spec_bits() | 0x30))]
}

pub fn brk_c3<B: Bus>(cpu: &mut Context, bus: &mut B, pinout: Pinout) -> (r: Pinout)
    requires
        old(bus).ready(),
    ensures
        final(bus).ready(),
        final(bus).spec_clock() == old(bus).spec_clock(),
        *final(cpu) == spec_brk_c3(*old(cpu), pinout, r),
        ({ let s0 = *old(cpu); let s1 = spec_after_write(s0); let s2 = Context { sp: s1.sp.wrapping_sub(1), ..s1 }; *final(cpu) == s2 }),
        final(bus).spec_requests() == old(bus).spec_requests() + spec_brk_c3_requests(*old(cpu), pinout),
{
    let mut pinout = pinout;
    let addr = to_address(0x01, cpu.sp);
    let data = cpu.p.push_with_b();
    pinout = write_cycle(cpu, bus, pinout, addr, data);
    cpu.sp = cpu.sp.wrapping_sub(1);
    pinout
}

/// The cpu state after the cycle `brk_c4` runs, `r` being the pinout it
/// returns.
pub open spec fn spec_brk_c4(cpu: Context, pinout: Pinout, r: Pinout) -> Context {
    if !pinout.ctrl.rdy {
        cpu
    } else {
        ({ let s0 = cpu; let s1 = spec_after_read(s0, r.data); let s2 = Context { pc: ProgramCounter { pcl: s1.ops.dl, ..s1.pc }, ..s1 }; let s3 = Context { p: StatusRegister { interrupt_disable: true, ..s2.p }, ..s2 }; s3 })
    }
}

/// The requests the cycle `brk_c4` puts on the bus, oldest first.
pub open spec fn spec_brk_c4_requests(cpu: Context, pinout: Pinout) -> Seq<Pinout> {
    if !pinout.ctrl.rdy {
        Seq::empty()
    } else {
        seq![spec_read_request(pinout, spec_address(0xFF, cpu.int_vec_low))]
    }
}

pub fn brk_c4<B: Bus>(cpu: &mut Context, bus: &mut B, pinout: Pinout) -> (r: Pinout)
    requires
        old(bus).ready(),
    ensures
        final(bus).ready(),
        final(bus).spec_clock() == old(bus).spec_clock(),
        *final(cpu) == spec_brk_c4(*old(cpu), pinout, r),
        !pinout.ctrl.rdy ==> r == pinout && *final(cpu) == *old(cpu) && *final(bus) == *old(bus),
        pinout.ctrl.rdy ==> ({ let s0 = *old(cpu); let s1 = spec_after_read(s0, r.data); let s2 = Context { pc: ProgramCounter { pcl: s1.ops.dl, ..s1.pc }, ..s1 }; let s3 = Context { p: StatusRegister { interrupt_disable: true, ..s2.p }, ..s2 }; *final(cpu) == s3 }),
        final(bus).spec_requests() == old(bus).spec_requests() + spec_brk_c4_requests(*old(cpu), pinout),
{
    let mut pinout = pinout;
    if pinout.ctrl.contains(Ctrl::RDY()) == false {
        return pinout;
    }
    let addr = to_address(0xFF, cpu.int_vec_low);
    pinout = read_cycle(cpu, bus, pinout, addr);
    cpu.pc.pcl = cpu.ops.dl;
    cpu.p.interrupt_disable = true;
    pinout
}

/// The cpu state after the cycle `brk_c5` runs, `r` being the pinout it
/// returns.
pub open spec fn spec_brk_c5(cpu: Context, pinout: Pinout, r: Pinout) -> Context {
    if !pinout.ctrl.rdy {
        cpu
    } else {
        ({ let s0 = cpu; let s1 = spec_after_read(s0, r.data); let s2 = Context { pc: ProgramCounter { pch: s1.ops.dl, ..s1.pc }, ..s1 }; let s3 = Context { int_vec_low: IRQ_BRK_VEC_LOW, ..s2 }; s3 })
    }
}

/// The requests the cycle `brk_c5` puts on the bus, oldest first.
pub open spec fn spec_brk_c5_requests(cpu: Context, pinout: Pinout) -> Seq<Pinout> {
    if !pinout.ctrl.rdy {
        Seq::empty()
    } else {
        seq![spec_read_request(pinout, spec_address(0xFF, cpu.int_vec_low.wrapping_add(1)))]
    }
}

pub fn brk_c5<B: Bus>(cpu: &mut Context, bus: &mut B, pinout: Pinout) -> (r: Pinout)
    requires
        old(bus).ready(),
    ensures
        final(bus).ready(),
        final(bus).spec_clock() == old(bus).spec_clock(),
        *final(cpu) == spec_brk_c5(*old(cpu), pinout, r),
        !pinout.ctrl.rdy ==> r == pinout && *final(cpu) == *old(cpu) && *final(bus) == *old(bus),
        pinout.ctrl.rdy ==> ({ let s0 = *old(cpu); let s1 = spec_after_read(s0, r.data); let s2 = Context { pc: ProgramCounter { pch: s1.ops.dl, ..s1.pc }, ..s1 }; let s3 = Context { int_vec_low: IRQ_BRK_VEC_LOW, ..s2 }; *final(cpu) == s3 }),
        final(bus).spec_requests() == old(bus).spec_requests() + spec_brk_c5_requests(*old(cpu), pinout),
{
    let mut pinout = pinout;
    if pinout.ctrl.contains(Ctrl::RDY()) == false {
        return pinout;
    }
    let addr = to_address(0xFF, cpu.int_vec_low.wrapping_add(1));
    pinout = read_cycle(cpu, bus, pinout, addr);
    cpu.pc.pch = cpu.ops.dl;
    cpu.int_vec_low = IRQ_BRK_VEC_LOW;
    pinout
}

/// The cpu state after the cycle `brk_c6` runs, `r` being the pinout it
/// returns.
pub open spec fn spec_brk_c6(cpu: Context, pinout: Pinout, r: Pinout) -> Context {
    if !pinout.ctrl.rdy {
        cpu
    } else {
        ({ let s0 = cpu; let s1 = spec_after_first_cycle(s0, r.data); s1 })
    }
}

/// The requests the cycle `brk_c6` puts on the bus, oldest first.
pub open spec fn spec_brk_c6_requests(cpu: Context, pinout: Pinout) -> Seq<Pinout> {
    if !pinout.ctrl.rdy {
        Seq::empty()
    } else {
        seq![spec_read_request(Pinout { ctrl: Ctrl { sync: true, ..pinout.ctrl }, ..pinout }, cpu.pc.spec_value())]
    }
}

pub fn brk_c6<B: Bus>(cpu: &mut Context, bus: &mut B, pinout: Pinout) -> (r: Pinout)
    requires
        old(bus).ready(),
    ensures
        final(bus).ready(),
        final(bus).spec_clock() == old(bus).spec_clock(),
        *final(cpu) == spec_brk_c6(*old(cpu), pinout, r),
        !pinout.ctrl.rdy ==> r == pinout && *final(cpu) == *old(cpu) && *final(bus) == *old(bus),
        pinout.ctrl.rdy ==> ({ let s0 = *old(cpu); let s1 = spec_after_first_cycle(s0, r.data); *final(cpu) == s1 }),
        final(bus).spec_requests() == old(bus).spec_requests() + spec_brk_c6_requests(*old(cpu), pinout),
{
    let mut pinout = pinout;
    if pinout.ctrl.contains(Ctrl::RDY()) == false {
        return pinout;
    }
    pinout = first_cycle(cpu, bus, pinout);
    pinout
}

/// The cpu state after the cycle `irq_c0` runs, `r` being the pinout it
/// returns.
pub open spec fn spec_irq_c0(cpu: Context, pinout: Pinout, r: Pinout) -> Context {
    if !pinout.ctrl.rdy {
        cpu
    } else {
        ({ let s0 = cpu; let s1 = spec_after_read(s0, r.data); s1 })
    }
}

/// The requests the cycle `irq_c0` puts on the bus, oldest first.
pub open spec fn spec_irq_c0_requests(cpu: Context, pinout: Pinout) -> Seq<Pinout> {
    if !pinout.ctrl.rdy {
        Seq::empty()
    } else {
        seq![spec_read_request(Pinout { ctrl: Ctrl { sync: false, ..pinout.ctrl }, ..pinout }, cpu.pc.spec_value())]
    }
}

pub fn irq_c0<B: Bus>(cpu: &mut Context, bus: &mut B, pinout: Pinout) -> (r: Pinout)
    requires
        old(bus).ready(),
    ensures
        final(bus).ready(),
        final(bus).spec_clock() == old(bus).spec_clock(),
        *final(cpu) == spec_irq_c0(*old(cpu), pinout, r),
        !pinout.ctrl.rdy ==> r == pinout && *final(cpu) == *old(cpu) && *final(bus) == *old(bus),
        pinout.ctrl.rdy ==> ({ let s0 = *old(cpu); let s1 = spec_after_read(s0, r.data); *final(cpu) == s1 }),
        final(bus).spec_requests() == old(bus).spec_requests() + spec_irq_c0_requests(*old(cpu), pinout),
{
    let mut pinout = pinout;
    if pinout.ctrl.contains(Ctrl::RDY()) == false {
        return pinout;
    }
    pinout = second_cycle(cpu, bus, pinout);
    pinout
}

/// The cpu state after the cycle `irq_c1` runs, `r` being the pinout it
/// returns.
pub open spec fn spec_irq_c1(cpu: Context, pinout: Pinout, r: Pinout) -> Context {
    ({ let s0 = cpu; let s1 = spec_after_write(s0); let s2 = Context { sp: s1.sp.wrapping_sub(1), ..s1 }; s2 })
}

/// The requests the cycle `irq_c1` puts on the bus, oldest first.
pub open spec fn spec_irq_c1_requests(cpu: Context, pinout: Pinout) -> Seq<Pinout> {
    seq![spec_write_request(pinout, spec_address(0x01, cpu.sp), cpu.pc.pch)]
}

pub fn irq_c1<B: Bus>(cpu: &mut Context, bus: &mut B, pinout: Pinout) -> (r: Pinout)
    requires
        old(bus).ready(),
    ensures
        final(bus).ready(),
        final(bus).spec_clock() == old(bus).spec_clock(),
        *final(cpu) == spec_irq_c1(*old(cpu), pinout, r),
        ({ let s0 = *old(cpu); let s1 = spec_after_write(s0); let s2 = Context { sp: s1.sp.wrapping_sub(1), ..s1 }; *final(cpu) == s2 }),
        final(bus).spec_requests() == old(bus).spec_requests() + spec_irq_c1_requests(*old(cpu), pinout),
{
    let mut pinout = pinout;
    let addr = to_address(0x01, cpu.sp);
    let data = cpu.pc.pch;
    pinout = write_cycle(cpu, bus, pinout, addr, data);
    cpu.sp = cpu.sp.wrapping_sub(1);
    pinout
}

/// The cpu state after the cycle `irq_c3` runs, `r` being the pinout it
/// returns.
pub open spec fn spec_irq_c3(cpu: Context, pinout: Pinout, r: Pinout) -> Context {
    ({ let s0 = cpu; let s1 = spec_after_write(s0); let s2 = Context { p: StatusRegister { interrupt_disable: true, ..s1.p }, ..s1 }; let s3 = Context { sp: s2.sp.wrapping_sub(1), ..s2 }; s3 })
}

/// The requests the cycle `irq_c3` puts on the bus, oldest first.
pub open spec fn spec_irq_c3_requests(cpu: Context, pinout: Pinout) -> Seq<Pinout> {
    seq![spec_write_request(pinout, spec_address(0x01, cpu.sp), (cpu.p.spec_bits() | 0x20))]
}

pub fn irq_c3<B: Bus>(cpu: &mut Context, bus: &mut B, pinout: Pinout) -> (r: Pinout)
    requires
        old(bus).ready(),
    ensures
        final(bus).ready(),
        final(bus).spec_clock() == old(bus).spec_clock(),
        *final(cpu) == spec_irq_c3(*old(cpu), pinout, r),
        ({ let s0 = *old(cpu); let s1 = spec_after_write(s0); let s2 = Context { p: StatusRegister { interrupt_disable: true, ..s1.p }, ..s1 }; let s3 = Context { sp: s2.sp.wrapping_sub(1), ..s2 }; *final(cpu) == s3 }),
        final(bus).spec_requests() == old(bus).spec_requests() + spec_irq_c3_requests(*old(cpu), pinout),
{
    let mut pinout = pinout;
    let addr = to_address(0x01, cpu.sp);
    let data = cpu.p.push_without_b();
    pinout = write_cycle(cpu, bus, pinout, addr, data);
    cpu.p.interrupt_disable = true;
    cpu.sp = cpu.sp.wrapping_sub(1);
    pinout
}

/// The cpu state after the cycle `irq_c4` runs, `r` being the pinout it
/// returns.
pub open spec fn spec_irq_c4(cpu: Context, pinout: Pinout, r: Pinout) -> Context {
    if !pinout.ctrl.rdy {
        cpu
    } else {
        ({ let s0 = cpu; let s1 = spec_after_read(s0, r.data); let s2 = Context { pc: ProgramCounter { pcl: s1.ops.dl, ..s1.pc }, ..s1 }; let s3 = Context { p: StatusRegister { interrupt_disable: true, ..s2.p }, ..s2 }; s3 })
    }
}

/// The requests the cycle `irq_c4` puts on the bus, oldest first.
pub open spec fn spec_irq_c4_requests(cpu: Context, pinout: Pinout) -> Seq<Pinout> {
    if !pinout.ctrl.rdy {
        Seq::empty()
    } else {
        seq![spec_read_request(pinout, spec_address(0xFF, cpu.int_vec_low))]
    }
}

pub fn irq_c4<B: Bus>(cpu: &mut Context, bus: &mut B, pinout: Pinout) -> (r: Pinout)
    requires
        old(bus).ready(),
    ensures
        final(bus).ready(),
        final(bus).spec_clock() == old(bus).spec_clock(),
        *final(cpu) == spec_irq_c4(*old(cpu), pinout, r),
        !pinout.ctrl.rdy ==> r == pinout && *final(cpu) == *old(cpu) && *final(bus) == *old(bus),
        pinout.ctrl.rdy ==> ({ let s0 = *old(cpu); let s1 = spec_after_read(s0, r.data); let s2 = Context { pc: ProgramCounter { pcl: s1.ops.dl, ..s1.pc }, ..s1 }; let s3 = Context { p: StatusRegister { interrupt_disable: true, ..s2.p }, ..s2 }; *final(cpu) == s3 }),
        final(bus).spec_requests() == old(bus).spec_requests() + spec_irq_c4_requests(*old(cpu), pinout),
{
    let mut pinout = pinout;
    if pinout.ctrl.contains(Ctrl::RDY()) == false {
        return pinout;
    }
    let addr = to_address(0xFF, cpu.int_vec_low);
    pinout = read_cycle(cpu, bus, pinout, addr);
    cpu.pc.pcl = cpu.ops.dl;
    cpu.p.interrupt_disable = true;
    pinout
}

/// The cpu state after the cycle `irq_c5` runs, `r` being the pinout it
/// returns.
pub open spec fn spec_irq_c5(cpu: Context, pinout: Pinout, r: Pinout) -> Context {
    if !pinout.ctrl.rdy {
        cpu
    } else {
        ({ let s0 = cpu; let s1 = spec_after_read(s0, r.data); let s2 = Context { pc: ProgramCounter { pch: s1.ops.dl, ..s1.pc }, ..s1 }; let s3 = Context { int_vec_low: IRQ_BRK_VEC_LOW, ..s2 }; s3 })
    }
}

/// The requests the cycle `irq_c5` puts on the bus, oldest first.
pub open spec fn spec_irq_c5_requests(cpu: Context, pinout: Pinout) -> Seq<Pinout> {
    if !pinout.ctrl.rdy {
        Seq::empty()
    } else {
        seq![spec_read_request(pinout, spec_address(0xFF, cpu.int_vec_low.wrapping_add(1)))]
    }
}

pub fn irq_c5<B: Bus>(cpu: &mut Context, bus: &mut B, pinout: Pinout) -> (r: Pinout)
    requires
        old(bus).ready(),
    ensures
        final(bus).ready(),
        final(bus).spec_clock() == old(bus).spec_clock(),
        *final(cpu) == spec_irq_c5(*old(cpu), pinout, r),
        !pinout.ctrl.rdy ==> r == pinout && *final(cpu) == *old(cpu) && *final(bus) == *old(bus),
        pinout.ctrl.rdy ==> ({ let s0 = *old(cpu); let s1 = spec_after_read(s0, r.data); let s2 = Context { pc: ProgramCounter { pch: s1.ops.dl, ..s1.pc }, ..s1 }; let s3 = Context { int_vec_low: IRQ_BRK_VEC_LOW, ..s2 }; *final(cpu) == s3 }),
        final(bus).spec_requests() == old(bus).spec_requests() + spec_irq_c5_requests(*old(cpu), pinout),
{
    let mut pinout = pinout;
    if pinout.ctrl.contains(Ctrl::RDY()) == false {
        return pinout;
    }
    let addr = to_address(0xFF, cpu.int_vec_low.wrapping_add(1));
    pinout = read_cycle(cpu, bus, pinout, addr);
    cpu.pc.pch = cpu.ops.dl;
    cpu.int_vec_low = IRQ_BRK_VEC_LOW;
    pinout
}

/// The cpu state after the cycle `irq_c6` runs, `r` being the pinout it
/// returns.
pub open spec fn spec_irq_c6(cpu: Context, pinout: Pinout, r: Pinout) -> Context {
    if !pinout.ctrl.rdy {
        cpu
    } else {
        ({ let s0 = cpu; let s1 = spec_after_first_cycle(s0, r.data); s1 })
    }
}

/// The requests the cycle `irq_c6` puts on the bus, oldest first.
pub open spec fn spec_irq_c6_requests(cpu: Context, pinout: Pinout) -> Seq<Pinout> {
    if !pinout.ctrl.rdy {
        Seq::empty()
    } else {
        seq![spec_read_request(Pinout { ctrl: Ctrl { sync: true, ..pinout.ctrl }, ..pinout }, cpu.pc.spec_value())]
    }
}

pub fn irq_c6<B: Bus>(cpu: &mut Context, bus: &mut B, pinout: Pinout) -> (r: Pinout)
    requires
        old(bus).ready(),
    ensures
        final(bus).ready(),
        final(bus).spec_clock() == old(bus).spec_clock(),
        *final(cpu) == spec_irq_c6(*old(cpu), pinout, r),
        !pinout.ctrl.rdy ==> r == pinout && *final(cpu) == *old(cpu) && *final(bus) == *old(bus),
        pinout.ctrl.rdy ==> ({ let s0 = *old(cpu); let s1 = spec_after_first_cycle(s0, r.data); *final(cpu) == s1 }),
        final(bus).spec_requests() == old(bus).spec_requests() + spec_irq_c6_requests(*old(cpu), pinout),
{
    let mut pinout = pinout;
    if pinout.ctrl.contains(Ctrl::RDY()) == false {
        return pinout;
    }
    pinout = first_cycle(cpu, bus, pinout);
    pinout
}

/// The cpu state after the cycle `nmi_c0` runs, `r` being the pinout it
/// returns.
pub open spec fn spec_nmi_c0(cpu: Context, pinout: Pinout, r: Pinout) -> Context {
    if !pinout.ctrl.rdy {
        cpu
    } else {
        ({ let s0 = cpu; let s1 = spec_after_read(s0, r.data); s1 })
    }
}

/// The requests the cycle `nmi_c0` puts on the bus, oldest first.
pub open spec fn spec_nmi_c0_requests(cpu: Context, pinout: Pinout) -> Seq<Pinout> {
    if !pinout.ctrl.rdy {
        Seq::empty()
    } else {
        seq![spec_read_request(Pinout { ctrl: Ctrl { sync: false, ..pinout.ctrl }, ..pinout }, cpu.pc.spec_value())]
    }
}

pub fn nmi_c0<B: Bus>(cpu: &mut Context, bus: &mut B, pinout: Pinout) -> (r: Pinout)
    requires
        old(bus).ready(),
    ensures
        final(bus).ready(),
        final(bus).spec_clock() == old(bus).spec_clock(),
        *final(cpu) == spec_nmi_c0(*old(cpu), pinout, r),
        !pinout.ctrl.rdy ==> r == pinout && *final(cpu) == *old(cpu) && *final(bus) == *old(bus),
        pinout.ctrl.rdy ==> ({ let s0 = *old(cpu); let s1 = spec_after_read(s0, r.data); *final(cpu) == s1 }),
        final(bus).spec_requests() == old(bus).spec_requests() + spec_nmi_c0_requests(*old(cpu), pinout),
{
    let mut pinout = pinout;
    if pinout.ctrl.contains(Ctrl::RDY()) == false {
        return pinout;
    }
    pinout = second_cycle(cpu, bus, pinout);
    pinout
}

/// The cpu state after the cycle `nmi_c1` runs, `r` being the pinout it
/// returns.
pub open spec fn spec_nmi_c1(cpu: Context, pinout: Pinout, r: Pinout) -> Context {
    ({ let s0 = cpu; let s1 = spec_after_write(s0); let s2 = Context { sp: s1.sp.wrapping_sub(1), ..s1 }; s2 })
}

/// The requests the cycle `nmi_c1` puts on the bus, oldest first.
pub open spec fn spec_nmi_c1_requests(cpu: Context, pinout: Pinout) -> Seq<Pinout> {
    seq![spec_write_request(pinout, spec_address(0x01, cpu.sp), cpu.pc.pch)]
}

pub fn nmi_c1<B: Bus>(cpu: &mut Context, bus: &mut B, pinout: Pinout) -> (r: Pinout)
    requires
        old(bus).ready(),
    ensures
        final(bus).ready(),
        final(bus).spec_clock() == old(bus).spec_clock(),
        *final(cpu) == spec_nmi_c1(*old(cpu), pinout, r),
        ({ let s0 = *old(cpu); let s1 = spec_after_write(s0); let s2 = Context { sp: s1.sp.wrapping_sub(1), ..s1 }; *final(cpu) == s2 }),
        final(bus).spec_requests() == old(bus).spec_requests() + spec_nmi_c1_requests(*old(cpu), pinout),
{
    let mut pinout = pinout;
    let addr = to_address(0x01, cpu.sp);
    let data = cpu.pc.pch;
    pinout = write_cycle(cpu, bus, pinout, addr, data);
    cpu.sp = cpu.sp.wrapping_sub(1);
    pinout
}

/// The cpu state after the cycle `nmi_c2` runs, `r` being the pinout it
/// returns.
pub open spec fn spec_nmi_c2(cpu: Context, pinout: Pinout, r: Pinout) -> Context {
    ({ let s0 = cpu; let s1 = spec_after_write(s0); let s2 = Context { sp: s1.sp.wrapping_sub(1), ..s1 }; s2 })
}

/// The requests the cycle `nmi_c2` puts on the bus, oldest first.
pub open spec fn spec_nmi_c2_requests(cpu: Context, pinout: Pinout) -> Seq<Pinout> {
    seq![spec_write_request(pinout, spec_address(0x01, cpu.sp), cpu.pc.pcl)]
}

pub fn nmi_c2<B: Bus>(cpu: &mut Context, bus: &mut B, pinout: Pinout) -> (r: Pinout)
    requires
        old(bus).ready(),
    ensures
        final(bus).ready(),
        final(bus).spec_clock() == old(bus).spec_clock(),
        *final(cpu) == spec_nmi_c2(*old(cpu), pinout, r),
        ({ let s0 = *old(cpu); let s1 = spec_after_write(s0); let s2 = Context { sp: s1.sp.wrapping_sub(1), ..s1 }; *final(cpu) == s2 }),
        final(bus).spec_requests() == old(bus).spec_requests() + spec_nmi_c2_requests(*old(cpu), pinout),
{
    let mut pinout = pinout;
    let addr = to_address(0x01, cpu.sp);
    let data = cpu.pc.pcl;
    pinout = write_cycle(cpu, bus, pinout, addr, data);
    cpu.sp = cpu.sp.wrapping_sub(1);
    pinout
}

/// The cpu state after the cycle `nmi_c3` runs, `r` being the pinout it
/// returns.
pub open spec fn spec_nmi_c3(cpu: Context, pinout: Pinout, r: Pinout) -> Context {
    ({ let s0 = cpu; let s1 = spec_after_write(s0); let s2 = Context { p: StatusRegister { interrupt_disable: true, ..s1.p }, ..s1 }; let s3 = Context { sp: s2.sp.wrapping_sub(1), ..s2 }; s3 })
}

/// The requests the cycle `nmi_c3` puts on the bus, oldest first.
pub open spec fn spec_nmi_c3_requests(cpu: Context, pinout: Pinout) -> Seq<Pinout> {
    seq![spec_write_request(pinout, spec_address(0x01, cpu.sp), (cpu.p.spec_bits() | 0x20))]
}

pub fn nmi_c3<B: Bus>(cpu: &mut Context, bus: &mut B, pinout: Pinout) -> (r: Pinout)
    requires
        old(bus).ready(),
    ensures
        final(bus).ready(),
        final(bus).spec_clock() == old(bus).spec_clock(),
        *final(cpu) == spec_nmi_c3(*old(cpu), pinout, r),
        ({ let s0 = *old(cpu); let s1 = spec_after_write(s0); let s2 = Context { p: StatusRegister { interrupt_disable: true, ..s1.p }, ..s1 }; let s3 = Context { sp: s2.sp.wrapping_sub(1), ..s2 }; *final(cpu) == s3 }),
        final(bus).spec_requests() == old(bus).spec_requests() + spec_nmi_c3_requests(*old(cpu), pinout),
{
    let mut pinout = pinout;
    let addr = to_address(0x01, cpu.sp);
    let data = cpu.p.push_without_b();
    pinout = write_cycle(cpu, bus, pinout, addr, data);
    cpu.p.interrupt_disable = true;
    cpu.sp = cpu.sp.wrapping_sub(1);
    pinout
}

/// The cpu state after the cycle `nmi_c4` runs, `r` being the pinout it
/// returns.
pub open spec fn spec_nmi_c4(cpu: Context, pinout: Pinout, r: Pinout) -> Context {
    if !pinout.ctrl.rdy {
        cpu
    } else {
        ({ let s0 = cpu; let s1 = spec_after_read(s0, r.data); let s2 = Context { pc: ProgramCounter { pcl: s1.ops.dl, ..s1.pc }, ..s1 }; let s3 = Context { p: StatusRegister { interrupt_disable: true, ..s2.p }, ..s2 }; s3 })
    }
}

/// The requests the cycle `nmi_c4` puts on the bus, oldest first.
pub open spec fn spec_nmi_c4_requests(cpu: Context, pinout: Pinout) -> Seq<Pinout> {
    if !pinout.ctrl.rdy {
        Seq::empty()
    } else {
        seq![spec_read_request(pinout, spec_address(0xFF, cpu.int_vec_low))]
    }
}

pub fn nmi_c4<B: Bus>(cpu: &mut Context, bus: &mut B, pinout: Pinout) -> (r: Pinout)
    requires
        old(bus).ready(),
    ensures
        final(bus).ready(),
        final(bus).spec_clock() == old(bus).spec_clock(),
        *final(cpu) == spec_nmi_c4(*old(cpu), pinout, r),
        !pinout.ctrl.rdy ==> r == pinout && *final(cpu) == *old(cpu) && *final(bus) == *old(bus),
        pinout.ctrl.rdy ==> ({ let s0 = *old(cpu); let s1 = spec_after_read(s0, r.data); let s2 = Context { pc: ProgramCounter { pcl: s1.ops.dl, ..s1.pc }, ..s1 }; let s3 = Context { p: StatusRegister { interrupt_disable: true, ..s2.p }, ..s2 }; *final(cpu) == s3 }),
        final(bus).spec_requests() == old(bus).spec_requests() + spec_nmi_c4_requests(*old(cpu), pinout),
{
    let mut pinout = pinout;
    if pinout.ctrl.contains(Ctrl::RDY()) == false {
        return pinout;
    }
    let addr = to_address(0xFF, cpu.int_vec_low);
    pinout = read_cycle(cpu, bus, pinout, addr);
    cpu.pc.pcl = cpu.ops.dl;
    cpu.p.interrupt_disable = true;
    pinout
}

/// The cpu state after the cycle `nmi_c5` runs, `r` being the pinout it
/// returns.
pub open spec fn spec_nmi_c5(cpu: Context, pinout: Pinout, r: Pinout) -> Context {
    if !pinout.ctrl.rdy {
        cpu
    } else {
        ({ let s0 = cpu; let s1 = spec_after_read(s0, r.data); let s2 = Context { pc: ProgramCounter { pch: s1.ops.dl, ..s1.pc }, ..s1 }; let s3 = Context { int_vec_low: IRQ_BRK_VEC_LOW, ..s2 }; s3 })
    }
}

/// The requests the cycle `nmi_c5` puts on the bus, oldest first.
pub open spec fn spec_nmi_c5_requests(cpu: Context, pinout: Pinout) -> Seq<Pinout> {
    if !pinout.ctrl.rdy {
        Seq::empty()
    } else {
        seq![spec_read_request(pinout, spec_address(0xFF, cpu.int_vec_low.wrapping_add(1)))]
    }
}

pub fn nmi_c5<B: Bus>(cpu: &mut Context, bus: &mut B, pinout: Pinout) -> (r: Pinout)
    requires
        old(bus).ready(),
    ensures
        final(bus).ready(),
        final(bus).spec_clock() == old(bus).spec_clock(),
        *final(cpu) == spec_nmi_c5(*old(cpu), pinout, r),
        !pinout.ctrl.rdy ==> r == pinout && *final(cpu) == *old(cpu) && *final(bus) == *old(bus),
        pinout.ctrl.rdy ==> ({ let s0 = *old(cpu); let s1 = spec_after_read(s0, r.data); let s2 = Context { pc: ProgramCounter { pch: s1.ops.dl, ..s1.pc }, ..s1 }; let s3 = Context { int_vec_low: IRQ_BRK_VEC_LOW, ..s2 }; *final(cpu) == s3 }),
        final(bus).spec_requests() == old(bus).spec_requests() + spec_nmi_c5_requests(*old(cpu), pinout),
{
    let mut pinout = pinout;
    if pinout.ctrl.contains(Ctrl::RDY()) == false {
        return pinout;
    }
    let addr = to_address(0xFF, cpu.int_vec_low.wrapping_add(1));
    pinout = read_cycle(cpu, bus, pinout, addr);
    cpu.pc.pch = cpu.ops.dl;
    cpu.int_vec_low = IRQ_BRK_VEC_LOW;
    pinout
}

/// The cpu state after the cycle `nmi_c6` runs, `r` being the pinout it
/// returns.
pub open spec fn spec_nmi_c6(cpu: Context, pinout: Pinout, r: Pinout) -> Context {
    if !pinout.ctrl.rdy {
        cpu
    } else {
        ({ let s0 = cpu; let s1 = spec_after_first_cycle(s0, r.data); s1 })
    }
}

/// The requests the cycle `nmi_c6` puts on the bus, oldest first.
pub open spec fn spec_nmi_c6_requests(cpu: Context, pinout: Pinout) -> Seq<Pinout> {
    if !pinout.ctrl.rdy {
        Seq::empty()
    } else {
        seq![spec_read_request(Pinout { ctrl: Ctrl { sync: true, ..pinout.ctrl }, ..pinout }, cpu.pc.spec_value())]
    }
}

pub fn nmi_c6<B: Bus>(cpu: &mut Context, bus: &mut B, pinout: Pinout) -> (r: Pinout)
    requires
        old(bus).ready(),
    ensures
        final(bus).ready(),
        final(bus).spec_clock() == old(bus).spec_clock(),
        *final(cpu) == spec_nmi_c6(*old(cpu), pinout, r),
        !pinout.ctrl.rdy ==> r == pinout && *final(cpu) == *old(cpu) && *final(bus) == *old(bus),
        pinout.ctrl.rdy ==> ({ let s0 = *old(cpu); let s1 = spec_after_first_cycle(s0, r.data); *final(cpu) == s1 }),
        final(bus).spec_requests() == old(bus).spec_requests() + spec_nmi_c6_requests(*old(cpu), pinout),
{
    let mut pinout = pinout;
    if pinout.ctrl.contains(Ctrl::RDY()) == false {
        return pinout;
    }
    pinout = first_cycle(cpu, bus, pinout);
    pinout
}

/// The cpu state after the cycle `single_byte_c0` runs, `r` being the pinout it
/// returns.
pub open spec fn spec_single_byte_c0(cpu: Context, pinout: Pinout, r: Pinout) -> Context {
    if !pinout.ctrl.rdy {
        cpu
    } else {
        ({ let s0 = cpu; let s1 = spec_after_read(s0, r.data); s1 })
    }
}

/// The requests the cycle `single_byte_c0` puts on the bus, oldest first.
pub open spec fn spec_single_byte_c0_requests(cpu: Context, pinout: Pinout) -> Seq<Pinout> {
    if !pinout.ctrl.rdy {
        Seq::empty()
    } else {
        seq![spec_read_request(Pinout { ctrl: Ctrl { sync: false, ..pinout.ctrl }, ..pinout }, cpu.pc.spec_value())]
    }
}

pub fn single_byte_c0<B: Bus>(cpu: &mut Context, bus: &mut B, pinout: Pinout) -> (r: Pinout)
    requires
        old(bus).ready(),
    ensures
        final(bus).ready(),
        final(bus).spec_clock() == old(bus).spec_clock(),
        *final(cpu) == spec_single_byte_c0(*old(cpu), pinout, r),
        !pinout.ctrl.rdy ==> r == pinout && *final(cpu) == *old(cpu) && *final(bus) == *old(bus),
        pinout.ctrl.rdy ==> ({ let s0 = *old(cpu); let s1 = spec_after_read(s0, r.data); *final(cpu) == s1 }),
        final(bus).spec_requests() == old(bus).spec_requests() + spec_single_byte_c0_requests(*old(cpu), pinout),
{
    let mut pinout = pinout;
    if pinout.ctrl.contains(Ctrl::RDY()) == false {
        return pinout;
    }
    pinout = second_cycle(cpu, bus, pinout);
    pinout
}

/// The cpu state after the cycle `immediate_read_c0` runs, `r` being the pinout it
/// returns.
pub open spec fn spec_immediate_read_c0(cpu: Context, pinout: Pinout, r: Pinout) -> Context {
    if !pinout.ctrl.rdy {
        cpu
    } else {
        ({ let s0 = cpu; let s1 = spec_after_read(s0, r.data); let s2 = Context { pc: s1.pc.spec_incremented(), ..s1 }; s2 })
    }
}

/// The requests the cycle `immediate_read_c0` puts on the bus, oldest first.
pub open spec fn spec_immediate_read_c0_requests(cpu: Context, pinout: Pinout) -> Seq<Pinout> {
    if !pinout.ctrl.rdy {
        Seq::empty()
    } else {
        seq![spec_read_request(Pinout { ctrl: Ctrl { sync: false, ..pinout.ctrl }, ..pinout }, cpu.pc.spec_value())]
    }
}

pub fn immediate_read_c0<B: Bus>(cpu: &mut Context, bus: &mut B, pinout: Pinout) -> (r: Pinout)
    requires
        old(bus).ready(),
    ensures
        final(bus).ready(),
        final(bus).spec_clock() == old(bus).spec_clock(),
        *final(cpu) == spec_immediate_read_c0(*old(cpu), pinout, r),
        !pinout.ctrl.rdy ==> r == pinout && *final(cpu) == *old(cpu) && *final(bus) == *old(bus),
        pinout.ctrl.rdy ==> ({ let s0 = *old(cpu); let s1 = spec_after_read(s0, r.data); let s2 = Context { pc: s1.pc.spec_incremented(), ..s1 }; *final(cpu) == s2 }),
        final(bus).spec_requests() == old(bus).spec_requests() + spec_immediate_read_c0_requests(*old(cpu), pinout),
{
    let mut pinout = pinout;
    if pinout.ctrl.contains(Ctrl::RDY()) == false {
        return pinout;
    }
    pinout = second_cycle(cpu, bus, pinout);
    cpu.pc.increment();
    pinout
}

/// The cpu state after the cycle `immediate_read_c1` runs, `r` being the pinout it
/// returns.
pub open spec fn spec_immediate_read_c1<T: Instruction>(cpu: Context, pinout: Pinout, r: Pinout) -> Context {
    if !pinout.ctrl.rdy {
        cpu
    } else {
        ({ let s0 = cpu; let s1 = T::spec_execute(s0); let s2 = spec_poll(s1, pinout); if s2.ir.tm > 0xF { s2 } else { let s3 = spec_after_first_cycle(s2, r.data); s3 } })
    }
}

/// The requests the cycle `immediate_read_c1` puts on the bus, oldest first.
pub open spec fn spec_immediate_read_c1_requests<T: Instruction>(cpu: Context, pinout: Pinout) -> Seq<Pinout> {
    if !pinout.ctrl.rdy {
        Seq::empty()
    } else {
        let s1 = T::spec_execute(cpu);
        let s2 = spec_poll(s1, pinout);
        if s2.ir.tm > 0xF { Seq::empty() } else {
            seq![spec_read_request(Pinout { ctrl: Ctrl { sync: true, ..pinout.ctrl }, ..pinout }, s2.pc.spec_value())]
        }
    }
}

pub fn immediate_read_c1<B: Bus, T: Instruction>(cpu: &mut Context, bus: &mut B, pinout: Pinout) -> (r: Pinout)
    requires
        old(bus).ready(),
    ensures
        final(bus).ready(),
        final(bus).spec_clock() == old(bus).spec_clock(),
        *final(cpu) == spec_immediate_read_c1::<T>(*old(cpu), pinout, r),
        !pinout.ctrl.rdy ==> r == pinout && *final(cpu) == *old(cpu) && *final(bus) == *old(bus),
        pinout.ctrl.rdy ==> ({ let s0 = *old(cpu); let s1 = T::spec_execute(s0); let s2 = spec_poll(s1, pinout); if s2.ir.tm > 0xF { *final(cpu) == s2 && r == pinout } else { let s3 = spec_after_first_cycle(s2, r.data); *final(cpu) == s3 } }),
        final(bus).spec_requests() == old(bus).spec_requests() + spec_immediate_read_c1_requests::<T>(*old(cpu), pinout),
{
    let mut pinout = pinout;
    if pinout.ctrl.contains(Ctrl::RDY()) == false {
        return pinout;
    }
    T::execute(cpu);
    poll_interrupts(cpu, pinout);
    if cpu.ir.tm > 0xF {
        return pinout;
    }
    pinout = first_cycle(cpu, bus, pinout);
    pinout
}

/// The cpu state after the cycle `zeropage_read_c0` runs, `r` being the pinout it
/// returns.
pub open spec fn spec_zeropage_read_c0(cpu: Context, pinout: Pinout, r: Pinout) -> Context {
    if !pinout.ctrl.rdy {
        cpu
    } else {
        ({ let s0 = cpu; let s1 = spec_after_read(s0, r.data); let s2 = Context { ops: OpState { adl: s1.ops.dl, ..s1.ops }, ..s1 }; s2 })
    }
}

/// The requests the cycle `zeropage_read_c0` puts on the bus, oldest first.
pub open spec fn spec_zeropage_read_c0_requests(cpu: Context, pinout: Pinout) -> Seq<Pinout> {
    if !pinout.ctrl.rdy {
        Seq::empty()
    } else {
        seq![spec_read_request(Pinout { ctrl: Ctrl { sync: false, ..pinout.ctrl }, ..pinout }, cpu.pc.spec_value())]
    }
}

pub fn zeropage_read_c0<B: Bus>(cpu: &mut Context, bus: &mut B, pinout: Pinout) -> (r: Pinout)
    requires
        old(bus).ready(),
    ensures
        final(bus).ready(),
        final(bus).spec_clock() == old(bus).spec_clock(),
        *final(cpu) == spec_zeropage_read_c0(*old(cpu), pinout, r),
        !pinout.ctrl.rdy ==> r == pinout && *final(cpu) == *old(cpu) && *final(bus) == *old(bus),
        pinout.ctrl.rdy ==> ({ let s0 = *old(cpu); let s1 = spec_after_read(s0, r.data); let s2 = Context { ops: OpState { adl: s1.ops.dl, ..s1.ops }, ..s1 }; *final(cpu) == s2 }),
        final(bus).spec_requests() == old(bus).spec_requests() + spec_zeropage_read_c0_requests(*old(cpu), pinout),
{
    let mut pinout = pinout;
    if pinout.ctrl.contains(Ctrl::RDY()) == false {
        return pinout;
    }
    pinout = second_cycle(cpu, bus, pinout);
    cpu.ops.adl = cpu.ops.dl;
    pinout
}

/// The cpu state after the cycle `zeropage_read_c1` runs, `r` being the pinout it
/// returns.
pub open spec fn spec_zeropage_read_c1(cpu: Context, pinout: Pinout, r: Pinout) -> Context {
    if !pinout.ctrl.rdy {
        cpu
    } else {
        ({ let s0 = cpu; let s1 = spec_after_read(s0, r.data); let s2 = Context { pc: s1.pc.spec_incremented(), ..s1 }; s2 })
    }
}

/// The requests the cycle `zeropage_read_c1` puts on the bus, oldest first.
pub open spec fn spec_zeropage_read_c1_requests(cpu: Context, pinout: Pinout) -> Seq<Pinout> {
    if !pinout.ctrl.rdy {
        Seq::empty()
    } else {
        seq![spec_read_request(pinout, spec_address(0, cpu.ops.adl))]
    }
}

pub fn zeropage_read_c1<B: Bus>(cpu: &mut Context, bus: &mut B, pinout: Pinout) -> (r: Pinout)
    requires
        old(bus).ready(),
    ensures
        final(bus).ready(),
        final(bus).spec_clock() == old(bus).spec_clock(),
        *final(cpu) == spec_zeropage_read_c1(*old(cpu), pinout, r),
        !pinout.ctrl.rdy ==> r == pinout && *final(cpu) == *old(cpu) && *final(bus) == *old(bus),
        pinout.ctrl.rdy ==> ({ let s0 = *old(cpu); let s1 = spec_after_read(s0, r.data); let s2 = Context { pc: s1.pc.spec_incremented(), ..s1 }; *final(cpu) == s2 }),
        final(bus).spec_requests() == old(bus).spec_requests() + spec_zeropage_read_c1_requests(*old(cpu), pinout),
{
    let mut pinout = pinout;
    if pinout.ctrl.contains(Ctrl::RDY()) == false {
        return pinout;
    }
    let addr = to_address(0, cpu.ops.adl);
    pinout = read_cycle(cpu, bus, pinout, addr);
    cpu.pc.increment();
    pinout
}

/// The cpu state after the cycle `zeropage_read_c2` runs, `r` being the pinout it
/// returns.
pub open spec fn spec_zeropage_read_c2<T: Instruction>(cpu: Context, pinout: Pinout, r: Pinout) -> Context {
    if !pinout.ctrl.rdy {
        cpu
    } else {
        ({ let s0 = cpu; let s1 = T::spec_execute(s0); let s2 = spec_poll(s1, pinout); if s2.ir.tm > 0xF { s2 } else { let s3 = spec_after_first_cycle(s2, r.data); s3 } })
    }
}

/// The requests the cycle `zeropage_read_c2` puts on the bus, oldest first.
pub open spec fn spec_zeropage_read_c2_requests<T: Instruction>(cpu: Context, pinout: Pinout) -> Seq<Pinout> {
    if !pinout.ctrl.rdy {
        Seq::empty()
    } else {
        let s1 = T::spec_execute(cpu);
        let s2 = spec_poll(s1, pinout);
        if s2.ir.tm > 0xF { Seq::empty() } else {
            seq![spec_read_request(Pinout { ctrl: Ctrl { sync: true, ..pinout.ctrl }, ..pinout }, s2.pc.spec_value())]
        }
    }
}

pub fn zeropage_read_c2<B: Bus, T: Instruction>(cpu: &mut Context, bus: &mut B, pinout: Pinout) -> (r: Pinout)
    requires
        old(bus).ready(),
    ensures
        final(bus).ready(),
        final(bus).spec_clock() == old(bus).spec_clock(),
        *final(cpu) == spec_zeropage_read_c2::<T>(*old(cpu), pinout, r),
        !pinout.ctrl.rdy ==> r == pinout && *final(cpu) == *old(cpu) && *final(bus) == *old(bus),
        pinout.ctrl.rdy ==> ({ let s0 = *old(cpu); let s1 = T::spec_execute(s0); let s2 = spec_poll(s1, pinout); if s2.ir.tm > 0xF { *final(cpu) == s2 && r == pinout } else { let s3 = spec_after_first_cycle(s2, r.data); *final(cpu) == s3 } }),
        final(bus).spec_requests() == old(bus).spec_requests() + spec_zeropage_read_c2_requests::<T>(*old(cpu), pinout),
{
    let mut pinout = pinout;
    if pinout.ctrl.contains(Ctrl::RDY()) == false {
        return pinout;
    }
    T::execute(cpu);
    poll_interrupts(cpu, pinout);
    if cpu.ir.tm > 0xF {
        return pinout;
    }
    pinout = first_cycle(cpu, bus, pinout);
    pinout
}

/// The cpu state after the cycle `absolute_read_c0` runs, `r` being the pinout it
/// returns.
pub open spec fn spec_absolute_read_c0(cpu: Context, pinout: Pinout, r: Pinout) -> Context {
    if !pinout.ctrl.rdy {
        cpu
    } else {
        ({ let s0 = cpu; let s1 = spec_after_read(s0, r.data); let s2 = Context { ops: OpState { adl: s1.ops.dl, ..s1.ops }, ..s1 }; let s3 = Context { pc: s2.pc.spec_incremented(), ..s2 }; s3 })
    }
}

/// The requests the cycle `absolute_read_c0` puts on the bus, oldest first.
pub open spec fn spec_absolute_read_c0_requests(cpu: Context, pinout: Pinout) -> Seq<Pinout> {
    if !pinout.ctrl.rdy {
        Seq::empty()
    } else {
        seq![spec_read_request(Pinout { ctrl: Ctrl { sync: false, ..pinout.ctrl }, ..pinout }, cpu.pc.spec_value())]
    }
}

pub fn absolute_read_c0<B: Bus>(cpu: &mut Context, bus: &mut B, pinout: Pinout) -> (r: Pinout)
    requires
        old(bus).ready(),
    ensures
        final(bus).ready(),
        final(bus).spec_clock() == old(bus).spec_clock(),
        *final(cpu) == spec_absolute_read_c0(*old(cpu), pinout, r),
        !pinout.ctrl.rdy ==> r == pinout && *final(cpu) == *old(cpu) && *final(bus) == *old(bus),
        pinout.ctrl.rdy ==> ({ let s0 = *old(cpu); let s1 = spec_after_read(s0, r.data); let s2 = Context { ops: OpState { adl: s1.ops.dl, ..s1.ops }, ..s1 }; let s3 = Context { pc: s2.pc.spec_incremented(), ..s2 }; *final(cpu) == s3 }),
        final(bus).spec_requests() == old(bus).spec_requests() + spec_absolute_read_c0_requests(*old(cpu), pinout),
{
    let mut pinout = pinout;
    if pinout.ctrl.contains(Ctrl::RDY()) == false {
        return pinout;
    }
    pinout = second_cycle(cpu, bus, pinout);
    cpu.ops.adl = cpu.ops.dl;
    cpu.pc.increment();
    pinout
}

/// The cpu state after the cycle `absolute_read_c1` runs, `r` being the pinout it
/// returns.
pub open spec fn spec_absolute_read_c1(cpu: Context, pinout: Pinout, r: Pinout) -> Context {
    if !pinout.ctrl.rdy {
        cpu
    } else {
        ({ let s0 = cpu; let s1 = spec_after_read(s0, r.data); let s2 = Context { ops: OpState { adh: s1.ops.dl, ..s1.ops }, ..s1 }; s2 })
    }
}

/// The requests the cycle `absolute_read_c1` puts on the bus, oldest first.
pub open spec fn spec_absolute_read_c1_requests(cpu: Context, pinout: Pinout) -> Seq<Pinout> {
    if !pinout.ctrl.rdy {
        Seq::empty()
    } else {
        seq![spec_read_request(pinout, cpu.pc.spec_value())]
    }
}

pub fn absolute_read_c1<B: Bus>(cpu: &mut Context, bus: &mut B, pinout: Pinout) -> (r: Pinout)
    requires
        old(bus).ready(),
    ensures
        final(bus).ready(),
        final(bus).spec_clock() == old(bus).spec_clock(),
        *final(cpu) == spec_absolute_read_c1(*old(cpu), pinout, r),
        !pinout.ctrl.rdy ==> r == pinout && *final(cpu) == *old(cpu) && *final(bus) == *old(bus),
        pinout.ctrl.rdy ==> ({ let s0 = *old(cpu); let s1 = spec_after_read(s0, r.data); let s2 = Context { ops: OpState { adh: s1.ops.dl, ..s1.ops }, ..s1 }; *final(cpu) == s2 }),
        final(bus).spec_requests() == old(bus).spec_requests() + spec_absolute_read_c1_requests(*old(cpu), pinout),
{
    let mut pinout = pinout;
    if pinout.ctrl.contains(Ctrl::RDY()) == false {
        return pinout;
    }
    let addr = cpu.pc.value();
    pinout = read_cycle(cpu, bus, pinout, addr);
    cpu.ops.adh = cpu.ops.dl;
    pinout
}

/// The cpu state after the cycle `absolute_read_c2` runs, `r` being the pinout it
/// returns.
pub open spec fn spec_absolute_read_c2(cpu: Context, pinout: Pinout, r: Pinout) -> Context {
    if !pinout.ctrl.rdy {
        cpu
    } else {
        ({ let s0 = cpu; let s1 = spec_after_read(s0, r.data); let s2 = Context { pc: s1.pc.spec_incremented(), ..s1 }; s2 })
    }
}

/// The requests the cycle `absolute_read_c2` puts on the bus, oldest first.
pub open spec fn spec_absolute_read_c2_requests(cpu: Context, pinout: Pinout) -> Seq<Pinout> {
    if !pinout.ctrl.rdy {
        Seq::empty()
    } else {
        seq![spec_read_request(pinout, spec_address(cpu.ops.adh, cpu.ops.adl))]
    }
}

pub fn absolute_read_c2<B: Bus>(cpu: &mut Context, bus: &mut B, pinout: Pinout) -> (r: Pinout)
    requires
        old(bus).ready(),
    ensures
        final(bus).ready(),
        final(bus).spec_clock() == old(bus).spec_clock(),
        *final(cpu) == spec_absolute_read_c2(*old(cpu), pinout, r),
        !pinout.ctrl.rdy ==> r == pinout && *final(cpu) == *old(cpu) && *final(bus) == *old(bus),
        pinout.ctrl.rdy ==> ({ let s0 = *old(cpu); let s1 = spec_after_read(s0, r.data); let s2 = Context { pc: s1.pc.spec_incremented(), ..s1 }; *final(cpu) == s2 }),
        final(bus).spec_requests() == old(bus).spec_requests() + spec_absolute_read_c2_requests(*old(cpu), pinout),
{
    let mut pinout = pinout;
    if pinout.ctrl.contains(Ctrl::RDY()) == false {
        return pinout;
    }
    let addr = to_address(cpu.ops.adh, cpu.ops.adl);
    pinout = read_cycle(cpu, bus, pinout, addr);
    cpu.pc.increment();
    pinout
}

/// The cpu state after the cycle `absolute_read_c3` runs, `r` being the pinout it
/// returns.
pub open spec fn spec_absolute_read_c3<T: Instruction>(cpu: Context, pinout: Pinout, r: Pinout) -> Context {
    if !pinout.ctrl.rdy {
        cpu
    } else {
        ({ let s0 = cpu; let s1 = T::spec_execute(s0); let s2 = spec_poll(s1, pinout); if s2.ir.tm > 0xF { s2 } else { let s3 = spec_after_first_cycle(s2, r.data); s3 } })
    }
}

/// The requests the cycle `absolute_read_c3` puts on the bus, oldest first.
pub open spec fn spec_absolute_read_c3_requests<T: Instruction>(cpu: Context, pinout: Pinout) -> Seq<Pinout> {
    if !pinout.ctrl.rdy {
        Seq::empty()
    } else {
        let s1 = T::spec_execute(cpu);
        let s2 = spec_poll(s1, pinout);
        if s2.ir.tm > 0xF { Seq::empty() } else {
            seq![spec_read_request(Pinout { ctrl: Ctrl { sync: true, ..pinout.ctrl }, ..pinout }, s2.pc.spec_value())]
        }
    }
}

pub fn absolute_read_c3<B: Bus, T: Instruction>(cpu: &mut Context, bus: &mut B, pinout: Pinout) -> (r: Pinout)
    requires
        old(bus).ready(),
    ensures
        final(bus).ready(),
        final(bus).spec_clock() == old(bus).spec_clock(),
        *final(cpu) == spec_absolute_read_c3::<T>(*old(cpu), pinout, r),
        !pinout.ctrl.rdy ==> r == pinout && *final(cpu) == *old(cpu) && *final(bus) == *old(bus),
        pinout.ctrl.rdy ==> ({ let s0 = *old(cpu); let s1 = T::spec_execute(s0); let s2 = spec_poll(s1, pinout); if s2.ir.tm > 0xF { *final(cpu) == s2 && r == pinout } else { let s3 = spec_after_first_cycle(s2, r.data); *final(cpu) == s3 } }),
        final(bus).spec_requests() == old(bus).spec_requests() + spec_absolute_read_c3_requests::<T>(*old(cpu), pinout),
{
    let mut pinout = pinout;
    if pinout.ctrl.contains(Ctrl::RDY()) == false {
        return pinout;
    }
    T::execute(cpu);
    poll_interrupts(cpu, pinout);
    if cpu.ir.tm > 0xF {
        return pinout;
    }
    pinout = first_cycle(cpu, bus, pinout);
    pinout
}

/// The cpu state after the cycle `indirect_x_read_c0` runs, `r` being the pinout it
/// returns.
pub open spec fn spec_indirect_x_read_c0(cpu: Context, pinout: Pinout, r: Pinout) -> Context {
    if !pinout.ctrl.rdy {
        cpu
    } else {
        ({ let s0 = cpu; let s1 = spec_after_read(s0, r.data); let s2 = Context { ops: OpState { bal: s1.ops.dl, ..s1.ops }, ..s1 }; let s3 = Context { pc: s2.pc.spec_incremented(), ..s2 }; s3 })
    }
}

/// The requests the cycle `indirect_x_read_c0` puts on the bus, oldest first.
pub open spec fn spec_indirect_x_read_c0_requests(cpu: Context, pinout: Pinout) -> Seq<Pinout> {
    if !pinout.ctrl.rdy {
        Seq::empty()
    } else {
        seq![spec_read_request(Pinout { ctrl: Ctrl { sync: false, ..pinout.ctrl }, ..pinout }, cpu.pc.spec_value())]
    }
}

pub fn indirect_x_read_c0<B: Bus>(cpu: &mut Context, bus: &mut B, pinout: Pinout) -> (r: Pinout)
    requires
        old(bus).ready(),
    ensures
        final(bus).ready(),
        final(bus).spec_clock() == old(bus).spec_clock(),
        *final(cpu) == spec_indirect_x_read_c0(*old(cpu), pinout, r),
        !pinout.ctrl.rdy ==> r == pinout && *final(cpu) == *old(cpu) && *final(bus) == *old(bus),
        pinout.ctrl.rdy ==> ({ let s0 = *old(cpu); let s1 = spec_after_read(s0, r.data); let s2 = Context { ops: OpState { bal: s1.ops.dl, ..s1.ops }, ..s1 }; let s3 = Context { pc: s2.pc.spec_incremented(), ..s2 }; *final(cpu) == s3 }),
        final(bus).spec_requests() == old(bus).spec_requests() + spec_indirect_x_read_c0_requests(*old(cpu), pinout),
{
    let mut pinout = pinout;
    if pinout.ctrl.contains(Ctrl::RDY()) == false {
        return pinout;
    }
    pinout = second_cycle(cpu, bus, pinout);
    cpu.ops.bal = cpu.ops.dl;
    cpu.pc.increment();
    pinout
}

/// The cpu state after the cycle `indirect_x_read_c1` runs, `r` being the pinout it
/// returns.
pub open spec fn spec_indirect_x_read_c1(cpu: Context, pinout: Pinout, r: Pinout) -> Context {
    if !pinout.ctrl.rdy {
        cpu
    } else {
        ({ let s0 = cpu; let s1 = spec_after_read(s0, r.data); s1 })
    }
}

/// The requests the cycle `indirect_x_read_c1` puts on the bus, oldest first.
pub open spec fn spec_indirect_x_read_c1_requests(cpu: Context, pinout: Pinout) -> Seq<Pinout> {
    if !pinout.ctrl.rdy {
        Seq::empty()
    } else {
        seq![spec_read_request(pinout, spec_address(0, cpu.ops.bal))]
    }
}

pub fn indirect_x_read_c1<B: Bus>(cpu: &mut Context, bus: &mut B, pinout: Pinout) -> (r: Pinout)
    requires
        old(bus).ready(),
    ensures
        final(bus).ready(),
        final(bus).spec_clock() == old(bus).spec_clock(),
        *final(cpu) == spec_indirect_x_read_c1(*old(cpu), pinout, r),
        !pinout.ctrl.rdy ==> r == pinout && *final(cpu) == *old(cpu) && *final(bus) == *old(bus),
        pinout.ctrl.rdy ==> ({ let s0 = *old(cpu); let s1 = spec_after_read(s0, r.data); *final(cpu) == s1 }),
        final(bus).spec_requests() == old(bus).spec_requests() + spec_indirect_x_read_c1_requests(*old(cpu), pinout),
{
    let mut pinout = pinout;
    if pinout.ctrl.contains(Ctrl::RDY()) == false {
        return pinout;
    }
    let addr = to_address(0, cpu.ops.bal);
    pinout = read_cycle(cpu, bus, pinout, addr);
    pinout
}

/// The cpu state after the cycle `indirect_x_read_c2` runs, `r` being the pinout it
/// returns.
pub open spec fn spec_indirect_x_read_c2(cpu: Context, pinout: Pinout, r: Pinout) -> Context {
    if !pinout.ctrl.rdy {
        cpu
    } else {
        ({ let s0 = cpu; let s1 = spec_after_read(s0, r.data); let s2 = Context { ops: OpState { adl: s1.ops.dl, ..s1.ops }, ..s1 }; s2 })
    }
}

/// The requests the cycle `indirect_x_read_c2` puts on the bus, oldest first.
pub open spec fn spec_indirect_x_read_c2_requests(cpu: Context, pinout: Pinout) -> Seq<Pinout> {
    if !pinout.ctrl.rdy {
        Seq::empty()
    } else {
        seq![spec_read_request(pinout, spec_address(0, cpu.ops.bal.wrapping_add(cpu.x)))]
    }
}

pub fn indirect_x_read_c2<B: Bus>(cpu: &mut Context, bus: &mut B, pinout: Pinout) -> (r: Pinout)
    requires
        old(bus).ready(),
    ensures
        final(bus).ready(),
        final(bus).spec_clock() == old(bus).spec_clock(),
        *final(cpu) == spec_indirect_x_read_c2(*old(cpu), pinout, r),
        !pinout.ctrl.rdy ==> r == pinout && *final(cpu) == *old(cpu) && *final(bus) == *old(bus),
        pinout.ctrl.rdy ==> ({ let s0 = *old(cpu); let s1 = spec_after_read(s0, r.data); let s2 = Context { ops: OpState { adl: s1.ops.dl, ..s1.ops }, ..s1 }; *final(cpu) == s2 }),
        final(bus).spec_requests() == old(bus).spec_requests() + spec_indirect_x_read_c2_requests(*old(cpu), pinout),
{
    let mut pinout = pinout;
    if pinout.ctrl.contains(Ctrl::RDY()) == false {
        return pinout;
    }
    let addr = to_address(0, cpu.ops.bal.wrapping_add(cpu.x));
    pinout = read_cycle(cpu, bus, pinout, addr);
    cpu.ops.adl = cpu.ops.dl;
    pinout
}

/// The cpu state after the cycle `indirect_x_read_c3` runs, `r` being the pinout it
/// returns.
pub open spec fn spec_indirect_x_read_c3(cpu: Context, pinout: Pinout, r: Pinout) -> Context {
    if !pinout.ctrl.rdy {
        cpu
    } else {
        ({ let s0 = cpu; let s1 = spec_after_read(s0, r.data); let s2 = Context { ops: OpState { adh: s1.ops.dl, ..s1.ops }, ..s1 }; s2 })
    }
}

/// The requests the cycle `indirect_x_read_c3` puts on the bus, oldest first.
pub open spec fn spec_indirect_x_read_c3_requests(cpu: Context, pinout: Pinout) -> Seq<Pinout> {
    if !pinout.ctrl.rdy {
        Seq::empty()
    } else {
        seq![spec_read_request(pinout, spec_address(0, cpu.ops.bal.wrapping_add(cpu.x).wrapping_add(1)))]
    }
}

pub fn indirect_x_read_c3<B: Bus>(cpu: &mut Context, bus: &mut B, pinout: Pinout) -> (r: Pinout)
    requires
        old(bus).ready(),
    ensures
        final(bus).ready(),
        final(bus).spec_clock() == old(bus).spec_clock(),
        *final(cpu) == spec_indirect_x_read_c3(*old(cpu), pinout, r),
        !pinout.ctrl.rdy ==> r == pinout && *final(cpu) == *old(cpu) && *final(bus) == *old(bus),
        pinout.ctrl.rdy ==> ({ let s0 = *old(cpu); let s1 = spec_after_read(s0, r.data); let s2 = Context { ops: OpState { adh: s1.ops.dl, ..s1.ops }, ..s1 }; *final(cpu) == s2 }),
        final(bus).spec_requests() == old(bus).spec_requests() + spec_indirect_x_read_c3_requests(*old(cpu), pinout),
{
    let mut pinout = pinout;
    if pinout.ctrl.contains(Ctrl::RDY()) == false {
        return pinout;
    }
    let addr = to_address(0, cpu.ops.bal.wrapping_add(cpu.x).wrapping_add(1));
    pinout = read_cycle(cpu, bus, pinout, addr);
    cpu.ops.adh = cpu.ops.dl;
    pinout
}

/// The cpu state after the cycle `indirect_x_read_c4` runs, `r` being the pinout it
/// returns.
pub open spec fn spec_indirect_x_read_c4(cpu: Context, pinout: Pinout, r: Pinout) -> Context {
    if !pinout.ctrl.rdy {
        cpu
    } else {
        ({ let s0 = cpu; let s1 = spec_after_read(s0, r.data); s1 })
    }
}

/// The requests the cycle `indirect_x_read_c4` puts on the bus, oldest first.
pub open spec fn spec_indirect_x_read_c4_requests(cpu: Context, pinout: Pinout) -> Seq<Pinout> {
    if !pinout.ctrl.rdy {
        Seq::empty()
    } else {
        seq![spec_read_request(pinout, spec_address(cpu.ops.adh, cpu.ops.adl))]
    }
}

pub fn indirect_x_read_c4<B: Bus>(cpu: &mut Context, bus: &mut B, pinout: Pinout) -> (r: Pinout)
    requires
        old(bus).ready(),
    ensures
        final(bus).ready(),
        final(bus).spec_clock() == old(bus).spec_clock(),
        *final(cpu) == spec_indirect_x_read_c4(*old(cpu), pinout, r),
        !pinout.ctrl.rdy ==> r == pinout && *final(cpu) == *old(cpu) && *final(bus) == *old(bus),
        pinout.ctrl.rdy ==> ({ let s0 = *old(cpu); let s1 = spec_after_read(s0, r.data); *final(cpu) == s1 }),
        final(bus).spec_requests() == old(bus).spec_requests() + spec_indirect_x_read_c4_requests(*old(cpu), pinout),
{
    let mut pinout = pinout;
    if pinout.ctrl.contains(Ctrl::RDY()) == false {
        return pinout;
    }
    let addr = to_address(cpu.ops.adh, cpu.ops.adl);
    pinout = read_cycle(cpu, bus, pinout, addr);
    pinout
}

/// The cpu state after the cycle `indirect_x_read_c5` runs, `r` being the pinout it
/// returns.
pub open spec fn spec_indirect_x_read_c5<T: Instruction>(cpu: Context, pinout: Pinout, r: Pinout) -> Context {
    if !pinout.ctrl.rdy {
        cpu
    } else {
        ({ let s0 = cpu; let s1 = T::spec_execute(s0); let s2 = spec_poll(s1, pinout); if s2.ir.tm > 0xF { s2 } else { let s3 = spec_after_first_cycle(s2, r.data); s3 } })
    }
}

/// The requests the cycle `indirect_x_read_c5` puts on the bus, oldest first.
pub open spec fn spec_indirect_x_read_c5_requests<T: Instruction>(cpu: Context, pinout: Pinout) -> Seq<Pinout> {
    if !pinout.ctrl.rdy {
        Seq::empty()
    } else {
        let s1 = T::spec_execute(cpu);
        let s2 = spec_poll(s1, pinout);
        if s2.ir.tm > 0xF { Seq::empty() } else {
            seq![spec_read_request(Pinout { ctrl: Ctrl { sync: true, ..pinout.ctrl }, ..pinout }, s2.pc.spec_value())]
        }
    }
}

pub fn indirect_x_read_c5<B: Bus, T: Instruction>(cpu: &mut Context, bus: &mut B, pinout: Pinout) -> (r: Pinout)
    requires
        old(bus).ready(),
    ensures
        final(bus).ready(),
        final(bus).spec_clock() == old(bus).spec_clock(),
        *final(cpu) == spec_indirect_x_read_c5::<T>(*old(cpu), pinout, r),
        !pinout.ctrl.rdy ==> r == pinout && *final(cpu) == *old(cpu) && *final(bus) == *old(bus),
        pinout.ctrl.rdy ==> ({ let s0 = *old(cpu); let s1 = T::spec_execute(s0); let s2 = spec_poll(s1, pinout); if s2.ir.tm > 0xF { *final(cpu) == s2 && r == pinout } else { let s3 = spec_after_first_cycle(s2, r.data); *final(cpu) == s3 } }),
        final(bus).spec_requests() == old(bus).spec_requests() + spec_indirect_x_read_c5_requests::<T>(*old(cpu), pinout),
{
    let mut pinout = pinout;
    if pinout.ctrl.contains(Ctrl::RDY()) == false {
        return pinout;
    }
    T::execute(cpu);
    poll_interrupts(cpu, pinout);
    if cpu.ir.tm > 0xF {
        return pinout;
    }
    pinout = first_cycle(cpu, bus, pinout);
    pinout
}

/// The cpu state after the cycle `absolute_x_read_c0` runs, `r` being the pinout it
/// returns.
pub open spec fn spec_absolute_x_read_c0(cpu: Context, pinout: Pinout, r: Pinout) -> Context {
    if !pinout.ctrl.rdy {
        cpu
    } else {
        ({ let s0 = cpu; let s1 = spec_after_read(s0, r.data); let s2 = Context { ops: OpState { bal: s1.ops.dl, ..s1.ops }, ..s1 }; let s3 = Context { pc: s2.pc.spec_incremented(), ..s2 }; s3 })
    }
}

/// The requests the cycle `absolute_x_read_c0` puts on the bus, oldest first.
pub open spec fn spec_absolute_x_read_c0_requests(cpu: Context, pinout: Pinout) -> Seq<Pinout> {
    if !pinout.ctrl.rdy {
        Seq::empty()
    } else {
        seq![spec_read_request(Pinout { ctrl: Ctrl { sync: false, ..pinout.ctrl }, ..pinout }, cpu.pc.spec_value())]
    }
}

pub fn absolute_x_read_c0<B: Bus>(cpu: &mut Context, bus: &mut B, pinout: Pinout) -> (r: Pinout)
    requires
        old(bus).ready(),
    ensures
        final(bus).ready(),
        final(bus).spec_clock() == old(bus).spec_clock(),
        *final(cpu) == spec_absolute_x_read_c0(*old(cpu), pinout, r),
        !pinout.ctrl.rdy ==> r == pinout && *final(cpu) == *old(cpu) && *final(bus) == *old(bus),
        pinout.ctrl.rdy ==> ({ let s0 = *old(cpu); let s1 = spec_after_read(s0, r.data); let s2 = Context { ops: OpState { bal: s1.ops.dl, ..s1.ops }, ..s1 }; let s3 = Context { pc: s2.pc.spec_incremented(), ..s2 }; *final(cpu) == s3 }),
        final(bus).spec_requests() == old(bus).spec_requests() + spec_absolute_x_read_c0_requests(*old(cpu), pinout),
{
    let mut pinout = pinout;
    if pinout.ctrl.contains(Ctrl::RDY()) == false {
        return pinout;
    }
    pinout = second_cycle(cpu, bus, pinout);
    cpu.ops.bal = cpu.ops.dl;
    cpu.pc.increment();
    pinout
}

/// The cpu state after the cycle `absolute_x_read_c1` runs, `r` being the pinout it
/// returns.
pub open spec fn spec_absolute_x_read_c1(cpu: Context, pinout: Pinout, r: Pinout) -> Context {
    if !pinout.ctrl.rdy {
        cpu
    } else {
        ({ let s0 = cpu; let s1 = spec_after_read(s0, r.data); let s2 = Context { ops: OpState { bah: s1.ops.dl, ..s1.ops }, ..s1 }; let s3 = Context { pc: s2.pc.spec_incremented(), ..s2 }; s3 })
    }
}

/// The requests the cycle `absolute_x_read_c1` puts on the bus, oldest first.
pub open spec fn spec_absolute_x_read_c1_requests(cpu: Context, pinout: Pinout) -> Seq<Pinout> {
    if !pinout.ctrl.rdy {
        Seq::empty()
    } else {
        seq![spec_read_request(pinout, cpu.pc.spec_value())]
    }
}

pub fn absolute_x_read_c1<B: Bus>(cpu: &mut Context, bus: &mut B, pinout: Pinout) -> (r: Pinout)
    requires
        old(bus).ready(),
    ensures
        final(bus).ready(),
        final(bus).spec_clock() == old(bus).spec_clock(),
        *final(cpu) == spec_absolute_x_read_c1(*old(cpu), pinout, r),
        !pinout.ctrl.rdy ==> r == pinout && *final(cpu) == *old(cpu) && *final(bus) == *old(bus),
        pinout.ctrl.rdy ==> ({ let s0 = *old(cpu); let s1 = spec_after_read(s0, r.data); let s2 = Context { ops: OpState { bah: s1.ops.dl, ..s1.ops }, ..s1 }; let s3 = Context { pc: s2.pc.spec_incremented(), ..s2 }; *final(cpu) == s3 }),
        final(bus).spec_requests() == old(bus).spec_requests() + spec_absolute_x_read_c1_requests(*old(cpu), pinout),
{
    let mut pinout = pinout;
    if pinout.ctrl.contains(Ctrl::RDY()) == false {
        return pinout;
    }
    let addr = cpu.pc.value();
    pinout = read_cycle(cpu, bus, pinout, addr);
    cpu.ops.bah = cpu.ops.dl;
    cpu.pc.increment();
    pinout
}

/// The cpu state after the cycle `absolute_x_read_c3` runs, `r` being the pinout it
/// returns.
pub open spec fn spec_absolute_x_read_c3(cpu: Context, pinout: Pinout, r: Pinout) -> Context {
    if !pinout.ctrl.rdy {
        cpu
    } else {
        ({ let s0 = cpu; let s1 = Context { ops: OpState { adh: s0.ops.adh.wrapping_add(1), ..s0.ops }, ..s0 }; let s2 = spec_after_read(s1, r.data); s2 })
    }
}

/// The requests the cycle `absolute_x_read_c3` puts on the bus, oldest first.
pub open spec fn spec_absolute_x_read_c3_requests(cpu: Context, pinout: Pinout) -> Seq<Pinout> {
    if !pinout.ctrl.rdy {
        Seq::empty()
    } else {
        let s1 = Context { ops: OpState { adh: cpu.ops.adh.wrapping_add(1), ..cpu.ops }, ..cpu };
        seq![spec_read_request(pinout, spec_address(s1.ops.adh, s1.ops.adl))]
    }
}

pub fn absolute_x_read_c3<B: Bus>(cpu: &mut Context, bus: &mut B, pinout: Pinout) -> (r: Pinout)
    requires
        old(bus).ready(),
    ensures
        final(bus).ready(),
        final(bus).spec_clock() == old(bus).spec_clock(),
        *final(cpu) == spec_absolute_x_read_c3(*old(cpu), pinout, r),
        !pinout.ctrl.rdy ==> r == pinout && *final(cpu) == *old(cpu) && *final(bus) == *old(bus),
        pinout.ctrl.rdy ==> ({ let s0 = *old(cpu); let s1 = Context { ops: OpState { adh: s0.ops.adh.wrapping_add(1), ..s0.ops }, ..s0 }; let s2 = spec_after_read(s1, r.data); *final(cpu) == s2 }),
        final(bus).spec_requests() == old(bus).spec_requests() + spec_absolute_x_read_c3_requests(*old(cpu), pinout),
{
    let mut pinout = pinout;
    if pinout.ctrl.contains(Ctrl::RDY()) == false {
        return pinout;
    }
    cpu.ops.adh = cpu.ops.adh.wrapping_add(1);
    let addr = to_address(cpu.ops.adh, cpu.ops.adl);
    pinout = read_cycle(cpu, bus, pinout, addr);
    pinout
}

/// The cpu state after the cycle `absolute_x_read_c4` runs, `r` being the pinout it
/// returns.
pub open spec fn spec_absolute_x_read_c4<T: Instruction>(cpu: Context, pinout: Pinout, r: Pinout) -> Context {
    if !pinout.ctrl.rdy {
        cpu
    } else {
        ({ let s0 = cpu; let s1 = T::spec_execute(s0); let s2 = spec_poll(s1, pinout); if s2.ir.tm > 0xF { s2 } else { let s3 = spec_after_first_cycle(s2, r.data); s3 } })
    }
}

/// The requests the cycle `absolute_x_read_c4` puts on the bus, oldest first.
pub open spec fn spec_absolute_x_read_c4_requests<T: Instruction>(cpu: Context, pinout: Pinout) -> Seq<Pinout> {
    if !pinout.ctrl.rdy {
        Seq::empty()
    } else {
        let s1 = T::spec_execute(cpu);
        let s2 = spec_poll(s1, pinout);
        if s2.ir.tm > 0xF { Seq::empty() } else {
            seq![spec_read_request(Pinout { ctrl: Ctrl { sync: true, ..pinout.ctrl }, ..pinout }, s2.pc.spec_value())]
        }
    }
}

pub fn absolute_x_read_c4<B: Bus, T: Instruction>(cpu: &mut Context, bus: &mut B, pinout: Pinout) -> (r: Pinout)
    requires
        old(bus).ready(),
    ensures
        final(bus).ready(),
        final(bus).spec_clock() == old(bus).spec_clock(),
        *final(cpu) == spec_absolute_x_read_c4::<T>(*old(cpu), pinout, r),
        !pinout.ctrl.rdy ==> r == pinout && *final(cpu) == *old(cpu) && *final(bus) == *old(bus),
        pinout.ctrl.rdy ==> ({ let s0 = *old(cpu); let s1 = T::spec_execute(s0); let s2 = spec_poll(s1, pinout); if s2.ir.tm > 0xF { *final(cpu) == s2 && r == pinout } else { let s3 = spec_after_first_cycle(s2, r.data); *final(cpu) == s3 } }),
        final(bus).spec_requests() == old(bus).spec_requests() + spec_absolute_x_read_c4_requests::<T>(*old(cpu), pinout),
{
    let mut pinout = pinout;
    if pinout.ctrl.contains(Ctrl::RDY()) == false {
        return pinout;
    }
    T::execute(cpu);
    poll_interrupts(cpu, pinout);
    if cpu.ir.tm > 0xF {
        return pinout;
    }
    pinout = first_cycle(cpu, bus, pinout);
    pinout
}

/// The cpu state after the cycle `absolute_y_read_c0` runs, `r` being the pinout it
/// returns.
pub open spec fn spec_absolute_y_read_c0(cpu: Context, pinout: Pinout, r: Pinout) -> Context {
    if !pinout.ctrl.rdy {
        cpu
    } else {
        ({ let s0 = cpu; let s1 = spec_after_read(s0, r.data); let s2 = Context { ops: OpState { bal: s1.ops.dl, ..s1.ops }, ..s1 }; let s3 = Context { pc: s2.pc.spec_incremented(), ..s2 }; s3 })
    }
}

/// The requests the cycle `absolute_y_read_c0` puts on the bus, oldest first.
pub open spec fn spec_absolute_y_read_c0_requests(cpu: Context, pinout: Pinout) -> Seq<Pinout> {
    if !pinout.ctrl.rdy {
        Seq::empty()
    } else {
        seq![spec_read_request(Pinout { ctrl: Ctrl { sync: false, ..pinout.ctrl }, ..pinout }, cpu.pc.spec_value())]
    }
}

pub fn absolute_y_read_c0<B: Bus>(cpu: &mut Context, bus: &mut B, pinout: Pinout) -> (r: Pinout)
    requires
        old(bus).ready(),
    ensures
        final(bus).ready(),
        final(bus).spec_clock() == old(bus).spec_clock(),
        *final(cpu) == spec_absolute_y_read_c0(*old(cpu), pinout, r),
        !pinout.ctrl.rdy ==> r == pinout && *final(cpu) == *old(cpu) && *final(bus) == *old(bus),
        pinout.ctrl.rdy ==> ({ let s0 = *old(cpu); let s1 = spec_after_read(s0, r.data); let s2 = Context { ops: OpState { bal: s1.ops.dl, ..s1.ops }, ..s1 }; let s3 = Context { pc: s2.pc.spec_incremented(), ..s2 }; *final(cpu) == s3 }),
        final(bus).spec_requests() == old(bus).spec_requests() + spec_absolute_y_read_c0_requests(*old(cpu), pinout),
{
    let mut pinout = pinout;
    if pinout.ctrl.contains(Ctrl::RDY()) == false {
        return pinout;
    }
    pinout = second_cycle(cpu, bus, pinout);
    cpu.ops.bal = cpu.ops.dl;
    cpu.pc.increment();
    pinout
}

/// The cpu state after the cycle `absolute_y_read_c1` runs, `r` being the pinout it
/// returns.
pub open spec fn spec_absolute_y_read_c1(cpu: Context, pinout: Pinout, r: Pinout) -> Context {
    if !pinout.ctrl.rdy {
        cpu
    } else {
        ({ let s0 = cpu; let s1 = spec_after_read(s0, r.data); let s2 = Context { ops: OpState { bah: s1.ops.dl, ..s1.ops }, ..s1 }; let s3 = Context { pc: s2.pc.spec_incremented(), ..s2 }; s3 })
    }
}

/// The requests the cycle `absolute_y_read_c1` puts on the bus, oldest first.
pub open spec fn spec_absolute_y_read_c1_requests(cpu: Context, pinout: Pinout) -> Seq<Pinout> {
    if !pinout.ctrl.rdy {
        Seq::empty()
    } else {
        seq![spec_read_request(pinout, cpu.pc.spec_value())]
    }
}

pub fn absolute_y_read_c1<B: Bus>(cpu: &mut Context, bus: &mut B, pinout: Pinout) -> (r: Pinout)
    requires
        old(bus).ready(),
    ensures
        final(bus).ready(),
        final(bus).spec_clock() == old(bus).spec_clock(),
        *final(cpu) == spec_absolute_y_read_c1(*old(cpu), pinout, r),
        !pinout.ctrl.rdy ==> r == pinout && *final(cpu) == *old(cpu) && *final(bus) == *old(bus),
        pinout.ctrl.rdy ==> ({ let s0 = *old(cpu); let s1 = spec_after_read(s0, r.data); let s2 = Context { ops: OpState { bah: s1.ops.dl, ..s1.ops }, ..s1 }; let s3 = Context { pc: s2.pc.spec_incremented(), ..s2 }; *final(cpu) == s3 }),
        final(bus).spec_requests() == old(bus).spec_requests() + spec_absolute_y_read_c1_requests(*old(cpu), pinout),
{
    let mut pinout = pinout;
    if pinout.ctrl.contains(Ctrl::RDY()) == false {
        return pinout;
    }
    let addr = cpu.pc.value();
    pinout = read_cycle(cpu, bus, pinout, addr);
    cpu.ops.bah = cpu.ops.dl;
    cpu.pc.increment();
    pinout
}

/// The cpu state after the cycle `absolute_y_read_c3` runs, `r` being the pinout it
/// returns.
pub open spec fn spec_absolute_y_read_c3(cpu: Context, pinout: Pinout, r: Pinout) -> Context {
    if !pinout.ctrl.rdy {
        cpu
    } else {
        ({ let s0 = cpu; let s1 = Context { ops: OpState { adh: s0.ops.adh.wrapping_add(1), ..s0.ops }, ..s0 }; let s2 = spec_after_read(s1, r.data); s2 })
    }
}

/// The requests the cycle `absolute_y_read_c3` puts on the bus, oldest first.
pub open spec fn spec_absolute_y_read_c3_requests(cpu: Context, pinout: Pinout) -> Seq<Pinout> {
    if !pinout.ctrl.rdy {
        Seq::empty()
    } else {
        let s1 = Context { ops: OpState { adh: cpu.ops.adh.wrapping_add(1), ..cpu.ops }, ..cpu };
        seq![spec_read_request(pinout, spec_address(s1.ops.adh, s1.ops.adl))]
    }
}

pub fn absolute_y_read_c3<B: Bus>(cpu: &mut Context, bus: &mut B, pinout: Pinout) -> (r: Pinout)
    requires
        old(bus).ready(),
    ensures
        final(bus).ready(),
        final(bus).spec_clock() == old(bus).spec_clock(),
        *final(cpu) == spec_absolute_y_read_c3(*old(cpu), pinout, r),
        !pinout.ctrl.rdy ==> r == pinout && *final(cpu) == *old(cpu) && *final(bus) == *old(bus),
        pinout.ctrl.rdy ==> ({ let s0 = *old(cpu); let s1 = Context { ops: OpState { adh: s0.ops.adh.wrapping_add(1), ..s0.ops }, ..s0 }; let s2 = spec_after_read(s1, r.data); *final(cpu) == s2 }),
        final(bus).spec_requests() == old(bus).spec_requests() + spec_absolute_y_read_c3_requests(*old(cpu), pinout),
{
    let mut pinout = pinout;
    if pinout.ctrl.contains(Ctrl::RDY()) == false {
        return pinout;
    }
    cpu.ops.adh = cpu.ops.adh.wrapping_add(1);
    let addr = to_address(cpu.ops.adh, cpu.ops.adl);
    pinout = read_cycle(cpu, bus, pinout, addr);
    pinout
}

/// The cpu state after the cycle `absolute_y_read_c4` runs, `r` being the pinout it
/// returns.
pub open spec fn spec_absolute_y_read_c4<T: Instruction>(cpu: Context, pinout: Pinout, r: Pinout) -> Context {
    if !pinout.ctrl.rdy {
        cpu
    } else {
        ({ let s0 = cpu; let s1 = T::spec_execute(s0); let s2 = spec_poll(s1, pinout); if s2.ir.tm > 0xF { s2 } else { let s3 = spec_after_first_cycle(s2, r.data); s3 } })
    }
}

/// The requests the cycle `absolute_y_read_c4` puts on the bus, oldest first.
pub open spec fn spec_absolute_y_read_c4_requests<T: Instruction>(cpu: Context, pinout: Pinout) -> Seq<Pinout> {
    if !pinout.ctrl.rdy {
        Seq::empty()
    } else {
        let s1 = T::spec_execute(cpu);
        let s2 = spec_poll(s1, pinout);
        if s2.ir.tm > 0xF { Seq::empty() } else {
            seq![spec_read_request(Pinout { ctrl: Ctrl { sync: true, ..pinout.ctrl }, ..pinout }, s2.pc.spec_value())]
        }
    }
}

pub fn absolute_y_read_c4<B: Bus, T: Instruction>(cpu: &mut Context, bus: &mut B, pinout: Pinout) -> (r: Pinout)
    requires
        old(bus).ready(),
    ensures
        final(bus).ready(),
        final(bus).spec_clock() == old(bus).spec_clock(),
        *final(cpu) == spec_absolute_y_read_c4::<T>(*old(cpu), pinout, r),
        !pinout.ctrl.rdy ==> r == pinout && *final(cpu) == *old(cpu) && *final(bus) == *old(bus),
        pinout.ctrl.rdy ==> ({ let s0 = *old(cpu); let s1 = T::spec_execute(s0); let s2 = spec_poll(s1, pinout); if s2.ir.tm > 0xF { *final(cpu) == s2 && r == pinout } else { let s3 = spec_after_first_cycle(s2, r.data); *final(cpu) == s3 } }),
        final(bus).spec_requests() == old(bus).spec_requests() + spec_absolute_y_read_c4_requests::<T>(*old(cpu), pinout),
{
    let mut pinout = pinout;
    if pinout.ctrl.contains(Ctrl::RDY()) == false {
        return pinout;
    }
    T::execute(cpu);
    poll_interrupts(cpu, pinout);
    if cpu.ir.tm > 0xF {
        return pinout;
    }
    pinout = first_cycle(cpu, bus, pinout);
    pinout
}

/// The cpu state after the cycle `zeropage_x_read_c0` runs, `r` being the pinout it
/// returns.
pub open spec fn spec_zeropage_x_read_c0(cpu: Context, pinout: Pinout, r: Pinout) -> Context {
    if !pinout.ctrl.rdy {
        cpu
    } else {
        ({ let s0 = cpu; let s1 = spec_after_read(s0, r.data); let s2 = Context { ops: OpState { bal: s1.ops.dl, ..s1.ops }, ..s1 }; let s3 = Context { pc: s2.pc.spec_incremented(), ..s2 }; s3 })
    }
}

/// The requests the cycle `zeropage_x_read_c0` puts on the bus, oldest first.
pub open spec fn spec_zeropage_x_read_c0_requests(cpu: Context, pinout: Pinout) -> Seq<Pinout> {
    if !pinout.ctrl.rdy {
        Seq::empty()
    } else {
        seq![spec_read_request(Pinout { ctrl: Ctrl { sync: false, ..pinout.ctrl }, ..pinout }, cpu.pc.spec_value())]
    }
}

pub fn zeropage_x_read_c0<B: Bus>(cpu: &mut Context, bus: &mut B, pinout: Pinout) -> (r: Pinout)
    requires
        old(bus).ready(),
    ensures
        final(bus).ready(),
        final(bus).spec_clock() == old(bus).spec_clock(),
        *final(cpu) == spec_zeropage_x_read_c0(*old(cpu), pinout, r),
        !pinout.ctrl.rdy ==> r == pinout && *final(cpu) == *old(cpu) && *final(bus) == *old(bus),
        pinout.ctrl.rdy ==> ({ let s0 = *old(cpu); let s1 = spec_after_read(s0, r.data); let s2 = Context { ops: OpState { bal: s1.ops.dl, ..s1.ops }, ..s1 }; let s3 = Context { pc: s2.pc.spec_incremented(), ..s2 }; *final(cpu) == s3 }),
        final(bus).spec_requests() == old(bus).spec_requests() + spec_zeropage_x_read_c0_requests(*old(cpu), pinout),
{
    let mut pinout = pinout;
    if pinout.ctrl.contains(Ctrl::RDY()) == false {
        return pinout;
    }
    pinout = second_cycle(cpu, bus, pinout);
    cpu.ops.bal = cpu.ops.dl;
    cpu.pc.increment();
    pinout
}

/// The cpu state after the cycle `zeropage_x_read_c1` runs, `r` being the pinout it
/// returns.
pub open spec fn spec_zeropage_x_read_c1(cpu: Context, pinout: Pinout, r: Pinout) -> Context {
    if !pinout.ctrl.rdy {
        cpu
    } else {
        ({ let s0 = cpu; let s1 = spec_after_read(s0, r.data); s1 })
    }
}

/// The requests the cycle `zeropage_x_read_c1` puts on the bus, oldest first.
pub open spec fn spec_zeropage_x_read_c1_requests(cpu: Context, pinout: Pinout) -> Seq<Pinout> {
    if !pinout.ctrl.rdy {
        Seq::empty()
    } else {
        seq![spec_read_request(pinout, spec_address(0, cpu.ops.bal))]
    }
}

pub fn zeropage_x_read_c1<B: Bus>(cpu: &mut Context, bus: &mut B, pinout: Pinout) -> (r: Pinout)
    requires
        old(bus).ready(),
    ensures
        final(bus).ready(),
        final(bus).spec_clock() == old(bus).spec_clock(),
        *final(cpu) == spec_zeropage_x_read_c1(*old(cpu), pinout, r),
        !pinout.ctrl.rdy ==> r == pinout && *final(cpu) == *old(cpu) && *final(bus) == *old(bus),
        pinout.ctrl.rdy ==> ({ let s0 = *old(cpu); let s1 = spec_after_read(s0, r.data); *final(cpu) == s1 }),
        final(bus).spec_requests() == old(bus).spec_requests() + spec_zeropage_x_read_c1_requests(*old(cpu), pinout),
{
    let mut pinout = pinout;
    if pinout.ctrl.contains(Ctrl::RDY()) == false {
        return pinout;
    }
    let addr = to_address(0, cpu.ops.bal);
    pinout = read_cycle(cpu, bus, pinout, addr);
    pinout
}

/// The cpu state after the cycle `zeropage_x_read_c2` runs, `r` being the pinout it
/// returns.
pub open spec fn spec_zeropage_x_read_c2(cpu: Context, pinout: Pinout, r: Pinout) -> Context {
    if !pinout.ctrl.rdy {
        cpu
    } else {
        ({ let s0 = cpu; let s1 = spec_after_read(s0, r.data); s1 })
    }
}

/// The requests the cycle `zeropage_x_read_c2` puts on the bus, oldest first.
pub open spec fn spec_zeropage_x_read_c2_requests(cpu: Context, pinout: Pinout) -> Seq<Pinout> {
    if !pinout.ctrl.rdy {
        Seq::empty()
    } else {
        seq![spec_read_request(pinout, spec_address(0, cpu.ops.bal.wrapping_add(cpu.x)))]
    }
}

pub fn zeropage_x_read_c2<B: Bus>(cpu: &mut Context, bus: &mut B, pinout: Pinout) -> (r: Pinout)
    requires
        old(bus).ready(),
    ensures
        final(bus).ready(),
        final(bus).spec_clock() == old(bus).spec_clock(),
        *final(cpu) == spec_zeropage_x_read_c2(*old(cpu), pinout, r),
        !pinout.ctrl.rdy ==> r == pinout && *final(cpu) == *old(cpu) && *final(bus) == *old(bus),
        pinout.ctrl.rdy ==> ({ let s0 = *old(cpu); let s1 = spec_after_read(s0, r.data); *final(cpu) == s1 }),
        final(bus).spec_requests() == old(bus).spec_requests() + spec_zeropage_x_read_c2_requests(*old(cpu), pinout),
{
    let mut pinout = pinout;
    if pinout.ctrl.contains(Ctrl::RDY()) == false {
        return pinout;
    }
    let addr = to_address(0, cpu.ops.bal.wrapping_add(cpu.x));
    pinout = read_cycle(cpu, bus, pinout, addr);
    pinout
}

/// The cpu state after the cycle `zeropage_x_read_c3` runs, `r` being the pinout it
/// returns.
pub open spec fn spec_zeropage_x_read_c3<T: Instruction>(cpu: Context, pinout: Pinout, r: Pinout) -> Context {
    if !pinout.ctrl.rdy {
        cpu
    } else {
        ({ let s0 = cpu; let s1 = T::spec_execute(s0); let s2 = spec_poll(s1, pinout); if s2.ir.tm > 0xF { s2 } else { let s3 = spec_after_first_cycle(s2, r.data); s3 } })
    }
}

/// The requests the cycle `zeropage_x_read_c3` puts on the bus, oldest first.
pub open spec fn spec_zeropage_x_read_c3_requests<T: Instruction>(cpu: Context, pinout: Pinout) -> Seq<Pinout> {
    if !pinout.ctrl.rdy {
        Seq::empty()
    } else {
        let s1 = T::spec_execute(cpu);
        let s2 = spec_poll(s1, pinout);
        if s2.ir.tm > 0xF { Seq::empty() } else {
            seq![spec_read_request(Pinout { ctrl: Ctrl { sync: true, ..pinout.ctrl }, ..pinout }, s2.pc.spec_value())]
        }
    }
}

pub fn zeropage_x_read_c3<B: Bus, T: Instruction>(cpu: &mut Context, bus: &mut B, pinout: Pinout) -> (r: Pinout)
    requires
        old(bus).ready(),
    ensures
        final(bus).ready(),
        final(bus).spec_clock() == old(bus).spec_clock(),
        *final(cpu) == spec_zeropage_x_read_c3::<T>(*old(cpu), pinout, r),
        !pinout.ctrl.rdy ==> r == pinout && *final(cpu) == *old(cpu) && *final(bus) == *old(bus),
        pinout.ctrl.rdy ==> ({ let s0 = *old(cpu); let s1 = T::spec_execute(s0); let s2 = spec_poll(s1, pinout); if s2.ir.tm > 0xF { *final(cpu) == s2 && r == pinout } else { let s3 = spec_after_first_cycle(s2, r.data); *final(cpu) == s3 } }),
        final(bus).spec_requests() == old(bus).spec_requests() + spec_zeropage_x_read_c3_requests::<T>(*old(cpu), pinout),
{
    let mut pinout = pinout;
    if pinout.ctrl.contains(Ctrl::RDY()) == false {
        return pinout;
    }
    T::execute(cpu);
    poll_interrupts(cpu, pinout);
    if cpu.ir.tm > 0xF {
        return pinout;
    }
    pinout = first_cycle(cpu, bus, pinout);
    pinout
}

/// The cpu state after the cycle `zeropage_y_read_c0` runs, `r` being the pinout it
/// returns.
pub open spec fn spec_zeropage_y_read_c0(cpu: Context, pinout: Pinout, r: Pinout) -> Context {
    if !pinout.ctrl.rdy {
        cpu
    } else {
        ({ let s0 = cpu; let s1 = spec_after_read(s0, r.data); let s2 = Context { ops: OpState { bal: s1.ops.dl, ..s1.ops }, ..s1 }; let s3 = Context { pc: s2.pc.spec_incremented(), ..s2 }; s3 })
    }
}

/// The requests the cycle `zeropage_y_read_c0` puts on the bus, oldest first.
pub open spec fn spec_zeropage_y_read_c0_requests(cpu: Context, pinout: Pinout) -> Seq<Pinout> {
    if !pinout.ctrl.rdy {
        Seq::empty()
    } else {
        seq![spec_read_request(Pinout { ctrl: Ctrl { sync: false, ..pinout.ctrl }, ..pinout }, cpu.pc.spec_value())]
    }
}

pub fn zeropage_y_read_c0<B: Bus>(cpu: &mut Context, bus: &mut B, pinout: Pinout) -> (r: Pinout)
    requires
        old(bus).ready(),
    ensures
        final(bus).ready(),
        final(bus).spec_clock() == old(bus).spec_clock(),
        *final(cpu) == spec_zeropage_y_read_c0(*old(cpu), pinout, r),
        !pinout.ctrl.rdy ==> r == pinout && *final(cpu) == *old(cpu) && *final(bus) == *old(bus),
        pinout.ctrl.rdy ==> ({ let s0 = *old(cpu); let s1 = spec_after_read(s0, r.data); let s2 = Context { ops: OpState { bal: s1.ops.dl, ..s1.ops }, ..s1 }; let s3 = Context { pc: s2.pc.spec_incremented(), ..s2 }; *final(cpu) == s3 }),
        final(bus).spec_requests() == old(bus).spec_requests() + spec_zeropage_y_read_c0_requests(*old(cpu), pinout),
{
    let mut pinout = pinout;
    if pinout.ctrl.contains(Ctrl::RDY()) == false {
        return pinout;
    }
    pinout = second_cycle(cpu, bus, pinout);
    cpu.ops.bal = cpu.ops.dl;
    cpu.pc.increment();
    pinout
}

/// The cpu state after the cycle `zeropage_y_read_c1` runs, `r` being the pinout it
/// returns.
pub open spec fn spec_zeropage_y_read_c1(cpu: Context, pinout: Pinout, r: Pinout) -> Context {
    if !pinout.ctrl.rdy {
        cpu
    } else {
        ({ let s0 = cpu; let s1 = spec_after_read(s0, r.data); s1 })
    }
}

/// The requests the cycle `zeropage_y_read_c1` puts on the bus, oldest first.
pub open spec fn spec_zeropage_y_read_c1_requests(cpu: Context, pinout: Pinout) -> Seq<Pinout> {
    if !pinout.ctrl.rdy {
        Seq::empty()
    } else {
        seq![spec_read_request(pinout, spec_address(0, cpu.ops.bal))]
    }
}

pub fn zeropage_y_read_c1<B: Bus>(cpu: &mut Context, bus: &mut B, pinout: Pinout) -> (r: Pinout)
    requires
        old(bus).ready(),
    ensures
        final(bus).ready(),
        final(bus).spec_clock() == old(bus).spec_clock(),
        *final(cpu) == spec_zeropage_y_read_c1(*old(cpu), pinout, r),
        !pinout.ctrl.rdy ==> r == pinout && *final(cpu) == *old(cpu) && *final(bus) == *old(bus),
        pinout.ctrl.rdy ==> ({ let s0 = *old(cpu); let s1 = spec_after_read(s0, r.data); *final(cpu) == s1 }),
        final(bus).spec_requests() == old(bus).spec_requests() + spec_zeropage_y_read_c1_requests(*old(cpu), pinout),
{
    let mut pinout = pinout;
    if pinout.ctrl.contains(Ctrl::RDY()) == false {
        return pinout;
    }
    let addr = to_address(0, cpu.ops.bal);
    pinout = read_cycle(cpu, bus, pinout, addr);
    pinout
}

/// The cpu state after the cycle `zeropage_y_read_c2` runs, `r` being the pinout it
/// returns.
pub open spec fn spec_zeropage_y_read_c2(cpu: Context, pinout: Pinout, r: Pinout) -> Context {
    if !pinout.ctrl.rdy {
        cpu
    } else {
        ({ let s0 = cpu; let s1 = spec_after_read(s0, r.data); s1 })
    }
}

/// The requests the cycle `zeropage_y_read_c2` puts on the bus, oldest first.
pub open spec fn spec_zeropage_y_read_c2_requests(cpu: Context, pinout: Pinout) -> Seq<Pinout> {
    if !pinout.ctrl.rdy {
        Seq::empty()
    } else {
        seq![spec_read_request(pinout, spec_address(0, cpu.ops.bal.wrapping_add(cpu.y)))]
    }
}

pub fn zeropage_y_read_c2<B: Bus>(cpu: &mut Context, bus: &mut B, pinout: Pinout) -> (r: Pinout)
    requires
        old(bus).ready(),
    ensures
        final(bus).ready(),
        final(bus).spec_clock() == old(bus).spec_clock(),
        *final(cpu) == spec_zeropage_y_read_c2(*old(cpu), pinout, r),
        !pinout.ctrl.rdy ==> r == pinout && *final(cpu) == *old(cpu) && *final(bus) == *old(bus),
        pinout.ctrl.rdy ==> ({ let s0 = *old(cpu); let s1 = spec_after_read(s0, r.data); *final(cpu) == s1 }),
        final(bus).spec_requests() == old(bus).spec_requests() + spec_zeropage_y_read_c2_requests(*old(cpu), pinout),
{
    let mut pinout = pinout;
    if pinout.ctrl.contains(Ctrl::RDY()) == false {
        return pinout;
    }
    let addr = to_address(0, cpu.ops.bal.wrapping_add(cpu.y));
    pinout = read_cycle(cpu, bus, pinout, addr);
    pinout
}

/// The cpu state after the cycle `zeropage_y_read_c3` runs, `r` being the pinout it
/// returns.
pub open spec fn spec_zeropage_y_read_c3<T: Instruction>(cpu: Context, pinout: Pinout, r: Pinout) -> Context {
    if !pinout.ctrl.rdy {
        cpu
    } else {
        ({ let s0 = cpu; let s1 = T::spec_execute(s0); let s2 = spec_poll(s1, pinout); if s2.ir.tm > 0xF { s2 } else { let s3 = spec_after_first_cycle(s2, r.data); s3 } })
    }
}

/// The requests the cycle `zeropage_y_read_c3` puts on the bus, oldest first.
pub open spec fn spec_zeropage_y_read_c3_requests<T: Instruction>(cpu: Context, pinout: Pinout) -> Seq<Pinout> {
    if !pinout.ctrl.rdy {
        Seq::empty()
    } else {
        let s1 = T::spec_execute(cpu);
        let s2 = spec_poll(s1, pinout);
        if s2.ir.tm > 0xF { Seq::empty() } else {
            seq![spec_read_request(Pinout { ctrl: Ctrl { sync: true, ..pinout.ctrl }, ..pinout }, s2.pc.spec_value())]
        }
    }
}

pub fn zeropage_y_read_c3<B: Bus, T: Instruction>(cpu: &mut Context, bus: &mut B, pinout: Pinout) -> (r: Pinout)
    requires
        old(bus).ready(),
    ensures
        final(bus).ready(),
        final(bus).spec_clock() == old(bus).spec_clock(),
        *final(cpu) == spec_zeropage_y_read_c3::<T>(*old(cpu), pinout, r),
        !pinout.ctrl.rdy ==> r == pinout && *final(cpu) == *old(cpu) && *final(bus) == *old(bus),
        pinout.ctrl.rdy ==> ({ let s0 = *old(cpu); let s1 = T::spec_execute(s0); let s2 = spec_poll(s1, pinout); if s2.ir.tm > 0xF { *final(cpu) == s2 && r == pinout } else { let s3 = spec_after_first_cycle(s2, r.data); *final(cpu) == s3 } }),
        final(bus).spec_requests() == old(bus).spec_requests() + spec_zeropage_y_read_c3_requests::<T>(*old(cpu), pinout),
{
    let mut pinout = pinout;
    if pinout.ctrl.contains(Ctrl::RDY()) == false {
        return pinout;
    }
    T::execute(cpu);
    poll_interrupts(cpu, pinout);
    if cpu.ir.tm > 0xF {
        return pinout;
    }
    pinout = first_cycle(cpu, bus, pinout);
    pinout
}

/// The cpu state after the cycle `indirect_y_read_c0` runs, `r` being the pinout it
/// returns.
pub open spec fn spec_indirect_y_read_c0(cpu: Context, pinout: Pinout, r: Pinout) -> Context {
    if !pinout.ctrl.rdy {
        cpu
    } else {
        ({ let s0 = cpu; let s1 = spec_after_read(s0, r.data); let s2 = Context { ops: OpState { ial: s1.ops.dl, ..s1.ops }, ..s1 }; let s3 = Context { pc: s2.pc.spec_incremented(), ..s2 }; s3 })
    }
}

/// The requests the cycle `indirect_y_read_c0` puts on the bus, oldest first.
pub open spec fn spec_indirect_y_read_c0_requests(cpu: Context, pinout: Pinout) -> Seq<Pinout> {
    if !pinout.ctrl.rdy {
        Seq::empty()
    } else {
        seq![spec_read_request(Pinout { ctrl: Ctrl { sync: false, ..pinout.ctrl }, ..pinout }, cpu.pc.spec_value())]
    }
}

pub fn indirect_y_read_c0<B: Bus>(cpu: &mut Context, bus: &mut B, pinout: Pinout) -> (r: Pinout)
    requires
        old(bus).ready(),
    ensures
        final(bus).ready(),
        final(bus).spec_clock() == old(bus).spec_clock(),
        *final(cpu) == spec_indirect_y_read_c0(*old(cpu), pinout, r),
        !pinout.ctrl.rdy ==> r == pinout && *final(cpu) == *old(cpu) && *final(bus) == *old(bus),
        pinout.ctrl.rdy ==> ({ let s0 = *old(cpu); let s1 = spec_after_read(s0, r.data); let s2 = Context { ops: OpState { ial: s1.ops.dl, ..s1.ops }, ..s1 }; let s3 = Context { pc: s2.pc.spec_incremented(), ..s2 }; *final(cpu) == s3 }),
        final(bus).spec_requests() == old(bus).spec_requests() + spec_indirect_y_read_c0_requests(*old(cpu), pinout),
{
    let mut pinout = pinout;
    if pinout.ctrl.contains(Ctrl::RDY()) == false {
        return pinout;
    }
    pinout = second_cycle(cpu, bus, pinout);
    cpu.ops.ial = cpu.ops.dl;
    cpu.pc.increment();
    pinout
}

/// The cpu state after the cycle `indirect_y_read_c1` runs, `r` being the pinout it
/// returns.
pub open spec fn spec_indirect_y_read_c1(cpu: Context, pinout: Pinout, r: Pinout) -> Context {
    if !pinout.ctrl.rdy {
        cpu
    } else {
        ({ let s0 = cpu; let s1 = spec_after_read(s0, r.data); let s2 = Context { ops: OpState { bal: s1.ops.dl, ..s1.ops }, ..s1 }; s2 })
    }
}

/// The requests the cycle `indirect_y_read_c1` puts on the bus, oldest first.
pub open spec fn spec_indirect_y_read_c1_requests(cpu: Context, pinout: Pinout) -> Seq<Pinout> {
    if !pinout.ctrl.rdy {
        Seq::empty()
    } else {
        seq![spec_read_request(pinout, spec_address(0, cpu.ops.ial))]
    }
}

pub fn indirect_y_read_c1<B: Bus>(cpu: &mut Context, bus: &mut B, pinout: Pinout) -> (r: Pinout)
    requires
        old(bus).ready(),
    ensures
        final(bus).ready(),
        final(bus).spec_clock() == old(bus).spec_clock(),
        *final(cpu) == spec_indirect_y_read_c1(*old(cpu), pinout, r),
        !pinout.ctrl.rdy ==> r == pinout && *final(cpu) == *old(cpu) && *final(bus) == *old(bus),
        pinout.ctrl.rdy ==> ({ let s0 = *old(cpu); let s1 = spec_after_read(s0, r.data); let s2 = Context { ops: OpState { bal: s1.ops.dl, ..s1.ops }, ..s1 }; *final(cpu) == s2 }),
        final(bus).spec_requests() == old(bus).spec_requests() + spec_indirect_y_read_c1_requests(*old(cpu), pinout),
{
    let mut pinout = pinout;
    if pinout.ctrl.contains(Ctrl::RDY()) == false {
        return pinout;
    }
    let addr = to_address(0, cpu.ops.ial);
    pinout = read_cycle(cpu, bus, pinout, addr);
    cpu.ops.bal = cpu.ops.dl;
    pinout
}

/// The cpu state after the cycle `indirect_y_read_c2` runs, `r` being the pinout it
/// returns.
pub open spec fn spec_indirect_y_read_c2(cpu: Context, pinout: Pinout, r: Pinout) -> Context {
    if !pinout.ctrl.rdy {
        cpu
    } else {
        ({ let s0 = cpu; let s1 = spec_after_read(s0, r.data); let s2 = Context { ops: OpState { bah: s1.ops.dl, ..s1.ops }, ..s1 }; s2 })
    }
}

/// The requests the cycle `indirect_y_read_c2` puts on the bus, oldest first.
pub open spec fn spec_indirect_y_read_c2_requests(cpu: Context, pinout: Pinout) -> Seq<Pinout> {
    if !pinout.ctrl.rdy {
        Seq::empty()
    } else {
        seq![spec_read_request(pinout, spec_address(0, cpu.ops.ial.wrapping_add(1)))]
    }
}

pub fn indirect_y_read_c2<B: Bus>(cpu: &mut Context, bus: &mut B, pinout: Pinout) -> (r: Pinout)
    requires
        old(bus).ready(),
    ensures
        final(bus).ready(),
        final(bus).spec_clock() == old(bus).spec_clock(),
        *final(cpu) == spec_indirect_y_read_c2(*old(cpu), pinout, r),
        !pinout.ctrl.rdy ==> r == pinout && *final(cpu) == *old(cpu) && *final(bus) == *old(bus),
        pinout.ctrl.rdy ==> ({ let s0 = *old(cpu); let s1 = spec_after_read(s0, r.data); let s2 = Context { ops: OpState { bah: s1.ops.dl, ..s1.ops }, ..s1 }; *final(cpu) == s2 }),
        final(bus).spec_requests() == old(bus).spec_requests() + spec_indirect_y_read_c2_requests(*old(cpu), pinout),
{
    let mut pinout = pinout;
    if pinout.ctrl.contains(Ctrl::RDY()) == false {
        return pinout;
    }
    let addr = to_address(0, cpu.ops.ial.wrapping_add(1));
    pinout = read_cycle(cpu, bus, pinout, addr);
    cpu.ops.bah = cpu.ops.dl;
    pinout
}

/// The cpu state after the cycle `indirect_y_read_c4` runs, `r` being the pinout it
/// returns.
pub open spec fn spec_indirect_y_read_c4(cpu: Context, pinout: Pinout, r: Pinout) -> Context {
    if !pinout.ctrl.rdy {
        cpu
    } else {
        ({ let s0 = cpu; let s1 = Context { ops: OpState { adh: s0.ops.adh.wrapping_add(1), ..s0.ops }, ..s0 }; let s2 = spec_after_read(s1, r.data); s2 })
    }
}

/// The requests the cycle `indirect_y_read_c4` puts on the bus, oldest first.
pub open spec fn spec_indirect_y_read_c4_requests(cpu: Context, pinout: Pinout) -> Seq<Pinout> {
    if !pinout.ctrl.rdy {
        Seq::empty()
    } else {
        let s1 = Context { ops: OpState { adh: cpu.ops.adh.wrapping_add(1), ..cpu.ops }, ..cpu };
        seq![spec_read_request(pinout, spec_address(s1.ops.adh, s1.ops.adl))]
    }
}

pub fn indirect_y_read_c4<B: Bus>(cpu: &mut Context, bus: &mut B, pinout: Pinout) -> (r: Pinout)
    requires
        old(bus).ready(),
    ensures
        final(bus).ready(),
        final(bus).spec_clock() == old(bus).spec_clock(),
        *final(cpu) == spec_indirect_y_read_c4(*old(cpu), pinout, r),
        !pinout.ctrl.rdy ==> r == pinout && *final(cpu) == *old(cpu) && *final(bus) == *old(bus),
        pinout.ctrl.rdy ==> ({ let s0 = *old(cpu); let s1 = Context { ops: OpState { adh: s0.ops.adh.wrapping_add(1), ..s0.ops }, ..s0 }; let s2 = spec_after_read(s1, r.data); *final(cpu) == s2 }),
        final(bus).spec_requests() == old(bus).spec_requests() + spec_indirect_y_read_c4_requests(*old(cpu), pinout),
{
    let mut pinout = pinout;
    if pinout.ctrl.contains(Ctrl::RDY()) == false {
        return pinout;
    }
    cpu.ops.adh = cpu.ops.adh.wrapping_add(1);
    let addr = to_address(cpu.ops.adh, cpu.ops.adl);
    pinout = read_cycle(cpu, bus, pinout, addr);
    pinout
}

/// The cpu state after the cycle `indirect_y_read_c5` runs, `r` being the pinout it
/// returns.
pub open spec fn spec_indirect_y_read_c5<T: Instruction>(cpu: Context, pinout: Pinout, r: Pinout) -> Context {
    if !pinout.ctrl.rdy {
        cpu
    } else {
        ({ let s0 = cpu; let s1 = T::spec_execute(s0); let s2 = spec_poll(s1, pinout); if s2.ir.tm > 0xF { s2 } else { let s3 = spec_after_first_cycle(s2, r.data); s3 } })
    }
}

/// The requests the cycle `indirect_y_read_c5` puts on the bus, oldest first.
pub open spec fn spec_indirect_y_read_c5_requests<T: Instruction>(cpu: Context, pinout: Pinout) -> Seq<Pinout> {
    if !pinout.ctrl.rdy {
        Seq::empty()
    } else {
        let s1 = T::spec_execute(cpu);
        let s2 = spec_poll(s1, pinout);
        if s2.ir.tm > 0xF { Seq::empty() } else {
            seq![spec_read_request(Pinout { ctrl: Ctrl { sync: true, ..pinout.ctrl }, ..pinout }, s2.pc.spec_value())]
        }
    }
}

pub fn indirect_y_read_c5<B: Bus, T: Instruction>(cpu: &mut Context, bus: &mut B, pinout: Pinout) -> (r: Pinout)
    requires
        old(bus).ready(),
    ensures
        final(bus).ready(),
        final(bus).spec_clock() == old(bus).spec_clock(),
        *final(cpu) == spec_indirect_y_read_c5::<T>(*old(cpu), pinout, r),
        !pinout.ctrl.rdy ==> r == pinout && *final(cpu) == *old(cpu) && *final(bus) == *old(bus),
        pinout.ctrl.rdy ==> ({ let s0 = *old(cpu); let s1 = T::spec_execute(s0); let s2 = spec_poll(s1, pinout); if s2.ir.tm > 0xF { *final(cpu) == s2 && r == pinout } else { let s3 = spec_after_first_cycle(s2, r.data); *final(cpu) == s3 } }),
        final(bus).spec_requests() == old(bus).spec_requests() + spec_indirect_y_read_c5_requests::<T>(*old(cpu), pinout),
{
    let mut pinout = pinout;
    if pinout.ctrl.contains(Ctrl::RDY()) == false {
        return pinout;
    }
    T::execute(cpu);
    poll_interrupts(cpu, pinout);
    if cpu.ir.tm > 0xF {
        return pinout;
    }
    pinout = first_cycle(cpu, bus, pinout);
    pinout
}

/// The cpu state after the cycle `zeropage_store_c0` runs, `r` being the pinout it
/// returns.
pub open spec fn spec_zeropage_store_c0(cpu: Context, pinout: Pinout, r: Pinout) -> Context {
    if !pinout.ctrl.rdy {
        cpu
    } else {
        ({ let s0 = cpu; let s1 = spec_after_read(s0, r.data); let s2 = Context { ops: OpState { adl: s1.ops.dl, ..s1.ops }, ..s1 }; let s3 = Context { pc: s2.pc.spec_incremented(), ..s2 }; s3 })
    }
}

/// The requests the cycle `zeropage_store_c0` puts on the bus, oldest first.
pub open spec fn spec_zeropage_store_c0_requests(cpu: Context, pinout: Pinout) -> Seq<Pinout> {
    if !pinout.ctrl.rdy {
        Seq::empty()
    } else {
        seq![spec_read_request(Pinout { ctrl: Ctrl { sync: false, ..pinout.ctrl }, ..pinout }, cpu.pc.spec_value())]
    }
}

pub fn zeropage_store_c0<B: Bus>(cpu: &mut Context, bus: &mut B, pinout: Pinout) -> (r: Pinout)
    requires
        old(bus).ready(),
    ensures
        final(bus).ready(),
        final(bus).spec_clock() == old(bus).spec_clock(),
        *final(cpu) == spec_zeropage_store_c0(*old(cpu), pinout, r),
        !pinout.ctrl.rdy ==> r == pinout && *final(cpu) == *old(cpu) && *final(bus) == *old(bus),
        pinout.ctrl.rdy ==> ({ let s0 = *old(cpu); let s1 = spec_after_read(s0, r.data); let s2 = Context { ops: OpState { adl: s1.ops.dl, ..s1.ops }, ..s1 }; let s3 = Context { pc: s2.pc.spec_incremented(), ..s2 }; *final(cpu) == s3 }),
        final(bus).spec_requests() == old(bus).spec_requests() + spec_zeropage_store_c0_requests(*old(cpu), pinout),
{
    let mut pinout = pinout;
    if pinout.ctrl.contains(Ctrl::RDY()) == false {
        return pinout;
    }
    pinout = second_cycle(cpu, bus, pinout);
    cpu.ops.adl = cpu.ops.dl;
    cpu.pc.increment();
    pinout
}

/// The cpu state after the cycle `zeropage_store_c1` runs, `r` being the pinout it
/// returns.
pub open spec fn spec_zeropage_store_c1<T: Instruction>(cpu: Context, pinout: Pinout, r: Pinout) -> Context {
    ({ let s0 = cpu; let s1 = T::spec_execute(s0); let s2 = spec_after_write(s1); let s3 = spec_poll(s2, r); s3 })
}

/// The requests the cycle `zeropage_store_c1` puts on the bus, oldest first.
pub open spec fn spec_zeropage_store_c1_requests<T: Instruction>(cpu: Context, pinout: Pinout) -> Seq<Pinout> {
    let s1 = T::spec_execute(cpu);
    seq![spec_write_request(pinout, spec_address(0, s1.ops.adl), s1.ops.dl)]
}

pub fn zeropage_store_c1<B: Bus, T: Instruction>(cpu: &mut Context, bus: &mut B, pinout: Pinout) -> (r: Pinout)
    requires
        old(bus).ready(),
    ensures
        final(bus).ready(),
        final(bus).spec_clock() == old(bus).spec_clock(),
        *final(cpu) == spec_zeropage_store_c1::<T>(*old(cpu), pinout, r),
        ({ let s0 = *old(cpu); let s1 = T::spec_execute(s0); let s2 = spec_after_write(s1); let s3 = spec_poll(s2, r); *final(cpu) == s3 }),
        final(bus).spec_requests() == old(bus).spec_requests() + spec_zeropage_store_c1_requests::<T>(*old(cpu), pinout),
{
    let mut pinout = pinout;
    T::execute(cpu);
    let addr = to_address(0, cpu.ops.adl);
    let data = cpu.ops.dl;
    pinout = write_cycle(cpu, bus, pinout, addr, data);
    poll_interrupts(cpu, pinout);
    if cpu.ir.tm > 0xF {
        return pinout;
    }
    pinout
}

/// The cpu state after the cycle `zeropage_store_c2` runs, `r` being the pinout it
/// returns.
pub open spec fn spec_zeropage_store_c2(cpu: Context, pinout: Pinout, r: Pinout) -> Context {
    if !pinout.ctrl.rdy {
        cpu
    } else {
        ({ let s0 = cpu; let s1 = spec_after_first_cycle(s0, r.data); s1 })
    }
}

/// The requests the cycle `zeropage_store_c2` puts on the bus, oldest first.
pub open spec fn spec_zeropage_store_c2_requests(cpu: Context, pinout: Pinout) -> Seq<Pinout> {
    if !pinout.ctrl.rdy {
        Seq::empty()
    } else {
        seq![spec_read_request(Pinout { ctrl: Ctrl { sync: true, ..pinout.ctrl }, ..pinout }, cpu.pc.spec_value())]
    }
}

pub fn zeropage_store_c2<B: Bus>(cpu: &mut Context, bus: &mut B, pinout: Pinout) -> (r: Pinout)
    requires
        old(bus).ready(),
    ensures
        final(bus).ready(),
        final(bus).spec_clock() == old(bus).spec_clock(),
        *final(cpu) == spec_zeropage_store_c2(*old(cpu), pinout, r),
        !pinout.ctrl.rdy ==> r == pinout && *final(cpu) == *old(cpu) && *final(bus) == *old(bus),
        pinout.ctrl.rdy ==> ({ let s0 = *old(cpu); let s1 = spec_after_first_cycle(s0, r.data); *final(cpu) == s1 }),
        final(bus).spec_requests() == old(bus).spec_requests() + spec_zeropage_store_c2_requests(*old(cpu), pinout),
{
    let mut pinout = pinout;
    if pinout.ctrl.contains(Ctrl::RDY()) == false {
        return pinout;
    }
    pinout = first_cycle(cpu, bus, pinout);
    pinout
}

/// The cpu state after the cycle `absolute_store_c0` runs, `r` being the pinout it
/// returns.
pub open spec fn spec_absolute_store_c0(cpu: Context, pinout: Pinout, r: Pinout) -> Context {
    if !pinout.ctrl.rdy {
        cpu
    } else {
        ({ let s0 = cpu; let s1 = spec_after_read(s0, r.data); let s2 = Context { ops: OpState { adl: s1.ops.dl, ..s1.ops }, ..s1 }; let s3 = Context { pc: s2.pc.spec_incremented(), ..s2 }; s3 })
    }
}

/// The requests the cycle `absolute_store_c0` puts on the bus, oldest first.
pub open spec fn spec_absolute_store_c0_requests(cpu: Context, pinout: Pinout) -> Seq<Pinout> {
    if !pinout.ctrl.rdy {
        Seq::empty()
    } else {
        seq![spec_read_request(Pinout { ctrl: Ctrl { sync: false, ..pinout.ctrl }, ..pinout }, cpu.pc.spec_value())]
    }
}

pub fn absolute_store_c0<B: Bus>(cpu: &mut Context, bus: &mut B, pinout: Pinout) -> (r: Pinout)
    requires
        old(bus).ready(),
    ensures
        final(bus).ready(),
        final(bus).spec_clock() == old(bus).spec_clock(),
        *final(cpu) == spec_absolute_store_c0(*old(cpu), pinout, r),
        !pinout.ctrl.rdy ==> r == pinout && *final(cpu) == *old(cpu) && *final(bus) == *old(bus),
        pinout.ctrl.rdy ==> ({ let s0 = *old(cpu); let s1 = spec_after_read(s0, r.data); let s2 = Context { ops: OpState { adl: s1.ops.dl, ..s1.ops }, ..s1 }; let s3 = Context { pc: s2.pc.spec_incremented(), ..s2 }; *final(cpu) == s3 }),
        final(bus).spec_requests() == old(bus).spec_requests() + spec_absolute_store_c0_requests(*old(cpu), pinout),
{
    let mut pinout = pinout;
    if pinout.ctrl.contains(Ctrl::RDY()) == false {
        return pinout;
    }
    pinout = second_cycle(cpu, bus, pinout);
    cpu.ops.adl = cpu.ops.dl;
    cpu.pc.increment();
    pinout
}

/// The cpu state after the cycle `absolute_store_c1` runs, `r` being the pinout it
/// returns.
pub open spec fn spec_absolute_store_c1(cpu: Context, pinout: Pinout, r: Pinout) -> Context {
    if !pinout.ctrl.rdy {
        cpu
    } else {
        ({ let s0 = cpu; let s1 = spec_after_read(s0, r.data); let s2 = Context { ops: OpState { adh: s1.ops.dl, ..s1.ops }, ..s1 }; let s3 = Context { pc: s2.pc.spec_incremented(), ..s2 }; s3 })
    }
}

/// The requests the cycle `absolute_store_c1` puts on the bus, oldest first.
pub open spec fn spec_absolute_store_c1_requests(cpu: Context, pinout: Pinout) -> Seq<Pinout> {
    if !pinout.ctrl.rdy {
        Seq::empty()
    } else {
        seq![spec_read_request(pinout, cpu.pc.spec_value())]
    }
}

pub fn absolute_store_c1<B: Bus>(cpu: &mut Context, bus: &mut B, pinout: Pinout) -> (r: Pinout)
    requires
        old(bus).ready(),
    ensures
        final(bus).ready(),
        final(bus).spec_clock() == old(bus).spec_clock(),
        *final(cpu) == spec_absolute_store_c1(*old(cpu), pinout, r),
        !pinout.ctrl.rdy ==> r == pinout && *final(cpu) == *old(cpu) && *final(bus) == *old(bus),
        pinout.ctrl.rdy ==> ({ let s0 = *old(cpu); let s1 = spec_after_read(s0, r.data); let s2 = Context { ops: OpState { adh: s1.ops.dl, ..s1.ops }, ..s1 }; let s3 = Context { pc: s2.pc.spec_incremented(), ..s2 }; *final(cpu) == s3 }),
        final(bus).spec_requests() == old(bus).spec_requests() + spec_absolute_store_c1_requests(*old(cpu), pinout),
{
    let mut pinout = pinout;
    if pinout.ctrl.contains(Ctrl::RDY()) == false {
        return pinout;
    }
    let addr = cpu.pc.value();
    pinout = read_cycle(cpu, bus, pinout, addr);
    cpu.ops.adh = cpu.ops.dl;
    cpu.pc.increment();
    pinout
}

/// The cpu state after the cycle `absolute_store_c2` runs, `r` being the pinout it
/// returns.
pub open spec fn spec_absolute_store_c2<T: Instruction>(cpu: Context, pinout: Pinout, r: Pinout) -> Context {
    ({ let s0 = cpu; let s1 = T::spec_execute(s0); let s2 = spec_after_write(s1); let s3 = spec_poll(s2, r); s3 })
}

/// The requests the cycle `absolute_store_c2` puts on the bus, oldest first.
pub open spec fn spec_absolute_store_c2_requests<T: Instruction>(cpu: Context, pinout: Pinout) -> Seq<Pinout> {
    let s1 = T::spec_execute(cpu);
    seq![spec_write_request(pinout, spec_address(s1.ops.adh, s1.ops.adl), s1.ops.dl)]
}

pub fn absolute_store_c2<B: Bus, T: Instruction>(cpu: &mut Context, bus: &mut B, pinout: Pinout) -> (r: Pinout)
    requires
        old(bus).ready(),
    ensures
        final(bus).ready(),
        final(bus).spec_clock() == old(bus).spec_clock(),
        *final(cpu) == spec_absolute_store_c2::<T>(*old(cpu), pinout, r),
        ({ let s0 = *old(cpu); let s1 = T::spec_execute(s0); let s2 = spec_after_write(s1); let s3 = spec_poll(s2, r); *final(cpu) == s3 }),
        final(bus).spec_requests() == old(bus).spec_requests() + spec_absolute_store_c2_requests::<T>(*old(cpu), pinout),
{
    let mut pinout = pinout;
    T::execute(cpu);
    let addr = to_address(cpu.ops.adh, cpu.ops.adl);
    let data = cpu.ops.dl;
    pinout = write_cycle(cpu, bus, pinout, addr, data);
    poll_interrupts(cpu, pinout);
    if cpu.ir.tm > 0xF {
        return pinout;
    }
    pinout
}

/// The cpu state after the cycle `absolute_store_c3` runs, `r` being the pinout it
/// returns.
pub open spec fn spec_absolute_store_c3(cpu: Context, pinout: Pinout, r: Pinout) -> Context {
    if !pinout.ctrl.rdy {
        cpu
    } else {
        ({ let s0 = cpu; let s1 = spec_after_first_cycle(s0, r.data); s1 })
    }
}

/// The requests the cycle `absolute_store_c3` puts on the bus, oldest first.
pub open spec fn spec_absolute_store_c3_requests(cpu: Context, pinout: Pinout) -> Seq<Pinout> {
    if !pinout.ctrl.rdy {
        Seq::empty()
    } else {
        seq![spec_read_request(Pinout { ctrl: Ctrl { sync: true, ..pinout.ctrl }, ..pinout }, cpu.pc.spec_value())]
    }
}

pub fn absolute_store_c3<B: Bus>(cpu: &mut Context, bus: &mut B, pinout: Pinout) -> (r: Pinout)
    requires
        old(bus).ready(),
    ensures
        final(bus).ready(),
        final(bus).spec_clock() == old(bus).spec_clock(),
        *final(cpu) == spec_absolute_store_c3(*old(cpu), pinout, r),
        !pinout.ctrl.rdy ==> r == pinout && *final(cpu) == *old(cpu) && *final(bus) == *old(bus),
        pinout.ctrl.rdy ==> ({ let s0 = *old(cpu); let s1 = spec_after_first_cycle(s0, r.data); *final(cpu) == s1 }),
        final(bus).spec_requests() == old(bus).spec_requests() + spec_absolute_store_c3_requests(*old(cpu), pinout),
{
    let mut pinout = pinout;
    if pinout.ctrl.contains(Ctrl::RDY()) == false {
        return pinout;
    }
    pinout = first_cycle(cpu, bus, pinout);
    pinout
}

/// The cpu state after the cycle `indirect_x_store_c0` runs, `r` being the pinout it
/// returns.
pub open spec fn spec_indirect_x_store_c0(cpu: Context, pinout: Pinout, r: Pinout) -> Context {
    if !pinout.ctrl.rdy {
        cpu
    } else {
        ({ let s0 = cpu; let s1 = spec_after_read(s0, r.data); let s2 = Context { ops: OpState { bal: s1.ops.dl, ..s1.ops }, ..s1 }; let s3 = Context { pc: s2.pc.spec_incremented(), ..s2 }; s3 })
    }
}

/// The requests the cycle `indirect_x_store_c0` puts on the bus, oldest first.
pub open spec fn spec_indirect_x_store_c0_requests(cpu: Context, pinout: Pinout) -> Seq<Pinout> {
    if !pinout.ctrl.rdy {
        Seq::empty()
    } else {
        seq![spec_read_request(Pinout { ctrl: Ctrl { sync: false, ..pinout.ctrl }, ..pinout }, cpu.pc.spec_value())]
    }
}

pub fn indirect_x_store_c0<B: Bus>(cpu: &mut Context, bus: &mut B, pinout: Pinout) -> (r: Pinout)
    requires
        old(bus).ready(),
    ensures
        final(bus).ready(),
        final(bus).spec_clock() == old(bus).spec_clock(),
        *final(cpu) == spec_indirect_x_store_c0(*old(cpu), pinout, r),
        !pinout.ctrl.rdy ==> r == pinout && *final(cpu) == *old(cpu) && *final(bus) == *old(bus),
        pinout.ctrl.rdy ==> ({ let s0 = *old(cpu); let s1 = spec_after_read(s0, r.data); let s2 = Context { ops: OpState { bal: s1.ops.dl, ..s1.ops }, ..s1 }; let s3 = Context { pc: s2.pc.spec_incremented(), ..s2 }; *final(cpu) == s3 }),
        final(bus).spec_requests() == old(bus).spec_requests() + spec_indirect_x_store_c0_requests(*old(cpu), pinout),
{
    let mut pinout = pinout;
    if pinout.ctrl.contains(Ctrl::RDY()) == false {
        return pinout;
    }
    pinout = second_cycle(cpu, bus, pinout);
    cpu.ops.bal = cpu.ops.dl;
    cpu.pc.increment();
    pinout
}

/// The cpu state after the cycle `indirect_x_store_c1` runs, `r` being the pinout it
/// returns.
pub open spec fn spec_indirect_x_store_c1(cpu: Context, pinout: Pinout, r: Pinout) -> Context {
    if !pinout.ctrl.rdy {
        cpu
    } else {
        ({ let s0 = cpu; let s1 = spec_after_read(s0, r.data); s1 })
    }
}

/// The requests the cycle `indirect_x_store_c1` puts on the bus, oldest first.
pub open spec fn spec_indirect_x_store_c1_requests(cpu: Context, pinout: Pinout) -> Seq<Pinout> {
    if !pinout.ctrl.rdy {
        Seq::empty()
    } else {
        seq![spec_read_request(pinout, spec_address(0, cpu.ops.bal))]
    }
}

pub fn indirect_x_store_c1<B: Bus>(cpu: &mut Context, bus: &mut B, pinout: Pinout) -> (r: Pinout)
    requires
        old(bus).ready(),
    ensures
        final(bus).ready(),
        final(bus).spec_clock() == old(bus).spec_clock(),
        *final(cpu) == spec_indirect_x_store_c1(*old(cpu), pinout, r),
        !pinout.ctrl.rdy ==> r == pinout && *final(cpu) == *old(cpu) && *final(bus) == *old(bus),
        pinout.ctrl.rdy ==> ({ let s0 = *old(cpu); let s1 = spec_after_read(s0, r.data); *final(cpu) == s1 }),
        final(bus).spec_requests() == old(bus).spec_requests() + spec_indirect_x_store_c1_requests(*old(cpu), pinout),
{
    let mut pinout = pinout;
    if pinout.ctrl.contains(Ctrl::RDY()) == false {
        return pinout;
    }
    let addr = to_address(0, cpu.ops.bal);
    pinout = read_cycle(cpu, bus, pinout, addr);
    pinout
}

/// The cpu state after the cycle `indirect_x_store_c2` runs, `r` being the pinout it
/// returns.
pub open spec fn spec_indirect_x_store_c2(cpu: Context, pinout: Pinout, r: Pinout) -> Context {
    if !pinout.ctrl.rdy {
        cpu
    } else {
        ({ let s0 = cpu; let s1 = spec_after_read(s0, r.data); let s2 = Context { ops: OpState { adl: s1.ops.dl, ..s1.ops }, ..s1 }; s2 })
    }
}

/// The requests the cycle `indirect_x_store_c2` puts on the bus, oldest first.
pub open spec fn spec_indirect_x_store_c2_requests(cpu: Context, pinout: Pinout) -> Seq<Pinout> {
    if !pinout.ctrl.rdy {
        Seq::empty()
    } else {
        seq![spec_read_request(pinout, spec_address(0, cpu.ops.bal.wrapping_add(cpu.x)))]
    }
}

pub fn indirect_x_store_c2<B: Bus>(cpu: &mut Context, bus: &mut B, pinout: Pinout) -> (r: Pinout)
    requires
        old(bus).ready(),
    ensures
        final(bus).ready(),
        final(bus).spec_clock() == old(bus).spec_clock(),
        *final(cpu) == spec_indirect_x_store_c2(*old(cpu), pinout, r),
        !pinout.ctrl.rdy ==> r == pinout && *final(cpu) == *old(cpu) && *final(bus) == *old(bus),
        pinout.ctrl.rdy ==> ({ let s0 = *old(cpu); let s1 = spec_after_read(s0, r.data); let s2 = Context { ops: OpState { adl: s1.ops.dl, ..s1.ops }, ..s1 }; *final(cpu) == s2 }),
        final(bus).spec_requests() == old(bus).spec_requests() + spec_indirect_x_store_c2_requests(*old(cpu), pinout),
{
    let mut pinout = pinout;
    if pinout.ctrl.contains(Ctrl::RDY()) == false {
        return pinout;
    }
    let addr = to_address(0, cpu.ops.bal.wrapping_add(cpu.x));
    pinout = read_cycle(cpu, bus, pinout, addr);
    cpu.ops.adl = cpu.ops.dl;
    pinout
}

/// The cpu state after the cycle `indirect_x_store_c3` runs, `r` being the pinout it
/// returns.
pub open spec fn spec_indirect_x_store_c3(cpu: Context, pinout: Pinout, r: Pinout) -> Context {
    if !pinout.ctrl.rdy {
        cpu
    } else {
        ({ let s0 = cpu; let s1 = spec_after_read(s0, r.data); let s2 = Context { ops: OpState { adh: s1.ops.dl, ..s1.ops }, ..s1 }; s2 })
    }
}

/// The requests the cycle `indirect_x_store_c3` puts on the bus, oldest first.
pub open spec fn spec_indirect_x_store_c3_requests(cpu: Context, pinout: Pinout) -> Seq<Pinout> {
    if !pinout.ctrl.rdy {
        Seq::empty()
    } else {
        seq![spec_read_request(pinout, spec_address(0, cpu.ops.bal.wrapping_add(cpu.x).wrapping_add(1)))]
    }
}

pub fn indirect_x_store_c3<B: Bus>(cpu: &mut Context, bus: &mut B, pinout: Pinout) -> (r: Pinout)
    requires
        old(bus).ready(),
    ensures
        final(bus).ready(),
        final(bus).spec_clock() == old(bus).spec_clock(),
        *final(cpu) == spec_indirect_x_store_c3(*old(cpu), pinout, r),
        !pinout.ctrl.rdy ==> r == pinout && *final(cpu) == *old(cpu) && *final(bus) == *old(bus),
        pinout.ctrl.rdy ==> ({ let s0 = *old(cpu); let s1 = spec_after_read(s0, r.data); let s2 = Context { ops: OpState { adh: s1.ops.dl, ..s1.ops }, ..s1 }; *final(cpu) == s2 }),
        final(bus).spec_requests() == old(bus).spec_requests() + spec_indirect_x_store_c3_requests(*old(cpu), pinout),
{
    let mut pinout = pinout;
    if pinout.ctrl.contains(Ctrl::RDY()) == false {
        return pinout;
    }
    let addr = to_address(0, cpu.ops.bal.wrapping_add(cpu.x).wrapping_add(1));
    pinout = read_cycle(cpu, bus, pinout, addr);
    cpu.ops.adh = cpu.ops.dl;
    pinout
}

/// The cpu state after the cycle `indirect_x_store_c4` runs, `r` being the pinout it
/// returns.
pub open spec fn spec_indirect_x_store_c4<T: Instruction>(cpu: Context, pinout: Pinout, r: Pinout) -> Context {
    ({ let s0 = cpu; let s1 = T::spec_execute(s0); let s2 = spec_after_write(s1); let s3 = spec_poll(s2, r); s3 })
}

/// The requests the cycle `indirect_x_store_c4` puts on the bus, oldest first.
pub open spec fn spec_indirect_x_store_c4_requests<T: Instruction>(cpu: Context, pinout: Pinout) -> Seq<Pinout> {
    let s1 = T::spec_execute(cpu);
    seq![spec_write_request(pinout, spec_address(s1.ops.adh, s1.ops.adl), s1.ops.dl)]
}

pub fn indirect_x_store_c4<B: Bus, T: Instruction>(cpu: &mut Context, bus: &mut B, pinout: Pinout) -> (r: Pinout)
    requires
        old(bus).ready(),
    ensures
        final(bus).ready(),
        final(bus).spec_clock() == old(bus).spec_clock(),
        *final(cpu) == spec_indirect_x_store_c4::<T>(*old(cpu), pinout, r),
        ({ let s0 = *old(cpu); let s1 = T::spec_execute(s0); let s2 = spec_after_write(s1); let s3 = spec_poll(s2, r); *final(cpu) == s3 }),
        final(bus).spec_requests() == old(bus).spec_requests() + spec_indirect_x_store_c4_requests::<T>(*old(cpu), pinout),
{
    let mut pinout = pinout;
    T::execute(cpu);
    let addr = to_address(cpu.ops.adh, cpu.ops.adl);
    let data = cpu.ops.dl;
    pinout = write_cycle(cpu, bus, pinout, addr, data);
    poll_interrupts(cpu, pinout);
    if cpu.ir.tm > 0xF {
        return pinout;
    }
    pinout
}

/// The cpu state after the cycle `indirect_x_store_c5` runs, `r` being the pinout it
/// returns.
pub open spec fn spec_indirect_x_store_c5(cpu: Context, pinout: Pinout, r: Pinout) -> Context {
    if !pinout.ctrl.rdy {
        cpu
    } else {
        ({ let s0 = cpu; let s1 = spec_after_first_cycle(s0, r.data); s1 })
    }
}

/// The requests the cycle `indirect_x_store_c5` puts on the bus, oldest first.
pub open spec fn spec_indirect_x_store_c5_requests(cpu: Context, pinout: Pinout) -> Seq<Pinout> {
    if !pinout.ctrl.rdy {
        Seq::empty()
    } else {
        seq![spec_read_request(Pinout { ctrl: Ctrl { sync: true, ..pinout.ctrl }, ..pinout }, cpu.pc.spec_value())]
    }
}

pub fn indirect_x_store_c5<B: Bus>(cpu: &mut Context, bus: &mut B, pinout: Pinout) -> (r: Pinout)
    requires
        old(bus).ready(),
    ensures
        final(bus).ready(),
        final(bus).spec_clock() == old(bus).spec_clock(),
        *final(cpu) == spec_indirect_x_store_c5(*old(cpu), pinout, r),
        !pinout.ctrl.rdy ==> r == pinout && *final(cpu) == *old(cpu) && *final(bus) == *old(bus),
        pinout.ctrl.rdy ==> ({ let s0 = *old(cpu); let s1 = spec_after_first_cycle(s0, r.data); *final(cpu) == s1 }),
        final(bus).spec_requests() == old(bus).spec_requests() + spec_indirect_x_store_c5_requests(*old(cpu), pinout),
{
    let mut pinout = pinout;
    if pinout.ctrl.contains(Ctrl::RDY()) == false {
        return pinout;
    }
    pinout = first_cycle(cpu, bus, pinout);
    pinout
}

/// The cpu state after the cycle `absolute_x_store_c0` runs, `r` being the pinout it
/// returns.
pub open spec fn spec_absolute_x_store_c0(cpu: Context, pinout: Pinout, r: Pinout) -> Context {
    if !pinout.ctrl.rdy {
        cpu
    } else {
        ({ let s0 = cpu; let s1 = spec_after_read(s0, r.data); let s2 = Context { ops: OpState { bal: s1.ops.dl, ..s1.ops }, ..s1 }; let s3 = Context { pc: s2.pc.spec_incremented(), ..s2 }; s3 })
    }
}

/// The requests the cycle `absolute_x_store_c0` puts on the bus, oldest first.
pub open spec fn spec_absolute_x_store_c0_requests(cpu: Context, pinout: Pinout) -> Seq<Pinout> {
    if !pinout.ctrl.rdy {
        Seq::empty()
    } else {
        seq![spec_read_request(Pinout { ctrl: Ctrl { sync: false, ..pinout.ctrl }, ..pinout }, cpu.pc.spec_value())]
    }
}

pub fn absolute_x_store_c0<B: Bus>(cpu: &mut Context, bus: &mut B, pinout: Pinout) -> (r: Pinout)
    requires
        old(bus).ready(),
    ensures
        final(bus).ready(),
        final(bus).spec_clock() == old(bus).spec_clock(),
        *final(cpu) == spec_absolute_x_store_c0(*old(cpu), pinout, r),
        !pinout.ctrl.rdy ==> r == pinout && *final(cpu) == *old(cpu) && *final(bus) == *old(bus),
        pinout.ctrl.rdy ==> ({ let s0 = *old(cpu); let s1 = spec_after_read(s0, r.data); let s2 = Context { ops: OpState { bal: s1.ops.dl, ..s1.ops }, ..s1 }; let s3 = Context { pc: s2.pc.spec_incremented(), ..s2 }; *final(cpu) == s3 }),
        final(bus).spec_requests() == old(bus).spec_requests() + spec_absolute_x_store_c0_requests(*old(cpu), pinout),
{
    let mut pinout = pinout;
    if pinout.ctrl.contains(Ctrl::RDY()) == false {
        return pinout;
    }
    pinout = second_cycle(cpu, bus, pinout);
    cpu.ops.bal = cpu.ops.dl;
    cpu.pc.increment();
    pinout
}

/// The cpu state after the cycle `absolute_x_store_c1` runs, `r` being the pinout it
/// returns.
pub open spec fn spec_absolute_x_store_c1(cpu: Context, pinout: Pinout, r: Pinout) -> Context {
    if !pinout.ctrl.rdy {
        cpu
    } else {
        ({ let s0 = cpu; let s1 = spec_after_read(s0, r.data); let s2 = Context { ops: OpState { bah: s1.ops.dl, ..s1.ops }, ..s1 }; let s3 = Context { pc: s2.pc.spec_incremented(), ..s2 }; s3 })
    }
}

/// The requests the cycle `absolute_x_store_c1` puts on the bus, oldest first.
pub open spec fn spec_absolute_x_store_c1_requests(cpu: Context, pinout: Pinout) -> Seq<Pinout> {
    if !pinout.ctrl.rdy {
        Seq::empty()
    } else {
        seq![spec_read_request(pinout, cpu.pc.spec_value())]
    }
}

pub fn absolute_x_store_c1<B: Bus>(cpu: &mut Context, bus: &mut B, pinout: Pinout) -> (r: Pinout)
    requires
        old(bus).ready(),
    ensures
        final(bus).ready(),
        final(bus).spec_clock() == old(bus).spec_clock(),
        *final(cpu) == spec_absolute_x_store_c1(*old(cpu), pinout, r),
        !pinout.ctrl.rdy ==> r == pinout && *final(cpu) == *old(cpu) && *final(bus) == *old(bus),
        pinout.ctrl.rdy ==> ({ let s0 = *old(cpu); let s1 = spec_after_read(s0, r.data); let s2 = Context { ops: OpState { bah: s1.ops.dl, ..s1.ops }, ..s1 }; let s3 = Context { pc: s2.pc.spec_incremented(), ..s2 }; *final(cpu) == s3 }),
        final(bus).spec_requests() == old(bus).spec_requests() + spec_absolute_x_store_c1_requests(*old(cpu), pinout),
{
    let mut pinout = pinout;
    if pinout.ctrl.contains(Ctrl::RDY()) == false {
        return pinout;
    }
    let addr = cpu.pc.value();
    pinout = read_cycle(cpu, bus, pinout, addr);
    cpu.ops.bah = cpu.ops.dl;
    cpu.pc.increment();
    pinout
}

/// The cpu state after the cycle `absolute_x_store_c2` runs, `r` being the pinout it
/// returns.
pub open spec fn spec_absolute_x_store_c2(cpu: Context, pinout: Pinout, r: Pinout) -> Context {
    if !pinout.ctrl.rdy {
        cpu
    } else {
        ({ let s0 = cpu; let bal = (s0.ops.bal.wrapping_add(s0.x), s0.ops.bal + s0.x > 255); let s1 = Context { ops: OpState { adl: bal.0, ..s0.ops }, ..s0 }; let s2 = Context { ops: OpState { adh: s1.ops.bah, ..s1.ops }, ..s1 }; let s3 = spec_after_read(s2, r.data); let s4 = Context { ops: OpState { adh: s3.ops.bah.wrapping_add(if bal.1 { 1u8 } else { 0 }), ..s3.ops }, ..s3 }; s4 })
    }
}

/// The requests the cycle `absolute_x_store_c2` puts on the bus, oldest first.
pub open spec fn spec_absolute_x_store_c2_requests(cpu: Context, pinout: Pinout) -> Seq<Pinout> {
    if !pinout.ctrl.rdy {
        Seq::empty()
    } else {
        let bal = (cpu.ops.bal.wrapping_add(cpu.x), cpu.ops.bal + cpu.x > 255);
        let s1 = Context { ops: OpState { adl: bal.0, ..cpu.ops }, ..cpu };
        let s2 = Context { ops: OpState { adh: s1.ops.bah, ..s1.ops }, ..s1 };
        seq![spec_read_request(pinout, spec_address(s2.ops.adh, s2.ops.adl))]
    }
}

pub fn absolute_x_store_c2<B: Bus>(cpu: &mut Context, bus: &mut B, pinout: Pinout) -> (r: Pinout)
    requires
        old(bus).ready(),
    ensures
        final(bus).ready(),
        final(bus).spec_clock() == old(bus).spec_clock(),
        *final(cpu) == spec_absolute_x_store_c2(*old(cpu), pinout, r),
        !pinout.ctrl.rdy ==> r == pinout && *final(cpu) == *old(cpu) && *final(bus) == *old(bus),
        pinout.ctrl.rdy ==> ({ let s0 = *old(cpu); let bal = (s0.ops.bal.wrapping_add(s0.x), s0.ops.bal + s0.x > 255); let s1 = Context { ops: OpState { adl: bal.0, ..s0.ops }, ..s0 }; let s2 = Context { ops: OpState { adh: s1.ops.bah, ..s1.ops }, ..s1 }; let s3 = spec_after_read(s2, r.data); let s4 = Context { ops: OpState { adh: s3.ops.bah.wrapping_add(if bal.1 { 1u8 } else { 0 }), ..s3.ops }, ..s3 }; *final(cpu) == s4 }),
        final(bus).spec_requests() == old(bus).spec_requests() + spec_absolute_x_store_c2_requests(*old(cpu), pinout),
{
    let mut pinout = pinout;
    if pinout.ctrl.contains(Ctrl::RDY()) == false {
        return pinout;
    }
    let bal = overflowing_add(cpu.ops.bal, cpu.x);
    cpu.ops.adl = bal.0;
    cpu.ops.adh = cpu.ops.bah;
    let addr = to_address(cpu.ops.adh, cpu.ops.adl);
    pinout = read_cycle(cpu, bus, pinout, addr);
    cpu.ops.adh = cpu.ops.bah.wrapping_add(if bal.1 { 1u8 } else { 0 });
    pinout
}

/// The cpu state after the cycle `absolute_x_store_c3` runs, `r` being the pinout it
/// returns.
pub open spec fn spec_absolute_x_store_c3<T: Instruction>(cpu: Context, pinout: Pinout, r: Pinout) -> Context {
    ({ let s0 = cpu; let s1 = T::spec_execute(s0); let s2 = spec_after_write(s1); let s3 = spec_poll(s2, r); s3 })
}

/// The requests the cycle `absolute_x_store_c3` puts on the bus, oldest first.
pub open spec fn spec_absolute_x_store_c3_requests<T: Instruction>(cpu: Context, pinout: Pinout) -> Seq<Pinout> {
    let s1 = T::spec_execute(cpu);
    seq![spec_write_request(pinout, spec_address(s1.ops.adh, s1.ops.adl), s1.ops.dl)]
}

pub fn absolute_x_store_c3<B: Bus, T: Instruction>(cpu: &mut Context, bus: &mut B, pinout: Pinout) -> (r: Pinout)
    requires
        old(bus).ready(),
    ensures
        final(bus).ready(),
        final(bus).spec_clock() == old(bus).spec_clock(),
        *final(cpu) == spec_absolute_x_store_c3::<T>(*old(cpu), pinout, r),
        ({ let s0 = *old(cpu); let s1 = T::spec_execute(s0); let s2 = spec_after_write(s1); let s3 = spec_poll(s2, r); *final(cpu) == s3 }),
        final(bus).spec_requests() == old(bus).spec_requests() + spec_absolute_x_store_c3_requests::<T>(*old(cpu), pinout),
{
    let mut pinout = pinout;
    T::execute(cpu);
    let addr = to_address(cpu.ops.adh, cpu.ops.adl);
    let data = cpu.ops.dl;
    pinout = write_cycle(cpu, bus, pinout, addr, data);
    poll_interrupts(cpu, pinout);
    if cpu.ir.tm > 0xF {
        return pinout;
    }
    pinout
}

/// The cpu state after the cycle `absolute_x_store_c4` runs, `r` being the pinout it
/// returns.
pub open spec fn spec_absolute_x_store_c4(cpu: Context, pinout: Pinout, r: Pinout) -> Context {
    if !pinout.ctrl.rdy {
        cpu
    } else {
        ({ let s0 = cpu; let s1 = spec_after_first_cycle(s0, r.data); s1 })
    }
}

/// The requests the cycle `absolute_x_store_c4` puts on the bus, oldest first.
pub open spec fn spec_absolute_x_store_c4_requests(cpu: Context, pinout: Pinout) -> Seq<Pinout> {
    if !pinout.ctrl.rdy {
        Seq::empty()
    } else {
        seq![spec_read_request(Pinout { ctrl: Ctrl { sync: true, ..pinout.ctrl }, ..pinout }, cpu.pc.spec_value())]
    }
}

pub fn absolute_x_store_c4<B: Bus>(cpu: &mut Context, bus: &mut B, pinout: Pinout) -> (r: Pinout)
    requires
        old(bus).ready(),
    ensures
        final(bus).ready(),
        final(bus).spec_clock() == old(bus).spec_clock(),
        *final(cpu) == spec_absolute_x_store_c4(*old(cpu), pinout, r),
        !pinout.ctrl.rdy ==> r == pinout && *final(cpu) == *old(cpu) && *final(bus) == *old(bus),
        pinout.ctrl.rdy ==> ({ let s0 = *old(cpu); let s1 = spec_after_first_cycle(s0, r.data); *final(cpu) == s1 }),
        final(bus).spec_requests() == old(bus).spec_requests() + spec_absolute_x_store_c4_requests(*old(cpu), pinout),
{
    let mut pinout = pinout;
    if pinout.ctrl.contains(Ctrl::RDY()) == false {
        return pinout;
    }
    pinout = first_cycle(cpu, bus, pinout);
    pinout
}

/// The cpu state after the cycle `absolute_y_store_c0` runs, `r` being the pinout it
/// returns.
pub open spec fn spec_absolute_y_store_c0(cpu: Context, pinout: Pinout, r: Pinout) -> Context {
    if !pinout.ctrl.rdy {
        cpu
    } else {
        ({ let s0 = cpu; let s1 = spec_after_read(s0, r.data); let s2 = Context { ops: OpState { bal: s1.ops.dl, ..s1.ops }, ..s1 }; let s3 = Context { pc: s2.pc.spec_incremented(), ..s2 }; s3 })
    }
}

/// The requests the cycle `absolute_y_store_c0` puts on the bus, oldest first.
pub open spec fn spec_absolute_y_store_c0_requests(cpu: Context, pinout: Pinout) -> Seq<Pinout> {
    if !pinout.ctrl.rdy {
        Seq::empty()
    } else {
        seq![spec_read_request(Pinout { ctrl: Ctrl { sync: false, ..pinout.ctrl }, ..pinout }, cpu.pc.spec_value())]
    }
}

pub fn absolute_y_store_c0<B: Bus>(cpu: &mut Context, bus: &mut B, pinout: Pinout) -> (r: Pinout)
    requires
        old(bus).ready(),
    ensures
        final(bus).ready(),
        final(bus).spec_clock() == old(bus).spec_clock(),
        *final(cpu) == spec_absolute_y_store_c0(*old(cpu), pinout, r),
        !pinout.ctrl.rdy ==> r == pinout && *final(cpu) == *old(cpu) && *final(bus) == *old(bus),
        pinout.ctrl.rdy ==> ({ let s0 = *old(cpu); let s1 = spec_after_read(s0, r.data); let s2 = Context { ops: OpState { bal: s1.ops.dl, ..s1.ops }, ..s1 }; let s3 = Context { pc: s2.pc.spec_incremented(), ..s2 }; *final(cpu) == s3 }),
        final(bus).spec_requests() == old(bus).spec_requests() + spec_absolute_y_store_c0_requests(*old(cpu), pinout),
{
    let mut pinout = pinout;
    if pinout.ctrl.contains(Ctrl::RDY()) == false {
        return pinout;
    }
    pinout = second_cycle(cpu, bus, pinout);
    cpu.ops.bal = cpu.ops.dl;
    cpu.pc.increment();
    pinout
}

/// The cpu state after the cycle `absolute_y_store_c1` runs, `r` being the pinout it
/// returns.
pub open spec fn spec_absolute_y_store_c1(cpu: Context, pinout: Pinout, r: Pinout) -> Context {
    if !pinout.ctrl.rdy {
        cpu
    } else {
        ({ let s0 = cpu; let s1 = spec_after_read(s0, r.data); let s2 = Context { ops: OpState { bah: s1.ops.dl, ..s1.ops }, ..s1 }; let s3 = Context { pc: s2.pc.spec_incremented(), ..s2 }; s3 })
    }
}

/// The requests the cycle `absolute_y_store_c1` puts on the bus, oldest first.
pub open spec fn spec_absolute_y_store_c1_requests(cpu: Context, pinout: Pinout) -> Seq<Pinout> {
    if !pinout.ctrl.rdy {
        Seq::empty()
    } else {
        seq![spec_read_request(pinout, cpu.pc.spec_value())]
    }
}

pub fn absolute_y_store_c1<B: Bus>(cpu: &mut Context, bus: &mut B, pinout: Pinout) -> (r: Pinout)
    requires
        old(bus).ready(),
    ensures
        final(bus).ready(),
        final(bus).spec_clock() == old(bus).spec_clock(),
        *final(cpu) == spec_absolute_y_store_c1(*old(cpu), pinout, r),
        !pinout.ctrl.rdy ==> r == pinout && *final(cpu) == *old(cpu) && *final(bus) == *old(bus),
        pinout.ctrl.rdy ==> ({ let s0 = *old(cpu); let s1 = spec_after_read(s0, r.data); let s2 = Context { ops: OpState { bah: s1.ops.dl, ..s1.ops }, ..s1 }; let s3 = Context { pc: s2.pc.spec_incremented(), ..s2 }; *final(cpu) == s3 }),
        final(bus).spec_requests() == old(bus).spec_requests() + spec_absolute_y_store_c1_requests(*old(cpu), pinout),
{
    let mut pinout = pinout;
    if pinout.ctrl.contains(Ctrl::RDY()) == false {
        return pinout;
    }
    let addr = cpu.pc.value();
    pinout = read_cycle(cpu, bus, pinout, addr);
    cpu.ops.bah = cpu.ops.dl;
    cpu.pc.increment();
    pinout
}

/// The cpu state after the cycle `absolute_y_store_c2` runs, `r` being the pinout it
/// returns.
pub open spec fn spec_absolute_y_store_c2(cpu: Context, pinout: Pinout, r: Pinout) -> Context {
    if !pinout.ctrl.rdy {
        cpu
    } else {
        ({ let s0 = cpu; let bal = (s0.ops.bal.wrapping_add(s0.y), s0.ops.bal + s0.y > 255); let s1 = Context { ops: OpState { adl: bal.0, ..s0.ops }, ..s0 }; let s2 = Context { ops: OpState { adh: s1.ops.bah, ..s1.ops }, ..s1 }; let s3 = spec_after_read(s2, r.data); let s4 = Context { ops: OpState { adh: s3.ops.bah.wrapping_add(if bal.1 { 1u8 } else { 0 }), ..s3.ops }, ..s3 }; s4 })
    }
}

/// The requests the cycle `absolute_y_store_c2` puts on the bus, oldest first.
pub open spec fn spec_absolute_y_store_c2_requests(cpu: Context, pinout: Pinout) -> Seq<Pinout> {
    if !pinout.ctrl.rdy {
        Seq::empty()
    } else {
        let bal = (cpu.ops.bal.wrapping_add(cpu.y), cpu.ops.bal + cpu.y > 255);
        let s1 = Context { ops: OpState { adl: bal.0, ..cpu.ops }, ..cpu };
        let s2 = Context { ops: OpState { adh: s1.ops.bah, ..s1.ops }, ..s1 };
        seq![spec_read_request(pinout, spec_address(s2.ops.adh, s2.ops.adl))]
    }
}

pub fn absolute_y_store_c2<B: Bus>(cpu: &mut Context, bus: &mut B, pinout: Pinout) -> (r: Pinout)
    requires
        old(bus).ready(),
    ensures
        final(bus).ready(),
        final(bus).spec_clock() == old(bus).spec_clock(),
        *final(cpu) == spec_absolute_y_store_c2(*old(cpu), pinout, r),
        !pinout.ctrl.rdy ==> r == pinout && *final(cpu) == *old(cpu) && *final(bus) == *old(bus),
        pinout.ctrl.rdy ==> ({ let s0 = *old(cpu); let bal = (s0.ops.bal.wrapping_add(s0.y), s0.ops.bal + s0.y > 255); let s1 = Context { ops: OpState { adl: bal.0, ..s0.ops }, ..s0 }; let s2 = Context { ops: OpState { adh: s1.ops.bah, ..s1.ops }, ..s1 }; let s3 = spec_after_read(s2, r.data); let s4 = Context { ops: OpState { adh: s3.ops.bah.wrapping_add(if bal.1 { 1u8 } else { 0 }), ..s3.ops }, ..s3 }; *final(cpu) == s4 }),
        final(bus).spec_requests() == old(bus).spec_requests() + spec_absolute_y_store_c2_requests(*old(cpu), pinout),
{
    let mut pinout = pinout;
    if pinout.ctrl.contains(Ctrl::RDY()) == false {
        return pinout;
    }
    let bal = overflowing_add(cpu.ops.bal, cpu.y);
    cpu.ops.adl = bal.0;
    cpu.ops.adh = cpu.ops.bah;
    let addr = to_address(cpu.ops.adh, cpu.ops.adl);
    pinout = read_cycle(cpu, bus, pinout, addr);
    cpu.ops.adh = cpu.ops.bah.wrapping_add(if bal.1 { 1u8 } else { 0 });
    pinout
}

/// The cpu state after the cycle `absolute_y_store_c3` runs, `r` being the pinout it
/// returns.
pub open spec fn spec_absolute_y_store_c3<T: Instruction>(cpu: Context, pinout: Pinout, r: Pinout) -> Context {
    ({ let s0 = cpu; let s1 = T::spec_execute(s0); let s2 = spec_after_write(s1); let s3 = spec_poll(s2, r); s3 })
}

/// The requests the cycle `absolute_y_store_c3` puts on the bus, oldest first.
pub open spec fn spec_absolute_y_store_c3_requests<T: Instruction>(cpu: Context, pinout: Pinout) -> Seq<Pinout> {
    let s1 = T::spec_execute(cpu);
    seq![spec_write_request(pinout, spec_address(s1.ops.adh, s1.ops.adl), s1.ops.dl)]
}

pub fn absolute_y_store_c3<B: Bus, T: Instruction>(cpu: &mut Context, bus: &mut B, pinout: Pinout) -> (r: Pinout)
    requires
        old(bus).ready(),
    ensures
        final(bus).ready(),
        final(bus).spec_clock() == old(bus).spec_clock(),
        *final(cpu) == spec_absolute_y_store_c3::<T>(*old(cpu), pinout, r),
        ({ let s0 = *old(cpu); let s1 = T::spec_execute(s0); let s2 = spec_after_write(s1); let s3 = spec_poll(s2, r); *final(cpu) == s3 }),
        final(bus).spec_requests() == old(bus).spec_requests() + spec_absolute_y_store_c3_requests::<T>(*old(cpu), pinout),
{
    let mut pinout = pinout;
    T::execute(cpu);
    let addr = to_address(cpu.ops.adh, cpu.ops.adl);
    let data = cpu.ops.dl;
    pinout = write_cycle(cpu, bus, pinout, addr, data);
    poll_interrupts(cpu, pinout);
    if cpu.ir.tm > 0xF {
        return pinout;
    }
    pinout
}

/// The cpu state after the cycle `absolute_y_store_c4` runs, `r` being the pinout it
/// returns.
pub open spec fn spec_absolute_y_store_c4(cpu: Context, pinout: Pinout, r: Pinout) -> Context {
    if !pinout.ctrl.rdy {
        cpu
    } else {
        ({ let s0 = cpu; let s1 = spec_after_first_cycle(s0, r.data); s1 })
    }
}

/// The requests the cycle `absolute_y_store_c4` puts on the bus, oldest first.
pub open spec fn spec_absolute_y_store_c4_requests(cpu: Context, pinout: Pinout) -> Seq<Pinout> {
    if !pinout.ctrl.rdy {
        Seq::empty()
    } else {
        seq![spec_read_request(Pinout { ctrl: Ctrl { sync: true, ..pinout.ctrl }, ..pinout }, cpu.pc.spec_value())]
    }
}

pub fn absolute_y_store_c4<B: Bus>(cpu: &mut Context, bus: &mut B, pinout: Pinout) -> (r: Pinout)
    requires
        old(bus).ready(),
    ensures
        final(bus).ready(),
        final(bus).spec_clock() == old(bus).spec_clock(),
        *final(cpu) == spec_absolute_y_store_c4(*old(cpu), pinout, r),
        !pinout.ctrl.rdy ==> r == pinout && *final(cpu) == *old(cpu) && *final(bus) == *old(bus),
        pinout.ctrl.rdy ==> ({ let s0 = *old(cpu); let s1 = spec_after_first_cycle(s0, r.data); *final(cpu) == s1 }),
        final(bus).spec_requests() == old(bus).spec_requests() + spec_absolute_y_store_c4_requests(*old(cpu), pinout),
{
    let mut pinout = pinout;
    if pinout.ctrl.contains(Ctrl::RDY()) == false {
        return pinout;
    }
    pinout = first_cycle(cpu, bus, pinout);
    pinout
}

/// The cpu state after the cycle `zeropage_x_store_c0` runs, `r` being the pinout it
/// returns.
pub open spec fn spec_zeropage_x_store_c0(cpu: Context, pinout: Pinout, r: Pinout) -> Context {
    if !pinout.ctrl.rdy {
        cpu
    } else {
        ({ let s0 = cpu; let s1 = spec_after_read(s0, r.data); let s2 = Context { ops: OpState { bal: s1.ops.dl, ..s1.ops }, ..s1 }; let s3 = Context { pc: s2.pc.spec_incremented(), ..s2 }; s3 })
    }
}

/// The requests the cycle `zeropage_x_store_c0` puts on the bus, oldest first.
pub open spec fn spec_zeropage_x_store_c0_requests(cpu: Context, pinout: Pinout) -> Seq<Pinout> {
    if !pinout.ctrl.rdy {
        Seq::empty()
    } else {
        seq![spec_read_request(Pinout { ctrl: Ctrl { sync: false, ..pinout.ctrl }, ..pinout }, cpu.pc.spec_value())]
    }
}

pub fn zeropage_x_store_c0<B: Bus>(cpu: &mut Context, bus: &mut B, pinout: Pinout) -> (r: Pinout)
    requires
        old(bus).ready(),
    ensures
        final(bus).ready(),
        final(bus).spec_clock() == old(bus).spec_clock(),
        *final(cpu) == spec_zeropage_x_store_c0(*old(cpu), pinout, r),
        !pinout.ctrl.rdy ==> r == pinout && *final(cpu) == *old(cpu) && *final(bus) == *old(bus),
        pinout.ctrl.rdy ==> ({ let s0 = *old(cpu); let s1 = spec_after_read(s0, r.data); let s2 = Context { ops: OpState { bal: s1.ops.dl, ..s1.ops }, ..s1 }; let s3 = Context { pc: s2.pc.spec_incremented(), ..s2 }; *final(cpu) == s3 }),
        final(bus).spec_requests() == old(bus).spec_requests() + spec_zeropage_x_store_c0_requests(*old(cpu), pinout),
{
    let mut pinout = pinout;
    if pinout.ctrl.contains(Ctrl::RDY()) == false {
        return pinout;
    }
    pinout = second_cycle(cpu, bus, pinout);
    cpu.ops.bal = cpu.ops.dl;
    cpu.pc.increment();
    pinout
}

/// The cpu state after the cycle `zeropage_x_store_c1` runs, `r` being the pinout it
/// returns.
pub open spec fn spec_zeropage_x_store_c1(cpu: Context, pinout: Pinout, r: Pinout) -> Context {
    if !pinout.ctrl.rdy {
        cpu
    } else {
        ({ let s0 = cpu; let s1 = spec_after_read(s0, r.data); s1 })
    }
}

/// The requests the cycle `zeropage_x_store_c1` puts on the bus, oldest first.
pub open spec fn spec_zeropage_x_store_c1_requests(cpu: Context, pinout: Pinout) -> Seq<Pinout> {
    if !pinout.ctrl.rdy {
        Seq::empty()
    } else {
        seq![spec_read_request(pinout, spec_address(0, cpu.ops.bal))]
    }
}

pub fn zeropage_x_store_c1<B: Bus>(cpu: &mut Context, bus: &mut B, pinout: Pinout) -> (r: Pinout)
    requires
        old(bus).ready(),
    ensures
        final(bus).ready(),
        final(bus).spec_clock() == old(bus).spec_clock(),
        *final(cpu) == spec_zeropage_x_store_c1(*old(cpu), pinout, r),
        !pinout.ctrl.rdy ==> r == pinout && *final(cpu) == *old(cpu) && *final(bus) == *old(bus),
        pinout.ctrl.rdy ==> ({ let s0 = *old(cpu); let s1 = spec_after_read(s0, r.data); *final(cpu) == s1 }),
        final(bus).spec_requests() == old(bus).spec_requests() + spec_zeropage_x_store_c1_requests(*old(cpu), pinout),
{
    let mut pinout = pinout;
    if pinout.ctrl.contains(Ctrl::RDY()) == false {
        return pinout;
    }
    let addr = to_address(0, cpu.ops.bal);
    pinout = read_cycle(cpu, bus, pinout, addr);
    pinout
}

/// The cpu state after the cycle `zeropage_x_store_c2` runs, `r` being the pinout it
/// returns.
pub open spec fn spec_zeropage_x_store_c2<T: Instruction>(cpu: Context, pinout: Pinout, r: Pinout) -> Context {
    ({ let s0 = cpu; let s1 = T::spec_execute(s0); let s2 = spec_after_write(s1); let s3 = spec_poll(s2, r); s3 })
}

/// The requests the cycle `zeropage_x_store_c2` puts on the bus, oldest first.
pub open spec fn spec_zeropage_x_store_c2_requests<T: Instruction>(cpu: Context, pinout: Pinout) -> Seq<Pinout> {
    let s1 = T::spec_execute(cpu);
    seq![spec_write_request(pinout, spec_address(0, s1.ops.bal.wrapping_add(s1.x)), s1.ops.dl)]
}

pub fn zeropage_x_store_c2<B: Bus, T: Instruction>(cpu: &mut Context, bus: &mut B, pinout: Pinout) -> (r: Pinout)
    requires
        old(bus).ready(),
    ensures
        final(bus).ready(),
        final(bus).spec_clock() == old(bus).spec_clock(),
        *final(cpu) == spec_zeropage_x_store_c2::<T>(*old(cpu), pinout, r),
        ({ let s0 = *old(cpu); let s1 = T::spec_execute(s0); let s2 = spec_after_write(s1); let s3 = spec_poll(s2, r); *final(cpu) == s3 }),
        final(bus).spec_requests() == old(bus).spec_requests() + spec_zeropage_x_store_c2_requests::<T>(*old(cpu), pinout),
{
    let mut pinout = pinout;
    T::execute(cpu);
    let addr = to_address(0, cpu.ops.bal.wrapping_add(cpu.x));
    let data = cpu.ops.dl;
    pinout = write_cycle(cpu, bus, pinout, addr, data);
    poll_interrupts(cpu, pinout);
    if cpu.ir.tm > 0xF {
        return pinout;
    }
    pinout
}

/// The cpu state after the cycle `zeropage_x_store_c3` runs, `r` being the pinout it
/// returns.
pub open spec fn spec_zeropage_x_store_c3(cpu: Context, pinout: Pinout, r: Pinout) -> Context {
    if !pinout.ctrl.rdy {
        cpu
    } else {
        ({ let s0 = cpu; let s1 = spec_after_first_cycle(s0, r.data); s1 })
    }
}

/// The requests the cycle `zeropage_x_store_c3` puts on the bus, oldest first.
pub open spec fn spec_zeropage_x_store_c3_requests(cpu: Context, pinout: Pinout) -> Seq<Pinout> {
    if !pinout.ctrl.rdy {
        Seq::empty()
    } else {
        seq![spec_read_request(Pinout { ctrl: Ctrl { sync: true, ..pinout.ctrl }, ..pinout }, cpu.pc.spec_value())]
    }
}

pub fn zeropage_x_store_c3<B: Bus>(cpu: &mut Context, bus: &mut B, pinout: Pinout) -> (r: Pinout)
    requires
        old(bus).ready(),
    ensures
        final(bus).ready(),
        final(bus).spec_clock() == old(bus).spec_clock(),
        *final(cpu) == spec_zeropage_x_store_c3(*old(cpu), pinout, r),
        !pinout.ctrl.rdy ==> r == pinout && *final(cpu) == *old(cpu) && *final(bus) == *old(bus),
        pinout.ctrl.rdy ==> ({ let s0 = *old(cpu); let s1 = spec_after_first_cycle(s0, r.data); *final(cpu) == s1 }),
        final(bus).spec_requests() == old(bus).spec_requests() + spec_zeropage_x_store_c3_requests(*old(cpu), pinout),
{
    let mut pinout = pinout;
    if pinout.ctrl.contains(Ctrl::RDY()) == false {
        return pinout;
    }
    pinout = first_cycle(cpu, bus, pinout);
    pinout
}

/// The cpu state after the cycle `zeropage_y_store_c0` runs, `r` being the pinout it
/// returns.
pub open spec fn spec_zeropage_y_store_c0(cpu: Context, pinout: Pinout, r: Pinout) -> Context {
    if !pinout.ctrl.rdy {
        cpu
    } else {
        ({ let s0 = cpu; let s1 = spec_after_read(s0, r.data); let s2 = Context { ops: OpState { bal: s1.ops.dl, ..s1.ops }, ..s1 }; let s3 = Context { pc: s2.pc.spec_incremented(), ..s2 }; s3 })
    }
}

/// The requests the cycle `zeropage_y_store_c0` puts on the bus, oldest first.
pub open spec fn spec_zeropage_y_store_c0_requests(cpu: Context, pinout: Pinout) -> Seq<Pinout> {
    if !pinout.ctrl.rdy {
        Seq::empty()
    } else {
        seq![spec_read_request(Pinout { ctrl: Ctrl { sync: false, ..pinout.ctrl }, ..pinout }, cpu.pc.spec_value())]
    }
}

pub fn zeropage_y_store_c0<B: Bus>(cpu: &mut Context, bus: &mut B, pinout: Pinout) -> (r: Pinout)
    requires
        old(bus).ready(),
    ensures
        final(bus).ready(),
        final(bus).spec_clock() == old(bus).spec_clock(),
        *final(cpu) == spec_zeropage_y_store_c0(*old(cpu), pinout, r),
        !pinout.ctrl.rdy ==> r == pinout && *final(cpu) == *old(cpu) && *final(bus) == *old(bus),
        pinout.ctrl.rdy ==> ({ let s0 = *old(cpu); let s1 = spec_after_read(s0, r.data); let s2 = Context { ops: OpState { bal: s1.ops.dl, ..s1.ops }, ..s1 }; let s3 = Context { pc: s2.pc.spec_incremented(), ..s2 }; *final(cpu) == s3 }),
        final(bus).spec_requests() == old(bus).spec_requests() + spec_zeropage_y_store_c0_requests(*old(cpu), pinout),
{
    let mut pinout = pinout;
    if pinout.ctrl.contains(Ctrl::RDY()) == false {
        return pinout;
    }
    pinout = second_cycle(cpu, bus, pinout);
    cpu.ops.bal = cpu.ops.dl;
    cpu.pc.increment();
    pinout
}

/// The cpu state after the cycle `zeropage_y_store_c1` runs, `r` being the pinout it
/// returns.
pub open spec fn spec_zeropage_y_store_c1(cpu: Context, pinout: Pinout, r: Pinout) -> Context {
    if !pinout.ctrl.rdy {
        cpu
    } else {
        ({ let s0 = cpu; let s1 = spec_after_read(s0, r.data); s1 })
    }
}

/// The requests the cycle `zeropage_y_store_c1` puts on the bus, oldest first.
pub open spec fn spec_zeropage_y_store_c1_requests(cpu: Context, pinout: Pinout) -> Seq<Pinout> {
    if !pinout.ctrl.rdy {
        Seq::empty()
    } else {
        seq![spec_read_request(pinout, spec_address(0, cpu.ops.bal))]
    }
}

pub fn zeropage_y_store_c1<B: Bus>(cpu: &mut Context, bus: &mut B, pinout: Pinout) -> (r: Pinout)
    requires
        old(bus).ready(),
    ensures
        final(bus).ready(),
        final(bus).spec_clock() == old(bus).spec_clock(),
        *final(cpu) == spec_zeropage_y_store_c1(*old(cpu), pinout, r),
        !pinout.ctrl.rdy ==> r == pinout && *final(cpu) == *old(cpu) && *final(bus) == *old(bus),
        pinout.ctrl.rdy ==> ({ let s0 = *old(cpu); let s1 = spec_after_read(s0, r.data); *final(cpu) == s1 }),
        final(bus).spec_requests() == old(bus).spec_requests() + spec_zeropage_y_store_c1_requests(*old(cpu), pinout),
{
    let mut pinout = pinout;
    if pinout.ctrl.contains(Ctrl::RDY()) == false {
        return pinout;
    }
    let addr = to_address(0, cpu.ops.bal);
    pinout = read_cycle(cpu, bus, pinout, addr);
    pinout
}

/// The cpu state after the cycle `zeropage_y_store_c2` runs, `r` being the pinout it
/// returns.
pub open spec fn spec_zeropage_y_store_c2<T: Instruction>(cpu: Context, pinout: Pinout, r: Pinout) -> Context {
    ({ let s0 = cpu; let s1 = T::spec_execute(s0); let s2 = spec_after_write(s1); let s3 = spec_poll(s2, r); s3 })
}

/// The requests the cycle `zeropage_y_store_c2` puts on the bus, oldest first.
pub open spec fn spec_zeropage_y_store_c2_requests<T: Instruction>(cpu: Context, pinout: Pinout) -> Seq<Pinout> {
    let s1 = T::spec_execute(cpu);
    seq![spec_write_request(pinout, spec_address(0, s1.ops.bal.wrapping_add(s1.y)), s1.ops.dl)]
}

pub fn zeropage_y_store_c2<B: Bus, T: Instruction>(cpu: &mut Context, bus: &mut B, pinout: Pinout) -> (r: Pinout)
    requires
        old(bus).ready(),
    ensures
        final(bus).ready(),
        final(bus).spec_clock() == old(bus).spec_clock(),
        *final(cpu) == spec_zeropage_y_store_c2::<T>(*old(cpu), pinout, r),
        ({ let s0 = *old(cpu); let s1 = T::spec_execute(s0); let s2 = spec_after_write(s1); let s3 = spec_poll(s2, r); *final(cpu) == s3 }),
        final(bus).spec_requests() == old(bus).spec_requests() + spec_zeropage_y_store_c2_requests::<T>(*old(cpu), pinout),
{
    let mut pinout = pinout;
    T::execute(cpu);
    let addr = to_address(0, cpu.ops.bal.wrapping_add(cpu.y));
    let data = cpu.ops.dl;
    pinout = write_cycle(cpu, bus, pinout, addr, data);
    poll_interrupts(cpu, pinout);
    if cpu.ir.tm > 0xF {
        return pinout;
    }
    pinout
}

/// The cpu state after the cycle `zeropage_y_store_c3` runs, `r` being the pinout it
/// returns.
pub open spec fn spec_zeropage_y_store_c3(cpu: Context, pinout: Pinout, r: Pinout) -> Context {
    if !pinout.ctrl.rdy {
        cpu
    } else {
        ({ let s0 = cpu; let s1 = spec_after_first_cycle(s0, r.data); s1 })
    }
}

/// The requests the cycle `zeropage_y_store_c3` puts on the bus, oldest first.
pub open spec fn spec_zeropage_y_store_c3_requests(cpu: Context, pinout: Pinout) -> Seq<Pinout> {
    if !pinout.ctrl.rdy {
        Seq::empty()
    } else {
        seq![spec_read_request(Pinout { ctrl: Ctrl { sync: true, ..pinout.ctrl }, ..pinout }, cpu.pc.spec_value())]
    }
}

pub fn zeropage_y_store_c3<B: Bus>(cpu: &mut Context, bus: &mut B, pinout: Pinout) -> (r: Pinout)
    requires
        old(bus).ready(),
    ensures
        final(bus).ready(),
        final(bus).spec_clock() == old(bus).spec_clock(),
        *final(cpu) == spec_zeropage_y_store_c3(*old(cpu), pinout, r),
        !pinout.ctrl.rdy ==> r == pinout && *final(cpu) == *old(cpu) && *final(bus) == *old(bus),
        pinout.ctrl.rdy ==> ({ let s0 = *old(cpu); let s1 = spec_after_first_cycle(s0, r.data); *final(cpu) == s1 }),
        final(bus).spec_requests() == old(bus).spec_requests() + spec_zeropage_y_store_c3_requests(*old(cpu), pinout),
{
    let mut pinout = pinout;
    if pinout.ctrl.contains(Ctrl::RDY()) == false {
        return pinout;
    }
    pinout = first_cycle(cpu, bus, pinout);
    pinout
}

/// The cpu state after the cycle `indirect_y_store_c0` runs, `r` being the pinout it
/// returns.
pub open spec fn spec_indirect_y_store_c0(cpu: Context, pinout: Pinout, r: Pinout) -> Context {
    if !pinout.ctrl.rdy {
        cpu
    } else {
        ({ let s0 = cpu; let s1 = spec_after_read(s0, r.data); let s2 = Context { ops: OpState { ial: s1.ops.dl, ..s1.ops }, ..s1 }; let s3 = Context { pc: s2.pc.spec_incremented(), ..s2 }; s3 })
    }
}

/// The requests the cycle `indirect_y_store_c0` puts on the bus, oldest first.
pub open spec fn spec_indirect_y_store_c0_requests(cpu: Context, pinout: Pinout) -> Seq<Pinout> {
    if !pinout.ctrl.rdy {
        Seq::empty()
    } else {
        seq![spec_read_request(Pinout { ctrl: Ctrl { sync: false, ..pinout.ctrl }, ..pinout }, cpu.pc.spec_value())]
    }
}

pub fn indirect_y_store_c0<B: Bus>(cpu: &mut Context, bus: &mut B, pinout: Pinout) -> (r: Pinout)
    requires
        old(bus).ready(),
    ensures
        final(bus).ready(),
        final(bus).spec_clock() == old(bus).spec_clock(),
        *final(cpu) == spec_indirect_y_store_c0(*old(cpu), pinout, r),
        !pinout.ctrl.rdy ==> r == pinout && *final(cpu) == *old(cpu) && *final(bus) == *old(bus),
        pinout.ctrl.rdy ==> ({ let s0 = *old(cpu); let s1 = spec_after_read(s0, r.data); let s2 = Context { ops: OpState { ial: s1.ops.dl, ..s1.ops }, ..s1 }; let s3 = Context { pc: s2.pc.spec_incremented(), ..s2 }; *final(cpu) == s3 }),
        final(bus).spec_requests() == old(bus).spec_requests() + spec_indirect_y_store_c0_requests(*old(cpu), pinout),
{
    let mut pinout = pinout;
    if pinout.ctrl.contains(Ctrl::RDY()) == false {
        return pinout;
    }
    pinout = second_cycle(cpu, bus, pinout);
    cpu.ops.ial = cpu.ops.dl;
    cpu.pc.increment();
    pinout
}

/// The cpu state after the cycle `indirect_y_store_c1` runs, `r` being the pinout it
/// returns.
pub open spec fn spec_indirect_y_store_c1(cpu: Context, pinout: Pinout, r: Pinout) -> Context {
    if !pinout.ctrl.rdy {
        cpu
    } else {
        ({ let s0 = cpu; let s1 = spec_after_read(s0, r.data); let s2 = Context { ops: OpState { bal: s1.ops.dl, ..s1.ops }, ..s1 }; s2 })
    }
}

/// The requests the cycle `indirect_y_store_c1` puts on the bus, oldest first.
pub open spec fn spec_indirect_y_store_c1_requests(cpu: Context, pinout: Pinout) -> Seq<Pinout> {
    if !pinout.ctrl.rdy {
        Seq::empty()
    } else {
        seq![spec_read_request(pinout, spec_address(0, cpu.ops.ial))]
    }
}

pub fn indirect_y_store_c1<B: Bus>(cpu: &mut Context, bus: &mut B, pinout: Pinout) -> (r: Pinout)
    requires
        old(bus).ready(),
    ensures
        final(bus).ready(),
        final(bus).spec_clock() == old(bus).spec_clock(),
        *final(cpu) == spec_indirect_y_store_c1(*old(cpu), pinout, r),
        !pinout.ctrl.rdy ==> r == pinout && *final(cpu) == *old(cpu) && *final(bus) == *old(bus),
        pinout.ctrl.rdy ==> ({ let s0 = *old(cpu); let s1 = spec_after_read(s0, r.data); let s2 = Context { ops: OpState { bal: s1.ops.dl, ..s1.ops }, ..s1 }; *final(cpu) == s2 }),
        final(bus).spec_requests() == old(bus).spec_requests() + spec_indirect_y_store_c1_requests(*old(cpu), pinout),
{
    let mut pinout = pinout;
    if pinout.ctrl.contains(Ctrl::RDY()) == false {
        return pinout;
    }
    let addr = to_address(0, cpu.ops.ial);
    pinout = read_cycle(cpu, bus, pinout, addr);
    cpu.ops.bal = cpu.ops.dl;
    pinout
}

/// The cpu state after the cycle `indirect_y_store_c2` runs, `r` being the pinout it
/// returns.
pub open spec fn spec_indirect_y_store_c2(cpu: Context, pinout: Pinout, r: Pinout) -> Context {
    if !pinout.ctrl.rdy {
        cpu
    } else {
        ({ let s0 = cpu; let s1 = spec_after_read(s0, r.data); let s2 = Context { ops: OpState { bah: s1.ops.dl, ..s1.ops }, ..s1 }; s2 })
    }
}

/// The requests the cycle `indirect_y_store_c2` puts on the bus, oldest first.
pub open spec fn spec_indirect_y_store_c2_requests(cpu: Context, pinout: Pinout) -> Seq<Pinout> {
    if !pinout.ctrl.rdy {
        Seq::empty()
    } else {
        seq![spec_read_request(pinout, spec_address(0, cpu.ops.ial.wrapping_add(1)))]
    }
}

pub fn indirect_y_store_c2<B: Bus>(cpu: &mut Context, bus: &mut B, pinout: Pinout) -> (r: Pinout)
    requires
        old(bus).ready(),
    ensures
        final(bus).ready(),
        final(bus).spec_clock() == old(bus).spec_clock(),
        *final(cpu) == spec_indirect_y_store_c2(*old(cpu), pinout, r),
        !pinout.ctrl.rdy ==> r == pinout && *final(cpu) == *old(cpu) && *final(bus) == *old(bus),
        pinout.ctrl.rdy ==> ({ let s0 = *old(cpu); let s1 = spec_after_read(s0, r.data); let s2 = Context { ops: OpState { bah: s1.ops.dl, ..s1.ops }, ..s1 }; *final(cpu) == s2 }),
        final(bus).spec_requests() == old(bus).spec_requests() + spec_indirect_y_store_c2_requests(*old(cpu), pinout),
{
    let mut pinout = pinout;
    if pinout.ctrl.contains(Ctrl::RDY()) == false {
        return pinout;
    }
    let addr = to_address(0, cpu.ops.ial.wrapping_add(1));
    pinout = read_cycle(cpu, bus, pinout, addr);
    cpu.ops.bah = cpu.ops.dl;
    pinout
}

/// The cpu state after the cycle `indirect_y_store_c3` runs, `r` being the pinout it
/// returns.
pub open spec fn spec_indirect_y_store_c3(cpu: Context, pinout: Pinout, r: Pinout) -> Context {
    if !pinout.ctrl.rdy {
        cpu
    } else {
        ({ let s0 = cpu; let s1 = Context { ops: OpState { adl: s0.ops.bal.wrapping_add(s0.y), ..s0.ops }, ..s0 }; let s2 = Context { ops: OpState { adh: s1.ops.bah, ..s1.ops }, ..s1 }; let s3 = spec_after_read(s2, r.data); s3 })
    }
}

/// The requests the cycle `indirect_y_store_c3` puts on the bus, oldest first.
pub open spec fn spec_indirect_y_store_c3_requests(cpu: Context, pinout: Pinout) -> Seq<Pinout> {
    if !pinout.ctrl.rdy {
        Seq::empty()
    } else {
        let s1 = Context { ops: OpState { adl: cpu.ops.bal.wrapping_add(cpu.y), ..cpu.ops }, ..cpu };
        let s2 = Context { ops: OpState { adh: s1.ops.bah, ..s1.ops }, ..s1 };
        seq![spec_read_request(pinout, spec_address(s2.ops.adh, s2.ops.adl))]
    }
}

pub fn indirect_y_store_c3<B: Bus>(cpu: &mut Context, bus: &mut B, pinout: Pinout) -> (r: Pinout)
    requires
        old(bus).ready(),
    ensures
        final(bus).ready(),
        final(bus).spec_clock() == old(bus).spec_clock(),
        *final(cpu) == spec_indirect_y_store_c3(*old(cpu), pinout, r),
        !pinout.ctrl.rdy ==> r == pinout && *final(cpu) == *old(cpu) && *final(bus) == *old(bus),
        pinout.ctrl.rdy ==> ({ let s0 = *old(cpu); let s1 = Context { ops: OpState { adl: s0.ops.bal.wrapping_add(s0.y), ..s0.ops }, ..s0 }; let s2 = Context { ops: OpState { adh: s1.ops.bah, ..s1.ops }, ..s1 }; let s3 = spec_after_read(s2, r.data); *final(cpu) == s3 }),
        final(bus).spec_requests() == old(bus).spec_requests() + spec_indirect_y_store_c3_requests(*old(cpu), pinout),
{
    let mut pinout = pinout;
    if pinout.ctrl.contains(Ctrl::RDY()) == false {
        return pinout;
    }
    cpu.ops.adl = cpu.ops.bal.wrapping_add(cpu.y);
    cpu.ops.adh = cpu.ops.bah;
    let addr = to_address(cpu.ops.adh, cpu.ops.adl);
    pinout = read_cycle(cpu, bus, pinout, addr);
    pinout
}

/// The cpu state after the cycle `indirect_y_store_c4` runs, `r` being the pinout it
/// returns.
pub open spec fn spec_indirect_y_store_c4<T: Instruction>(cpu: Context, pinout: Pinout, r: Pinout) -> Context {
    ({ let s0 = cpu; let s1 = T::spec_execute(s0); let s2 = spec_after_write(s1); let s3 = spec_poll(s2, r); s3 })
}

/// The requests the cycle `indirect_y_store_c4` puts on the bus, oldest first.
pub open spec fn spec_indirect_y_store_c4_requests<T: Instruction>(cpu: Context, pinout: Pinout) -> Seq<Pinout> {
    let s1 = T::spec_execute(cpu);
    seq![spec_write_request(pinout, spec_address(s1.ops.adh, s1.ops.adl), s1.ops.dl)]
}

pub fn indirect_y_store_c4<B: Bus, T: Instruction>(cpu: &mut Context, bus: &mut B, pinout: Pinout) -> (r: Pinout)
    requires
        old(bus).ready(),
    ensures
        final(bus).ready(),
        final(bus).spec_clock() == old(bus).spec_clock(),
        *final(cpu) == spec_indirect_y_store_c4::<T>(*old(cpu), pinout, r),
        ({ let s0 = *old(cpu); let s1 = T::spec_execute(s0); let s2 = spec_after_write(s1); let s3 = spec_poll(s2, r); *final(cpu) == s3 }),
        final(bus).spec_requests() == old(bus).spec_requests() + spec_indirect_y_store_c4_requests::<T>(*old(cpu), pinout),
{
    let mut pinout = pinout;
    T::execute(cpu);
    let addr = to_address(cpu.ops.adh, cpu.ops.adl);
    let data = cpu.ops.dl;
    pinout = write_cycle(cpu, bus, pinout, addr, data);
    poll_interrupts(cpu, pinout);
    if cpu.ir.tm > 0xF {
        return pinout;
    }
    pinout
}

/// The cpu state after the cycle `indirect_y_store_c5` runs, `r` being the pinout it
/// returns.
pub open spec fn spec_indirect_y_store_c5(cpu: Context, pinout: Pinout, r: Pinout) -> Context {
    if !pinout.ctrl.rdy {
        cpu
    } else {
        ({ let s0 = cpu; let s1 = spec_after_first_cycle(s0, r.data); s1 })
    }
}

/// The requests the cycle `indirect_y_store_c5` puts on the bus, oldest first.
pub open spec fn spec_indirect_y_store_c5_requests(cpu: Context, pinout: Pinout) -> Seq<Pinout> {
    if !pinout.ctrl.rdy {
        Seq::empty()
    } else {
        seq![spec_read_request(Pinout { ctrl: Ctrl { sync: true, ..pinout.ctrl }, ..pinout }, cpu.pc.spec_value())]
    }
}

pub fn indirect_y_store_c5<B: Bus>(cpu: &mut Context, bus: &mut B, pinout: Pinout) -> (r: Pinout)
    requires
        old(bus).ready(),
    ensures
        final(bus).ready(),
        final(bus).spec_clock() == old(bus).spec_clock(),
        *final(cpu) == spec_indirect_y_store_c5(*old(cpu), pinout, r),
        !pinout.ctrl.rdy ==> r == pinout && *final(cpu) == *old(cpu) && *final(bus) == *old(bus),
        pinout.ctrl.rdy ==> ({ let s0 = *old(cpu); let s1 = spec_after_first_cycle(s0, r.data); *final(cpu) == s1 }),
        final(bus).spec_requests() == old(bus).spec_requests() + spec_indirect_y_store_c5_requests(*old(cpu), pinout),
{
    let mut pinout = pinout;
    if pinout.ctrl.contains(Ctrl::RDY()) == false {
        return pinout;
    }
    pinout = first_cycle(cpu, bus, pinout);
    pinout
}

/// The cpu state after the cycle `zeropage_modify_c0` runs, `r` being the pinout it
/// returns.
pub open spec fn spec_zeropage_modify_c0(cpu: Context, pinout: Pinout, r: Pinout) -> Context {
    if !pinout.ctrl.rdy {
        cpu
    } else {
        ({ let s0 = cpu; let s1 = spec_after_read(s0, r.data); let s2 = Context { ops: OpState { adl: s1.ops.dl, ..s1.ops }, ..s1 }; let s3 = Context { pc: s2.pc.spec_incremented(), ..s2 }; s3 })
    }
}

/// The requests the cycle `zeropage_modify_c0` puts on the bus, oldest first.
pub open spec fn spec_zeropage_modify_c0_requests(cpu: Context, pinout: Pinout) -> Seq<Pinout> {
    if !pinout.ctrl.rdy {
        Seq::empty()
    } else {
        seq![spec_read_request(Pinout { ctrl: Ctrl { sync: false, ..pinout.ctrl }, ..pinout }, cpu.pc.spec_value())]
    }
}

pub fn zeropage_modify_c0<B: Bus>(cpu: &mut Context, bus: &mut B, pinout: Pinout) -> (r: Pinout)
    requires
        old(bus).ready(),
    ensures
        final(bus).ready(),
        final(bus).spec_clock() == old(bus).spec_clock(),
        *final(cpu) == spec_zeropage_modify_c0(*old(cpu), pinout, r),
        !pinout.ctrl.rdy ==> r == pinout && *final(cpu) == *old(cpu) && *final(bus) == *old(bus),
        pinout.ctrl.rdy ==> ({ let s0 = *old(cpu); let s1 = spec_after_read(s0, r.data); let s2 = Context { ops: OpState { adl: s1.ops.dl, ..s1.ops }, ..s1 }; let s3 = Context { pc: s2.pc.spec_incremented(), ..s2 }; *final(cpu) == s3 }),
        final(bus).spec_requests() == old(bus).spec_requests() + spec_zeropage_modify_c0_requests(*old(cpu), pinout),
{
    let mut pinout = pinout;
    if pinout.ctrl.contains(Ctrl::RDY()) == false {
        return pinout;
    }
    pinout = second_cycle(cpu, bus, pinout);
    cpu.ops.adl = cpu.ops.dl;
    cpu.pc.increment();
    pinout
}

/// The cpu state after the cycle `zeropage_modify_c1` runs, `r` being the pinout it
/// returns.
pub open spec fn spec_zeropage_modify_c1(cpu: Context, pinout: Pinout, r: Pinout) -> Context {
    if !pinout.ctrl.rdy {
        cpu
    } else {
        ({ let s0 = cpu; let s1 = spec_after_read(s0, r.data); s1 })
    }
}

/// The requests the cycle `zeropage_modify_c1` puts on the bus, oldest first.
pub open spec fn spec_zeropage_modify_c1_requests(cpu: Context, pinout: Pinout) -> Seq<Pinout> {
    if !pinout.ctrl.rdy {
        Seq::empty()
    } else {
        seq![spec_read_request(pinout, spec_address(0, cpu.ops.adl))]
    }
}

pub fn zeropage_modify_c1<B: Bus>(cpu: &mut Context, bus: &mut B, pinout: Pinout) -> (r: Pinout)
    requires
        old(bus).ready(),
    ensures
        final(bus).ready(),
        final(bus).spec_clock() == old(bus).spec_clock(),
        *final(cpu) == spec_zeropage_modify_c1(*old(cpu), pinout, r),
        !pinout.ctrl.rdy ==> r == pinout && *final(cpu) == *old(cpu) && *final(bus) == *old(bus),
        pinout.ctrl.rdy ==> ({ let s0 = *old(cpu); let s1 = spec_after_read(s0, r.data); *final(cpu) == s1 }),
        final(bus).spec_requests() == old(bus).spec_requests() + spec_zeropage_modify_c1_requests(*old(cpu), pinout),
{
    let mut pinout = pinout;
    if pinout.ctrl.contains(Ctrl::RDY()) == false {
        return pinout;
    }
    let addr = to_address(0, cpu.ops.adl);
    pinout = read_cycle(cpu, bus, pinout, addr);
    pinout
}

/// The cpu state after the cycle `zeropage_modify_c2` runs, `r` being the pinout it
/// returns.
pub open spec fn spec_zeropage_modify_c2<T: Instruction>(cpu: Context, pinout: Pinout, r: Pinout) -> Context {
    ({ let s0 = cpu; let s1 = spec_after_write(s0); let s2 = T::spec_execute(s1); s2 })
}

/// The requests the cycle `zeropage_modify_c2` puts on the bus, oldest first.
pub open spec fn spec_zeropage_modify_c2_requests<T: Instruction>(cpu: Context, pinout: Pinout) -> Seq<Pinout> {
    seq![spec_write_request(pinout, spec_address(0, cpu.ops.adl), cpu.ops.dl)]
}

pub fn zeropage_modify_c2<B: Bus, T: Instruction>(cpu: &mut Context, bus: &mut B, pinout: Pinout) -> (r: Pinout)
    requires
        old(bus).ready(),
    ensures
        final(bus).ready(),
        final(bus).spec_clock() == old(bus).spec_clock(),
        *final(cpu) == spec_zeropage_modify_c2::<T>(*old(cpu), pinout, r),
        ({ let s0 = *old(cpu); let s1 = spec_after_write(s0); let s2 = T::spec_execute(s1); *final(cpu) == s2 }),
        final(bus).spec_requests() == old(bus).spec_requests() + spec_zeropage_modify_c2_requests::<T>(*old(cpu), pinout),
{
    let mut pinout = pinout;
    let addr = to_address(0, cpu.ops.adl);
    let data = cpu.ops.dl;
    pinout = write_cycle(cpu, bus, pinout, addr, data);
    T::execute(cpu);
    pinout
}

/// The cpu state after the cycle `zeropage_modify_c3` runs, `r` being the pinout it
/// returns.
pub open spec fn spec_zeropage_modify_c3(cpu: Context, pinout: Pinout, r: Pinout) -> Context {
    ({ let s0 = cpu; let s1 = spec_after_write(s0); let s2 = spec_poll(s1, r); s2 })
}

/// The requests the cycle `zeropage_modify_c3` puts on the bus, oldest first.
pub open spec fn spec_zeropage_modify_c3_requests(cpu: Context, pinout: Pinout) -> Seq<Pinout> {
    seq![spec_write_request(pinout, spec_address(0, cpu.ops.adl), cpu.ops.dl)]
}

pub fn zeropage_modify_c3<B: Bus>(cpu: &mut Context, bus: &mut B, pinout: Pinout) -> (r: Pinout)
    requires
        old(bus).ready(),
    ensures
        final(bus).ready(),
        final(bus).spec_clock() == old(bus).spec_clock(),
        *final(cpu) == spec_zeropage_modify_c3(*old(cpu), pinout, r),
        ({ let s0 = *old(cpu); let s1 = spec_after_write(s0); let s2 = spec_poll(s1, r); *final(cpu) == s2 }),
        final(bus).spec_requests() == old(bus).spec_requests() + spec_zeropage_modify_c3_requests(*old(cpu), pinout),
{
    let mut pinout = pinout;
    let addr = to_address(0, cpu.ops.adl);
    let data = cpu.ops.dl;
    pinout = write_cycle(cpu, bus, pinout, addr, data);
    poll_interrupts(cpu, pinout);
    if cpu.ir.tm > 0xF {
        return pinout;
    }
    pinout
}

/// The cpu state after the cycle `zeropage_modify_c4` runs, `r` being the pinout it
/// returns.
pub open spec fn spec_zeropage_modify_c4(cpu: Context, pinout: Pinout, r: Pinout) -> Context {
    if !pinout.ctrl.rdy {
        cpu
    } else {
        ({ let s0 = cpu; let s1 = spec_after_first_cycle(s0, r.data); s1 })
    }
}

/// The requests the cycle `zeropage_modify_c4` puts on the bus, oldest first.
pub open spec fn spec_zeropage_modify_c4_requests(cpu: Context, pinout: Pinout) -> Seq<Pinout> {
    if !pinout.ctrl.rdy {
        Seq::empty()
    } else {
        seq![spec_read_request(Pinout { ctrl: Ctrl { sync: true, ..pinout.ctrl }, ..pinout }, cpu.pc.spec_value())]
    }
}

pub fn zeropage_modify_c4<B: Bus>(cpu: &mut Context, bus: &mut B, pinout: Pinout) -> (r: Pinout)
    requires
        old(bus).ready(),
    ensures
        final(bus).ready(),
        final(bus).spec_clock() == old(bus).spec_clock(),
        *final(cpu) == spec_zeropage_modify_c4(*old(cpu), pinout, r),
        !pinout.ctrl.rdy ==> r == pinout && *final(cpu) == *old(cpu) && *final(bus) == *old(bus),
        pinout.ctrl.rdy ==> ({ let s0 = *old(cpu); let s1 = spec_after_first_cycle(s0, r.data); *final(cpu) == s1 }),
        final(bus).spec_requests() == old(bus).spec_requests() + spec_zeropage_modify_c4_requests(*old(cpu), pinout),
{
    let mut pinout = pinout;
    if pinout.ctrl.contains(Ctrl::RDY()) == false {
        return pinout;
    }
    pinout = first_cycle(cpu, bus, pinout);
    pinout
}

/// The cpu state after the cycle `absolute_modify_c0` runs, `r` being the pinout it
/// returns.
pub open spec fn spec_absolute_modify_c0(cpu: Context, pinout: Pinout, r: Pinout) -> Context {
    if !pinout.ctrl.rdy {
        cpu
    } else {
        ({ let s0 = cpu; let s1 = spec_after_read(s0, r.data); let s2 = Context { ops: OpState { adl: s1.ops.dl, ..s1.ops }, ..s1 }; let s3 = Context { pc: s2.pc.spec_incremented(), ..s2 }; s3 })
    }
}

/// The requests the cycle `absolute_modify_c0` puts on the bus, oldest first.
pub open spec fn spec_absolute_modify_c0_requests(cpu: Context, pinout: Pinout) -> Seq<Pinout> {
    if !pinout.ctrl.rdy {
        Seq::empty()
    } else {
        seq![spec_read_request(Pinout { ctrl: Ctrl { sync: false, ..pinout.ctrl }, ..pinout }, cpu.pc.spec_value())]
    }
}

pub fn absolute_modify_c0<B: Bus>(cpu: &mut Context, bus: &mut B, pinout: Pinout) -> (r: Pinout)
    requires
        old(bus).ready(),
    ensures
        final(bus).ready(),
        final(bus).spec_clock() == old(bus).spec_clock(),
        *final(cpu) == spec_absolute_modify_c0(*old(cpu), pinout, r),
        !pinout.ctrl.rdy ==> r == pinout && *final(cpu) == *old(cpu) && *final(bus) == *old(bus),
        pinout.ctrl.rdy ==> ({ let s0 = *old(cpu); let s1 = spec_after_read(s0, r.data); let s2 = Context { ops: OpState { adl: s1.ops.dl, ..s1.ops }, ..s1 }; let s3 = Context { pc: s2.pc.spec_incremented(), ..s2 }; *final(cpu) == s3 }),
        final(bus).spec_requests() == old(bus).spec_requests() + spec_absolute_modify_c0_requests(*old(cpu), pinout),
{
    let mut pinout = pinout;
    if pinout.ctrl.contains(Ctrl::RDY()) == false {
        return pinout;
    }
    pinout = second_cycle(cpu, bus, pinout);
    cpu.ops.adl = cpu.ops.dl;
    cpu.pc.increment();
    pinout
}

/// The cpu state after the cycle `absolute_modify_c1` runs, `r` being the pinout it
/// returns.
pub open spec fn spec_absolute_modify_c1(cpu: Context, pinout: Pinout, r: Pinout) -> Context {
    if !pinout.ctrl.rdy {
        cpu
    } else {
        ({ let s0 = cpu; let s1 = spec_after_read(s0, r.data); let s2 = Context { ops: OpState { adh: s1.ops.dl, ..s1.ops }, ..s1 }; let s3 = Context { pc: s2.pc.spec_incremented(), ..s2 }; s3 })
    }
}

/// The requests the cycle `absolute_modify_c1` puts on the bus, oldest first.
pub open spec fn spec_absolute_modify_c1_requests(cpu: Context, pinout: Pinout) -> Seq<Pinout> {
    if !pinout.ctrl.rdy {
        Seq::empty()
    } else {
        seq![spec_read_request(pinout, cpu.pc.spec_value())]
    }
}

pub fn absolute_modify_c1<B: Bus>(cpu: &mut Context, bus: &mut B, pinout: Pinout) -> (r: Pinout)
    requires
        old(bus).ready(),
    ensures
        final(bus).ready(),
        final(bus).spec_clock() == old(bus).spec_clock(),
        *final(cpu) == spec_absolute_modify_c1(*old(cpu), pinout, r),
        !pinout.ctrl.rdy ==> r == pinout && *final(cpu) == *old(cpu) && *final(bus) == *old(bus),
        pinout.ctrl.rdy ==> ({ let s0 = *old(cpu); let s1 = spec_after_read(s0, r.data); let s2 = Context { ops: OpState { adh: s1.ops.dl, ..s1.ops }, ..s1 }; let s3 = Context { pc: s2.pc.spec_incremented(), ..s2 }; *final(cpu) == s3 }),
        final(bus).spec_requests() == old(bus).spec_requests() + spec_absolute_modify_c1_requests(*old(cpu), pinout),
{
    let mut pinout = pinout;
    if pinout.ctrl.contains(Ctrl::RDY()) == false {
        return pinout;
    }
    let addr = cpu.pc.value();
    pinout = read_cycle(cpu, bus, pinout, addr);
    cpu.ops.adh = cpu.ops.dl;
    cpu.pc.increment();
    pinout
}

/// The cpu state after the cycle `absolute_modify_c2` runs, `r` being the pinout it
/// returns.
pub open spec fn spec_absolute_modify_c2(cpu: Context, pinout: Pinout, r: Pinout) -> Context {
    if !pinout.ctrl.rdy {
        cpu
    } else {
        ({ let s0 = cpu; let s1 = spec_after_read(s0, r.data); s1 })
    }
}

/// The requests the cycle `absolute_modify_c2` puts on the bus, oldest first.
pub open spec fn spec_absolute_modify_c2_requests(cpu: Context, pinout: Pinout) -> Seq<Pinout> {
    if !pinout.ctrl.rdy {
        Seq::empty()
    } else {
        seq![spec_read_request(pinout, spec_address(cpu.ops.adh, cpu.ops.adl))]
    }
}

pub fn absolute_modify_c2<B: Bus>(cpu: &mut Context, bus: &mut B, pinout: Pinout) -> (r: Pinout)
    requires
        old(bus).ready(),
    ensures
        final(bus).ready(),
        final(bus).spec_clock() == old(bus).spec_clock(),
        *final(cpu) == spec_absolute_modify_c2(*old(cpu), pinout, r),
        !pinout.ctrl.rdy ==> r == pinout && *final(cpu) == *old(cpu) && *final(bus) == *old(bus),
        pinout.ctrl.rdy ==> ({ let s0 = *old(cpu); let s1 = spec_after_read(s0, r.data); *final(cpu) == s1 }),
        final(bus).spec_requests() == old(bus).spec_requests() + spec_absolute_modify_c2_requests(*old(cpu), pinout),
{
    let mut pinout = pinout;
    if pinout.ctrl.contains(Ctrl::RDY()) == false {
        return pinout;
    }
    let addr = to_address(cpu.ops.adh, cpu.ops.adl);
    pinout = read_cycle(cpu, bus, pinout, addr);
    pinout
}

/// The cpu state after the cycle `absolute_modify_c3` runs, `r` being the pinout it
/// returns.
pub open spec fn spec_absolute_modify_c3<T: Instruction>(cpu: Context, pinout: Pinout, r: Pinout) -> Context {
    ({ let s0 = cpu; let s1 = spec_after_write(s0); let s2 = T::spec_execute(s1); s2 })
}

/// The requests the cycle `absolute_modify_c3` puts on the bus, oldest first.
pub open spec fn spec_absolute_modify_c3_requests<T: Instruction>(cpu: Context, pinout: Pinout) -> Seq<Pinout> {
    seq![spec_write_request(pinout, spec_address(cpu.ops.adh, cpu.ops.adl), cpu.ops.dl)]
}

pub fn absolute_modify_c3<B: Bus, T: Instruction>(cpu: &mut Context, bus: &mut B, pinout: Pinout) -> (r: Pinout)
    requires
        old(bus).ready(),
    ensures
        final(bus).ready(),
        final(bus).spec_clock() == old(bus).spec_clock(),
        *final(cpu) == spec_absolute_modify_c3::<T>(*old(cpu), pinout, r),
        ({ let s0 = *old(cpu); let s1 = spec_after_write(s0); let s2 = T::spec_execute(s1); *final(cpu) == s2 }),
        final(bus).spec_requests() == old(bus).spec_requests() + spec_absolute_modify_c3_requests::<T>(*old(cpu), pinout),
{
    let mut pinout = pinout;
    let addr = to_address(cpu.ops.adh, cpu.ops.adl);
    let data = cpu.ops.dl;
    pinout = write_cycle(cpu, bus, pinout, addr, data);
    T::execute(cpu);
    pinout
}

/// The cpu state after the cycle `absolute_modify_c4` runs, `r` being the pinout it
/// returns.
pub open spec fn spec_absolute_modify_c4(cpu: Context, pinout: Pinout, r: Pinout) -> Context {
    ({ let s0 = cpu; let s1 = spec_after_write(s0); let s2 = spec_poll(s1, r); s2 })
}

/// The requests the cycle `absolute_modify_c4` puts on the bus, oldest first.
pub open spec fn spec_absolute_modify_c4_requests(cpu: Context, pinout: Pinout) -> Seq<Pinout> {
    seq![spec_write_request(pinout, spec_address(cpu.ops.adh, cpu.ops.adl), cpu.ops.dl)]
}

pub fn absolute_modify_c4<B: Bus>(cpu: &mut Context, bus: &mut B, pinout: Pinout) -> (r: Pinout)
    requires
        old(bus).ready(),
    ensures
        final(bus).ready(),
        final(bus).spec_clock() == old(bus).spec_clock(),
        *final(cpu) == spec_absolute_modify_c4(*old(cpu), pinout, r),
        ({ let s0 = *old(cpu); let s1 = spec_after_write(s0); let s2 = spec_poll(s1, r); *final(cpu) == s2 }),
        final(bus).spec_requests() == old(bus).spec_requests() + spec_absolute_modify_c4_requests(*old(cpu), pinout),
{
    let mut pinout = pinout;
    let addr = to_address(cpu.ops.adh, cpu.ops.adl);
    let data = cpu.ops.dl;
    pinout = write_cycle(cpu, bus, pinout, addr, data);
    poll_interrupts(cpu, pinout);
    if cpu.ir.tm > 0xF {
        return pinout;
    }
    pinout
}

/// The cpu state after the cycle `absolute_modify_c5` runs, `r` being the pinout it
/// returns.
pub open spec fn spec_absolute_modify_c5(cpu: Context, pinout: Pinout, r: Pinout) -> Context {
    if !pinout.ctrl.rdy {
        cpu
    } else {
        ({ let s0 = cpu; let s1 = spec_after_first_cycle(s0, r.data); s1 })
    }
}

/// The requests the cycle `absolute_modify_c5` puts on the bus, oldest first.
pub open spec fn spec_absolute_modify_c5_requests(cpu: Context, pinout: Pinout) -> Seq<Pinout> {
    if !pinout.ctrl.rdy {
        Seq::empty()
    } else {
        seq![spec_read_request(Pinout { ctrl: Ctrl { sync: true, ..pinout.ctrl }, ..pinout }, cpu.pc.spec_value())]
    }
}

pub fn absolute_modify_c5<B: Bus>(cpu: &mut Context, bus: &mut B, pinout: Pinout) -> (r: Pinout)
    requires
        old(bus).ready(),
    ensures
        final(bus).ready(),
        final(bus).spec_clock() == old(bus).spec_clock(),
        *final(cpu) == spec_absolute_modify_c5(*old(cpu), pinout, r),
        !pinout.ctrl.rdy ==> r == pinout && *final(cpu) == *old(cpu) && *final(bus) == *old(bus),
        pinout.ctrl.rdy ==> ({ let s0 = *old(cpu); let s1 = spec_after_first_cycle(s0, r.data); *final(cpu) == s1 }),
        final(bus).spec_requests() == old(bus).spec_requests() + spec_absolute_modify_c5_requests(*old(cpu), pinout),
{
    let mut pinout = pinout;
    if pinout.ctrl.contains(Ctrl::RDY()) == false {
        return pinout;
    }
    pinout = first_cycle(cpu, bus, pinout);
    pinout
}

/// The cpu state after the cycle `zeropage_x_modify_c0` runs, `r` being the pinout it
/// returns.
pub open spec fn spec_zeropage_x_modify_c0(cpu: Context, pinout: Pinout, r: Pinout) -> Context {
    if !pinout.ctrl.rdy {
        cpu
    } else {
        ({ let s0 = cpu; let s1 = spec_after_read(s0, r.data); let s2 = Context { ops: OpState { bal: s1.ops.dl, ..s1.ops }, ..s1 }; let s3 = Context { pc: s2.pc.spec_incremented(), ..s2 }; s3 })
    }
}

/// The requests the cycle `zeropage_x_modify_c0` puts on the bus, oldest first.
pub open spec fn spec_zeropage_x_modify_c0_requests(cpu: Context, pinout: Pinout) -> Seq<Pinout> {
    if !pinout.ctrl.rdy {
        Seq::empty()
    } else {
        seq![spec_read_request(Pinout { ctrl: Ctrl { sync: false, ..pinout.ctrl }, ..pinout }, cpu.pc.spec_value())]
    }
}

pub fn zeropage_x_modify_c0<B: Bus>(cpu: &mut Context, bus: &mut B, pinout: Pinout) -> (r: Pinout)
    requires
        old(bus).ready(),
    ensures
        final(bus).ready(),
        final(bus).spec_clock() == old(bus).spec_clock(),
        *final(cpu) == spec_zeropage_x_modify_c0(*old(cpu), pinout, r),
        !pinout.ctrl.rdy ==> r == pinout && *final(cpu) == *old(cpu) && *final(bus) == *old(bus),
        pinout.ctrl.rdy ==> ({ let s0 = *old(cpu); let s1 = spec_after_read(s0, r.data); let s2 = Context { ops: OpState { bal: s1.ops.dl, ..s1.ops }, ..s1 }; let s3 = Context { pc: s2.pc.spec_incremented(), ..s2 }; *final(cpu) == s3 }),
        final(bus).spec_requests() == old(bus).spec_requests() + spec_zeropage_x_modify_c0_requests(*old(cpu), pinout),
{
    let mut pinout = pinout;
    if pinout.ctrl.contains(Ctrl::RDY()) == false {
        return pinout;
    }
    pinout = second_cycle(cpu, bus, pinout);
    cpu.ops.bal = cpu.ops.dl;
    cpu.pc.increment();
    pinout
}

/// The cpu state after the cycle `zeropage_x_modify_c1` runs, `r` being the pinout it
/// returns.
pub open spec fn spec_zeropage_x_modify_c1(cpu: Context, pinout: Pinout, r: Pinout) -> Context {
    if !pinout.ctrl.rdy {
        cpu
    } else {
        ({ let s0 = cpu; let s1 = Context { ops: OpState { adl: s0.ops.bal.wrapping_add(s0.x), ..s0.ops }, ..s0 }; let s2 = spec_after_read(s1, r.data); s2 })
    }
}

/// The requests the cycle `zeropage_x_modify_c1` puts on the bus, oldest first.
pub open spec fn spec_zeropage_x_modify_c1_requests(cpu: Context, pinout: Pinout) -> Seq<Pinout> {
    if !pinout.ctrl.rdy {
        Seq::empty()
    } else {
        let s1 = Context { ops: OpState { adl: cpu.ops.bal.wrapping_add(cpu.x), ..cpu.ops }, ..cpu };
        seq![spec_read_request(pinout, spec_address(0, s1.ops.adl))]
    }
}

pub fn zeropage_x_modify_c1<B: Bus>(cpu: &mut Context, bus: &mut B, pinout: Pinout) -> (r: Pinout)
    requires
        old(bus).ready(),
    ensures
        final(bus).ready(),
        final(bus).spec_clock() == old(bus).spec_clock(),
        *final(cpu) == spec_zeropage_x_modify_c1(*old(cpu), pinout, r),
        !pinout.ctrl.rdy ==> r == pinout && *final(cpu) == *old(cpu) && *final(bus) == *old(bus),
        pinout.ctrl.rdy ==> ({ let s0 = *old(cpu); let s1 = Context { ops: OpState { adl: s0.ops.bal.wrapping_add(s0.x), ..s0.ops }, ..s0 }; let s2 = spec_after_read(s1, r.data); *final(cpu) == s2 }),
        final(bus).spec_requests() == old(bus).spec_requests() + spec_zeropage_x_modify_c1_requests(*old(cpu), pinout),
{
    let mut pinout = pinout;
    if pinout.ctrl.contains(Ctrl::RDY()) == false {
        return pinout;
    }
    cpu.ops.adl = cpu.ops.bal.wrapping_add(cpu.x);
    let addr = to_address(0, cpu.ops.adl);
    pinout = read_cycle(cpu, bus, pinout, addr);
    pinout
}

/// The cpu state after the cycle `zeropage_x_modify_c2` runs, `r` being the pinout it
/// returns.
pub open spec fn spec_zeropage_x_modify_c2(cpu: Context, pinout: Pinout, r: Pinout) -> Context {
    if !pinout.ctrl.rdy {
        cpu
    } else {
        ({ let s0 = cpu; let s1 = spec_after_read(s0, r.data); s1 })
    }
}

/// The requests the cycle `zeropage_x_modify_c2` puts on the bus, oldest first.
pub open spec fn spec_zeropage_x_modify_c2_requests(cpu: Context, pinout: Pinout) -> Seq<Pinout> {
    if !pinout.ctrl.rdy {
        Seq::empty()
    } else {
        seq![spec_read_request(pinout, spec_address(0, cpu.ops.adl))]
    }
}

pub fn zeropage_x_modify_c2<B: Bus>(cpu: &mut Context, bus: &mut B, pinout: Pinout) -> (r: Pinout)
    requires
        old(bus).ready(),
    ensures
        final(bus).ready(),
        final(bus).spec_clock() == old(bus).spec_clock(),
        *final(cpu) == spec_zeropage_x_modify_c2(*old(cpu), pinout, r),
        !pinout.ctrl.rdy ==> r == pinout && *final(cpu) == *old(cpu) && *final(bus) == *old(bus),
        pinout.ctrl.rdy ==> ({ let s0 = *old(cpu); let s1 = spec_after_read(s0, r.data); *final(cpu) == s1 }),
        final(bus).spec_requests() == old(bus).spec_requests() + spec_zeropage_x_modify_c2_requests(*old(cpu), pinout),
{
    let mut pinout = pinout;
    if pinout.ctrl.contains(Ctrl::RDY()) == false {
        return pinout;
    }
    let addr = to_address(0, cpu.ops.adl);
    pinout = read_cycle(cpu, bus, pinout, addr);
    pinout
}

/// The cpu state after the cycle `zeropage_x_modify_c3` runs, `r` being the pinout it
/// returns.
pub open spec fn spec_zeropage_x_modify_c3<T: Instruction>(cpu: Context, pinout: Pinout, r: Pinout) -> Context {
    ({ let s0 = cpu; let s1 = spec_after_write(s0); let s2 = T::spec_execute(s1); s2 })
}

/// The requests the cycle `zeropage_x_modify_c3` puts on the bus, oldest first.
pub open spec fn spec_zeropage_x_modify_c3_requests<T: Instruction>(cpu: Context, pinout: Pinout) -> Seq<Pinout> {
    seq![spec_write_request(pinout, spec_address(0, cpu.ops.adl), cpu.ops.dl)]
}

pub fn zeropage_x_modify_c3<B: Bus, T: Instruction>(cpu: &mut Context, bus: &mut B, pinout: Pinout) -> (r: Pinout)
    requires
        old(bus).ready(),
    ensures
        final(bus).ready(),
        final(bus).spec_clock() == old(bus).spec_clock(),
        *final(cpu) == spec_zeropage_x_modify_c3::<T>(*old(cpu), pinout, r),
        ({ let s0 = *old(cpu); let s1 = spec_after_write(s0); let s2 = T::spec_execute(s1); *final(cpu) == s2 }),
        final(bus).spec_requests() == old(bus).spec_requests() + spec_zeropage_x_modify_c3_requests::<T>(*old(cpu), pinout),
{
    let mut pinout = pinout;
    let addr = to_address(0, cpu.ops.adl);
    let data = cpu.ops.dl;
    pinout = write_cycle(cpu, bus, pinout, addr, data);
    T::execute(cpu);
    pinout
}

/// The cpu state after the cycle `zeropage_x_modify_c4` runs, `r` being the pinout it
/// returns.
pub open spec fn spec_zeropage_x_modify_c4(cpu: Context, pinout: Pinout, r: Pinout) -> Context {
    ({ let s0 = cpu; let s1 = spec_after_write(s0); let s2 = spec_poll(s1, r); s2 })
}

/// The requests the cycle `zeropage_x_modify_c4` puts on the bus, oldest first.
pub open spec fn spec_zeropage_x_modify_c4_requests(cpu: Context, pinout: Pinout) -> Seq<Pinout> {
    seq![spec_write_request(pinout, spec_address(0, cpu.ops.adl), cpu.ops.dl)]
}

pub fn zeropage_x_modify_c4<B: Bus>(cpu: &mut Context, bus: &mut B, pinout: Pinout) -> (r: Pinout)
    requires
        old(bus).ready(),
    ensures
        final(bus).ready(),
        final(bus).spec_clock() == old(bus).spec_clock(),
        *final(cpu) == spec_zeropage_x_modify_c4(*old(cpu), pinout, r),
        ({ let s0 = *old(cpu); let s1 = spec_after_write(s0); let s2 = spec_poll(s1, r); *final(cpu) == s2 }),
        final(bus).spec_requests() == old(bus).spec_requests() + spec_zeropage_x_modify_c4_requests(*old(cpu), pinout),
{
    let mut pinout = pinout;
    let addr = to_address(0, cpu.ops.adl);
    let data = cpu.ops.dl;
    pinout = write_cycle(cpu, bus, pinout, addr, data);
    poll_interrupts(cpu, pinout);
    if cpu.ir.tm > 0xF {
        return pinout;
    }
    pinout
}

/// The cpu state after the cycle `zeropage_x_modify_c5` runs, `r` being the pinout it
/// returns.
pub open spec fn spec_zeropage_x_modify_c5(cpu: Context, pinout: Pinout, r: Pinout) -> Context {
    if !pinout.ctrl.rdy {
        cpu
    } else {
        ({ let s0 = cpu; let s1 = spec_after_first_cycle(s0, r.data); s1 })
    }
}

/// The requests the cycle `zeropage_x_modify_c5` puts on the bus, oldest first.
pub open spec fn spec_zeropage_x_modify_c5_requests(cpu: Context, pinout: Pinout) -> Seq<Pinout> {
    if !pinout.ctrl.rdy {
        Seq::empty()
    } else {
        seq![spec_read_request(Pinout { ctrl: Ctrl { sync: true, ..pinout.ctrl }, ..pinout }, cpu.pc.spec_value())]
    }
}

pub fn zeropage_x_modify_c5<B: Bus>(cpu: &mut Context, bus: &mut B, pinout: Pinout) -> (r: Pinout)
    requires
        old(bus).ready(),
    ensures
        final(bus).ready(),
        final(bus).spec_clock() == old(bus).spec_clock(),
        *final(cpu) == spec_zeropage_x_modify_c5(*old(cpu), pinout, r),
        !pinout.ctrl.rdy ==> r == pinout && *final(cpu) == *old(cpu) && *final(bus) == *old(bus),
        pinout.ctrl.rdy ==> ({ let s0 = *old(cpu); let s1 = spec_after_first_cycle(s0, r.data); *final(cpu) == s1 }),
        final(bus).spec_requests() == old(bus).spec_requests() + spec_zeropage_x_modify_c5_requests(*old(cpu), pinout),
{
    let mut pinout = pinout;
    if pinout.ctrl.contains(Ctrl::RDY()) == false {
        return pinout;
    }
    pinout = first_cycle(cpu, bus, pinout);
    pinout
}

/// The cpu state after the cycle `absolute_x_modify_c0` runs, `r` being the pinout it
/// returns.
pub open spec fn spec_absolute_x_modify_c0(cpu: Context, pinout: Pinout, r: Pinout) -> Context {
    if !pinout.ctrl.rdy {
        cpu
    } else {
        ({ let s0 = cpu; let s1 = spec_after_read(s0, r.data); let s2 = Context { ops: OpState { bal: s1.ops.dl, ..s1.ops }, ..s1 }; let s3 = Context { pc: s2.pc.spec_incremented(), ..s2 }; s3 })
    }
}

/// The requests the cycle `absolute_x_modify_c0` puts on the bus, oldest first.
pub open spec fn spec_absolute_x_modify_c0_requests(cpu: Context, pinout: Pinout) -> Seq<Pinout> {
    if !pinout.ctrl.rdy {
        Seq::empty()
    } else {
        seq![spec_read_request(Pinout { ctrl: Ctrl { sync: false, ..pinout.ctrl }, ..pinout }, cpu.pc.spec_value())]
    }
}

pub fn absolute_x_modify_c0<B: Bus>(cpu: &mut Context, bus: &mut B, pinout: Pinout) -> (r: Pinout)
    requires
        old(bus).ready(),
    ensures
        final(bus).ready(),
        final(bus).spec_clock() == old(bus).spec_clock(),
        *final(cpu) == spec_absolute_x_modify_c0(*old(cpu), pinout, r),
        !pinout.ctrl.rdy ==> r == pinout && *final(cpu) == *old(cpu) && *final(bus) == *old(bus),
        pinout.ctrl.rdy ==> ({ let s0 = *old(cpu); let s1 = spec_after_read(s0, r.data); let s2 = Context { ops: OpState { bal: s1.ops.dl, ..s1.ops }, ..s1 }; let s3 = Context { pc: s2.pc.spec_incremented(), ..s2 }; *final(cpu) == s3 }),
        final(bus).spec_requests() == old(bus).spec_requests() + spec_absolute_x_modify_c0_requests(*old(cpu), pinout),
{
    let mut pinout = pinout;
    if pinout.ctrl.contains(Ctrl::RDY()) == false {
        return pinout;
    }
    pinout = second_cycle(cpu, bus, pinout);
    cpu.ops.bal = cpu.ops.dl;
    cpu.pc.increment();
    pinout
}

/// The cpu state after the cycle `absolute_x_modify_c1` runs, `r` being the pinout it
/// returns.
pub open spec fn spec_absolute_x_modify_c1(cpu: Context, pinout: Pinout, r: Pinout) -> Context {
    if !pinout.ctrl.rdy {
        cpu
    } else {
        ({ let s0 = cpu; let s1 = spec_after_read(s0, r.data); let s2 = Context { ops: OpState { bah: s1.ops.dl, ..s1.ops }, ..s1 }; let s3 = Context { pc: s2.pc.spec_incremented(), ..s2 }; s3 })
    }
}

/// The requests the cycle `absolute_x_modify_c1` puts on the bus, oldest first.
pub open spec fn spec_absolute_x_modify_c1_requests(cpu: Context, pinout: Pinout) -> Seq<Pinout> {
    if !pinout.ctrl.rdy {
        Seq::empty()
    } else {
        seq![spec_read_request(pinout, cpu.pc.spec_value())]
    }
}

pub fn absolute_x_modify_c1<B: Bus>(cpu: &mut Context, bus: &mut B, pinout: Pinout) -> (r: Pinout)
    requires
        old(bus).ready(),
    ensures
        final(bus).ready(),
        final(bus).spec_clock() == old(bus).spec_clock(),
        *final(cpu) == spec_absolute_x_modify_c1(*old(cpu), pinout, r),
        !pinout.ctrl.rdy ==> r == pinout && *final(cpu) == *old(cpu) && *final(bus) == *old(bus),
        pinout.ctrl.rdy ==> ({ let s0 = *old(cpu); let s1 = spec_after_read(s0, r.data); let s2 = Context { ops: OpState { bah: s1.ops.dl, ..s1.ops }, ..s1 }; let s3 = Context { pc: s2.pc.spec_incremented(), ..s2 }; *final(cpu) == s3 }),
        final(bus).spec_requests() == old(bus).spec_requests() + spec_absolute_x_modify_c1_requests(*old(cpu), pinout),
{
    let mut pinout = pinout;
    if pinout.ctrl.contains(Ctrl::RDY()) == false {
        return pinout;
    }
    let addr = cpu.pc.value();
    pinout = read_cycle(cpu, bus, pinout, addr);
    cpu.ops.bah = cpu.ops.dl;
    cpu.pc.increment();
    pinout
}

/// The cpu state after the cycle `absolute_x_modify_c2` runs, `r` being the pinout it
/// returns.
pub open spec fn spec_absolute_x_modify_c2(cpu: Context, pinout: Pinout, r: Pinout) -> Context {
    if !pinout.ctrl.rdy {
        cpu
    } else {
        ({ let s0 = cpu; let adl = (s0.ops.bal.wrapping_add(s0.x), s0.ops.bal + s0.x > 255); let s1 = Context { ops: OpState { adl: adl.0, ..s0.ops }, ..s0 }; let s2 = Context { ops: OpState { adh: s1.ops.bah.wrapping_add(if adl.1 { 1u8 } else { 0 }), ..s1.ops }, ..s1 }; let s3 = spec_after_read(s2, r.data); s3 })
    }
}

/// The requests the cycle `absolute_x_modify_c2` puts on the bus, oldest first.
pub open spec fn spec_absolute_x_modify_c2_requests(cpu: Context, pinout: Pinout) -> Seq<Pinout> {
    if !pinout.ctrl.rdy {
        Seq::empty()
    } else {
        let adl = (cpu.ops.bal.wrapping_add(cpu.x), cpu.ops.bal + cpu.x > 255);
        let s1 = Context { ops: OpState { adl: adl.0, ..cpu.ops }, ..cpu };
        let s2 = Context { ops: OpState { adh: s1.ops.bah.wrapping_add(if adl.1 { 1u8 } else { 0 }), ..s1.ops }, ..s1 };
        seq![spec_read_request(pinout, spec_address(s2.ops.adh, s2.ops.adl))]
    }
}

pub fn absolute_x_modify_c2<B: Bus>(cpu: &mut Context, bus: &mut B, pinout: Pinout) -> (r: Pinout)
    requires
        old(bus).ready(),
    ensures
        final(bus).ready(),
        final(bus).spec_clock() == old(bus).spec_clock(),
        *final(cpu) == spec_absolute_x_modify_c2(*old(cpu), pinout, r),
        !pinout.ctrl.rdy ==> r == pinout && *final(cpu) == *old(cpu) && *final(bus) == *old(bus),
        pinout.ctrl.rdy ==> ({ let s0 = *old(cpu); let adl = (s0.ops.bal.wrapping_add(s0.x), s0.ops.bal + s0.x > 255); let s1 = Context { ops: OpState { adl: adl.0, ..s0.ops }, ..s0 }; let s2 = Context { ops: OpState { adh: s1.ops.bah.wrapping_add(if adl.1 { 1u8 } else { 0 }), ..s1.ops }, ..s1 }; let s3 = spec_after_read(s2, r.data); *final(cpu) == s3 }),
        final(bus).spec_requests() == old(bus).spec_requests() + spec_absolute_x_modify_c2_requests(*old(cpu), pinout),
{
    let mut pinout = pinout;
    if pinout.ctrl.contains(Ctrl::RDY()) == false {
        return pinout;
    }
    let adl = overflowing_add(cpu.ops.bal, cpu.x);
    cpu.ops.adl = adl.0;
    cpu.ops.adh = cpu.ops.bah.wrapping_add(if adl.1 { 1u8 } else { 0 });
    let addr = to_address(cpu.ops.adh, cpu.ops.adl);
    pinout = read_cycle(cpu, bus, pinout, addr);
    pinout
}

/// The cpu state after the cycle `absolute_x_modify_c3` runs, `r` being the pinout it
/// returns.
pub open spec fn spec_absolute_x_modify_c3(cpu: Context, pinout: Pinout, r: Pinout) -> Context {
    if !pinout.ctrl.rdy {
        cpu
    } else {
        ({ let s0 = cpu; let s1 = spec_after_read(s0, r.data); s1 })
    }
}

/// The requests the cycle `absolute_x_modify_c3` puts on the bus, oldest first.
pub open spec fn spec_absolute_x_modify_c3_requests(cpu: Context, pinout: Pinout) -> Seq<Pinout> {
    if !pinout.ctrl.rdy {
        Seq::empty()
    } else {
        seq![spec_read_request(pinout, spec_address(cpu.ops.adh, cpu.ops.adl))]
    }
}

pub fn absolute_x_modify_c3<B: Bus>(cpu: &mut Context, bus: &mut B, pinout: Pinout) -> (r: Pinout)
    requires
        old(bus).ready(),
    ensures
        final(bus).ready(),
        final(bus).spec_clock() == old(bus).spec_clock(),
        *final(cpu) == spec_absolute_x_modify_c3(*old(cpu), pinout, r),
        !pinout.ctrl.rdy ==> r == pinout && *final(cpu) == *old(cpu) && *final(bus) == *old(bus),
        pinout.ctrl.rdy ==> ({ let s0 = *old(cpu); let s1 = spec_after_read(s0, r.data); *final(cpu) == s1 }),
        final(bus).spec_requests() == old(bus).spec_requests() + spec_absolute_x_modify_c3_requests(*old(cpu), pinout),
{
    let mut pinout = pinout;
    if pinout.ctrl.contains(Ctrl::RDY()) == false {
        return pinout;
    }
    let addr = to_address(cpu.ops.adh, cpu.ops.adl);
    pinout = read_cycle(cpu, bus, pinout, addr);
    pinout
}

/// The cpu state after the cycle `absolute_x_modify_c4` runs, `r` being the pinout it
/// returns.
pub open spec fn spec_absolute_x_modify_c4<T: Instruction>(cpu: Context, pinout: Pinout, r: Pinout) -> Context {
    ({ let s0 = cpu; let s1 = spec_after_write(s0); let s2 = T::spec_execute(s1); s2 })
}

/// The requests the cycle `absolute_x_modify_c4` puts on the bus, oldest first.
pub open spec fn spec_absolute_x_modify_c4_requests<T: Instruction>(cpu: Context, pinout: Pinout) -> Seq<Pinout> {
    seq![spec_write_request(pinout, spec_address(cpu.ops.adh, cpu.ops.adl), cpu.ops.dl)]
}

pub fn absolute_x_modify_c4<B: Bus, T: Instruction>(cpu: &mut Context, bus: &mut B, pinout: Pinout) -> (r: Pinout)
    requires
        old(bus).ready(),
    ensures
        final(bus).ready(),
        final(bus).spec_clock() == old(bus).spec_clock(),
        *final(cpu) == spec_absolute_x_modify_c4::<T>(*old(cpu), pinout, r),
        ({ let s0 = *old(cpu); let s1 = spec_after_write(s0); let s2 = T::spec_execute(s1); *final(cpu) == s2 }),
        final(bus).spec_requests() == old(bus).spec_requests() + spec_absolute_x_modify_c4_requests::<T>(*old(cpu), pinout),
{
    let mut pinout = pinout;
    let addr = to_address(cpu.ops.adh, cpu.ops.adl);
    let data = cpu.ops.dl;
    pinout = write_cycle(cpu, bus, pinout, addr, data);
    T::execute(cpu);
    pinout
}

/// The cpu state after the cycle `absolute_x_modify_c5` runs, `r` being the pinout it
/// returns.
pub open spec fn spec_absolute_x_modify_c5(cpu: Context, pinout: Pinout, r: Pinout) -> Context {
    ({ let s0 = cpu; let s1 = spec_after_write(s0); let s2 = spec_poll(s1, r); s2 })
}

/// The requests the cycle `absolute_x_modify_c5` puts on the bus, oldest first.
pub open spec fn spec_absolute_x_modify_c5_requests(cpu: Context, pinout: Pinout) -> Seq<Pinout> {
    seq![spec_write_request(pinout, spec_address(cpu.ops.adh, cpu.ops.adl), cpu.ops.dl)]
}

pub fn absolute_x_modify_c5<B: Bus>(cpu: &mut Context, bus: &mut B, pinout: Pinout) -> (r: Pinout)
    requires
        old(bus).ready(),
    ensures
        final(bus).ready(),
        final(bus).spec_clock() == old(bus).spec_clock(),
        *final(cpu) == spec_absolute_x_modify_c5(*old(cpu), pinout, r),
        ({ let s0 = *old(cpu); let s1 = spec_after_write(s0); let s2 = spec_poll(s1, r); *final(cpu) == s2 }),
        final(bus).spec_requests() == old(bus).spec_requests() + spec_absolute_x_modify_c5_requests(*old(cpu), pinout),
{
    let mut pinout = pinout;
    let addr = to_address(cpu.ops.adh, cpu.ops.adl);
    let data = cpu.ops.dl;
    pinout = write_cycle(cpu, bus, pinout, addr, data);
    poll_interrupts(cpu, pinout);
    if cpu.ir.tm > 0xF {
        return pinout;
    }
    pinout
}

/// The cpu state after the cycle `absolute_x_modify_c6` runs, `r` being the pinout it
/// returns.
pub open spec fn spec_absolute_x_modify_c6(cpu: Context, pinout: Pinout, r: Pinout) -> Context {
    if !pinout.ctrl.rdy {
        cpu
    } else {
        ({ let s0 = cpu; let s1 = spec_after_first_cycle(s0, r.data); s1 })
    }
}

/// The requests the cycle `absolute_x_modify_c6` puts on the bus, oldest first.
pub open spec fn spec_absolute_x_modify_c6_requests(cpu: Context, pinout: Pinout) -> Seq<Pinout> {
    if !pinout.ctrl.rdy {
        Seq::empty()
    } else {
        seq![spec_read_request(Pinout { ctrl: Ctrl { sync: true, ..pinout.ctrl }, ..pinout }, cpu.pc.spec_value())]
    }
}

pub fn absolute_x_modify_c6<B: Bus>(cpu: &mut Context, bus: &mut B, pinout: Pinout) -> (r: Pinout)
    requires
        old(bus).ready(),
    ensures
        final(bus).ready(),
        final(bus).spec_clock() == old(bus).spec_clock(),
        *final(cpu) == spec_absolute_x_modify_c6(*old(cpu), pinout, r),
        !pinout.ctrl.rdy ==> r == pinout && *final(cpu) == *old(cpu) && *final(bus) == *old(bus),
        pinout.ctrl.rdy ==> ({ let s0 = *old(cpu); let s1 = spec_after_first_cycle(s0, r.data); *final(cpu) == s1 }),
        final(bus).spec_requests() == old(bus).spec_requests() + spec_absolute_x_modify_c6_requests(*old(cpu), pinout),
{
    let mut pinout = pinout;
    if pinout.ctrl.contains(Ctrl::RDY()) == false {
        return pinout;
    }
    pinout = first_cycle(cpu, bus, pinout);
    pinout
}

/// The cpu state after the cycle `php_c0` runs, `r` being the pinout it
/// returns.
pub open spec fn spec_php_c0(cpu: Context, pinout: Pinout, r: Pinout) -> Context {
    if !pinout.ctrl.rdy {
        cpu
    } else {
        ({ let s0 = cpu; let s1 = spec_after_read(s0, r.data); s1 })
    }
}

/// The requests the cycle `php_c0` puts on the bus, oldest first.
pub open spec fn spec_php_c0_requests(cpu: Context, pinout: Pinout) -> Seq<Pinout> {
    if !pinout.ctrl.rdy {
        Seq::empty()
    } else {
        seq![spec_read_request(Pinout { ctrl: Ctrl { sync: false, ..pinout.ctrl }, ..pinout }, cpu.pc.spec_value())]
    }
}

pub fn php_c0<B: Bus>(cpu: &mut Context, bus: &mut B, pinout: Pinout) -> (r: Pinout)
    requires
        old(bus).ready(),
    ensures
        final(bus).ready(),
        final(bus).spec_clock() == old(bus).spec_clock(),
        *final(cpu) == spec_php_c0(*old(cpu), pinout, r),
        !pinout.ctrl.rdy ==> r == pinout && *final(cpu) == *old(cpu) && *final(bus) == *old(bus),
        pinout.ctrl.rdy ==> ({ let s0 = *old(cpu); let s1 = spec_after_read(s0, r.data); *final(cpu) == s1 }),
        final(bus).spec_requests() == old(bus).spec_requests() + spec_php_c0_requests(*old(cpu), pinout),
{
    let mut pinout = pinout;
    if pinout.ctrl.contains(Ctrl::RDY()) == false {
        return pinout;
    }
    pinout = second_cycle(cpu, bus, pinout);
    pinout
}

/// The cpu state after the cycle `php_c1` runs, `r` being the pinout it
/// returns.
pub open spec fn spec_php_c1(cpu: Context, pinout: Pinout, r: Pinout) -> Context {
    ({ let s0 = cpu; let s1 = Context { ops: OpState { dl: (s0.p.spec_bits() | 0x30), ..s0.ops }, ..s0 }; let s2 = spec_after_write(s1); let s3 = Context { sp: s2.sp.wrapping_sub(1), ..s2 }; let s4 = spec_poll(s3, r); s4 })
}

/// The requests the cycle `php_c1` puts on the bus, oldest first.
pub open spec fn spec_php_c1_requests(cpu: Context, pinout: Pinout) -> Seq<Pinout> {
    let s1 = Context { ops: OpState { dl: (cpu.p.spec_bits() | 0x30), ..cpu.ops }, ..cpu };
    seq![spec_write_request(pinout, spec_address(0x1, s1.sp), s1.ops.dl)]
}

pub fn php_c1<B: Bus>(cpu: &mut Context, bus: &mut B, pinout: Pinout) -> (r: Pinout)
    requires
        old(bus).ready(),
    ensures
        final(bus).ready(),
        final(bus).spec_clock() == old(bus).spec_clock(),
        *final(cpu) == spec_php_c1(*old(cpu), pinout, r),
        ({ let s0 = *old(cpu); let s1 = Context { ops: OpState { dl: (s0.p.spec_bits() | 0x30), ..s0.ops }, ..s0 }; let s2 = spec_after_write(s1); let s3 = Context { sp: s2.sp.wrapping_sub(1), ..s2 }; let s4 = spec_poll(s3, r); *final(cpu) == s4 }),
        final(bus).spec_requests() == old(bus).spec_requests() + spec_php_c1_requests(*old(cpu), pinout),
{
    let mut pinout = pinout;
    cpu.ops.dl = cpu.p.push_with_b();
    let addr = to_address(0x1, cpu.sp);
    let data = cpu.ops.dl;
    pinout = write_cycle(cpu, bus, pinout, addr, data);
    cpu.sp = cpu.sp.wrapping_sub(1);
    poll_interrupts(cpu, pinout);
    if cpu.ir.tm > 0xF {
        return pinout;
    }
    pinout
}

/// The cpu state after the cycle `php_c2` runs, `r` being the pinout it
/// returns.
pub open spec fn spec_php_c2(cpu: Context, pinout: Pinout, r: Pinout) -> Context {
    if !pinout.ctrl.rdy {
        cpu
    } else {
        ({ let s0 = cpu; let s1 = spec_after_first_cycle(s0, r.data); s1 })
    }
}

/// The requests the cycle `php_c2` puts on the bus, oldest first.
pub open spec fn spec_php_c2_requests(cpu: Context, pinout: Pinout) -> Seq<Pinout> {
    if !pinout.ctrl.rdy {
        Seq::empty()
    } else {
        seq![spec_read_request(Pinout { ctrl: Ctrl { sync: true, ..pinout.ctrl }, ..pinout }, cpu.pc.spec_value())]
    }
}

pub fn php_c2<B: Bus>(cpu: &mut Context, bus: &mut B, pinout: Pinout) -> (r: Pinout)
    requires
        old(bus).ready(),
    ensures
        final(bus).ready(),
        final(bus).spec_clock() == old(bus).spec_clock(),
        *final(cpu) == spec_php_c2(*old(cpu), pinout, r),
        !pinout.ctrl.rdy ==> r == pinout && *final(cpu) == *old(cpu) && *final(bus) == *old(bus),
        pinout.ctrl.rdy ==> ({ let s0 = *old(cpu); let s1 = spec_after_first_cycle(s0, r.data); *final(cpu) == s1 }),
        final(bus).spec_requests() == old(bus).spec_requests() + spec_php_c2_requests(*old(cpu), pinout),
{
    let mut pinout = pinout;
    if pinout.ctrl.contains(Ctrl::RDY()) == false {
        return pinout;
    }
    pinout = first_cycle(cpu, bus, pinout);
    pinout
}

/// The cpu state after the cycle `pha_c0` runs, `r` being the pinout it
/// returns.
pub open spec fn spec_pha_c0(cpu: Context, pinout: Pinout, r: Pinout) -> Context {
    if !pinout.ctrl.rdy {
        cpu
    } else {
        ({ let s0 = cpu; let s1 = spec_after_read(s0, r.data); s1 })
    }
}

/// The requests the cycle `pha_c0` puts on the bus, oldest first.
pub open spec fn spec_pha_c0_requests(cpu: Context, pinout: Pinout) -> Seq<Pinout> {
    if !pinout.ctrl.rdy {
        Seq::empty()
    } else {
        seq![spec_read_request(Pinout { ctrl: Ctrl { sync: false, ..pinout.ctrl }, ..pinout }, cpu.pc.spec_value())]
    }
}

pub fn pha_c0<B: Bus>(cpu: &mut Context, bus: &mut B, pinout: Pinout) -> (r: Pinout)
    requires
        old(bus).ready(),
    ensures
        final(bus).ready(),
        final(bus).spec_clock() == old(bus).spec_clock(),
        *final(cpu) == spec_pha_c0(*old(cpu), pinout, r),
        !pinout.ctrl.rdy ==> r == pinout && *final(cpu) == *old(cpu) && *final(bus) == *old(bus),
        pinout.ctrl.rdy ==> ({ let s0 = *old(cpu); let s1 = spec_after_read(s0, r.data); *final(cpu) == s1 }),
        final(bus).spec_requests() == old(bus).spec_requests() + spec_pha_c0_requests(*old(cpu), pinout),
{
    let mut pinout = pinout;
    if pinout.ctrl.contains(Ctrl::RDY()) == false {
        return pinout;
    }
    pinout = second_cycle(cpu, bus, pinout);
    pinout
}

/// The cpu state after the cycle `pha_c1` runs, `r` being the pinout it
/// returns.
pub open spec fn spec_pha_c1(cpu: Context, pinout: Pinout, r: Pinout) -> Context {
    ({ let s0 = cpu; let s1 = Context { ops: OpState { dl: s0.a, ..s0.ops }, ..s0 }; let s2 = spec_after_write(s1); let s3 = Context { sp: s2.sp.wrapping_sub(1), ..s2 }; let s4 = spec_poll(s3, r); s4 })
}

/// The requests the cycle `pha_c1` puts on the bus, oldest first.
pub open spec fn spec_pha_c1_requests(cpu: Context, pinout: Pinout) -> Seq<Pinout> {
    let s1 = Context { ops: OpState { dl: cpu.a, ..cpu.ops }, ..cpu };
    seq![spec_write_request(pinout, spec_address(0x1, s1.sp), s1.ops.dl)]
}

pub fn pha_c1<B: Bus>(cpu: &mut Context, bus: &mut B, pinout: Pinout) -> (r: Pinout)
    requires
        old(bus).ready(),
    ensures
        final(bus).ready(),
        final(bus).spec_clock() == old(bus).spec_clock(),
        *final(cpu) == spec_pha_c1(*old(cpu), pinout, r),
        ({ let s0 = *old(cpu); let s1 = Context { ops: OpState { dl: s0.a, ..s0.ops }, ..s0 }; let s2 = spec_after_write(s1); let s3 = Context { sp: s2.sp.wrapping_sub(1), ..s2 }; let s4 = spec_poll(s3, r); *final(cpu) == s4 }),
        final(bus).spec_requests() == old(bus).spec_requests() + spec_pha_c1_requests(*old(cpu), pinout),
{
    let mut pinout = pinout;
    cpu.ops.dl = cpu.a;
    let addr = to_address(0x1, cpu.sp);
    let data = cpu.ops.dl;
    pinout = write_cycle(cpu, bus, pinout, addr, data);
    cpu.sp = cpu.sp.wrapping_sub(1);
    poll_interrupts(cpu, pinout);
    if cpu.ir.tm > 0xF {
        return pinout;
    }
    pinout
}

/// The cpu state after the cycle `pha_c2` runs, `r` being the pinout it
/// returns.
pub open spec fn spec_pha_c2(cpu: Context, pinout: Pinout, r: Pinout) -> Context {
    if !pinout.ctrl.rdy {
        cpu
    } else {
        ({ let s0 = cpu; let s1 = spec_after_first_cycle(s0, r.data); s1 })
    }
}

/// The requests the cycle `pha_c2` puts on the bus, oldest first.
pub open spec fn spec_pha_c2_requests(cpu: Context, pinout: Pinout) -> Seq<Pinout> {
    if !pinout.ctrl.rdy {
        Seq::empty()
    } else {
        seq![spec_read_request(Pinout { ctrl: Ctrl { sync: true, ..pinout.ctrl }, ..pinout }, cpu.pc.spec_value())]
    }
}

pub fn pha_c2<B: Bus>(cpu: &mut Context, bus: &mut B, pinout: Pinout) -> (r: Pinout)
    requires
        old(bus).ready(),
    ensures
        final(bus).ready(),
        final(bus).spec_clock() == old(bus).spec_clock(),
        *final(cpu) == spec_pha_c2(*old(cpu), pinout, r),
        !pinout.ctrl.rdy ==> r == pinout && *final(cpu) == *old(cpu) && *final(bus) == *old(bus),
        pinout.ctrl.rdy ==> ({ let s0 = *old(cpu); let s1 = spec_after_first_cycle(s0, r.data); *final(cpu) == s1 }),
        final(bus).spec_requests() == old(bus).spec_requests() + spec_pha_c2_requests(*old(cpu), pinout),
{
    let mut pinout = pinout;
    if pinout.ctrl.contains(Ctrl::RDY()) == false {
        return pinout;
    }
    pinout = first_cycle(cpu, bus, pinout);
    pinout
}

/// The cpu state after the cycle `plp_c0` runs, `r` being the pinout it
/// returns.
pub open spec fn spec_plp_c0(cpu: Context, pinout: Pinout, r: Pinout) -> Context {
    if !pinout.ctrl.rdy {
        cpu
    } else {
        ({ let s0 = cpu; let s1 = spec_after_read(s0, r.data); s1 })
    }
}

/// The requests the cycle `plp_c0` puts on the bus, oldest first.
pub open spec fn spec_plp_c0_requests(cpu: Context, pinout: Pinout) -> Seq<Pinout> {
    if !pinout.ctrl.rdy {
        Seq::empty()
    } else {
        seq![spec_read_request(Pinout { ctrl: Ctrl { sync: false, ..pinout.ctrl }, ..pinout }, cpu.pc.spec_value())]
    }
}

pub fn plp_c0<B: Bus>(cpu: &mut Context, bus: &mut B, pinout: Pinout) -> (r: Pinout)
    requires
        old(bus).ready(),
    ensures
        final(bus).ready(),
        final(bus).spec_clock() == old(bus).spec_clock(),
        *final(cpu) == spec_plp_c0(*old(cpu), pinout, r),
        !pinout.ctrl.rdy ==> r == pinout && *final(cpu) == *old(cpu) && *final(bus) == *old(bus),
        pinout.ctrl.rdy ==> ({ let s0 = *old(cpu); let s1 = spec_after_read(s0, r.data); *final(cpu) == s1 }),
        final(bus).spec_requests() == old(bus).spec_requests() + spec_plp_c0_requests(*old(cpu), pinout),
{
    let mut pinout = pinout;
    if pinout.ctrl.contains(Ctrl::RDY()) == false {
        return pinout;
    }
    pinout = second_cycle(cpu, bus, pinout);
    pinout
}

/// The cpu state after the cycle `plp_c1` runs, `r` being the pinout it
/// returns.
pub open spec fn spec_plp_c1(cpu: Context, pinout: Pinout, r: Pinout) -> Context {
    if !pinout.ctrl.rdy {
        cpu
    } else {
        ({ let s0 = cpu; let s1 = spec_after_read(s0, r.data); s1 })
    }
}

/// The requests the cycle `plp_c1` puts on the bus, oldest first.
pub open spec fn spec_plp_c1_requests(cpu: Context, pinout: Pinout) -> Seq<Pinout> {
    if !pinout.ctrl.rdy {
        Seq::empty()
    } else {
        seq![spec_read_request(pinout, spec_address(0x1, cpu.sp))]
    }
}

pub fn plp_c1<B: Bus>(cpu: &mut Context, bus: &mut B, pinout: Pinout) -> (r: Pinout)
    requires
        old(bus).ready(),
    ensures
        final(bus).ready(),
        final(bus).spec_clock() == old(bus).spec_clock(),
        *final(cpu) == spec_plp_c1(*old(cpu), pinout, r),
        !pinout.ctrl.rdy ==> r == pinout && *final(cpu) == *old(cpu) && *final(bus) == *old(bus),
        pinout.ctrl.rdy ==> ({ let s0 = *old(cpu); let s1 = spec_after_read(s0, r.data); *final(cpu) == s1 }),
        final(bus).spec_requests() == old(bus).spec_requests() + spec_plp_c1_requests(*old(cpu), pinout),
{
    let mut pinout = pinout;
    if pinout.ctrl.contains(Ctrl::RDY()) == false {
        return pinout;
    }
    let addr = to_address(0x1, cpu.sp);
    pinout = read_cycle(cpu, bus, pinout, addr);
    pinout
}

/// The cpu state after the cycle `plp_c3` runs, `r` being the pinout it
/// returns.
pub open spec fn spec_plp_c3(cpu: Context, pinout: Pinout, r: Pinout) -> Context {
    if !pinout.ctrl.rdy {
        cpu
    } else {
        ({ let s0 = cpu; let s1 = spec_after_first_cycle(s0, r.data); s1 })
    }
}

/// The requests the cycle `plp_c3` puts on the bus, oldest first.
pub open spec fn spec_plp_c3_requests(cpu: Context, pinout: Pinout) -> Seq<Pinout> {
    if !pinout.ctrl.rdy {
        Seq::empty()
    } else {
        seq![spec_read_request(Pinout { ctrl: Ctrl { sync: true, ..pinout.ctrl }, ..pinout }, cpu.pc.spec_value())]
    }
}

pub fn plp_c3<B: Bus>(cpu: &mut Context, bus: &mut B, pinout: Pinout) -> (r: Pinout)
    requires
        old(bus).ready(),
    ensures
        final(bus).ready(),
        final(bus).spec_clock() == old(bus).spec_clock(),
        *final(cpu) == spec_plp_c3(*old(cpu), pinout, r),
        !pinout.ctrl.rdy ==> r == pinout && *final(cpu) == *old(cpu) && *final(bus) == *old(bus),
        pinout.ctrl.rdy ==> ({ let s0 = *old(cpu); let s1 = spec_after_first_cycle(s0, r.data); *final(cpu) == s1 }),
        final(bus).spec_requests() == old(bus).spec_requests() + spec_plp_c3_requests(*old(cpu), pinout),
{
    let mut pinout = pinout;
    if pinout.ctrl.contains(Ctrl::RDY()) == false {
        return pinout;
    }
    pinout = first_cycle(cpu, bus, pinout);
    pinout
}

/// The cpu state after the cycle `pla_c0` runs, `r` being the pinout it
/// returns.
pub open spec fn spec_pla_c0(cpu: Context, pinout: Pinout, r: Pinout) -> Context {
    if !pinout.ctrl.rdy {
        cpu
    } else {
        ({ let s0 = cpu; let s1 = spec_after_read(s0, r.data); s1 })
    }
}

/// The requests the cycle `pla_c0` puts on the bus, oldest first.
pub open spec fn spec_pla_c0_requests(cpu: Context, pinout: Pinout) -> Seq<Pinout> {
    if !pinout.ctrl.rdy {
        Seq::empty()
    } else {
        seq![spec_read_request(Pinout { ctrl: Ctrl { sync: false, ..pinout.ctrl }, ..pinout }, cpu.pc.spec_value())]
    }
}

pub fn pla_c0<B: Bus>(cpu: &mut Context, bus: &mut B, pinout: Pinout) -> (r: Pinout)
    requires
        old(bus).ready(),
    ensures
        final(bus).ready(),
        final(bus).spec_clock() == old(bus).spec_clock(),
        *final(cpu) == spec_pla_c0(*old(cpu), pinout, r),
        !pinout.ctrl.rdy ==> r == pinout && *final(cpu) == *old(cpu) && *final(bus) == *old(bus),
        pinout.ctrl.rdy ==> ({ let s0 = *old(cpu); let s1 = spec_after_read(s0, r.data); *final(cpu) == s1 }),
        final(bus).spec_requests() == old(bus).spec_requests() + spec_pla_c0_requests(*old(cpu), pinout),
{
    let mut pinout = pinout;
    if pinout.ctrl.contains(Ctrl::RDY()) == false {
        return pinout;
    }
    pinout = second_cycle(cpu, bus, pinout);
    pinout
}

/// The cpu state after the cycle `pla_c1` runs, `r` being the pinout it
/// returns.
pub open spec fn spec_pla_c1(cpu: Context, pinout: Pinout, r: Pinout) -> Context {
    if !pinout.ctrl.rdy {
        cpu
    } else {
        ({ let s0 = cpu; let s1 = spec_after_read(s0, r.data); s1 })
    }
}

/// The requests the cycle `pla_c1` puts on the bus, oldest first.
pub open spec fn spec_pla_c1_requests(cpu: Context, pinout: Pinout) -> Seq<Pinout> {
    if !pinout.ctrl.rdy {
        Seq::empty()
    } else {
        seq![spec_read_request(pinout, spec_address(0x1, cpu.sp))]
    }
}

pub fn pla_c1<B: Bus>(cpu: &mut Context, bus: &mut B, pinout: Pinout) -> (r: Pinout)
    requires
        old(bus).ready(),
    ensures
        final(bus).ready(),
        final(bus).spec_clock() == old(bus).spec_clock(),
        *final(cpu) == spec_pla_c1(*old(cpu), pinout, r),
        !pinout.ctrl.rdy ==> r == pinout && *final(cpu) == *old(cpu) && *final(bus) == *old(bus),
        pinout.ctrl.rdy ==> ({ let s0 = *old(cpu); let s1 = spec_after_read(s0, r.data); *final(cpu) == s1 }),
        final(bus).spec_requests() == old(bus).spec_requests() + spec_pla_c1_requests(*old(cpu), pinout),
{
    let mut pinout = pinout;
    if pinout.ctrl.contains(Ctrl::RDY()) == false {
        return pinout;
    }
    let addr = to_address(0x1, cpu.sp);
    pinout = read_cycle(cpu, bus, pinout, addr);
    pinout
}

/// The cpu state after the cycle `pla_c3` runs, `r` being the pinout it
/// returns.
pub open spec fn spec_pla_c3(cpu: Context, pinout: Pinout, r: Pinout) -> Context {
    if !pinout.ctrl.rdy {
        cpu
    } else {
        ({ let s0 = cpu; let s1 = spec_after_first_cycle(s0, r.data); s1 })
    }
}

/// The requests the cycle `pla_c3` puts on the bus, oldest first.
pub open spec fn spec_pla_c3_requests(cpu: Context, pinout: Pinout) -> Seq<Pinout> {
    if !pinout.ctrl.rdy {
        Seq::empty()
    } else {
        seq![spec_read_request(Pinout { ctrl: Ctrl { sync: true, ..pinout.ctrl }, ..pinout }, cpu.pc.spec_value())]
    }
}

pub fn pla_c3<B: Bus>(cpu: &mut Context, bus: &mut B, pinout: Pinout) -> (r: Pinout)
    requires
        old(bus).ready(),
    ensures
        final(bus).ready(),
        final(bus).spec_clock() == old(bus).spec_clock(),
        *final(cpu) == spec_pla_c3(*old(cpu), pinout, r),
        !pinout.ctrl.rdy ==> r == pinout && *final(cpu) == *old(cpu) && *final(bus) == *old(bus),
        pinout.ctrl.rdy ==> ({ let s0 = *old(cpu); let s1 = spec_after_first_cycle(s0, r.data); *final(cpu) == s1 }),
        final(bus).spec_requests() == old(bus).spec_requests() + spec_pla_c3_requests(*old(cpu), pinout),
{
    let mut pinout = pinout;
    if pinout.ctrl.contains(Ctrl::RDY()) == false {
        return pinout;
    }
    pinout = first_cycle(cpu, bus, pinout);
    pinout
}

/// The cpu state after the cycle `jsr_c0` runs, `r` being the pinout it
/// returns.
pub open spec fn spec_jsr_c0(cpu: Context, pinout: Pinout, r: Pinout) -> Context {
    if !pinout.ctrl.rdy {
        cpu
    } else {
        ({ let s0 = cpu; let s1 = spec_after_read(s0, r.data); let s2 = Context { ops: OpState { adl: s1.ops.dl, ..s1.ops }, ..s1 }; let s3 = Context { pc: s2.pc.spec_incremented(), ..s2 }; s3 })
    }
}

/// The requests the cycle `jsr_c0` puts on the bus, oldest first.
pub open spec fn spec_jsr_c0_requests(cpu: Context, pinout: Pinout) -> Seq<Pinout> {
    if !pinout.ctrl.rdy {
        Seq::empty()
    } else {
        seq![spec_read_request(Pinout { ctrl: Ctrl { sync: false, ..pinout.ctrl }, ..pinout }, cpu.pc.spec_value())]
    }
}

pub fn jsr_c0<B: Bus>(cpu: &mut Context, bus: &mut B, pinout: Pinout) -> (r: Pinout)
    requires
        old(bus).ready(),
    ensures
        final(bus).ready(),
        final(bus).spec_clock() == old(bus).spec_clock(),
        *final(cpu) == spec_jsr_c0(*old(cpu), pinout, r),
        !pinout.ctrl.rdy ==> r == pinout && *final(cpu) == *old(cpu) && *final(bus) == *old(bus),
        pinout.ctrl.rdy ==> ({ let s0 = *old(cpu); let s1 = spec_after_read(s0, r.data); let s2 = Context { ops: OpState { adl: s1.ops.dl, ..s1.ops }, ..s1 }; let s3 = Context { pc: s2.pc.spec_incremented(), ..s2 }; *final(cpu) == s3 }),
        final(bus).spec_requests() == old(bus).spec_requests() + spec_jsr_c0_requests(*old(cpu), pinout),
{
    let mut pinout = pinout;
    if pinout.ctrl.contains(Ctrl::RDY()) == false {
        return pinout;
    }
    pinout = second_cycle(cpu, bus, pinout);
    cpu.ops.adl = cpu.ops.dl;
    cpu.pc.increment();
    pinout
}

/// The cpu state after the cycle `jsr_c1` runs, `r` being the pinout it
/// returns.
pub open spec fn spec_jsr_c1(cpu: Context, pinout: Pinout, r: Pinout) -> Context {
    if !pinout.ctrl.rdy {
        cpu
    } else {
        ({ let s0 = cpu; let s1 = spec_after_read(s0, r.data); s1 })
    }
}

/// The requests the cycle `jsr_c1` puts on the bus, oldest first.
pub open spec fn spec_jsr_c1_requests(cpu: Context, pinout: Pinout) -> Seq<Pinout> {
    if !pinout.ctrl.rdy {
        Seq::empty()
    } else {
        seq![spec_read_request(pinout, spec_address(0x1, cpu.sp))]
    }
}

pub fn jsr_c1<B: Bus>(cpu: &mut Context, bus: &mut B, pinout: Pinout) -> (r: Pinout)
    requires
        old(bus).ready(),
    ensures
        final(bus).ready(),
        final(bus).spec_clock() == old(bus).spec_clock(),
        *final(cpu) == spec_jsr_c1(*old(cpu), pinout, r),
        !pinout.ctrl.rdy ==> r == pinout && *final(cpu) == *old(cpu) && *final(bus) == *old(bus),
        pinout.ctrl.rdy ==> ({ let s0 = *old(cpu); let s1 = spec_after_read(s0, r.data); *final(cpu) == s1 }),
        final(bus).spec_requests() == old(bus).spec_requests() + spec_jsr_c1_requests(*old(cpu), pinout),
{
    let mut pinout = pinout;
    if pinout.ctrl.contains(Ctrl::RDY()) == false {
        return pinout;
    }
    let addr = to_address(0x1, cpu.sp);
    pinout = read_cycle(cpu, bus, pinout, addr);
    pinout
}

/// The cpu state after the cycle `jsr_c2` runs, `r` being the pinout it
/// returns.
pub open spec fn spec_jsr_c2(cpu: Context, pinout: Pinout, r: Pinout) -> Context {
    ({ let s0 = cpu; let s1 = spec_after_write(s0); let s2 = Context { sp: s1.sp.wrapping_sub(1), ..s1 }; s2 })
}

/// The requests the cycle `jsr_c2` puts on the bus, oldest first.
pub open spec fn spec_jsr_c2_requests(cpu: Context, pinout: Pinout) -> Seq<Pinout> {
    seq![spec_write_request(pinout, spec_address(0x1, cpu.sp), cpu.pc.pch)]
}

pub fn jsr_c2<B: Bus>(cpu: &mut Context, bus: &mut B, pinout: Pinout) -> (r: Pinout)
    requires
        old(bus).ready(),
    ensures
        final(bus).ready(),
        final(bus).spec_clock() == old(bus).spec_clock(),
        *final(cpu) == spec_jsr_c2(*old(cpu), pinout, r),
        ({ let s0 = *old(cpu); let s1 = spec_after_write(s0); let s2 = Context { sp: s1.sp.wrapping_sub(1), ..s1 }; *final(cpu) == s2 }),
        final(bus).spec_requests() == old(bus).spec_requests() + spec_jsr_c2_requests(*old(cpu), pinout),
{
    let mut pinout = pinout;
    let addr = to_address(0x1, cpu.sp);
    let data = cpu.pc.pch;
    pinout = write_cycle(cpu, bus, pinout, addr, data);
    cpu.sp = cpu.sp.wrapping_sub(1);
    pinout
}

/// The cpu state after the cycle `jsr_c3` runs, `r` being the pinout it
/// returns.
pub open spec fn spec_jsr_c3(cpu: Context, pinout: Pinout, r: Pinout) -> Context {
    ({ let s0 = cpu; let s1 = spec_after_write(s0); let s2 = Context { sp: s1.sp.wrapping_sub(1), ..s1 }; s2 })
}

/// The requests the cycle `jsr_c3` puts on the bus, oldest first.
pub open spec fn spec_jsr_c3_requests(cpu: Context, pinout: Pinout) -> Seq<Pinout> {
    seq![spec_write_request(pinout, spec_address(0x1, cpu.sp), cpu.pc.pcl)]
}

pub fn jsr_c3<B: Bus>(cpu: &mut Context, bus: &mut B, pinout: Pinout) -> (r: Pinout)
    requires
        old(bus).ready(),
    ensures
        final(bus).ready(),
        final(bus).spec_clock() == old(bus).spec_clock(),
        *final(cpu) == spec_jsr_c3(*old(cpu), pinout, r),
        ({ let s0 = *old(cpu); let s1 = spec_after_write(s0); let s2 = Context { sp: s1.sp.wrapping_sub(1), ..s1 }; *final(cpu) == s2 }),
        final(bus).spec_requests() == old(bus).spec_requests() + spec_jsr_c3_requests(*old(cpu), pinout),
{
    let mut pinout = pinout;
    let addr = to_address(0x1, cpu.sp);
    let data = cpu.pc.pcl;
    pinout = write_cycle(cpu, bus, pinout, addr, data);
    cpu.sp = cpu.sp.wrapping_sub(1);
    pinout
}

/// The cpu state after the cycle `jsr_c4` runs, `r` being the pinout it
/// returns.
pub open spec fn spec_jsr_c4(cpu: Context, pinout: Pinout, r: Pinout) -> Context {
    if !pinout.ctrl.rdy {
        cpu
    } else {
        ({ let s0 = cpu; let s1 = spec_after_read(s0, r.data); let s2 = Context { ops: OpState { adh: s1.ops.dl, ..s1.ops }, ..s1 }; let s3 = Context { pc: ProgramCounter { pcl: s2.ops.adl, ..s2.pc }, ..s2 }; let s4 = Context { pc: ProgramCounter { pch: s3.ops.adh, ..s3.pc }, ..s3 }; let s5 = spec_poll(s4, r); s5 })
    }
}

/// The requests the cycle `jsr_c4` puts on the bus, oldest first.
pub open spec fn spec_jsr_c4_requests(cpu: Context, pinout: Pinout) -> Seq<Pinout> {
    if !pinout.ctrl.rdy {
        Seq::empty()
    } else {
        seq![spec_read_request(pinout, cpu.pc.spec_value())]
    }
}

pub fn jsr_c4<B: Bus>(cpu: &mut Context, bus: &mut B, pinout: Pinout) -> (r: Pinout)
    requires
        old(bus).ready(),
    ensures
        final(bus).ready(),
        final(bus).spec_clock() == old(bus).spec_clock(),
        *final(cpu) == spec_jsr_c4(*old(cpu), pinout, r),
        !pinout.ctrl.rdy ==> r == pinout && *final(cpu) == *old(cpu) && *final(bus) == *old(bus),
        pinout.ctrl.rdy ==> ({ let s0 = *old(cpu); let s1 = spec_after_read(s0, r.data); let s2 = Context { ops: OpState { adh: s1.ops.dl, ..s1.ops }, ..s1 }; let s3 = Context { pc: ProgramCounter { pcl: s2.ops.adl, ..s2.pc }, ..s2 }; let s4 = Context { pc: ProgramCounter { pch: s3.ops.adh, ..s3.pc }, ..s3 }; let s5 = spec_poll(s4, r); *final(cpu) == s5 }),
        final(bus).spec_requests() == old(bus).spec_requests() + spec_jsr_c4_requests(*old(cpu), pinout),
{
    let mut pinout = pinout;
    if pinout.ctrl.contains(Ctrl::RDY()) == false {
        return pinout;
    }
    let addr = cpu.pc.value();
    pinout = read_cycle(cpu, bus, pinout, addr);
    cpu.ops.adh = cpu.ops.dl;
    cpu.pc.pcl = cpu.ops.adl;
    cpu.pc.pch = cpu.ops.adh;
    poll_interrupts(cpu, pinout);
    if cpu.ir.tm > 0xF {
        return pinout;
    }
    pinout
}

/// The cpu state after the cycle `jsr_c5` runs, `r` being the pinout it
/// returns.
pub open spec fn spec_jsr_c5(cpu: Context, pinout: Pinout, r: Pinout) -> Context {
    if !pinout.ctrl.rdy {
        cpu
    } else {
        ({ let s0 = cpu; let s1 = spec_after_first_cycle(s0, r.data); s1 })
    }
}

/// The requests the cycle `jsr_c5` puts on the bus, oldest first.
pub open spec fn spec_jsr_c5_requests(cpu: Context, pinout: Pinout) -> Seq<Pinout> {
    if !pinout.ctrl.rdy {
        Seq::empty()
    } else {
        seq![spec_read_request(Pinout { ctrl: Ctrl { sync: true, ..pinout.ctrl }, ..pinout }, cpu.pc.spec_value())]
    }
}

pub fn jsr_c5<B: Bus>(cpu: &mut Context, bus: &mut B, pinout: Pinout) -> (r: Pinout)
    requires
        old(bus).ready(),
    ensures
        final(bus).ready(),
        final(bus).spec_clock() == old(bus).spec_clock(),
        *final(cpu) == spec_jsr_c5(*old(cpu), pinout, r),
        !pinout.ctrl.rdy ==> r == pinout && *final(cpu) == *old(cpu) && *final(bus) == *old(bus),
        pinout.ctrl.rdy ==> ({ let s0 = *old(cpu); let s1 = spec_after_first_cycle(s0, r.data); *final(cpu) == s1 }),
        final(bus).spec_requests() == old(bus).spec_requests() + spec_jsr_c5_requests(*old(cpu), pinout),
{
    let mut pinout = pinout;
    if pinout.ctrl.contains(Ctrl::RDY()) == false {
        return pinout;
    }
    pinout = first_cycle(cpu, bus, pinout);
    pinout
}

/// The cpu state after the cycle `rti_c0` runs, `r` being the pinout it
/// returns.
pub open spec fn spec_rti_c0(cpu: Context, pinout: Pinout, r: Pinout) -> Context {
    if !pinout.ctrl.rdy {
        cpu
    } else {
        ({ let s0 = cpu; let s1 = spec_after_read(s0, r.data); s1 })
    }
}

/// The requests the cycle `rti_c0` puts on the bus, oldest first.
pub open spec fn spec_rti_c0_requests(cpu: Context, pinout: Pinout) -> Seq<Pinout> {
    if !pinout.ctrl.rdy {
        Seq::empty()
    } else {
        seq![spec_read_request(Pinout { ctrl: Ctrl { sync: false, ..pinout.ctrl }, ..pinout }, cpu.pc.spec_value())]
    }
}

pub fn rti_c0<B: Bus>(cpu: &mut Context, bus: &mut B, pinout: Pinout) -> (r: Pinout)
    requires
        old(bus).ready(),
    ensures
        final(bus).ready(),
        final(bus).spec_clock() == old(bus).spec_clock(),
        *final(cpu) == spec_rti_c0(*old(cpu), pinout, r),
        !pinout.ctrl.rdy ==> r == pinout && *final(cpu) == *old(cpu) && *final(bus) == *old(bus),
        pinout.ctrl.rdy ==> ({ let s0 = *old(cpu); let s1 = spec_after_read(s0, r.data); *final(cpu) == s1 }),
        final(bus).spec_requests() == old(bus).spec_requests() + spec_rti_c0_requests(*old(cpu), pinout),
{
    let mut pinout = pinout;
    if pinout.ctrl.contains(Ctrl::RDY()) == false {
        return pinout;
    }
    pinout = second_cycle(cpu, bus, pinout);
    pinout
}

/// The cpu state after the cycle `rti_c1` runs, `r` being the pinout it
/// returns.
pub open spec fn spec_rti_c1(cpu: Context, pinout: Pinout, r: Pinout) -> Context {
    if !pinout.ctrl.rdy {
        cpu
    } else {
        ({ let s0 = cpu; let s1 = spec_after_read(s0, r.data); let s2 = Context { sp: s1.sp.wrapping_add(1), ..s1 }; s2 })
    }
}

/// The requests the cycle `rti_c1` puts on the bus, oldest first.
pub open spec fn spec_rti_c1_requests(cpu: Context, pinout: Pinout) -> Seq<Pinout> {
    if !pinout.ctrl.rdy {
        Seq::empty()
    } else {
        seq![spec_read_request(pinout, spec_address(0x1, cpu.sp))]
    }
}

pub fn rti_c1<B: Bus>(cpu: &mut Context, bus: &mut B, pinout: Pinout) -> (r: Pinout)
    requires
        old(bus).ready(),
    ensures
        final(bus).ready(),
        final(bus).spec_clock() == old(bus).spec_clock(),
        *final(cpu) == spec_rti_c1(*old(cpu), pinout, r),
        !pinout.ctrl.rdy ==> r == pinout && *final(cpu) == *old(cpu) && *final(bus) == *old(bus),
        pinout.ctrl.rdy ==> ({ let s0 = *old(cpu); let s1 = spec_after_read(s0, r.data); let s2 = Context { sp: s1.sp.wrapping_add(1), ..s1 }; *final(cpu) == s2 }),
        final(bus).spec_requests() == old(bus).spec_requests() + spec_rti_c1_requests(*old(cpu), pinout),
{
    let mut pinout = pinout;
    if pinout.ctrl.contains(Ctrl::RDY()) == false {
        return pinout;
    }
    let addr = to_address(0x1, cpu.sp);
    pinout = read_cycle(cpu, bus, pinout, addr);
    cpu.sp = cpu.sp.wrapping_add(1);
    pinout
}

/// The cpu state after the cycle `rti_c2` runs, `r` being the pinout it
/// returns.
pub open spec fn spec_rti_c2(cpu: Context, pinout: Pinout, r: Pinout) -> Context {
    if !pinout.ctrl.rdy {
        cpu
    } else {
        ({ let s0 = cpu; let s1 = spec_after_read(s0, r.data); let s2 = Context { p: StatusRegister::spec_from_bits(s1.ops.dl), ..s1 }; let s3 = Context { sp: s2.sp.wrapping_add(1), ..s2 }; s3 })
    }
}

/// The requests the cycle `rti_c2` puts on the bus, oldest first.
pub open spec fn spec_rti_c2_requests(cpu: Context, pinout: Pinout) -> Seq<Pinout> {
    if !pinout.ctrl.rdy {
        Seq::empty()
    } else {
        seq![spec_read_request(pinout, spec_address(0x1, cpu.sp))]
    }
}

pub fn rti_c2<B: Bus>(cpu: &mut Context, bus: &mut B, pinout: Pinout) -> (r: Pinout)
    requires
        old(bus).ready(),
    ensures
        final(bus).ready(),
        final(bus).spec_clock() == old(bus).spec_clock(),
        *final(cpu) == spec_rti_c2(*old(cpu), pinout, r),
        !pinout.ctrl.rdy ==> r == pinout && *final(cpu) == *old(cpu) && *final(bus) == *old(bus),
        pinout.ctrl.rdy ==> ({ let s0 = *old(cpu); let s1 = spec_after_read(s0, r.data); let s2 = Context { p: StatusRegister::spec_from_bits(s1.ops.dl), ..s1 }; let s3 = Context { sp: s2.sp.wrapping_add(1), ..s2 }; *final(cpu) == s3 }),
        final(bus).spec_requests() == old(bus).spec_requests() + spec_rti_c2_requests(*old(cpu), pinout),
{
    let mut pinout = pinout;
    if pinout.ctrl.contains(Ctrl::RDY()) == false {
        return pinout;
    }
    let addr = to_address(0x1, cpu.sp);
    pinout = read_cycle(cpu, bus, pinout, addr);
    cpu.p = StatusRegister::from_bits_truncate(cpu.ops.dl);
    cpu.sp = cpu.sp.wrapping_add(1);
    pinout
}

/// The cpu state after the cycle `rti_c3` runs, `r` being the pinout it
/// returns.
pub open spec fn spec_rti_c3(cpu: Context, pinout: Pinout, r: Pinout) -> Context {
    if !pinout.ctrl.rdy {
        cpu
    } else {
        ({ let s0 = cpu; let s1 = spec_after_read(s0, r.data); let s2 = Context { pc: ProgramCounter { pcl: s1.ops.dl, ..s1.pc }, ..s1 }; let s3 = Context { sp: s2.sp.wrapping_add(1), ..s2 }; s3 })
    }
}

/// The requests the cycle `rti_c3` puts on the bus, oldest first.
pub open spec fn spec_rti_c3_requests(cpu: Context, pinout: Pinout) -> Seq<Pinout> {
    if !pinout.ctrl.rdy {
        Seq::empty()
    } else {
        seq![spec_read_request(pinout, spec_address(0x1, cpu.sp))]
    }
}

pub fn rti_c3<B: Bus>(cpu: &mut Context, bus: &mut B, pinout: Pinout) -> (r: Pinout)
    requires
        old(bus).ready(),
    ensures
        final(bus).ready(),
        final(bus).spec_clock() == old(bus).spec_clock(),
        *final(cpu) == spec_rti_c3(*old(cpu), pinout, r),
        !pinout.ctrl.rdy ==> r == pinout && *final(cpu) == *old(cpu) && *final(bus) == *old(bus),
        pinout.ctrl.rdy ==> ({ let s0 = *old(cpu); let s1 = spec_after_read(s0, r.data); let s2 = Context { pc: ProgramCounter { pcl: s1.ops.dl, ..s1.pc }, ..s1 }; let s3 = Context { sp: s2.sp.wrapping_add(1), ..s2 }; *final(cpu) == s3 }),
        final(bus).spec_requests() == old(bus).spec_requests() + spec_rti_c3_requests(*old(cpu), pinout),
{
    let mut pinout = pinout;
    if pinout.ctrl.contains(Ctrl::RDY()) == false {
        return pinout;
    }
    let addr = to_address(0x1, cpu.sp);
    pinout = read_cycle(cpu, bus, pinout, addr);
    cpu.pc.pcl = cpu.ops.dl;
    cpu.sp = cpu.sp.wrapping_add(1);
    pinout
}

/// The cpu state after the cycle `rti_c4` runs, `r` being the pinout it
/// returns.
pub open spec fn spec_rti_c4(cpu: Context, pinout: Pinout, r: Pinout) -> Context {
    if !pinout.ctrl.rdy {
        cpu
    } else {
        ({ let s0 = cpu; let s1 = spec_after_read(s0, r.data); let s2 = Context { pc: ProgramCounter { pch: s1.ops.dl, ..s1.pc }, ..s1 }; let s3 = spec_poll(s2, r); s3 })
    }
}

/// The requests the cycle `rti_c4` puts on the bus, oldest first.
pub open spec fn spec_rti_c4_requests(cpu: Context, pinout: Pinout) -> Seq<Pinout> {
    if !pinout.ctrl.rdy {
        Seq::empty()
    } else {
        seq![spec_read_request(pinout, spec_address(0x1, cpu.sp))]
    }
}

pub fn rti_c4<B: Bus>(cpu: &mut Context, bus: &mut B, pinout: Pinout) -> (r: Pinout)
    requires
        old(bus).ready(),
    ensures
        final(bus).ready(),
        final(bus).spec_clock() == old(bus).spec_clock(),
        *final(cpu) == spec_rti_c4(*old(cpu), pinout, r),
        !pinout.ctrl.rdy ==> r == pinout && *final(cpu) == *old(cpu) && *final(bus) == *old(bus),
        pinout.ctrl.rdy ==> ({ let s0 = *old(cpu); let s1 = spec_after_read(s0, r.data); let s2 = Context { pc: ProgramCounter { pch: s1.ops.dl, ..s1.pc }, ..s1 }; let s3 = spec_poll(s2, r); *final(cpu) == s3 }),
        final(bus).spec_requests() == old(bus).spec_requests() + spec_rti_c4_requests(*old(cpu), pinout),
{
    let mut pinout = pinout;
    if pinout.ctrl.contains(Ctrl::RDY()) == false {
        return pinout;
    }
    let addr = to_address(0x1, cpu.sp);
    pinout = read_cycle(cpu, bus, pinout, addr);
    cpu.pc.pch = cpu.ops.dl;
    poll_interrupts(cpu, pinout);
    if cpu.ir.tm > 0xF {
        return pinout;
    }
    pinout
}

/// The cpu state after the cycle `rti_c5` runs, `r` being the pinout it
/// returns.
pub open spec fn spec_rti_c5(cpu: Context, pinout: Pinout, r: Pinout) -> Context {
    if !pinout.ctrl.rdy {
        cpu
    } else {
        ({ let s0 = cpu; let s1 = spec_after_first_cycle(s0, r.data); s1 })
    }
}

/// The requests the cycle `rti_c5` puts on the bus, oldest first.
pub open spec fn spec_rti_c5_requests(cpu: Context, pinout: Pinout) -> Seq<Pinout> {
    if !pinout.ctrl.rdy {
        Seq::empty()
    } else {
        seq![spec_read_request(Pinout { ctrl: Ctrl { sync: true, ..pinout.ctrl }, ..pinout }, cpu.pc.spec_value())]
    }
}

pub fn rti_c5<B: Bus>(cpu: &mut Context, bus: &mut B, pinout: Pinout) -> (r: Pinout)
    requires
        old(bus).ready(),
    ensures
        final(bus).ready(),
        final(bus).spec_clock() == old(bus).spec_clock(),
        *final(cpu) == spec_rti_c5(*old(cpu), pinout, r),
        !pinout.ctrl.rdy ==> r == pinout && *final(cpu) == *old(cpu) && *final(bus) == *old(bus),
        pinout.ctrl.rdy ==> ({ let s0 = *old(cpu); let s1 = spec_after_first_cycle(s0, r.data); *final(cpu) == s1 }),
        final(bus).spec_requests() == old(bus).spec_requests() + spec_rti_c5_requests(*old(cpu), pinout),
{
    let mut pinout = pinout;
    if pinout.ctrl.contains(Ctrl::RDY()) == false {
        return pinout;
    }
    pinout = first_cycle(cpu, bus, pinout);
    pinout
}

/// The cpu state after the cycle `jmp_absolute_c0` runs, `r` being the pinout it
/// returns.
pub open spec fn spec_jmp_absolute_c0(cpu: Context, pinout: Pinout, r: Pinout) -> Context {
    if !pinout.ctrl.rdy {
        cpu
    } else {
        ({ let s0 = cpu; let s1 = spec_after_read(s0, r.data); let s2 = Context { ops: OpState { adl: s1.ops.dl, ..s1.ops }, ..s1 }; let s3 = Context { pc: s2.pc.spec_incremented(), ..s2 }; s3 })
    }
}

/// The requests the cycle `jmp_absolute_c0` puts on the bus, oldest first.
pub open spec fn spec_jmp_absolute_c0_requests(cpu: Context, pinout: Pinout) -> Seq<Pinout> {
    if !pinout.ctrl.rdy {
        Seq::empty()
    } else {
        seq![spec_read_request(Pinout { ctrl: Ctrl { sync: false, ..pinout.ctrl }, ..pinout }, cpu.pc.spec_value())]
    }
}

pub fn jmp_absolute_c0<B: Bus>(cpu: &mut Context, bus: &mut B, pinout: Pinout) -> (r: Pinout)
    requires
        old(bus).ready(),
    ensures
        final(bus).ready(),
        final(bus).spec_clock() == old(bus).spec_clock(),
        *final(cpu) == spec_jmp_absolute_c0(*old(cpu), pinout, r),
        !pinout.ctrl.rdy ==> r == pinout && *final(cpu) == *old(cpu) && *final(bus) == *old(bus),
        pinout.ctrl.rdy ==> ({ let s0 = *old(cpu); let s1 = spec_after_read(s0, r.data); let s2 = Context { ops: OpState { adl: s1.ops.dl, ..s1.ops }, ..s1 }; let s3 = Context { pc: s2.pc.spec_incremented(), ..s2 }; *final(cpu) == s3 }),
        final(bus).spec_requests() == old(bus).spec_requests() + spec_jmp_absolute_c0_requests(*old(cpu), pinout),
{
    let mut pinout = pinout;
    if pinout.ctrl.contains(Ctrl::RDY()) == false {
        return pinout;
    }
    pinout = second_cycle(cpu, bus, pinout);
    cpu.ops.adl = cpu.ops.dl;
    cpu.pc.increment();
    pinout
}

/// The cpu state after the cycle `jmp_absolute_c1` runs, `r` being the pinout it
/// returns.
pub open spec fn spec_jmp_absolute_c1(cpu: Context, pinout: Pinout, r: Pinout) -> Context {
    if !pinout.ctrl.rdy {
        cpu
    } else {
        ({ let s0 = cpu; let s1 = spec_after_read(s0, r.data); let s2 = Context { ops: OpState { adh: s1.ops.dl, ..s1.ops }, ..s1 }; let s3 = Context { pc: ProgramCounter { pcl: s2.ops.adl, ..s2.pc }, ..s2 }; let s4 = Context { pc: ProgramCounter { pch: s3.ops.adh, ..s3.pc }, ..s3 }; let s5 = spec_poll(s4, r); s5 })
    }
}

/// The requests the cycle `jmp_absolute_c1` puts on the bus, oldest first.
pub open spec fn spec_jmp_absolute_c1_requests(cpu: Context, pinout: Pinout) -> Seq<Pinout> {
    if !pinout.ctrl.rdy {
        Seq::empty()
    } else {
        seq![spec_read_request(pinout, cpu.pc.spec_value())]
    }
}

pub fn jmp_absolute_c1<B: Bus>(cpu: &mut Context, bus: &mut B, pinout: Pinout) -> (r: Pinout)
    requires
        old(bus).ready(),
    ensures
        final(bus).ready(),
        final(bus).spec_clock() == old(bus).spec_clock(),
        *final(cpu) == spec_jmp_absolute_c1(*old(cpu), pinout, r),
        !pinout.ctrl.rdy ==> r == pinout && *final(cpu) == *old(cpu) && *final(bus) == *old(bus),
        pinout.ctrl.rdy ==> ({ let s0 = *old(cpu); let s1 = spec_after_read(s0, r.data); let s2 = Context { ops: OpState { adh: s1.ops.dl, ..s1.ops }, ..s1 }; let s3 = Context { pc: ProgramCounter { pcl: s2.ops.adl, ..s2.pc }, ..s2 }; let s4 = Context { pc: ProgramCounter { pch: s3.ops.adh, ..s3.pc }, ..s3 }; let s5 = spec_poll(s4, r); *final(cpu) == s5 }),
        final(bus).spec_requests() == old(bus).spec_requests() + spec_jmp_absolute_c1_requests(*old(cpu), pinout),
{
    let mut pinout = pinout;
    if pinout.ctrl.contains(Ctrl::RDY()) == false {
        return pinout;
    }
    let addr =  cpu.pc.value();
    pinout = read_cycle(cpu, bus, pinout, addr);
    cpu.ops.adh = cpu.ops.dl;
    cpu.pc.pcl = cpu.ops.adl;
    cpu.pc.pch = cpu.ops.adh;
    poll_interrupts(cpu, pinout);
    if cpu.ir.tm > 0xF {
        return pinout;
    }
    pinout
}

/// The cpu state after the cycle `jmp_absolute_c2` runs, `r` being the pinout it
/// returns.
pub open spec fn spec_jmp_absolute_c2(cpu: Context, pinout: Pinout, r: Pinout) -> Context {
    if !pinout.ctrl.rdy {
        cpu
    } else {
        ({ let s0 = cpu; let s1 = spec_after_first_cycle(s0, r.data); s1 })
    }
}

/// The requests the cycle `jmp_absolute_c2` puts on the bus, oldest first.
pub open spec fn spec_jmp_absolute_c2_requests(cpu: Context, pinout: Pinout) -> Seq<Pinout> {
    if !pinout.ctrl.rdy {
        Seq::empty()
    } else {
        seq![spec_read_request(Pinout { ctrl: Ctrl { sync: true, ..pinout.ctrl }, ..pinout }, cpu.pc.spec_value())]
    }
}

pub fn jmp_absolute_c2<B: Bus>(cpu: &mut Context, bus: &mut B, pinout: Pinout) -> (r: Pinout)
    requires
        old(bus).ready(),
    ensures
        final(bus).ready(),
        final(bus).spec_clock() == old(bus).spec_clock(),
        *final(cpu) == spec_jmp_absolute_c2(*old(cpu), pinout, r),
        !pinout.ctrl.rdy ==> r == pinout && *final(cpu) == *old(cpu) && *final(bus) == *old(bus),
        pinout.ctrl.rdy ==> ({ let s0 = *old(cpu); let s1 = spec_after_first_cycle(s0, r.data); *final(cpu) == s1 }),
        final(bus).spec_requests() == old(bus).spec_requests() + spec_jmp_absolute_c2_requests(*old(cpu), pinout),
{
    let mut pinout = pinout;
    if pinout.ctrl.contains(Ctrl::RDY()) == false {
        return pinout;
    }
    pinout = first_cycle(cpu, bus, pinout);
    pinout
}

/// The cpu state after the cycle `jmp_indirect_c0` runs, `r` being the pinout it
/// returns.
pub open spec fn spec_jmp_indirect_c0(cpu: Context, pinout: Pinout, r: Pinout) -> Context {
    if !pinout.ctrl.rdy {
        cpu
    } else {
        ({ let s0 = cpu; let s1 = spec_after_read(s0, r.data); let s2 = Context { ops: OpState { ial: s1.ops.dl, ..s1.ops }, ..s1 }; let s3 = Context { pc: s2.pc.spec_incremented(), ..s2 }; s3 })
    }
}

/// The requests the cycle `jmp_indirect_c0` puts on the bus, oldest first.
pub open spec fn spec_jmp_indirect_c0_requests(cpu: Context, pinout: Pinout) -> Seq<Pinout> {
    if !pinout.ctrl.rdy {
        Seq::empty()
    } else {
        seq![spec_read_request(Pinout { ctrl: Ctrl { sync: false, ..pinout.ctrl }, ..pinout }, cpu.pc.spec_value())]
    }
}

pub fn jmp_indirect_c0<B: Bus>(cpu: &mut Context, bus: &mut B, pinout: Pinout) -> (r: Pinout)
    requires
        old(bus).ready(),
    ensures
        final(bus).ready(),
        final(bus).spec_clock() == old(bus).spec_clock(),
        *final(cpu) == spec_jmp_indirect_c0(*old(cpu), pinout, r),
        !pinout.ctrl.rdy ==> r == pinout && *final(cpu) == *old(cpu) && *final(bus) == *old(bus),
        pinout.ctrl.rdy ==> ({ let s0 = *old(cpu); let s1 = spec_after_read(s0, r.data); let s2 = Context { ops: OpState { ial: s1.ops.dl, ..s1.ops }, ..s1 }; let s3 = Context { pc: s2.pc.spec_incremented(), ..s2 }; *final(cpu) == s3 }),
        final(bus).spec_requests() == old(bus).spec_requests() + spec_jmp_indirect_c0_requests(*old(cpu), pinout),
{
    let mut pinout = pinout;
    if pinout.ctrl.contains(Ctrl::RDY()) == false {
        return pinout;
    }
    pinout = second_cycle(cpu, bus, pinout);
    cpu.ops.ial = cpu.ops.dl;
    cpu.pc.increment();
    pinout
}

/// The cpu state after the cycle `jmp_indirect_c1` runs, `r` being the pinout it
/// returns.
pub open spec fn spec_jmp_indirect_c1(cpu: Context, pinout: Pinout, r: Pinout) -> Context {
    if !pinout.ctrl.rdy {
        cpu
    } else {
        ({ let s0 = cpu; let s1 = spec_after_read(s0, r.data); let s2 = Context { ops: OpState { iah: s1.ops.dl, ..s1.ops }, ..s1 }; s2 })
    }
}

/// The requests the cycle `jmp_indirect_c1` puts on the bus, oldest first.
pub open spec fn spec_jmp_indirect_c1_requests(cpu: Context, pinout: Pinout) -> Seq<Pinout> {
    if !pinout.ctrl.rdy {
        Seq::empty()
    } else {
        seq![spec_read_request(pinout, cpu.pc.spec_value())]
    }
}

pub fn jmp_indirect_c1<B: Bus>(cpu: &mut Context, bus: &mut B, pinout: Pinout) -> (r: Pinout)
    requires
        old(bus).ready(),
    ensures
        final(bus).ready(),
        final(bus).spec_clock() == old(bus).spec_clock(),
        *final(cpu) == spec_jmp_indirect_c1(*old(cpu), pinout, r),
        !pinout.ctrl.rdy ==> r == pinout && *final(cpu) == *old(cpu) && *final(bus) == *old(bus),
        pinout.ctrl.rdy ==> ({ let s0 = *old(cpu); let s1 = spec_after_read(s0, r.data); let s2 = Context { ops: OpState { iah: s1.ops.dl, ..s1.ops }, ..s1 }; *final(cpu) == s2 }),
        final(bus).spec_requests() == old(bus).spec_requests() + spec_jmp_indirect_c1_requests(*old(cpu), pinout),
{
    let mut pinout = pinout;
    if pinout.ctrl.contains(Ctrl::RDY()) == false {
        return pinout;
    }
    let addr = cpu.pc.value();
    pinout = read_cycle(cpu, bus, pinout, addr);
    cpu.ops.iah = cpu.ops.dl;
    pinout
}

/// The cpu state after the cycle `jmp_indirect_c2` runs, `r` being the pinout it
/// returns.
pub open spec fn spec_jmp_indirect_c2(cpu: Context, pinout: Pinout, r: Pinout) -> Context {
    if !pinout.ctrl.rdy {
        cpu
    } else {
        ({ let s0 = cpu; let s1 = spec_after_read(s0, r.data); let s2 = Context { ops: OpState { adl: s1.ops.dl, ..s1.ops }, ..s1 }; s2 })
    }
}

/// The requests the cycle `jmp_indirect_c2` puts on the bus, oldest first.
pub open spec fn spec_jmp_indirect_c2_requests(cpu: Context, pinout: Pinout) -> Seq<Pinout> {
    if !pinout.ctrl.rdy {
        Seq::empty()
    } else {
        seq![spec_read_request(pinout, spec_address(cpu.ops.iah, cpu.ops.ial))]
    }
}

pub fn jmp_indirect_c2<B: Bus>(cpu: &mut Context, bus: &mut B, pinout: Pinout) -> (r: Pinout)
    requires
        old(bus).ready(),
    ensures
        final(bus).ready(),
        final(bus).spec_clock() == old(bus).spec_clock(),
        *final(cpu) == spec_jmp_indirect_c2(*old(cpu), pinout, r),
        !pinout.ctrl.rdy ==> r == pinout && *final(cpu) == *old(cpu) && *final(bus) == *old(bus),
        pinout.ctrl.rdy ==> ({ let s0 = *old(cpu); let s1 = spec_after_read(s0, r.data); let s2 = Context { ops: OpState { adl: s1.ops.dl, ..s1.ops }, ..s1 }; *final(cpu) == s2 }),
        final(bus).spec_requests() == old(bus).spec_requests() + spec_jmp_indirect_c2_requests(*old(cpu), pinout),
{
    let mut pinout = pinout;
    if pinout.ctrl.contains(Ctrl::RDY()) == false {
        return pinout;
    }
    let addr = to_address(cpu.ops.iah, cpu.ops.ial);
    pinout = read_cycle(cpu, bus, pinout, addr);
    cpu.ops.adl = cpu.ops.dl;
    pinout
}

/// The cpu state after the cycle `jmp_indirect_c3` runs, `r` being the pinout it
/// returns.
pub open spec fn spec_jmp_indirect_c3(cpu: Context, pinout: Pinout, r: Pinout) -> Context {
    if !pinout.ctrl.rdy {
        cpu
    } else {
        ({ let s0 = cpu; let s1 = spec_after_read(s0, r.data); let s2 = Context { ops: OpState { adh: s1.ops.dl, ..s1.ops }, ..s1 }; let s3 = Context { pc: ProgramCounter { pcl: s2.ops.adl, ..s2.pc }, ..s2 }; let s4 = Context { pc: ProgramCounter { pch: s3.ops.adh, ..s3.pc }, ..s3 }; let s5 = spec_poll(s4, r); s5 })
    }
}

/// The requests the cycle `jmp_indirect_c3` puts on the bus, oldest first.
pub open spec fn spec_jmp_indirect_c3_requests(cpu: Context, pinout: Pinout) -> Seq<Pinout> {
    if !pinout.ctrl.rdy {
        Seq::empty()
    } else {
        seq![spec_read_request(pinout, spec_address(cpu.ops.iah, cpu.ops.ial.wrapping_add(1)))]
    }
}

pub fn jmp_indirect_c3<B: Bus>(cpu: &mut Context, bus: &mut B, pinout: Pinout) -> (r: Pinout)
    requires
        old(bus).ready(),
    ensures
        final(bus).ready(),
        final(bus).spec_clock() == old(bus).spec_clock(),
        *final(cpu) == spec_jmp_indirect_c3(*old(cpu), pinout, r),
        !pinout.ctrl.rdy ==> r == pinout && *final(cpu) == *old(cpu) && *final(bus) == *old(bus),
        pinout.ctrl.rdy ==> ({ let s0 = *old(cpu); let s1 = spec_after_read(s0, r.data); let s2 = Context { ops: OpState { adh: s1.ops.dl, ..s1.ops }, ..s1 }; let s3 = Context { pc: ProgramCounter { pcl: s2.ops.adl, ..s2.pc }, ..s2 }; let s4 = Context { pc: ProgramCounter { pch: s3.ops.adh, ..s3.pc }, ..s3 }; let s5 = spec_poll(s4, r); *final(cpu) == s5 }),
        final(bus).spec_requests() == old(bus).spec_requests() + spec_jmp_indirect_c3_requests(*old(cpu), pinout),
{
    let mut pinout = pinout;
    if pinout.ctrl.contains(Ctrl::RDY()) == false {
        return pinout;
    }
    let addr = to_address(cpu.ops.iah, cpu.ops.ial.wrapping_add(1));
    pinout = read_cycle(cpu, bus, pinout, addr);
    cpu.ops.adh = cpu.ops.dl;
    cpu.pc.pcl = cpu.ops.adl;
    cpu.pc.pch = cpu.ops.adh;
    poll_interrupts(cpu, pinout);
    if cpu.ir.tm > 0xF {
        return pinout;
    }
    pinout
}

/// The cpu state after the cycle `jmp_indirect_c4` runs, `r` being the pinout it
/// returns.
pub open spec fn spec_jmp_indirect_c4(cpu: Context, pinout: Pinout, r: Pinout) -> Context {
    if !pinout.ctrl.rdy {
        cpu
    } else {
        ({ let s0 = cpu; let s1 = spec_after_first_cycle(s0, r.data); s1 })
    }
}

/// The requests the cycle `jmp_indirect_c4` puts on the bus, oldest first.
pub open spec fn spec_jmp_indirect_c4_requests(cpu: Context, pinout: Pinout) -> Seq<Pinout> {
    if !pinout.ctrl.rdy {
        Seq::empty()
    } else {
        seq![spec_read_request(Pinout { ctrl: Ctrl { sync: true, ..pinout.ctrl }, ..pinout }, cpu.pc.spec_value())]
    }
}

pub fn jmp_indirect_c4<B: Bus>(cpu: &mut Context, bus: &mut B, pinout: Pinout) -> (r: Pinout)
    requires
        old(bus).ready(),
    ensures
        final(bus).ready(),
        final(bus).spec_clock() == old(bus).spec_clock(),
        *final(cpu) == spec_jmp_indirect_c4(*old(cpu), pinout, r),
        !pinout.ctrl.rdy ==> r == pinout && *final(cpu) == *old(cpu) && *final(bus) == *old(bus),
        pinout.ctrl.rdy ==> ({ let s0 = *old(cpu); let s1 = spec_after_first_cycle(s0, r.data); *final(cpu) == s1 }),
        final(bus).spec_requests() == old(bus).spec_requests() + spec_jmp_indirect_c4_requests(*old(cpu), pinout),
{
    let mut pinout = pinout;
    if pinout.ctrl.contains(Ctrl::RDY()) == false {
        return pinout;
    }
    pinout = first_cycle(cpu, bus, pinout);
    pinout
}

/// The cpu state after the cycle `rts_c0` runs, `r` being the pinout it
/// returns.
pub open spec fn spec_rts_c0(cpu: Context, pinout: Pinout, r: Pinout) -> Context {
    if !pinout.ctrl.rdy {
        cpu
    } else {
        ({ let s0 = cpu; let s1 = spec_after_read(s0, r.data); s1 })
    }
}

/// The requests the cycle `rts_c0` puts on the bus, oldest first.
pub open spec fn spec_rts_c0_requests(cpu: Context, pinout: Pinout) -> Seq<Pinout> {
    if !pinout.ctrl.rdy {
        Seq::empty()
    } else {
        seq![spec_read_request(Pinout { ctrl: Ctrl { sync: false, ..pinout.ctrl }, ..pinout }, cpu.pc.spec_value())]
    }
}

pub fn rts_c0<B: Bus>(cpu: &mut Context, bus: &mut B, pinout: Pinout) -> (r: Pinout)
    requires
        old(bus).ready(),
    ensures
        final(bus).ready(),
        final(bus).spec_clock() == old(bus).spec_clock(),
        *final(cpu) == spec_rts_c0(*old(cpu), pinout, r),
        !pinout.ctrl.rdy ==> r == pinout && *final(cpu) == *old(cpu) && *final(bus) == *old(bus),
        pinout.ctrl.rdy ==> ({ let s0 = *old(cpu); let s1 = spec_after_read(s0, r.data); *final(cpu) == s1 }),
        final(bus).spec_requests() == old(bus).spec_requests() + spec_rts_c0_requests(*old(cpu), pinout),
{
    let mut pinout = pinout;
    if pinout.ctrl.contains(Ctrl::RDY()) == false {
        return pinout;
    }
    pinout = second_cycle(cpu, bus, pinout);
    pinout
}

/// The cpu state after the cycle `rts_c1` runs, `r` being the pinout it
/// returns.
pub open spec fn spec_rts_c1(cpu: Context, pinout: Pinout, r: Pinout) -> Context {
    if !pinout.ctrl.rdy {
        cpu
    } else {
        ({ let s0 = cpu; let s1 = spec_after_read(s0, r.data); let s2 = Context { sp: s1.sp.wrapping_add(1), ..s1 }; s2 })
    }
}

/// The requests the cycle `rts_c1` puts on the bus, oldest first.
pub open spec fn spec_rts_c1_requests(cpu: Context, pinout: Pinout) -> Seq<Pinout> {
    if !pinout.ctrl.rdy {
        Seq::empty()
    } else {
        seq![spec_read_request(pinout, spec_address(0x1, cpu.sp))]
    }
}

pub fn rts_c1<B: Bus>(cpu: &mut Context, bus: &mut B, pinout: Pinout) -> (r: Pinout)
    requires
        old(bus).ready(),
    ensures
        final(bus).ready(),
        final(bus).spec_clock() == old(bus).spec_clock(),
        *final(cpu) == spec_rts_c1(*old(cpu), pinout, r),
        !pinout.ctrl.rdy ==> r == pinout && *final(cpu) == *old(cpu) && *final(bus) == *old(bus),
        pinout.ctrl.rdy ==> ({ let s0 = *old(cpu); let s1 = spec_after_read(s0, r.data); let s2 = Context { sp: s1.sp.wrapping_add(1), ..s1 }; *final(cpu) == s2 }),
        final(bus).spec_requests() == old(bus).spec_requests() + spec_rts_c1_requests(*old(cpu), pinout),
{
    let mut pinout = pinout;
    if pinout.ctrl.contains(Ctrl::RDY()) == false {
        return pinout;
    }
    let addr = to_address(0x1, cpu.sp);
    pinout = read_cycle(cpu, bus, pinout, addr);
    cpu.sp = cpu.sp.wrapping_add(1);
    pinout
}

/// The cpu state after the cycle `rts_c2` runs, `r` being the pinout it
/// returns.
pub open spec fn spec_rts_c2(cpu: Context, pinout: Pinout, r: Pinout) -> Context {
    if !pinout.ctrl.rdy {
        cpu
    } else {
        ({ let s0 = cpu; let s1 = spec_after_read(s0, r.data); let s2 = Context { pc: ProgramCounter { pcl: s1.ops.dl, ..s1.pc }, ..s1 }; let s3 = Context { sp: s2.sp.wrapping_add(1), ..s2 }; s3 })
    }
}

/// The requests the cycle `rts_c2` puts on the bus, oldest first.
pub open spec fn spec_rts_c2_requests(cpu: Context, pinout: Pinout) -> Seq<Pinout> {
    if !pinout.ctrl.rdy {
        Seq::empty()
    } else {
        seq![spec_read_request(pinout, spec_address(0x1, cpu.sp))]
    }
}

pub fn rts_c2<B: Bus>(cpu: &mut Context, bus: &mut B, pinout: Pinout) -> (r: Pinout)
    requires
        old(bus).ready(),
    ensures
        final(bus).ready(),
        final(bus).spec_clock() == old(bus).spec_clock(),
        *final(cpu) == spec_rts_c2(*old(cpu), pinout, r),
        !pinout.ctrl.rdy ==> r == pinout && *final(cpu) == *old(cpu) && *final(bus) == *old(bus),
        pinout.ctrl.rdy ==> ({ let s0 = *old(cpu); let s1 = spec_after_read(s0, r.data); let s2 = Context { pc: ProgramCounter { pcl: s1.ops.dl, ..s1.pc }, ..s1 }; let s3 = Context { sp: s2.sp.wrapping_add(1), ..s2 }; *final(cpu) == s3 }),
        final(bus).spec_requests() == old(bus).spec_requests() + spec_rts_c2_requests(*old(cpu), pinout),
{
    let mut pinout = pinout;
    if pinout.ctrl.contains(Ctrl::RDY()) == false {
        return pinout;
    }
    let addr = to_address(0x1, cpu.sp);
    pinout = read_cycle(cpu, bus, pinout, addr);
    cpu.pc.pcl = cpu.ops.dl;
    cpu.sp = cpu.sp.wrapping_add(1);
    pinout
}

/// The cpu state after the cycle `rts_c3` runs, `r` being the pinout it
/// returns.
pub open spec fn spec_rts_c3(cpu: Context, pinout: Pinout, r: Pinout) -> Context {
    if !pinout.ctrl.rdy {
        cpu
    } else {
        ({ let s0 = cpu; let s1 = spec_after_read(s0, r.data); let s2 = Context { pc: ProgramCounter { pch: s1.ops.dl, ..s1.pc }, ..s1 }; s2 })
    }
}

/// The requests the cycle `rts_c3` puts on the bus, oldest first.
pub open spec fn spec_rts_c3_requests(cpu: Context, pinout: Pinout) -> Seq<Pinout> {
    if !pinout.ctrl.rdy {
        Seq::empty()
    } else {
        seq![spec_read_request(pinout, spec_address(0x1, cpu.sp))]
    }
}

pub fn rts_c3<B: Bus>(cpu: &mut Context, bus: &mut B, pinout: Pinout) -> (r: Pinout)
    requires
        old(bus).ready(),
    ensures
        final(bus).ready(),
        final(bus).spec_clock() == old(bus).spec_clock(),
        *final(cpu) == spec_rts_c3(*old(cpu), pinout, r),
        !pinout.ctrl.rdy ==> r == pinout && *final(cpu) == *old(cpu) && *final(bus) == *old(bus),
        pinout.ctrl.rdy ==> ({ let s0 = *old(cpu); let s1 = spec_after_read(s0, r.data); let s2 = Context { pc: ProgramCounter { pch: s1.ops.dl, ..s1.pc }, ..s1 }; *final(cpu) == s2 }),
        final(bus).spec_requests() == old(bus).spec_requests() + spec_rts_c3_requests(*old(cpu), pinout),
{
    let mut pinout = pinout;
    if pinout.ctrl.contains(Ctrl::RDY()) == false {
        return pinout;
    }
    let addr = to_address(0x1, cpu.sp);
    pinout = read_cycle(cpu, bus, pinout, addr);
    cpu.pc.pch = cpu.ops.dl;
    pinout
}

/// The cpu state after the cycle `rts_c4` runs, `r` being the pinout it
/// returns.
pub open spec fn spec_rts_c4(cpu: Context, pinout: Pinout, r: Pinout) -> Context {
    if !pinout.ctrl.rdy {
        cpu
    } else {
        ({ let s0 = cpu; let s1 = spec_after_read(s0, r.data); let s2 = Context { pc: s1.pc.spec_incremented(), ..s1 }; let s3 = spec_poll(s2, r); s3 })
    }
}

/// The requests the cycle `rts_c4` puts on the bus, oldest first.
pub open spec fn spec_rts_c4_requests(cpu: Context, pinout: Pinout) -> Seq<Pinout> {
    if !pinout.ctrl.rdy {
        Seq::empty()
    } else {
        seq![spec_read_request(pinout, cpu.pc.spec_value())]
    }
}

pub fn rts_c4<B: Bus>(cpu: &mut Context, bus: &mut B, pinout: Pinout) -> (r: Pinout)
    requires
        old(bus).ready(),
    ensures
        final(bus).ready(),
        final(bus).spec_clock() == old(bus).spec_clock(),
        *final(cpu) == spec_rts_c4(*old(cpu), pinout, r),
        !pinout.ctrl.rdy ==> r == pinout && *final(cpu) == *old(cpu) && *final(bus) == *old(bus),
        pinout.ctrl.rdy ==> ({ let s0 = *old(cpu); let s1 = spec_after_read(s0, r.data); let s2 = Context { pc: s1.pc.spec_incremented(), ..s1 }; let s3 = spec_poll(s2, r); *final(cpu) == s3 }),
        final(bus).spec_requests() == old(bus).spec_requests() + spec_rts_c4_requests(*old(cpu), pinout),
{
    let mut pinout = pinout;
    if pinout.ctrl.contains(Ctrl::RDY()) == false {
        return pinout;
    }
    let addr = cpu.pc.value();
    pinout = read_cycle(cpu, bus, pinout, addr);
    cpu.pc.increment();
    poll_interrupts(cpu, pinout);
    if cpu.ir.tm > 0xF {
        return pinout;
    }
    pinout
}

/// The cpu state after the cycle `rts_c5` runs, `r` being the pinout it
/// returns.
pub open spec fn spec_rts_c5(cpu: Context, pinout: Pinout, r: Pinout) -> Context {
    if !pinout.ctrl.rdy {
        cpu
    } else {
        ({ let s0 = cpu; let s1 = spec_after_first_cycle(s0, r.data); s1 })
    }
}

/// The requests the cycle `rts_c5` puts on the bus, oldest first.
pub open spec fn spec_rts_c5_requests(cpu: Context, pinout: Pinout) -> Seq<Pinout> {
    if !pinout.ctrl.rdy {
        Seq::empty()
    } else {
        seq![spec_read_request(Pinout { ctrl: Ctrl { sync: true, ..pinout.ctrl }, ..pinout }, cpu.pc.spec_value())]
    }
}

pub fn rts_c5<B: Bus>(cpu: &mut Context, bus: &mut B, pinout: Pinout) -> (r: Pinout)
    requires
        old(bus).ready(),
    ensures
        final(bus).ready(),
        final(bus).spec_clock() == old(bus).spec_clock(),
        *final(cpu) == spec_rts_c5(*old(cpu), pinout, r),
        !pinout.ctrl.rdy ==> r == pinout && *final(cpu) == *old(cpu) && *final(bus) == *old(bus),
        pinout.ctrl.rdy ==> ({ let s0 = *old(cpu); let s1 = spec_after_first_cycle(s0, r.data); *final(cpu) == s1 }),
        final(bus).spec_requests() == old(bus).spec_requests() + spec_rts_c5_requests(*old(cpu), pinout),
{
    let mut pinout = pinout;
    if pinout.ctrl.contains(Ctrl::RDY()) == false {
        return pinout;
    }
    pinout = first_cycle(cpu, bus, pinout);
    pinout
}

/// The cpu state after the cycle `branch_c0` runs, `r` being the pinout it
/// returns.
pub open spec fn spec_branch_c0(cpu: Context, pinout: Pinout, r: Pinout) -> Context {
    if !pinout.ctrl.rdy {
        cpu
    } else {
        ({ let s0 = cpu; let s1 = spec_after_read(s0, r.data); let s2 = Context { ops: OpState { offset: s1.ops.dl, ..s1.ops }, ..s1 }; let s3 = Context { pc: s2.pc.spec_incremented(), ..s2 }; let s4 = spec_poll(s3, r); s4 })
    }
}

/// The requests the cycle `branch_c0` puts on the bus, oldest first.
pub open spec fn spec_branch_c0_requests(cpu: Context, pinout: Pinout) -> Seq<Pinout> {
    if !pinout.ctrl.rdy {
        Seq::empty()
    } else {
        seq![spec_read_request(Pinout { ctrl: Ctrl { sync: false, ..pinout.ctrl }, ..pinout }, cpu.pc.spec_value())]
    }
}

pub fn branch_c0<B: Bus>(cpu: &mut Context, bus: &mut B, pinout: Pinout) -> (r: Pinout)
    requires
        old(bus).ready(),
    ensures
        final(bus).ready(),
        final(bus).spec_clock() == old(bus).spec_clock(),
        *final(cpu) == spec_branch_c0(*old(cpu), pinout, r),
        !pinout.ctrl.rdy ==> r == pinout && *final(cpu) == *old(cpu) && *final(bus) == *old(bus),
        pinout.ctrl.rdy ==> ({ let s0 = *old(cpu); let s1 = spec_after_read(s0, r.data); let s2 = Context { ops: OpState { offset: s1.ops.dl, ..s1.ops }, ..s1 }; let s3 = Context { pc: s2.pc.spec_incremented(), ..s2 }; let s4 = spec_poll(s3, r); *final(cpu) == s4 }),
        final(bus).spec_requests() == old(bus).spec_requests() + spec_branch_c0_requests(*old(cpu), pinout),
{
    let mut pinout = pinout;
    if pinout.ctrl.contains(Ctrl::RDY()) == false {
        return pinout;
    }
    pinout = second_cycle(cpu, bus, pinout);
    cpu.ops.offset = cpu.ops.dl;
    cpu.pc.increment();
    poll_interrupts(cpu, pinout);
    if cpu.ir.tm > 0xF {
        return pinout;
    }
    pinout
}

/// The cpu state after the cycle `branch_c3` runs, `r` being the pinout it
/// returns.
pub open spec fn spec_branch_c3(cpu: Context, pinout: Pinout, r: Pinout) -> Context {
    if !pinout.ctrl.rdy {
        cpu
    } else {
        ({ let s0 = cpu; let s1 = spec_after_first_cycle(s0, r.data); s1 })
    }
}

/// The requests the cycle `branch_c3` puts on the bus, oldest first.
pub open spec fn spec_branch_c3_requests(cpu: Context, pinout: Pinout) -> Seq<Pinout> {
    if !pinout.ctrl.rdy {
        Seq::empty()
    } else {
        seq![spec_read_request(Pinout { ctrl: Ctrl { sync: true, ..pinout.ctrl }, ..pinout }, cpu.pc.spec_value())]
    }
}

pub fn branch_c3<B: Bus>(cpu: &mut Context, bus: &mut B, pinout: Pinout) -> (r: Pinout)
    requires
        old(bus).ready(),
    ensures
        final(bus).ready(),
        final(bus).spec_clock() == old(bus).spec_clock(),
        *final(cpu) == spec_branch_c3(*old(cpu), pinout, r),
        !pinout.ctrl.rdy ==> r == pinout && *final(cpu) == *old(cpu) && *final(bus) == *old(bus),
        pinout.ctrl.rdy ==> ({ let s0 = *old(cpu); let s1 = spec_after_first_cycle(s0, r.data); *final(cpu) == s1 }),
        final(bus).spec_requests() == old(bus).spec_requests() + spec_branch_c3_requests(*old(cpu), pinout),
{
    let mut pinout = pinout;
    if pinout.ctrl.contains(Ctrl::RDY()) == false {
        return pinout;
    }
    pinout = first_cycle(cpu, bus, pinout);
    pinout
}

/// The cpu state after the cycle `undoc_indirect_x_c0` runs, `r` being the pinout it
/// returns.
pub open spec fn spec_undoc_indirect_x_c0(cpu: Context, pinout: Pinout, r: Pinout) -> Context {
    if !pinout.ctrl.rdy {
        cpu
    } else {
        ({ let s0 = cpu; let s1 = spec_after_read(s0, r.data); let s2 = Context { ops: OpState { bal: s1.ops.dl, ..s1.ops }, ..s1 }; let s3 = Context { pc: s2.pc.spec_incremented(), ..s2 }; s3 })
    }
}

/// The requests the cycle `undoc_indirect_x_c0` puts on the bus, oldest first.
pub open spec fn spec_undoc_indirect_x_c0_requests(cpu: Context, pinout: Pinout) -> Seq<Pinout> {
    if !pinout.ctrl.rdy {
        Seq::empty()
    } else {
        seq![spec_read_request(Pinout { ctrl: Ctrl { sync: false, ..pinout.ctrl }, ..pinout }, cpu.pc.spec_value())]
    }
}

pub fn undoc_indirect_x_c0<B: Bus>(cpu: &mut Context, bus: &mut B, pinout: Pinout) -> (r: Pinout)
    requires
        old(bus).ready(),
    ensures
        final(bus).ready(),
        final(bus).spec_clock() == old(bus).spec_clock(),
        *final(cpu) == spec_undoc_indirect_x_c0(*old(cpu), pinout, r),
        !pinout.ctrl.rdy ==> r == pinout && *final(cpu) == *old(cpu) && *final(bus) == *old(bus),
        pinout.ctrl.rdy ==> ({ let s0 = *old(cpu); let s1 = spec_after_read(s0, r.data); let s2 = Context { ops: OpState { bal: s1.ops.dl, ..s1.ops }, ..s1 }; let s3 = Context { pc: s2.pc.spec_incremented(), ..s2 }; *final(cpu) == s3 }),
        final(bus).spec_requests() == old(bus).spec_requests() + spec_undoc_indirect_x_c0_requests(*old(cpu), pinout),
{
    let mut pinout = pinout;
    if pinout.ctrl.contains(Ctrl::RDY()) == false {
        return pinout;
    }
    pinout = second_cycle(cpu, bus, pinout);
    cpu.ops.bal = cpu.ops.dl;
    cpu.pc.increment();
    pinout
}

/// The cpu state after the cycle `undoc_indirect_x_c1` runs, `r` being the pinout it
/// returns.
pub open spec fn spec_undoc_indirect_x_c1(cpu: Context, pinout: Pinout, r: Pinout) -> Context {
    if !pinout.ctrl.rdy {
        cpu
    } else {
        ({ let s0 = cpu; let s1 = spec_after_read(s0, r.data); s1 })
    }
}

/// The requests the cycle `undoc_indirect_x_c1` puts on the bus, oldest first.
pub open spec fn spec_undoc_indirect_x_c1_requests(cpu: Context, pinout: Pinout) -> Seq<Pinout> {
    if !pinout.ctrl.rdy {
        Seq::empty()
    } else {
        seq![spec_read_request(pinout, spec_address(0, cpu.ops.bal))]
    }
}

pub fn undoc_indirect_x_c1<B: Bus>(cpu: &mut Context, bus: &mut B, pinout: Pinout) -> (r: Pinout)
    requires
        old(bus).ready(),
    ensures
        final(bus).ready(),
        final(bus).spec_clock() == old(bus).spec_clock(),
        *final(cpu) == spec_undoc_indirect_x_c1(*old(cpu), pinout, r),
        !pinout.ctrl.rdy ==> r == pinout && *final(cpu) == *old(cpu) && *final(bus) == *old(bus),
        pinout.ctrl.rdy ==> ({ let s0 = *old(cpu); let s1 = spec_after_read(s0, r.data); *final(cpu) == s1 }),
        final(bus).spec_requests() == old(bus).spec_requests() + spec_undoc_indirect_x_c1_requests(*old(cpu), pinout),
{
    let mut pinout = pinout;
    if pinout.ctrl.contains(Ctrl::RDY()) == false {
        return pinout;
    }
    let addr = to_address(0, cpu.ops.bal);
    pinout = read_cycle(cpu, bus, pinout, addr);
    pinout
}

/// The cpu state after the cycle `undoc_indirect_x_c2` runs, `r` being the pinout it
/// returns.
pub open spec fn spec_undoc_indirect_x_c2(cpu: Context, pinout: Pinout, r: Pinout) -> Context {
    if !pinout.ctrl.rdy {
        cpu
    } else {
        ({ let s0 = cpu; let s1 = spec_after_read(s0, r.data); let s2 = Context { ops: OpState { adl: s1.ops.dl, ..s1.ops }, ..s1 }; s2 })
    }
}

/// The requests the cycle `undoc_indirect_x_c2` puts on the bus, oldest first.
pub open spec fn spec_undoc_indirect_x_c2_requests(cpu: Context, pinout: Pinout) -> Seq<Pinout> {
    if !pinout.ctrl.rdy {
        Seq::empty()
    } else {
        seq![spec_read_request(pinout, spec_address(0, cpu.ops.bal.wrapping_add(cpu.x)))]
    }
}

pub fn undoc_indirect_x_c2<B: Bus>(cpu: &mut Context, bus: &mut B, pinout: Pinout) -> (r: Pinout)
    requires
        old(bus).ready(),
    ensures
        final(bus).ready(),
        final(bus).spec_clock() == old(bus).spec_clock(),
        *final(cpu) == spec_undoc_indirect_x_c2(*old(cpu), pinout, r),
        !pinout.ctrl.rdy ==> r == pinout && *final(cpu) == *old(cpu) && *final(bus) == *old(bus),
        pinout.ctrl.rdy ==> ({ let s0 = *old(cpu); let s1 = spec_after_read(s0, r.data); let s2 = Context { ops: OpState { adl: s1.ops.dl, ..s1.ops }, ..s1 }; *final(cpu) == s2 }),
        final(bus).spec_requests() == old(bus).spec_requests() + spec_undoc_indirect_x_c2_requests(*old(cpu), pinout),
{
    let mut pinout = pinout;
    if pinout.ctrl.contains(Ctrl::RDY()) == false {
        return pinout;
    }
    let addr = to_address(0, cpu.ops.bal.wrapping_add(cpu.x));
    pinout = read_cycle(cpu, bus, pinout, addr);
    cpu.ops.adl = cpu.ops.dl;
    pinout
}

/// The cpu state after the cycle `undoc_indirect_x_c3` runs, `r` being the pinout it
/// returns.
pub open spec fn spec_undoc_indirect_x_c3(cpu: Context, pinout: Pinout, r: Pinout) -> Context {
    if !pinout.ctrl.rdy {
        cpu
    } else {
        ({ let s0 = cpu; let s1 = spec_after_read(s0, r.data); let s2 = Context { ops: OpState { adh: s1.ops.dl, ..s1.ops }, ..s1 }; s2 })
    }
}

/// The requests the cycle `undoc_indirect_x_c3` puts on the bus, oldest first.
pub open spec fn spec_undoc_indirect_x_c3_requests(cpu: Context, pinout: Pinout) -> Seq<Pinout> {
    if !pinout.ctrl.rdy {
        Seq::empty()
    } else {
        seq![spec_read_request(pinout, spec_address(0, cpu.ops.bal.wrapping_add(cpu.x).wrapping_add(1)))]
    }
}

pub fn undoc_indirect_x_c3<B: Bus>(cpu: &mut Context, bus: &mut B, pinout: Pinout) -> (r: Pinout)
    requires
        old(bus).ready(),
    ensures
        final(bus).ready(),
        final(bus).spec_clock() == old(bus).spec_clock(),
        *final(cpu) == spec_undoc_indirect_x_c3(*old(cpu), pinout, r),
        !pinout.ctrl.rdy ==> r == pinout && *final(cpu) == *old(cpu) && *final(bus) == *old(bus),
        pinout.ctrl.rdy ==> ({ let s0 = *old(cpu); let s1 = spec_after_read(s0, r.data); let s2 = Context { ops: OpState { adh: s1.ops.dl, ..s1.ops }, ..s1 }; *final(cpu) == s2 }),
        final(bus).spec_requests() == old(bus).spec_requests() + spec_undoc_indirect_x_c3_requests(*old(cpu), pinout),
{
    let mut pinout = pinout;
    if pinout.ctrl.contains(Ctrl::RDY()) == false {
        return pinout;
    }
    let addr = to_address(0, cpu.ops.bal.wrapping_add(cpu.x).wrapping_add(1));
    pinout = read_cycle(cpu, bus, pinout, addr);
    cpu.ops.adh = cpu.ops.dl;
    pinout
}

/// The cpu state after the cycle `undoc_indirect_x_c4` runs, `r` being the pinout it
/// returns.
pub open spec fn spec_undoc_indirect_x_c4(cpu: Context, pinout: Pinout, r: Pinout) -> Context {
    if !pinout.ctrl.rdy {
        cpu
    } else {
        ({ let s0 = cpu; let s1 = spec_after_read(s0, r.data); s1 })
    }
}

/// The requests the cycle `undoc_indirect_x_c4` puts on the bus, oldest first.
pub open spec fn spec_undoc_indirect_x_c4_requests(cpu: Context, pinout: Pinout) -> Seq<Pinout> {
    if !pinout.ctrl.rdy {
        Seq::empty()
    } else {
        seq![spec_read_request(pinout, spec_address(cpu.ops.adh, cpu.ops.adl))]
    }
}

pub fn undoc_indirect_x_c4<B: Bus>(cpu: &mut Context, bus: &mut B, pinout: Pinout) -> (r: Pinout)
    requires
        old(bus).ready(),
    ensures
        final(bus).ready(),
        final(bus).spec_clock() == old(bus).spec_clock(),
        *final(cpu) == spec_undoc_indirect_x_c4(*old(cpu), pinout, r),
        !pinout.ctrl.rdy ==> r == pinout && *final(cpu) == *old(cpu) && *final(bus) == *old(bus),
        pinout.ctrl.rdy ==> ({ let s0 = *old(cpu); let s1 = spec_after_read(s0, r.data); *final(cpu) == s1 }),
        final(bus).spec_requests() == old(bus).spec_requests() + spec_undoc_indirect_x_c4_requests(*old(cpu), pinout),
{
    let mut pinout = pinout;
    if pinout.ctrl.contains(Ctrl::RDY()) == false {
        return pinout;
    }
    let addr = to_address(cpu.ops.adh, cpu.ops.adl);
    pinout = read_cycle(cpu, bus, pinout, addr);
    pinout
}

/// The cpu state after the cycle `undoc_indirect_x_c5` runs, `r` being the pinout it
/// returns.
pub open spec fn spec_undoc_indirect_x_c5<T: Instruction>(cpu: Context, pinout: Pinout, r: Pinout) -> Context {
    ({ let s0 = cpu; let s1 = spec_after_write(s0); let s2 = T::spec_execute(s1); s2 })
}

/// The requests the cycle `undoc_indirect_x_c5` puts on the bus, oldest first.
pub open spec fn spec_undoc_indirect_x_c5_requests<T: Instruction>(cpu: Context, pinout: Pinout) -> Seq<Pinout> {
    seq![spec_write_request(pinout, spec_address(cpu.ops.adh, cpu.ops.adl), cpu.ops.dl)]
}

pub fn undoc_indirect_x_c5<B: Bus, T: Instruction>(cpu: &mut Context, bus: &mut B, pinout: Pinout) -> (r: Pinout)
    requires
        old(bus).ready(),
    ensures
        final(bus).ready(),
        final(bus).spec_clock() == old(bus).spec_clock(),
        *final(cpu) == spec_undoc_indirect_x_c5::<T>(*old(cpu), pinout, r),
        ({ let s0 = *old(cpu); let s1 = spec_after_write(s0); let s2 = T::spec_execute(s1); *final(cpu) == s2 }),
        final(bus).spec_requests() == old(bus).spec_requests() + spec_undoc_indirect_x_c5_requests::<T>(*old(cpu), pinout),
{
    let mut pinout = pinout;
    let addr = to_address(cpu.ops.adh, cpu.ops.adl);
    let data = cpu.ops.dl;
    pinout = write_cycle(cpu, bus, pinout, addr, data);
    T::execute(cpu);
    pinout
}

/// The cpu state after the cycle `undoc_indirect_x_c6` runs, `r` being the pinout it
/// returns.
pub open spec fn spec_undoc_indirect_x_c6(cpu: Context, pinout: Pinout, r: Pinout) -> Context {
    ({ let s0 = cpu; let s1 = spec_after_write(s0); let s2 = spec_poll(s1, r); s2 })
}

/// The requests the cycle `undoc_indirect_x_c6` puts on the bus, oldest first.
pub open spec fn spec_undoc_indirect_x_c6_requests(cpu: Context, pinout: Pinout) -> Seq<Pinout> {
    seq![spec_write_request(pinout, spec_address(cpu.ops.adh, cpu.ops.adl), cpu.ops.dl)]
}

pub fn undoc_indirect_x_c6<B: Bus>(cpu: &mut Context, bus: &mut B, pinout: Pinout) -> (r: Pinout)
    requires
        old(bus).ready(),
    ensures
        final(bus).ready(),
        final(bus).spec_clock() == old(bus).spec_clock(),
        *final(cpu) == spec_undoc_indirect_x_c6(*old(cpu), pinout, r),
        ({ let s0 = *old(cpu); let s1 = spec_after_write(s0); let s2 = spec_poll(s1, r); *final(cpu) == s2 }),
        final(bus).spec_requests() == old(bus).spec_requests() + spec_undoc_indirect_x_c6_requests(*old(cpu), pinout),
{
    let mut pinout = pinout;
    let addr = to_address(cpu.ops.adh, cpu.ops.adl);
    let data = cpu.ops.dl;
    pinout = write_cycle(cpu, bus, pinout, addr, data);
    poll_interrupts(cpu, pinout);
    if cpu.ir.tm > 0xF {
        return pinout;
    }
    pinout
}

/// The cpu state after the cycle `undoc_indirect_x_c7` runs, `r` being the pinout it
/// returns.
pub open spec fn spec_undoc_indirect_x_c7(cpu: Context, pinout: Pinout, r: Pinout) -> Context {
    if !pinout.ctrl.rdy {
        cpu
    } else {
        ({ let s0 = cpu; let s1 = spec_after_first_cycle(s0, r.data); s1 })
    }
}

/// The requests the cycle `undoc_indirect_x_c7` puts on the bus, oldest first.
pub open spec fn spec_undoc_indirect_x_c7_requests(cpu: Context, pinout: Pinout) -> Seq<Pinout> {
    if !pinout.ctrl.rdy {
        Seq::empty()
    } else {
        seq![spec_read_request(Pinout { ctrl: Ctrl { sync: true, ..pinout.ctrl }, ..pinout }, cpu.pc.spec_value())]
    }
}

pub fn undoc_indirect_x_c7<B: Bus>(cpu: &mut Context, bus: &mut B, pinout: Pinout) -> (r: Pinout)
    requires
        old(bus).ready(),
    ensures
        final(bus).ready(),
        final(bus).spec_clock() == old(bus).spec_clock(),
        *final(cpu) == spec_undoc_indirect_x_c7(*old(cpu), pinout, r),
        !pinout.ctrl.rdy ==> r == pinout && *final(cpu) == *old(cpu) && *final(bus) == *old(bus),
        pinout.ctrl.rdy ==> ({ let s0 = *old(cpu); let s1 = spec_after_first_cycle(s0, r.data); *final(cpu) == s1 }),
        final(bus).spec_requests() == old(bus).spec_requests() + spec_undoc_indirect_x_c7_requests(*old(cpu), pinout),
{
    let mut pinout = pinout;
    if pinout.ctrl.contains(Ctrl::RDY()) == false {
        return pinout;
    }
    pinout = first_cycle(cpu, bus, pinout);
    pinout
}

/// The cpu state after the cycle `undoc_indirect_y_c0` runs, `r` being the pinout it
/// returns.
pub open spec fn spec_undoc_indirect_y_c0(cpu: Context, pinout: Pinout, r: Pinout) -> Context {
    if !pinout.ctrl.rdy {
        cpu
    } else {
        ({ let s0 = cpu; let s1 = spec_after_read(s0, r.data); let s2 = Context { ops: OpState { ial: s1.ops.dl, ..s1.ops }, ..s1 }; let s3 = Context { pc: s2.pc.spec_incremented(), ..s2 }; s3 })
    }
}

/// The requests the cycle `undoc_indirect_y_c0` puts on the bus, oldest first.
pub open spec fn spec_undoc_indirect_y_c0_requests(cpu: Context, pinout: Pinout) -> Seq<Pinout> {
    if !pinout.ctrl.rdy {
        Seq::empty()
    } else {
        seq![spec_read_request(Pinout { ctrl: Ctrl { sync: false, ..pinout.ctrl }, ..pinout }, cpu.pc.spec_value())]
    }
}

pub fn undoc_indirect_y_c0<B: Bus>(cpu: &mut Context, bus: &mut B, pinout: Pinout) -> (r: Pinout)
    requires
        old(bus).ready(),
    ensures
        final(bus).ready(),
        final(bus).spec_clock() == old(bus).spec_clock(),
        *final(cpu) == spec_undoc_indirect_y_c0(*old(cpu), pinout, r),
        !pinout.ctrl.rdy ==> r == pinout && *final(cpu) == *old(cpu) && *final(bus) == *old(bus),
        pinout.ctrl.rdy ==> ({ let s0 = *old(cpu); let s1 = spec_after_read(s0, r.data); let s2 = Context { ops: OpState { ial: s1.ops.dl, ..s1.ops }, ..s1 }; let s3 = Context { pc: s2.pc.spec_incremented(), ..s2 }; *final(cpu) == s3 }),
        final(bus).spec_requests() == old(bus).spec_requests() + spec_undoc_indirect_y_c0_requests(*old(cpu), pinout),
{
    let mut pinout = pinout;
    if pinout.ctrl.contains(Ctrl::RDY()) == false {
        return pinout;
    }
    pinout = second_cycle(cpu, bus, pinout);
    cpu.ops.ial = cpu.ops.dl;
    cpu.pc.increment();
    pinout
}

/// The cpu state after the cycle `undoc_indirect_y_c1` runs, `r` being the pinout it
/// returns.
pub open spec fn spec_undoc_indirect_y_c1(cpu: Context, pinout: Pinout, r: Pinout) -> Context {
    if !pinout.ctrl.rdy {
        cpu
    } else {
        ({ let s0 = cpu; let s1 = spec_after_read(s0, r.data); let s2 = Context { ops: OpState { bal: s1.ops.dl, ..s1.ops }, ..s1 }; s2 })
    }
}

/// The requests the cycle `undoc_indirect_y_c1` puts on the bus, oldest first.
pub open spec fn spec_undoc_indirect_y_c1_requests(cpu: Context, pinout: Pinout) -> Seq<Pinout> {
    if !pinout.ctrl.rdy {
        Seq::empty()
    } else {
        seq![spec_read_request(pinout, spec_address(0, cpu.ops.ial))]
    }
}

pub fn undoc_indirect_y_c1<B: Bus>(cpu: &mut Context, bus: &mut B, pinout: Pinout) -> (r: Pinout)
    requires
        old(bus).ready(),
    ensures
        final(bus).ready(),
        final(bus).spec_clock() == old(bus).spec_clock(),
        *final(cpu) == spec_undoc_indirect_y_c1(*old(cpu), pinout, r),
        !pinout.ctrl.rdy ==> r == pinout && *final(cpu) == *old(cpu) && *final(bus) == *old(bus),
        pinout.ctrl.rdy ==> ({ let s0 = *old(cpu); let s1 = spec_after_read(s0, r.data); let s2 = Context { ops: OpState { bal: s1.ops.dl, ..s1.ops }, ..s1 }; *final(cpu) == s2 }),
        final(bus).spec_requests() == old(bus).spec_requests() + spec_undoc_indirect_y_c1_requests(*old(cpu), pinout),
{
    let mut pinout = pinout;
    if pinout.ctrl.contains(Ctrl::RDY()) == false {
        return pinout;
    }
    let addr = to_address(0, cpu.ops.ial);
    pinout = read_cycle(cpu, bus, pinout, addr);
    cpu.ops.bal = cpu.ops.dl;
    pinout
}

/// The cpu state after the cycle `undoc_indirect_y_c2` runs, `r` being the pinout it
/// returns.
pub open spec fn spec_undoc_indirect_y_c2(cpu: Context, pinout: Pinout, r: Pinout) -> Context {
    if !pinout.ctrl.rdy {
        cpu
    } else {
        ({ let s0 = cpu; let s1 = spec_after_read(s0, r.data); let s2 = Context { ops: OpState { bah: s1.ops.dl, ..s1.ops }, ..s1 }; s2 })
    }
}

/// The requests the cycle `undoc_indirect_y_c2` puts on the bus, oldest first.
pub open spec fn spec_undoc_indirect_y_c2_requests(cpu: Context, pinout: Pinout) -> Seq<Pinout> {
    if !pinout.ctrl.rdy {
        Seq::empty()
    } else {
        seq![spec_read_request(pinout, spec_address(0, cpu.ops.ial.wrapping_add(1)))]
    }
}

pub fn undoc_indirect_y_c2<B: Bus>(cpu: &mut Context, bus: &mut B, pinout: Pinout) -> (r: Pinout)
    requires
        old(bus).ready(),
    ensures
        final(bus).ready(),
        final(bus).spec_clock() == old(bus).spec_clock(),
        *final(cpu) == spec_undoc_indirect_y_c2(*old(cpu), pinout, r),
        !pinout.ctrl.rdy ==> r == pinout && *final(cpu) == *old(cpu) && *final(bus) == *old(bus),
        pinout.ctrl.rdy ==> ({ let s0 = *old(cpu); let s1 = spec_after_read(s0, r.data); let s2 = Context { ops: OpState { bah: s1.ops.dl, ..s1.ops }, ..s1 }; *final(cpu) == s2 }),
        final(bus).spec_requests() == old(bus).spec_requests() + spec_undoc_indirect_y_c2_requests(*old(cpu), pinout),
{
    let mut pinout = pinout;
    if pinout.ctrl.contains(Ctrl::RDY()) == false {
        return pinout;
    }
    let addr = to_address(0, cpu.ops.ial.wrapping_add(1));
    pinout = read_cycle(cpu, bus, pinout, addr);
    cpu.ops.bah = cpu.ops.dl;
    pinout
}

/// The cpu state after the cycle `undoc_indirect_y_c3` runs, `r` being the pinout it
/// returns.
pub open spec fn spec_undoc_indirect_y_c3(cpu: Context, pinout: Pinout, r: Pinout) -> Context {
    if !pinout.ctrl.rdy {
        cpu
    } else {
        ({ let s0 = cpu; let adl = (s0.ops.bal.wrapping_add(s0.y), s0.ops.bal + s0.y > 255); let s1 = Context { ops: OpState { adl: adl.0, ..s0.ops }, ..s0 }; let s2 = Context { ops: OpState { adh: s1.ops.bah, ..s1.ops }, ..s1 }; let s3 = spec_after_read(s2, r.data); s3 })
    }
}

/// The requests the cycle `undoc_indirect_y_c3` puts on the bus, oldest first.
pub open spec fn spec_undoc_indirect_y_c3_requests(cpu: Context, pinout: Pinout) -> Seq<Pinout> {
    if !pinout.ctrl.rdy {
        Seq::empty()
    } else {
        let adl = (cpu.ops.bal.wrapping_add(cpu.y), cpu.ops.bal + cpu.y > 255);
        let s1 = Context { ops: OpState { adl: adl.0, ..cpu.ops }, ..cpu };
        let s2 = Context { ops: OpState { adh: s1.ops.bah, ..s1.ops }, ..s1 };
        seq![spec_read_request(pinout, spec_address(s2.ops.adh, s2.ops.adl))]
    }
}

pub fn undoc_indirect_y_c3<B: Bus>(cpu: &mut Context, bus: &mut B, pinout: Pinout) -> (r: Pinout)
    requires
        old(bus).ready(),
    ensures
        final(bus).ready(),
        final(bus).spec_clock() == old(bus).spec_clock(),
        *final(cpu) == spec_undoc_indirect_y_c3(*old(cpu), pinout, r),
        !pinout.ctrl.rdy ==> r == pinout && *final(cpu) == *old(cpu) && *final(bus) == *old(bus),
        pinout.ctrl.rdy ==> ({ let s0 = *old(cpu); let adl = (s0.ops.bal.wrapping_add(s0.y), s0.ops.bal + s0.y > 255); let s1 = Context { ops: OpState { adl: adl.0, ..s0.ops }, ..s0 }; let s2 = Context { ops: OpState { adh: s1.ops.bah, ..s1.ops }, ..s1 }; let s3 = spec_after_read(s2, r.data); *final(cpu) == s3 }),
        final(bus).spec_requests() == old(bus).spec_requests() + spec_undoc_indirect_y_c3_requests(*old(cpu), pinout),
{
    let mut pinout = pinout;
    if pinout.ctrl.contains(Ctrl::RDY()) == false {
        return pinout;
    }
    let adl = overflowing_add(cpu.ops.bal, cpu.y);
    cpu.ops.adl = adl.0;
    cpu.ops.adh = cpu.ops.bah;
    let addr = to_address(cpu.ops.adh, cpu.ops.adl);
    pinout = read_cycle(cpu, bus, pinout, addr);
    pinout
}

/// The cpu state after the cycle `undoc_indirect_y_c4` runs, `r` being the pinout it
/// returns.
pub open spec fn spec_undoc_indirect_y_c4(cpu: Context, pinout: Pinout, r: Pinout) -> Context {
    if !pinout.ctrl.rdy {
        cpu
    } else {
        ({ let s0 = cpu; let adl = (s0.ops.bal.wrapping_add(s0.y), s0.ops.bal + s0.y > 255); let s1 = Context { ops: OpState { adl: adl.0, ..s0.ops }, ..s0 }; let s2 = Context { ops: OpState { adh: s1.ops.adh.wrapping_add(if adl.1 { 1u8 } else { 0 }), ..s1.ops }, ..s1 }; let s3 = spec_after_read(s2, r.data); s3 })
    }
}

/// The requests the cycle `undoc_indirect_y_c4` puts on the bus, oldest first.
pub open spec fn spec_undoc_indirect_y_c4_requests(cpu: Context, pinout: Pinout) -> Seq<Pinout> {
    if !pinout.ctrl.rdy {
        Seq::empty()
    } else {
        let adl = (cpu.ops.bal.wrapping_add(cpu.y), cpu.ops.bal + cpu.y > 255);
        let s1 = Context { ops: OpState { adl: adl.0, ..cpu.ops }, ..cpu };
        let s2 = Context { ops: OpState { adh: s1.ops.adh.wrapping_add(if adl.1 { 1u8 } else { 0 }), ..s1.ops }, ..s1 };
        seq![spec_read_request(pinout, spec_address(s2.ops.adh, s2.ops.adl))]
    }
}

pub fn undoc_indirect_y_c4<B: Bus>(cpu: &mut Context, bus: &mut B, pinout: Pinout) -> (r: Pinout)
    requires
        old(bus).ready(),
    ensures
        final(bus).ready(),
        final(bus).spec_clock() == old(bus).spec_clock(),
        *final(cpu) == spec_undoc_indirect_y_c4(*old(cpu), pinout, r),
        !pinout.ctrl.rdy ==> r == pinout && *final(cpu) == *old(cpu) && *final(bus) == *old(bus),
        pinout.ctrl.rdy ==> ({ let s0 = *old(cpu); let adl = (s0.ops.bal.wrapping_add(s0.y), s0.ops.bal + s0.y > 255); let s1 = Context { ops: OpState { adl: adl.0, ..s0.ops }, ..s0 }; let s2 = Context { ops: OpState { adh: s1.ops.adh.wrapping_add(if adl.1 { 1u8 } else { 0 }), ..s1.ops }, ..s1 }; let s3 = spec_after_read(s2, r.data); *final(cpu) == s3 }),
        final(bus).spec_requests() == old(bus).spec_requests() + spec_undoc_indirect_y_c4_requests(*old(cpu), pinout),
{
    let mut pinout = pinout;
    if pinout.ctrl.contains(Ctrl::RDY()) == false {
        return pinout;
    }
    let adl = overflowing_add(cpu.ops.bal, cpu.y);
    cpu.ops.adl = adl.0;
    cpu.ops.adh = cpu.ops.adh.wrapping_add(if adl.1 { 1u8 } else { 0 });
    let addr = to_address(cpu.ops.adh, cpu.ops.adl);
    pinout = read_cycle(cpu, bus, pinout, addr);
    pinout
}

/// The cpu state after the cycle `undoc_indirect_y_c5` runs, `r` being the pinout it
/// returns.
pub open spec fn spec_undoc_indirect_y_c5<T: Instruction>(cpu: Context, pinout: Pinout, r: Pinout) -> Context {
    ({ let s0 = cpu; let s1 = spec_after_write(s0); let s2 = T::spec_execute(s1); s2 })
}

/// The requests the cycle `undoc_indirect_y_c5` puts on the bus, oldest first.
pub open spec fn spec_undoc_indirect_y_c5_requests<T: Instruction>(cpu: Context, pinout: Pinout) -> Seq<Pinout> {
    seq![spec_write_request(pinout, spec_address(cpu.ops.adh, cpu.ops.adl), cpu.ops.dl)]
}

pub fn undoc_indirect_y_c5<B: Bus, T: Instruction>(cpu: &mut Context, bus: &mut B, pinout: Pinout) -> (r: Pinout)
    requires
        old(bus).ready(),
    ensures
        final(bus).ready(),
        final(bus).spec_clock() == old(bus).spec_clock(),
        *final(cpu) == spec_undoc_indirect_y_c5::<T>(*old(cpu), pinout, r),
        ({ let s0 = *old(cpu); let s1 = spec_after_write(s0); let s2 = T::spec_execute(s1); *final(cpu) == s2 }),
        final(bus).spec_requests() == old(bus).spec_requests() + spec_undoc_indirect_y_c5_requests::<T>(*old(cpu), pinout),
{
    let mut pinout = pinout;
    let addr = to_address(cpu.ops.adh, cpu.ops.adl);
    let data = cpu.ops.dl;
    pinout = write_cycle(cpu, bus, pinout, addr, data);
    T::execute(cpu);
    pinout
}

/// The cpu state after the cycle `undoc_indirect_y_c6` runs, `r` being the pinout it
/// returns.
pub open spec fn spec_undoc_indirect_y_c6(cpu: Context, pinout: Pinout, r: Pinout) -> Context {
    ({ let s0 = cpu; let s1 = spec_after_write(s0); let s2 = spec_poll(s1, r); s2 })
}

/// The requests the cycle `undoc_indirect_y_c6` puts on the bus, oldest first.
pub open spec fn spec_undoc_indirect_y_c6_requests(cpu: Context, pinout: Pinout) -> Seq<Pinout> {
    seq![spec_write_request(pinout, spec_address(cpu.ops.adh, cpu.ops.adl), cpu.ops.dl)]
}

pub fn undoc_indirect_y_c6<B: Bus>(cpu: &mut Context, bus: &mut B, pinout: Pinout) -> (r: Pinout)
    requires
        old(bus).ready(),
    ensures
        final(bus).ready(),
        final(bus).spec_clock() == old(bus).spec_clock(),
        *final(cpu) == spec_undoc_indirect_y_c6(*old(cpu), pinout, r),
        ({ let s0 = *old(cpu); let s1 = spec_after_write(s0); let s2 = spec_poll(s1, r); *final(cpu) == s2 }),
        final(bus).spec_requests() == old(bus).spec_requests() + spec_undoc_indirect_y_c6_requests(*old(cpu), pinout),
{
    let mut pinout = pinout;
    let addr = to_address(cpu.ops.adh, cpu.ops.adl);
    let data = cpu.ops.dl;
    pinout = write_cycle(cpu, bus, pinout, addr, data);
    poll_interrupts(cpu, pinout);
    if cpu.ir.tm > 0xF {
        return pinout;
    }
    pinout
}

/// The cpu state after the cycle `undoc_indirect_y_c7` runs, `r` being the pinout it
/// returns.
pub open spec fn spec_undoc_indirect_y_c7(cpu: Context, pinout: Pinout, r: Pinout) -> Context {
    if !pinout.ctrl.rdy {
        cpu
    } else {
        ({ let s0 = cpu; let s1 = spec_after_first_cycle(s0, r.data); s1 })
    }
}

/// The requests the cycle `undoc_indirect_y_c7` puts on the bus, oldest first.
pub open spec fn spec_undoc_indirect_y_c7_requests(cpu: Context, pinout: Pinout) -> Seq<Pinout> {
    if !pinout.ctrl.rdy {
        Seq::empty()
    } else {
        seq![spec_read_request(Pinout { ctrl: Ctrl { sync: true, ..pinout.ctrl }, ..pinout }, cpu.pc.spec_value())]
    }
}

pub fn undoc_indirect_y_c7<B: Bus>(cpu: &mut Context, bus: &mut B, pinout: Pinout) -> (r: Pinout)
    requires
        old(bus).ready(),
    ensures
        final(bus).ready(),
        final(bus).spec_clock() == old(bus).spec_clock(),
        *final(cpu) == spec_undoc_indirect_y_c7(*old(cpu), pinout, r),
        !pinout.ctrl.rdy ==> r == pinout && *final(cpu) == *old(cpu) && *final(bus) == *old(bus),
        pinout.ctrl.rdy ==> ({ let s0 = *old(cpu); let s1 = spec_after_first_cycle(s0, r.data); *final(cpu) == s1 }),
        final(bus).spec_requests() == old(bus).spec_requests() + spec_undoc_indirect_y_c7_requests(*old(cpu), pinout),
{
    let mut pinout = pinout;
    if pinout.ctrl.contains(Ctrl::RDY()) == false {
        return pinout;
    }
    pinout = first_cycle(cpu, bus, pinout);
    pinout
}

/// The cpu state after the cycle `undoc_absolute_y_c0` runs, `r` being the pinout it
/// returns.
pub open spec fn spec_undoc_absolute_y_c0(cpu: Context, pinout: Pinout, r: Pinout) -> Context {
    if !pinout.ctrl.rdy {
        cpu
    } else {
        ({ let s0 = cpu; let s1 = spec_after_read(s0, r.data); let s2 = Context { ops: OpState { bal: s1.ops.dl, ..s1.ops }, ..s1 }; let s3 = Context { pc: s2.pc.spec_incremented(), ..s2 }; s3 })
    }
}

/// The requests the cycle `undoc_absolute_y_c0` puts on the bus, oldest first.
pub open spec fn spec_undoc_absolute_y_c0_requests(cpu: Context, pinout: Pinout) -> Seq<Pinout> {
    if !pinout.ctrl.rdy {
        Seq::empty()
    } else {
        seq![spec_read_request(Pinout { ctrl: Ctrl { sync: false, ..pinout.ctrl }, ..pinout }, cpu.pc.spec_value())]
    }
}

pub fn undoc_absolute_y_c0<B: Bus>(cpu: &mut Context, bus: &mut B, pinout: Pinout) -> (r: Pinout)
    requires
        old(bus).ready(),
    ensures
        final(bus).ready(),
        final(bus).spec_clock() == old(bus).spec_clock(),
        *final(cpu) == spec_undoc_absolute_y_c0(*old(cpu), pinout, r),
        !pinout.ctrl.rdy ==> r == pinout && *final(cpu) == *old(cpu) && *final(bus) == *old(bus),
        pinout.ctrl.rdy ==> ({ let s0 = *old(cpu); let s1 = spec_after_read(s0, r.data); let s2 = Context { ops: OpState { bal: s1.ops.dl, ..s1.ops }, ..s1 }; let s3 = Context { pc: s2.pc.spec_incremented(), ..s2 }; *final(cpu) == s3 }),
        final(bus).spec_requests() == old(bus).spec_requests() + spec_undoc_absolute_y_c0_requests(*old(cpu), pinout),
{
    let mut pinout = pinout;
    if pinout.ctrl.contains(Ctrl::RDY()) == false {
        return pinout;
    }
    pinout = second_cycle(cpu, bus, pinout);
    cpu.ops.bal = cpu.ops.dl;
    cpu.pc.increment();
    pinout
}

/// The cpu state after the cycle `undoc_absolute_y_c1` runs, `r` being the pinout it
/// returns.
pub open spec fn spec_undoc_absolute_y_c1(cpu: Context, pinout: Pinout, r: Pinout) -> Context {
    if !pinout.ctrl.rdy {
        cpu
    } else {
        ({ let s0 = cpu; let s1 = spec_after_read(s0, r.data); let s2 = Context { ops: OpState { bah: s1.ops.dl, ..s1.ops }, ..s1 }; let s3 = Context { pc: s2.pc.spec_incremented(), ..s2 }; s3 })
    }
}

/// The requests the cycle `undoc_absolute_y_c1` puts on the bus, oldest first.
pub open spec fn spec_undoc_absolute_y_c1_requests(cpu: Context, pinout: Pinout) -> Seq<Pinout> {
    if !pinout.ctrl.rdy {
        Seq::empty()
    } else {
        seq![spec_read_request(pinout, cpu.pc.spec_value())]
    }
}

pub fn undoc_absolute_y_c1<B: Bus>(cpu: &mut Context, bus: &mut B, pinout: Pinout) -> (r: Pinout)
    requires
        old(bus).ready(),
    ensures
        final(bus).ready(),
        final(bus).spec_clock() == old(bus).spec_clock(),
        *final(cpu) == spec_undoc_absolute_y_c1(*old(cpu), pinout, r),
        !pinout.ctrl.rdy ==> r == pinout && *final(cpu) == *old(cpu) && *final(bus) == *old(bus),
        pinout.ctrl.rdy ==> ({ let s0 = *old(cpu); let s1 = spec_after_read(s0, r.data); let s2 = Context { ops: OpState { bah: s1.ops.dl, ..s1.ops }, ..s1 }; let s3 = Context { pc: s2.pc.spec_incremented(), ..s2 }; *final(cpu) == s3 }),
        final(bus).spec_requests() == old(bus).spec_requests() + spec_undoc_absolute_y_c1_requests(*old(cpu), pinout),
{
    let mut pinout = pinout;
    if pinout.ctrl.contains(Ctrl::RDY()) == false {
        return pinout;
    }
    let addr = cpu.pc.value();
    pinout = read_cycle(cpu, bus, pinout, addr);
    cpu.ops.bah = cpu.ops.dl;
    cpu.pc.increment();
    pinout
}

/// The cpu state after the cycle `undoc_absolute_y_c2` runs, `r` being the pinout it
/// returns.
pub open spec fn spec_undoc_absolute_y_c2(cpu: Context, pinout: Pinout, r: Pinout) -> Context {
    if !pinout.ctrl.rdy {
        cpu
    } else {
        ({ let s0 = cpu; let adl = (s0.ops.bal.wrapping_add(s0.y), s0.ops.bal + s0.y > 255); let s1 = Context { ops: OpState { adl: adl.0, ..s0.ops }, ..s0 }; let s2 = Context { ops: OpState { adh: s1.ops.bah.wrapping_add(if adl.1 { 1u8 } else { 0 }), ..s1.ops }, ..s1 }; let s3 = spec_after_read(s2, r.data); s3 })
    }
}

/// The requests the cycle `undoc_absolute_y_c2` puts on the bus, oldest first.
pub open spec fn spec_undoc_absolute_y_c2_requests(cpu: Context, pinout: Pinout) -> Seq<Pinout> {
    if !pinout.ctrl.rdy {
        Seq::empty()
    } else {
        let adl = (cpu.ops.bal.wrapping_add(cpu.y), cpu.ops.bal + cpu.y > 255);
        let s1 = Context { ops: OpState { adl: adl.0, ..cpu.ops }, ..cpu };
        let s2 = Context { ops: OpState { adh: s1.ops.bah.wrapping_add(if adl.1 { 1u8 } else { 0 }), ..s1.ops }, ..s1 };
        seq![spec_read_request(pinout, spec_address(s2.ops.adh, s2.ops.adl))]
    }
}

pub fn undoc_absolute_y_c2<B: Bus>(cpu: &mut Context, bus: &mut B, pinout: Pinout) -> (r: Pinout)
    requires
        old(bus).ready(),
    ensures
        final(bus).ready(),
        final(bus).spec_clock() == old(bus).spec_clock(),
        *final(cpu) == spec_undoc_absolute_y_c2(*old(cpu), pinout, r),
        !pinout.ctrl.rdy ==> r == pinout && *final(cpu) == *old(cpu) && *final(bus) == *old(bus),
        pinout.ctrl.rdy ==> ({ let s0 = *old(cpu); let adl = (s0.ops.bal.wrapping_add(s0.y), s0.ops.bal + s0.y > 255); let s1 = Context { ops: OpState { adl: adl.0, ..s0.ops }, ..s0 }; let s2 = Context { ops: OpState { adh: s1.ops.bah.wrapping_add(if adl.1 { 1u8 } else { 0 }), ..s1.ops }, ..s1 }; let s3 = spec_after_read(s2, r.data); *final(cpu) == s3 }),
        final(bus).spec_requests() == old(bus).spec_requests() + spec_undoc_absolute_y_c2_requests(*old(cpu), pinout),
{
    let mut pinout = pinout;
    if pinout.ctrl.contains(Ctrl::RDY()) == false {
        return pinout;
    }
    let adl = overflowing_add(cpu.ops.bal, cpu.y);
    cpu.ops.adl = adl.0;
    cpu.ops.adh = cpu.ops.bah.wrapping_add(if adl.1 { 1u8 } else { 0 });
    let addr = to_address(cpu.ops.adh, cpu.ops.adl);
    pinout = read_cycle(cpu, bus, pinout, addr);
    pinout
}

/// The cpu state after the cycle `undoc_absolute_y_c3` runs, `r` being the pinout it
/// returns.
pub open spec fn spec_undoc_absolute_y_c3(cpu: Context, pinout: Pinout, r: Pinout) -> Context {
    if !pinout.ctrl.rdy {
        cpu
    } else {
        ({ let s0 = cpu; let s1 = spec_after_read(s0, r.data); s1 })
    }
}

/// The requests the cycle `undoc_absolute_y_c3` puts on the bus, oldest first.
pub open spec fn spec_undoc_absolute_y_c3_requests(cpu: Context, pinout: Pinout) -> Seq<Pinout> {
    if !pinout.ctrl.rdy {
        Seq::empty()
    } else {
        seq![spec_read_request(pinout, spec_address(cpu.ops.adh, cpu.ops.adl))]
    }
}

pub fn undoc_absolute_y_c3<B: Bus>(cpu: &mut Context, bus: &mut B, pinout: Pinout) -> (r: Pinout)
    requires
        old(bus).ready(),
    ensures
        final(bus).ready(),
        final(bus).spec_clock() == old(bus).spec_clock(),
        *final(cpu) == spec_undoc_absolute_y_c3(*old(cpu), pinout, r),
        !pinout.ctrl.rdy ==> r == pinout && *final(cpu) == *old(cpu) && *final(bus) == *old(bus),
        pinout.ctrl.rdy ==> ({ let s0 = *old(cpu); let s1 = spec_after_read(s0, r.data); *final(cpu) == s1 }),
        final(bus).spec_requests() == old(bus).spec_requests() + spec_undoc_absolute_y_c3_requests(*old(cpu), pinout),
{
    let mut pinout = pinout;
    if pinout.ctrl.contains(Ctrl::RDY()) == false {
        return pinout;
    }
    let addr = to_address(cpu.ops.adh, cpu.ops.adl);
    pinout = read_cycle(cpu, bus, pinout, addr);
    pinout
}

/// The cpu state after the cycle `undoc_absolute_y_c4` runs, `r` being the pinout it
/// returns.
pub open spec fn spec_undoc_absolute_y_c4<T: Instruction>(cpu: Context, pinout: Pinout, r: Pinout) -> Context {
    ({ let s0 = cpu; let s1 = spec_after_write(s0); let s2 = T::spec_execute(s1); s2 })
}

/// The requests the cycle `undoc_absolute_y_c4` puts on the bus, oldest first.
pub open spec fn spec_undoc_absolute_y_c4_requests<T: Instruction>(cpu: Context, pinout: Pinout) -> Seq<Pinout> {
    seq![spec_write_request(pinout, spec_address(cpu.ops.adh, cpu.ops.adl), cpu.ops.dl)]
}

pub fn undoc_absolute_y_c4<B: Bus, T: Instruction>(cpu: &mut Context, bus: &mut B, pinout: Pinout) -> (r: Pinout)
    requires
        old(bus).ready(),
    ensures
        final(bus).ready(),
        final(bus).spec_clock() == old(bus).spec_clock(),
        *final(cpu) == spec_undoc_absolute_y_c4::<T>(*old(cpu), pinout, r),
        ({ let s0 = *old(cpu); let s1 = spec_after_write(s0); let s2 = T::spec_execute(s1); *final(cpu) == s2 }),
        final(bus).spec_requests() == old(bus).spec_requests() + spec_undoc_absolute_y_c4_requests::<T>(*old(cpu), pinout),
{
    let mut pinout = pinout;
    let addr = to_address(cpu.ops.adh, cpu.ops.adl);
    let data = cpu.ops.dl;
    pinout = write_cycle(cpu, bus, pinout, addr, data);
    T::execute(cpu);
    pinout
}

/// The cpu state after the cycle `undoc_absolute_y_c5` runs, `r` being the pinout it
/// returns.
pub open spec fn spec_undoc_absolute_y_c5(cpu: Context, pinout: Pinout, r: Pinout) -> Context {
    ({ let s0 = cpu; let s1 = spec_after_write(s0); let s2 = spec_poll(s1, r); s2 })
}

/// The requests the cycle `undoc_absolute_y_c5` puts on the bus, oldest first.
pub open spec fn spec_undoc_absolute_y_c5_requests(cpu: Context, pinout: Pinout) -> Seq<Pinout> {
    seq![spec_write_request(pinout, spec_address(cpu.ops.adh, cpu.ops.adl), cpu.ops.dl)]
}

pub fn undoc_absolute_y_c5<B: Bus>(cpu: &mut Context, bus: &mut B, pinout: Pinout) -> (r: Pinout)
    requires
        old(bus).ready(),
    ensures
        final(bus).ready(),
        final(bus).spec_clock() == old(bus).spec_clock(),
        *final(cpu) == spec_undoc_absolute_y_c5(*old(cpu), pinout, r),
        ({ let s0 = *old(cpu); let s1 = spec_after_write(s0); let s2 = spec_poll(s1, r); *final(cpu) == s2 }),
        final(bus).spec_requests() == old(bus).spec_requests() + spec_undoc_absolute_y_c5_requests(*old(cpu), pinout),
{
    let mut pinout = pinout;
    let addr = to_address(cpu.ops.adh, cpu.ops.adl);
    let data = cpu.ops.dl;
    pinout = write_cycle(cpu, bus, pinout, addr, data);
    poll_interrupts(cpu, pinout);
    if cpu.ir.tm > 0xF {
        return pinout;
    }
    pinout
}

/// The cpu state after the cycle `undoc_absolute_y_c6` runs, `r` being the pinout it
/// returns.
pub open spec fn spec_undoc_absolute_y_c6(cpu: Context, pinout: Pinout, r: Pinout) -> Context {
    if !pinout.ctrl.rdy {
        cpu
    } else {
        ({ let s0 = cpu; let s1 = spec_after_first_cycle(s0, r.data); s1 })
    }
}

/// The requests the cycle `undoc_absolute_y_c6` puts on the bus, oldest first.
pub open spec fn spec_undoc_absolute_y_c6_requests(cpu: Context, pinout: Pinout) -> Seq<Pinout> {
    if !pinout.ctrl.rdy {
        Seq::empty()
    } else {
        seq![spec_read_request(Pinout { ctrl: Ctrl { sync: true, ..pinout.ctrl }, ..pinout }, cpu.pc.spec_value())]
    }
}

pub fn undoc_absolute_y_c6<B: Bus>(cpu: &mut Context, bus: &mut B, pinout: Pinout) -> (r: Pinout)
    requires
        old(bus).ready(),
    ensures
        final(bus).ready(),
        final(bus).spec_clock() == old(bus).spec_clock(),
        *final(cpu) == spec_undoc_absolute_y_c6(*old(cpu), pinout, r),
        !pinout.ctrl.rdy ==> r == pinout && *final(cpu) == *old(cpu) && *final(bus) == *old(bus),
        pinout.ctrl.rdy ==> ({ let s0 = *old(cpu); let s1 = spec_after_first_cycle(s0, r.data); *final(cpu) == s1 }),
        final(bus).spec_requests() == old(bus).spec_requests() + spec_undoc_absolute_y_c6_requests(*old(cpu), pinout),
{
    let mut pinout = pinout;
    if pinout.ctrl.contains(Ctrl::RDY()) == false {
        return pinout;
    }
    pinout = first_cycle(cpu, bus, pinout);
    pinout
}

//=======================================================================
// cycles that branch on the page crossing or on interrupts
//========================================================================

/// The indexed address cycle shared by absolute,X / absolute,Y and
/// (indirect),Y reads: the low byte is indexed, the high byte kept; when no
/// page is crossed the fix-up cycle is skipped.
pub open spec fn spec_indexed_read(s0: Context, index: u8, data: u8) -> Context {
    let adl = (s0.ops.bal.wrapping_add(index), s0.ops.bal + index > 255);
    let s1 = Context { ops: OpState { adl: adl.0, adh: s0.ops.bah, ..s0.ops }, ..s0 };
    let s2 = spec_after_read(s1, data);
    if !adl.1 { Context { ir: s2.ir.spec_incremented(), ..s2 } } else { s2 }
}

fn indexed_read<B: Bus>(cpu: &mut Context, bus: &mut B, pinout: Pinout, index: u8) -> (r: Pinout)
    requires
        old(bus).ready(),
    ensures
        final(bus).ready(),
        final(bus).spec_clock() == old(bus).spec_clock(),
        *final(cpu) == spec_indexed_read(*old(cpu), index, r.data),
        final(bus).spec_requests() == old(bus).spec_requests().push(
            spec_read_request(pinout, spec_address(old(cpu).ops.bah, old(cpu).ops.bal.wrapping_add(index)))),
{
    let mut pinout = pinout;
    let adl = overflowing_add(cpu.ops.bal, index);
    cpu.ops.adl = adl.0;
    cpu.ops.adh = cpu.ops.bah;
    let addr = to_address(cpu.ops.adh, cpu.ops.adl);
    pinout = read_cycle(cpu, bus, pinout, addr);
    // if no page boundry crossed skip next cycle
    if adl.1 == false {
        cpu.ir.increment();
    }
    pinout
}

/// The cpu state after the cycle `absolute_x_read_c2` runs, `r` being the pinout it
/// returns.
pub open spec fn spec_absolute_x_read_c2(cpu: Context, pinout: Pinout, r: Pinout) -> Context {
    if !pinout.ctrl.rdy {
        cpu
    } else {
        spec_indexed_read(cpu, cpu.x, r.data)
    }
}

/// The requests the cycle `absolute_x_read_c2` puts on the bus, oldest first.
pub open spec fn spec_absolute_x_read_c2_requests(cpu: Context, pinout: Pinout) -> Seq<Pinout> {
    if !pinout.ctrl.rdy {
        Seq::empty()
    } else {
        seq![spec_read_request(pinout, spec_address(cpu.ops.bah, cpu.ops.bal.wrapping_add(cpu.x)))]
    }
}

pub fn absolute_x_read_c2<B: Bus>(cpu: &mut Context, bus: &mut B, pinout: Pinout) -> (r: Pinout)
    requires
        old(bus).ready(),
    ensures
        final(bus).ready(),
        final(bus).spec_clock() == old(bus).spec_clock(),
        *final(cpu) == spec_absolute_x_read_c2(*old(cpu), pinout, r),
        !pinout.ctrl.rdy ==> r == pinout && *final(cpu) == *old(cpu) && *final(bus) == *old(bus),
        pinout.ctrl.rdy ==> *final(cpu) == spec_indexed_read(*old(cpu), old(cpu).x, r.data),
        final(bus).spec_requests() == old(bus).spec_requests() + spec_absolute_x_read_c2_requests(*old(cpu), pinout),
{
    if pinout.ctrl.contains(Ctrl::RDY()) == false {
        return pinout;
    }
    let x = cpu.x;
    indexed_read(cpu, bus, pinout, x)
}

/// The cpu state after the cycle `absolute_y_read_c2` runs, `r` being the pinout it
/// returns.
pub open spec fn spec_absolute_y_read_c2(cpu: Context, pinout: Pinout, r: Pinout) -> Context {
    if !pinout.ctrl.rdy {
        cpu
    } else {
        spec_indexed_read(cpu, cpu.y, r.data)
    }
}

/// The requests the cycle `absolute_y_read_c2` puts on the bus, oldest first.
pub open spec fn spec_absolute_y_read_c2_requests(cpu: Context, pinout: Pinout) -> Seq<Pinout> {
    if !pinout.ctrl.rdy {
        Seq::empty()
    } else {
        seq![spec_read_request(pinout, spec_address(cpu.ops.bah, cpu.ops.bal.wrapping_add(cpu.y)))]
    }
}

pub fn absolute_y_read_c2<B: Bus>(cpu: &mut Context, bus: &mut B, pinout: Pinout) -> (r: Pinout)
    requires
        old(bus).ready(),
    ensures
        final(bus).ready(),
        final(bus).spec_clock() == old(bus).spec_clock(),
        *final(cpu) == spec_absolute_y_read_c2(*old(cpu), pinout, r),
        !pinout.ctrl.rdy ==> r == pinout && *final(cpu) == *old(cpu) && *final(bus) == *old(bus),
        pinout.ctrl.rdy ==> *final(cpu) == spec_indexed_read(*old(cpu), old(cpu).y, r.data),
        final(bus).spec_requests() == old(bus).spec_requests() + spec_absolute_y_read_c2_requests(*old(cpu), pinout),
{
    if pinout.ctrl.contains(Ctrl::RDY()) == false {
        return pinout;
    }
    let y = cpu.y;
    indexed_read(cpu, bus, pinout, y)
}

/// The cpu state after the cycle `indirect_y_read_c3` runs, `r` being the pinout it
/// returns.
pub open spec fn spec_indirect_y_read_c3(cpu: Context, pinout: Pinout, r: Pinout) -> Context {
    if !pinout.ctrl.rdy {
        cpu
    } else {
        spec_indexed_read(cpu, cpu.y, r.data)
    }
}

/// The requests the cycle `indirect_y_read_c3` puts on the bus, oldest first.
pub open spec fn spec_indirect_y_read_c3_requests(cpu: Context, pinout: Pinout) -> Seq<Pinout> {
    if !pinout.ctrl.rdy {
        Seq::empty()
    } else {
        seq![spec_read_request(pinout, spec_address(cpu.ops.bah, cpu.ops.bal.wrapping_add(cpu.y)))]
    }
}

pub fn indirect_y_read_c3<B: Bus>(cpu: &mut Context, bus: &mut B, pinout: Pinout) -> (r: Pinout)
    requires
        old(bus).ready(),
    ensures
        final(bus).ready(),
        final(bus).spec_clock() == old(bus).spec_clock(),
        *final(cpu) == spec_indirect_y_read_c3(*old(cpu), pinout, r),
        !pinout.ctrl.rdy ==> r == pinout && *final(cpu) == *old(cpu) && *final(bus) == *old(bus),
        pinout.ctrl.rdy ==> *final(cpu) == spec_indexed_read(*old(cpu), old(cpu).y, r.data),
        final(bus).spec_requests() == old(bus).spec_requests() + spec_indirect_y_read_c3_requests(*old(cpu), pinout),
{
    if pinout.ctrl.contains(Ctrl::RDY()) == false {
        return pinout;
    }
    let y = cpu.y;
    indexed_read(cpu, bus, pinout, y)
}

/// BRK pushes PCL; an NMI or IRQ arriving now hijacks the vector.
/// The cpu state after the cycle `brk_c2` runs, `r` being the pinout it
/// returns.
pub open spec fn spec_brk_c2(cpu: Context, pinout: Pinout, r: Pinout) -> Context {
    ({
        let s1 = spec_after_write(cpu);
        let s2 = Context { sp: s1.sp.wrapping_sub(1), ..s1 };
        if spec_nmi_asserted(s2) {
            Context {
                int_vec_low: NMI_VEC_LOW,
                nmi_detected: false,
                p: StatusRegister { interrupt_disable: true, ..s2.p },
                ..s2
            }
        } else if spec_irq_asserted(s2, r) {
            Context {
                int_vec_low: IRQ_BRK_VEC_LOW,
                p: StatusRegister { interrupt_disable: true, ..s2.p },
                ..s2
            }
        } else {
            s2
        }
    })
}

/// The requests the cycle `brk_c2` puts on the bus, oldest first.
pub open spec fn spec_brk_c2_requests(cpu: Context, pinout: Pinout) -> Seq<Pinout> {
    seq![spec_write_request(pinout, spec_address(0x01, cpu.sp), cpu.pc.pcl)]
}

pub fn brk_c2<B: Bus>(cpu: &mut Context, bus: &mut B, pinout: Pinout) -> (r: Pinout)
    requires
        old(bus).ready(),
    ensures
        final(bus).ready(),
        final(bus).spec_clock() == old(bus).spec_clock(),
        *final(cpu) == spec_brk_c2(*old(cpu), pinout, r),
        ({
            let s1 = spec_after_write(*old(cpu));
            let s2 = Context { sp: s1.sp.wrapping_sub(1), ..s1 };
            *final(cpu) == if spec_nmi_asserted(s2) {
                Context {
                    int_vec_low: NMI_VEC_LOW,
                    nmi_detected: false,
                    p: StatusRegister { interrupt_disable: true, ..s2.p },
                    ..s2
                }
            } else if spec_irq_asserted(s2, r) {
                Context {
                    int_vec_low: IRQ_BRK_VEC_LOW,
                    p: StatusRegister { interrupt_disable: true, ..s2.p },
                    ..s2
                }
            } else {
                s2
            }
        }),
        final(bus).spec_requests() == old(bus).spec_requests() + spec_brk_c2_requests(*old(cpu), pinout),
{
    let mut pinout = pinout;
    // write pcl to stack
    let addr = to_address(0x01, cpu.sp);
    let data = cpu.pc.pcl;
    pinout = write_cycle(cpu, bus, pinout, addr, data);
    // decrement sp
    cpu.sp = cpu.sp.wrapping_sub(1);
    // check for hijack
    if is_nmi_asserted(cpu) {
        cpu.int_vec_low = NMI_VEC_LOW;
        cpu.nmi_detected = false;
        cpu.p.interrupt_disable = true;
    } else if is_irq_asserted(cpu, pinout) {
        cpu.int_vec_low = IRQ_BRK_VEC_LOW;
        cpu.p.interrupt_disable = true;
    }
    pinout
}

/// IRQ pushes PCL; an NMI arriving now hijacks the vector.
/// The cpu state after the cycle `irq_c2` runs, `r` being the pinout it
/// returns.
pub open spec fn spec_irq_c2(cpu: Context, pinout: Pinout, r: Pinout) -> Context {
    ({
        let s1 = spec_after_write(cpu);
        let s2 = Context { sp: s1.sp.wrapping_sub(1), ..s1 };
        if spec_nmi_asserted(s2) {
            Context { int_vec_low: NMI_VEC_LOW, nmi_detected: false, ..s2 }
        } else {
            s2
        }
    })
}

/// The requests the cycle `irq_c2` puts on the bus, oldest first.
pub open spec fn spec_irq_c2_requests(cpu: Context, pinout: Pinout) -> Seq<Pinout> {
    seq![spec_write_request(pinout, spec_address(0x01, cpu.sp), cpu.pc.pcl)]
}

pub fn irq_c2<B: Bus>(cpu: &mut Context, bus: &mut B, pinout: Pinout) -> (r: Pinout)
    requires
        old(bus).ready(),
    ensures
        final(bus).ready(),
        final(bus).spec_clock() == old(bus).spec_clock(),
        *final(cpu) == spec_irq_c2(*old(cpu), pinout, r),
        ({
            let s1 = spec_after_write(*old(cpu));
            let s2 = Context { sp: s1.sp.wrapping_sub(1), ..s1 };
            *final(cpu) == if spec_nmi_asserted(s2) {
                Context { int_vec_low: NMI_VEC_LOW, nmi_detected: false, ..s2 }
            } else {
                s2
            }
        }),
        final(bus).spec_requests() == old(bus).spec_requests() + spec_irq_c2_requests(*old(cpu), pinout),
{
    let mut pinout = pinout;
    // write pcl to stack
    let addr = to_address(0x01, cpu.sp);
    let data = cpu.pc.pcl;
    pinout = write_cycle(cpu, bus, pinout, addr, data);
    // decrement sp
    cpu.sp = cpu.sp.wrapping_sub(1);
    // check for hijack
    if is_nmi_asserted(cpu) {
        cpu.int_vec_low = NMI_VEC_LOW;
        cpu.nmi_detected = false;
    }
    pinout
}

/// The cpu state after the cycle `single_byte_c1` runs, `r` being the pinout it
/// returns.
pub open spec fn spec_single_byte_c1<T: Instruction>(cpu: Context, pinout: Pinout, r: Pinout) -> Context {
    if !pinout.ctrl.rdy {
        cpu
    } else {
        ({
            let irq = spec_irq_asserted(cpu, pinout);
            let s1 = T::spec_execute(cpu);
            let s2 = spec_delayed_poll(s1, irq);
            if s2.ir.tm > 0xF {
                s2
            } else {
                spec_after_first_cycle(s2, r.data)
            }
        })
    }
}

/// The requests the cycle `single_byte_c1` puts on the bus, oldest first.
pub open spec fn spec_single_byte_c1_requests<T: Instruction>(cpu: Context, pinout: Pinout) -> Seq<Pinout> {
    if !pinout.ctrl.rdy {
        Seq::empty()
    } else {
        let s2 = spec_delayed_poll(T::spec_execute(cpu), spec_irq_asserted(cpu, pinout));
        if s2.ir.tm > 0xF { Seq::empty() } else {
            seq![spec_read_request(Pinout { ctrl: Ctrl { sync: true, ..pinout.ctrl }, ..pinout }, s2.pc.spec_value())]
        }
    }
}

pub fn single_byte_c1<B: Bus, T: Instruction>(cpu: &mut Context, bus: &mut B, pinout: Pinout) -> (r: Pinout)
    requires
        old(bus).ready(),
    ensures
        final(bus).ready(),
        final(bus).spec_clock() == old(bus).spec_clock(),
        *final(cpu) == spec_single_byte_c1::<T>(*old(cpu), pinout, r),
        !pinout.ctrl.rdy ==> r == pinout && *final(cpu) == *old(cpu) && *final(bus) == *old(bus),
        pinout.ctrl.rdy ==> ({
            let irq = spec_irq_asserted(*old(cpu), pinout);
            let s1 = T::spec_execute(*old(cpu));
            let s2 = spec_delayed_poll(s1, irq);
            if s2.ir.tm > 0xF {
                *final(cpu) == s2 && r == pinout
            } else {
                *final(cpu) == spec_after_first_cycle(s2, r.data)
            }
        }),
        final(bus).spec_requests() == old(bus).spec_requests() + spec_single_byte_c1_requests::<T>(*old(cpu), pinout),
{
    let mut pinout = pinout;
    if pinout.ctrl.contains(Ctrl::RDY()) == false {
        return pinout;
    }
    let irq_detected = is_irq_asserted(cpu, pinout);
    T::execute(cpu);
    delayed_poll_interrupts(cpu, irq_detected);
    // instructions don't have more than 7 cycles so must've been set to interrupt
    if cpu.ir.tm > 0xF {
        return pinout;
    }
    // if no interrupt do first cycle
    pinout = first_cycle(cpu, bus, pinout);
    pinout
}

/// The cpu state after the cycle `plp_c2` runs, `r` being the pinout it
/// returns.
pub open spec fn spec_plp_c2(cpu: Context, pinout: Pinout, r: Pinout) -> Context {
    if !pinout.ctrl.rdy {
        cpu
    } else {
        ({
            let s0 = cpu;
            let s1 = Context { sp: s0.sp.wrapping_add(1), ..s0 };
            let s2 = spec_after_read(s1, r.data);
            let irq = spec_irq_asserted(s2, r);
            let s3 = Context { p: StatusRegister::spec_from_bits(s2.ops.dl), ..s2 };
            spec_delayed_poll(s3, irq)
        })
    }
}

/// The requests the cycle `plp_c2` puts on the bus, oldest first.
pub open spec fn spec_plp_c2_requests(cpu: Context, pinout: Pinout) -> Seq<Pinout> {
    if !pinout.ctrl.rdy {
        Seq::empty()
    } else {
        let s1 = Context { sp: cpu.sp.wrapping_add(1), ..cpu };
        seq![spec_read_request(pinout, spec_address(0x1, s1.sp))]
    }
}

pub fn plp_c2<B: Bus>(cpu: &mut Context, bus: &mut B, pinout: Pinout) -> (r: Pinout)
    requires
        old(bus).ready(),
    ensures
        final(bus).ready(),
        final(bus).spec_clock() == old(bus).spec_clock(),
        *final(cpu) == spec_plp_c2(*old(cpu), pinout, r),
        !pinout.ctrl.rdy ==> r == pinout && *final(cpu) == *old(cpu) && *final(bus) == *old(bus),
        pinout.ctrl.rdy ==> ({
            let s0 = *old(cpu);
            let s1 = Context { sp: s0.sp.wrapping_add(1), ..s0 };
            let s2 = spec_after_read(s1, r.data);
            let irq = spec_irq_asserted(s2, r);
            let s3 = Context { p: StatusRegister::spec_from_bits(s2.ops.dl), ..s2 };
            *final(cpu) == spec_delayed_poll(s3, irq)
        }),
        final(bus).spec_requests() == old(bus).spec_requests() + spec_plp_c2_requests(*old(cpu), pinout),
{
    let mut pinout = pinout;
    if pinout.ctrl.contains(Ctrl::RDY()) == false {
        return pinout;
    }
    cpu.sp = cpu.sp.wrapping_add(1);
    let addr = to_address(0x1, cpu.sp);
    pinout = read_cycle(cpu, bus, pinout, addr);

    let irq_detected = is_irq_asserted(cpu, pinout);
    cpu.p = StatusRegister::from_bits_truncate(cpu.ops.dl);

    delayed_poll_interrupts(cpu, irq_detected);
    if cpu.ir.tm > 0xF {
        return pinout;
    }
    pinout
}

/// The cpu state after the cycle `pla_c2` runs, `r` being the pinout it
/// returns.
pub open spec fn spec_pla_c2(cpu: Context, pinout: Pinout, r: Pinout) -> Context {
    if !pinout.ctrl.rdy {
        cpu
    } else {
        ({
            let s0 = cpu;
            let s1 = Context { sp: s0.sp.wrapping_add(1), ..s0 };
            let s2 = spec_after_read(s1, r.data);
            let s3 = Context {
                a: s2.ops.dl,
                p: StatusRegister { zero: s2.ops.dl == 0, negative: s2.ops.dl >= 0x80, ..s2.p },
                ..s2
            };
            spec_poll(s3, r)
        })
    }
}

/// The requests the cycle `pla_c2` puts on the bus, oldest first.
pub open spec fn spec_pla_c2_requests(cpu: Context, pinout: Pinout) -> Seq<Pinout> {
    if !pinout.ctrl.rdy {
        Seq::empty()
    } else {
        let s1 = Context { sp: cpu.sp.wrapping_add(1), ..cpu };
        seq![spec_read_request(pinout, spec_address(0x1, s1.sp))]
    }
}

pub fn pla_c2<B: Bus>(cpu: &mut Context, bus: &mut B, pinout: Pinout) -> (r: Pinout)
    requires
        old(bus).ready(),
    ensures
        final(bus).ready(),
        final(bus).spec_clock() == old(bus).spec_clock(),
        *final(cpu) == spec_pla_c2(*old(cpu), pinout, r),
        !pinout.ctrl.rdy ==> r == pinout && *final(cpu) == *old(cpu) && *final(bus) == *old(bus),
        pinout.ctrl.rdy ==> ({
            let s0 = *old(cpu);
            let s1 = Context { sp: s0.sp.wrapping_add(1), ..s0 };
            let s2 = spec_after_read(s1, r.data);
            let s3 = Context {
                a: s2.ops.dl,
                p: StatusRegister { zero: s2.ops.dl == 0, negative: s2.ops.dl >= 0x80, ..s2.p },
                ..s2
            };
            *final(cpu) == spec_poll(s3, r)
        }),
        final(bus).spec_requests() == old(bus).spec_requests() + spec_pla_c2_requests(*old(cpu), pinout),
{
    let mut pinout = pinout;
    if pinout.ctrl.contains(Ctrl::RDY()) == false {
        return pinout;
    }
    cpu.sp = cpu.sp.wrapping_add(1);
    let addr = to_address(0x1, cpu.sp);
    pinout = read_cycle(cpu, bus, pinout, addr);
    cpu.a = cpu.ops.dl;

    if cpu.a == 0 {
        cpu.p.zero = true
    } else {
        cpu.p.zero = false
    };
    proof { lemma_u8_bits(cpu.a); }
    if (cpu.a & 0x80) == 0x80 {
        cpu.p.negative = true
    } else {
        cpu.p.negative = false
    };

    poll_interrupts(cpu, pinout);
    if cpu.ir.tm > 0xF {
        return pinout;
    }
    pinout
}

/// Branch, second cycle: the condition is evaluated; a taken branch adds
/// the signed offset to PCL and remembers whether PCH needs fixing.
pub open spec fn spec_branch_offset(s1: Context) -> Context {
    if s1.ops.offset > 0x7F {
        let off = (256 - s1.ops.offset) as u8;
        Context {
            ops: OpState { offset_neg: true, offset: off, offset_carry: s1.ops.offset_carry || s1.pc.pcl < off, ..s1.ops },
            pc: ProgramCounter { pcl: s1.pc.pcl.wrapping_sub(off), ..s1.pc },
            ..s1
        }
    } else {
        let off = s1.ops.offset;
        Context {
            ops: OpState { offset_carry: s1.ops.offset_carry || s1.pc.pcl + off > 255, ..s1.ops },
            pc: ProgramCounter { pcl: s1.pc.pcl.wrapping_add(off), ..s1.pc },
            ..s1
        }
    }
}

/// The cpu state after the cycle `branch_c1` runs, `r` being the pinout it
/// returns.
pub open spec fn spec_branch_c1<T: Instruction>(cpu: Context, pinout: Pinout, r: Pinout) -> Context {
    if !pinout.ctrl.rdy {
        cpu
    } else {
        ({
            let s1 = T::spec_execute(cpu);
            if !s1.ops.branch_taken {
                spec_after_first_cycle(s1, r.data)
            } else {
                spec_after_read(spec_branch_offset(s1), r.data)
            }
        })
    }
}

/// The requests the cycle `branch_c1` puts on the bus, oldest first.
pub open spec fn spec_branch_c1_requests<T: Instruction>(cpu: Context, pinout: Pinout) -> Seq<Pinout> {
    if !pinout.ctrl.rdy {
        Seq::empty()
    } else {
        let s1 = T::spec_execute(cpu);
        if !s1.ops.branch_taken { seq![spec_read_request(Pinout { ctrl: Ctrl { sync: true, ..pinout.ctrl }, ..pinout }, s1.pc.spec_value())] } else { seq![spec_read_request(pinout, spec_branch_offset(s1).pc.spec_value())] }
    }
}

pub fn branch_c1<B: Bus, T: Instruction>(cpu: &mut Context, bus: &mut B, pinout: Pinout) -> (r: Pinout)
    requires
        old(bus).ready(),
    ensures
        final(bus).ready(),
        final(bus).spec_clock() == old(bus).spec_clock(),
        *final(cpu) == spec_branch_c1::<T>(*old(cpu), pinout, r),
        !pinout.ctrl.rdy ==> r == pinout && *final(cpu) == *old(cpu) && *final(bus) == *old(bus),
        pinout.ctrl.rdy ==> ({
            let s1 = T::spec_execute(*old(cpu));
            if !s1.ops.branch_taken {
                *final(cpu) == spec_after_first_cycle(s1, r.data)
            } else {
                *final(cpu) == spec_after_read(spec_branch_offset(s1), r.data)
            }
        }),
        final(bus).spec_requests() == old(bus).spec_requests() + spec_branch_c1_requests::<T>(*old(cpu), pinout),
{
    let mut pinout = pinout;
    if pinout.ctrl.contains(Ctrl::RDY()) == false {
        return pinout;
    }
    T::execute(cpu);
    // fetch next opcode
    if cpu.ops.branch_taken == false {
        // first cycle of next instruction
        pinout = first_cycle(cpu, bus, pinout);
    }
    // add offset to pcl
    else {
        // offset is signed check if negative
        if cpu.ops.offset > 0x7F {
            cpu.ops.offset_neg = true;
            proof { lemma_u8_bits(cpu.ops.offset); }
            cpu.ops.offset = !cpu.ops.offset + 1;
            let pcl_temp = overflowing_sub(cpu.pc.pcl, cpu.ops.offset);
            if pcl_temp.1 == true {
                cpu.ops.offset_carry = true;
            }
            cpu.pc.pcl = pcl_temp.0;
        } else {
            let pcl_temp = overflowing_add(cpu.pc.pcl, cpu.ops.offset);
            if pcl_temp.1 == true {
                cpu.ops.offset_carry = true;
            }
            cpu.pc.pcl = pcl_temp.0;
        }
        let addr = cpu.pc.value();
        pinout = read_cycle(cpu, bus, pinout, addr);
    }
    pinout
}

/// Branch, third cycle: when PCL carried or borrowed PCH is fixed with an
/// extra read, otherwise the next instruction is fetched.
/// The cpu state after the cycle `branch_c2` runs, `r` being the pinout it
/// returns.
pub open spec fn spec_branch_c2(cpu: Context, pinout: Pinout, r: Pinout) -> Context {
    if !pinout.ctrl.rdy {
        cpu
    } else {
        ({
            let s0 = cpu;
            if s0.ops.offset_carry {
                let pch = if s0.ops.offset_neg { s0.pc.pch.wrapping_sub(1) } else { s0.pc.pch.wrapping_add(1) };
                let s1 = Context { pc: ProgramCounter { pch, ..s0.pc }, ..s0 };
                spec_poll(spec_after_read(s1, r.data), r)
            } else {
                let s1 = spec_poll(s0, pinout);
                if s1.ir.tm > 0xF {
                    s1
                } else {
                    spec_after_first_cycle(s1, r.data)
                }
            }
        })
    }
}

/// The requests the cycle `branch_c2` puts on the bus, oldest first.
pub open spec fn spec_branch_c2_requests(cpu: Context, pinout: Pinout) -> Seq<Pinout> {
    if !pinout.ctrl.rdy {
        Seq::empty()
    } else {
        if cpu.ops.offset_carry { let pch = if cpu.ops.offset_neg { cpu.pc.pch.wrapping_sub(1) } else { cpu.pc.pch.wrapping_add(1) }; seq![spec_read_request(pinout, ProgramCounter { pch, ..cpu.pc }.spec_value())] } else { let s1 = spec_poll(cpu, pinout); if s1.ir.tm > 0xF { Seq::empty() } else { seq![spec_read_request(Pinout { ctrl: Ctrl { sync: true, ..pinout.ctrl }, ..pinout }, s1.pc.spec_value())] } }
    }
}

pub fn branch_c2<B: Bus>(cpu: &mut Context, bus: &mut B, pinout: Pinout) -> (r: Pinout)
    requires
        old(bus).ready(),
    ensures
        final(bus).ready(),
        final(bus).spec_clock() == old(bus).spec_clock(),
        *final(cpu) == spec_branch_c2(*old(cpu), pinout, r),
        !pinout.ctrl.rdy ==> r == pinout && *final(cpu) == *old(cpu) && *final(bus) == *old(bus),
        pinout.ctrl.rdy ==> ({
            let s0 = *old(cpu);
            if s0.ops.offset_carry {
                let pch = if s0.ops.offset_neg { s0.pc.pch.wrapping_sub(1) } else { s0.pc.pch.wrapping_add(1) };
                let s1 = Context { pc: ProgramCounter { pch, ..s0.pc }, ..s0 };
                *final(cpu) == spec_poll(spec_after_read(s1, r.data), r)
            } else {
                let s1 = spec_poll(s0, pinout);
                if s1.ir.tm > 0xF {
                    *final(cpu) == s1 && r == pinout
                } else {
                    *final(cpu) == spec_after_first_cycle(s1, r.data)
                }
            }
        }),
        final(bus).spec_requests() == old(bus).spec_requests() + spec_branch_c2_requests(*old(cpu), pinout),
{
    let mut pinout = pinout;
    if pinout.ctrl.contains(Ctrl::RDY()) == false {
        return pinout;
    }
    // check if page boundry crossed
    if cpu.ops.offset_carry == true {
        if cpu.ops.offset_neg == true {
            cpu.pc.pch = cpu.pc.pch.wrapping_sub(1);
        } else {
            cpu.pc.pch = cpu.pc.pch.wrapping_add(1);
        }
        let addr = cpu.pc.value();
        pinout = read_cycle(cpu, bus, pinout, addr);
        poll_interrupts(cpu, pinout);
        if cpu.ir.tm > 0xF {
            return pinout;
        }
    } else {
        poll_interrupts(cpu, pinout);
        if cpu.ir.tm > 0xF {
            return pinout;
        }
        // if no interrupt do first cycle
        pinout = first_cycle(cpu, bus, pinout);
    }
    pinout
}

/// The offset byte of a branch read as a signed number.
pub open spec fn spec_signed_offset(o: u8) -> int {
    if o > 0x7F { o as int - 256 } else { o as int }
}

/// The target of a taken branch: the address after the operand, `pc`,
/// moved by the signed offset `o` (wrapping at 64 KB).
pub open spec fn spec_branch_target(pc: u16, o: u8) -> int {
    (pc as int + spec_signed_offset(o)) % 65536
}

/// A taken branch, from its second cycle on (`c0` before it, the condition
/// met, no page crossing pending yet; no interrupt pending at the third
/// cycle; the instruction's timing state is a real cycle): the second cycle reads at the target's low byte within the old
/// page; the third reads at the target, a fix-up read with the new page
/// when the page was crossed (then pc is the target), or else the next
/// opcode fetch, with SYNC high (then pc is past it).
#[verifier::spinoff_prover]
#[verifier::rlimit(40)]
pub proof fn lemma_taken_branch<T: Instruction>(c0: Context, pin1: Pinout, r1: Pinout, pin2: Pinout, r2: Pinout)
    requires
        pin1.ctrl.rdy,
        pin2.ctrl.rdy,
        T::spec_execute(c0).ops.branch_taken,
        !T::spec_execute(c0).ops.offset_carry,
        !T::spec_execute(c0).ops.offset_neg,
        T::spec_execute(c0).ir.tm < 0xF,
        !spec_nmi_asserted(spec_branch_c1::<T>(c0, pin1, r1)),
        !spec_irq_asserted(spec_branch_c1::<T>(c0, pin1, r1), pin2),
        !spec_irq_asserted(spec_branch_c1::<T>(c0, pin1, r1), r2),
    ensures
        spec_branch_c1_requests::<T>(c0, pin1).len() == 1,
        spec_branch_c1_requests::<T>(c0, pin1)[0].address as int == T::spec_execute(c0).pc.pch as int * 256
            + (T::spec_execute(c0).pc.pcl as int + spec_signed_offset(T::spec_execute(c0).ops.offset)) % 256,
        spec_branch_c2_requests(spec_branch_c1::<T>(c0, pin1, r1), pin2).len() == 1,
        spec_branch_c2_requests(spec_branch_c1::<T>(c0, pin1, r1), pin2)[0].address as int
            == spec_branch_target(T::spec_execute(c0).pc.spec_value(), T::spec_execute(c0).ops.offset),
        spec_branch_c2_requests(spec_branch_c1::<T>(c0, pin1, r1), pin2)[0].ctrl.rw,
        spec_branch_c1::<T>(c0, pin1, r1).ops.offset_carry ==> spec_branch_c2(spec_branch_c1::<T>(c0, pin1, r1), pin2, r2).pc.spec_value() as int
            == spec_branch_target(T::spec_execute(c0).pc.spec_value(), T::spec_execute(c0).ops.offset),
        !spec_branch_c1::<T>(c0, pin1, r1).ops.offset_carry ==> spec_branch_c2_requests(spec_branch_c1::<T>(c0, pin1, r1), pin2)[0].ctrl.sync
            && spec_branch_c2(spec_branch_c1::<T>(c0, pin1, r1), pin2, r2).pc.spec_value() as int
            == (spec_branch_target(T::spec_execute(c0).pc.spec_value(), T::spec_execute(c0).ops.offset) + 1) % 65536,
{
    let s = T::spec_execute(c0);
    let pcl = s.pc.pcl;
    let pch = s.pc.pch;
    let o = s.ops.offset;
    let so = spec_signed_offset(o);
    assert(s.pc.spec_value() as int == pch as int * 256 + pcl as int);
    let b = spec_branch_offset(s);
    let c1 = spec_branch_c1::<T>(c0, pin1, r1);
    assert(c1 == spec_after_read(b, r1.data));
    assert(b.pc.pch == pch);
    assert(b.pc.pcl as int == (pcl as int + so) % 256);
    assert(b.ops.offset_carry == (pcl as int + so < 0 || pcl as int + so > 255));
    assert(b.ops.offset_neg == (o > 0x7F));
    let t = spec_branch_target(s.pc.spec_value(), o);
    if c1.ops.offset_carry {
        let npch = if c1.ops.offset_neg { c1.pc.pch.wrapping_sub(1) } else { c1.pc.pch.wrapping_add(1) };
        let x = Context { pc: ProgramCounter { pch: npch, ..c1.pc }, ..c1 };
        assert(x.pc.spec_value() as int == t);
        assert(spec_poll(spec_after_read(x, r2.data), r2) == spec_after_read(x, r2.data));
    } else {
        assert(c1.pc.spec_value() as int == t);
        assert(spec_poll(c1, pin2) == c1);
    }
}

} // verus!
