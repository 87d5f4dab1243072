//! The internal registers of the 6502.

use vstd::prelude::*;
use super::flag_bit;

verus! {

pub const RST_VEC_LOW: u8 = 0xFC;
pub const NMI_VEC_LOW: u8 = 0xFA;
pub const IRQ_BRK_VEC_LOW: u8 = 0xFE;

pub const RST_TM: u8 = 0x10;
pub const NMI_TM: u8 = 0x20;
pub const IRQ_TM: u8 = 0x30;

/// The processor status register `NV-- DIZC`.
///
/// Bits 4 and 5 have no storage in the cpu: they only exist on the copy of
/// the register pushed to the stack.
#[derive(Clone, Copy, PartialEq, Eq, Structural, Debug)]
pub struct StatusRegister {
    pub carry: bool,
    pub zero: bool,
    pub interrupt_disable: bool,
    pub decimal: bool,
    pub overflow: bool,
    pub negative: bool,
}

impl StatusRegister {
    /// The register as the byte `NV00DIZC`.
    pub open spec fn spec_bits(&self) -> u8 {
        (flag_bit(self.carry, 0x01) + flag_bit(self.zero, 0x02) + flag_bit(self.interrupt_disable, 0x04)
            + flag_bit(self.decimal, 0x08) + flag_bit(self.overflow, 0x40) + flag_bit(self.negative, 0x80)) as u8
    }

    /// The register read back from a byte; bits 4 and 5 are dropped.
    pub open spec fn spec_from_bits(bits: u8) -> StatusRegister {
        StatusRegister {
            carry: bits & 0x01 != 0,
            zero: bits & 0x02 != 0,
            interrupt_disable: bits & 0x04 != 0,
            decimal: bits & 0x08 != 0,
            overflow: bits & 0x40 != 0,
            negative: bits & 0x80 != 0,
        }
    }

    pub fn bits(&self) -> (r: u8)
        ensures r == self.spec_bits(),
    {
        (if self.carry { 0x01u8 } else { 0 }) + (if self.zero { 0x02u8 } else { 0 })
            + (if self.interrupt_disable { 0x04u8 } else { 0 }) + (if self.decimal { 0x08u8 } else { 0 })
            + (if self.overflow { 0x40u8 } else { 0 }) + (if self.negative { 0x80u8 } else { 0 })
    }

    pub fn from_bits_truncate(bits: u8) -> (r: StatusRegister)
        ensures r == StatusRegister::spec_from_bits(bits),
    {
        StatusRegister {
            carry: bits & 0x01 != 0,
            zero: bits & 0x02 != 0,
            interrupt_disable: bits & 0x04 != 0,
            decimal: bits & 0x08 != 0,
            overflow: bits & 0x40 != 0,
            negative: bits & 0x80 != 0,
        }
    }

    pub open spec fn spec_power_on() -> StatusRegister {
        StatusRegister {
            carry: false,
            zero: false,
            interrupt_disable: true,
            decimal: false,
            overflow: false,
            negative: false,
        }
    }

    /// At power on only interrupts are disabled.
    pub fn from_power_on() -> (r: StatusRegister)
        ensures r == StatusRegister::spec_power_on(),
    {
        StatusRegister {
            carry: false,
            zero: false,
            interrupt_disable: true,
            decimal: false,
            overflow: false,
            negative: false,
        }
    }

    /// The byte pushed by BRK and PHP: bits 4 (B) and 5 set.
    pub fn push_with_b(&mut self) -> (r: u8)
        ensures
            *final(self) == *old(self),
            r == old(self).spec_bits() | 0x30,
    {
        self.bits() | 0b00110000
    }

    /// The byte pushed by IRQ and NMI: bit 5 set, bit 4 (B) clear.
    pub fn push_without_b(&mut self) -> (r: u8)
        ensures
            *final(self) == *old(self),
            r == old(self).spec_bits() | 0x20,
    {
        self.bits() | 0b00100000
    }
}

/// Whatever byte the status register is pushed as, pulling it back restores
/// the register: bits 4 and 5 only exist on the stack.
pub proof fn lemma_status_push_pull(p: StatusRegister, extra: u8)
    requires
        extra == 0 || extra == 0x20 || extra == 0x30,
    ensures
        StatusRegister::spec_from_bits(p.spec_bits() | extra) == p,
        StatusRegister::spec_from_bits(p.spec_bits()) == p,
{
    let a: u8 = if p.carry { 1 } else { 0 };
    let b: u8 = if p.zero { 2 } else { 0 };
    let c: u8 = if p.interrupt_disable { 4 } else { 0 };
    let d: u8 = if p.decimal { 8 } else { 0 };
    let e: u8 = if p.overflow { 0x40 } else { 0 };
    let f: u8 = if p.negative { 0x80 } else { 0 };
    assert(p.spec_bits() == (a + b + c + d + e + f) as u8);
    assert({
        let v = (a + b + c + d + e + f) as u8;
        &&& ((v | extra) & 0x01 != 0) == (a == 1)
        &&& ((v | extra) & 0x02 != 0) == (b == 2)
        &&& ((v | extra) & 0x04 != 0) == (c == 4)
        &&& ((v | extra) & 0x08 != 0) == (d == 8)
        &&& ((v | extra) & 0x40 != 0) == (e == 0x40)
        &&& ((v | extra) & 0x80 != 0) == (f == 0x80)
        &&& (v & 0x01 != 0) == (a == 1)
        &&& (v & 0x02 != 0) == (b == 2)
        &&& (v & 0x04 != 0) == (c == 4)
        &&& (v & 0x08 != 0) == (d == 8)
        &&& (v & 0x40 != 0) == (e == 0x40)
        &&& (v & 0x80 != 0) == (f == 0x80)
    }) by (bit_vector)
        requires
            a == 0 || a == 1,
            b == 0 || b == 2,
            c == 0 || c == 4,
            d == 0 || d == 8,
            e == 0 || e == 0x40,
            f == 0 || f == 0x80,
            extra == 0 || extra == 0x20 || extra == 0x30;
}

/// The 16 bit program counter, held as two 8 bit registers: the 6502 needs
/// two cycles to load both halves.
#[derive(PartialEq, Eq, Structural, Debug, Clone, Copy)]
pub struct ProgramCounter {
    pub pcl: u8,
    pub pch: u8,
}

/// The 16 bit address with high byte `hb` and low byte `lb`.
pub open spec fn spec_address(hb: u8, lb: u8) -> u16 {
    (hb as int * 256 + lb as int) as u16
}

impl ProgramCounter {
    pub open spec fn spec_value(self) -> u16 {
        spec_address(self.pch, self.pcl)
    }

    pub open spec fn spec_from_value(v: u16) -> ProgramCounter {
        ProgramCounter { pcl: (v % 256) as u8, pch: (v / 256) as u8 }
    }

    /// The program counter one byte further on, wrapping at the end of the
    /// address space.
    pub open spec fn spec_incremented(self) -> ProgramCounter {
        ProgramCounter::spec_from_value(self.spec_value().wrapping_add(1))
    }

    pub fn new() -> (r: ProgramCounter)
        ensures r.pcl == 0 && r.pch == 0,
    {
        ProgramCounter { pch: 0, pcl: 0 }
    }

    pub fn value(&self) -> (r: u16)
        ensures r == self.spec_value(),
    {
        (self.pch as u16) * 256 + (self.pcl as u16)
    }

    pub fn from_value(v: u16) -> (r: ProgramCounter)
        ensures r == ProgramCounter::spec_from_value(v),
    {
        ProgramCounter { pcl: (v % 256) as u8, pch: (v / 256) as u8 }
    }

    pub fn increment(&mut self)
        ensures *final(self) == old(self).spec_incremented(),
    {
        let pc: u16 = self.value();
        *self = ProgramCounter::from_value(pc.wrapping_add(1));
    }
}

/// Splitting a 16 bit value into bytes and joining them again gives the
/// value back, and the other way round.
pub proof fn lemma_pc_roundtrip(pc: ProgramCounter, v: u16)
    ensures
        ProgramCounter::spec_from_value(pc.spec_value()) == pc,
        ProgramCounter::spec_from_value(v).spec_value() == v,
{
}

impl From<ProgramCounter> for u16 {
    fn from(pc: ProgramCounter) -> (r: u16) {
        pc.value()
    }
}

impl vstd::std_specs::convert::FromSpecImpl<ProgramCounter> for u16 {
    open spec fn obeys_from_spec() -> bool {
        true
    }

    open spec fn from_spec(pc: ProgramCounter) -> u16 {
        pc.spec_value()
    }
}

impl From<u16> for ProgramCounter {
    fn from(b: u16) -> (r: ProgramCounter) {
        ProgramCounter::from_value(b)
    }
}

impl vstd::std_specs::convert::FromSpecImpl<u16> for ProgramCounter {
    open spec fn obeys_from_spec() -> bool {
        true
    }

    open spec fn from_spec(b: u16) -> ProgramCounter {
        ProgramCounter::spec_from_value(b)
    }
}

/// The opcode being executed and the timing state within it.
#[derive(PartialEq, Eq, Structural, Debug, Clone, Copy)]
pub struct InstructionRegister {
    pub opcode: u8,
    pub tm: u8,
}

impl InstructionRegister {
    /// The dispatch code `opcode:tm` that selects the next cycle.
    pub open spec fn spec_code(self) -> u16 {
        spec_address(self.opcode, self.tm)
    }

    pub open spec fn spec_incremented(self) -> InstructionRegister {
        InstructionRegister { opcode: self.opcode, tm: self.tm.wrapping_add(1) }
    }

    pub fn code(&self) -> (r: u16)
        ensures r == self.spec_code(),
    {
        (self.opcode as u16) * 256 + (self.tm as u16)
    }

    pub fn new() -> (r: InstructionRegister)
        ensures r.opcode == 0 && r.tm == 0,
    {
        InstructionRegister { opcode: 0, tm: 0 }
    }

    pub fn reset(&mut self, opcode: u8)
        ensures final(self).opcode == opcode && final(self).tm == 0,
    {
        self.opcode = opcode;
        self.tm = 0;
    }

    pub fn reset_to_rst(&mut self)
        ensures final(self).opcode == 0 && final(self).tm == RST_TM,
    {
        self.opcode = 0x00;
        self.tm = RST_TM;
    }

    pub fn reset_to_nmi(&mut self)
        ensures final(self).opcode == 0 && final(self).tm == NMI_TM,
    {
        self.opcode = 0x00;
        self.tm = NMI_TM;
    }

    pub fn reset_to_irq(&mut self)
        ensures final(self).opcode == 0 && final(self).tm == IRQ_TM,
    {
        self.opcode = 0x00;
        self.tm = IRQ_TM;
    }

    pub fn increment(&mut self)
        ensures *final(self) == old(self).spec_incremented(),
    {
        self.tm = self.tm.wrapping_add(1);
    }
}

impl From<InstructionRegister> for u16 {
    fn from(ir: InstructionRegister) -> (r: u16) {
        ir.code()
    }
}

impl vstd::std_specs::convert::FromSpecImpl<InstructionRegister> for u16 {
    open spec fn obeys_from_spec() -> bool {
        true
    }

    open spec fn from_spec(ir: InstructionRegister) -> u16 {
        ir.spec_code()
    }
}

impl From<u16> for InstructionRegister {
    fn from(b: u16) -> (r: InstructionRegister) {
        InstructionRegister { tm: (b % 256) as u8, opcode: (b / 256) as u8 }
    }
}

impl vstd::std_specs::convert::FromSpecImpl<u16> for InstructionRegister {
    open spec fn obeys_from_spec() -> bool {
        true
    }

    open spec fn from_spec(b: u16) -> InstructionRegister {
        InstructionRegister { tm: (b % 256) as u8, opcode: (b / 256) as u8 }
    }
}

/// Intermediate data held during the cycles of an instruction; the 6502
/// keeps it in internal registers or the ALU.
#[derive(PartialEq, Eq, Structural, Debug, Clone, Copy)]
pub struct OpState {
    /// base address: the index location of indexed addressing modes
    pub bal: u8,
    pub bah: u8,
    /// effective address: where the data is found
    pub adl: u8,
    pub adh: u8,
    /// indirect address: the operand of (Indirect),Y
    pub ial: u8,
    pub iah: u8,
    /// branch offset
    pub offset: u8,
    pub offset_carry: bool,
    pub offset_neg: bool,
    pub branch_taken: bool,
    /// data input latch
    pub dl: u8,
}

impl OpState {
    pub open spec fn spec_new() -> OpState {
        OpState {
            bal: 0,
            bah: 0,
            adl: 0,
            adh: 0,
            ial: 0,
            iah: 0,
            offset: 0,
            offset_carry: false,
            offset_neg: false,
            branch_taken: false,
            dl: 0,
        }
    }

    pub fn new() -> (r: OpState)
        ensures r == OpState::spec_new(),
    {
        OpState {
            bal: 0,
            bah: 0,
            adl: 0,
            adh: 0,
            ial: 0,
            iah: 0,
            offset: 0,
            offset_carry: false,
            offset_neg: false,
            branch_taken: false,
            dl: 0,
        }
    }

    pub fn reset(&mut self)
        ensures *final(self) == OpState::spec_new(),
    {
        self.bal = 0;
        self.bah = 0;
        self.adl = 0;
        self.adh = 0;
        self.ial = 0;
        self.iah = 0;
        self.offset = 0;
        self.offset_carry = false;
        self.offset_neg = false;
        self.branch_taken = false;
        self.dl = 0;
    }
}

/// The internal state of the cpu.
#[derive(Debug, Clone, Copy, PartialEq, Eq, Structural)]
pub struct Context {
    pub cycle: u64,
    pub ops: OpState,
    pub ir: InstructionRegister,
    pub p: StatusRegister,
    pub pc: ProgramCounter,
    pub a: u8,
    pub x: u8,
    pub y: u8,
    pub sp: u8,
    pub int_vec_low: u8,
    pub nmi_detected: bool,
}

impl Context {
    pub open spec fn spec_new() -> Context {
        Context {
            a: 0,
            x: 0,
            y: 0,
            sp: 0,
            cycle: 0,
            ir: InstructionRegister { opcode: 0, tm: 0 },
            p: StatusRegister::spec_power_on(),
            pc: ProgramCounter { pcl: 0, pch: 0 },
            ops: OpState::spec_new(),
            int_vec_low: IRQ_BRK_VEC_LOW,
            nmi_detected: false,
        }
    }

    pub fn new() -> (r: Context)
        ensures r == Context::spec_new(),
    {
        Context {
            a: 0,
            x: 0,
            y: 0,
            sp: 0,
            cycle: 0,
            ir: InstructionRegister::new(),
            p: StatusRegister::from_power_on(),
            pc: ProgramCounter::new(),
            ops: OpState::new(),
            int_vec_low: IRQ_BRK_VEC_LOW,
            nmi_detected: false,
        }
    }

    /// Clears the registers; the status register keeps its flags but
    /// interrupts become disabled, and the program counter is kept.
    pub fn reset(&mut self)
        ensures
            *final(self) == (Context {
                p: StatusRegister { interrupt_disable: true, ..old(self).p },
                pc: old(self).pc,
                ..Context::spec_new()
            }),
    {
        self.a = 0;
        self.x = 0;
        self.y = 0;
        self.sp = 0;
        self.cycle = 0;
        self.ir = InstructionRegister::new();
        self.p.interrupt_disable = true;
        self.ops = OpState::new();
        self.int_vec_low = IRQ_BRK_VEC_LOW;
        self.nmi_detected = false;
    }
}

} // verus!
