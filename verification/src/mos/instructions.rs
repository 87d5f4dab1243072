//! The operations of the 6502 instructions: what each does to the registers
//! once its operand is in the data latch `ops.dl`.

use vstd::prelude::*;
use super::cpu_state::{Context, OpState, ProgramCounter, StatusRegister};

verus! {

pub open spec fn carry_in(p: StatusRegister) -> int {
    if p.carry { 1 } else { 0 }
}

/// The status register with Z and N set from `v`.
pub open spec fn with_nz(p: StatusRegister, v: u8) -> StatusRegister {
    StatusRegister { zero: v == 0, negative: v >= 0x80, ..p }
}

pub fn set_zero(x: u8) -> (r: bool)
    ensures r == (x == 0),
{
    if x == 0 { true } else { false }
}

pub fn set_negative(x: u8) -> (r: bool)
    ensures r == (x >= 0x80),
{
    proof { lemma_u8_bits(x); }
    if (x & 0x80) == 0x80 { true } else { false }
}

/// The bit facts of a byte that the instructions rely on.
pub proof fn lemma_u8_bits(x: u8)
    ensures
        ((x & 0x80) == 0x80) == (x >= 0x80),
        ((x & 0x80) > 0) == (x >= 0x80),
        ((x & 0x80) != 0) == (x >= 0x80),
        ((x & 0x01) > 0) == (x % 2 == 1),
        (x & 0x0F) <= 15,
        (x >> 4) <= 15,
        x >> 4 == x / 16,
        x & 0x0F == x % 16,
        x ^ 0xFF == 255 - x,
        !x == 255 - x,
        (x / 2) & 0x7F == x / 2,
        x % 2 == 0 ==> (x | 1) == x + 1,
        x | 0 == x,
        x < 0x80 ==> (x | 0x80) == x + 0x80,
{
    assert(((x & 0x80) == 0x80) == (x >= 0x80)
        && ((x & 0x80) > 0) == (x >= 0x80)
        && ((x & 0x80) != 0) == (x >= 0x80)
        && ((x & 0x01) > 0) == (x % 2 == 1)
        && (x & 0x0F) <= 15
        && (x >> 4) <= 15
        && x >> 4 == x / 16
        && x & 0x0F == x % 16
        && x ^ 0xFF == 255 - x
        && !x == 255 - x
        && (x / 2) & 0x7F == x / 2
        && (x % 2 == 0 ==> (x | 1) == x + 1)
        && x | 0 == x
        && (x < 0x80 ==> (x | 0x80) == x + 0x80)) by (bit_vector);
}

/// The sign bit of `(a ^ r) & (b ^ r)`: set exactly when `r` differs in sign
/// from both `a` and `b`.
pub proof fn lemma_sign_overflow_bits(a: u8, b: u8, r: u8)
    ensures
        (((a ^ r) & (b ^ r) & 0x80) != 0) == ((a >= 0x80) != (r >= 0x80) && (b >= 0x80) != (r >= 0x80)),
{
    assert((((a ^ r) & (b ^ r) & 0x80) != 0) == ((a >= 0x80) != (r >= 0x80) && (b >= 0x80) != (r >= 0x80))) by (bit_vector);
}

/// What an instruction does to the cpu once its operand is latched.
pub trait Instruction {
    spec fn spec_execute(cpu: Context) -> Context;

    fn execute(cpu: &mut Context)
        ensures
            *final(cpu) == Self::spec_execute(*old(cpu)),
    ;
}

/// Binary add with carry of the operand to A. V is signed overflow: the
/// result's sign differs from the signs of both A and the operand.
pub open spec fn adc_binary(cpu: Context) -> Context {
    let sum = cpu.a + cpu.ops.dl + carry_in(cpu.p);
    let r = (sum % 256) as u8;
    Context {
        a: r,
        p: StatusRegister {
            carry: sum > 255,
            overflow: (cpu.a >= 0x80) != (r >= 0x80) && (cpu.ops.dl >= 0x80) != (r >= 0x80),
            zero: r == 0,
            negative: r >= 0x80,
            ..cpu.p
        },
        ..cpu
    }
}

/// Binary subtract with borrow (carry clear) of the operand from A.
pub open spec fn sbc_binary(cpu: Context) -> Context {
    let diff = cpu.a - cpu.ops.dl - (1 - carry_in(cpu.p));
    let r = (diff % 256) as u8;
    Context {
        a: r,
        p: StatusRegister {
            carry: diff >= 0,
            overflow: (cpu.a >= 0x80) != (r >= 0x80) && (cpu.ops.dl >= 0x80) == (r >= 0x80),
            zero: r == 0,
            negative: r >= 0x80,
            ..cpu.p
        },
        ..cpu
    }
}

fn exec_adc_binary(cpu: &mut Context)
    ensures
        *final(cpu) == adc_binary(*old(cpu)),
{
    let c: u16 = if cpu.p.carry { 1 } else { 0 };
    let sum = (cpu.a as u16) + (cpu.ops.dl as u16) + c;
    cpu.p.carry = if sum > 255 { true } else { false };

    let result = (sum % 256) as u8;
    let a0 = cpu.a;
    proof { lemma_sign_overflow_bits(a0, cpu.ops.dl, result); }
    cpu.a = result;
    cpu.p.overflow = ((a0 ^ result) & (cpu.ops.dl ^ result) & 0x80) != 0;
    cpu.p.zero = set_zero(cpu.a);
    cpu.p.negative = set_negative(cpu.a);
}

#[verifier::rlimit(50)]
#[verifier::spinoff_prover]
#[verifier::rlimit(40)]
fn exec_sbc_binary(cpu: &mut Context)
    ensures
        *final(cpu) == sbc_binary(*old(cpu)),
{
    proof { lemma_u8_bits(cpu.ops.dl); }
    let dl = cpu.ops.dl ^ 0xFF;
    let c: u16 = if cpu.p.carry { 1 } else { 0 };
    let sum = (cpu.a as u16) + (dl as u16) + c;
    let result = (sum % 256) as u8;
    proof {
        lemma_sign_overflow_bits(cpu.a, dl, result);
        lemma_u8_bits(result);
        let diff = cpu.a - cpu.ops.dl - (1 - carry_in(cpu.p));
        assert(sum == diff + 256);
        assert((diff + 256) % 256 == diff % 256);
    }
    cpu.p.carry = if sum > 255 { true } else { false };
    cpu.p.overflow = if ((cpu.a ^ result) & (dl ^ result) & 0x80) != 0 { true } else { false };
    cpu.a = result;
    cpu.p.negative = set_negative(cpu.a);
    cpu.p.zero = set_zero(cpu.a);
}

/// Decimal mode add, as MAME's 6502 computes it: each nibble is added and
/// corrected by 6 when it passes 9; Z comes from the binary sum, N and V from
/// the high nibble before its correction.
pub open spec fn adc_decimal(cpu: Context) -> Context {
    let a = cpu.a;
    let m = cpu.ops.dl;
    let c: u8 = if cpu.p.carry { 1 } else { 0 };
    let al0 = ((a & 0x0F) + (m & 0x0F) + c) as u8;
    let al = if al0 > 9 { (al0 + 6) as u8 } else { al0 };
    let ah0 = ((a >> 4) + (m >> 4) + (if al > 0x0F { 1u8 } else { 0u8 })) as u8;
    let zero = a.wrapping_add(m).wrapping_add(c) == 0;
    let negative = !zero && (ah0 & 0x8) > 0;
    let overflow = (!(a ^ m) & (a ^ (ah0 << 4)) & 0x80) > 0;
    let ah = if ah0 > 9 { (ah0 + 6) as u8 } else { ah0 };
    Context {
        a: (ah << 4) | (al & 0x0F),
        p: StatusRegister { carry: ah > 15, overflow, zero, negative, ..cpu.p },
        ..cpu
    }
}

/// Decimal mode subtract, as MAME's 6502 computes it: each nibble is
/// subtracted and corrected by 6 when it borrows; Z, N and V come from the
/// binary difference, and C is set when the subtraction did not borrow.
pub open spec fn sbc_decimal(cpu: Context) -> Context {
    let a = cpu.a;
    let m = cpu.ops.dl;
    let c: u8 = if cpu.p.carry { 1 } else { 0 };
    let diff: u16 = (a as u16).wrapping_sub(m as u16).wrapping_sub(c as u16);
    let al0 = (a & 0x0F).wrapping_sub(m & 0x0F).wrapping_sub(c);
    let al = if al0 >= 0x80 { (al0 - 6) as u8 } else { al0 };
    let ah0 = (a >> 4).wrapping_sub(m >> 4).wrapping_sub(if al0 >= 0x80 { 1u8 } else { 0u8 });
    let zero = diff as u8 == 0;
    let negative = !zero && (diff & 0x80) > 0;
    let overflow = (((a as u16) ^ (m as u16)) & ((a as u16) ^ diff) & 0x80) > 0;
    let ah = if ah0 >= 0x80 { (ah0 - 6) as u8 } else { ah0 };
    Context {
        a: (ah << 4) | (al & 0x0F),
        p: StatusRegister { carry: diff & 0xFF00 == 0, overflow, zero, negative, ..cpu.p },
        ..cpu
    }
}

pub struct AdcNoDec {}

impl Instruction for AdcNoDec {
    open spec fn spec_execute(cpu: Context) -> Context {
        adc_binary(cpu)
    }

    fn execute(cpu: &mut Context) {
        exec_adc_binary(cpu);
    }
}

pub struct Adc {}

impl Instruction for Adc {
    open spec fn spec_execute(cpu: Context) -> Context {
        if !cpu.p.decimal { adc_binary(cpu) } else { adc_decimal(cpu) }
    }

    fn execute(cpu: &mut Context) {
        if cpu.p.decimal == false {
            exec_adc_binary(cpu);
        } else {
            // decimal mode (MAME implementation)
            exec_adc_decimal(cpu);
        }
    }
}

fn exec_adc_decimal(cpu: &mut Context)
    ensures
        *final(cpu) == adc_decimal(*old(cpu)),
{
    proof {
        lemma_u8_bits(cpu.a);
        lemma_u8_bits(cpu.ops.dl);
    }
    let c: u8 = if cpu.p.carry == true { 1 } else { 0 };
    cpu.p.carry = false;
    cpu.p.overflow = false;
    cpu.p.negative = false;
    cpu.p.zero = false;

    let mut al = (cpu.a & 0x0F) + (cpu.ops.dl & 0x0F) + c;
    if al > 9 {
        al += 6;
    }
    let mut ah = (cpu.a >> 4) + (cpu.ops.dl >> 4) + (if al > 0x0F { 1u8 } else { 0 });

    if (cpu.a.wrapping_add(cpu.ops.dl)).wrapping_add(c) == 0 {
        cpu.p.zero = true;
    } else if (ah & 0x8) > 0 {
        cpu.p.negative = true;
    }
    if (!(cpu.a ^ cpu.ops.dl) & (cpu.a ^ (ah << 4)) & 0x80) > 0 {
        cpu.p.overflow = true;
    }
    if ah > 9 {
        ah += 6;
    }
    if ah > 15 {
        cpu.p.carry = true;
    }
    cpu.a = (ah << 4) | (al & 0x0F);
}

pub struct And {}

impl Instruction for And {
    open spec fn spec_execute(cpu: Context) -> Context {
        let a = cpu.a & cpu.ops.dl;
        Context { a, p: with_nz(cpu.p, a), ..cpu }
    }

    fn execute(cpu: &mut Context) {
        let a = cpu.a & cpu.ops.dl;
        cpu.a = a;
        cpu.p.zero = set_zero(cpu.a);
        cpu.p.negative = set_negative(cpu.a);
    }
}

/// Shift left: bit 7 goes to carry.
pub open spec fn spec_asl(p: StatusRegister, v: u8) -> (u8, StatusRegister) {
    let r = ((v * 2) % 256) as u8;
    (r, StatusRegister { carry: v >= 0x80, ..with_nz(p, r) })
}

/// Shift right: bit 0 goes to carry.
pub open spec fn spec_lsr(p: StatusRegister, v: u8) -> (u8, StatusRegister) {
    let r = v / 2;
    (r, StatusRegister { carry: v % 2 == 1, ..with_nz(p, r) })
}

/// Rotate left through carry.
pub open spec fn spec_rol(p: StatusRegister, v: u8) -> (u8, StatusRegister) {
    let r = ((v * 2) % 256 + carry_in(p)) as u8;
    (r, StatusRegister { carry: v >= 0x80, ..with_nz(p, r) })
}

/// Rotate right through carry.
pub open spec fn spec_ror(p: StatusRegister, v: u8) -> (u8, StatusRegister) {
    let r = (v / 2 + 128 * carry_in(p)) as u8;
    (r, StatusRegister { carry: v % 2 == 1, ..with_nz(p, r) })
}

fn exec_asl(p: &mut StatusRegister, v: u8) -> (r: u8)
    ensures
        (r, *final(p)) == spec_asl(*old(p), v),
{
    proof { lemma_u8_bits(v); }
    let new_carry = if (v & 0x80) > 0 { true } else { false };
    let r = v.wrapping_mul(2);
    p.carry = new_carry;
    p.zero = set_zero(r);
    p.negative = set_negative(r);
    r
}

fn exec_lsr(p: &mut StatusRegister, v: u8) -> (r: u8)
    ensures
        (r, *final(p)) == spec_lsr(*old(p), v),
{
    proof { lemma_u8_bits(v); }
    let old_carry = if (v & 0x01) > 0 { true } else { false };
    let mut r = v / 2;
    // clear bit 7
    r &= 0b01111111;
    p.carry = old_carry;
    p.zero = set_zero(r);
    p.negative = set_negative(r);
    r
}

fn exec_rol(p: &mut StatusRegister, v: u8) -> (r: u8)
    ensures
        (r, *final(p)) == spec_rol(*old(p), v),
{
    proof { lemma_u8_bits(v); }
    let new_carry = if (v & 0x80) > 0 { true } else { false };
    let mut r = v.wrapping_mul(2);
    proof { lemma_u8_bits(r); }
    r |= if p.carry { 1u8 } else { 0 };
    p.carry = new_carry;
    p.negative = set_negative(r);
    p.zero = set_zero(r);
    r
}

fn exec_ror(p: &mut StatusRegister, v: u8) -> (r: u8)
    ensures
        (r, *final(p)) == spec_ror(*old(p), v),
{
    proof { lemma_u8_bits(v); lemma_u8_bits(v / 2); }
    let new_carry = if (v & 0x01) > 0 { true } else { false };
    let mut r = v / 2;
    r |= if p.carry { 0x80u8 } else { 0 };
    p.carry = new_carry;
    p.zero = set_zero(r);
    p.negative = set_negative(r);
    r
}

pub struct Asl {}

impl Instruction for Asl {
    open spec fn spec_execute(cpu: Context) -> Context {
        let (r, p) = spec_asl(cpu.p, cpu.ops.dl);
        Context { ops: OpState { dl: r, ..cpu.ops }, p, ..cpu }
    }

    fn execute(cpu: &mut Context) {
        let dl = cpu.ops.dl;
        cpu.ops.dl = exec_asl(&mut cpu.p, dl);
    }
}

pub struct AslAccum {}

impl Instruction for AslAccum {
    open spec fn spec_execute(cpu: Context) -> Context {
        let (r, p) = spec_asl(cpu.p, cpu.a);
        Context { a: r, p, ..cpu }
    }

    fn execute(cpu: &mut Context) {
        let a = cpu.a;
        cpu.a = exec_asl(&mut cpu.p, a);
    }
}

/// A branch instruction records whether its condition holds.
pub open spec fn with_branch(cpu: Context, taken: bool) -> Context {
    Context { ops: OpState { branch_taken: taken, ..cpu.ops }, ..cpu }
}

pub struct Bcc {}

impl Instruction for Bcc {
    open spec fn spec_execute(cpu: Context) -> Context {
        with_branch(cpu, !cpu.p.carry)
    }

    fn execute(cpu: &mut Context) {
        cpu.ops.branch_taken = if cpu.p.carry == false { true } else { false };
    }
}

pub struct Bcs {}

impl Instruction for Bcs {
    open spec fn spec_execute(cpu: Context) -> Context {
        with_branch(cpu, cpu.p.carry)
    }

    fn execute(cpu: &mut Context) {
        cpu.ops.branch_taken = if cpu.p.carry == true { true } else { false };
    }
}

pub struct Beq {}

impl Instruction for Beq {
    open spec fn spec_execute(cpu: Context) -> Context {
        with_branch(cpu, cpu.p.zero)
    }

    fn execute(cpu: &mut Context) {
        cpu.ops.branch_taken = if cpu.p.zero == true { true } else { false };
    }
}

pub struct Bit {}

impl Instruction for Bit {
    open spec fn spec_execute(cpu: Context) -> Context {
        Context {
            p: StatusRegister {
                negative: cpu.ops.dl >= 0x80,
                overflow: (cpu.ops.dl & 0x40) == 0x40,
                zero: (cpu.a & cpu.ops.dl) == 0,
                ..cpu.p
            },
            ..cpu
        }
    }

    fn execute(cpu: &mut Context) {
        proof { lemma_u8_bits(cpu.ops.dl); }
        let x = cpu.a & cpu.ops.dl;
        cpu.p.negative = if (cpu.ops.dl & 0x80) == 0x80 { true } else { false };
        cpu.p.overflow = if (cpu.ops.dl & 0x40) == 0x40 { true } else { false };
        cpu.p.zero = if x == 0 { true } else { false };
    }
}

pub struct Bmi {}

impl Instruction for Bmi {
    open spec fn spec_execute(cpu: Context) -> Context {
        with_branch(cpu, cpu.p.negative)
    }

    fn execute(cpu: &mut Context) {
        cpu.ops.branch_taken = if cpu.p.negative == true { true } else { false };
    }
}

pub struct Bne {}

impl Instruction for Bne {
    open spec fn spec_execute(cpu: Context) -> Context {
        with_branch(cpu, !cpu.p.zero)
    }

    fn execute(cpu: &mut Context) {
        cpu.ops.branch_taken = if cpu.p.zero == false { true } else { false };
    }
}

pub struct Bpl {}

impl Instruction for Bpl {
    open spec fn spec_execute(cpu: Context) -> Context {
        with_branch(cpu, !cpu.p.negative)
    }

    fn execute(cpu: &mut Context) {
        cpu.ops.branch_taken = if cpu.p.negative == false { true } else { false };
    }
}

pub struct Bvc {}

impl Instruction for Bvc {
    open spec fn spec_execute(cpu: Context) -> Context {
        with_branch(cpu, !cpu.p.overflow)
    }

    fn execute(cpu: &mut Context) {
        cpu.ops.branch_taken = if cpu.p.overflow == false { true } else { false };
    }
}

pub struct Bvs {}

impl Instruction for Bvs {
    open spec fn spec_execute(cpu: Context) -> Context {
        with_branch(cpu, cpu.p.overflow)
    }

    fn execute(cpu: &mut Context) {
        cpu.ops.branch_taken = if cpu.p.overflow == true { true } else { false };
    }
}

pub struct Clc {}

impl Instruction for Clc {
    open spec fn spec_execute(cpu: Context) -> Context {
        Context { p: StatusRegister { carry: false, ..cpu.p }, ..cpu }
    }

    fn execute(cpu: &mut Context) {
        cpu.p.carry = false;
    }
}

pub struct Cld {}

impl Instruction for Cld {
    open spec fn spec_execute(cpu: Context) -> Context {
        Context { p: StatusRegister { decimal: false, ..cpu.p }, ..cpu }
    }

    fn execute(cpu: &mut Context) {
        cpu.p.decimal = false;
    }
}

pub struct Cli {}

impl Instruction for Cli {
    open spec fn spec_execute(cpu: Context) -> Context {
        Context { p: StatusRegister { interrupt_disable: false, ..cpu.p }, ..cpu }
    }

    fn execute(cpu: &mut Context) {
        cpu.p.interrupt_disable = false;
    }
}

pub struct Clv {}

impl Instruction for Clv {
    open spec fn spec_execute(cpu: Context) -> Context {
        Context { p: StatusRegister { overflow: false, ..cpu.p }, ..cpu }
    }

    fn execute(cpu: &mut Context) {
        cpu.p.overflow = false;
    }
}

/// Compare: C when `reg >= m`, Z when equal, N from the difference.
pub open spec fn spec_compare(p: StatusRegister, reg: u8, m: u8) -> StatusRegister {
    StatusRegister { carry: reg >= m, zero: reg == m, negative: reg.wrapping_sub(m) >= 0x80, ..p }
}

fn exec_compare(p: &mut StatusRegister, reg: u8, m: u8)
    ensures
        *final(p) == spec_compare(*old(p), reg, m),
{
    p.carry = if reg >= m { true } else { false };
    p.zero = if reg == m { true } else { false };
    p.negative = set_negative(reg.wrapping_sub(m));
}

pub struct Cmp {}

impl Instruction for Cmp {
    open spec fn spec_execute(cpu: Context) -> Context {
        Context { p: spec_compare(cpu.p, cpu.a, cpu.ops.dl), ..cpu }
    }

    fn execute(cpu: &mut Context) {
        let (a, m) = (cpu.a, cpu.ops.dl);
        exec_compare(&mut cpu.p, a, m);
    }
}

pub struct Cpx {}

impl Instruction for Cpx {
    open spec fn spec_execute(cpu: Context) -> Context {
        Context { p: spec_compare(cpu.p, cpu.x, cpu.ops.dl), ..cpu }
    }

    fn execute(cpu: &mut Context) {
        let (x, m) = (cpu.x, cpu.ops.dl);
        exec_compare(&mut cpu.p, x, m);
    }
}

pub struct Cpy {}

impl Instruction for Cpy {
    open spec fn spec_execute(cpu: Context) -> Context {
        Context { p: spec_compare(cpu.p, cpu.y, cpu.ops.dl), ..cpu }
    }

    fn execute(cpu: &mut Context) {
        let (y, m) = (cpu.y, cpu.ops.dl);
        exec_compare(&mut cpu.p, y, m);
    }
}

pub struct Dec {}

impl Instruction for Dec {
    open spec fn spec_execute(cpu: Context) -> Context {
        let r = cpu.ops.dl.wrapping_sub(1);
        Context { ops: OpState { dl: r, ..cpu.ops }, p: with_nz(cpu.p, r), ..cpu }
    }

    fn execute(cpu: &mut Context) {
        cpu.ops.dl = cpu.ops.dl.wrapping_sub(1);
        cpu.p.zero = set_zero(cpu.ops.dl);
        cpu.p.negative = set_negative(cpu.ops.dl);
    }
}

pub struct Dex {}

impl Instruction for Dex {
    open spec fn spec_execute(cpu: Context) -> Context {
        let r = cpu.x.wrapping_sub(1);
        Context { x: r, p: with_nz(cpu.p, r), ..cpu }
    }

    fn execute(cpu: &mut Context) {
        cpu.x = cpu.x.wrapping_sub(1);
        cpu.p.zero = set_zero(cpu.x);
        cpu.p.negative = set_negative(cpu.x);
    }
}

pub struct Dey {}

impl Instruction for Dey {
    open spec fn spec_execute(cpu: Context) -> Context {
        let r = cpu.y.wrapping_sub(1);
        Context { y: r, p: with_nz(cpu.p, r), ..cpu }
    }

    fn execute(cpu: &mut Context) {
        cpu.y = cpu.y.wrapping_sub(1);
        cpu.p.zero = set_zero(cpu.y);
        cpu.p.negative = set_negative(cpu.y);
    }
}

pub struct Eor {}

impl Instruction for Eor {
    open spec fn spec_execute(cpu: Context) -> Context {
        let a = cpu.a ^ cpu.ops.dl;
        Context { a, p: with_nz(cpu.p, a), ..cpu }
    }

    fn execute(cpu: &mut Context) {
        cpu.a = cpu.a ^ cpu.ops.dl;
        cpu.p.zero = set_zero(cpu.a);
        cpu.p.negative = set_negative(cpu.a);
    }
}

pub struct Inc {}

impl Instruction for Inc {
    open spec fn spec_execute(cpu: Context) -> Context {
        let r = cpu.ops.dl.wrapping_add(1);
        Context { ops: OpState { dl: r, ..cpu.ops }, p: with_nz(cpu.p, r), ..cpu }
    }

    fn execute(cpu: &mut Context) {
        cpu.ops.dl = cpu.ops.dl.wrapping_add(1);
        cpu.p.zero = set_zero(cpu.ops.dl);
        cpu.p.negative = set_negative(cpu.ops.dl);
    }
}

pub struct Inx {}

impl Instruction for Inx {
    open spec fn spec_execute(cpu: Context) -> Context {
        let r = cpu.x.wrapping_add(1);
        Context { x: r, p: with_nz(cpu.p, r), ..cpu }
    }

    fn execute(cpu: &mut Context) {
        cpu.x = cpu.x.wrapping_add(1);
        cpu.p.zero = set_zero(cpu.x);
        cpu.p.negative = set_negative(cpu.x);
    }
}

pub struct Iny {}

impl Instruction for Iny {
    open spec fn spec_execute(cpu: Context) -> Context {
        let r = cpu.y.wrapping_add(1);
        Context { y: r, p: with_nz(cpu.p, r), ..cpu }
    }

    fn execute(cpu: &mut Context) {
        cpu.y = cpu.y.wrapping_add(1);
        cpu.p.zero = set_zero(cpu.y);
        cpu.p.negative = set_negative(cpu.y);
    }
}

pub struct Lda {}

impl Instruction for Lda {
    open spec fn spec_execute(cpu: Context) -> Context {
        Context { a: cpu.ops.dl, p: with_nz(cpu.p, cpu.ops.dl), ..cpu }
    }

    fn execute(cpu: &mut Context) {
        cpu.a = cpu.ops.dl;
        cpu.p.zero = set_zero(cpu.a);
        cpu.p.negative = set_negative(cpu.a);
    }
}

pub struct Ldx {}

impl Instruction for Ldx {
    open spec fn spec_execute(cpu: Context) -> Context {
        Context { x: cpu.ops.dl, p: with_nz(cpu.p, cpu.ops.dl), ..cpu }
    }

    fn execute(cpu: &mut Context) {
        cpu.x = cpu.ops.dl;
        cpu.p.zero = set_zero(cpu.x);
        cpu.p.negative = set_negative(cpu.x);
    }
}

pub struct Ldy {}

impl Instruction for Ldy {
    open spec fn spec_execute(cpu: Context) -> Context {
        Context { y: cpu.ops.dl, p: with_nz(cpu.p, cpu.ops.dl), ..cpu }
    }

    fn execute(cpu: &mut Context) {
        cpu.y = cpu.ops.dl;
        cpu.p.zero = set_zero(cpu.y);
        cpu.p.negative = set_negative(cpu.y);
    }
}

pub struct Lsr {}

impl Instruction for Lsr {
    open spec fn spec_execute(cpu: Context) -> Context {
        let (r, p) = spec_lsr(cpu.p, cpu.ops.dl);
        Context { ops: OpState { dl: r, ..cpu.ops }, p, ..cpu }
    }

    fn execute(cpu: &mut Context) {
        let dl = cpu.ops.dl;
        cpu.ops.dl = exec_lsr(&mut cpu.p, dl);
    }
}

pub struct LsrAccum {}

impl Instruction for LsrAccum {
    open spec fn spec_execute(cpu: Context) -> Context {
        let (r, p) = spec_lsr(cpu.p, cpu.a);
        Context { a: r, p, ..cpu }
    }

    fn execute(cpu: &mut Context) {
        let a = cpu.a;
        cpu.a = exec_lsr(&mut cpu.p, a);
    }
}

pub struct Nop {}

impl Instruction for Nop {
    open spec fn spec_execute(cpu: Context) -> Context {
        cpu
    }

    fn execute(_cpu: &mut Context) {
        // causes no changes to processor
    }
}

pub struct Ora {}

impl Instruction for Ora {
    open spec fn spec_execute(cpu: Context) -> Context {
        let a = cpu.a | cpu.ops.dl;
        Context { a, p: with_nz(cpu.p, a), ..cpu }
    }

    fn execute(cpu: &mut Context) {
        cpu.a = cpu.a | cpu.ops.dl;
        cpu.p.zero = set_zero(cpu.a);
        cpu.p.negative = set_negative(cpu.a);
    }
}

pub struct Rol {}

impl Instruction for Rol {
    open spec fn spec_execute(cpu: Context) -> Context {
        let (r, p) = spec_rol(cpu.p, cpu.ops.dl);
        Context { ops: OpState { dl: r, ..cpu.ops }, p, ..cpu }
    }

    fn execute(cpu: &mut Context) {
        let dl = cpu.ops.dl;
        cpu.ops.dl = exec_rol(&mut cpu.p, dl);
    }
}

pub struct RolAccum {}

impl Instruction for RolAccum {
    open spec fn spec_execute(cpu: Context) -> Context {
        let (r, p) = spec_rol(cpu.p, cpu.a);
        Context { a: r, p, ..cpu }
    }

    fn execute(cpu: &mut Context) {
        let a = cpu.a;
        cpu.a = exec_rol(&mut cpu.p, a);
    }
}

pub struct Ror {}

impl Instruction for Ror {
    open spec fn spec_execute(cpu: Context) -> Context {
        let (r, p) = spec_ror(cpu.p, cpu.ops.dl);
        Context { ops: OpState { dl: r, ..cpu.ops }, p, ..cpu }
    }

    fn execute(cpu: &mut Context) {
        let dl = cpu.ops.dl;
        cpu.ops.dl = exec_ror(&mut cpu.p, dl);
    }
}

pub struct RorAccum {}

impl Instruction for RorAccum {
    open spec fn spec_execute(cpu: Context) -> Context {
        let (r, p) = spec_ror(cpu.p, cpu.a);
        Context { a: r, p, ..cpu }
    }

    fn execute(cpu: &mut Context) {
        let a = cpu.a;
        cpu.a = exec_ror(&mut cpu.p, a);
    }
}

pub struct SbcNoDec {}

impl Instruction for SbcNoDec {
    open spec fn spec_execute(cpu: Context) -> Context {
        sbc_binary(cpu)
    }

    fn execute(cpu: &mut Context) {
        exec_sbc_binary(cpu);
    }
}

pub struct Sbc {}

impl Instruction for Sbc {
    open spec fn spec_execute(cpu: Context) -> Context {
        if !cpu.p.decimal { sbc_binary(cpu) } else { sbc_decimal(cpu) }
    }

    fn execute(cpu: &mut Context) {
        if cpu.p.decimal == false {
            exec_sbc_binary(cpu);
        } else {
            // decimal mode (MAME implementation)
            exec_sbc_decimal(cpu);
        }
    }
}

#[verifier::spinoff_prover]
fn exec_sbc_decimal(cpu: &mut Context)
    ensures
        *final(cpu) == sbc_decimal(*old(cpu)),
{
    let c: u8 = if cpu.p.carry == true { 1 } else { 0 };
    cpu.p.carry = false;
    cpu.p.overflow = false;
    cpu.p.negative = false;
    cpu.p.zero = false;

    let a = cpu.a;
    let m = cpu.ops.dl;
    let diff: u16 = ((a as u16).wrapping_sub(m as u16)).wrapping_sub(c as u16);
    let mut al = ((a & 0x0F).wrapping_sub(m & 0x0F)).wrapping_sub(c);
    let al_borrow = al >= 0x80;
    if al_borrow {
        al -= 6;
    }
    let mut ah = ((a >> 4).wrapping_sub(m >> 4)).wrapping_sub(if al_borrow { 1u8 } else { 0 });

    if (diff as u8) == 0 {
        cpu.p.zero = true;
    } else if (diff & 0x80) > 0 {
        cpu.p.negative = true;
    }
    if ((a as u16 ^ m as u16) & (a as u16 ^ diff) & 0x80) > 0 {
        cpu.p.overflow = true;
    }
    // no borrow out of the high byte
    if (diff & 0xFF00) == 0 {
        cpu.p.carry = true;
    }
    if ah >= 0x80 {
        ah -= 6;
    }
    cpu.a = (ah << 4) | (al & 0x0F);
}

pub struct Sec {}

impl Instruction for Sec {
    open spec fn spec_execute(cpu: Context) -> Context {
        Context { p: StatusRegister { carry: true, ..cpu.p }, ..cpu }
    }

    fn execute(cpu: &mut Context) {
        cpu.p.carry = true;
    }
}

pub struct Sed {}

impl Instruction for Sed {
    open spec fn spec_execute(cpu: Context) -> Context {
        Context { p: StatusRegister { decimal: true, ..cpu.p }, ..cpu }
    }

    fn execute(cpu: &mut Context) {
        cpu.p.decimal = true;
    }
}

pub struct Sei {}

impl Instruction for Sei {
    open spec fn spec_execute(cpu: Context) -> Context {
        Context { p: StatusRegister { interrupt_disable: true, ..cpu.p }, ..cpu }
    }

    fn execute(cpu: &mut Context) {
        cpu.p.interrupt_disable = true;
    }
}

/// The byte a store instruction puts in the data latch.
pub open spec fn with_dl(cpu: Context, dl: u8) -> Context {
    Context { ops: OpState { dl, ..cpu.ops }, ..cpu }
}

pub struct Sta {}

impl Instruction for Sta {
    open spec fn spec_execute(cpu: Context) -> Context {
        with_dl(cpu, cpu.a)
    }

    fn execute(cpu: &mut Context) {
        cpu.ops.dl = cpu.a;
    }
}

pub struct Stx {}

impl Instruction for Stx {
    open spec fn spec_execute(cpu: Context) -> Context {
        with_dl(cpu, cpu.x)
    }

    fn execute(cpu: &mut Context) {
        cpu.ops.dl = cpu.x;
    }
}

pub struct Sty {}

impl Instruction for Sty {
    open spec fn spec_execute(cpu: Context) -> Context {
        with_dl(cpu, cpu.y)
    }

    fn execute(cpu: &mut Context) {
        cpu.ops.dl = cpu.y;
    }
}

pub struct Tax {}

impl Instruction for Tax {
    open spec fn spec_execute(cpu: Context) -> Context {
        Context { x: cpu.a, p: with_nz(cpu.p, cpu.a), ..cpu }
    }

    fn execute(cpu: &mut Context) {
        cpu.x = cpu.a;
        cpu.p.zero = set_zero(cpu.x);
        cpu.p.negative = set_negative(cpu.x);
    }
}

pub struct Tay {}

impl Instruction for Tay {
    open spec fn spec_execute(cpu: Context) -> Context {
        Context { y: cpu.a, p: with_nz(cpu.p, cpu.a), ..cpu }
    }

    fn execute(cpu: &mut Context) {
        cpu.y = cpu.a;
        cpu.p.zero = set_zero(cpu.y);
        cpu.p.negative = set_negative(cpu.y);
    }
}

pub struct Tsx {}

impl Instruction for Tsx {
    open spec fn spec_execute(cpu: Context) -> Context {
        Context { x: cpu.sp, p: with_nz(cpu.p, cpu.sp), ..cpu }
    }

    fn execute(cpu: &mut Context) {
        cpu.x = cpu.sp;
        cpu.p.zero = set_zero(cpu.x);
        cpu.p.negative = set_negative(cpu.x);
    }
}

pub struct Txa {}

impl Instruction for Txa {
    open spec fn spec_execute(cpu: Context) -> Context {
        Context { a: cpu.x, p: with_nz(cpu.p, cpu.x), ..cpu }
    }

    fn execute(cpu: &mut Context) {
        cpu.a = cpu.x;
        cpu.p.zero = set_zero(cpu.a);
        cpu.p.negative = set_negative(cpu.a);
    }
}

pub struct Txs {}

impl Instruction for Txs {
    open spec fn spec_execute(cpu: Context) -> Context {
        Context { sp: cpu.x, ..cpu }
    }

    fn execute(cpu: &mut Context) {
        cpu.sp = cpu.x;
    }
}

pub struct Tya {}

impl Instruction for Tya {
    open spec fn spec_execute(cpu: Context) -> Context {
        Context { a: cpu.y, p: with_nz(cpu.p, cpu.y), ..cpu }
    }

    fn execute(cpu: &mut Context) {
        cpu.a = cpu.y;
        cpu.p.zero = set_zero(cpu.a);
        cpu.p.negative = set_negative(cpu.a);
    }
}

//====================================================
// undocumented opcodes
//====================================================
pub struct Aac {}

impl Instruction for Aac {
    open spec fn spec_execute(cpu: Context) -> Context {
        let a = cpu.a & cpu.ops.dl;
        Context { a, p: StatusRegister { carry: a >= 0x80, ..with_nz(cpu.p, a) }, ..cpu }
    }

    fn execute(cpu: &mut Context) {
        cpu.a &= cpu.ops.dl;
        cpu.p.zero = set_zero(cpu.a);
        cpu.p.negative = set_negative(cpu.a);
        cpu.p.carry = if cpu.p.negative == true { true } else { false };
    }
}

pub struct Aax {}

impl Instruction for Aax {
    open spec fn spec_execute(cpu: Context) -> Context {
        with_dl(cpu, cpu.a & cpu.x)
    }

    fn execute(cpu: &mut Context) {
        cpu.ops.dl = cpu.a & cpu.x;
    }
}

pub struct Arr {}

impl Instruction for Arr {
    /// AND, then rotate A right; C takes bit 6 of the result and V is bit 6
    /// xor bit 5. Z and N are left alone.
    open spec fn spec_execute(cpu: Context) -> Context {
        let a = ((cpu.a & cpu.ops.dl) / 2 + 128 * carry_in(cpu.p)) as u8;
        Context {
            a,
            p: StatusRegister {
                carry: (a & 0x40) != 0,
                overflow: ((a & 0x40) != 0) != ((a & 0x20) != 0),
                ..cpu.p
            },
            ..cpu
        }
    }

    fn execute(cpu: &mut Context) {
        cpu.a &= cpu.ops.dl;
        proof { lemma_u8_bits(cpu.a); lemma_u8_bits(cpu.a / 2); }
        // rotate right
        cpu.a = cpu.a / 2;
        cpu.a |= if cpu.p.carry { 0x80u8 } else { 0 };

        let a = cpu.a;
        let mask = a & 0b01100000;
        proof {
            assert((mask == 0x60 || mask == 0 || mask == 0x20 || mask == 0x40)
                && (mask == 0x60 ==> (a & 0x40) != 0 && (a & 0x20) != 0)
                && (mask == 0 ==> (a & 0x40) == 0 && (a & 0x20) == 0)
                && (mask == 0x20 ==> (a & 0x40) == 0 && (a & 0x20) != 0)
                && (mask == 0x40 ==> (a & 0x40) != 0 && (a & 0x20) == 0)) by (bit_vector)
                requires mask == a & 0x60;
        }
        if mask == 0b01100000 {
            cpu.p.carry = true;
            cpu.p.overflow = false;
        } else if mask == 0b00000000 {
            cpu.p.carry = false;
            cpu.p.overflow = false;
        } else if mask == 0b00100000 {
            cpu.p.carry = false;
            cpu.p.overflow = true;
        } else {
            cpu.p.carry = true;
            cpu.p.overflow = true;
        }
    }
}

pub struct Asr {}

impl Instruction for Asr {
    /// AND then shift A right; C takes bit 0 of A as it was before the AND.
    open spec fn spec_execute(cpu: Context) -> Context {
        let a = (cpu.a & cpu.ops.dl) / 2;
        Context { a, p: StatusRegister { carry: cpu.a % 2 == 1, ..with_nz(cpu.p, a) }, ..cpu }
    }

    fn execute(cpu: &mut Context) {
        proof { lemma_u8_bits(cpu.a); }
        let old_carry = if (cpu.a & 0x01) > 0 { true } else { false };
        cpu.a &= cpu.ops.dl;
        // rotate right
        cpu.a = cpu.a / 2;

        cpu.p.carry = old_carry;
        cpu.p.zero = set_zero(cpu.a);
        cpu.p.negative = set_negative(cpu.a);
    }
}

pub struct Atx {}

impl Instruction for Atx {
    open spec fn spec_execute(cpu: Context) -> Context {
        let a = cpu.a & cpu.ops.dl;
        Context { a, x: a, p: with_nz(cpu.p, a), ..cpu }
    }

    fn execute(cpu: &mut Context) {
        cpu.a &= cpu.ops.dl;
        cpu.x = cpu.a;
        cpu.p.zero = set_zero(cpu.a);
        cpu.p.negative = set_negative(cpu.a);
    }
}

pub struct Axa {}

impl Instruction for Axa {
    open spec fn spec_execute(cpu: Context) -> Context {
        Context {
            ops: OpState { dl: cpu.a & cpu.x & cpu.ops.adh.wrapping_add(1), ..cpu.ops },
            p: with_nz(cpu.p, cpu.a),
            ..cpu
        }
    }

    fn execute(cpu: &mut Context) {
        cpu.ops.dl = cpu.a & cpu.x & (cpu.ops.adh.wrapping_add(1));
        cpu.p.zero = set_zero(cpu.a);
        cpu.p.negative = set_negative(cpu.a);
    }
}

pub struct Axs {}

impl Instruction for Axs {
    /// X becomes `(A & X) - m`; C is set when the subtraction borrows.
    open spec fn spec_execute(cpu: Context) -> Context {
        let ax = cpu.a & cpu.x;
        Context {
            x: ax.wrapping_sub(cpu.ops.dl),
            p: StatusRegister { carry: ax < cpu.ops.dl, ..cpu.p },
            ..cpu
        }
    }

    fn execute(cpu: &mut Context) {
        cpu.x = cpu.a & cpu.x;
        let c = cpu.x < cpu.ops.dl;
        let x = cpu.x.wrapping_sub(cpu.ops.dl);
        cpu.x = x;
        cpu.p.carry = c;
    }
}

pub struct Dcp {}

impl Instruction for Dcp {
    open spec fn spec_execute(cpu: Context) -> Context {
        let m = cpu.ops.dl.wrapping_sub(1);
        Context { ops: OpState { dl: m, ..cpu.ops }, p: spec_compare(cpu.p, cpu.a, m), ..cpu }
    }

    fn execute(cpu: &mut Context) {
        let x = cpu.ops.dl.wrapping_sub(1);
        cpu.ops.dl = x;
        let result = cpu.a.wrapping_sub(cpu.ops.dl);
        cpu.p.carry = if cpu.a >= cpu.ops.dl { true } else { false };
        cpu.p.zero = if cpu.a == cpu.ops.dl { true } else { false };
        cpu.p.negative = set_negative(result);
    }
}

pub struct Isc {}

impl Instruction for Isc {
    open spec fn spec_execute(cpu: Context) -> Context {
        sbc_binary(Context { ops: OpState { dl: cpu.ops.dl.wrapping_add(1), ..cpu.ops }, ..cpu })
    }

    fn execute(cpu: &mut Context) {
        cpu.ops.dl = cpu.ops.dl.wrapping_add(1);
        cpu.p.zero = set_zero(cpu.ops.dl);
        cpu.p.negative = set_negative(cpu.ops.dl);
        exec_sbc_binary(cpu);
    }
}

pub struct Kil {}

impl Instruction for Kil {
    /// Halts the processor: the program counter steps back onto the opcode.
    open spec fn spec_execute(cpu: Context) -> Context {
        Context { pc: ProgramCounter::spec_from_value(cpu.pc.spec_value().wrapping_sub(1)), ..cpu }
    }

    fn execute(cpu: &mut Context) {
        let mut addr = cpu.pc.value();
        // halt pc, lock up cpu
        addr = addr.wrapping_sub(1);
        cpu.pc = ProgramCounter::from_value(addr);
    }
}

pub struct Lar {}

impl Instruction for Lar {
    open spec fn spec_execute(cpu: Context) -> Context {
        let a = cpu.sp & cpu.ops.dl;
        Context { a, x: a, sp: a, p: with_nz(cpu.p, a), ..cpu }
    }

    fn execute(cpu: &mut Context) {
        cpu.a = cpu.sp & cpu.ops.dl;
        cpu.x = cpu.a;
        cpu.sp = cpu.a;
        cpu.p.zero = set_zero(cpu.a);
        cpu.p.negative = set_negative(cpu.a);
    }
}

pub struct Lax {}

impl Instruction for Lax {
    open spec fn spec_execute(cpu: Context) -> Context {
        Context { a: cpu.ops.dl, x: cpu.ops.dl, p: with_nz(cpu.p, cpu.ops.dl), ..cpu }
    }

    fn execute(cpu: &mut Context) {
        cpu.a = cpu.ops.dl;
        cpu.x = cpu.ops.dl;
        cpu.p.zero = set_zero(cpu.a);
        cpu.p.negative = set_negative(cpu.a);
    }
}

pub struct Rla {}

impl Instruction for Rla {
    open spec fn spec_execute(cpu: Context) -> Context {
        let (m, p) = spec_rol(cpu.p, cpu.ops.dl);
        let a = cpu.a & m;
        Context { a, ops: OpState { dl: m, ..cpu.ops }, p: with_nz(p, a), ..cpu }
    }

    fn execute(cpu: &mut Context) {
        let dl = cpu.ops.dl;
        cpu.ops.dl = exec_rol(&mut cpu.p, dl);
        cpu.a = cpu.a & cpu.ops.dl;
        cpu.p.zero = set_zero(cpu.a);
        cpu.p.negative = set_negative(cpu.a);
    }
}

pub struct Rra {}

impl Instruction for Rra {
    open spec fn spec_execute(cpu: Context) -> Context {
        let (m, p) = spec_ror(cpu.p, cpu.ops.dl);
        adc_binary(Context { ops: OpState { dl: m, ..cpu.ops }, p, ..cpu })
    }

    fn execute(cpu: &mut Context) {
        let dl = cpu.ops.dl;
        cpu.ops.dl = exec_ror(&mut cpu.p, dl);
        exec_adc_binary(cpu);
    }
}

pub struct Slo {}

impl Instruction for Slo {
    open spec fn spec_execute(cpu: Context) -> Context {
        let (m, p) = spec_asl(cpu.p, cpu.ops.dl);
        let a = cpu.a | m;
        Context { a, ops: OpState { dl: m, ..cpu.ops }, p: with_nz(p, a), ..cpu }
    }

    fn execute(cpu: &mut Context) {
        let dl = cpu.ops.dl;
        cpu.ops.dl = exec_asl(&mut cpu.p, dl);
        cpu.a = cpu.a | cpu.ops.dl;
        cpu.p.zero = set_zero(cpu.a);
        cpu.p.negative = set_negative(cpu.a);
    }
}

pub struct Sre {}

impl Instruction for Sre {
    open spec fn spec_execute(cpu: Context) -> Context {
        let (m, p) = spec_lsr(cpu.p, cpu.ops.dl);
        let a = cpu.a ^ m;
        Context { a, ops: OpState { dl: m, ..cpu.ops }, p: with_nz(p, a), ..cpu }
    }

    fn execute(cpu: &mut Context) {
        let dl = cpu.ops.dl;
        cpu.ops.dl = exec_lsr(&mut cpu.p, dl);
        cpu.a = cpu.a ^ cpu.ops.dl;
        cpu.p.zero = set_zero(cpu.a);
        cpu.p.negative = set_negative(cpu.a);
    }
}

pub struct Sxa {}

impl Instruction for Sxa {
    open spec fn spec_execute(cpu: Context) -> Context {
        with_dl(cpu, cpu.x & cpu.ops.adh.wrapping_add(1))
    }

    fn execute(cpu: &mut Context) {
        cpu.ops.dl = cpu.x & cpu.ops.adh.wrapping_add(1);
    }
}

pub struct Sya {}

impl Instruction for Sya {
    open spec fn spec_execute(cpu: Context) -> Context {
        with_dl(cpu, cpu.y & cpu.ops.adh.wrapping_add(1))
    }

    fn execute(cpu: &mut Context) {
        cpu.ops.dl = cpu.y & cpu.ops.adh.wrapping_add(1);
    }
}

pub struct Xaa {}

impl Instruction for Xaa {
    open spec fn spec_execute(cpu: Context) -> Context {
        Context { a: cpu.x & cpu.ops.dl, ..cpu }
    }

    fn execute(cpu: &mut Context) {
        cpu.a = cpu.x;
        cpu.a &= cpu.ops.dl;
    }
}

pub struct Xas {}

impl Instruction for Xas {
    open spec fn spec_execute(cpu: Context) -> Context {
        let sp = cpu.x & cpu.a;
        Context { sp, ops: OpState { dl: sp & cpu.ops.adh.wrapping_add(1), ..cpu.ops }, ..cpu }
    }

    fn execute(cpu: &mut Context) {
        cpu.sp = cpu.x & cpu.a;
        cpu.ops.dl = cpu.sp & cpu.ops.adh.wrapping_add(1);
    }
}

} // verus!
