//! The RP2A03 cpu core: the 6502 stepped one cycle at a time.

use vstd::prelude::*;
use super::{Ctrl, Pinout};
use super::cpu_state::{Context, InstructionRegister, RST_TM};
use super::operations::{
    absolute_modify_c0,
    absolute_modify_c1,
    absolute_modify_c2,
    absolute_modify_c3,
    absolute_modify_c4,
    absolute_modify_c5,
    absolute_read_c0,
    absolute_read_c1,
    absolute_read_c2,
    absolute_read_c3,
    absolute_store_c0,
    absolute_store_c1,
    absolute_store_c2,
    absolute_store_c3,
    absolute_x_modify_c0,
    absolute_x_modify_c1,
    absolute_x_modify_c2,
    absolute_x_modify_c3,
    absolute_x_modify_c4,
    absolute_x_modify_c5,
    absolute_x_modify_c6,
    absolute_x_read_c0,
    absolute_x_read_c1,
    absolute_x_read_c2,
    absolute_x_read_c3,
    absolute_x_read_c4,
    absolute_x_store_c0,
    absolute_x_store_c1,
    absolute_x_store_c2,
    absolute_x_store_c3,
    absolute_x_store_c4,
    absolute_y_read_c0,
    absolute_y_read_c1,
    absolute_y_read_c2,
    absolute_y_read_c3,
    absolute_y_read_c4,
    absolute_y_store_c0,
    absolute_y_store_c1,
    absolute_y_store_c2,
    absolute_y_store_c3,
    absolute_y_store_c4,
    branch_c0,
    branch_c1,
    branch_c2,
    branch_c3,
    brk_c0,
    brk_c1,
    brk_c2,
    brk_c3,
    brk_c4,
    brk_c5,
    brk_c6,
    immediate_read_c0,
    immediate_read_c1,
    indirect_x_read_c0,
    indirect_x_read_c1,
    indirect_x_read_c2,
    indirect_x_read_c3,
    indirect_x_read_c4,
    indirect_x_read_c5,
    indirect_x_store_c0,
    indirect_x_store_c1,
    indirect_x_store_c2,
    indirect_x_store_c3,
    indirect_x_store_c4,
    indirect_x_store_c5,
    indirect_y_read_c0,
    indirect_y_read_c1,
    indirect_y_read_c2,
    indirect_y_read_c3,
    indirect_y_read_c4,
    indirect_y_read_c5,
    indirect_y_store_c0,
    indirect_y_store_c1,
    indirect_y_store_c2,
    indirect_y_store_c3,
    indirect_y_store_c4,
    indirect_y_store_c5,
    irq_c0,
    irq_c1,
    irq_c2,
    irq_c3,
    irq_c4,
    irq_c5,
    irq_c6,
    jmp_absolute_c0,
    jmp_absolute_c1,
    jmp_absolute_c2,
    jmp_indirect_c0,
    jmp_indirect_c1,
    jmp_indirect_c2,
    jmp_indirect_c3,
    jmp_indirect_c4,
    jsr_c0,
    jsr_c1,
    jsr_c2,
    jsr_c3,
    jsr_c4,
    jsr_c5,
    nmi_c0,
    nmi_c1,
    nmi_c2,
    nmi_c3,
    nmi_c4,
    nmi_c5,
    nmi_c6,
    pha_c0,
    pha_c1,
    pha_c2,
    php_c0,
    php_c1,
    php_c2,
    pla_c0,
    pla_c1,
    pla_c2,
    pla_c3,
    plp_c0,
    plp_c1,
    plp_c2,
    plp_c3,
    rst_c0,
    rst_c1,
    rst_c2,
    rst_c3,
    rst_c4,
    rst_c5,
    rst_c6,
    rst_c7,
    rst_c8,
    rti_c0,
    rti_c1,
    rti_c2,
    rti_c3,
    rti_c4,
    rti_c5,
    rts_c0,
    rts_c1,
    rts_c2,
    rts_c3,
    rts_c4,
    rts_c5,
    single_byte_c0,
    single_byte_c1,
    undoc_absolute_y_c0,
    undoc_absolute_y_c1,
    undoc_absolute_y_c2,
    undoc_absolute_y_c3,
    undoc_absolute_y_c4,
    undoc_absolute_y_c5,
    undoc_absolute_y_c6,
    undoc_indirect_x_c0,
    undoc_indirect_x_c1,
    undoc_indirect_x_c2,
    undoc_indirect_x_c3,
    undoc_indirect_x_c4,
    undoc_indirect_x_c5,
    undoc_indirect_x_c6,
    undoc_indirect_x_c7,
    undoc_indirect_y_c0,
    undoc_indirect_y_c1,
    undoc_indirect_y_c2,
    undoc_indirect_y_c3,
    undoc_indirect_y_c4,
    undoc_indirect_y_c5,
    undoc_indirect_y_c6,
    undoc_indirect_y_c7,
    zeropage_modify_c0,
    zeropage_modify_c1,
    zeropage_modify_c2,
    zeropage_modify_c3,
    zeropage_modify_c4,
    zeropage_read_c0,
    zeropage_read_c1,
    zeropage_read_c2,
    zeropage_store_c0,
    zeropage_store_c1,
    zeropage_store_c2,
    zeropage_x_modify_c0,
    zeropage_x_modify_c1,
    zeropage_x_modify_c2,
    zeropage_x_modify_c3,
    zeropage_x_modify_c4,
    zeropage_x_modify_c5,
    zeropage_x_read_c0,
    zeropage_x_read_c1,
    zeropage_x_read_c2,
    zeropage_x_read_c3,
    zeropage_x_store_c0,
    zeropage_x_store_c1,
    zeropage_x_store_c2,
    zeropage_x_store_c3,
    zeropage_y_read_c0,
    zeropage_y_read_c1,
    zeropage_y_read_c2,
    zeropage_y_read_c3,
    zeropage_y_store_c0,
    zeropage_y_store_c1,
    zeropage_y_store_c2,
    zeropage_y_store_c3,
};
use super::instructions::{
    Aac,
    Aax,
    AdcNoDec,
    And,
    Arr,
    Asl,
    AslAccum,
    Asr,
    Atx,
    Axa,
    Axs,
    Bcc,
    Bcs,
    Beq,
    Bit,
    Bmi,
    Bne,
    Bpl,
    Bvc,
    Bvs,
    Clc,
    Cld,
    Cli,
    Clv,
    Cmp,
    Cpx,
    Cpy,
    Dcp,
    Dec,
    Dex,
    Dey,
    Eor,
    Inc,
    Inx,
    Iny,
    Isc,
    Kil,
    Lar,
    Lax,
    Lda,
    Ldx,
    Ldy,
    Lsr,
    LsrAccum,
    Nop,
    Ora,
    Rla,
    Rol,
    RolAccum,
    Ror,
    RorAccum,
    Rra,
    SbcNoDec,
    Sec,
    Sed,
    Sei,
    Slo,
    Sre,
    Sta,
    Stx,
    Sty,
    Sxa,
    Sya,
    Tax,
    Tay,
    Tsx,
    Txa,
    Txs,
    Tya,
    Xaa,
    Xas,
};
use super::bus::Bus;

verus! {

/// How many cycles the instruction with this opcode steps through; 0 for
/// opcode 0x00, whose BRK, reset and interrupt sequences are told apart by
/// the timing state.
pub open spec fn spec_cycle_count(opcode: u8) -> u8 {
    if opcode == 0x00 {
        0
    } else if opcode == 0x02 || opcode == 0x09 || opcode == 0x0A || opcode == 0x0B || opcode == 0x12 || opcode == 0x18 || opcode == 0x1A || opcode == 0x22 || opcode == 0x29 || opcode == 0x2A || opcode == 0x2B || opcode == 0x32 || opcode == 0x38 || opcode == 0x3A || opcode == 0x42 || opcode == 0x49 || opcode == 0x4A || opcode == 0x4B || opcode == 0x52 || opcode == 0x58 || opcode == 0x5A || opcode == 0x62 || opcode == 0x69 || opcode == 0x6A || opcode == 0x6B || opcode == 0x72 || opcode == 0x78 || opcode == 0x7A || opcode == 0x80 || opcode == 0x82 || opcode == 0x88 || opcode == 0x89 || opcode == 0x8A || opcode == 0x8B || opcode == 0x92 || opcode == 0x98 || opcode == 0x9A || opcode == 0xA0 || opcode == 0xA2 || opcode == 0xA8 || opcode == 0xA9 || opcode == 0xAA || opcode == 0xAB || opcode == 0xB2 || opcode == 0xB8 || opcode == 0xBA || opcode == 0xC0 || opcode == 0xC2 || opcode == 0xC8 || opcode == 0xC9 || opcode == 0xCA || opcode == 0xCB || opcode == 0xD2 || opcode == 0xD8 || opcode == 0xDA || opcode == 0xE0 || opcode == 0xE2 || opcode == 0xE8 || opcode == 0xE9 || opcode == 0xEA || opcode == 0xEB || opcode == 0xF2 || opcode == 0xF8 || opcode == 0xFA {
        2
    } else if opcode == 0x04 || opcode == 0x05 || opcode == 0x08 || opcode == 0x24 || opcode == 0x25 || opcode == 0x44 || opcode == 0x45 || opcode == 0x48 || opcode == 0x4C || opcode == 0x64 || opcode == 0x65 || opcode == 0x84 || opcode == 0x85 || opcode == 0x86 || opcode == 0x87 || opcode == 0xA4 || opcode == 0xA5 || opcode == 0xA6 || opcode == 0xA7 || opcode == 0xC4 || opcode == 0xC5 || opcode == 0xE4 || opcode == 0xE5 {
        3
    } else if opcode == 0x0C || opcode == 0x0D || opcode == 0x10 || opcode == 0x14 || opcode == 0x15 || opcode == 0x28 || opcode == 0x2C || opcode == 0x2D || opcode == 0x30 || opcode == 0x34 || opcode == 0x35 || opcode == 0x4D || opcode == 0x50 || opcode == 0x54 || opcode == 0x55 || opcode == 0x68 || opcode == 0x6D || opcode == 0x70 || opcode == 0x74 || opcode == 0x75 || opcode == 0x8C || opcode == 0x8D || opcode == 0x8E || opcode == 0x8F || opcode == 0x90 || opcode == 0x94 || opcode == 0x95 || opcode == 0x96 || opcode == 0x97 || opcode == 0xAC || opcode == 0xAD || opcode == 0xAE || opcode == 0xAF || opcode == 0xB0 || opcode == 0xB4 || opcode == 0xB5 || opcode == 0xB6 || opcode == 0xB7 || opcode == 0xCC || opcode == 0xCD || opcode == 0xD0 || opcode == 0xD4 || opcode == 0xD5 || opcode == 0xEC || opcode == 0xED || opcode == 0xF0 || opcode == 0xF4 || opcode == 0xF5 {
        4
    } else if opcode == 0x06 || opcode == 0x07 || opcode == 0x19 || opcode == 0x1C || opcode == 0x1D || opcode == 0x26 || opcode == 0x27 || opcode == 0x39 || opcode == 0x3C || opcode == 0x3D || opcode == 0x46 || opcode == 0x47 || opcode == 0x59 || opcode == 0x5C || opcode == 0x5D || opcode == 0x66 || opcode == 0x67 || opcode == 0x6C || opcode == 0x79 || opcode == 0x7C || opcode == 0x7D || opcode == 0x99 || opcode == 0x9B || opcode == 0x9C || opcode == 0x9D || opcode == 0x9E || opcode == 0x9F || opcode == 0xB9 || opcode == 0xBB || opcode == 0xBC || opcode == 0xBD || opcode == 0xBE || opcode == 0xBF || opcode == 0xC6 || opcode == 0xC7 || opcode == 0xD9 || opcode == 0xDC || opcode == 0xDD || opcode == 0xE6 || opcode == 0xE7 || opcode == 0xF9 || opcode == 0xFC || opcode == 0xFD {
        5
    } else if opcode == 0x01 || opcode == 0x0E || opcode == 0x0F || opcode == 0x11 || opcode == 0x16 || opcode == 0x17 || opcode == 0x20 || opcode == 0x21 || opcode == 0x2E || opcode == 0x2F || opcode == 0x31 || opcode == 0x36 || opcode == 0x37 || opcode == 0x40 || opcode == 0x41 || opcode == 0x4E || opcode == 0x4F || opcode == 0x51 || opcode == 0x56 || opcode == 0x57 || opcode == 0x60 || opcode == 0x61 || opcode == 0x6E || opcode == 0x6F || opcode == 0x71 || opcode == 0x76 || opcode == 0x77 || opcode == 0x81 || opcode == 0x83 || opcode == 0x91 || opcode == 0x93 || opcode == 0xA1 || opcode == 0xA3 || opcode == 0xB1 || opcode == 0xB3 || opcode == 0xC1 || opcode == 0xCE || opcode == 0xCF || opcode == 0xD1 || opcode == 0xD6 || opcode == 0xD7 || opcode == 0xE1 || opcode == 0xEE || opcode == 0xEF || opcode == 0xF1 || opcode == 0xF6 || opcode == 0xF7 {
        6
    } else if opcode == 0x1B || opcode == 0x1E || opcode == 0x1F || opcode == 0x3B || opcode == 0x3E || opcode == 0x3F || opcode == 0x5B || opcode == 0x5E || opcode == 0x5F || opcode == 0x7B || opcode == 0x7E || opcode == 0x7F || opcode == 0xDB || opcode == 0xDE || opcode == 0xDF || opcode == 0xFB || opcode == 0xFE || opcode == 0xFF {
        7
    } else if opcode == 0x03 || opcode == 0x13 || opcode == 0x23 || opcode == 0x33 || opcode == 0x43 || opcode == 0x53 || opcode == 0x63 || opcode == 0x73 || opcode == 0xC3 || opcode == 0xD3 || opcode == 0xE3 || opcode == 0xF3 {
        8
    } else {
        0
    }
}

/// The cycle `opcode:tm` exists: the dispatch of `tick` knows it.
pub open spec fn spec_valid_ir(ir: InstructionRegister) -> bool {
    if ir.opcode == 0x00 {
        ir.tm <= 0x06 || (0x10 <= ir.tm <= 0x18) || (0x20 <= ir.tm <= 0x26) || (0x30 <= ir.tm <= 0x36)
    } else {
        ir.tm < spec_cycle_count(ir.opcode)
    }
}

/// The mnemonic of an opcode; opcode 0x00 names BRK, reset, NMI or IRQ by
/// its timing state.
pub open spec fn spec_mnemonic(opcode: u8, tm: u8) -> &'static str {
    match opcode {
        0x00 => {
            if 0x10 <= tm <= 0x18 {
                "RST"
            } else if tm <= 0x06 {
                "BRK"
            } else if 0x30 <= tm <= 0x36 {
                "IRQ"
            } else {
                "NMI"
            }
        }
        // AdcNoDec
        0x69 | 0x65 | 0x75 | 0x6D | 0x7D | 0x79 | 0x61 | 0x71 => "Adc",
        // AND
        0x29 | 0x25 | 0x35 | 0x2D | 0x3D | 0x39 | 0x21 | 0x31 => "AND",
        // ASL
        0x0A | 0x06 | 0x16 | 0x0E | 0x1E => "ASL",
        // BCC
        0x90 => "BCC",
        // BCS
        0xB0 => "BCS",
        // BEQ
        0xF0 => "BEQ",
        // BIT
        0x24 => "BIT",
        0x2C => "BIT",
        // BMI
        0x30 => "BMI",
        // BNE
        0xD0 => "BNE",
        // BPL
        0x10 => "BPL",
        // BVC
        0x50 => "BVC",
        // BVS
        0x70 => "BVS",
        // CLC
        0x18 => "CLC",
        // CLD
        0xD8 => "CLD",
        // CLI
        0x58 => "CLI",
        // CLV
        0xB8 => "CLV",
        // CMP
        0xC9 | 0xC5 | 0xD5 | 0xCD | 0xDD | 0xD9 | 0xC1 | 0xD1 => "CMP",
        // CPX
        0xE0 | 0xE4 | 0xEC => "CPX",
        // CPY
        0xC0 | 0xC4 | 0xCC => "CPY",
        // DEC
        0xC6 | 0xD6 | 0xCE | 0xDE => "DEC",
        // DEX
        0xCA => "DEX",
        // DEY
        0x88 => "DEY",
        // EOR
        0x49 | 0x45 | 0x55 | 0x4D | 0x5D | 0x59 | 0x41 | 0x51 => "EOR",
        // INC
        0xE6 | 0xF6 | 0xEE | 0xFE => "INC",
        // INX
        0xE8 => "INX",
        // INY
        0xC8 => "INY",
        // JMP
        0x4C => "JMP",
        0x6C => "JMP",
        // JSR
        0x20 => "JSR",
        // LDA
        0xA9 | 0xA5 | 0xB5 | 0xAD | 0xBD | 0xB9 | 0xA1 | 0xB1 => "LDA",
        // LDX
        0xA2 | 0xA6 | 0xB6 | 0xAE | 0xBE => "LDX",
        // LDY
        0xA0 | 0xA4 | 0xB4 | 0xAC | 0xBC => "LDY",
        // LSR
        0x4A | 0x46 | 0x56 | 0x4E | 0x5E => "LSR",
        // NOP
        0xEA => "NOP",
        // ORA
        0x09 | 0x05 | 0x15 | 0x0D | 0x1D | 0x19 | 0x01 | 0x11 => "ORA",
        // PHA
        0x48 => "PHA",
        // PHP
        0x08 => "PHP",
        // PLA
        0x68 => "PLA",
        // PLP
        0x28 => "PLP",
        // ROL
        0x2A | 0x26 | 0x36 | 0x2E | 0x3E => "ROL",
        // ROR
        0x6A | 0x66 | 0x76 | 0x6E | 0x7E => "ROR",
        // RTI
        0x40 => "RTI",
        // RTS
        0x60 => "RTS",
        // SBC
        0xE9 | 0xE5 | 0xF5 | 0xED | 0xFD | 0xF9 | 0xE1 | 0xF1 => "SBC",
        // SEC
        0x38 => "SEC",
        // SED
        0xF8 => "SED",
        // SEI
        0x78 => "SEI",
        // STA
        0x85 | 0x95 | 0x8D | 0x9D | 0x99 | 0x81 | 0x91 => "STA",
        // STX
        0x86 | 0x96 | 0x8E => "STX",
        // STY
        0x84 | 0x94 | 0x8C => "STY",
        // TAX
        0xAA => "TAX",
        // TAY
        0xA8 => "TAY",
        // TSX
        0xBA => "TSX",
        // TXA
        0x8A => "TXA",
        // TXS
        0x9A => "TXS",
        // TYA
        0x98 => "TYA",
        // Undocumented opcodes
        // AAC
        0x0B | 0x2B => "*AAC*",
        // AAX
        0x87 | 0x97 | 0x83 | 0x8F => "*AAX*",
        // ARR
        0x6B => "*ARR*",
        // ASR
        0x4B => "*ASR*",
        // ATX
        0xAB => "*ATX*",
        // AXA
        0x9F | 0x93 => "*AXA*",
        // AXS
        0xCB => "*AXS*",
        // DCP
        0xC7 | 0xD7 | 0xCF | 0xDF | 0xDB | 0xC3 | 0xD3 => "*DCP*",
        // DOP - double NOP
        0x04 | 0x14 | 0x34 | 0x44 | 0x54 | 0x64 | 0x74 | 0x80 | 0x82 | 0x89 | 0xC2 | 0xD4 | 0xE2 | 0xF4 => "*DOP*",
        //ISC
        0xE7 | 0xF7 | 0xEF | 0xFF | 0xFB | 0xE3 | 0xF3 => "*ISC*",
        // KIL
        0x02 | 0x12 | 0x22 | 0x32 | 0x42 | 0x52 | 0x62 | 0x72 | 0x92 | 0xB2 | 0xD2 | 0xF2 => "*KIL*",
        // LAR
        0xBB => "*LAR*",
        // LAX
        0xA7 | 0xB7 | 0xAF | 0xBF | 0xA3 | 0xB3 => "*LAX*",
        // NOP
        0x1A | 0x3A | 0x5A | 0x7A | 0xDA | 0xFA => "*NOP*",
        // RLA
        0x27 | 0x37 | 0x2F | 0x3F | 0x3B | 0x23 | 0x33 => "*RLA*",
        // RRA
        0x67 | 0x77 | 0x6F | 0x7F | 0x7B | 0x63 | 0x73 => "*RRA*",
        // SBC
        0xEB => "*SBC*",
        // SLO
        0x07 | 0x17 | 0x0F | 0x1F | 0x1B | 0x03 | 0x13 => "*SLO*",
        // SRE
        0x47 | 0x57 | 0x4F | 0x5F | 0x5B | 0x43 | 0x53 => "*SRE*",
        // SXA
        0x9E => "*SXA*",
        // SYA
        0x9C => "*SYA*",
        // TOP
        0x0C | 0x1C | 0x3C | 0x5C | 0x7C | 0xDC | 0xFC => "*TOP*",
        // XAA
        0x8B => "*XAA*",
        // XAS
        0x9B => "XAS",
    }
}

/// The mnemonic of an opcode for trace output.
pub fn opcode_to_mnemonic(opcode: u8, tm: u8) -> (r: &'static str)
    requires
        opcode == 0x00 ==> tm <= 0x06 || (0x10 <= tm <= 0x18) || (0x20 <= tm <= 0x26) || (0x30 <= tm <= 0x36),
    ensures
        r == spec_mnemonic(opcode, tm),
{
    match opcode {
        0x00 => {
            if 0x10 <= tm && tm <= 0x18 {
                "RST"
            } else if tm <= 0x06 {
                "BRK"
            } else if 0x30 <= tm && tm <= 0x36 {
                "IRQ"
            } else {
                "NMI"
            }
        }
        // AdcNoDec
        0x69 | 0x65 | 0x75 | 0x6D | 0x7D | 0x79 | 0x61 | 0x71 => "Adc",
        // AND
        0x29 | 0x25 | 0x35 | 0x2D | 0x3D | 0x39 | 0x21 | 0x31 => "AND",
        // ASL
        0x0A | 0x06 | 0x16 | 0x0E | 0x1E => "ASL",
        // BCC
        0x90 => "BCC",
        // BCS
        0xB0 => "BCS",
        // BEQ
        0xF0 => "BEQ",
        // BIT
        0x24 => "BIT",
        0x2C => "BIT",
        // BMI
        0x30 => "BMI",
        // BNE
        0xD0 => "BNE",
        // BPL
        0x10 => "BPL",
        // BVC
        0x50 => "BVC",
        // BVS
        0x70 => "BVS",
        // CLC
        0x18 => "CLC",
        // CLD
        0xD8 => "CLD",
        // CLI
        0x58 => "CLI",
        // CLV
        0xB8 => "CLV",
        // CMP
        0xC9 | 0xC5 | 0xD5 | 0xCD | 0xDD | 0xD9 | 0xC1 | 0xD1 => "CMP",
        // CPX
        0xE0 | 0xE4 | 0xEC => "CPX",
        // CPY
        0xC0 | 0xC4 | 0xCC => "CPY",
        // DEC
        0xC6 | 0xD6 | 0xCE | 0xDE => "DEC",
        // DEX
        0xCA => "DEX",
        // DEY
        0x88 => "DEY",
        // EOR
        0x49 | 0x45 | 0x55 | 0x4D | 0x5D | 0x59 | 0x41 | 0x51 => "EOR",
        // INC
        0xE6 | 0xF6 | 0xEE | 0xFE => "INC",
        // INX
        0xE8 => "INX",
        // INY
        0xC8 => "INY",
        // JMP
        0x4C => "JMP",
        0x6C => "JMP",
        // JSR
        0x20 => "JSR",
        // LDA
        0xA9 | 0xA5 | 0xB5 | 0xAD | 0xBD | 0xB9 | 0xA1 | 0xB1 => "LDA",
        // LDX
        0xA2 | 0xA6 | 0xB6 | 0xAE | 0xBE => "LDX",
        // LDY
        0xA0 | 0xA4 | 0xB4 | 0xAC | 0xBC => "LDY",
        // LSR
        0x4A | 0x46 | 0x56 | 0x4E | 0x5E => "LSR",
        // NOP
        0xEA => "NOP",
        // ORA
        0x09 | 0x05 | 0x15 | 0x0D | 0x1D | 0x19 | 0x01 | 0x11 => "ORA",
        // PHA
        0x48 => "PHA",
        // PHP
        0x08 => "PHP",
        // PLA
        0x68 => "PLA",
        // PLP
        0x28 => "PLP",
        // ROL
        0x2A | 0x26 | 0x36 | 0x2E | 0x3E => "ROL",
        // ROR
        0x6A | 0x66 | 0x76 | 0x6E | 0x7E => "ROR",
        // RTI
        0x40 => "RTI",
        // RTS
        0x60 => "RTS",
        // SBC
        0xE9 | 0xE5 | 0xF5 | 0xED | 0xFD | 0xF9 | 0xE1 | 0xF1 => "SBC",
        // SEC
        0x38 => "SEC",
        // SED
        0xF8 => "SED",
        // SEI
        0x78 => "SEI",
        // STA
        0x85 | 0x95 | 0x8D | 0x9D | 0x99 | 0x81 | 0x91 => "STA",
        // STX
        0x86 | 0x96 | 0x8E => "STX",
        // STY
        0x84 | 0x94 | 0x8C => "STY",
        // TAX
        0xAA => "TAX",
        // TAY
        0xA8 => "TAY",
        // TSX
        0xBA => "TSX",
        // TXA
        0x8A => "TXA",
        // TXS
        0x9A => "TXS",
        // TYA
        0x98 => "TYA",
        // Undocumented opcodes
        // AAC
        0x0B | 0x2B => "*AAC*",
        // AAX
        0x87 | 0x97 | 0x83 | 0x8F => "*AAX*",
        // ARR
        0x6B => "*ARR*",
        // ASR
        0x4B => "*ASR*",
        // ATX
        0xAB => "*ATX*",
        // AXA
        0x9F | 0x93 => "*AXA*",
        // AXS
        0xCB => "*AXS*",
        // DCP
        0xC7 | 0xD7 | 0xCF | 0xDF | 0xDB | 0xC3 | 0xD3 => "*DCP*",
        // DOP - double NOP
        0x04 | 0x14 | 0x34 | 0x44 | 0x54 | 0x64 | 0x74 | 0x80 | 0x82 | 0x89 | 0xC2 | 0xD4 | 0xE2 | 0xF4 => "*DOP*",
        //ISC
        0xE7 | 0xF7 | 0xEF | 0xFF | 0xFB | 0xE3 | 0xF3 => "*ISC*",
        // KIL
        0x02 | 0x12 | 0x22 | 0x32 | 0x42 | 0x52 | 0x62 | 0x72 | 0x92 | 0xB2 | 0xD2 | 0xF2 => "*KIL*",
        // LAR
        0xBB => "*LAR*",
        // LAX
        0xA7 | 0xB7 | 0xAF | 0xBF | 0xA3 | 0xB3 => "*LAX*",
        // NOP
        0x1A | 0x3A | 0x5A | 0x7A | 0xDA | 0xFA => "*NOP*",
        // RLA
        0x27 | 0x37 | 0x2F | 0x3F | 0x3B | 0x23 | 0x33 => "*RLA*",
        // RRA
        0x67 | 0x77 | 0x6F | 0x7F | 0x7B | 0x63 | 0x73 => "*RRA*",
        // SBC
        0xEB => "*SBC*",
        // SLO
        0x07 | 0x17 | 0x0F | 0x1F | 0x1B | 0x03 | 0x13 => "*SLO*",
        // SRE
        0x47 | 0x57 | 0x4F | 0x5F | 0x5B | 0x43 | 0x53 => "*SRE*",
        // SXA
        0x9E => "*SXA*",
        // SYA
        0x9C => "*SYA*",
        // TOP
        0x0C | 0x1C | 0x3C | 0x5C | 0x7C | 0xDC | 0xFC => "*TOP*",
        // XAA
        0x8B => "*XAA*",
        // XAS
        0x9B => "XAS",
    }
}

/// The number of cycles of an opcode, as `spec_cycle_count` gives it.
pub fn cycle_count(opcode: u8) -> (r: u8)
    ensures r == spec_cycle_count(opcode),
{
    if opcode == 0x00 {
        0
    } else if opcode == 0x02 || opcode == 0x09 || opcode == 0x0A || opcode == 0x0B || opcode == 0x12 || opcode == 0x18 || opcode == 0x1A || opcode == 0x22 || opcode == 0x29 || opcode == 0x2A || opcode == 0x2B || opcode == 0x32 || opcode == 0x38 || opcode == 0x3A || opcode == 0x42 || opcode == 0x49 || opcode == 0x4A || opcode == 0x4B || opcode == 0x52 || opcode == 0x58 || opcode == 0x5A || opcode == 0x62 || opcode == 0x69 || opcode == 0x6A || opcode == 0x6B || opcode == 0x72 || opcode == 0x78 || opcode == 0x7A || opcode == 0x80 || opcode == 0x82 || opcode == 0x88 || opcode == 0x89 || opcode == 0x8A || opcode == 0x8B || opcode == 0x92 || opcode == 0x98 || opcode == 0x9A || opcode == 0xA0 || opcode == 0xA2 || opcode == 0xA8 || opcode == 0xA9 || opcode == 0xAA || opcode == 0xAB || opcode == 0xB2 || opcode == 0xB8 || opcode == 0xBA || opcode == 0xC0 || opcode == 0xC2 || opcode == 0xC8 || opcode == 0xC9 || opcode == 0xCA || opcode == 0xCB || opcode == 0xD2 || opcode == 0xD8 || opcode == 0xDA || opcode == 0xE0 || opcode == 0xE2 || opcode == 0xE8 || opcode == 0xE9 || opcode == 0xEA || opcode == 0xEB || opcode == 0xF2 || opcode == 0xF8 || opcode == 0xFA {
        2
    } else if opcode == 0x04 || opcode == 0x05 || opcode == 0x08 || opcode == 0x24 || opcode == 0x25 || opcode == 0x44 || opcode == 0x45 || opcode == 0x48 || opcode == 0x4C || opcode == 0x64 || opcode == 0x65 || opcode == 0x84 || opcode == 0x85 || opcode == 0x86 || opcode == 0x87 || opcode == 0xA4 || opcode == 0xA5 || opcode == 0xA6 || opcode == 0xA7 || opcode == 0xC4 || opcode == 0xC5 || opcode == 0xE4 || opcode == 0xE5 {
        3
    } else if opcode == 0x0C || opcode == 0x0D || opcode == 0x10 || opcode == 0x14 || opcode == 0x15 || opcode == 0x28 || opcode == 0x2C || opcode == 0x2D || opcode == 0x30 || opcode == 0x34 || opcode == 0x35 || opcode == 0x4D || opcode == 0x50 || opcode == 0x54 || opcode == 0x55 || opcode == 0x68 || opcode == 0x6D || opcode == 0x70 || opcode == 0x74 || opcode == 0x75 || opcode == 0x8C || opcode == 0x8D || opcode == 0x8E || opcode == 0x8F || opcode == 0x90 || opcode == 0x94 || opcode == 0x95 || opcode == 0x96 || opcode == 0x97 || opcode == 0xAC || opcode == 0xAD || opcode == 0xAE || opcode == 0xAF || opcode == 0xB0 || opcode == 0xB4 || opcode == 0xB5 || opcode == 0xB6 || opcode == 0xB7 || opcode == 0xCC || opcode == 0xCD || opcode == 0xD0 || opcode == 0xD4 || opcode == 0xD5 || opcode == 0xEC || opcode == 0xED || opcode == 0xF0 || opcode == 0xF4 || opcode == 0xF5 {
        4
    } else if opcode == 0x06 || opcode == 0x07 || opcode == 0x19 || opcode == 0x1C || opcode == 0x1D || opcode == 0x26 || opcode == 0x27 || opcode == 0x39 || opcode == 0x3C || opcode == 0x3D || opcode == 0x46 || opcode == 0x47 || opcode == 0x59 || opcode == 0x5C || opcode == 0x5D || opcode == 0x66 || opcode == 0x67 || opcode == 0x6C || opcode == 0x79 || opcode == 0x7C || opcode == 0x7D || opcode == 0x99 || opcode == 0x9B || opcode == 0x9C || opcode == 0x9D || opcode == 0x9E || opcode == 0x9F || opcode == 0xB9 || opcode == 0xBB || opcode == 0xBC || opcode == 0xBD || opcode == 0xBE || opcode == 0xBF || opcode == 0xC6 || opcode == 0xC7 || opcode == 0xD9 || opcode == 0xDC || opcode == 0xDD || opcode == 0xE6 || opcode == 0xE7 || opcode == 0xF9 || opcode == 0xFC || opcode == 0xFD {
        5
    } else if opcode == 0x01 || opcode == 0x0E || opcode == 0x0F || opcode == 0x11 || opcode == 0x16 || opcode == 0x17 || opcode == 0x20 || opcode == 0x21 || opcode == 0x2E || opcode == 0x2F || opcode == 0x31 || opcode == 0x36 || opcode == 0x37 || opcode == 0x40 || opcode == 0x41 || opcode == 0x4E || opcode == 0x4F || opcode == 0x51 || opcode == 0x56 || opcode == 0x57 || opcode == 0x60 || opcode == 0x61 || opcode == 0x6E || opcode == 0x6F || opcode == 0x71 || opcode == 0x76 || opcode == 0x77 || opcode == 0x81 || opcode == 0x83 || opcode == 0x91 || opcode == 0x93 || opcode == 0xA1 || opcode == 0xA3 || opcode == 0xB1 || opcode == 0xB3 || opcode == 0xC1 || opcode == 0xCE || opcode == 0xCF || opcode == 0xD1 || opcode == 0xD6 || opcode == 0xD7 || opcode == 0xE1 || opcode == 0xEE || opcode == 0xEF || opcode == 0xF1 || opcode == 0xF6 || opcode == 0xF7 {
        6
    } else if opcode == 0x1B || opcode == 0x1E || opcode == 0x1F || opcode == 0x3B || opcode == 0x3E || opcode == 0x3F || opcode == 0x5B || opcode == 0x5E || opcode == 0x5F || opcode == 0x7B || opcode == 0x7E || opcode == 0x7F || opcode == 0xDB || opcode == 0xDE || opcode == 0xDF || opcode == 0xFB || opcode == 0xFE || opcode == 0xFF {
        7
    } else if opcode == 0x03 || opcode == 0x13 || opcode == 0x23 || opcode == 0x33 || opcode == 0x43 || opcode == 0x53 || opcode == 0x63 || opcode == 0x73 || opcode == 0xC3 || opcode == 0xD3 || opcode == 0xE3 || opcode == 0xF3 {
        8
    } else {
        0
    }
}

/// The cpu state after the cycle `code` (opcode 0x00 to 0x0F, timing
/// state) runs, `r` being the pinout the cycle returns; a code without a
/// cycle leaves the state alone.
#[verifier::opaque]
pub open spec fn spec_cycle_0(cpu: Context, pinout: Pinout, r: Pinout, code: u16) -> Context {
    match code {
        0x0000 => super::operations::spec_brk_c0(cpu, pinout, r),
        0x0001 => super::operations::spec_brk_c1(cpu, pinout, r),
        0x0002 => super::operations::spec_brk_c2(cpu, pinout, r),
        0x0003 => super::operations::spec_brk_c3(cpu, pinout, r),
        0x0004 => super::operations::spec_brk_c4(cpu, pinout, r),
        0x0005 => super::operations::spec_brk_c5(cpu, pinout, r),
        0x0006 => super::operations::spec_brk_c6(cpu, pinout, r),
        0x0010 => super::operations::spec_rst_c0(cpu, pinout, r),
        0x0011 => super::operations::spec_rst_c1(cpu, pinout, r),
        0x0012 => super::operations::spec_rst_c2(cpu, pinout, r),
        0x0013 => super::operations::spec_rst_c3(cpu, pinout, r),
        0x0014 => super::operations::spec_rst_c4(cpu, pinout, r),
        0x0015 => super::operations::spec_rst_c5(cpu, pinout, r),
        0x0016 => super::operations::spec_rst_c6(cpu, pinout, r),
        0x0017 => super::operations::spec_rst_c7(cpu, pinout, r),
        0x0018 => super::operations::spec_rst_c8(cpu, pinout, r),
        0x0020 => super::operations::spec_nmi_c0(cpu, pinout, r),
        0x0021 => super::operations::spec_nmi_c1(cpu, pinout, r),
        0x0022 => super::operations::spec_nmi_c2(cpu, pinout, r),
        0x0023 => super::operations::spec_nmi_c3(cpu, pinout, r),
        0x0024 => super::operations::spec_nmi_c4(cpu, pinout, r),
        0x0025 => super::operations::spec_nmi_c5(cpu, pinout, r),
        0x0026 => super::operations::spec_nmi_c6(cpu, pinout, r),
        0x0030 => super::operations::spec_irq_c0(cpu, pinout, r),
        0x0031 => super::operations::spec_irq_c1(cpu, pinout, r),
        0x0032 => super::operations::spec_irq_c2(cpu, pinout, r),
        0x0033 => super::operations::spec_irq_c3(cpu, pinout, r),
        0x0034 => super::operations::spec_irq_c4(cpu, pinout, r),
        0x0035 => super::operations::spec_irq_c5(cpu, pinout, r),
        0x0036 => super::operations::spec_irq_c6(cpu, pinout, r),
        0x0100 => super::operations::spec_indirect_x_read_c0(cpu, pinout, r),
        0x0101 => super::operations::spec_indirect_x_read_c1(cpu, pinout, r),
        0x0102 => super::operations::spec_indirect_x_read_c2(cpu, pinout, r),
        0x0103 => super::operations::spec_indirect_x_read_c3(cpu, pinout, r),
        0x0104 => super::operations::spec_indirect_x_read_c4(cpu, pinout, r),
        0x0105 => super::operations::spec_indirect_x_read_c5::<Ora>(cpu, pinout, r),
        0x0200 => super::operations::spec_single_byte_c0(cpu, pinout, r),
        0x0201 => super::operations::spec_single_byte_c1::<Kil>(cpu, pinout, r),
        0x0300 => super::operations::spec_undoc_indirect_x_c0(cpu, pinout, r),
        0x0301 => super::operations::spec_undoc_indirect_x_c1(cpu, pinout, r),
        0x0302 => super::operations::spec_undoc_indirect_x_c2(cpu, pinout, r),
        0x0303 => super::operations::spec_undoc_indirect_x_c3(cpu, pinout, r),
        0x0304 => super::operations::spec_undoc_indirect_x_c4(cpu, pinout, r),
        0x0305 => super::operations::spec_undoc_indirect_x_c5::<Slo>(cpu, pinout, r),
        0x0306 => super::operations::spec_undoc_indirect_x_c6(cpu, pinout, r),
        0x0307 => super::operations::spec_undoc_indirect_x_c7(cpu, pinout, r),
        0x0400 => super::operations::spec_zeropage_read_c0(cpu, pinout, r),
        0x0401 => super::operations::spec_zeropage_read_c1(cpu, pinout, r),
        0x0402 => super::operations::spec_zeropage_read_c2::<Nop>(cpu, pinout, r),
        0x0500 => super::operations::spec_zeropage_read_c0(cpu, pinout, r),
        0x0501 => super::operations::spec_zeropage_read_c1(cpu, pinout, r),
        0x0502 => super::operations::spec_zeropage_read_c2::<Ora>(cpu, pinout, r),
        0x0600 => super::operations::spec_zeropage_modify_c0(cpu, pinout, r),
        0x0601 => super::operations::spec_zeropage_modify_c1(cpu, pinout, r),
        0x0602 => super::operations::spec_zeropage_modify_c2::<Asl>(cpu, pinout, r),
        0x0603 => super::operations::spec_zeropage_modify_c3(cpu, pinout, r),
        0x0604 => super::operations::spec_zeropage_modify_c4(cpu, pinout, r),
        0x0700 => super::operations::spec_zeropage_modify_c0(cpu, pinout, r),
        0x0701 => super::operations::spec_zeropage_modify_c1(cpu, pinout, r),
        0x0702 => super::operations::spec_zeropage_modify_c2::<Slo>(cpu, pinout, r),
        0x0703 => super::operations::spec_zeropage_modify_c3(cpu, pinout, r),
        0x0704 => super::operations::spec_zeropage_modify_c4(cpu, pinout, r),
        0x0800 => super::operations::spec_php_c0(cpu, pinout, r),
        0x0801 => super::operations::spec_php_c1(cpu, pinout, r),
        0x0802 => super::operations::spec_php_c2(cpu, pinout, r),
        0x0900 => super::operations::spec_immediate_read_c0(cpu, pinout, r),
        0x0901 => super::operations::spec_immediate_read_c1::<Ora>(cpu, pinout, r),
        0x0A00 => super::operations::spec_single_byte_c0(cpu, pinout, r),
        0x0A01 => super::operations::spec_single_byte_c1::<AslAccum>(cpu, pinout, r),
        0x0B00 => super::operations::spec_immediate_read_c0(cpu, pinout, r),
        0x0B01 => super::operations::spec_immediate_read_c1::<Aac>(cpu, pinout, r),
        0x0C00 => super::operations::spec_absolute_read_c0(cpu, pinout, r),
        0x0C01 => super::operations::spec_absolute_read_c1(cpu, pinout, r),
        0x0C02 => super::operations::spec_absolute_read_c2(cpu, pinout, r),
        0x0C03 => super::operations::spec_absolute_read_c3::<Nop>(cpu, pinout, r),
        0x0D00 => super::operations::spec_absolute_read_c0(cpu, pinout, r),
        0x0D01 => super::operations::spec_absolute_read_c1(cpu, pinout, r),
        0x0D02 => super::operations::spec_absolute_read_c2(cpu, pinout, r),
        0x0D03 => super::operations::spec_absolute_read_c3::<Ora>(cpu, pinout, r),
        0x0E00 => super::operations::spec_absolute_modify_c0(cpu, pinout, r),
        0x0E01 => super::operations::spec_absolute_modify_c1(cpu, pinout, r),
        0x0E02 => super::operations::spec_absolute_modify_c2(cpu, pinout, r),
        0x0E03 => super::operations::spec_absolute_modify_c3::<Asl>(cpu, pinout, r),
        0x0E04 => super::operations::spec_absolute_modify_c4(cpu, pinout, r),
        0x0E05 => super::operations::spec_absolute_modify_c5(cpu, pinout, r),
        0x0F00 => super::operations::spec_absolute_modify_c0(cpu, pinout, r),
        0x0F01 => super::operations::spec_absolute_modify_c1(cpu, pinout, r),
        0x0F02 => super::operations::spec_absolute_modify_c2(cpu, pinout, r),
        0x0F03 => super::operations::spec_absolute_modify_c3::<Slo>(cpu, pinout, r),
        0x0F04 => super::operations::spec_absolute_modify_c4(cpu, pinout, r),
        0x0F05 => super::operations::spec_absolute_modify_c5(cpu, pinout, r),
        _ => cpu,
    }
}

/// The requests the cycle `code` (opcodes 0x00 to 0x0F) puts on the bus, oldest first.
#[verifier::opaque]
pub open spec fn spec_cycle_requests_0(cpu: Context, pinout: Pinout, code: u16) -> Seq<Pinout> {
    match code {
        0x0000 => super::operations::spec_brk_c0_requests(cpu, pinout),
        0x0001 => super::operations::spec_brk_c1_requests(cpu, pinout),
        0x0002 => super::operations::spec_brk_c2_requests(cpu, pinout),
        0x0003 => super::operations::spec_brk_c3_requests(cpu, pinout),
        0x0004 => super::operations::spec_brk_c4_requests(cpu, pinout),
        0x0005 => super::operations::spec_brk_c5_requests(cpu, pinout),
        0x0006 => super::operations::spec_brk_c6_requests(cpu, pinout),
        0x0010 => super::operations::spec_rst_c0_requests(cpu, pinout),
        0x0011 => super::operations::spec_rst_c1_requests(cpu, pinout),
        0x0012 => super::operations::spec_rst_c2_requests(cpu, pinout),
        0x0013 => super::operations::spec_rst_c3_requests(cpu, pinout),
        0x0014 => super::operations::spec_rst_c4_requests(cpu, pinout),
        0x0015 => super::operations::spec_rst_c5_requests(cpu, pinout),
        0x0016 => super::operations::spec_rst_c6_requests(cpu, pinout),
        0x0017 => super::operations::spec_rst_c7_requests(cpu, pinout),
        0x0018 => super::operations::spec_rst_c8_requests(cpu, pinout),
        0x0020 => super::operations::spec_nmi_c0_requests(cpu, pinout),
        0x0021 => super::operations::spec_nmi_c1_requests(cpu, pinout),
        0x0022 => super::operations::spec_nmi_c2_requests(cpu, pinout),
        0x0023 => super::operations::spec_nmi_c3_requests(cpu, pinout),
        0x0024 => super::operations::spec_nmi_c4_requests(cpu, pinout),
        0x0025 => super::operations::spec_nmi_c5_requests(cpu, pinout),
        0x0026 => super::operations::spec_nmi_c6_requests(cpu, pinout),
        0x0030 => super::operations::spec_irq_c0_requests(cpu, pinout),
        0x0031 => super::operations::spec_irq_c1_requests(cpu, pinout),
        0x0032 => super::operations::spec_irq_c2_requests(cpu, pinout),
        0x0033 => super::operations::spec_irq_c3_requests(cpu, pinout),
        0x0034 => super::operations::spec_irq_c4_requests(cpu, pinout),
        0x0035 => super::operations::spec_irq_c5_requests(cpu, pinout),
        0x0036 => super::operations::spec_irq_c6_requests(cpu, pinout),
        0x0100 => super::operations::spec_indirect_x_read_c0_requests(cpu, pinout),
        0x0101 => super::operations::spec_indirect_x_read_c1_requests(cpu, pinout),
        0x0102 => super::operations::spec_indirect_x_read_c2_requests(cpu, pinout),
        0x0103 => super::operations::spec_indirect_x_read_c3_requests(cpu, pinout),
        0x0104 => super::operations::spec_indirect_x_read_c4_requests(cpu, pinout),
        0x0105 => super::operations::spec_indirect_x_read_c5_requests::<Ora>(cpu, pinout),
        0x0200 => super::operations::spec_single_byte_c0_requests(cpu, pinout),
        0x0201 => super::operations::spec_single_byte_c1_requests::<Kil>(cpu, pinout),
        0x0300 => super::operations::spec_undoc_indirect_x_c0_requests(cpu, pinout),
        0x0301 => super::operations::spec_undoc_indirect_x_c1_requests(cpu, pinout),
        0x0302 => super::operations::spec_undoc_indirect_x_c2_requests(cpu, pinout),
        0x0303 => super::operations::spec_undoc_indirect_x_c3_requests(cpu, pinout),
        0x0304 => super::operations::spec_undoc_indirect_x_c4_requests(cpu, pinout),
        0x0305 => super::operations::spec_undoc_indirect_x_c5_requests::<Slo>(cpu, pinout),
        0x0306 => super::operations::spec_undoc_indirect_x_c6_requests(cpu, pinout),
        0x0307 => super::operations::spec_undoc_indirect_x_c7_requests(cpu, pinout),
        0x0400 => super::operations::spec_zeropage_read_c0_requests(cpu, pinout),
        0x0401 => super::operations::spec_zeropage_read_c1_requests(cpu, pinout),
        0x0402 => super::operations::spec_zeropage_read_c2_requests::<Nop>(cpu, pinout),
        0x0500 => super::operations::spec_zeropage_read_c0_requests(cpu, pinout),
        0x0501 => super::operations::spec_zeropage_read_c1_requests(cpu, pinout),
        0x0502 => super::operations::spec_zeropage_read_c2_requests::<Ora>(cpu, pinout),
        0x0600 => super::operations::spec_zeropage_modify_c0_requests(cpu, pinout),
        0x0601 => super::operations::spec_zeropage_modify_c1_requests(cpu, pinout),
        0x0602 => super::operations::spec_zeropage_modify_c2_requests::<Asl>(cpu, pinout),
        0x0603 => super::operations::spec_zeropage_modify_c3_requests(cpu, pinout),
        0x0604 => super::operations::spec_zeropage_modify_c4_requests(cpu, pinout),
        0x0700 => super::operations::spec_zeropage_modify_c0_requests(cpu, pinout),
        0x0701 => super::operations::spec_zeropage_modify_c1_requests(cpu, pinout),
        0x0702 => super::operations::spec_zeropage_modify_c2_requests::<Slo>(cpu, pinout),
        0x0703 => super::operations::spec_zeropage_modify_c3_requests(cpu, pinout),
        0x0704 => super::operations::spec_zeropage_modify_c4_requests(cpu, pinout),
        0x0800 => super::operations::spec_php_c0_requests(cpu, pinout),
        0x0801 => super::operations::spec_php_c1_requests(cpu, pinout),
        0x0802 => super::operations::spec_php_c2_requests(cpu, pinout),
        0x0900 => super::operations::spec_immediate_read_c0_requests(cpu, pinout),
        0x0901 => super::operations::spec_immediate_read_c1_requests::<Ora>(cpu, pinout),
        0x0A00 => super::operations::spec_single_byte_c0_requests(cpu, pinout),
        0x0A01 => super::operations::spec_single_byte_c1_requests::<AslAccum>(cpu, pinout),
        0x0B00 => super::operations::spec_immediate_read_c0_requests(cpu, pinout),
        0x0B01 => super::operations::spec_immediate_read_c1_requests::<Aac>(cpu, pinout),
        0x0C00 => super::operations::spec_absolute_read_c0_requests(cpu, pinout),
        0x0C01 => super::operations::spec_absolute_read_c1_requests(cpu, pinout),
        0x0C02 => super::operations::spec_absolute_read_c2_requests(cpu, pinout),
        0x0C03 => super::operations::spec_absolute_read_c3_requests::<Nop>(cpu, pinout),
        0x0D00 => super::operations::spec_absolute_read_c0_requests(cpu, pinout),
        0x0D01 => super::operations::spec_absolute_read_c1_requests(cpu, pinout),
        0x0D02 => super::operations::spec_absolute_read_c2_requests(cpu, pinout),
        0x0D03 => super::operations::spec_absolute_read_c3_requests::<Ora>(cpu, pinout),
        0x0E00 => super::operations::spec_absolute_modify_c0_requests(cpu, pinout),
        0x0E01 => super::operations::spec_absolute_modify_c1_requests(cpu, pinout),
        0x0E02 => super::operations::spec_absolute_modify_c2_requests(cpu, pinout),
        0x0E03 => super::operations::spec_absolute_modify_c3_requests::<Asl>(cpu, pinout),
        0x0E04 => super::operations::spec_absolute_modify_c4_requests(cpu, pinout),
        0x0E05 => super::operations::spec_absolute_modify_c5_requests(cpu, pinout),
        0x0F00 => super::operations::spec_absolute_modify_c0_requests(cpu, pinout),
        0x0F01 => super::operations::spec_absolute_modify_c1_requests(cpu, pinout),
        0x0F02 => super::operations::spec_absolute_modify_c2_requests(cpu, pinout),
        0x0F03 => super::operations::spec_absolute_modify_c3_requests::<Slo>(cpu, pinout),
        0x0F04 => super::operations::spec_absolute_modify_c4_requests(cpu, pinout),
        0x0F05 => super::operations::spec_absolute_modify_c5_requests(cpu, pinout),
        _ => Seq::empty(),
    }
}

/// The cycles of the opcodes 0x00 to 0x0F.
#[verifier::spinoff_prover]
#[verifier::rlimit(80)]
fn run_cycle_0<B: Bus>(cpu: &mut Context, bus: &mut B, pinout: Pinout, code: u16) -> (r: Pinout)
    requires
        old(bus).ready(),
        code as int == old(cpu).ir.opcode as int * 256 + old(cpu).ir.tm as int,
        spec_valid_ir(old(cpu).ir),
    ensures
        final(bus).ready(),
        final(bus).spec_clock() == old(bus).spec_clock(),
        final(cpu).cycle == (if code == 0x0018 { 7 } else { old(cpu).cycle }),
        final(bus).spec_requests() == old(bus).spec_requests() + spec_cycle_requests_0(*old(cpu), pinout, code),
        *final(cpu) == spec_cycle_0(*old(cpu), pinout, r, code),
        spec_valid_ir(final(cpu).ir),
{
    proof {
        reveal(spec_cycle_requests_0);
        reveal(spec_cycle_0);
    }
    let mut pinout = pinout;
    match code {
        0x0000 => { pinout = brk_c0(cpu, bus, pinout); }
        0x0001 => { pinout = brk_c1(cpu, bus, pinout); }
        0x0002 => { pinout = brk_c2(cpu, bus, pinout); }
        0x0003 => { pinout = brk_c3(cpu, bus, pinout); }
        0x0004 => { pinout = brk_c4(cpu, bus, pinout); }
        0x0005 => { pinout = brk_c5(cpu, bus, pinout); }
        0x0006 => { pinout = brk_c6(cpu, bus, pinout); }
        0x0010 => { pinout = rst_c0(cpu, bus, pinout); }
        0x0011 => { pinout = rst_c1(cpu, bus, pinout); }
        0x0012 => { pinout = rst_c2(cpu, bus, pinout); }
        0x0013 => { pinout = rst_c3(cpu, bus, pinout); }
        0x0014 => { pinout = rst_c4(cpu, bus, pinout); }
        0x0015 => { pinout = rst_c5(cpu, bus, pinout); }
        0x0016 => { pinout = rst_c6(cpu, bus, pinout); }
        0x0017 => { pinout = rst_c7(cpu, bus, pinout); }
        0x0018 => { pinout = rst_c8(cpu, bus, pinout); }
        0x0020 => { pinout = nmi_c0(cpu, bus, pinout); }
        0x0021 => { pinout = nmi_c1(cpu, bus, pinout); }
        0x0022 => { pinout = nmi_c2(cpu, bus, pinout); }
        0x0023 => { pinout = nmi_c3(cpu, bus, pinout); }
        0x0024 => { pinout = nmi_c4(cpu, bus, pinout); }
        0x0025 => { pinout = nmi_c5(cpu, bus, pinout); }
        0x0026 => { pinout = nmi_c6(cpu, bus, pinout); }
        0x0030 => { pinout = irq_c0(cpu, bus, pinout); }
        0x0031 => { pinout = irq_c1(cpu, bus, pinout); }
        0x0032 => { pinout = irq_c2(cpu, bus, pinout); }
        0x0033 => { pinout = irq_c3(cpu, bus, pinout); }
        0x0034 => { pinout = irq_c4(cpu, bus, pinout); }
        0x0035 => { pinout = irq_c5(cpu, bus, pinout); }
        0x0036 => { pinout = irq_c6(cpu, bus, pinout); }
        0x0100 => { pinout = indirect_x_read_c0(cpu, bus, pinout); }
        0x0101 => { pinout = indirect_x_read_c1(cpu, bus, pinout); }
        0x0102 => { pinout = indirect_x_read_c2(cpu, bus, pinout); }
        0x0103 => { pinout = indirect_x_read_c3(cpu, bus, pinout); }
        0x0104 => { pinout = indirect_x_read_c4(cpu, bus, pinout); }
        0x0105 => { pinout = indirect_x_read_c5::<B, Ora>(cpu, bus, pinout); }
        0x0200 => { pinout = single_byte_c0(cpu, bus, pinout); }
        0x0201 => { pinout = single_byte_c1::<B, Kil>(cpu, bus, pinout); }
        0x0300 => { pinout = undoc_indirect_x_c0(cpu, bus, pinout); }
        0x0301 => { pinout = undoc_indirect_x_c1(cpu, bus, pinout); }
        0x0302 => { pinout = undoc_indirect_x_c2(cpu, bus, pinout); }
        0x0303 => { pinout = undoc_indirect_x_c3(cpu, bus, pinout); }
        0x0304 => { pinout = undoc_indirect_x_c4(cpu, bus, pinout); }
        0x0305 => { pinout = undoc_indirect_x_c5::<B, Slo>(cpu, bus, pinout); }
        0x0306 => { pinout = undoc_indirect_x_c6(cpu, bus, pinout); }
        0x0307 => { pinout = undoc_indirect_x_c7(cpu, bus, pinout); }
        0x0400 => { pinout = zeropage_read_c0(cpu, bus, pinout); }
        0x0401 => { pinout = zeropage_read_c1(cpu, bus, pinout); }
        0x0402 => { pinout = zeropage_read_c2::<B, Nop>(cpu, bus, pinout); }
        0x0500 => { pinout = zeropage_read_c0(cpu, bus, pinout); }
        0x0501 => { pinout = zeropage_read_c1(cpu, bus, pinout); }
        0x0502 => { pinout = zeropage_read_c2::<B, Ora>(cpu, bus, pinout); }
        0x0600 => { pinout = zeropage_modify_c0(cpu, bus, pinout); }
        0x0601 => { pinout = zeropage_modify_c1(cpu, bus, pinout); }
        0x0602 => { pinout = zeropage_modify_c2::<B, Asl>(cpu, bus, pinout); }
        0x0603 => { pinout = zeropage_modify_c3(cpu, bus, pinout); }
        0x0604 => { pinout = zeropage_modify_c4(cpu, bus, pinout); }
        0x0700 => { pinout = zeropage_modify_c0(cpu, bus, pinout); }
        0x0701 => { pinout = zeropage_modify_c1(cpu, bus, pinout); }
        0x0702 => { pinout = zeropage_modify_c2::<B, Slo>(cpu, bus, pinout); }
        0x0703 => { pinout = zeropage_modify_c3(cpu, bus, pinout); }
        0x0704 => { pinout = zeropage_modify_c4(cpu, bus, pinout); }
        0x0800 => { pinout = php_c0(cpu, bus, pinout); }
        0x0801 => { pinout = php_c1(cpu, bus, pinout); }
        0x0802 => { pinout = php_c2(cpu, bus, pinout); }
        0x0900 => { pinout = immediate_read_c0(cpu, bus, pinout); }
        0x0901 => { pinout = immediate_read_c1::<B, Ora>(cpu, bus, pinout); }
        0x0A00 => { pinout = single_byte_c0(cpu, bus, pinout); }
        0x0A01 => { pinout = single_byte_c1::<B, AslAccum>(cpu, bus, pinout); }
        0x0B00 => { pinout = immediate_read_c0(cpu, bus, pinout); }
        0x0B01 => { pinout = immediate_read_c1::<B, Aac>(cpu, bus, pinout); }
        0x0C00 => { pinout = absolute_read_c0(cpu, bus, pinout); }
        0x0C01 => { pinout = absolute_read_c1(cpu, bus, pinout); }
        0x0C02 => { pinout = absolute_read_c2(cpu, bus, pinout); }
        0x0C03 => { pinout = absolute_read_c3::<B, Nop>(cpu, bus, pinout); }
        0x0D00 => { pinout = absolute_read_c0(cpu, bus, pinout); }
        0x0D01 => { pinout = absolute_read_c1(cpu, bus, pinout); }
        0x0D02 => { pinout = absolute_read_c2(cpu, bus, pinout); }
        0x0D03 => { pinout = absolute_read_c3::<B, Ora>(cpu, bus, pinout); }
        0x0E00 => { pinout = absolute_modify_c0(cpu, bus, pinout); }
        0x0E01 => { pinout = absolute_modify_c1(cpu, bus, pinout); }
        0x0E02 => { pinout = absolute_modify_c2(cpu, bus, pinout); }
        0x0E03 => { pinout = absolute_modify_c3::<B, Asl>(cpu, bus, pinout); }
        0x0E04 => { pinout = absolute_modify_c4(cpu, bus, pinout); }
        0x0E05 => { pinout = absolute_modify_c5(cpu, bus, pinout); }
        0x0F00 => { pinout = absolute_modify_c0(cpu, bus, pinout); }
        0x0F01 => { pinout = absolute_modify_c1(cpu, bus, pinout); }
        0x0F02 => { pinout = absolute_modify_c2(cpu, bus, pinout); }
        0x0F03 => { pinout = absolute_modify_c3::<B, Slo>(cpu, bus, pinout); }
        0x0F04 => { pinout = absolute_modify_c4(cpu, bus, pinout); }
        0x0F05 => { pinout = absolute_modify_c5(cpu, bus, pinout); }
        _ => {}
    }
    pinout
}

/// The cpu state after the cycle `code` (opcode 0x10 to 0x1F, timing
/// state) runs, `r` being the pinout the cycle returns; a code without a
/// cycle leaves the state alone.
#[verifier::opaque]
pub open spec fn spec_cycle_1(cpu: Context, pinout: Pinout, r: Pinout, code: u16) -> Context {
    match code {
        0x1000 => super::operations::spec_branch_c0(cpu, pinout, r),
        0x1001 => super::operations::spec_branch_c1::<Bpl>(cpu, pinout, r),
        0x1002 => super::operations::spec_branch_c2(cpu, pinout, r),
        0x1003 => super::operations::spec_branch_c3(cpu, pinout, r),
        0x1100 => super::operations::spec_indirect_y_read_c0(cpu, pinout, r),
        0x1101 => super::operations::spec_indirect_y_read_c1(cpu, pinout, r),
        0x1102 => super::operations::spec_indirect_y_read_c2(cpu, pinout, r),
        0x1103 => super::operations::spec_indirect_y_read_c3(cpu, pinout, r),
        0x1104 => super::operations::spec_indirect_y_read_c4(cpu, pinout, r),
        0x1105 => super::operations::spec_indirect_y_read_c5::<Ora>(cpu, pinout, r),
        0x1200 => super::operations::spec_single_byte_c0(cpu, pinout, r),
        0x1201 => super::operations::spec_single_byte_c1::<Kil>(cpu, pinout, r),
        0x1300 => super::operations::spec_undoc_indirect_y_c0(cpu, pinout, r),
        0x1301 => super::operations::spec_undoc_indirect_y_c1(cpu, pinout, r),
        0x1302 => super::operations::spec_undoc_indirect_y_c2(cpu, pinout, r),
        0x1303 => super::operations::spec_undoc_indirect_y_c3(cpu, pinout, r),
        0x1304 => super::operations::spec_undoc_indirect_y_c4(cpu, pinout, r),
        0x1305 => super::operations::spec_undoc_indirect_y_c5::<Slo>(cpu, pinout, r),
        0x1306 => super::operations::spec_undoc_indirect_y_c6(cpu, pinout, r),
        0x1307 => super::operations::spec_undoc_indirect_y_c7(cpu, pinout, r),
        0x1400 => super::operations::spec_zeropage_x_read_c0(cpu, pinout, r),
        0x1401 => super::operations::spec_zeropage_x_read_c1(cpu, pinout, r),
        0x1402 => super::operations::spec_zeropage_x_read_c2(cpu, pinout, r),
        0x1403 => super::operations::spec_zeropage_x_read_c3::<Nop>(cpu, pinout, r),
        0x1500 => super::operations::spec_zeropage_x_read_c0(cpu, pinout, r),
        0x1501 => super::operations::spec_zeropage_x_read_c1(cpu, pinout, r),
        0x1502 => super::operations::spec_zeropage_x_read_c2(cpu, pinout, r),
        0x1503 => super::operations::spec_zeropage_x_read_c3::<Ora>(cpu, pinout, r),
        0x1600 => super::operations::spec_zeropage_x_modify_c0(cpu, pinout, r),
        0x1601 => super::operations::spec_zeropage_x_modify_c1(cpu, pinout, r),
        0x1602 => super::operations::spec_zeropage_x_modify_c2(cpu, pinout, r),
        0x1603 => super::operations::spec_zeropage_x_modify_c3::<Asl>(cpu, pinout, r),
        0x1604 => super::operations::spec_zeropage_x_modify_c4(cpu, pinout, r),
        0x1605 => super::operations::spec_zeropage_x_modify_c5(cpu, pinout, r),
        0x1700 => super::operations::spec_zeropage_x_modify_c0(cpu, pinout, r),
        0x1701 => super::operations::spec_zeropage_x_modify_c1(cpu, pinout, r),
        0x1702 => super::operations::spec_zeropage_x_modify_c2(cpu, pinout, r),
        0x1703 => super::operations::spec_zeropage_x_modify_c3::<Slo>(cpu, pinout, r),
        0x1704 => super::operations::spec_zeropage_x_modify_c4(cpu, pinout, r),
        0x1705 => super::operations::spec_zeropage_x_modify_c5(cpu, pinout, r),
        0x1800 => super::operations::spec_single_byte_c0(cpu, pinout, r),
        0x1801 => super::operations::spec_single_byte_c1::<Clc>(cpu, pinout, r),
        0x1900 => super::operations::spec_absolute_y_read_c0(cpu, pinout, r),
        0x1901 => super::operations::spec_absolute_y_read_c1(cpu, pinout, r),
        0x1902 => super::operations::spec_absolute_y_read_c2(cpu, pinout, r),
        0x1903 => super::operations::spec_absolute_y_read_c3(cpu, pinout, r),
        0x1904 => super::operations::spec_absolute_y_read_c4::<Ora>(cpu, pinout, r),
        0x1A00 => super::operations::spec_single_byte_c0(cpu, pinout, r),
        0x1A01 => super::operations::spec_single_byte_c1::<Nop>(cpu, pinout, r),
        0x1B00 => super::operations::spec_undoc_absolute_y_c0(cpu, pinout, r),
        0x1B01 => super::operations::spec_undoc_absolute_y_c1(cpu, pinout, r),
        0x1B02 => super::operations::spec_undoc_absolute_y_c2(cpu, pinout, r),
        0x1B03 => super::operations::spec_undoc_absolute_y_c3(cpu, pinout, r),
        0x1B04 => super::operations::spec_undoc_absolute_y_c4::<Slo>(cpu, pinout, r),
        0x1B05 => super::operations::spec_undoc_absolute_y_c5(cpu, pinout, r),
        0x1B06 => super::operations::spec_undoc_absolute_y_c6(cpu, pinout, r),
        0x1C00 => super::operations::spec_absolute_x_read_c0(cpu, pinout, r),
        0x1C01 => super::operations::spec_absolute_x_read_c1(cpu, pinout, r),
        0x1C02 => super::operations::spec_absolute_x_read_c2(cpu, pinout, r),
        0x1C03 => super::operations::spec_absolute_x_read_c3(cpu, pinout, r),
        0x1C04 => super::operations::spec_absolute_x_read_c4::<Nop>(cpu, pinout, r),
        0x1D00 => super::operations::spec_absolute_x_read_c0(cpu, pinout, r),
        0x1D01 => super::operations::spec_absolute_x_read_c1(cpu, pinout, r),
        0x1D02 => super::operations::spec_absolute_x_read_c2(cpu, pinout, r),
        0x1D03 => super::operations::spec_absolute_x_read_c3(cpu, pinout, r),
        0x1D04 => super::operations::spec_absolute_x_read_c4::<Ora>(cpu, pinout, r),
        0x1E00 => super::operations::spec_absolute_x_modify_c0(cpu, pinout, r),
        0x1E01 => super::operations::spec_absolute_x_modify_c1(cpu, pinout, r),
        0x1E02 => super::operations::spec_absolute_x_modify_c2(cpu, pinout, r),
        0x1E03 => super::operations::spec_absolute_x_modify_c3(cpu, pinout, r),
        0x1E04 => super::operations::spec_absolute_x_modify_c4::<Asl>(cpu, pinout, r),
        0x1E05 => super::operations::spec_absolute_x_modify_c5(cpu, pinout, r),
        0x1E06 => super::operations::spec_absolute_x_modify_c6(cpu, pinout, r),
        0x1F00 => super::operations::spec_absolute_x_modify_c0(cpu, pinout, r),
        0x1F01 => super::operations::spec_absolute_x_modify_c1(cpu, pinout, r),
        0x1F02 => super::operations::spec_absolute_x_modify_c2(cpu, pinout, r),
        0x1F03 => super::operations::spec_absolute_x_modify_c3(cpu, pinout, r),
        0x1F04 => super::operations::spec_absolute_x_modify_c4::<Slo>(cpu, pinout, r),
        0x1F05 => super::operations::spec_absolute_x_modify_c5(cpu, pinout, r),
        0x1F06 => super::operations::spec_absolute_x_modify_c6(cpu, pinout, r),
        _ => cpu,
    }
}

/// The requests the cycle `code` (opcodes 0x10 to 0x1F) puts on the bus, oldest first.
#[verifier::opaque]
pub open spec fn spec_cycle_requests_1(cpu: Context, pinout: Pinout, code: u16) -> Seq<Pinout> {
    match code {
        0x1000 => super::operations::spec_branch_c0_requests(cpu, pinout),
        0x1001 => super::operations::spec_branch_c1_requests::<Bpl>(cpu, pinout),
        0x1002 => super::operations::spec_branch_c2_requests(cpu, pinout),
        0x1003 => super::operations::spec_branch_c3_requests(cpu, pinout),
        0x1100 => super::operations::spec_indirect_y_read_c0_requests(cpu, pinout),
        0x1101 => super::operations::spec_indirect_y_read_c1_requests(cpu, pinout),
        0x1102 => super::operations::spec_indirect_y_read_c2_requests(cpu, pinout),
        0x1103 => super::operations::spec_indirect_y_read_c3_requests(cpu, pinout),
        0x1104 => super::operations::spec_indirect_y_read_c4_requests(cpu, pinout),
        0x1105 => super::operations::spec_indirect_y_read_c5_requests::<Ora>(cpu, pinout),
        0x1200 => super::operations::spec_single_byte_c0_requests(cpu, pinout),
        0x1201 => super::operations::spec_single_byte_c1_requests::<Kil>(cpu, pinout),
        0x1300 => super::operations::spec_undoc_indirect_y_c0_requests(cpu, pinout),
        0x1301 => super::operations::spec_undoc_indirect_y_c1_requests(cpu, pinout),
        0x1302 => super::operations::spec_undoc_indirect_y_c2_requests(cpu, pinout),
        0x1303 => super::operations::spec_undoc_indirect_y_c3_requests(cpu, pinout),
        0x1304 => super::operations::spec_undoc_indirect_y_c4_requests(cpu, pinout),
        0x1305 => super::operations::spec_undoc_indirect_y_c5_requests::<Slo>(cpu, pinout),
        0x1306 => super::operations::spec_undoc_indirect_y_c6_requests(cpu, pinout),
        0x1307 => super::operations::spec_undoc_indirect_y_c7_requests(cpu, pinout),
        0x1400 => super::operations::spec_zeropage_x_read_c0_requests(cpu, pinout),
        0x1401 => super::operations::spec_zeropage_x_read_c1_requests(cpu, pinout),
        0x1402 => super::operations::spec_zeropage_x_read_c2_requests(cpu, pinout),
        0x1403 => super::operations::spec_zeropage_x_read_c3_requests::<Nop>(cpu, pinout),
        0x1500 => super::operations::spec_zeropage_x_read_c0_requests(cpu, pinout),
        0x1501 => super::operations::spec_zeropage_x_read_c1_requests(cpu, pinout),
        0x1502 => super::operations::spec_zeropage_x_read_c2_requests(cpu, pinout),
        0x1503 => super::operations::spec_zeropage_x_read_c3_requests::<Ora>(cpu, pinout),
        0x1600 => super::operations::spec_zeropage_x_modify_c0_requests(cpu, pinout),
        0x1601 => super::operations::spec_zeropage_x_modify_c1_requests(cpu, pinout),
        0x1602 => super::operations::spec_zeropage_x_modify_c2_requests(cpu, pinout),
        0x1603 => super::operations::spec_zeropage_x_modify_c3_requests::<Asl>(cpu, pinout),
        0x1604 => super::operations::spec_zeropage_x_modify_c4_requests(cpu, pinout),
        0x1605 => super::operations::spec_zeropage_x_modify_c5_requests(cpu, pinout),
        0x1700 => super::operations::spec_zeropage_x_modify_c0_requests(cpu, pinout),
        0x1701 => super::operations::spec_zeropage_x_modify_c1_requests(cpu, pinout),
        0x1702 => super::operations::spec_zeropage_x_modify_c2_requests(cpu, pinout),
        0x1703 => super::operations::spec_zeropage_x_modify_c3_requests::<Slo>(cpu, pinout),
        0x1704 => super::operations::spec_zeropage_x_modify_c4_requests(cpu, pinout),
        0x1705 => super::operations::spec_zeropage_x_modify_c5_requests(cpu, pinout),
        0x1800 => super::operations::spec_single_byte_c0_requests(cpu, pinout),
        0x1801 => super::operations::spec_single_byte_c1_requests::<Clc>(cpu, pinout),
        0x1900 => super::operations::spec_absolute_y_read_c0_requests(cpu, pinout),
        0x1901 => super::operations::spec_absolute_y_read_c1_requests(cpu, pinout),
        0x1902 => super::operations::spec_absolute_y_read_c2_requests(cpu, pinout),
        0x1903 => super::operations::spec_absolute_y_read_c3_requests(cpu, pinout),
        0x1904 => super::operations::spec_absolute_y_read_c4_requests::<Ora>(cpu, pinout),
        0x1A00 => super::operations::spec_single_byte_c0_requests(cpu, pinout),
        0x1A01 => super::operations::spec_single_byte_c1_requests::<Nop>(cpu, pinout),
        0x1B00 => super::operations::spec_undoc_absolute_y_c0_requests(cpu, pinout),
        0x1B01 => super::operations::spec_undoc_absolute_y_c1_requests(cpu, pinout),
        0x1B02 => super::operations::spec_undoc_absolute_y_c2_requests(cpu, pinout),
        0x1B03 => super::operations::spec_undoc_absolute_y_c3_requests(cpu, pinout),
        0x1B04 => super::operations::spec_undoc_absolute_y_c4_requests::<Slo>(cpu, pinout),
        0x1B05 => super::operations::spec_undoc_absolute_y_c5_requests(cpu, pinout),
        0x1B06 => super::operations::spec_undoc_absolute_y_c6_requests(cpu, pinout),
        0x1C00 => super::operations::spec_absolute_x_read_c0_requests(cpu, pinout),
        0x1C01 => super::operations::spec_absolute_x_read_c1_requests(cpu, pinout),
        0x1C02 => super::operations::spec_absolute_x_read_c2_requests(cpu, pinout),
        0x1C03 => super::operations::spec_absolute_x_read_c3_requests(cpu, pinout),
        0x1C04 => super::operations::spec_absolute_x_read_c4_requests::<Nop>(cpu, pinout),
        0x1D00 => super::operations::spec_absolute_x_read_c0_requests(cpu, pinout),
        0x1D01 => super::operations::spec_absolute_x_read_c1_requests(cpu, pinout),
        0x1D02 => super::operations::spec_absolute_x_read_c2_requests(cpu, pinout),
        0x1D03 => super::operations::spec_absolute_x_read_c3_requests(cpu, pinout),
        0x1D04 => super::operations::spec_absolute_x_read_c4_requests::<Ora>(cpu, pinout),
        0x1E00 => super::operations::spec_absolute_x_modify_c0_requests(cpu, pinout),
        0x1E01 => super::operations::spec_absolute_x_modify_c1_requests(cpu, pinout),
        0x1E02 => super::operations::spec_absolute_x_modify_c2_requests(cpu, pinout),
        0x1E03 => super::operations::spec_absolute_x_modify_c3_requests(cpu, pinout),
        0x1E04 => super::operations::spec_absolute_x_modify_c4_requests::<Asl>(cpu, pinout),
        0x1E05 => super::operations::spec_absolute_x_modify_c5_requests(cpu, pinout),
        0x1E06 => super::operations::spec_absolute_x_modify_c6_requests(cpu, pinout),
        0x1F00 => super::operations::spec_absolute_x_modify_c0_requests(cpu, pinout),
        0x1F01 => super::operations::spec_absolute_x_modify_c1_requests(cpu, pinout),
        0x1F02 => super::operations::spec_absolute_x_modify_c2_requests(cpu, pinout),
        0x1F03 => super::operations::spec_absolute_x_modify_c3_requests(cpu, pinout),
        0x1F04 => super::operations::spec_absolute_x_modify_c4_requests::<Slo>(cpu, pinout),
        0x1F05 => super::operations::spec_absolute_x_modify_c5_requests(cpu, pinout),
        0x1F06 => super::operations::spec_absolute_x_modify_c6_requests(cpu, pinout),
        _ => Seq::empty(),
    }
}

/// The cycles of the opcodes 0x10 to 0x1F.
#[verifier::spinoff_prover]
#[verifier::rlimit(80)]
fn run_cycle_1<B: Bus>(cpu: &mut Context, bus: &mut B, pinout: Pinout, code: u16) -> (r: Pinout)
    requires
        old(bus).ready(),
        code as int == old(cpu).ir.opcode as int * 256 + old(cpu).ir.tm as int,
        spec_valid_ir(old(cpu).ir),
    ensures
        final(bus).ready(),
        final(bus).spec_clock() == old(bus).spec_clock(),
        final(cpu).cycle == old(cpu).cycle,
        final(bus).spec_requests() == old(bus).spec_requests() + spec_cycle_requests_1(*old(cpu), pinout, code),
        *final(cpu) == spec_cycle_1(*old(cpu), pinout, r, code),
        spec_valid_ir(final(cpu).ir),
{
    proof {
        reveal(spec_cycle_requests_1);
        reveal(spec_cycle_1);
    }
    let mut pinout = pinout;
    match code {
        0x1000 => { pinout = branch_c0(cpu, bus, pinout); }
        0x1001 => { pinout = branch_c1::<B, Bpl>(cpu, bus, pinout); }
        0x1002 => { pinout = branch_c2(cpu, bus, pinout); }
        0x1003 => { pinout = branch_c3(cpu, bus, pinout); }
        0x1100 => { pinout = indirect_y_read_c0(cpu, bus, pinout); }
        0x1101 => { pinout = indirect_y_read_c1(cpu, bus, pinout); }
        0x1102 => { pinout = indirect_y_read_c2(cpu, bus, pinout); }
        0x1103 => { pinout = indirect_y_read_c3(cpu, bus, pinout); }
        0x1104 => { pinout = indirect_y_read_c4(cpu, bus, pinout); }
        0x1105 => { pinout = indirect_y_read_c5::<B, Ora>(cpu, bus, pinout); }
        0x1200 => { pinout = single_byte_c0(cpu, bus, pinout); }
        0x1201 => { pinout = single_byte_c1::<B, Kil>(cpu, bus, pinout); }
        0x1300 => { pinout = undoc_indirect_y_c0(cpu, bus, pinout); }
        0x1301 => { pinout = undoc_indirect_y_c1(cpu, bus, pinout); }
        0x1302 => { pinout = undoc_indirect_y_c2(cpu, bus, pinout); }
        0x1303 => { pinout = undoc_indirect_y_c3(cpu, bus, pinout); }
        0x1304 => { pinout = undoc_indirect_y_c4(cpu, bus, pinout); }
        0x1305 => { pinout = undoc_indirect_y_c5::<B, Slo>(cpu, bus, pinout); }
        0x1306 => { pinout = undoc_indirect_y_c6(cpu, bus, pinout); }
        0x1307 => { pinout = undoc_indirect_y_c7(cpu, bus, pinout); }
        0x1400 => { pinout = zeropage_x_read_c0(cpu, bus, pinout); }
        0x1401 => { pinout = zeropage_x_read_c1(cpu, bus, pinout); }
        0x1402 => { pinout = zeropage_x_read_c2(cpu, bus, pinout); }
        0x1403 => { pinout = zeropage_x_read_c3::<B, Nop>(cpu, bus, pinout); }
        0x1500 => { pinout = zeropage_x_read_c0(cpu, bus, pinout); }
        0x1501 => { pinout = zeropage_x_read_c1(cpu, bus, pinout); }
        0x1502 => { pinout = zeropage_x_read_c2(cpu, bus, pinout); }
        0x1503 => { pinout = zeropage_x_read_c3::<B, Ora>(cpu, bus, pinout); }
        0x1600 => { pinout = zeropage_x_modify_c0(cpu, bus, pinout); }
        0x1601 => { pinout = zeropage_x_modify_c1(cpu, bus, pinout); }
        0x1602 => { pinout = zeropage_x_modify_c2(cpu, bus, pinout); }
        0x1603 => { pinout = zeropage_x_modify_c3::<B, Asl>(cpu, bus, pinout); }
        0x1604 => { pinout = zeropage_x_modify_c4(cpu, bus, pinout); }
        0x1605 => { pinout = zeropage_x_modify_c5(cpu, bus, pinout); }
        0x1700 => { pinout = zeropage_x_modify_c0(cpu, bus, pinout); }
        0x1701 => { pinout = zeropage_x_modify_c1(cpu, bus, pinout); }
        0x1702 => { pinout = zeropage_x_modify_c2(cpu, bus, pinout); }
        0x1703 => { pinout = zeropage_x_modify_c3::<B, Slo>(cpu, bus, pinout); }
        0x1704 => { pinout = zeropage_x_modify_c4(cpu, bus, pinout); }
        0x1705 => { pinout = zeropage_x_modify_c5(cpu, bus, pinout); }
        0x1800 => { pinout = single_byte_c0(cpu, bus, pinout); }
        0x1801 => { pinout = single_byte_c1::<B, Clc>(cpu, bus, pinout); }
        0x1900 => { pinout = absolute_y_read_c0(cpu, bus, pinout); }
        0x1901 => { pinout = absolute_y_read_c1(cpu, bus, pinout); }
        0x1902 => { pinout = absolute_y_read_c2(cpu, bus, pinout); }
        0x1903 => { pinout = absolute_y_read_c3(cpu, bus, pinout); }
        0x1904 => { pinout = absolute_y_read_c4::<B, Ora>(cpu, bus, pinout); }
        0x1A00 => { pinout = single_byte_c0(cpu, bus, pinout); }
        0x1A01 => { pinout = single_byte_c1::<B, Nop>(cpu, bus, pinout); }
        0x1B00 => { pinout = undoc_absolute_y_c0(cpu, bus, pinout); }
        0x1B01 => { pinout = undoc_absolute_y_c1(cpu, bus, pinout); }
        0x1B02 => { pinout = undoc_absolute_y_c2(cpu, bus, pinout); }
        0x1B03 => { pinout = undoc_absolute_y_c3(cpu, bus, pinout); }
        0x1B04 => { pinout = undoc_absolute_y_c4::<B, Slo>(cpu, bus, pinout); }
        0x1B05 => { pinout = undoc_absolute_y_c5(cpu, bus, pinout); }
        0x1B06 => { pinout = undoc_absolute_y_c6(cpu, bus, pinout); }
        0x1C00 => { pinout = absolute_x_read_c0(cpu, bus, pinout); }
        0x1C01 => { pinout = absolute_x_read_c1(cpu, bus, pinout); }
        0x1C02 => { pinout = absolute_x_read_c2(cpu, bus, pinout); }
        0x1C03 => { pinout = absolute_x_read_c3(cpu, bus, pinout); }
        0x1C04 => { pinout = absolute_x_read_c4::<B, Nop>(cpu, bus, pinout); }
        0x1D00 => { pinout = absolute_x_read_c0(cpu, bus, pinout); }
        0x1D01 => { pinout = absolute_x_read_c1(cpu, bus, pinout); }
        0x1D02 => { pinout = absolute_x_read_c2(cpu, bus, pinout); }
        0x1D03 => { pinout = absolute_x_read_c3(cpu, bus, pinout); }
        0x1D04 => { pinout = absolute_x_read_c4::<B, Ora>(cpu, bus, pinout); }
        0x1E00 => { pinout = absolute_x_modify_c0(cpu, bus, pinout); }
        0x1E01 => { pinout = absolute_x_modify_c1(cpu, bus, pinout); }
        0x1E02 => { pinout = absolute_x_modify_c2(cpu, bus, pinout); }
        0x1E03 => { pinout = absolute_x_modify_c3(cpu, bus, pinout); }
        0x1E04 => { pinout = absolute_x_modify_c4::<B, Asl>(cpu, bus, pinout); }
        0x1E05 => { pinout = absolute_x_modify_c5(cpu, bus, pinout); }
        0x1E06 => { pinout = absolute_x_modify_c6(cpu, bus, pinout); }
        0x1F00 => { pinout = absolute_x_modify_c0(cpu, bus, pinout); }
        0x1F01 => { pinout = absolute_x_modify_c1(cpu, bus, pinout); }
        0x1F02 => { pinout = absolute_x_modify_c2(cpu, bus, pinout); }
        0x1F03 => { pinout = absolute_x_modify_c3(cpu, bus, pinout); }
        0x1F04 => { pinout = absolute_x_modify_c4::<B, Slo>(cpu, bus, pinout); }
        0x1F05 => { pinout = absolute_x_modify_c5(cpu, bus, pinout); }
        0x1F06 => { pinout = absolute_x_modify_c6(cpu, bus, pinout); }
        _ => {}
    }
    pinout
}

/// The cpu state after the cycle `code` (opcode 0x20 to 0x2F, timing
/// state) runs, `r` being the pinout the cycle returns; a code without a
/// cycle leaves the state alone.
#[verifier::opaque]
pub open spec fn spec_cycle_2(cpu: Context, pinout: Pinout, r: Pinout, code: u16) -> Context {
    match code {
        0x2000 => super::operations::spec_jsr_c0(cpu, pinout, r),
        0x2001 => super::operations::spec_jsr_c1(cpu, pinout, r),
        0x2002 => super::operations::spec_jsr_c2(cpu, pinout, r),
        0x2003 => super::operations::spec_jsr_c3(cpu, pinout, r),
        0x2004 => super::operations::spec_jsr_c4(cpu, pinout, r),
        0x2005 => super::operations::spec_jsr_c5(cpu, pinout, r),
        0x2100 => super::operations::spec_indirect_x_read_c0(cpu, pinout, r),
        0x2101 => super::operations::spec_indirect_x_read_c1(cpu, pinout, r),
        0x2102 => super::operations::spec_indirect_x_read_c2(cpu, pinout, r),
        0x2103 => super::operations::spec_indirect_x_read_c3(cpu, pinout, r),
        0x2104 => super::operations::spec_indirect_x_read_c4(cpu, pinout, r),
        0x2105 => super::operations::spec_indirect_x_read_c5::<And>(cpu, pinout, r),
        0x2200 => super::operations::spec_single_byte_c0(cpu, pinout, r),
        0x2201 => super::operations::spec_single_byte_c1::<Kil>(cpu, pinout, r),
        0x2300 => super::operations::spec_undoc_indirect_x_c0(cpu, pinout, r),
        0x2301 => super::operations::spec_undoc_indirect_x_c1(cpu, pinout, r),
        0x2302 => super::operations::spec_undoc_indirect_x_c2(cpu, pinout, r),
        0x2303 => super::operations::spec_undoc_indirect_x_c3(cpu, pinout, r),
        0x2304 => super::operations::spec_undoc_indirect_x_c4(cpu, pinout, r),
        0x2305 => super::operations::spec_undoc_indirect_x_c5::<Rla>(cpu, pinout, r),
        0x2306 => super::operations::spec_undoc_indirect_x_c6(cpu, pinout, r),
        0x2307 => super::operations::spec_undoc_indirect_x_c7(cpu, pinout, r),
        0x2400 => super::operations::spec_zeropage_read_c0(cpu, pinout, r),
        0x2401 => super::operations::spec_zeropage_read_c1(cpu, pinout, r),
        0x2402 => super::operations::spec_zeropage_read_c2::<Bit>(cpu, pinout, r),
        0x2500 => super::operations::spec_zeropage_read_c0(cpu, pinout, r),
        0x2501 => super::operations::spec_zeropage_read_c1(cpu, pinout, r),
        0x2502 => super::operations::spec_zeropage_read_c2::<And>(cpu, pinout, r),
        0x2600 => super::operations::spec_zeropage_modify_c0(cpu, pinout, r),
        0x2601 => super::operations::spec_zeropage_modify_c1(cpu, pinout, r),
        0x2602 => super::operations::spec_zeropage_modify_c2::<Rol>(cpu, pinout, r),
        0x2603 => super::operations::spec_zeropage_modify_c3(cpu, pinout, r),
        0x2604 => super::operations::spec_zeropage_modify_c4(cpu, pinout, r),
        0x2700 => super::operations::spec_zeropage_modify_c0(cpu, pinout, r),
        0x2701 => super::operations::spec_zeropage_modify_c1(cpu, pinout, r),
        0x2702 => super::operations::spec_zeropage_modify_c2::<Rla>(cpu, pinout, r),
        0x2703 => super::operations::spec_zeropage_modify_c3(cpu, pinout, r),
        0x2704 => super::operations::spec_zeropage_modify_c4(cpu, pinout, r),
        0x2800 => super::operations::spec_plp_c0(cpu, pinout, r),
        0x2801 => super::operations::spec_plp_c1(cpu, pinout, r),
        0x2802 => super::operations::spec_plp_c2(cpu, pinout, r),
        0x2803 => super::operations::spec_plp_c3(cpu, pinout, r),
        0x2900 => super::operations::spec_immediate_read_c0(cpu, pinout, r),
        0x2901 => super::operations::spec_immediate_read_c1::<And>(cpu, pinout, r),
        0x2A00 => super::operations::spec_single_byte_c0(cpu, pinout, r),
        0x2A01 => super::operations::spec_single_byte_c1::<RolAccum>(cpu, pinout, r),
        0x2B00 => super::operations::spec_immediate_read_c0(cpu, pinout, r),
        0x2B01 => super::operations::spec_immediate_read_c1::<Aac>(cpu, pinout, r),
        0x2C00 => super::operations::spec_absolute_read_c0(cpu, pinout, r),
        0x2C01 => super::operations::spec_absolute_read_c1(cpu, pinout, r),
        0x2C02 => super::operations::spec_absolute_read_c2(cpu, pinout, r),
        0x2C03 => super::operations::spec_absolute_read_c3::<Bit>(cpu, pinout, r),
        0x2D00 => super::operations::spec_absolute_read_c0(cpu, pinout, r),
        0x2D01 => super::operations::spec_absolute_read_c1(cpu, pinout, r),
        0x2D02 => super::operations::spec_absolute_read_c2(cpu, pinout, r),
        0x2D03 => super::operations::spec_absolute_read_c3::<And>(cpu, pinout, r),
        0x2E00 => super::operations::spec_absolute_modify_c0(cpu, pinout, r),
        0x2E01 => super::operations::spec_absolute_modify_c1(cpu, pinout, r),
        0x2E02 => super::operations::spec_absolute_modify_c2(cpu, pinout, r),
        0x2E03 => super::operations::spec_absolute_modify_c3::<Rol>(cpu, pinout, r),
        0x2E04 => super::operations::spec_absolute_modify_c4(cpu, pinout, r),
        0x2E05 => super::operations::spec_absolute_modify_c5(cpu, pinout, r),
        0x2F00 => super::operations::spec_absolute_modify_c0(cpu, pinout, r),
        0x2F01 => super::operations::spec_absolute_modify_c1(cpu, pinout, r),
        0x2F02 => super::operations::spec_absolute_modify_c2(cpu, pinout, r),
        0x2F03 => super::operations::spec_absolute_modify_c3::<Rla>(cpu, pinout, r),
        0x2F04 => super::operations::spec_absolute_modify_c4(cpu, pinout, r),
        0x2F05 => super::operations::spec_absolute_modify_c5(cpu, pinout, r),
        _ => cpu,
    }
}

/// The requests the cycle `code` (opcodes 0x20 to 0x2F) puts on the bus, oldest first.
#[verifier::opaque]
pub open spec fn spec_cycle_requests_2(cpu: Context, pinout: Pinout, code: u16) -> Seq<Pinout> {
    match code {
        0x2000 => super::operations::spec_jsr_c0_requests(cpu, pinout),
        0x2001 => super::operations::spec_jsr_c1_requests(cpu, pinout),
        0x2002 => super::operations::spec_jsr_c2_requests(cpu, pinout),
        0x2003 => super::operations::spec_jsr_c3_requests(cpu, pinout),
        0x2004 => super::operations::spec_jsr_c4_requests(cpu, pinout),
        0x2005 => super::operations::spec_jsr_c5_requests(cpu, pinout),
        0x2100 => super::operations::spec_indirect_x_read_c0_requests(cpu, pinout),
        0x2101 => super::operations::spec_indirect_x_read_c1_requests(cpu, pinout),
        0x2102 => super::operations::spec_indirect_x_read_c2_requests(cpu, pinout),
        0x2103 => super::operations::spec_indirect_x_read_c3_requests(cpu, pinout),
        0x2104 => super::operations::spec_indirect_x_read_c4_requests(cpu, pinout),
        0x2105 => super::operations::spec_indirect_x_read_c5_requests::<And>(cpu, pinout),
        0x2200 => super::operations::spec_single_byte_c0_requests(cpu, pinout),
        0x2201 => super::operations::spec_single_byte_c1_requests::<Kil>(cpu, pinout),
        0x2300 => super::operations::spec_undoc_indirect_x_c0_requests(cpu, pinout),
        0x2301 => super::operations::spec_undoc_indirect_x_c1_requests(cpu, pinout),
        0x2302 => super::operations::spec_undoc_indirect_x_c2_requests(cpu, pinout),
        0x2303 => super::operations::spec_undoc_indirect_x_c3_requests(cpu, pinout),
        0x2304 => super::operations::spec_undoc_indirect_x_c4_requests(cpu, pinout),
        0x2305 => super::operations::spec_undoc_indirect_x_c5_requests::<Rla>(cpu, pinout),
        0x2306 => super::operations::spec_undoc_indirect_x_c6_requests(cpu, pinout),
        0x2307 => super::operations::spec_undoc_indirect_x_c7_requests(cpu, pinout),
        0x2400 => super::operations::spec_zeropage_read_c0_requests(cpu, pinout),
        0x2401 => super::operations::spec_zeropage_read_c1_requests(cpu, pinout),
        0x2402 => super::operations::spec_zeropage_read_c2_requests::<Bit>(cpu, pinout),
        0x2500 => super::operations::spec_zeropage_read_c0_requests(cpu, pinout),
        0x2501 => super::operations::spec_zeropage_read_c1_requests(cpu, pinout),
        0x2502 => super::operations::spec_zeropage_read_c2_requests::<And>(cpu, pinout),
        0x2600 => super::operations::spec_zeropage_modify_c0_requests(cpu, pinout),
        0x2601 => super::operations::spec_zeropage_modify_c1_requests(cpu, pinout),
        0x2602 => super::operations::spec_zeropage_modify_c2_requests::<Rol>(cpu, pinout),
        0x2603 => super::operations::spec_zeropage_modify_c3_requests(cpu, pinout),
        0x2604 => super::operations::spec_zeropage_modify_c4_requests(cpu, pinout),
        0x2700 => super::operations::spec_zeropage_modify_c0_requests(cpu, pinout),
        0x2701 => super::operations::spec_zeropage_modify_c1_requests(cpu, pinout),
        0x2702 => super::operations::spec_zeropage_modify_c2_requests::<Rla>(cpu, pinout),
        0x2703 => super::operations::spec_zeropage_modify_c3_requests(cpu, pinout),
        0x2704 => super::operations::spec_zeropage_modify_c4_requests(cpu, pinout),
        0x2800 => super::operations::spec_plp_c0_requests(cpu, pinout),
        0x2801 => super::operations::spec_plp_c1_requests(cpu, pinout),
        0x2802 => super::operations::spec_plp_c2_requests(cpu, pinout),
        0x2803 => super::operations::spec_plp_c3_requests(cpu, pinout),
        0x2900 => super::operations::spec_immediate_read_c0_requests(cpu, pinout),
        0x2901 => super::operations::spec_immediate_read_c1_requests::<And>(cpu, pinout),
        0x2A00 => super::operations::spec_single_byte_c0_requests(cpu, pinout),
        0x2A01 => super::operations::spec_single_byte_c1_requests::<RolAccum>(cpu, pinout),
        0x2B00 => super::operations::spec_immediate_read_c0_requests(cpu, pinout),
        0x2B01 => super::operations::spec_immediate_read_c1_requests::<Aac>(cpu, pinout),
        0x2C00 => super::operations::spec_absolute_read_c0_requests(cpu, pinout),
        0x2C01 => super::operations::spec_absolute_read_c1_requests(cpu, pinout),
        0x2C02 => super::operations::spec_absolute_read_c2_requests(cpu, pinout),
        0x2C03 => super::operations::spec_absolute_read_c3_requests::<Bit>(cpu, pinout),
        0x2D00 => super::operations::spec_absolute_read_c0_requests(cpu, pinout),
        0x2D01 => super::operations::spec_absolute_read_c1_requests(cpu, pinout),
        0x2D02 => super::operations::spec_absolute_read_c2_requests(cpu, pinout),
        0x2D03 => super::operations::spec_absolute_read_c3_requests::<And>(cpu, pinout),
        0x2E00 => super::operations::spec_absolute_modify_c0_requests(cpu, pinout),
        0x2E01 => super::operations::spec_absolute_modify_c1_requests(cpu, pinout),
        0x2E02 => super::operations::spec_absolute_modify_c2_requests(cpu, pinout),
        0x2E03 => super::operations::spec_absolute_modify_c3_requests::<Rol>(cpu, pinout),
        0x2E04 => super::operations::spec_absolute_modify_c4_requests(cpu, pinout),
        0x2E05 => super::operations::spec_absolute_modify_c5_requests(cpu, pinout),
        0x2F00 => super::operations::spec_absolute_modify_c0_requests(cpu, pinout),
        0x2F01 => super::operations::spec_absolute_modify_c1_requests(cpu, pinout),
        0x2F02 => super::operations::spec_absolute_modify_c2_requests(cpu, pinout),
        0x2F03 => super::operations::spec_absolute_modify_c3_requests::<Rla>(cpu, pinout),
        0x2F04 => super::operations::spec_absolute_modify_c4_requests(cpu, pinout),
        0x2F05 => super::operations::spec_absolute_modify_c5_requests(cpu, pinout),
        _ => Seq::empty(),
    }
}

/// The cycles of the opcodes 0x20 to 0x2F.
#[verifier::spinoff_prover]
#[verifier::rlimit(80)]
fn run_cycle_2<B: Bus>(cpu: &mut Context, bus: &mut B, pinout: Pinout, code: u16) -> (r: Pinout)
    requires
        old(bus).ready(),
        code as int == old(cpu).ir.opcode as int * 256 + old(cpu).ir.tm as int,
        spec_valid_ir(old(cpu).ir),
    ensures
        final(bus).ready(),
        final(bus).spec_clock() == old(bus).spec_clock(),
        final(cpu).cycle == old(cpu).cycle,
        final(bus).spec_requests() == old(bus).spec_requests() + spec_cycle_requests_2(*old(cpu), pinout, code),
        *final(cpu) == spec_cycle_2(*old(cpu), pinout, r, code),
        spec_valid_ir(final(cpu).ir),
{
    proof {
        reveal(spec_cycle_requests_2);
        reveal(spec_cycle_2);
    }
    let mut pinout = pinout;
    match code {
        0x2000 => { pinout = jsr_c0(cpu, bus, pinout); }
        0x2001 => { pinout = jsr_c1(cpu, bus, pinout); }
        0x2002 => { pinout = jsr_c2(cpu, bus, pinout); }
        0x2003 => { pinout = jsr_c3(cpu, bus, pinout); }
        0x2004 => { pinout = jsr_c4(cpu, bus, pinout); }
        0x2005 => { pinout = jsr_c5(cpu, bus, pinout); }
        0x2100 => { pinout = indirect_x_read_c0(cpu, bus, pinout); }
        0x2101 => { pinout = indirect_x_read_c1(cpu, bus, pinout); }
        0x2102 => { pinout = indirect_x_read_c2(cpu, bus, pinout); }
        0x2103 => { pinout = indirect_x_read_c3(cpu, bus, pinout); }
        0x2104 => { pinout = indirect_x_read_c4(cpu, bus, pinout); }
        0x2105 => { pinout = indirect_x_read_c5::<B, And>(cpu, bus, pinout); }
        0x2200 => { pinout = single_byte_c0(cpu, bus, pinout); }
        0x2201 => { pinout = single_byte_c1::<B, Kil>(cpu, bus, pinout); }
        0x2300 => { pinout = undoc_indirect_x_c0(cpu, bus, pinout); }
        0x2301 => { pinout = undoc_indirect_x_c1(cpu, bus, pinout); }
        0x2302 => { pinout = undoc_indirect_x_c2(cpu, bus, pinout); }
        0x2303 => { pinout = undoc_indirect_x_c3(cpu, bus, pinout); }
        0x2304 => { pinout = undoc_indirect_x_c4(cpu, bus, pinout); }
        0x2305 => { pinout = undoc_indirect_x_c5::<B, Rla>(cpu, bus, pinout); }
        0x2306 => { pinout = undoc_indirect_x_c6(cpu, bus, pinout); }
        0x2307 => { pinout = undoc_indirect_x_c7(cpu, bus, pinout); }
        0x2400 => { pinout = zeropage_read_c0(cpu, bus, pinout); }
        0x2401 => { pinout = zeropage_read_c1(cpu, bus, pinout); }
        0x2402 => { pinout = zeropage_read_c2::<B, Bit>(cpu, bus, pinout); }
        0x2500 => { pinout = zeropage_read_c0(cpu, bus, pinout); }
        0x2501 => { pinout = zeropage_read_c1(cpu, bus, pinout); }
        0x2502 => { pinout = zeropage_read_c2::<B, And>(cpu, bus, pinout); }
        0x2600 => { pinout = zeropage_modify_c0(cpu, bus, pinout); }
        0x2601 => { pinout = zeropage_modify_c1(cpu, bus, pinout); }
        0x2602 => { pinout = zeropage_modify_c2::<B, Rol>(cpu, bus, pinout); }
        0x2603 => { pinout = zeropage_modify_c3(cpu, bus, pinout); }
        0x2604 => { pinout = zeropage_modify_c4(cpu, bus, pinout); }
        0x2700 => { pinout = zeropage_modify_c0(cpu, bus, pinout); }
        0x2701 => { pinout = zeropage_modify_c1(cpu, bus, pinout); }
        0x2702 => { pinout = zeropage_modify_c2::<B, Rla>(cpu, bus, pinout); }
        0x2703 => { pinout = zeropage_modify_c3(cpu, bus, pinout); }
        0x2704 => { pinout = zeropage_modify_c4(cpu, bus, pinout); }
        0x2800 => { pinout = plp_c0(cpu, bus, pinout); }
        0x2801 => { pinout = plp_c1(cpu, bus, pinout); }
        0x2802 => { pinout = plp_c2(cpu, bus, pinout); }
        0x2803 => { pinout = plp_c3(cpu, bus, pinout); }
        0x2900 => { pinout = immediate_read_c0(cpu, bus, pinout); }
        0x2901 => { pinout = immediate_read_c1::<B, And>(cpu, bus, pinout); }
        0x2A00 => { pinout = single_byte_c0(cpu, bus, pinout); }
        0x2A01 => { pinout = single_byte_c1::<B, RolAccum>(cpu, bus, pinout); }
        0x2B00 => { pinout = immediate_read_c0(cpu, bus, pinout); }
        0x2B01 => { pinout = immediate_read_c1::<B, Aac>(cpu, bus, pinout); }
        0x2C00 => { pinout = absolute_read_c0(cpu, bus, pinout); }
        0x2C01 => { pinout = absolute_read_c1(cpu, bus, pinout); }
        0x2C02 => { pinout = absolute_read_c2(cpu, bus, pinout); }
        0x2C03 => { pinout = absolute_read_c3::<B, Bit>(cpu, bus, pinout); }
        0x2D00 => { pinout = absolute_read_c0(cpu, bus, pinout); }
        0x2D01 => { pinout = absolute_read_c1(cpu, bus, pinout); }
        0x2D02 => { pinout = absolute_read_c2(cpu, bus, pinout); }
        0x2D03 => { pinout = absolute_read_c3::<B, And>(cpu, bus, pinout); }
        0x2E00 => { pinout = absolute_modify_c0(cpu, bus, pinout); }
        0x2E01 => { pinout = absolute_modify_c1(cpu, bus, pinout); }
        0x2E02 => { pinout = absolute_modify_c2(cpu, bus, pinout); }
        0x2E03 => { pinout = absolute_modify_c3::<B, Rol>(cpu, bus, pinout); }
        0x2E04 => { pinout = absolute_modify_c4(cpu, bus, pinout); }
        0x2E05 => { pinout = absolute_modify_c5(cpu, bus, pinout); }
        0x2F00 => { pinout = absolute_modify_c0(cpu, bus, pinout); }
        0x2F01 => { pinout = absolute_modify_c1(cpu, bus, pinout); }
        0x2F02 => { pinout = absolute_modify_c2(cpu, bus, pinout); }
        0x2F03 => { pinout = absolute_modify_c3::<B, Rla>(cpu, bus, pinout); }
        0x2F04 => { pinout = absolute_modify_c4(cpu, bus, pinout); }
        0x2F05 => { pinout = absolute_modify_c5(cpu, bus, pinout); }
        _ => {}
    }
    pinout
}

/// The cpu state after the cycle `code` (opcode 0x30 to 0x3F, timing
/// state) runs, `r` being the pinout the cycle returns; a code without a
/// cycle leaves the state alone.
#[verifier::opaque]
pub open spec fn spec_cycle_3(cpu: Context, pinout: Pinout, r: Pinout, code: u16) -> Context {
    match code {
        0x3000 => super::operations::spec_branch_c0(cpu, pinout, r),
        0x3001 => super::operations::spec_branch_c1::<Bmi>(cpu, pinout, r),
        0x3002 => super::operations::spec_branch_c2(cpu, pinout, r),
        0x3003 => super::operations::spec_branch_c3(cpu, pinout, r),
        0x3100 => super::operations::spec_indirect_y_read_c0(cpu, pinout, r),
        0x3101 => super::operations::spec_indirect_y_read_c1(cpu, pinout, r),
        0x3102 => super::operations::spec_indirect_y_read_c2(cpu, pinout, r),
        0x3103 => super::operations::spec_indirect_y_read_c3(cpu, pinout, r),
        0x3104 => super::operations::spec_indirect_y_read_c4(cpu, pinout, r),
        0x3105 => super::operations::spec_indirect_y_read_c5::<And>(cpu, pinout, r),
        0x3200 => super::operations::spec_single_byte_c0(cpu, pinout, r),
        0x3201 => super::operations::spec_single_byte_c1::<Kil>(cpu, pinout, r),
        0x3300 => super::operations::spec_undoc_indirect_y_c0(cpu, pinout, r),
        0x3301 => super::operations::spec_undoc_indirect_y_c1(cpu, pinout, r),
        0x3302 => super::operations::spec_undoc_indirect_y_c2(cpu, pinout, r),
        0x3303 => super::operations::spec_undoc_indirect_y_c3(cpu, pinout, r),
        0x3304 => super::operations::spec_undoc_indirect_y_c4(cpu, pinout, r),
        0x3305 => super::operations::spec_undoc_indirect_y_c5::<Rla>(cpu, pinout, r),
        0x3306 => super::operations::spec_undoc_indirect_y_c6(cpu, pinout, r),
        0x3307 => super::operations::spec_undoc_indirect_y_c7(cpu, pinout, r),
        0x3400 => super::operations::spec_zeropage_x_read_c0(cpu, pinout, r),
        0x3401 => super::operations::spec_zeropage_x_read_c1(cpu, pinout, r),
        0x3402 => super::operations::spec_zeropage_x_read_c2(cpu, pinout, r),
        0x3403 => super::operations::spec_zeropage_x_read_c3::<Nop>(cpu, pinout, r),
        0x3500 => super::operations::spec_zeropage_x_read_c0(cpu, pinout, r),
        0x3501 => super::operations::spec_zeropage_x_read_c1(cpu, pinout, r),
        0x3502 => super::operations::spec_zeropage_x_read_c2(cpu, pinout, r),
        0x3503 => super::operations::spec_zeropage_x_read_c3::<And>(cpu, pinout, r),
        0x3600 => super::operations::spec_zeropage_x_modify_c0(cpu, pinout, r),
        0x3601 => super::operations::spec_zeropage_x_modify_c1(cpu, pinout, r),
        0x3602 => super::operations::spec_zeropage_x_modify_c2(cpu, pinout, r),
        0x3603 => super::operations::spec_zeropage_x_modify_c3::<Rol>(cpu, pinout, r),
        0x3604 => super::operations::spec_zeropage_x_modify_c4(cpu, pinout, r),
        0x3605 => super::operations::spec_zeropage_x_modify_c5(cpu, pinout, r),
        0x3700 => super::operations::spec_zeropage_x_modify_c0(cpu, pinout, r),
        0x3701 => super::operations::spec_zeropage_x_modify_c1(cpu, pinout, r),
        0x3702 => super::operations::spec_zeropage_x_modify_c2(cpu, pinout, r),
        0x3703 => super::operations::spec_zeropage_x_modify_c3::<Rla>(cpu, pinout, r),
        0x3704 => super::operations::spec_zeropage_x_modify_c4(cpu, pinout, r),
        0x3705 => super::operations::spec_zeropage_x_modify_c5(cpu, pinout, r),
        0x3800 => super::operations::spec_single_byte_c0(cpu, pinout, r),
        0x3801 => super::operations::spec_single_byte_c1::<Sec>(cpu, pinout, r),
        0x3900 => super::operations::spec_absolute_y_read_c0(cpu, pinout, r),
        0x3901 => super::operations::spec_absolute_y_read_c1(cpu, pinout, r),
        0x3902 => super::operations::spec_absolute_y_read_c2(cpu, pinout, r),
        0x3903 => super::operations::spec_absolute_y_read_c3(cpu, pinout, r),
        0x3904 => super::operations::spec_absolute_y_read_c4::<And>(cpu, pinout, r),
        0x3A00 => super::operations::spec_single_byte_c0(cpu, pinout, r),
        0x3A01 => super::operations::spec_single_byte_c1::<Nop>(cpu, pinout, r),
        0x3B00 => super::operations::spec_undoc_absolute_y_c0(cpu, pinout, r),
        0x3B01 => super::operations::spec_undoc_absolute_y_c1(cpu, pinout, r),
        0x3B02 => super::operations::spec_undoc_absolute_y_c2(cpu, pinout, r),
        0x3B03 => super::operations::spec_undoc_absolute_y_c3(cpu, pinout, r),
        0x3B04 => super::operations::spec_undoc_absolute_y_c4::<Rla>(cpu, pinout, r),
        0x3B05 => super::operations::spec_undoc_absolute_y_c5(cpu, pinout, r),
        0x3B06 => super::operations::spec_undoc_absolute_y_c6(cpu, pinout, r),
        0x3C00 => super::operations::spec_absolute_x_read_c0(cpu, pinout, r),
        0x3C01 => super::operations::spec_absolute_x_read_c1(cpu, pinout, r),
        0x3C02 => super::operations::spec_absolute_x_read_c2(cpu, pinout, r),
        0x3C03 => super::operations::spec_absolute_x_read_c3(cpu, pinout, r),
        0x3C04 => super::operations::spec_absolute_x_read_c4::<Nop>(cpu, pinout, r),
        0x3D00 => super::operations::spec_absolute_x_read_c0(cpu, pinout, r),
        0x3D01 => super::operations::spec_absolute_x_read_c1(cpu, pinout, r),
        0x3D02 => super::operations::spec_absolute_x_read_c2(cpu, pinout, r),
        0x3D03 => super::operations::spec_absolute_x_read_c3(cpu, pinout, r),
        0x3D04 => super::operations::spec_absolute_x_read_c4::<And>(cpu, pinout, r),
        0x3E00 => super::operations::spec_absolute_x_modify_c0(cpu, pinout, r),
        0x3E01 => super::operations::spec_absolute_x_modify_c1(cpu, pinout, r),
        0x3E02 => super::operations::spec_absolute_x_modify_c2(cpu, pinout, r),
        0x3E03 => super::operations::spec_absolute_x_modify_c3(cpu, pinout, r),
        0x3E04 => super::operations::spec_absolute_x_modify_c4::<Rol>(cpu, pinout, r),
        0x3E05 => super::operations::spec_absolute_x_modify_c5(cpu, pinout, r),
        0x3E06 => super::operations::spec_absolute_x_modify_c6(cpu, pinout, r),
        0x3F00 => super::operations::spec_absolute_x_modify_c0(cpu, pinout, r),
        0x3F01 => super::operations::spec_absolute_x_modify_c1(cpu, pinout, r),
        0x3F02 => super::operations::spec_absolute_x_modify_c2(cpu, pinout, r),
        0x3F03 => super::operations::spec_absolute_x_modify_c3(cpu, pinout, r),
        0x3F04 => super::operations::spec_absolute_x_modify_c4::<Rla>(cpu, pinout, r),
        0x3F05 => super::operations::spec_absolute_x_modify_c5(cpu, pinout, r),
        0x3F06 => super::operations::spec_absolute_x_modify_c6(cpu, pinout, r),
        _ => cpu,
    }
}

/// The requests the cycle `code` (opcodes 0x30 to 0x3F) puts on the bus, oldest first.
#[verifier::opaque]
pub open spec fn spec_cycle_requests_3(cpu: Context, pinout: Pinout, code: u16) -> Seq<Pinout> {
    match code {
        0x3000 => super::operations::spec_branch_c0_requests(cpu, pinout),
        0x3001 => super::operations::spec_branch_c1_requests::<Bmi>(cpu, pinout),
        0x3002 => super::operations::spec_branch_c2_requests(cpu, pinout),
        0x3003 => super::operations::spec_branch_c3_requests(cpu, pinout),
        0x3100 => super::operations::spec_indirect_y_read_c0_requests(cpu, pinout),
        0x3101 => super::operations::spec_indirect_y_read_c1_requests(cpu, pinout),
        0x3102 => super::operations::spec_indirect_y_read_c2_requests(cpu, pinout),
        0x3103 => super::operations::spec_indirect_y_read_c3_requests(cpu, pinout),
        0x3104 => super::operations::spec_indirect_y_read_c4_requests(cpu, pinout),
        0x3105 => super::operations::spec_indirect_y_read_c5_requests::<And>(cpu, pinout),
        0x3200 => super::operations::spec_single_byte_c0_requests(cpu, pinout),
        0x3201 => super::operations::spec_single_byte_c1_requests::<Kil>(cpu, pinout),
        0x3300 => super::operations::spec_undoc_indirect_y_c0_requests(cpu, pinout),
        0x3301 => super::operations::spec_undoc_indirect_y_c1_requests(cpu, pinout),
        0x3302 => super::operations::spec_undoc_indirect_y_c2_requests(cpu, pinout),
        0x3303 => super::operations::spec_undoc_indirect_y_c3_requests(cpu, pinout),
        0x3304 => super::operations::spec_undoc_indirect_y_c4_requests(cpu, pinout),
        0x3305 => super::operations::spec_undoc_indirect_y_c5_requests::<Rla>(cpu, pinout),
        0x3306 => super::operations::spec_undoc_indirect_y_c6_requests(cpu, pinout),
        0x3307 => super::operations::spec_undoc_indirect_y_c7_requests(cpu, pinout),
        0x3400 => super::operations::spec_zeropage_x_read_c0_requests(cpu, pinout),
        0x3401 => super::operations::spec_zeropage_x_read_c1_requests(cpu, pinout),
        0x3402 => super::operations::spec_zeropage_x_read_c2_requests(cpu, pinout),
        0x3403 => super::operations::spec_zeropage_x_read_c3_requests::<Nop>(cpu, pinout),
        0x3500 => super::operations::spec_zeropage_x_read_c0_requests(cpu, pinout),
        0x3501 => super::operations::spec_zeropage_x_read_c1_requests(cpu, pinout),
        0x3502 => super::operations::spec_zeropage_x_read_c2_requests(cpu, pinout),
        0x3503 => super::operations::spec_zeropage_x_read_c3_requests::<And>(cpu, pinout),
        0x3600 => super::operations::spec_zeropage_x_modify_c0_requests(cpu, pinout),
        0x3601 => super::operations::spec_zeropage_x_modify_c1_requests(cpu, pinout),
        0x3602 => super::operations::spec_zeropage_x_modify_c2_requests(cpu, pinout),
        0x3603 => super::operations::spec_zeropage_x_modify_c3_requests::<Rol>(cpu, pinout),
        0x3604 => super::operations::spec_zeropage_x_modify_c4_requests(cpu, pinout),
        0x3605 => super::operations::spec_zeropage_x_modify_c5_requests(cpu, pinout),
        0x3700 => super::operations::spec_zeropage_x_modify_c0_requests(cpu, pinout),
        0x3701 => super::operations::spec_zeropage_x_modify_c1_requests(cpu, pinout),
        0x3702 => super::operations::spec_zeropage_x_modify_c2_requests(cpu, pinout),
        0x3703 => super::operations::spec_zeropage_x_modify_c3_requests::<Rla>(cpu, pinout),
        0x3704 => super::operations::spec_zeropage_x_modify_c4_requests(cpu, pinout),
        0x3705 => super::operations::spec_zeropage_x_modify_c5_requests(cpu, pinout),
        0x3800 => super::operations::spec_single_byte_c0_requests(cpu, pinout),
        0x3801 => super::operations::spec_single_byte_c1_requests::<Sec>(cpu, pinout),
        0x3900 => super::operations::spec_absolute_y_read_c0_requests(cpu, pinout),
        0x3901 => super::operations::spec_absolute_y_read_c1_requests(cpu, pinout),
        0x3902 => super::operations::spec_absolute_y_read_c2_requests(cpu, pinout),
        0x3903 => super::operations::spec_absolute_y_read_c3_requests(cpu, pinout),
        0x3904 => super::operations::spec_absolute_y_read_c4_requests::<And>(cpu, pinout),
        0x3A00 => super::operations::spec_single_byte_c0_requests(cpu, pinout),
        0x3A01 => super::operations::spec_single_byte_c1_requests::<Nop>(cpu, pinout),
        0x3B00 => super::operations::spec_undoc_absolute_y_c0_requests(cpu, pinout),
        0x3B01 => super::operations::spec_undoc_absolute_y_c1_requests(cpu, pinout),
        0x3B02 => super::operations::spec_undoc_absolute_y_c2_requests(cpu, pinout),
        0x3B03 => super::operations::spec_undoc_absolute_y_c3_requests(cpu, pinout),
        0x3B04 => super::operations::spec_undoc_absolute_y_c4_requests::<Rla>(cpu, pinout),
        0x3B05 => super::operations::spec_undoc_absolute_y_c5_requests(cpu, pinout),
        0x3B06 => super::operations::spec_undoc_absolute_y_c6_requests(cpu, pinout),
        0x3C00 => super::operations::spec_absolute_x_read_c0_requests(cpu, pinout),
        0x3C01 => super::operations::spec_absolute_x_read_c1_requests(cpu, pinout),
        0x3C02 => super::operations::spec_absolute_x_read_c2_requests(cpu, pinout),
        0x3C03 => super::operations::spec_absolute_x_read_c3_requests(cpu, pinout),
        0x3C04 => super::operations::spec_absolute_x_read_c4_requests::<Nop>(cpu, pinout),
        0x3D00 => super::operations::spec_absolute_x_read_c0_requests(cpu, pinout),
        0x3D01 => super::operations::spec_absolute_x_read_c1_requests(cpu, pinout),
        0x3D02 => super::operations::spec_absolute_x_read_c2_requests(cpu, pinout),
        0x3D03 => super::operations::spec_absolute_x_read_c3_requests(cpu, pinout),
        0x3D04 => super::operations::spec_absolute_x_read_c4_requests::<And>(cpu, pinout),
        0x3E00 => super::operations::spec_absolute_x_modify_c0_requests(cpu, pinout),
        0x3E01 => super::operations::spec_absolute_x_modify_c1_requests(cpu, pinout),
        0x3E02 => super::operations::spec_absolute_x_modify_c2_requests(cpu, pinout),
        0x3E03 => super::operations::spec_absolute_x_modify_c3_requests(cpu, pinout),
        0x3E04 => super::operations::spec_absolute_x_modify_c4_requests::<Rol>(cpu, pinout),
        0x3E05 => super::operations::spec_absolute_x_modify_c5_requests(cpu, pinout),
        0x3E06 => super::operations::spec_absolute_x_modify_c6_requests(cpu, pinout),
        0x3F00 => super::operations::spec_absolute_x_modify_c0_requests(cpu, pinout),
        0x3F01 => super::operations::spec_absolute_x_modify_c1_requests(cpu, pinout),
        0x3F02 => super::operations::spec_absolute_x_modify_c2_requests(cpu, pinout),
        0x3F03 => super::operations::spec_absolute_x_modify_c3_requests(cpu, pinout),
        0x3F04 => super::operations::spec_absolute_x_modify_c4_requests::<Rla>(cpu, pinout),
        0x3F05 => super::operations::spec_absolute_x_modify_c5_requests(cpu, pinout),
        0x3F06 => super::operations::spec_absolute_x_modify_c6_requests(cpu, pinout),
        _ => Seq::empty(),
    }
}

/// The cycles of the opcodes 0x30 to 0x3F.
#[verifier::spinoff_prover]
#[verifier::rlimit(80)]
fn run_cycle_3<B: Bus>(cpu: &mut Context, bus: &mut B, pinout: Pinout, code: u16) -> (r: Pinout)
    requires
        old(bus).ready(),
        code as int == old(cpu).ir.opcode as int * 256 + old(cpu).ir.tm as int,
        spec_valid_ir(old(cpu).ir),
    ensures
        final(bus).ready(),
        final(bus).spec_clock() == old(bus).spec_clock(),
        final(cpu).cycle == old(cpu).cycle,
        final(bus).spec_requests() == old(bus).spec_requests() + spec_cycle_requests_3(*old(cpu), pinout, code),
        *final(cpu) == spec_cycle_3(*old(cpu), pinout, r, code),
        spec_valid_ir(final(cpu).ir),
{
    proof {
        reveal(spec_cycle_requests_3);
        reveal(spec_cycle_3);
    }
    let mut pinout = pinout;
    match code {
        0x3000 => { pinout = branch_c0(cpu, bus, pinout); }
        0x3001 => { pinout = branch_c1::<B, Bmi>(cpu, bus, pinout); }
        0x3002 => { pinout = branch_c2(cpu, bus, pinout); }
        0x3003 => { pinout = branch_c3(cpu, bus, pinout); }
        0x3100 => { pinout = indirect_y_read_c0(cpu, bus, pinout); }
        0x3101 => { pinout = indirect_y_read_c1(cpu, bus, pinout); }
        0x3102 => { pinout = indirect_y_read_c2(cpu, bus, pinout); }
        0x3103 => { pinout = indirect_y_read_c3(cpu, bus, pinout); }
        0x3104 => { pinout = indirect_y_read_c4(cpu, bus, pinout); }
        0x3105 => { pinout = indirect_y_read_c5::<B, And>(cpu, bus, pinout); }
        0x3200 => { pinout = single_byte_c0(cpu, bus, pinout); }
        0x3201 => { pinout = single_byte_c1::<B, Kil>(cpu, bus, pinout); }
        0x3300 => { pinout = undoc_indirect_y_c0(cpu, bus, pinout); }
        0x3301 => { pinout = undoc_indirect_y_c1(cpu, bus, pinout); }
        0x3302 => { pinout = undoc_indirect_y_c2(cpu, bus, pinout); }
        0x3303 => { pinout = undoc_indirect_y_c3(cpu, bus, pinout); }
        0x3304 => { pinout = undoc_indirect_y_c4(cpu, bus, pinout); }
        0x3305 => { pinout = undoc_indirect_y_c5::<B, Rla>(cpu, bus, pinout); }
        0x3306 => { pinout = undoc_indirect_y_c6(cpu, bus, pinout); }
        0x3307 => { pinout = undoc_indirect_y_c7(cpu, bus, pinout); }
        0x3400 => { pinout = zeropage_x_read_c0(cpu, bus, pinout); }
        0x3401 => { pinout = zeropage_x_read_c1(cpu, bus, pinout); }
        0x3402 => { pinout = zeropage_x_read_c2(cpu, bus, pinout); }
        0x3403 => { pinout = zeropage_x_read_c3::<B, Nop>(cpu, bus, pinout); }
        0x3500 => { pinout = zeropage_x_read_c0(cpu, bus, pinout); }
        0x3501 => { pinout = zeropage_x_read_c1(cpu, bus, pinout); }
        0x3502 => { pinout = zeropage_x_read_c2(cpu, bus, pinout); }
        0x3503 => { pinout = zeropage_x_read_c3::<B, And>(cpu, bus, pinout); }
        0x3600 => { pinout = zeropage_x_modify_c0(cpu, bus, pinout); }
        0x3601 => { pinout = zeropage_x_modify_c1(cpu, bus, pinout); }
        0x3602 => { pinout = zeropage_x_modify_c2(cpu, bus, pinout); }
        0x3603 => { pinout = zeropage_x_modify_c3::<B, Rol>(cpu, bus, pinout); }
        0x3604 => { pinout = zeropage_x_modify_c4(cpu, bus, pinout); }
        0x3605 => { pinout = zeropage_x_modify_c5(cpu, bus, pinout); }
        0x3700 => { pinout = zeropage_x_modify_c0(cpu, bus, pinout); }
        0x3701 => { pinout = zeropage_x_modify_c1(cpu, bus, pinout); }
        0x3702 => { pinout = zeropage_x_modify_c2(cpu, bus, pinout); }
        0x3703 => { pinout = zeropage_x_modify_c3::<B, Rla>(cpu, bus, pinout); }
        0x3704 => { pinout = zeropage_x_modify_c4(cpu, bus, pinout); }
        0x3705 => { pinout = zeropage_x_modify_c5(cpu, bus, pinout); }
        0x3800 => { pinout = single_byte_c0(cpu, bus, pinout); }
        0x3801 => { pinout = single_byte_c1::<B, Sec>(cpu, bus, pinout); }
        0x3900 => { pinout = absolute_y_read_c0(cpu, bus, pinout); }
        0x3901 => { pinout = absolute_y_read_c1(cpu, bus, pinout); }
        0x3902 => { pinout = absolute_y_read_c2(cpu, bus, pinout); }
        0x3903 => { pinout = absolute_y_read_c3(cpu, bus, pinout); }
        0x3904 => { pinout = absolute_y_read_c4::<B, And>(cpu, bus, pinout); }
        0x3A00 => { pinout = single_byte_c0(cpu, bus, pinout); }
        0x3A01 => { pinout = single_byte_c1::<B, Nop>(cpu, bus, pinout); }
        0x3B00 => { pinout = undoc_absolute_y_c0(cpu, bus, pinout); }
        0x3B01 => { pinout = undoc_absolute_y_c1(cpu, bus, pinout); }
        0x3B02 => { pinout = undoc_absolute_y_c2(cpu, bus, pinout); }
        0x3B03 => { pinout = undoc_absolute_y_c3(cpu, bus, pinout); }
        0x3B04 => { pinout = undoc_absolute_y_c4::<B, Rla>(cpu, bus, pinout); }
        0x3B05 => { pinout = undoc_absolute_y_c5(cpu, bus, pinout); }
        0x3B06 => { pinout = undoc_absolute_y_c6(cpu, bus, pinout); }
        0x3C00 => { pinout = absolute_x_read_c0(cpu, bus, pinout); }
        0x3C01 => { pinout = absolute_x_read_c1(cpu, bus, pinout); }
        0x3C02 => { pinout = absolute_x_read_c2(cpu, bus, pinout); }
        0x3C03 => { pinout = absolute_x_read_c3(cpu, bus, pinout); }
        0x3C04 => { pinout = absolute_x_read_c4::<B, Nop>(cpu, bus, pinout); }
        0x3D00 => { pinout = absolute_x_read_c0(cpu, bus, pinout); }
        0x3D01 => { pinout = absolute_x_read_c1(cpu, bus, pinout); }
        0x3D02 => { pinout = absolute_x_read_c2(cpu, bus, pinout); }
        0x3D03 => { pinout = absolute_x_read_c3(cpu, bus, pinout); }
        0x3D04 => { pinout = absolute_x_read_c4::<B, And>(cpu, bus, pinout); }
        0x3E00 => { pinout = absolute_x_modify_c0(cpu, bus, pinout); }
        0x3E01 => { pinout = absolute_x_modify_c1(cpu, bus, pinout); }
        0x3E02 => { pinout = absolute_x_modify_c2(cpu, bus, pinout); }
        0x3E03 => { pinout = absolute_x_modify_c3(cpu, bus, pinout); }
        0x3E04 => { pinout = absolute_x_modify_c4::<B, Rol>(cpu, bus, pinout); }
        0x3E05 => { pinout = absolute_x_modify_c5(cpu, bus, pinout); }
        0x3E06 => { pinout = absolute_x_modify_c6(cpu, bus, pinout); }
        0x3F00 => { pinout = absolute_x_modify_c0(cpu, bus, pinout); }
        0x3F01 => { pinout = absolute_x_modify_c1(cpu, bus, pinout); }
        0x3F02 => { pinout = absolute_x_modify_c2(cpu, bus, pinout); }
        0x3F03 => { pinout = absolute_x_modify_c3(cpu, bus, pinout); }
        0x3F04 => { pinout = absolute_x_modify_c4::<B, Rla>(cpu, bus, pinout); }
        0x3F05 => { pinout = absolute_x_modify_c5(cpu, bus, pinout); }
        0x3F06 => { pinout = absolute_x_modify_c6(cpu, bus, pinout); }
        _ => {}
    }
    pinout
}

/// The cpu state after the cycle `code` (opcode 0x40 to 0x4F, timing
/// state) runs, `r` being the pinout the cycle returns; a code without a
/// cycle leaves the state alone.
#[verifier::opaque]
pub open spec fn spec_cycle_4(cpu: Context, pinout: Pinout, r: Pinout, code: u16) -> Context {
    match code {
        0x4000 => super::operations::spec_rti_c0(cpu, pinout, r),
        0x4001 => super::operations::spec_rti_c1(cpu, pinout, r),
        0x4002 => super::operations::spec_rti_c2(cpu, pinout, r),
        0x4003 => super::operations::spec_rti_c3(cpu, pinout, r),
        0x4004 => super::operations::spec_rti_c4(cpu, pinout, r),
        0x4005 => super::operations::spec_rti_c5(cpu, pinout, r),
        0x4100 => super::operations::spec_indirect_x_read_c0(cpu, pinout, r),
        0x4101 => super::operations::spec_indirect_x_read_c1(cpu, pinout, r),
        0x4102 => super::operations::spec_indirect_x_read_c2(cpu, pinout, r),
        0x4103 => super::operations::spec_indirect_x_read_c3(cpu, pinout, r),
        0x4104 => super::operations::spec_indirect_x_read_c4(cpu, pinout, r),
        0x4105 => super::operations::spec_indirect_x_read_c5::<Eor>(cpu, pinout, r),
        0x4200 => super::operations::spec_single_byte_c0(cpu, pinout, r),
        0x4201 => super::operations::spec_single_byte_c1::<Kil>(cpu, pinout, r),
        0x4300 => super::operations::spec_undoc_indirect_x_c0(cpu, pinout, r),
        0x4301 => super::operations::spec_undoc_indirect_x_c1(cpu, pinout, r),
        0x4302 => super::operations::spec_undoc_indirect_x_c2(cpu, pinout, r),
        0x4303 => super::operations::spec_undoc_indirect_x_c3(cpu, pinout, r),
        0x4304 => super::operations::spec_undoc_indirect_x_c4(cpu, pinout, r),
        0x4305 => super::operations::spec_undoc_indirect_x_c5::<Sre>(cpu, pinout, r),
        0x4306 => super::operations::spec_undoc_indirect_x_c6(cpu, pinout, r),
        0x4307 => super::operations::spec_undoc_indirect_x_c7(cpu, pinout, r),
        0x4400 => super::operations::spec_zeropage_read_c0(cpu, pinout, r),
        0x4401 => super::operations::spec_zeropage_read_c1(cpu, pinout, r),
        0x4402 => super::operations::spec_zeropage_read_c2::<Nop>(cpu, pinout, r),
        0x4500 => super::operations::spec_zeropage_read_c0(cpu, pinout, r),
        0x4501 => super::operations::spec_zeropage_read_c1(cpu, pinout, r),
        0x4502 => super::operations::spec_zeropage_read_c2::<Eor>(cpu, pinout, r),
        0x4600 => super::operations::spec_zeropage_modify_c0(cpu, pinout, r),
        0x4601 => super::operations::spec_zeropage_modify_c1(cpu, pinout, r),
        0x4602 => super::operations::spec_zeropage_modify_c2::<Lsr>(cpu, pinout, r),
        0x4603 => super::operations::spec_zeropage_modify_c3(cpu, pinout, r),
        0x4604 => super::operations::spec_zeropage_modify_c4(cpu, pinout, r),
        0x4700 => super::operations::spec_zeropage_modify_c0(cpu, pinout, r),
        0x4701 => super::operations::spec_zeropage_modify_c1(cpu, pinout, r),
        0x4702 => super::operations::spec_zeropage_modify_c2::<Sre>(cpu, pinout, r),
        0x4703 => super::operations::spec_zeropage_modify_c3(cpu, pinout, r),
        0x4704 => super::operations::spec_zeropage_modify_c4(cpu, pinout, r),
        0x4800 => super::operations::spec_pha_c0(cpu, pinout, r),
        0x4801 => super::operations::spec_pha_c1(cpu, pinout, r),
        0x4802 => super::operations::spec_pha_c2(cpu, pinout, r),
        0x4900 => super::operations::spec_immediate_read_c0(cpu, pinout, r),
        0x4901 => super::operations::spec_immediate_read_c1::<Eor>(cpu, pinout, r),
        0x4A00 => super::operations::spec_single_byte_c0(cpu, pinout, r),
        0x4A01 => super::operations::spec_single_byte_c1::<LsrAccum>(cpu, pinout, r),
        0x4B00 => super::operations::spec_immediate_read_c0(cpu, pinout, r),
        0x4B01 => super::operations::spec_immediate_read_c1::<Asr>(cpu, pinout, r),
        0x4C00 => super::operations::spec_jmp_absolute_c0(cpu, pinout, r),
        0x4C01 => super::operations::spec_jmp_absolute_c1(cpu, pinout, r),
        0x4C02 => super::operations::spec_jmp_absolute_c2(cpu, pinout, r),
        0x4D00 => super::operations::spec_absolute_read_c0(cpu, pinout, r),
        0x4D01 => super::operations::spec_absolute_read_c1(cpu, pinout, r),
        0x4D02 => super::operations::spec_absolute_read_c2(cpu, pinout, r),
        0x4D03 => super::operations::spec_absolute_read_c3::<Eor>(cpu, pinout, r),
        0x4E00 => super::operations::spec_absolute_modify_c0(cpu, pinout, r),
        0x4E01 => super::operations::spec_absolute_modify_c1(cpu, pinout, r),
        0x4E02 => super::operations::spec_absolute_modify_c2(cpu, pinout, r),
        0x4E03 => super::operations::spec_absolute_modify_c3::<Lsr>(cpu, pinout, r),
        0x4E04 => super::operations::spec_absolute_modify_c4(cpu, pinout, r),
        0x4E05 => super::operations::spec_absolute_modify_c5(cpu, pinout, r),
        0x4F00 => super::operations::spec_absolute_modify_c0(cpu, pinout, r),
        0x4F01 => super::operations::spec_absolute_modify_c1(cpu, pinout, r),
        0x4F02 => super::operations::spec_absolute_modify_c2(cpu, pinout, r),
        0x4F03 => super::operations::spec_absolute_modify_c3::<Sre>(cpu, pinout, r),
        0x4F04 => super::operations::spec_absolute_modify_c4(cpu, pinout, r),
        0x4F05 => super::operations::spec_absolute_modify_c5(cpu, pinout, r),
        _ => cpu,
    }
}

/// The requests the cycle `code` (opcodes 0x40 to 0x4F) puts on the bus, oldest first.
#[verifier::opaque]
pub open spec fn spec_cycle_requests_4(cpu: Context, pinout: Pinout, code: u16) -> Seq<Pinout> {
    match code {
        0x4000 => super::operations::spec_rti_c0_requests(cpu, pinout),
        0x4001 => super::operations::spec_rti_c1_requests(cpu, pinout),
        0x4002 => super::operations::spec_rti_c2_requests(cpu, pinout),
        0x4003 => super::operations::spec_rti_c3_requests(cpu, pinout),
        0x4004 => super::operations::spec_rti_c4_requests(cpu, pinout),
        0x4005 => super::operations::spec_rti_c5_requests(cpu, pinout),
        0x4100 => super::operations::spec_indirect_x_read_c0_requests(cpu, pinout),
        0x4101 => super::operations::spec_indirect_x_read_c1_requests(cpu, pinout),
        0x4102 => super::operations::spec_indirect_x_read_c2_requests(cpu, pinout),
        0x4103 => super::operations::spec_indirect_x_read_c3_requests(cpu, pinout),
        0x4104 => super::operations::spec_indirect_x_read_c4_requests(cpu, pinout),
        0x4105 => super::operations::spec_indirect_x_read_c5_requests::<Eor>(cpu, pinout),
        0x4200 => super::operations::spec_single_byte_c0_requests(cpu, pinout),
        0x4201 => super::operations::spec_single_byte_c1_requests::<Kil>(cpu, pinout),
        0x4300 => super::operations::spec_undoc_indirect_x_c0_requests(cpu, pinout),
        0x4301 => super::operations::spec_undoc_indirect_x_c1_requests(cpu, pinout),
        0x4302 => super::operations::spec_undoc_indirect_x_c2_requests(cpu, pinout),
        0x4303 => super::operations::spec_undoc_indirect_x_c3_requests(cpu, pinout),
        0x4304 => super::operations::spec_undoc_indirect_x_c4_requests(cpu, pinout),
        0x4305 => super::operations::spec_undoc_indirect_x_c5_requests::<Sre>(cpu, pinout),
        0x4306 => super::operations::spec_undoc_indirect_x_c6_requests(cpu, pinout),
        0x4307 => super::operations::spec_undoc_indirect_x_c7_requests(cpu, pinout),
        0x4400 => super::operations::spec_zeropage_read_c0_requests(cpu, pinout),
        0x4401 => super::operations::spec_zeropage_read_c1_requests(cpu, pinout),
        0x4402 => super::operations::spec_zeropage_read_c2_requests::<Nop>(cpu, pinout),
        0x4500 => super::operations::spec_zeropage_read_c0_requests(cpu, pinout),
        0x4501 => super::operations::spec_zeropage_read_c1_requests(cpu, pinout),
        0x4502 => super::operations::spec_zeropage_read_c2_requests::<Eor>(cpu, pinout),
        0x4600 => super::operations::spec_zeropage_modify_c0_requests(cpu, pinout),
        0x4601 => super::operations::spec_zeropage_modify_c1_requests(cpu, pinout),
        0x4602 => super::operations::spec_zeropage_modify_c2_requests::<Lsr>(cpu, pinout),
        0x4603 => super::operations::spec_zeropage_modify_c3_requests(cpu, pinout),
        0x4604 => super::operations::spec_zeropage_modify_c4_requests(cpu, pinout),
        0x4700 => super::operations::spec_zeropage_modify_c0_requests(cpu, pinout),
        0x4701 => super::operations::spec_zeropage_modify_c1_requests(cpu, pinout),
        0x4702 => super::operations::spec_zeropage_modify_c2_requests::<Sre>(cpu, pinout),
        0x4703 => super::operations::spec_zeropage_modify_c3_requests(cpu, pinout),
        0x4704 => super::operations::spec_zeropage_modify_c4_requests(cpu, pinout),
        0x4800 => super::operations::spec_pha_c0_requests(cpu, pinout),
        0x4801 => super::operations::spec_pha_c1_requests(cpu, pinout),
        0x4802 => super::operations::spec_pha_c2_requests(cpu, pinout),
        0x4900 => super::operations::spec_immediate_read_c0_requests(cpu, pinout),
        0x4901 => super::operations::spec_immediate_read_c1_requests::<Eor>(cpu, pinout),
        0x4A00 => super::operations::spec_single_byte_c0_requests(cpu, pinout),
        0x4A01 => super::operations::spec_single_byte_c1_requests::<LsrAccum>(cpu, pinout),
        0x4B00 => super::operations::spec_immediate_read_c0_requests(cpu, pinout),
        0x4B01 => super::operations::spec_immediate_read_c1_requests::<Asr>(cpu, pinout),
        0x4C00 => super::operations::spec_jmp_absolute_c0_requests(cpu, pinout),
        0x4C01 => super::operations::spec_jmp_absolute_c1_requests(cpu, pinout),
        0x4C02 => super::operations::spec_jmp_absolute_c2_requests(cpu, pinout),
        0x4D00 => super::operations::spec_absolute_read_c0_requests(cpu, pinout),
        0x4D01 => super::operations::spec_absolute_read_c1_requests(cpu, pinout),
        0x4D02 => super::operations::spec_absolute_read_c2_requests(cpu, pinout),
        0x4D03 => super::operations::spec_absolute_read_c3_requests::<Eor>(cpu, pinout),
        0x4E00 => super::operations::spec_absolute_modify_c0_requests(cpu, pinout),
        0x4E01 => super::operations::spec_absolute_modify_c1_requests(cpu, pinout),
        0x4E02 => super::operations::spec_absolute_modify_c2_requests(cpu, pinout),
        0x4E03 => super::operations::spec_absolute_modify_c3_requests::<Lsr>(cpu, pinout),
        0x4E04 => super::operations::spec_absolute_modify_c4_requests(cpu, pinout),
        0x4E05 => super::operations::spec_absolute_modify_c5_requests(cpu, pinout),
        0x4F00 => super::operations::spec_absolute_modify_c0_requests(cpu, pinout),
        0x4F01 => super::operations::spec_absolute_modify_c1_requests(cpu, pinout),
        0x4F02 => super::operations::spec_absolute_modify_c2_requests(cpu, pinout),
        0x4F03 => super::operations::spec_absolute_modify_c3_requests::<Sre>(cpu, pinout),
        0x4F04 => super::operations::spec_absolute_modify_c4_requests(cpu, pinout),
        0x4F05 => super::operations::spec_absolute_modify_c5_requests(cpu, pinout),
        _ => Seq::empty(),
    }
}

/// The cycles of the opcodes 0x40 to 0x4F.
#[verifier::spinoff_prover]
#[verifier::rlimit(80)]
fn run_cycle_4<B: Bus>(cpu: &mut Context, bus: &mut B, pinout: Pinout, code: u16) -> (r: Pinout)
    requires
        old(bus).ready(),
        code as int == old(cpu).ir.opcode as int * 256 + old(cpu).ir.tm as int,
        spec_valid_ir(old(cpu).ir),
    ensures
        final(bus).ready(),
        final(bus).spec_clock() == old(bus).spec_clock(),
        final(cpu).cycle == old(cpu).cycle,
        final(bus).spec_requests() == old(bus).spec_requests() + spec_cycle_requests_4(*old(cpu), pinout, code),
        *final(cpu) == spec_cycle_4(*old(cpu), pinout, r, code),
        spec_valid_ir(final(cpu).ir),
{
    proof {
        reveal(spec_cycle_requests_4);
        reveal(spec_cycle_4);
    }
    let mut pinout = pinout;
    match code {
        0x4000 => { pinout = rti_c0(cpu, bus, pinout); }
        0x4001 => { pinout = rti_c1(cpu, bus, pinout); }
        0x4002 => { pinout = rti_c2(cpu, bus, pinout); }
        0x4003 => { pinout = rti_c3(cpu, bus, pinout); }
        0x4004 => { pinout = rti_c4(cpu, bus, pinout); }
        0x4005 => { pinout = rti_c5(cpu, bus, pinout); }
        0x4100 => { pinout = indirect_x_read_c0(cpu, bus, pinout); }
        0x4101 => { pinout = indirect_x_read_c1(cpu, bus, pinout); }
        0x4102 => { pinout = indirect_x_read_c2(cpu, bus, pinout); }
        0x4103 => { pinout = indirect_x_read_c3(cpu, bus, pinout); }
        0x4104 => { pinout = indirect_x_read_c4(cpu, bus, pinout); }
        0x4105 => { pinout = indirect_x_read_c5::<B, Eor>(cpu, bus, pinout); }
        0x4200 => { pinout = single_byte_c0(cpu, bus, pinout); }
        0x4201 => { pinout = single_byte_c1::<B, Kil>(cpu, bus, pinout); }
        0x4300 => { pinout = undoc_indirect_x_c0(cpu, bus, pinout); }
        0x4301 => { pinout = undoc_indirect_x_c1(cpu, bus, pinout); }
        0x4302 => { pinout = undoc_indirect_x_c2(cpu, bus, pinout); }
        0x4303 => { pinout = undoc_indirect_x_c3(cpu, bus, pinout); }
        0x4304 => { pinout = undoc_indirect_x_c4(cpu, bus, pinout); }
        0x4305 => { pinout = undoc_indirect_x_c5::<B, Sre>(cpu, bus, pinout); }
        0x4306 => { pinout = undoc_indirect_x_c6(cpu, bus, pinout); }
        0x4307 => { pinout = undoc_indirect_x_c7(cpu, bus, pinout); }
        0x4400 => { pinout = zeropage_read_c0(cpu, bus, pinout); }
        0x4401 => { pinout = zeropage_read_c1(cpu, bus, pinout); }
        0x4402 => { pinout = zeropage_read_c2::<B, Nop>(cpu, bus, pinout); }
        0x4500 => { pinout = zeropage_read_c0(cpu, bus, pinout); }
        0x4501 => { pinout = zeropage_read_c1(cpu, bus, pinout); }
        0x4502 => { pinout = zeropage_read_c2::<B, Eor>(cpu, bus, pinout); }
        0x4600 => { pinout = zeropage_modify_c0(cpu, bus, pinout); }
        0x4601 => { pinout = zeropage_modify_c1(cpu, bus, pinout); }
        0x4602 => { pinout = zeropage_modify_c2::<B, Lsr>(cpu, bus, pinout); }
        0x4603 => { pinout = zeropage_modify_c3(cpu, bus, pinout); }
        0x4604 => { pinout = zeropage_modify_c4(cpu, bus, pinout); }
        0x4700 => { pinout = zeropage_modify_c0(cpu, bus, pinout); }
        0x4701 => { pinout = zeropage_modify_c1(cpu, bus, pinout); }
        0x4702 => { pinout = zeropage_modify_c2::<B, Sre>(cpu, bus, pinout); }
        0x4703 => { pinout = zeropage_modify_c3(cpu, bus, pinout); }
        0x4704 => { pinout = zeropage_modify_c4(cpu, bus, pinout); }
        0x4800 => { pinout = pha_c0(cpu, bus, pinout); }
        0x4801 => { pinout = pha_c1(cpu, bus, pinout); }
        0x4802 => { pinout = pha_c2(cpu, bus, pinout); }
        0x4900 => { pinout = immediate_read_c0(cpu, bus, pinout); }
        0x4901 => { pinout = immediate_read_c1::<B, Eor>(cpu, bus, pinout); }
        0x4A00 => { pinout = single_byte_c0(cpu, bus, pinout); }
        0x4A01 => { pinout = single_byte_c1::<B, LsrAccum>(cpu, bus, pinout); }
        0x4B00 => { pinout = immediate_read_c0(cpu, bus, pinout); }
        0x4B01 => { pinout = immediate_read_c1::<B, Asr>(cpu, bus, pinout); }
        0x4C00 => { pinout = jmp_absolute_c0(cpu, bus, pinout); }
        0x4C01 => { pinout = jmp_absolute_c1(cpu, bus, pinout); }
        0x4C02 => { pinout = jmp_absolute_c2(cpu, bus, pinout); }
        0x4D00 => { pinout = absolute_read_c0(cpu, bus, pinout); }
        0x4D01 => { pinout = absolute_read_c1(cpu, bus, pinout); }
        0x4D02 => { pinout = absolute_read_c2(cpu, bus, pinout); }
        0x4D03 => { pinout = absolute_read_c3::<B, Eor>(cpu, bus, pinout); }
        0x4E00 => { pinout = absolute_modify_c0(cpu, bus, pinout); }
        0x4E01 => { pinout = absolute_modify_c1(cpu, bus, pinout); }
        0x4E02 => { pinout = absolute_modify_c2(cpu, bus, pinout); }
        0x4E03 => { pinout = absolute_modify_c3::<B, Lsr>(cpu, bus, pinout); }
        0x4E04 => { pinout = absolute_modify_c4(cpu, bus, pinout); }
        0x4E05 => { pinout = absolute_modify_c5(cpu, bus, pinout); }
        0x4F00 => { pinout = absolute_modify_c0(cpu, bus, pinout); }
        0x4F01 => { pinout = absolute_modify_c1(cpu, bus, pinout); }
        0x4F02 => { pinout = absolute_modify_c2(cpu, bus, pinout); }
        0x4F03 => { pinout = absolute_modify_c3::<B, Sre>(cpu, bus, pinout); }
        0x4F04 => { pinout = absolute_modify_c4(cpu, bus, pinout); }
        0x4F05 => { pinout = absolute_modify_c5(cpu, bus, pinout); }
        _ => {}
    }
    pinout
}

/// The cpu state after the cycle `code` (opcode 0x50 to 0x5F, timing
/// state) runs, `r` being the pinout the cycle returns; a code without a
/// cycle leaves the state alone.
#[verifier::opaque]
pub open spec fn spec_cycle_5(cpu: Context, pinout: Pinout, r: Pinout, code: u16) -> Context {
    match code {
        0x5000 => super::operations::spec_branch_c0(cpu, pinout, r),
        0x5001 => super::operations::spec_branch_c1::<Bvc>(cpu, pinout, r),
        0x5002 => super::operations::spec_branch_c2(cpu, pinout, r),
        0x5003 => super::operations::spec_branch_c3(cpu, pinout, r),
        0x5100 => super::operations::spec_indirect_y_read_c0(cpu, pinout, r),
        0x5101 => super::operations::spec_indirect_y_read_c1(cpu, pinout, r),
        0x5102 => super::operations::spec_indirect_y_read_c2(cpu, pinout, r),
        0x5103 => super::operations::spec_indirect_y_read_c3(cpu, pinout, r),
        0x5104 => super::operations::spec_indirect_y_read_c4(cpu, pinout, r),
        0x5105 => super::operations::spec_indirect_y_read_c5::<Eor>(cpu, pinout, r),
        0x5200 => super::operations::spec_single_byte_c0(cpu, pinout, r),
        0x5201 => super::operations::spec_single_byte_c1::<Kil>(cpu, pinout, r),
        0x5300 => super::operations::spec_undoc_indirect_y_c0(cpu, pinout, r),
        0x5301 => super::operations::spec_undoc_indirect_y_c1(cpu, pinout, r),
        0x5302 => super::operations::spec_undoc_indirect_y_c2(cpu, pinout, r),
        0x5303 => super::operations::spec_undoc_indirect_y_c3(cpu, pinout, r),
        0x5304 => super::operations::spec_undoc_indirect_y_c4(cpu, pinout, r),
        0x5305 => super::operations::spec_undoc_indirect_y_c5::<Sre>(cpu, pinout, r),
        0x5306 => super::operations::spec_undoc_indirect_y_c6(cpu, pinout, r),
        0x5307 => super::operations::spec_undoc_indirect_y_c7(cpu, pinout, r),
        0x5400 => super::operations::spec_zeropage_x_read_c0(cpu, pinout, r),
        0x5401 => super::operations::spec_zeropage_x_read_c1(cpu, pinout, r),
        0x5402 => super::operations::spec_zeropage_x_read_c2(cpu, pinout, r),
        0x5403 => super::operations::spec_zeropage_x_read_c3::<Nop>(cpu, pinout, r),
        0x5500 => super::operations::spec_zeropage_x_read_c0(cpu, pinout, r),
        0x5501 => super::operations::spec_zeropage_x_read_c1(cpu, pinout, r),
        0x5502 => super::operations::spec_zeropage_x_read_c2(cpu, pinout, r),
        0x5503 => super::operations::spec_zeropage_x_read_c3::<Eor>(cpu, pinout, r),
        0x5600 => super::operations::spec_zeropage_x_modify_c0(cpu, pinout, r),
        0x5601 => super::operations::spec_zeropage_x_modify_c1(cpu, pinout, r),
        0x5602 => super::operations::spec_zeropage_x_modify_c2(cpu, pinout, r),
        0x5603 => super::operations::spec_zeropage_x_modify_c3::<Lsr>(cpu, pinout, r),
        0x5604 => super::operations::spec_zeropage_x_modify_c4(cpu, pinout, r),
        0x5605 => super::operations::spec_zeropage_x_modify_c5(cpu, pinout, r),
        0x5700 => super::operations::spec_zeropage_x_modify_c0(cpu, pinout, r),
        0x5701 => super::operations::spec_zeropage_x_modify_c1(cpu, pinout, r),
        0x5702 => super::operations::spec_zeropage_x_modify_c2(cpu, pinout, r),
        0x5703 => super::operations::spec_zeropage_x_modify_c3::<Sre>(cpu, pinout, r),
        0x5704 => super::operations::spec_zeropage_x_modify_c4(cpu, pinout, r),
        0x5705 => super::operations::spec_zeropage_x_modify_c5(cpu, pinout, r),
        0x5800 => super::operations::spec_single_byte_c0(cpu, pinout, r),
        0x5801 => super::operations::spec_single_byte_c1::<Cli>(cpu, pinout, r),
        0x5900 => super::operations::spec_absolute_y_read_c0(cpu, pinout, r),
        0x5901 => super::operations::spec_absolute_y_read_c1(cpu, pinout, r),
        0x5902 => super::operations::spec_absolute_y_read_c2(cpu, pinout, r),
        0x5903 => super::operations::spec_absolute_y_read_c3(cpu, pinout, r),
        0x5904 => super::operations::spec_absolute_y_read_c4::<Eor>(cpu, pinout, r),
        0x5A00 => super::operations::spec_single_byte_c0(cpu, pinout, r),
        0x5A01 => super::operations::spec_single_byte_c1::<Nop>(cpu, pinout, r),
        0x5B00 => super::operations::spec_undoc_absolute_y_c0(cpu, pinout, r),
        0x5B01 => super::operations::spec_undoc_absolute_y_c1(cpu, pinout, r),
        0x5B02 => super::operations::spec_undoc_absolute_y_c2(cpu, pinout, r),
        0x5B03 => super::operations::spec_undoc_absolute_y_c3(cpu, pinout, r),
        0x5B04 => super::operations::spec_undoc_absolute_y_c4::<Sre>(cpu, pinout, r),
        0x5B05 => super::operations::spec_undoc_absolute_y_c5(cpu, pinout, r),
        0x5B06 => super::operations::spec_undoc_absolute_y_c6(cpu, pinout, r),
        0x5C00 => super::operations::spec_absolute_x_read_c0(cpu, pinout, r),
        0x5C01 => super::operations::spec_absolute_x_read_c1(cpu, pinout, r),
        0x5C02 => super::operations::spec_absolute_x_read_c2(cpu, pinout, r),
        0x5C03 => super::operations::spec_absolute_x_read_c3(cpu, pinout, r),
        0x5C04 => super::operations::spec_absolute_x_read_c4::<Nop>(cpu, pinout, r),
        0x5D00 => super::operations::spec_absolute_x_read_c0(cpu, pinout, r),
        0x5D01 => super::operations::spec_absolute_x_read_c1(cpu, pinout, r),
        0x5D02 => super::operations::spec_absolute_x_read_c2(cpu, pinout, r),
        0x5D03 => super::operations::spec_absolute_x_read_c3(cpu, pinout, r),
        0x5D04 => super::operations::spec_absolute_x_read_c4::<Eor>(cpu, pinout, r),
        0x5E00 => super::operations::spec_absolute_x_modify_c0(cpu, pinout, r),
        0x5E01 => super::operations::spec_absolute_x_modify_c1(cpu, pinout, r),
        0x5E02 => super::operations::spec_absolute_x_modify_c2(cpu, pinout, r),
        0x5E03 => super::operations::spec_absolute_x_modify_c3(cpu, pinout, r),
        0x5E04 => super::operations::spec_absolute_x_modify_c4::<Lsr>(cpu, pinout, r),
        0x5E05 => super::operations::spec_absolute_x_modify_c5(cpu, pinout, r),
        0x5E06 => super::operations::spec_absolute_x_modify_c6(cpu, pinout, r),
        0x5F00 => super::operations::spec_absolute_x_modify_c0(cpu, pinout, r),
        0x5F01 => super::operations::spec_absolute_x_modify_c1(cpu, pinout, r),
        0x5F02 => super::operations::spec_absolute_x_modify_c2(cpu, pinout, r),
        0x5F03 => super::operations::spec_absolute_x_modify_c3(cpu, pinout, r),
        0x5F04 => super::operations::spec_absolute_x_modify_c4::<Sre>(cpu, pinout, r),
        0x5F05 => super::operations::spec_absolute_x_modify_c5(cpu, pinout, r),
        0x5F06 => super::operations::spec_absolute_x_modify_c6(cpu, pinout, r),
        _ => cpu,
    }
}

/// The requests the cycle `code` (opcodes 0x50 to 0x5F) puts on the bus, oldest first.
#[verifier::opaque]
pub open spec fn spec_cycle_requests_5(cpu: Context, pinout: Pinout, code: u16) -> Seq<Pinout> {
    match code {
        0x5000 => super::operations::spec_branch_c0_requests(cpu, pinout),
        0x5001 => super::operations::spec_branch_c1_requests::<Bvc>(cpu, pinout),
        0x5002 => super::operations::spec_branch_c2_requests(cpu, pinout),
        0x5003 => super::operations::spec_branch_c3_requests(cpu, pinout),
        0x5100 => super::operations::spec_indirect_y_read_c0_requests(cpu, pinout),
        0x5101 => super::operations::spec_indirect_y_read_c1_requests(cpu, pinout),
        0x5102 => super::operations::spec_indirect_y_read_c2_requests(cpu, pinout),
        0x5103 => super::operations::spec_indirect_y_read_c3_requests(cpu, pinout),
        0x5104 => super::operations::spec_indirect_y_read_c4_requests(cpu, pinout),
        0x5105 => super::operations::spec_indirect_y_read_c5_requests::<Eor>(cpu, pinout),
        0x5200 => super::operations::spec_single_byte_c0_requests(cpu, pinout),
        0x5201 => super::operations::spec_single_byte_c1_requests::<Kil>(cpu, pinout),
        0x5300 => super::operations::spec_undoc_indirect_y_c0_requests(cpu, pinout),
        0x5301 => super::operations::spec_undoc_indirect_y_c1_requests(cpu, pinout),
        0x5302 => super::operations::spec_undoc_indirect_y_c2_requests(cpu, pinout),
        0x5303 => super::operations::spec_undoc_indirect_y_c3_requests(cpu, pinout),
        0x5304 => super::operations::spec_undoc_indirect_y_c4_requests(cpu, pinout),
        0x5305 => super::operations::spec_undoc_indirect_y_c5_requests::<Sre>(cpu, pinout),
        0x5306 => super::operations::spec_undoc_indirect_y_c6_requests(cpu, pinout),
        0x5307 => super::operations::spec_undoc_indirect_y_c7_requests(cpu, pinout),
        0x5400 => super::operations::spec_zeropage_x_read_c0_requests(cpu, pinout),
        0x5401 => super::operations::spec_zeropage_x_read_c1_requests(cpu, pinout),
        0x5402 => super::operations::spec_zeropage_x_read_c2_requests(cpu, pinout),
        0x5403 => super::operations::spec_zeropage_x_read_c3_requests::<Nop>(cpu, pinout),
        0x5500 => super::operations::spec_zeropage_x_read_c0_requests(cpu, pinout),
        0x5501 => super::operations::spec_zeropage_x_read_c1_requests(cpu, pinout),
        0x5502 => super::operations::spec_zeropage_x_read_c2_requests(cpu, pinout),
        0x5503 => super::operations::spec_zeropage_x_read_c3_requests::<Eor>(cpu, pinout),
        0x5600 => super::operations::spec_zeropage_x_modify_c0_requests(cpu, pinout),
        0x5601 => super::operations::spec_zeropage_x_modify_c1_requests(cpu, pinout),
        0x5602 => super::operations::spec_zeropage_x_modify_c2_requests(cpu, pinout),
        0x5603 => super::operations::spec_zeropage_x_modify_c3_requests::<Lsr>(cpu, pinout),
        0x5604 => super::operations::spec_zeropage_x_modify_c4_requests(cpu, pinout),
        0x5605 => super::operations::spec_zeropage_x_modify_c5_requests(cpu, pinout),
        0x5700 => super::operations::spec_zeropage_x_modify_c0_requests(cpu, pinout),
        0x5701 => super::operations::spec_zeropage_x_modify_c1_requests(cpu, pinout),
        0x5702 => super::operations::spec_zeropage_x_modify_c2_requests(cpu, pinout),
        0x5703 => super::operations::spec_zeropage_x_modify_c3_requests::<Sre>(cpu, pinout),
        0x5704 => super::operations::spec_zeropage_x_modify_c4_requests(cpu, pinout),
        0x5705 => super::operations::spec_zeropage_x_modify_c5_requests(cpu, pinout),
        0x5800 => super::operations::spec_single_byte_c0_requests(cpu, pinout),
        0x5801 => super::operations::spec_single_byte_c1_requests::<Cli>(cpu, pinout),
        0x5900 => super::operations::spec_absolute_y_read_c0_requests(cpu, pinout),
        0x5901 => super::operations::spec_absolute_y_read_c1_requests(cpu, pinout),
        0x5902 => super::operations::spec_absolute_y_read_c2_requests(cpu, pinout),
        0x5903 => super::operations::spec_absolute_y_read_c3_requests(cpu, pinout),
        0x5904 => super::operations::spec_absolute_y_read_c4_requests::<Eor>(cpu, pinout),
        0x5A00 => super::operations::spec_single_byte_c0_requests(cpu, pinout),
        0x5A01 => super::operations::spec_single_byte_c1_requests::<Nop>(cpu, pinout),
        0x5B00 => super::operations::spec_undoc_absolute_y_c0_requests(cpu, pinout),
        0x5B01 => super::operations::spec_undoc_absolute_y_c1_requests(cpu, pinout),
        0x5B02 => super::operations::spec_undoc_absolute_y_c2_requests(cpu, pinout),
        0x5B03 => super::operations::spec_undoc_absolute_y_c3_requests(cpu, pinout),
        0x5B04 => super::operations::spec_undoc_absolute_y_c4_requests::<Sre>(cpu, pinout),
        0x5B05 => super::operations::spec_undoc_absolute_y_c5_requests(cpu, pinout),
        0x5B06 => super::operations::spec_undoc_absolute_y_c6_requests(cpu, pinout),
        0x5C00 => super::operations::spec_absolute_x_read_c0_requests(cpu, pinout),
        0x5C01 => super::operations::spec_absolute_x_read_c1_requests(cpu, pinout),
        0x5C02 => super::operations::spec_absolute_x_read_c2_requests(cpu, pinout),
        0x5C03 => super::operations::spec_absolute_x_read_c3_requests(cpu, pinout),
        0x5C04 => super::operations::spec_absolute_x_read_c4_requests::<Nop>(cpu, pinout),
        0x5D00 => super::operations::spec_absolute_x_read_c0_requests(cpu, pinout),
        0x5D01 => super::operations::spec_absolute_x_read_c1_requests(cpu, pinout),
        0x5D02 => super::operations::spec_absolute_x_read_c2_requests(cpu, pinout),
        0x5D03 => super::operations::spec_absolute_x_read_c3_requests(cpu, pinout),
        0x5D04 => super::operations::spec_absolute_x_read_c4_requests::<Eor>(cpu, pinout),
        0x5E00 => super::operations::spec_absolute_x_modify_c0_requests(cpu, pinout),
        0x5E01 => super::operations::spec_absolute_x_modify_c1_requests(cpu, pinout),
        0x5E02 => super::operations::spec_absolute_x_modify_c2_requests(cpu, pinout),
        0x5E03 => super::operations::spec_absolute_x_modify_c3_requests(cpu, pinout),
        0x5E04 => super::operations::spec_absolute_x_modify_c4_requests::<Lsr>(cpu, pinout),
        0x5E05 => super::operations::spec_absolute_x_modify_c5_requests(cpu, pinout),
        0x5E06 => super::operations::spec_absolute_x_modify_c6_requests(cpu, pinout),
        0x5F00 => super::operations::spec_absolute_x_modify_c0_requests(cpu, pinout),
        0x5F01 => super::operations::spec_absolute_x_modify_c1_requests(cpu, pinout),
        0x5F02 => super::operations::spec_absolute_x_modify_c2_requests(cpu, pinout),
        0x5F03 => super::operations::spec_absolute_x_modify_c3_requests(cpu, pinout),
        0x5F04 => super::operations::spec_absolute_x_modify_c4_requests::<Sre>(cpu, pinout),
        0x5F05 => super::operations::spec_absolute_x_modify_c5_requests(cpu, pinout),
        0x5F06 => super::operations::spec_absolute_x_modify_c6_requests(cpu, pinout),
        _ => Seq::empty(),
    }
}

/// The cycles of the opcodes 0x50 to 0x5F.
#[verifier::spinoff_prover]
#[verifier::rlimit(80)]
fn run_cycle_5<B: Bus>(cpu: &mut Context, bus: &mut B, pinout: Pinout, code: u16) -> (r: Pinout)
    requires
        old(bus).ready(),
        code as int == old(cpu).ir.opcode as int * 256 + old(cpu).ir.tm as int,
        spec_valid_ir(old(cpu).ir),
    ensures
        final(bus).ready(),
        final(bus).spec_clock() == old(bus).spec_clock(),
        final(cpu).cycle == old(cpu).cycle,
        final(bus).spec_requests() == old(bus).spec_requests() + spec_cycle_requests_5(*old(cpu), pinout, code),
        *final(cpu) == spec_cycle_5(*old(cpu), pinout, r, code),
        spec_valid_ir(final(cpu).ir),
{
    proof {
        reveal(spec_cycle_requests_5);
        reveal(spec_cycle_5);
    }
    let mut pinout = pinout;
    match code {
        0x5000 => { pinout = branch_c0(cpu, bus, pinout); }
        0x5001 => { pinout = branch_c1::<B, Bvc>(cpu, bus, pinout); }
        0x5002 => { pinout = branch_c2(cpu, bus, pinout); }
        0x5003 => { pinout = branch_c3(cpu, bus, pinout); }
        0x5100 => { pinout = indirect_y_read_c0(cpu, bus, pinout); }
        0x5101 => { pinout = indirect_y_read_c1(cpu, bus, pinout); }
        0x5102 => { pinout = indirect_y_read_c2(cpu, bus, pinout); }
        0x5103 => { pinout = indirect_y_read_c3(cpu, bus, pinout); }
        0x5104 => { pinout = indirect_y_read_c4(cpu, bus, pinout); }
        0x5105 => { pinout = indirect_y_read_c5::<B, Eor>(cpu, bus, pinout); }
        0x5200 => { pinout = single_byte_c0(cpu, bus, pinout); }
        0x5201 => { pinout = single_byte_c1::<B, Kil>(cpu, bus, pinout); }
        0x5300 => { pinout = undoc_indirect_y_c0(cpu, bus, pinout); }
        0x5301 => { pinout = undoc_indirect_y_c1(cpu, bus, pinout); }
        0x5302 => { pinout = undoc_indirect_y_c2(cpu, bus, pinout); }
        0x5303 => { pinout = undoc_indirect_y_c3(cpu, bus, pinout); }
        0x5304 => { pinout = undoc_indirect_y_c4(cpu, bus, pinout); }
        0x5305 => { pinout = undoc_indirect_y_c5::<B, Sre>(cpu, bus, pinout); }
        0x5306 => { pinout = undoc_indirect_y_c6(cpu, bus, pinout); }
        0x5307 => { pinout = undoc_indirect_y_c7(cpu, bus, pinout); }
        0x5400 => { pinout = zeropage_x_read_c0(cpu, bus, pinout); }
        0x5401 => { pinout = zeropage_x_read_c1(cpu, bus, pinout); }
        0x5402 => { pinout = zeropage_x_read_c2(cpu, bus, pinout); }
        0x5403 => { pinout = zeropage_x_read_c3::<B, Nop>(cpu, bus, pinout); }
        0x5500 => { pinout = zeropage_x_read_c0(cpu, bus, pinout); }
        0x5501 => { pinout = zeropage_x_read_c1(cpu, bus, pinout); }
        0x5502 => { pinout = zeropage_x_read_c2(cpu, bus, pinout); }
        0x5503 => { pinout = zeropage_x_read_c3::<B, Eor>(cpu, bus, pinout); }
        0x5600 => { pinout = zeropage_x_modify_c0(cpu, bus, pinout); }
        0x5601 => { pinout = zeropage_x_modify_c1(cpu, bus, pinout); }
        0x5602 => { pinout = zeropage_x_modify_c2(cpu, bus, pinout); }
        0x5603 => { pinout = zeropage_x_modify_c3::<B, Lsr>(cpu, bus, pinout); }
        0x5604 => { pinout = zeropage_x_modify_c4(cpu, bus, pinout); }
        0x5605 => { pinout = zeropage_x_modify_c5(cpu, bus, pinout); }
        0x5700 => { pinout = zeropage_x_modify_c0(cpu, bus, pinout); }
        0x5701 => { pinout = zeropage_x_modify_c1(cpu, bus, pinout); }
        0x5702 => { pinout = zeropage_x_modify_c2(cpu, bus, pinout); }
        0x5703 => { pinout = zeropage_x_modify_c3::<B, Sre>(cpu, bus, pinout); }
        0x5704 => { pinout = zeropage_x_modify_c4(cpu, bus, pinout); }
        0x5705 => { pinout = zeropage_x_modify_c5(cpu, bus, pinout); }
        0x5800 => { pinout = single_byte_c0(cpu, bus, pinout); }
        0x5801 => { pinout = single_byte_c1::<B, Cli>(cpu, bus, pinout); }
        0x5900 => { pinout = absolute_y_read_c0(cpu, bus, pinout); }
        0x5901 => { pinout = absolute_y_read_c1(cpu, bus, pinout); }
        0x5902 => { pinout = absolute_y_read_c2(cpu, bus, pinout); }
        0x5903 => { pinout = absolute_y_read_c3(cpu, bus, pinout); }
        0x5904 => { pinout = absolute_y_read_c4::<B, Eor>(cpu, bus, pinout); }
        0x5A00 => { pinout = single_byte_c0(cpu, bus, pinout); }
        0x5A01 => { pinout = single_byte_c1::<B, Nop>(cpu, bus, pinout); }
        0x5B00 => { pinout = undoc_absolute_y_c0(cpu, bus, pinout); }
        0x5B01 => { pinout = undoc_absolute_y_c1(cpu, bus, pinout); }
        0x5B02 => { pinout = undoc_absolute_y_c2(cpu, bus, pinout); }
        0x5B03 => { pinout = undoc_absolute_y_c3(cpu, bus, pinout); }
        0x5B04 => { pinout = undoc_absolute_y_c4::<B, Sre>(cpu, bus, pinout); }
        0x5B05 => { pinout = undoc_absolute_y_c5(cpu, bus, pinout); }
        0x5B06 => { pinout = undoc_absolute_y_c6(cpu, bus, pinout); }
        0x5C00 => { pinout = absolute_x_read_c0(cpu, bus, pinout); }
        0x5C01 => { pinout = absolute_x_read_c1(cpu, bus, pinout); }
        0x5C02 => { pinout = absolute_x_read_c2(cpu, bus, pinout); }
        0x5C03 => { pinout = absolute_x_read_c3(cpu, bus, pinout); }
        0x5C04 => { pinout = absolute_x_read_c4::<B, Nop>(cpu, bus, pinout); }
        0x5D00 => { pinout = absolute_x_read_c0(cpu, bus, pinout); }
        0x5D01 => { pinout = absolute_x_read_c1(cpu, bus, pinout); }
        0x5D02 => { pinout = absolute_x_read_c2(cpu, bus, pinout); }
        0x5D03 => { pinout = absolute_x_read_c3(cpu, bus, pinout); }
        0x5D04 => { pinout = absolute_x_read_c4::<B, Eor>(cpu, bus, pinout); }
        0x5E00 => { pinout = absolute_x_modify_c0(cpu, bus, pinout); }
        0x5E01 => { pinout = absolute_x_modify_c1(cpu, bus, pinout); }
        0x5E02 => { pinout = absolute_x_modify_c2(cpu, bus, pinout); }
        0x5E03 => { pinout = absolute_x_modify_c3(cpu, bus, pinout); }
        0x5E04 => { pinout = absolute_x_modify_c4::<B, Lsr>(cpu, bus, pinout); }
        0x5E05 => { pinout = absolute_x_modify_c5(cpu, bus, pinout); }
        0x5E06 => { pinout = absolute_x_modify_c6(cpu, bus, pinout); }
        0x5F00 => { pinout = absolute_x_modify_c0(cpu, bus, pinout); }
        0x5F01 => { pinout = absolute_x_modify_c1(cpu, bus, pinout); }
        0x5F02 => { pinout = absolute_x_modify_c2(cpu, bus, pinout); }
        0x5F03 => { pinout = absolute_x_modify_c3(cpu, bus, pinout); }
        0x5F04 => { pinout = absolute_x_modify_c4::<B, Sre>(cpu, bus, pinout); }
        0x5F05 => { pinout = absolute_x_modify_c5(cpu, bus, pinout); }
        0x5F06 => { pinout = absolute_x_modify_c6(cpu, bus, pinout); }
        _ => {}
    }
    pinout
}

/// The cpu state after the cycle `code` (opcode 0x60 to 0x6F, timing
/// state) runs, `r` being the pinout the cycle returns; a code without a
/// cycle leaves the state alone.
#[verifier::opaque]
pub open spec fn spec_cycle_6(cpu: Context, pinout: Pinout, r: Pinout, code: u16) -> Context {
    match code {
        0x6000 => super::operations::spec_rts_c0(cpu, pinout, r),
        0x6001 => super::operations::spec_rts_c1(cpu, pinout, r),
        0x6002 => super::operations::spec_rts_c2(cpu, pinout, r),
        0x6003 => super::operations::spec_rts_c3(cpu, pinout, r),
        0x6004 => super::operations::spec_rts_c4(cpu, pinout, r),
        0x6005 => super::operations::spec_rts_c5(cpu, pinout, r),
        0x6100 => super::operations::spec_indirect_x_read_c0(cpu, pinout, r),
        0x6101 => super::operations::spec_indirect_x_read_c1(cpu, pinout, r),
        0x6102 => super::operations::spec_indirect_x_read_c2(cpu, pinout, r),
        0x6103 => super::operations::spec_indirect_x_read_c3(cpu, pinout, r),
        0x6104 => super::operations::spec_indirect_x_read_c4(cpu, pinout, r),
        0x6105 => super::operations::spec_indirect_x_read_c5::<AdcNoDec>(cpu, pinout, r),
        0x6200 => super::operations::spec_single_byte_c0(cpu, pinout, r),
        0x6201 => super::operations::spec_single_byte_c1::<Kil>(cpu, pinout, r),
        0x6300 => super::operations::spec_undoc_indirect_x_c0(cpu, pinout, r),
        0x6301 => super::operations::spec_undoc_indirect_x_c1(cpu, pinout, r),
        0x6302 => super::operations::spec_undoc_indirect_x_c2(cpu, pinout, r),
        0x6303 => super::operations::spec_undoc_indirect_x_c3(cpu, pinout, r),
        0x6304 => super::operations::spec_undoc_indirect_x_c4(cpu, pinout, r),
        0x6305 => super::operations::spec_undoc_indirect_x_c5::<Rra>(cpu, pinout, r),
        0x6306 => super::operations::spec_undoc_indirect_x_c6(cpu, pinout, r),
        0x6307 => super::operations::spec_undoc_indirect_x_c7(cpu, pinout, r),
        0x6400 => super::operations::spec_zeropage_read_c0(cpu, pinout, r),
        0x6401 => super::operations::spec_zeropage_read_c1(cpu, pinout, r),
        0x6402 => super::operations::spec_zeropage_read_c2::<Nop>(cpu, pinout, r),
        0x6500 => super::operations::spec_zeropage_read_c0(cpu, pinout, r),
        0x6501 => super::operations::spec_zeropage_read_c1(cpu, pinout, r),
        0x6502 => super::operations::spec_zeropage_read_c2::<AdcNoDec>(cpu, pinout, r),
        0x6600 => super::operations::spec_zeropage_modify_c0(cpu, pinout, r),
        0x6601 => super::operations::spec_zeropage_modify_c1(cpu, pinout, r),
        0x6602 => super::operations::spec_zeropage_modify_c2::<Ror>(cpu, pinout, r),
        0x6603 => super::operations::spec_zeropage_modify_c3(cpu, pinout, r),
        0x6604 => super::operations::spec_zeropage_modify_c4(cpu, pinout, r),
        0x6700 => super::operations::spec_zeropage_modify_c0(cpu, pinout, r),
        0x6701 => super::operations::spec_zeropage_modify_c1(cpu, pinout, r),
        0x6702 => super::operations::spec_zeropage_modify_c2::<Rra>(cpu, pinout, r),
        0x6703 => super::operations::spec_zeropage_modify_c3(cpu, pinout, r),
        0x6704 => super::operations::spec_zeropage_modify_c4(cpu, pinout, r),
        0x6800 => super::operations::spec_pla_c0(cpu, pinout, r),
        0x6801 => super::operations::spec_pla_c1(cpu, pinout, r),
        0x6802 => super::operations::spec_pla_c2(cpu, pinout, r),
        0x6803 => super::operations::spec_pla_c3(cpu, pinout, r),
        0x6900 => super::operations::spec_immediate_read_c0(cpu, pinout, r),
        0x6901 => super::operations::spec_immediate_read_c1::<AdcNoDec>(cpu, pinout, r),
        0x6A00 => super::operations::spec_single_byte_c0(cpu, pinout, r),
        0x6A01 => super::operations::spec_single_byte_c1::<RorAccum>(cpu, pinout, r),
        0x6B00 => super::operations::spec_immediate_read_c0(cpu, pinout, r),
        0x6B01 => super::operations::spec_immediate_read_c1::<Arr>(cpu, pinout, r),
        0x6C00 => super::operations::spec_jmp_indirect_c0(cpu, pinout, r),
        0x6C01 => super::operations::spec_jmp_indirect_c1(cpu, pinout, r),
        0x6C02 => super::operations::spec_jmp_indirect_c2(cpu, pinout, r),
        0x6C03 => super::operations::spec_jmp_indirect_c3(cpu, pinout, r),
        0x6C04 => super::operations::spec_jmp_indirect_c4(cpu, pinout, r),
        0x6D00 => super::operations::spec_absolute_read_c0(cpu, pinout, r),
        0x6D01 => super::operations::spec_absolute_read_c1(cpu, pinout, r),
        0x6D02 => super::operations::spec_absolute_read_c2(cpu, pinout, r),
        0x6D03 => super::operations::spec_absolute_read_c3::<AdcNoDec>(cpu, pinout, r),
        0x6E00 => super::operations::spec_absolute_modify_c0(cpu, pinout, r),
        0x6E01 => super::operations::spec_absolute_modify_c1(cpu, pinout, r),
        0x6E02 => super::operations::spec_absolute_modify_c2(cpu, pinout, r),
        0x6E03 => super::operations::spec_absolute_modify_c3::<Ror>(cpu, pinout, r),
        0x6E04 => super::operations::spec_absolute_modify_c4(cpu, pinout, r),
        0x6E05 => super::operations::spec_absolute_modify_c5(cpu, pinout, r),
        0x6F00 => super::operations::spec_absolute_modify_c0(cpu, pinout, r),
        0x6F01 => super::operations::spec_absolute_modify_c1(cpu, pinout, r),
        0x6F02 => super::operations::spec_absolute_modify_c2(cpu, pinout, r),
        0x6F03 => super::operations::spec_absolute_modify_c3::<Rra>(cpu, pinout, r),
        0x6F04 => super::operations::spec_absolute_modify_c4(cpu, pinout, r),
        0x6F05 => super::operations::spec_absolute_modify_c5(cpu, pinout, r),
        _ => cpu,
    }
}

/// The requests the cycle `code` (opcodes 0x60 to 0x6F) puts on the bus, oldest first.
#[verifier::opaque]
pub open spec fn spec_cycle_requests_6(cpu: Context, pinout: Pinout, code: u16) -> Seq<Pinout> {
    match code {
        0x6000 => super::operations::spec_rts_c0_requests(cpu, pinout),
        0x6001 => super::operations::spec_rts_c1_requests(cpu, pinout),
        0x6002 => super::operations::spec_rts_c2_requests(cpu, pinout),
        0x6003 => super::operations::spec_rts_c3_requests(cpu, pinout),
        0x6004 => super::operations::spec_rts_c4_requests(cpu, pinout),
        0x6005 => super::operations::spec_rts_c5_requests(cpu, pinout),
        0x6100 => super::operations::spec_indirect_x_read_c0_requests(cpu, pinout),
        0x6101 => super::operations::spec_indirect_x_read_c1_requests(cpu, pinout),
        0x6102 => super::operations::spec_indirect_x_read_c2_requests(cpu, pinout),
        0x6103 => super::operations::spec_indirect_x_read_c3_requests(cpu, pinout),
        0x6104 => super::operations::spec_indirect_x_read_c4_requests(cpu, pinout),
        0x6105 => super::operations::spec_indirect_x_read_c5_requests::<AdcNoDec>(cpu, pinout),
        0x6200 => super::operations::spec_single_byte_c0_requests(cpu, pinout),
        0x6201 => super::operations::spec_single_byte_c1_requests::<Kil>(cpu, pinout),
        0x6300 => super::operations::spec_undoc_indirect_x_c0_requests(cpu, pinout),
        0x6301 => super::operations::spec_undoc_indirect_x_c1_requests(cpu, pinout),
        0x6302 => super::operations::spec_undoc_indirect_x_c2_requests(cpu, pinout),
        0x6303 => super::operations::spec_undoc_indirect_x_c3_requests(cpu, pinout),
        0x6304 => super::operations::spec_undoc_indirect_x_c4_requests(cpu, pinout),
        0x6305 => super::operations::spec_undoc_indirect_x_c5_requests::<Rra>(cpu, pinout),
        0x6306 => super::operations::spec_undoc_indirect_x_c6_requests(cpu, pinout),
        0x6307 => super::operations::spec_undoc_indirect_x_c7_requests(cpu, pinout),
        0x6400 => super::operations::spec_zeropage_read_c0_requests(cpu, pinout),
        0x6401 => super::operations::spec_zeropage_read_c1_requests(cpu, pinout),
        0x6402 => super::operations::spec_zeropage_read_c2_requests::<Nop>(cpu, pinout),
        0x6500 => super::operations::spec_zeropage_read_c0_requests(cpu, pinout),
        0x6501 => super::operations::spec_zeropage_read_c1_requests(cpu, pinout),
        0x6502 => super::operations::spec_zeropage_read_c2_requests::<AdcNoDec>(cpu, pinout),
        0x6600 => super::operations::spec_zeropage_modify_c0_requests(cpu, pinout),
        0x6601 => super::operations::spec_zeropage_modify_c1_requests(cpu, pinout),
        0x6602 => super::operations::spec_zeropage_modify_c2_requests::<Ror>(cpu, pinout),
        0x6603 => super::operations::spec_zeropage_modify_c3_requests(cpu, pinout),
        0x6604 => super::operations::spec_zeropage_modify_c4_requests(cpu, pinout),
        0x6700 => super::operations::spec_zeropage_modify_c0_requests(cpu, pinout),
        0x6701 => super::operations::spec_zeropage_modify_c1_requests(cpu, pinout),
        0x6702 => super::operations::spec_zeropage_modify_c2_requests::<Rra>(cpu, pinout),
        0x6703 => super::operations::spec_zeropage_modify_c3_requests(cpu, pinout),
        0x6704 => super::operations::spec_zeropage_modify_c4_requests(cpu, pinout),
        0x6800 => super::operations::spec_pla_c0_requests(cpu, pinout),
        0x6801 => super::operations::spec_pla_c1_requests(cpu, pinout),
        0x6802 => super::operations::spec_pla_c2_requests(cpu, pinout),
        0x6803 => super::operations::spec_pla_c3_requests(cpu, pinout),
        0x6900 => super::operations::spec_immediate_read_c0_requests(cpu, pinout),
        0x6901 => super::operations::spec_immediate_read_c1_requests::<AdcNoDec>(cpu, pinout),
        0x6A00 => super::operations::spec_single_byte_c0_requests(cpu, pinout),
        0x6A01 => super::operations::spec_single_byte_c1_requests::<RorAccum>(cpu, pinout),
        0x6B00 => super::operations::spec_immediate_read_c0_requests(cpu, pinout),
        0x6B01 => super::operations::spec_immediate_read_c1_requests::<Arr>(cpu, pinout),
        0x6C00 => super::operations::spec_jmp_indirect_c0_requests(cpu, pinout),
        0x6C01 => super::operations::spec_jmp_indirect_c1_requests(cpu, pinout),
        0x6C02 => super::operations::spec_jmp_indirect_c2_requests(cpu, pinout),
        0x6C03 => super::operations::spec_jmp_indirect_c3_requests(cpu, pinout),
        0x6C04 => super::operations::spec_jmp_indirect_c4_requests(cpu, pinout),
        0x6D00 => super::operations::spec_absolute_read_c0_requests(cpu, pinout),
        0x6D01 => super::operations::spec_absolute_read_c1_requests(cpu, pinout),
        0x6D02 => super::operations::spec_absolute_read_c2_requests(cpu, pinout),
        0x6D03 => super::operations::spec_absolute_read_c3_requests::<AdcNoDec>(cpu, pinout),
        0x6E00 => super::operations::spec_absolute_modify_c0_requests(cpu, pinout),
        0x6E01 => super::operations::spec_absolute_modify_c1_requests(cpu, pinout),
        0x6E02 => super::operations::spec_absolute_modify_c2_requests(cpu, pinout),
        0x6E03 => super::operations::spec_absolute_modify_c3_requests::<Ror>(cpu, pinout),
        0x6E04 => super::operations::spec_absolute_modify_c4_requests(cpu, pinout),
        0x6E05 => super::operations::spec_absolute_modify_c5_requests(cpu, pinout),
        0x6F00 => super::operations::spec_absolute_modify_c0_requests(cpu, pinout),
        0x6F01 => super::operations::spec_absolute_modify_c1_requests(cpu, pinout),
        0x6F02 => super::operations::spec_absolute_modify_c2_requests(cpu, pinout),
        0x6F03 => super::operations::spec_absolute_modify_c3_requests::<Rra>(cpu, pinout),
        0x6F04 => super::operations::spec_absolute_modify_c4_requests(cpu, pinout),
        0x6F05 => super::operations::spec_absolute_modify_c5_requests(cpu, pinout),
        _ => Seq::empty(),
    }
}

/// The cycles of the opcodes 0x60 to 0x6F.
#[verifier::spinoff_prover]
#[verifier::rlimit(80)]
fn run_cycle_6<B: Bus>(cpu: &mut Context, bus: &mut B, pinout: Pinout, code: u16) -> (r: Pinout)
    requires
        old(bus).ready(),
        code as int == old(cpu).ir.opcode as int * 256 + old(cpu).ir.tm as int,
        spec_valid_ir(old(cpu).ir),
    ensures
        final(bus).ready(),
        final(bus).spec_clock() == old(bus).spec_clock(),
        final(cpu).cycle == old(cpu).cycle,
        final(bus).spec_requests() == old(bus).spec_requests() + spec_cycle_requests_6(*old(cpu), pinout, code),
        *final(cpu) == spec_cycle_6(*old(cpu), pinout, r, code),
        spec_valid_ir(final(cpu).ir),
{
    proof {
        reveal(spec_cycle_requests_6);
        reveal(spec_cycle_6);
    }
    let mut pinout = pinout;
    match code {
        0x6000 => { pinout = rts_c0(cpu, bus, pinout); }
        0x6001 => { pinout = rts_c1(cpu, bus, pinout); }
        0x6002 => { pinout = rts_c2(cpu, bus, pinout); }
        0x6003 => { pinout = rts_c3(cpu, bus, pinout); }
        0x6004 => { pinout = rts_c4(cpu, bus, pinout); }
        0x6005 => { pinout = rts_c5(cpu, bus, pinout); }
        0x6100 => { pinout = indirect_x_read_c0(cpu, bus, pinout); }
        0x6101 => { pinout = indirect_x_read_c1(cpu, bus, pinout); }
        0x6102 => { pinout = indirect_x_read_c2(cpu, bus, pinout); }
        0x6103 => { pinout = indirect_x_read_c3(cpu, bus, pinout); }
        0x6104 => { pinout = indirect_x_read_c4(cpu, bus, pinout); }
        0x6105 => { pinout = indirect_x_read_c5::<B, AdcNoDec>(cpu, bus, pinout); }
        0x6200 => { pinout = single_byte_c0(cpu, bus, pinout); }
        0x6201 => { pinout = single_byte_c1::<B, Kil>(cpu, bus, pinout); }
        0x6300 => { pinout = undoc_indirect_x_c0(cpu, bus, pinout); }
        0x6301 => { pinout = undoc_indirect_x_c1(cpu, bus, pinout); }
        0x6302 => { pinout = undoc_indirect_x_c2(cpu, bus, pinout); }
        0x6303 => { pinout = undoc_indirect_x_c3(cpu, bus, pinout); }
        0x6304 => { pinout = undoc_indirect_x_c4(cpu, bus, pinout); }
        0x6305 => { pinout = undoc_indirect_x_c5::<B, Rra>(cpu, bus, pinout); }
        0x6306 => { pinout = undoc_indirect_x_c6(cpu, bus, pinout); }
        0x6307 => { pinout = undoc_indirect_x_c7(cpu, bus, pinout); }
        0x6400 => { pinout = zeropage_read_c0(cpu, bus, pinout); }
        0x6401 => { pinout = zeropage_read_c1(cpu, bus, pinout); }
        0x6402 => { pinout = zeropage_read_c2::<B, Nop>(cpu, bus, pinout); }
        0x6500 => { pinout = zeropage_read_c0(cpu, bus, pinout); }
        0x6501 => { pinout = zeropage_read_c1(cpu, bus, pinout); }
        0x6502 => { pinout = zeropage_read_c2::<B, AdcNoDec>(cpu, bus, pinout); }
        0x6600 => { pinout = zeropage_modify_c0(cpu, bus, pinout); }
        0x6601 => { pinout = zeropage_modify_c1(cpu, bus, pinout); }
        0x6602 => { pinout = zeropage_modify_c2::<B, Ror>(cpu, bus, pinout); }
        0x6603 => { pinout = zeropage_modify_c3(cpu, bus, pinout); }
        0x6604 => { pinout = zeropage_modify_c4(cpu, bus, pinout); }
        0x6700 => { pinout = zeropage_modify_c0(cpu, bus, pinout); }
        0x6701 => { pinout = zeropage_modify_c1(cpu, bus, pinout); }
        0x6702 => { pinout = zeropage_modify_c2::<B, Rra>(cpu, bus, pinout); }
        0x6703 => { pinout = zeropage_modify_c3(cpu, bus, pinout); }
        0x6704 => { pinout = zeropage_modify_c4(cpu, bus, pinout); }
        0x6800 => { pinout = pla_c0(cpu, bus, pinout); }
        0x6801 => { pinout = pla_c1(cpu, bus, pinout); }
        0x6802 => { pinout = pla_c2(cpu, bus, pinout); }
        0x6803 => { pinout = pla_c3(cpu, bus, pinout); }
        0x6900 => { pinout = immediate_read_c0(cpu, bus, pinout); }
        0x6901 => { pinout = immediate_read_c1::<B, AdcNoDec>(cpu, bus, pinout); }
        0x6A00 => { pinout = single_byte_c0(cpu, bus, pinout); }
        0x6A01 => { pinout = single_byte_c1::<B, RorAccum>(cpu, bus, pinout); }
        0x6B00 => { pinout = immediate_read_c0(cpu, bus, pinout); }
        0x6B01 => { pinout = immediate_read_c1::<B, Arr>(cpu, bus, pinout); }
        0x6C00 => { pinout = jmp_indirect_c0(cpu, bus, pinout); }
        0x6C01 => { pinout = jmp_indirect_c1(cpu, bus, pinout); }
        0x6C02 => { pinout = jmp_indirect_c2(cpu, bus, pinout); }
        0x6C03 => { pinout = jmp_indirect_c3(cpu, bus, pinout); }
        0x6C04 => { pinout = jmp_indirect_c4(cpu, bus, pinout); }
        0x6D00 => { pinout = absolute_read_c0(cpu, bus, pinout); }
        0x6D01 => { pinout = absolute_read_c1(cpu, bus, pinout); }
        0x6D02 => { pinout = absolute_read_c2(cpu, bus, pinout); }
        0x6D03 => { pinout = absolute_read_c3::<B, AdcNoDec>(cpu, bus, pinout); }
        0x6E00 => { pinout = absolute_modify_c0(cpu, bus, pinout); }
        0x6E01 => { pinout = absolute_modify_c1(cpu, bus, pinout); }
        0x6E02 => { pinout = absolute_modify_c2(cpu, bus, pinout); }
        0x6E03 => { pinout = absolute_modify_c3::<B, Ror>(cpu, bus, pinout); }
        0x6E04 => { pinout = absolute_modify_c4(cpu, bus, pinout); }
        0x6E05 => { pinout = absolute_modify_c5(cpu, bus, pinout); }
        0x6F00 => { pinout = absolute_modify_c0(cpu, bus, pinout); }
        0x6F01 => { pinout = absolute_modify_c1(cpu, bus, pinout); }
        0x6F02 => { pinout = absolute_modify_c2(cpu, bus, pinout); }
        0x6F03 => { pinout = absolute_modify_c3::<B, Rra>(cpu, bus, pinout); }
        0x6F04 => { pinout = absolute_modify_c4(cpu, bus, pinout); }
        0x6F05 => { pinout = absolute_modify_c5(cpu, bus, pinout); }
        _ => {}
    }
    pinout
}

/// The cpu state after the cycle `code` (opcode 0x70 to 0x7F, timing
/// state) runs, `r` being the pinout the cycle returns; a code without a
/// cycle leaves the state alone.
#[verifier::opaque]
pub open spec fn spec_cycle_7(cpu: Context, pinout: Pinout, r: Pinout, code: u16) -> Context {
    match code {
        0x7000 => super::operations::spec_branch_c0(cpu, pinout, r),
        0x7001 => super::operations::spec_branch_c1::<Bvs>(cpu, pinout, r),
        0x7002 => super::operations::spec_branch_c2(cpu, pinout, r),
        0x7003 => super::operations::spec_branch_c3(cpu, pinout, r),
        0x7100 => super::operations::spec_indirect_y_read_c0(cpu, pinout, r),
        0x7101 => super::operations::spec_indirect_y_read_c1(cpu, pinout, r),
        0x7102 => super::operations::spec_indirect_y_read_c2(cpu, pinout, r),
        0x7103 => super::operations::spec_indirect_y_read_c3(cpu, pinout, r),
        0x7104 => super::operations::spec_indirect_y_read_c4(cpu, pinout, r),
        0x7105 => super::operations::spec_indirect_y_read_c5::<AdcNoDec>(cpu, pinout, r),
        0x7200 => super::operations::spec_single_byte_c0(cpu, pinout, r),
        0x7201 => super::operations::spec_single_byte_c1::<Kil>(cpu, pinout, r),
        0x7300 => super::operations::spec_undoc_indirect_y_c0(cpu, pinout, r),
        0x7301 => super::operations::spec_undoc_indirect_y_c1(cpu, pinout, r),
        0x7302 => super::operations::spec_undoc_indirect_y_c2(cpu, pinout, r),
        0x7303 => super::operations::spec_undoc_indirect_y_c3(cpu, pinout, r),
        0x7304 => super::operations::spec_undoc_indirect_y_c4(cpu, pinout, r),
        0x7305 => super::operations::spec_undoc_indirect_y_c5::<Rra>(cpu, pinout, r),
        0x7306 => super::operations::spec_undoc_indirect_y_c6(cpu, pinout, r),
        0x7307 => super::operations::spec_undoc_indirect_y_c7(cpu, pinout, r),
        0x7400 => super::operations::spec_zeropage_x_read_c0(cpu, pinout, r),
        0x7401 => super::operations::spec_zeropage_x_read_c1(cpu, pinout, r),
        0x7402 => super::operations::spec_zeropage_x_read_c2(cpu, pinout, r),
        0x7403 => super::operations::spec_zeropage_x_read_c3::<Nop>(cpu, pinout, r),
        0x7500 => super::operations::spec_zeropage_x_read_c0(cpu, pinout, r),
        0x7501 => super::operations::spec_zeropage_x_read_c1(cpu, pinout, r),
        0x7502 => super::operations::spec_zeropage_x_read_c2(cpu, pinout, r),
        0x7503 => super::operations::spec_zeropage_x_read_c3::<AdcNoDec>(cpu, pinout, r),
        0x7600 => super::operations::spec_zeropage_x_modify_c0(cpu, pinout, r),
        0x7601 => super::operations::spec_zeropage_x_modify_c1(cpu, pinout, r),
        0x7602 => super::operations::spec_zeropage_x_modify_c2(cpu, pinout, r),
        0x7603 => super::operations::spec_zeropage_x_modify_c3::<Ror>(cpu, pinout, r),
        0x7604 => super::operations::spec_zeropage_x_modify_c4(cpu, pinout, r),
        0x7605 => super::operations::spec_zeropage_x_modify_c5(cpu, pinout, r),
        0x7700 => super::operations::spec_zeropage_x_modify_c0(cpu, pinout, r),
        0x7701 => super::operations::spec_zeropage_x_modify_c1(cpu, pinout, r),
        0x7702 => super::operations::spec_zeropage_x_modify_c2(cpu, pinout, r),
        0x7703 => super::operations::spec_zeropage_x_modify_c3::<Rra>(cpu, pinout, r),
        0x7704 => super::operations::spec_zeropage_x_modify_c4(cpu, pinout, r),
        0x7705 => super::operations::spec_zeropage_x_modify_c5(cpu, pinout, r),
        0x7800 => super::operations::spec_single_byte_c0(cpu, pinout, r),
        0x7801 => super::operations::spec_single_byte_c1::<Sei>(cpu, pinout, r),
        0x7900 => super::operations::spec_absolute_y_read_c0(cpu, pinout, r),
        0x7901 => super::operations::spec_absolute_y_read_c1(cpu, pinout, r),
        0x7902 => super::operations::spec_absolute_y_read_c2(cpu, pinout, r),
        0x7903 => super::operations::spec_absolute_y_read_c3(cpu, pinout, r),
        0x7904 => super::operations::spec_absolute_y_read_c4::<AdcNoDec>(cpu, pinout, r),
        0x7A00 => super::operations::spec_single_byte_c0(cpu, pinout, r),
        0x7A01 => super::operations::spec_single_byte_c1::<Nop>(cpu, pinout, r),
        0x7B00 => super::operations::spec_undoc_absolute_y_c0(cpu, pinout, r),
        0x7B01 => super::operations::spec_undoc_absolute_y_c1(cpu, pinout, r),
        0x7B02 => super::operations::spec_undoc_absolute_y_c2(cpu, pinout, r),
        0x7B03 => super::operations::spec_undoc_absolute_y_c3(cpu, pinout, r),
        0x7B04 => super::operations::spec_undoc_absolute_y_c4::<Rra>(cpu, pinout, r),
        0x7B05 => super::operations::spec_undoc_absolute_y_c5(cpu, pinout, r),
        0x7B06 => super::operations::spec_undoc_absolute_y_c6(cpu, pinout, r),
        0x7C00 => super::operations::spec_absolute_x_read_c0(cpu, pinout, r),
        0x7C01 => super::operations::spec_absolute_x_read_c1(cpu, pinout, r),
        0x7C02 => super::operations::spec_absolute_x_read_c2(cpu, pinout, r),
        0x7C03 => super::operations::spec_absolute_x_read_c3(cpu, pinout, r),
        0x7C04 => super::operations::spec_absolute_x_read_c4::<Nop>(cpu, pinout, r),
        0x7D00 => super::operations::spec_absolute_x_read_c0(cpu, pinout, r),
        0x7D01 => super::operations::spec_absolute_x_read_c1(cpu, pinout, r),
        0x7D02 => super::operations::spec_absolute_x_read_c2(cpu, pinout, r),
        0x7D03 => super::operations::spec_absolute_x_read_c3(cpu, pinout, r),
        0x7D04 => super::operations::spec_absolute_x_read_c4::<AdcNoDec>(cpu, pinout, r),
        0x7E00 => super::operations::spec_absolute_x_modify_c0(cpu, pinout, r),
        0x7E01 => super::operations::spec_absolute_x_modify_c1(cpu, pinout, r),
        0x7E02 => super::operations::spec_absolute_x_modify_c2(cpu, pinout, r),
        0x7E03 => super::operations::spec_absolute_x_modify_c3(cpu, pinout, r),
        0x7E04 => super::operations::spec_absolute_x_modify_c4::<Ror>(cpu, pinout, r),
        0x7E05 => super::operations::spec_absolute_x_modify_c5(cpu, pinout, r),
        0x7E06 => super::operations::spec_absolute_x_modify_c6(cpu, pinout, r),
        0x7F00 => super::operations::spec_absolute_x_modify_c0(cpu, pinout, r),
        0x7F01 => super::operations::spec_absolute_x_modify_c1(cpu, pinout, r),
        0x7F02 => super::operations::spec_absolute_x_modify_c2(cpu, pinout, r),
        0x7F03 => super::operations::spec_absolute_x_modify_c3(cpu, pinout, r),
        0x7F04 => super::operations::spec_absolute_x_modify_c4::<Rra>(cpu, pinout, r),
        0x7F05 => super::operations::spec_absolute_x_modify_c5(cpu, pinout, r),
        0x7F06 => super::operations::spec_absolute_x_modify_c6(cpu, pinout, r),
        _ => cpu,
    }
}

/// The requests the cycle `code` (opcodes 0x70 to 0x7F) puts on the bus, oldest first.
#[verifier::opaque]
pub open spec fn spec_cycle_requests_7(cpu: Context, pinout: Pinout, code: u16) -> Seq<Pinout> {
    match code {
        0x7000 => super::operations::spec_branch_c0_requests(cpu, pinout),
        0x7001 => super::operations::spec_branch_c1_requests::<Bvs>(cpu, pinout),
        0x7002 => super::operations::spec_branch_c2_requests(cpu, pinout),
        0x7003 => super::operations::spec_branch_c3_requests(cpu, pinout),
        0x7100 => super::operations::spec_indirect_y_read_c0_requests(cpu, pinout),
        0x7101 => super::operations::spec_indirect_y_read_c1_requests(cpu, pinout),
        0x7102 => super::operations::spec_indirect_y_read_c2_requests(cpu, pinout),
        0x7103 => super::operations::spec_indirect_y_read_c3_requests(cpu, pinout),
        0x7104 => super::operations::spec_indirect_y_read_c4_requests(cpu, pinout),
        0x7105 => super::operations::spec_indirect_y_read_c5_requests::<AdcNoDec>(cpu, pinout),
        0x7200 => super::operations::spec_single_byte_c0_requests(cpu, pinout),
        0x7201 => super::operations::spec_single_byte_c1_requests::<Kil>(cpu, pinout),
        0x7300 => super::operations::spec_undoc_indirect_y_c0_requests(cpu, pinout),
        0x7301 => super::operations::spec_undoc_indirect_y_c1_requests(cpu, pinout),
        0x7302 => super::operations::spec_undoc_indirect_y_c2_requests(cpu, pinout),
        0x7303 => super::operations::spec_undoc_indirect_y_c3_requests(cpu, pinout),
        0x7304 => super::operations::spec_undoc_indirect_y_c4_requests(cpu, pinout),
        0x7305 => super::operations::spec_undoc_indirect_y_c5_requests::<Rra>(cpu, pinout),
        0x7306 => super::operations::spec_undoc_indirect_y_c6_requests(cpu, pinout),
        0x7307 => super::operations::spec_undoc_indirect_y_c7_requests(cpu, pinout),
        0x7400 => super::operations::spec_zeropage_x_read_c0_requests(cpu, pinout),
        0x7401 => super::operations::spec_zeropage_x_read_c1_requests(cpu, pinout),
        0x7402 => super::operations::spec_zeropage_x_read_c2_requests(cpu, pinout),
        0x7403 => super::operations::spec_zeropage_x_read_c3_requests::<Nop>(cpu, pinout),
        0x7500 => super::operations::spec_zeropage_x_read_c0_requests(cpu, pinout),
        0x7501 => super::operations::spec_zeropage_x_read_c1_requests(cpu, pinout),
        0x7502 => super::operations::spec_zeropage_x_read_c2_requests(cpu, pinout),
        0x7503 => super::operations::spec_zeropage_x_read_c3_requests::<AdcNoDec>(cpu, pinout),
        0x7600 => super::operations::spec_zeropage_x_modify_c0_requests(cpu, pinout),
        0x7601 => super::operations::spec_zeropage_x_modify_c1_requests(cpu, pinout),
        0x7602 => super::operations::spec_zeropage_x_modify_c2_requests(cpu, pinout),
        0x7603 => super::operations::spec_zeropage_x_modify_c3_requests::<Ror>(cpu, pinout),
        0x7604 => super::operations::spec_zeropage_x_modify_c4_requests(cpu, pinout),
        0x7605 => super::operations::spec_zeropage_x_modify_c5_requests(cpu, pinout),
        0x7700 => super::operations::spec_zeropage_x_modify_c0_requests(cpu, pinout),
        0x7701 => super::operations::spec_zeropage_x_modify_c1_requests(cpu, pinout),
        0x7702 => super::operations::spec_zeropage_x_modify_c2_requests(cpu, pinout),
        0x7703 => super::operations::spec_zeropage_x_modify_c3_requests::<Rra>(cpu, pinout),
        0x7704 => super::operations::spec_zeropage_x_modify_c4_requests(cpu, pinout),
        0x7705 => super::operations::spec_zeropage_x_modify_c5_requests(cpu, pinout),
        0x7800 => super::operations::spec_single_byte_c0_requests(cpu, pinout),
        0x7801 => super::operations::spec_single_byte_c1_requests::<Sei>(cpu, pinout),
        0x7900 => super::operations::spec_absolute_y_read_c0_requests(cpu, pinout),
        0x7901 => super::operations::spec_absolute_y_read_c1_requests(cpu, pinout),
        0x7902 => super::operations::spec_absolute_y_read_c2_requests(cpu, pinout),
        0x7903 => super::operations::spec_absolute_y_read_c3_requests(cpu, pinout),
        0x7904 => super::operations::spec_absolute_y_read_c4_requests::<AdcNoDec>(cpu, pinout),
        0x7A00 => super::operations::spec_single_byte_c0_requests(cpu, pinout),
        0x7A01 => super::operations::spec_single_byte_c1_requests::<Nop>(cpu, pinout),
        0x7B00 => super::operations::spec_undoc_absolute_y_c0_requests(cpu, pinout),
        0x7B01 => super::operations::spec_undoc_absolute_y_c1_requests(cpu, pinout),
        0x7B02 => super::operations::spec_undoc_absolute_y_c2_requests(cpu, pinout),
        0x7B03 => super::operations::spec_undoc_absolute_y_c3_requests(cpu, pinout),
        0x7B04 => super::operations::spec_undoc_absolute_y_c4_requests::<Rra>(cpu, pinout),
        0x7B05 => super::operations::spec_undoc_absolute_y_c5_requests(cpu, pinout),
        0x7B06 => super::operations::spec_undoc_absolute_y_c6_requests(cpu, pinout),
        0x7C00 => super::operations::spec_absolute_x_read_c0_requests(cpu, pinout),
        0x7C01 => super::operations::spec_absolute_x_read_c1_requests(cpu, pinout),
        0x7C02 => super::operations::spec_absolute_x_read_c2_requests(cpu, pinout),
        0x7C03 => super::operations::spec_absolute_x_read_c3_requests(cpu, pinout),
        0x7C04 => super::operations::spec_absolute_x_read_c4_requests::<Nop>(cpu, pinout),
        0x7D00 => super::operations::spec_absolute_x_read_c0_requests(cpu, pinout),
        0x7D01 => super::operations::spec_absolute_x_read_c1_requests(cpu, pinout),
        0x7D02 => super::operations::spec_absolute_x_read_c2_requests(cpu, pinout),
        0x7D03 => super::operations::spec_absolute_x_read_c3_requests(cpu, pinout),
        0x7D04 => super::operations::spec_absolute_x_read_c4_requests::<AdcNoDec>(cpu, pinout),
        0x7E00 => super::operations::spec_absolute_x_modify_c0_requests(cpu, pinout),
        0x7E01 => super::operations::spec_absolute_x_modify_c1_requests(cpu, pinout),
        0x7E02 => super::operations::spec_absolute_x_modify_c2_requests(cpu, pinout),
        0x7E03 => super::operations::spec_absolute_x_modify_c3_requests(cpu, pinout),
        0x7E04 => super::operations::spec_absolute_x_modify_c4_requests::<Ror>(cpu, pinout),
        0x7E05 => super::operations::spec_absolute_x_modify_c5_requests(cpu, pinout),
        0x7E06 => super::operations::spec_absolute_x_modify_c6_requests(cpu, pinout),
        0x7F00 => super::operations::spec_absolute_x_modify_c0_requests(cpu, pinout),
        0x7F01 => super::operations::spec_absolute_x_modify_c1_requests(cpu, pinout),
        0x7F02 => super::operations::spec_absolute_x_modify_c2_requests(cpu, pinout),
        0x7F03 => super::operations::spec_absolute_x_modify_c3_requests(cpu, pinout),
        0x7F04 => super::operations::spec_absolute_x_modify_c4_requests::<Rra>(cpu, pinout),
        0x7F05 => super::operations::spec_absolute_x_modify_c5_requests(cpu, pinout),
        0x7F06 => super::operations::spec_absolute_x_modify_c6_requests(cpu, pinout),
        _ => Seq::empty(),
    }
}

/// The cycles of the opcodes 0x70 to 0x7F.
#[verifier::spinoff_prover]
#[verifier::rlimit(80)]
fn run_cycle_7<B: Bus>(cpu: &mut Context, bus: &mut B, pinout: Pinout, code: u16) -> (r: Pinout)
    requires
        old(bus).ready(),
        code as int == old(cpu).ir.opcode as int * 256 + old(cpu).ir.tm as int,
        spec_valid_ir(old(cpu).ir),
    ensures
        final(bus).ready(),
        final(bus).spec_clock() == old(bus).spec_clock(),
        final(cpu).cycle == old(cpu).cycle,
        final(bus).spec_requests() == old(bus).spec_requests() + spec_cycle_requests_7(*old(cpu), pinout, code),
        *final(cpu) == spec_cycle_7(*old(cpu), pinout, r, code),
        spec_valid_ir(final(cpu).ir),
{
    proof {
        reveal(spec_cycle_requests_7);
        reveal(spec_cycle_7);
    }
    let mut pinout = pinout;
    match code {
        0x7000 => { pinout = branch_c0(cpu, bus, pinout); }
        0x7001 => { pinout = branch_c1::<B, Bvs>(cpu, bus, pinout); }
        0x7002 => { pinout = branch_c2(cpu, bus, pinout); }
        0x7003 => { pinout = branch_c3(cpu, bus, pinout); }
        0x7100 => { pinout = indirect_y_read_c0(cpu, bus, pinout); }
        0x7101 => { pinout = indirect_y_read_c1(cpu, bus, pinout); }
        0x7102 => { pinout = indirect_y_read_c2(cpu, bus, pinout); }
        0x7103 => { pinout = indirect_y_read_c3(cpu, bus, pinout); }
        0x7104 => { pinout = indirect_y_read_c4(cpu, bus, pinout); }
        0x7105 => { pinout = indirect_y_read_c5::<B, AdcNoDec>(cpu, bus, pinout); }
        0x7200 => { pinout = single_byte_c0(cpu, bus, pinout); }
        0x7201 => { pinout = single_byte_c1::<B, Kil>(cpu, bus, pinout); }
        0x7300 => { pinout = undoc_indirect_y_c0(cpu, bus, pinout); }
        0x7301 => { pinout = undoc_indirect_y_c1(cpu, bus, pinout); }
        0x7302 => { pinout = undoc_indirect_y_c2(cpu, bus, pinout); }
        0x7303 => { pinout = undoc_indirect_y_c3(cpu, bus, pinout); }
        0x7304 => { pinout = undoc_indirect_y_c4(cpu, bus, pinout); }
        0x7305 => { pinout = undoc_indirect_y_c5::<B, Rra>(cpu, bus, pinout); }
        0x7306 => { pinout = undoc_indirect_y_c6(cpu, bus, pinout); }
        0x7307 => { pinout = undoc_indirect_y_c7(cpu, bus, pinout); }
        0x7400 => { pinout = zeropage_x_read_c0(cpu, bus, pinout); }
        0x7401 => { pinout = zeropage_x_read_c1(cpu, bus, pinout); }
        0x7402 => { pinout = zeropage_x_read_c2(cpu, bus, pinout); }
        0x7403 => { pinout = zeropage_x_read_c3::<B, Nop>(cpu, bus, pinout); }
        0x7500 => { pinout = zeropage_x_read_c0(cpu, bus, pinout); }
        0x7501 => { pinout = zeropage_x_read_c1(cpu, bus, pinout); }
        0x7502 => { pinout = zeropage_x_read_c2(cpu, bus, pinout); }
        0x7503 => { pinout = zeropage_x_read_c3::<B, AdcNoDec>(cpu, bus, pinout); }
        0x7600 => { pinout = zeropage_x_modify_c0(cpu, bus, pinout); }
        0x7601 => { pinout = zeropage_x_modify_c1(cpu, bus, pinout); }
        0x7602 => { pinout = zeropage_x_modify_c2(cpu, bus, pinout); }
        0x7603 => { pinout = zeropage_x_modify_c3::<B, Ror>(cpu, bus, pinout); }
        0x7604 => { pinout = zeropage_x_modify_c4(cpu, bus, pinout); }
        0x7605 => { pinout = zeropage_x_modify_c5(cpu, bus, pinout); }
        0x7700 => { pinout = zeropage_x_modify_c0(cpu, bus, pinout); }
        0x7701 => { pinout = zeropage_x_modify_c1(cpu, bus, pinout); }
        0x7702 => { pinout = zeropage_x_modify_c2(cpu, bus, pinout); }
        0x7703 => { pinout = zeropage_x_modify_c3::<B, Rra>(cpu, bus, pinout); }
        0x7704 => { pinout = zeropage_x_modify_c4(cpu, bus, pinout); }
        0x7705 => { pinout = zeropage_x_modify_c5(cpu, bus, pinout); }
        0x7800 => { pinout = single_byte_c0(cpu, bus, pinout); }
        0x7801 => { pinout = single_byte_c1::<B, Sei>(cpu, bus, pinout); }
        0x7900 => { pinout = absolute_y_read_c0(cpu, bus, pinout); }
        0x7901 => { pinout = absolute_y_read_c1(cpu, bus, pinout); }
        0x7902 => { pinout = absolute_y_read_c2(cpu, bus, pinout); }
        0x7903 => { pinout = absolute_y_read_c3(cpu, bus, pinout); }
        0x7904 => { pinout = absolute_y_read_c4::<B, AdcNoDec>(cpu, bus, pinout); }
        0x7A00 => { pinout = single_byte_c0(cpu, bus, pinout); }
        0x7A01 => { pinout = single_byte_c1::<B, Nop>(cpu, bus, pinout); }
        0x7B00 => { pinout = undoc_absolute_y_c0(cpu, bus, pinout); }
        0x7B01 => { pinout = undoc_absolute_y_c1(cpu, bus, pinout); }
        0x7B02 => { pinout = undoc_absolute_y_c2(cpu, bus, pinout); }
        0x7B03 => { pinout = undoc_absolute_y_c3(cpu, bus, pinout); }
        0x7B04 => { pinout = undoc_absolute_y_c4::<B, Rra>(cpu, bus, pinout); }
        0x7B05 => { pinout = undoc_absolute_y_c5(cpu, bus, pinout); }
        0x7B06 => { pinout = undoc_absolute_y_c6(cpu, bus, pinout); }
        0x7C00 => { pinout = absolute_x_read_c0(cpu, bus, pinout); }
        0x7C01 => { pinout = absolute_x_read_c1(cpu, bus, pinout); }
        0x7C02 => { pinout = absolute_x_read_c2(cpu, bus, pinout); }
        0x7C03 => { pinout = absolute_x_read_c3(cpu, bus, pinout); }
        0x7C04 => { pinout = absolute_x_read_c4::<B, Nop>(cpu, bus, pinout); }
        0x7D00 => { pinout = absolute_x_read_c0(cpu, bus, pinout); }
        0x7D01 => { pinout = absolute_x_read_c1(cpu, bus, pinout); }
        0x7D02 => { pinout = absolute_x_read_c2(cpu, bus, pinout); }
        0x7D03 => { pinout = absolute_x_read_c3(cpu, bus, pinout); }
        0x7D04 => { pinout = absolute_x_read_c4::<B, AdcNoDec>(cpu, bus, pinout); }
        0x7E00 => { pinout = absolute_x_modify_c0(cpu, bus, pinout); }
        0x7E01 => { pinout = absolute_x_modify_c1(cpu, bus, pinout); }
        0x7E02 => { pinout = absolute_x_modify_c2(cpu, bus, pinout); }
        0x7E03 => { pinout = absolute_x_modify_c3(cpu, bus, pinout); }
        0x7E04 => { pinout = absolute_x_modify_c4::<B, Ror>(cpu, bus, pinout); }
        0x7E05 => { pinout = absolute_x_modify_c5(cpu, bus, pinout); }
        0x7E06 => { pinout = absolute_x_modify_c6(cpu, bus, pinout); }
        0x7F00 => { pinout = absolute_x_modify_c0(cpu, bus, pinout); }
        0x7F01 => { pinout = absolute_x_modify_c1(cpu, bus, pinout); }
        0x7F02 => { pinout = absolute_x_modify_c2(cpu, bus, pinout); }
        0x7F03 => { pinout = absolute_x_modify_c3(cpu, bus, pinout); }
        0x7F04 => { pinout = absolute_x_modify_c4::<B, Rra>(cpu, bus, pinout); }
        0x7F05 => { pinout = absolute_x_modify_c5(cpu, bus, pinout); }
        0x7F06 => { pinout = absolute_x_modify_c6(cpu, bus, pinout); }
        _ => {}
    }
    pinout
}

/// The cpu state after the cycle `code` (opcode 0x80 to 0x8F, timing
/// state) runs, `r` being the pinout the cycle returns; a code without a
/// cycle leaves the state alone.
#[verifier::opaque]
pub open spec fn spec_cycle_8(cpu: Context, pinout: Pinout, r: Pinout, code: u16) -> Context {
    match code {
        0x8000 => super::operations::spec_immediate_read_c0(cpu, pinout, r),
        0x8001 => super::operations::spec_immediate_read_c1::<Nop>(cpu, pinout, r),
        0x8100 => super::operations::spec_indirect_x_store_c0(cpu, pinout, r),
        0x8101 => super::operations::spec_indirect_x_store_c1(cpu, pinout, r),
        0x8102 => super::operations::spec_indirect_x_store_c2(cpu, pinout, r),
        0x8103 => super::operations::spec_indirect_x_store_c3(cpu, pinout, r),
        0x8104 => super::operations::spec_indirect_x_store_c4::<Sta>(cpu, pinout, r),
        0x8105 => super::operations::spec_indirect_x_store_c5(cpu, pinout, r),
        0x8200 => super::operations::spec_immediate_read_c0(cpu, pinout, r),
        0x8201 => super::operations::spec_immediate_read_c1::<Nop>(cpu, pinout, r),
        0x8300 => super::operations::spec_indirect_x_store_c0(cpu, pinout, r),
        0x8301 => super::operations::spec_indirect_x_store_c1(cpu, pinout, r),
        0x8302 => super::operations::spec_indirect_x_store_c2(cpu, pinout, r),
        0x8303 => super::operations::spec_indirect_x_store_c3(cpu, pinout, r),
        0x8304 => super::operations::spec_indirect_x_store_c4::<Aax>(cpu, pinout, r),
        0x8305 => super::operations::spec_indirect_x_store_c5(cpu, pinout, r),
        0x8400 => super::operations::spec_zeropage_store_c0(cpu, pinout, r),
        0x8401 => super::operations::spec_zeropage_store_c1::<Sty>(cpu, pinout, r),
        0x8402 => super::operations::spec_zeropage_store_c2(cpu, pinout, r),
        0x8500 => super::operations::spec_zeropage_store_c0(cpu, pinout, r),
        0x8501 => super::operations::spec_zeropage_store_c1::<Sta>(cpu, pinout, r),
        0x8502 => super::operations::spec_zeropage_store_c2(cpu, pinout, r),
        0x8600 => super::operations::spec_zeropage_store_c0(cpu, pinout, r),
        0x8601 => super::operations::spec_zeropage_store_c1::<Stx>(cpu, pinout, r),
        0x8602 => super::operations::spec_zeropage_store_c2(cpu, pinout, r),
        0x8700 => super::operations::spec_zeropage_store_c0(cpu, pinout, r),
        0x8701 => super::operations::spec_zeropage_store_c1::<Aax>(cpu, pinout, r),
        0x8702 => super::operations::spec_zeropage_store_c2(cpu, pinout, r),
        0x8800 => super::operations::spec_single_byte_c0(cpu, pinout, r),
        0x8801 => super::operations::spec_single_byte_c1::<Dey>(cpu, pinout, r),
        0x8900 => super::operations::spec_immediate_read_c0(cpu, pinout, r),
        0x8901 => super::operations::spec_immediate_read_c1::<Nop>(cpu, pinout, r),
        0x8A00 => super::operations::spec_single_byte_c0(cpu, pinout, r),
        0x8A01 => super::operations::spec_single_byte_c1::<Txa>(cpu, pinout, r),
        0x8B00 => super::operations::spec_immediate_read_c0(cpu, pinout, r),
        0x8B01 => super::operations::spec_immediate_read_c1::<Xaa>(cpu, pinout, r),
        0x8C00 => super::operations::spec_absolute_store_c0(cpu, pinout, r),
        0x8C01 => super::operations::spec_absolute_store_c1(cpu, pinout, r),
        0x8C02 => super::operations::spec_absolute_store_c2::<Sty>(cpu, pinout, r),
        0x8C03 => super::operations::spec_absolute_store_c3(cpu, pinout, r),
        0x8D00 => super::operations::spec_absolute_store_c0(cpu, pinout, r),
        0x8D01 => super::operations::spec_absolute_store_c1(cpu, pinout, r),
        0x8D02 => super::operations::spec_absolute_store_c2::<Sta>(cpu, pinout, r),
        0x8D03 => super::operations::spec_absolute_store_c3(cpu, pinout, r),
        0x8E00 => super::operations::spec_absolute_store_c0(cpu, pinout, r),
        0x8E01 => super::operations::spec_absolute_store_c1(cpu, pinout, r),
        0x8E02 => super::operations::spec_absolute_store_c2::<Stx>(cpu, pinout, r),
        0x8E03 => super::operations::spec_absolute_store_c3(cpu, pinout, r),
        0x8F00 => super::operations::spec_absolute_store_c0(cpu, pinout, r),
        0x8F01 => super::operations::spec_absolute_store_c1(cpu, pinout, r),
        0x8F02 => super::operations::spec_absolute_store_c2::<Aax>(cpu, pinout, r),
        0x8F03 => super::operations::spec_absolute_store_c3(cpu, pinout, r),
        _ => cpu,
    }
}

/// The requests the cycle `code` (opcodes 0x80 to 0x8F) puts on the bus, oldest first.
#[verifier::opaque]
pub open spec fn spec_cycle_requests_8(cpu: Context, pinout: Pinout, code: u16) -> Seq<Pinout> {
    match code {
        0x8000 => super::operations::spec_immediate_read_c0_requests(cpu, pinout),
        0x8001 => super::operations::spec_immediate_read_c1_requests::<Nop>(cpu, pinout),
        0x8100 => super::operations::spec_indirect_x_store_c0_requests(cpu, pinout),
        0x8101 => super::operations::spec_indirect_x_store_c1_requests(cpu, pinout),
        0x8102 => super::operations::spec_indirect_x_store_c2_requests(cpu, pinout),
        0x8103 => super::operations::spec_indirect_x_store_c3_requests(cpu, pinout),
        0x8104 => super::operations::spec_indirect_x_store_c4_requests::<Sta>(cpu, pinout),
        0x8105 => super::operations::spec_indirect_x_store_c5_requests(cpu, pinout),
        0x8200 => super::operations::spec_immediate_read_c0_requests(cpu, pinout),
        0x8201 => super::operations::spec_immediate_read_c1_requests::<Nop>(cpu, pinout),
        0x8300 => super::operations::spec_indirect_x_store_c0_requests(cpu, pinout),
        0x8301 => super::operations::spec_indirect_x_store_c1_requests(cpu, pinout),
        0x8302 => super::operations::spec_indirect_x_store_c2_requests(cpu, pinout),
        0x8303 => super::operations::spec_indirect_x_store_c3_requests(cpu, pinout),
        0x8304 => super::operations::spec_indirect_x_store_c4_requests::<Aax>(cpu, pinout),
        0x8305 => super::operations::spec_indirect_x_store_c5_requests(cpu, pinout),
        0x8400 => super::operations::spec_zeropage_store_c0_requests(cpu, pinout),
        0x8401 => super::operations::spec_zeropage_store_c1_requests::<Sty>(cpu, pinout),
        0x8402 => super::operations::spec_zeropage_store_c2_requests(cpu, pinout),
        0x8500 => super::operations::spec_zeropage_store_c0_requests(cpu, pinout),
        0x8501 => super::operations::spec_zeropage_store_c1_requests::<Sta>(cpu, pinout),
        0x8502 => super::operations::spec_zeropage_store_c2_requests(cpu, pinout),
        0x8600 => super::operations::spec_zeropage_store_c0_requests(cpu, pinout),
        0x8601 => super::operations::spec_zeropage_store_c1_requests::<Stx>(cpu, pinout),
        0x8602 => super::operations::spec_zeropage_store_c2_requests(cpu, pinout),
        0x8700 => super::operations::spec_zeropage_store_c0_requests(cpu, pinout),
        0x8701 => super::operations::spec_zeropage_store_c1_requests::<Aax>(cpu, pinout),
        0x8702 => super::operations::spec_zeropage_store_c2_requests(cpu, pinout),
        0x8800 => super::operations::spec_single_byte_c0_requests(cpu, pinout),
        0x8801 => super::operations::spec_single_byte_c1_requests::<Dey>(cpu, pinout),
        0x8900 => super::operations::spec_immediate_read_c0_requests(cpu, pinout),
        0x8901 => super::operations::spec_immediate_read_c1_requests::<Nop>(cpu, pinout),
        0x8A00 => super::operations::spec_single_byte_c0_requests(cpu, pinout),
        0x8A01 => super::operations::spec_single_byte_c1_requests::<Txa>(cpu, pinout),
        0x8B00 => super::operations::spec_immediate_read_c0_requests(cpu, pinout),
        0x8B01 => super::operations::spec_immediate_read_c1_requests::<Xaa>(cpu, pinout),
        0x8C00 => super::operations::spec_absolute_store_c0_requests(cpu, pinout),
        0x8C01 => super::operations::spec_absolute_store_c1_requests(cpu, pinout),
        0x8C02 => super::operations::spec_absolute_store_c2_requests::<Sty>(cpu, pinout),
        0x8C03 => super::operations::spec_absolute_store_c3_requests(cpu, pinout),
        0x8D00 => super::operations::spec_absolute_store_c0_requests(cpu, pinout),
        0x8D01 => super::operations::spec_absolute_store_c1_requests(cpu, pinout),
        0x8D02 => super::operations::spec_absolute_store_c2_requests::<Sta>(cpu, pinout),
        0x8D03 => super::operations::spec_absolute_store_c3_requests(cpu, pinout),
        0x8E00 => super::operations::spec_absolute_store_c0_requests(cpu, pinout),
        0x8E01 => super::operations::spec_absolute_store_c1_requests(cpu, pinout),
        0x8E02 => super::operations::spec_absolute_store_c2_requests::<Stx>(cpu, pinout),
        0x8E03 => super::operations::spec_absolute_store_c3_requests(cpu, pinout),
        0x8F00 => super::operations::spec_absolute_store_c0_requests(cpu, pinout),
        0x8F01 => super::operations::spec_absolute_store_c1_requests(cpu, pinout),
        0x8F02 => super::operations::spec_absolute_store_c2_requests::<Aax>(cpu, pinout),
        0x8F03 => super::operations::spec_absolute_store_c3_requests(cpu, pinout),
        _ => Seq::empty(),
    }
}

/// The cycles of the opcodes 0x80 to 0x8F.
#[verifier::spinoff_prover]
#[verifier::rlimit(80)]
fn run_cycle_8<B: Bus>(cpu: &mut Context, bus: &mut B, pinout: Pinout, code: u16) -> (r: Pinout)
    requires
        old(bus).ready(),
        code as int == old(cpu).ir.opcode as int * 256 + old(cpu).ir.tm as int,
        spec_valid_ir(old(cpu).ir),
    ensures
        final(bus).ready(),
        final(bus).spec_clock() == old(bus).spec_clock(),
        final(cpu).cycle == old(cpu).cycle,
        final(bus).spec_requests() == old(bus).spec_requests() + spec_cycle_requests_8(*old(cpu), pinout, code),
        *final(cpu) == spec_cycle_8(*old(cpu), pinout, r, code),
        spec_valid_ir(final(cpu).ir),
{
    proof {
        reveal(spec_cycle_requests_8);
        reveal(spec_cycle_8);
    }
    let mut pinout = pinout;
    match code {
        0x8000 => { pinout = immediate_read_c0(cpu, bus, pinout); }
        0x8001 => { pinout = immediate_read_c1::<B, Nop>(cpu, bus, pinout); }
        0x8100 => { pinout = indirect_x_store_c0(cpu, bus, pinout); }
        0x8101 => { pinout = indirect_x_store_c1(cpu, bus, pinout); }
        0x8102 => { pinout = indirect_x_store_c2(cpu, bus, pinout); }
        0x8103 => { pinout = indirect_x_store_c3(cpu, bus, pinout); }
        0x8104 => { pinout = indirect_x_store_c4::<B, Sta>(cpu, bus, pinout); }
        0x8105 => { pinout = indirect_x_store_c5(cpu, bus, pinout); }
        0x8200 => { pinout = immediate_read_c0(cpu, bus, pinout); }
        0x8201 => { pinout = immediate_read_c1::<B, Nop>(cpu, bus, pinout); }
        0x8300 => { pinout = indirect_x_store_c0(cpu, bus, pinout); }
        0x8301 => { pinout = indirect_x_store_c1(cpu, bus, pinout); }
        0x8302 => { pinout = indirect_x_store_c2(cpu, bus, pinout); }
        0x8303 => { pinout = indirect_x_store_c3(cpu, bus, pinout); }
        0x8304 => { pinout = indirect_x_store_c4::<B, Aax>(cpu, bus, pinout); }
        0x8305 => { pinout = indirect_x_store_c5(cpu, bus, pinout); }
        0x8400 => { pinout = zeropage_store_c0(cpu, bus, pinout); }
        0x8401 => { pinout = zeropage_store_c1::<B, Sty>(cpu, bus, pinout); }
        0x8402 => { pinout = zeropage_store_c2(cpu, bus, pinout); }
        0x8500 => { pinout = zeropage_store_c0(cpu, bus, pinout); }
        0x8501 => { pinout = zeropage_store_c1::<B, Sta>(cpu, bus, pinout); }
        0x8502 => { pinout = zeropage_store_c2(cpu, bus, pinout); }
        0x8600 => { pinout = zeropage_store_c0(cpu, bus, pinout); }
        0x8601 => { pinout = zeropage_store_c1::<B, Stx>(cpu, bus, pinout); }
        0x8602 => { pinout = zeropage_store_c2(cpu, bus, pinout); }
        0x8700 => { pinout = zeropage_store_c0(cpu, bus, pinout); }
        0x8701 => { pinout = zeropage_store_c1::<B, Aax>(cpu, bus, pinout); }
        0x8702 => { pinout = zeropage_store_c2(cpu, bus, pinout); }
        0x8800 => { pinout = single_byte_c0(cpu, bus, pinout); }
        0x8801 => { pinout = single_byte_c1::<B, Dey>(cpu, bus, pinout); }
        0x8900 => { pinout = immediate_read_c0(cpu, bus, pinout); }
        0x8901 => { pinout = immediate_read_c1::<B, Nop>(cpu, bus, pinout); }
        0x8A00 => { pinout = single_byte_c0(cpu, bus, pinout); }
        0x8A01 => { pinout = single_byte_c1::<B, Txa>(cpu, bus, pinout); }
        0x8B00 => { pinout = immediate_read_c0(cpu, bus, pinout); }
        0x8B01 => { pinout = immediate_read_c1::<B, Xaa>(cpu, bus, pinout); }
        0x8C00 => { pinout = absolute_store_c0(cpu, bus, pinout); }
        0x8C01 => { pinout = absolute_store_c1(cpu, bus, pinout); }
        0x8C02 => { pinout = absolute_store_c2::<B, Sty>(cpu, bus, pinout); }
        0x8C03 => { pinout = absolute_store_c3(cpu, bus, pinout); }
        0x8D00 => { pinout = absolute_store_c0(cpu, bus, pinout); }
        0x8D01 => { pinout = absolute_store_c1(cpu, bus, pinout); }
        0x8D02 => { pinout = absolute_store_c2::<B, Sta>(cpu, bus, pinout); }
        0x8D03 => { pinout = absolute_store_c3(cpu, bus, pinout); }
        0x8E00 => { pinout = absolute_store_c0(cpu, bus, pinout); }
        0x8E01 => { pinout = absolute_store_c1(cpu, bus, pinout); }
        0x8E02 => { pinout = absolute_store_c2::<B, Stx>(cpu, bus, pinout); }
        0x8E03 => { pinout = absolute_store_c3(cpu, bus, pinout); }
        0x8F00 => { pinout = absolute_store_c0(cpu, bus, pinout); }
        0x8F01 => { pinout = absolute_store_c1(cpu, bus, pinout); }
        0x8F02 => { pinout = absolute_store_c2::<B, Aax>(cpu, bus, pinout); }
        0x8F03 => { pinout = absolute_store_c3(cpu, bus, pinout); }
        _ => {}
    }
    pinout
}

/// The cpu state after the cycle `code` (opcode 0x90 to 0x9F, timing
/// state) runs, `r` being the pinout the cycle returns; a code without a
/// cycle leaves the state alone.
#[verifier::opaque]
pub open spec fn spec_cycle_9(cpu: Context, pinout: Pinout, r: Pinout, code: u16) -> Context {
    match code {
        0x9000 => super::operations::spec_branch_c0(cpu, pinout, r),
        0x9001 => super::operations::spec_branch_c1::<Bcc>(cpu, pinout, r),
        0x9002 => super::operations::spec_branch_c2(cpu, pinout, r),
        0x9003 => super::operations::spec_branch_c3(cpu, pinout, r),
        0x9100 => super::operations::spec_indirect_y_store_c0(cpu, pinout, r),
        0x9101 => super::operations::spec_indirect_y_store_c1(cpu, pinout, r),
        0x9102 => super::operations::spec_indirect_y_store_c2(cpu, pinout, r),
        0x9103 => super::operations::spec_indirect_y_store_c3(cpu, pinout, r),
        0x9104 => super::operations::spec_indirect_y_store_c4::<Sta>(cpu, pinout, r),
        0x9105 => super::operations::spec_indirect_y_store_c5(cpu, pinout, r),
        0x9200 => super::operations::spec_single_byte_c0(cpu, pinout, r),
        0x9201 => super::operations::spec_single_byte_c1::<Kil>(cpu, pinout, r),
        0x9300 => super::operations::spec_indirect_y_store_c0(cpu, pinout, r),
        0x9301 => super::operations::spec_indirect_y_store_c1(cpu, pinout, r),
        0x9302 => super::operations::spec_indirect_y_store_c2(cpu, pinout, r),
        0x9303 => super::operations::spec_indirect_y_store_c3(cpu, pinout, r),
        0x9304 => super::operations::spec_indirect_y_store_c4::<Axa>(cpu, pinout, r),
        0x9305 => super::operations::spec_indirect_y_store_c5(cpu, pinout, r),
        0x9400 => super::operations::spec_zeropage_x_store_c0(cpu, pinout, r),
        0x9401 => super::operations::spec_zeropage_x_store_c1(cpu, pinout, r),
        0x9402 => super::operations::spec_zeropage_x_store_c2::<Sty>(cpu, pinout, r),
        0x9403 => super::operations::spec_zeropage_x_store_c3(cpu, pinout, r),
        0x9500 => super::operations::spec_zeropage_x_store_c0(cpu, pinout, r),
        0x9501 => super::operations::spec_zeropage_x_store_c1(cpu, pinout, r),
        0x9502 => super::operations::spec_zeropage_x_store_c2::<Sta>(cpu, pinout, r),
        0x9503 => super::operations::spec_zeropage_x_store_c3(cpu, pinout, r),
        0x9600 => super::operations::spec_zeropage_y_store_c0(cpu, pinout, r),
        0x9601 => super::operations::spec_zeropage_y_store_c1(cpu, pinout, r),
        0x9602 => super::operations::spec_zeropage_y_store_c2::<Stx>(cpu, pinout, r),
        0x9603 => super::operations::spec_zeropage_y_store_c3(cpu, pinout, r),
        0x9700 => super::operations::spec_zeropage_y_store_c0(cpu, pinout, r),
        0x9701 => super::operations::spec_zeropage_y_store_c1(cpu, pinout, r),
        0x9702 => super::operations::spec_zeropage_y_store_c2::<Aax>(cpu, pinout, r),
        0x9703 => super::operations::spec_zeropage_y_store_c3(cpu, pinout, r),
        0x9800 => super::operations::spec_single_byte_c0(cpu, pinout, r),
        0x9801 => super::operations::spec_single_byte_c1::<Tya>(cpu, pinout, r),
        0x9900 => super::operations::spec_absolute_y_store_c0(cpu, pinout, r),
        0x9901 => super::operations::spec_absolute_y_store_c1(cpu, pinout, r),
        0x9902 => super::operations::spec_absolute_y_store_c2(cpu, pinout, r),
        0x9903 => super::operations::spec_absolute_y_store_c3::<Sta>(cpu, pinout, r),
        0x9904 => super::operations::spec_absolute_y_store_c4(cpu, pinout, r),
        0x9A00 => super::operations::spec_single_byte_c0(cpu, pinout, r),
        0x9A01 => super::operations::spec_single_byte_c1::<Txs>(cpu, pinout, r),
        0x9B00 => super::operations::spec_absolute_y_store_c0(cpu, pinout, r),
        0x9B01 => super::operations::spec_absolute_y_store_c1(cpu, pinout, r),
        0x9B02 => super::operations::spec_absolute_y_store_c2(cpu, pinout, r),
        0x9B03 => super::operations::spec_absolute_y_store_c3::<Xas>(cpu, pinout, r),
        0x9B04 => super::operations::spec_absolute_y_store_c4(cpu, pinout, r),
        0x9C00 => super::operations::spec_absolute_x_store_c0(cpu, pinout, r),
        0x9C01 => super::operations::spec_absolute_x_store_c1(cpu, pinout, r),
        0x9C02 => super::operations::spec_absolute_x_store_c2(cpu, pinout, r),
        0x9C03 => super::operations::spec_absolute_x_store_c3::<Sya>(cpu, pinout, r),
        0x9C04 => super::operations::spec_absolute_x_store_c4(cpu, pinout, r),
        0x9D00 => super::operations::spec_absolute_x_store_c0(cpu, pinout, r),
        0x9D01 => super::operations::spec_absolute_x_store_c1(cpu, pinout, r),
        0x9D02 => super::operations::spec_absolute_x_store_c2(cpu, pinout, r),
        0x9D03 => super::operations::spec_absolute_x_store_c3::<Sta>(cpu, pinout, r),
        0x9D04 => super::operations::spec_absolute_x_store_c4(cpu, pinout, r),
        0x9E00 => super::operations::spec_absolute_y_store_c0(cpu, pinout, r),
        0x9E01 => super::operations::spec_absolute_y_store_c1(cpu, pinout, r),
        0x9E02 => super::operations::spec_absolute_y_store_c2(cpu, pinout, r),
        0x9E03 => super::operations::spec_absolute_y_store_c3::<Sxa>(cpu, pinout, r),
        0x9E04 => super::operations::spec_absolute_y_store_c4(cpu, pinout, r),
        0x9F00 => super::operations::spec_absolute_y_store_c0(cpu, pinout, r),
        0x9F01 => super::operations::spec_absolute_y_store_c1(cpu, pinout, r),
        0x9F02 => super::operations::spec_absolute_y_store_c2(cpu, pinout, r),
        0x9F03 => super::operations::spec_absolute_y_store_c3::<Axa>(cpu, pinout, r),
        0x9F04 => super::operations::spec_absolute_y_store_c4(cpu, pinout, r),
        _ => cpu,
    }
}

/// The requests the cycle `code` (opcodes 0x90 to 0x9F) puts on the bus, oldest first.
#[verifier::opaque]
pub open spec fn spec_cycle_requests_9(cpu: Context, pinout: Pinout, code: u16) -> Seq<Pinout> {
    match code {
        0x9000 => super::operations::spec_branch_c0_requests(cpu, pinout),
        0x9001 => super::operations::spec_branch_c1_requests::<Bcc>(cpu, pinout),
        0x9002 => super::operations::spec_branch_c2_requests(cpu, pinout),
        0x9003 => super::operations::spec_branch_c3_requests(cpu, pinout),
        0x9100 => super::operations::spec_indirect_y_store_c0_requests(cpu, pinout),
        0x9101 => super::operations::spec_indirect_y_store_c1_requests(cpu, pinout),
        0x9102 => super::operations::spec_indirect_y_store_c2_requests(cpu, pinout),
        0x9103 => super::operations::spec_indirect_y_store_c3_requests(cpu, pinout),
        0x9104 => super::operations::spec_indirect_y_store_c4_requests::<Sta>(cpu, pinout),
        0x9105 => super::operations::spec_indirect_y_store_c5_requests(cpu, pinout),
        0x9200 => super::operations::spec_single_byte_c0_requests(cpu, pinout),
        0x9201 => super::operations::spec_single_byte_c1_requests::<Kil>(cpu, pinout),
        0x9300 => super::operations::spec_indirect_y_store_c0_requests(cpu, pinout),
        0x9301 => super::operations::spec_indirect_y_store_c1_requests(cpu, pinout),
        0x9302 => super::operations::spec_indirect_y_store_c2_requests(cpu, pinout),
        0x9303 => super::operations::spec_indirect_y_store_c3_requests(cpu, pinout),
        0x9304 => super::operations::spec_indirect_y_store_c4_requests::<Axa>(cpu, pinout),
        0x9305 => super::operations::spec_indirect_y_store_c5_requests(cpu, pinout),
        0x9400 => super::operations::spec_zeropage_x_store_c0_requests(cpu, pinout),
        0x9401 => super::operations::spec_zeropage_x_store_c1_requests(cpu, pinout),
        0x9402 => super::operations::spec_zeropage_x_store_c2_requests::<Sty>(cpu, pinout),
        0x9403 => super::operations::spec_zeropage_x_store_c3_requests(cpu, pinout),
        0x9500 => super::operations::spec_zeropage_x_store_c0_requests(cpu, pinout),
        0x9501 => super::operations::spec_zeropage_x_store_c1_requests(cpu, pinout),
        0x9502 => super::operations::spec_zeropage_x_store_c2_requests::<Sta>(cpu, pinout),
        0x9503 => super::operations::spec_zeropage_x_store_c3_requests(cpu, pinout),
        0x9600 => super::operations::spec_zeropage_y_store_c0_requests(cpu, pinout),
        0x9601 => super::operations::spec_zeropage_y_store_c1_requests(cpu, pinout),
        0x9602 => super::operations::spec_zeropage_y_store_c2_requests::<Stx>(cpu, pinout),
        0x9603 => super::operations::spec_zeropage_y_store_c3_requests(cpu, pinout),
        0x9700 => super::operations::spec_zeropage_y_store_c0_requests(cpu, pinout),
        0x9701 => super::operations::spec_zeropage_y_store_c1_requests(cpu, pinout),
        0x9702 => super::operations::spec_zeropage_y_store_c2_requests::<Aax>(cpu, pinout),
        0x9703 => super::operations::spec_zeropage_y_store_c3_requests(cpu, pinout),
        0x9800 => super::operations::spec_single_byte_c0_requests(cpu, pinout),
        0x9801 => super::operations::spec_single_byte_c1_requests::<Tya>(cpu, pinout),
        0x9900 => super::operations::spec_absolute_y_store_c0_requests(cpu, pinout),
        0x9901 => super::operations::spec_absolute_y_store_c1_requests(cpu, pinout),
        0x9902 => super::operations::spec_absolute_y_store_c2_requests(cpu, pinout),
        0x9903 => super::operations::spec_absolute_y_store_c3_requests::<Sta>(cpu, pinout),
        0x9904 => super::operations::spec_absolute_y_store_c4_requests(cpu, pinout),
        0x9A00 => super::operations::spec_single_byte_c0_requests(cpu, pinout),
        0x9A01 => super::operations::spec_single_byte_c1_requests::<Txs>(cpu, pinout),
        0x9B00 => super::operations::spec_absolute_y_store_c0_requests(cpu, pinout),
        0x9B01 => super::operations::spec_absolute_y_store_c1_requests(cpu, pinout),
        0x9B02 => super::operations::spec_absolute_y_store_c2_requests(cpu, pinout),
        0x9B03 => super::operations::spec_absolute_y_store_c3_requests::<Xas>(cpu, pinout),
        0x9B04 => super::operations::spec_absolute_y_store_c4_requests(cpu, pinout),
        0x9C00 => super::operations::spec_absolute_x_store_c0_requests(cpu, pinout),
        0x9C01 => super::operations::spec_absolute_x_store_c1_requests(cpu, pinout),
        0x9C02 => super::operations::spec_absolute_x_store_c2_requests(cpu, pinout),
        0x9C03 => super::operations::spec_absolute_x_store_c3_requests::<Sya>(cpu, pinout),
        0x9C04 => super::operations::spec_absolute_x_store_c4_requests(cpu, pinout),
        0x9D00 => super::operations::spec_absolute_x_store_c0_requests(cpu, pinout),
        0x9D01 => super::operations::spec_absolute_x_store_c1_requests(cpu, pinout),
        0x9D02 => super::operations::spec_absolute_x_store_c2_requests(cpu, pinout),
        0x9D03 => super::operations::spec_absolute_x_store_c3_requests::<Sta>(cpu, pinout),
        0x9D04 => super::operations::spec_absolute_x_store_c4_requests(cpu, pinout),
        0x9E00 => super::operations::spec_absolute_y_store_c0_requests(cpu, pinout),
        0x9E01 => super::operations::spec_absolute_y_store_c1_requests(cpu, pinout),
        0x9E02 => super::operations::spec_absolute_y_store_c2_requests(cpu, pinout),
        0x9E03 => super::operations::spec_absolute_y_store_c3_requests::<Sxa>(cpu, pinout),
        0x9E04 => super::operations::spec_absolute_y_store_c4_requests(cpu, pinout),
        0x9F00 => super::operations::spec_absolute_y_store_c0_requests(cpu, pinout),
        0x9F01 => super::operations::spec_absolute_y_store_c1_requests(cpu, pinout),
        0x9F02 => super::operations::spec_absolute_y_store_c2_requests(cpu, pinout),
        0x9F03 => super::operations::spec_absolute_y_store_c3_requests::<Axa>(cpu, pinout),
        0x9F04 => super::operations::spec_absolute_y_store_c4_requests(cpu, pinout),
        _ => Seq::empty(),
    }
}

/// The cycles of the opcodes 0x90 to 0x9F.
#[verifier::spinoff_prover]
#[verifier::rlimit(80)]
fn run_cycle_9<B: Bus>(cpu: &mut Context, bus: &mut B, pinout: Pinout, code: u16) -> (r: Pinout)
    requires
        old(bus).ready(),
        code as int == old(cpu).ir.opcode as int * 256 + old(cpu).ir.tm as int,
        spec_valid_ir(old(cpu).ir),
    ensures
        final(bus).ready(),
        final(bus).spec_clock() == old(bus).spec_clock(),
        final(cpu).cycle == old(cpu).cycle,
        final(bus).spec_requests() == old(bus).spec_requests() + spec_cycle_requests_9(*old(cpu), pinout, code),
        *final(cpu) == spec_cycle_9(*old(cpu), pinout, r, code),
        spec_valid_ir(final(cpu).ir),
{
    proof {
        reveal(spec_cycle_requests_9);
        reveal(spec_cycle_9);
    }
    let mut pinout = pinout;
    match code {
        0x9000 => { pinout = branch_c0(cpu, bus, pinout); }
        0x9001 => { pinout = branch_c1::<B, Bcc>(cpu, bus, pinout); }
        0x9002 => { pinout = branch_c2(cpu, bus, pinout); }
        0x9003 => { pinout = branch_c3(cpu, bus, pinout); }
        0x9100 => { pinout = indirect_y_store_c0(cpu, bus, pinout); }
        0x9101 => { pinout = indirect_y_store_c1(cpu, bus, pinout); }
        0x9102 => { pinout = indirect_y_store_c2(cpu, bus, pinout); }
        0x9103 => { pinout = indirect_y_store_c3(cpu, bus, pinout); }
        0x9104 => { pinout = indirect_y_store_c4::<B, Sta>(cpu, bus, pinout); }
        0x9105 => { pinout = indirect_y_store_c5(cpu, bus, pinout); }
        0x9200 => { pinout = single_byte_c0(cpu, bus, pinout); }
        0x9201 => { pinout = single_byte_c1::<B, Kil>(cpu, bus, pinout); }
        0x9300 => { pinout = indirect_y_store_c0(cpu, bus, pinout); }
        0x9301 => { pinout = indirect_y_store_c1(cpu, bus, pinout); }
        0x9302 => { pinout = indirect_y_store_c2(cpu, bus, pinout); }
        0x9303 => { pinout = indirect_y_store_c3(cpu, bus, pinout); }
        0x9304 => { pinout = indirect_y_store_c4::<B, Axa>(cpu, bus, pinout); }
        0x9305 => { pinout = indirect_y_store_c5(cpu, bus, pinout); }
        0x9400 => { pinout = zeropage_x_store_c0(cpu, bus, pinout); }
        0x9401 => { pinout = zeropage_x_store_c1(cpu, bus, pinout); }
        0x9402 => { pinout = zeropage_x_store_c2::<B, Sty>(cpu, bus, pinout); }
        0x9403 => { pinout = zeropage_x_store_c3(cpu, bus, pinout); }
        0x9500 => { pinout = zeropage_x_store_c0(cpu, bus, pinout); }
        0x9501 => { pinout = zeropage_x_store_c1(cpu, bus, pinout); }
        0x9502 => { pinout = zeropage_x_store_c2::<B, Sta>(cpu, bus, pinout); }
        0x9503 => { pinout = zeropage_x_store_c3(cpu, bus, pinout); }
        0x9600 => { pinout = zeropage_y_store_c0(cpu, bus, pinout); }
        0x9601 => { pinout = zeropage_y_store_c1(cpu, bus, pinout); }
        0x9602 => { pinout = zeropage_y_store_c2::<B, Stx>(cpu, bus, pinout); }
        0x9603 => { pinout = zeropage_y_store_c3(cpu, bus, pinout); }
        0x9700 => { pinout = zeropage_y_store_c0(cpu, bus, pinout); }
        0x9701 => { pinout = zeropage_y_store_c1(cpu, bus, pinout); }
        0x9702 => { pinout = zeropage_y_store_c2::<B, Aax>(cpu, bus, pinout); }
        0x9703 => { pinout = zeropage_y_store_c3(cpu, bus, pinout); }
        0x9800 => { pinout = single_byte_c0(cpu, bus, pinout); }
        0x9801 => { pinout = single_byte_c1::<B, Tya>(cpu, bus, pinout); }
        0x9900 => { pinout = absolute_y_store_c0(cpu, bus, pinout); }
        0x9901 => { pinout = absolute_y_store_c1(cpu, bus, pinout); }
        0x9902 => { pinout = absolute_y_store_c2(cpu, bus, pinout); }
        0x9903 => { pinout = absolute_y_store_c3::<B, Sta>(cpu, bus, pinout); }
        0x9904 => { pinout = absolute_y_store_c4(cpu, bus, pinout); }
        0x9A00 => { pinout = single_byte_c0(cpu, bus, pinout); }
        0x9A01 => { pinout = single_byte_c1::<B, Txs>(cpu, bus, pinout); }
        0x9B00 => { pinout = absolute_y_store_c0(cpu, bus, pinout); }
        0x9B01 => { pinout = absolute_y_store_c1(cpu, bus, pinout); }
        0x9B02 => { pinout = absolute_y_store_c2(cpu, bus, pinout); }
        0x9B03 => { pinout = absolute_y_store_c3::<B, Xas>(cpu, bus, pinout); }
        0x9B04 => { pinout = absolute_y_store_c4(cpu, bus, pinout); }
        0x9C00 => { pinout = absolute_x_store_c0(cpu, bus, pinout); }
        0x9C01 => { pinout = absolute_x_store_c1(cpu, bus, pinout); }
        0x9C02 => { pinout = absolute_x_store_c2(cpu, bus, pinout); }
        0x9C03 => { pinout = absolute_x_store_c3::<B, Sya>(cpu, bus, pinout); }
        0x9C04 => { pinout = absolute_x_store_c4(cpu, bus, pinout); }
        0x9D00 => { pinout = absolute_x_store_c0(cpu, bus, pinout); }
        0x9D01 => { pinout = absolute_x_store_c1(cpu, bus, pinout); }
        0x9D02 => { pinout = absolute_x_store_c2(cpu, bus, pinout); }
        0x9D03 => { pinout = absolute_x_store_c3::<B, Sta>(cpu, bus, pinout); }
        0x9D04 => { pinout = absolute_x_store_c4(cpu, bus, pinout); }
        0x9E00 => { pinout = absolute_y_store_c0(cpu, bus, pinout); }
        0x9E01 => { pinout = absolute_y_store_c1(cpu, bus, pinout); }
        0x9E02 => { pinout = absolute_y_store_c2(cpu, bus, pinout); }
        0x9E03 => { pinout = absolute_y_store_c3::<B, Sxa>(cpu, bus, pinout); }
        0x9E04 => { pinout = absolute_y_store_c4(cpu, bus, pinout); }
        0x9F00 => { pinout = absolute_y_store_c0(cpu, bus, pinout); }
        0x9F01 => { pinout = absolute_y_store_c1(cpu, bus, pinout); }
        0x9F02 => { pinout = absolute_y_store_c2(cpu, bus, pinout); }
        0x9F03 => { pinout = absolute_y_store_c3::<B, Axa>(cpu, bus, pinout); }
        0x9F04 => { pinout = absolute_y_store_c4(cpu, bus, pinout); }
        _ => {}
    }
    pinout
}

/// The cpu state after the cycle `code` (opcode 0xA0 to 0xAF, timing
/// state) runs, `r` being the pinout the cycle returns; a code without a
/// cycle leaves the state alone.
#[verifier::opaque]
pub open spec fn spec_cycle_a(cpu: Context, pinout: Pinout, r: Pinout, code: u16) -> Context {
    match code {
        0xA000 => super::operations::spec_immediate_read_c0(cpu, pinout, r),
        0xA001 => super::operations::spec_immediate_read_c1::<Ldy>(cpu, pinout, r),
        0xA100 => super::operations::spec_indirect_x_read_c0(cpu, pinout, r),
        0xA101 => super::operations::spec_indirect_x_read_c1(cpu, pinout, r),
        0xA102 => super::operations::spec_indirect_x_read_c2(cpu, pinout, r),
        0xA103 => super::operations::spec_indirect_x_read_c3(cpu, pinout, r),
        0xA104 => super::operations::spec_indirect_x_read_c4(cpu, pinout, r),
        0xA105 => super::operations::spec_indirect_x_read_c5::<Lda>(cpu, pinout, r),
        0xA200 => super::operations::spec_immediate_read_c0(cpu, pinout, r),
        0xA201 => super::operations::spec_immediate_read_c1::<Ldx>(cpu, pinout, r),
        0xA300 => super::operations::spec_indirect_x_read_c0(cpu, pinout, r),
        0xA301 => super::operations::spec_indirect_x_read_c1(cpu, pinout, r),
        0xA302 => super::operations::spec_indirect_x_read_c2(cpu, pinout, r),
        0xA303 => super::operations::spec_indirect_x_read_c3(cpu, pinout, r),
        0xA304 => super::operations::spec_indirect_x_read_c4(cpu, pinout, r),
        0xA305 => super::operations::spec_indirect_x_read_c5::<Lax>(cpu, pinout, r),
        0xA400 => super::operations::spec_zeropage_read_c0(cpu, pinout, r),
        0xA401 => super::operations::spec_zeropage_read_c1(cpu, pinout, r),
        0xA402 => super::operations::spec_zeropage_read_c2::<Ldy>(cpu, pinout, r),
        0xA500 => super::operations::spec_zeropage_read_c0(cpu, pinout, r),
        0xA501 => super::operations::spec_zeropage_read_c1(cpu, pinout, r),
        0xA502 => super::operations::spec_zeropage_read_c2::<Lda>(cpu, pinout, r),
        0xA600 => super::operations::spec_zeropage_read_c0(cpu, pinout, r),
        0xA601 => super::operations::spec_zeropage_read_c1(cpu, pinout, r),
        0xA602 => super::operations::spec_zeropage_read_c2::<Ldx>(cpu, pinout, r),
        0xA700 => super::operations::spec_zeropage_read_c0(cpu, pinout, r),
        0xA701 => super::operations::spec_zeropage_read_c1(cpu, pinout, r),
        0xA702 => super::operations::spec_zeropage_read_c2::<Lax>(cpu, pinout, r),
        0xA800 => super::operations::spec_single_byte_c0(cpu, pinout, r),
        0xA801 => super::operations::spec_single_byte_c1::<Tay>(cpu, pinout, r),
        0xA900 => super::operations::spec_immediate_read_c0(cpu, pinout, r),
        0xA901 => super::operations::spec_immediate_read_c1::<Lda>(cpu, pinout, r),
        0xAA00 => super::operations::spec_single_byte_c0(cpu, pinout, r),
        0xAA01 => super::operations::spec_single_byte_c1::<Tax>(cpu, pinout, r),
        0xAB00 => super::operations::spec_immediate_read_c0(cpu, pinout, r),
        0xAB01 => super::operations::spec_immediate_read_c1::<Atx>(cpu, pinout, r),
        0xAC00 => super::operations::spec_absolute_read_c0(cpu, pinout, r),
        0xAC01 => super::operations::spec_absolute_read_c1(cpu, pinout, r),
        0xAC02 => super::operations::spec_absolute_read_c2(cpu, pinout, r),
        0xAC03 => super::operations::spec_absolute_read_c3::<Ldy>(cpu, pinout, r),
        0xAD00 => super::operations::spec_absolute_read_c0(cpu, pinout, r),
        0xAD01 => super::operations::spec_absolute_read_c1(cpu, pinout, r),
        0xAD02 => super::operations::spec_absolute_read_c2(cpu, pinout, r),
        0xAD03 => super::operations::spec_absolute_read_c3::<Lda>(cpu, pinout, r),
        0xAE00 => super::operations::spec_absolute_read_c0(cpu, pinout, r),
        0xAE01 => super::operations::spec_absolute_read_c1(cpu, pinout, r),
        0xAE02 => super::operations::spec_absolute_read_c2(cpu, pinout, r),
        0xAE03 => super::operations::spec_absolute_read_c3::<Ldx>(cpu, pinout, r),
        0xAF00 => super::operations::spec_absolute_read_c0(cpu, pinout, r),
        0xAF01 => super::operations::spec_absolute_read_c1(cpu, pinout, r),
        0xAF02 => super::operations::spec_absolute_read_c2(cpu, pinout, r),
        0xAF03 => super::operations::spec_absolute_read_c3::<Lax>(cpu, pinout, r),
        _ => cpu,
    }
}

/// The requests the cycle `code` (opcodes 0xA0 to 0xAF) puts on the bus, oldest first.
#[verifier::opaque]
pub open spec fn spec_cycle_requests_a(cpu: Context, pinout: Pinout, code: u16) -> Seq<Pinout> {
    match code {
        0xA000 => super::operations::spec_immediate_read_c0_requests(cpu, pinout),
        0xA001 => super::operations::spec_immediate_read_c1_requests::<Ldy>(cpu, pinout),
        0xA100 => super::operations::spec_indirect_x_read_c0_requests(cpu, pinout),
        0xA101 => super::operations::spec_indirect_x_read_c1_requests(cpu, pinout),
        0xA102 => super::operations::spec_indirect_x_read_c2_requests(cpu, pinout),
        0xA103 => super::operations::spec_indirect_x_read_c3_requests(cpu, pinout),
        0xA104 => super::operations::spec_indirect_x_read_c4_requests(cpu, pinout),
        0xA105 => super::operations::spec_indirect_x_read_c5_requests::<Lda>(cpu, pinout),
        0xA200 => super::operations::spec_immediate_read_c0_requests(cpu, pinout),
        0xA201 => super::operations::spec_immediate_read_c1_requests::<Ldx>(cpu, pinout),
        0xA300 => super::operations::spec_indirect_x_read_c0_requests(cpu, pinout),
        0xA301 => super::operations::spec_indirect_x_read_c1_requests(cpu, pinout),
        0xA302 => super::operations::spec_indirect_x_read_c2_requests(cpu, pinout),
        0xA303 => super::operations::spec_indirect_x_read_c3_requests(cpu, pinout),
        0xA304 => super::operations::spec_indirect_x_read_c4_requests(cpu, pinout),
        0xA305 => super::operations::spec_indirect_x_read_c5_requests::<Lax>(cpu, pinout),
        0xA400 => super::operations::spec_zeropage_read_c0_requests(cpu, pinout),
        0xA401 => super::operations::spec_zeropage_read_c1_requests(cpu, pinout),
        0xA402 => super::operations::spec_zeropage_read_c2_requests::<Ldy>(cpu, pinout),
        0xA500 => super::operations::spec_zeropage_read_c0_requests(cpu, pinout),
        0xA501 => super::operations::spec_zeropage_read_c1_requests(cpu, pinout),
        0xA502 => super::operations::spec_zeropage_read_c2_requests::<Lda>(cpu, pinout),
        0xA600 => super::operations::spec_zeropage_read_c0_requests(cpu, pinout),
        0xA601 => super::operations::spec_zeropage_read_c1_requests(cpu, pinout),
        0xA602 => super::operations::spec_zeropage_read_c2_requests::<Ldx>(cpu, pinout),
        0xA700 => super::operations::spec_zeropage_read_c0_requests(cpu, pinout),
        0xA701 => super::operations::spec_zeropage_read_c1_requests(cpu, pinout),
        0xA702 => super::operations::spec_zeropage_read_c2_requests::<Lax>(cpu, pinout),
        0xA800 => super::operations::spec_single_byte_c0_requests(cpu, pinout),
        0xA801 => super::operations::spec_single_byte_c1_requests::<Tay>(cpu, pinout),
        0xA900 => super::operations::spec_immediate_read_c0_requests(cpu, pinout),
        0xA901 => super::operations::spec_immediate_read_c1_requests::<Lda>(cpu, pinout),
        0xAA00 => super::operations::spec_single_byte_c0_requests(cpu, pinout),
        0xAA01 => super::operations::spec_single_byte_c1_requests::<Tax>(cpu, pinout),
        0xAB00 => super::operations::spec_immediate_read_c0_requests(cpu, pinout),
        0xAB01 => super::operations::spec_immediate_read_c1_requests::<Atx>(cpu, pinout),
        0xAC00 => super::operations::spec_absolute_read_c0_requests(cpu, pinout),
        0xAC01 => super::operations::spec_absolute_read_c1_requests(cpu, pinout),
        0xAC02 => super::operations::spec_absolute_read_c2_requests(cpu, pinout),
        0xAC03 => super::operations::spec_absolute_read_c3_requests::<Ldy>(cpu, pinout),
        0xAD00 => super::operations::spec_absolute_read_c0_requests(cpu, pinout),
        0xAD01 => super::operations::spec_absolute_read_c1_requests(cpu, pinout),
        0xAD02 => super::operations::spec_absolute_read_c2_requests(cpu, pinout),
        0xAD03 => super::operations::spec_absolute_read_c3_requests::<Lda>(cpu, pinout),
        0xAE00 => super::operations::spec_absolute_read_c0_requests(cpu, pinout),
        0xAE01 => super::operations::spec_absolute_read_c1_requests(cpu, pinout),
        0xAE02 => super::operations::spec_absolute_read_c2_requests(cpu, pinout),
        0xAE03 => super::operations::spec_absolute_read_c3_requests::<Ldx>(cpu, pinout),
        0xAF00 => super::operations::spec_absolute_read_c0_requests(cpu, pinout),
        0xAF01 => super::operations::spec_absolute_read_c1_requests(cpu, pinout),
        0xAF02 => super::operations::spec_absolute_read_c2_requests(cpu, pinout),
        0xAF03 => super::operations::spec_absolute_read_c3_requests::<Lax>(cpu, pinout),
        _ => Seq::empty(),
    }
}

/// The cycles of the opcodes 0xA0 to 0xAF.
#[verifier::spinoff_prover]
#[verifier::rlimit(80)]
fn run_cycle_a<B: Bus>(cpu: &mut Context, bus: &mut B, pinout: Pinout, code: u16) -> (r: Pinout)
    requires
        old(bus).ready(),
        code as int == old(cpu).ir.opcode as int * 256 + old(cpu).ir.tm as int,
        spec_valid_ir(old(cpu).ir),
    ensures
        final(bus).ready(),
        final(bus).spec_clock() == old(bus).spec_clock(),
        final(cpu).cycle == old(cpu).cycle,
        final(bus).spec_requests() == old(bus).spec_requests() + spec_cycle_requests_a(*old(cpu), pinout, code),
        *final(cpu) == spec_cycle_a(*old(cpu), pinout, r, code),
        spec_valid_ir(final(cpu).ir),
{
    proof {
        reveal(spec_cycle_requests_a);
        reveal(spec_cycle_a);
    }
    let mut pinout = pinout;
    match code {
        0xA000 => { pinout = immediate_read_c0(cpu, bus, pinout); }
        0xA001 => { pinout = immediate_read_c1::<B, Ldy>(cpu, bus, pinout); }
        0xA100 => { pinout = indirect_x_read_c0(cpu, bus, pinout); }
        0xA101 => { pinout = indirect_x_read_c1(cpu, bus, pinout); }
        0xA102 => { pinout = indirect_x_read_c2(cpu, bus, pinout); }
        0xA103 => { pinout = indirect_x_read_c3(cpu, bus, pinout); }
        0xA104 => { pinout = indirect_x_read_c4(cpu, bus, pinout); }
        0xA105 => { pinout = indirect_x_read_c5::<B, Lda>(cpu, bus, pinout); }
        0xA200 => { pinout = immediate_read_c0(cpu, bus, pinout); }
        0xA201 => { pinout = immediate_read_c1::<B, Ldx>(cpu, bus, pinout); }
        0xA300 => { pinout = indirect_x_read_c0(cpu, bus, pinout); }
        0xA301 => { pinout = indirect_x_read_c1(cpu, bus, pinout); }
        0xA302 => { pinout = indirect_x_read_c2(cpu, bus, pinout); }
        0xA303 => { pinout = indirect_x_read_c3(cpu, bus, pinout); }
        0xA304 => { pinout = indirect_x_read_c4(cpu, bus, pinout); }
        0xA305 => { pinout = indirect_x_read_c5::<B, Lax>(cpu, bus, pinout); }
        0xA400 => { pinout = zeropage_read_c0(cpu, bus, pinout); }
        0xA401 => { pinout = zeropage_read_c1(cpu, bus, pinout); }
        0xA402 => { pinout = zeropage_read_c2::<B, Ldy>(cpu, bus, pinout); }
        0xA500 => { pinout = zeropage_read_c0(cpu, bus, pinout); }
        0xA501 => { pinout = zeropage_read_c1(cpu, bus, pinout); }
        0xA502 => { pinout = zeropage_read_c2::<B, Lda>(cpu, bus, pinout); }
        0xA600 => { pinout = zeropage_read_c0(cpu, bus, pinout); }
        0xA601 => { pinout = zeropage_read_c1(cpu, bus, pinout); }
        0xA602 => { pinout = zeropage_read_c2::<B, Ldx>(cpu, bus, pinout); }
        0xA700 => { pinout = zeropage_read_c0(cpu, bus, pinout); }
        0xA701 => { pinout = zeropage_read_c1(cpu, bus, pinout); }
        0xA702 => { pinout = zeropage_read_c2::<B, Lax>(cpu, bus, pinout); }
        0xA800 => { pinout = single_byte_c0(cpu, bus, pinout); }
        0xA801 => { pinout = single_byte_c1::<B, Tay>(cpu, bus, pinout); }
        0xA900 => { pinout = immediate_read_c0(cpu, bus, pinout); }
        0xA901 => { pinout = immediate_read_c1::<B, Lda>(cpu, bus, pinout); }
        0xAA00 => { pinout = single_byte_c0(cpu, bus, pinout); }
        0xAA01 => { pinout = single_byte_c1::<B, Tax>(cpu, bus, pinout); }
        0xAB00 => { pinout = immediate_read_c0(cpu, bus, pinout); }
        0xAB01 => { pinout = immediate_read_c1::<B, Atx>(cpu, bus, pinout); }
        0xAC00 => { pinout = absolute_read_c0(cpu, bus, pinout); }
        0xAC01 => { pinout = absolute_read_c1(cpu, bus, pinout); }
        0xAC02 => { pinout = absolute_read_c2(cpu, bus, pinout); }
        0xAC03 => { pinout = absolute_read_c3::<B, Ldy>(cpu, bus, pinout); }
        0xAD00 => { pinout = absolute_read_c0(cpu, bus, pinout); }
        0xAD01 => { pinout = absolute_read_c1(cpu, bus, pinout); }
        0xAD02 => { pinout = absolute_read_c2(cpu, bus, pinout); }
        0xAD03 => { pinout = absolute_read_c3::<B, Lda>(cpu, bus, pinout); }
        0xAE00 => { pinout = absolute_read_c0(cpu, bus, pinout); }
        0xAE01 => { pinout = absolute_read_c1(cpu, bus, pinout); }
        0xAE02 => { pinout = absolute_read_c2(cpu, bus, pinout); }
        0xAE03 => { pinout = absolute_read_c3::<B, Ldx>(cpu, bus, pinout); }
        0xAF00 => { pinout = absolute_read_c0(cpu, bus, pinout); }
        0xAF01 => { pinout = absolute_read_c1(cpu, bus, pinout); }
        0xAF02 => { pinout = absolute_read_c2(cpu, bus, pinout); }
        0xAF03 => { pinout = absolute_read_c3::<B, Lax>(cpu, bus, pinout); }
        _ => {}
    }
    pinout
}

/// The cpu state after the cycle `code` (opcode 0xB0 to 0xBF, timing
/// state) runs, `r` being the pinout the cycle returns; a code without a
/// cycle leaves the state alone.
#[verifier::opaque]
pub open spec fn spec_cycle_b(cpu: Context, pinout: Pinout, r: Pinout, code: u16) -> Context {
    match code {
        0xB000 => super::operations::spec_branch_c0(cpu, pinout, r),
        0xB001 => super::operations::spec_branch_c1::<Bcs>(cpu, pinout, r),
        0xB002 => super::operations::spec_branch_c2(cpu, pinout, r),
        0xB003 => super::operations::spec_branch_c3(cpu, pinout, r),
        0xB100 => super::operations::spec_indirect_y_read_c0(cpu, pinout, r),
        0xB101 => super::operations::spec_indirect_y_read_c1(cpu, pinout, r),
        0xB102 => super::operations::spec_indirect_y_read_c2(cpu, pinout, r),
        0xB103 => super::operations::spec_indirect_y_read_c3(cpu, pinout, r),
        0xB104 => super::operations::spec_indirect_y_read_c4(cpu, pinout, r),
        0xB105 => super::operations::spec_indirect_y_read_c5::<Lda>(cpu, pinout, r),
        0xB200 => super::operations::spec_single_byte_c0(cpu, pinout, r),
        0xB201 => super::operations::spec_single_byte_c1::<Kil>(cpu, pinout, r),
        0xB300 => super::operations::spec_indirect_y_read_c0(cpu, pinout, r),
        0xB301 => super::operations::spec_indirect_y_read_c1(cpu, pinout, r),
        0xB302 => super::operations::spec_indirect_y_read_c2(cpu, pinout, r),
        0xB303 => super::operations::spec_indirect_y_read_c3(cpu, pinout, r),
        0xB304 => super::operations::spec_indirect_y_read_c4(cpu, pinout, r),
        0xB305 => super::operations::spec_indirect_y_read_c5::<Lax>(cpu, pinout, r),
        0xB400 => super::operations::spec_zeropage_x_read_c0(cpu, pinout, r),
        0xB401 => super::operations::spec_zeropage_x_read_c1(cpu, pinout, r),
        0xB402 => super::operations::spec_zeropage_x_read_c2(cpu, pinout, r),
        0xB403 => super::operations::spec_zeropage_x_read_c3::<Ldy>(cpu, pinout, r),
        0xB500 => super::operations::spec_zeropage_x_read_c0(cpu, pinout, r),
        0xB501 => super::operations::spec_zeropage_x_read_c1(cpu, pinout, r),
        0xB502 => super::operations::spec_zeropage_x_read_c2(cpu, pinout, r),
        0xB503 => super::operations::spec_zeropage_x_read_c3::<Lda>(cpu, pinout, r),
        0xB600 => super::operations::spec_zeropage_y_read_c0(cpu, pinout, r),
        0xB601 => super::operations::spec_zeropage_y_read_c1(cpu, pinout, r),
        0xB602 => super::operations::spec_zeropage_y_read_c2(cpu, pinout, r),
        0xB603 => super::operations::spec_zeropage_y_read_c3::<Ldx>(cpu, pinout, r),
        0xB700 => super::operations::spec_zeropage_y_read_c0(cpu, pinout, r),
        0xB701 => super::operations::spec_zeropage_y_read_c1(cpu, pinout, r),
        0xB702 => super::operations::spec_zeropage_y_read_c2(cpu, pinout, r),
        0xB703 => super::operations::spec_zeropage_y_read_c3::<Lax>(cpu, pinout, r),
        0xB800 => super::operations::spec_single_byte_c0(cpu, pinout, r),
        0xB801 => super::operations::spec_single_byte_c1::<Clv>(cpu, pinout, r),
        0xB900 => super::operations::spec_absolute_y_read_c0(cpu, pinout, r),
        0xB901 => super::operations::spec_absolute_y_read_c1(cpu, pinout, r),
        0xB902 => super::operations::spec_absolute_y_read_c2(cpu, pinout, r),
        0xB903 => super::operations::spec_absolute_y_read_c3(cpu, pinout, r),
        0xB904 => super::operations::spec_absolute_y_read_c4::<Lda>(cpu, pinout, r),
        0xBA00 => super::operations::spec_single_byte_c0(cpu, pinout, r),
        0xBA01 => super::operations::spec_single_byte_c1::<Tsx>(cpu, pinout, r),
        0xBB00 => super::operations::spec_absolute_y_read_c0(cpu, pinout, r),
        0xBB01 => super::operations::spec_absolute_y_read_c1(cpu, pinout, r),
        0xBB02 => super::operations::spec_absolute_y_read_c2(cpu, pinout, r),
        0xBB03 => super::operations::spec_absolute_y_read_c3(cpu, pinout, r),
        0xBB04 => super::operations::spec_absolute_y_read_c4::<Lar>(cpu, pinout, r),
        0xBC00 => super::operations::spec_absolute_x_read_c0(cpu, pinout, r),
        0xBC01 => super::operations::spec_absolute_x_read_c1(cpu, pinout, r),
        0xBC02 => super::operations::spec_absolute_x_read_c2(cpu, pinout, r),
        0xBC03 => super::operations::spec_absolute_x_read_c3(cpu, pinout, r),
        0xBC04 => super::operations::spec_absolute_x_read_c4::<Ldy>(cpu, pinout, r),
        0xBD00 => super::operations::spec_absolute_x_read_c0(cpu, pinout, r),
        0xBD01 => super::operations::spec_absolute_x_read_c1(cpu, pinout, r),
        0xBD02 => super::operations::spec_absolute_x_read_c2(cpu, pinout, r),
        0xBD03 => super::operations::spec_absolute_x_read_c3(cpu, pinout, r),
        0xBD04 => super::operations::spec_absolute_x_read_c4::<Lda>(cpu, pinout, r),
        0xBE00 => super::operations::spec_absolute_y_read_c0(cpu, pinout, r),
        0xBE01 => super::operations::spec_absolute_y_read_c1(cpu, pinout, r),
        0xBE02 => super::operations::spec_absolute_y_read_c2(cpu, pinout, r),
        0xBE03 => super::operations::spec_absolute_y_read_c3(cpu, pinout, r),
        0xBE04 => super::operations::spec_absolute_y_read_c4::<Ldx>(cpu, pinout, r),
        0xBF00 => super::operations::spec_absolute_y_read_c0(cpu, pinout, r),
        0xBF01 => super::operations::spec_absolute_y_read_c1(cpu, pinout, r),
        0xBF02 => super::operations::spec_absolute_y_read_c2(cpu, pinout, r),
        0xBF03 => super::operations::spec_absolute_y_read_c3(cpu, pinout, r),
        0xBF04 => super::operations::spec_absolute_y_read_c4::<Lax>(cpu, pinout, r),
        _ => cpu,
    }
}

/// The requests the cycle `code` (opcodes 0xB0 to 0xBF) puts on the bus, oldest first.
#[verifier::opaque]
pub open spec fn spec_cycle_requests_b(cpu: Context, pinout: Pinout, code: u16) -> Seq<Pinout> {
    match code {
        0xB000 => super::operations::spec_branch_c0_requests(cpu, pinout),
        0xB001 => super::operations::spec_branch_c1_requests::<Bcs>(cpu, pinout),
        0xB002 => super::operations::spec_branch_c2_requests(cpu, pinout),
        0xB003 => super::operations::spec_branch_c3_requests(cpu, pinout),
        0xB100 => super::operations::spec_indirect_y_read_c0_requests(cpu, pinout),
        0xB101 => super::operations::spec_indirect_y_read_c1_requests(cpu, pinout),
        0xB102 => super::operations::spec_indirect_y_read_c2_requests(cpu, pinout),
        0xB103 => super::operations::spec_indirect_y_read_c3_requests(cpu, pinout),
        0xB104 => super::operations::spec_indirect_y_read_c4_requests(cpu, pinout),
        0xB105 => super::operations::spec_indirect_y_read_c5_requests::<Lda>(cpu, pinout),
        0xB200 => super::operations::spec_single_byte_c0_requests(cpu, pinout),
        0xB201 => super::operations::spec_single_byte_c1_requests::<Kil>(cpu, pinout),
        0xB300 => super::operations::spec_indirect_y_read_c0_requests(cpu, pinout),
        0xB301 => super::operations::spec_indirect_y_read_c1_requests(cpu, pinout),
        0xB302 => super::operations::spec_indirect_y_read_c2_requests(cpu, pinout),
        0xB303 => super::operations::spec_indirect_y_read_c3_requests(cpu, pinout),
        0xB304 => super::operations::spec_indirect_y_read_c4_requests(cpu, pinout),
        0xB305 => super::operations::spec_indirect_y_read_c5_requests::<Lax>(cpu, pinout),
        0xB400 => super::operations::spec_zeropage_x_read_c0_requests(cpu, pinout),
        0xB401 => super::operations::spec_zeropage_x_read_c1_requests(cpu, pinout),
        0xB402 => super::operations::spec_zeropage_x_read_c2_requests(cpu, pinout),
        0xB403 => super::operations::spec_zeropage_x_read_c3_requests::<Ldy>(cpu, pinout),
        0xB500 => super::operations::spec_zeropage_x_read_c0_requests(cpu, pinout),
        0xB501 => super::operations::spec_zeropage_x_read_c1_requests(cpu, pinout),
        0xB502 => super::operations::spec_zeropage_x_read_c2_requests(cpu, pinout),
        0xB503 => super::operations::spec_zeropage_x_read_c3_requests::<Lda>(cpu, pinout),
        0xB600 => super::operations::spec_zeropage_y_read_c0_requests(cpu, pinout),
        0xB601 => super::operations::spec_zeropage_y_read_c1_requests(cpu, pinout),
        0xB602 => super::operations::spec_zeropage_y_read_c2_requests(cpu, pinout),
        0xB603 => super::operations::spec_zeropage_y_read_c3_requests::<Ldx>(cpu, pinout),
        0xB700 => super::operations::spec_zeropage_y_read_c0_requests(cpu, pinout),
        0xB701 => super::operations::spec_zeropage_y_read_c1_requests(cpu, pinout),
        0xB702 => super::operations::spec_zeropage_y_read_c2_requests(cpu, pinout),
        0xB703 => super::operations::spec_zeropage_y_read_c3_requests::<Lax>(cpu, pinout),
        0xB800 => super::operations::spec_single_byte_c0_requests(cpu, pinout),
        0xB801 => super::operations::spec_single_byte_c1_requests::<Clv>(cpu, pinout),
        0xB900 => super::operations::spec_absolute_y_read_c0_requests(cpu, pinout),
        0xB901 => super::operations::spec_absolute_y_read_c1_requests(cpu, pinout),
        0xB902 => super::operations::spec_absolute_y_read_c2_requests(cpu, pinout),
        0xB903 => super::operations::spec_absolute_y_read_c3_requests(cpu, pinout),
        0xB904 => super::operations::spec_absolute_y_read_c4_requests::<Lda>(cpu, pinout),
        0xBA00 => super::operations::spec_single_byte_c0_requests(cpu, pinout),
        0xBA01 => super::operations::spec_single_byte_c1_requests::<Tsx>(cpu, pinout),
        0xBB00 => super::operations::spec_absolute_y_read_c0_requests(cpu, pinout),
        0xBB01 => super::operations::spec_absolute_y_read_c1_requests(cpu, pinout),
        0xBB02 => super::operations::spec_absolute_y_read_c2_requests(cpu, pinout),
        0xBB03 => super::operations::spec_absolute_y_read_c3_requests(cpu, pinout),
        0xBB04 => super::operations::spec_absolute_y_read_c4_requests::<Lar>(cpu, pinout),
        0xBC00 => super::operations::spec_absolute_x_read_c0_requests(cpu, pinout),
        0xBC01 => super::operations::spec_absolute_x_read_c1_requests(cpu, pinout),
        0xBC02 => super::operations::spec_absolute_x_read_c2_requests(cpu, pinout),
        0xBC03 => super::operations::spec_absolute_x_read_c3_requests(cpu, pinout),
        0xBC04 => super::operations::spec_absolute_x_read_c4_requests::<Ldy>(cpu, pinout),
        0xBD00 => super::operations::spec_absolute_x_read_c0_requests(cpu, pinout),
        0xBD01 => super::operations::spec_absolute_x_read_c1_requests(cpu, pinout),
        0xBD02 => super::operations::spec_absolute_x_read_c2_requests(cpu, pinout),
        0xBD03 => super::operations::spec_absolute_x_read_c3_requests(cpu, pinout),
        0xBD04 => super::operations::spec_absolute_x_read_c4_requests::<Lda>(cpu, pinout),
        0xBE00 => super::operations::spec_absolute_y_read_c0_requests(cpu, pinout),
        0xBE01 => super::operations::spec_absolute_y_read_c1_requests(cpu, pinout),
        0xBE02 => super::operations::spec_absolute_y_read_c2_requests(cpu, pinout),
        0xBE03 => super::operations::spec_absolute_y_read_c3_requests(cpu, pinout),
        0xBE04 => super::operations::spec_absolute_y_read_c4_requests::<Ldx>(cpu, pinout),
        0xBF00 => super::operations::spec_absolute_y_read_c0_requests(cpu, pinout),
        0xBF01 => super::operations::spec_absolute_y_read_c1_requests(cpu, pinout),
        0xBF02 => super::operations::spec_absolute_y_read_c2_requests(cpu, pinout),
        0xBF03 => super::operations::spec_absolute_y_read_c3_requests(cpu, pinout),
        0xBF04 => super::operations::spec_absolute_y_read_c4_requests::<Lax>(cpu, pinout),
        _ => Seq::empty(),
    }
}

/// The cycles of the opcodes 0xB0 to 0xBF.
#[verifier::spinoff_prover]
#[verifier::rlimit(80)]
fn run_cycle_b<B: Bus>(cpu: &mut Context, bus: &mut B, pinout: Pinout, code: u16) -> (r: Pinout)
    requires
        old(bus).ready(),
        code as int == old(cpu).ir.opcode as int * 256 + old(cpu).ir.tm as int,
        spec_valid_ir(old(cpu).ir),
    ensures
        final(bus).ready(),
        final(bus).spec_clock() == old(bus).spec_clock(),
        final(cpu).cycle == old(cpu).cycle,
        final(bus).spec_requests() == old(bus).spec_requests() + spec_cycle_requests_b(*old(cpu), pinout, code),
        *final(cpu) == spec_cycle_b(*old(cpu), pinout, r, code),
        spec_valid_ir(final(cpu).ir),
{
    proof {
        reveal(spec_cycle_requests_b);
        reveal(spec_cycle_b);
    }
    let mut pinout = pinout;
    match code {
        0xB000 => { pinout = branch_c0(cpu, bus, pinout); }
        0xB001 => { pinout = branch_c1::<B, Bcs>(cpu, bus, pinout); }
        0xB002 => { pinout = branch_c2(cpu, bus, pinout); }
        0xB003 => { pinout = branch_c3(cpu, bus, pinout); }
        0xB100 => { pinout = indirect_y_read_c0(cpu, bus, pinout); }
        0xB101 => { pinout = indirect_y_read_c1(cpu, bus, pinout); }
        0xB102 => { pinout = indirect_y_read_c2(cpu, bus, pinout); }
        0xB103 => { pinout = indirect_y_read_c3(cpu, bus, pinout); }
        0xB104 => { pinout = indirect_y_read_c4(cpu, bus, pinout); }
        0xB105 => { pinout = indirect_y_read_c5::<B, Lda>(cpu, bus, pinout); }
        0xB200 => { pinout = single_byte_c0(cpu, bus, pinout); }
        0xB201 => { pinout = single_byte_c1::<B, Kil>(cpu, bus, pinout); }
        0xB300 => { pinout = indirect_y_read_c0(cpu, bus, pinout); }
        0xB301 => { pinout = indirect_y_read_c1(cpu, bus, pinout); }
        0xB302 => { pinout = indirect_y_read_c2(cpu, bus, pinout); }
        0xB303 => { pinout = indirect_y_read_c3(cpu, bus, pinout); }
        0xB304 => { pinout = indirect_y_read_c4(cpu, bus, pinout); }
        0xB305 => { pinout = indirect_y_read_c5::<B, Lax>(cpu, bus, pinout); }
        0xB400 => { pinout = zeropage_x_read_c0(cpu, bus, pinout); }
        0xB401 => { pinout = zeropage_x_read_c1(cpu, bus, pinout); }
        0xB402 => { pinout = zeropage_x_read_c2(cpu, bus, pinout); }
        0xB403 => { pinout = zeropage_x_read_c3::<B, Ldy>(cpu, bus, pinout); }
        0xB500 => { pinout = zeropage_x_read_c0(cpu, bus, pinout); }
        0xB501 => { pinout = zeropage_x_read_c1(cpu, bus, pinout); }
        0xB502 => { pinout = zeropage_x_read_c2(cpu, bus, pinout); }
        0xB503 => { pinout = zeropage_x_read_c3::<B, Lda>(cpu, bus, pinout); }
        0xB600 => { pinout = zeropage_y_read_c0(cpu, bus, pinout); }
        0xB601 => { pinout = zeropage_y_read_c1(cpu, bus, pinout); }
        0xB602 => { pinout = zeropage_y_read_c2(cpu, bus, pinout); }
        0xB603 => { pinout = zeropage_y_read_c3::<B, Ldx>(cpu, bus, pinout); }
        0xB700 => { pinout = zeropage_y_read_c0(cpu, bus, pinout); }
        0xB701 => { pinout = zeropage_y_read_c1(cpu, bus, pinout); }
        0xB702 => { pinout = zeropage_y_read_c2(cpu, bus, pinout); }
        0xB703 => { pinout = zeropage_y_read_c3::<B, Lax>(cpu, bus, pinout); }
        0xB800 => { pinout = single_byte_c0(cpu, bus, pinout); }
        0xB801 => { pinout = single_byte_c1::<B, Clv>(cpu, bus, pinout); }
        0xB900 => { pinout = absolute_y_read_c0(cpu, bus, pinout); }
        0xB901 => { pinout = absolute_y_read_c1(cpu, bus, pinout); }
        0xB902 => { pinout = absolute_y_read_c2(cpu, bus, pinout); }
        0xB903 => { pinout = absolute_y_read_c3(cpu, bus, pinout); }
        0xB904 => { pinout = absolute_y_read_c4::<B, Lda>(cpu, bus, pinout); }
        0xBA00 => { pinout = single_byte_c0(cpu, bus, pinout); }
        0xBA01 => { pinout = single_byte_c1::<B, Tsx>(cpu, bus, pinout); }
        0xBB00 => { pinout = absolute_y_read_c0(cpu, bus, pinout); }
        0xBB01 => { pinout = absolute_y_read_c1(cpu, bus, pinout); }
        0xBB02 => { pinout = absolute_y_read_c2(cpu, bus, pinout); }
        0xBB03 => { pinout = absolute_y_read_c3(cpu, bus, pinout); }
        0xBB04 => { pinout = absolute_y_read_c4::<B, Lar>(cpu, bus, pinout); }
        0xBC00 => { pinout = absolute_x_read_c0(cpu, bus, pinout); }
        0xBC01 => { pinout = absolute_x_read_c1(cpu, bus, pinout); }
        0xBC02 => { pinout = absolute_x_read_c2(cpu, bus, pinout); }
        0xBC03 => { pinout = absolute_x_read_c3(cpu, bus, pinout); }
        0xBC04 => { pinout = absolute_x_read_c4::<B, Ldy>(cpu, bus, pinout); }
        0xBD00 => { pinout = absolute_x_read_c0(cpu, bus, pinout); }
        0xBD01 => { pinout = absolute_x_read_c1(cpu, bus, pinout); }
        0xBD02 => { pinout = absolute_x_read_c2(cpu, bus, pinout); }
        0xBD03 => { pinout = absolute_x_read_c3(cpu, bus, pinout); }
        0xBD04 => { pinout = absolute_x_read_c4::<B, Lda>(cpu, bus, pinout); }
        0xBE00 => { pinout = absolute_y_read_c0(cpu, bus, pinout); }
        0xBE01 => { pinout = absolute_y_read_c1(cpu, bus, pinout); }
        0xBE02 => { pinout = absolute_y_read_c2(cpu, bus, pinout); }
        0xBE03 => { pinout = absolute_y_read_c3(cpu, bus, pinout); }
        0xBE04 => { pinout = absolute_y_read_c4::<B, Ldx>(cpu, bus, pinout); }
        0xBF00 => { pinout = absolute_y_read_c0(cpu, bus, pinout); }
        0xBF01 => { pinout = absolute_y_read_c1(cpu, bus, pinout); }
        0xBF02 => { pinout = absolute_y_read_c2(cpu, bus, pinout); }
        0xBF03 => { pinout = absolute_y_read_c3(cpu, bus, pinout); }
        0xBF04 => { pinout = absolute_y_read_c4::<B, Lax>(cpu, bus, pinout); }
        _ => {}
    }
    pinout
}

/// The cpu state after the cycle `code` (opcode 0xC0 to 0xCF, timing
/// state) runs, `r` being the pinout the cycle returns; a code without a
/// cycle leaves the state alone.
#[verifier::opaque]
pub open spec fn spec_cycle_c(cpu: Context, pinout: Pinout, r: Pinout, code: u16) -> Context {
    match code {
        0xC000 => super::operations::spec_immediate_read_c0(cpu, pinout, r),
        0xC001 => super::operations::spec_immediate_read_c1::<Cpy>(cpu, pinout, r),
        0xC100 => super::operations::spec_indirect_x_read_c0(cpu, pinout, r),
        0xC101 => super::operations::spec_indirect_x_read_c1(cpu, pinout, r),
        0xC102 => super::operations::spec_indirect_x_read_c2(cpu, pinout, r),
        0xC103 => super::operations::spec_indirect_x_read_c3(cpu, pinout, r),
        0xC104 => super::operations::spec_indirect_x_read_c4(cpu, pinout, r),
        0xC105 => super::operations::spec_indirect_x_read_c5::<Cmp>(cpu, pinout, r),
        0xC200 => super::operations::spec_immediate_read_c0(cpu, pinout, r),
        0xC201 => super::operations::spec_immediate_read_c1::<Nop>(cpu, pinout, r),
        0xC300 => super::operations::spec_undoc_indirect_x_c0(cpu, pinout, r),
        0xC301 => super::operations::spec_undoc_indirect_x_c1(cpu, pinout, r),
        0xC302 => super::operations::spec_undoc_indirect_x_c2(cpu, pinout, r),
        0xC303 => super::operations::spec_undoc_indirect_x_c3(cpu, pinout, r),
        0xC304 => super::operations::spec_undoc_indirect_x_c4(cpu, pinout, r),
        0xC305 => super::operations::spec_undoc_indirect_x_c5::<Dcp>(cpu, pinout, r),
        0xC306 => super::operations::spec_undoc_indirect_x_c6(cpu, pinout, r),
        0xC307 => super::operations::spec_undoc_indirect_x_c7(cpu, pinout, r),
        0xC400 => super::operations::spec_zeropage_read_c0(cpu, pinout, r),
        0xC401 => super::operations::spec_zeropage_read_c1(cpu, pinout, r),
        0xC402 => super::operations::spec_zeropage_read_c2::<Cpy>(cpu, pinout, r),
        0xC500 => super::operations::spec_zeropage_read_c0(cpu, pinout, r),
        0xC501 => super::operations::spec_zeropage_read_c1(cpu, pinout, r),
        0xC502 => super::operations::spec_zeropage_read_c2::<Cmp>(cpu, pinout, r),
        0xC600 => super::operations::spec_zeropage_modify_c0(cpu, pinout, r),
        0xC601 => super::operations::spec_zeropage_modify_c1(cpu, pinout, r),
        0xC602 => super::operations::spec_zeropage_modify_c2::<Dec>(cpu, pinout, r),
        0xC603 => super::operations::spec_zeropage_modify_c3(cpu, pinout, r),
        0xC604 => super::operations::spec_zeropage_modify_c4(cpu, pinout, r),
        0xC700 => super::operations::spec_zeropage_modify_c0(cpu, pinout, r),
        0xC701 => super::operations::spec_zeropage_modify_c1(cpu, pinout, r),
        0xC702 => super::operations::spec_zeropage_modify_c2::<Dcp>(cpu, pinout, r),
        0xC703 => super::operations::spec_zeropage_modify_c3(cpu, pinout, r),
        0xC704 => super::operations::spec_zeropage_modify_c4(cpu, pinout, r),
        0xC800 => super::operations::spec_single_byte_c0(cpu, pinout, r),
        0xC801 => super::operations::spec_single_byte_c1::<Iny>(cpu, pinout, r),
        0xC900 => super::operations::spec_immediate_read_c0(cpu, pinout, r),
        0xC901 => super::operations::spec_immediate_read_c1::<Cmp>(cpu, pinout, r),
        0xCA00 => super::operations::spec_single_byte_c0(cpu, pinout, r),
        0xCA01 => super::operations::spec_single_byte_c1::<Dex>(cpu, pinout, r),
        0xCB00 => super::operations::spec_immediate_read_c0(cpu, pinout, r),
        0xCB01 => super::operations::spec_immediate_read_c1::<Axs>(cpu, pinout, r),
        0xCC00 => super::operations::spec_absolute_read_c0(cpu, pinout, r),
        0xCC01 => super::operations::spec_absolute_read_c1(cpu, pinout, r),
        0xCC02 => super::operations::spec_absolute_read_c2(cpu, pinout, r),
        0xCC03 => super::operations::spec_absolute_read_c3::<Cpy>(cpu, pinout, r),
        0xCD00 => super::operations::spec_absolute_read_c0(cpu, pinout, r),
        0xCD01 => super::operations::spec_absolute_read_c1(cpu, pinout, r),
        0xCD02 => super::operations::spec_absolute_read_c2(cpu, pinout, r),
        0xCD03 => super::operations::spec_absolute_read_c3::<Cmp>(cpu, pinout, r),
        0xCE00 => super::operations::spec_absolute_modify_c0(cpu, pinout, r),
        0xCE01 => super::operations::spec_absolute_modify_c1(cpu, pinout, r),
        0xCE02 => super::operations::spec_absolute_modify_c2(cpu, pinout, r),
        0xCE03 => super::operations::spec_absolute_modify_c3::<Dec>(cpu, pinout, r),
        0xCE04 => super::operations::spec_absolute_modify_c4(cpu, pinout, r),
        0xCE05 => super::operations::spec_absolute_modify_c5(cpu, pinout, r),
        0xCF00 => super::operations::spec_absolute_modify_c0(cpu, pinout, r),
        0xCF01 => super::operations::spec_absolute_modify_c1(cpu, pinout, r),
        0xCF02 => super::operations::spec_absolute_modify_c2(cpu, pinout, r),
        0xCF03 => super::operations::spec_absolute_modify_c3::<Dcp>(cpu, pinout, r),
        0xCF04 => super::operations::spec_absolute_modify_c4(cpu, pinout, r),
        0xCF05 => super::operations::spec_absolute_modify_c5(cpu, pinout, r),
        _ => cpu,
    }
}

/// The requests the cycle `code` (opcodes 0xC0 to 0xCF) puts on the bus, oldest first.
#[verifier::opaque]
pub open spec fn spec_cycle_requests_c(cpu: Context, pinout: Pinout, code: u16) -> Seq<Pinout> {
    match code {
        0xC000 => super::operations::spec_immediate_read_c0_requests(cpu, pinout),
        0xC001 => super::operations::spec_immediate_read_c1_requests::<Cpy>(cpu, pinout),
        0xC100 => super::operations::spec_indirect_x_read_c0_requests(cpu, pinout),
        0xC101 => super::operations::spec_indirect_x_read_c1_requests(cpu, pinout),
        0xC102 => super::operations::spec_indirect_x_read_c2_requests(cpu, pinout),
        0xC103 => super::operations::spec_indirect_x_read_c3_requests(cpu, pinout),
        0xC104 => super::operations::spec_indirect_x_read_c4_requests(cpu, pinout),
        0xC105 => super::operations::spec_indirect_x_read_c5_requests::<Cmp>(cpu, pinout),
        0xC200 => super::operations::spec_immediate_read_c0_requests(cpu, pinout),
        0xC201 => super::operations::spec_immediate_read_c1_requests::<Nop>(cpu, pinout),
        0xC300 => super::operations::spec_undoc_indirect_x_c0_requests(cpu, pinout),
        0xC301 => super::operations::spec_undoc_indirect_x_c1_requests(cpu, pinout),
        0xC302 => super::operations::spec_undoc_indirect_x_c2_requests(cpu, pinout),
        0xC303 => super::operations::spec_undoc_indirect_x_c3_requests(cpu, pinout),
        0xC304 => super::operations::spec_undoc_indirect_x_c4_requests(cpu, pinout),
        0xC305 => super::operations::spec_undoc_indirect_x_c5_requests::<Dcp>(cpu, pinout),
        0xC306 => super::operations::spec_undoc_indirect_x_c6_requests(cpu, pinout),
        0xC307 => super::operations::spec_undoc_indirect_x_c7_requests(cpu, pinout),
        0xC400 => super::operations::spec_zeropage_read_c0_requests(cpu, pinout),
        0xC401 => super::operations::spec_zeropage_read_c1_requests(cpu, pinout),
        0xC402 => super::operations::spec_zeropage_read_c2_requests::<Cpy>(cpu, pinout),
        0xC500 => super::operations::spec_zeropage_read_c0_requests(cpu, pinout),
        0xC501 => super::operations::spec_zeropage_read_c1_requests(cpu, pinout),
        0xC502 => super::operations::spec_zeropage_read_c2_requests::<Cmp>(cpu, pinout),
        0xC600 => super::operations::spec_zeropage_modify_c0_requests(cpu, pinout),
        0xC601 => super::operations::spec_zeropage_modify_c1_requests(cpu, pinout),
        0xC602 => super::operations::spec_zeropage_modify_c2_requests::<Dec>(cpu, pinout),
        0xC603 => super::operations::spec_zeropage_modify_c3_requests(cpu, pinout),
        0xC604 => super::operations::spec_zeropage_modify_c4_requests(cpu, pinout),
        0xC700 => super::operations::spec_zeropage_modify_c0_requests(cpu, pinout),
        0xC701 => super::operations::spec_zeropage_modify_c1_requests(cpu, pinout),
        0xC702 => super::operations::spec_zeropage_modify_c2_requests::<Dcp>(cpu, pinout),
        0xC703 => super::operations::spec_zeropage_modify_c3_requests(cpu, pinout),
        0xC704 => super::operations::spec_zeropage_modify_c4_requests(cpu, pinout),
        0xC800 => super::operations::spec_single_byte_c0_requests(cpu, pinout),
        0xC801 => super::operations::spec_single_byte_c1_requests::<Iny>(cpu, pinout),
        0xC900 => super::operations::spec_immediate_read_c0_requests(cpu, pinout),
        0xC901 => super::operations::spec_immediate_read_c1_requests::<Cmp>(cpu, pinout),
        0xCA00 => super::operations::spec_single_byte_c0_requests(cpu, pinout),
        0xCA01 => super::operations::spec_single_byte_c1_requests::<Dex>(cpu, pinout),
        0xCB00 => super::operations::spec_immediate_read_c0_requests(cpu, pinout),
        0xCB01 => super::operations::spec_immediate_read_c1_requests::<Axs>(cpu, pinout),
        0xCC00 => super::operations::spec_absolute_read_c0_requests(cpu, pinout),
        0xCC01 => super::operations::spec_absolute_read_c1_requests(cpu, pinout),
        0xCC02 => super::operations::spec_absolute_read_c2_requests(cpu, pinout),
        0xCC03 => super::operations::spec_absolute_read_c3_requests::<Cpy>(cpu, pinout),
        0xCD00 => super::operations::spec_absolute_read_c0_requests(cpu, pinout),
        0xCD01 => super::operations::spec_absolute_read_c1_requests(cpu, pinout),
        0xCD02 => super::operations::spec_absolute_read_c2_requests(cpu, pinout),
        0xCD03 => super::operations::spec_absolute_read_c3_requests::<Cmp>(cpu, pinout),
        0xCE00 => super::operations::spec_absolute_modify_c0_requests(cpu, pinout),
        0xCE01 => super::operations::spec_absolute_modify_c1_requests(cpu, pinout),
        0xCE02 => super::operations::spec_absolute_modify_c2_requests(cpu, pinout),
        0xCE03 => super::operations::spec_absolute_modify_c3_requests::<Dec>(cpu, pinout),
        0xCE04 => super::operations::spec_absolute_modify_c4_requests(cpu, pinout),
        0xCE05 => super::operations::spec_absolute_modify_c5_requests(cpu, pinout),
        0xCF00 => super::operations::spec_absolute_modify_c0_requests(cpu, pinout),
        0xCF01 => super::operations::spec_absolute_modify_c1_requests(cpu, pinout),
        0xCF02 => super::operations::spec_absolute_modify_c2_requests(cpu, pinout),
        0xCF03 => super::operations::spec_absolute_modify_c3_requests::<Dcp>(cpu, pinout),
        0xCF04 => super::operations::spec_absolute_modify_c4_requests(cpu, pinout),
        0xCF05 => super::operations::spec_absolute_modify_c5_requests(cpu, pinout),
        _ => Seq::empty(),
    }
}

/// The cycles of the opcodes 0xC0 to 0xCF.
#[verifier::spinoff_prover]
#[verifier::rlimit(80)]
fn run_cycle_c<B: Bus>(cpu: &mut Context, bus: &mut B, pinout: Pinout, code: u16) -> (r: Pinout)
    requires
        old(bus).ready(),
        code as int == old(cpu).ir.opcode as int * 256 + old(cpu).ir.tm as int,
        spec_valid_ir(old(cpu).ir),
    ensures
        final(bus).ready(),
        final(bus).spec_clock() == old(bus).spec_clock(),
        final(cpu).cycle == old(cpu).cycle,
        final(bus).spec_requests() == old(bus).spec_requests() + spec_cycle_requests_c(*old(cpu), pinout, code),
        *final(cpu) == spec_cycle_c(*old(cpu), pinout, r, code),
        spec_valid_ir(final(cpu).ir),
{
    proof {
        reveal(spec_cycle_requests_c);
        reveal(spec_cycle_c);
    }
    let mut pinout = pinout;
    match code {
        0xC000 => { pinout = immediate_read_c0(cpu, bus, pinout); }
        0xC001 => { pinout = immediate_read_c1::<B, Cpy>(cpu, bus, pinout); }
        0xC100 => { pinout = indirect_x_read_c0(cpu, bus, pinout); }
        0xC101 => { pinout = indirect_x_read_c1(cpu, bus, pinout); }
        0xC102 => { pinout = indirect_x_read_c2(cpu, bus, pinout); }
        0xC103 => { pinout = indirect_x_read_c3(cpu, bus, pinout); }
        0xC104 => { pinout = indirect_x_read_c4(cpu, bus, pinout); }
        0xC105 => { pinout = indirect_x_read_c5::<B, Cmp>(cpu, bus, pinout); }
        0xC200 => { pinout = immediate_read_c0(cpu, bus, pinout); }
        0xC201 => { pinout = immediate_read_c1::<B, Nop>(cpu, bus, pinout); }
        0xC300 => { pinout = undoc_indirect_x_c0(cpu, bus, pinout); }
        0xC301 => { pinout = undoc_indirect_x_c1(cpu, bus, pinout); }
        0xC302 => { pinout = undoc_indirect_x_c2(cpu, bus, pinout); }
        0xC303 => { pinout = undoc_indirect_x_c3(cpu, bus, pinout); }
        0xC304 => { pinout = undoc_indirect_x_c4(cpu, bus, pinout); }
        0xC305 => { pinout = undoc_indirect_x_c5::<B, Dcp>(cpu, bus, pinout); }
        0xC306 => { pinout = undoc_indirect_x_c6(cpu, bus, pinout); }
        0xC307 => { pinout = undoc_indirect_x_c7(cpu, bus, pinout); }
        0xC400 => { pinout = zeropage_read_c0(cpu, bus, pinout); }
        0xC401 => { pinout = zeropage_read_c1(cpu, bus, pinout); }
        0xC402 => { pinout = zeropage_read_c2::<B, Cpy>(cpu, bus, pinout); }
        0xC500 => { pinout = zeropage_read_c0(cpu, bus, pinout); }
        0xC501 => { pinout = zeropage_read_c1(cpu, bus, pinout); }
        0xC502 => { pinout = zeropage_read_c2::<B, Cmp>(cpu, bus, pinout); }
        0xC600 => { pinout = zeropage_modify_c0(cpu, bus, pinout); }
        0xC601 => { pinout = zeropage_modify_c1(cpu, bus, pinout); }
        0xC602 => { pinout = zeropage_modify_c2::<B, Dec>(cpu, bus, pinout); }
        0xC603 => { pinout = zeropage_modify_c3(cpu, bus, pinout); }
        0xC604 => { pinout = zeropage_modify_c4(cpu, bus, pinout); }
        0xC700 => { pinout = zeropage_modify_c0(cpu, bus, pinout); }
        0xC701 => { pinout = zeropage_modify_c1(cpu, bus, pinout); }
        0xC702 => { pinout = zeropage_modify_c2::<B, Dcp>(cpu, bus, pinout); }
        0xC703 => { pinout = zeropage_modify_c3(cpu, bus, pinout); }
        0xC704 => { pinout = zeropage_modify_c4(cpu, bus, pinout); }
        0xC800 => { pinout = single_byte_c0(cpu, bus, pinout); }
        0xC801 => { pinout = single_byte_c1::<B, Iny>(cpu, bus, pinout); }
        0xC900 => { pinout = immediate_read_c0(cpu, bus, pinout); }
        0xC901 => { pinout = immediate_read_c1::<B, Cmp>(cpu, bus, pinout); }
        0xCA00 => { pinout = single_byte_c0(cpu, bus, pinout); }
        0xCA01 => { pinout = single_byte_c1::<B, Dex>(cpu, bus, pinout); }
        0xCB00 => { pinout = immediate_read_c0(cpu, bus, pinout); }
        0xCB01 => { pinout = immediate_read_c1::<B, Axs>(cpu, bus, pinout); }
        0xCC00 => { pinout = absolute_read_c0(cpu, bus, pinout); }
        0xCC01 => { pinout = absolute_read_c1(cpu, bus, pinout); }
        0xCC02 => { pinout = absolute_read_c2(cpu, bus, pinout); }
        0xCC03 => { pinout = absolute_read_c3::<B, Cpy>(cpu, bus, pinout); }
        0xCD00 => { pinout = absolute_read_c0(cpu, bus, pinout); }
        0xCD01 => { pinout = absolute_read_c1(cpu, bus, pinout); }
        0xCD02 => { pinout = absolute_read_c2(cpu, bus, pinout); }
        0xCD03 => { pinout = absolute_read_c3::<B, Cmp>(cpu, bus, pinout); }
        0xCE00 => { pinout = absolute_modify_c0(cpu, bus, pinout); }
        0xCE01 => { pinout = absolute_modify_c1(cpu, bus, pinout); }
        0xCE02 => { pinout = absolute_modify_c2(cpu, bus, pinout); }
        0xCE03 => { pinout = absolute_modify_c3::<B, Dec>(cpu, bus, pinout); }
        0xCE04 => { pinout = absolute_modify_c4(cpu, bus, pinout); }
        0xCE05 => { pinout = absolute_modify_c5(cpu, bus, pinout); }
        0xCF00 => { pinout = absolute_modify_c0(cpu, bus, pinout); }
        0xCF01 => { pinout = absolute_modify_c1(cpu, bus, pinout); }
        0xCF02 => { pinout = absolute_modify_c2(cpu, bus, pinout); }
        0xCF03 => { pinout = absolute_modify_c3::<B, Dcp>(cpu, bus, pinout); }
        0xCF04 => { pinout = absolute_modify_c4(cpu, bus, pinout); }
        0xCF05 => { pinout = absolute_modify_c5(cpu, bus, pinout); }
        _ => {}
    }
    pinout
}

/// The cpu state after the cycle `code` (opcode 0xD0 to 0xDF, timing
/// state) runs, `r` being the pinout the cycle returns; a code without a
/// cycle leaves the state alone.
#[verifier::opaque]
pub open spec fn spec_cycle_d(cpu: Context, pinout: Pinout, r: Pinout, code: u16) -> Context {
    match code {
        0xD000 => super::operations::spec_branch_c0(cpu, pinout, r),
        0xD001 => super::operations::spec_branch_c1::<Bne>(cpu, pinout, r),
        0xD002 => super::operations::spec_branch_c2(cpu, pinout, r),
        0xD003 => super::operations::spec_branch_c3(cpu, pinout, r),
        0xD100 => super::operations::spec_indirect_y_read_c0(cpu, pinout, r),
        0xD101 => super::operations::spec_indirect_y_read_c1(cpu, pinout, r),
        0xD102 => super::operations::spec_indirect_y_read_c2(cpu, pinout, r),
        0xD103 => super::operations::spec_indirect_y_read_c3(cpu, pinout, r),
        0xD104 => super::operations::spec_indirect_y_read_c4(cpu, pinout, r),
        0xD105 => super::operations::spec_indirect_y_read_c5::<Cmp>(cpu, pinout, r),
        0xD200 => super::operations::spec_single_byte_c0(cpu, pinout, r),
        0xD201 => super::operations::spec_single_byte_c1::<Kil>(cpu, pinout, r),
        0xD300 => super::operations::spec_undoc_indirect_y_c0(cpu, pinout, r),
        0xD301 => super::operations::spec_undoc_indirect_y_c1(cpu, pinout, r),
        0xD302 => super::operations::spec_undoc_indirect_y_c2(cpu, pinout, r),
        0xD303 => super::operations::spec_undoc_indirect_y_c3(cpu, pinout, r),
        0xD304 => super::operations::spec_undoc_indirect_y_c4(cpu, pinout, r),
        0xD305 => super::operations::spec_undoc_indirect_y_c5::<Dcp>(cpu, pinout, r),
        0xD306 => super::operations::spec_undoc_indirect_y_c6(cpu, pinout, r),
        0xD307 => super::operations::spec_undoc_indirect_y_c7(cpu, pinout, r),
        0xD400 => super::operations::spec_zeropage_x_read_c0(cpu, pinout, r),
        0xD401 => super::operations::spec_zeropage_x_read_c1(cpu, pinout, r),
        0xD402 => super::operations::spec_zeropage_x_read_c2(cpu, pinout, r),
        0xD403 => super::operations::spec_zeropage_x_read_c3::<Nop>(cpu, pinout, r),
        0xD500 => super::operations::spec_zeropage_x_read_c0(cpu, pinout, r),
        0xD501 => super::operations::spec_zeropage_x_read_c1(cpu, pinout, r),
        0xD502 => super::operations::spec_zeropage_x_read_c2(cpu, pinout, r),
        0xD503 => super::operations::spec_zeropage_x_read_c3::<Cmp>(cpu, pinout, r),
        0xD600 => super::operations::spec_zeropage_x_modify_c0(cpu, pinout, r),
        0xD601 => super::operations::spec_zeropage_x_modify_c1(cpu, pinout, r),
        0xD602 => super::operations::spec_zeropage_x_modify_c2(cpu, pinout, r),
        0xD603 => super::operations::spec_zeropage_x_modify_c3::<Dec>(cpu, pinout, r),
        0xD604 => super::operations::spec_zeropage_x_modify_c4(cpu, pinout, r),
        0xD605 => super::operations::spec_zeropage_x_modify_c5(cpu, pinout, r),
        0xD700 => super::operations::spec_zeropage_x_modify_c0(cpu, pinout, r),
        0xD701 => super::operations::spec_zeropage_x_modify_c1(cpu, pinout, r),
        0xD702 => super::operations::spec_zeropage_x_modify_c2(cpu, pinout, r),
        0xD703 => super::operations::spec_zeropage_x_modify_c3::<Dcp>(cpu, pinout, r),
        0xD704 => super::operations::spec_zeropage_x_modify_c4(cpu, pinout, r),
        0xD705 => super::operations::spec_zeropage_x_modify_c5(cpu, pinout, r),
        0xD800 => super::operations::spec_single_byte_c0(cpu, pinout, r),
        0xD801 => super::operations::spec_single_byte_c1::<Cld>(cpu, pinout, r),
        0xD900 => super::operations::spec_absolute_y_read_c0(cpu, pinout, r),
        0xD901 => super::operations::spec_absolute_y_read_c1(cpu, pinout, r),
        0xD902 => super::operations::spec_absolute_y_read_c2(cpu, pinout, r),
        0xD903 => super::operations::spec_absolute_y_read_c3(cpu, pinout, r),
        0xD904 => super::operations::spec_absolute_y_read_c4::<Cmp>(cpu, pinout, r),
        0xDA00 => super::operations::spec_single_byte_c0(cpu, pinout, r),
        0xDA01 => super::operations::spec_single_byte_c1::<Nop>(cpu, pinout, r),
        0xDB00 => super::operations::spec_undoc_absolute_y_c0(cpu, pinout, r),
        0xDB01 => super::operations::spec_undoc_absolute_y_c1(cpu, pinout, r),
        0xDB02 => super::operations::spec_undoc_absolute_y_c2(cpu, pinout, r),
        0xDB03 => super::operations::spec_undoc_absolute_y_c3(cpu, pinout, r),
        0xDB04 => super::operations::spec_undoc_absolute_y_c4::<Dcp>(cpu, pinout, r),
        0xDB05 => super::operations::spec_undoc_absolute_y_c5(cpu, pinout, r),
        0xDB06 => super::operations::spec_undoc_absolute_y_c6(cpu, pinout, r),
        0xDC00 => super::operations::spec_absolute_x_read_c0(cpu, pinout, r),
        0xDC01 => super::operations::spec_absolute_x_read_c1(cpu, pinout, r),
        0xDC02 => super::operations::spec_absolute_x_read_c2(cpu, pinout, r),
        0xDC03 => super::operations::spec_absolute_x_read_c3(cpu, pinout, r),
        0xDC04 => super::operations::spec_absolute_x_read_c4::<Nop>(cpu, pinout, r),
        0xDD00 => super::operations::spec_absolute_x_read_c0(cpu, pinout, r),
        0xDD01 => super::operations::spec_absolute_x_read_c1(cpu, pinout, r),
        0xDD02 => super::operations::spec_absolute_x_read_c2(cpu, pinout, r),
        0xDD03 => super::operations::spec_absolute_x_read_c3(cpu, pinout, r),
        0xDD04 => super::operations::spec_absolute_x_read_c4::<Cmp>(cpu, pinout, r),
        0xDE00 => super::operations::spec_absolute_x_modify_c0(cpu, pinout, r),
        0xDE01 => super::operations::spec_absolute_x_modify_c1(cpu, pinout, r),
        0xDE02 => super::operations::spec_absolute_x_modify_c2(cpu, pinout, r),
        0xDE03 => super::operations::spec_absolute_x_modify_c3(cpu, pinout, r),
        0xDE04 => super::operations::spec_absolute_x_modify_c4::<Dec>(cpu, pinout, r),
        0xDE05 => super::operations::spec_absolute_x_modify_c5(cpu, pinout, r),
        0xDE06 => super::operations::spec_absolute_x_modify_c6(cpu, pinout, r),
        0xDF00 => super::operations::spec_absolute_x_modify_c0(cpu, pinout, r),
        0xDF01 => super::operations::spec_absolute_x_modify_c1(cpu, pinout, r),
        0xDF02 => super::operations::spec_absolute_x_modify_c2(cpu, pinout, r),
        0xDF03 => super::operations::spec_absolute_x_modify_c3(cpu, pinout, r),
        0xDF04 => super::operations::spec_absolute_x_modify_c4::<Dcp>(cpu, pinout, r),
        0xDF05 => super::operations::spec_absolute_x_modify_c5(cpu, pinout, r),
        0xDF06 => super::operations::spec_absolute_x_modify_c6(cpu, pinout, r),
        _ => cpu,
    }
}

/// The requests the cycle `code` (opcodes 0xD0 to 0xDF) puts on the bus, oldest first.
#[verifier::opaque]
pub open spec fn spec_cycle_requests_d(cpu: Context, pinout: Pinout, code: u16) -> Seq<Pinout> {
    match code {
        0xD000 => super::operations::spec_branch_c0_requests(cpu, pinout),
        0xD001 => super::operations::spec_branch_c1_requests::<Bne>(cpu, pinout),
        0xD002 => super::operations::spec_branch_c2_requests(cpu, pinout),
        0xD003 => super::operations::spec_branch_c3_requests(cpu, pinout),
        0xD100 => super::operations::spec_indirect_y_read_c0_requests(cpu, pinout),
        0xD101 => super::operations::spec_indirect_y_read_c1_requests(cpu, pinout),
        0xD102 => super::operations::spec_indirect_y_read_c2_requests(cpu, pinout),
        0xD103 => super::operations::spec_indirect_y_read_c3_requests(cpu, pinout),
        0xD104 => super::operations::spec_indirect_y_read_c4_requests(cpu, pinout),
        0xD105 => super::operations::spec_indirect_y_read_c5_requests::<Cmp>(cpu, pinout),
        0xD200 => super::operations::spec_single_byte_c0_requests(cpu, pinout),
        0xD201 => super::operations::spec_single_byte_c1_requests::<Kil>(cpu, pinout),
        0xD300 => super::operations::spec_undoc_indirect_y_c0_requests(cpu, pinout),
        0xD301 => super::operations::spec_undoc_indirect_y_c1_requests(cpu, pinout),
        0xD302 => super::operations::spec_undoc_indirect_y_c2_requests(cpu, pinout),
        0xD303 => super::operations::spec_undoc_indirect_y_c3_requests(cpu, pinout),
        0xD304 => super::operations::spec_undoc_indirect_y_c4_requests(cpu, pinout),
        0xD305 => super::operations::spec_undoc_indirect_y_c5_requests::<Dcp>(cpu, pinout),
        0xD306 => super::operations::spec_undoc_indirect_y_c6_requests(cpu, pinout),
        0xD307 => super::operations::spec_undoc_indirect_y_c7_requests(cpu, pinout),
        0xD400 => super::operations::spec_zeropage_x_read_c0_requests(cpu, pinout),
        0xD401 => super::operations::spec_zeropage_x_read_c1_requests(cpu, pinout),
        0xD402 => super::operations::spec_zeropage_x_read_c2_requests(cpu, pinout),
        0xD403 => super::operations::spec_zeropage_x_read_c3_requests::<Nop>(cpu, pinout),
        0xD500 => super::operations::spec_zeropage_x_read_c0_requests(cpu, pinout),
        0xD501 => super::operations::spec_zeropage_x_read_c1_requests(cpu, pinout),
        0xD502 => super::operations::spec_zeropage_x_read_c2_requests(cpu, pinout),
        0xD503 => super::operations::spec_zeropage_x_read_c3_requests::<Cmp>(cpu, pinout),
        0xD600 => super::operations::spec_zeropage_x_modify_c0_requests(cpu, pinout),
        0xD601 => super::operations::spec_zeropage_x_modify_c1_requests(cpu, pinout),
        0xD602 => super::operations::spec_zeropage_x_modify_c2_requests(cpu, pinout),
        0xD603 => super::operations::spec_zeropage_x_modify_c3_requests::<Dec>(cpu, pinout),
        0xD604 => super::operations::spec_zeropage_x_modify_c4_requests(cpu, pinout),
        0xD605 => super::operations::spec_zeropage_x_modify_c5_requests(cpu, pinout),
        0xD700 => super::operations::spec_zeropage_x_modify_c0_requests(cpu, pinout),
        0xD701 => super::operations::spec_zeropage_x_modify_c1_requests(cpu, pinout),
        0xD702 => super::operations::spec_zeropage_x_modify_c2_requests(cpu, pinout),
        0xD703 => super::operations::spec_zeropage_x_modify_c3_requests::<Dcp>(cpu, pinout),
        0xD704 => super::operations::spec_zeropage_x_modify_c4_requests(cpu, pinout),
        0xD705 => super::operations::spec_zeropage_x_modify_c5_requests(cpu, pinout),
        0xD800 => super::operations::spec_single_byte_c0_requests(cpu, pinout),
        0xD801 => super::operations::spec_single_byte_c1_requests::<Cld>(cpu, pinout),
        0xD900 => super::operations::spec_absolute_y_read_c0_requests(cpu, pinout),
        0xD901 => super::operations::spec_absolute_y_read_c1_requests(cpu, pinout),
        0xD902 => super::operations::spec_absolute_y_read_c2_requests(cpu, pinout),
        0xD903 => super::operations::spec_absolute_y_read_c3_requests(cpu, pinout),
        0xD904 => super::operations::spec_absolute_y_read_c4_requests::<Cmp>(cpu, pinout),
        0xDA00 => super::operations::spec_single_byte_c0_requests(cpu, pinout),
        0xDA01 => super::operations::spec_single_byte_c1_requests::<Nop>(cpu, pinout),
        0xDB00 => super::operations::spec_undoc_absolute_y_c0_requests(cpu, pinout),
        0xDB01 => super::operations::spec_undoc_absolute_y_c1_requests(cpu, pinout),
        0xDB02 => super::operations::spec_undoc_absolute_y_c2_requests(cpu, pinout),
        0xDB03 => super::operations::spec_undoc_absolute_y_c3_requests(cpu, pinout),
        0xDB04 => super::operations::spec_undoc_absolute_y_c4_requests::<Dcp>(cpu, pinout),
        0xDB05 => super::operations::spec_undoc_absolute_y_c5_requests(cpu, pinout),
        0xDB06 => super::operations::spec_undoc_absolute_y_c6_requests(cpu, pinout),
        0xDC00 => super::operations::spec_absolute_x_read_c0_requests(cpu, pinout),
        0xDC01 => super::operations::spec_absolute_x_read_c1_requests(cpu, pinout),
        0xDC02 => super::operations::spec_absolute_x_read_c2_requests(cpu, pinout),
        0xDC03 => super::operations::spec_absolute_x_read_c3_requests(cpu, pinout),
        0xDC04 => super::operations::spec_absolute_x_read_c4_requests::<Nop>(cpu, pinout),
        0xDD00 => super::operations::spec_absolute_x_read_c0_requests(cpu, pinout),
        0xDD01 => super::operations::spec_absolute_x_read_c1_requests(cpu, pinout),
        0xDD02 => super::operations::spec_absolute_x_read_c2_requests(cpu, pinout),
        0xDD03 => super::operations::spec_absolute_x_read_c3_requests(cpu, pinout),
        0xDD04 => super::operations::spec_absolute_x_read_c4_requests::<Cmp>(cpu, pinout),
        0xDE00 => super::operations::spec_absolute_x_modify_c0_requests(cpu, pinout),
        0xDE01 => super::operations::spec_absolute_x_modify_c1_requests(cpu, pinout),
        0xDE02 => super::operations::spec_absolute_x_modify_c2_requests(cpu, pinout),
        0xDE03 => super::operations::spec_absolute_x_modify_c3_requests(cpu, pinout),
        0xDE04 => super::operations::spec_absolute_x_modify_c4_requests::<Dec>(cpu, pinout),
        0xDE05 => super::operations::spec_absolute_x_modify_c5_requests(cpu, pinout),
        0xDE06 => super::operations::spec_absolute_x_modify_c6_requests(cpu, pinout),
        0xDF00 => super::operations::spec_absolute_x_modify_c0_requests(cpu, pinout),
        0xDF01 => super::operations::spec_absolute_x_modify_c1_requests(cpu, pinout),
        0xDF02 => super::operations::spec_absolute_x_modify_c2_requests(cpu, pinout),
        0xDF03 => super::operations::spec_absolute_x_modify_c3_requests(cpu, pinout),
        0xDF04 => super::operations::spec_absolute_x_modify_c4_requests::<Dcp>(cpu, pinout),
        0xDF05 => super::operations::spec_absolute_x_modify_c5_requests(cpu, pinout),
        0xDF06 => super::operations::spec_absolute_x_modify_c6_requests(cpu, pinout),
        _ => Seq::empty(),
    }
}

/// The cycles of the opcodes 0xD0 to 0xDF.
#[verifier::spinoff_prover]
#[verifier::rlimit(80)]
fn run_cycle_d<B: Bus>(cpu: &mut Context, bus: &mut B, pinout: Pinout, code: u16) -> (r: Pinout)
    requires
        old(bus).ready(),
        code as int == old(cpu).ir.opcode as int * 256 + old(cpu).ir.tm as int,
        spec_valid_ir(old(cpu).ir),
    ensures
        final(bus).ready(),
        final(bus).spec_clock() == old(bus).spec_clock(),
        final(cpu).cycle == old(cpu).cycle,
        final(bus).spec_requests() == old(bus).spec_requests() + spec_cycle_requests_d(*old(cpu), pinout, code),
        *final(cpu) == spec_cycle_d(*old(cpu), pinout, r, code),
        spec_valid_ir(final(cpu).ir),
{
    proof {
        reveal(spec_cycle_requests_d);
        reveal(spec_cycle_d);
    }
    let mut pinout = pinout;
    match code {
        0xD000 => { pinout = branch_c0(cpu, bus, pinout); }
        0xD001 => { pinout = branch_c1::<B, Bne>(cpu, bus, pinout); }
        0xD002 => { pinout = branch_c2(cpu, bus, pinout); }
        0xD003 => { pinout = branch_c3(cpu, bus, pinout); }
        0xD100 => { pinout = indirect_y_read_c0(cpu, bus, pinout); }
        0xD101 => { pinout = indirect_y_read_c1(cpu, bus, pinout); }
        0xD102 => { pinout = indirect_y_read_c2(cpu, bus, pinout); }
        0xD103 => { pinout = indirect_y_read_c3(cpu, bus, pinout); }
        0xD104 => { pinout = indirect_y_read_c4(cpu, bus, pinout); }
        0xD105 => { pinout = indirect_y_read_c5::<B, Cmp>(cpu, bus, pinout); }
        0xD200 => { pinout = single_byte_c0(cpu, bus, pinout); }
        0xD201 => { pinout = single_byte_c1::<B, Kil>(cpu, bus, pinout); }
        0xD300 => { pinout = undoc_indirect_y_c0(cpu, bus, pinout); }
        0xD301 => { pinout = undoc_indirect_y_c1(cpu, bus, pinout); }
        0xD302 => { pinout = undoc_indirect_y_c2(cpu, bus, pinout); }
        0xD303 => { pinout = undoc_indirect_y_c3(cpu, bus, pinout); }
        0xD304 => { pinout = undoc_indirect_y_c4(cpu, bus, pinout); }
        0xD305 => { pinout = undoc_indirect_y_c5::<B, Dcp>(cpu, bus, pinout); }
        0xD306 => { pinout = undoc_indirect_y_c6(cpu, bus, pinout); }
        0xD307 => { pinout = undoc_indirect_y_c7(cpu, bus, pinout); }
        0xD400 => { pinout = zeropage_x_read_c0(cpu, bus, pinout); }
        0xD401 => { pinout = zeropage_x_read_c1(cpu, bus, pinout); }
        0xD402 => { pinout = zeropage_x_read_c2(cpu, bus, pinout); }
        0xD403 => { pinout = zeropage_x_read_c3::<B, Nop>(cpu, bus, pinout); }
        0xD500 => { pinout = zeropage_x_read_c0(cpu, bus, pinout); }
        0xD501 => { pinout = zeropage_x_read_c1(cpu, bus, pinout); }
        0xD502 => { pinout = zeropage_x_read_c2(cpu, bus, pinout); }
        0xD503 => { pinout = zeropage_x_read_c3::<B, Cmp>(cpu, bus, pinout); }
        0xD600 => { pinout = zeropage_x_modify_c0(cpu, bus, pinout); }
        0xD601 => { pinout = zeropage_x_modify_c1(cpu, bus, pinout); }
        0xD602 => { pinout = zeropage_x_modify_c2(cpu, bus, pinout); }
        0xD603 => { pinout = zeropage_x_modify_c3::<B, Dec>(cpu, bus, pinout); }
        0xD604 => { pinout = zeropage_x_modify_c4(cpu, bus, pinout); }
        0xD605 => { pinout = zeropage_x_modify_c5(cpu, bus, pinout); }
        0xD700 => { pinout = zeropage_x_modify_c0(cpu, bus, pinout); }
        0xD701 => { pinout = zeropage_x_modify_c1(cpu, bus, pinout); }
        0xD702 => { pinout = zeropage_x_modify_c2(cpu, bus, pinout); }
        0xD703 => { pinout = zeropage_x_modify_c3::<B, Dcp>(cpu, bus, pinout); }
        0xD704 => { pinout = zeropage_x_modify_c4(cpu, bus, pinout); }
        0xD705 => { pinout = zeropage_x_modify_c5(cpu, bus, pinout); }
        0xD800 => { pinout = single_byte_c0(cpu, bus, pinout); }
        0xD801 => { pinout = single_byte_c1::<B, Cld>(cpu, bus, pinout); }
        0xD900 => { pinout = absolute_y_read_c0(cpu, bus, pinout); }
        0xD901 => { pinout = absolute_y_read_c1(cpu, bus, pinout); }
        0xD902 => { pinout = absolute_y_read_c2(cpu, bus, pinout); }
        0xD903 => { pinout = absolute_y_read_c3(cpu, bus, pinout); }
        0xD904 => { pinout = absolute_y_read_c4::<B, Cmp>(cpu, bus, pinout); }
        0xDA00 => { pinout = single_byte_c0(cpu, bus, pinout); }
        0xDA01 => { pinout = single_byte_c1::<B, Nop>(cpu, bus, pinout); }
        0xDB00 => { pinout = undoc_absolute_y_c0(cpu, bus, pinout); }
        0xDB01 => { pinout = undoc_absolute_y_c1(cpu, bus, pinout); }
        0xDB02 => { pinout = undoc_absolute_y_c2(cpu, bus, pinout); }
        0xDB03 => { pinout = undoc_absolute_y_c3(cpu, bus, pinout); }
        0xDB04 => { pinout = undoc_absolute_y_c4::<B, Dcp>(cpu, bus, pinout); }
        0xDB05 => { pinout = undoc_absolute_y_c5(cpu, bus, pinout); }
        0xDB06 => { pinout = undoc_absolute_y_c6(cpu, bus, pinout); }
        0xDC00 => { pinout = absolute_x_read_c0(cpu, bus, pinout); }
        0xDC01 => { pinout = absolute_x_read_c1(cpu, bus, pinout); }
        0xDC02 => { pinout = absolute_x_read_c2(cpu, bus, pinout); }
        0xDC03 => { pinout = absolute_x_read_c3(cpu, bus, pinout); }
        0xDC04 => { pinout = absolute_x_read_c4::<B, Nop>(cpu, bus, pinout); }
        0xDD00 => { pinout = absolute_x_read_c0(cpu, bus, pinout); }
        0xDD01 => { pinout = absolute_x_read_c1(cpu, bus, pinout); }
        0xDD02 => { pinout = absolute_x_read_c2(cpu, bus, pinout); }
        0xDD03 => { pinout = absolute_x_read_c3(cpu, bus, pinout); }
        0xDD04 => { pinout = absolute_x_read_c4::<B, Cmp>(cpu, bus, pinout); }
        0xDE00 => { pinout = absolute_x_modify_c0(cpu, bus, pinout); }
        0xDE01 => { pinout = absolute_x_modify_c1(cpu, bus, pinout); }
        0xDE02 => { pinout = absolute_x_modify_c2(cpu, bus, pinout); }
        0xDE03 => { pinout = absolute_x_modify_c3(cpu, bus, pinout); }
        0xDE04 => { pinout = absolute_x_modify_c4::<B, Dec>(cpu, bus, pinout); }
        0xDE05 => { pinout = absolute_x_modify_c5(cpu, bus, pinout); }
        0xDE06 => { pinout = absolute_x_modify_c6(cpu, bus, pinout); }
        0xDF00 => { pinout = absolute_x_modify_c0(cpu, bus, pinout); }
        0xDF01 => { pinout = absolute_x_modify_c1(cpu, bus, pinout); }
        0xDF02 => { pinout = absolute_x_modify_c2(cpu, bus, pinout); }
        0xDF03 => { pinout = absolute_x_modify_c3(cpu, bus, pinout); }
        0xDF04 => { pinout = absolute_x_modify_c4::<B, Dcp>(cpu, bus, pinout); }
        0xDF05 => { pinout = absolute_x_modify_c5(cpu, bus, pinout); }
        0xDF06 => { pinout = absolute_x_modify_c6(cpu, bus, pinout); }
        _ => {}
    }
    pinout
}

/// The cpu state after the cycle `code` (opcode 0xE0 to 0xEF, timing
/// state) runs, `r` being the pinout the cycle returns; a code without a
/// cycle leaves the state alone.
#[verifier::opaque]
pub open spec fn spec_cycle_e(cpu: Context, pinout: Pinout, r: Pinout, code: u16) -> Context {
    match code {
        0xE000 => super::operations::spec_immediate_read_c0(cpu, pinout, r),
        0xE001 => super::operations::spec_immediate_read_c1::<Cpx>(cpu, pinout, r),
        0xE100 => super::operations::spec_indirect_x_read_c0(cpu, pinout, r),
        0xE101 => super::operations::spec_indirect_x_read_c1(cpu, pinout, r),
        0xE102 => super::operations::spec_indirect_x_read_c2(cpu, pinout, r),
        0xE103 => super::operations::spec_indirect_x_read_c3(cpu, pinout, r),
        0xE104 => super::operations::spec_indirect_x_read_c4(cpu, pinout, r),
        0xE105 => super::operations::spec_indirect_x_read_c5::<SbcNoDec>(cpu, pinout, r),
        0xE200 => super::operations::spec_immediate_read_c0(cpu, pinout, r),
        0xE201 => super::operations::spec_immediate_read_c1::<Nop>(cpu, pinout, r),
        0xE300 => super::operations::spec_undoc_indirect_x_c0(cpu, pinout, r),
        0xE301 => super::operations::spec_undoc_indirect_x_c1(cpu, pinout, r),
        0xE302 => super::operations::spec_undoc_indirect_x_c2(cpu, pinout, r),
        0xE303 => super::operations::spec_undoc_indirect_x_c3(cpu, pinout, r),
        0xE304 => super::operations::spec_undoc_indirect_x_c4(cpu, pinout, r),
        0xE305 => super::operations::spec_undoc_indirect_x_c5::<Isc>(cpu, pinout, r),
        0xE306 => super::operations::spec_undoc_indirect_x_c6(cpu, pinout, r),
        0xE307 => super::operations::spec_undoc_indirect_x_c7(cpu, pinout, r),
        0xE400 => super::operations::spec_zeropage_read_c0(cpu, pinout, r),
        0xE401 => super::operations::spec_zeropage_read_c1(cpu, pinout, r),
        0xE402 => super::operations::spec_zeropage_read_c2::<Cpx>(cpu, pinout, r),
        0xE500 => super::operations::spec_zeropage_read_c0(cpu, pinout, r),
        0xE501 => super::operations::spec_zeropage_read_c1(cpu, pinout, r),
        0xE502 => super::operations::spec_zeropage_read_c2::<SbcNoDec>(cpu, pinout, r),
        0xE600 => super::operations::spec_zeropage_modify_c0(cpu, pinout, r),
        0xE601 => super::operations::spec_zeropage_modify_c1(cpu, pinout, r),
        0xE602 => super::operations::spec_zeropage_modify_c2::<Inc>(cpu, pinout, r),
        0xE603 => super::operations::spec_zeropage_modify_c3(cpu, pinout, r),
        0xE604 => super::operations::spec_zeropage_modify_c4(cpu, pinout, r),
        0xE700 => super::operations::spec_zeropage_modify_c0(cpu, pinout, r),
        0xE701 => super::operations::spec_zeropage_modify_c1(cpu, pinout, r),
        0xE702 => super::operations::spec_zeropage_modify_c2::<Isc>(cpu, pinout, r),
        0xE703 => super::operations::spec_zeropage_modify_c3(cpu, pinout, r),
        0xE704 => super::operations::spec_zeropage_modify_c4(cpu, pinout, r),
        0xE800 => super::operations::spec_single_byte_c0(cpu, pinout, r),
        0xE801 => super::operations::spec_single_byte_c1::<Inx>(cpu, pinout, r),
        0xE900 => super::operations::spec_immediate_read_c0(cpu, pinout, r),
        0xE901 => super::operations::spec_immediate_read_c1::<SbcNoDec>(cpu, pinout, r),
        0xEA00 => super::operations::spec_single_byte_c0(cpu, pinout, r),
        0xEA01 => super::operations::spec_single_byte_c1::<Nop>(cpu, pinout, r),
        0xEB00 => super::operations::spec_immediate_read_c0(cpu, pinout, r),
        0xEB01 => super::operations::spec_immediate_read_c1::<SbcNoDec>(cpu, pinout, r),
        0xEC00 => super::operations::spec_absolute_read_c0(cpu, pinout, r),
        0xEC01 => super::operations::spec_absolute_read_c1(cpu, pinout, r),
        0xEC02 => super::operations::spec_absolute_read_c2(cpu, pinout, r),
        0xEC03 => super::operations::spec_absolute_read_c3::<Cpx>(cpu, pinout, r),
        0xED00 => super::operations::spec_absolute_read_c0(cpu, pinout, r),
        0xED01 => super::operations::spec_absolute_read_c1(cpu, pinout, r),
        0xED02 => super::operations::spec_absolute_read_c2(cpu, pinout, r),
        0xED03 => super::operations::spec_absolute_read_c3::<SbcNoDec>(cpu, pinout, r),
        0xEE00 => super::operations::spec_absolute_modify_c0(cpu, pinout, r),
        0xEE01 => super::operations::spec_absolute_modify_c1(cpu, pinout, r),
        0xEE02 => super::operations::spec_absolute_modify_c2(cpu, pinout, r),
        0xEE03 => super::operations::spec_absolute_modify_c3::<Inc>(cpu, pinout, r),
        0xEE04 => super::operations::spec_absolute_modify_c4(cpu, pinout, r),
        0xEE05 => super::operations::spec_absolute_modify_c5(cpu, pinout, r),
        0xEF00 => super::operations::spec_absolute_modify_c0(cpu, pinout, r),
        0xEF01 => super::operations::spec_absolute_modify_c1(cpu, pinout, r),
        0xEF02 => super::operations::spec_absolute_modify_c2(cpu, pinout, r),
        0xEF03 => super::operations::spec_absolute_modify_c3::<Isc>(cpu, pinout, r),
        0xEF04 => super::operations::spec_absolute_modify_c4(cpu, pinout, r),
        0xEF05 => super::operations::spec_absolute_modify_c5(cpu, pinout, r),
        _ => cpu,
    }
}

/// The requests the cycle `code` (opcodes 0xE0 to 0xEF) puts on the bus, oldest first.
#[verifier::opaque]
pub open spec fn spec_cycle_requests_e(cpu: Context, pinout: Pinout, code: u16) -> Seq<Pinout> {
    match code {
        0xE000 => super::operations::spec_immediate_read_c0_requests(cpu, pinout),
        0xE001 => super::operations::spec_immediate_read_c1_requests::<Cpx>(cpu, pinout),
        0xE100 => super::operations::spec_indirect_x_read_c0_requests(cpu, pinout),
        0xE101 => super::operations::spec_indirect_x_read_c1_requests(cpu, pinout),
        0xE102 => super::operations::spec_indirect_x_read_c2_requests(cpu, pinout),
        0xE103 => super::operations::spec_indirect_x_read_c3_requests(cpu, pinout),
        0xE104 => super::operations::spec_indirect_x_read_c4_requests(cpu, pinout),
        0xE105 => super::operations::spec_indirect_x_read_c5_requests::<SbcNoDec>(cpu, pinout),
        0xE200 => super::operations::spec_immediate_read_c0_requests(cpu, pinout),
        0xE201 => super::operations::spec_immediate_read_c1_requests::<Nop>(cpu, pinout),
        0xE300 => super::operations::spec_undoc_indirect_x_c0_requests(cpu, pinout),
        0xE301 => super::operations::spec_undoc_indirect_x_c1_requests(cpu, pinout),
        0xE302 => super::operations::spec_undoc_indirect_x_c2_requests(cpu, pinout),
        0xE303 => super::operations::spec_undoc_indirect_x_c3_requests(cpu, pinout),
        0xE304 => super::operations::spec_undoc_indirect_x_c4_requests(cpu, pinout),
        0xE305 => super::operations::spec_undoc_indirect_x_c5_requests::<Isc>(cpu, pinout),
        0xE306 => super::operations::spec_undoc_indirect_x_c6_requests(cpu, pinout),
        0xE307 => super::operations::spec_undoc_indirect_x_c7_requests(cpu, pinout),
        0xE400 => super::operations::spec_zeropage_read_c0_requests(cpu, pinout),
        0xE401 => super::operations::spec_zeropage_read_c1_requests(cpu, pinout),
        0xE402 => super::operations::spec_zeropage_read_c2_requests::<Cpx>(cpu, pinout),
        0xE500 => super::operations::spec_zeropage_read_c0_requests(cpu, pinout),
        0xE501 => super::operations::spec_zeropage_read_c1_requests(cpu, pinout),
        0xE502 => super::operations::spec_zeropage_read_c2_requests::<SbcNoDec>(cpu, pinout),
        0xE600 => super::operations::spec_zeropage_modify_c0_requests(cpu, pinout),
        0xE601 => super::operations::spec_zeropage_modify_c1_requests(cpu, pinout),
        0xE602 => super::operations::spec_zeropage_modify_c2_requests::<Inc>(cpu, pinout),
        0xE603 => super::operations::spec_zeropage_modify_c3_requests(cpu, pinout),
        0xE604 => super::operations::spec_zeropage_modify_c4_requests(cpu, pinout),
        0xE700 => super::operations::spec_zeropage_modify_c0_requests(cpu, pinout),
        0xE701 => super::operations::spec_zeropage_modify_c1_requests(cpu, pinout),
        0xE702 => super::operations::spec_zeropage_modify_c2_requests::<Isc>(cpu, pinout),
        0xE703 => super::operations::spec_zeropage_modify_c3_requests(cpu, pinout),
        0xE704 => super::operations::spec_zeropage_modify_c4_requests(cpu, pinout),
        0xE800 => super::operations::spec_single_byte_c0_requests(cpu, pinout),
        0xE801 => super::operations::spec_single_byte_c1_requests::<Inx>(cpu, pinout),
        0xE900 => super::operations::spec_immediate_read_c0_requests(cpu, pinout),
        0xE901 => super::operations::spec_immediate_read_c1_requests::<SbcNoDec>(cpu, pinout),
        0xEA00 => super::operations::spec_single_byte_c0_requests(cpu, pinout),
        0xEA01 => super::operations::spec_single_byte_c1_requests::<Nop>(cpu, pinout),
        0xEB00 => super::operations::spec_immediate_read_c0_requests(cpu, pinout),
        0xEB01 => super::operations::spec_immediate_read_c1_requests::<SbcNoDec>(cpu, pinout),
        0xEC00 => super::operations::spec_absolute_read_c0_requests(cpu, pinout),
        0xEC01 => super::operations::spec_absolute_read_c1_requests(cpu, pinout),
        0xEC02 => super::operations::spec_absolute_read_c2_requests(cpu, pinout),
        0xEC03 => super::operations::spec_absolute_read_c3_requests::<Cpx>(cpu, pinout),
        0xED00 => super::operations::spec_absolute_read_c0_requests(cpu, pinout),
        0xED01 => super::operations::spec_absolute_read_c1_requests(cpu, pinout),
        0xED02 => super::operations::spec_absolute_read_c2_requests(cpu, pinout),
        0xED03 => super::operations::spec_absolute_read_c3_requests::<SbcNoDec>(cpu, pinout),
        0xEE00 => super::operations::spec_absolute_modify_c0_requests(cpu, pinout),
        0xEE01 => super::operations::spec_absolute_modify_c1_requests(cpu, pinout),
        0xEE02 => super::operations::spec_absolute_modify_c2_requests(cpu, pinout),
        0xEE03 => super::operations::spec_absolute_modify_c3_requests::<Inc>(cpu, pinout),
        0xEE04 => super::operations::spec_absolute_modify_c4_requests(cpu, pinout),
        0xEE05 => super::operations::spec_absolute_modify_c5_requests(cpu, pinout),
        0xEF00 => super::operations::spec_absolute_modify_c0_requests(cpu, pinout),
        0xEF01 => super::operations::spec_absolute_modify_c1_requests(cpu, pinout),
        0xEF02 => super::operations::spec_absolute_modify_c2_requests(cpu, pinout),
        0xEF03 => super::operations::spec_absolute_modify_c3_requests::<Isc>(cpu, pinout),
        0xEF04 => super::operations::spec_absolute_modify_c4_requests(cpu, pinout),
        0xEF05 => super::operations::spec_absolute_modify_c5_requests(cpu, pinout),
        _ => Seq::empty(),
    }
}

/// The cycles of the opcodes 0xE0 to 0xEF.
#[verifier::spinoff_prover]
#[verifier::rlimit(80)]
fn run_cycle_e<B: Bus>(cpu: &mut Context, bus: &mut B, pinout: Pinout, code: u16) -> (r: Pinout)
    requires
        old(bus).ready(),
        code as int == old(cpu).ir.opcode as int * 256 + old(cpu).ir.tm as int,
        spec_valid_ir(old(cpu).ir),
    ensures
        final(bus).ready(),
        final(bus).spec_clock() == old(bus).spec_clock(),
        final(cpu).cycle == old(cpu).cycle,
        final(bus).spec_requests() == old(bus).spec_requests() + spec_cycle_requests_e(*old(cpu), pinout, code),
        *final(cpu) == spec_cycle_e(*old(cpu), pinout, r, code),
        spec_valid_ir(final(cpu).ir),
{
    proof {
        reveal(spec_cycle_requests_e);
        reveal(spec_cycle_e);
    }
    let mut pinout = pinout;
    match code {
        0xE000 => { pinout = immediate_read_c0(cpu, bus, pinout); }
        0xE001 => { pinout = immediate_read_c1::<B, Cpx>(cpu, bus, pinout); }
        0xE100 => { pinout = indirect_x_read_c0(cpu, bus, pinout); }
        0xE101 => { pinout = indirect_x_read_c1(cpu, bus, pinout); }
        0xE102 => { pinout = indirect_x_read_c2(cpu, bus, pinout); }
        0xE103 => { pinout = indirect_x_read_c3(cpu, bus, pinout); }
        0xE104 => { pinout = indirect_x_read_c4(cpu, bus, pinout); }
        0xE105 => { pinout = indirect_x_read_c5::<B, SbcNoDec>(cpu, bus, pinout); }
        0xE200 => { pinout = immediate_read_c0(cpu, bus, pinout); }
        0xE201 => { pinout = immediate_read_c1::<B, Nop>(cpu, bus, pinout); }
        0xE300 => { pinout = undoc_indirect_x_c0(cpu, bus, pinout); }
        0xE301 => { pinout = undoc_indirect_x_c1(cpu, bus, pinout); }
        0xE302 => { pinout = undoc_indirect_x_c2(cpu, bus, pinout); }
        0xE303 => { pinout = undoc_indirect_x_c3(cpu, bus, pinout); }
        0xE304 => { pinout = undoc_indirect_x_c4(cpu, bus, pinout); }
        0xE305 => { pinout = undoc_indirect_x_c5::<B, Isc>(cpu, bus, pinout); }
        0xE306 => { pinout = undoc_indirect_x_c6(cpu, bus, pinout); }
        0xE307 => { pinout = undoc_indirect_x_c7(cpu, bus, pinout); }
        0xE400 => { pinout = zeropage_read_c0(cpu, bus, pinout); }
        0xE401 => { pinout = zeropage_read_c1(cpu, bus, pinout); }
        0xE402 => { pinout = zeropage_read_c2::<B, Cpx>(cpu, bus, pinout); }
        0xE500 => { pinout = zeropage_read_c0(cpu, bus, pinout); }
        0xE501 => { pinout = zeropage_read_c1(cpu, bus, pinout); }
        0xE502 => { pinout = zeropage_read_c2::<B, SbcNoDec>(cpu, bus, pinout); }
        0xE600 => { pinout = zeropage_modify_c0(cpu, bus, pinout); }
        0xE601 => { pinout = zeropage_modify_c1(cpu, bus, pinout); }
        0xE602 => { pinout = zeropage_modify_c2::<B, Inc>(cpu, bus, pinout); }
        0xE603 => { pinout = zeropage_modify_c3(cpu, bus, pinout); }
        0xE604 => { pinout = zeropage_modify_c4(cpu, bus, pinout); }
        0xE700 => { pinout = zeropage_modify_c0(cpu, bus, pinout); }
        0xE701 => { pinout = zeropage_modify_c1(cpu, bus, pinout); }
        0xE702 => { pinout = zeropage_modify_c2::<B, Isc>(cpu, bus, pinout); }
        0xE703 => { pinout = zeropage_modify_c3(cpu, bus, pinout); }
        0xE704 => { pinout = zeropage_modify_c4(cpu, bus, pinout); }
        0xE800 => { pinout = single_byte_c0(cpu, bus, pinout); }
        0xE801 => { pinout = single_byte_c1::<B, Inx>(cpu, bus, pinout); }
        0xE900 => { pinout = immediate_read_c0(cpu, bus, pinout); }
        0xE901 => { pinout = immediate_read_c1::<B, SbcNoDec>(cpu, bus, pinout); }
        0xEA00 => { pinout = single_byte_c0(cpu, bus, pinout); }
        0xEA01 => { pinout = single_byte_c1::<B, Nop>(cpu, bus, pinout); }
        0xEB00 => { pinout = immediate_read_c0(cpu, bus, pinout); }
        0xEB01 => { pinout = immediate_read_c1::<B, SbcNoDec>(cpu, bus, pinout); }
        0xEC00 => { pinout = absolute_read_c0(cpu, bus, pinout); }
        0xEC01 => { pinout = absolute_read_c1(cpu, bus, pinout); }
        0xEC02 => { pinout = absolute_read_c2(cpu, bus, pinout); }
        0xEC03 => { pinout = absolute_read_c3::<B, Cpx>(cpu, bus, pinout); }
        0xED00 => { pinout = absolute_read_c0(cpu, bus, pinout); }
        0xED01 => { pinout = absolute_read_c1(cpu, bus, pinout); }
        0xED02 => { pinout = absolute_read_c2(cpu, bus, pinout); }
        0xED03 => { pinout = absolute_read_c3::<B, SbcNoDec>(cpu, bus, pinout); }
        0xEE00 => { pinout = absolute_modify_c0(cpu, bus, pinout); }
        0xEE01 => { pinout = absolute_modify_c1(cpu, bus, pinout); }
        0xEE02 => { pinout = absolute_modify_c2(cpu, bus, pinout); }
        0xEE03 => { pinout = absolute_modify_c3::<B, Inc>(cpu, bus, pinout); }
        0xEE04 => { pinout = absolute_modify_c4(cpu, bus, pinout); }
        0xEE05 => { pinout = absolute_modify_c5(cpu, bus, pinout); }
        0xEF00 => { pinout = absolute_modify_c0(cpu, bus, pinout); }
        0xEF01 => { pinout = absolute_modify_c1(cpu, bus, pinout); }
        0xEF02 => { pinout = absolute_modify_c2(cpu, bus, pinout); }
        0xEF03 => { pinout = absolute_modify_c3::<B, Isc>(cpu, bus, pinout); }
        0xEF04 => { pinout = absolute_modify_c4(cpu, bus, pinout); }
        0xEF05 => { pinout = absolute_modify_c5(cpu, bus, pinout); }
        _ => {}
    }
    pinout
}

/// The cpu state after the cycle `code` (opcode 0xF0 to 0xFF, timing
/// state) runs, `r` being the pinout the cycle returns; a code without a
/// cycle leaves the state alone.
#[verifier::opaque]
pub open spec fn spec_cycle_f(cpu: Context, pinout: Pinout, r: Pinout, code: u16) -> Context {
    match code {
        0xF000 => super::operations::spec_branch_c0(cpu, pinout, r),
        0xF001 => super::operations::spec_branch_c1::<Beq>(cpu, pinout, r),
        0xF002 => super::operations::spec_branch_c2(cpu, pinout, r),
        0xF003 => super::operations::spec_branch_c3(cpu, pinout, r),
        0xF100 => super::operations::spec_indirect_y_read_c0(cpu, pinout, r),
        0xF101 => super::operations::spec_indirect_y_read_c1(cpu, pinout, r),
        0xF102 => super::operations::spec_indirect_y_read_c2(cpu, pinout, r),
        0xF103 => super::operations::spec_indirect_y_read_c3(cpu, pinout, r),
        0xF104 => super::operations::spec_indirect_y_read_c4(cpu, pinout, r),
        0xF105 => super::operations::spec_indirect_y_read_c5::<SbcNoDec>(cpu, pinout, r),
        0xF200 => super::operations::spec_single_byte_c0(cpu, pinout, r),
        0xF201 => super::operations::spec_single_byte_c1::<Kil>(cpu, pinout, r),
        0xF300 => super::operations::spec_undoc_indirect_y_c0(cpu, pinout, r),
        0xF301 => super::operations::spec_undoc_indirect_y_c1(cpu, pinout, r),
        0xF302 => super::operations::spec_undoc_indirect_y_c2(cpu, pinout, r),
        0xF303 => super::operations::spec_undoc_indirect_y_c3(cpu, pinout, r),
        0xF304 => super::operations::spec_undoc_indirect_y_c4(cpu, pinout, r),
        0xF305 => super::operations::spec_undoc_indirect_y_c5::<Isc>(cpu, pinout, r),
        0xF306 => super::operations::spec_undoc_indirect_y_c6(cpu, pinout, r),
        0xF307 => super::operations::spec_undoc_indirect_y_c7(cpu, pinout, r),
        0xF400 => super::operations::spec_zeropage_x_read_c0(cpu, pinout, r),
        0xF401 => super::operations::spec_zeropage_x_read_c1(cpu, pinout, r),
        0xF402 => super::operations::spec_zeropage_x_read_c2(cpu, pinout, r),
        0xF403 => super::operations::spec_zeropage_x_read_c3::<Nop>(cpu, pinout, r),
        0xF500 => super::operations::spec_zeropage_x_read_c0(cpu, pinout, r),
        0xF501 => super::operations::spec_zeropage_x_read_c1(cpu, pinout, r),
        0xF502 => super::operations::spec_zeropage_x_read_c2(cpu, pinout, r),
        0xF503 => super::operations::spec_zeropage_x_read_c3::<SbcNoDec>(cpu, pinout, r),
        0xF600 => super::operations::spec_zeropage_x_modify_c0(cpu, pinout, r),
        0xF601 => super::operations::spec_zeropage_x_modify_c1(cpu, pinout, r),
        0xF602 => super::operations::spec_zeropage_x_modify_c2(cpu, pinout, r),
        0xF603 => super::operations::spec_zeropage_x_modify_c3::<Inc>(cpu, pinout, r),
        0xF604 => super::operations::spec_zeropage_x_modify_c4(cpu, pinout, r),
        0xF605 => super::operations::spec_zeropage_x_modify_c5(cpu, pinout, r),
        0xF700 => super::operations::spec_zeropage_x_modify_c0(cpu, pinout, r),
        0xF701 => super::operations::spec_zeropage_x_modify_c1(cpu, pinout, r),
        0xF702 => super::operations::spec_zeropage_x_modify_c2(cpu, pinout, r),
        0xF703 => super::operations::spec_zeropage_x_modify_c3::<Isc>(cpu, pinout, r),
        0xF704 => super::operations::spec_zeropage_x_modify_c4(cpu, pinout, r),
        0xF705 => super::operations::spec_zeropage_x_modify_c5(cpu, pinout, r),
        0xF800 => super::operations::spec_single_byte_c0(cpu, pinout, r),
        0xF801 => super::operations::spec_single_byte_c1::<Sed>(cpu, pinout, r),
        0xF900 => super::operations::spec_absolute_y_read_c0(cpu, pinout, r),
        0xF901 => super::operations::spec_absolute_y_read_c1(cpu, pinout, r),
        0xF902 => super::operations::spec_absolute_y_read_c2(cpu, pinout, r),
        0xF903 => super::operations::spec_absolute_y_read_c3(cpu, pinout, r),
        0xF904 => super::operations::spec_absolute_y_read_c4::<SbcNoDec>(cpu, pinout, r),
        0xFA00 => super::operations::spec_single_byte_c0(cpu, pinout, r),
        0xFA01 => super::operations::spec_single_byte_c1::<Nop>(cpu, pinout, r),
        0xFB00 => super::operations::spec_undoc_absolute_y_c0(cpu, pinout, r),
        0xFB01 => super::operations::spec_undoc_absolute_y_c1(cpu, pinout, r),
        0xFB02 => super::operations::spec_undoc_absolute_y_c2(cpu, pinout, r),
        0xFB03 => super::operations::spec_undoc_absolute_y_c3(cpu, pinout, r),
        0xFB04 => super::operations::spec_undoc_absolute_y_c4::<Isc>(cpu, pinout, r),
        0xFB05 => super::operations::spec_undoc_absolute_y_c5(cpu, pinout, r),
        0xFB06 => super::operations::spec_undoc_absolute_y_c6(cpu, pinout, r),
        0xFC00 => super::operations::spec_absolute_x_read_c0(cpu, pinout, r),
        0xFC01 => super::operations::spec_absolute_x_read_c1(cpu, pinout, r),
        0xFC02 => super::operations::spec_absolute_x_read_c2(cpu, pinout, r),
        0xFC03 => super::operations::spec_absolute_x_read_c3(cpu, pinout, r),
        0xFC04 => super::operations::spec_absolute_x_read_c4::<Nop>(cpu, pinout, r),
        0xFD00 => super::operations::spec_absolute_x_read_c0(cpu, pinout, r),
        0xFD01 => super::operations::spec_absolute_x_read_c1(cpu, pinout, r),
        0xFD02 => super::operations::spec_absolute_x_read_c2(cpu, pinout, r),
        0xFD03 => super::operations::spec_absolute_x_read_c3(cpu, pinout, r),
        0xFD04 => super::operations::spec_absolute_x_read_c4::<SbcNoDec>(cpu, pinout, r),
        0xFE00 => super::operations::spec_absolute_x_modify_c0(cpu, pinout, r),
        0xFE01 => super::operations::spec_absolute_x_modify_c1(cpu, pinout, r),
        0xFE02 => super::operations::spec_absolute_x_modify_c2(cpu, pinout, r),
        0xFE03 => super::operations::spec_absolute_x_modify_c3(cpu, pinout, r),
        0xFE04 => super::operations::spec_absolute_x_modify_c4::<Inc>(cpu, pinout, r),
        0xFE05 => super::operations::spec_absolute_x_modify_c5(cpu, pinout, r),
        0xFE06 => super::operations::spec_absolute_x_modify_c6(cpu, pinout, r),
        0xFF00 => super::operations::spec_absolute_x_modify_c0(cpu, pinout, r),
        0xFF01 => super::operations::spec_absolute_x_modify_c1(cpu, pinout, r),
        0xFF02 => super::operations::spec_absolute_x_modify_c2(cpu, pinout, r),
        0xFF03 => super::operations::spec_absolute_x_modify_c3(cpu, pinout, r),
        0xFF04 => super::operations::spec_absolute_x_modify_c4::<Isc>(cpu, pinout, r),
        0xFF05 => super::operations::spec_absolute_x_modify_c5(cpu, pinout, r),
        0xFF06 => super::operations::spec_absolute_x_modify_c6(cpu, pinout, r),
        _ => cpu,
    }
}

/// The requests the cycle `code` (opcodes 0xF0 to 0xFF) puts on the bus, oldest first.
#[verifier::opaque]
pub open spec fn spec_cycle_requests_f(cpu: Context, pinout: Pinout, code: u16) -> Seq<Pinout> {
    match code {
        0xF000 => super::operations::spec_branch_c0_requests(cpu, pinout),
        0xF001 => super::operations::spec_branch_c1_requests::<Beq>(cpu, pinout),
        0xF002 => super::operations::spec_branch_c2_requests(cpu, pinout),
        0xF003 => super::operations::spec_branch_c3_requests(cpu, pinout),
        0xF100 => super::operations::spec_indirect_y_read_c0_requests(cpu, pinout),
        0xF101 => super::operations::spec_indirect_y_read_c1_requests(cpu, pinout),
        0xF102 => super::operations::spec_indirect_y_read_c2_requests(cpu, pinout),
        0xF103 => super::operations::spec_indirect_y_read_c3_requests(cpu, pinout),
        0xF104 => super::operations::spec_indirect_y_read_c4_requests(cpu, pinout),
        0xF105 => super::operations::spec_indirect_y_read_c5_requests::<SbcNoDec>(cpu, pinout),
        0xF200 => super::operations::spec_single_byte_c0_requests(cpu, pinout),
        0xF201 => super::operations::spec_single_byte_c1_requests::<Kil>(cpu, pinout),
        0xF300 => super::operations::spec_undoc_indirect_y_c0_requests(cpu, pinout),
        0xF301 => super::operations::spec_undoc_indirect_y_c1_requests(cpu, pinout),
        0xF302 => super::operations::spec_undoc_indirect_y_c2_requests(cpu, pinout),
        0xF303 => super::operations::spec_undoc_indirect_y_c3_requests(cpu, pinout),
        0xF304 => super::operations::spec_undoc_indirect_y_c4_requests(cpu, pinout),
        0xF305 => super::operations::spec_undoc_indirect_y_c5_requests::<Isc>(cpu, pinout),
        0xF306 => super::operations::spec_undoc_indirect_y_c6_requests(cpu, pinout),
        0xF307 => super::operations::spec_undoc_indirect_y_c7_requests(cpu, pinout),
        0xF400 => super::operations::spec_zeropage_x_read_c0_requests(cpu, pinout),
        0xF401 => super::operations::spec_zeropage_x_read_c1_requests(cpu, pinout),
        0xF402 => super::operations::spec_zeropage_x_read_c2_requests(cpu, pinout),
        0xF403 => super::operations::spec_zeropage_x_read_c3_requests::<Nop>(cpu, pinout),
        0xF500 => super::operations::spec_zeropage_x_read_c0_requests(cpu, pinout),
        0xF501 => super::operations::spec_zeropage_x_read_c1_requests(cpu, pinout),
        0xF502 => super::operations::spec_zeropage_x_read_c2_requests(cpu, pinout),
        0xF503 => super::operations::spec_zeropage_x_read_c3_requests::<SbcNoDec>(cpu, pinout),
        0xF600 => super::operations::spec_zeropage_x_modify_c0_requests(cpu, pinout),
        0xF601 => super::operations::spec_zeropage_x_modify_c1_requests(cpu, pinout),
        0xF602 => super::operations::spec_zeropage_x_modify_c2_requests(cpu, pinout),
        0xF603 => super::operations::spec_zeropage_x_modify_c3_requests::<Inc>(cpu, pinout),
        0xF604 => super::operations::spec_zeropage_x_modify_c4_requests(cpu, pinout),
        0xF605 => super::operations::spec_zeropage_x_modify_c5_requests(cpu, pinout),
        0xF700 => super::operations::spec_zeropage_x_modify_c0_requests(cpu, pinout),
        0xF701 => super::operations::spec_zeropage_x_modify_c1_requests(cpu, pinout),
        0xF702 => super::operations::spec_zeropage_x_modify_c2_requests(cpu, pinout),
        0xF703 => super::operations::spec_zeropage_x_modify_c3_requests::<Isc>(cpu, pinout),
        0xF704 => super::operations::spec_zeropage_x_modify_c4_requests(cpu, pinout),
        0xF705 => super::operations::spec_zeropage_x_modify_c5_requests(cpu, pinout),
        0xF800 => super::operations::spec_single_byte_c0_requests(cpu, pinout),
        0xF801 => super::operations::spec_single_byte_c1_requests::<Sed>(cpu, pinout),
        0xF900 => super::operations::spec_absolute_y_read_c0_requests(cpu, pinout),
        0xF901 => super::operations::spec_absolute_y_read_c1_requests(cpu, pinout),
        0xF902 => super::operations::spec_absolute_y_read_c2_requests(cpu, pinout),
        0xF903 => super::operations::spec_absolute_y_read_c3_requests(cpu, pinout),
        0xF904 => super::operations::spec_absolute_y_read_c4_requests::<SbcNoDec>(cpu, pinout),
        0xFA00 => super::operations::spec_single_byte_c0_requests(cpu, pinout),
        0xFA01 => super::operations::spec_single_byte_c1_requests::<Nop>(cpu, pinout),
        0xFB00 => super::operations::spec_undoc_absolute_y_c0_requests(cpu, pinout),
        0xFB01 => super::operations::spec_undoc_absolute_y_c1_requests(cpu, pinout),
        0xFB02 => super::operations::spec_undoc_absolute_y_c2_requests(cpu, pinout),
        0xFB03 => super::operations::spec_undoc_absolute_y_c3_requests(cpu, pinout),
        0xFB04 => super::operations::spec_undoc_absolute_y_c4_requests::<Isc>(cpu, pinout),
        0xFB05 => super::operations::spec_undoc_absolute_y_c5_requests(cpu, pinout),
        0xFB06 => super::operations::spec_undoc_absolute_y_c6_requests(cpu, pinout),
        0xFC00 => super::operations::spec_absolute_x_read_c0_requests(cpu, pinout),
        0xFC01 => super::operations::spec_absolute_x_read_c1_requests(cpu, pinout),
        0xFC02 => super::operations::spec_absolute_x_read_c2_requests(cpu, pinout),
        0xFC03 => super::operations::spec_absolute_x_read_c3_requests(cpu, pinout),
        0xFC04 => super::operations::spec_absolute_x_read_c4_requests::<Nop>(cpu, pinout),
        0xFD00 => super::operations::spec_absolute_x_read_c0_requests(cpu, pinout),
        0xFD01 => super::operations::spec_absolute_x_read_c1_requests(cpu, pinout),
        0xFD02 => super::operations::spec_absolute_x_read_c2_requests(cpu, pinout),
        0xFD03 => super::operations::spec_absolute_x_read_c3_requests(cpu, pinout),
        0xFD04 => super::operations::spec_absolute_x_read_c4_requests::<SbcNoDec>(cpu, pinout),
        0xFE00 => super::operations::spec_absolute_x_modify_c0_requests(cpu, pinout),
        0xFE01 => super::operations::spec_absolute_x_modify_c1_requests(cpu, pinout),
        0xFE02 => super::operations::spec_absolute_x_modify_c2_requests(cpu, pinout),
        0xFE03 => super::operations::spec_absolute_x_modify_c3_requests(cpu, pinout),
        0xFE04 => super::operations::spec_absolute_x_modify_c4_requests::<Inc>(cpu, pinout),
        0xFE05 => super::operations::spec_absolute_x_modify_c5_requests(cpu, pinout),
        0xFE06 => super::operations::spec_absolute_x_modify_c6_requests(cpu, pinout),
        0xFF00 => super::operations::spec_absolute_x_modify_c0_requests(cpu, pinout),
        0xFF01 => super::operations::spec_absolute_x_modify_c1_requests(cpu, pinout),
        0xFF02 => super::operations::spec_absolute_x_modify_c2_requests(cpu, pinout),
        0xFF03 => super::operations::spec_absolute_x_modify_c3_requests(cpu, pinout),
        0xFF04 => super::operations::spec_absolute_x_modify_c4_requests::<Isc>(cpu, pinout),
        0xFF05 => super::operations::spec_absolute_x_modify_c5_requests(cpu, pinout),
        0xFF06 => super::operations::spec_absolute_x_modify_c6_requests(cpu, pinout),
        _ => Seq::empty(),
    }
}

/// The cycles of the opcodes 0xF0 to 0xFF.
#[verifier::spinoff_prover]
#[verifier::rlimit(80)]
fn run_cycle_f<B: Bus>(cpu: &mut Context, bus: &mut B, pinout: Pinout, code: u16) -> (r: Pinout)
    requires
        old(bus).ready(),
        code as int == old(cpu).ir.opcode as int * 256 + old(cpu).ir.tm as int,
        spec_valid_ir(old(cpu).ir),
    ensures
        final(bus).ready(),
        final(bus).spec_clock() == old(bus).spec_clock(),
        final(cpu).cycle == old(cpu).cycle,
        final(bus).spec_requests() == old(bus).spec_requests() + spec_cycle_requests_f(*old(cpu), pinout, code),
        *final(cpu) == spec_cycle_f(*old(cpu), pinout, r, code),
        spec_valid_ir(final(cpu).ir),
{
    proof {
        reveal(spec_cycle_requests_f);
        reveal(spec_cycle_f);
    }
    let mut pinout = pinout;
    match code {
        0xF000 => { pinout = branch_c0(cpu, bus, pinout); }
        0xF001 => { pinout = branch_c1::<B, Beq>(cpu, bus, pinout); }
        0xF002 => { pinout = branch_c2(cpu, bus, pinout); }
        0xF003 => { pinout = branch_c3(cpu, bus, pinout); }
        0xF100 => { pinout = indirect_y_read_c0(cpu, bus, pinout); }
        0xF101 => { pinout = indirect_y_read_c1(cpu, bus, pinout); }
        0xF102 => { pinout = indirect_y_read_c2(cpu, bus, pinout); }
        0xF103 => { pinout = indirect_y_read_c3(cpu, bus, pinout); }
        0xF104 => { pinout = indirect_y_read_c4(cpu, bus, pinout); }
        0xF105 => { pinout = indirect_y_read_c5::<B, SbcNoDec>(cpu, bus, pinout); }
        0xF200 => { pinout = single_byte_c0(cpu, bus, pinout); }
        0xF201 => { pinout = single_byte_c1::<B, Kil>(cpu, bus, pinout); }
        0xF300 => { pinout = undoc_indirect_y_c0(cpu, bus, pinout); }
        0xF301 => { pinout = undoc_indirect_y_c1(cpu, bus, pinout); }
        0xF302 => { pinout = undoc_indirect_y_c2(cpu, bus, pinout); }
        0xF303 => { pinout = undoc_indirect_y_c3(cpu, bus, pinout); }
        0xF304 => { pinout = undoc_indirect_y_c4(cpu, bus, pinout); }
        0xF305 => { pinout = undoc_indirect_y_c5::<B, Isc>(cpu, bus, pinout); }
        0xF306 => { pinout = undoc_indirect_y_c6(cpu, bus, pinout); }
        0xF307 => { pinout = undoc_indirect_y_c7(cpu, bus, pinout); }
        0xF400 => { pinout = zeropage_x_read_c0(cpu, bus, pinout); }
        0xF401 => { pinout = zeropage_x_read_c1(cpu, bus, pinout); }
        0xF402 => { pinout = zeropage_x_read_c2(cpu, bus, pinout); }
        0xF403 => { pinout = zeropage_x_read_c3::<B, Nop>(cpu, bus, pinout); }
        0xF500 => { pinout = zeropage_x_read_c0(cpu, bus, pinout); }
        0xF501 => { pinout = zeropage_x_read_c1(cpu, bus, pinout); }
        0xF502 => { pinout = zeropage_x_read_c2(cpu, bus, pinout); }
        0xF503 => { pinout = zeropage_x_read_c3::<B, SbcNoDec>(cpu, bus, pinout); }
        0xF600 => { pinout = zeropage_x_modify_c0(cpu, bus, pinout); }
        0xF601 => { pinout = zeropage_x_modify_c1(cpu, bus, pinout); }
        0xF602 => { pinout = zeropage_x_modify_c2(cpu, bus, pinout); }
        0xF603 => { pinout = zeropage_x_modify_c3::<B, Inc>(cpu, bus, pinout); }
        0xF604 => { pinout = zeropage_x_modify_c4(cpu, bus, pinout); }
        0xF605 => { pinout = zeropage_x_modify_c5(cpu, bus, pinout); }
        0xF700 => { pinout = zeropage_x_modify_c0(cpu, bus, pinout); }
        0xF701 => { pinout = zeropage_x_modify_c1(cpu, bus, pinout); }
        0xF702 => { pinout = zeropage_x_modify_c2(cpu, bus, pinout); }
        0xF703 => { pinout = zeropage_x_modify_c3::<B, Isc>(cpu, bus, pinout); }
        0xF704 => { pinout = zeropage_x_modify_c4(cpu, bus, pinout); }
        0xF705 => { pinout = zeropage_x_modify_c5(cpu, bus, pinout); }
        0xF800 => { pinout = single_byte_c0(cpu, bus, pinout); }
        0xF801 => { pinout = single_byte_c1::<B, Sed>(cpu, bus, pinout); }
        0xF900 => { pinout = absolute_y_read_c0(cpu, bus, pinout); }
        0xF901 => { pinout = absolute_y_read_c1(cpu, bus, pinout); }
        0xF902 => { pinout = absolute_y_read_c2(cpu, bus, pinout); }
        0xF903 => { pinout = absolute_y_read_c3(cpu, bus, pinout); }
        0xF904 => { pinout = absolute_y_read_c4::<B, SbcNoDec>(cpu, bus, pinout); }
        0xFA00 => { pinout = single_byte_c0(cpu, bus, pinout); }
        0xFA01 => { pinout = single_byte_c1::<B, Nop>(cpu, bus, pinout); }
        0xFB00 => { pinout = undoc_absolute_y_c0(cpu, bus, pinout); }
        0xFB01 => { pinout = undoc_absolute_y_c1(cpu, bus, pinout); }
        0xFB02 => { pinout = undoc_absolute_y_c2(cpu, bus, pinout); }
        0xFB03 => { pinout = undoc_absolute_y_c3(cpu, bus, pinout); }
        0xFB04 => { pinout = undoc_absolute_y_c4::<B, Isc>(cpu, bus, pinout); }
        0xFB05 => { pinout = undoc_absolute_y_c5(cpu, bus, pinout); }
        0xFB06 => { pinout = undoc_absolute_y_c6(cpu, bus, pinout); }
        0xFC00 => { pinout = absolute_x_read_c0(cpu, bus, pinout); }
        0xFC01 => { pinout = absolute_x_read_c1(cpu, bus, pinout); }
        0xFC02 => { pinout = absolute_x_read_c2(cpu, bus, pinout); }
        0xFC03 => { pinout = absolute_x_read_c3(cpu, bus, pinout); }
        0xFC04 => { pinout = absolute_x_read_c4::<B, Nop>(cpu, bus, pinout); }
        0xFD00 => { pinout = absolute_x_read_c0(cpu, bus, pinout); }
        0xFD01 => { pinout = absolute_x_read_c1(cpu, bus, pinout); }
        0xFD02 => { pinout = absolute_x_read_c2(cpu, bus, pinout); }
        0xFD03 => { pinout = absolute_x_read_c3(cpu, bus, pinout); }
        0xFD04 => { pinout = absolute_x_read_c4::<B, SbcNoDec>(cpu, bus, pinout); }
        0xFE00 => { pinout = absolute_x_modify_c0(cpu, bus, pinout); }
        0xFE01 => { pinout = absolute_x_modify_c1(cpu, bus, pinout); }
        0xFE02 => { pinout = absolute_x_modify_c2(cpu, bus, pinout); }
        0xFE03 => { pinout = absolute_x_modify_c3(cpu, bus, pinout); }
        0xFE04 => { pinout = absolute_x_modify_c4::<B, Inc>(cpu, bus, pinout); }
        0xFE05 => { pinout = absolute_x_modify_c5(cpu, bus, pinout); }
        0xFE06 => { pinout = absolute_x_modify_c6(cpu, bus, pinout); }
        0xFF00 => { pinout = absolute_x_modify_c0(cpu, bus, pinout); }
        0xFF01 => { pinout = absolute_x_modify_c1(cpu, bus, pinout); }
        0xFF02 => { pinout = absolute_x_modify_c2(cpu, bus, pinout); }
        0xFF03 => { pinout = absolute_x_modify_c3(cpu, bus, pinout); }
        0xFF04 => { pinout = absolute_x_modify_c4::<B, Isc>(cpu, bus, pinout); }
        0xFF05 => { pinout = absolute_x_modify_c5(cpu, bus, pinout); }
        0xFF06 => { pinout = absolute_x_modify_c6(cpu, bus, pinout); }
        _ => {}
    }
    pinout
}

/// The cpu state after the cycle `code` runs, dispatched on its opcode's
/// high nibble.
pub open spec fn spec_cycle(cpu: Context, pinout: Pinout, r: Pinout, code: u16) -> Context {
    let hi = code >> 12u16;
    if hi == 0 { spec_cycle_0(cpu, pinout, r, code) }
    else if hi == 1 { spec_cycle_1(cpu, pinout, r, code) }
    else if hi == 2 { spec_cycle_2(cpu, pinout, r, code) }
    else if hi == 3 { spec_cycle_3(cpu, pinout, r, code) }
    else if hi == 4 { spec_cycle_4(cpu, pinout, r, code) }
    else if hi == 5 { spec_cycle_5(cpu, pinout, r, code) }
    else if hi == 6 { spec_cycle_6(cpu, pinout, r, code) }
    else if hi == 7 { spec_cycle_7(cpu, pinout, r, code) }
    else if hi == 8 { spec_cycle_8(cpu, pinout, r, code) }
    else if hi == 9 { spec_cycle_9(cpu, pinout, r, code) }
    else if hi == 10 { spec_cycle_a(cpu, pinout, r, code) }
    else if hi == 11 { spec_cycle_b(cpu, pinout, r, code) }
    else if hi == 12 { spec_cycle_c(cpu, pinout, r, code) }
    else if hi == 13 { spec_cycle_d(cpu, pinout, r, code) }
    else if hi == 14 { spec_cycle_e(cpu, pinout, r, code) }
    else { spec_cycle_f(cpu, pinout, r, code) }
}

/// The requests the cycle `code` puts on the bus, oldest first, dispatched
/// on its opcode's high nibble.
pub open spec fn spec_cycle_requests(cpu: Context, pinout: Pinout, code: u16) -> Seq<Pinout> {
    let hi = code >> 12u16;
    if hi == 0 { spec_cycle_requests_0(cpu, pinout, code) }
    else if hi == 1 { spec_cycle_requests_1(cpu, pinout, code) }
    else if hi == 2 { spec_cycle_requests_2(cpu, pinout, code) }
    else if hi == 3 { spec_cycle_requests_3(cpu, pinout, code) }
    else if hi == 4 { spec_cycle_requests_4(cpu, pinout, code) }
    else if hi == 5 { spec_cycle_requests_5(cpu, pinout, code) }
    else if hi == 6 { spec_cycle_requests_6(cpu, pinout, code) }
    else if hi == 7 { spec_cycle_requests_7(cpu, pinout, code) }
    else if hi == 8 { spec_cycle_requests_8(cpu, pinout, code) }
    else if hi == 9 { spec_cycle_requests_9(cpu, pinout, code) }
    else if hi == 10 { spec_cycle_requests_a(cpu, pinout, code) }
    else if hi == 11 { spec_cycle_requests_b(cpu, pinout, code) }
    else if hi == 12 { spec_cycle_requests_c(cpu, pinout, code) }
    else if hi == 13 { spec_cycle_requests_d(cpu, pinout, code) }
    else if hi == 14 { spec_cycle_requests_e(cpu, pinout, code) }
    else { spec_cycle_requests_f(cpu, pinout, code) }
}

/// The pinout a tick hands back: the input pins NMI, IRQ, RDY and HALT
/// pulled up again.
pub open spec fn spec_pulled_up(p: Pinout) -> Pinout {
    Pinout { ctrl: Ctrl { nmi: true, irq: true, rdy: true, halt: true, ..p.ctrl }, ..p }
}

/// The state a tick leaves from state `c` with pins `pin`, `raw` being
/// what the bus answered: a low NMI pin latched, RW high, the cycle that
/// the instruction register selects, the cycle counter moved on.
pub open spec fn spec_ticked(c: Context, pin: Pinout, raw: Pinout) -> Context {
    let c1 = if !pin.ctrl.nmi { Context { nmi_detected: true, ..c } } else { c };
    let p1 = Pinout { ctrl: Ctrl { rw: true, ..pin.ctrl }, ..pin };
    let s = spec_cycle(c1, p1, raw, c.ir.spec_code());
    Context { cycle: (s.cycle + 1) as u64, ..s }
}

/// The requests a tick from state `c` with pins `pin` puts on the bus.
pub open spec fn spec_tick_requests(c: Context, pin: Pinout) -> Seq<Pinout> {
    let c1 = if !pin.ctrl.nmi { Context { nmi_detected: true, ..c } } else { c };
    let p1 = Pinout { ctrl: Ctrl { rw: true, ..pin.ctrl }, ..pin };
    spec_cycle_requests(c1, p1, c.ir.spec_code())
}

/// The state after ticks from `c` with pins `pin`, the bus answering
/// `raws` in turn (each tick's pins are the last answer, pulled up).
pub open spec fn spec_run(c: Context, pin: Pinout, raws: Seq<Pinout>) -> Context
    decreases raws.len(),
{
    if raws.len() == 0 {
        c
    } else {
        spec_run(spec_ticked(c, pin, raws[0]), spec_pulled_up(raws[0]), raws.drop_first())
    }
}

/// The requests of those ticks, oldest first.
pub open spec fn spec_run_requests(c: Context, pin: Pinout, raws: Seq<Pinout>) -> Seq<Pinout>
    decreases raws.len(),
{
    if raws.len() == 0 {
        Seq::empty()
    } else {
        spec_tick_requests(c, pin) + spec_run_requests(spec_ticked(c, pin, raws[0]), spec_pulled_up(raws[0]), raws.drop_first())
    }
}

/// The address the reset cycle `k` (0 to 7) reads.
pub open spec fn spec_reset_address(k: u8) -> u16 {
    if k <= 2 { 0x00FF } else if k == 3 { 0x0100 } else if k == 4 { 0x01FF } else if k == 5 { 0x01FE } else if k == 6 { 0xFFFC } else { 0xFFFD }
}

/// One tick of the reset sequence, cycle `k`: one read, at the fixed
/// address of the cycle; the last cycle fetches the opcode at the vector.
#[verifier::spinoff_prover]
pub proof fn lemma_reset_step(c: Context, pin: Pinout, raw: Pinout, k: u8)
    requires
        k <= 8,
        c.ir == (InstructionRegister { opcode: 0x00, tm: (RST_TM + k) as u8 }),
        pin.ctrl.nmi,
    ensures
        ({
            let t = spec_ticked(c, pin, raw);
            let rq = spec_tick_requests(c, pin);
            &&& rq.len() == 1
            &&& rq[0].ctrl.rw
            &&& k < 8 ==> t.ir == (InstructionRegister { opcode: 0x00, tm: (RST_TM + k + 1) as u8 })
                && rq[0].address == spec_reset_address(k)
            &&& k == 6 ==> t.ops.adl == raw.data
            &&& k == 7 ==> t.ops.adh == raw.data && t.ops.adl == c.ops.adl
            &&& k == 8 ==> rq[0].address == super::cpu_state::spec_address(c.ops.adh, c.ops.adl) && rq[0].ctrl.sync
                && t.cycle == 8
        }),
{
    reveal(spec_cycle_0);
    reveal(spec_cycle_requests_0);
    let c1 = if !pin.ctrl.nmi { Context { nmi_detected: true, ..c } } else { c };
    let p1 = Pinout { ctrl: Ctrl { rw: true, ..pin.ctrl }, ..pin };
    assert(c1 == c);
    assert(c.ir.spec_code() == 0x0010 + k);
    let code = c.ir.spec_code();
    assert(code <= 0x0018 ==> code >> 12u16 == 0) by (bit_vector);
    if k == 0 {
        assert(spec_cycle_requests_0(c, p1, 0x0010) == super::operations::spec_rst_c0_requests(c, p1));
    } else if k == 1 {
        assert(spec_cycle_requests_0(c, p1, 0x0011) == super::operations::spec_rst_c1_requests(c, p1));
    } else if k == 2 {
        assert(spec_cycle_requests_0(c, p1, 0x0012) == super::operations::spec_rst_c2_requests(c, p1));
    } else if k == 3 {
        assert(spec_cycle_requests_0(c, p1, 0x0013) == super::operations::spec_rst_c3_requests(c, p1));
    } else if k == 4 {
        assert(spec_cycle_requests_0(c, p1, 0x0014) == super::operations::spec_rst_c4_requests(c, p1));
    } else if k == 5 {
        assert(spec_cycle_requests_0(c, p1, 0x0015) == super::operations::spec_rst_c5_requests(c, p1));
    } else if k == 6 {
        assert(spec_cycle_requests_0(c, p1, 0x0016) == super::operations::spec_rst_c6_requests(c, p1));
    } else if k == 7 {
        assert(spec_cycle_requests_0(c, p1, 0x0017) == super::operations::spec_rst_c7_requests(c, p1));
    } else {
        assert(spec_cycle_requests_0(c, p1, 0x0018) == super::operations::spec_rst_c8_requests(c, p1));
    }
}

/// The reset sequence: from the power on state, whatever the bus answers,
/// the nine cycles read $00FF three times, $0100, $01FF and $01FE (the
/// dummy stack reads), the reset vector at $FFFC and $FFFD, and then fetch
/// the first opcode, with SYNC high, at the address the vector holds;
/// nothing is written, and the cycle counter reads 8.
#[verifier::spinoff_prover]
pub proof fn lemma_reset_sequence(raws: Seq<Pinout>)
    requires
        raws.len() == 9,
    ensures
        ({
            let c0 = Context { ir: InstructionRegister { opcode: 0x00, tm: RST_TM }, ..Context::spec_new() };
            let reqs = spec_run_requests(c0, Pinout::spec_new(), raws);
            &&& reqs.len() == 9
            &&& forall|k: int| 0 <= k < 8 ==> #[trigger] reqs[k].address == spec_reset_address(k as u8) && reqs[k].ctrl.rw
            &&& reqs[8].address == super::cpu_state::spec_address(raws[7].data, raws[6].data)
            &&& reqs[8].ctrl.rw && reqs[8].ctrl.sync
            &&& spec_run(c0, Pinout::spec_new(), raws).cycle == 8
        }),
{
    let c0 = Context { ir: InstructionRegister { opcode: 0x00, tm: RST_TM }, ..Context::spec_new() };
    let p0 = Pinout::spec_new();
    lemma_reset_step(c0, p0, raws[0], 0);
    let c1 = spec_ticked(c0, p0, raws[0]);
    let p1 = spec_pulled_up(raws[0]);
    let q0 = spec_tick_requests(c0, p0);
    lemma_reset_step(c1, p1, raws[1], 1);
    let c2 = spec_ticked(c1, p1, raws[1]);
    let p2 = spec_pulled_up(raws[1]);
    let q1 = spec_tick_requests(c1, p1);
    lemma_reset_step(c2, p2, raws[2], 2);
    let c3 = spec_ticked(c2, p2, raws[2]);
    let p3 = spec_pulled_up(raws[2]);
    let q2 = spec_tick_requests(c2, p2);
    lemma_reset_step(c3, p3, raws[3], 3);
    let c4 = spec_ticked(c3, p3, raws[3]);
    let p4 = spec_pulled_up(raws[3]);
    let q3 = spec_tick_requests(c3, p3);
    lemma_reset_step(c4, p4, raws[4], 4);
    let c5 = spec_ticked(c4, p4, raws[4]);
    let p5 = spec_pulled_up(raws[4]);
    let q4 = spec_tick_requests(c4, p4);
    lemma_reset_step(c5, p5, raws[5], 5);
    let c6 = spec_ticked(c5, p5, raws[5]);
    let p6 = spec_pulled_up(raws[5]);
    let q5 = spec_tick_requests(c5, p5);
    lemma_reset_step(c6, p6, raws[6], 6);
    let c7 = spec_ticked(c6, p6, raws[6]);
    let p7 = spec_pulled_up(raws[6]);
    let q6 = spec_tick_requests(c6, p6);
    lemma_reset_step(c7, p7, raws[7], 7);
    let c8 = spec_ticked(c7, p7, raws[7]);
    let p8 = spec_pulled_up(raws[7]);
    let q7 = spec_tick_requests(c7, p7);
    lemma_reset_step(c8, p8, raws[8], 8);
    let c9 = spec_ticked(c8, p8, raws[8]);
    let p9 = spec_pulled_up(raws[8]);
    let q8 = spec_tick_requests(c8, p8);
    // the run, unfolded one tick at a time
    assert(raws.subrange(0, 9).drop_first() =~= raws.subrange(1, 9));
    assert(raws.subrange(0, 9)[0] == raws[0]);
    assert(raws.subrange(1, 9).drop_first() =~= raws.subrange(2, 9));
    assert(raws.subrange(1, 9)[0] == raws[1]);
    assert(raws.subrange(2, 9).drop_first() =~= raws.subrange(3, 9));
    assert(raws.subrange(2, 9)[0] == raws[2]);
    assert(raws.subrange(3, 9).drop_first() =~= raws.subrange(4, 9));
    assert(raws.subrange(3, 9)[0] == raws[3]);
    assert(raws.subrange(4, 9).drop_first() =~= raws.subrange(5, 9));
    assert(raws.subrange(4, 9)[0] == raws[4]);
    assert(raws.subrange(5, 9).drop_first() =~= raws.subrange(6, 9));
    assert(raws.subrange(5, 9)[0] == raws[5]);
    assert(raws.subrange(6, 9).drop_first() =~= raws.subrange(7, 9));
    assert(raws.subrange(6, 9)[0] == raws[6]);
    assert(raws.subrange(7, 9).drop_first() =~= raws.subrange(8, 9));
    assert(raws.subrange(7, 9)[0] == raws[7]);
    assert(raws.subrange(8, 9).drop_first() =~= raws.subrange(9, 9));
    assert(raws.subrange(8, 9)[0] == raws[8]);
    assert(raws.subrange(0, 9) =~= raws);
    assert(spec_run_requests(c9, p9, raws.subrange(9, 9)) =~= Seq::<Pinout>::empty());
    assert(spec_run(c9, p9, raws.subrange(9, 9)) == c9);
    assert(spec_run(c8, p8, raws.subrange(8, 9)) == c9);
    assert(spec_run_requests(c8, p8, raws.subrange(8, 9)) == q8 + spec_run_requests(c9, p9, raws.subrange(9, 9)));
    assert(spec_run(c7, p7, raws.subrange(7, 9)) == c9);
    assert(spec_run_requests(c7, p7, raws.subrange(7, 9)) == q7 + spec_run_requests(c8, p8, raws.subrange(8, 9)));
    assert(spec_run(c6, p6, raws.subrange(6, 9)) == c9);
    assert(spec_run_requests(c6, p6, raws.subrange(6, 9)) == q6 + spec_run_requests(c7, p7, raws.subrange(7, 9)));
    assert(spec_run(c5, p5, raws.subrange(5, 9)) == c9);
    assert(spec_run_requests(c5, p5, raws.subrange(5, 9)) == q5 + spec_run_requests(c6, p6, raws.subrange(6, 9)));
    assert(spec_run(c4, p4, raws.subrange(4, 9)) == c9);
    assert(spec_run_requests(c4, p4, raws.subrange(4, 9)) == q4 + spec_run_requests(c5, p5, raws.subrange(5, 9)));
    assert(spec_run(c3, p3, raws.subrange(3, 9)) == c9);
    assert(spec_run_requests(c3, p3, raws.subrange(3, 9)) == q3 + spec_run_requests(c4, p4, raws.subrange(4, 9)));
    assert(spec_run(c2, p2, raws.subrange(2, 9)) == c9);
    assert(spec_run_requests(c2, p2, raws.subrange(2, 9)) == q2 + spec_run_requests(c3, p3, raws.subrange(3, 9)));
    assert(spec_run(c1, p1, raws.subrange(1, 9)) == c9);
    assert(spec_run_requests(c1, p1, raws.subrange(1, 9)) == q1 + spec_run_requests(c2, p2, raws.subrange(2, 9)));
    assert(spec_run(c0, p0, raws.subrange(0, 9)) == c9);
    assert(spec_run_requests(c0, p0, raws.subrange(0, 9)) == q0 + spec_run_requests(c1, p1, raws.subrange(1, 9)));
    assert(spec_run_requests(c0, p0, raws) =~= seq![q0[0], q1[0], q2[0], q3[0], q4[0], q5[0], q6[0], q7[0], q8[0]]);
}

/// The RP2A03 cpu.
pub struct Rp2a03 {
    cpu: Context,
}

impl Rp2a03 {
    pub closed spec fn spec_cpu(&self) -> Context {
        self.cpu
    }

    /// A cpu at power on, about to run its reset sequence; and the pinout
    /// it starts with.
    pub fn from_power_on() -> (r: (Rp2a03, Pinout))
        ensures
            r.0.spec_cpu() == (Context { ir: InstructionRegister { opcode: 0x00, tm: RST_TM }, ..Context::spec_new() }),
            r.1 == Pinout::spec_new(),
    {
        let mut cpu_context = Context::new();
        cpu_context.ir.opcode = 0x00;
        cpu_context.ir.tm = 0x10;

        let cpu = Rp2a03 { cpu: cpu_context };
        let cpu_pinout = Pinout::new();

        (cpu, cpu_pinout)
    }

    /// The internal state, for tracing.
    pub fn context(&self) -> (r: Context)
        ensures r == self.spec_cpu(),
    {
        self.cpu
    }

    /// Whether the next cycle is one `tick` can run.
    pub fn is_valid_state(&self) -> (r: bool)
        ensures r == spec_valid_ir(self.spec_cpu().ir),
    {
        let ir = self.cpu.ir;
        if ir.opcode == 0x00 {
            ir.tm <= 0x06 || (0x10 <= ir.tm && ir.tm <= 0x18) || (0x20 <= ir.tm && ir.tm <= 0x26) || (0x30 <= ir.tm && ir.tm <= 0x36)
        } else {
            ir.tm < cycle_count(ir.opcode)
        }
    }

    /// Runs one cpu cycle.
    ///
    /// A low NMI pin is latched as a pending NMI, RW defaults high, then the
    /// cycle selected by the instruction register runs. Afterwards the input
    /// pins NMI, IRQ, RDY and HALT are pulled up again: a device must assert
    /// them on every cycle it wants them active. The next cycle is again one
    /// the decoder knows, so a CPU started at power on or reset can be
    /// ticked for ever (as long as the cycle counter lasts). The state after
    /// the tick is the one `spec_cycle` gives for the cycle the instruction
    /// register selects, with the cycle counter moved on.
    #[verifier::spinoff_prover]
    #[verifier::rlimit(40)]
    pub fn tick<B: Bus>(&mut self, bus: &mut B, pinout: Pinout) -> (r: Pinout)
        requires
            old(bus).ready(),
            spec_valid_ir(old(self).spec_cpu().ir),
            old(self).spec_cpu().cycle < u64::MAX,
        ensures
            final(bus).ready(),
            final(bus).spec_clock() == old(bus).spec_clock(),
            r.ctrl.nmi && r.ctrl.irq && r.ctrl.rdy && r.ctrl.halt,
            spec_valid_ir(final(self).spec_cpu().ir),
            final(self).spec_cpu().cycle == (if old(self).spec_cpu().ir == (InstructionRegister { opcode: 0x00, tm: 0x18 }) {
                8
            } else {
                old(self).spec_cpu().cycle + 1
            }),
            ({
                let c0 = old(self).spec_cpu();
                // a low NMI pin is latched, RW defaults to read
                let c1 = if !pinout.ctrl.nmi { Context { nmi_detected: true, ..c0 } } else { c0 };
                let p1 = Pinout { ctrl: Ctrl { rw: true, ..pinout.ctrl }, ..pinout };
                &&& exists|raw: Pinout| #[trigger] spec_pulled_up(raw) == r && {
                    let s = spec_cycle(c1, p1, raw, c0.ir.spec_code());
                    final(self).spec_cpu() == Context { cycle: (s.cycle + 1) as u64, ..s }
                }
                // the requests the cycle put on the bus
                &&& final(bus).spec_requests() == old(bus).spec_requests() + spec_cycle_requests(c1, p1, c0.ir.spec_code())
            }),
    {
        let mut pinout = pinout;
        //default RW pin to 1
        pinout.ctrl.set(Ctrl::RW(), true);

        if pinout.ctrl.contains(Ctrl::NMI()) == false {
            self.cpu.nmi_detected = true;
        }
        let code = self.cpu.ir.code();
        let ghost ir = self.cpu.ir;
        assert(code as int == ir.opcode as int * 256 + ir.tm as int);
        assert((code == 0x0018) == (ir == (InstructionRegister { opcode: 0x00, tm: 0x18 })));
        assert(code == 0x0018 ==> code >> 12 == 0) by (bit_vector);
        assert(code >> 12 <= 15) by (bit_vector);
        let ghost c1 = self.cpu;
        let ghost p1 = pinout;
        match code >> 12 {
            0x0 => { pinout = run_cycle_0(&mut self.cpu, bus, pinout, code); }
            0x1 => { pinout = run_cycle_1(&mut self.cpu, bus, pinout, code); }
            0x2 => { pinout = run_cycle_2(&mut self.cpu, bus, pinout, code); }
            0x3 => { pinout = run_cycle_3(&mut self.cpu, bus, pinout, code); }
            0x4 => { pinout = run_cycle_4(&mut self.cpu, bus, pinout, code); }
            0x5 => { pinout = run_cycle_5(&mut self.cpu, bus, pinout, code); }
            0x6 => { pinout = run_cycle_6(&mut self.cpu, bus, pinout, code); }
            0x7 => { pinout = run_cycle_7(&mut self.cpu, bus, pinout, code); }
            0x8 => { pinout = run_cycle_8(&mut self.cpu, bus, pinout, code); }
            0x9 => { pinout = run_cycle_9(&mut self.cpu, bus, pinout, code); }
            0xA => { pinout = run_cycle_a(&mut self.cpu, bus, pinout, code); }
            0xB => { pinout = run_cycle_b(&mut self.cpu, bus, pinout, code); }
            0xC => { pinout = run_cycle_c(&mut self.cpu, bus, pinout, code); }
            0xD => { pinout = run_cycle_d(&mut self.cpu, bus, pinout, code); }
            0xE => { pinout = run_cycle_e(&mut self.cpu, bus, pinout, code); }
            0xF => { pinout = run_cycle_f(&mut self.cpu, bus, pinout, code); }
            _ => {}
        }
        let ghost raw = pinout;
        assert(self.cpu == spec_cycle(c1, p1, raw, code));
        assert(bus.spec_requests() == old(bus).spec_requests() + spec_cycle_requests(c1, p1, code));

        // "pull up" input pins. these must be asserted every cycle they wish to remain active
        pinout.ctrl.set(Ctrl::NMI(), true);
        pinout.ctrl.set(Ctrl::IRQ(), true);
        pinout.ctrl.set(Ctrl::RDY(), true);
        pinout.ctrl.set(Ctrl::HALT(), true);

        self.cpu.cycle = self.cpu.cycle + 1;
        assert(spec_pulled_up(raw) == pinout);
        pinout
    }

    pub fn cycle_count(&self) -> (r: u64)
        ensures r == self.spec_cpu().cycle,
    {
        self.cpu.cycle
    }

    /// Back to the power on state, about to run the reset sequence.
    pub fn reset(&mut self)
        ensures
            final(self).spec_cpu() == (Context { ir: InstructionRegister { opcode: 0x00, tm: RST_TM }, ..Context::spec_new() }),
    {
        self.cpu = Context::new();

        self.cpu.ir.opcode = 0x00;
        self.cpu.ir.tm = 0x10;
    }

    /// The mnemonic of the instruction being executed.
    pub fn mnemonic_lookup(&self) -> (r: &'static str)
        requires
            spec_valid_ir(self.spec_cpu().ir),
        ensures
            r == spec_mnemonic(self.spec_cpu().ir.opcode, self.spec_cpu().ir.tm),
    {
        opcode_to_mnemonic(self.cpu.ir.opcode, self.cpu.ir.tm)
    }
}

} // verus!
