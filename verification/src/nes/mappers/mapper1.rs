//! MMC1 (mapper 1): registers loaded one bit at a time through a serial
//! shift register; switchable PRG and CHR banks and mirroring.

use vstd::prelude::*;
use crate::mos;
use crate::nes::ppu;
use crate::nes::paging::{AddressMapper, SIZE_4K, SIZE_8K, SIZE_16K, SIZE_32K};
use crate::nes::rom::{RomImage, NametableMirroring};
use super::{
    Context, Mapper, set_nametable_from_mirroring_type, set_nametable_single_screen_lower,
    set_nametable_single_screen_upper, set_nametable_vertical, set_nametable_horizontal,
    spec_nametable_layout,
};
use super::mapper_nrom::{copy_bytes, spec_zeros, spec_single_8k_pages, spec_mirroring_layout};

verus! {

#[derive(Debug, Clone, Copy, PartialEq, Eq, Structural)]
pub enum PrgBankMode {
    /// One 32 KB bank at $8000.
    Switch32K,
    /// First bank fixed at $8000, 16 KB bank switched at $C000.
    FixFirst,
    /// 16 KB bank switched at $8000, last bank fixed at $C000.
    FixLast,
}

#[derive(Debug, Clone, Copy, PartialEq, Eq, Structural)]
pub enum ChrBankMode {
    /// One 8 KB bank.
    Switch8K,
    /// Two 4 KB banks.
    Switch4K,
}

pub struct Mapper1 {
    pub context: Context,
    pub prg_bank_mode: PrgBankMode,
    pub chr_bank_mode: ChrBankMode,
    pub shift_register: u8,
    pub shift_count: u8,
    pub cpu_cycle: u64,
    pub last_write_cpu_cycle: u64,
    pub ram_enable: bool,
    pub uses_chr_ram: bool,
}

/// The PRG banking mode of control register bits 2 and 3.
pub open spec fn spec_prg_mode(data: u8) -> PrgBankMode {
    let m = (data & 0x0C) >> 2u8;
    if m == 2 {
        PrgBankMode::FixFirst
    } else if m == 3 {
        PrgBankMode::FixLast
    } else {
        PrgBankMode::Switch32K
    }
}

/// The CHR banking mode of control register bit 4.
pub open spec fn spec_chr_mode(data: u8) -> ChrBankMode {
    if (data & 0x10) >> 4u8 == 1 {
        ChrBankMode::Switch4K
    } else {
        ChrBankMode::Switch8K
    }
}

/// The nametable layout of control register bits 0 and 1.
pub open spec fn spec_ctrl_mirroring(pages: Seq<crate::nes::paging::Bank>, data: u8) -> bool {
    let m = data & 0x03;
    if m == 0 {
        spec_nametable_layout(pages, 0, 0, 0, 0)
    } else if m == 1 {
        spec_nametable_layout(pages, 1, 1, 1, 1)
    } else if m == 2 {
        spec_nametable_layout(pages, 0, 1, 0, 1)
    } else {
        spec_nametable_layout(pages, 0, 0, 1, 1)
    }
}

/// Which of the four registers a write to `address` reaches.
pub open spec fn spec_reg_index(address: u16) -> u8 {
    (((address & 0x6000) >> 13u16) as u8) & 0x0F
}

/// What loading `v` into MMC1 register `reg` does: 0 control (mirroring and
/// banking modes), 1 and 2 the CHR banks, 3 the PRG bank and the work RAM
/// enable. Everything else on the board stays.
pub open spec fn spec_register_written(a: Mapper1, b: Mapper1, reg: u8, v: u8) -> bool {
    &&& b.uses_chr_ram == a.uses_chr_ram
    &&& reg == 0 ==> {
        &&& spec_ctrl_mirroring(b.context.spec_nt_pages(), v)
        &&& Context::spec_same_except_nt(a.context, b.context)
        &&& b.prg_bank_mode == spec_prg_mode(v)
        &&& b.chr_bank_mode == spec_chr_mode(v)
        &&& b.ram_enable == a.ram_enable
    }
    &&& reg == 1 ==> {
        &&& b.context.spec_chr_pages() == (match a.chr_bank_mode {
            ChrBankMode::Switch8K => AddressMapper::<8>::spec_with_region(
                a.context.spec_chr_pages(), 0, (v >> 1u8) as usize, SIZE_8K),
            ChrBankMode::Switch4K => AddressMapper::<8>::spec_with_region(
                a.context.spec_chr_pages(), 0, v as usize, SIZE_4K),
        })
        &&& Context::spec_same_except_chr_pages(a.context, b.context)
        &&& b.chr_bank_mode == a.chr_bank_mode && b.prg_bank_mode == a.prg_bank_mode
        &&& b.ram_enable == a.ram_enable
    }
    &&& reg == 2 ==> {
        &&& b.context.spec_chr_pages() == (match a.chr_bank_mode {
            ChrBankMode::Switch8K => a.context.spec_chr_pages(),
            ChrBankMode::Switch4K => AddressMapper::<8>::spec_with_region(
                a.context.spec_chr_pages(), 1, v as usize, SIZE_4K),
        })
        &&& Context::spec_same_except_chr_pages(a.context, b.context)
        &&& b.chr_bank_mode == a.chr_bank_mode && b.prg_bank_mode == a.prg_bank_mode
        &&& b.ram_enable == a.ram_enable
    }
    &&& reg >= 3 ==> {
        let bank = (v & 0x0F) as usize;
        let pages = a.context.spec_prg_pages();
        let len = a.context.spec_prg_rom().len();
        &&& b.context.spec_prg_pages() == (match a.prg_bank_mode {
            PrgBankMode::Switch32K => AddressMapper::<32>::spec_with_region(pages, 0, bank >> 1usize, SIZE_32K),
            PrgBankMode::FixFirst => AddressMapper::<32>::spec_with_region(
                AddressMapper::<32>::spec_with_region(pages, 0, 0, SIZE_16K), 1, bank, SIZE_16K),
            PrgBankMode::FixLast => {
                let p1 = AddressMapper::<32>::spec_with_region(pages, 0, bank, SIZE_16K);
                if len >= SIZE_16K {
                    AddressMapper::<32>::spec_with_region(p1, 1, (len as int / SIZE_16K as int - 1) as usize, SIZE_16K)
                } else {
                    p1
                }
            },
        })
        &&& Context::spec_same_except_prg_pages(a.context, b.context)
        &&& b.ram_enable == (a.ram_enable || v & 0x10 == 0x10)
        &&& b.chr_bank_mode == a.chr_bank_mode && b.prg_bank_mode == a.prg_bank_mode
    }
}

/// A CPU write of `data` to $8000-$FFFF at `address`: bit 7 clears the
/// shift register; otherwise bit 0 is shifted in, and the fifth bit loads
/// the register `address` selects and empties the shift register.
pub open spec fn spec_shift_write(a: Mapper1, b: Mapper1, address: u16, data: u8) -> bool {
    let reset = (data & 0x80) > 0;
    let sr = if reset { 0u8 } else { ((a.shift_register << 1u8) | (data & 0x01)) as u8 };
    let sc = if reset { 0u8 } else { a.shift_count.wrapping_add(1) };
    &&& b.cpu_cycle == a.cpu_cycle
    &&& b.last_write_cpu_cycle == a.last_write_cpu_cycle
    &&& sc != 5 ==> b == (Mapper1 { shift_register: sr, shift_count: sc, ..a })
    &&& sc == 5 ==> b.shift_register == 0 && b.shift_count == 0
        && spec_register_written(a, b, spec_reg_index(address), sr)
}

/// The value five serial writes load: bit 0 of each write, the first write
/// ending up in bit 4.
pub open spec fn spec_serial_value(d0: u8, d1: u8, d2: u8, d3: u8, d4: u8) -> u8 {
    (((d0 & 1) << 4u8) | ((d1 & 1) << 3u8) | ((d2 & 1) << 2u8) | ((d3 & 1) << 1u8) | (d4 & 1)) as u8
}

/// Five writes with bit 7 clear, into an empty shift register, load the
/// register selected by the address of the fifth write with the bits of the
/// five writes, and leave the shift register empty; the first four change
/// nothing but the shift register.
pub proof fn lemma_five_writes_load(
    m0: Mapper1, m1: Mapper1, m2: Mapper1, m3: Mapper1, m4: Mapper1, m5: Mapper1,
    a0: u16, a1: u16, a2: u16, a3: u16, a4: u16,
    d0: u8, d1: u8, d2: u8, d3: u8, d4: u8,
)
    requires
        m0.shift_register == 0,
        m0.shift_count == 0,
        d0 & 0x80 == 0 && d1 & 0x80 == 0 && d2 & 0x80 == 0 && d3 & 0x80 == 0 && d4 & 0x80 == 0,
        spec_shift_write(m0, m1, a0, d0),
        spec_shift_write(m1, m2, a1, d1),
        spec_shift_write(m2, m3, a2, d2),
        spec_shift_write(m3, m4, a3, d3),
        spec_shift_write(m4, m5, a4, d4),
    ensures
        m4 == (Mapper1 { shift_register: m4.shift_register, shift_count: 4, ..m0 }),
        spec_register_written(m4, m5, spec_reg_index(a4), spec_serial_value(d0, d1, d2, d3, d4)),
        m5.shift_register == 0,
        m5.shift_count == 0,
{
    let s1 = m1.shift_register;
    let s2 = m2.shift_register;
    let s3 = m3.shift_register;
    let s4 = m4.shift_register;
    assert(s1 == (((0u8 << 1u8) | (d0 & 0x01)) as u8));
    assert(s2 == (((s1 << 1u8) | (d1 & 0x01)) as u8));
    assert(s3 == (((s2 << 1u8) | (d2 & 0x01)) as u8));
    assert(s4 == (((s3 << 1u8) | (d3 & 0x01)) as u8));
    assert((((s4 << 1u8) | (d4 & 0x01)) as u8) == spec_serial_value(d0, d1, d2, d3, d4)) by (bit_vector)
        requires
            s1 == (((0u8 << 1u8) | (d0 & 0x01)) as u8),
            s2 == (((s1 << 1u8) | (d1 & 0x01)) as u8),
            s3 == (((s2 << 1u8) | (d2 & 0x01)) as u8),
            s4 == (((s3 << 1u8) | (d3 & 0x01)) as u8),
    ;
}

impl Mapper1 {
    pub fn new() -> (r: Mapper1)
        ensures
            Context::spec_is_power_on(r.context),
            r.prg_bank_mode == PrgBankMode::FixLast,
            r.chr_bank_mode == ChrBankMode::Switch8K,
            r.shift_register == 0,
            r.shift_count == 0,
            r.cpu_cycle == 0,
            r.last_write_cpu_cycle == 0,
            !r.ram_enable,
            !r.uses_chr_ram,
    {
        Mapper1 {
            context: Context::new(),
            prg_bank_mode: PrgBankMode::FixLast,
            chr_bank_mode: ChrBankMode::Switch8K,
            shift_register: 0,
            shift_count: 0,
            cpu_cycle: 0,
            last_write_cpu_cycle: 0,
            ram_enable: false,
            uses_chr_ram: false,
        }
    }

    /// The MMC1 board of a ROM image at power on.
    pub fn from_ines(rom: &RomImage) -> (r: Mapper1)
        requires
            rom.prg_data@.len() >= SIZE_16K,
            rom.nametable_mirroring != NametableMirroring::Other,
        ensures
            r.context.spec_prg_rom() == rom.prg_data@,
            rom.chr_data@.len() == 0 ==> r.context.spec_chr() == spec_zeros(SIZE_8K as nat) && r.uses_chr_ram,
            rom.chr_data@.len() != 0 ==> r.context.spec_chr() == rom.chr_data@ && !r.uses_chr_ram,
            r.context.spec_prg_pages() == AddressMapper::<32>::spec_with_region(
                AddressMapper::<32>::spec_with_region(AddressMapper::<32>::spec_identity_pages(), 0, 0, SIZE_16K),
                0, (rom.prg_data@.len() as int / SIZE_16K as int - 1) as usize, SIZE_16K),
            r.context.spec_chr_pages() == spec_single_8k_pages(),
            r.context.spec_wram_pages() == spec_single_8k_pages(),
            spec_mirroring_layout(r.context.spec_nt_pages(), rom.nametable_mirroring),
            r.prg_bank_mode == PrgBankMode::FixLast,
            r.chr_bank_mode == ChrBankMode::Switch8K,
            r.shift_register == 0 && r.shift_count == 0,
            !r.ram_enable,
    {
        let mut mapper1 = Mapper1::new();

        mapper1.context.set_prg_rom(copy_bytes(&rom.prg_data));
        mapper1.context.set_chr(copy_bytes(&rom.chr_data));
        if mapper1.context.chr_len() == 0 {
            // chr ram
            mapper1.context.set_chr(vec![0; SIZE_8K]);
            mapper1.uses_chr_ram = true;
        }

        let ghost c0 = mapper1.context;
        mapper1.context.set_prg_region(0, 0, SIZE_16K);
        let ghost c1 = mapper1.context;
        proof { Context::lemma_same_except_prg_pages(c0, c1); }
        let prg_len = mapper1.context.prg_rom_len();
        proof {
            vstd::arithmetic::div_mod::lemma_div_is_ordered(SIZE_16K as int, prg_len as int, SIZE_16K as int);
        }
        mapper1.context.set_prg_region(0, prg_len / SIZE_16K - 1, SIZE_16K);
        proof { Context::lemma_same_except_prg_pages(c1, mapper1.context); }
        mapper1.context.set_wram_region(0, 0, SIZE_8K);
        let ghost c2 = mapper1.context;
        mapper1.context.set_chr_region(0, 0, SIZE_8K);
        proof { Context::lemma_same_except_chr_pages(c2, mapper1.context); }
        let ghost c3 = mapper1.context;
        set_nametable_from_mirroring_type(&mut mapper1.context, rom.nametable_mirroring);
        proof { Context::lemma_same_except_nt(c3, mapper1.context); }

        mapper1
    }

    pub fn clear_shift(&mut self)
        ensures
            *final(self) == (Mapper1 { shift_register: 0, shift_count: 0, ..*old(self) }),
    {
        self.shift_register = 0;
        self.shift_count = 0;
    }

    /// The control register: mirroring, PRG banking mode, CHR banking mode.
    pub fn ctrl_handler(&mut self, data: u8)
        ensures
            spec_ctrl_mirroring(final(self).context.spec_nt_pages(), data),
            Context::spec_same_except_nt(old(self).context, final(self).context),
            final(self).prg_bank_mode == spec_prg_mode(data),
            final(self).chr_bank_mode == spec_chr_mode(data),
            final(self).shift_register == old(self).shift_register,
            final(self).shift_count == old(self).shift_count,
            final(self).cpu_cycle == old(self).cpu_cycle,
            final(self).last_write_cpu_cycle == old(self).last_write_cpu_cycle,
            final(self).ram_enable == old(self).ram_enable,
            final(self).uses_chr_ram == old(self).uses_chr_ram,
    {
        let m = data & 0x03;
        assert(data & 0x03 <= 3) by (bit_vector);
        if m == 0 {
            set_nametable_single_screen_lower(&mut self.context);
        } else if m == 1 {
            set_nametable_single_screen_upper(&mut self.context);
        } else if m == 2 {
            set_nametable_vertical(&mut self.context);
        } else {
            set_nametable_horizontal(&mut self.context);
        }

        let p = (data & 0x0C) >> 2;
        if p == 2 {
            self.prg_bank_mode = PrgBankMode::FixFirst;
        } else if p == 3 {
            self.prg_bank_mode = PrgBankMode::FixLast;
        } else {
            self.prg_bank_mode = PrgBankMode::Switch32K;
        }

        if (data & 0x10) >> 4 == 1 {
            self.chr_bank_mode = ChrBankMode::Switch4K;
        } else {
            self.chr_bank_mode = ChrBankMode::Switch8K;
        }
    }

    /// CHR bank 0: an 8 KB bank (low bit ignored) or the 4 KB bank at $0000.
    pub fn chr_bank0_handler(&mut self, data: u8)
        ensures
            final(self).context.spec_chr_pages() == (match old(self).chr_bank_mode {
                ChrBankMode::Switch8K => AddressMapper::<8>::spec_with_region(
                    old(self).context.spec_chr_pages(), 0, (data >> 1u8) as usize, SIZE_8K),
                ChrBankMode::Switch4K => AddressMapper::<8>::spec_with_region(
                    old(self).context.spec_chr_pages(), 0, data as usize, SIZE_4K),
            }),
            Context::spec_same_except_chr_pages(old(self).context, final(self).context),
            final(self).chr_bank_mode == old(self).chr_bank_mode,
            final(self).prg_bank_mode == old(self).prg_bank_mode,
            final(self).ram_enable == old(self).ram_enable,
            final(self).uses_chr_ram == old(self).uses_chr_ram,
            final(self).shift_register == old(self).shift_register,
            final(self).shift_count == old(self).shift_count,
            final(self).cpu_cycle == old(self).cpu_cycle,
            final(self).last_write_cpu_cycle == old(self).last_write_cpu_cycle,
    {
        match self.chr_bank_mode {
            ChrBankMode::Switch8K => {
                self.context.set_chr_region(0, (data >> 1) as usize, SIZE_8K);
            }
            ChrBankMode::Switch4K => {
                self.context.set_chr_region(0, data as usize, SIZE_4K);
            }
        }
    }

    /// CHR bank 1: the 4 KB bank at $1000; ignored in 8 KB mode.
    pub fn chr_bank1_handler(&mut self, data: u8)
        ensures
            final(self).context.spec_chr_pages() == (match old(self).chr_bank_mode {
                ChrBankMode::Switch8K => old(self).context.spec_chr_pages(),
                ChrBankMode::Switch4K => AddressMapper::<8>::spec_with_region(
                    old(self).context.spec_chr_pages(), 1, data as usize, SIZE_4K),
            }),
            Context::spec_same_except_chr_pages(old(self).context, final(self).context),
            final(self).chr_bank_mode == old(self).chr_bank_mode,
            final(self).prg_bank_mode == old(self).prg_bank_mode,
            final(self).ram_enable == old(self).ram_enable,
            final(self).uses_chr_ram == old(self).uses_chr_ram,
            final(self).shift_register == old(self).shift_register,
            final(self).shift_count == old(self).shift_count,
            final(self).cpu_cycle == old(self).cpu_cycle,
            final(self).last_write_cpu_cycle == old(self).last_write_cpu_cycle,
    {
        match self.chr_bank_mode {
            ChrBankMode::Switch8K => {
                // ignored in 8kb mode
                proof {
                    assert(Context::spec_same_except_chr_pages(self.context, self.context)) by {
                        reveal_with_fuel(Context::spec_same_except_chr_pages, 1);
                        Context::lemma_same_except_chr_pages_refl(self.context);
                    }
                }
            }
            ChrBankMode::Switch4K => {
                self.context.set_chr_region(1, data as usize, SIZE_4K);
            }
        }
    }

    /// The PRG bank register: bits 0-3 select the bank, bit 4 enables work
    /// RAM.
    pub fn prg_bank_handler(&mut self, data: u8)
        ensures
            ({
                let bank = (data & 0x0F) as usize;
                let pages = old(self).context.spec_prg_pages();
                let len = old(self).context.spec_prg_rom().len();
                final(self).context.spec_prg_pages() == (match old(self).prg_bank_mode {
                    PrgBankMode::Switch32K => AddressMapper::<32>::spec_with_region(pages, 0, bank >> 1usize, SIZE_32K),
                    PrgBankMode::FixFirst => AddressMapper::<32>::spec_with_region(
                        AddressMapper::<32>::spec_with_region(pages, 0, 0, SIZE_16K), 1, bank, SIZE_16K),
                    PrgBankMode::FixLast => {
                        let p1 = AddressMapper::<32>::spec_with_region(pages, 0, bank, SIZE_16K);
                        if len >= SIZE_16K {
                            AddressMapper::<32>::spec_with_region(p1, 1, (len as int / SIZE_16K as int - 1) as usize, SIZE_16K)
                        } else {
                            p1
                        }
                    },
                })
            }),
            Context::spec_same_except_prg_pages(old(self).context, final(self).context),
            final(self).ram_enable == (old(self).ram_enable || data & 0x10 == 0x10),
            final(self).chr_bank_mode == old(self).chr_bank_mode,
            final(self).prg_bank_mode == old(self).prg_bank_mode,
            final(self).uses_chr_ram == old(self).uses_chr_ram,
            final(self).shift_register == old(self).shift_register,
            final(self).shift_count == old(self).shift_count,
            final(self).cpu_cycle == old(self).cpu_cycle,
            final(self).last_write_cpu_cycle == old(self).last_write_cpu_cycle,
    {
        let bank = (data & 0x0F) as usize;
        let ram_enable = data & 0x10;
        let ghost c0 = self.context;

        match self.prg_bank_mode {
            PrgBankMode::Switch32K => {
                self.context.set_prg_region(0, bank >> 1, SIZE_32K);
            }
            PrgBankMode::FixFirst => {
                self.context.set_prg_region(0, 0, SIZE_16K);
                let ghost c1 = self.context;
                self.context.set_prg_region(1, bank, SIZE_16K);
                proof { Context::lemma_same_except_prg_pages_trans(c0, c1, self.context); }
            }
            PrgBankMode::FixLast => {
                self.context.set_prg_region(0, bank, SIZE_16K);
                let ghost c1 = self.context;
                let prg_len = self.context.prg_rom_len();
                if prg_len >= SIZE_16K {
                    self.context.set_prg_region(1, prg_len / SIZE_16K - 1, SIZE_16K);
                    proof { Context::lemma_same_except_prg_pages_trans(c0, c1, self.context); }
                }
            }
        }

        if ram_enable == 0x10 {
            self.ram_enable = true;
        }
    }

    /// A write to $8000-$FFFF: bit 7 resets the shift register; otherwise
    /// bit 0 is shifted in, and the fifth bit loads the register that the
    /// address selects.
    pub fn write_handler(&mut self, pinout: mos::Pinout)
        ensures
            spec_shift_write(*old(self), *final(self), pinout.address, pinout.data),
    {
        if (pinout.data & 0x80) > 0 {
            self.clear_shift();
        } else {
            self.shift_register = (self.shift_register << 1) | (pinout.data & 0x01);
            self.shift_count = self.shift_count.wrapping_add(1);
        }

        // every fifth write
        if self.shift_count == 5 {
            let reg_index = (((pinout.address & 0x6000) >> 13) as u8) & 0x0F;
            let sr = self.shift_register;
            if reg_index == 0 {
                self.ctrl_handler(sr);
            } else if reg_index == 1 {
                self.chr_bank0_handler(sr);
            } else if reg_index == 2 {
                self.chr_bank1_handler(sr);
            } else {
                self.prg_bank_handler(sr);
            }
            self.clear_shift();
        }
    }
}

impl Mapper for Mapper1 {
    open spec fn spec_ram_read(&self, address: u16, open_bus: u8) -> u8 {
        self.context.spec_ram_read(address, open_bus)
    }

    open spec fn spec_ram_written(a: Self, b: Self, address: u16, data: u8) -> bool {
        Context::spec_ram_written(a.context, b.context, address, data) && b == (Mapper1 { context: b.context, ..a })
    }

    open spec fn spec_has_ram(&self) -> bool {
        self.context.spec_sys_ram().len() == crate::nes::paging::SIZE_2K
    }

    /// Open bus.
    open spec fn spec_exp_read(&self, address: u16, open_bus: u8) -> u8 {
        open_bus
    }

    open spec fn spec_wram_read(&self, address: u16, open_bus: u8) -> u8 {
        if self.ram_enable { self.context.spec_wram_read(address, open_bus) } else { open_bus }
    }

    open spec fn spec_prg_read(&self, address: u16, open_bus: u8) -> u8 {
        self.context.spec_prg_read(address, open_bus)
    }

    open spec fn spec_chr_read(&self, address: u16, open_bus: u8) -> u8 {
        self.context.spec_chr_read(address, open_bus)
    }

    open spec fn spec_nt_read(&self, address: u16, open_bus: u8) -> u8 {
        self.context.spec_nt_read(address, open_bus)
    }

    open spec fn spec_exp_written(a: Self, b: Self, address: u16, data: u8) -> bool {
        b == a
    }

    open spec fn spec_wram_written(a: Self, b: Self, address: u16, data: u8) -> bool {
        if a.ram_enable {
            Context::spec_wram_written(a.context, b.context, address, data) && b == (Mapper1 { context: b.context, ..a })
        } else {
            b == a
        }
    }

    open spec fn spec_prg_written(a: Self, b: Self, address: u16, data: u8) -> bool {
        if a.cpu_cycle > a.last_write_cpu_cycle { spec_shift_write(a, b, address, data) } else { b == a }
    }

    open spec fn spec_chr_written(a: Self, b: Self, address: u16, data: u8) -> bool {
        if a.uses_chr_ram {
            Context::spec_chr_written(a.context, b.context, address, data) && b == (Mapper1 { context: b.context, ..a })
        } else {
            b == a
        }
    }

    open spec fn spec_nt_written(a: Self, b: Self, address: u16, data: u8) -> bool {
        Context::spec_nt_written(a.context, b.context, address, data) && b == (Mapper1 { context: b.context, ..a })
    }

    open spec fn spec_cpu_ticked(a: Self, b: Self, pinout: mos::Pinout) -> bool {
        b == (Mapper1 {
            cpu_cycle: a.cpu_cycle.wrapping_add(1),
            last_write_cpu_cycle: if !pinout.ctrl.rw { a.cpu_cycle.wrapping_add(1) } else { a.last_write_cpu_cycle },
            ..a
        })
    }

    open spec fn spec_ppu_ticked(a: Self, b: Self, pinout: ppu::Pinout) -> bool {
        b == a
    }

    proof fn lemma_ram_write_read(a: Self, b: Self, address: u16, other: u16, data: u8, open_bus: u8) {
        if a.spec_has_ram() {
            crate::nes::mappers::lemma_context_ram_write_read(a.context, b.context, address, other, data, open_bus);
        }
    }

    fn read_cpu_internal_ram(&mut self, pinout: mos::Pinout) -> (r: mos::Pinout)
        ensures
            r == (mos::Pinout { data: old(self).context.spec_ram_read(pinout.address, pinout.data), ..pinout }),
            *final(self) == *old(self),
    {
        self.context.read_internal_ram(pinout)
    }

    /// Open bus.
    fn read_cpu_exp(&mut self, pinout: mos::Pinout) -> (r: mos::Pinout)
        ensures r == pinout, *final(self) == *old(self),
    {
        pinout
    }

    /// Work RAM, when enabled; open bus otherwise.
    fn read_cpu_wram(&mut self, pinout: mos::Pinout) -> (r: mos::Pinout)
        ensures
            old(self).ram_enable ==> r == (mos::Pinout { data: old(self).context.spec_wram_read(pinout.address, pinout.data), ..pinout }),
            !old(self).ram_enable ==> r == pinout,
            *final(self) == *old(self),
    {
        if self.ram_enable {
            self.context.read_wram(pinout)
        } else {
            pinout
        }
    }

    fn read_cpu_prg(&mut self, pinout: mos::Pinout) -> (r: mos::Pinout)
        ensures
            r == (mos::Pinout { data: old(self).context.spec_prg_read(pinout.address, pinout.data), ..pinout }),
            *final(self) == *old(self),
    {
        self.context.read_prg(pinout)
    }

    fn write_cpu_internal_ram(&mut self, pinout: mos::Pinout) -> (r: mos::Pinout)
        ensures
            r == pinout,
            Context::spec_ram_written(old(self).context, final(self).context, pinout.address, pinout.data),
            final(self).ram_enable == old(self).ram_enable,
    {
        self.context.write_internal_ram(pinout);
        pinout
    }

    /// Open bus.
    fn write_cpu_exp(&mut self, pinout: mos::Pinout) -> (r: mos::Pinout)
        ensures r == pinout, *final(self) == *old(self),
    {
        pinout
    }

    /// Work RAM, when enabled.
    fn write_cpu_wram(&mut self, pinout: mos::Pinout) -> (r: mos::Pinout)
        ensures
            r == pinout,
            old(self).ram_enable ==> Context::spec_wram_written(old(self).context, final(self).context, pinout.address, pinout.data),
            !old(self).ram_enable ==> *final(self) == *old(self),
    {
        if self.ram_enable {
            self.context.write_wram(pinout);
        }
        pinout
    }

    /// A register write, ignored on the cycle right after another write
    /// (the second write of a read-modify-write instruction).
    fn write_cpu_prg(&mut self, pinout: mos::Pinout) -> (r: mos::Pinout)
        ensures
            r == pinout,
            old(self).cpu_cycle <= old(self).last_write_cpu_cycle ==> *final(self) == *old(self),
    {
        if self.cpu_cycle > self.last_write_cpu_cycle {
            self.write_handler(pinout);
        }
        pinout
    }

    fn read_ppu_chr(&mut self, pinout: ppu::Pinout) -> (r: ppu::Pinout)
        ensures
            r == (ppu::Pinout { data: old(self).context.spec_chr_read(pinout.address, pinout.data), ..pinout }),
            *final(self) == *old(self),
    {
        self.context.read_chr(pinout)
    }

    fn read_ppu_nt(&mut self, pinout: ppu::Pinout) -> (r: ppu::Pinout)
        ensures
            r == (ppu::Pinout { data: old(self).context.spec_nt_read(pinout.address, pinout.data), ..pinout }),
            *final(self) == *old(self),
    {
        self.context.read_nt(pinout)
    }

    /// Only CHR RAM can be written.
    fn write_ppu_chr(&mut self, pinout: ppu::Pinout) -> (r: ppu::Pinout)
        ensures
            r == pinout,
            old(self).uses_chr_ram ==> Context::spec_chr_written(old(self).context, final(self).context, pinout.address, pinout.data),
            !old(self).uses_chr_ram ==> *final(self) == *old(self),
    {
        if self.uses_chr_ram {
            self.context.write_chr(pinout);
        }
        pinout
    }

    fn write_ppu_nt(&mut self, pinout: ppu::Pinout) -> (r: ppu::Pinout)
        ensures
            r == pinout,
            Context::spec_nt_written(old(self).context, final(self).context, pinout.address, pinout.data),
    {
        self.context.write_nt(pinout);
        pinout
    }

    /// Counts cpu cycles and remembers the last write cycle.
    fn cpu_tick(&mut self, pinout: mos::Pinout) -> (r: mos::Pinout)
        ensures
            r == pinout,
            final(self).cpu_cycle == old(self).cpu_cycle.wrapping_add(1),
            !pinout.ctrl.rw ==> final(self).last_write_cpu_cycle == final(self).cpu_cycle,
            pinout.ctrl.rw ==> final(self).last_write_cpu_cycle == old(self).last_write_cpu_cycle,
            final(self).context == old(self).context,
    {
        self.cpu_cycle = self.cpu_cycle.wrapping_add(1);
        if !pinout.ctrl.contains(mos::Ctrl::RW()) {
            // a write cycle
            self.last_write_cpu_cycle = self.cpu_cycle;
        }
        pinout
    }

    fn ppu_tick(&mut self, pinout: ppu::Pinout) -> (r: ppu::Pinout)
        ensures r == pinout, *final(self) == *old(self),
    {
        pinout
    }
}

} // verus!
