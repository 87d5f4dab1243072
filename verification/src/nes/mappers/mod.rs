//! Cartridge mappers: how the CPU and PPU address spaces reach the memory on
//! the cartridge and in the console.

use vstd::prelude::*;
use crate::mos;
use crate::nes::ppu;
use crate::nes::paging::{AddressMapper, SIZE_1K, SIZE_2K, SIZE_4K};
use crate::nes::rom::NametableMirroring;

pub mod mapper_null;
pub mod mapper_nrom;
pub mod mapper3;
pub mod mapper1;
pub mod mapper_debug;
pub mod cartridge;

verus! {

/// The memory of a cartridge and console, and the page tables that map the
/// CPU and PPU address spaces onto it.
pub struct Context {
    pub(crate) prg_addr_mapper: AddressMapper<32>,
    pub(crate) wram_addr_mapper: AddressMapper<8>,
    pub(crate) chr_addr_mapper: AddressMapper<8>,
    pub(crate) nt_addr_mapper: AddressMapper<4>,
    pub(crate) prg_rom: Vec<u8>,
    pub(crate) prg_ram: Vec<u8>,
    pub(crate) chr: Vec<u8>,
    pub(crate) sys_ram: Vec<u8>,
    pub(crate) vram: Vec<u8>,
}

/// A byte of memory, or `open_bus` where the index lies past its end.
pub open spec fn spec_mem_read(mem: Seq<u8>, index: int, open_bus: u8) -> u8 {
    if 0 <= index < mem.len() {
        mem[index]
    } else {
        open_bus
    }
}

/// Memory after a write; a write past its end changes nothing.
pub open spec fn spec_mem_write(mem: Seq<u8>, index: int, data: u8) -> Seq<u8> {
    if 0 <= index < mem.len() {
        mem.update(index, data)
    } else {
        mem
    }
}

/// Reads `mem[index]`, or hands back `open_bus` past the end.
pub fn mem_read(mem: &Vec<u8>, index: usize, open_bus: u8) -> (r: u8)
    ensures
        r == spec_mem_read(mem@, index as int, open_bus),
{
    if index < mem.len() {
        mem[index]
    } else {
        open_bus
    }
}

/// Writes `mem[index]`; past the end nothing is written.
pub fn mem_write(mem: &mut Vec<u8>, index: usize, data: u8)
    ensures
        final(mem)@ == spec_mem_write(old(mem)@, index as int, data),
    no_unwind
{
    if index < mem.len() {
        mem[index] = data;
    }
}

proof fn lemma_nt_mask(x: u16)
    by (bit_vector)
    ensures
        x & 0x2FFF <= 0x2FFF,
{
}

/// Internal RAM: 2 KB mirrored over $0000-$1FFF.
pub open spec fn spec_ram_index(address: u16) -> int {
    (address & 0x7FF) as int
}

impl Context {
    /// The page tables are complete and each starts where its part of the
    /// address space starts.
    #[verifier::type_invariant]
    pub closed spec fn wf(&self) -> bool {
        &&& self.prg_addr_mapper.wf()
        &&& self.wram_addr_mapper.wf()
        &&& self.chr_addr_mapper.wf()
        &&& self.nt_addr_mapper.wf()
        &&& self.prg_addr_mapper.base() == 0x8000
        &&& self.wram_addr_mapper.base() == 0x6000
        &&& self.chr_addr_mapper.base() == 0
        &&& self.nt_addr_mapper.base() == 0x2000
    }


    /// Everything but the named memory is the same in `a` and `b`.
    pub closed spec fn spec_same_tables(a: Context, b: Context) -> bool {
        &&& a.prg_addr_mapper == b.prg_addr_mapper
        &&& a.wram_addr_mapper == b.wram_addr_mapper
        &&& a.chr_addr_mapper == b.chr_addr_mapper
        &&& a.nt_addr_mapper == b.nt_addr_mapper
    }

    /// `b` is `a` after the CPU wrote `data` to internal RAM at `address`.
    pub closed spec fn spec_ram_written(a: Context, b: Context, address: u16, data: u8) -> bool {
        &&& Self::spec_same_tables(a, b)
        &&& b.sys_ram@ == spec_mem_write(a.sys_ram@, spec_ram_index(address), data)
        &&& b.prg_rom@ == a.prg_rom@ && b.prg_ram@ == a.prg_ram@ && b.chr@ == a.chr@ && b.vram@ == a.vram@
    }

    /// `b` is `a` after the CPU wrote `data` to work RAM at `address`.
    pub closed spec fn spec_wram_written(a: Context, b: Context, address: u16, data: u8) -> bool {
        &&& Self::spec_same_tables(a, b)
        &&& b.prg_ram@ == (if a.wram_addr_mapper.in_range(address) {
                spec_mem_write(a.prg_ram@, a.wram_addr_mapper.spec_translate(address) as int, data)
            } else {
                a.prg_ram@
            })
        &&& b.prg_rom@ == a.prg_rom@ && b.sys_ram@ == a.sys_ram@ && b.chr@ == a.chr@ && b.vram@ == a.vram@
    }

    /// `b` is `a` after the PPU wrote `data` to CHR at `address`.
    pub closed spec fn spec_chr_written(a: Context, b: Context, address: u16, data: u8) -> bool {
        &&& Self::spec_same_tables(a, b)
        &&& b.chr@ == (if a.chr_addr_mapper.in_range(address) {
                spec_mem_write(a.chr@, a.chr_addr_mapper.spec_translate(address) as int, data)
            } else {
                a.chr@
            })
        &&& b.prg_rom@ == a.prg_rom@ && b.sys_ram@ == a.sys_ram@ && b.prg_ram@ == a.prg_ram@ && b.vram@ == a.vram@
    }

    /// `b` is `a` after the PPU wrote `data` to the nametables at `address`.
    pub closed spec fn spec_nt_written(a: Context, b: Context, address: u16, data: u8) -> bool {
        let n = Self::spec_nt_address(address);
        &&& Self::spec_same_tables(a, b)
        &&& b.vram@ == (if a.nt_addr_mapper.in_range(n) {
                spec_mem_write(a.vram@, a.nt_addr_mapper.spec_translate(n) as int, data)
            } else {
                a.vram@
            })
        &&& b.prg_rom@ == a.prg_rom@ && b.sys_ram@ == a.sys_ram@ && b.prg_ram@ == a.prg_ram@ && b.chr@ == a.chr@
    }

    /// `b` differs from `a` at most in its nametable page table.
    pub closed spec fn spec_same_except_nt(a: Context, b: Context) -> bool {
        &&& a.prg_addr_mapper == b.prg_addr_mapper
        &&& a.wram_addr_mapper == b.wram_addr_mapper
        &&& a.chr_addr_mapper == b.chr_addr_mapper
        &&& b.prg_rom@ == a.prg_rom@ && b.sys_ram@ == a.sys_ram@ && b.prg_ram@ == a.prg_ram@
        &&& b.chr@ == a.chr@ && b.vram@ == a.vram@
    }

    /// The byte a CPU read of internal RAM at `address` gives.
    pub closed spec fn spec_ram_read(&self, address: u16, open_bus: u8) -> u8 {
        spec_mem_read(self.sys_ram@, spec_ram_index(address), open_bus)
    }

    /// The nametable page table.
    pub closed spec fn spec_nt_pages(&self) -> Seq<crate::nes::paging::Bank> {
        self.nt_addr_mapper.pages()
    }

    /// The CHR page table.
    pub closed spec fn spec_chr_pages(&self) -> Seq<crate::nes::paging::Bank> {
        self.chr_addr_mapper.pages()
    }

    /// The PRG page table.
    pub closed spec fn spec_prg_pages(&self) -> Seq<crate::nes::paging::Bank> {
        self.prg_addr_mapper.pages()
    }

    /// The work RAM page table.
    pub closed spec fn spec_wram_pages(&self) -> Seq<crate::nes::paging::Bank> {
        self.wram_addr_mapper.pages()
    }

    pub closed spec fn spec_prg_ram(&self) -> Seq<u8> {
        self.prg_ram@
    }

    /// The PRG ROM, the CHR memory and the VRAM.
    pub closed spec fn spec_prg_rom(&self) -> Seq<u8> {
        self.prg_rom@
    }

    pub closed spec fn spec_chr(&self) -> Seq<u8> {
        self.chr@
    }

    pub closed spec fn spec_vram(&self) -> Seq<u8> {
        self.vram@
    }

    pub closed spec fn spec_sys_ram(&self) -> Seq<u8> {
        self.sys_ram@
    }

    /// The byte the CPU reads at `address` of PRG ROM ($8000-$FFFF).
    pub closed spec fn spec_prg_read(&self, address: u16, open_bus: u8) -> u8 {
        if self.prg_addr_mapper.in_range(address) {
            spec_mem_read(self.prg_rom@, self.prg_addr_mapper.spec_translate(address) as int, open_bus)
        } else {
            open_bus
        }
    }

    /// The byte the CPU reads at `address` of work RAM ($6000-$7FFF).
    pub closed spec fn spec_wram_read(&self, address: u16, open_bus: u8) -> u8 {
        if self.wram_addr_mapper.in_range(address) {
            spec_mem_read(self.prg_ram@, self.wram_addr_mapper.spec_translate(address) as int, open_bus)
        } else {
            open_bus
        }
    }

    /// The byte the PPU reads at `address` of CHR ($0000-$1FFF).
    pub closed spec fn spec_chr_read(&self, address: u16, open_bus: u8) -> u8 {
        if self.chr_addr_mapper.in_range(address) {
            spec_mem_read(self.chr@, self.chr_addr_mapper.spec_translate(address) as int, open_bus)
        } else {
            open_bus
        }
    }

    /// The nametable address `address` lands on ($3000-$3EFF mirror
    /// $2000-$2EFF).
    pub open spec fn spec_nt_address(address: u16) -> u16 {
        address & 0x2FFF
    }

    /// The byte the PPU reads at `address` of the nametables.
    pub closed spec fn spec_nt_read(&self, address: u16, open_bus: u8) -> u8 {
        let a = Self::spec_nt_address(address);
        if self.nt_addr_mapper.in_range(a) {
            spec_mem_read(self.vram@, self.nt_addr_mapper.spec_translate(a) as int, open_bus)
        } else {
            open_bus
        }
    }

    /// Identity page tables, no cartridge memory, zeroed RAM and VRAM.
    pub open spec fn spec_is_power_on(r: Context) -> bool {
        &&& r.spec_prg_pages() == AddressMapper::<32>::spec_identity_pages()
        &&& r.spec_wram_pages() == AddressMapper::<8>::spec_identity_pages()
        &&& r.spec_chr_pages() == AddressMapper::<8>::spec_identity_pages()
        &&& r.spec_nt_pages() == AddressMapper::<4>::spec_identity_pages()
        &&& r.spec_prg_rom().len() == 0
        &&& r.spec_prg_ram().len() == 0
        &&& r.spec_chr().len() == 0
        &&& r.spec_sys_ram() == Seq::new(SIZE_2K as nat, |i: int| 0u8)
        &&& r.spec_vram() == Seq::new(SIZE_4K as nat, |i: int| 0u8)
    }

    pub fn new() -> (r: Context)
        ensures
            Context::spec_is_power_on(r),
    {
        let c = Context {
            prg_addr_mapper: AddressMapper::with_base(0x8000),
            wram_addr_mapper: AddressMapper::with_base(0x6000),
            chr_addr_mapper: AddressMapper::new(),
            nt_addr_mapper: AddressMapper::with_base(0x2000),
            prg_rom: Vec::new(),
            prg_ram: Vec::new(),
            chr: Vec::new(),
            sys_ram: vec![0; SIZE_2K],
            vram: vec![0; SIZE_4K],
        };
        assert(c.sys_ram@ =~= Seq::new(SIZE_2K as nat, |i: int| 0u8));
        assert(c.vram@ =~= Seq::new(SIZE_4K as nat, |i: int| 0u8));
        c
    }

    /// Loads the PRG ROM.
    pub fn set_prg_rom(&mut self, data: Vec<u8>)
        ensures
            final(self).spec_prg_rom() == data@,
            final(self).spec_prg_pages() == old(self).spec_prg_pages(),
            final(self).spec_wram_pages() == old(self).spec_wram_pages(),
            final(self).spec_chr_pages() == old(self).spec_chr_pages(),
            final(self).spec_nt_pages() == old(self).spec_nt_pages(),
            final(self).spec_chr() == old(self).spec_chr(),
            final(self).spec_prg_ram() == old(self).spec_prg_ram(),
            final(self).spec_sys_ram() == old(self).spec_sys_ram(),
            final(self).spec_vram() == old(self).spec_vram(),
    {
        proof {
            use_type_invariant(&*self);
        }
        self.prg_rom = data;
    }

    /// Loads the CHR ROM or RAM.
    pub fn set_chr(&mut self, data: Vec<u8>)
        ensures
            final(self).spec_chr() == data@,
            final(self).spec_prg_pages() == old(self).spec_prg_pages(),
            final(self).spec_wram_pages() == old(self).spec_wram_pages(),
            final(self).spec_chr_pages() == old(self).spec_chr_pages(),
            final(self).spec_nt_pages() == old(self).spec_nt_pages(),
            final(self).spec_prg_rom() == old(self).spec_prg_rom(),
            final(self).spec_prg_ram() == old(self).spec_prg_ram(),
            final(self).spec_sys_ram() == old(self).spec_sys_ram(),
            final(self).spec_vram() == old(self).spec_vram(),
    {
        proof {
            use_type_invariant(&*self);
        }
        self.chr = data;
    }

    /// The length of the CHR memory.
    pub fn chr_len(&self) -> (r: usize)
        ensures r == self.spec_chr().len(),
    {
        self.chr.len()
    }

    /// The length of the PRG ROM.
    pub fn prg_rom_len(&self) -> (r: usize)
        ensures r == self.spec_prg_rom().len(),
    {
        self.prg_rom.len()
    }

    /// Points PRG window `addr_bank_index` at PRG ROM bank `mem_bank_index`.
    pub fn set_prg_region(&mut self, addr_bank_index: usize, mem_bank_index: usize, bank_size: usize)
        requires
            (addr_bank_index + 1) * (bank_size / 1024) <= 32,
        ensures
            final(self).spec_prg_pages() == AddressMapper::<32>::spec_with_region(old(self).spec_prg_pages(), addr_bank_index, mem_bank_index, bank_size),
            Context::spec_same_except_prg_pages(*old(self), *final(self)),
    {
        proof {
            use_type_invariant(&*self);
        }
        self.prg_addr_mapper.set_banking_region(addr_bank_index, mem_bank_index, bank_size);
    }

    /// Points CHR window `addr_bank_index` at CHR bank `mem_bank_index`.
    pub fn set_chr_region(&mut self, addr_bank_index: usize, mem_bank_index: usize, bank_size: usize)
        requires
            (addr_bank_index + 1) * (bank_size / 1024) <= 8,
        ensures
            final(self).spec_chr_pages() == AddressMapper::<8>::spec_with_region(old(self).spec_chr_pages(), addr_bank_index, mem_bank_index, bank_size),
            Context::spec_same_except_chr_pages(*old(self), *final(self)),
    {
        proof {
            use_type_invariant(&*self);
        }
        self.chr_addr_mapper.set_banking_region(addr_bank_index, mem_bank_index, bank_size);
    }

    /// Points work RAM window `addr_bank_index` at bank `mem_bank_index`.
    pub fn set_wram_region(&mut self, addr_bank_index: usize, mem_bank_index: usize, bank_size: usize)
        requires
            (addr_bank_index + 1) * (bank_size / 1024) <= 8,
        ensures
            final(self).spec_wram_pages() == AddressMapper::<8>::spec_with_region(old(self).spec_wram_pages(), addr_bank_index, mem_bank_index, bank_size),
            final(self).spec_prg_pages() == old(self).spec_prg_pages(),
            final(self).spec_chr_pages() == old(self).spec_chr_pages(),
            final(self).spec_nt_pages() == old(self).spec_nt_pages(),
            final(self).spec_prg_rom() == old(self).spec_prg_rom(),
            final(self).spec_chr() == old(self).spec_chr(),
            final(self).spec_prg_ram() == old(self).spec_prg_ram(),
            final(self).spec_sys_ram() == old(self).spec_sys_ram(),
            final(self).spec_vram() == old(self).spec_vram(),
    {
        proof {
            use_type_invariant(&*self);
        }
        self.wram_addr_mapper.set_banking_region(addr_bank_index, mem_bank_index, bank_size);
    }

    /// `b` differs from `a` at most in its PRG page table.
    pub closed spec fn spec_same_except_prg_pages(a: Context, b: Context) -> bool {
        &&& a.wram_addr_mapper == b.wram_addr_mapper
        &&& a.chr_addr_mapper == b.chr_addr_mapper
        &&& a.nt_addr_mapper == b.nt_addr_mapper
        &&& b.prg_rom@ == a.prg_rom@ && b.sys_ram@ == a.sys_ram@ && b.prg_ram@ == a.prg_ram@
        &&& b.chr@ == a.chr@ && b.vram@ == a.vram@
    }

    /// `b` differs from `a` at most in its CHR page table.
    pub closed spec fn spec_same_except_chr_pages(a: Context, b: Context) -> bool {
        &&& a.wram_addr_mapper == b.wram_addr_mapper
        &&& a.prg_addr_mapper == b.prg_addr_mapper
        &&& a.nt_addr_mapper == b.nt_addr_mapper
        &&& b.prg_rom@ == a.prg_rom@ && b.sys_ram@ == a.sys_ram@ && b.prg_ram@ == a.prg_ram@
        &&& b.chr@ == a.chr@ && b.vram@ == a.vram@
    }

    /// The accessors of `b` and `a` agree apart from the PRG page table.
    pub proof fn lemma_same_except_prg_pages(a: Context, b: Context)
        requires
            Context::spec_same_except_prg_pages(a, b),
        ensures
            b.spec_wram_pages() == a.spec_wram_pages(),
            b.spec_chr_pages() == a.spec_chr_pages(),
            b.spec_nt_pages() == a.spec_nt_pages(),
            b.spec_prg_rom() == a.spec_prg_rom(),
            b.spec_chr() == a.spec_chr(),
            b.spec_prg_ram() == a.spec_prg_ram(),
            b.spec_sys_ram() == a.spec_sys_ram(),
            b.spec_vram() == a.spec_vram(),
    {
    }

    pub proof fn lemma_same_tables_pages(a: Context, b: Context)
        requires
            Context::spec_same_tables(a, b),
        ensures
            b.spec_prg_pages() == a.spec_prg_pages(),
            b.spec_wram_pages() == a.spec_wram_pages(),
            b.spec_chr_pages() == a.spec_chr_pages(),
            b.spec_nt_pages() == a.spec_nt_pages(),
    {
    }

    pub proof fn lemma_same_except_chr_pages_refl(a: Context)
        ensures
            Context::spec_same_except_chr_pages(a, a),
    {
    }

    pub proof fn lemma_same_except_prg_pages_trans(a: Context, b: Context, c: Context)
        requires
            Context::spec_same_except_prg_pages(a, b),
            Context::spec_same_except_prg_pages(b, c),
        ensures
            Context::spec_same_except_prg_pages(a, c),
    {
    }

    /// The accessors of `b` and `a` agree apart from the CHR page table.
    pub proof fn lemma_same_except_chr_pages(a: Context, b: Context)
        requires
            Context::spec_same_except_chr_pages(a, b),
        ensures
            b.spec_wram_pages() == a.spec_wram_pages(),
            b.spec_prg_pages() == a.spec_prg_pages(),
            b.spec_nt_pages() == a.spec_nt_pages(),
            b.spec_prg_rom() == a.spec_prg_rom(),
            b.spec_chr() == a.spec_chr(),
            b.spec_prg_ram() == a.spec_prg_ram(),
            b.spec_sys_ram() == a.spec_sys_ram(),
            b.spec_vram() == a.spec_vram(),
    {
    }

    /// The accessors of `b` and `a` agree apart from the nametable page table.
    pub proof fn lemma_same_except_nt(a: Context, b: Context)
        requires
            Context::spec_same_except_nt(a, b),
        ensures
            b.spec_wram_pages() == a.spec_wram_pages(),
            b.spec_prg_pages() == a.spec_prg_pages(),
            b.spec_chr_pages() == a.spec_chr_pages(),
            b.spec_prg_rom() == a.spec_prg_rom(),
            b.spec_chr() == a.spec_chr(),
            b.spec_prg_ram() == a.spec_prg_ram(),
            b.spec_sys_ram() == a.spec_sys_ram(),
            b.spec_vram() == a.spec_vram(),
    {
    }


    /// Stores `data` at `index` of the sys ram, bypassing the buses.
    pub fn poke_sys_ram(&mut self, index: usize, data: u8)
        requires
            index < old(self).spec_sys_ram().len(),
        ensures
            final(self).spec_sys_ram() == old(self).spec_sys_ram().update(index as int, data),
            final(self).spec_prg_rom() == old(self).spec_prg_rom(),
            final(self).spec_chr() == old(self).spec_chr(),
            final(self).spec_vram() == old(self).spec_vram(),
            final(self).spec_prg_ram() == old(self).spec_prg_ram(),
            Context::spec_same_tables(*old(self), *final(self)),
    {
        proof {
            use_type_invariant(&*self);
        }
        self.sys_ram[index] = data;
    }

    /// The byte at `index` of the sys ram, read without bus effects.
    pub fn peek_sys_ram(&self, index: usize) -> (r: u8)
        requires
            index < self.spec_sys_ram().len(),
        ensures
            r == self.spec_sys_ram()[index as int],
    {
        self.sys_ram[index]
    }

    /// Stores `data` at `index` of the prg rom, bypassing the buses.
    pub fn poke_prg_rom(&mut self, index: usize, data: u8)
        requires
            index < old(self).spec_prg_rom().len(),
        ensures
            final(self).spec_prg_rom() == old(self).spec_prg_rom().update(index as int, data),
            final(self).spec_sys_ram() == old(self).spec_sys_ram(),
            final(self).spec_chr() == old(self).spec_chr(),
            final(self).spec_vram() == old(self).spec_vram(),
            final(self).spec_prg_ram() == old(self).spec_prg_ram(),
            Context::spec_same_tables(*old(self), *final(self)),
    {
        proof {
            use_type_invariant(&*self);
        }
        self.prg_rom[index] = data;
    }

    /// The byte at `index` of the prg rom, read without bus effects.
    pub fn peek_prg_rom(&self, index: usize) -> (r: u8)
        requires
            index < self.spec_prg_rom().len(),
        ensures
            r == self.spec_prg_rom()[index as int],
    {
        self.prg_rom[index]
    }

    /// Stores `data` at `index` of the chr, bypassing the buses.
    pub fn poke_chr(&mut self, index: usize, data: u8)
        requires
            index < old(self).spec_chr().len(),
        ensures
            final(self).spec_chr() == old(self).spec_chr().update(index as int, data),
            final(self).spec_sys_ram() == old(self).spec_sys_ram(),
            final(self).spec_prg_rom() == old(self).spec_prg_rom(),
            final(self).spec_vram() == old(self).spec_vram(),
            final(self).spec_prg_ram() == old(self).spec_prg_ram(),
            Context::spec_same_tables(*old(self), *final(self)),
    {
        proof {
            use_type_invariant(&*self);
        }
        self.chr[index] = data;
    }

    /// The byte at `index` of the chr, read without bus effects.
    pub fn peek_chr(&self, index: usize) -> (r: u8)
        requires
            index < self.spec_chr().len(),
        ensures
            r == self.spec_chr()[index as int],
    {
        self.chr[index]
    }

    /// Stores `data` at `index` of the vram, bypassing the buses.
    pub fn poke_vram(&mut self, index: usize, data: u8)
        requires
            index < old(self).spec_vram().len(),
        ensures
            final(self).spec_vram() == old(self).spec_vram().update(index as int, data),
            final(self).spec_sys_ram() == old(self).spec_sys_ram(),
            final(self).spec_prg_rom() == old(self).spec_prg_rom(),
            final(self).spec_chr() == old(self).spec_chr(),
            final(self).spec_prg_ram() == old(self).spec_prg_ram(),
            Context::spec_same_tables(*old(self), *final(self)),
    {
        proof {
            use_type_invariant(&*self);
        }
        self.vram[index] = data;
    }

    /// The byte at `index` of the vram, read without bus effects.
    pub fn peek_vram(&self, index: usize) -> (r: u8)
        requires
            index < self.spec_vram().len(),
        ensures
            r == self.spec_vram()[index as int],
    {
        self.vram[index]
    }

    /// A CPU read of internal RAM.
    pub fn read_internal_ram(&self, pinout: mos::Pinout) -> (r: mos::Pinout)
        ensures
            r == (mos::Pinout { data: self.spec_ram_read(pinout.address, pinout.data), ..pinout }),
    {
        let mut pinout = pinout;
        pinout.data = mem_read(&self.sys_ram, (pinout.address & 0x7FF) as usize, pinout.data);
        pinout
    }

    /// A CPU write of internal RAM.
    pub fn write_internal_ram(&mut self, pinout: mos::Pinout)
        ensures
            Context::spec_ram_written(*old(self), *final(self), pinout.address, pinout.data),
    {
        proof {
            use_type_invariant(&*self);
        }
        mem_write(&mut self.sys_ram, (pinout.address & 0x7FF) as usize, pinout.data);
    }

    /// A CPU read of PRG ROM through the PRG page table.
    pub fn read_prg(&self, pinout: mos::Pinout) -> (r: mos::Pinout)
        ensures
            r == (mos::Pinout { data: self.spec_prg_read(pinout.address, pinout.data), ..pinout }),
    {
        proof {
            use_type_invariant(self);
        }
        let mut pinout = pinout;
        if pinout.address >= 0x8000 {
            let internal_address = self.prg_addr_mapper.translate_address(pinout.address);
            pinout.data = mem_read(&self.prg_rom, internal_address as usize, pinout.data);
        }
        pinout
    }

    /// A CPU read of work RAM through the WRAM page table.
    pub fn read_wram(&self, pinout: mos::Pinout) -> (r: mos::Pinout)
        ensures
            r == (mos::Pinout { data: self.spec_wram_read(pinout.address, pinout.data), ..pinout }),
    {
        proof {
            use_type_invariant(self);
        }
        let mut pinout = pinout;
        if 0x6000 <= pinout.address && pinout.address < 0x8000 {
            let internal_address = self.wram_addr_mapper.translate_address(pinout.address);
            pinout.data = mem_read(&self.prg_ram, internal_address as usize, pinout.data);
        }
        pinout
    }

    /// A CPU write of work RAM through the WRAM page table.
    pub fn write_wram(&mut self, pinout: mos::Pinout)
        ensures
            Context::spec_wram_written(*old(self), *final(self), pinout.address, pinout.data),
    {
        proof {
            use_type_invariant(&*self);
        }
        if 0x6000 <= pinout.address && pinout.address < 0x8000 {
            let internal_address = self.wram_addr_mapper.translate_address(pinout.address);
            mem_write(&mut self.prg_ram, internal_address as usize, pinout.data);
        }
    }

    /// A PPU read of CHR through the CHR page table.
    pub fn read_chr(&self, pinout: ppu::Pinout) -> (r: ppu::Pinout)
        ensures
            r == (ppu::Pinout { data: self.spec_chr_read(pinout.address, pinout.data), ..pinout }),
    {
        proof {
            use_type_invariant(self);
        }
        let mut pinout = pinout;
        if pinout.address < 0x2000 {
            let internal_address = self.chr_addr_mapper.translate_address(pinout.address);
            pinout.data = mem_read(&self.chr, internal_address as usize, pinout.data);
        }
        pinout
    }

    /// A PPU write of CHR RAM through the CHR page table.
    pub fn write_chr(&mut self, pinout: ppu::Pinout)
        ensures
            Context::spec_chr_written(*old(self), *final(self), pinout.address, pinout.data),
    {
        proof {
            use_type_invariant(&*self);
        }
        if pinout.address < 0x2000 {
            let internal_address = self.chr_addr_mapper.translate_address(pinout.address);
            mem_write(&mut self.chr, internal_address as usize, pinout.data);
        }
    }

    /// A PPU read of the nametables through the nametable page table.
    pub fn read_nt(&self, pinout: ppu::Pinout) -> (r: ppu::Pinout)
        ensures
            r == (ppu::Pinout { data: self.spec_nt_read(pinout.address, pinout.data), ..pinout }),
    {
        proof {
            use_type_invariant(self);
        }
        let mut pinout = pinout;
        let address = pinout.address & 0x2FFF;
        proof {
            lemma_nt_mask(pinout.address);
        }
        if 0x2000 <= address {
            let internal_address = self.nt_addr_mapper.translate_address(address);
            pinout.data = mem_read(&self.vram, internal_address as usize, pinout.data);
        }
        pinout
    }

    /// A PPU write of the nametables through the nametable page table.
    pub fn write_nt(&mut self, pinout: ppu::Pinout)
        ensures
            Context::spec_nt_written(*old(self), *final(self), pinout.address, pinout.data),
    {
        proof {
            use_type_invariant(&*self);
        }
        let address = pinout.address & 0x2FFF;
        proof {
            lemma_nt_mask(pinout.address);
        }
        if 0x2000 <= address {
            let internal_address = self.nt_addr_mapper.translate_address(address);
            mem_write(&mut self.vram, internal_address as usize, pinout.data);
        }
    }
}

/// Internal RAM is mirrored every 2 KB: after a write, a read at any mirror
/// of the address gives the byte written.
pub proof fn lemma_internal_ram_mirrors(ram: Seq<u8>, a: u16, b: u16, data: u8, open_bus: u8)
    requires
        ram.len() == SIZE_2K,
        a & 0x7FF == b & 0x7FF,
    ensures
        spec_mem_read(spec_mem_write(ram, spec_ram_index(a), data), spec_ram_index(b), open_bus) == data,
{
    assert(a & 0x7FF < 0x800) by (bit_vector);
}

/// The nametable page table of a mirroring: entry `i` covers $2000 + i KB
/// and points at 1 KB bank `banks[i]` of VRAM.
pub open spec fn spec_nametable_layout(pages: Seq<crate::nes::paging::Bank>, a: usize, b: usize, c: usize, d: usize) -> bool {
    &&& pages.len() == 4
    &&& pages[0] == crate::nes::paging::Bank::spec_new(SIZE_1K, a)
    &&& pages[1] == crate::nes::paging::Bank::spec_new(SIZE_1K, b)
    &&& pages[2] == crate::nes::paging::Bank::spec_new(SIZE_1K, c)
    &&& pages[3] == crate::nes::paging::Bank::spec_new(SIZE_1K, d)
}

/// Points the four nametables at VRAM banks `a`, `b`, `c` and `d`.
pub fn set_nametables(context: &mut Context, a: usize, b: usize, c: usize, d: usize)
    ensures
        spec_nametable_layout(final(context).spec_nt_pages(), a, b, c, d),
        Context::spec_same_except_nt(*old(context), *final(context)),
{
    proof {
        use_type_invariant(&*context);
    }
    context.nt_addr_mapper.set_banking_region(0, a, SIZE_1K);
    context.nt_addr_mapper.set_banking_region(1, b, SIZE_1K);
    context.nt_addr_mapper.set_banking_region(2, c, SIZE_1K);
    context.nt_addr_mapper.set_banking_region(3, d, SIZE_1K);
}

/// Horizontal mirroring: $2000 = $2400, $2800 = $2C00.
pub fn set_nametable_horizontal(context: &mut Context)
    ensures
        spec_nametable_layout(final(context).spec_nt_pages(), 0, 0, 1, 1),
        Context::spec_same_except_nt(*old(context), *final(context)),
{
    set_nametables(context, 0, 0, 1, 1);
}

/// Vertical mirroring: $2000 = $2800, $2400 = $2C00.
pub fn set_nametable_vertical(context: &mut Context)
    ensures
        spec_nametable_layout(final(context).spec_nt_pages(), 0, 1, 0, 1),
        Context::spec_same_except_nt(*old(context), *final(context)),
{
    set_nametables(context, 0, 1, 0, 1);
}

/// All four nametables show the lower bank.
pub fn set_nametable_single_screen_lower(context: &mut Context)
    ensures
        spec_nametable_layout(final(context).spec_nt_pages(), 0, 0, 0, 0),
        Context::spec_same_except_nt(*old(context), *final(context)),
{
    set_nametables(context, 0, 0, 0, 0);
}

/// All four nametables show the upper bank.
pub fn set_nametable_single_screen_upper(context: &mut Context)
    ensures
        spec_nametable_layout(final(context).spec_nt_pages(), 1, 1, 1, 1),
        Context::spec_same_except_nt(*old(context), *final(context)),
{
    set_nametables(context, 1, 1, 1, 1);
}

/// Four distinct nametables.
pub fn set_nametable_four_screen(context: &mut Context)
    ensures
        spec_nametable_layout(final(context).spec_nt_pages(), 0, 1, 2, 3),
        Context::spec_same_except_nt(*old(context), *final(context)),
{
    set_nametables(context, 0, 1, 2, 3);
}

/// Diagonal mirroring: $2000 = $2C00, $2400 = $2800.
pub fn set_nametable_diagonal(context: &mut Context)
    ensures
        spec_nametable_layout(final(context).spec_nt_pages(), 0, 1, 1, 0),
        Context::spec_same_except_nt(*old(context), *final(context)),
{
    set_nametables(context, 0, 1, 1, 0);
}

/// L-shaped mirroring: $2400 = $2800 = $2C00.
pub fn set_nametable_lshaped(context: &mut Context)
    ensures
        spec_nametable_layout(final(context).spec_nt_pages(), 0, 1, 1, 1),
        Context::spec_same_except_nt(*old(context), *final(context)),
{
    set_nametables(context, 0, 1, 1, 1);
}

/// Three screens, vertical: $2400 = $2C00.
pub fn set_nametable_three_screen_vertical(context: &mut Context)
    ensures
        spec_nametable_layout(final(context).spec_nt_pages(), 0, 2, 1, 2),
        Context::spec_same_except_nt(*old(context), *final(context)),
{
    set_nametables(context, 0, 2, 1, 2);
}

/// Three screens, horizontal: $2800 = $2C00.
pub fn set_nametable_three_screen_horizontal(context: &mut Context)
    ensures
        spec_nametable_layout(final(context).spec_nt_pages(), 0, 1, 2, 2),
        Context::spec_same_except_nt(*old(context), *final(context)),
{
    set_nametables(context, 0, 1, 2, 2);
}

/// Three screens, diagonal: $2400 = $2800.
pub fn set_nametable_three_screen_diagonal(context: &mut Context)
    ensures
        spec_nametable_layout(final(context).spec_nt_pages(), 0, 1, 1, 2),
        Context::spec_same_except_nt(*old(context), *final(context)),
{
    set_nametables(context, 0, 1, 1, 2);
}

/// The mirroring a ROM header asks for; `Other` has no layout here.
pub fn set_nametable_from_mirroring_type(context: &mut Context, mirror_type: NametableMirroring)
    requires
        mirror_type != NametableMirroring::Other,
    ensures
        mirror_type == NametableMirroring::Horizontal ==> spec_nametable_layout(final(context).spec_nt_pages(), 0, 0, 1, 1),
        mirror_type == NametableMirroring::Vertical ==> spec_nametable_layout(final(context).spec_nt_pages(), 0, 1, 0, 1),
        mirror_type == NametableMirroring::FourScreens ==> spec_nametable_layout(final(context).spec_nt_pages(), 0, 1, 2, 3),
        Context::spec_same_except_nt(*old(context), *final(context)),
{
    match mirror_type {
        NametableMirroring::Horizontal => set_nametable_horizontal(context),
        NametableMirroring::Vertical => set_nametable_vertical(context),
        NametableMirroring::FourScreens => set_nametable_four_screen(context),
        NametableMirroring::Other => {},
    }
}

/// With horizontal mirroring, $2000 and $2400 show the same byte, and so do
/// $2800 and $2C00; the two pairs are different memory.
pub proof fn lemma_horizontal_mirroring(m: AddressMapper<4>, offset: u16)
    requires
        m.wf(),
        m.base() == 0x2000,
        spec_nametable_layout(m.pages(), 0, 0, 1, 1),
        offset < 0x400,
    ensures
        m.spec_translate((0x2000 + offset) as u16) == offset,
        m.spec_translate((0x2400 + offset) as u16) == offset,
        m.spec_translate((0x2800 + offset) as u16) == 0x400 + offset,
        m.spec_translate((0x2C00 + offset) as u16) == 0x400 + offset,
{
    crate::nes::paging::lemma_bank_entry_translate(SIZE_1K, 0, offset as usize);
    crate::nes::paging::lemma_bank_entry_translate(SIZE_1K, 0, (0x400 + offset) as usize);
    crate::nes::paging::lemma_bank_entry_translate(SIZE_1K, 1, (0x800 + offset) as usize);
    crate::nes::paging::lemma_bank_entry_translate(SIZE_1K, 1, (0xC00 + offset) as usize);
}

/// With vertical mirroring, $2000 and $2800 show the same byte, and so do
/// $2400 and $2C00.
pub proof fn lemma_vertical_mirroring(m: AddressMapper<4>, offset: u16)
    requires
        m.wf(),
        m.base() == 0x2000,
        spec_nametable_layout(m.pages(), 0, 1, 0, 1),
        offset < 0x400,
    ensures
        m.spec_translate((0x2000 + offset) as u16) == offset,
        m.spec_translate((0x2400 + offset) as u16) == 0x400 + offset,
        m.spec_translate((0x2800 + offset) as u16) == offset,
        m.spec_translate((0x2C00 + offset) as u16) == 0x400 + offset,
{
    crate::nes::paging::lemma_bank_entry_translate(SIZE_1K, 0, offset as usize);
    crate::nes::paging::lemma_bank_entry_translate(SIZE_1K, 1, (0x400 + offset) as usize);
    crate::nes::paging::lemma_bank_entry_translate(SIZE_1K, 0, (0x800 + offset) as usize);
    crate::nes::paging::lemma_bank_entry_translate(SIZE_1K, 1, (0xC00 + offset) as usize);
}

/// After a CPU write to internal RAM, a read of the same byte through any of
/// its 2 KB mirrors gives back what was written.
pub proof fn lemma_context_ram_write_read(a: Context, b: Context, address: u16, other: u16, data: u8, open_bus: u8)
    requires
        a.spec_sys_ram().len() == SIZE_2K,
        Context::spec_ram_written(a, b, address, data),
        address & 0x7FF == other & 0x7FF,
    ensures
        b.spec_sys_ram().len() == SIZE_2K,
        b.spec_ram_read(other, open_bus) == data,
{
    lemma_internal_ram_mirrors(a.sys_ram@, address, other, data, open_bus);
}

/// The memory a mapper reaches from the CPU and PPU buses.
pub trait Mapper: Sized {
    /// What a CPU read of internal RAM at `address` gives (`open_bus` on a
    /// board without it).
    spec fn spec_ram_read(&self, address: u16, open_bus: u8) -> u8;
    /// `b` is `a` after a CPU write of `data` to internal RAM at `address`.
    spec fn spec_ram_written(a: Self, b: Self, address: u16, data: u8) -> bool;
    /// The board carries the console's 2 KB of internal RAM.
    spec fn spec_has_ram(&self) -> bool;
    /// What a CPU read of the expansion area ($4020-$5FFF) gives.
    spec fn spec_exp_read(&self, address: u16, open_bus: u8) -> u8;
    /// What a CPU read of work RAM ($6000-$7FFF) gives.
    spec fn spec_wram_read(&self, address: u16, open_bus: u8) -> u8;
    /// What a CPU read of PRG ROM ($8000-$FFFF) gives.
    spec fn spec_prg_read(&self, address: u16, open_bus: u8) -> u8;
    /// What a PPU read of the pattern tables ($0000-$1FFF) gives.
    spec fn spec_chr_read(&self, address: u16, open_bus: u8) -> u8;
    /// What a PPU read of the nametables ($2000-$3EFF) gives.
    spec fn spec_nt_read(&self, address: u16, open_bus: u8) -> u8;
    /// `b` is `a` after a CPU write of `data` to the expansion area.
    spec fn spec_exp_written(a: Self, b: Self, address: u16, data: u8) -> bool;
    /// `b` is `a` after a CPU write of `data` to work RAM.
    spec fn spec_wram_written(a: Self, b: Self, address: u16, data: u8) -> bool;
    /// `b` is `a` after a CPU write of `data` to $8000-$FFFF (the mapper's
    /// registers).
    spec fn spec_prg_written(a: Self, b: Self, address: u16, data: u8) -> bool;
    /// `b` is `a` after a PPU write of `data` to the pattern tables.
    spec fn spec_chr_written(a: Self, b: Self, address: u16, data: u8) -> bool;
    /// `b` is `a` after a PPU write of `data` to the nametables.
    spec fn spec_nt_written(a: Self, b: Self, address: u16, data: u8) -> bool;
    /// `b` is `a` after watching a CPU cycle with pins `pinout`.
    spec fn spec_cpu_ticked(a: Self, b: Self, pinout: mos::Pinout) -> bool;
    /// `b` is `a` after watching a PPU cycle with pins `pinout`.
    spec fn spec_ppu_ticked(a: Self, b: Self, pinout: ppu::Pinout) -> bool;

    /// Internal RAM is memory: on a board with RAM, after a write, a read of
    /// the same byte through any of its 2 KB mirrors gives back what was
    /// written.
    proof fn lemma_ram_write_read(a: Self, b: Self, address: u16, other: u16, data: u8, open_bus: u8)
        requires
            Self::spec_ram_written(a, b, address, data),
            address & 0x7FF == other & 0x7FF,
        ensures
            a.spec_has_ram() ==> b.spec_has_ram() && b.spec_ram_read(other, open_bus) == data,
    ;

    // CPU
    fn read_cpu_internal_ram(&mut self, pinout: mos::Pinout) -> (r: mos::Pinout)
        ensures
            r == (mos::Pinout { data: old(self).spec_ram_read(pinout.address, pinout.data), ..pinout }),
            *final(self) == *old(self),
    ;
    /// $4020-$5FFF
    fn read_cpu_exp(&mut self, pinout: mos::Pinout) -> (r: mos::Pinout)
        ensures
            r == (mos::Pinout { data: old(self).spec_exp_read(pinout.address, pinout.data), ..pinout }),
            *final(self) == *old(self),
    ;
    fn read_cpu_wram(&mut self, pinout: mos::Pinout) -> (r: mos::Pinout)
        ensures
            r == (mos::Pinout { data: old(self).spec_wram_read(pinout.address, pinout.data), ..pinout }),
            *final(self) == *old(self),
    ;
    fn read_cpu_prg(&mut self, pinout: mos::Pinout) -> (r: mos::Pinout)
        ensures
            r == (mos::Pinout { data: old(self).spec_prg_read(pinout.address, pinout.data), ..pinout }),
            *final(self) == *old(self),
    ;

    fn write_cpu_internal_ram(&mut self, pinout: mos::Pinout) -> (r: mos::Pinout)
        ensures
            r == pinout,
            Self::spec_ram_written(*old(self), *final(self), pinout.address, pinout.data),
    ;
    /// $4020-$5FFF
    fn write_cpu_exp(&mut self, pinout: mos::Pinout) -> (r: mos::Pinout)
        ensures
            r == pinout,
            Self::spec_exp_written(*old(self), *final(self), pinout.address, pinout.data),
    ;
    fn write_cpu_wram(&mut self, pinout: mos::Pinout) -> (r: mos::Pinout)
        ensures
            r == pinout,
            Self::spec_wram_written(*old(self), *final(self), pinout.address, pinout.data),
    ;
    fn write_cpu_prg(&mut self, pinout: mos::Pinout) -> (r: mos::Pinout)
        ensures
            r == pinout,
            Self::spec_prg_written(*old(self), *final(self), pinout.address, pinout.data),
    ;

    // PPU
    fn read_ppu_chr(&mut self, pinout: ppu::Pinout) -> (r: ppu::Pinout)
        ensures
            r == (ppu::Pinout { data: old(self).spec_chr_read(pinout.address, pinout.data), ..pinout }),
            *final(self) == *old(self),
    ;
    fn read_ppu_nt(&mut self, pinout: ppu::Pinout) -> (r: ppu::Pinout)
        ensures
            r == (ppu::Pinout { data: old(self).spec_nt_read(pinout.address, pinout.data), ..pinout }),
            *final(self) == *old(self),
    ;

    fn write_ppu_chr(&mut self, pinout: ppu::Pinout) -> (r: ppu::Pinout)
        ensures
            r == pinout,
            Self::spec_chr_written(*old(self), *final(self), pinout.address, pinout.data),
    ;
    fn write_ppu_nt(&mut self, pinout: ppu::Pinout) -> (r: ppu::Pinout)
        ensures
            r == pinout,
            Self::spec_nt_written(*old(self), *final(self), pinout.address, pinout.data),
    ;

    /// Sees every cpu cycle (for mappers that watch the bus).
    fn cpu_tick(&mut self, pinout: mos::Pinout) -> (r: mos::Pinout)
        ensures
            r == pinout,
            Self::spec_cpu_ticked(*old(self), *final(self), pinout),
    ;
    /// Sees every ppu cycle (for mappers that watch the bus).
    fn ppu_tick(&mut self, pinout: ppu::Pinout) -> (r: ppu::Pinout)
        ensures
            r == pinout,
            Self::spec_ppu_ticked(*old(self), *final(self), pinout),
    ;
}

} // verus!
