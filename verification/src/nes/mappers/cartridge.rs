//! The cartridge in the slot: one of the supported mappers.

use vstd::prelude::*;
use crate::mos;
use crate::nes::ppu;
use crate::nes::paging::{SIZE_16K, SIZE_32K};
use crate::nes::rom::{RomImage, NametableMirroring};
use super::Mapper;
use super::mapper_null::MapperNull;
use super::mapper_nrom::MapperNrom;
use super::mapper1::Mapper1;
use super::mapper3::Mapper3;
use super::mapper_debug::MapperDebug;

verus! {

/// Why no mapper could be built for a ROM image.
#[derive(Debug, Clone, Copy, PartialEq, Eq, Structural)]
pub enum MapperError {
    /// The image asks for a mapper this library does not have.
    UnsupportedMapper(u32),
    /// The PRG ROM size does not fit the board.
    InvalidPrgSize(u32),
    /// The board needs CHR ROM and the image has none.
    MissingChrRom,
    /// The header's mirroring is not one the board can wire.
    UnsupportedMirroring,
}

pub enum Cartridge {
    Null(MapperNull),
    Nrom(MapperNrom),
    Mmc1(Mapper1),
    Cnrom(Mapper3),
    Debug(MapperDebug),
}

/// An empty slot.
pub fn create_mapper_null() -> (r: Cartridge)
    ensures r is Null,
{
    Cartridge::Null(MapperNull)
}

/// A fixed NROM or CNROM PRG ROM is 16 or 32 KB.
pub open spec fn spec_fixed_prg_size(size: u32) -> bool {
    size == SIZE_16K || size == SIZE_32K
}

/// The error `create_mapper` gives for an image, if any.
pub open spec fn spec_create_error(mapper: u32, prg_rom_size: u32, prg_len: nat, chr_len: nat, mirroring: NametableMirroring) -> Option<MapperError> {
    if mapper != 0 && mapper != 1 && mapper != 3 {
        Some(MapperError::UnsupportedMapper(mapper))
    } else if mirroring == NametableMirroring::Other {
        Some(MapperError::UnsupportedMirroring)
    } else if mapper == 1 {
        if prg_len < SIZE_16K {
            Some(MapperError::InvalidPrgSize(prg_rom_size))
        } else {
            None
        }
    } else if !spec_fixed_prg_size(prg_rom_size) {
        Some(MapperError::InvalidPrgSize(prg_rom_size))
    } else if mapper == 3 && chr_len == 0 {
        Some(MapperError::MissingChrRom)
    } else {
        None
    }
}

/// A board built from image `v`: the kind its mapper number names, with the
/// image's PRG ROM (and, on CNROM, its CHR ROM).
pub open spec fn spec_built_from(c: Cartridge, v: crate::nes::rom::RomImageView) -> bool {
    &&& (v.mapper == 0 <==> c is Nrom) && (v.mapper == 1 <==> c is Mmc1) && (v.mapper == 3 <==> c is Cnrom)
    &&& c matches Cartridge::Nrom(m) ==> m.context.spec_prg_rom() == v.prg_data
    &&& c matches Cartridge::Mmc1(m) ==> m.context.spec_prg_rom() == v.prg_data
    &&& c matches Cartridge::Cnrom(m) ==> m.context.spec_prg_rom() == v.prg_data && m.context.spec_chr() == v.chr_data
}

/// Builds the board a ROM image asks for: NROM (0), MMC1 (1) or CNROM (3).
pub fn create_mapper(rom: &RomImage) -> (r: Result<Cartridge, MapperError>)
    ensures
        r matches Ok(c) ==> spec_built_from(c, rom@),
        ({
            let err = spec_create_error(rom.mapper, rom.prg_rom_size, rom.prg_data@.len(), rom.chr_data@.len(), rom.nametable_mirroring);
            &&& err is Some <==> r is Err
            &&& r matches Err(e) ==> err == Some(e)
            &&& r matches Ok(c) ==> (rom.mapper == 0 <==> c is Nrom) && (rom.mapper == 1 <==> c is Mmc1)
                && (rom.mapper == 3 <==> c is Cnrom)
            &&& r matches Ok(Cartridge::Nrom(m)) ==> m.context.spec_prg_rom() == rom.prg_data@
            &&& r matches Ok(Cartridge::Mmc1(m)) ==> m.context.spec_prg_rom() == rom.prg_data@
            &&& r matches Ok(Cartridge::Cnrom(m)) ==> m.context.spec_prg_rom() == rom.prg_data@
                && m.context.spec_chr() == rom.chr_data@
        }),
{
    if rom.mapper != 0 && rom.mapper != 1 && rom.mapper != 3 {
        return Err(MapperError::UnsupportedMapper(rom.mapper));
    }
    if rom.nametable_mirroring == NametableMirroring::Other {
        return Err(MapperError::UnsupportedMirroring);
    }
    if rom.mapper == 1 {
        if rom.prg_data.len() < SIZE_16K {
            return Err(MapperError::InvalidPrgSize(rom.prg_rom_size));
        }
        return Ok(Cartridge::Mmc1(Mapper1::from_ines(rom)));
    }
    if rom.prg_rom_size as usize != SIZE_16K && rom.prg_rom_size as usize != SIZE_32K {
        return Err(MapperError::InvalidPrgSize(rom.prg_rom_size));
    }
    if rom.mapper == 3 {
        if rom.chr_data.len() == 0 {
            return Err(MapperError::MissingChrRom);
        }
        return Ok(Cartridge::Cnrom(Mapper3::from_ines(rom)));
    }
    Ok(Cartridge::Nrom(MapperNrom::from_ines(rom)))
}

impl Mapper for Cartridge {
    open spec fn spec_ram_read(&self, address: u16, open_bus: u8) -> u8 {
        match self {
            Cartridge::Null(m) => m.spec_ram_read(address, open_bus),
            Cartridge::Nrom(m) => m.spec_ram_read(address, open_bus),
            Cartridge::Mmc1(m) => m.spec_ram_read(address, open_bus),
            Cartridge::Cnrom(m) => m.spec_ram_read(address, open_bus),
            Cartridge::Debug(m) => m.spec_ram_read(address, open_bus),
        }
    }

    open spec fn spec_ram_written(a: Self, b: Self, address: u16, data: u8) -> bool {
        match (a, b) {
            (Cartridge::Null(x), Cartridge::Null(y)) => MapperNull::spec_ram_written(x, y, address, data),
            (Cartridge::Nrom(x), Cartridge::Nrom(y)) => MapperNrom::spec_ram_written(x, y, address, data),
            (Cartridge::Mmc1(x), Cartridge::Mmc1(y)) => Mapper1::spec_ram_written(x, y, address, data),
            (Cartridge::Cnrom(x), Cartridge::Cnrom(y)) => Mapper3::spec_ram_written(x, y, address, data),
            (Cartridge::Debug(x), Cartridge::Debug(y)) => MapperDebug::spec_ram_written(x, y, address, data),
            _ => false,
        }
    }

    open spec fn spec_has_ram(&self) -> bool {
        match self {
            Cartridge::Null(m) => m.spec_has_ram(),
            Cartridge::Nrom(m) => m.spec_has_ram(),
            Cartridge::Mmc1(m) => m.spec_has_ram(),
            Cartridge::Cnrom(m) => m.spec_has_ram(),
            Cartridge::Debug(m) => m.spec_has_ram(),
        }
    }

    open spec fn spec_exp_read(&self, address: u16, open_bus: u8) -> u8 {
        match self {
            Cartridge::Null(m) => m.spec_exp_read(address, open_bus),
            Cartridge::Nrom(m) => m.spec_exp_read(address, open_bus),
            Cartridge::Mmc1(m) => m.spec_exp_read(address, open_bus),
            Cartridge::Cnrom(m) => m.spec_exp_read(address, open_bus),
            Cartridge::Debug(m) => m.spec_exp_read(address, open_bus),
        }
    }

    open spec fn spec_wram_read(&self, address: u16, open_bus: u8) -> u8 {
        match self {
            Cartridge::Null(m) => m.spec_wram_read(address, open_bus),
            Cartridge::Nrom(m) => m.spec_wram_read(address, open_bus),
            Cartridge::Mmc1(m) => m.spec_wram_read(address, open_bus),
            Cartridge::Cnrom(m) => m.spec_wram_read(address, open_bus),
            Cartridge::Debug(m) => m.spec_wram_read(address, open_bus),
        }
    }

    open spec fn spec_prg_read(&self, address: u16, open_bus: u8) -> u8 {
        match self {
            Cartridge::Null(m) => m.spec_prg_read(address, open_bus),
            Cartridge::Nrom(m) => m.spec_prg_read(address, open_bus),
            Cartridge::Mmc1(m) => m.spec_prg_read(address, open_bus),
            Cartridge::Cnrom(m) => m.spec_prg_read(address, open_bus),
            Cartridge::Debug(m) => m.spec_prg_read(address, open_bus),
        }
    }

    open spec fn spec_chr_read(&self, address: u16, open_bus: u8) -> u8 {
        match self {
            Cartridge::Null(m) => m.spec_chr_read(address, open_bus),
            Cartridge::Nrom(m) => m.spec_chr_read(address, open_bus),
            Cartridge::Mmc1(m) => m.spec_chr_read(address, open_bus),
            Cartridge::Cnrom(m) => m.spec_chr_read(address, open_bus),
            Cartridge::Debug(m) => m.spec_chr_read(address, open_bus),
        }
    }

    open spec fn spec_nt_read(&self, address: u16, open_bus: u8) -> u8 {
        match self {
            Cartridge::Null(m) => m.spec_nt_read(address, open_bus),
            Cartridge::Nrom(m) => m.spec_nt_read(address, open_bus),
            Cartridge::Mmc1(m) => m.spec_nt_read(address, open_bus),
            Cartridge::Cnrom(m) => m.spec_nt_read(address, open_bus),
            Cartridge::Debug(m) => m.spec_nt_read(address, open_bus),
        }
    }

    open spec fn spec_exp_written(a: Self, b: Self, address: u16, data: u8) -> bool {
        match (a, b) {
            (Cartridge::Null(x), Cartridge::Null(y)) => MapperNull::spec_exp_written(x, y, address, data),
            (Cartridge::Nrom(x), Cartridge::Nrom(y)) => MapperNrom::spec_exp_written(x, y, address, data),
            (Cartridge::Mmc1(x), Cartridge::Mmc1(y)) => Mapper1::spec_exp_written(x, y, address, data),
            (Cartridge::Cnrom(x), Cartridge::Cnrom(y)) => Mapper3::spec_exp_written(x, y, address, data),
            (Cartridge::Debug(x), Cartridge::Debug(y)) => MapperDebug::spec_exp_written(x, y, address, data),
            _ => false,
        }
    }

    open spec fn spec_wram_written(a: Self, b: Self, address: u16, data: u8) -> bool {
        match (a, b) {
            (Cartridge::Null(x), Cartridge::Null(y)) => MapperNull::spec_wram_written(x, y, address, data),
            (Cartridge::Nrom(x), Cartridge::Nrom(y)) => MapperNrom::spec_wram_written(x, y, address, data),
            (Cartridge::Mmc1(x), Cartridge::Mmc1(y)) => Mapper1::spec_wram_written(x, y, address, data),
            (Cartridge::Cnrom(x), Cartridge::Cnrom(y)) => Mapper3::spec_wram_written(x, y, address, data),
            (Cartridge::Debug(x), Cartridge::Debug(y)) => MapperDebug::spec_wram_written(x, y, address, data),
            _ => false,
        }
    }

    open spec fn spec_prg_written(a: Self, b: Self, address: u16, data: u8) -> bool {
        match (a, b) {
            (Cartridge::Null(x), Cartridge::Null(y)) => MapperNull::spec_prg_written(x, y, address, data),
            (Cartridge::Nrom(x), Cartridge::Nrom(y)) => MapperNrom::spec_prg_written(x, y, address, data),
            (Cartridge::Mmc1(x), Cartridge::Mmc1(y)) => Mapper1::spec_prg_written(x, y, address, data),
            (Cartridge::Cnrom(x), Cartridge::Cnrom(y)) => Mapper3::spec_prg_written(x, y, address, data),
            (Cartridge::Debug(x), Cartridge::Debug(y)) => MapperDebug::spec_prg_written(x, y, address, data),
            _ => false,
        }
    }

    open spec fn spec_chr_written(a: Self, b: Self, address: u16, data: u8) -> bool {
        match (a, b) {
            (Cartridge::Null(x), Cartridge::Null(y)) => MapperNull::spec_chr_written(x, y, address, data),
            (Cartridge::Nrom(x), Cartridge::Nrom(y)) => MapperNrom::spec_chr_written(x, y, address, data),
            (Cartridge::Mmc1(x), Cartridge::Mmc1(y)) => Mapper1::spec_chr_written(x, y, address, data),
            (Cartridge::Cnrom(x), Cartridge::Cnrom(y)) => Mapper3::spec_chr_written(x, y, address, data),
            (Cartridge::Debug(x), Cartridge::Debug(y)) => MapperDebug::spec_chr_written(x, y, address, data),
            _ => false,
        }
    }

    open spec fn spec_nt_written(a: Self, b: Self, address: u16, data: u8) -> bool {
        match (a, b) {
            (Cartridge::Null(x), Cartridge::Null(y)) => MapperNull::spec_nt_written(x, y, address, data),
            (Cartridge::Nrom(x), Cartridge::Nrom(y)) => MapperNrom::spec_nt_written(x, y, address, data),
            (Cartridge::Mmc1(x), Cartridge::Mmc1(y)) => Mapper1::spec_nt_written(x, y, address, data),
            (Cartridge::Cnrom(x), Cartridge::Cnrom(y)) => Mapper3::spec_nt_written(x, y, address, data),
            (Cartridge::Debug(x), Cartridge::Debug(y)) => MapperDebug::spec_nt_written(x, y, address, data),
            _ => false,
        }
    }

    open spec fn spec_cpu_ticked(a: Self, b: Self, pinout: mos::Pinout) -> bool {
        match (a, b) {
            (Cartridge::Null(x), Cartridge::Null(y)) => MapperNull::spec_cpu_ticked(x, y, pinout),
            (Cartridge::Nrom(x), Cartridge::Nrom(y)) => MapperNrom::spec_cpu_ticked(x, y, pinout),
            (Cartridge::Mmc1(x), Cartridge::Mmc1(y)) => Mapper1::spec_cpu_ticked(x, y, pinout),
            (Cartridge::Cnrom(x), Cartridge::Cnrom(y)) => Mapper3::spec_cpu_ticked(x, y, pinout),
            (Cartridge::Debug(x), Cartridge::Debug(y)) => MapperDebug::spec_cpu_ticked(x, y, pinout),
            _ => false,
        }
    }

    open spec fn spec_ppu_ticked(a: Self, b: Self, pinout: ppu::Pinout) -> bool {
        match (a, b) {
            (Cartridge::Null(x), Cartridge::Null(y)) => MapperNull::spec_ppu_ticked(x, y, pinout),
            (Cartridge::Nrom(x), Cartridge::Nrom(y)) => MapperNrom::spec_ppu_ticked(x, y, pinout),
            (Cartridge::Mmc1(x), Cartridge::Mmc1(y)) => Mapper1::spec_ppu_ticked(x, y, pinout),
            (Cartridge::Cnrom(x), Cartridge::Cnrom(y)) => Mapper3::spec_ppu_ticked(x, y, pinout),
            (Cartridge::Debug(x), Cartridge::Debug(y)) => MapperDebug::spec_ppu_ticked(x, y, pinout),
            _ => false,
        }
    }

    proof fn lemma_ram_write_read(a: Self, b: Self, address: u16, other: u16, data: u8, open_bus: u8) {
        match (a, b) {
            (Cartridge::Nrom(x), Cartridge::Nrom(y)) => MapperNrom::lemma_ram_write_read(x, y, address, other, data, open_bus),
            (Cartridge::Mmc1(x), Cartridge::Mmc1(y)) => Mapper1::lemma_ram_write_read(x, y, address, other, data, open_bus),
            (Cartridge::Cnrom(x), Cartridge::Cnrom(y)) => Mapper3::lemma_ram_write_read(x, y, address, other, data, open_bus),
            (Cartridge::Debug(x), Cartridge::Debug(y)) => MapperDebug::lemma_ram_write_read(x, y, address, other, data, open_bus),
            _ => {},
        }
    }

    fn read_cpu_internal_ram(&mut self, pinout: mos::Pinout) -> mos::Pinout {
        match self {
            Cartridge::Null(m) => m.read_cpu_internal_ram(pinout),
            Cartridge::Nrom(m) => m.read_cpu_internal_ram(pinout),
            Cartridge::Mmc1(m) => m.read_cpu_internal_ram(pinout),
            Cartridge::Cnrom(m) => m.read_cpu_internal_ram(pinout),
            Cartridge::Debug(m) => m.read_cpu_internal_ram(pinout),
        }
    }

    fn read_cpu_exp(&mut self, pinout: mos::Pinout) -> mos::Pinout {
        match self {
            Cartridge::Null(m) => m.read_cpu_exp(pinout),
            Cartridge::Nrom(m) => m.read_cpu_exp(pinout),
            Cartridge::Mmc1(m) => m.read_cpu_exp(pinout),
            Cartridge::Cnrom(m) => m.read_cpu_exp(pinout),
            Cartridge::Debug(m) => m.read_cpu_exp(pinout),
        }
    }

    fn read_cpu_wram(&mut self, pinout: mos::Pinout) -> mos::Pinout {
        match self {
            Cartridge::Null(m) => m.read_cpu_wram(pinout),
            Cartridge::Nrom(m) => m.read_cpu_wram(pinout),
            Cartridge::Mmc1(m) => m.read_cpu_wram(pinout),
            Cartridge::Cnrom(m) => m.read_cpu_wram(pinout),
            Cartridge::Debug(m) => m.read_cpu_wram(pinout),
        }
    }

    fn read_cpu_prg(&mut self, pinout: mos::Pinout) -> mos::Pinout {
        match self {
            Cartridge::Null(m) => m.read_cpu_prg(pinout),
            Cartridge::Nrom(m) => m.read_cpu_prg(pinout),
            Cartridge::Mmc1(m) => m.read_cpu_prg(pinout),
            Cartridge::Cnrom(m) => m.read_cpu_prg(pinout),
            Cartridge::Debug(m) => m.read_cpu_prg(pinout),
        }
    }

    fn write_cpu_internal_ram(&mut self, pinout: mos::Pinout) -> mos::Pinout {
        match self {
            Cartridge::Null(m) => m.write_cpu_internal_ram(pinout),
            Cartridge::Nrom(m) => m.write_cpu_internal_ram(pinout),
            Cartridge::Mmc1(m) => m.write_cpu_internal_ram(pinout),
            Cartridge::Cnrom(m) => m.write_cpu_internal_ram(pinout),
            Cartridge::Debug(m) => m.write_cpu_internal_ram(pinout),
        }
    }

    fn write_cpu_exp(&mut self, pinout: mos::Pinout) -> mos::Pinout {
        match self {
            Cartridge::Null(m) => m.write_cpu_exp(pinout),
            Cartridge::Nrom(m) => m.write_cpu_exp(pinout),
            Cartridge::Mmc1(m) => m.write_cpu_exp(pinout),
            Cartridge::Cnrom(m) => m.write_cpu_exp(pinout),
            Cartridge::Debug(m) => m.write_cpu_exp(pinout),
        }
    }

    fn write_cpu_wram(&mut self, pinout: mos::Pinout) -> mos::Pinout {
        match self {
            Cartridge::Null(m) => m.write_cpu_wram(pinout),
            Cartridge::Nrom(m) => m.write_cpu_wram(pinout),
            Cartridge::Mmc1(m) => m.write_cpu_wram(pinout),
            Cartridge::Cnrom(m) => m.write_cpu_wram(pinout),
            Cartridge::Debug(m) => m.write_cpu_wram(pinout),
        }
    }

    fn write_cpu_prg(&mut self, pinout: mos::Pinout) -> mos::Pinout {
        match self {
            Cartridge::Null(m) => m.write_cpu_prg(pinout),
            Cartridge::Nrom(m) => m.write_cpu_prg(pinout),
            Cartridge::Mmc1(m) => m.write_cpu_prg(pinout),
            Cartridge::Cnrom(m) => m.write_cpu_prg(pinout),
            Cartridge::Debug(m) => m.write_cpu_prg(pinout),
        }
    }

    fn read_ppu_chr(&mut self, pinout: ppu::Pinout) -> ppu::Pinout {
        match self {
            Cartridge::Null(m) => m.read_ppu_chr(pinout),
            Cartridge::Nrom(m) => m.read_ppu_chr(pinout),
            Cartridge::Mmc1(m) => m.read_ppu_chr(pinout),
            Cartridge::Cnrom(m) => m.read_ppu_chr(pinout),
            Cartridge::Debug(m) => m.read_ppu_chr(pinout),
        }
    }

    fn read_ppu_nt(&mut self, pinout: ppu::Pinout) -> ppu::Pinout {
        match self {
            Cartridge::Null(m) => m.read_ppu_nt(pinout),
            Cartridge::Nrom(m) => m.read_ppu_nt(pinout),
            Cartridge::Mmc1(m) => m.read_ppu_nt(pinout),
            Cartridge::Cnrom(m) => m.read_ppu_nt(pinout),
            Cartridge::Debug(m) => m.read_ppu_nt(pinout),
        }
    }

    fn write_ppu_chr(&mut self, pinout: ppu::Pinout) -> ppu::Pinout {
        match self {
            Cartridge::Null(m) => m.write_ppu_chr(pinout),
            Cartridge::Nrom(m) => m.write_ppu_chr(pinout),
            Cartridge::Mmc1(m) => m.write_ppu_chr(pinout),
            Cartridge::Cnrom(m) => m.write_ppu_chr(pinout),
            Cartridge::Debug(m) => m.write_ppu_chr(pinout),
        }
    }

    fn write_ppu_nt(&mut self, pinout: ppu::Pinout) -> ppu::Pinout {
        match self {
            Cartridge::Null(m) => m.write_ppu_nt(pinout),
            Cartridge::Nrom(m) => m.write_ppu_nt(pinout),
            Cartridge::Mmc1(m) => m.write_ppu_nt(pinout),
            Cartridge::Cnrom(m) => m.write_ppu_nt(pinout),
            Cartridge::Debug(m) => m.write_ppu_nt(pinout),
        }
    }

    fn cpu_tick(&mut self, pinout: mos::Pinout) -> mos::Pinout {
        match self {
            Cartridge::Null(m) => m.cpu_tick(pinout),
            Cartridge::Nrom(m) => m.cpu_tick(pinout),
            Cartridge::Mmc1(m) => m.cpu_tick(pinout),
            Cartridge::Cnrom(m) => m.cpu_tick(pinout),
            Cartridge::Debug(m) => m.cpu_tick(pinout),
        }
    }

    fn ppu_tick(&mut self, pinout: ppu::Pinout) -> ppu::Pinout {
        match self {
            Cartridge::Null(m) => m.ppu_tick(pinout),
            Cartridge::Nrom(m) => m.ppu_tick(pinout),
            Cartridge::Mmc1(m) => m.ppu_tick(pinout),
            Cartridge::Cnrom(m) => m.ppu_tick(pinout),
            Cartridge::Debug(m) => m.ppu_tick(pinout),
        }
    }
}

/// Where each of the four nametables starts in the PPU address space, for
/// a mirroring type.
#[derive(PartialEq, Eq, Structural, Debug, Clone, Copy)]
pub struct NametableOffset {
    pub nt_a: u16,
    pub nt_b: u16,
    pub nt_c: u16,
    pub nt_d: u16,
}

#[derive(PartialEq, Eq, Structural, Debug, Clone, Copy)]
pub enum NametableType {
    Horizontal,
    Vertical,
    SingleScreen,
    FourScreen,
    Diagonal,
    LShaped,
    ThreeScreenVertical,
    ThreeScreenHorizontal,
    ThreeScreenDiagonal,
}

impl NametableOffset {
    pub fn new(a: u16, b: u16, c: u16, d: u16) -> (r: NametableOffset)
        ensures r == (NametableOffset { nt_a: a, nt_b: b, nt_c: c, nt_d: d }),
    {
        NametableOffset { nt_a: a, nt_b: b, nt_c: c, nt_d: d }
    }

    pub open spec fn spec_from_nametable(nt_type: NametableType) -> NametableOffset {
        match nt_type {
            NametableType::Horizontal => NametableOffset { nt_a: 0x2000, nt_b: 0x2400, nt_c: 0x2000, nt_d: 0x2400 },
            NametableType::Vertical => NametableOffset { nt_a: 0x2000, nt_b: 0x2000, nt_c: 0x2800, nt_d: 0x2800 },
            NametableType::SingleScreen => NametableOffset { nt_a: 0x2000, nt_b: 0x2400, nt_c: 0x2800, nt_d: 0x2C00 },
            NametableType::FourScreen => NametableOffset { nt_a: 0x2000, nt_b: 0x2000, nt_c: 0x2000, nt_d: 0x2000 },
            NametableType::Diagonal => NametableOffset { nt_a: 0x2000, nt_b: 0x2000, nt_c: 0x2400, nt_d: 0x2C00 },
            NametableType::LShaped => NametableOffset { nt_a: 0x2000, nt_b: 0x2000, nt_c: 0x2400, nt_d: 0x2800 },
            NametableType::ThreeScreenVertical => NametableOffset { nt_a: 0x2000, nt_b: 0x2000, nt_c: 0x2000, nt_d: 0x2800 },
            NametableType::ThreeScreenHorizontal => NametableOffset { nt_a: 0x2000, nt_b: 0x2000, nt_c: 0x2000, nt_d: 0x2400 },
            NametableType::ThreeScreenDiagonal => NametableOffset { nt_a: 0x2000, nt_b: 0x2000, nt_c: 0x2400, nt_d: 0x2000 },
        }
    }

    /// The offsets subtracted from each nametable's addresses to reach VRAM.
    pub fn from_nametable(nt_type: NametableType) -> (r: NametableOffset)
        ensures r == NametableOffset::spec_from_nametable(nt_type),
    {
        match nt_type {
            NametableType::Horizontal => NametableOffset::new(0x2000, 0x2400, 0x2000, 0x2400),
            NametableType::Vertical => NametableOffset::new(0x2000, 0x2000, 0x2800, 0x2800),
            NametableType::SingleScreen => NametableOffset::new(0x2000, 0x2400, 0x2800, 0x2C00),
            NametableType::FourScreen => NametableOffset::new(0x2000, 0x2000, 0x2000, 0x2000),
            NametableType::Diagonal => NametableOffset::new(0x2000, 0x2000, 0x2400, 0x2C00),
            NametableType::LShaped => NametableOffset::new(0x2000, 0x2000, 0x2400, 0x2800),
            NametableType::ThreeScreenVertical => NametableOffset::new(0x2000, 0x2000, 0x2000, 0x2800),
            NametableType::ThreeScreenHorizontal => NametableOffset::new(0x2000, 0x2000, 0x2000, 0x2400),
            NametableType::ThreeScreenDiagonal => NametableOffset::new(0x2000, 0x2000, 0x2400, 0x2000),
        }
    }
}

} // verus!
