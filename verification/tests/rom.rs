use rustnes::mos::Pinout;
use rustnes::nes::mappers::cartridge::{create_mapper, Cartridge, MapperError};
use rustnes::nes::mappers::Mapper;
use rustnes::nes::rom::{NametableMirroring, RomImage, RomLoadError};

fn ines_image(prg_banks: u8, chr_banks: u8, flags6: u8, flags7: u8) -> Vec<u8> {
    let mut bytes = vec![0x4e, 0x45, 0x53, 0x1a, prg_banks, chr_banks, flags6, flags7, 0, 0, 0, 0, 0, 0, 0, 0];
    for i in 0..(prg_banks as usize * 16384) {
        bytes.push((i % 251) as u8);
    }
    for _ in 0..(chr_banks as usize * 8192) {
        bytes.push(0xAA);
    }
    bytes
}

#[test]
fn rom_shorter_than_a_header_is_an_io_error() {
    assert_eq!(RomImage::from_ines_bytes(&[0x4e, 0x45, 0x53]).err(), Some(RomLoadError::IOError));
}

#[test]
fn rom_without_magic_is_invalid_format() {
    let bytes = [0u8; 32];
    assert_eq!(RomImage::from_ines_bytes(&bytes).err(), Some(RomLoadError::InvalidFormat));
}

#[test]
fn rom_claiming_vs_and_playchoice_is_invalid() {
    let bytes = ines_image(1, 1, 0, 0x03);
    assert_eq!(RomImage::from_ines_bytes(&bytes).err(), Some(RomLoadError::InvalidRom));
}

#[test]
fn truncated_rom_is_an_io_error() {
    let mut bytes = ines_image(1, 1, 0, 0);
    bytes.truncate(1000);
    assert_eq!(RomImage::from_ines_bytes(&bytes).err(), Some(RomLoadError::IOError));
}

#[test]
fn nes2_header_with_large_input_byte_is_refused() {
    let mut bytes = ines_image(1, 1, 0, 0x08);
    bytes[15] = 5;
    assert_eq!(RomImage::from_ines_bytes(&bytes).err(), Some(RomLoadError::InvalidRom));
}

#[test]
fn minimal_nrom_image_parses() {
    let bytes = ines_image(1, 1, 0x01, 0);
    let rom = RomImage::from_ines_bytes(&bytes).unwrap();
    assert_eq!(rom.mapper, 0);
    assert_eq!(rom.prg_rom_size, 16384);
    assert_eq!(rom.chr_rom_size, 8192);
    assert_eq!(rom.nametable_mirroring, NametableMirroring::Vertical);
    assert_eq!(rom.prg_data.len(), 16384);
    assert_eq!(rom.prg_data[300], (300 % 251) as u8);
    assert_eq!(rom.chr_data.len(), 8192);
    assert_eq!(rom.chr_data[0], 0xAA);
}

#[test]
fn mapper_number_comes_from_both_nibbles() {
    let bytes = ines_image(2, 1, 0x10, 0x00);
    assert_eq!(RomImage::from_ines_bytes(&bytes).unwrap().mapper, 1);
    let bytes = ines_image(2, 1, 0x38, 0x00);
    let rom = RomImage::from_ines_bytes(&bytes).unwrap();
    assert_eq!(rom.mapper, 3);
    assert_eq!(rom.nametable_mirroring, NametableMirroring::FourScreens);
}

#[test]
fn nrom_mirrors_a_16k_prg_rom() {
    let bytes = ines_image(1, 1, 0x00, 0);
    let rom = RomImage::from_ines_bytes(&bytes).unwrap();
    let mut cart = create_mapper(&rom).ok().unwrap();
    assert!(matches!(cart, Cartridge::Nrom(_)));
    let mut p = Pinout::new();
    p.address = 0x8000 + 300;
    let lo = cart.read_cpu_prg(p);
    p.address = 0xC000 + 300;
    let hi = cart.read_cpu_prg(p);
    assert_eq!(lo.data, (300 % 251) as u8);
    assert_eq!(hi.data, (300 % 251) as u8);
}

#[test]
fn unsupported_mapper_is_refused() {
    let bytes = ines_image(1, 1, 0x20, 0);
    let rom = RomImage::from_ines_bytes(&bytes).unwrap();
    assert_eq!(create_mapper(&rom).err(), Some(MapperError::UnsupportedMapper(2)));
}

#[test]
fn cnrom_without_chr_is_refused() {
    let bytes = ines_image(1, 0, 0x30, 0);
    let rom = RomImage::from_ines_bytes(&bytes).unwrap();
    assert_eq!(create_mapper(&rom).err(), Some(MapperError::MissingChrRom));
}

#[test]
fn nrom_with_48k_prg_is_refused() {
    let bytes = ines_image(3, 1, 0x00, 0);
    let rom = RomImage::from_ines_bytes(&bytes).unwrap();
    assert_eq!(create_mapper(&rom).err(), Some(MapperError::InvalidPrgSize(3 * 16384)));
}

fn banked_image(prg_banks: u8, chr_banks: u8, flags6: u8) -> Vec<u8> {
    let mut bytes = vec![0x4e, 0x45, 0x53, 0x1a, prg_banks, chr_banks, flags6, 0, 0, 0, 0, 0, 0, 0, 0, 0];
    for bank in 0..prg_banks {
        bytes.extend(std::iter::repeat(bank).take(16384));
    }
    for bank in 0..(chr_banks as usize * 2) {
        bytes.extend(std::iter::repeat(0x40 + bank as u8).take(4096));
    }
    bytes
}

fn cpu_pinout(address: u16, data: u8, read: bool) -> Pinout {
    let mut p = Pinout::new();
    p.address = address;
    p.data = data;
    p.ctrl.set(rustnes::mos::Ctrl::RW(), read);
    p
}

#[test]
fn mmc1_selects_a_prg_bank_through_the_shift_register() {
    let rom = RomImage::from_ines_bytes(&banked_image(4, 1, 0x10)).unwrap();
    let mut cart = create_mapper(&rom).ok().unwrap();
    assert!(matches!(cart, Cartridge::Mmc1(_)));
    // at power on the last bank is mapped at $8000, $C000 is left at bank 1
    assert_eq!(cart.read_cpu_prg(cpu_pinout(0x8000, 0, true)).data, 3);
    assert_eq!(cart.read_cpu_prg(cpu_pinout(0xC000, 0, true)).data, 1);
    // five writes load 2 into the PRG bank register (the first bit written
    // ends up as the highest)
    for bit in [0u8, 0, 0, 1, 0] {
        cart.cpu_tick(cpu_pinout(0x0000, 0, true));
        cart.write_cpu_prg(cpu_pinout(0xE000, bit, false));
        cart.cpu_tick(cpu_pinout(0xE000, bit, false));
    }
    assert_eq!(cart.read_cpu_prg(cpu_pinout(0x8000, 0, true)).data, 2);
    assert_eq!(cart.read_cpu_prg(cpu_pinout(0xC000, 0, true)).data, 3);
}

#[test]
fn mmc1_ignores_back_to_back_writes() {
    let rom = RomImage::from_ines_bytes(&banked_image(4, 1, 0x10)).unwrap();
    let mut cart = create_mapper(&rom).ok().unwrap();
    cart.cpu_tick(cpu_pinout(0x0000, 0, true));
    cart.write_cpu_prg(cpu_pinout(0xE000, 0, false));
    cart.cpu_tick(cpu_pinout(0xE000, 0, false));
    // the next write comes on the very next cycle: ignored
    cart.write_cpu_prg(cpu_pinout(0xE000, 1, false));
    cart.cpu_tick(cpu_pinout(0xE000, 1, false));
    for bit in [0u8, 0, 0, 1] {
        cart.cpu_tick(cpu_pinout(0x0000, 0, true));
        cart.write_cpu_prg(cpu_pinout(0xE000, bit, false));
        cart.cpu_tick(cpu_pinout(0xE000, bit, false));
    }
    assert_eq!(cart.read_cpu_prg(cpu_pinout(0x8000, 0, true)).data, 1);
}

#[test]
fn cnrom_selects_a_chr_bank() {
    let rom = RomImage::from_ines_bytes(&banked_image(2, 2, 0x30)).unwrap();
    let mut cart = create_mapper(&rom).ok().unwrap();
    assert!(matches!(cart, Cartridge::Cnrom(_)));
    let mut p = rustnes::nes::ppu::Pinout::new();
    p.address = 0x0000;
    assert_eq!(cart.read_ppu_chr(p).data, 0x40);
    cart.write_cpu_prg(cpu_pinout(0x8000, 1, false));
    assert_eq!(cart.read_ppu_chr(p).data, 0x42);
    p.address = 0x1000;
    assert_eq!(cart.read_ppu_chr(p).data, 0x43);
}

fn nes2_image(flags6: u8, flags7: u8, byte8: u8, byte9: u8, byte13: u8, byte15: u8, prg_len: usize, chr_len: usize) -> Vec<u8> {
    let mut v = vec![0x4e, 0x45, 0x53, 0x1a, 1, 1, flags6, flags7 | 0x08, byte8, byte9, 0, 0, 0, byte13, 0, byte15];
    for i in 0..prg_len {
        v.push((i % 251) as u8);
    }
    for i in 0..chr_len {
        v.push((i % 13) as u8);
    }
    v
}

#[test]
fn nes2_header_is_decoded() {
    // battery bit set, vertical mirroring, mapper 0x203 (low nibble of byte 6
    // and low nibble of byte 8; the high nibble of byte 7 is not read)
    let bytes = nes2_image(0x33, 0x70, 0x02, 0x00, 0, 0, 16384, 8192);
    let rom = RomImage::from_ines_bytes(&bytes).unwrap();
    assert_eq!(rom.mapper, 0x203);
    assert_eq!(rom.prg_rom_size, 16384);
    assert_eq!(rom.chr_rom_size, 8192);
    assert_eq!(rom.nametable_mirroring, NametableMirroring::Vertical);
    assert_eq!(rom.prg_data[300], (300 % 251) as u8);
    assert_eq!(rom.chr_data[20], (20 % 13) as u8);
}

#[test]
fn nes2_header_refusals() {
    // no battery bit
    let bytes = nes2_image(0x00, 0x00, 0, 0, 0, 0, 16384, 8192);
    assert_eq!(RomImage::from_ines_bytes(&bytes).err(), Some(RomLoadError::InvalidRom));
    // an input device
    let bytes = nes2_image(0x02, 0x00, 0, 0, 0, 1, 16384, 8192);
    assert_eq!(RomImage::from_ines_bytes(&bytes).err(), Some(RomLoadError::InvalidRom));
    let bytes = nes2_image(0x02, 0x00, 0, 0, 0, 7, 16384, 8192);
    assert_eq!(RomImage::from_ines_bytes(&bytes).err(), Some(RomLoadError::InvalidRom));
    // an unknown VS System PPU
    let bytes = nes2_image(0x02, 0x01, 0, 0, 0x0D, 0, 16384, 8192);
    assert_eq!(RomImage::from_ines_bytes(&bytes).err(), Some(RomLoadError::InvalidRom));
    // a known one
    let bytes = nes2_image(0x02, 0x01, 0, 0, 0x0C, 0, 16384, 8192);
    assert!(RomImage::from_ines_bytes(&bytes).is_ok());
    // an extended console type past $A
    let bytes = nes2_image(0x02, 0x03, 0, 0, 0x0B, 0, 16384, 8192);
    assert_eq!(RomImage::from_ines_bytes(&bytes).err(), Some(RomLoadError::InvalidRom));
    // too short for the sizes of bytes 4, 5 and 9
    let bytes = nes2_image(0x02, 0x00, 0, 0x10, 0, 0, 16384, 8192);
    assert_eq!(RomImage::from_ines_bytes(&bytes).err(), Some(RomLoadError::IOError));
}

#[test]
fn nes2_mirroring_bits_both_set_is_other() {
    let bytes = nes2_image(0x0B, 0x00, 0, 0, 0, 0, 16384, 8192);
    let rom = RomImage::from_ines_bytes(&bytes).unwrap();
    assert_eq!(rom.nametable_mirroring, NametableMirroring::Other);
}
