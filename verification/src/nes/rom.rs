//! Cartridge images: what the emulator takes from an iNES file.
//!
//! Parsing the file is the `nes_rom` crate's work; the library keeps the
//! fields its mappers read as plain values.

use vstd::prelude::*;
use nes_rom::ines::Ines;
use nes_rom::ines::NametableMirroring as InesMirroring;
use nes_rom::RomError;

verus! {

/// The nametable mirroring an iNES header asks for.
#[derive(Debug, Clone, Copy, PartialEq, Eq, Structural)]
pub enum NametableMirroring {
    Horizontal,
    Vertical,
    FourScreens,
    /// A mirroring the header cannot express (one screen, diagonal, ...).
    Other,
}

/// Why a ROM image could not be read.
#[derive(Debug, Clone, Copy, PartialEq, Eq, Structural)]
pub enum RomLoadError {
    /// The file does not start with the iNES magic number.
    InvalidFormat,
    /// The header is inconsistent.
    InvalidRom,
    InvalidConversion,
    /// The file ended before the sizes in its header were read.
    IOError,
}

/// The parts of an iNES image that a mapper is built from.
#[derive(Debug, Clone, PartialEq, Eq)]
pub struct RomImage {
    pub mapper: u32,
    pub prg_rom_size: u32,
    pub chr_rom_size: u32,
    pub nametable_mirroring: NametableMirroring,
    pub prg_data: Vec<u8>,
    pub chr_data: Vec<u8>,
}

/// A `RomImage` as plain values.
pub struct RomImageView {
    pub mapper: u32,
    pub prg_rom_size: u32,
    pub chr_rom_size: u32,
    pub nametable_mirroring: NametableMirroring,
    pub prg_data: Seq<u8>,
    pub chr_data: Seq<u8>,
}

impl View for RomImage {
    type V = RomImageView;

    open spec fn view(&self) -> RomImageView {
        RomImageView {
            mapper: self.mapper,
            prg_rom_size: self.prg_rom_size,
            chr_rom_size: self.chr_rom_size,
            nametable_mirroring: self.nametable_mirroring,
            prg_data: self.prg_data@,
            chr_data: self.chr_data@,
        }
    }
}

/// A failed parse.
pub open spec fn rom_err(e: RomLoadError) -> Result<RomImage, RomLoadError> {
    Err(e)
}

/// A successful parse, as plain values.
pub open spec fn rom_ok(v: RomImageView) -> Result<RomImageView, RomLoadError> {
    Ok(v)
}

/// A parse result as plain values.
pub open spec fn spec_result_view(r: Result<RomImage, RomLoadError>) -> Result<RomImageView, RomLoadError> {
    match r {
        Ok(img) => Ok(img@),
        Err(e) => Err(e),
    }
}

/// A successful parse holds exactly as much PRG and CHR data as its header
/// announces.
pub open spec fn spec_sizes_match(r: Result<RomImage, RomLoadError>) -> bool {
    match r {
        Ok(img) => img.prg_data@.len() == img.prg_rom_size && img.chr_data@.len() == img.chr_rom_size,
        Err(_) => true,
    }
}

/// The iNES magic number "NES\x1a".
pub open spec fn has_ines_guard(bytes: Seq<u8>) -> bool {
    bytes.len() >= 4 && bytes[0] == 0x4e && bytes[1] == 0x45 && bytes[2] == 0x53 && bytes[3] == 0x1a
}

/// An iNES 1.0 header (not NES 2.0): what `Ines::from_rom` decodes itself.
pub open spec fn spec_ines1(bytes: Seq<u8>) -> bool {
    bytes.len() >= 16 && has_ines_guard(bytes) && bytes[7] & 0x0C != 0x08
}

/// An old header whose bytes 7 to 15 may hold garbage: only byte 6 is used.
pub open spec fn spec_archaic(bytes: Seq<u8>) -> bool {
    !(bytes[7] & 0x0C == 0 && bytes[12] == 0 && bytes[13] == 0 && bytes[14] == 0 && bytes[15] == 0)
}

/// A header that claims both VS System and PlayChoice.
pub open spec fn spec_ines1_rejected(bytes: Seq<u8>) -> bool {
    !spec_archaic(bytes) && bytes[7] & 0x03 == 0x03
}

pub open spec fn spec_trainer_len(bytes: Seq<u8>) -> int {
    if bytes[6] & 0x04 == 0x04 { 512 } else { 0 }
}

pub open spec fn spec_prg_len(bytes: Seq<u8>) -> int {
    bytes[4] * 16384
}

pub open spec fn spec_chr_len(bytes: Seq<u8>) -> int {
    bytes[5] * 8192
}

/// The file holds the trainer, PRG and CHR data its header announces.
pub open spec fn spec_ines1_complete(bytes: Seq<u8>) -> bool {
    bytes.len() >= 16 + spec_trainer_len(bytes) + spec_prg_len(bytes) + spec_chr_len(bytes)
}

/// The image an iNES 1.0 file decodes to: the mapper number from the high
/// nibbles of bytes 6 and 7 (7 ignored in an archaic header), the ROM sizes
/// in 16K and 8K units, the mirroring from byte 6, and the data after the
/// header and optional 512 byte trainer.
pub open spec fn spec_ines1_image(bytes: Seq<u8>) -> RomImageView {
    let start = 16 + spec_trainer_len(bytes);
    let prg_end = start + spec_prg_len(bytes);
    RomImageView {
        mapper: ((bytes[6] >> 4u8) | (if spec_archaic(bytes) { 0u8 } else { bytes[7] & 0xF0 })) as u32,
        prg_rom_size: spec_prg_len(bytes) as u32,
        chr_rom_size: spec_chr_len(bytes) as u32,
        nametable_mirroring: if bytes[6] & 0x08 == 0x08 {
            NametableMirroring::FourScreens
        } else if bytes[6] & 0x01 == 0x01 {
            NametableMirroring::Vertical
        } else {
            NametableMirroring::Horizontal
        },
        prg_data: bytes.subrange(start, prg_end),
        chr_data: bytes.subrange(prg_end, prg_end + spec_chr_len(bytes)),
    }
}

/// An NES 2.0 header.
pub open spec fn spec_nes2(bytes: Seq<u8>) -> bool {
    bytes.len() >= 16 && has_ines_guard(bytes) && bytes[7] & 0x0C == 0x08
}

/// What the crate refuses in an NES 2.0 header: a clear battery bit (its
/// check sees the NVRAM sizes of bytes 10 and 11 as never zero), a VS
/// System PPU or protection code it does not know, a console type above
/// $A, or any input device but "unspecified".
pub open spec fn spec_nes2_rejected(bytes: Seq<u8>) -> bool {
    ||| bytes[6] & 0x02 == 0
    ||| bytes[7] & 0x03 == 1 && (bytes[13] & 0x0F > 0x0C || bytes[13] & 0xF0 != 0)
    ||| bytes[7] & 0x03 == 3 && bytes[13] & 0x0F > 0x0A
    ||| bytes[15] != 0
}

/// PRG ROM size of an NES 2.0 header: byte 4, with the low nibble of byte 9
/// above it, in 16K units.
pub open spec fn spec_nes2_prg_len(bytes: Seq<u8>) -> int {
    (bytes[4] + (bytes[9] & 0x0F) * 256) * 16384
}

/// CHR ROM size of an NES 2.0 header: byte 5, with the high nibble of byte
/// 9 above it, in 8K units.
pub open spec fn spec_nes2_chr_len(bytes: Seq<u8>) -> int {
    (bytes[5] + (bytes[9] >> 4u8) * 256) * 8192
}

/// The NES 2.0 file holds the trainer, PRG and CHR data its header
/// announces.
pub open spec fn spec_nes2_complete(bytes: Seq<u8>) -> bool {
    bytes.len() >= 16 + spec_trainer_len(bytes) + spec_nes2_prg_len(bytes) + spec_nes2_chr_len(bytes)
}

/// The image an NES 2.0 file decodes to: the mapper number from the high
/// nibble of byte 6 and the low nibble of byte 8 (the crate does not read
/// the high nibble of byte 7 here), the sizes of bytes 4, 5 and 9, the
/// mirroring from byte 6 (bits 0 and 3 together: another mirroring), and
/// the data after the header and optional trainer.
pub open spec fn spec_nes2_image(bytes: Seq<u8>) -> RomImageView {
    let start = 16 + spec_trainer_len(bytes);
    let prg_end = start + spec_nes2_prg_len(bytes);
    RomImageView {
        mapper: ((bytes[6] >> 4u8) + (bytes[8] & 0x0F) * 256) as u32,
        prg_rom_size: spec_nes2_prg_len(bytes) as u32,
        chr_rom_size: spec_nes2_chr_len(bytes) as u32,
        nametable_mirroring: if bytes[6] & 0x09 == 0x09 {
            NametableMirroring::Other
        } else if bytes[6] & 0x08 == 0x08 {
            NametableMirroring::FourScreens
        } else if bytes[6] & 0x01 == 0x01 {
            NametableMirroring::Vertical
        } else {
            NametableMirroring::Horizontal
        },
        prg_data: bytes.subrange(start, prg_end),
        chr_data: bytes.subrange(prg_end, prg_end + spec_nes2_chr_len(bytes)),
    }
}

/// An NES 2.0 header whose input device byte overflows the crate's
/// arithmetic (the crate panics on it in builds with overflow checks).
pub open spec fn spec_nes2_input_overflows(bytes: Seq<u8>) -> bool {
    bytes.len() >= 16 && has_ines_guard(bytes) && bytes[7] & 0x0C == 0x08 && bytes[15] >= 5
}

/// What reading an iNES file gives: an i/o error for a file shorter than
/// its header or its data, `InvalidFormat` without the magic number,
/// `InvalidRom` for a header refused, and otherwise the decoded image.
pub open spec fn spec_parse(bytes: Seq<u8>) -> Result<RomImageView, RomLoadError> {
    if bytes.len() < 16 {
        Err(RomLoadError::IOError)
    } else if !has_ines_guard(bytes) {
        Err(RomLoadError::InvalidFormat)
    } else if bytes[7] & 0x0C == 0x08 {
        if spec_nes2_rejected(bytes) {
            Err(RomLoadError::InvalidRom)
        } else if !spec_nes2_complete(bytes) {
            Err(RomLoadError::IOError)
        } else {
            Ok(spec_nes2_image(bytes))
        }
    } else if spec_ines1_rejected(bytes) {
        Err(RomLoadError::InvalidRom)
    } else if !spec_ines1_complete(bytes) {
        Err(RomLoadError::IOError)
    } else {
        Ok(spec_ines1_image(bytes))
    }
}

/// Parses an iNES file with `nes_rom::ines::Ines::from_rom`, reading from
/// the bytes in memory, and keeps the fields a mapper needs.
///
/// Claimed of the crate: a file of fewer than 16 bytes fails with an i/o
/// error and one without the magic number with `InvalidFormat`; on success
/// the PRG and CHR data are exactly as long as the sizes the header gives;
/// an iNES 1.0 header is decoded as
/// `spec_ines1_image` says, is refused when it claims both VS System and
/// PlayChoice, and fails with an i/o error when the file is shorter than
/// its data; an NES 2.0 header is decoded as `spec_nes2_image` says, is
/// refused as `spec_nes2_rejected` says, and fails with an i/o error when
/// the file is shorter than its data.
#[verifier::external_body]
fn ines_parse(bytes: &[u8]) -> (r: Result<RomImage, RomLoadError>)
    requires
        !spec_nes2_input_overflows(bytes@),
    ensures
        bytes@.len() < 16 ==> r == rom_err(RomLoadError::IOError),
        spec_nes2(bytes@) && spec_nes2_rejected(bytes@) ==> r == rom_err(RomLoadError::InvalidRom),
        spec_nes2(bytes@) && !spec_nes2_rejected(bytes@) && !spec_nes2_complete(bytes@)
            ==> r == rom_err(RomLoadError::IOError),
        spec_nes2(bytes@) && !spec_nes2_rejected(bytes@) && spec_nes2_complete(bytes@)
            ==> spec_result_view(r) == rom_ok(spec_nes2_image(bytes@)),
        bytes@.len() >= 16 && !has_ines_guard(bytes@) ==> r == rom_err(RomLoadError::InvalidFormat),
        spec_sizes_match(r),
        spec_ines1(bytes@) && spec_ines1_rejected(bytes@) ==> r == rom_err(RomLoadError::InvalidRom),
        spec_ines1(bytes@) && !spec_ines1_rejected(bytes@) && !spec_ines1_complete(bytes@)
            ==> r == rom_err(RomLoadError::IOError),
        spec_ines1(bytes@) && !spec_ines1_rejected(bytes@) && spec_ines1_complete(bytes@)
            ==> spec_result_view(r) == rom_ok(spec_ines1_image(bytes@)),
{
    match Ines::from_rom(std::io::Cursor::new(bytes)) {
        Ok(i) => Ok(RomImage {
            mapper: i.mapper, prg_rom_size: i.prg_rom_size, chr_rom_size: i.chr_rom_size, prg_data: i.prg_data,
            nametable_mirroring: match i.nametable_mirroring {
                InesMirroring::Horizontal => NametableMirroring::Horizontal,
                InesMirroring::Vertical => NametableMirroring::Vertical,
                InesMirroring::FourScreens => NametableMirroring::FourScreens,
                InesMirroring::Other => NametableMirroring::Other,
            }, chr_data: i.chr_data,
        }),
        Err(RomError::InvalidFormat) => Err(RomLoadError::InvalidFormat),
        Err(RomError::InvalidRom) => Err(RomLoadError::InvalidRom),
        Err(RomError::InvalidConversion) => Err(RomLoadError::InvalidConversion),
        Err(RomError::IOError) => Err(RomLoadError::IOError),
    }
}

impl RomImage {
    /// Reads an iNES image from the bytes of a file. An NES 2.0 header whose
    /// input device byte is 5 or more is refused as an invalid ROM.
    pub fn from_ines_bytes(bytes: &[u8]) -> (r: Result<RomImage, RomLoadError>)
        ensures
            spec_result_view(r) == spec_parse(bytes@),
            spec_nes2_input_overflows(bytes@) ==> r == rom_err(RomLoadError::InvalidRom),
            bytes@.len() < 16 ==> r == rom_err(RomLoadError::IOError),
            spec_nes2(bytes@) && spec_nes2_rejected(bytes@) ==> r == rom_err(RomLoadError::InvalidRom),
            spec_nes2(bytes@) && !spec_nes2_rejected(bytes@) && !spec_nes2_complete(bytes@)
                ==> r == rom_err(RomLoadError::IOError),
            spec_nes2(bytes@) && !spec_nes2_rejected(bytes@) && spec_nes2_complete(bytes@)
                ==> spec_result_view(r) == rom_ok(spec_nes2_image(bytes@)),
            bytes@.len() >= 16 && !has_ines_guard(bytes@) ==> r == rom_err(RomLoadError::InvalidFormat),
            spec_sizes_match(r),
            spec_ines1(bytes@) && spec_ines1_rejected(bytes@) ==> r == rom_err(RomLoadError::InvalidRom),
            spec_ines1(bytes@) && !spec_ines1_rejected(bytes@) && !spec_ines1_complete(bytes@)
                ==> r == rom_err(RomLoadError::IOError),
            spec_ines1(bytes@) && !spec_ines1_rejected(bytes@) && spec_ines1_complete(bytes@)
                ==> spec_result_view(r) == rom_ok(spec_ines1_image(bytes@)),
    {
        if bytes.len() >= 16 && bytes[0] == 0x4e && bytes[1] == 0x45 && bytes[2] == 0x53 && bytes[3] == 0x1a
            && bytes[7] & 0x0C == 0x08 && bytes[15] >= 5 {
            return Err(RomLoadError::InvalidRom);
        }
        ines_parse(bytes)
    }
}

} // verus!
