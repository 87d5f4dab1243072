//! Whole consoles: a CPU, a PPU, DMA, controllers and a cartridge, stepped
//! a frame at a time.

use vstd::prelude::*;
use crate::nes::controllers::JoypadInput;

pub mod nes_ntsc;

verus! {

/// Why a console could not do what was asked.
#[derive(Debug, Clone, Copy, PartialEq, Eq, Structural)]
pub enum ConsoleError {
    /// The ROM image could not be parsed.
    Rom(crate::nes::rom::RomLoadError),
    /// No mapper could be built for the ROM image.
    Mapper(crate::nes::mappers::cartridge::MapperError),
    /// A cycle or frame counter would overflow.
    CounterOverflow,
    /// The frame did not end within the number of cycles a frame takes.
    FrameTooLong,
    /// A pixel holds a colour index past the 64 entry palette.
    PixBufferError,
}

/// A console that runs frame by frame. `wf` is the console's own
/// well-formedness: its constructors establish it and every method keeps it.
pub trait Console {
    spec fn wf(&self) -> bool;

    /// Loads an iNES image and powers the console on.
    fn load_rom_bytes(&mut self, bytes: &[u8]) -> (r: Result<(), ConsoleError>)
        requires old(self).wf(), ensures final(self).wf();
    fn power_on_console(&mut self)
        requires old(self).wf(), ensures final(self).wf();
    fn restart_console(&mut self)
        requires old(self).wf(), ensures final(self).wf();

    fn get_frame_number(&self) -> u64;
    /// The frame as PPU colour indices, 256 x 240.
    fn get_index_buffer(&self) -> &Vec<u16>;

    /// Runs the console until the PPU finishes a frame.
    fn execute_frame(&mut self) -> (r: Result<(), ConsoleError>)
        requires old(self).wf(), ensures final(self).wf();

    fn input_joypad1_state(&mut self, joypad: JoypadInput)
        requires old(self).wf(), ensures final(self).wf();
    fn input_joypad2_state(&mut self, joypad: JoypadInput)
        requires old(self).wf(), ensures final(self).wf();

    /// The frame as RGB through a 64 entry palette.
    fn output_pixel_buffer(&mut self, palette: &Vec<u32>, frame_buffer: &mut Vec<u32>) -> (r: Result<(), ConsoleError>)
        requires old(self).wf(), palette@.len() >= 64, ensures final(self).wf();
}

} // verus!
