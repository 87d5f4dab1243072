//! The NES built around the RP2A03: memory paging, cartridge mappers,
//! controllers, DMA, the CPU bus and the RP2C02 picture processing unit.

pub mod paging;
pub mod controllers;
pub mod ppu;
pub mod rom;
pub mod mappers;
pub mod dma;
pub mod bus;
pub mod consoles;
pub mod nes_ntsc;
pub mod utils;
pub mod palette;
pub mod ppu_viewer;
