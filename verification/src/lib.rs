//! A cycle-stepped NES emulation library: the MOS 6502 core used by the
//! RP2A03, and the NES pieces built around it.

pub mod mos;
pub mod nes;
