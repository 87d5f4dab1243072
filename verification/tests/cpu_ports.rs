use rustnes::nes::ppu::cpu_ports::{Ctrl, PPU};
use rustnes::nes::ppu::ppu_registers::StatusRegister;

#[test]
fn palette_through_ppudata() {
    let mut ppu = PPU::from_power_on();
    ppu.write_ppuaddr(0x3F);
    ppu.write_ppuaddr(0x05);
    ppu.write_ppudata(0x21);
    assert_eq!(ppu.palette_ram[5], 0x21);
    assert_eq!(ppu.read_ppudata(), 0x21);
    assert!(ppu.pinout.ctrl.contains(Ctrl::RDALE()));
}

#[test]
fn vram_write_raises_the_write_latch() {
    let mut ppu = PPU::from_power_on();
    ppu.write_ppuaddr(0x20);
    ppu.write_ppuaddr(0x00);
    ppu.write_ppudata(0x55);
    assert!(ppu.pinout.ctrl.contains(Ctrl::WRALE()));
    assert_eq!(ppu.read_port(), 0x55);
}

#[test]
fn status_low_bits_come_from_the_latch() {
    let mut ppu = PPU::from_power_on();
    ppu.write_ppustatus(0xFF);
    assert_eq!(ppu.read_ppustatus(), 0x1F);
}

#[test]
fn status_read_clears_vblank() {
    let mut ppu = PPU::from_power_on();
    ppu.status_reg.set(StatusRegister::VBLANK_STARTED(), true);
    assert_eq!(ppu.read_ppustatus() & 0x80, 0x80);
    assert_eq!(ppu.read_ppustatus() & 0x80, 0);
}

#[test]
fn oamdata_writes_only_in_vblank() {
    let mut ppu = PPU::from_power_on();
    ppu.write_oamaddr(0x05);
    // pre-render line: glitchy increment, no write
    ppu.write_oamdata(0xAB);
    assert_eq!(ppu.oam_ram[5], 0);
    assert_eq!(ppu.oam_addr, 0x09);
    ppu.write_oamaddr(0x07);
    ppu.write_oamdata(0xAB);
    assert_eq!(ppu.oam_addr, 0x0B);
    ppu.scanline = 241;
    ppu.write_oamdata(0xCD);
    assert_eq!(ppu.oam_ram[0x0B], 0xCD);
    assert_eq!(ppu.oam_addr, 0x0C);
    ppu.write_oamaddr(0x0B);
    assert_eq!(ppu.read_oamdata(), 0xCD);
}
