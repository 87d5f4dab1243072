use rustnes::mos::cpu_state::Context as CpuContext;
use rustnes::mos::instructions::{AdcNoDec, Instruction, Sbc};
use rustnes::mos::cpu_state::{ProgramCounter, StatusRegister};
use rustnes::mos::{Ctrl, Pinout};
use rustnes::nes::bus::DmaBus;
use rustnes::nes::controllers::NesControllers;
use rustnes::nes::dma::{Dma, OamStatus};
use rustnes::nes::mappers::mapper_nrom::MapperNrom;
use rustnes::nes::mappers::Mapper;
use rustnes::nes::ppu::palette_ram::PaletteRam;
use rustnes::nes::ppu::ppu_registers::AddrReg;
use rustnes::nes::ppu::rp2c02::Rp2c02;
use rustnes::nes::ppu::sprites::reverse_bits;
use rustnes::nes::ppu::Pinout as PpuPinout;
use rustnes::nes::rom::RomImage;

#[test]
fn ppuaddr_two_writes_set_the_address() {
    let mut r = AddrReg::new();
    r.io_write_2006(0x7F);
    r.io_write_2006(0x21);
    assert_eq!(r.vram_address(), 0x3F21);
}

#[test]
fn palette_backdrop_mirrors() {
    let mut p = PaletteRam::from_power_on();
    p.write(0x3F10, 0x2A);
    assert_eq!(p.read(0x3F00), 0x2A);
    p.write(0x3F05, 0x11);
    assert_eq!(p.read(0x3F25), 0x11);
    assert_eq!(p.read(0x3F15), 0x00);
}

#[test]
fn reverse_bits_is_an_involution() {
    assert_eq!(reverse_bits(0x01), 0x80);
    assert_eq!(reverse_bits(0b1100_1010), 0b0101_0011);
    for d in 0..=255u8 {
        assert_eq!(reverse_bits(reverse_bits(d)), d);
    }
}

#[test]
fn status_register_survives_push_and_pull() {
    let mut p = StatusRegister::from_bits_truncate(0b1100_0011);
    let pushed = p.push_with_b();
    assert_eq!(pushed, 0b1111_0011);
    let back = StatusRegister::from_bits_truncate(pushed);
    assert_eq!(back.bits(), p.bits());
}

#[test]
fn program_counter_round_trip() {
    let pc = ProgramCounter::from_value(0xC0DE);
    assert_eq!(pc.value(), 0xC0DE);
    let mut top = ProgramCounter::from_value(0xFFFF);
    top.increment();
    assert_eq!(top.value(), 0x0000);
}

#[test]
fn ctrl_bits_round_trip() {
    let mut c = Ctrl::empty();
    c.set(Ctrl::RW(), true);
    c.set(Ctrl::RDY(), true);
    let back = Ctrl::from_bits_truncate(c.bits());
    assert_eq!(back, c);
    assert_eq!(c.bits(), 0x11);
}

#[test]
fn internal_ram_is_mirrored_every_2k() {
    let mut m = MapperNrom::new();
    let mut p = Pinout::new();
    p.address = 0x0005;
    p.data = 0x42;
    m.write_cpu_internal_ram(p);
    for mirror in [0x0005u16, 0x0805, 0x1005, 0x1805] {
        let mut q = Pinout::new();
        q.address = mirror;
        assert_eq!(m.read_cpu_internal_ram(q).data, 0x42);
    }
}

fn nrom_with_flags6(flags6: u8) -> MapperNrom {
    let mut bytes = vec![0x4e, 0x45, 0x53, 0x1a, 1, 1, flags6, 0, 0, 0, 0, 0, 0, 0, 0, 0];
    bytes.extend_from_slice(&vec![0u8; 16384 + 8192]);
    MapperNrom::from_ines(&RomImage::from_ines_bytes(&bytes).unwrap())
}

fn nt_write(m: &mut MapperNrom, address: u16, data: u8) {
    let mut p = PpuPinout::new();
    p.address = address;
    p.data = data;
    m.write_ppu_nt(p);
}

fn nt_read(m: &mut MapperNrom, address: u16) -> u8 {
    let mut p = PpuPinout::new();
    p.address = address;
    m.read_ppu_nt(p).data
}

#[test]
fn horizontal_mirroring_pairs_top_nametables() {
    let mut m = nrom_with_flags6(0x00);
    nt_write(&mut m, 0x2005, 0x11);
    nt_write(&mut m, 0x2805, 0x22);
    assert_eq!(nt_read(&mut m, 0x2405), 0x11);
    assert_eq!(nt_read(&mut m, 0x2C05), 0x22);
}

#[test]
fn vertical_mirroring_pairs_left_nametables() {
    let mut m = nrom_with_flags6(0x01);
    nt_write(&mut m, 0x2005, 0x11);
    nt_write(&mut m, 0x2405, 0x22);
    assert_eq!(nt_read(&mut m, 0x2805), 0x11);
    assert_eq!(nt_read(&mut m, 0x2C05), 0x22);
}

#[test]
fn oam_dma_copies_a_page_into_oam() {
    let mut bus = DmaBus::new(MapperNrom::new(), Rp2c02::from_power_on(), NesControllers::from_power_on());
    for i in 0..256u16 {
        let mut p = Pinout::new();
        p.address = 0x0200 + i;
        p.data = (i as u8) ^ 0x5A;
        bus.mapper.write_cpu_internal_ram(p);
    }
    let mut dma = Dma::from_power_on();
    dma.oam_execute(0x02);
    let mut cpu = Pinout::new();
    cpu.ctrl.set(Ctrl::RW(), true);
    let mut cycles = 0;
    loop {
        cpu = dma.tick(&mut bus, cpu);
        cycles += 1;
        if dma.oam_status == OamStatus::Idle || cycles > 1000 {
            break;
        }
    }
    assert!(cycles == 513 || cycles == 514, "took {} cycles", cycles);
    let oam = bus.ppu.get_context().oam_ram_primary;
    for i in 0..256usize {
        assert_eq!(oam[i], (i as u8) ^ 0x5A);
    }
}

#[test]
fn adc_sets_overflow_on_signed_overflow_only() {
    let mut cpu = CpuContext::new();
    cpu.a = 0x50;
    cpu.ops.dl = 0x50;
    AdcNoDec::execute(&mut cpu);
    assert_eq!(cpu.a, 0xA0);
    assert!(cpu.p.overflow);

    let mut cpu = CpuContext::new();
    cpu.a = 0xFF;
    cpu.ops.dl = 0x00;
    AdcNoDec::execute(&mut cpu);
    assert_eq!(cpu.a, 0xFF);
    assert!(!cpu.p.overflow);

    let mut cpu = CpuContext::new();
    cpu.a = 0x80;
    cpu.ops.dl = 0xFF;
    AdcNoDec::execute(&mut cpu);
    assert_eq!(cpu.a, 0x7F);
    assert!(cpu.p.overflow && cpu.p.carry);
}

#[test]
fn decimal_sbc_carry_means_no_borrow() {
    // $25 - $13: $12, no borrow out
    let mut cpu = CpuContext::new();
    cpu.p.decimal = true;
    cpu.p.carry = false;
    cpu.a = 0x25;
    cpu.ops.dl = 0x13;
    Sbc::execute(&mut cpu);
    assert_eq!(cpu.a, 0x12);
    assert!(cpu.p.carry);

    // $13 - $25: borrows, carry clear
    let mut cpu = CpuContext::new();
    cpu.p.decimal = true;
    cpu.p.carry = false;
    cpu.a = 0x13;
    cpu.ops.dl = 0x25;
    Sbc::execute(&mut cpu);
    assert_eq!(cpu.a, 0x88);
    assert!(!cpu.p.carry);
}
