use rustnes::mos::rp2a03::Rp2a03;
use rustnes::mos::Ctrl;
use rustnes::nes::bus::CpuBus;
use rustnes::nes::dma::Dma;
use rustnes::nes::ppu::rp2c02::Rp2c02;
use rustnes::nes::controllers::NesControllers;
use rustnes::nes::rom::RomImage;
use rustnes::nes::mappers::cartridge::create_mapper;

#[test]
fn it_works() {
    let (_cpu, cpu_pinout) = Rp2a03::from_power_on();

    assert_eq!(cpu_pinout.ctrl.contains(Ctrl::RDY()), true);
}


/// An NROM image whose reset vector points at $8000.
fn nrom_image() -> Vec<u8> {
    let mut bytes = vec![0x4e, 0x45, 0x53, 0x1a, 1, 1, 0, 0, 0, 0, 0, 0, 0, 0, 0, 0];
    let mut prg = vec![0xEAu8; 16384];
    prg[0x3FFC] = 0x00;
    prg[0x3FFD] = 0x80;
    bytes.extend_from_slice(&prg);
    bytes.extend_from_slice(&vec![0u8; 8192]);
    bytes
}

#[test]
fn reset_sequence_bus_trace() {
    let rom = RomImage::from_ines_bytes(&nrom_image()).unwrap();
    let mapper = create_mapper(&rom).unwrap();
    let mut bus = CpuBus::new(mapper, Dma::from_power_on(), Rp2c02::from_power_on(), NesControllers::from_power_on());
    let (mut cpu, mut pinout) = Rp2a03::from_power_on();
    let mut trace: Vec<(u16, bool, bool)> = Vec::new();
    for _ in 0..9 {
        pinout = cpu.tick(&mut bus, pinout);
        trace.push((pinout.address, pinout.ctrl.rw, pinout.ctrl.sync));
    }
    let expected: Vec<(u16, bool, bool)> = vec![
        (0x00FF, true, false),
        (0x00FF, true, false),
        (0x00FF, true, false),
        (0x0100, true, false),
        (0x01FF, true, false),
        (0x01FE, true, false),
        (0xFFFC, true, false),
        (0xFFFD, true, false),
        (0x8000, true, true),
    ];
    assert_eq!(trace, expected);
    assert_eq!(cpu.cycle_count(), 8);
}
