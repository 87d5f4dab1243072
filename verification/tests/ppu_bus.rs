use rustnes::nes::mappers::mapper_debug::MapperDebug;
use rustnes::nes::ppu::bus::Bus;

#[test]
fn test_read_access() {
    let mut mapper = MapperDebug::new();
    let mut bus = Bus::new();

    mapper.poke_chr(0x1FF, 255);

    let (d, _b) = bus.read(&mut mapper, 0x1FF);
    assert_eq!(255, d);
}

#[test]
fn test_io_during_read() {
    let mut mapper = MapperDebug::new();
    let mut bus = Bus::new();

    mapper.poke_chr(0x1FF, 255);

    // dummy io read
    let v0 = bus.io_read();
    assert_ne!(v0, 255);

    let (d, b) = bus.read(&mut mapper, 0x1FF);
    assert_eq!(b, true);
    assert_eq!(d, 255);

    let v1 = bus.io_read();
    assert_eq!(v1, 255);

    // test io write
    let v0 = mapper.peek_chr(0x2FF);
    assert_eq!(v0, 0);

    bus.io_write(255);

    let (d, b) = bus.read(&mut mapper, 0x2FF);
    assert_eq!(d, 255);
    assert_eq!(b, true);
    assert_eq!(mapper.peek_chr(0x2FF), 255);
}

#[test]
fn test_io_during_idle() {
    let mut mapper = MapperDebug::new();
    let mut bus = Bus::new();

    mapper.poke_chr(0x1FF, 255);
    mapper.poke_chr(0x200, 240);

    let v0 = bus.io_read();
    assert_ne!(v0, 255);

    // read
    let b = bus.idle(&mut mapper, 0x1FF);
    assert_eq!(bus.io_read(), 255);
    assert_eq!(b, true);

    let _b = bus.idle(&mut mapper, 0x1FF);
    let b = bus.idle(&mut mapper, 0x1FF);
    assert_eq!(b, false);

    // write
    bus.io_write(128);
    let b = bus.idle(&mut mapper, 0x200);
    assert_eq!(b, true);
    assert_eq!(mapper.peek_chr(0x200), 128);

    let b = bus.idle(&mut mapper, 0x200);
    assert_eq!(b, false);

    bus.io_palette_write();
    let b = bus.idle(&mut mapper, 0x200);
    assert_eq!(b, true);
    assert_eq!(mapper.peek_chr(0x200), 128);
}
