use rustnes::mos::Pinout;
use rustnes::nes::ppu::rp2c02::Rp2c02;
use rustnes::nes::mappers::mapper_nrom::MapperNrom;

#[test]
fn test_ppudata_port() {
    let fb: Vec<u16> = vec![0; 256 * 240];
    let ppu = Rp2c02::from_power_on();
    let cpu_pinout = Pinout::new();
    let _ = (fb, ppu, cpu_pinout);
}

#[test]
fn test_nametable_read() {
    let _mapper = MapperNrom::new();
}

fn run_to(ppu: &mut Rp2c02, fb: &mut Vec<u16>, mapper: &mut MapperNrom, line: u16, dot: u16) {
    loop {
        let c = ppu.get_context();
        if c.scanline_index == line && c.scanline_dot == dot {
            break;
        }
        ppu.tick(fb, mapper, Pinout::new());
    }
}

#[test]
fn vblank_start_sets_flag_and_pulls_nmi_low() {
    let mut fb: Vec<u16> = vec![0; 256 * 240];
    let mut ppu = Rp2c02::from_power_on();
    let mut mapper = MapperNrom::new();

    // let the PPU warm up so that PPUCTRL writes are taken
    while ppu.get_context().cycle <= 88974 {
        ppu.tick(&mut fb, &mut mapper, Pinout::new());
    }
    let mut p = Pinout::new();
    p.data = 0x80;
    ppu.write_ppuctrl(p);

    run_to(&mut ppu, &mut fb, &mut mapper, 241, 1);
    assert_eq!(ppu.get_context().status_reg.bits() & 0x80, 0);
    let out = ppu.tick(&mut fb, &mut mapper, Pinout::new());
    assert_eq!(ppu.get_context().status_reg.bits() & 0x80, 0x80);
    assert!(!out.ctrl.nmi);

    // the pre-render line clears the flag again
    run_to(&mut ppu, &mut fb, &mut mapper, 261, 1);
    ppu.tick(&mut fb, &mut mapper, Pinout::new());
    assert_eq!(ppu.get_context().status_reg.bits() & 0xE0, 0);
}

#[test]
fn vblank_start_without_nmi_enable_keeps_pin_high() {
    let mut fb: Vec<u16> = vec![0; 256 * 240];
    let mut ppu = Rp2c02::from_power_on();
    let mut mapper = MapperNrom::new();
    run_to(&mut ppu, &mut fb, &mut mapper, 241, 1);
    let out = ppu.tick(&mut fb, &mut mapper, Pinout::new());
    assert_eq!(ppu.get_context().status_reg.bits() & 0x80, 0x80);
    assert!(out.ctrl.nmi);
}

fn port_write(ppu: &mut Rp2c02, port: u8, data: u8) {
    let mut p = Pinout::new();
    p.data = data;
    match port {
        6 => { ppu.write_ppuaddr(p); }
        7 => { ppu.write_ppudata(p); }
        _ => unreachable!(),
    }
}

fn warm_up(ppu: &mut Rp2c02, fb: &mut Vec<u16>, mapper: &mut MapperNrom) {
    while ppu.get_context().cycle <= 88974 {
        ppu.tick(fb, mapper, Pinout::new());
    }
}

#[test]
fn rendering_off_draws_the_backdrop_pixel_by_pixel() {
    let mut fb: Vec<u16> = vec![0xFFFF; 256 * 240];
    let mut ppu = Rp2c02::from_power_on();
    let mut mapper = MapperNrom::new();
    warm_up(&mut ppu, &mut fb, &mut mapper);

    // backdrop colour $21, then v away from the palette
    port_write(&mut ppu, 6, 0x3F);
    port_write(&mut ppu, 6, 0x00);
    port_write(&mut ppu, 7, 0x21);
    port_write(&mut ppu, 6, 0x20);
    port_write(&mut ppu, 6, 0x00);

    for v in fb.iter_mut() {
        *v = 0xFFFF;
    }
    run_to(&mut ppu, &mut fb, &mut mapper, 0, 1);
    for dot in 1..=256usize {
        ppu.tick(&mut fb, &mut mapper, Pinout::new());
        // this dot's pixel is drawn, the next one is not yet
        assert_eq!(fb[dot - 1], 0x21);
        if dot < 256 {
            assert_eq!(fb[dot], 0xFFFF);
        }
    }
    // the rest of the line draws nothing
    run_to(&mut ppu, &mut fb, &mut mapper, 1, 0);
    assert_eq!(fb[256], 0xFFFF);
}

#[test]
fn rendering_off_with_v_in_the_palette_shows_that_entry() {
    let mut fb: Vec<u16> = vec![0; 256 * 240];
    let mut ppu = Rp2c02::from_power_on();
    let mut mapper = MapperNrom::new();
    warm_up(&mut ppu, &mut fb, &mut mapper);

    port_write(&mut ppu, 6, 0x3F);
    port_write(&mut ppu, 6, 0x05);
    port_write(&mut ppu, 7, 0x15);
    // the write moves v on at the next free bus cycle; then point v back
    // at entry 5
    ppu.tick(&mut fb, &mut mapper, Pinout::new());
    port_write(&mut ppu, 6, 0x3F);
    port_write(&mut ppu, 6, 0x05);
    run_to(&mut ppu, &mut fb, &mut mapper, 10, 1);
    ppu.tick(&mut fb, &mut mapper, Pinout::new());
    assert_eq!(fb[10 * 256], 0x15);
}

#[test]
fn dot_257_copies_the_horizontal_scroll() {
    let mut fb: Vec<u16> = vec![0; 256 * 240];
    let mut ppu = Rp2c02::from_power_on();
    let mut mapper = MapperNrom::new();
    warm_up(&mut ppu, &mut fb, &mut mapper);

    // background on; coarse x scroll 5
    let mut p = Pinout::new();
    p.data = 0x08;
    ppu.write_ppumask(p);
    p.data = 0x28;
    ppu.write_ppuscroll(p);
    p.data = 0x00;
    ppu.write_ppuscroll(p);

    run_to(&mut ppu, &mut fb, &mut mapper, 3, 257);
    ppu.tick(&mut fb, &mut mapper, Pinout::new());
    let a = ppu.get_context().addr_reg;
    assert_eq!(a.v & 0x041F, a.t & 0x041F);
    assert_eq!(a.v & 0x001F, 5);

    // the pre-render line takes the vertical scroll from t
    run_to(&mut ppu, &mut fb, &mut mapper, 261, 300);
    ppu.tick(&mut fb, &mut mapper, Pinout::new());
    let a = ppu.get_context().addr_reg;
    assert_eq!(a.v & 0x7BE0, a.t & 0x7BE0);
}
