use rustnes::nes::ppu::ppu_registers::{MaskRegister, StatusRegister};
use rustnes::nes::ppu::ssprites::{Context, Sprites};

fn init_oam(oam: &mut [u8]) {
    for data in oam {
        *data = 0xFF;
    }
}

fn set_sprite(oam: &mut [u8], ypos: u8, other_data: u8, index: usize) {
    oam[(index * 4) + 0] = ypos;
    oam[(index * 4) + 1] = other_data;
    oam[(index * 4) + 2] = other_data;
    oam[(index * 4) + 3] = other_data;
}

fn set_sprite_full(oam: &mut [u8], ypos: u8, xpos: u8, at: u8, ti: u8, index: usize) {
    oam[(index * 4) + 0] = ypos;
    oam[(index * 4) + 1] = ti;
    oam[(index * 4) + 2] = at;
    oam[(index * 4) + 3] = xpos;
}

#[test]
fn test_oam_addr_increment() {
    let mut sprites = Sprites::new();
    sprites.increment_high_n();
    assert_eq!(sprites.oam_addr, 4);
    sprites.increment_high_n();
    assert_eq!(sprites.oam_addr, 8);
    sprites.increment_low_m();
    sprites.increment_low_m();
    sprites.increment_low_m();
    assert_eq!(sprites.oam_addr, 11);
    // test m overflow
    sprites.increment_low_m();
    assert_eq!(sprites.oam_addr, 8);
    sprites.increment_high_n();
    assert_eq!(sprites.oam_addr, 12);

    sprites.oam_addr = 0;
    for _i in 0..63 {
        sprites.increment_high_n();
    }

    assert_eq!(sprites.oam_addr, 252);
    // test n overflow
    sprites.increment_high_n();
    assert_eq!(sprites.oam_addr, 0);
}

#[test]
fn test_sprite_evaluation_basic() {
    let mut context = Context::new();
    let mut sprites = Sprites::new();
    // set scanline position
    context.vpos = 1;
    context.hpos = 65;
    // init oam test in range sprites
    init_oam(&mut sprites.primary_oam);
    set_sprite(&mut sprites.primary_oam, 0x1, 0x1, 0);
    set_sprite(&mut sprites.primary_oam, 0x9, 0x9, 1);
    set_sprite(&mut sprites.primary_oam, 0x2, 0x2, 2);
    set_sprite(&mut sprites.primary_oam, 0x3, 0x3, 3);
    set_sprite(&mut sprites.primary_oam, 0x4, 0x4, 4);

    for _i in 65..=256 {
        sprites.process_sprite_evaluation(&mut context);
        context.hpos += 1;
    }

    assert_eq!(sprites.sprite_count, 4);
}

#[test]
fn test_sprite_evaluation_soam_overflow() {
    let mut context = Context::new();
    let mut sprites = Sprites::new();
    // set scanline position
    context.vpos = 1;
    context.hpos = 65;
    // init oam test in range sprites
    init_oam(&mut sprites.primary_oam);
    set_sprite(&mut sprites.primary_oam, 0x1, 0x1, 0);
    set_sprite(&mut sprites.primary_oam, 0x2, 0x2, 1);
    set_sprite(&mut sprites.primary_oam, 0x3, 0x3, 2);
    set_sprite(&mut sprites.primary_oam, 0x4, 0x4, 3);
    set_sprite(&mut sprites.primary_oam, 0x5, 0x5, 4);
    set_sprite(&mut sprites.primary_oam, 0x6, 0x6, 5);
    set_sprite(&mut sprites.primary_oam, 0x7, 0x7, 6);
    set_sprite(&mut sprites.primary_oam, 0x7, 0x8, 7);
    // more than 8 sprites on line should overflow
    set_sprite(&mut sprites.primary_oam, 0x7, 0x9, 8);
    set_sprite(&mut sprites.primary_oam, 0x7, 0x9, 9);

    for _i in 65..=256 {
        sprites.process_sprite_evaluation(&mut context);
        context.hpos += 1;
    }

    assert_eq!(sprites.sprite_count, 8);
    assert_eq!(context.status_reg.contains(StatusRegister::SPRITE_OVERFLOW()), true);
}

#[test]
fn test_sprite_evaluation_soam_no_overflow() {
    let mut context = Context::new();
    let mut sprites = Sprites::new();
    // set scanline position
    context.vpos = 200;
    context.hpos = 65;
    // init oam test in range sprites
    init_oam(&mut sprites.primary_oam);
    // fill oam entirely with sprites but only 8 on line
    set_sprite(&mut sprites.primary_oam, 200, 0x1, 0);
    set_sprite(&mut sprites.primary_oam, 200, 0x1, 1);
    set_sprite(&mut sprites.primary_oam, 200, 0x1, 2);
    set_sprite(&mut sprites.primary_oam, 200, 0x1, 3);
    set_sprite(&mut sprites.primary_oam, 200, 0x1, 4);
    set_sprite(&mut sprites.primary_oam, 200, 0x1, 5);
    set_sprite(&mut sprites.primary_oam, 200, 0x1, 6);
    for n in 7..31 {
        set_sprite(&mut sprites.primary_oam, 0x1, 0x8, n);
    }

    set_sprite(&mut sprites.primary_oam, 200, 0x1, 31);

    for _i in 65..=256 {
        sprites.process_sprite_evaluation(&mut context);
        context.hpos += 1;
    }

    assert_eq!(sprites.sprite_count, 8);
    assert_eq!(context.status_reg.contains(StatusRegister::SPRITE_OVERFLOW()), false);
}

#[test]
fn test_sprite_fetch_full() {
    let mut context = Context::new();
    let mut sprites = Sprites::new();
    // set scanline position
    context.vpos = 200;
    context.hpos = 65;
    // init oam test in range sprites
    init_oam(&mut sprites.primary_oam);
    // fill oam entirely with sprites but only 8 on line
    set_sprite_full(&mut sprites.primary_oam, 200, 0x1, 0x2, 0x3, 0);
    set_sprite_full(&mut sprites.primary_oam, 200, 0x1, 0x2, 0x3, 1);
    set_sprite_full(&mut sprites.primary_oam, 200, 0x1, 0x2, 0x3, 2);
    set_sprite_full(&mut sprites.primary_oam, 200, 0x1, 0x2, 0x3, 3);
    set_sprite_full(&mut sprites.primary_oam, 200, 0x1, 0x2, 0x3, 4);
    set_sprite_full(&mut sprites.primary_oam, 200, 0x1, 0x2, 0x3, 5);
    set_sprite_full(&mut sprites.primary_oam, 200, 0x1, 0x2, 0x3, 6);
    set_sprite_full(&mut sprites.primary_oam, 200, 0x1, 0x2, 0x3, 7);

    for n in 8..31 {
        set_sprite(&mut sprites.primary_oam, 0x1, 0x8, n);
    }

    // sprite evaluation
    for _i in 65..=256 {
        sprites.process_sprite_evaluation(&mut context);
        context.hpos += 1;
    }

    // sprite tile fetch
    sprites.fetch_sprite_tile_data(&mut context);

    assert_eq!(sprites.sprites[7].valid_sprite, true);
    assert_eq!(sprites.sprites[7].sprite_line, 0);
    assert_eq!(sprites.sprites[7].xpos_counter, 1);
    assert_eq!(sprites.sprites[7].attribute, 2);
    assert_eq!(sprites.sprites[7].tile_index, 3);
}

#[test]
fn test_sprite_fetch_partial() {
    let mut context = Context::new();
    let mut sprites = Sprites::new();
    // set scanline position
    context.vpos = 200;
    context.hpos = 65;
    // init oam test in range sprites
    init_oam(&mut sprites.primary_oam);
    // fill oam entirely with sprites but only 8 on line
    set_sprite_full(&mut sprites.primary_oam, 200, 0x1, 0x2, 0x3, 0);
    set_sprite_full(&mut sprites.primary_oam, 200, 0x1, 0x2, 0x3, 1);
    set_sprite_full(&mut sprites.primary_oam, 200, 0x1, 0x2, 0x3, 2);
    set_sprite_full(&mut sprites.primary_oam, 200, 0x1, 0x2, 0x3, 3);
    set_sprite_full(&mut sprites.primary_oam, 200, 0x1, 0x2, 0x3, 4);
    set_sprite_full(&mut sprites.primary_oam, 200, 0x1, 0x2, 0x3, 5);
    set_sprite_full(&mut sprites.primary_oam, 200, 0x1, 0x2, 0x3, 6);

    for n in 7..31 {
        set_sprite(&mut sprites.primary_oam, 0x1, 0x8, n);
    }

    // sprite evaluation
    for _i in 65..=256 {
        sprites.process_sprite_evaluation(&mut context);
        context.hpos += 1;
    }

    // sprite tile fetch
    sprites.fetch_sprite_tile_data(&mut context);

    assert_eq!(sprites.sprites[6].valid_sprite, true);
    assert_eq!(sprites.sprites[6].sprite_line, 0);
    assert_eq!(sprites.sprites[6].xpos_counter, 1);
    assert_eq!(sprites.sprites[6].attribute, 2);
    assert_eq!(sprites.sprites[6].tile_index, 3);

    assert_eq!(sprites.sprites[7].valid_sprite, false);
}

#[test]
fn sprite_right_of_the_pixel_does_not_cover_it() {
    let mut sprites = Sprites::new();
    // sprite 0 at x = 9 (right of pixel 8), sprite 1 at x = 8 (covers it)
    sprites.sprites[0].valid_sprite = true;
    sprites.sprites[0].xpos_counter = 9;
    sprites.sprites[0].pattern_queue = [0xFF, 0x00];
    sprites.sprites[0].attribute = 0x00;
    sprites.sprites[1].valid_sprite = true;
    sprites.sprites[1].xpos_counter = 8;
    sprites.sprites[1].pattern_queue = [0x00, 0xFF];
    sprites.sprites[1].attribute = 0x01;
    let mut context = Context::new();
    context.mask_reg = MaskRegister::from_bits_truncate(0b0001_0100);
    context.hpos = 9; // pixel 8
    let r = sprites.select_sprite_pixel(&mut context, 0);
    // sprite 1, colour 2, palette 1
    assert_eq!(r, 0x10 | 0x02 | (1 << 2));
}
