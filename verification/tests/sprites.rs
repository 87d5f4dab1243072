use rustnes::nes::ppu::sprites::{OamIndex, Sprites, SpriteAttribute};
use rustnes::nes::ppu::ppu_registers::{StatusRegister, MaskRegister};
use rustnes::nes::ppu::Context;

#[test]
fn test_oam_index() {
    let mut oam_index = OamIndex(248);
    oam_index.increment_n();
    assert_eq!(oam_index.0, 252);
    assert_eq!(oam_index.n(), 63);
    assert_eq!(oam_index.m(), 0);
    oam_index.increment_n();
    assert_eq!(oam_index.0, 0);
    oam_index.increment_n();
    assert_eq!(oam_index.0, 4);
    oam_index.increment_n();
    assert_eq!(oam_index.0, 8);

    oam_index.increment_m();
    assert_eq!(oam_index.0, 9);
    oam_index.increment_m();
    assert_eq!(oam_index.0, 10);
    oam_index.increment_m();
    assert_eq!(oam_index.0, 11);
    oam_index.increment_m();
}

#[test]
fn test_sprite_evaluation() {
    let mut sprites = Sprites::new();
    let mut ppu = Context::new();
    sprites.clear_secondary_oam(0x00);

    let y = 0x0_u8;
    let index = 0x02_u8;
    let attrib = 0x3_u8;
    let x = 0x4_u8;

    for i in (0..256).step_by(4) {
        ppu.oam_ram_primary[i] = y;
        ppu.oam_ram_primary[i + 1] = index;
        ppu.oam_ram_primary[i + 2] = attrib;
        ppu.oam_ram_primary[i + 3] = x;
    }

    for _i in 65..=256 {
        sprites.evaluate(&mut ppu);
    }

    assert_eq!(sprites.secondary_oam[0], 0);
    assert_eq!(sprites.next_sprites_count, 8);
    assert_eq!(ppu.status_reg.contains(StatusRegister::SPRITE_OVERFLOW()), true);

    //=================================================

    ppu = Context::new();
    sprites.clear_secondary_oam(0x00);

    for i in (0..32).step_by(4) {
        ppu.oam_ram_primary[i] = y;
        ppu.oam_ram_primary[i + 1] = index;
        ppu.oam_ram_primary[i + 2] = attrib;
        ppu.oam_ram_primary[i + 3] = x;
    }

    for i in 32..256 {
        ppu.oam_ram_primary[i] = 0xFF;
    }

    for _i in 65..=256 {
        sprites.evaluate(&mut ppu);
    }

    assert_eq!(sprites.secondary_oam[0], 0);
    assert_eq!(sprites.next_sprites_count, 8);
    assert_eq!(ppu.status_reg.contains(StatusRegister::SPRITE_OVERFLOW()), false);

    //===============================================

    ppu = Context::new();
    sprites.clear_secondary_oam(0x00);

    for i in (0..28).step_by(4) {
        ppu.oam_ram_primary[i] = y;
        ppu.oam_ram_primary[i + 1] = index;
        ppu.oam_ram_primary[i + 2] = attrib;
        ppu.oam_ram_primary[i + 3] = x;
    }

    for i in 28..256 {
        ppu.oam_ram_primary[i] = 0xFF;
    }

    for _i in 65..=256 {
        sprites.evaluate(&mut ppu);
    }

    assert_eq!(sprites.secondary_oam[0], 0);
    assert_eq!(sprites.next_sprites_count, 7);
    assert_eq!(ppu.status_reg.contains(StatusRegister::SPRITE_OVERFLOW()), false);
}

#[test]
fn test_sprite_fetching() {
    let mut sprites = Sprites::new();
    let mut ppu = Context::new();
    sprites.clear_secondary_oam(0x00);

    let y = 0x0_u8;
    let index = 0x02_u8;
    let attrib = 0x3_u8;
    let x = 0x4_u8;

    for i in (0..256).step_by(4) {
        ppu.oam_ram_primary[i] = 0x80;
        ppu.oam_ram_primary[i + 1] = 0x80;
        ppu.oam_ram_primary[i + 2] = 0;
        ppu.oam_ram_primary[i + 3] = 0x80;
    }

    ppu.oam_ram_primary[0] = y;
    ppu.oam_ram_primary[1] = index;
    ppu.oam_ram_primary[2] = attrib;
    ppu.oam_ram_primary[3] = x;

    ppu.oam_ram_primary[252] = y;
    ppu.oam_ram_primary[253] = index;
    ppu.oam_ram_primary[254] = attrib;
    ppu.oam_ram_primary[255] = x;

    for _i in 65..=256 {
        sprites.evaluate(&mut ppu);
    }

    assert_eq!(sprites.next_sprites_count, 2);
    assert_eq!(ppu.status_reg.contains(StatusRegister::SPRITE_OVERFLOW()), false);

    ppu.scanline_dot = 257;
    let mut addr = 0xff_u16;

    for _i in 257..=320 {
        let data = (ppu.scanline_dot & 0x07) as u8;
        match ppu.scanline_dot & 0x07 {
            1 => {
                sprites.fetch_sprite_data(&mut ppu);
            }
            2 => {}
            3 => {}
            4 => {}
            5 => {
                addr = sprites.pattern0_address(&mut ppu);
            }
            6 => {
                addr = sprites.pattern0_address(&mut ppu);
                sprites.set_pattern0(&mut ppu, data);
            }
            7 => {
                addr = sprites.pattern1_address(&mut ppu);
            }
            0 => {
                addr = sprites.pattern1_address(&mut ppu);
                sprites.set_pattern1(&mut ppu, data);
            }
            _ => {
                panic!("ppu 305-321 out of bounds");
            }
        }

        ppu.scanline_dot += 1;
    }
    let _ = addr;

    assert_eq!(sprites.sprites_count, 2);
    assert_eq!(sprites.secondary_oam[0], 0);
    assert_eq!(sprites.secondary_oam[4], 0);
    assert_eq!(sprites.secondary_oam[8], 0xFF);

    assert_eq!(sprites.sprite_data[0].y_pos, 0);
    assert_eq!(sprites.sprite_data[0].x_pos, 4);
    assert_eq!(sprites.sprite_data[1].y_pos, 0);
    assert_eq!(sprites.sprite_data[1].x_pos, 4);
}

fn sprite_line_setup() -> (Sprites, Context) {
    let mut sprites = Sprites::new();
    sprites.sprites_count = 2;
    sprites.left_most_x = 4;
    // sprite 0: one opaque pixel at its left edge, palette 1, in front
    sprites.sprite_data[0].y_pos = 0;
    sprites.sprite_data[0].x_pos = 4;
    sprites.sprite_data[0].pattern = [0b1000_0000, 0];
    sprites.sprite_data[0].attribute = SpriteAttribute::from_bits_truncate(0x01);
    // sprite 1: opaque everywhere, palette 2
    sprites.sprite_data[1].y_pos = 0;
    sprites.sprite_data[1].x_pos = 4;
    sprites.sprite_data[1].pattern = [0xFF, 0xFF];
    sprites.sprite_data[1].attribute = SpriteAttribute::from_bits_truncate(0x02);
    let mut ppu = Context::new();
    ppu.mask_reg = MaskRegister::from_bits_truncate(0x1E);
    (sprites, ppu)
}

#[test]
fn first_opaque_sprite_wins_and_sets_sprite_zero_hit() {
    let (mut sprites, mut ppu) = sprite_line_setup();
    ppu.scanline_dot = 5;
    let r = sprites.select_sprite_pixel(&mut ppu, 0x03);
    assert_eq!(r, 0x10 | 0x01 | (1 << 2));
    assert!(ppu.status_reg.contains(StatusRegister::SPRITE_ZERO_HIT()));
}

#[test]
fn transparent_sprite_pixel_lets_the_next_sprite_show() {
    let (mut sprites, mut ppu) = sprite_line_setup();
    ppu.scanline_dot = 6;
    let r = sprites.select_sprite_pixel(&mut ppu, 0x03);
    assert_eq!(r, 0x10 | 0x03 | (2 << 2));
    assert!(!ppu.status_reg.contains(StatusRegister::SPRITE_ZERO_HIT()));
}

#[test]
fn sprite_behind_opaque_background_shows_the_background() {
    let (mut sprites, mut ppu) = sprite_line_setup();
    sprites.sprite_data[0].attribute = SpriteAttribute::from_bits_truncate(0x21);
    ppu.scanline_dot = 5;
    assert_eq!(sprites.select_sprite_pixel(&mut ppu, 0x02), 0x02);
    assert!(ppu.status_reg.contains(StatusRegister::SPRITE_ZERO_HIT()));
    // over a transparent background it shows after all
    let (mut sprites, mut ppu) = sprite_line_setup();
    sprites.sprite_data[0].attribute = SpriteAttribute::from_bits_truncate(0x21);
    ppu.scanline_dot = 5;
    assert_eq!(sprites.select_sprite_pixel(&mut ppu, 0x00), 0x15);
    assert!(!ppu.status_reg.contains(StatusRegister::SPRITE_ZERO_HIT()));
}

#[test]
fn hidden_sprites_leave_the_background() {
    let (mut sprites, mut ppu) = sprite_line_setup();
    ppu.mask_reg = MaskRegister::from_bits_truncate(0x0E);
    ppu.scanline_dot = 5;
    assert_eq!(sprites.select_sprite_pixel(&mut ppu, 0x01), 0x01);
}

#[test]
fn evaluation_copies_the_first_eight_sprites_on_the_line_in_order() {
    let mut sprites = Sprites::new();
    let mut ppu = Context::new();
    ppu.scanline_index = 20;
    sprites.clear_secondary_oam(0x00);

    // odd sprites 1..19 lie on line 20 (ten of them), the rest do not
    for s in 0..64usize {
        let i = s * 4;
        ppu.oam_ram_primary[i] = if s % 2 == 1 && s < 20 { 20 - (s as u8 % 8) } else { 0xF0 };
        ppu.oam_ram_primary[i + 1] = s as u8;
        ppu.oam_ram_primary[i + 2] = 0x01;
        ppu.oam_ram_primary[i + 3] = 100 + s as u8;
    }

    for _dot in 65..=256 {
        sprites.evaluate(&mut ppu);
    }

    assert_eq!(sprites.next_sprites_count, 8);
    for t in 0..8usize {
        let s = 2 * t + 1;
        assert_eq!(sprites.secondary_oam[4 * t], (s % 8) as u8);
        assert_eq!(sprites.secondary_oam[4 * t + 1], s as u8);
        assert_eq!(sprites.secondary_oam[4 * t + 2], 0x01);
        assert_eq!(sprites.secondary_oam[4 * t + 3], 100 + s as u8);
    }
}

#[test]
fn evaluation_with_few_sprites_copies_them_all() {
    let mut sprites = Sprites::new();
    let mut ppu = Context::new();
    ppu.scanline_index = 50;
    sprites.clear_secondary_oam(0x00);
    for s in 0..64usize {
        ppu.oam_ram_primary[s * 4] = if s == 10 || s == 40 { 45 } else { 0xF0 };
        ppu.oam_ram_primary[s * 4 + 1] = s as u8;
    }
    for _dot in 65..=256 {
        sprites.evaluate(&mut ppu);
    }
    assert_eq!(sprites.next_sprites_count, 2);
    assert_eq!(sprites.secondary_oam[0], 5);
    assert_eq!(sprites.secondary_oam[1], 10);
    assert_eq!(sprites.secondary_oam[4], 5);
    assert_eq!(sprites.secondary_oam[5], 40);
    assert!(!ppu.status_reg.contains(StatusRegister::SPRITE_OVERFLOW()));
}
