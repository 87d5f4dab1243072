use rustnes::nes::ppu::background::Background;
use rustnes::nes::ppu::ppu_registers::MaskRegister;
use rustnes::nes::ppu::Context;

fn check_background_rendering() {
    let mut ppu_context = Context::new();
    ppu_context.mask_reg.set(MaskRegister::SHOW_BACKGROUND(), true);
    ppu_context.mask_reg.set(MaskRegister::SHOW_SPRITES(), true);
    ppu_context.scanline_dot = 10;

    let mut bg = Background::new();
    bg.next_pattern[0] = 0xFF;
    bg.next_pattern[1] = 0xFF;
    bg.update_shift_registers_idle();

    assert_eq!(bg.pattern_queue[0], 0xFF);
    assert_eq!(bg.pattern_queue[1], 0xFF);

    bg.next_pattern[0] = 0x3C;
    bg.next_pattern[1] = 0x3C;
    bg.next_attribute = 0xFF;
    bg.update_shift_registers_idle();

    assert_eq!(bg.pattern_queue[0], 0xFF3C);
    assert_eq!(bg.pattern_queue[1], 0xFF3C);

    let mut pixel = bg.select_background_pixel(&mut ppu_context);
    assert_eq!(pixel, 0x03);

    // test the registers are shifting correctly
    for _ in 0..7 {
        pixel = bg.select_background_pixel(&mut ppu_context);
    }
    let _ = pixel;

    bg.next_pattern[0] = 0x0;
    bg.next_pattern[1] = 0x0;
    bg.next_attribute = 0x0;
    bg.update_shift_registers_render();

    pixel = bg.select_background_pixel(&mut ppu_context);
    assert_eq!(pixel, 0x0C);
    pixel = bg.select_background_pixel(&mut ppu_context);
    assert_eq!(pixel, 0x0C);
    pixel = bg.select_background_pixel(&mut ppu_context);
    assert_eq!(pixel, 0x0F);
}

#[test]
fn background_test_background_rendering() {
    check_background_rendering();
}

#[test]
fn ppu_renderer_test_background_rendering() {
    check_background_rendering();
}
