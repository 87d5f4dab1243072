use rustnes::nes::ppu::palette_ram::PaletteRam;
use rustnes::nes::ppu_viewer::{ppu_output, PpuViewer};

#[test]
fn ppu_output_adds_emphasis() {
    assert_eq!(ppu_output(0x7F, 0x00), 0x3F);
    assert_eq!(ppu_output(0x01, 0xE0), 0x1C1);
}

#[test]
fn chr_view_draws_tiles() {
    let mut pattern = vec![0u8; 0x2000];
    // tile 0, row 0: leftmost pixel colour 1, next colour 2, next colour 3
    pattern[0] = 0b1010_0000;
    pattern[8] = 0b0110_0000;
    // tile 33 (second tile row, second column), row 2: rightmost pixel colour 1
    pattern[33 * 16 + 2] = 0b0000_0001;
    let mut pal = PaletteRam::from_power_on();
    pal.write(0x3F00, 0x0F);
    pal.write(0x3F01, 0x11);
    pal.write(0x3F02, 0x22);
    pal.write(0x3F03, 0x33);

    let rgb: Vec<u32> = (0..64u32).map(|i| 1000 + i).collect();
    let mut viewer = PpuViewer::new(rgb);
    viewer.gen_chr_data(&pattern, &pal);
    let out = viewer.chr_buffer();
    assert_eq!(out.len(), 256 * 128);
    assert_eq!(out[0], 1000 + 0x11);
    assert_eq!(out[1], 1000 + 0x22);
    assert_eq!(out[2], 1000 + 0x33);
    assert_eq!(out[3], 1000 + 0x0F);
    // y = 8 + 2, x = 8 + 7
    assert_eq!(out[10 * 256 + 15], 1000 + 0x11);
}
