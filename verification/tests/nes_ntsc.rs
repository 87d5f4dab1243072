use rustnes::nes::nes_ntsc::{nes_ntsc_blit, nes_ntsc_in_width, nes_ntsc_out_width, nes_ntsc_pixels, pixel_negate, pixel_offset, NesNtsc};

#[test]
fn test_pixel_info() {
    for n in nes_ntsc_pixels().iter() {
        assert!(n.offset >= 0);
        println!("pixel offset {}", n.offset);
    }
}

#[test]
fn pixel_table_exact_values() {
    let p = nes_ntsc_pixels();
    assert_eq!(p[0].offset, 353);
    assert_eq!(p[1].offset, 23);
    assert_eq!(p[2].offset, 154);
    assert_eq!(p[0].negate, 1);
    assert_eq!(p[1].negate, -1);
    assert_eq!(p[2].negate, 1);
    assert_eq!(pixel_offset(0, 0), 17);
    assert_eq!(pixel_negate(2), -1);
}

#[test]
fn blit_widths() {
    assert_eq!(nes_ntsc_out_width(256), 441);
    assert_eq!(nes_ntsc_in_width(441), 292);
}

#[test]
fn blit_writes_nothing() {
    let mut ntsc = NesNtsc::new();
    let input = vec![0u16; 16];
    let mut out = vec![7u32; 16];
    nes_ntsc_blit(&mut ntsc, &input, 4, 0, 4, 4, &mut out, 4);
    assert!(out.iter().all(|&v| v == 7));
}
