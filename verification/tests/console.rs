use rustnes::nes::consoles::nes_ntsc::NesNtsc;
use rustnes::nes::consoles::{Console, ConsoleError};
use rustnes::nes::controllers::JoypadInput;
use rustnes::nes::rom::RomLoadError;
use rustnes::nes::mappers::cartridge::MapperError;

fn program_rom(program: &[u8]) -> Vec<u8> {
    let mut bytes = vec![0x4e, 0x45, 0x53, 0x1a, 1, 1, 0, 0, 0, 0, 0, 0, 0, 0, 0, 0];
    let mut prg = vec![0xEAu8; 16384];
    prg[..program.len()].copy_from_slice(program);
    // NMI, reset and IRQ vectors all point at $8000
    for v in [0x3FFA, 0x3FFC, 0x3FFE] {
        prg[v] = 0x00;
        prg[v + 1] = 0x80;
    }
    bytes.extend_from_slice(&prg);
    bytes.extend_from_slice(&vec![0u8; 8192]);
    bytes
}

fn arithmetic_program() -> Vec<u8> {
    vec![
        0x18, // CLC
        0xA9, 0x05, // LDA #$05
        0x69, 0x03, // ADC #$03   -> A = 8
        0x85, 0x10, // STA $10
        0x38, // SEC
        0xE9, 0x01, // SBC #$01   -> A = 7
        0xAA, // TAX
        0xA5, 0x10, // LDA $10    -> A = 8
        0x4C, 0x0D, 0x80, // JMP $800D
    ]
}

#[test]
fn bad_rom_is_reported() {
    let mut nes = NesNtsc::new();
    assert_eq!(nes.load_rom_bytes(&[1, 2, 3]), Err(ConsoleError::Rom(RomLoadError::IOError)));
}

#[test]
fn program_runs_for_a_frame() {
    let mut nes = NesNtsc::new();
    nes.load_rom_bytes(&program_rom(&arithmetic_program())).unwrap();
    let before = nes.get_frame_number();
    nes.execute_frame().unwrap();
    assert_eq!(nes.get_frame_number(), before + 1);
    let (cpu, _pinout) = nes.cpu_state();
    assert_eq!(cpu.a, 8);
    assert_eq!(cpu.x, 7);
}

#[test]
fn frames_follow_one_another() {
    let mut nes = NesNtsc::new();
    nes.load_rom_bytes(&program_rom(&arithmetic_program())).unwrap();
    let start = nes.get_frame_number();
    for _ in 0..3 {
        nes.execute_frame().unwrap();
    }
    assert_eq!(nes.get_frame_number(), start + 3);
    assert_eq!(nes.get_index_buffer().len(), 256 * 240);
}

#[test]
fn pixel_buffer_uses_the_palette() {
    let mut nes = NesNtsc::new();
    nes.load_rom_bytes(&program_rom(&arithmetic_program())).unwrap();
    nes.execute_frame().unwrap();
    let palette: Vec<u32> = (0..64u32).map(|i| 0x0100_0000 + i).collect();
    let mut frame = vec![0u32; 256 * 240];
    nes.output_pixel_buffer(&palette, &mut frame).unwrap();
    let index = nes.get_index_buffer().clone();
    for (i, px) in frame.iter().enumerate() {
        assert_eq!(*px, palette[(index[i] & 0x3F) as usize]);
    }
}

#[test]
fn joypad_state_is_accepted() {
    let mut nes = NesNtsc::new();
    nes.load_rom_bytes(&program_rom(&arithmetic_program())).unwrap();
    let mut pad = JoypadInput::new();
    pad.set(JoypadInput::START(), true);
    nes.input_joypad1_state(pad);
    nes.input_joypad2_state(JoypadInput::new());
    nes.execute_frame().unwrap();
}

#[test]
fn a_frame_is_traced() {
    let mut nes = NesNtsc::new();
    nes.load_rom_bytes(&program_rom(&arithmetic_program())).unwrap();
    nes.execute_frame().unwrap();
    let cpu_cycles = nes.cpu_log().size();
    assert!(cpu_cycles > 0 && cpu_cycles < 30000, "{} cycles", cpu_cycles);
    assert_eq!(nes.ppu_log().size(), 3 * cpu_cycles);
    nes.execute_frame().unwrap();
    let second = nes.cpu_log().size();
    assert!(second > 29000 && second < 30000, "{} cycles", second);
    assert_eq!(nes.ppu_log().size(), 3 * second);
}

#[test]
fn unsupported_mapper_is_reported_and_the_console_kept() {
    let mut nes = NesNtsc::new();
    let mut bytes = program_rom(&arithmetic_program());
    bytes[6] = 0x20; // mapper 2
    assert_eq!(nes.load_rom_bytes(&bytes), Err(ConsoleError::Mapper(MapperError::UnsupportedMapper(2))));
    assert_eq!(nes.get_frame_number(), 0);
    // a supported image loads
    assert_eq!(nes.load_rom_bytes(&program_rom(&arithmetic_program())), Ok(()));
}

#[test]
fn emphasis_pixels_are_refused_after_the_good_ones() {
    // LDA #$E0; STA $2001; JMP $8000: colour emphasis on, rendering off
    let program = vec![0xA9, 0xE0, 0x8D, 0x01, 0x20, 0x4C, 0x00, 0x80];
    let mut nes = NesNtsc::new();
    nes.load_rom_bytes(&program_rom(&program)).unwrap();
    for _ in 0..3 {
        nes.execute_frame().unwrap();
    }
    let index = nes.get_index_buffer().clone();
    let first_bad = index.iter().position(|&i| i > 63).expect("emphasis bits reach the buffer");
    let palette: Vec<u32> = (0..64u32).map(|i| 0x0100_0000 + i).collect();
    let mut frame = vec![7u32; 256 * 240];
    let r = nes.output_pixel_buffer(&palette, &mut frame);
    assert!(matches!(r, Err(ConsoleError::PixBufferError)));
    for j in 0..first_bad {
        assert_eq!(frame[j], palette[index[j] as usize]);
    }
    for j in first_bad..frame.len() {
        assert_eq!(frame[j], 7);
    }
}

#[test]
fn a_console_without_cartridge_still_ends_its_frames() {
    let mut nes = NesNtsc::new();
    nes.execute_frame().unwrap();
    nes.execute_frame().unwrap();
    assert_eq!(nes.get_frame_number(), 2);
}

#[test]
fn restart_returns_to_the_reset_sequence() {
    let mut nes = NesNtsc::new();
    nes.load_rom_bytes(&program_rom(&arithmetic_program())).unwrap();
    nes.execute_frame().unwrap();
    nes.restart_console();
    assert_eq!(nes.get_frame_number(), 0);
    let (cpu, pinout) = nes.cpu_state();
    assert_eq!(cpu.ir.opcode, 0x00);
    assert_eq!(cpu.ir.tm, 0x10);
    assert_eq!(cpu.cycle, 0);
    assert_eq!(pinout.address, 0);
    assert!(nes.get_index_buffer().iter().all(|&p| p == 0));
    // the program runs again from its reset vector
    nes.execute_frame().unwrap();
    let (cpu, _) = nes.cpu_state();
    assert_eq!(cpu.a, 8);
}
