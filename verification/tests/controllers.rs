use rustnes::mos::Pinout;
use rustnes::nes::controllers::{JoypadInput, NesControllers};

#[test]
fn test_standard_controller_polling() {
    let mut ct = NesControllers::from_power_on();
    let mut pinout = Pinout::new();
    pinout = ct.read_4016(pinout);
    pinout = ct.read_4016(pinout);
    assert_eq!(pinout.data, 0x1);

    let mut p1 = JoypadInput::from_bits_truncate(0x0);
    p1.set(JoypadInput::A(), true);
    p1.set(JoypadInput::UP(), true);
    ct.set_joypad1_state(p1);

    // load shifts
    pinout.data = 1;
    pinout = ct.write_4016(pinout);
    // while polling controller should return A
    pinout = ct.read_4016(pinout);
    assert_eq!(pinout.data, 0x1);
    // lock shifts end polling
    pinout.data = 0;
    pinout = ct.write_4016(pinout);

    pinout.data = 0b10100000;
    pinout = ct.read_4016(pinout);
    assert_eq!(pinout.data, 0b10100000 | 1);
    pinout = ct.read_4016(pinout);
    assert_eq!(pinout.data, 0b10100000 | 0);
    pinout = ct.read_4016(pinout);
    assert_eq!(pinout.data, 0b10100000 | 0);
    pinout = ct.read_4016(pinout);
    assert_eq!(pinout.data, 0b10100000 | 0);
    pinout = ct.read_4016(pinout);
    assert_eq!(pinout.data, 0b10100000 | 1);
    pinout = ct.read_4016(pinout);
    assert_eq!(pinout.data, 0b10100000 | 0);
    pinout = ct.read_4016(pinout);
    assert_eq!(pinout.data, 0b10100000 | 0);
    pinout = ct.read_4016(pinout);
    assert_eq!(pinout.data, 0b10100000 | 0);
    // remaining should all be 1
    pinout = ct.read_4016(pinout);
    assert_eq!(pinout.data, 0b10100000 | 1);
    pinout = ct.read_4016(pinout);
    assert_eq!(pinout.data, 0b10100000 | 1);
}
