use rustnes::nes::ppu::ppu_registers::AddrReg;

#[test]
fn test_addr_reg() {
    let mut addr_reg = AddrReg { v: 0, t: 0, x: 0, w: false };

    addr_reg.io_write_2005(0xFF);
    assert_eq!(addr_reg.t, 31);
    assert_eq!(addr_reg.x, 7);
    addr_reg.io_write_2005(0xFF);
    assert_eq!(addr_reg.t, 0x73FF);

    addr_reg.v = 0;
    addr_reg.t = 0;
    addr_reg.x = 0;
    addr_reg.w = false;

    addr_reg.io_write_2006(0xFF);
    assert_eq!(addr_reg.t, 0x3F00);
    addr_reg.io_write_2006(0xFF);
    assert_eq!(addr_reg.t, 0x3FFF);
    assert_eq!(addr_reg.v, addr_reg.t);
}
