//! The scroll registers.

use nes_emulator::ppu::registers::loopy::LoopyRegister;

#[test]
fn scroll_writes_fill_temp_address_and_fine_x() {
    let mut loopy = LoopyRegister::new();
    loopy.write_ctrl(0b0000_0011);
    loopy.write_scroll(0x1d); // coarse X 3, fine X 5
    loopy.write_scroll(0x2a); // coarse Y 5, fine Y 2
    loopy.copy_all_for_test();

    assert_eq!(loopy.fine_x(), 5);
    assert_eq!(loopy.current() & 0x001f, 3);
    assert_eq!((loopy.current() >> 5) & 0x001f, 5);
    assert_eq!((loopy.current() >> 10) & 0x03, 3);
    assert_eq!((loopy.current() >> 12) & 0x07, 2);
}

#[test]
fn increment_y_wraps_coarse_y_and_switches_vertical_nametable() {
    let mut loopy = LoopyRegister::new();
    loopy.write_ctrl(0b0000_0010); // nametable 2
    loopy.write_scroll(0);
    loopy.write_scroll(0xef); // coarse Y 29, fine Y 7
    loopy.copy_all_for_test();
    loopy.increment_y();
    assert_eq!((loopy.current() >> 5) & 0x1f, 0);
    assert_eq!((loopy.current() >> 11) & 1, 0);
}


#[test]
fn increment_x_wraps_and_switches_horizontal_nametable() {
    let mut loopy = LoopyRegister::new();
    loopy.write_scroll(31 * 8);
    loopy.write_scroll(0);
    loopy.copy_all_for_test();
    loopy.increment_x();
    assert_eq!(loopy.current() & 0x001f, 0);
    assert_eq!((loopy.current() >> 10) & 1, 1);
}

#[test]
fn scrolling_on_comes_round_after_two_nametables() {
    let mut loopy = LoopyRegister::new();
    let start: u16 = 0x5a6d;
    loopy.v = start;
    for step in 1..=64 {
        loopy.increment_x();
        assert_eq!(loopy.v == start, step == 64);
        assert_eq!(loopy.v == start ^ 0x0400, step == 32);
    }
    for step in 1..=480 {
        loopy.increment_y();
        assert_eq!(loopy.v == start, step == 480);
        assert_eq!(loopy.v == start ^ 0x0800, step == 240);
    }
}
