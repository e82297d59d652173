//! The controller port.

use nes_emulator::joypad::{Joypad, JoypadButton};

#[test]
fn test_strobe_mode() {
    // With strobe on, reads keep returning the A button's state.
    let mut joypad = Joypad::new();
    joypad.write(1);
    joypad.set_button_pressed_status(JoypadButton::BUTTON_A, true);
    for _ in 0..10 {
        assert_eq!(joypad.read(), 1);
    }
}

#[test]
fn test_strobe_off_reads_all_buttons_in_order() {
    // Strobe off: reads walk A,B,Select,Start,Up,Down,Left,Right, then 1s.
    let mut joypad = Joypad::new();
    joypad.write(0);
    joypad.set_button_pressed_status(JoypadButton::RIGHT, true);
    joypad.set_button_pressed_status(JoypadButton::LEFT, true);
    joypad.set_button_pressed_status(JoypadButton::SELECT, true);
    joypad.set_button_pressed_status(JoypadButton::BUTTON_B, true);

    // A, B, Select, Start, Up, Down, Left, Right
    assert_eq!(joypad.read(), 0); // A
    assert_eq!(joypad.read(), 1); // B
    assert_eq!(joypad.read(), 1); // Select
    assert_eq!(joypad.read(), 0); // Start
    assert_eq!(joypad.read(), 0); // Up
    assert_eq!(joypad.read(), 0); // Down
    assert_eq!(joypad.read(), 1); // Left
    assert_eq!(joypad.read(), 1); // Right

    // Reads past the 8th button return 1.
    for _ in 0..3 {
        assert_eq!(joypad.read(), 1);
    }
}

#[test]
fn holding_releases_what_is_not_held() {
    let mut joypad = Joypad::new();
    joypad.hold(0);
    assert!(joypad.last_input_sampled_at.is_none());
    joypad.hold(JoypadButton::START | JoypadButton::LEFT);
    assert!(joypad.last_input_sampled_at.is_some());
    joypad.hold(JoypadButton::LEFT | JoypadButton::BUTTON_A);
    assert_eq!(joypad.port.button_status.bits, 0x41);
    joypad.write(1);
    joypad.write(0);
    let bits: Vec<u8> = (0..9).map(|_| joypad.read()).collect();
    assert_eq!(bits, vec![1, 0, 0, 0, 0, 0, 1, 0, 1]);
    joypad.hold(0);
    assert_eq!(joypad.port.button_status.bits, 0);
}

#[test]
fn input_latency_is_recorded_only_for_the_first_following_poll() {
    let mut joypad = Joypad::new();
    joypad.set_button_pressed_status(JoypadButton::BUTTON_A, true);
    joypad.write(0);
    assert_eq!(joypad.read(), 1);
    let first = joypad.last_input_to_poll_us();

    joypad.write(1);
    joypad.write(0);
    assert_eq!(joypad.read(), 1);
    assert_eq!(joypad.last_input_to_poll_us(), first);
}
