//! The headless probe.

use nes_emulator::probe::{bmp_bytes, frame_hash, parse_script};
use nes_emulator::render::frame::Frame;

#[test]
fn scripts_support_bounded_and_open_ended_ranges() {
    let presses = parse_script("start@10-12,right@20-").unwrap();
    assert_eq!(presses.len(), 2);
    assert_eq!((presses[0].from, presses[0].to), (10, 12));
    assert_eq!((presses[1].from, presses[1].to), (20, u32::MAX));
}

#[test]
fn bmp_encoding_is_deterministic_and_has_expected_size() {
    let frame = Frame::new();
    let first = bmp_bytes(&frame);
    assert_eq!(first, bmp_bytes(&frame));
    assert_eq!(&first[..2], b"BM");
    assert_eq!(first.len(), 54 + 256 * 240 * 3);
}

#[test]
fn frame_hash_changes_with_pixels() {
    let mut frame = Frame::new();
    let before = frame_hash(&frame);
    frame.set_pixel(0, 0, (1, 2, 3));
    assert_ne!(before, frame_hash(&frame));
}
