//! The frame buffer.

use nes_emulator::render::frame::Frame;

#[test]
fn set_pixel_past_row_end_does_not_wrap_to_next_line() {
    let mut frame = Frame::new();
    // x == WIDTH is off the right edge; must be a no-op, not bleed to (0, y+1).
    frame.set_pixel(Frame::WIDTH, 10, (1, 2, 3));
    let next_row_start = 11 * 3 * Frame::WIDTH; // pixel (0, 11)
    assert_eq!(
        (
            frame.data[next_row_start],
            frame.data[next_row_start + 1],
            frame.data[next_row_start + 2],
        ),
        (0, 0, 0)
    );
}
