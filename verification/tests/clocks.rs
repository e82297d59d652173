//! Lines, frames and the sample buffer.

use nes_emulator::apu::{NesAPU, DEFAULT_SAMPLE_RATE};
use nes_emulator::ppu::raster::Raster;

#[test]
fn a_frame_takes_262_lines_of_341_dots() {
    let mut raster = Raster::new();
    for line in 0..262 {
        assert_eq!((raster.scanline, raster.dot), (line, 0));
        for dot in 0..341 {
            assert_eq!(raster.dot, dot);
            assert_eq!(raster.advance(), line == 261 && dot == 340);
        }
    }
    assert_eq!((raster.scanline, raster.dot), (0, 0));
    assert!(raster.odd_frame);
    assert_eq!(raster.total_dots, 341 * 262);
}

#[test]
fn recording_stops_after_a_second() {
    let mut apu = NesAPU::new();
    for _ in 0..10_000 {
        apu.tick(250);
    }
    assert_eq!(apu.buffered_samples(), DEFAULT_SAMPLE_RATE as usize);
    assert_eq!(apu.drain_sample_chunk(1000).len(), 1000);
    assert_eq!(apu.buffered_samples(), DEFAULT_SAMPLE_RATE as usize - 1000);
    assert_eq!(apu.drain_samples().len(), DEFAULT_SAMPLE_RATE as usize - 1000);
}
