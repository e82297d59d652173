//! Console families.

use nes_emulator::region::Region;

#[test]
fn region_clock_shapes_match_console_families() {
    assert_eq!(Region::Ntsc.ppu_ratio(), (3, 1));
    assert_eq!(Region::Pal.ppu_ratio(), (16, 5));
    assert_eq!(Region::Dendy.ppu_ratio(), (3, 1));
    assert_eq!(Region::Ntsc.scanlines(), 262);
    assert_eq!(Region::Pal.scanlines(), 312);
    assert_eq!(Region::Dendy.vblank_start_scanline(), 291);
    let lines = Region::Pal.scanlines() as f64;
    let (dots, cycles) = Region::Pal.ppu_ratio();
    let fps = Region::Pal.cpu_hz() as f64 * dots as f64 / cycles as f64 / (341.0 * lines);
    assert!((fps - 50.007).abs() < 0.01);
}
