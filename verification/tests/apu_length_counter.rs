//! The length counter.

use nes_emulator::apu::length_counter::LengthCounter;

#[test]
fn load_uses_lookup_table() {
    let mut lc = LengthCounter::new();
    lc.set_enabled(true);
    lc.load(0);
    assert!(lc.active());
    lc.load(1);
    // index 1 -> 254
    for _ in 0..254 {
        assert!(lc.active());
        lc.tick();
    }
    assert!(!lc.active());
}

#[test]
fn counter_stops_at_zero() {
    let mut lc = LengthCounter::new();
    lc.set_enabled(true);
    lc.load(3); // -> 2
    lc.tick();
    lc.tick();
    lc.tick();
    assert!(!lc.active());
}

#[test]
fn halt_freezes_counter() {
    let mut lc = LengthCounter::new();
    lc.set_enabled(true);
    lc.load(3); // -> 2
    lc.halt = true;
    lc.tick();
    lc.tick();
    assert!(lc.active());
}

#[test]
fn disabling_zeroes_and_blocks_reload() {
    let mut lc = LengthCounter::new();
    lc.set_enabled(true);
    lc.load(1);
    lc.set_enabled(false);
    assert!(!lc.active());
    lc.load(1); // ignored while disabled
    assert!(!lc.active());
}
