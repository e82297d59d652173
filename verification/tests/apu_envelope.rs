//! The volume envelope.

use nes_emulator::apu::envelope::Envelope;

#[test]
fn restart_reloads_decay_on_next_clock() {
    let mut env = Envelope::new();
    env.write(0x04); // period 4, not constant, no loop
    env.restart();
    env.tick();
    assert_eq!(env.volume(), 15);
}

#[test]
fn decay_steps_every_period_plus_one_clocks() {
    let mut env = Envelope::new();
    env.write(0x01); // period 1 -> decay steps every 2 clocks
    env.restart();
    env.tick(); // start: decay = 15, divider = 1
    env.tick(); // divider 1 -> 0
    assert_eq!(env.volume(), 15);
    env.tick(); // divider fires: decay 14
    assert_eq!(env.volume(), 14);
}

#[test]
fn decay_stops_at_zero_without_loop() {
    let mut env = Envelope::new();
    env.write(0x00); // period 0 -> decay steps every clock
    env.restart();
    env.tick(); // decay = 15
    for _ in 0..15 {
        env.tick();
    }
    assert_eq!(env.volume(), 0);
    env.tick();
    assert_eq!(env.volume(), 0);
}

#[test]
fn decay_wraps_to_15_with_loop() {
    let mut env = Envelope::new();
    env.write(0x20); // loop, period 0
    env.restart();
    env.tick(); // decay = 15
    for _ in 0..15 {
        env.tick();
    }
    assert_eq!(env.volume(), 0);
    env.tick();
    assert_eq!(env.volume(), 15);
}

#[test]
fn constant_volume_returns_period() {
    let mut env = Envelope::new();
    env.write(0x1a); // constant, V = 10
    assert_eq!(env.volume(), 10);
}
