//! The pulse channels.

use nes_emulator::apu::pulse::Pulse;

// A pulse with length loaded, constant volume 15, 50% duty, period 8.
fn audible_pulse() -> Pulse {
    let mut p = Pulse::new(true);
    p.length.set_enabled(true);
    p.write_control(0b1001_1111); // duty 2, constant volume 15
    p.write_timer_lo(0x08);
    p.write_timer_hi(0x00); // loads length index 0 -> 10
    p
}

// Step the timer until the sequencer advances once.
fn clock_sequencer(p: &mut Pulse) {
    for _ in 0..(p.timer_period + 1) {
        p.tick_timer();
    }
}

#[test]
fn duty_sequence_produces_square_wave() {
    let mut p = audible_pulse();
    // duty 2 -> 0,1,1,1,1,0,0,0; sequencer starts at step 0
    let mut outputs = vec![p.output()];
    for _ in 0..7 {
        clock_sequencer(&mut p);
        outputs.push(p.output());
    }
    assert_eq!(outputs, vec![0, 15, 15, 15, 15, 0, 0, 0]);
}

#[test]
fn write_timer_hi_resets_duty_phase() {
    let mut p = audible_pulse();
    clock_sequencer(&mut p);
    assert_eq!(p.output(), 15); // step 1
    p.write_timer_hi(0x00);
    assert_eq!(p.output(), 0); // back to step 0
}

#[test]
fn silent_when_length_counter_empty() {
    let mut p = audible_pulse();
    clock_sequencer(&mut p); // step 1: high
    p.length.set_enabled(false);
    assert_eq!(p.output(), 0);
}

#[test]
fn muted_when_period_below_8() {
    let mut p = audible_pulse();
    clock_sequencer(&mut p); // step 1: high
    p.write_timer_lo(0x07);
    assert_eq!(p.output(), 0);
}

#[test]
fn muted_when_sweep_target_overflows() {
    let mut p = audible_pulse();
    clock_sequencer(&mut p); // step 1: high
    assert_eq!(p.output(), 15);
    // period $400, shift 0, add mode -> target $800 > $7FF
    p.write_timer_lo(0x00);
    p.write_timer_hi(0x04);
    clock_sequencer(&mut p);
    assert_eq!(p.output(), 0);
}

#[test]
fn sweep_negate_pulse1_uses_ones_complement() {
    let mut p = Pulse::new(true);
    p.timer_period = 0x200;
    p.write_sweep(0b1000_1001); // enabled, period 0, negate, shift 1
    assert_eq!(p.sweep_target(), 0x200 - 0x100 - 1);
}

#[test]
fn sweep_negate_pulse2_uses_twos_complement() {
    let mut p = Pulse::new(false);
    p.timer_period = 0x200;
    p.write_sweep(0b1000_1001);
    assert_eq!(p.sweep_target(), 0x200 - 0x100);
}

#[test]
fn sweep_updates_period_when_divider_fires() {
    let mut p = audible_pulse();
    p.write_timer_lo(0x00);
    p.write_timer_hi(0x01); // period 0x100
    p.write_sweep(0b1000_0001); // enabled, divider period 0, add, shift 1
    // Divider period 0 fires on every half-frame clock.
    p.tick_sweep(); // period += period >> 1
    assert_eq!(p.timer_period, 0x180);
    p.tick_sweep();
    assert_eq!(p.timer_period, 0x240);
}

#[test]
fn sweep_divider_period_delays_updates() {
    let mut p = audible_pulse();
    p.write_timer_lo(0x00);
    p.write_timer_hi(0x01); // period 0x100
    p.write_sweep(0b1001_0001); // enabled, divider period 1, add, shift 1
    p.tick_sweep(); // divider 0: updates, divider reloaded to 1
    assert_eq!(p.timer_period, 0x180);
    p.tick_sweep(); // divider 1 -> 0, no update
    assert_eq!(p.timer_period, 0x180);
    p.tick_sweep(); // divider 0: updates again
    assert_eq!(p.timer_period, 0x240);
}

#[test]
fn sweep_disabled_does_not_change_period() {
    let mut p = audible_pulse();
    p.write_timer_lo(0x00);
    p.write_timer_hi(0x01);
    p.write_sweep(0b0000_0001); // disabled, shift 1
    for _ in 0..4 {
        p.tick_sweep();
    }
    assert_eq!(p.timer_period, 0x100);
}
