//! The noise channel.

use nes_emulator::apu::noise::Noise;

#[test]
fn lfsr_mode0_feedback_from_bit1() {
    let mut n = Noise::new();
    // shift = 1: feedback = bit0 ^ bit1 = 1 ^ 0 = 1
    n.clock_lfsr();
    assert_eq!(n.shift, 0x4000);
    // shift = 0x4000: feedback = 0 ^ 0 = 0
    n.clock_lfsr();
    assert_eq!(n.shift, 0x2000);
}

#[test]
fn lfsr_mode1_feedback_from_bit6() {
    let mut n = Noise::new();
    n.write_mode_period(0x80);
    n.shift = 0x0040; // bit 6 set
    // feedback = bit0 ^ bit6 = 0 ^ 1 = 1
    n.clock_lfsr();
    assert_eq!(n.shift, 0x4020);
}

#[test]
fn lfsr_mode0_has_maximal_period() {
    let mut n = Noise::new();
    // A 15-bit maximal LFSR repeats after 2^15 - 1 = 32767 clocks and
    // never earlier.
    for i in 1..=32767u32 {
        n.clock_lfsr();
        if n.shift == 1 {
            assert_eq!(i, 32767);
            return;
        }
    }
    panic!("LFSR never returned to its seed");
}

#[test]
fn timer_clocks_lfsr_every_period_cycles() {
    let mut n = Noise::new();
    n.write_mode_period(0x01); // period 8
    for _ in 0..8 {
        n.tick_timer();
    }
    assert_eq!(n.shift, 0x4000); // exactly one LFSR clock
    for _ in 0..8 {
        n.tick_timer();
    }
    assert_eq!(n.shift, 0x2000);
}

#[test]
fn silent_when_bit0_set_or_length_empty() {
    let mut n = Noise::new();
    n.length.set_enabled(true);
    n.write_control(0x1f); // constant volume 15
    n.write_length(0x00); // length index 0 -> 10
    assert_eq!(n.output(), 0); // shift = 1, bit 0 set
    n.clock_lfsr(); // shift = 0x4000
    assert_eq!(n.output(), 15);
    n.length.set_enabled(false);
    assert_eq!(n.output(), 0);
}

#[test]
fn lfsr_mode1_loops_after_93() {
    let mut n = Noise::new();
    n.write_mode_period(0x80);
    let mut clocks = 0;
    loop {
        n.clock_lfsr();
        clocks += 1;
        assert!(0 < n.shift && n.shift < 0x8000);
        if n.shift == 1 {
            break;
        }
    }
    assert_eq!(clocks, 93);
    // Some registers are not on that loop: this one has a shorter.
    n.shift = 0x0737;
    for _ in 0..31 {
        n.clock_lfsr();
    }
    assert_eq!(n.shift, 0x0737);
}

#[test]
fn the_register_moves_on_the_first_tick_of_each_period() {
    let mut n = Noise::new();
    n.write_mode_period(0x02); // period 16
    let mut moved = vec![];
    for tick in 1..=50 {
        let before = n.shift;
        n.tick_timer();
        if n.shift != before {
            moved.push(tick);
        }
    }
    assert_eq!(moved, vec![1, 17, 33, 49]);
}
