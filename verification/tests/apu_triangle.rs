//! The triangle channel.

use nes_emulator::apu::triangle::Triangle;

// Triangle with length + linear counters loaded, period 8.
fn running_triangle() -> Triangle {
    let mut t = Triangle::new();
    t.length.set_enabled(true);
    t.write_linear(0x7f); // control clear, linear reload value 127
    t.write_timer_lo(0x08);
    t.write_timer_hi(0x00); // length index 0 -> 10, reload flag set
    t.tick_linear(); // load the linear counter
    t
}

// Step the timer until the sequencer would advance once.
fn clock_sequencer(t: &mut Triangle) {
    for _ in 0..(t.timer_period + 1) {
        t.tick_timer();
    }
}

#[test]
fn sequence_descends_then_ascends() {
    let mut t = running_triangle();
    assert_eq!(t.output(), 15);
    let mut outputs = vec![];
    for _ in 0..32 {
        clock_sequencer(&mut t);
        outputs.push(t.output());
    }
    assert_eq!(outputs[..16], [14, 13, 12, 11, 10, 9, 8, 7, 6, 5, 4, 3, 2, 1, 0, 0]);
    assert_eq!(outputs[16..31], [1, 2, 3, 4, 5, 6, 7, 8, 9, 10, 11, 12, 13, 14, 15]);
    assert_eq!(outputs[31], 15); // wrapped back to step 0
}

#[test]
fn sequencer_freezes_when_linear_counter_empty() {
    let mut t = Triangle::new();
    t.length.set_enabled(true);
    t.write_linear(0x00); // linear reload value 0
    t.write_timer_lo(0x08);
    t.write_timer_hi(0x00);
    t.tick_linear(); // linear counter = 0
    clock_sequencer(&mut t);
    assert_eq!(t.output(), 15); // held at step 0
}

#[test]
fn sequencer_freezes_when_length_counter_empty() {
    let mut t = running_triangle();
    t.length.set_enabled(false);
    clock_sequencer(&mut t);
    assert_eq!(t.output(), 15);
}

#[test]
fn output_holds_last_value_when_silenced() {
    let mut t = running_triangle();
    clock_sequencer(&mut t);
    clock_sequencer(&mut t);
    assert_eq!(t.output(), 13);
    t.length.set_enabled(false);
    clock_sequencer(&mut t);
    assert_eq!(t.output(), 13); // no volume gate; value is held
}

#[test]
fn linear_counter_counts_down_when_control_clear() {
    let mut t = Triangle::new();
    t.length.set_enabled(true);
    t.write_linear(0x02); // control clear, reload value 2
    t.write_timer_hi(0x00); // sets reload flag
    t.tick_linear(); // reload -> 2, reload flag cleared (control clear)
    t.tick_linear(); // 2 -> 1
    t.tick_linear(); // 1 -> 0
    clock_sequencer(&mut t);
    assert_eq!(t.output(), 15); // sequencer frozen at 0 steps
}

#[test]
fn control_set_keeps_reloading_linear_counter() {
    let mut t = Triangle::new();
    t.length.set_enabled(true);
    t.write_linear(0x82); // control set, reload value 2
    t.write_timer_hi(0x00);
    t.tick_linear(); // reload -> 2; reload flag stays set
    t.tick_linear(); // reloads again instead of decrementing
    t.tick_linear();
    clock_sequencer(&mut t);
    assert_eq!(t.output(), 14); // still running
}
