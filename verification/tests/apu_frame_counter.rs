//! The frame sequencer.

use nes_emulator::apu::frame_counter::{
    FrameCounter, FrameEvent, FIVE_STEP_LENGTH, FOUR_STEP_LENGTH, IRQ_SET, STEP1, STEP2, STEP3,
    STEP4, STEP5,
};

// Tick `n` cycles, returning (cycle offset, event) for each non-idle event.
fn run(fc: &mut FrameCounter, n: u32) -> Vec<(u32, FrameEvent)> {
    let mut events = vec![];
    for i in 1..=n {
        let e = fc.tick();
        if e != FrameEvent::Idle {
            events.push((i, e));
        }
    }
    events
}

#[test]
fn four_step_event_timing() {
    let mut fc = FrameCounter::new();
    let events = run(&mut fc, FOUR_STEP_LENGTH);
    assert_eq!(
        events,
        vec![
            (STEP1, FrameEvent::Quarter),
            (STEP2, FrameEvent::Half),
            (STEP3, FrameEvent::Quarter),
            (STEP4, FrameEvent::Half),
        ]
    );
}

#[test]
fn four_step_wraps_around() {
    let mut fc = FrameCounter::new();
    run(&mut fc, FOUR_STEP_LENGTH);
    // Second pass produces the same sequence.
    let events = run(&mut fc, FOUR_STEP_LENGTH);
    assert_eq!(events[0], (STEP1, FrameEvent::Quarter));
    assert_eq!(events.len(), 4);
}

#[test]
fn four_step_sets_frame_irq_at_sequence_end() {
    let mut fc = FrameCounter::new();
    run(&mut fc, IRQ_SET - 1);
    assert!(!fc.frame_irq);
    fc.tick();
    assert!(fc.frame_irq);
}

#[test]
fn irq_flag_persists_until_cleared() {
    let mut fc = FrameCounter::new();
    run(&mut fc, FOUR_STEP_LENGTH + 100);
    assert!(fc.frame_irq);
    fc.clear_frame_irq();
    assert!(!fc.frame_irq);
}

#[test]
fn irq_inhibit_blocks_and_clears_irq() {
    let mut fc = FrameCounter::new();
    run(&mut fc, FOUR_STEP_LENGTH);
    assert!(fc.frame_irq);
    fc.write(0x40, true); // inhibit clears the pending flag...
    assert!(!fc.frame_irq);
    run(&mut fc, 2 * FOUR_STEP_LENGTH); // ...and blocks future ones
    assert!(!fc.frame_irq);
}

#[test]
fn five_step_write_clocks_quarter_and_half_after_delay() {
    let mut fc = FrameCounter::new();
    fc.write(0x80, true); // 3-cycle delay
    assert_eq!(fc.tick(), FrameEvent::Idle);
    assert_eq!(fc.tick(), FrameEvent::Idle);
    assert_eq!(fc.tick(), FrameEvent::Half);
}

#[test]
fn four_step_write_does_not_clock_units() {
    let mut fc = FrameCounter::new();
    fc.write(0x00, false); // 4-cycle delay
    let events = run(&mut fc, 4);
    assert!(events.is_empty());
}

#[test]
fn five_step_event_timing_and_no_irq() {
    let mut fc = FrameCounter::new();
    fc.write(0x80, true);
    run(&mut fc, 3); // apply the reset (clocks quarter+half once)
    let events = run(&mut fc, FIVE_STEP_LENGTH);
    assert_eq!(
        events,
        vec![
            (STEP1, FrameEvent::Quarter),
            (STEP2, FrameEvent::Half),
            (STEP3, FrameEvent::Quarter),
            (STEP5, FrameEvent::Half),
        ]
    );
    assert!(!fc.frame_irq);
}

#[test]
fn write_resets_sequence_position() {
    let mut fc = FrameCounter::new();
    run(&mut fc, 5000);
    fc.write(0x00, true);
    run(&mut fc, 3); // apply the reset
    // The next quarter clock arrives a full STEP1 later, not at 7457-5000.
    let events = run(&mut fc, STEP1);
    assert_eq!(events, vec![(STEP1, FrameEvent::Quarter)]);
}
