//! Feeding the device, and pacing the game by its samples.

use nes_emulator::audio::{
    AudioConfig, AudioProfile, StallAction, CONTROL_INTERVAL, REOPEN_RETRY,
};
use nes_emulator::pump::{AudioPacer, FeedPlan, Pump, StreamState};

fn pump() -> Pump {
    Pump::new(&AudioConfig::for_profile(AudioProfile::LowLatency), 0)
}

#[test]
fn a_stream_is_asked_for_again_after_a_while() {
    let mut pump = pump();
    assert!(pump.request_open(0));
    assert_eq!(pump.stream, StreamState::Opening);
    assert!(!pump.request_open(0));
    // The first three failures are reported.
    for n in 0..5 {
        assert_eq!(pump.open_failed(10), n < 3);
    }
    assert!(!pump.request_open(10 + REOPEN_RETRY - 1));
    assert!(pump.request_open(10 + REOPEN_RETRY));
    pump.opened(50);
    assert_eq!(pump.stream, StreamState::Open);
    assert_eq!((pump.open_failures, pump.next_control), (0, 50));
}

#[test]
fn an_idle_pump_keeps_no_more_than_the_high_water_mark() {
    let mut pump = pump();
    let high = pump.high_water_samples as usize;
    assert_eq!(pump.trim_idle(high), 0);
    assert_eq!(pump.trim_idle(high + 7), 7);
    pump.opened(0);
    assert_eq!(pump.trim_idle(high + 7), 0);
}

#[test]
fn feeding_stops_at_the_target() {
    let mut pump = pump();
    pump.opened(0);
    assert_eq!(pump.target_bytes, 3840);
    // An empty device takes a chunk at a time.
    assert_eq!(pump.plan(0, 1500), FeedPlan { excess: 0, take: 1024 });
    // Close to the target, only what fits.
    assert_eq!(pump.plan(3800, 1500).take, 20);
    assert_eq!(pump.plan(3840, 100), FeedPlan { excess: 0, take: 0 });
    assert_eq!(Pump::after_write(3800, 20), 3840);
    assert_eq!(Pump::after_write(u32::MAX - 1, 20), u32::MAX);
}

#[test]
fn the_backlog_is_bounded() {
    let pump = pump();
    let high = pump.high_water_samples as usize;
    for queued in [0u32, 1000, 3840, 20_000] {
        for pending in [0usize, 100, 4000, 40_000] {
            let plan = pump.plan(queued, pending);
            let left = pending - plan.excess;
            assert!(left == 0 || left + queued as usize / 2 <= high);
        }
    }
}

#[test]
fn a_stream_starts_once_it_is_full() {
    let mut pump = pump();
    pump.opened(0);
    assert!(!pump.wants_start(3839));
    assert!(pump.wants_start(3840));
    assert!(!pump.take_control(0));
    pump.start_succeeded();
    assert!(!pump.wants_start(3840));
    assert!(pump.wants_unpause(true));
    assert!(!pump.wants_unpause(false));
    assert!(pump.take_control(5));
    assert!(!pump.take_control(5 + CONTROL_INTERVAL - 1));
    assert!(pump.take_control(5 + CONTROL_INTERVAL));
}

#[test]
fn only_a_started_stream_can_stall() {
    let mut pump = pump();
    pump.opened(0);
    assert_eq!(pump.watch(true, 0), StallAction::Idle);
    assert_eq!(pump.watch(true, 2_000_000_000), StallAction::Idle);
    pump.start_succeeded();
    assert_eq!(pump.watch(true, 3_000_000_000), StallAction::Idle);
    assert_eq!(pump.watch(true, 4_250_000_000), StallAction::Reopen);
    pump.abandon();
    assert_eq!(pump.stream, StreamState::Opening);
    assert_eq!(pump.watch(true, 4_250_000_000), StallAction::Idle);
}

#[test]
fn an_underflow_lasts_until_samples_flow_again() {
    let mut pump = pump();
    pump.opened(0);
    assert_eq!(pump.track_underflow(0, 0, 10), None);
    assert_eq!(pump.underflow_at, None);
    pump.start_succeeded();
    assert_eq!(pump.track_underflow(0, 0, 20), None);
    assert_eq!(pump.track_underflow(0, 0, 30), None);
    assert_eq!(pump.track_underflow(0, 5, 35), None);
    assert_eq!(pump.track_underflow(8, 5, 40), Some(20));
    assert_eq!(pump.track_underflow(8, 5, 50), None);
}

#[test]
fn paced_chunks_keep_one_timeline() {
    let mut pacer = AudioPacer::new(0);
    assert!(!pacer.pace(0, true, 5, 100));
    assert!(!pacer.pace(10, false, 5, 100));
    assert!(pacer.pace(10, true, 1000, 100));
    assert_eq!(pacer.wait(1010), 90);
    // Asked for late, the next chunk is still due one chunk after the last.
    assert!(pacer.pace(10, true, 1150, 100));
    assert_eq!(pacer.next_chunk, 1200);
    assert_eq!(pacer.wait(1250), 0);
    // After a loss of more than 50 ms the schedule starts over.
    assert!(pacer.pace(10, true, 1200 + 50_999_999, 100));
    assert_eq!(pacer.next_chunk, 1300);
    assert!(pacer.pace(10, true, 1300 + 51_000_000, 100));
    assert_eq!(pacer.next_chunk, 1300 + 51_000_000 + 100);
}
