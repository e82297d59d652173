//! Audio settings, the backlog and the stall watchdog. Times are nanoseconds.

use nes_emulator::audio::{
    excess_pending_samples, AudioConfig, AudioProfile, StallAction, StallWatchdog,
    HOST_SAMPLE_BYTES,
};

fn ms(n: u64) -> u64 {
    n * 1_000_000
}

#[test]
fn low_profile_uses_subframe_delivery_and_40ms_stream_target() {
    let config = AudioConfig::for_profile(AudioProfile::LowLatency);
    assert_eq!(config.delivery_samples, 256);
    assert_eq!(config.target_queued_samples(), 1920);
    assert_eq!(config.high_water_samples(), 6016);
}

#[test]
fn balanced_profile_uses_an_80ms_stream_target() {
    let config = AudioConfig::for_profile(AudioProfile::Balanced);
    assert_eq!(config.device_samples, 1024);
    assert_eq!(config.delivery_samples, 256);
    assert_eq!(config.target_queued_samples(), 3840);
}

#[test]
fn requested_latency_controls_the_sdl3_queue() {
    let mut config = AudioConfig::for_profile(AudioProfile::LowLatency);
    config.pulse_latency_ms = 60;
    assert_eq!(config.target_queued_samples(), 2880);
    assert_eq!(config.target_queued_samples() * HOST_SAMPLE_BYTES, 5760);
}

#[test]
fn profile_parser_rejects_unknown_values() {
    assert_eq!(
        AudioProfile::parse("low").unwrap(),
        AudioProfile::LowLatency
    );
    assert!(AudioProfile::parse("turbo").is_err());
}

#[test]
fn backpressure_preserves_the_live_stream_and_trims_only_pending_audio() {
    let high_water = 6_976;
    assert_eq!(excess_pending_samples(2_000, 5_760, high_water), 0);
    assert_eq!(excess_pending_samples(5_000, 5_760, high_water), 904);
    assert_eq!(
        excess_pending_samples(1_000, high_water * 2, high_water),
        1_000
    );
}

#[test]
fn stall_watchdog_escalates_resume_clear_then_reopen() {
    let mut watchdog = StallWatchdog::new();
    let start = 5_000_000_000u64;

    assert_eq!(watchdog.observe(true, start), StallAction::Idle);
    assert_eq!(watchdog.observe(true, start + ms(100)), StallAction::Idle);
    assert_eq!(watchdog.observe(true, start + ms(260)), StallAction::Resume);
    // Each in-place recovery is attempted only once per stall.
    assert_eq!(watchdog.observe(true, start + ms(400)), StallAction::Idle);
    assert_eq!(
        watchdog.observe(true, start + ms(700)),
        StallAction::ClearAndResume
    );
    assert_eq!(watchdog.observe(true, start + ms(900)), StallAction::Idle);
    assert_eq!(
        watchdog.observe(true, start + ms(1_300)),
        StallAction::Reopen
    );
}

#[test]
fn stall_watchdog_keeps_the_clock_through_brief_remissions() {
    // A resume kick or queue clear drains one device buffer and briefly
    // stops the drops without real recovery; the stall clock must keep
    // running through the gap instead of restarting from zero.
    let mut watchdog = StallWatchdog::new();
    let start = 5_000_000_000u64;

    watchdog.observe(true, start);
    assert_eq!(watchdog.observe(true, start + ms(260)), StallAction::Resume);
    assert_eq!(watchdog.observe(false, start + ms(300)), StallAction::Idle);
    assert_eq!(watchdog.observe(false, start + ms(500)), StallAction::Idle);
    assert_eq!(
        watchdog.observe(true, start + ms(650)),
        StallAction::ClearAndResume
    );
    assert_eq!(watchdog.observe(false, start + ms(700)), StallAction::Idle);
    assert_eq!(
        watchdog.observe(true, start + ms(1_300)),
        StallAction::Reopen
    );
}

#[test]
fn stall_watchdog_confirms_recovery_before_rearming() {
    let mut watchdog = StallWatchdog::new();
    let start = 5_000_000_000u64;

    watchdog.observe(true, start);
    assert_eq!(watchdog.observe(true, start + ms(260)), StallAction::Resume);
    // 500ms of continuous health confirms recovery and clears escalation.
    assert_eq!(watchdog.observe(false, start + ms(300)), StallAction::Idle);
    assert_eq!(watchdog.observe(false, start + ms(850)), StallAction::Idle);
    // A later stall escalates from scratch instead of reopening at once.
    assert_eq!(watchdog.observe(true, start + ms(900)), StallAction::Idle);
    assert_eq!(
        watchdog.observe(true, start + ms(1_000)),
        StallAction::Idle
    );
    assert_eq!(
        watchdog.observe(true, start + ms(1_200)),
        StallAction::Resume
    );
}

#[test]
fn stall_watchdog_stays_quiet_on_a_healthy_stream() {
    let mut watchdog = StallWatchdog::new();
    let start = 5_000_000_000u64;
    for tick in 0..200u64 {
        assert_eq!(
            watchdog.observe(false, start + ms(16 * tick)),
            StallAction::Idle
        );
    }
}

