//! The decisions behind host audio delivery: how much to queue, when to drop,
//! when a stalled device is nudged or reopened, and how the game is paced. Times
//! are nanoseconds on one monotonic clock; devices, threads and sleeping belong
//! to the caller.

use crate::text::{debug_text, number_up_to, parse_number, quoted, same};
use vstd::prelude::*;

verus! {

pub const SAMPLE_RATE: u32 = 48_000;

pub const HOST_SAMPLE_BYTES: u32 = 2;

pub const PUMP_INTERVAL_MS: u64 = 16;

pub const BACKLOG_UNAVAILABLE: u32 = 0xffff_ffff;

pub const MILLISECOND: u64 = 1_000_000;

pub const CONTROL_INTERVAL: u64 = 16_000_000;

pub const REOPEN_RETRY: u64 = 2_000_000_000;

pub const STALL_RESUME_AFTER: u64 = 250_000_000;

pub const STALL_CLEAR_AFTER: u64 = 600_000_000;

pub const STALL_REOPEN_AFTER: u64 = 1_250_000_000;

pub const STALL_RECOVERY_CONFIRM: u64 = 500_000_000;

pub fn selected_backend_name() -> (r: &'static str)
    ensures
        r@ == "sdl3-unified-frame-pump"@,
{
    "sdl3-unified-frame-pump"
}

// ---- Configuration -------------------------------------------------------------------

/// Samples in so many milliseconds, rounded up.
pub open spec fn samples_in_ms(ms: u32) -> int {
    let samples = (48_000 * ms + 999) / 1000;
    if samples > u32::MAX {
        u32::MAX as int
    } else {
        samples
    }
}

pub fn samples_for_ms(ms: u32) -> (r: u32)
    ensures
        r == samples_in_ms(ms),
{
    let samples: u64 = (48_000 * ms as u64 + 999) / 1000;
    if samples > u32::MAX as u64 {
        u32::MAX
    } else {
        samples as u32
    }
}

#[derive(Clone, Copy, Debug, PartialEq, Eq, Structural)]
pub enum AudioProfile {
    LowLatency,
    Balanced,
}

impl AudioProfile {
    pub open spec fn named(value: Seq<char>) -> Option<AudioProfile> {
        if value == "low"@ || value == "low-latency"@ {
            Some(AudioProfile::LowLatency)
        } else if value == "balanced"@ || value == "safe"@ {
            Some(AudioProfile::Balanced)
        } else {
            None
        }
    }

    /// The complaint about a name that is none.
    pub open spec fn complaint(value: Seq<char>) -> Seq<char> {
        "unknown audio profile "@ + debug_text(value) + "; expected low or balanced"@
    }

    pub fn parse(value: &str) -> (r: Result<Self, String>)
        ensures
            match r {
                Ok(profile) => Self::named(value@) == Some(profile),
                Err(message) => Self::named(value@) is None && message@ == Self::complaint(
                    value@,
                ),
            },
    {
        if same(value, "low") || same(value, "low-latency") {
            Ok(AudioProfile::LowLatency)
        } else if same(value, "balanced") || same(value, "safe") {
            Ok(AudioProfile::Balanced)
        } else {
            let mut message = String::from_str("unknown audio profile ");
            message.append(quoted(value).as_str());
            message.append("; expected low or balanced");
            Err(message)
        }
    }
}

#[derive(Clone, Copy, Debug, PartialEq, Eq, Structural)]
pub struct AudioConfig {
    pub profile: AudioProfile,
    /// Maximum number of generated samples sent to the device in one call.
    pub device_samples: u16,
    /// Producer delivery size; 256 samples is 5.3 ms at 48 kHz.
    pub delivery_samples: usize,
    /// Input-stream queue target.
    pub pulse_latency_ms: u32,
}

/// What an environment variable with a number in it says.
pub open spec fn latency_complaint(value: Seq<char>) -> Option<Seq<char>> {
    match number_up_to(value, 10, u32::MAX as int) {
        None => Some("NES_AUDIO_LATENCY_MS must be an integer"@),
        Some(ms) => if ms == 0 {
            Some("NES_AUDIO_LATENCY_MS must be greater than zero"@)
        } else {
            None
        },
    }
}

impl AudioConfig {
    pub open spec fn of_profile(profile: AudioProfile) -> AudioConfig {
        AudioConfig {
            profile,
            device_samples: 1024,
            delivery_samples: 256,
            pulse_latency_ms: match profile {
                AudioProfile::LowLatency => 40,
                AudioProfile::Balanced => 80,
            },
        }
    }

    pub fn for_profile(profile: AudioProfile) -> (r: Self)
        ensures
            r == Self::of_profile(profile),
    {
        AudioConfig {
            profile,
            device_samples: 1024,
            delivery_samples: 256,
            pulse_latency_ms: match profile {
                AudioProfile::LowLatency => 40,
                AudioProfile::Balanced => 80,
            },
        }
    }

    pub open spec fn host_default(windows: bool, wsl: bool) -> AudioConfig {
        Self::of_profile(
            if !windows && wsl {
                AudioProfile::Balanced
            } else {
                AudioProfile::LowLatency
            },
        )
    }

    /// The default for a host. The marker of a WSL shell leaks into Windows
    /// processes launched from it, so a native Windows build does not heed it.
    pub fn default_for_host(windows: bool, wsl: bool) -> (r: Self)
        ensures
            r == Self::host_default(windows, wsl),
    {
        if !windows && wsl {
            Self::for_profile(AudioProfile::Balanced)
        } else {
            Self::for_profile(AudioProfile::LowLatency)
        }
    }

    /// The complaint about the environment's settings, if any: the profile's
    /// first, then the latency's.
    pub open spec fn env_complaint(
        profile: Option<Seq<char>>,
        latency: Option<Seq<char>>,
    ) -> Option<Seq<char>> {
        if profile is Some && AudioProfile::named(profile->0) is None {
            Some(AudioProfile::complaint(profile->0))
        } else if latency is Some {
            latency_complaint(latency->0)
        } else {
            None
        }
    }

    /// The configuration that settings without complaint ask for.
    pub open spec fn from_settings(
        windows: bool,
        wsl: bool,
        profile: Option<Seq<char>>,
        latency: Option<Seq<char>>,
    ) -> AudioConfig {
        let base = if profile is Some {
            Self::of_profile(AudioProfile::named(profile->0)->0)
        } else {
            Self::host_default(windows, wsl)
        };
        if latency is Some {
            AudioConfig {
                pulse_latency_ms: number_up_to(latency->0, 10, u32::MAX as int)->0 as u32,
                ..base
            }
        } else {
            base
        }
    }

    /// The configuration that the environment asks for.
    pub fn from_env(
        windows: bool,
        wsl: bool,
        profile: Option<&str>,
        latency: Option<&str>,
    ) -> (r: Result<Self, String>)
        ensures
            ({
                let p = viewed(profile);
                let l = viewed(latency);
                match r {
                    Ok(config) => Self::env_complaint(p, l) is None && config
                        == Self::from_settings(windows, wsl, p, l),
                    Err(message) => Self::env_complaint(p, l) == Some(message@),
                }
            }),
    {
        let mut config = Self::default_for_host(windows, wsl);
        if let Some(value) = profile {
            match AudioProfile::parse(value) {
                Ok(profile) => {
                    config = Self::for_profile(profile);
                },
                Err(message) => {
                    return Err(message);
                },
            }
        }
        if let Some(value) = latency {
            match parse_number(value, 10, u32::MAX as u64) {
                Some(ms) => {
                    if ms == 0 {
                        return Err(
                            String::from_str("NES_AUDIO_LATENCY_MS must be greater than zero"),
                        );
                    }
                    config.pulse_latency_ms = ms as u32;
                },
                None => {
                    return Err(String::from_str("NES_AUDIO_LATENCY_MS must be an integer"));
                },
            }
        }
        Ok(config)
    }

    pub open spec fn target(self) -> int {
        samples_in_ms(self.pulse_latency_ms)
    }

    pub open spec fn high_water(self) -> int {
        if self.target() + 4 * self.device_samples > u32::MAX {
            u32::MAX as int
        } else {
            self.target() + 4 * self.device_samples
        }
    }

    pub fn target_queued_samples(&self) -> (r: u32)
        ensures
            r == self.target(),
    {
        samples_for_ms(self.pulse_latency_ms)
    }

    pub fn high_water_samples(&self) -> (r: u32)
        ensures
            r == self.high_water(),
    {
        self.target_queued_samples().saturating_add(4 * self.device_samples as u32)
    }
}

/// The characters of an optional text.
pub open spec fn viewed(text: Option<&str>) -> Option<Seq<char>> {
    match text {
        Some(s) => Some(s@),
        None => None,
    }
}

// ---- Queues ------------------------------------------------------------------------------

/// Samples behind so many queued bytes, rounded up.
pub open spec fn queued_samples(bytes: u32) -> int {
    (bytes + 1) / 2
}

/// Pending samples that would put the whole backlog above the high-water mark.
pub open spec fn excess_samples(pending: int, queued_bytes: u32, high_water: u32) -> int {
    let budget = if queued_samples(queued_bytes) >= high_water {
        0
    } else {
        high_water - queued_samples(queued_bytes)
    };
    if pending > budget {
        pending - budget
    } else {
        0
    }
}

pub fn excess_pending_samples(
    pending_samples: usize,
    queued_bytes: u32,
    high_water_samples: u32,
) -> (r: usize)
    ensures
        r == excess_samples(pending_samples as int, queued_bytes, high_water_samples),
{
    let queued: u32 = queued_bytes / HOST_SAMPLE_BYTES + queued_bytes % HOST_SAMPLE_BYTES;
    let budget: usize = high_water_samples.saturating_sub(queued) as usize;
    pending_samples.saturating_sub(budget)
}

/// Bytes of so many pending samples, as the gauges show them.
pub open spec fn gauge_bytes(samples: u32) -> int {
    if samples * 2 > u32::MAX {
        u32::MAX as int
    } else {
        samples * 2
    }
}

pub fn pending_bytes(samples: u32) -> (r: u32)
    ensures
        r == gauge_bytes(samples),
{
    if samples > 0x7fff_ffff {
        u32::MAX
    } else {
        samples * HOST_SAMPLE_BYTES
    }
}

/// The whole backlog: queued on the device and not yet submitted.
pub fn backlog_bytes(queued: u32, pending_samples: u32) -> (r: u32)
    ensures
        r == if queued + gauge_bytes(pending_samples) > u32::MAX {
            u32::MAX as int
        } else {
            queued + gauge_bytes(pending_samples)
        },
{
    queued.saturating_add(pending_bytes(pending_samples))
}

/// Time since an earlier moment; zero if it lies ahead.
pub open spec fn since(now: u64, then: u64) -> int {
    if now >= then {
        now - then
    } else {
        0
    }
}

// ---- The stall watchdog ---------------------------------------------------------------

#[derive(Clone, Copy, Debug, PartialEq, Eq, Structural)]
pub enum StallAction {
    Idle,
    Resume,
    ClearAndResume,
    Reopen,
}

/// Detects a wedged host sink. Sustained saturation, tick after tick dropping
/// fresh samples as backpressure, is the reliable signal: a healthy stream shows
/// none at all. A resume kick or queue clear can drain one device buffer and
/// briefly stop the drops without actually recovering, so the stall clock keeps
/// running until continuous health confirms recovery.
#[derive(Clone, Copy, Debug, PartialEq, Eq, Structural)]
pub struct StallWatchdog {
    pub saturated_since: Option<u64>,
    pub healthy_since: Option<u64>,
    pub resume_attempted: bool,
    pub clear_attempted: bool,
}

impl StallWatchdog {
    pub open spec fn fresh() -> StallWatchdog {
        StallWatchdog {
            saturated_since: None,
            healthy_since: None,
            resume_attempted: false,
            clear_attempted: false,
        }
    }

    /// When the current stall began, if `now` belongs to one.
    pub open spec fn stall_start(self, now: u64) -> u64 {
        match self.saturated_since {
            Some(t) => t,
            None => now,
        }
    }

    pub open spec fn health_start(self, now: u64) -> u64 {
        match self.healthy_since {
            Some(t) => t,
            None => now,
        }
    }

    /// What to do about an observation.
    pub open spec fn action(self, saturated: bool, now: u64) -> StallAction {
        let elapsed = since(now, self.stall_start(now));
        if !saturated {
            StallAction::Idle
        } else if elapsed >= STALL_REOPEN_AFTER {
            StallAction::Reopen
        } else if elapsed >= STALL_CLEAR_AFTER && !self.clear_attempted {
            StallAction::ClearAndResume
        } else if elapsed >= STALL_RESUME_AFTER && !self.resume_attempted {
            StallAction::Resume
        } else {
            StallAction::Idle
        }
    }

    /// The watchdog after an observation.
    pub open spec fn observed(self, saturated: bool, now: u64) -> StallWatchdog {
        if !saturated {
            if self.saturated_since is None {
                self
            } else if since(now, self.health_start(now)) >= STALL_RECOVERY_CONFIRM {
                StallWatchdog::fresh()
            } else {
                StallWatchdog { healthy_since: Some(self.health_start(now)), ..self }
            }
        } else {
            StallWatchdog {
                saturated_since: Some(self.stall_start(now)),
                healthy_since: None,
                clear_attempted: self.clear_attempted || self.action(saturated, now)
                    == StallAction::ClearAndResume,
                resume_attempted: self.resume_attempted || self.action(saturated, now)
                    == StallAction::Resume,
            }
        }
    }

    pub fn new() -> (r: Self)
        ensures
            r == StallWatchdog::fresh(),
    {
        StallWatchdog {
            saturated_since: None,
            healthy_since: None,
            resume_attempted: false,
            clear_attempted: false,
        }
    }

    pub fn reset(&mut self)
        ensures
            *final(self) == StallWatchdog::fresh(),
    {
        *self = StallWatchdog::new();
    }

    pub fn observe(&mut self, saturated: bool, now: u64) -> (r: StallAction)
        ensures
            r == old(self).action(saturated, now),
            *final(self) == old(self).observed(saturated, now),
    {
        if !saturated {
            if self.saturated_since.is_some() {
                let healthy: u64 = match self.healthy_since {
                    Some(t) => t,
                    None => now,
                };
                self.healthy_since = Some(healthy);
                if now.saturating_sub(healthy) >= STALL_RECOVERY_CONFIRM {
                    self.reset();
                }
            }
            return StallAction::Idle;
        }
        self.healthy_since = None;
        let start: u64 = match self.saturated_since {
            Some(t) => t,
            None => now,
        };
        self.saturated_since = Some(start);
        let elapsed: u64 = now.saturating_sub(start);
        if elapsed >= STALL_REOPEN_AFTER {
            StallAction::Reopen
        } else if elapsed >= STALL_CLEAR_AFTER && !self.clear_attempted {
            self.clear_attempted = true;
            StallAction::ClearAndResume
        } else if elapsed >= STALL_RESUME_AFTER && !self.resume_attempted {
            self.resume_attempted = true;
            StallAction::Resume
        } else {
            StallAction::Idle
        }
    }
}

/// A healthy stream never makes the watchdog act.
pub proof fn a_healthy_stream_is_left_alone(w: StallWatchdog, now: u64)
    ensures
        w.action(false, now) == StallAction::Idle,
        StallWatchdog::fresh().observed(false, now) == StallWatchdog::fresh(),
{
}

/// A stall escalates by its age: nothing before 250 ms, a clear never before
/// 600 ms, and from 1.25 s on always a reopen.
pub proof fn a_stall_escalates_by_age(w: StallWatchdog, start: u64, now: u64)
    requires
        w.saturated_since == Some(start),
    ensures
        since(now, start) < STALL_RESUME_AFTER ==> w.action(true, now) == StallAction::Idle,
        since(now, start) < STALL_CLEAR_AFTER ==> w.action(true, now)
            != StallAction::ClearAndResume && w.action(true, now) != StallAction::Reopen,
        since(now, start) >= STALL_REOPEN_AFTER <==> w.action(true, now) == StallAction::Reopen,
{
}

/// Each in-place recovery is attempted at most once per stall.
pub proof fn a_recovery_is_tried_once(w: StallWatchdog, now: u64, saturated: bool, later: u64)
    requires
        w.saturated_since is Some,
        w.observed(true, now).observed(saturated, later).saturated_since is Some,
    ensures
        w.action(true, now) == StallAction::Resume ==> w.observed(true, now).action(
            saturated,
            later,
        ) != StallAction::Resume,
        w.action(true, now) == StallAction::ClearAndResume ==> w.observed(true, now).action(
            saturated,
            later,
        ) != StallAction::ClearAndResume,
        w.observed(true, now).resume_attempted ==> w.observed(true, now).observed(
            saturated,
            later,
        ).resume_attempted,
{
}

/// A remission shorter than the confirmation time does not restart the stall
/// clock; a full one clears the escalation.
pub proof fn only_confirmed_health_ends_a_stall(w: StallWatchdog, from: u64, now: u64)
    requires
        w.saturated_since is Some,
        w.healthy_since is None,
        now >= from,
    ensures
        ({
            let after = w.observed(false, from).observed(false, now);
            if now - from >= STALL_RECOVERY_CONFIRM {
                after == StallWatchdog::fresh()
            } else {
                after.saturated_since == w.saturated_since
            }
        }),
{
}

/// A millisecond is 48 samples, a second 48 000.
pub proof fn a_millisecond_is_48_samples(ms: u32)
    ensures
        ms <= 89_478_485 ==> samples_in_ms(ms) == 48 * ms,
        ms > 89_478_485 ==> samples_in_ms(ms) == u32::MAX,
        SAMPLE_RATE == 48 * 1000,
{
}

/// The two profiles differ in nothing but their latency, the balanced one
/// waiting twice as long.
pub proof fn profiles_differ_in_latency()
    ensures
        ({
            let low = AudioConfig::of_profile(AudioProfile::LowLatency);
            let balanced = AudioConfig::of_profile(AudioProfile::Balanced);
            &&& low.pulse_latency_ms == 40
            &&& balanced.pulse_latency_ms == 2 * low.pulse_latency_ms
            &&& low.device_samples == balanced.device_samples == 4 * low.delivery_samples
            &&& low.delivery_samples == balanced.delivery_samples == 256
            &&& low.profile is LowLatency && balanced.profile is Balanced
        }),
{
}

/// The balanced profile is the default under WSL and nowhere else; a profile
/// that is asked for goes before the default, and a latency before both.
pub proof fn what_is_asked_for_goes_first(
    windows: bool,
    wsl: bool,
    profile: Option<Seq<char>>,
    latency: Option<Seq<char>>,
)
    requires
        AudioConfig::env_complaint(profile, latency) is None,
    ensures
        ({
            let config = AudioConfig::from_settings(windows, wsl, profile, latency);
            &&& profile is None ==> (config.profile is Balanced <==> wsl && !windows)
            &&& profile is Some ==> Some(config.profile) == AudioProfile::named(profile->0)
            &&& latency is None ==> config == AudioConfig::of_profile(config.profile)
            &&& latency is Some ==> config.pulse_latency_ms > 0 && Some(
                config.pulse_latency_ms as nat,
            ) == number_up_to(latency->0, 10, u32::MAX as int)
            &&& config.device_samples == 1024 && config.delivery_samples == 256
        }),
{
}

/// Dropping the excess leaves as much as the high-water mark allows and not a
/// sample less.
pub proof fn the_excess_is_what_lies_above_the_mark(pending: int, queued: u32, high_water: u32)
    requires
        pending >= 0,
    ensures
        ({
            let excess = excess_samples(pending, queued, high_water);
            let queued_whole = (queued + 1) / 2;
            &&& 0 <= excess <= pending
            &&& excess == pending || pending - excess + queued_whole <= high_water
            &&& excess > 0 ==> pending - excess + queued_whole >= high_water
        }),
{
}

/// A watchdog that has seen nothing but saturation since `start`: it tries to
/// resume after a quarter of a second, to clear after 0.6 s and to reopen after
/// one and a quarter.
pub proof fn recoveries_come_in_their_order(w: StallWatchdog, start: u64, now: u64)
    requires
        w.saturated_since == Some(start),
        now >= start,
    ensures
        w.action(true, now) == if now - start >= 1_250 * MILLISECOND {
            StallAction::Reopen
        } else if now - start >= 600 * MILLISECOND && !w.clear_attempted {
            StallAction::ClearAndResume
        } else if now - start >= 250 * MILLISECOND && !w.resume_attempted {
            StallAction::Resume
        } else {
            StallAction::Idle
        },
        MILLISECOND == 1_000_000,
        STALL_RECOVERY_CONFIRM == 500 * MILLISECOND,
        CONTROL_INTERVAL == PUMP_INTERVAL_MS * MILLISECOND,
        REOPEN_RETRY == 2_000 * MILLISECOND,
        w.observed(true, now).saturated_since == Some(start),
        w.observed(true, now).healthy_since is None,
{
}

/// The high-water mark lies four device chunks above the target, and the target
/// is the latency's worth of samples.
pub proof fn the_mark_lies_four_chunks_above_the_target(config: AudioConfig)
    requires
        config.pulse_latency_ms <= 80_000_000,
    ensures
        config.target() == 48 * config.pulse_latency_ms,
        config.high_water() - config.target() == 4 * config.device_samples,
{
}

} // verus!
