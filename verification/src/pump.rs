//! The audio pump's decisions, tick by tick: opening and reopening the host
//! stream, trimming what would make latency grow, feeding it up to its target,
//! and recovering a stalled device. The caller owns the stream itself and
//! reports what happened to it.

use crate::audio::{
    excess_pending_samples, excess_samples, queued_samples, since, AudioConfig, StallAction,
    StallWatchdog, CONTROL_INTERVAL, HOST_SAMPLE_BYTES, REOPEN_RETRY,
};
use vstd::prelude::*;

verus! {

/// The host stream, as far as the pump knows it.
#[derive(Clone, Copy, Debug, PartialEq, Eq, Structural)]
pub enum StreamState {
    Closed,
    /// A request to open it is under way on the helper thread.
    Opening,
    Open,
}

/// What one tick does to the pending samples: drop the oldest, then submit some
/// of the rest.
#[derive(Clone, Copy, Debug, PartialEq, Eq, Structural)]
pub struct FeedPlan {
    pub excess: usize,
    pub take: usize,
}

#[derive(Clone, Copy, Debug, PartialEq, Eq, Structural)]
pub struct Pump {
    pub target_bytes: u32,
    pub high_water_samples: u32,
    pub device_samples: u16,
    pub stream: StreamState,
    pub reopen_at: u64,
    pub open_failures: u32,
    pub started: bool,
    pub underflow_at: Option<u64>,
    pub next_control: u64,
    pub watchdog: StallWatchdog,
}

pub open spec fn doubled(samples: int) -> int {
    if samples * 2 > u32::MAX {
        u32::MAX as int
    } else {
        samples * 2
    }
}

pub open spec fn later(now: u64, by: u64) -> u64 {
    if now + by > u64::MAX {
        u64::MAX
    } else {
        (now + by) as u64
    }
}

impl Pump {
    pub open spec fn begun(config: AudioConfig, now: u64) -> Pump {
        Pump {
            target_bytes: doubled(config.target()) as u32,
            high_water_samples: config.high_water() as u32,
            device_samples: config.device_samples,
            stream: StreamState::Closed,
            reopen_at: now,
            open_failures: 0,
            started: false,
            underflow_at: None,
            next_control: now,
            watchdog: StallWatchdog::fresh(),
        }
    }

    pub fn new(config: &AudioConfig, now: u64) -> (r: Self)
        ensures
            r == Pump::begun(*config, now),
    {
        let target: u32 = config.target_queued_samples();
        Pump {
            target_bytes: if target > 0x7fff_ffff {
                u32::MAX
            } else {
                target * HOST_SAMPLE_BYTES
            },
            high_water_samples: config.high_water_samples(),
            device_samples: config.device_samples,
            stream: StreamState::Closed,
            reopen_at: now,
            open_failures: 0,
            started: false,
            underflow_at: None,
            next_control: now,
            watchdog: StallWatchdog::new(),
        }
    }

    /// Pending samples to drop while there is no stream to feed.
    pub open spec fn idle_excess(self, pending: int) -> int {
        if self.stream != StreamState::Open && pending > self.high_water_samples {
            pending - self.high_water_samples
        } else {
            0
        }
    }

    pub fn trim_idle(&self, pending: usize) -> (r: usize)
        ensures
            r == self.idle_excess(pending as int),
    {
        if self.stream != StreamState::Open && pending > self.high_water_samples as usize {
            pending - self.high_water_samples as usize
        } else {
            0
        }
    }

    /// The stream has been opened: everything about the last one is forgotten.
    pub fn opened(&mut self, now: u64)
        ensures
            *final(self) == (Pump {
                stream: StreamState::Open,
                open_failures: 0,
                started: false,
                underflow_at: None,
                next_control: now,
                watchdog: StallWatchdog::fresh(),
                ..*old(self)
            }),
    {
        self.stream = StreamState::Open;
        self.open_failures = 0;
        self.started = false;
        self.underflow_at = None;
        self.next_control = now;
        self.watchdog.reset();
    }

    /// The stream could not be opened: try again later. Tells whether this
    /// failure is one of the first few, which are reported.
    pub fn open_failed(&mut self, now: u64) -> (r: bool)
        ensures
            *final(self) == (Pump {
                stream: StreamState::Closed,
                open_failures: if old(self).open_failures == u32::MAX {
                    u32::MAX
                } else {
                    (old(self).open_failures + 1) as u32
                },
                reopen_at: later(now, REOPEN_RETRY),
                ..*old(self)
            }),
            r == (old(self).open_failures < 3),
    {
        self.stream = StreamState::Closed;
        self.open_failures = self.open_failures.saturating_add(1);
        self.reopen_at = now.saturating_add(REOPEN_RETRY);
        self.open_failures <= 3
    }

    /// Whether to ask for a stream now.
    pub fn request_open(&mut self, now: u64) -> (r: bool)
        ensures
            r == (old(self).stream == StreamState::Closed && now >= old(self).reopen_at),
            *final(self) == if r {
                Pump { stream: StreamState::Opening, ..*old(self) }
            } else {
                *old(self)
            },
    {
        if self.stream == StreamState::Closed && now >= self.reopen_at {
            self.stream = StreamState::Opening;
            true
        } else {
            false
        }
    }

    /// The stream is given up and a new one asked for.
    pub fn abandon(&mut self)
        ensures
            *final(self) == (Pump {
                stream: StreamState::Opening,
                watchdog: StallWatchdog::fresh(),
                ..*old(self)
            }),
    {
        self.stream = StreamState::Opening;
        self.watchdog.reset();
    }

    /// What a tick does with `queued` bytes on the device and so many samples
    /// pending: drop what exceeds the high-water mark, then submit at most one
    /// chunk, and no more than the target leaves room for.
    pub open spec fn planned(self, queued: u32, pending: int) -> FeedPlan {
        let excess = excess_samples(pending, queued, self.high_water_samples);
        let left = pending - excess;
        let room = if queued < self.target_bytes {
            (self.target_bytes - queued) / 2
        } else {
            0
        };
        let chunk = if self.device_samples < left {
            self.device_samples as int
        } else {
            left
        };
        FeedPlan {
            excess: excess as usize,
            take: (if chunk < room {
                chunk
            } else {
                room
            }) as usize,
        }
    }

    pub fn plan(&self, queued: u32, pending: usize) -> (r: FeedPlan)
        ensures
            r == self.planned(queued, pending as int),
    {
        let excess: usize = excess_pending_samples(pending, queued, self.high_water_samples);
        let left: usize = pending - excess;
        let room: usize = if queued < self.target_bytes {
            ((self.target_bytes - queued) / HOST_SAMPLE_BYTES) as usize
        } else {
            0
        };
        let chunk: usize = if (self.device_samples as usize) < left {
            self.device_samples as usize
        } else {
            left
        };
        FeedPlan {
            excess,
            take: if chunk < room {
                chunk
            } else {
                room
            },
        }
    }

    /// The device's queue after a write, without asking it again.
    pub fn after_write(queued: u32, written: u32) -> (r: u32)
        ensures
            r == if queued + doubled(written as int) > u32::MAX {
                u32::MAX as int
            } else {
                queued + doubled(written as int)
            },
    {
        let bytes: u32 = if written > 0x7fff_ffff {
            u32::MAX
        } else {
            written * HOST_SAMPLE_BYTES
        };
        queued.saturating_add(bytes)
    }

    /// Whether a stream that has not played yet is full enough to start.
    #[verifier::allow_in_spec]
    pub fn wants_start(&self, queued: u32) -> bool
        returns
            !self.started && queued >= self.target_bytes,
    {
        !self.started && queued >= self.target_bytes
    }

    pub fn start_succeeded(&mut self)
        ensures
            *final(self) == (Pump { started: true, ..*old(self) }),
    {
        self.started = true;
    }

    /// Whether to look for a device that was paused under the stream: device
    /// changes and reconnects can leave a valid bound stream paused.
    #[verifier::allow_in_spec]
    pub fn wants_unpause(&self, backpressured: bool) -> bool
        returns
            self.started && backpressured,
    {
        self.started && backpressured
    }

    /// What to do about a stall. Only a stream that has started can saturate.
    pub fn watch(&mut self, backpressured: bool, now: u64) -> (r: StallAction)
        ensures
            r == old(self).watchdog.action(old(self).started && backpressured, now),
            *final(self) == (Pump {
                watchdog: old(self).watchdog.observed(old(self).started && backpressured, now),
                ..*old(self)
            }),
    {
        let saturated = self.started && backpressured;
        self.watchdog.observe(saturated, now)
    }

    /// Whether the rate correction is due.
    pub fn take_control(&mut self, now: u64) -> (r: bool)
        ensures
            r == (old(self).started && now >= old(self).next_control),
            *final(self) == if r {
                Pump { next_control: later(now, CONTROL_INTERVAL), ..*old(self) }
            } else {
                *old(self)
            },
    {
        if self.started && now >= self.next_control {
            self.next_control = now.saturating_add(CONTROL_INTERVAL);
            true
        } else {
            false
        }
    }

    /// Tracks underflow: gives the moment it began once samples flow again.
    pub fn track_underflow(&mut self, queued: u32, pending: usize, now: u64) -> (r: Option<u64>)
        ensures
            ({
                let dry = old(self).started && queued == 0 && pending == 0;
                if dry {
                    &&& r is None
                    &&& *final(self) == (Pump {
                        underflow_at: if old(self).underflow_at is None {
                            Some(now)
                        } else {
                            old(self).underflow_at
                        },
                        ..*old(self)
                    })
                } else if queued > 0 {
                    &&& r == old(self).underflow_at
                    &&& *final(self) == (Pump { underflow_at: None, ..*old(self) })
                } else {
                    &&& r is None
                    &&& *final(self) == *old(self)
                }
            }),
    {
        if self.started && queued == 0 && pending == 0 {
            if self.underflow_at.is_none() {
                self.underflow_at = Some(now);
            }
            None
        } else if queued > 0 {
            let began = self.underflow_at;
            self.underflow_at = None;
            began
        } else {
            None
        }
    }
}

/// Latency stays bounded: after a tick has dropped its excess, device queue and
/// pending samples together do not exceed the high-water mark, unless the device
/// alone does, and then nothing is left pending.
pub proof fn the_backlog_is_bounded(p: Pump, queued: u32, pending: usize)
    ensures
        ({
            let left = pending - p.planned(queued, pending as int).excess;
            &&& 0 <= left <= pending
            &&& left == 0 || left + queued_samples(queued) <= p.high_water_samples
        }),
{
}

/// Feeding never fills the device past its target, and never submits more than
/// is pending or than one chunk.
pub proof fn feeding_stops_at_the_target(p: Pump, queued: u32, pending: usize)
    ensures
        ({
            let plan = p.planned(queued, pending as int);
            &&& plan.take <= p.device_samples
            &&& plan.take + plan.excess <= pending
            &&& queued <= p.target_bytes ==> queued + plan.take * 2 <= p.target_bytes
            &&& queued >= p.target_bytes ==> plan.take == 0
        }),
{
}

// ---- Pacing --------------------------------------------------------------------------------

/// Spreads emulation across the exact host-sample timeline. Audio queue depth is
/// deliberately not a clock input.
#[derive(Clone, Copy, Debug, PartialEq, Eq, Structural)]
pub struct AudioPacer {
    pub next_chunk: u64,
    pub active: bool,
}

impl AudioPacer {
    pub fn new(now: u64) -> (r: Self)
        ensures
            r == (AudioPacer { next_chunk: now, active: false }),
    {
        AudioPacer { next_chunk: now, active: false }
    }

    /// Whether the schedule starts over at `now`: it has not begun, or more
    /// than 50 ms have been lost.
    pub open spec fn restarts(self, now: u64) -> bool {
        !self.active || since(now, self.next_chunk) >= 51_000_000
    }

    /// The pacer after a chunk that lasts `chunk` nanoseconds.
    pub open spec fn paced(self, samples: usize, available: bool, now: u64, chunk: u64) -> AudioPacer {
        if samples == 0 {
            self
        } else if !available {
            AudioPacer { next_chunk: now, active: false }
        } else {
            AudioPacer {
                next_chunk: later(
                    if self.restarts(now) {
                        now
                    } else {
                        self.next_chunk
                    },
                    chunk,
                ),
                active: true,
            }
        }
    }

    /// Schedules a chunk. Tells whether the caller is to wait for it.
    pub fn pace(&mut self, samples: usize, available: bool, now: u64, chunk: u64) -> (r: bool)
        ensures
            *final(self) == old(self).paced(samples, available, now, chunk),
            r == (samples > 0 && available),
    {
        if samples == 0 {
            return false;
        }
        if !available {
            self.active = false;
            self.next_chunk = now;
            return false;
        }
        // Whole milliseconds are compared, so more than 50 means at least 51.
        if !self.active || now.saturating_sub(self.next_chunk) >= 51_000_000 {
            self.next_chunk = now;
            self.active = true;
        }
        self.next_chunk = self.next_chunk.saturating_add(chunk);
        true
    }

    /// How long to sleep until the scheduled chunk is due.
    pub fn wait(&self, now: u64) -> (r: u64)
        ensures
            r == since(self.next_chunk, now),
    {
        self.next_chunk.saturating_sub(now)
    }
}

/// Chunks paced without a loss of more than 50 ms keep to one timeline: each is
/// due one chunk after the one before, however late it was asked for.
pub proof fn paced_chunks_keep_one_timeline(
    p: AudioPacer,
    samples: usize,
    now: u64,
    chunk: u64,
)
    requires
        samples > 0,
        p.active,
        since(now, p.next_chunk) < 51_000_000,
        p.next_chunk + chunk <= u64::MAX,
    ensures
        p.paced(samples, true, now, chunk).next_chunk == p.next_chunk + chunk,
{
}

/// Feeding stops for one of three reasons only: nothing is left, a chunk is
/// full, or the device has no room for another sample.
pub proof fn feeding_goes_as_far_as_it_may(p: Pump, queued: u32, pending: usize)
    ensures
        ({
            let plan = p.planned(queued, pending as int);
            ||| plan.take == pending - plan.excess
            ||| plan.take == p.device_samples
            ||| queued + plan.take * 2 + 2 > p.target_bytes
        }),
{
}

/// A schedule that has not begun, or has lost more than 50 ms, starts over from
/// now; without a device there is none.
pub proof fn a_lost_schedule_starts_over(p: AudioPacer, samples: usize, now: u64, chunk: u64)
    requires
        samples > 0,
        now + chunk <= u64::MAX,
    ensures
        !p.active || now > p.next_chunk + 50_999_999 ==> p.paced(samples, true, now, chunk) == (
        AudioPacer { next_chunk: (now + chunk) as u64, active: true }),
        p.paced(samples, false, now, chunk) == (AudioPacer { next_chunk: now, active: false }),
        p.paced(0, true, now, chunk) == p,
{
}

/// A pump begins closed, with its marks from the configuration, and asks for a
/// stream at once.
pub proof fn a_pump_begins_closed(config: AudioConfig, now: u64)
    requires
        config.target() <= 0x7fff_ffff,
    ensures
        ({
            let p = Pump::begun(config, now);
            &&& p.target_bytes == 2 * config.target()
            &&& p.stream is Closed && p.reopen_at == now && p.next_control == now
            &&& !p.started && p.underflow_at is None && p.open_failures == 0
            &&& p.device_samples == config.device_samples
        }),
        HOST_SAMPLE_BYTES == 2,
{
}

/// While there is no stream, what waits is cut to the high-water mark.
pub proof fn waiting_samples_are_cut_to_the_mark(p: Pump, pending: int)
    requires
        pending >= 0,
    ensures
        p.stream is Open ==> p.idle_excess(pending) == 0,
        !(p.stream is Open) ==> 0 <= pending - p.idle_excess(pending) <= p.high_water_samples,
        p.idle_excess(pending) > 0 ==> pending - p.idle_excess(pending) == p.high_water_samples,
        p.idle_excess(pending) >= 0,
{
}

} // verus!
