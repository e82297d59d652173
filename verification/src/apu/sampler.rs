//! Reduces the CPU clock to the host's sample rate and buffers the samples.

use crate::apu::CPU_HZ;
use vstd::prelude::*;

verus! {

/// The channel outputs at one instant: four-bit levels, and seven bits for
/// the DMC.
#[derive(Clone, Copy, Debug, PartialEq, Eq, Structural)]
pub struct ChannelLevels {
    pub pulse1: u8,
    pub pulse2: u8,
    pub triangle: u8,
    pub noise: u8,
    pub dmc: u8,
}

/// Emits one sample every `CPU_HZ / sample_rate` CPU cycles, and none at a rate
/// of zero. `phase` is the time since the last sample, counted in `unit`ths of
/// a CPU cycle. The unit is the rate, so that the long-run rate is exact; at a
/// rate of zero it stays what it was, so that no time is lost.
pub struct Sampler<S = Vec<ChannelLevels>> {
    pub sample_rate: u32,
    pub unit: u32,
    pub phase: u64,
    pub samples: S,
    // If nothing drains the buffer, stop recording after one second rather
    // than growing without bound.
    pub max_buffered_samples: usize,
}

pub type SamplerModel = Sampler<Seq<ChannelLevels>>;

impl View for Sampler<Vec<ChannelLevels>> {
    type V = SamplerModel;

    open spec fn view(&self) -> SamplerModel {
        Sampler {
            sample_rate: self.sample_rate,
            unit: self.unit,
            phase: self.phase,
            samples: self.samples@,
            max_buffered_samples: self.max_buffered_samples,
        }
    }
}

/// The unit that a rate brings; a rate of zero leaves it alone.
pub open spec fn unit_for(sample_rate: u32, unit: u32) -> u32 {
    if sample_rate == 0 {
        unit
    } else {
        sample_rate
    }
}

pub open spec fn idle_sampler(sample_rate: u32) -> SamplerModel {
    Sampler {
        sample_rate,
        unit: unit_for(sample_rate, 1),
        phase: 0,
        samples: Seq::empty(),
        max_buffered_samples: sample_rate as usize,
    }
}

/// The phase one CPU cycle on, before a sample is taken out of it.
pub open spec fn advanced_phase(s: SamplerModel) -> int {
    if s.phase + s.unit > u64::MAX {
        u64::MAX as int
    } else {
        s.phase + s.unit
    }
}

/// Whether this CPU cycle completes a sample.
pub open spec fn sample_due(s: SamplerModel) -> bool {
    s.sample_rate > 0 && advanced_phase(s) >= CPU_HZ
}

/// The sampler after one CPU cycle that ends with `levels`.
pub open spec fn sampled(s: SamplerModel, levels: ChannelLevels) -> SamplerModel {
    if !sample_due(s) {
        Sampler { phase: advanced_phase(s) as u64, ..s }
    } else {
        Sampler {
            phase: (advanced_phase(s) - CPU_HZ) as u64,
            samples: if s.samples.len() < s.max_buffered_samples {
                s.samples.push(levels)
            } else {
                s.samples
            },
            ..s
        }
    }
}

/// The sampler moved to another rate, with the elapsed time kept.
pub open spec fn retuned(s: SamplerModel, sample_rate: u32) -> SamplerModel {
    let unit = unit_for(sample_rate, s.unit);
    let scaled = if s.unit == 0 {
        0
    } else {
        s.phase as int * unit as int / s.unit as int
    };
    Sampler {
        sample_rate,
        unit,
        phase: if scaled > u64::MAX {
            u64::MAX
        } else {
            scaled as u64
        },
        max_buffered_samples: sample_rate as usize,
        ..s
    }
}

impl Sampler<Vec<ChannelLevels>> {
    pub fn new(sample_rate: u32) -> (r: Self)
        ensures
            r@ == idle_sampler(sample_rate),
    {
        Sampler {
            sample_rate,
            unit: if sample_rate == 0 {
                1
            } else {
                sample_rate
            },
            phase: 0,
            samples: Vec::new(),
            max_buffered_samples: sample_rate as usize,
        }
    }

    pub fn set_sample_rate(&mut self, sample_rate: u32)
        ensures
            final(self)@ == retuned(old(self)@, sample_rate),
    {
        let unit: u32 = if sample_rate == 0 {
            self.unit
        } else {
            sample_rate
        };
        let scaled: u128 = if self.unit == 0 {
            0
        } else {
            let phase: u128 = self.phase as u128;
            let wide: u128 = unit as u128;
            assert(phase * wide <= 0xffff_ffff_ffff_ffff * 0xffff_ffff) by (nonlinear_arith)
                requires
                    phase <= 0xffff_ffff_ffff_ffff,
                    wide <= 0xffff_ffff,
            ;
            phase * wide / self.unit as u128
        };
        self.phase = if scaled > u64::MAX as u128 {
            u64::MAX
        } else {
            scaled as u64
        };
        self.sample_rate = sample_rate;
        self.unit = unit;
        self.max_buffered_samples = sample_rate as usize;
    }

    /// Ends one CPU cycle with the given channel levels.
    pub fn sample(&mut self, levels: ChannelLevels)
        ensures
            final(self)@ == sampled(old(self)@, levels),
    {
        let phase: u64 = self.phase.saturating_add(self.unit as u64);
        if self.sample_rate > 0 && phase >= CPU_HZ {
            self.phase = phase - CPU_HZ;
            if self.samples.len() < self.max_buffered_samples {
                self.samples.push(levels);
            }
        } else {
            self.phase = phase;
        }
    }

    pub fn drain_all(&mut self) -> (r: Vec<ChannelLevels>)
        ensures
            r@ == old(self)@.samples,
            final(self)@ == (Sampler { samples: Seq::empty(), ..old(self)@ }),
    {
        let mut out: Vec<ChannelLevels> = Vec::new();
        std::mem::swap(&mut out, &mut self.samples);
        out
    }

    pub fn drain(&mut self, count: usize) -> (r: Vec<ChannelLevels>)
        requires
            count <= old(self)@.samples.len(),
        ensures
            r@ == old(self)@.samples.take(count as int),
            final(self)@ == (Sampler {
                samples: old(self)@.samples.skip(count as int),
                ..old(self)@
            }),
    {
        let ghost all = self.samples@;
        let mut out = self.samples.split_off(count);
        std::mem::swap(&mut out, &mut self.samples);
        assert(out@ =~= all.take(count as int));
        assert(self.samples@ =~= all.skip(count as int));
        out
    }

    pub fn duplicate(&self) -> (r: Self)
        ensures
            r@ == self@,
    {
        let samples = self.samples.clone();
        assert(samples@ =~= self.samples@);
        Sampler {
            sample_rate: self.sample_rate,
            unit: self.unit,
            phase: self.phase,
            samples,
            max_buffered_samples: self.max_buffered_samples,
        }
    }
}

/// The phase after `n` CPU cycles, and how many of them completed a sample.
pub open spec fn phase_after(s: SamplerModel, n: nat) -> (int, int)
    decreases n,
{
    if n == 0 {
        (s.phase as int, 0)
    } else {
        let (phase, count) = phase_after(s, (n - 1) as nat);
        let here = Sampler { phase: phase as u64, ..s };
        if sample_due(here) {
            (advanced_phase(here) - CPU_HZ, count + 1)
        } else {
            (advanced_phase(here), count)
        }
    }
}

/// The sampling rate is exact in the long run: over `n` cycles the completed
/// samples and the remaining phase account for every cycle, so the count is
/// the whole part of (phase + n * rate) / CPU_HZ.
pub proof fn sampling_never_drifts(s: SamplerModel, n: nat)
    requires
        s.phase < CPU_HZ,
        s.unit == s.sample_rate,
        0 < s.sample_rate <= CPU_HZ,
    ensures
        0 <= phase_after(s, n).0 < CPU_HZ,
        phase_after(s, n).0 + CPU_HZ * phase_after(s, n).1 == s.phase + n * s.sample_rate,
    decreases n,
{
    if n > 0 {
        sampling_never_drifts(s, (n - 1) as nat);
        let rate = s.sample_rate as int;
        assert((n - 1) * rate + rate == n * rate) by (nonlinear_arith);
    }
}

/// A rate of zero loses no time: the cycles that pass under it are counted, and
/// a rate set afterwards finds all of them.
pub proof fn time_passes_at_a_rate_of_zero(s: SamplerModel, levels: ChannelLevels, rate: u32)
    requires
        s.unit > 0,
        s.phase + s.unit <= u64::MAX,
    ensures
        ({
            let stopped = retuned(s, 0);
            &&& stopped.phase == s.phase && stopped.unit == s.unit
            &&& stopped.samples == s.samples
            &&& sampled(stopped, levels) == (Sampler {
                phase: (s.phase + s.unit) as u64,
                ..stopped
            })
            &&& retuned(stopped, rate) == retuned(s, rate)
        }),
{
    let phase = s.phase as int;
    let unit = s.unit as int;
    assert(phase * unit / unit == phase) by (nonlinear_arith)
        requires
            unit > 0,
    ;
}

} // verus!
