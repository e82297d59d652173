//! Square wave channel: an 11-bit timer clocks an 8-step duty sequencer at
//! the APU rate (every 2nd CPU cycle), gated by the envelope, sweep and
//! length counter. Pulse 1 and pulse 2 differ only in the sweep unit's
//! negate arithmetic.

use crate::apu::envelope::Envelope;
use crate::apu::length_counter::LengthCounter;
use vstd::prelude::*;

verus! {

/// Whether the waveform selected by `duty` is high at `step`: 12.5%, 25%, 50%
/// and 25% negated.
pub open spec fn duty_high(duty: u8, step: u8) -> bool {
    if duty == 0 {
        step == 1
    } else if duty == 1 {
        1 <= step <= 2
    } else if duty == 2 {
        1 <= step <= 4
    } else {
        !(1 <= step <= 2)
    }
}

/// The sweep unit's registers and divider.
#[derive(Clone, Copy, Debug, PartialEq, Eq, Structural)]
pub struct Sweep {
    pub enabled: bool,
    pub period: u8,
    pub negate: bool,
    pub shift: u8,
    pub divider: u8,
    pub reload: bool,
}

impl Sweep {
    pub open spec fn initial() -> Sweep {
        Sweep { enabled: false, period: 0, negate: false, shift: 0, divider: 0, reload: false }
    }

    pub open spec fn written(self, data: u8) -> Sweep {
        Sweep {
            enabled: data & 0x80 != 0,
            period: data / 16 % 8,
            negate: data & 0x08 != 0,
            shift: data % 8,
            reload: true,
            ..self
        }
    }

    pub open spec fn divided(self) -> Sweep {
        if self.divider == 0 || self.reload {
            Sweep { divider: self.period, reload: false, ..self }
        } else {
            Sweep { divider: (self.divider - 1) as u8, ..self }
        }
    }
}

#[derive(Clone, Copy, Debug, PartialEq, Eq, Structural)]
pub struct Pulse {
    // Pulse 1's sweep adds the ones' complement of the change amount,
    // pulse 2 the two's complement (see sweep_target()).
    pub is_pulse1: bool,
    pub duty: u8,
    pub duty_step: u8,
    pub timer_period: u16,  // 11-bit reload value from $4002/$4003
    pub timer: u16,
    pub envelope: Envelope,
    pub length: LengthCounter,
    pub sweep: Sweep,
}

impl Pulse {
    pub open spec fn wf(self) -> bool {
        &&& self.envelope.wf()
        &&& self.duty < 4
        &&& self.duty_step < 8
        &&& self.timer_period < 0x800
        &&& self.sweep.shift < 8
    }

    pub open spec fn initial(is_pulse1: bool) -> Pulse {
        Pulse {
            is_pulse1,
            duty: 0,
            duty_step: 0,
            timer_period: 0,
            timer: 0,
            envelope: Envelope::initial(),
            length: LengthCounter::initial(),
            sweep: Sweep::initial(),
        }
    }

    pub open spec fn control_written(self, data: u8) -> Pulse {
        Pulse {
            duty: data / 64,
            envelope: self.envelope.written(data),
            length: LengthCounter { halt: data & 0x20 != 0, ..self.length },
            ..self
        }
    }

    pub open spec fn sweep_written(self, data: u8) -> Pulse {
        Pulse { sweep: self.sweep.written(data), ..self }
    }

    pub open spec fn timer_lo_written(self, data: u8) -> Pulse {
        Pulse { timer_period: (self.timer_period / 256 % 8 * 256 + data) as u16, ..self }
    }

    pub open spec fn timer_hi_written(self, data: u8) -> Pulse {
        Pulse {
            timer_period: (self.timer_period % 256 + data % 8 * 256) as u16,
            length: self.length.loaded(data / 8),
            duty_step: 0,
            envelope: Envelope { start: true, ..self.envelope },
            ..self
        }
    }

    pub open spec fn timer_ticked(self) -> Pulse {
        if self.timer == 0 {
            Pulse {
                timer: self.timer_period,
                duty_step: ((self.duty_step + 1) % 8) as u8,
                ..self
            }
        } else {
            Pulse { timer: (self.timer - 1) as u16, ..self }
        }
    }

    /// The period the sweep is aiming for. The change amount is the current
    /// period shifted right by the shift count; in negate mode pulse 1 takes
    /// away one more than pulse 2. A negative target is treated as 0.
    pub open spec fn target(self) -> int {
        let change = (self.timer_period >> self.sweep.shift) as int;
        if !self.sweep.negate {
            self.timer_period + change
        } else {
            let target = self.timer_period - change - if self.is_pulse1 {
                1int
            } else {
                0
            };
            if target < 0 {
                0
            } else {
                target
            }
        }
    }

    /// The channel is silenced whenever the current period is below 8 or the
    /// target period overflows 11 bits, whatever the sweep is doing.
    pub open spec fn muted(self) -> bool {
        self.timer_period < 8 || self.target() > 0x07ff
    }

    /// Half-frame clock: the period is only adjusted when the divider fires
    /// while the sweep is enabled with a nonzero shift count and the channel
    /// is not muted.
    pub open spec fn sweep_ticked(self) -> Pulse {
        Pulse {
            timer_period: if self.sweep.divider == 0 && self.sweep.enabled && self.sweep.shift > 0
                && !self.muted() {
                self.target() as u16
            } else {
                self.timer_period
            },
            sweep: self.sweep.divided(),
            ..self
        }
    }

    pub open spec fn level(self) -> u8 {
        if duty_high(self.duty, self.duty_step) && !self.muted() && self.length.active() {
            self.envelope.volume()
        } else {
            0
        }
    }

    pub fn new(is_pulse1: bool) -> (r: Self)
        ensures
            r == Pulse::initial(is_pulse1),
            r.wf(),
    {
        Pulse {
            is_pulse1,
            duty: 0,
            duty_step: 0,
            timer_period: 0,
            timer: 0,
            envelope: Envelope::new(),
            length: LengthCounter::new(),
            sweep: Sweep {
                enabled: false,
                period: 0,
                negate: false,
                shift: 0,
                divider: 0,
                reload: false,
            },
        }
    }

    /// $4000/$4004: DDLC VVVV
    pub fn write_control(&mut self, data: u8)
        ensures
            *final(self) == old(self).control_written(data),
            old(self).wf() ==> final(self).wf(),
    {
        self.duty = data / 64;
        self.envelope.write(data);
        self.length.halt = data & 0x20 != 0;
    }

    /// $4001/$4005: EPPP NSSS
    pub fn write_sweep(&mut self, data: u8)
        ensures
            *final(self) == old(self).sweep_written(data),
            old(self).wf() ==> final(self).wf(),
    {
        self.sweep = Sweep {
            enabled: data & 0x80 != 0,
            period: data / 16 % 8,
            negate: data & 0x08 != 0,
            shift: data % 8,
            divider: self.sweep.divider,
            reload: true,
        };
    }

    /// $4002/$4006: timer low byte
    pub fn write_timer_lo(&mut self, data: u8)
        ensures
            *final(self) == old(self).timer_lo_written(data),
            old(self).wf() ==> final(self).wf(),
    {
        self.timer_period = self.timer_period / 256 % 8 * 256 + data as u16;
    }

    /// $4003/$4007: LLLL LTTT - also restarts the sequencer and envelope.
    pub fn write_timer_hi(&mut self, data: u8)
        ensures
            *final(self) == old(self).timer_hi_written(data),
            old(self).wf() ==> final(self).wf(),
    {
        self.timer_period = self.timer_period % 256 + (data % 8) as u16 * 256;
        self.length.load(data / 8);
        self.duty_step = 0;
        self.envelope.restart();
    }

    /// Clocked every APU cycle (every 2nd CPU cycle). The divider counts
    /// P, P-1, ..., 0 and steps the sequencer when it wraps, so the sequencer
    /// advances every P+1 APU cycles.
    pub fn tick_timer(&mut self)
        requires
            old(self).wf(),
        ensures
            *final(self) == old(self).timer_ticked(),
            final(self).wf(),
    {
        if self.timer == 0 {
            self.timer = self.timer_period;
            self.duty_step = (self.duty_step + 1) % 8;
        } else {
            self.timer = self.timer - 1;
        }
    }

    pub fn sweep_target(&self) -> (r: u16)
        requires
            self.wf(),
        ensures
            r == self.target(),
    {
        let period: u16 = self.timer_period;
        let shift: u8 = self.sweep.shift;
        assert(period >> shift <= period) by (bit_vector);
        let change: u16 = period >> shift;
        if self.sweep.negate {
            let taken: u16 = change + if self.is_pulse1 {
                1u16
            } else {
                0
            };
            if taken > period {
                0
            } else {
                period - taken
            }
        } else {
            period + change
        }
    }

    fn sweep_muting(&self) -> (r: bool)
        requires
            self.wf(),
        ensures
            r == self.muted(),
    {
        self.timer_period < 8 || self.sweep_target() > 0x07ff
    }

    /// Half-frame clock.
    pub fn tick_sweep(&mut self)
        requires
            old(self).wf(),
        ensures
            *final(self) == old(self).sweep_ticked(),
            final(self).wf(),
    {
        if self.sweep.divider == 0 && self.sweep.enabled && self.sweep.shift > 0
            && !self.sweep_muting() {
            self.timer_period = self.sweep_target();
        }
        if self.sweep.divider == 0 || self.sweep.reload {
            self.sweep.divider = self.sweep.period;
            self.sweep.reload = false;
        } else {
            self.sweep.divider = self.sweep.divider - 1;
        }
    }

    pub fn output(&self) -> (r: u8)
        requires
            self.wf(),
        ensures
            r == self.level(),
            r <= 15,
    {
        let high = match self.duty {
            0 => self.duty_step == 1,
            1 => 1 <= self.duty_step && self.duty_step <= 2,
            2 => 1 <= self.duty_step && self.duty_step <= 4,
            _ => !(1 <= self.duty_step && self.duty_step <= 2),
        };
        if !high || self.sweep_muting() || !self.length.active() {
            0
        } else {
            self.envelope.volume()
        }
    }
}

/// In negate mode the two channels aim one apart, unless pulse 1 would fall
/// below zero.
pub proof fn negated_targets_differ_by_one(p: Pulse, q: Pulse)
    requires
        p == (Pulse { is_pulse1: true, ..q }),
        !q.is_pulse1,
        q.sweep.negate,
        q.target() > 0,
    ensures
        p.target() == q.target() - 1,
{
}

} // verus!
