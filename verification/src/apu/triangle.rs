//! The triangle steps through a fixed 32-entry 15..0,0..15 sequence. Unlike
//! the pulses its timer runs at the CPU clock, and it has no volume control:
//! when silenced by the length or linear counter the sequencer simply stops
//! stepping and the channel holds its last output value.

use crate::apu::length_counter::LengthCounter;
use vstd::prelude::*;

verus! {

#[derive(Clone, Copy, Debug, PartialEq, Eq, Structural)]
pub struct Triangle {
    // $4008 bit 7: halts the length counter and controls whether the linear
    // counter reload flag is cleared after a quarter-frame clock.
    pub control: bool,
    pub linear_reload_value: u8,
    pub linear_counter: u8,
    pub linear_reload: bool,
    pub timer_period: u16,  // 11-bit reload value from $400A/$400B
    pub timer: u16,
    pub step: u8,
    pub length: LengthCounter,
}

/// The 32-step wave: down from 15 to 0 and up again.
pub open spec fn triangle_level(step: u8) -> u8 {
    if step < 16 {
        (15 - step) as u8
    } else {
        (step - 16) as u8
    }
}

impl Triangle {
    pub open spec fn wf(self) -> bool {
        self.step < 32
    }

    pub open spec fn initial() -> Triangle {
        Triangle {
            control: false,
            linear_reload_value: 0,
            linear_counter: 0,
            linear_reload: false,
            timer_period: 0,
            timer: 0,
            step: 0,
            length: LengthCounter::initial(),
        }
    }

    pub open spec fn linear_written(self, data: u8) -> Triangle {
        Triangle {
            control: data & 0x80 != 0,
            linear_reload_value: data % 128,
            length: LengthCounter { halt: data & 0x80 != 0, ..self.length },
            ..self
        }
    }

    pub open spec fn timer_lo_written(self, data: u8) -> Triangle {
        Triangle { timer_period: (self.timer_period / 256 % 8 * 256 + data) as u16, ..self }
    }

    pub open spec fn timer_hi_written(self, data: u8) -> Triangle {
        Triangle {
            timer_period: (self.timer_period % 256 + data % 8 * 256) as u16,
            length: self.length.loaded(data / 8),
            linear_reload: true,
            ..self
        }
    }

    pub open spec fn timer_ticked(self) -> Triangle {
        if self.timer == 0 {
            Triangle {
                timer: self.timer_period,
                step: if self.linear_counter > 0 && self.length.active() {
                    ((self.step + 1) % 32) as u8
                } else {
                    self.step
                },
                ..self
            }
        } else {
            Triangle { timer: (self.timer - 1) as u16, ..self }
        }
    }

    pub open spec fn linear_ticked(self) -> Triangle {
        Triangle {
            linear_counter: if self.linear_reload {
                self.linear_reload_value
            } else if self.linear_counter > 0 {
                (self.linear_counter - 1) as u8
            } else {
                0
            },
            linear_reload: self.linear_reload && self.control,
            ..self
        }
    }

    pub fn new() -> (r: Self)
        ensures
            r == Triangle::initial(),
            r.wf(),
    {
        Triangle {
            control: false,
            linear_reload_value: 0,
            linear_counter: 0,
            linear_reload: false,
            timer_period: 0,
            timer: 0,
            step: 0,
            length: LengthCounter::new(),
        }
    }

    /// $4008: CRRR RRRR
    pub fn write_linear(&mut self, data: u8)
        ensures
            *final(self) == old(self).linear_written(data),
    {
        self.control = data & 0x80 != 0;
        self.linear_reload_value = data % 128;
        self.length.halt = self.control;
    }

    /// $400A: timer low byte
    pub fn write_timer_lo(&mut self, data: u8)
        ensures
            *final(self) == old(self).timer_lo_written(data),
    {
        self.timer_period = self.timer_period / 256 % 8 * 256 + data as u16;
    }

    /// $400B: LLLL LTTT - also sets the linear counter reload flag. The
    /// sequencer phase is not reset (unlike the pulses).
    pub fn write_timer_hi(&mut self, data: u8)
        ensures
            *final(self) == old(self).timer_hi_written(data),
    {
        self.timer_period = self.timer_period % 256 + (data % 8) as u16 * 256;
        self.length.load(data / 8);
        self.linear_reload = true;
    }

    /// Clocked every CPU cycle. The sequencer only advances while both the
    /// linear counter and length counter are nonzero.
    pub fn tick_timer(&mut self)
        requires
            old(self).wf(),
        ensures
            *final(self) == old(self).timer_ticked(),
            final(self).wf(),
    {
        if self.timer == 0 {
            self.timer = self.timer_period;
            if self.linear_counter > 0 && self.length.active() {
                self.step = (self.step + 1) % 32;
            }
        } else {
            self.timer = self.timer - 1;
        }
    }

    /// Quarter-frame clock: reload or decrement the linear counter, then clear
    /// the reload flag only if the control bit is clear.
    pub fn tick_linear(&mut self)
        ensures
            *final(self) == old(self).linear_ticked(),
    {
        if self.linear_reload {
            self.linear_counter = self.linear_reload_value;
        } else if self.linear_counter > 0 {
            self.linear_counter = self.linear_counter - 1;
        }
        if !self.control {
            self.linear_reload = false;
        }
    }

    pub fn output(&self) -> (r: u8)
        requires
            self.wf(),
        ensures
            r == triangle_level(self.step),
            r <= 15,
    {
        if self.step < 16 {
            15 - self.step
        } else {
            self.step - 16
        }
    }
}

/// A silenced triangle holds its output value.
pub proof fn a_silenced_triangle_holds_its_level(t: Triangle)
    requires
        t.linear_counter == 0 || !t.length.active(),
    ensures
        triangle_level(t.timer_ticked().step) == triangle_level(t.step),
{
}

} // verus!
