//! Pseudo-random channel: a 15-bit linear feedback shift register clocked by
//! a timer, gated by the envelope and length counter. Mode 1 taps bit 6
//! instead of bit 1, giving a short "metallic" loop.

use crate::apu::envelope::Envelope;
use crate::apu::length_counter::LengthCounter;
use vstd::prelude::*;

verus! {

/// NTSC timer periods, in CPU cycles, indexed by the low nibble of $400E.
pub open spec fn noise_periods() -> Seq<u16> {
    seq![4, 8, 16, 32, 64, 96, 128, 160, 202, 254, 380, 508, 762, 1016, 2034, 4068]
}

fn noise_period(index: u8) -> (r: u16)
    ensures
        r == noise_periods()[index as int % 16],
        r > 0,
{
    let table: [u16; 16] = [
        4, 8, 16, 32, 64, 96, 128, 160, 202, 254, 380, 508, 762, 1016, 2034, 4068,
    ];
    assert(table@ =~= noise_periods());
    table[(index % 16) as usize]
}

#[derive(Clone, Copy, Debug, PartialEq, Eq, Structural)]
pub struct Noise {
    pub envelope: Envelope,
    pub length: LengthCounter,
    pub mode: bool,  // $400E bit 7
    pub timer_period: u16,
    pub timer: u16,
    pub shift: u16,  // 15-bit register, loaded with 1 on power-up
}

/// The shift register one clock on: the low bit and the tapped bit, exclusive
/// ored, enter at the top.
pub open spec fn lfsr_next(shift: u16, mode: bool) -> u16 {
    let tap = if mode {
        (shift >> 6) & 1
    } else {
        (shift >> 1) & 1
    };
    (shift >> 1) | (((shift & 1) ^ tap) << 14)
}

impl Noise {
    pub open spec fn wf(self) -> bool {
        &&& self.envelope.wf()
        &&& self.timer_period > 0
        &&& 0 < self.shift < 0x8000
    }

    pub open spec fn initial() -> Noise {
        Noise {
            envelope: Envelope::initial(),
            length: LengthCounter::initial(),
            mode: false,
            timer_period: 4,
            timer: 0,
            shift: 1,
        }
    }

    pub open spec fn control_written(self, data: u8) -> Noise {
        Noise {
            envelope: self.envelope.written(data),
            length: LengthCounter { halt: data & 0x20 != 0, ..self.length },
            ..self
        }
    }

    pub open spec fn mode_period_written(self, data: u8) -> Noise {
        Noise {
            mode: data & 0x80 != 0,
            timer_period: noise_periods()[data as int % 16],
            ..self
        }
    }

    pub open spec fn length_written(self, data: u8) -> Noise {
        Noise {
            length: self.length.loaded(data / 8),
            envelope: Envelope { start: true, ..self.envelope },
            ..self
        }
    }

    pub open spec fn timer_ticked(self) -> Noise {
        if self.timer == 0 {
            Noise {
                timer: (self.timer_period - 1) as u16,
                shift: lfsr_next(self.shift, self.mode),
                ..self
            }
        } else {
            Noise { timer: (self.timer - 1) as u16, ..self }
        }
    }

    pub fn new() -> (r: Self)
        ensures
            r == Noise::initial(),
            r.wf(),
    {
        Noise {
            envelope: Envelope::new(),
            length: LengthCounter::new(),
            mode: false,
            timer_period: 4,
            timer: 0,
            shift: 1,
        }
    }

    /// $400C: --LC VVVV
    pub fn write_control(&mut self, data: u8)
        ensures
            *final(self) == old(self).control_written(data),
            old(self).wf() ==> final(self).wf(),
    {
        self.envelope.write(data);
        self.length.halt = data & 0x20 != 0;
    }

    /// $400E: M--- PPPP
    pub fn write_mode_period(&mut self, data: u8)
        ensures
            *final(self) == old(self).mode_period_written(data),
            old(self).wf() ==> final(self).wf(),
    {
        self.mode = data & 0x80 != 0;
        self.timer_period = noise_period(data);
    }

    /// $400F: LLLL L--- - also restarts the envelope.
    pub fn write_length(&mut self, data: u8)
        ensures
            *final(self) == old(self).length_written(data),
            old(self).wf() ==> final(self).wf(),
    {
        self.length.load(data / 8);
        self.envelope.restart();
    }

    /// Clocked every CPU cycle; the period table is already in CPU cycles, so
    /// the reload value is one less.
    pub fn tick_timer(&mut self)
        requires
            old(self).wf(),
        ensures
            *final(self) == old(self).timer_ticked(),
            final(self).wf(),
    {
        if self.timer == 0 {
            self.timer = self.timer_period - 1;
            self.clock_lfsr();
        } else {
            self.timer = self.timer - 1;
        }
    }

    pub fn clock_lfsr(&mut self)
        ensures
            *final(self) == (Noise { shift: lfsr_next(old(self).shift, old(self).mode), ..*old(
                self,
            ) }),
            0 < old(self).shift < 0x8000 ==> 0 < final(self).shift < 0x8000,
    {
        let shift: u16 = self.shift;
        let tap: u16 = if self.mode {
            (shift >> 6) & 1
        } else {
            (shift >> 1) & 1
        };
        let feedback: u16 = (shift & 1) ^ tap;
        proof {
            lfsr_never_empties(shift, self.mode);
        }
        self.shift = (shift >> 1) | (feedback << 14);
    }

    pub open spec fn level(self) -> u8 {
        if self.shift & 1 == 1 || !self.length.active() {
            0
        } else {
            self.envelope.volume()
        }
    }

    pub fn output(&self) -> (r: u8)
        ensures
            r == self.level(),
            self.wf() ==> r <= 15,
    {
        if self.shift & 1 == 1 || !self.length.active() {
            0
        } else {
            self.envelope.volume()
        }
    }
}

/// A non-empty 15-bit register stays non-empty and within 15 bits.
pub proof fn lfsr_never_empties(shift: u16, mode: bool)
    ensures
        0 < shift < 0x8000 ==> 0 < lfsr_next(shift, mode) < 0x8000,
{
    assert(0 < shift < 0x8000 ==> 0 < (shift >> 1) | (((shift & 1) ^ ((shift >> 6) & 1)) << 14)
        < 0x8000) by (bit_vector);
    assert(0 < shift < 0x8000 ==> 0 < (shift >> 1) | (((shift & 1) ^ ((shift >> 1) & 1)) << 14)
        < 0x8000) by (bit_vector);
}

} // verus!
