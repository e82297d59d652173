//! The frame counter divides the CPU clock down to ~240 Hz "quarter frame"
//! and ~120 Hz "half frame" clocks that drive the envelopes, the triangle's
//! linear counter, the length counters and the sweep units.
//!
//! The sequence is documented in APU cycles (1 APU cycle = 2 CPU cycles) with
//! half-cycle resolution; the constants below are those values doubled so
//! that whole CPU cycles can be counted.

use vstd::prelude::*;

verus! {

#[derive(Debug, PartialEq, Eq, Clone, Copy, Structural)]
pub enum FrameEvent {
    Idle,
    Quarter,
    // A half-frame clock. Every half-frame clock coincides with a quarter
    // frame clock, so `Half` means "clock both quarter and half units".
    Half,
}

// Mode 0 (4-step) sequence, in CPU cycles.
pub const STEP1: u32 = 7457;  // quarter

pub const STEP2: u32 = 14913;  // quarter + half

pub const STEP3: u32 = 22371;  // quarter

pub const IRQ_SET: u32 = 29828;  // frame IRQ

pub const STEP4: u32 = 29829;  // quarter + half + IRQ

pub const FOUR_STEP_LENGTH: u32 = 29830;  // IRQ, wrap

// Mode 1 (5-step): steps 1-3 as above, nothing at 29829, then:
pub const STEP5: u32 = 37281;  // quarter + half

pub const FIVE_STEP_LENGTH: u32 = 37282;

#[derive(Clone, Copy, Debug, PartialEq, Eq, Structural)]
pub struct FrameCounter {
    pub cycle: u32,  // CPU cycles into the current sequence
    pub five_step: bool,
    pub irq_inhibit: bool,
    pub frame_irq: bool,
    // A $4017 write only takes effect 3-4 CPU cycles later; see write().
    pub reset_delay: u8,
    pub pending_five_step: bool,
}

impl FrameCounter {
    /// Length of the running sequence.
    pub open spec fn length(self) -> u32 {
        if self.five_step {
            FIVE_STEP_LENGTH
        } else {
            FOUR_STEP_LENGTH
        }
    }

    /// The sequencer never leaves its sequence.
    pub open spec fn wf(self) -> bool {
        self.cycle < self.length()
    }

    pub open spec fn initial() -> FrameCounter {
        FrameCounter {
            cycle: 0,
            five_step: false,
            irq_inhibit: false,
            frame_irq: false,
            reset_delay: 0,
            pending_five_step: false,
        }
    }

    pub open spec fn written(self, data: u8, on_apu_cycle: bool) -> FrameCounter {
        FrameCounter {
            pending_five_step: data & 0x80 != 0,
            irq_inhibit: data & 0x40 != 0,
            frame_irq: self.frame_irq && data & 0x40 == 0,
            reset_delay: if on_apu_cycle {
                3
            } else {
                4
            },
            ..self
        }
    }

    /// Whether the next tick applies a delayed $4017 write.
    pub open spec fn restarts(self) -> bool {
        self.reset_delay == 1
    }

    /// The clock the next tick produces.
    pub open spec fn event(self) -> FrameEvent {
        let cycle = self.cycle + 1;
        if self.restarts() {
            if self.pending_five_step {
                FrameEvent::Half
            } else {
                FrameEvent::Idle
            }
        } else if cycle == STEP1 || cycle == STEP3 {
            FrameEvent::Quarter
        } else if cycle == STEP2 || cycle == if self.five_step {
            STEP5
        } else {
            STEP4
        } {
            FrameEvent::Half
        } else {
            FrameEvent::Idle
        }
    }

    /// Whether the next tick raises the frame interrupt: the last three cycles
    /// of the 4-step sequence do, unless inhibited.
    pub open spec fn raises_irq(self) -> bool {
        !self.restarts() && !self.five_step && self.cycle + 1 >= IRQ_SET && !self.irq_inhibit
    }

    pub open spec fn ticked(self) -> FrameCounter {
        if self.restarts() {
            FrameCounter {
                reset_delay: 0,
                cycle: 0,
                five_step: self.pending_five_step,
                ..self
            }
        } else {
            FrameCounter {
                reset_delay: if self.reset_delay > 0 {
                    (self.reset_delay - 1) as u8
                } else {
                    0
                },
                cycle: if self.cycle + 1 == self.length() {
                    0
                } else {
                    (self.cycle + 1) as u32
                },
                frame_irq: self.frame_irq || self.raises_irq(),
                ..self
            }
        }
    }

    pub fn new() -> (r: Self)
        ensures
            r == FrameCounter::initial(),
            r.wf(),
    {
        FrameCounter {
            cycle: 0,
            five_step: false,
            irq_inhibit: false,
            frame_irq: false,
            reset_delay: 0,
            pending_five_step: false,
        }
    }

    /// $4017 write (MI-- ----). The sequencer restarts 3 or 4 CPU clock cycles
    /// after the write cycle depending on whether the write landed on an APU
    /// cycle.
    pub fn write(&mut self, data: u8, on_apu_cycle: bool)
        ensures
            *final(self) == old(self).written(data, on_apu_cycle),
            old(self).wf() ==> final(self).wf(),
    {
        self.pending_five_step = data & 0x80 != 0;
        self.irq_inhibit = data & 0x40 != 0;
        // Setting the inhibit flag clears any pending frame interrupt.
        if self.irq_inhibit {
            self.frame_irq = false;
        }
        self.reset_delay = if on_apu_cycle {
            3
        } else {
            4
        };
    }

    /// Advance one CPU cycle.
    pub fn tick(&mut self) -> (r: FrameEvent)
        requires
            old(self).wf(),
        ensures
            r == old(self).event(),
            *final(self) == old(self).ticked(),
            final(self).wf(),
    {
        // Delayed $4017 write: restart the sequence. A write with bit 7 set
        // clocks the quarter and half units together with the delayed
        // sequencer reset.
        if self.reset_delay > 0 {
            self.reset_delay = self.reset_delay - 1;
            if self.reset_delay == 0 {
                self.cycle = 0;
                self.five_step = self.pending_five_step;
                if self.five_step {
                    return FrameEvent::Half;
                }
                return FrameEvent::Idle;
            }
        }
        self.cycle = self.cycle + 1;
        if self.five_step {
            if self.cycle == STEP1 || self.cycle == STEP3 {
                FrameEvent::Quarter
            } else if self.cycle == STEP2 || self.cycle == STEP5 {
                FrameEvent::Half
            } else {
                if self.cycle == FIVE_STEP_LENGTH {
                    self.cycle = 0;
                }
                FrameEvent::Idle
            }
        } else {
            if self.cycle == STEP1 || self.cycle == STEP3 {
                FrameEvent::Quarter
            } else if self.cycle == STEP2 {
                FrameEvent::Half
            } else if self.cycle == IRQ_SET {
                // The frame interrupt flag is held asserted for three
                // consecutive CPU cycles around the end of the sequence.
                self.set_irq();
                FrameEvent::Idle
            } else if self.cycle == STEP4 {
                self.set_irq();
                FrameEvent::Half
            } else if self.cycle == FOUR_STEP_LENGTH {
                self.set_irq();
                self.cycle = 0;
                FrameEvent::Idle
            } else {
                FrameEvent::Idle
            }
        }
    }

    fn set_irq(&mut self)
        ensures
            *final(self) == (FrameCounter {
                frame_irq: old(self).frame_irq || !old(self).irq_inhibit,
                ..*old(self)
            }),
    {
        if !self.irq_inhibit {
            self.frame_irq = true;
        }
    }

    /// Side effect of reading $4015.
    pub fn clear_frame_irq(&mut self)
        ensures
            *final(self) == (FrameCounter { frame_irq: false, ..*old(self) }),
    {
        self.frame_irq = false;
    }
}

/// The counter after `n` CPU cycles.
pub open spec fn ticked_times(c: FrameCounter, n: nat) -> FrameCounter
    decreases n,
{
    if n == 0 {
        c
    } else {
        ticked_times(c, (n - 1) as nat).ticked()
    }
}

/// From the start of a sequence with no write pending, `n` cycles stand `n`
/// cycles into it, and the full length stands at its start again. With the
/// clocks being a function of the position, every sequence repeats the last.
pub proof fn the_sequence_repeats(c: FrameCounter, n: nat)
    requires
        c.cycle == 0,
        c.reset_delay == 0,
        n <= c.length(),
    ensures
        ticked_times(c, n).cycle == if n == c.length() {
            0
        } else {
            n as int
        },
        ticked_times(c, n).five_step == c.five_step,
        ticked_times(c, n).irq_inhibit == c.irq_inhibit,
        ticked_times(c, n).reset_delay == 0,
    decreases n,
{
    if n > 0 {
        the_sequence_repeats(c, (n - 1) as nat);
    }
}

/// The frame interrupt cannot rise while it is inhibited or in 5-step mode.
pub proof fn inhibited_or_five_step_raises_no_irq(c: FrameCounter)
    requires
        c.irq_inhibit || c.five_step,
    ensures
        c.ticked().frame_irq ==> c.frame_irq,
{
}

} // verus!
