//! Length counter, shared by pulse 1/2, triangle and noise. Counts down once
//! per half-frame clock (unless halted) and silences its channel when it
//! reaches zero.

use vstd::prelude::*;

verus! {

/// Load values for the 5-bit index written to bits 7-3 of
/// $4003/$4007/$400B/$400F.
pub open spec fn length_table() -> Seq<u8> {
    seq![
        10, 254, 20, 2, 40, 4, 80, 6, 160, 8, 60, 10, 14, 12, 26, 14,
        12, 16, 24, 18, 48, 20, 96, 22, 192, 24, 72, 26, 16, 28, 32, 30,
    ]
}

fn length_value(index: u8) -> (r: u8)
    ensures
        r == length_table()[index as int % 32],
{
    let table: [u8; 32] = [
        10, 254, 20, 2, 40, 4, 80, 6, 160, 8, 60, 10, 14, 12, 26, 14,
        12, 16, 24, 18, 48, 20, 96, 22, 192, 24, 72, 26, 16, 28, 32, 30,
    ];
    assert(table@ =~= length_table());
    table[(index % 32) as usize]
}

#[derive(Clone, Copy, Debug, PartialEq, Eq, Structural)]
pub struct LengthCounter {
    pub counter: u8,
    // For pulse/noise this is the envelope loop flag; for triangle the
    // linear counter control flag.
    pub halt: bool,
    pub enabled: bool,
}

impl LengthCounter {
    pub open spec fn initial() -> LengthCounter {
        LengthCounter { counter: 0, halt: false, enabled: false }
    }

    pub open spec fn with_enabled(self, enabled: bool) -> LengthCounter {
        LengthCounter {
            enabled,
            counter: if enabled {
                self.counter
            } else {
                0
            },
            ..self
        }
    }

    pub open spec fn loaded(self, index: u8) -> LengthCounter {
        if self.enabled {
            LengthCounter { counter: length_table()[index as int % 32], ..self }
        } else {
            self
        }
    }

    pub open spec fn ticked(self) -> LengthCounter {
        if !self.halt && self.counter > 0 {
            LengthCounter { counter: (self.counter - 1) as u8, ..self }
        } else {
            self
        }
    }

    pub fn new() -> (r: Self)
        ensures
            r == LengthCounter::initial(),
    {
        LengthCounter { counter: 0, halt: false, enabled: false }
    }

    /// $4015 enable bit: disabling forces the counter to 0 and it cannot be
    /// reloaded until the channel is enabled again.
    pub fn set_enabled(&mut self, enabled: bool)
        ensures
            *final(self) == old(self).with_enabled(enabled),
    {
        self.enabled = enabled;
        if !enabled {
            self.counter = 0;
        }
    }

    /// Reload from the 5-bit table index; ignored while the channel is
    /// disabled.
    pub fn load(&mut self, index: u8)
        ensures
            *final(self) == old(self).loaded(index),
    {
        if self.enabled {
            self.counter = length_value(index);
        }
    }

    /// Half-frame clock.
    pub fn tick(&mut self)
        ensures
            *final(self) == old(self).ticked(),
    {
        if !self.halt && self.counter > 0 {
            self.counter = self.counter - 1;
        }
    }

    #[verifier::allow_in_spec]
    pub fn active(&self) -> bool
        returns
            self.counter > 0,
    {
        self.counter > 0
    }
}

/// The counter after `n` half-frame clocks.
pub open spec fn ticked_times(c: LengthCounter, n: nat) -> LengthCounter
    decreases n,
{
    if n == 0 {
        c
    } else {
        ticked_times(c, (n - 1) as nat).ticked()
    }
}

/// A running counter falls silent after exactly as many clocks as it was
/// loaded with; a halted one keeps its value.
pub proof fn the_counter_runs_for_its_length(c: LengthCounter, n: nat)
    ensures
        ticked_times(c, n) == if c.halt || n == 0 {
            c
        } else {
            LengthCounter {
                counter: if n <= c.counter {
                    (c.counter - n) as u8
                } else {
                    0
                },
                ..c
            }
        },
    decreases n,
{
    if n > 0 {
        the_counter_runs_for_its_length(c, (n - 1) as nat);
    }
}

/// A disabled channel cannot be reloaded.
pub proof fn a_disabled_counter_stays_empty(c: LengthCounter, index: u8)
    ensures
        !c.with_enabled(false).loaded(index).active(),
{
}

} // verus!
