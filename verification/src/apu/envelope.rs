//! Volume envelope shared by the pulse and noise channels. On each quarter
//! frame clock the divider counts down; each time it fires, the decay level
//! steps 15 -> 0, wrapping back to 15 when the loop flag is set.

use vstd::prelude::*;

verus! {

#[derive(Clone, Copy, Debug, PartialEq, Eq, Structural)]
pub struct Envelope {
    // Register fields ($4000/$4004/$400C bits 5-0). The loop flag is the
    // same bit as the channel's length counter halt flag.
    pub loop_flag: bool,
    pub constant_volume: bool,
    pub period: u8,  // divider period, and the volume when constant
    pub start: bool,
    pub divider: u8,
    pub decay: u8,
}

impl Envelope {
    /// Every level the envelope can show fits four bits.
    pub open spec fn wf(self) -> bool {
        self.period <= 15 && self.decay <= 15
    }

    pub open spec fn initial() -> Envelope {
        Envelope {
            loop_flag: false,
            constant_volume: false,
            period: 0,
            start: false,
            divider: 0,
            decay: 0,
        }
    }

    pub open spec fn written(self, data: u8) -> Envelope {
        Envelope {
            loop_flag: data & 0x20 != 0,
            constant_volume: data & 0x10 != 0,
            period: data % 16,
            ..self
        }
    }

    pub open spec fn ticked(self) -> Envelope {
        if self.start {
            Envelope { start: false, decay: 15, divider: self.period, ..self }
        } else if self.divider > 0 {
            Envelope { divider: (self.divider - 1) as u8, ..self }
        } else {
            let decay = if self.decay > 0 {
                (self.decay - 1) as u8
            } else if self.loop_flag {
                15
            } else {
                0
            };
            Envelope { divider: self.period, decay, ..self }
        }
    }

    pub fn new() -> (r: Self)
        ensures
            r == Envelope::initial(),
            r.wf(),
    {
        Envelope {
            loop_flag: false,
            constant_volume: false,
            period: 0,
            start: false,
            divider: 0,
            decay: 0,
        }
    }

    /// Update from a $4000/$4004/$400C write (--LC VVVV).
    pub fn write(&mut self, data: u8)
        ensures
            *final(self) == old(self).written(data),
            old(self).wf() ==> final(self).wf(),
    {
        self.loop_flag = data & 0x20 != 0;
        self.constant_volume = data & 0x10 != 0;
        self.period = data % 16;
    }

    /// Side effect of writing $4003/$4007/$400F: sets the start flag so the
    /// next quarter-frame clock reloads the decay level.
    pub fn restart(&mut self)
        ensures
            *final(self) == (Envelope { start: true, ..*old(self) }),
    {
        self.start = true;
    }

    /// Quarter-frame clock.
    pub fn tick(&mut self)
        ensures
            *final(self) == old(self).ticked(),
            old(self).wf() ==> final(self).wf(),
    {
        if self.start {
            self.start = false;
            self.decay = 15;
            self.divider = self.period;
        } else if self.divider > 0 {
            self.divider = self.divider - 1;
        } else {
            self.divider = self.period;
            if self.decay > 0 {
                self.decay = self.decay - 1;
            } else if self.loop_flag {
                self.decay = 15;
            }
        }
    }

    #[verifier::allow_in_spec]
    pub fn volume(&self) -> u8
        returns
            (if self.constant_volume {
                self.period
            } else {
                self.decay
            }),
    {
        if self.constant_volume {
            self.period
        } else {
            self.decay
        }
    }
}

/// The envelope after `n` quarter-frame clocks.
pub open spec fn ticked_times(e: Envelope, n: nat) -> Envelope
    decreases n,
{
    if n == 0 {
        e
    } else {
        ticked_times(e, (n - 1) as nat).ticked()
    }
}

/// The decay level steps once every `period + 1` clocks: that many clocks from
/// a freshly reloaded divider take one off it.
pub proof fn decay_steps_every_period_plus_one_clocks(e: Envelope, n: nat)
    requires
        !e.start,
        e.divider == e.period,
        e.decay > 0,
        n <= e.period + 1,
    ensures
        ticked_times(e, n) == if n <= e.period {
            Envelope { divider: (e.period - n) as u8, ..e }
        } else {
            Envelope { decay: (e.decay - 1) as u8, ..e }
        },
    decreases n,
{
    if n > 0 {
        decay_steps_every_period_plus_one_clocks(e, (n - 1) as nat);
    }
}

/// Without the loop flag a decayed envelope stays silent for ever.
pub proof fn a_decayed_envelope_stays_at_zero(e: Envelope, n: nat)
    requires
        !e.start,
        !e.loop_flag,
        e.decay == 0,
    ensures
        ticked_times(e, n).decay == 0,
        !ticked_times(e, n).start,
        !ticked_times(e, n).loop_flag,
    decreases n,
{
    if n > 0 {
        a_decayed_envelope_stays_at_zero(e, (n - 1) as nat);
    }
}

} // verus!
