//! The raster position and the two signals that follow it: whether rendering
//! owns the buses, and the non-maskable interrupt at vertical blanking.

use vstd::prelude::*;

verus! {

/// Current NTSC raster position. Dots are numbered 0..=340 and scanlines
/// 0..=261, with 261 being the pre-render line.
#[derive(Clone, Copy, Debug, PartialEq, Eq, Structural)]
pub struct Raster {
    pub scanline: u16,
    pub dot: u16,
    pub odd_frame: bool,
    pub odd_skip_armed: bool,
    pub total_dots: u64,
}

impl Raster {
    pub open spec fn wf(self) -> bool {
        self.dot <= 340 && self.scanline <= 261
    }

    pub open spec fn initial() -> Raster {
        Raster { scanline: 0, dot: 0, odd_frame: false, odd_skip_armed: false, total_dots: 0 }
    }

    /// A line on which pixels or the next frame's first tiles are fetched.
    #[verifier::allow_in_spec]
    pub fn on_render_line(&self) -> bool
        returns
            self.scanline < 240 || self.scanline == 261,
    {
        self.scanline < 240 || self.scanline == 261
    }

    /// Whether this dot is the line's last: 340, or one earlier where an odd
    /// frame's pre-render line is cut short.
    #[verifier::allow_in_spec]
    pub fn at_line_end(&self) -> bool
        returns
            self.dot == 340 || (self.scanline == 261 && self.dot == 339 && self.odd_skip_armed),
    {
        self.dot == 340 || (self.scanline == 261 && self.dot == 339 && self.odd_skip_armed)
    }

    /// Whether the next dot starts a new frame.
    #[verifier::allow_in_spec]
    pub fn completes_frame(&self) -> bool
        returns
            self.scanline == 261 && self.at_line_end(),
    {
        self.scanline == 261 && self.at_line_end()
    }

    /// The position one dot on.
    pub open spec fn advanced(self) -> Raster {
        Raster {
            dot: if self.at_line_end() {
                0
            } else {
                (self.dot + 1) as u16
            },
            scanline: if !self.at_line_end() {
                self.scanline
            } else if self.scanline == 261 {
                0
            } else {
                (self.scanline + 1) as u16
            },
            odd_frame: self.odd_frame != self.completes_frame(),
            total_dots: self.total_dots.wrapping_add(1),
            ..self
        }
    }

    /// PPUMASK is sampled before the skipped-clock point: a rendering enable
    /// that lands after dot 337 is too late to shorten the current odd frame.
    pub open spec fn skip_armed(self, rendering_requested: bool) -> Raster {
        if self.scanline == 261 && self.dot == 0 {
            Raster { odd_skip_armed: false, ..self }
        } else if self.scanline == 261 && self.dot == 337 {
            Raster { odd_skip_armed: self.odd_frame && rendering_requested, ..self }
        } else {
            self
        }
    }

    pub fn new() -> (r: Self)
        ensures
            r == Raster::initial(),
            r.wf(),
    {
        Raster { scanline: 0, dot: 0, odd_frame: false, odd_skip_armed: false, total_dots: 0 }
    }

    pub fn arm_skip(&mut self, rendering_requested: bool)
        ensures
            *final(self) == old(self).skip_armed(rendering_requested),
    {
        if self.scanline == 261 && self.dot == 0 {
            self.odd_skip_armed = false;
        } else if self.scanline == 261 && self.dot == 337 {
            self.odd_skip_armed = self.odd_frame && rendering_requested;
        }
    }

    /// Moves one dot on; tells whether a frame was completed.
    pub fn advance(&mut self) -> (r: bool)
        requires
            old(self).wf(),
        ensures
            *final(self) == old(self).advanced(),
            final(self).wf(),
            r == old(self).completes_frame(),
    {
        // The skip is tested at dot 339, but dot 340 always ends the line, so
        // a late PPUMASK change cannot strand the raster beyond it.
        let line_end = self.at_line_end();
        let mut complete = false;
        if line_end {
            self.dot = 0;
            if self.scanline == 261 {
                self.scanline = 0;
                self.odd_frame = !self.odd_frame;
                complete = true;
            } else {
                self.scanline = self.scanline + 1;
            }
        } else {
            self.dot = self.dot + 1;
        }
        self.total_dots = self.total_dots.wrapping_add(1);
        complete
    }
}

/// PPUMASK's rendering-enable signal crosses a short internal pipeline before
/// it hands VRAM/OAM ownership to the renderer: a write leaves the next four
/// dots in the old state.
pub const PPUMASK_RENDER_DELAY_DOTS: u64 = 4;

#[derive(Clone, Copy, Debug, PartialEq, Eq, Structural)]
pub struct RenderGate {
    pub enabled: bool,
    pub pending: bool,
    pub change_at: Option<u64>,
}

impl RenderGate {
    pub open spec fn initial() -> RenderGate {
        RenderGate { enabled: false, pending: false, change_at: None }
    }

    /// A scheduled change takes effect once its dot is reached.
    pub open spec fn settled(self, now: u64) -> RenderGate {
        if self.change_at is Some && now >= self.change_at->0 {
            RenderGate { enabled: self.pending, change_at: None, ..self }
        } else {
            self
        }
    }

    /// A PPUMASK write: a new request is scheduled, the current state being
    /// requested again retracts a scheduled change, and a change already under
    /// way keeps its dot.
    pub open spec fn requested(self, rendering: bool, now: u64) -> RenderGate {
        RenderGate {
            pending: rendering,
            change_at: if rendering == self.enabled {
                None
            } else if self.change_at is None {
                Some(now.wrapping_add(PPUMASK_RENDER_DELAY_DOTS))
            } else {
                self.change_at
            },
            ..self
        }
    }

    pub fn new() -> (r: Self)
        ensures
            r == RenderGate::initial(),
    {
        RenderGate { enabled: false, pending: false, change_at: None }
    }

    pub fn settle(&mut self, now: u64)
        ensures
            *final(self) == old(self).settled(now),
    {
        if let Some(change_at) = self.change_at {
            if now >= change_at {
                self.enabled = self.pending;
                self.change_at = None;
            }
        }
    }

    pub fn request(&mut self, rendering: bool, now: u64)
        ensures
            *final(self) == old(self).requested(rendering, now),
    {
        self.pending = rendering;
        if rendering == self.enabled {
            // A second write can retract a transition before it reaches the
            // renderer.
            self.change_at = None;
        } else if self.change_at.is_none() {
            self.change_at = Some(now.wrapping_add(PPUMASK_RENDER_DELAY_DOTS));
        }
    }
}

/// The interrupt line and the host-facing presentation event. The event is
/// separate from the line: a completed image is ready when vertical blanking
/// starts even if the game has disabled the interrupt.
#[derive(Clone, Copy, Debug, PartialEq, Eq, Structural)]
pub struct NmiLine {
    pub pending: Option<u8>,
    pub due_at: u64,
    pub suppress_vblank: bool,
    pub frame_ready: bool,
}

impl NmiLine {
    pub open spec fn initial() -> NmiLine {
        NmiLine { pending: None, due_at: 0, suppress_vblank: false, frame_ready: false }
    }

    /// An edge raised now and visible to the CPU after `delay` dots.
    pub open spec fn raised(self, now: u64, delay: u64) -> NmiLine {
        NmiLine { pending: Some(1u8), due_at: now.wrapping_add(delay), ..self }
    }

    /// An edge that has not crossed into the CPU's clock domain is withdrawn.
    pub open spec fn withdrawn(self, now: u64) -> NmiLine {
        if now < self.due_at {
            NmiLine { pending: None, ..self }
        } else {
            self
        }
    }

    /// What a poll at dot `now` sees.
    pub open spec fn visible(self, now: u64) -> Option<u8> {
        if now < self.due_at {
            None
        } else {
            self.pending
        }
    }

    /// A poll takes the edge it sees.
    pub open spec fn polled(self, now: u64) -> NmiLine {
        if now < self.due_at {
            self
        } else {
            NmiLine { pending: None, ..self }
        }
    }

    pub fn new() -> (r: Self)
        ensures
            r == NmiLine::initial(),
    {
        NmiLine { pending: None, due_at: 0, suppress_vblank: false, frame_ready: false }
    }

    pub fn raise(&mut self, now: u64, delay: u64)
        ensures
            *final(self) == old(self).raised(now, delay),
    {
        self.pending = Some(1);
        self.due_at = now.wrapping_add(delay);
    }

    pub fn withdraw(&mut self, now: u64)
        ensures
            *final(self) == old(self).withdrawn(now),
    {
        if now < self.due_at {
            self.pending = None;
        }
    }

    /// Takes the edge if it has crossed into the CPU's clock domain.
    pub fn poll(&mut self, now: u64) -> (r: Option<u8>)
        ensures
            r == old(self).visible(now),
            *final(self) == old(self).polled(now),
    {
        if now < self.due_at {
            return None;
        }
        let edge = self.pending;
        self.pending = None;
        edge
    }
}

/// The position after `n` dots.
pub open spec fn advanced_times(r: Raster, n: nat) -> Raster
    decreases n,
{
    if n == 0 {
        r
    } else {
        advanced_times(r, (n - 1) as nat).advanced()
    }
}

/// Without the odd-frame skip a line takes 341 dots: `n` dots from its start
/// stand at dot `n`, and the 341st at the start of the next line.
pub proof fn a_line_takes_341_dots(r: Raster, n: nat)
    requires
        r.dot == 0,
        r.scanline <= 261,
        !r.odd_skip_armed,
        n <= 341,
    ensures
        n <= 340 ==> advanced_times(r, n).dot == n && advanced_times(r, n).scanline == r.scanline,
        n == 341 ==> advanced_times(r, n).dot == 0 && advanced_times(r, n).scanline == if r.scanline
            == 261 {
            0
        } else {
            r.scanline + 1
        },
        !advanced_times(r, n).odd_skip_armed,
    decreases n,
{
    if n > 0 {
        a_line_takes_341_dots(r, (n - 1) as nat);
    }
}

proof fn lemma_dots_add(r: Raster, n: nat, m: nat)
    ensures
        advanced_times(r, n + m) == advanced_times(advanced_times(r, n), m),
    decreases m,
{
    if m > 0 {
        lemma_dots_add(r, n, (m - 1) as nat);
    }
}

proof fn lemma_line_keeps_parity(r: Raster, n: nat)
    requires
        r.dot == 0,
        r.scanline <= 261,
        !r.odd_skip_armed,
        n <= 341,
    ensures
        advanced_times(r, n).odd_frame == if r.scanline == 261 && n == 341 {
            !r.odd_frame
        } else {
            r.odd_frame
        },
    decreases n,
{
    if n > 0 {
        lemma_line_keeps_parity(r, (n - 1) as nat);
        a_line_takes_341_dots(r, (n - 1) as nat);
    }
}

/// Without the odd-frame skip a frame takes 262 lines: `n` lines from its start
/// stand at line `n`, and the 262nd at the start of the next frame, whose
/// parity is the other.
pub proof fn a_frame_takes_262_lines(r: Raster, n: nat)
    requires
        r.dot == 0,
        r.scanline == 0,
        !r.odd_skip_armed,
        n <= 262,
    ensures
        ({
            let after = advanced_times(r, 341 * n);
            &&& after.dot == 0
            &&& !after.odd_skip_armed
            &&& n <= 261 ==> after.scanline == n && after.odd_frame == r.odd_frame
            &&& n == 262 ==> after.scanline == 0 && after.odd_frame == !r.odd_frame
        }),
    decreases n,
{
    if n > 0 {
        let line = advanced_times(r, 341 * (n - 1) as nat);
        a_frame_takes_262_lines(r, (n - 1) as nat);
        lemma_dots_add(r, 341 * (n - 1) as nat, 341);
        a_line_takes_341_dots(line, 341);
        lemma_line_keeps_parity(line, 341);
        assert(341 * (n - 1) as nat + 341 == 341 * n);
    }
}

/// The armed skip shortens the pre-render line by one dot, and by no more.
pub proof fn the_odd_skip_drops_one_dot(r: Raster)
    requires
        r.scanline == 261,
        r.dot == 339,
    ensures
        r.odd_skip_armed ==> r.advanced().scanline == 0 && r.advanced().dot == 0,
        !r.odd_skip_armed ==> r.advanced().dot == 340 && r.advanced().advanced().scanline == 0
            && r.advanced().advanced().dot == 0,
{
}

/// A rendering change shows after exactly four further dots have run.
pub proof fn the_rendering_change_waits_four_dots(g: RenderGate, rendering: bool, now: u64, n: u64)
    requires
        g.change_at is None,
        g.enabled != rendering,
        now + 4 <= u64::MAX,
        n <= 4,
    ensures
        g.requested(rendering, now).settled((now + n) as u64).enabled == if n < 4 {
            g.enabled
        } else {
            rendering
        },
{
}

/// Requesting the current state again before the change lands retracts it.
pub proof fn a_rendering_change_can_be_retracted(g: RenderGate, now: u64, later: u64, at: u64)
    ensures
        g.requested(!g.enabled, now).requested(g.enabled, later).settled(at).enabled == g.enabled,
        g.requested(!g.enabled, now).requested(g.enabled, later).change_at is None,
{
}

} // verus!
