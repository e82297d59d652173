//! A gameplay session's decisions: what a key does, when the window is left,
//! how frames are paced without audio, and how a frame is shown ahead of time.

use crate::bus::model::{AudioOutbox, BusModel};
use crate::cpu::host::{
    a_frame_run_keeps_the_host_settings, a_frame_run_starts_afresh, a_muted_run_is_taken_back,
    between_frames, same_but_for_progress,
};
use crate::cpu::model::{self as cpu_model, CpuModel, FrameRun};
use crate::cpu::Console;
use crate::bits::{bit, lemma_masks};
use crate::joypad::{
    latency_goes_on, only_the_named_buttons_move, reads_walk_the_buttons_then_ones, stepped_times,
    Joypad, JoypadButton, JoypadModel,
};
use crate::mapper::Mapper;
use crate::render::frame::Frame;
use vstd::prelude::*;

verus! {

/// How a gameplay session ended, so the caller can decide whether to return to
/// the selection screen or close the program.
#[derive(Clone, Copy, Debug, PartialEq, Eq, Structural)]
pub enum GameOutcome {
    /// Escape was pressed: hand control back to the menu.
    BackToMenu,
    /// The window was closed: shut the whole program down.
    Quit,
}

/// A key that is mapped to a controller button.
#[derive(Clone, Copy, Debug, PartialEq, Eq, Structural)]
pub enum Key {
    Down,
    Up,
    Right,
    Left,
    Space,
    Return,
    A,
    S,
}

impl Key {
    /// The controller button behind a key.
    pub open spec fn button_of(self) -> u8 {
        match self {
            Key::Down => JoypadButton::DOWN,
            Key::Up => JoypadButton::UP,
            Key::Right => JoypadButton::RIGHT,
            Key::Left => JoypadButton::LEFT,
            Key::Space => JoypadButton::SELECT,
            Key::Return => JoypadButton::START,
            Key::A => JoypadButton::BUTTON_A,
            Key::S => JoypadButton::BUTTON_B,
        }
    }

    pub fn button(self) -> (r: u8)
        ensures
            r == self.button_of(),
    {
        match self {
            Key::Down => JoypadButton::DOWN,
            Key::Up => JoypadButton::UP,
            Key::Right => JoypadButton::RIGHT,
            Key::Left => JoypadButton::LEFT,
            Key::Space => JoypadButton::SELECT,
            Key::Return => JoypadButton::START,
            Key::A => JoypadButton::BUTTON_A,
            Key::S => JoypadButton::BUTTON_B,
        }
    }
}

/// What the window reports.
#[derive(Clone, Copy, Debug, PartialEq, Eq, Structural)]
pub enum GameEvent {
    /// The window was closed.
    Close,
    /// Escape was pressed.
    Escape,
    /// F11 was pressed; `repeat` tells a held key from a new press.
    FullscreenKey { repeat: bool },
    Pressed(Key),
    Released(Key),
    Ignored,
}

/// What the caller has to do about an event.
#[derive(Clone, Copy, Debug, PartialEq, Eq, Structural)]
pub enum GameAction {
    Continue,
    /// Save the cartridge's battery memory and end the session.
    Leave(GameOutcome),
    /// Switch the window's mode; on failure say so with `toggle_failed`.
    SetFullscreen(bool),
}

/// A session's window state and its frame clock, in nanoseconds.
#[derive(Clone, Copy, Debug, PartialEq, Eq, Structural)]
pub struct Session {
    pub fullscreen: bool,
    pub next_frame: u64,
    pub frame_ns: u64,
    pub frames: u64,
}

/// The controller after an event.
pub open spec fn pad_after(pad: JoypadModel, event: GameEvent) -> JoypadModel {
    match event {
        GameEvent::Pressed(key) => pad.with_button(key.button_of(), true),
        GameEvent::Released(key) => pad.with_button(key.button_of(), false),
        _ => pad,
    }
}

impl Session {
    pub fn new(fullscreen: bool, now: u64, frame_ns: u64) -> (r: Self)
        ensures
            r == (Session { fullscreen, next_frame: now, frame_ns, frames: 0 }),
    {
        Session { fullscreen, next_frame: now, frame_ns, frames: 0 }
    }

    /// What an event asks of the caller.
    pub open spec fn action_of(self, event: GameEvent) -> GameAction {
        match event {
            GameEvent::Close => GameAction::Leave(GameOutcome::Quit),
            GameEvent::Escape => GameAction::Leave(GameOutcome::BackToMenu),
            GameEvent::FullscreenKey { repeat } => if repeat {
                GameAction::Continue
            } else {
                GameAction::SetFullscreen(!self.fullscreen)
            },
            _ => GameAction::Continue,
        }
    }

    /// Handles an event: a mapped key moves its button, F11 toggles the window,
    /// Escape and closing it end the session.
    pub fn handle(&mut self, event: GameEvent, joypad: &mut Joypad) -> (r: GameAction)
        ensures
            r == old(self).action_of(event),
            *final(self) == (Session {
                fullscreen: match r {
                    GameAction::SetFullscreen(on) => on,
                    _ => old(self).fullscreen,
                },
                ..*old(self)
            }),
            final(joypad)@ == pad_after(old(joypad)@, event),
            latency_goes_on(*old(joypad), *final(joypad)),
            old(joypad)@.wf() ==> final(joypad)@.wf(),
    {
        match event {
            GameEvent::Close => GameAction::Leave(GameOutcome::Quit),
            GameEvent::Escape => GameAction::Leave(GameOutcome::BackToMenu),
            GameEvent::FullscreenKey { repeat } => {
                if repeat {
                    return GameAction::Continue;
                }
                self.fullscreen = !self.fullscreen;
                GameAction::SetFullscreen(self.fullscreen)
            },
            GameEvent::Pressed(key) => {
                joypad.set_button_pressed_status(key.button(), true);
                GameAction::Continue
            },
            GameEvent::Released(key) => {
                joypad.set_button_pressed_status(key.button(), false);
                GameAction::Continue
            },
            GameEvent::Ignored => GameAction::Continue,
        }
    }

    /// Takes back a change of the window's mode that failed.
    pub fn toggle_failed(&mut self)
        ensures
            *final(self) == (Session { fullscreen: !old(self).fullscreen, ..*old(self) }),
    {
        self.fullscreen = !self.fullscreen;
    }

    /// Ends a frame; tells how long to sleep. While a device plays, its sample
    /// timeline is the master clock and the frame clock only follows. Without
    /// one, frames are due one frame time apart, and a late frame restarts the
    /// count.
    pub fn end_frame(&mut self, audio_available: bool, now: u64) -> (r: u64)
        requires
            old(self).next_frame + old(self).frame_ns <= u64::MAX,
            old(self).frames < u64::MAX,
        ensures
            final(self).frames == old(self).frames + 1,
            final(self).frame_ns == old(self).frame_ns,
            final(self).fullscreen == old(self).fullscreen,
            if audio_available {
                r == 0 && final(self).next_frame == now
            } else if now < old(self).next_frame + old(self).frame_ns {
                final(self).next_frame == old(self).next_frame + old(self).frame_ns && r
                    == final(self).next_frame - now
            } else {
                r == 0 && final(self).next_frame == now
            },
    {
        self.frames = self.frames + 1;
        if audio_available {
            self.next_frame = now;
            return 0;
        }
        self.next_frame = self.next_frame + self.frame_ns;
        if now < self.next_frame {
            self.next_frame - now
        } else {
            self.next_frame = now;
            0
        }
    }

    /// Whether the debug report is due: once every sixty frames.
    pub fn report_due(&self) -> (r: bool)
        ensures
            r == (self.frames % 60 == 0),
    {
        self.frames % 60 == 0
    }
}

// ---- Advancing the machine ---------------------------------------------------------------

/// The machine with audio delivery switched off.
pub open spec fn muted<V>(s: CpuModel<V>) -> CpuModel<V> {
    CpuModel {
        bus: BusModel { audio: AudioOutbox { enabled: false, ..s.bus.audio }, ..s.bus },
        ..s
    }
}

/// The machine two frames on, with no audio delivered on the way.
pub open spec fn speculated<M: Mapper>(s: CpuModel<M::Model>, limit: nat) -> CpuModel<M::Model> {
    cpu_model::frame_run_end::<M>(cpu_model::frame_run_end::<M>(muted(s), limit), limit)
}

/// The machine that is to advance: the speculation has been taken back.
pub open spec fn canonical<M: Mapper>(
    s: CpuModel<M::Model>,
    run_ahead: bool,
    limit: nat,
) -> CpuModel<M::Model> {
    if run_ahead {
        cpu_model::restored(speculated::<M>(s, limit), cpu_model::snapshot_of(s))
    } else {
        s
    }
}

/// Plays two frames ahead without audio, hands out the picture they end with,
/// and takes them back.
pub fn speculate<M: Mapper>(cpu: &mut Console<M>, limit: u64) -> (r: Frame)
    requires
        cpu_model::wf::<M>(old(cpu)@),
    ensures
        cpu_model::wf::<M>(final(cpu)@),
        final(cpu)@ == canonical::<M>(old(cpu)@, true, limit as nat),
        final(cpu).bus.joypad1 == old(cpu).bus.joypad1,
        r@ == speculated::<M>(old(cpu)@, limit as nat).bus.ppu.frame,
{
    let snapshot = cpu.snapshot();
    cpu.bus.set_audio_delivery_enabled(false);
    let _ = cpu.run_until_frame_ready(limit);
    let _ = cpu.run_until_frame_ready(limit);
    let shown = cpu.bus.ppu().frame().duplicate();
    cpu.restore(snapshot);
    shown
}

/// Advances the machine by one frame, each run toward a frame at most `limit`
/// steps. With run-ahead, the picture of two frames on is handed out to be
/// shown.
pub fn advance<M: Mapper>(cpu: &mut Console<M>, run_ahead: bool, limit: u64) -> (r: (
    Option<Frame>,
    FrameRun,
))
    requires
        cpu_model::wf::<M>(old(cpu)@),
    ensures
        cpu_model::wf::<M>(final(cpu)@),
        final(cpu)@ == cpu_model::frame_run_end::<M>(
            canonical::<M>(old(cpu)@, run_ahead, limit as nat),
            limit as nat,
        ),
        latency_goes_on(old(cpu).bus.joypad1, final(cpu).bus.joypad1),
        r.1 == cpu_model::frame_run::<M>(
            canonical::<M>(old(cpu)@, run_ahead, limit as nat),
            limit as nat,
        ),
        match r.0 {
            Some(frame) => run_ahead && frame@ == speculated::<M>(
                old(cpu)@,
                limit as nat,
            ).bus.ppu.frame,
            None => !run_ahead,
        },
{
    let shown: Option<Frame> = if run_ahead {
        Some(speculate(cpu, limit))
    } else {
        None
    };
    let end = cpu.run_until_frame_ready(limit);
    (shown, end)
}

// ---- Laws ------------------------------------------------------------------------------

/// Frames played ahead deliver no audio.
pub proof fn speculation_is_silent<M: Mapper>(s: CpuModel<M::Model>, limit: nat)
    ensures
        speculated::<M>(s, limit).bus.audio == muted(s).bus.audio,
{
    a_frame_run_keeps_the_host_settings::<M>(muted(s), limit);
    a_frame_run_keeps_the_host_settings::<M>(
        cpu_model::frame_run_end::<M>(muted(s), limit),
        limit,
    );
}

/// Run-ahead leaves the game alone: with tracing off, the console advances to
/// the same state, by the same way and with the same audio, as it would without.
pub proof fn run_ahead_leaves_the_game_alone<M: Mapper>(s: CpuModel<M::Model>, limit: nat)
    requires
        between_frames(s),
        !s.bus.apu.trace_writes,
    ensures
        ({
            let plain = cpu_model::frame_run_end::<M>(s, limit);
            let ahead = cpu_model::frame_run_end::<M>(canonical::<M>(s, true, limit), limit);
            &&& same_but_for_progress(plain, ahead)
            &&& limit > 0 && !cpu_model::halts::<M>(s) ==> plain == ahead
            &&& cpu_model::frame_run::<M>(s, limit) == cpu_model::frame_run::<M>(
                canonical::<M>(s, true, limit),
                limit,
            )
        }),
{
    let first = cpu_model::frame_run_end::<M>(muted(s), limit);
    a_frame_run_keeps_the_host_settings::<M>(muted(s), limit);
    a_frame_run_keeps_the_host_settings::<M>(first, limit);
    a_muted_run_is_taken_back(s, speculated::<M>(s, limit));
    a_frame_run_starts_afresh::<M>(s, canonical::<M>(s, true, limit), limit);
}

/// Advancing to a frame ends between two frames, ready for the next advance.
pub proof fn every_frame_ends_between_frames<M: Mapper>(
    s: CpuModel<M::Model>,
    run_ahead: bool,
    limit: nat,
)
    requires
        between_frames(s),
        cpu_model::frame_run::<M>(canonical::<M>(s, run_ahead, limit), limit)
            == FrameRun::FrameReady,
    ensures
        between_frames(
            cpu_model::frame_run_end::<M>(canonical::<M>(s, run_ahead, limit), limit),
        ),
{
    let first = cpu_model::frame_run_end::<M>(muted(s), limit);
    a_frame_run_keeps_the_host_settings::<M>(muted(s), limit);
    a_frame_run_keeps_the_host_settings::<M>(first, limit);
    a_frame_run_keeps_the_host_settings::<M>(canonical::<M>(s, run_ahead, limit), limit);
}

/// Holding a key and letting it go leaves the port as it was, if the button was
/// up; each of the two begins a latency measurement.
pub proof fn a_key_is_let_go(pad: JoypadModel, key: Key)
    requires
        !pad.port.button_status.contains(key.button_of()),
    ensures
        ({
            let down = pad_after(pad, GameEvent::Pressed(key));
            let up = pad_after(down, GameEvent::Released(key));
            &&& up.port == pad.port
            &&& down.port.button_status.contains(key.button_of())
            &&& down.latency == pad.latency.changed()
            &&& up.latency == pad.latency.changed().changed()
        }),
{
    let bits: u8 = pad.port.button_status.bits;
    let mask: u8 = key.button_of();
    assert(((bits | mask) & !mask) == bits && ((bits | mask) & mask) == mask) by (bit_vector)
        requires
            bits & mask != mask,
            mask == 0x80 || mask == 0x40 || mask == 0x20 || mask == 0x10 || mask == 0x08 || mask
                == 0x04 || mask == 0x02 || mask == 0x01,
    ;
}

/// The read, counted from zero, that shows a key's button.
pub open spec fn place_of(key: Key) -> nat {
    match key {
        Key::A => 0,
        Key::S => 1,
        Key::Space => 2,
        Key::Return => 3,
        Key::Up => 4,
        Key::Down => 5,
        Key::Left => 6,
        Key::Right => 7,
    }
}

/// A key that is pressed shows at its own place when the game reads the
/// controller, and at no other; released, it shows no longer.
pub proof fn a_key_shows_at_its_place(pad: JoypadModel, key: Key, high: u8, low: u8, n: nat)
    requires
        high & 1 == 1,
        low & 1 != 1,
        n < 8,
    ensures
        ({
            let before = stepped_times(pad.port.written(high).written(low), n).bit();
            let down = pad_after(pad, GameEvent::Pressed(key)).port;
            let up = pad_after(pad, GameEvent::Released(key)).port;
            &&& stepped_times(down.written(high).written(low), n).bit() == if n == place_of(key) {
                1
            } else {
                before
            }
            &&& stepped_times(up.written(high).written(low), n).bit() == if n == place_of(key) {
                0
            } else {
                before
            }
        }),
{
    let down = pad_after(pad, GameEvent::Pressed(key)).port;
    let up = pad_after(pad, GameEvent::Released(key)).port;
    reads_walk_the_buttons_then_ones(pad.port, high, low, n);
    reads_walk_the_buttons_then_ones(down, high, low, n);
    reads_walk_the_buttons_then_ones(up, high, low, n);
    let k = n as u8;
    only_the_named_buttons_move(pad.port.button_status, key.button_of(), true, k);
    only_the_named_buttons_move(pad.port.button_status, key.button_of(), false, k);
    lemma_one_bit(key, k);
    lemma_bit_is_a_number(pad.port.button_status.bits, k);
    lemma_bit_is_a_number(down.button_status.bits, k);
    lemma_bit_is_a_number(up.button_status.bits, k);
}

proof fn lemma_one_bit(key: Key, k: u8)
    requires
        k < 8,
    ensures
        bit(key.button_of(), k) == (k == place_of(key)),
{
    lemma_masks(0);
    lemma_masks(key.button_of());
}

proof fn lemma_bit_is_a_number(x: u8, k: u8)
    ensures
        (x >> k) & 1 == 0 || (x >> k) & 1 == 1,
{
    lemma_masks(x >> k);
    vstd::bits::lemma_u8_low_bits_mask_is_mod(x >> k, 1);
    vstd::bits::lemma_low_bits_mask_values();
    vstd::arithmetic::power2::lemma2_to64();
}

/// Closing the window quits, Escape goes back to the menu, a fresh F11 turns
/// the window's mode round, and nothing else asks anything of the caller.
pub proof fn events_ask_for_their_actions(s: Session, event: GameEvent)
    ensures
        s.action_of(event) == GameAction::Leave(GameOutcome::Quit) <==> event is Close,
        s.action_of(event) == GameAction::Leave(GameOutcome::BackToMenu) <==> event is Escape,
        s.action_of(event) is SetFullscreen <==> event == (GameEvent::FullscreenKey {
            repeat: false,
        }),
        s.action_of(event) != GameAction::SetFullscreen(s.fullscreen),
{
}

} // verus!
