//! A standard controller: eight buttons behind a one-bit serial port.

use std::time::{Duration, Instant};
use crate::bits::{bit, lemma_operators};
use vstd::prelude::*;

verus! {

/// A point on the host's monotonic clock (`std::time::Instant`).
#[verifier::external_type_specification]
#[verifier::external_body]
pub struct ExInstant(Instant);

/// `std::time::Instant::now`: the current time. Nothing is claimed of it.
pub assume_specification[ Instant::now ]() -> (r: Instant);

/// `std::time::Instant::elapsed`: the time since an instant. Nothing is
/// claimed of it, since it depends on the clock.
pub assume_specification[ Instant::elapsed ](instant: &Instant) -> (r: Duration);

/// `std::time::Duration::as_micros`: the whole microseconds in a span. Nothing
/// is claimed of the number, since the span comes off the clock.
pub assume_specification[ Duration::as_micros ](duration: &Duration) -> (r: u128);

/// Button masks, in the order of the serial port from bit 0 up.
#[derive(Clone, Copy, Debug, PartialEq, Eq, Structural)]
pub struct JoypadButton {
    pub bits: u8,
}

impl JoypadButton {
    pub const RIGHT: u8 = 0b10000000;

    pub const LEFT: u8 = 0b01000000;

    pub const DOWN: u8 = 0b00100000;

    pub const UP: u8 = 0b00010000;

    pub const START: u8 = 0b00001000;

    pub const SELECT: u8 = 0b00000100;

    pub const BUTTON_B: u8 = 0b00000010;

    pub const BUTTON_A: u8 = 0b00000001;

    /// Whether every button of `mask` is held.
    #[verifier::allow_in_spec]
    pub fn contains(self, mask: u8) -> bool
        returns
            self.bits & mask == mask,
    {
        self.bits & mask == mask
    }

    pub open spec fn with(self, mask: u8, pressed: bool) -> JoypadButton {
        JoypadButton {
            bits: if pressed {
                self.bits | mask
            } else {
                self.bits & !mask
            },
        }
    }

    /// Presses or releases the buttons of `mask`.
    pub fn set(&mut self, mask: u8, pressed: bool)
        ensures
            *final(self) == old(self).with(mask, pressed),
    {
        if pressed {
            self.bits = self.bits | mask;
        } else {
            self.bits = self.bits & !mask;
        }
    }
}

/// What the serial port shows and how it moves, without the host's clock.
#[derive(Clone, Copy, Debug, PartialEq, Eq, Structural)]
pub struct JoypadPort {
    pub strobe: bool,
    pub button_index: u8,
    pub button_status: JoypadButton,
}

impl JoypadPort {
    /// The index stops behind the last button.
    pub open spec fn wf(self) -> bool {
        self.button_index <= 8
    }

    pub open spec fn initial() -> JoypadPort {
        JoypadPort { strobe: false, button_index: 0, button_status: JoypadButton { bits: 0 } }
    }

    pub open spec fn written(self, data: u8) -> JoypadPort {
        JoypadPort {
            strobe: data & 1 == 1,
            button_index: if data & 1 == 1 {
                0
            } else {
                self.button_index
            },
            ..self
        }
    }

    /// The bit on the port: a button, and ones behind the eighth.
    pub open spec fn bit(self) -> u8 {
        if self.button_index > 7 {
            1
        } else {
            (self.button_status.bits >> self.button_index) & 1
        }
    }

    /// A read steps to the next button unless the strobe holds the first one.
    pub open spec fn stepped(self) -> JoypadPort {
        if self.strobe || self.button_index > 7 {
            self
        } else {
            JoypadPort { button_index: (self.button_index + 1) as u8, ..self }
        }
    }
}

/// How far the host's latency measurements have come, without the times that
/// they yield.
pub struct Latency {
    // A change of input waits for its poll.
    pub measuring: bool,
    // A poll has ended a measurement, so there is a figure to show.
    pub measured: bool,
    // Measurements begun and ended so far.
    pub begun: nat,
    pub ended: nat,
}

impl Latency {
    pub open spec fn initial() -> Latency {
        Latency { measuring: false, measured: false, begun: 0, ended: 0 }
    }

    /// A change of input begins a measurement, in place of one that waits.
    pub open spec fn changed(self) -> Latency {
        Latency { measuring: true, begun: self.begun + 1, ..self }
    }

    /// A poll ends the measurement that waits, if one does.
    pub open spec fn polled(self) -> Latency {
        if self.measuring {
            Latency { measuring: false, measured: true, ended: self.ended + 1, ..self }
        } else {
            self
        }
    }
}

/// A controller: its port, and the host's latency measurements beside it.
pub struct JoypadModel {
    pub port: JoypadPort,
    pub latency: Latency,
}

impl JoypadModel {
    pub open spec fn wf(self) -> bool {
        self.port.wf()
    }

    pub open spec fn initial() -> JoypadModel {
        JoypadModel { port: JoypadPort::initial(), latency: Latency::initial() }
    }

    pub open spec fn written(self, data: u8) -> JoypadModel {
        JoypadModel { port: self.port.written(data), ..self }
    }

    pub open spec fn bit(self) -> u8 {
        self.port.bit()
    }

    /// A read of the port. The first button read after the strobe is the poll
    /// that a measurement waits for.
    pub open spec fn stepped(self) -> JoypadModel {
        JoypadModel {
            port: self.port.stepped(),
            latency: if !self.port.strobe && self.port.button_index == 0 {
                self.latency.polled()
            } else {
                self.latency
            },
        }
    }

    /// Buttons pressed or released.
    pub open spec fn with_button(self, mask: u8, pressed: bool) -> JoypadModel {
        JoypadModel {
            port: JoypadPort {
                button_status: self.port.button_status.with(mask, pressed),
                ..self.port
            },
            latency: if self.port.button_status.contains(mask) != pressed {
                self.latency.changed()
            } else {
                self.latency
            },
        }
    }

    /// Exactly these buttons held, after all have been released.
    pub open spec fn holding(self, bits: u8) -> JoypadModel {
        JoypadModel {
            port: JoypadPort { button_status: JoypadButton { bits }, ..self.port },
            latency: if self.port.button_status.bits != 0 || bits != 0 {
                self.latency.changed()
            } else {
                self.latency
            },
        }
    }
}

pub struct Joypad {
    pub port: JoypadPort,
    // Host-side latency measurement; the console never sees it.
    pub last_input_sampled_at: Option<Instant>,
    pub last_input_to_poll_us: Option<u64>,
    // Measurements begun and ended, for what is stated of the two above.
    pub begun: Ghost<nat>,
    pub ended: Ghost<nat>,
}

impl View for Joypad {
    type V = JoypadModel;

    open spec fn view(&self) -> JoypadModel {
        JoypadModel {
            port: self.port,
            latency: Latency {
                measuring: self.last_input_sampled_at is Some,
                measured: self.last_input_to_poll_us is Some,
                begun: self.begun@,
                ended: self.ended@,
            },
        }
    }
}

/// What holds of the host's times whatever is done to a controller: a waiting
/// measurement keeps its start unless another begins, and the figure stays as
/// it is, and there, until another measurement ends.
pub open spec fn latency_goes_on(before: Joypad, after: Joypad) -> bool {
    let a = before@.latency;
    let b = after@.latency;
    &&& a.begun <= b.begun
    &&& a.ended <= b.ended
    &&& b.begun == a.begun && b.measuring ==> after.last_input_sampled_at
        == before.last_input_sampled_at
    &&& b.ended == a.ended ==> after.last_input_to_poll_us == before.last_input_to_poll_us
    &&& a.measured ==> b.measured
}

impl Joypad {
    pub fn new() -> (r: Self)
        ensures
            r@ == JoypadModel::initial(),
            r@.wf(),
    {
        Joypad {
            port: JoypadPort {
                strobe: false,
                button_index: 0,
                button_status: JoypadButton { bits: 0 },
            },
            last_input_sampled_at: None,
            last_input_to_poll_us: None,
            begun: Ghost(0),
            ended: Ghost(0),
        }
    }

    pub fn write(&mut self, data: u8)
        ensures
            final(self)@ == old(self)@.written(data),
            latency_goes_on(*old(self), *final(self)),
            old(self)@.wf() ==> final(self)@.wf(),
    {
        self.port.strobe = data & 1 == 1;
        if self.port.strobe {
            self.port.button_index = 0;
        }
    }

    /// Reads the port. The first poll after a change of input ends the latency
    /// measurement that the change began.
    pub fn read(&mut self) -> (r: u8)
        requires
            old(self)@.wf(),
        ensures
            r == old(self)@.bit(),
            final(self)@ == old(self)@.stepped(),
            latency_goes_on(*old(self), *final(self)),
            final(self)@.wf(),
    {
        if !self.port.strobe && self.port.button_index == 0 {
            if let Some(sampled_at) = self.last_input_sampled_at {
                self.last_input_sampled_at = None;
                self.record_latency(sampled_at.elapsed().as_micros());
            }
        }
        if self.port.button_index > 7 {
            return 1;
        }
        let response: u8 = (self.port.button_status.bits >> self.port.button_index) & 1;
        if !self.port.strobe {
            self.port.button_index = self.port.button_index + 1;
        }
        response
    }

    /// Ends a latency measurement with the elapsed microseconds.
    pub fn record_latency(&mut self, elapsed_us: u128)
        ensures
            final(self).port == old(self).port,
            final(self).last_input_sampled_at == old(self).last_input_sampled_at,
            final(self).begun == old(self).begun,
            final(self).ended@ == old(self).ended@ + 1,
            final(self).last_input_to_poll_us == Some(
                if elapsed_us > u64::MAX {
                    u64::MAX
                } else {
                    elapsed_us as u64
                },
            ),
    {
        self.last_input_to_poll_us = Some(
            if elapsed_us > u64::MAX as u128 {
                u64::MAX
            } else {
                elapsed_us as u64
            },
        );
        self.ended = Ghost(self.ended@ + 1);
    }

    /// The bit a read would return, without clocking the port: what a repeated
    /// read sees while the output enable stays asserted.
    pub fn peek(&self) -> (r: u8)
        requires
            self@.wf(),
        ensures
            r == self@.bit(),
    {
        if self.port.button_index > 7 {
            1
        } else {
            (self.port.button_status.bits >> self.port.button_index) & 1
        }
    }

    // Begins a latency measurement now.
    fn begin_measurement(&mut self)
        ensures
            final(self)@ == (JoypadModel { latency: old(self)@.latency.changed(), ..old(self)@ }),
            latency_goes_on(*old(self), *final(self)),
    {
        self.last_input_sampled_at = Some(Instant::now());
        self.begun = Ghost(self.begun@ + 1);
    }

    /// Presses or releases buttons. A change begins a latency measurement.
    pub fn set_button_pressed_status(&mut self, button: u8, pressed: bool)
        ensures
            final(self)@ == old(self)@.with_button(button, pressed),
            latency_goes_on(*old(self), *final(self)),
            old(self)@.wf() ==> final(self)@.wf(),
    {
        if self.port.button_status.contains(button) != pressed {
            self.begin_measurement();
        }
        self.port.button_status.set(button, pressed);
    }

    /// Releases every button and then holds down these. A latency measurement
    /// begins if any button was down or is to be.
    pub fn hold(&mut self, buttons: u8)
        ensures
            final(self)@ == old(self)@.holding(buttons),
            latency_goes_on(*old(self), *final(self)),
            old(self)@.wf() ==> final(self)@.wf(),
    {
        if self.port.button_status.bits != 0 || buttons != 0 {
            self.begin_measurement();
        }
        self.port.button_status.bits = buttons;
    }

    #[verifier::allow_in_spec]
    pub fn last_input_to_poll_us(&self) -> Option<u64>
        returns
            self.last_input_to_poll_us,
    {
        self.last_input_to_poll_us
    }

    pub fn duplicate(&self) -> (r: Self)
        ensures
            r == *self,
    {
        Joypad {
            port: self.port,
            last_input_sampled_at: self.last_input_sampled_at,
            last_input_to_poll_us: self.last_input_to_poll_us,
            begun: Ghost(self.begun@),
            ended: Ghost(self.ended@),
        }
    }
}

/// The port after `n` reads.
pub open spec fn stepped_times(p: JoypadPort, n: nat) -> JoypadPort
    decreases n,
{
    if n == 0 {
        p
    } else {
        stepped_times(p, (n - 1) as nat).stepped()
    }
}

/// After the strobe falls, read number `n` (from zero) shows button `n` in the
/// order A, B, Select, Start, Up, Down, Left, Right, and 1 behind the last.
pub proof fn reads_walk_the_buttons_then_ones(p: JoypadPort, high: u8, low: u8, n: nat)
    requires
        high & 1 == 1,
        low & 1 != 1,
    ensures
        ({
            let start = p.written(high).written(low);
            &&& stepped_times(start, n).bit() == if n < 8 {
                (p.button_status.bits >> (n as u8)) & 1
            } else {
                1
            }
            &&& stepped_times(start, n) == (JoypadPort {
                button_index: if n < 8 {
                    n as u8
                } else {
                    8
                },
                ..start
            })
        }),
    decreases n,
{
    if n > 0 {
        reads_walk_the_buttons_then_ones(p, high, low, (n - 1) as nat);
    }
}

/// While the strobe is high, every read shows the A button.
pub proof fn a_held_strobe_repeats_the_first_button(p: JoypadPort, high: u8, n: nat)
    requires
        high & 1 == 1,
    ensures
        stepped_times(p.written(high), n) == p.written(high),
        stepped_times(p.written(high), n).bit() == p.button_status.bits & 1,
    decreases n,
{
    let bits = p.button_status.bits;
    assert((bits >> 0u8) & 1 == bits & 1) by (bit_vector);
    if n > 0 {
        a_held_strobe_repeats_the_first_button(p, high, (n - 1) as nat);
    }
}

/// The poll that follows a change of input ends its measurement, and no read
/// behind it is measured until the input changes again.
pub proof fn only_the_first_poll_is_measured(pad: JoypadModel, mask: u8, pressed: bool, n: nat)
    requires
        pad.wf(),
        pad.port.button_status.contains(mask) != pressed,
        n > 0,
    ensures
        ({
            let ready = pad.with_button(mask, pressed).written(1).written(0);
            let read = read_times(ready, n);
            &&& ready.latency == pad.latency.changed()
            &&& read.latency == ready.latency.polled()
            &&& read.latency.measured && !read.latency.measuring
            &&& read.latency.ended == pad.latency.ended + 1
        }),
    decreases n,
{
    assert(1u8 & 1 == 1 && 0u8 & 1 == 0) by (bit_vector);
    let ready = pad.with_button(mask, pressed).written(1).written(0);
    reveal_with_fuel(read_times, 2);
    if n > 1 {
        only_the_first_poll_is_measured(pad, mask, pressed, (n - 1) as nat);
        lemma_reads_move_on(ready, (n - 1) as nat);
    }
}

/// The controller after `n` reads.
pub open spec fn read_times(pad: JoypadModel, n: nat) -> JoypadModel
    decreases n,
{
    if n == 0 {
        pad
    } else {
        read_times(pad, (n - 1) as nat).stepped()
    }
}

proof fn lemma_reads_move_on(pad: JoypadModel, n: nat)
    requires
        pad.wf(),
        !pad.port.strobe,
        n > 0,
    ensures
        read_times(pad, n).wf(),
        !read_times(pad, n).port.strobe,
        read_times(pad, n).port.button_index > 0,
    decreases n,
{
    reveal_with_fuel(read_times, 2);
    if n > 1 {
        lemma_reads_move_on(pad, (n - 1) as nat);
    }
}

/// Whatever is done to a controller in two steps, the host's times go on as
/// through one.
pub proof fn latency_goes_on_throughout(first: Joypad, second: Joypad, third: Joypad)
    requires
        latency_goes_on(first, second),
        latency_goes_on(second, third),
    ensures
        latency_goes_on(first, third),
{
}

/// The buttons take the eight bits in the order of the port: each mask is twice
/// the one before.
pub proof fn buttons_take_the_bits_in_order()
    ensures
        JoypadButton::BUTTON_A == 1,
        JoypadButton::BUTTON_B == 2 * JoypadButton::BUTTON_A,
        JoypadButton::SELECT == 2 * JoypadButton::BUTTON_B,
        JoypadButton::START == 2 * JoypadButton::SELECT,
        JoypadButton::UP == 2 * JoypadButton::START,
        JoypadButton::DOWN == 2 * JoypadButton::UP,
        JoypadButton::LEFT == 2 * JoypadButton::DOWN,
        JoypadButton::RIGHT == 2 * JoypadButton::LEFT,
{
}

/// Pressing or releasing moves the named buttons and no others.
pub proof fn only_the_named_buttons_move(b: JoypadButton, mask: u8, pressed: bool, k: u8)
    requires
        k < 8,
    ensures
        bit(b.with(mask, pressed).bits, k) == if bit(mask, k) {
            pressed
        } else {
            bit(b.bits, k)
        },
{
    lemma_operators(b.bits, mask, k);
    lemma_operators(mask, 0, k);
    lemma_operators(b.bits, !mask, k);
}

/// Holding buttons lets go of every other: whatever was held before, the same
/// buttons show, and holding them again changes none.
pub proof fn holding_forgets_what_was_held(one: JoypadModel, two: JoypadModel, bits: u8)
    ensures
        one.holding(bits).port.button_status == two.holding(bits).port.button_status,
        one.holding(one.port.button_status.bits).port == one.port,
        one.holding(bits).holding(bits).port == one.holding(bits).port,
        one.port.button_status.bits == 0 ==> one.holding(0) == one,
        one.holding(bits).port.strobe == one.port.strobe,
        one.holding(bits).port.button_index == one.port.button_index,
{
}

} // verus!
