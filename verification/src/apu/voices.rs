//! What each voice of the sound chip plays, and which writes and clocks reach
//! it.

use crate::apu::dmc::{dmc_periods, Dmc, DmcDmaRequestKind, OutputUnit, SampleReader};
use crate::apu::envelope::Envelope;
use crate::apu::frame_counter::{FrameCounter, FrameEvent};
use crate::apu::length_counter::{length_table, LengthCounter};
use crate::apu::noise::{noise_periods, Noise};
use crate::apu::pulse::{duty_high, Pulse, Sweep};
use crate::apu::triangle::{triangle_level, Triangle};
use crate::apu::{apu_cycle, apu_status_read, ApuModel, Channels, CPU_HZ, DEFAULT_SAMPLE_RATE};
use crate::bits::{bit, lemma_masks, lemma_operators, lemma_tests};
use crate::region::Region;
use vstd::arithmetic::power2::{lemma2_to64, pow2};
use vstd::prelude::*;

verus! {

// ---- What is heard ---------------------------------------------------------------

/// The volume an envelope plays: its setting while it is constant, else the
/// level it has decayed to.
pub open spec fn loudness(e: Envelope) -> u8 {
    if e.constant_volume {
        e.period
    } else {
        e.decay
    }
}

/// How many of the eight steps, from the second on, a duty setting spends high
/// or, for the last setting, low.
pub open spec fn duty_width(duty: u8) -> int {
    if duty == 0 {
        1
    } else if duty == 2 {
        4
    } else {
        2
    }
}

pub open spec fn high_step(p: Pulse) -> bool {
    (1 <= p.duty_step <= duty_width(p.duty)) != (p.duty == 3)
}

/// The period is within what the channel plays: at least 8, and adding the
/// sweep's change to it stays within 11 bits unless the sweep subtracts.
pub open spec fn audible_period(p: Pulse) -> bool {
    p.timer_period >= 8 && (p.sweep.negate || p.timer_period + p.timer_period as nat / pow2(
        p.sweep.shift as nat,
    ) <= 2047)
}

proof fn lemma_change(p: Pulse)
    requires
        p.wf(),
    ensures
        (p.timer_period >> p.sweep.shift) as int == p.timer_period as nat / pow2(
            p.sweep.shift as nat,
        ),
        0 <= p.timer_period as nat / pow2(p.sweep.shift as nat) <= p.timer_period,
{
    vstd::bits::lemma_u16_shr_is_div(p.timer_period, p.sweep.shift as u16);
    lemma2_to64();
    vstd::arithmetic::power2::lemma_pow2_pos(p.sweep.shift as nat);
    vstd::arithmetic::div_mod::lemma_div_is_ordered_by_denominator(
        p.timer_period as int,
        1,
        pow2(p.sweep.shift as nat) as int,
    );
    vstd::arithmetic::div_mod::lemma_div_pos_is_pos(
        p.timer_period as int,
        pow2(p.sweep.shift as nat) as int,
    );
}

proof fn lemma_pulse_level(p: Pulse)
    requires
        p.wf(),
    ensures
        p.level() == if high_step(p) && audible_period(p) && p.length.counter > 0 {
            loudness(p.envelope)
        } else {
            0
        },
{
    lemma_change(p);
}

/// Each voice is heard by itself: a pulse whose length runs, whose period is
/// audible and whose waveform is high plays the volume of its own envelope, and
/// otherwise nothing, whatever the other voices do. The triangle plays its
/// step, the noise its envelope while the low bit of its register is clear, and
/// the samples their level.
#[verifier::rlimit(50)]
pub proof fn every_voice_is_heard_by_itself(c: Channels)
    requires
        c.wf(),
    ensures
        c.levels().pulse1 == if high_step(c.pulse1) && audible_period(c.pulse1)
            && c.pulse1.length.counter > 0 {
            loudness(c.pulse1.envelope)
        } else {
            0
        },
        c.levels().pulse2 == if high_step(c.pulse2) && audible_period(c.pulse2)
            && c.pulse2.length.counter > 0 {
            loudness(c.pulse2.envelope)
        } else {
            0
        },
        c.levels().triangle as int == if c.triangle.step < 16 {
            15 - c.triangle.step
        } else {
            c.triangle.step - 16
        },
        c.levels().noise == if c.noise.shift as int % 2 == 0 && c.noise.length.counter > 0 {
            loudness(c.noise.envelope)
        } else {
            0
        },
        c.levels().dmc == c.dmc.unit.level,
{
    lemma_pulse_level(c.pulse1);
    lemma_pulse_level(c.pulse2);
    vstd::bits::lemma_u16_low_bits_mask_is_mod(c.noise.shift, 1);
    vstd::bits::lemma_low_bits_mask_values();
    lemma2_to64();
}

/// A voice sounds the same beside any other voices.
pub proof fn voices_do_not_disturb_each_other(c: Channels, d: Channels)
    ensures
        c.levels().pulse1 == (Channels { pulse1: c.pulse1, ..d }).levels().pulse1,
        c.levels().pulse2 == (Channels { pulse2: c.pulse2, ..d }).levels().pulse2,
        c.levels().triangle == (Channels { triangle: c.triangle, ..d }).levels().triangle,
        c.levels().noise == (Channels { noise: c.noise, ..d }).levels().noise,
        c.levels().dmc == (Channels { dmc: c.dmc, ..d }).levels().dmc,
{
}

/// The duty waveforms are high for one, two, four and six of eight steps, the
/// last being the second upside down.
pub proof fn duties_are_high_for_their_share(step: u8)
    requires
        step < 8,
    ensures
        duty_high(0, step) <==> step == 1,
        duty_high(1, step) <==> step == 1 || step == 2,
        duty_high(2, step) <==> 1 <= step < 5,
        duty_high(3, step) <==> !duty_high(1, step),
{
}

/// The triangle falls from 15 to 0 and climbs back, a step at a time.
pub proof fn the_triangle_falls_and_climbs(step: u8)
    requires
        step < 32,
    ensures
        triangle_level(0) == 15,
        triangle_level(step) == triangle_level((31 - step) as u8),
        step < 15 ==> triangle_level((step + 1) as u8) == triangle_level(step) - 1,
{
}

// ---- Writes ------------------------------------------------------------------------

/// The four registers from $4000 do to the first pulse what those from $4004 do
/// to the second, and leave everything else alone.
pub proof fn both_pulses_have_the_same_registers(c: Channels, n: u16, data: u8, even: bool)
    requires
        n < 4,
    ensures
        ({
            let first = c.written((0x4000 + n) as u16, data, even);
            let second = c.written((0x4004 + n) as u16, data, even);
            let crossed = (Channels { pulse1: c.pulse2, ..c }).written(
                (0x4000 + n) as u16,
                data,
                even,
            );
            &&& first == (Channels { pulse1: first.pulse1, ..c })
            &&& second == (Channels { pulse2: second.pulse2, ..c })
            &&& second.pulse2 == crossed.pulse1
        }),
{
}

/// The four registers of a pulse: the duty, the halt flag, the constant flag and
/// the volume; the sweep; and eleven bits of period with five of length, whose
/// write starts the waveform and the envelope again.
#[verifier::rlimit(50)]
pub proof fn pulse_registers_place_their_bits(c: Channels, data: u8, even: bool)
    ensures
        ({
            let p = c.pulse1;
            let control = c.written(0x4000, data, even).pulse1;
            let sweep = c.written(0x4001, data, even).pulse1;
            let low = c.written(0x4002, data, even).pulse1;
            let high = c.written(0x4003, data, even).pulse1;
            let d = data as int;
            &&& control == (Pulse {
                duty: control.duty,
                envelope: control.envelope,
                length: control.length,
                ..p
            })
            &&& control.duty as int == d / 64
            &&& control.length == (LengthCounter { halt: d / 32 % 2 == 1, ..p.length })
            &&& control.envelope.loop_flag == (d / 32 % 2 == 1)
            &&& control.envelope.constant_volume == (d / 16 % 2 == 1)
            &&& control.envelope.period as int == d % 16
            &&& control.envelope.decay == p.envelope.decay && control.envelope.divider
                == p.envelope.divider && control.envelope.start == p.envelope.start
            &&& sweep == (Pulse { sweep: sweep.sweep, ..p })
            &&& sweep.sweep.enabled == (d >= 128)
            &&& sweep.sweep.period as int == d / 16 % 8
            &&& sweep.sweep.negate == (d / 8 % 2 == 1)
            &&& sweep.sweep.shift as int == d % 8
            &&& sweep.sweep.reload && sweep.sweep.divider == p.sweep.divider
            &&& low == (Pulse { timer_period: low.timer_period, ..p })
            &&& p.timer_period < 2048 ==> low.timer_period as int == p.timer_period as int / 256
                * 256 + d
            &&& high.timer_period as int == d % 8 * 256 + p.timer_period as int % 256
            &&& high.duty_step == 0 && high.envelope.start
            &&& high.length == p.length.loaded((data / 8) as u8)
            &&& high == (Pulse {
                timer_period: high.timer_period,
                duty_step: 0,
                length: high.length,
                envelope: Envelope { start: true, ..p.envelope },
                ..p
            })
        }),
{
    lemma_tests(data);
}

/// The triangle's registers: the control flag and seven bits of linear length;
/// and eleven bits of period with five of length, whose write reloads the
/// linear counter.
#[verifier::rlimit(50)]
pub proof fn triangle_registers_place_their_bits(c: Channels, data: u8, even: bool)
    ensures
        ({
            let t = c.triangle;
            let linear = c.written(0x4008, data, even);
            let low = c.written(0x400a, data, even);
            let high = c.written(0x400b, data, even);
            let d = data as int;
            &&& linear == (Channels {
                triangle: Triangle {
                    control: d >= 128,
                    linear_reload_value: (d % 128) as u8,
                    length: LengthCounter { halt: d >= 128, ..t.length },
                    ..t
                },
                ..c
            })
            &&& low == (Channels {
                triangle: Triangle { timer_period: low.triangle.timer_period, ..t },
                ..c
            })
            &&& t.timer_period < 2048 ==> low.triangle.timer_period as int == t.timer_period as int
                / 256 * 256 + d
            &&& high == (Channels {
                triangle: Triangle {
                    timer_period: high.triangle.timer_period,
                    length: t.length.loaded((data / 8) as u8),
                    linear_reload: true,
                    ..t
                },
                ..c
            })
            &&& high.triangle.timer_period as int == d % 8 * 256 + t.timer_period as int % 256
        }),
{
    lemma_tests(data);
}

/// The noise's registers: the envelope as a pulse has it; the short mode and
/// one of sixteen periods; and five bits of length, whose write starts the
/// envelope again.
#[verifier::rlimit(50)]
pub proof fn noise_registers_place_their_bits(c: Channels, data: u8, even: bool)
    ensures
        ({
            let n = c.noise;
            let control = c.written(0x400c, data, even);
            let period = c.written(0x400e, data, even);
            let length = c.written(0x400f, data, even);
            let d = data as int;
            &&& control == (Channels {
                noise: Noise {
                    envelope: Envelope {
                        loop_flag: d / 32 % 2 == 1,
                        constant_volume: d / 16 % 2 == 1,
                        period: (d % 16) as u8,
                        ..n.envelope
                    },
                    length: LengthCounter { halt: d / 32 % 2 == 1, ..n.length },
                    ..n
                },
                ..c
            })
            &&& period == (Channels {
                noise: Noise { mode: d >= 128, timer_period: noise_periods()[d % 16], ..n },
                ..c
            })
            &&& length == (Channels {
                noise: Noise {
                    length: n.length.loaded((data / 8) as u8),
                    envelope: Envelope { start: true, ..n.envelope },
                    ..n
                },
                ..c
            })
        }),
{
    lemma_tests(data);
}

/// The sample voice's registers: the interrupt and loop flags and one of
/// sixteen rates; the level itself; an address in steps of 64 bytes from $C000;
/// and a length in steps of 16 bytes plus one.
#[verifier::rlimit(50)]
pub proof fn sample_registers_place_their_bits(c: Channels, data: u8, even: bool)
    ensures
        ({
            let s = c.dmc;
            let d = data as int;
            &&& c.written(0x4010, data, even) == (Channels {
                dmc: Dmc {
                    irq_enabled: d >= 128,
                    loop_flag: d / 64 % 2 == 1,
                    irq_flag: s.irq_flag && d >= 128,
                    timer_period: dmc_periods()[d % 16],
                    ..s
                },
                ..c
            })
            &&& c.written(0x4011, data, even) == (Channels {
                dmc: Dmc { unit: OutputUnit { level: (d % 128) as u8, ..s.unit }, ..s },
                ..c
            })
            &&& c.written(0x4012, data, even) == (Channels {
                dmc: Dmc {
                    reader: SampleReader {
                        sample_address: (0xc000 + 64 * d) as u16,
                        ..s.reader
                    },
                    ..s
                },
                ..c
            })
            &&& c.written(0x4013, data, even) == (Channels {
                dmc: Dmc {
                    reader: SampleReader { sample_length: (16 * d + 1) as u16, ..s.reader },
                    ..s
                },
                ..c
            })
        }),
{
    lemma_tests(data);
}

/// A status write enables the voices bit by bit; a voice that is not enabled
/// loses its length and a sample its rest.
#[verifier::rlimit(50)]
pub proof fn a_status_write_enables_bit_by_bit(c: Channels, data: u8, even: bool)
    ensures
        ({
            let after = c.written(0x4015, data, even);
            let d = data as int;
            &&& after.pulse1.length.enabled == (d % 2 == 1)
            &&& after.pulse2.length.enabled == (d / 2 % 2 == 1)
            &&& after.triangle.length.enabled == (d / 4 % 2 == 1)
            &&& after.noise.length.enabled == (d / 8 % 2 == 1)
            &&& d % 2 == 0 ==> after.pulse1.length.counter == 0
            &&& d / 2 % 2 == 0 ==> after.pulse2.length.counter == 0
            &&& d / 4 % 2 == 0 ==> after.triangle.length.counter == 0
            &&& d / 8 % 2 == 0 ==> after.noise.length.counter == 0
            &&& d % 2 == 1 ==> after.pulse1.length.counter == c.pulse1.length.counter
            &&& d / 2 % 2 == 1 ==> after.pulse2.length.counter == c.pulse2.length.counter
            &&& d / 4 % 2 == 1 ==> after.triangle.length.counter == c.triangle.length.counter
            &&& d / 8 % 2 == 1 ==> after.noise.length.counter == c.noise.length.counter
            &&& !after.dmc.irq_flag
            &&& d / 16 % 2 == 0 ==> after.dmc.reader.bytes_remaining == 0
            &&& d / 16 % 2 == 1 ==> after.dmc.reader.bytes_remaining
                == if c.dmc.reader.bytes_remaining == 0 {
                c.dmc.reader.sample_length
            } else {
                c.dmc.reader.bytes_remaining
            }
            &&& after.frame_counter == c.frame_counter
        }),
{
    lemma_tests(data);
}

/// A status read shows which lengths run, whether a sample has bytes left, and
/// the two interrupt flags.
#[verifier::rlimit(50)]
pub proof fn a_status_read_shows_what_runs(c: Channels, k: u8)
    requires
        k < 8,
    ensures
        bit(c.status(), k) == if k == 0 {
            c.pulse1.length.counter > 0
        } else if k == 1 {
            c.pulse2.length.counter > 0
        } else if k == 2 {
            c.triangle.length.counter > 0
        } else if k == 3 {
            c.noise.length.counter > 0
        } else if k == 4 {
            c.dmc.reader.bytes_remaining > 0
        } else if k == 6 {
            c.frame_counter.frame_irq
        } else {
            k == 7 && c.dmc.irq_flag
        },
        c.irq() == (c.frame_counter.frame_irq || c.dmc.irq_flag),
{
    let b0 = if c.pulse1.length.active() { 0x01u8 } else { 0 };
    let b1 = if c.pulse2.length.active() { 0x02u8 } else { 0 };
    let b2 = if c.triangle.length.active() { 0x04u8 } else { 0 };
    let b3 = if c.noise.length.active() { 0x08u8 } else { 0 };
    let b4 = if c.dmc.reader.bytes_remaining > 0 { 0x10u8 } else { 0 };
    let b6 = if c.frame_counter.frame_irq { 0x40u8 } else { 0 };
    let b7 = if c.dmc.irq_flag { 0x80u8 } else { 0 };
    lemma_operators(b0, b1, k);
    lemma_operators(b0 | b1, b2, k);
    lemma_operators(b0 | b1 | b2, b3, k);
    lemma_operators(b0 | b1 | b2 | b3, b4, k);
    lemma_operators(b0 | b1 | b2 | b3 | b4, b6, k);
    lemma_operators(b0 | b1 | b2 | b3 | b4 | b6, b7, k);
    lemma_masks(0);
    lemma_masks(0x01);
    lemma_masks(0x02);
    lemma_masks(0x04);
    lemma_masks(0x08);
    lemma_masks(0x10);
    lemma_masks(0x40);
    lemma_masks(0x80);
}

// ---- Tables ------------------------------------------------------------------------

/// The lengths: odd entries are one less than their number, but for the longest
/// of all; the even entries are the note values of two tempos, each a whole
/// note halved four times over, with their triplets and dotted notes.
pub proof fn lengths_are_note_values(k: int)
    requires
        0 <= k < 16,
    ensures
        length_table().len() == 32,
        k > 0 ==> length_table()[2 * k + 1] == 2 * k,
        length_table()[1] == 254,
        k < 5 ==> length_table()[2 * k] == 10 * pow2(k as nat),
        k < 5 ==> length_table()[16 + 2 * k] == 12 * pow2(k as nat),
        length_table()[10] == 60 && length_table()[12] == 14 && length_table()[14] == 26,
        length_table()[26] == 72 && length_table()[28] == 16 && length_table()[30] == 32,
{
    lemma2_to64();
}

/// The noise's periods double five times from 4, grow throughout, and in the
/// lower octaves are whole multiples of each other.
pub proof fn noise_periods_grow(i: int, j: int)
    requires
        0 <= i < j < 16,
    ensures
        noise_periods().len() == 16,
        noise_periods()[i] < noise_periods()[j],
        j < 5 ==> noise_periods()[j] == 4 * pow2(j as nat),
        4 < j < 8 ==> noise_periods()[j] == 32 * (j - 2),
        noise_periods()[8] == 202 && noise_periods()[9] == 254 && noise_periods()[10] == 380,
        10 < j < 14 ==> noise_periods()[j] == 254 * (j - 9),
        noise_periods()[14] == 2034,
        noise_periods()[15] == 2 * noise_periods()[14],
{
    lemma2_to64();
}

/// The sample rates rise throughout, from 428 cycles a bit to 54: a scale of
/// two octaves and, on top of it, three quick rates.
pub proof fn sample_rates_rise(i: int, j: int)
    requires
        0 <= i < j < 16,
    ensures
        dmc_periods().len() == 16,
        dmc_periods()[i] > dmc_periods()[j],
        dmc_periods()[0] == 428 && dmc_periods()[15] == 54,
        dmc_periods()[0] == 2 * dmc_periods()[7],
        dmc_periods()[1] == 2 * dmc_periods()[8],
        dmc_periods()[3] == 2 * dmc_periods()[9],
        dmc_periods()[2] == 340 && dmc_periods()[4] == 286 && dmc_periods()[5] == 254
            && dmc_periods()[6] == 226,
        dmc_periods()[4] == 2 * dmc_periods()[10] + 2,
        dmc_periods()[5] == 2 * dmc_periods()[11] - 2,
        dmc_periods()[7] == 2 * dmc_periods()[12] + 2,
        dmc_periods()[12] == 106 && dmc_periods()[13] == 84 && dmc_periods()[14] == 72,
{
}

// ---- Clocks ------------------------------------------------------------------------

/// A quarter-frame clock reaches the three envelopes and the linear counter.
pub proof fn a_quarter_frame_clocks_the_envelopes(c: Channels)
    ensures
        ({
            let after = c.quarter_clocked();
            &&& after == (Channels {
                pulse1: Pulse { envelope: after.pulse1.envelope, ..c.pulse1 },
                pulse2: Pulse { envelope: after.pulse2.envelope, ..c.pulse2 },
                noise: Noise { envelope: after.noise.envelope, ..c.noise },
                triangle: Triangle {
                    linear_counter: after.triangle.linear_counter,
                    linear_reload: after.triangle.linear_reload,
                    ..c.triangle
                },
                ..c
            })
            &&& after.pulse1.envelope == c.pulse1.envelope.ticked()
            &&& after.pulse2.envelope == c.pulse2.envelope.ticked()
            &&& after.noise.envelope == c.noise.envelope.ticked()
            &&& after.triangle.linear_counter as int == if c.triangle.linear_reload {
                c.triangle.linear_reload_value as int
            } else if c.triangle.linear_counter > 0 {
                c.triangle.linear_counter - 1
            } else {
                0
            }
            &&& after.triangle.linear_reload == (c.triangle.linear_reload && c.triangle.control)
        }),
{
}

/// A started envelope begins at 15. Otherwise its divider counts the period
/// down, and each time it runs out the level falls by one; at the bottom it
/// stays, or with the loop flag begins again.
pub proof fn an_envelope_starts_high_and_decays(e: Envelope)
    ensures
        e.volume() == loudness(e),
        e.start ==> e.ticked().decay == 15 && e.ticked().divider == e.period && !e.ticked().start,
        !e.start && e.divider > 0 ==> e.ticked() == (Envelope {
            divider: (e.divider - 1) as u8,
            ..e
        }),
        !e.start && e.divider == 0 ==> {
            &&& e.ticked().divider == e.period
            &&& e.ticked().decay as int == if e.decay > 0 {
                e.decay - 1
            } else if e.loop_flag {
                15
            } else {
                0
            }
        },
        e.ticked().period == e.period && e.ticked().constant_volume == e.constant_volume
            && e.ticked().loop_flag == e.loop_flag,
{
}

/// A length counts down while it runs and is not halted.
pub open spec fn counted(before: LengthCounter, after: LengthCounter) -> bool {
    &&& after.halt == before.halt && after.enabled == before.enabled
    &&& after.counter as int == if before.halt || before.counter == 0 {
        before.counter as int
    } else {
        before.counter - 1
    }
}

/// A half-frame clock reaches the four lengths and the two sweeps.
#[verifier::rlimit(50)]
pub proof fn a_half_frame_clocks_the_lengths(c: Channels)
    ensures
        ({
            let after = c.half_clocked();
            &&& counted(c.pulse1.length, after.pulse1.length)
            &&& counted(c.pulse2.length, after.pulse2.length)
            &&& counted(c.triangle.length, after.triangle.length)
            &&& counted(c.noise.length, after.noise.length)
            &&& after == (Channels {
                pulse1: Pulse {
                    length: after.pulse1.length,
                    timer_period: after.pulse1.timer_period,
                    sweep: after.pulse1.sweep,
                    ..c.pulse1
                },
                pulse2: Pulse {
                    length: after.pulse2.length,
                    timer_period: after.pulse2.timer_period,
                    sweep: after.pulse2.sweep,
                    ..c.pulse2
                },
                triangle: Triangle { length: after.triangle.length, ..c.triangle },
                noise: Noise { length: after.noise.length, ..c.noise },
                ..c
            })
            &&& after.pulse1.timer_period == c.pulse1.sweep_ticked().timer_period
            &&& after.pulse2.timer_period == c.pulse2.sweep_ticked().timer_period
            &&& after.pulse1.sweep == c.pulse1.sweep_ticked().sweep
            &&& after.pulse2.sweep == c.pulse2.sweep_ticked().sweep
        }),
{
}

/// A sweep adds or takes away its share of the period each time its divider
/// runs out, if it is enabled, has a shift and the period is audible. Taking
/// away, the first pulse takes one more than the second, and neither falls
/// below zero. The divider counts its period down and begins again at its end
/// or when the register was written.
#[verifier::rlimit(50)]
pub proof fn a_sweep_moves_the_period_by_its_share(p: Pulse)
    requires
        p.wf(),
    ensures
        ({
            let after = p.sweep_ticked();
            let share = p.timer_period as nat / pow2(p.sweep.shift as nat);
            let lowered = p.timer_period - share - if p.is_pulse1 {
                1int
            } else {
                0
            };
            let moves = p.sweep.divider == 0 && p.sweep.enabled && p.sweep.shift > 0
                && audible_period(p);
            &&& !moves ==> after.timer_period == p.timer_period
            &&& moves && !p.sweep.negate ==> after.timer_period as int == p.timer_period + share
            &&& moves && p.sweep.negate ==> after.timer_period as int == if lowered < 0 {
                0
            } else {
                lowered
            }
            &&& after.sweep == (Sweep {
                divider: if p.sweep.divider == 0 || p.sweep.reload {
                    p.sweep.period
                } else {
                    (p.sweep.divider - 1) as u8
                },
                reload: false,
                ..p.sweep
            })
            &&& after == (Pulse { timer_period: after.timer_period, sweep: after.sweep, ..p })
        }),
{
    lemma_change(p);
}

/// A pulse's timer over `n` ticks.
pub open spec fn pulse_ticks(p: Pulse, n: nat) -> Pulse
    decreases n,
{
    if n == 0 {
        p
    } else {
        pulse_ticks(p, (n - 1) as nat).timer_ticked()
    }
}

/// A pulse holds its step while the timer runs out, and then goes a step on and
/// starts the timer from the period.
pub proof fn a_pulse_steps_when_its_timer_runs_out(p: Pulse, n: nat)
    requires
        n <= p.timer + 1,
    ensures
        n <= p.timer ==> pulse_ticks(p, n) == (Pulse { timer: (p.timer - n) as u16, ..p }),
        n == p.timer + 1 ==> pulse_ticks(p, n) == (Pulse {
            timer: p.timer_period,
            duty_step: ((p.duty_step + 1) % 8) as u8,
            ..p
        }),
    decreases n,
{
    if n > 0 {
        a_pulse_steps_when_its_timer_runs_out(p, (n - 1) as nat);
    }
}

/// A triangle's timer over `n` ticks.
pub open spec fn triangle_ticks(t: Triangle, n: nat) -> Triangle
    decreases n,
{
    if n == 0 {
        t
    } else {
        triangle_ticks(t, (n - 1) as nat).timer_ticked()
    }
}

/// The triangle too, but only while both of its counters run.
pub proof fn a_triangle_steps_when_its_timer_runs_out(t: Triangle, n: nat)
    requires
        n <= t.timer + 1,
    ensures
        n <= t.timer ==> triangle_ticks(t, n) == (Triangle { timer: (t.timer - n) as u16, ..t }),
        n == t.timer + 1 ==> triangle_ticks(t, n) == (Triangle {
            timer: t.timer_period,
            step: if t.linear_counter > 0 && t.length.counter > 0 {
                ((t.step + 1) % 32) as u8
            } else {
                t.step
            },
            ..t
        }),
    decreases n,
{
    if n > 0 {
        a_triangle_steps_when_its_timer_runs_out(t, (n - 1) as nat);
    }
}

/// Each CPU cycle ticks the triangle, the noise and the samples; the pulses
/// tick every other cycle.
pub proof fn pulses_tick_every_other_cycle(c: Channels, even: bool)
    ensures
        ({
            let after = c.timers_ticked(even);
            &&& after.triangle == triangle_ticks(c.triangle, 1)
            &&& after.noise == c.noise.timer_ticked()
            &&& after.dmc == c.dmc.timer_ticked()
            &&& after.pulse1 == pulse_ticks(
                c.pulse1,
                if even {
                    1
                } else {
                    0
                },
            )
            &&& after.pulse2 == pulse_ticks(
                c.pulse2,
                if even {
                    1
                } else {
                    0
                },
            )
            &&& after.frame_counter == c.frame_counter
        }),
{
    reveal_with_fuel(pulse_ticks, 2);
    reveal_with_fuel(triangle_ticks, 2);
}

/// The frame sequencer in CPU cycles: quarter frames at 7457, 14913, 22371 and
/// at 29829 or, in five steps, 37281; the second and the last of them are half
/// frames too. The last three cycles of four steps raise the interrupt.
#[verifier::rlimit(50)]
pub proof fn the_sequencer_keeps_its_schedule(f: FrameCounter)
    requires
        f.reset_delay != 1,
    ensures
        ({
            let at = f.cycle + 1;
            let last = if f.five_step {
                37281int
            } else {
                29829
            };
            &&& f.event() == if at == 7457 || at == 22371 {
                FrameEvent::Quarter
            } else if at == 14913 || at == last {
                FrameEvent::Half
            } else {
                FrameEvent::Idle
            }
            &&& f.ticked().frame_irq == (f.frame_irq || (!f.five_step && !f.irq_inhibit && at
                >= 29828))
            &&& f.wf() ==> f.ticked().cycle as int == at % (last + 1)
            &&& f.ticked().five_step == f.five_step && f.ticked().irq_inhibit == f.irq_inhibit
        }),
{
    if f.wf() {
        let last = if f.five_step {
            37281int
        } else {
            29829
        };
        let at = f.cycle + 1;
        if at <= last {
            vstd::arithmetic::div_mod::lemma_small_mod(at as nat, (last + 1) as nat);
        } else {
            vstd::arithmetic::div_mod::lemma_mod_self_0(last + 1);
        }
    }
}

/// A sequencer write takes effect three cycles later on an even cycle and four
/// on an odd one: the sequence begins again, and five steps start with a half
/// frame. Bit 6 forbids the interrupt and drops one that stands.
pub proof fn a_sequencer_write_restarts_it_late(f: FrameCounter, data: u8, even: bool)
    ensures
        ({
            let w = f.written(data, even);
            &&& w.reset_delay as int == if even {
                3int
            } else {
                4
            }
            &&& w.pending_five_step == (data >= 128)
            &&& w.irq_inhibit == (data as int / 64 % 2 == 1)
            &&& w.frame_irq == (f.frame_irq && data as int / 64 % 2 == 0)
            &&& w.cycle == f.cycle && w.five_step == f.five_step
        }),
        f.reset_delay == 1 ==> {
            &&& f.ticked().cycle == 0 && f.ticked().five_step == f.pending_five_step
            &&& f.ticked().reset_delay == 0 && f.ticked().frame_irq == f.frame_irq
            &&& f.event() == if f.pending_five_step {
                FrameEvent::Half
            } else {
                FrameEvent::Idle
            }
        },
        f.reset_delay > 1 ==> f.ticked().reset_delay == f.reset_delay - 1,
{
    lemma_tests(data);
}

/// A frame clock hands out its event: a half frame clocks the envelopes and then
/// the lengths, a quarter frame the envelopes alone.
pub proof fn frame_events_reach_the_voices(c: Channels)
    ensures
        ({
            let next = Channels { frame_counter: c.frame_counter.ticked(), ..c };
            &&& c.frame_counter.event() is Idle ==> c.frame_ticked() == next
            &&& c.frame_counter.event() is Quarter ==> c.frame_ticked() == next.quarter_clocked()
            &&& c.frame_counter.event() is Half ==> c.frame_ticked()
                == next.quarter_clocked().half_clocked()
        }),
{
}

/// The sample voice moves by two a bit, up on a one and down on a zero, within
/// 0 to 127, and takes the bits of a byte from the lowest on. Every eighth bit
/// brings the next byte, or silence where there is none.
pub proof fn samples_move_by_two_a_bit(u: OutputUnit, buffer: Option<u8>)
    requires
        u.level <= 127,
        1 <= u.bits_remaining <= 8,
    ensures
        ({
            let after = u.clocked(buffer);
            let up = u.shift as int % 2 == 1;
            &&& u.silence ==> after.level == u.level
            &&& !u.silence && up ==> after.level as int == if u.level + 2 <= 127 {
                u.level + 2
            } else {
                u.level as int
            }
            &&& !u.silence && !up ==> after.level as int == if u.level - 2 >= 0 {
                u.level - 2
            } else {
                u.level as int
            }
            &&& u.bits_remaining > 1 ==> {
                &&& after.bits_remaining == u.bits_remaining - 1
                &&& after.shift as int == u.shift as int / 2
                &&& after.silence == u.silence
            }
            &&& u.bits_remaining == 1 ==> {
                &&& after.bits_remaining == 8
                &&& after.silence == (buffer is None)
                &&& buffer is Some ==> after.shift == buffer->0
            }
        }),
{
    lemma_masks(u.shift);
}

/// A fetched byte fills the buffer and moves the reader on, from the last
/// address to $8000. The last byte of a sample starts it again if it loops, and
/// otherwise raises the interrupt if that is enabled.
pub proof fn a_fetched_byte_moves_the_reader_on(d: Dmc, value: u8)
    requires
        d.reader.bytes_remaining > 0,
        d.reader.current_address >= 0x8000,
    ensures
        ({
            let after = d.loaded(value);
            let left = d.reader.bytes_remaining - 1;
            let ended = left == 0;
            &&& after.reader.sample_buffer == Some(value)
            &&& !after.reader.initial_fetch
            &&& after.reader.bytes_remaining as int == if ended && d.loop_flag {
                d.reader.sample_length as int
            } else {
                left
            }
            &&& after.reader.current_address as int == if ended && d.loop_flag {
                d.reader.sample_address as int
            } else if d.reader.current_address < 0xffff {
                d.reader.current_address + 1
            } else {
                0x8000
            }
            &&& after.irq_flag == (d.irq_flag || (ended && !d.loop_flag && d.irq_enabled))
            &&& after.unit == d.unit
        }),
{
}

/// A voice plays this volume.
pub open spec fn pulse_plays(p: Pulse) -> u8 {
    if high_step(p) && audible_period(p) && p.length.counter > 0 {
        loudness(p.envelope)
    } else {
        0
    }
}

/// A sample that is recorded holds what each voice plays at the end of its
/// cycle, every one in its own place.
pub proof fn a_sample_records_every_voice(a: ApuModel)
    requires
        a.channels.wf(),
        apu_cycle(a).channels.wf(),
        apu_cycle(a).sampler.samples.len() > a.sampler.samples.len(),
    ensures
        ({
            let voices = apu_cycle(a).channels;
            let sample = apu_cycle(a).sampler.samples.last();
            &&& apu_cycle(a).sampler.samples.drop_last() == a.sampler.samples
            &&& sample.pulse1 == pulse_plays(voices.pulse1)
            &&& sample.pulse2 == pulse_plays(voices.pulse2)
            &&& sample.triangle == triangle_level(voices.triangle.step)
            &&& sample.noise == if voices.noise.shift as int % 2 == 0 && voices.noise.length.counter
                > 0 {
                loudness(voices.noise.envelope)
            } else {
                0
            }
            &&& sample.dmc == voices.dmc.unit.level
        }),
{
    reveal(apu_cycle);
    every_voice_is_heard_by_itself(apu_cycle(a).channels);
    assert(apu_cycle(a).sampler.samples.drop_last() =~= a.sampler.samples);
}

/// A cycle first clocks the frame sequencer and then the timers, the pulses on
/// every second cycle counted.
pub proof fn a_cycle_clocks_sequencer_and_timers(a: ApuModel)
    requires
        a.cycles < usize::MAX,
    ensures
        ({
            let after = apu_cycle(a);
            &&& after.cycles == a.cycles + 1
            &&& after.channels == a.channels.frame_ticked().timers_ticked(
                (a.cycles + 1) as int % 2 == 0,
            )
            &&& after.register_writes == a.register_writes
        }),
{
    reveal(apu_cycle);
}

/// A status read drops the frame interrupt and nothing else.
pub proof fn a_status_read_drops_the_frame_interrupt(a: ApuModel)
    ensures
        ({
            let after = apu_status_read(a);
            &&& !after.channels.frame_counter.frame_irq
            &&& after.channels.dmc == a.channels.dmc
            &&& after.channels.irq() == a.channels.dmc.irq_flag
            &&& after.channels.levels() == a.channels.levels()
            &&& after.sampler == a.sampler && after.cycles == a.cycles
        }),
{
}

/// Sampling is tuned to the CPU of the NTSC console.
pub proof fn sampling_runs_by_the_cpu_clock()
    ensures
        CPU_HZ == Region::Ntsc.cpu_hz(),
        DEFAULT_SAMPLE_RATE == 48_000,
{
}

/// A sample voice's timer over `n` ticks.
pub open spec fn sample_ticks(d: Dmc, n: nat) -> Dmc
    decreases n,
{
    if n == 0 {
        d
    } else {
        sample_ticks(d, (n - 1) as nat).timer_ticked()
    }
}

/// The sample voice plays a bit each time its timer runs out, and starts it
/// from one less than the period.
pub proof fn a_sample_bit_lasts_its_period(d: Dmc, n: nat)
    requires
        d.timer_period > 0,
        n <= d.timer + 1,
    ensures
        n <= d.timer ==> sample_ticks(d, n) == (Dmc { timer: (d.timer - n) as u16, ..d }),
        n == d.timer + 1 ==> {
            let after = sample_ticks(d, n);
            &&& after.timer == d.timer_period - 1
            &&& after.unit == d.unit.clocked(d.reader.sample_buffer)
            &&& after.reader.sample_buffer == if d.unit.bits_remaining > 1 {
                d.reader.sample_buffer
            } else {
                None
            }
            &&& after.reader.bytes_remaining == d.reader.bytes_remaining
            &&& after.irq_flag == d.irq_flag
        },
    decreases n,
{
    if n > 0 {
        a_sample_bit_lasts_its_period(d, (n - 1) as nat);
    }
}

/// A byte is wanted while the buffer is empty and the sample has bytes left, at
/// the reader's address; the first of a sample is told from the others.
pub proof fn a_byte_is_wanted_when_the_buffer_is_empty(d: Dmc)
    ensures
        d.request() is Some <==> d.reader.sample_buffer is None && d.reader.bytes_remaining > 0,
        d.request() is Some ==> d.request() == Some(d.reader.current_address),
        d.request_kind() is Some <==> d.request() is Some,
        d.request_kind() == Some(DmcDmaRequestKind::Load) <==> d.request() is Some
            && d.reader.initial_fetch,
{
}

/// A voice that is not enabled cannot be given a length; an enabled one takes
/// the entry of its five bits.
pub proof fn only_enabled_voices_take_a_length(c: LengthCounter, index: u8)
    ensures
        c.loaded(index) == if c.enabled {
            LengthCounter { counter: length_table()[index as int % 32], ..c }
        } else {
            c
        },
{
}

/// At power on nothing runs and nothing interrupts: the status reads zero, no
/// sample byte is wanted, the sequencer starts its four-step sequence, and every
/// control register stands as a write of zero would leave it. The two pulses
/// start alike.
#[verifier::rlimit(50)]
pub proof fn power_on_is_silent()
    ensures
        ({
            let c = Channels::initial();
            &&& !c.irq() && c.dmc.request() is None && c.dmc.reader.bytes_remaining == 0
            &&& c.pulse1.length.counter == 0 && c.pulse2.length.counter == 0
            &&& c.triangle.length.counter == 0 && c.noise.length.counter == 0
            &&& c.dmc.unit.level == 0
            &&& c.dmc.control_written(0) == c.dmc
            &&& c.triangle.linear_written(0) == c.triangle
            &&& !c.triangle.linear_reload && c.triangle.linear_counter == 0
            &&& c.noise.mode_period_written(0) == c.noise
            &&& c.noise.control_written(0) == c.noise
            &&& c.frame_counter.cycle == 0 && !c.frame_counter.five_step
            &&& !c.frame_counter.frame_irq && c.frame_counter.reset_delay == 0
            &&& c.pulse1 == (Pulse { is_pulse1: true, ..c.pulse2 }) && !c.pulse2.is_pulse1
        }),
{
    lemma_masks(0);
    lemma_tests(0);
}

} // verus!
