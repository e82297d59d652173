//! The audio half of the console's CPU chip.
//!
//! The bus ticks the APU once per CPU cycle alongside the PPU. At the host's
//! sample rate the levels of the five channels are recorded as one sample and
//! buffered; the front end drains the buffer, mixes and filters the samples,
//! and queues them on the host audio device.

use crate::apu::dmc::{Dmc, DmcDmaRequestKind};
use crate::apu::frame_counter::{FrameCounter, FrameEvent};
use crate::apu::noise::Noise;
use crate::apu::pulse::Pulse;
use crate::apu::triangle::Triangle;
use vstd::prelude::*;

pub mod dmc;
pub mod envelope;
pub mod frame_counter;
pub mod length_counter;
pub mod lfsr;
pub mod noise;
pub mod pulse;
pub mod sampler;
pub mod triangle;
pub mod voices;

use crate::apu::sampler::{ChannelLevels, Sampler};

verus! {

/// NTSC CPU clock rate in hertz.
pub const CPU_HZ: u64 = 1_789_773;

pub const DEFAULT_SAMPLE_RATE: u32 = 48000;

/// The five channels and the frame counter that clocks them.
#[derive(Clone, Copy, Debug, PartialEq, Eq, Structural)]
pub struct Channels {
    pub pulse1: Pulse,
    pub pulse2: Pulse,
    pub triangle: Triangle,
    pub noise: Noise,
    pub dmc: Dmc,
    pub frame_counter: FrameCounter,
}

/// The registers a CPU write can reach; the gaps belong to other devices.
pub open spec fn is_apu_register(addr: u16) -> bool {
    0x4000 <= addr <= 0x4013 || addr == 0x4015 || addr == 0x4017
}

impl Channels {
    pub open spec fn wf(self) -> bool {
        &&& self.pulse1.wf()
        &&& self.pulse2.wf()
        &&& self.triangle.wf()
        &&& self.noise.wf()
        &&& self.dmc.wf()
        &&& self.frame_counter.wf()
    }

    pub open spec fn initial() -> Channels {
        Channels {
            pulse1: Pulse::initial(true),
            pulse2: Pulse::initial(false),
            triangle: Triangle::initial(),
            noise: Noise::initial(),
            dmc: Dmc::initial(),
            frame_counter: FrameCounter::initial(),
        }
    }

    /// $4015 write (---D NT21): channel enables. Clearing a bit zeroes that
    /// channel's length counter; the DMC bit restarts or stops the sample
    /// fetches and any write clears the DMC interrupt flag.
    pub open spec fn status_written(self, data: u8) -> Channels {
        Channels {
            pulse1: Pulse {
                length: self.pulse1.length.with_enabled(data & 0x01 != 0),
                ..self.pulse1
            },
            pulse2: Pulse {
                length: self.pulse2.length.with_enabled(data & 0x02 != 0),
                ..self.pulse2
            },
            triangle: Triangle {
                length: self.triangle.length.with_enabled(data & 0x04 != 0),
                ..self.triangle
            },
            noise: Noise {
                length: self.noise.length.with_enabled(data & 0x08 != 0),
                ..self.noise
            },
            dmc: self.dmc.with_enabled(data & 0x10 != 0),
            ..self
        }
    }

    /// A CPU write to a sound register on an even (`on_apu_cycle`) or odd
    /// cycle.
    pub open spec fn written(self, addr: u16, data: u8, on_apu_cycle: bool) -> Channels {
        if addr == 0x4000 {
            Channels { pulse1: self.pulse1.control_written(data), ..self }
        } else if addr == 0x4001 {
            Channels { pulse1: self.pulse1.sweep_written(data), ..self }
        } else if addr == 0x4002 {
            Channels { pulse1: self.pulse1.timer_lo_written(data), ..self }
        } else if addr == 0x4003 {
            Channels { pulse1: self.pulse1.timer_hi_written(data), ..self }
        } else if addr == 0x4004 {
            Channels { pulse2: self.pulse2.control_written(data), ..self }
        } else if addr == 0x4005 {
            Channels { pulse2: self.pulse2.sweep_written(data), ..self }
        } else if addr == 0x4006 {
            Channels { pulse2: self.pulse2.timer_lo_written(data), ..self }
        } else if addr == 0x4007 {
            Channels { pulse2: self.pulse2.timer_hi_written(data), ..self }
        } else if addr == 0x4008 {
            Channels { triangle: self.triangle.linear_written(data), ..self }
        } else if addr == 0x400a {
            Channels { triangle: self.triangle.timer_lo_written(data), ..self }
        } else if addr == 0x400b {
            Channels { triangle: self.triangle.timer_hi_written(data), ..self }
        } else if addr == 0x400c {
            Channels { noise: self.noise.control_written(data), ..self }
        } else if addr == 0x400e {
            Channels { noise: self.noise.mode_period_written(data), ..self }
        } else if addr == 0x400f {
            Channels { noise: self.noise.length_written(data), ..self }
        } else if addr == 0x4010 {
            Channels { dmc: self.dmc.control_written(data), ..self }
        } else if addr == 0x4011 {
            Channels { dmc: self.dmc.direct_loaded(data), ..self }
        } else if addr == 0x4012 {
            Channels { dmc: self.dmc.sample_address_written(data), ..self }
        } else if addr == 0x4013 {
            Channels { dmc: self.dmc.sample_length_written(data), ..self }
        } else if addr == 0x4015 {
            self.status_written(data)
        } else if addr == 0x4017 {
            Channels { frame_counter: self.frame_counter.written(data, on_apu_cycle), ..self }
        } else {
            self
        }
    }

    /// $4015 read (IF-D NT21; bit 5 is open bus, read as 0).
    pub open spec fn status(self) -> u8 {
        (if self.pulse1.length.active() { 0x01u8 } else { 0 })
            | (if self.pulse2.length.active() { 0x02u8 } else { 0 })
            | (if self.triangle.length.active() { 0x04u8 } else { 0 })
            | (if self.noise.length.active() { 0x08u8 } else { 0 })
            | (if self.dmc.reader.bytes_remaining > 0 { 0x10u8 } else { 0 })
            | (if self.frame_counter.frame_irq { 0x40u8 } else { 0 })
            | (if self.dmc.irq_flag { 0x80u8 } else { 0 })
    }

    /// Level-triggered IRQ line to the CPU: asserted while either interrupt
    /// flag is set.
    pub open spec fn irq(self) -> bool {
        self.frame_counter.frame_irq || self.dmc.irq_flag
    }

    /// Envelopes and the triangle's linear counter.
    pub open spec fn quarter_clocked(self) -> Channels {
        Channels {
            pulse1: Pulse { envelope: self.pulse1.envelope.ticked(), ..self.pulse1 },
            pulse2: Pulse { envelope: self.pulse2.envelope.ticked(), ..self.pulse2 },
            noise: Noise { envelope: self.noise.envelope.ticked(), ..self.noise },
            triangle: self.triangle.linear_ticked(),
            ..self
        }
    }

    /// Length counters and sweep units.
    pub open spec fn half_clocked(self) -> Channels {
        Channels {
            pulse1: Pulse { length: self.pulse1.length.ticked(), ..self.pulse1 }.sweep_ticked(),
            pulse2: Pulse { length: self.pulse2.length.ticked(), ..self.pulse2 }.sweep_ticked(),
            triangle: Triangle { length: self.triangle.length.ticked(), ..self.triangle },
            noise: Noise { length: self.noise.length.ticked(), ..self.noise },
            ..self
        }
    }

    /// The frame counter advanced one CPU cycle, with the clocks it hands out.
    pub open spec fn frame_ticked(self) -> Channels {
        let next = Channels { frame_counter: self.frame_counter.ticked(), ..self };
        match self.frame_counter.event() {
            FrameEvent::Quarter => next.quarter_clocked(),
            FrameEvent::Half => next.quarter_clocked().half_clocked(),
            FrameEvent::Idle => next,
        }
    }

    /// The channel timers advanced one CPU cycle: triangle, noise and DMC run
    /// at the CPU clock, the pulses count APU cycles (every 2nd CPU cycle).
    pub open spec fn timers_ticked(self, on_apu_cycle: bool) -> Channels {
        Channels {
            triangle: self.triangle.timer_ticked(),
            noise: self.noise.timer_ticked(),
            dmc: self.dmc.timer_ticked(),
            pulse1: if on_apu_cycle {
                self.pulse1.timer_ticked()
            } else {
                self.pulse1
            },
            pulse2: if on_apu_cycle {
                self.pulse2.timer_ticked()
            } else {
                self.pulse2
            },
            ..self
        }
    }

    pub open spec fn levels(self) -> ChannelLevels {
        ChannelLevels {
            pulse1: self.pulse1.level(),
            pulse2: self.pulse2.level(),
            triangle: triangle::triangle_level(self.triangle.step),
            noise: self.noise.level(),
            dmc: self.dmc.unit.level,
        }
    }

    fn new() -> (r: Self)
        ensures
            r == Channels::initial(),
            r.wf(),
    {
        Channels {
            pulse1: Pulse::new(true),
            pulse2: Pulse::new(false),
            triangle: Triangle::new(),
            noise: Noise::new(),
            dmc: Dmc::new(),
            frame_counter: FrameCounter::new(),
        }
    }

    fn write_status(&mut self, data: u8)
        ensures
            *final(self) == old(self).status_written(data),
            old(self).wf() ==> final(self).wf(),
    {
        self.pulse1.length.set_enabled(data & 0x01 != 0);
        self.pulse2.length.set_enabled(data & 0x02 != 0);
        self.triangle.length.set_enabled(data & 0x04 != 0);
        self.noise.length.set_enabled(data & 0x08 != 0);
        self.dmc.set_enabled(data & 0x10 != 0);
    }

    fn write(&mut self, addr: u16, data: u8, on_apu_cycle: bool)
        requires
            is_apu_register(addr),
        ensures
            *final(self) == old(self).written(addr, data, on_apu_cycle),
            old(self).wf() ==> final(self).wf(),
    {
        match addr {
            0x4000 => self.pulse1.write_control(data),
            0x4001 => self.pulse1.write_sweep(data),
            0x4002 => self.pulse1.write_timer_lo(data),
            0x4003 => self.pulse1.write_timer_hi(data),
            0x4004 => self.pulse2.write_control(data),
            0x4005 => self.pulse2.write_sweep(data),
            0x4006 => self.pulse2.write_timer_lo(data),
            0x4007 => self.pulse2.write_timer_hi(data),
            0x4008 => self.triangle.write_linear(data),
            0x400a => self.triangle.write_timer_lo(data),
            0x400b => self.triangle.write_timer_hi(data),
            0x400c => self.noise.write_control(data),
            0x400e => self.noise.write_mode_period(data),
            0x400f => self.noise.write_length(data),
            0x4010 => self.dmc.write_control(data),
            0x4011 => self.dmc.write_direct_load(data),
            0x4012 => self.dmc.write_sample_address(data),
            0x4013 => self.dmc.write_sample_length(data),
            0x4015 => self.write_status(data),
            0x4017 => self.frame_counter.write(data, on_apu_cycle),
            _ => {
                // $4009 and $400D are unused.
            },
        }
    }

    fn clock_quarter_frame(&mut self)
        ensures
            *final(self) == old(self).quarter_clocked(),
            old(self).wf() ==> final(self).wf(),
    {
        self.pulse1.envelope.tick();
        self.pulse2.envelope.tick();
        self.noise.envelope.tick();
        self.triangle.tick_linear();
    }

    fn clock_half_frame(&mut self)
        requires
            old(self).wf(),
        ensures
            *final(self) == old(self).half_clocked(),
            final(self).wf(),
    {
        self.pulse1.length.tick();
        self.pulse2.length.tick();
        self.triangle.length.tick();
        self.noise.length.tick();
        self.pulse1.tick_sweep();
        self.pulse2.tick_sweep();
    }

    fn tick_frame_counter(&mut self)
        requires
            old(self).wf(),
        ensures
            *final(self) == old(self).frame_ticked(),
            final(self).wf(),
    {
        match self.frame_counter.tick() {
            FrameEvent::Quarter => self.clock_quarter_frame(),
            FrameEvent::Half => {
                self.clock_quarter_frame();
                self.clock_half_frame();
            },
            FrameEvent::Idle => {},
        }
    }

    fn tick_timers(&mut self, on_apu_cycle: bool)
        requires
            old(self).wf(),
        ensures
            *final(self) == old(self).timers_ticked(on_apu_cycle),
            final(self).wf(),
    {
        self.triangle.tick_timer();
        self.noise.tick_timer();
        self.dmc.tick_timer();
        if on_apu_cycle {
            self.pulse1.tick_timer();
            self.pulse2.tick_timer();
        }
    }

    fn read_levels(&self) -> (r: ChannelLevels)
        requires
            self.wf(),
        ensures
            r == self.levels(),
    {
        ChannelLevels {
            pulse1: self.pulse1.output(),
            pulse2: self.pulse2.output(),
            triangle: self.triangle.output(),
            noise: self.noise.output(),
            dmc: self.dmc.output(),
        }
    }
}

/// The APU: channels, cycle counter, sampler and write log. Over a `Vec` of
/// samples and one of writes the APU itself, over `Seq`s its model.
pub struct NesAPU<S = Vec<ChannelLevels>, L = Vec<(u16, u8)>> {
    pub channels: Channels,
    // Total CPU cycles ticked. The pulse timers and the $4017 write delay
    // depend on APU-cycle (CPU/2) parity.
    pub cycles: usize,
    pub sampler: Sampler<S>,
    // When set, every register write is noted as (address, value), for the
    // host to print.
    pub trace_writes: bool,
    pub register_writes: L,
}

pub type ApuModel = NesAPU<Seq<ChannelLevels>, Seq<(u16, u8)>>;

impl View for NesAPU<Vec<ChannelLevels>> {
    type V = ApuModel;

    open spec fn view(&self) -> ApuModel {
        NesAPU {
            channels: self.channels,
            cycles: self.cycles,
            sampler: self.sampler@,
            trace_writes: self.trace_writes,
            register_writes: self.register_writes@,
        }
    }
}

/// The APU at power-on: quiet, and tracing nothing.
pub open spec fn apu_power_on() -> ApuModel {
    NesAPU {
        channels: Channels::initial(),
        cycles: 0,
        sampler: sampler::idle_sampler(DEFAULT_SAMPLE_RATE),
        trace_writes: false,
        register_writes: Seq::empty(),
    }
}

/// The APU one CPU cycle on.
#[verifier::opaque]
pub open spec fn apu_cycle(a: ApuModel) -> ApuModel {
    let cycles = if a.cycles == usize::MAX {
        0
    } else {
        (a.cycles + 1) as usize
    };
    let channels = a.channels.frame_ticked().timers_ticked(cycles % 2 == 0);
    NesAPU { channels, cycles, sampler: sampler::sampled(a.sampler, channels.levels()), ..a }
}

/// The APU `n` CPU cycles on.
pub open spec fn apu_cycles(a: ApuModel, n: nat) -> ApuModel
    decreases n,
{
    if n == 0 {
        a
    } else {
        apu_cycle(apu_cycles(a, (n - 1) as nat))
    }
}

/// Whether a write in this cycle lands on an APU cycle.
pub open spec fn on_apu_cycle(a: ApuModel) -> bool {
    a.cycles % 2 == 0
}

/// The APU after a register write, which a traced APU notes.
#[verifier::opaque]
pub open spec fn apu_written(a: ApuModel, addr: u16, data: u8) -> ApuModel {
    NesAPU {
        channels: a.channels.written(addr, data, on_apu_cycle(a)),
        register_writes: if a.trace_writes {
            a.register_writes.push((addr, data))
        } else {
            a.register_writes
        },
        ..a
    }
}

/// Reading $4015 clears the frame interrupt flag but not the DMC's.
pub open spec fn apu_status_read(a: ApuModel) -> ApuModel {
    NesAPU {
        channels: Channels {
            frame_counter: FrameCounter { frame_irq: false, ..a.channels.frame_counter },
            ..a.channels
        },
        ..a
    }
}

pub open spec fn apu_dmc_loaded(a: ApuModel, value: u8) -> ApuModel {
    NesAPU { channels: Channels { dmc: a.channels.dmc.loaded(value), ..a.channels }, ..a }
}

impl NesAPU<Vec<ChannelLevels>> {
    pub fn new() -> (r: Self)
        ensures
            r@ == apu_power_on(),
            r.channels.wf(),
    {
        NesAPU {
            channels: Channels::new(),
            cycles: 0,
            sampler: Sampler::new(DEFAULT_SAMPLE_RATE),
            trace_writes: false,
            register_writes: Vec::new(),
        }
    }

    /// Call before running if the host audio device didn't open at 48 kHz.
    pub fn set_sample_rate(&mut self, sample_rate: u32)
        ensures
            final(self)@ == (NesAPU {
                sampler: sampler::retuned(old(self)@.sampler, sample_rate),
                ..old(self)@
            }),
    {
        self.sampler.set_sample_rate(sample_rate);
    }

    pub fn write_register(&mut self, addr: u16, data: u8)
        requires
            is_apu_register(addr),
        ensures
            final(self)@ == apu_written(old(self)@, addr, data),
            old(self).channels.wf() ==> final(self).channels.wf(),
    {
        proof {
            reveal(apu_written);
        }
        if self.trace_writes {
            self.register_writes.push((addr, data));
        }
        let even = self.cycles % 2 == 0;
        self.channels.write(addr, data, even);
    }

    /// Hands the noted register writes to the caller, oldest first.
    pub fn take_register_writes(&mut self) -> (r: Vec<(u16, u8)>)
        ensures
            r@ == old(self)@.register_writes,
            final(self)@ == (NesAPU { register_writes: Seq::empty(), ..old(self)@ }),
    {
        let mut writes: Vec<(u16, u8)> = Vec::new();
        std::mem::swap(&mut writes, &mut self.register_writes);
        writes
    }

    /// $4015 read (IF-D NT21; bit 5 is open bus, returned as 0).
    pub fn read_status(&mut self) -> (r: u8)
        ensures
            r == old(self).channels.status(),
            final(self)@ == apu_status_read(old(self)@),
            old(self).channels.wf() ==> final(self).channels.wf(),
    {
        let c = &self.channels;
        let result: u8 = (if c.pulse1.length.active() { 0x01u8 } else { 0 })
            | (if c.pulse2.length.active() { 0x02u8 } else { 0 })
            | (if c.triangle.length.active() { 0x04u8 } else { 0 })
            | (if c.noise.length.active() { 0x08u8 } else { 0 })
            | (if c.dmc.reader.bytes_remaining > 0 { 0x10u8 } else { 0 })
            | (if c.frame_counter.frame_irq { 0x40u8 } else { 0 })
            | (if c.dmc.irq_flag { 0x80u8 } else { 0 });
        self.channels.frame_counter.clear_frame_irq();
        result
    }

    /// The IRQ line to the CPU. The handler acknowledges by reading $4015
    /// (frame) or writing $4015/$4010 (DMC).
    pub fn irq_pending(&self) -> (r: bool)
        ensures
            r == self.channels.irq(),
    {
        self.channels.frame_counter.frame_irq || self.channels.dmc.irq_flag
    }

    /// DMC memory reader handshake.
    pub fn dmc_dma_request(&self) -> (r: Option<u16>)
        ensures
            r == self.channels.dmc.request(),
    {
        self.channels.dmc.dma_request()
    }

    pub fn dmc_dma_request_kind(&self) -> (r: Option<DmcDmaRequestKind>)
        ensures
            r == self.channels.dmc.request_kind(),
    {
        self.channels.dmc.dma_request_kind()
    }

    pub fn dmc_dma_load(&mut self, value: u8)
        requires
            old(self).channels.dmc.reader.bytes_remaining > 0,
        ensures
            final(self)@ == apu_dmc_loaded(old(self)@, value),
            old(self).channels.wf() ==> final(self).channels.wf(),
    {
        self.channels.dmc.dma_load(value);
    }

    /// CPU cycles ticked since power-on.
    #[verifier::allow_in_spec]
    pub fn cycle_count(&self) -> usize
        returns
            self.cycles,
    {
        self.cycles
    }

    pub fn tick(&mut self, cycles: u8)
        requires
            old(self).channels.wf(),
        ensures
            final(self)@ == apu_cycles(old(self)@, cycles as nat),
            final(self).channels.wf(),
    {
        let mut done: u8 = 0;
        while done < cycles
            invariant
                done <= cycles,
                self.channels.wf(),
                self@ == apu_cycles(old(self)@, done as nat),
            decreases cycles - done,
        {
            self.tick_cycle();
            done += 1;
        }
    }

    fn tick_cycle(&mut self)
        requires
            old(self).channels.wf(),
        ensures
            final(self)@ == apu_cycle(old(self)@),
            final(self).channels.wf(),
    {
        proof {
            reveal(apu_cycle);
        }
        self.cycles = self.cycles.wrapping_add(1);
        self.channels.tick_frame_counter();
        self.channels.tick_timers(self.cycles % 2 == 0);
        let levels = self.channels.read_levels();
        self.sampler.sample(levels);
    }

    /// Hands the buffered samples to the caller.
    pub fn drain_samples(&mut self) -> (r: Vec<ChannelLevels>)
        ensures
            r@ == old(self)@.sampler.samples,
            final(self)@ == (NesAPU {
                sampler: Sampler { samples: Seq::empty(), ..old(self)@.sampler },
                ..old(self)@
            }),
    {
        self.sampler.drain_all()
    }

    /// Number of host samples waiting for delivery. Front ends use this to
    /// forward small chunks during a video frame.
    pub fn buffered_samples(&self) -> (r: usize)
        ensures
            r == self@.sampler.samples.len(),
    {
        self.sampler.samples.len()
    }

    /// Removes the oldest `count` samples while retaining any newer remainder.
    pub fn drain_sample_chunk(&mut self, count: usize) -> (r: Vec<ChannelLevels>)
        requires
            count <= old(self)@.sampler.samples.len(),
        ensures
            r@ == old(self)@.sampler.samples.take(count as int),
            final(self)@ == (NesAPU {
                sampler: Sampler {
                    samples: old(self)@.sampler.samples.skip(count as int),
                    ..old(self)@.sampler
                },
                ..old(self)@
            }),
    {
        self.sampler.drain(count)
    }

    pub fn duplicate(&self) -> (r: Self)
        ensures
            r@ == self@,
    {
        NesAPU {
            channels: self.channels,
            cycles: self.cycles,
            sampler: self.sampler.duplicate(),
            trace_writes: self.trace_writes,
            register_writes: copied_writes(&self.register_writes),
        }
    }
}

fn copied_writes(writes: &Vec<(u16, u8)>) -> (r: Vec<(u16, u8)>)
    ensures
        r@ == writes@,
{
    let mut copy: Vec<(u16, u8)> = Vec::with_capacity(writes.len());
    let mut i: usize = 0;
    while i < writes.len()
        invariant
            i <= writes@.len(),
            copy@ == writes@.take(i as int),
        decreases writes.len() - i,
    {
        copy.push(writes[i]);
        i += 1;
        assert(copy@ =~= writes@.take(i as int));
    }
    assert(copy@ =~= writes@);
    copy
}

/// A traced APU notes each register write behind those noted before, and time
/// alone notes nothing.
pub proof fn every_traced_write_is_noted(a: ApuModel, addr: u16, data: u8)
    ensures
        a.trace_writes ==> apu_written(a, addr, data).register_writes == a.register_writes.push(
            (addr, data),
        ),
        !a.trace_writes ==> apu_written(a, addr, data).register_writes == a.register_writes,
        apu_written(a, addr, data).trace_writes == a.trace_writes,
        apu_cycle(a).trace_writes == a.trace_writes,
        apu_cycle(a).register_writes == a.register_writes,
{
    reveal(apu_written);
    reveal(apu_cycle);
}

/// A DMC request stands through any number of cycles until it is served.
pub proof fn a_dmc_request_stands(a: ApuModel)
    requires
        a.channels.dmc.request() is Some,
    ensures
        apu_cycle(a).channels.dmc.request() == a.channels.dmc.request(),
{
    reveal(apu_cycle);
    dmc::a_request_stands_until_served(a.channels.dmc);
    assert(a.channels.frame_ticked().dmc == a.channels.dmc);
}

/// Draining in chunks yields the same samples, in the same order, as draining
/// at once.
pub proof fn chunks_join_to_the_whole(samples: Seq<ChannelLevels>, count: int)
    requires
        0 <= count <= samples.len(),
    ensures
        samples.take(count) + samples.skip(count) == samples,
{
    assert(samples.take(count) + samples.skip(count) =~= samples);
}

/// Where nothing drains them, recorded samples stop at the limit of one second.
pub proof fn recording_stops_at_its_limit(a: ApuModel, n: nat)
    requires
        a.sampler.samples.len() <= a.sampler.max_buffered_samples,
    ensures
        apu_cycles(a, n).sampler.samples.len() <= a.sampler.max_buffered_samples,
        apu_cycles(a, n).sampler.max_buffered_samples == a.sampler.max_buffered_samples,
        a.sampler.samples.is_prefix_of(apu_cycles(a, n).sampler.samples),
    decreases n,
{
    if n > 0 {
        recording_stops_at_its_limit(a, (n - 1) as nat);
        reveal(apu_cycle);
        assert(a.sampler.samples.is_prefix_of(apu_cycles(a, n).sampler.samples));
    }
}

} // verus!
