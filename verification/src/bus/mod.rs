//! The CPU-side bus: work RAM, the memory-mapped devices, the two DMA units and
//! the clock that all of them share.

use crate::apu::dmc::DmcDmaRequestKind;
use crate::apu::sampler::{ChannelLevels, Sampler};
use crate::apu::NesAPU;
use crate::bus::model::{
    AudioOutbox, BusModel, Clocked, DmaUnit, DmcDmaPhase, FrameHook, FrameMark, InterruptBatch,
    OamDmaPhase, OutboxModel, SnapshotModel, Transfer,
};
use crate::joypad::{latency_goes_on, Joypad};
use crate::mapper::board::{copied, zeroed};
use crate::mapper::Mapper;
use crate::ppu::model::{PpuModel, ProbeDiagnostics};
use crate::ppu::NesPPU;
use vstd::prelude::*;

pub mod collision;
pub mod console;
pub mod delivery;
pub mod laws;
pub mod map;
pub mod model;

verus! {

/// The machine around the CPU, with picture chip `P` and sound chip `A`.
pub struct Bus<P, A = NesAPU> {
    pub cpu_vram: Vec<u8>,
    pub ppu: P,
    pub apu: A,
    pub cycles: usize,
    pub dma: DmaUnit,
    pub audio: AudioOutbox,
    pub host_frame_ready: bool,
    pub hook: FrameHook,
    pub mark: FrameMark,
    pub joypad1: Joypad,
}

impl View for AudioOutbox<Vec<Vec<ChannelLevels>>> {
    type V = OutboxModel;

    open spec fn view(&self) -> OutboxModel {
        AudioOutbox {
            chunk_samples: self.chunk_samples,
            enabled: self.enabled,
            chunks: Seq::new(self.chunks@.len(), |i: int| self.chunks@[i]@),
        }
    }
}

impl<M: Mapper> View for Bus<NesPPU<M>> {
    type V = BusModel<M::Model>;

    open spec fn view(&self) -> BusModel<M::Model> {
        BusModel {
            cpu_vram: self.cpu_vram@,
            ppu: self.ppu@,
            apu: self.apu@,
            cycles: self.cycles,
            dma: self.dma,
            audio: self.audio@,
            host_frame_ready: self.host_frame_ready,
            hook: self.hook,
            mark: self.mark,
            joypad1: self.joypad1@,
        }
    }
}

impl InterruptBatch {
    pub fn new() -> (r: Self)
        ensures
            r == InterruptBatch::empty(),
    {
        InterruptBatch {
            cycles: 0,
            nmi_any: false,
            nmi_first: false,
            irq_first: false,
            irq_last: false,
        }
    }

    pub fn push(&mut self, nmi_edge: bool, irq_line: bool)
        ensures
            *final(self) == old(self).pushed(nmi_edge, irq_line),
    {
        if self.cycles == 0 {
            self.nmi_first = nmi_edge;
            self.irq_first = irq_line;
        }
        self.nmi_any = self.nmi_any || nmi_edge;
        self.irq_last = irq_line;
        self.cycles = self.cycles.saturating_add(1);
    }
}

impl<M: Mapper> Bus<NesPPU<M>> {
    /// A console with a mapper in its slot.
    pub fn with_mapper(mapper: M, chunk_samples: Option<usize>) -> (r: Self)
        ensures
            r@ == model::power_on(mapper.model(), chunk_samples),
            M::complete(mapper.model()) && chunk_samples != Some(0usize) ==> model::wf::<M>(r@),
    {
        proof {
            reveal(model::wf);
        }
        let bus = Bus {
            cpu_vram: zeroed(2048),
            ppu: NesPPU::new(mapper),
            apu: NesAPU::new(),
            cycles: 0,
            dma: DmaUnit {
                get_cycle: false,
                oam_page: None,
                dmc_ticks: 0,
                dmc_kind: None,
                holds_oe: false,
            },
            audio: AudioOutbox { chunk_samples, enabled: true, chunks: Vec::new() },
            host_frame_ready: false,
            hook: FrameHook { buttons: None, drains: false },
            mark: FrameMark {
                cycles: 0,
                chunks: 0,
                diagnostics: ProbeDiagnostics {
                    oam_dma_count: 0,
                    visible_register_writes: 0,
                    last_register: 0,
                    last_scanline: 0,
                    last_dot: 0,
                },
            },
            joypad1: Joypad::new(),
        };
        assert(bus.audio@.chunks =~= Seq::<Seq<ChannelLevels>>::empty());
        bus
    }

    fn read_port(&mut self, register: u16) -> (r: u8)
        requires
            model::wf::<M>(old(self)@),
        ensures
            r == model::port_read::<M>(old(self)@.ppu, register).1,
            final(self)@ == (BusModel {
                ppu: model::port_read::<M>(old(self)@.ppu, register).0,
                ..old(self)@
            }),
            latency_goes_on(old(self).joypad1, final(self).joypad1),
            model::wf::<M>(final(self)@),
    {
        proof {
            reveal(model::wf);
        }
        proof {
            reveal(model::port_read);
        }
        match register {
            2 => self.ppu.read_status(),
            4 => self.ppu.read_oam_data(),
            7 => self.ppu.read_data(),
            _ => self.ppu.read_io_data_bus(),
        }
    }

    fn write_port(&mut self, register: u16, data: u8)
        requires
            model::wf::<M>(old(self)@),
        ensures
            final(self)@ == (BusModel {
                ppu: model::port_written::<M>(old(self)@.ppu, register, data),
                ..old(self)@
            }),
            latency_goes_on(old(self).joypad1, final(self).joypad1),
            model::wf::<M>(final(self)@),
    {
        proof {
            reveal(model::wf);
        }
        proof {
            reveal(model::port_written);
        }
        match register {
            0 => self.ppu.write_to_ctrl(data),
            1 => self.ppu.write_to_mask(data),
            2 => self.ppu.write_to_status(data),
            3 => self.ppu.write_to_oam_addr(data),
            4 => self.ppu.write_to_oam_data(data),
            5 => self.ppu.write_to_scroll(data),
            6 => self.ppu.write_to_ppu_addr(data),
            _ => self.ppu.write_to_data(data),
        }
    }

    pub fn mem_read(&mut self, addr: u16) -> (r: u8)
        requires
            model::wf::<M>(old(self)@),
        ensures
            r == model::value_at::<M>(old(self)@, addr),
            final(self)@ == model::after_mem_read::<M>(old(self)@, addr),
            latency_goes_on(old(self).joypad1, final(self).joypad1),
            model::wf::<M>(final(self)@),
    {
        proof {
            reveal(model::wf);
        }
        if addr < 0x2000 {
            self.cpu_vram[(addr % 0x800) as usize]
        } else if addr < 0x4000 {
            self.read_port(addr % 8)
        } else if addr == 0x4015 {
            self.apu.read_status()
        } else if addr == 0x4016 {
            if self.dma.holds_oe {
                self.joypad1.peek()
            } else {
                self.joypad1.read()
            }
        } else if addr >= 0x6000 {
            self.ppu.cpu_read(addr)
        } else {
            0
        }
    }

    pub fn mem_write(&mut self, addr: u16, data: u8)
        requires
            model::wf::<M>(old(self)@),
        ensures
            final(self)@ == model::after_mem_write::<M>(old(self)@, addr, data),
            latency_goes_on(old(self).joypad1, final(self).joypad1),
            model::wf::<M>(final(self)@),
    {
        proof {
            reveal(model::wf);
        }
        if addr < 0x2000 {
            self.cpu_vram[(addr % 0x800) as usize] = data;
        } else if addr < 0x4000 {
            self.write_port(addr % 8, data);
        } else if addr == 0x4014 {
            self.dma.oam_page = Some(data);
        } else if addr == 0x4016 {
            self.joypad1.write(data);
        } else if addr <= 0x4017 {
            self.apu.write_register(addr, data);
        } else if addr >= 0x6000 {
            self.ppu.cpu_write(addr, data);
        }
    }

    // One physical CPU cycle. The PPU and APU advance, host-frame state is
    // retained, and interrupt lines are sampled before the following cycle.
    fn clock_cpu_cycle(&mut self, frame_ready: &mut bool, interrupt_samples: &mut InterruptBatch)
        requires
            model::wf::<M>(old(self)@),
        ensures
            gathered(final(self)@, *final(frame_ready), *final(interrupt_samples))
                == model::cycle_clocked::<M>(
                gathered(old(self)@, *old(frame_ready), *old(interrupt_samples)),
            ),
            latency_goes_on(old(self).joypad1, final(self).joypad1),
            model::wf::<M>(final(self)@),
    {
        self.advance_devices();
        proof {
            reveal(model::cycle_clocked);
            reveal(model::wf);
        }
        let ready = self.ppu.take_frame_ready();
        *frame_ready = *frame_ready || ready;
        let nmi_edge = self.ppu.poll_nmi_interrupt().is_some();
        let irq_line = self.poll_irq_status();
        interrupt_samples.push(nmi_edge, irq_line);
    }

    fn advance_devices(&mut self)
        requires
            model::wf::<M>(old(self)@),
        ensures
            final(self)@ == model::devices_advanced::<M>(old(self)@),
            latency_goes_on(old(self).joypad1, final(self).joypad1),
            model::wf::<M>(final(self)@),
    {
        proof {
            reveal(model::devices_advanced);
            reveal(model::wf);
            reveal_with_fuel(crate::apu::apu_cycles, 2);
        }
        self.cycles = self.cycles.wrapping_add(1);
        self.apu.tick(1);
        self.ppu.tick(3);
        self.dma.get_cycle = !self.dma.get_cycle;
    }

    /// The IRQ line seen by the CPU. Both sources are level-triggered and stay
    /// asserted until acknowledged: the APU (frame counter or DMC) and the
    /// mapper (a scanline counter).
    pub fn poll_irq_status(&self) -> (r: bool)
        ensures
            r == model::irq_line::<M>(self@),
    {
        self.apu.irq_pending() || self.ppu.mapper_irq()
    }

    // Reads the byte that the DMC asked for and hands it over.
    fn serve_dmc(&mut self)
        requires
            model::wf::<M>(old(self)@),
            old(self)@.apu.channels.dmc.request() is Some,
        ensures
            final(self)@ == model::dmc_served::<M>(old(self)@),
            latency_goes_on(old(self).joypad1, final(self).joypad1),
            model::wf::<M>(final(self)@),
    {
        proof {
            reveal(model::wf);
        }
        proof {
            reveal(model::dmc_served);
        }
        if let Some(addr) = self.apu.dmc_dma_request() {
            let value: u8 = self.mem_read(addr);
            self.apu.dmc_dma_load(value);
        }
    }

    // Perform one OAM DMA. The transfer is 512 alternating get (read) and put
    // (OAM write) cycles, preceded by a halt cycle and, when the DMA starts on
    // an odd CPU cycle, an alignment cycle. This reproduces the hardware
    // 513/514-cycle stall and places every read and write on its real CPU
    // cycle rather than copying the page atomically.
    fn run_oam_dma(
        &mut self,
        page: u8,
        frame_ready: &mut bool,
        interrupt_samples: &mut InterruptBatch,
    )
        requires
            model::wf::<M>(old(self)@),
        ensures
            gathered(final(self)@, *final(frame_ready), *final(interrupt_samples))
                == model::oam_dma_run::<M>(
                gathered(old(self)@, *old(frame_ready), *old(interrupt_samples)),
                page,
            ),
            latency_goes_on(old(self).joypad1, final(self).joypad1),
            model::wf::<M>(final(self)@),
    {
        proof {
            reveal(model::oam_dma_run);
        }
        self.ppu.note_oam_dma_start();
        assert(model::wf::<M>(self@)) by {
            reveal(model::wf);
        }
        let mut t = Transfer {
            page,
            oam: OamDmaPhase::Halt,
            dmc: DmcDmaPhase::Idle,
            offset: 0,
            latch: 0,
        };
        // Both DMA units advance on the same get/put cadence. DMC no-access
        // phases overlap OAM work; only the DMC get steals the bus. This makes
        // a middle collision cost two cycles, a collision on the penultimate
        // OAM put cost one, and one on the final put cost three.
        while t.oam != OamDmaPhase::Done || t.dmc != DmcDmaPhase::Idle
            invariant
                model::wf::<M>(self@),
                latency_goes_on(old(self).joypad1, self.joypad1),
                t.wf(),
                t.dmc != DmcDmaPhase::Idle ==> self@.apu.channels.dmc.request() is Some,
                model::transfer_run::<M>(gathered(self@, *frame_ready, *interrupt_samples), t)
                    == model::oam_dma_run::<M>(
                    gathered(old(self)@, *old(frame_ready), *old(interrupt_samples)),
                    page,
                ),
            decreases t.work(), t.wait(self.dma.get_cycle),
        {
            let ghost before = gathered(self@, *frame_ready, *interrupt_samples);
            let ghost resting = t;
            let requested = self.apu.dmc_dma_request().is_some();
            if t.dmc == DmcDmaPhase::Idle && requested {
                t.dmc = DmcDmaPhase::Halt;
            }
            proof {
                model::a_transfer_runs_cycle_by_cycle::<M>(before, resting, t);
            }
            t = self.clock_transfer(t, frame_ready, interrupt_samples);
        }
    }

    // The bus access of one transfer cycle; gives the byte of the page that it
    // read, if any.
    fn access_transfer(&mut self, t: Transfer) -> (r: u8)
        requires
            model::wf::<M>(old(self)@),
            t.wf(),
            t.dmc != DmcDmaPhase::Idle ==> old(self)@.apu.channels.dmc.request() is Some,
        ensures
            final(self)@ == model::transfer_access::<M>(old(self)@, t),
            t.oam_reads(old(self)@.dma.get_cycle) ==> r == model::value_at::<M>(
                old(self)@,
                t.source(),
            ),
            latency_goes_on(old(self).joypad1, final(self).joypad1),
            model::wf::<M>(final(self)@),
    {
        proof {
            reveal(model::wf);
        }
        let get_cycle = self.dma.get_cycle;
        if t.dmc == DmcDmaPhase::Get && get_cycle {
            self.serve_dmc();
        } else if t.oam == OamDmaPhase::Get && get_cycle {
            return self.mem_read(t.page as u16 * 256 + t.offset);
        } else if t.oam == OamDmaPhase::Put && !get_cycle {
            self.ppu.oam_dma_write(t.latch);
        }
        0
    }

    // One cycle of a transfer.
    fn clock_transfer(
        &mut self,
        t: Transfer,
        frame_ready: &mut bool,
        interrupt_samples: &mut InterruptBatch,
    ) -> (r: Transfer)
        requires
            model::wf::<M>(old(self)@),
            t.wf(),
            t.dmc != DmcDmaPhase::Idle ==> old(self)@.apu.channels.dmc.request() is Some,
        ensures
            ({
                let before = gathered(old(self)@, *old(frame_ready), *old(interrupt_samples));
                &&& gathered(final(self)@, *final(frame_ready), *final(interrupt_samples))
                    == model::transfer_clocked::<M>(before, t)
                &&& r == model::transfer_next::<M>(before, t)
            }),
            latency_goes_on(old(self).joypad1, final(self).joypad1),
            model::wf::<M>(final(self)@),
    {
        proof {
            reveal(model::transfer_clocked);
            reveal(model::transfer_next);
        }
        let get_cycle = self.dma.get_cycle;
        let value: u8 = self.access_transfer(t);
        self.clock_cpu_cycle(frame_ready, interrupt_samples);
        t.step(get_cycle, value)
    }

    // A number of physical CPU cycles.
    fn clock_cpu_cycles(
        &mut self,
        cycles: u8,
        frame_ready: &mut bool,
        interrupt_samples: &mut InterruptBatch,
    )
        requires
            model::wf::<M>(old(self)@),
        ensures
            gathered(final(self)@, *final(frame_ready), *final(interrupt_samples))
                == model::cycles_clocked::<M>(
                gathered(old(self)@, *old(frame_ready), *old(interrupt_samples)),
                cycles as nat,
            ),
            latency_goes_on(old(self).joypad1, final(self).joypad1),
            model::wf::<M>(final(self)@),
    {
        let mut done: u8 = 0;
        while done < cycles
            invariant
                done <= cycles,
                model::wf::<M>(self@),
                latency_goes_on(old(self).joypad1, self.joypad1),
                gathered(self@, *frame_ready, *interrupt_samples) == model::cycles_clocked::<M>(
                    gathered(old(self)@, *old(frame_ready), *old(interrupt_samples)),
                    done as nat,
                ),
            decreases cycles - done,
        {
            self.clock_cpu_cycle(frame_ready, interrupt_samples);
            done += 1;
        }
    }

    // Service a pending DMC sample fetch: RDY halts the CPU for four cycles.
    // The core applies the externally visible repeats of its held read address
    // separately, at the following read slot; this routine advances the three
    // non-get cycles and the DMC get itself.
    fn run_dmc_dma(&mut self, frame_ready: &mut bool, interrupt_samples: &mut InterruptBatch)
        requires
            model::wf::<M>(old(self)@),
        ensures
            gathered(final(self)@, *final(frame_ready), *final(interrupt_samples))
                == model::dmc_dma_run::<M>(
                gathered(old(self)@, *old(frame_ready), *old(interrupt_samples)),
            ),
            latency_goes_on(old(self).joypad1, final(self).joypad1),
            model::wf::<M>(final(self)@),
    {
        proof {
            reveal(model::dmc_dma_run);
        }
        if self.apu.dmc_dma_request().is_none() {
            return ;
        }
        let idle = DmaUnit { dmc_ticks: 0, dmc_kind: None, ..self.dma };
        self.set_dma(idle);
        proof {
            model::a_request_stands_for_cycles::<M>(
                gathered(self@, *frame_ready, *interrupt_samples),
                3,
            );
        }
        self.clock_cpu_cycles(3, frame_ready, interrupt_samples);
        self.serve_dmc();
        self.clock_cpu_cycle(frame_ready, interrupt_samples);
    }

    fn deliver_audio_chunks(&mut self)
        requires
            model::wf::<M>(old(self)@),
        ensures
            final(self)@ == model::audio_delivered(old(self)@),
            latency_goes_on(old(self).joypad1, final(self).joypad1),
            model::wf::<M>(final(self)@),
    {
        proof {
            reveal(model::wf);
        }
        proof {
            reveal(model::audio_delivered);
        }
        let size: usize = match self.audio.chunk_samples {
            Some(size) => size,
            None => {
                return ;
            },
        };
        if !self.audio.enabled {
            return ;
        }
        while self.apu.buffered_samples() >= size
            invariant
                size > 0,
                self.audio.chunk_samples == Some(size),
                model::wf::<M>(self@),
                latency_goes_on(old(self).joypad1, self.joypad1),
                self@ == (BusModel { apu: self@.apu, audio: self@.audio, ..old(self)@ }),
                self@.audio == (AudioOutbox { chunks: self@.audio.chunks, ..old(self)@.audio }),
                self@.apu == (NesAPU {
                    sampler: Sampler {
                        samples: self@.apu.sampler.samples,
                        ..old(self)@.apu.sampler
                    },
                    ..old(self)@.apu
                }),
                model::chunks_delivered(
                    self@.apu.sampler.samples,
                    self@.audio.chunks,
                    size as int,
                ) == model::chunks_delivered(
                    old(self)@.apu.sampler.samples,
                    old(self)@.audio.chunks,
                    size as int,
                ),
            decreases self@.apu.sampler.samples.len(),
        {
            let ghost chunks = self@.audio.chunks;
            proof {
                reveal(model::wf);
            }
            let samples = self.apu.drain_sample_chunk(size);
            let ghost chunk = samples@;
            self.audio.chunks.push(samples);
            assert(self@.audio.chunks =~= chunks.push(chunk));
        }
    }

    /// Runs the console for a number of CPU cycles, plus those of any DMA that
    /// they trigger.
    pub fn tick(&mut self, cycles: u8) -> (r: InterruptBatch)
        requires
            model::wf::<M>(old(self)@),
        ensures
            final(self)@ == model::ticked::<M>(old(self)@, cycles as nat),
            r == model::tick_samples::<M>(old(self)@, cycles as nat),
            latency_goes_on(old(self).joypad1, final(self).joypad1),
            model::wf::<M>(final(self)@),
    {
        proof {
            reveal(model::ticked);
            reveal(model::tick_samples);
        }
        let mut interrupt_samples = InterruptBatch::new();
        let mut frame_ready = false;
        self.run_tick(cycles, &mut frame_ready, &mut interrupt_samples);
        self.end_tick(frame_ready, interrupt_samples);
        interrupt_samples
    }

    fn run_tick(
        &mut self,
        cycles: u8,
        frame_ready: &mut bool,
        interrupt_samples: &mut InterruptBatch,
    )
        requires
            model::wf::<M>(old(self)@),
            !*old(frame_ready),
            *old(interrupt_samples) == InterruptBatch::empty(),
        ensures
            gathered(final(self)@, *final(frame_ready), *final(interrupt_samples))
                == model::tick_run::<M>(old(self)@, cycles as nat),
            latency_goes_on(old(self).joypad1, final(self).joypad1),
            model::wf::<M>(final(self)@),
    {
        proof {
            reveal(model::tick_run);
        }
        self.clock_cpu_cycles(cycles, frame_ready, interrupt_samples);
        // Deferring the transfer to the tick after the $4014 write means the
        // halt begins at the following CPU-cycle boundary, and the modeled
        // get/put cycles keep the PPU and APU running throughout.
        self.run_scheduled_dma(frame_ready, interrupt_samples);
        self.count_dmc_wait(frame_ready, interrupt_samples);
    }

    fn end_tick(&mut self, frame_ready: bool, interrupt_samples: InterruptBatch)
        requires
            model::wf::<M>(old(self)@),
        ensures
            final(self)@ == model::tick_ended(
                gathered(old(self)@, frame_ready, interrupt_samples),
            ),
            latency_goes_on(old(self).joypad1, final(self).joypad1),
            model::wf::<M>(final(self)@),
    {
        proof {
            reveal(model::tick_ended);
        }
        self.deliver_audio_chunks();
        self.announce_frame(frame_ready);
    }

    // Presentation, input sampling and audio delivery happen at the start of
    // vblank, whether or not the interrupt is enabled, so that no transition
    // with it disabled skips a host frame or piles up audio.
    fn announce_frame(&mut self, frame_ready: bool)
        requires
            model::wf::<M>(old(self)@),
        ensures
            final(self)@ == model::frame_announced(old(self)@, frame_ready),
            latency_goes_on(old(self).joypad1, final(self).joypad1),
            model::wf::<M>(final(self)@),
    {
        proof {
            reveal(model::wf);
        }
        if frame_ready {
            self.host_frame_ready = true;
            if let Some(buttons) = self.hook.buttons {
                self.joypad1.hold(buttons);
            }
            if self.hook.drains && self.audio.enabled {
                self.drain_remainder();
            }
            self.mark = FrameMark {
                cycles: self.apu.cycle_count(),
                chunks: self.audio.chunks.len(),
                diagnostics: self.ppu.probe_diagnostics(),
            };
        }
    }

    fn drain_remainder(&mut self)
        requires
            old(self).hook.drains,
            old(self).audio.enabled,
        ensures
            final(self)@ == model::remainder_drained(old(self)@),
            final(self).joypad1 == old(self).joypad1,
    {
        let ghost chunks = self@.audio.chunks;
        let samples = self.apu.drain_samples();
        let ghost chunk = samples@;
        self.audio.chunks.push(samples);
        assert(self@.audio.chunks =~= chunks.push(chunk));
    }

    /// Sets what is done at the start of every vblank from now on.
    pub fn set_frame_hook(&mut self, hook: FrameHook)
        ensures
            final(self)@ == (BusModel { hook, ..old(self)@ }),
            final(self).joypad1 == old(self).joypad1,
            model::wf::<M>(old(self)@) ==> model::wf::<M>(final(self)@),
    {
        proof {
            reveal(model::wf);
        }
        self.hook = hook;
    }

    /// The machine's figures at the start of the last vblank.
    pub fn frame_mark(&self) -> (r: FrameMark)
        ensures
            r == self@.mark,
    {
        self.mark
    }

    fn run_scheduled_dma(&mut self, frame_ready: &mut bool, interrupt_samples: &mut InterruptBatch)
        requires
            model::wf::<M>(old(self)@),
        ensures
            gathered(final(self)@, *final(frame_ready), *final(interrupt_samples))
                == model::scheduled_dma_run::<M>(
                gathered(old(self)@, *old(frame_ready), *old(interrupt_samples)),
            ),
            latency_goes_on(old(self).joypad1, final(self).joypad1),
            model::wf::<M>(final(self)@),
    {
        proof {
            reveal(model::scheduled_dma_run);
        }
        if let Some(page) = self.dma.oam_page {
            let taken = DmaUnit { oam_page: None, ..self.dma };
            self.set_dma(taken);
            self.run_oam_dma(page, frame_ready, interrupt_samples);
        }
    }

    fn set_dma(&mut self, dma: DmaUnit)
        requires
            model::wf::<M>(old(self)@),
        ensures
            final(self)@ == (BusModel { dma, ..old(self)@ }),
            latency_goes_on(old(self).joypad1, final(self).joypad1),
            model::wf::<M>(final(self)@),
    {
        proof {
            reveal(model::wf);
        }
        self.dma = dma;
    }

    // The fallback that keeps a request from being dropped across a stretch
    // where the current instruction exposes no modeled read slot.
    fn count_dmc_wait(&mut self, frame_ready: &mut bool, interrupt_samples: &mut InterruptBatch)
        requires
            model::wf::<M>(old(self)@),
        ensures
            gathered(final(self)@, *final(frame_ready), *final(interrupt_samples))
                == model::dmc_waited::<M>(
                gathered(old(self)@, *old(frame_ready), *old(interrupt_samples)),
            ),
            latency_goes_on(old(self).joypad1, final(self).joypad1),
            model::wf::<M>(final(self)@),
    {
        proof {
            reveal(model::dmc_waited);
        }
        if let Some(kind) = self.apu.dmc_dma_request_kind() {
            let counted = DmaUnit {
                dmc_kind: if self.dma.dmc_kind.is_none() {
                    Some(kind)
                } else {
                    self.dma.dmc_kind
                },
                dmc_ticks: self.dma.dmc_ticks.saturating_add(1),
                ..self.dma
            };
            self.set_dma(counted);
            if counted.dmc_ticks >= 3 {
                self.run_dmc_dma(frame_ready, interrupt_samples);
            }
        } else {
            let idle = DmaUnit { dmc_ticks: 0, dmc_kind: None, ..self.dma };
            self.set_dma(idle);
        }
    }

    /// Starts the pending DMA at its scheduled cycle, but leaves the CPU-side
    /// repeated read for the core's next read slot. RDY is sampled between core
    /// bus slots, so the address presented by the next slot is the one held
    /// throughout the halt.
    pub fn dmc_halt_before_next_read(&mut self) -> (r: Option<InterruptBatch>)
        requires
            model::wf::<M>(old(self)@),
        ensures
            r == if old(self)@.apu.channels.dmc.request_kind() is None {
                None
            } else {
                Some(model::dmc_halt_samples::<M>(old(self)@))
            },
            final(self)@ == model::dmc_halted::<M>(old(self)@),
            latency_goes_on(old(self).joypad1, final(self).joypad1),
            model::wf::<M>(final(self)@),
    {
        proof {
            reveal(model::dmc_halted);
            reveal(model::dmc_dma_run);
            reveal(model::dmc_halt_samples);
        }
        if self.apu.dmc_dma_request_kind().is_none() {
            return None;
        }
        let mut frame_ready = false;
        let mut interrupt_samples = InterruptBatch::new();
        self.run_dmc_dma(&mut frame_ready, &mut interrupt_samples);
        self.announce_frame(frame_ready);
        Some(interrupt_samples)
    }

    // One repeat of the CPU's held read.
    fn repeat_read(&mut self, addr: u16, holds_oe: bool)
        requires
            model::wf::<M>(old(self)@),
        ensures
            final(self)@ == model::with_oe(
                model::after_mem_read::<M>(model::with_oe(old(self)@, holds_oe), addr),
                false,
            ),
            latency_goes_on(old(self).joypad1, final(self).joypad1),
            model::wf::<M>(final(self)@),
    {
        proof {
            reveal(model::wf);
        }
        self.dma.holds_oe = holds_oe;
        let _ = self.mem_read(addr);
        self.dma.holds_oe = false;
    }

    /// Drives the CPU's held read address on the three non-get DMA cycles. The
    /// elapsed cycles were accounted for when the DMA was serviced; this method
    /// applies only the externally visible register-read side effects.
    pub fn repeat_dmc_halted_read(&mut self, addr: u16)
        requires
            model::wf::<M>(old(self)@),
        ensures
            final(self)@ == model::read_repeated::<M>(old(self)@, addr),
            latency_goes_on(old(self).joypad1, final(self).joypad1),
            model::wf::<M>(final(self)@),
    {
        proof {
            reveal(model::read_repeated);
        }
        self.repeat_read(addr, false);
        self.repeat_read(addr, true);
        self.repeat_read(addr, true);
    }

    /// Consumes the host's frame event.
    pub fn take_host_frame_ready(&mut self) -> (r: bool)
        requires
            model::wf::<M>(old(self)@),
        ensures
            r == old(self)@.host_frame_ready,
            final(self)@ == (BusModel { host_frame_ready: false, ..old(self)@ }),
            latency_goes_on(old(self).joypad1, final(self).joypad1),
            model::wf::<M>(final(self)@),
    {
        proof {
            reveal(model::wf);
        }
        let ready = self.host_frame_ready;
        self.host_frame_ready = false;
        ready
    }

    /// Whether the host's frame event stands.
    pub fn has_host_frame_ready(&self) -> (r: bool)
        ensures
            r == self@.host_frame_ready,
    {
        self.host_frame_ready
    }

    /// Hands the audio chunks completed so far to the caller, oldest first.
    pub fn take_audio_chunks(&mut self) -> (r: Vec<Vec<ChannelLevels>>)
        requires
            model::wf::<M>(old(self)@),
        ensures
            r@.len() == old(self)@.audio.chunks.len(),
            forall|i: int| 0 <= i < r@.len() ==> #[trigger] r@[i]@ == old(self)@.audio.chunks[i],
            final(self)@ == (BusModel {
                audio: AudioOutbox { chunks: Seq::empty(), ..old(self)@.audio },
                ..old(self)@
            }),
            latency_goes_on(old(self).joypad1, final(self).joypad1),
            model::wf::<M>(final(self)@),
    {
        proof {
            reveal(model::wf);
        }
        let mut chunks: Vec<Vec<ChannelLevels>> = Vec::new();
        std::mem::swap(&mut chunks, &mut self.audio.chunks);
        assert(self@.audio.chunks =~= Seq::<Seq<ChannelLevels>>::empty());
        chunks
    }

    pub fn ppu(&self) -> (r: &NesPPU<M>)
        ensures
            r@ == self@.ppu,
    {
        &self.ppu
    }

    pub fn joypad_mut(&mut self) -> (r: &mut Joypad)
        ensures
            r@ == old(self)@.joypad1,
            *r == old(self).joypad1,
            final(self).joypad1 == *final(r),
            final(self)@ == (BusModel { joypad1: final(r)@, ..old(self)@ }),
            model::wf::<M>(old(self)@) && final(r)@.wf() ==> model::wf::<M>(final(self)@),
    {
        proof {
            reveal(model::wf);
        }
        &mut self.joypad1
    }

    pub fn joypad(&self) -> (r: &Joypad)
        ensures
            r@ == self@.joypad1,
            *r == self.joypad1,
    {
        &self.joypad1
    }

    pub fn set_audio_delivery_enabled(&mut self, enabled: bool)
        ensures
            final(self)@ == (BusModel {
                audio: AudioOutbox { enabled, ..old(self)@.audio },
                ..old(self)@
            }),
            final(self).joypad1 == old(self).joypad1,
            model::wf::<M>(old(self)@) ==> model::wf::<M>(final(self)@),
    {
        proof {
            reveal(model::wf);
        }
        self.audio.enabled = enabled;
    }

    /// An independent copy of the emulated state.
    pub fn snapshot(&self) -> (r: BusSnapshot<M>)
        ensures
            r@ == model::snapshot_of(self@),
            r.joypad1 == self.joypad1,
            model::wf::<M>(self@) ==> model::snapshot_wf::<M>(r@),
    {
        proof {
            reveal(model::wf);
        }
        BusSnapshot {
            cpu_vram: copied(&self.cpu_vram),
            ppu: self.ppu.duplicate(),
            apu: self.apu.duplicate(),
            cycles: self.cycles,
            dma: self.dma,
            audio_enabled: self.audio.enabled,
            host_frame_ready: self.host_frame_ready,
            mark: self.mark,
            joypad1: self.joypad1.duplicate(),
        }
    }

    /// Puts a snapshot back.
    pub fn restore(&mut self, snapshot: BusSnapshot<M>)
        requires
            model::wf::<M>(old(self)@),
            model::snapshot_wf::<M>(snapshot@),
        ensures
            final(self)@ == model::restored(old(self)@, snapshot@),
            final(self).joypad1 == snapshot.joypad1,
            model::wf::<M>(final(self)@),
    {
        proof {
            reveal(model::wf);
        }
        self.cpu_vram = snapshot.cpu_vram;
        self.ppu = snapshot.ppu;
        let writes = self.apu.take_register_writes();
        self.apu = snapshot.apu;
        self.apu.register_writes = writes;
        self.cycles = snapshot.cycles;
        self.dma = DmaUnit { holds_oe: self.dma.holds_oe, ..snapshot.dma };
        self.audio.enabled = snapshot.audio_enabled;
        self.host_frame_ready = snapshot.host_frame_ready;
        self.mark = snapshot.mark;
        self.joypad1 = snapshot.joypad1;
    }

    pub fn poll_nmi_status(&mut self) -> (r: Option<u8>)
        requires
            model::wf::<M>(old(self)@),
        ensures
            r == old(self)@.ppu.nmi.visible(old(self)@.ppu.raster.total_dots),
            final(self)@ == (BusModel {
                ppu: PpuModel {
                    nmi: old(self)@.ppu.nmi.polled(old(self)@.ppu.raster.total_dots),
                    ..old(self)@.ppu
                },
                ..old(self)@
            }),
            latency_goes_on(old(self).joypad1, final(self).joypad1),
            model::wf::<M>(final(self)@),
    {
        proof {
            reveal(model::wf);
        }
        self.ppu.poll_nmi_interrupt()
    }

    /// Physical CPU cycles since power-on, DMA included.
    pub fn cpu_cycles(&self) -> (r: usize)
        ensures
            r == self@.cycles,
    {
        self.cycles
    }

    /// The DMC's standing request, if any.
    pub fn dmc_request_kind(&self) -> (r: Option<DmcDmaRequestKind>)
        ensures
            r == self@.apu.channels.dmc.request_kind(),
    {
        self.apu.dmc_dma_request_kind()
    }
}

/// The emulated state at one moment.
pub struct BusSnapshot<M: Mapper> {
    pub cpu_vram: Vec<u8>,
    pub ppu: NesPPU<M>,
    pub apu: NesAPU,
    pub cycles: usize,
    pub dma: DmaUnit,
    pub audio_enabled: bool,
    pub host_frame_ready: bool,
    pub mark: FrameMark,
    pub joypad1: Joypad,
}

impl<M: Mapper> View for BusSnapshot<M> {
    type V = SnapshotModel<M::Model>;

    open spec fn view(&self) -> SnapshotModel<M::Model> {
        SnapshotModel {
            cpu_vram: self.cpu_vram@,
            ppu: self.ppu@,
            apu: self.apu@,
            cycles: self.cycles,
            dma: self.dma,
            audio_enabled: self.audio_enabled,
            host_frame_ready: self.host_frame_ready,
            mark: self.mark,
            joypad1: self.joypad1@,
        }
    }
}

/// A tick's state so far, put together from its three parts.
pub open spec fn gathered<V>(bus: BusModel<V>, ready: bool, samples: InterruptBatch) -> Clocked<V> {
    Clocked { bus, ready, samples }
}

impl Transfer {
    // Halt and alignment are phase-selection cycles: they go by the phase of
    // the next physical cycle.
    fn step(self, get_cycle: bool, value: u8) -> (r: Transfer)
        requires
            self.wf(),
        ensures
            r == self.stepped(get_cycle, value),
    {
        let mut t = self;
        if self.oam == OamDmaPhase::Halt {
            t.oam = if get_cycle { OamDmaPhase::Align } else { OamDmaPhase::Get };
        } else if self.oam == OamDmaPhase::Align {
            t.oam = OamDmaPhase::Get;
        } else if self.oam == OamDmaPhase::Get {
            if get_cycle && self.dmc != DmcDmaPhase::Get {
                t.latch = value;
                t.oam = OamDmaPhase::Put;
            }
        } else if self.oam == OamDmaPhase::Put && !get_cycle {
            t.offset = self.offset + 1;
            t.oam = if self.offset == 255 { OamDmaPhase::Done } else { OamDmaPhase::Get };
        }
        t.dmc = match self.dmc {
            DmcDmaPhase::Idle => DmcDmaPhase::Idle,
            DmcDmaPhase::Halt => DmcDmaPhase::Dummy,
            DmcDmaPhase::Dummy => if get_cycle { DmcDmaPhase::Align } else { DmcDmaPhase::Get },
            DmcDmaPhase::Align => DmcDmaPhase::Get,
            DmcDmaPhase::Get => if get_cycle { DmcDmaPhase::Idle } else { DmcDmaPhase::Get },
        };
        t
    }
}

} // verus!
