//! What the CPU-side bus does, as functions from the machine's state to its
//! next state.

use crate::apu::dmc::DmcDmaRequestKind;
use crate::apu::sampler::{ChannelLevels, Sampler};
use crate::apu::{
    a_dmc_request_stands, apu_cycle, apu_dmc_loaded, apu_power_on, apu_status_read, apu_written,
    is_apu_register, ApuModel, NesAPU,
};
use crate::joypad::JoypadModel;
use crate::mapper::board::zeroes;
use crate::mapper::Mapper;
use crate::ppu::model as ppu_model;
use crate::ppu::model::{PpuModel, ProbeDiagnostics};
use crate::ppu::raster::NmiLine;
use vstd::prelude::*;

verus! {

/// Interrupt lines as observed at the end of one physical CPU cycle.
///
/// A single core cycle can contain hundreds of additional cycles while DMA
/// owns the bus. This compact batch preserves edges and the first/final line
/// levels. Halted DMA cycles update live lines but do not advance the CPU's
/// instruction poll pipeline.
#[derive(Clone, Copy, Debug, PartialEq, Eq, Structural)]
pub struct InterruptBatch {
    pub cycles: u16,
    pub nmi_any: bool,
    pub nmi_first: bool,
    pub irq_first: bool,
    pub irq_last: bool,
}

impl InterruptBatch {
    pub open spec fn empty() -> InterruptBatch {
        InterruptBatch {
            cycles: 0,
            nmi_any: false,
            nmi_first: false,
            irq_first: false,
            irq_last: false,
        }
    }

    /// One more cycle observed.
    pub open spec fn pushed(self, nmi_edge: bool, irq_line: bool) -> InterruptBatch {
        InterruptBatch {
            cycles: if self.cycles == u16::MAX {
                u16::MAX
            } else {
                (self.cycles + 1) as u16
            },
            nmi_any: self.nmi_any || nmi_edge,
            nmi_first: if self.cycles == 0 {
                nmi_edge
            } else {
                self.nmi_first
            },
            irq_first: if self.cycles == 0 {
                irq_line
            } else {
                self.irq_first
            },
            irq_last: irq_line,
        }
    }
}

/// The two DMA units' shared state.
#[derive(Clone, Copy, Debug, PartialEq, Eq, Structural)]
pub struct DmaUnit {
    // DMA reads are allowed only on get cycles; writes occur on put cycles.
    // The phase is independent state in the hardware (its relationship to CPU
    // cycle parity is random at power-on); this is one deterministic alignment.
    pub get_cycle: bool,
    // Page selected by the last $4014 write, consumed on the next tick so the
    // 513/514-cycle stall begins at the following CPU-cycle boundary.
    pub oam_page: Option<u8>,
    // Cycles a DMC sample fetch has been waiting without a read cycle to steal.
    pub dmc_ticks: u8,
    // Whether the pending fetch is the initial load or a buffer reload.
    pub dmc_kind: Option<DmcDmaRequestKind>,
    // True while a DMC halt is repeating a $4016 read after the first repeat,
    // holding the controller's /OE asserted so its register does not clock.
    pub holds_oe: bool,
}

/// Completed audio chunks waiting for the host. `Q` is the queue, or its
/// model.
pub struct AudioOutbox<Q = Vec<Vec<ChannelLevels>>> {
    // A host-delivery quantum, not an emulation timing parameter.
    pub chunk_samples: Option<usize>,
    pub enabled: bool,
    pub chunks: Q,
}

pub type OutboxModel = AudioOutbox<Seq<Seq<ChannelLevels>>>;

/// What the host has done at the start of vblank, before the CPU can service
/// the interrupt and poll the controller.
#[derive(Clone, Copy, Debug, PartialEq, Eq, Structural)]
pub struct FrameHook {
    // The buttons to hold from then on, all others released; or hands off.
    pub buttons: Option<u8>,
    // Whether the buffered samples follow the completed chunks as one last
    // chunk, while delivery is on.
    pub drains: bool,
}

impl FrameHook {
    pub open spec fn idle() -> FrameHook {
        FrameHook { buttons: None, drains: false }
    }
}

/// The machine's figures at the start of the last vblank.
#[derive(Clone, Copy, Debug, PartialEq, Eq, Structural)]
pub struct FrameMark {
    // CPU cycles that the APU had counted.
    pub cycles: usize,
    // Chunks that were waiting for the host, the drained remainder included.
    pub chunks: usize,
    pub diagnostics: ProbeDiagnostics,
}

impl FrameMark {
    pub open spec fn unset() -> FrameMark {
        FrameMark {
            cycles: 0,
            chunks: 0,
            diagnostics: ProbeDiagnostics {
                oam_dma_count: 0,
                visible_register_writes: 0,
                last_register: 0,
                last_scanline: 0,
                last_dot: 0,
            },
        }
    }
}

/// The machine around the CPU, with picture chip `P` and sound chip `A`.
pub struct MachineModel<P, A> {
    pub cpu_vram: Seq<u8>,
    pub ppu: P,
    pub apu: A,
    pub cycles: usize,
    pub dma: DmaUnit,
    pub audio: OutboxModel,
    pub host_frame_ready: bool,
    pub hook: FrameHook,
    pub mark: FrameMark,
    pub joypad1: JoypadModel,
}

/// The machine with a cartridge of model `V` in the slot.
pub type BusModel<V> = MachineModel<PpuModel<V>, ApuModel>;

/// The invariant of the machine: each part's own.
#[verifier::opaque]
pub open spec fn wf<M: Mapper>(b: BusModel<M::Model>) -> bool {
    &&& b.cpu_vram.len() == 2048
    &&& ppu_model::wf::<M>(b.ppu)
    &&& b.apu.channels.wf()
    &&& b.joypad1.wf()
    &&& b.audio.chunk_samples is Some ==> b.audio.chunk_samples->0 > 0
}

/// Power-on with a cartridge in the slot.
pub open spec fn power_on<V>(mapper: V, chunk_samples: Option<usize>) -> BusModel<V> {
    BusModel {
        cpu_vram: zeroes(2048),
        ppu: ppu_model::power_on(mapper),
        apu: apu_power_on(),
        cycles: 0,
        dma: DmaUnit {
            get_cycle: false,
            oam_page: None,
            dmc_ticks: 0,
            dmc_kind: None,
            holds_oe: false,
        },
        audio: AudioOutbox { chunk_samples, enabled: true, chunks: Seq::empty() },
        host_frame_ready: false,
        hook: FrameHook::idle(),
        mark: FrameMark::unset(),
        joypad1: JoypadModel::initial(),
    }
}

// ---- Memory ---------------------------------------------------------------------

/// A read of one of the eight picture registers: the next state and the value.
/// Nominally write-only ports expose the I/O latch without refreshing it.
#[verifier::opaque]
pub open spec fn port_read<M: Mapper>(p: PpuModel<M::Model>, register: u16) -> (
    PpuModel<M::Model>,
    u8,
) {
    if register == 2 {
        (ppu_model::status_read(p), ppu_model::status_value(p))
    } else if register == 4 {
        (
            ppu_model::io_driven(p, ppu_model::oam_data_value(p), 0xff),
            ppu_model::oam_data_value(p),
        )
    } else if register == 7 {
        ppu_model::data_read::<M>(p)
    } else {
        let io = p.io.decayed(p.raster.total_dots);
        (PpuModel { io, ..p }, io.value)
    }
}

/// A write to one of the eight picture registers.
#[verifier::opaque]
pub open spec fn port_written<M: Mapper>(
    p: PpuModel<M::Model>,
    register: u16,
    data: u8,
) -> PpuModel<M::Model> {
    if register == 0 {
        ppu_model::ctrl_written(p, data)
    } else if register == 1 {
        ppu_model::mask_written(p, data)
    } else if register == 2 {
        ppu_model::io_driven(p, data, 0xff)
    } else if register == 3 {
        ppu_model::oam_addr_written(p, data)
    } else if register == 4 {
        ppu_model::oam_data_written(p, data)
    } else if register == 5 {
        ppu_model::scroll_written(p, data)
    } else if register == 6 {
        ppu_model::addr_written::<M>(p, data)
    } else {
        ppu_model::data_written::<M>(p, data)
    }
}

/// What a read of `addr` yields.
pub open spec fn value_at<M: Mapper>(b: BusModel<M::Model>, addr: u16) -> u8 {
    if addr < 0x2000 {
        b.cpu_vram[addr as int % 0x800]
    } else if addr < 0x4000 {
        port_read::<M>(b.ppu, (addr % 8) as u16).1
    } else if addr == 0x4015 {
        b.apu.channels.status()
    } else if addr == 0x4016 {
        b.joypad1.bit()
    } else if addr >= 0x6000 {
        M::cpu_value(b.ppu.mapper, addr)
    } else {
        // $4017 would be a second controller; the rest is unmapped.
        0
    }
}

/// The machine after a read of `addr`.
pub open spec fn after_mem_read<M: Mapper>(b: BusModel<M::Model>, addr: u16) -> BusModel<
    M::Model,
> {
    if 0x2000 <= addr < 0x4000 {
        BusModel { ppu: port_read::<M>(b.ppu, (addr % 8) as u16).0, ..b }
    } else if addr == 0x4015 {
        BusModel { apu: apu_status_read(b.apu), ..b }
    } else if addr == 0x4016 && !b.dma.holds_oe {
        BusModel { joypad1: b.joypad1.stepped(), ..b }
    } else {
        b
    }
}

/// The machine after a write of `data` to `addr`.
pub open spec fn after_mem_write<M: Mapper>(
    b: BusModel<M::Model>,
    addr: u16,
    data: u8,
) -> BusModel<M::Model> {
    if addr < 0x2000 {
        BusModel { cpu_vram: b.cpu_vram.update(addr as int % 0x800, data), ..b }
    } else if addr < 0x4000 {
        BusModel { ppu: port_written::<M>(b.ppu, (addr % 8) as u16, data), ..b }
    } else if addr == 0x4014 {
        BusModel { dma: DmaUnit { oam_page: Some(data), ..b.dma }, ..b }
    } else if addr == 0x4016 {
        BusModel { joypad1: b.joypad1.written(data), ..b }
    } else if is_apu_register(addr) {
        BusModel { apu: apu_written(b.apu, addr, data), ..b }
    } else if addr >= 0x6000 {
        BusModel {
            ppu: PpuModel { mapper: M::after_cpu_write(b.ppu.mapper, addr, data), ..b.ppu },
            ..b
        }
    } else {
        b
    }
}

// ---- Time -------------------------------------------------------------------------

/// The machine in the middle of a tick: with the frame event and interrupt
/// samples gathered so far.
pub struct Clocked<V> {
    pub bus: BusModel<V>,
    pub ready: bool,
    pub samples: InterruptBatch,
}

/// The interrupt line to the CPU: level-triggered from the APU and the mapper.
pub open spec fn irq_line<M: Mapper>(b: BusModel<M::Model>) -> bool {
    b.apu.channels.irq() || M::irq_of(b.ppu.mapper)
}

/// The devices one CPU cycle on: the APU advances one cycle and the PPU three
/// dots.
#[verifier::opaque]
pub open spec fn devices_advanced<M: Mapper>(b: BusModel<M::Model>) -> BusModel<M::Model> {
    BusModel {
        cycles: b.cycles.wrapping_add(1),
        apu: apu_cycle(b.apu),
        ppu: ppu_model::dots_clocked::<M>(b.ppu, 3),
        dma: DmaUnit { get_cycle: !b.dma.get_cycle, ..b.dma },
        ..b
    }
}

/// The frame event and the NMI edge, collected.
pub open spec fn events_collected<V>(b: BusModel<V>) -> BusModel<V> {
    BusModel {
        ppu: PpuModel {
            nmi: NmiLine { frame_ready: false, ..b.ppu.nmi }.polled(b.ppu.raster.total_dots),
            ..b.ppu
        },
        ..b
    }
}

/// One physical CPU cycle: the devices advance, the frame event is collected,
/// and the interrupt lines are sampled.
#[verifier::opaque]
pub open spec fn cycle_clocked<M: Mapper>(c: Clocked<M::Model>) -> Clocked<M::Model> {
    let advanced = devices_advanced::<M>(c.bus);
    let bus = events_collected(advanced);
    Clocked {
        bus,
        ready: c.ready || advanced.ppu.nmi.frame_ready,
        samples: c.samples.pushed(
            advanced.ppu.nmi.visible(advanced.ppu.raster.total_dots) is Some,
            irq_line::<M>(bus),
        ),
    }
}

/// `n` physical CPU cycles.
pub open spec fn cycles_clocked<M: Mapper>(c: Clocked<M::Model>, n: nat) -> Clocked<M::Model>
    decreases n,
{
    if n == 0 {
        c
    } else {
        cycle_clocked::<M>(cycles_clocked::<M>(c, (n - 1) as nat))
    }
}

#[derive(Clone, Copy, Debug, PartialEq, Eq, Structural)]
pub enum OamDmaPhase {
    Halt,
    Align,
    Get,
    Put,
    Done,
}

#[derive(Clone, Copy, Debug, PartialEq, Eq, Structural)]
pub enum DmcDmaPhase {
    Idle,
    Halt,
    Dummy,
    Align,
    Get,
}

/// Where the two DMA units stand in one OAM transfer: phases, the offset in the
/// page and the byte between its read and its write.
#[derive(Clone, Copy, Debug, PartialEq, Eq, Structural)]
pub struct Transfer {
    pub page: u8,
    pub oam: OamDmaPhase,
    pub dmc: DmcDmaPhase,
    pub offset: u16,
    pub latch: u8,
}

impl Transfer {
    pub open spec fn begun(page: u8) -> Transfer {
        Transfer { page, oam: OamDmaPhase::Halt, dmc: DmcDmaPhase::Idle, offset: 0, latch: 0 }
    }

    pub open spec fn finished(self) -> bool {
        self.oam == OamDmaPhase::Done && self.dmc == DmcDmaPhase::Idle
    }

    /// The offset stays inside the page until the transfer is done.
    pub open spec fn wf(self) -> bool {
        self.offset <= 256 && (self.oam != OamDmaPhase::Done ==> self.offset < 256)
    }

    /// Address of the next byte.
    pub open spec fn source(self) -> u16 {
        (self.page as u16 * 256 + self.offset) as u16
    }

    /// A waiting DMC request halts the idle DMC unit.
    pub open spec fn with_request(self, requested: bool) -> Transfer {
        if self.dmc == DmcDmaPhase::Idle && requested {
            Transfer { dmc: DmcDmaPhase::Halt, ..self }
        } else {
            self
        }
    }

    /// Whether this cycle belongs to the DMC's read.
    pub open spec fn dmc_reads(self, get_cycle: bool) -> bool {
        self.dmc == DmcDmaPhase::Get && get_cycle
    }

    /// Whether this cycle reads a byte of the page.
    pub open spec fn oam_reads(self, get_cycle: bool) -> bool {
        !self.dmc_reads(get_cycle) && self.oam == OamDmaPhase::Get && get_cycle
    }

    /// Whether this cycle writes a byte to OAM.
    pub open spec fn oam_writes(self, get_cycle: bool) -> bool {
        self.oam == OamDmaPhase::Put && !get_cycle
    }

    /// The OAM unit after a cycle. Halt and alignment go by the phase of the
    /// next physical cycle.
    pub open spec fn oam_next(self, get_cycle: bool, value: u8) -> Transfer {
        if self.oam == OamDmaPhase::Halt {
            Transfer {
                oam: if get_cycle {
                    OamDmaPhase::Align
                } else {
                    OamDmaPhase::Get
                },
                ..self
            }
        } else if self.oam == OamDmaPhase::Align {
            Transfer { oam: OamDmaPhase::Get, ..self }
        } else if self.oam_reads(get_cycle) {
            Transfer { oam: OamDmaPhase::Put, latch: value, ..self }
        } else if self.oam_writes(get_cycle) {
            Transfer {
                offset: (self.offset + 1) as u16,
                oam: if self.offset + 1 == 256 {
                    OamDmaPhase::Done
                } else {
                    OamDmaPhase::Get
                },
                ..self
            }
        } else {
            self
        }
    }

    /// The DMC unit's phase after a cycle.
    pub open spec fn dmc_next(self, get_cycle: bool) -> DmcDmaPhase {
        match self.dmc {
            DmcDmaPhase::Idle => DmcDmaPhase::Idle,
            DmcDmaPhase::Halt => DmcDmaPhase::Dummy,
            DmcDmaPhase::Dummy => if get_cycle {
                DmcDmaPhase::Align
            } else {
                DmcDmaPhase::Get
            },
            DmcDmaPhase::Align => DmcDmaPhase::Get,
            DmcDmaPhase::Get => if get_cycle {
                DmcDmaPhase::Idle
            } else {
                DmcDmaPhase::Get
            },
        }
    }

    /// Both units after a cycle whose page read, if any, yielded `value`.
    pub open spec fn stepped(self, get_cycle: bool, value: u8) -> Transfer {
        Transfer { dmc: self.dmc_next(get_cycle), ..self.oam_next(get_cycle, value) }
    }

    /// OAM work left, in reads and writes.
    pub open spec fn work(self) -> nat {
        match self.oam {
            OamDmaPhase::Halt => 515,
            OamDmaPhase::Align => 514,
            OamDmaPhase::Get => (2 * (256 - self.offset)) as nat,
            OamDmaPhase::Put => (2 * (256 - self.offset) - 1) as nat,
            OamDmaPhase::Done => 0,
        }
    }

    /// Cycles until the next piece of OAM work, or until the DMC unit is idle.
    pub open spec fn wait(self, get_cycle: bool) -> nat {
        match self.oam {
            OamDmaPhase::Get => if get_cycle {
                if self.dmc == DmcDmaPhase::Get {
                    2
                } else {
                    0
                }
            } else if self.dmc == DmcDmaPhase::Idle || self.dmc == DmcDmaPhase::Halt {
                1
            } else {
                3
            },
            OamDmaPhase::Put => if get_cycle {
                1
            } else {
                0
            },
            OamDmaPhase::Done => match self.dmc {
                DmcDmaPhase::Idle => 0,
                DmcDmaPhase::Get => if get_cycle {
                    1
                } else {
                    2
                },
                DmcDmaPhase::Align => 3,
                DmcDmaPhase::Dummy => 4,
                DmcDmaPhase::Halt => 5,
            },
            _ => 0,
        }
    }
}

/// A transfer makes progress on every cycle, measured first by the OAM work
/// left and then by the wait for it.
pub proof fn a_transfer_always_progresses(t: Transfer, requested: bool, get_cycle: bool, value: u8)
    requires
        t.wf(),
        !t.finished(),
    ensures
        ({
            let next = t.with_request(requested).stepped(get_cycle, value);
            &&& next.wf()
            &&& next.work() < t.work() || (next.work() == t.work() && next.wait(!get_cycle)
                < t.wait(get_cycle))
        }),
{
}

/// The byte the DMC asked for, read and handed over.
#[verifier::opaque]
pub open spec fn dmc_served<M: Mapper>(b: BusModel<M::Model>) -> BusModel<M::Model> {
    let addr = b.apu.channels.dmc.request()->0;
    let value = value_at::<M>(b, addr);
    let read = after_mem_read::<M>(b, addr);
    BusModel { apu: apu_dmc_loaded(read.apu, value), ..read }
}

/// The bus access of one transfer cycle.
pub open spec fn transfer_access<M: Mapper>(b: BusModel<M::Model>, t: Transfer) -> BusModel<
    M::Model,
> {
    if t.dmc_reads(b.dma.get_cycle) {
        dmc_served::<M>(b)
    } else if t.oam_reads(b.dma.get_cycle) {
        after_mem_read::<M>(b, t.source())
    } else if t.oam_writes(b.dma.get_cycle) {
        BusModel { ppu: ppu_model::dma_byte_written(b.ppu, t.latch), ..b }
    } else {
        b
    }
}

/// One cycle of a transfer: the access, then the clock.
#[verifier::opaque]
pub open spec fn transfer_clocked<M: Mapper>(c: Clocked<M::Model>, t: Transfer) -> Clocked<
    M::Model,
> {
    cycle_clocked::<M>(Clocked { bus: transfer_access::<M>(c.bus, t), ..c })
}

/// The transfer's state after the same cycle.
#[verifier::opaque]
pub open spec fn transfer_next<M: Mapper>(c: Clocked<M::Model>, t: Transfer) -> Transfer {
    t.stepped(c.bus.dma.get_cycle, value_at::<M>(c.bus, t.source()))
}

/// A transfer run to its end. Both units advance on the same get/put cadence;
/// DMC no-access phases overlap OAM work, and only the DMC read steals the bus.
pub open spec fn transfer_run<M: Mapper>(c: Clocked<M::Model>, t: Transfer) -> Clocked<M::Model>
    decreases t.work(), t.wait(c.bus.dma.get_cycle),
    when t.wf()
{
    if t.finished() {
        c
    } else {
        let begun = t.with_request(c.bus.apu.channels.dmc.request() is Some);
        let next = transfer_next::<M>(c, begun);
        proof {
            reveal(transfer_next);
            a_cycle_flips_the_dma_phase::<M>(c, begun);
            a_transfer_always_progresses(
                t,
                c.bus.apu.channels.dmc.request() is Some,
                c.bus.dma.get_cycle,
                value_at::<M>(c.bus, begun.source()),
            );
        }
        transfer_run::<M>(transfer_clocked::<M>(c, begun), next)
    }
}

/// A transfer cycle flips the DMA phase, and nothing else does.
pub proof fn a_cycle_flips_the_dma_phase<M: Mapper>(c: Clocked<M::Model>, t: Transfer)
    ensures
        transfer_clocked::<M>(c, t).bus.dma.get_cycle == !c.bus.dma.get_cycle,
{
    reveal(cycle_clocked);
    reveal(devices_advanced);
    reveal(transfer_clocked);
    reveal(dmc_served);
}

/// A DMC request stands through a physical cycle.
pub proof fn a_request_stands_for_a_cycle<M: Mapper>(c: Clocked<M::Model>)
    requires
        c.bus.apu.channels.dmc.request() is Some,
    ensures
        cycle_clocked::<M>(c).bus.apu.channels.dmc.request()
            == c.bus.apu.channels.dmc.request(),
{
    reveal(cycle_clocked);
    reveal(devices_advanced);
    a_dmc_request_stands(c.bus.apu);
}

/// A DMC request stands through any number of physical cycles.
pub proof fn a_request_stands_for_cycles<M: Mapper>(c: Clocked<M::Model>, n: nat)
    requires
        c.bus.apu.channels.dmc.request() is Some,
    ensures
        cycles_clocked::<M>(c, n).bus.apu.channels.dmc.request()
            == c.bus.apu.channels.dmc.request(),
    decreases n,
{
    if n > 0 {
        a_request_stands_for_cycles::<M>(c, (n - 1) as nat);
        a_request_stands_for_a_cycle::<M>(cycles_clocked::<M>(c, (n - 1) as nat));
    }
}

/// A DMC unit that stays busy through a transfer cycle keeps its request.
pub proof fn a_request_stands_in_a_transfer<M: Mapper>(c: Clocked<M::Model>, t: Transfer)
    requires
        t.dmc != DmcDmaPhase::Idle ==> c.bus.apu.channels.dmc.request() is Some,
    ensures
        t.dmc_next(c.bus.dma.get_cycle) != DmcDmaPhase::Idle ==> transfer_clocked::<M>(
            c,
            t,
        ).bus.apu.channels.dmc.request() is Some,
{
    reveal(transfer_clocked);
    reveal(dmc_served);
    let accessed = transfer_access::<M>(c.bus, t);
    if t.dmc_next(c.bus.dma.get_cycle) != DmcDmaPhase::Idle {
        assert(accessed.apu.channels.dmc == c.bus.apu.channels.dmc);
        a_request_stands_for_a_cycle::<M>(Clocked { bus: accessed, ..c });
    }
}

/// One cycle of an unfinished transfer: the rest of the run is the run of what
/// is left, and less is left.
pub proof fn a_transfer_runs_cycle_by_cycle<M: Mapper>(
    c: Clocked<M::Model>,
    t: Transfer,
    begun: Transfer,
)
    requires
        t.wf(),
        !t.finished(),
        t.dmc != DmcDmaPhase::Idle ==> c.bus.apu.channels.dmc.request() is Some,
        begun == t.with_request(c.bus.apu.channels.dmc.request() is Some),
    ensures
        ({
            let after = transfer_clocked::<M>(c, begun);
            let next = transfer_next::<M>(c, begun);
            &&& transfer_run::<M>(after, next) == transfer_run::<M>(c, t)
            &&& next.wf()
            &&& next.work() < t.work() || (next.work() == t.work() && next.wait(
                after.bus.dma.get_cycle,
            ) < t.wait(c.bus.dma.get_cycle))
            &&& next.dmc != DmcDmaPhase::Idle ==> after.bus.apu.channels.dmc.request() is Some
        }),
{
    reveal(transfer_next);
    a_cycle_flips_the_dma_phase::<M>(c, begun);
    a_request_stands_in_a_transfer::<M>(c, begun);
    a_transfer_always_progresses(
        t,
        c.bus.apu.channels.dmc.request() is Some,
        c.bus.dma.get_cycle,
        value_at::<M>(c.bus, begun.source()),
    );
}

/// An OAM DMA of `page`.
#[verifier::opaque]
pub open spec fn oam_dma_run<M: Mapper>(c: Clocked<M::Model>, page: u8) -> Clocked<M::Model> {
    let noted = BusModel { ppu: ppu_model::dma_noted(c.bus.ppu), ..c.bus };
    transfer_run::<M>(Clocked { bus: noted, ..c }, Transfer::begun(page))
}

/// A DMC fetch on its own halts the CPU for four cycles: three without access,
/// then the read.
#[verifier::opaque]
pub open spec fn dmc_dma_run<M: Mapper>(c: Clocked<M::Model>) -> Clocked<M::Model> {
    if c.bus.apu.channels.dmc.request() is None {
        c
    } else {
        let begun = with_dma(c, DmaUnit { dmc_ticks: 0, dmc_kind: None, ..c.bus.dma });
        let waited = cycles_clocked::<M>(begun, 3);
        cycle_clocked::<M>(Clocked { bus: dmc_served::<M>(waited.bus), ..waited })
    }
}

/// Completed chunks moved from the APU's buffer to the outbox, oldest first.
pub open spec fn chunks_delivered(
    samples: Seq<ChannelLevels>,
    chunks: Seq<Seq<ChannelLevels>>,
    size: int,
) -> (Seq<ChannelLevels>, Seq<Seq<ChannelLevels>>)
    decreases samples.len(),
    when size > 0
{
    if samples.len() < size {
        (samples, chunks)
    } else {
        chunks_delivered(samples.skip(size), chunks.push(samples.take(size)), size)
    }
}

#[verifier::opaque]
pub open spec fn audio_delivered<V>(b: BusModel<V>) -> BusModel<V> {
    if b.audio.chunk_samples is None || !b.audio.enabled {
        b
    } else {
        let (samples, chunks) = chunks_delivered(
            b.apu.sampler.samples,
            b.audio.chunks,
            b.audio.chunk_samples->0 as int,
        );
        BusModel {
            apu: NesAPU { sampler: Sampler { samples, ..b.apu.sampler }, ..b.apu },
            audio: AudioOutbox { chunks, ..b.audio },
            ..b
        }
    }
}

/// A scheduled OAM DMA runs at the end of a tick.
#[verifier::opaque]
pub open spec fn scheduled_dma_run<M: Mapper>(c: Clocked<M::Model>) -> Clocked<M::Model> {
    match c.bus.dma.oam_page {
        Some(page) => oam_dma_run::<M>(
            with_dma(c, DmaUnit { oam_page: None, ..c.bus.dma }),
            page,
        ),
        None => c,
    }
}

/// One more tick of waiting for a read to steal.
pub open spec fn wait_counted(d: DmaUnit, kind: DmcDmaRequestKind) -> DmaUnit {
    DmaUnit {
        dmc_kind: if d.dmc_kind is None {
            Some(kind)
        } else {
            d.dmc_kind
        },
        dmc_ticks: if d.dmc_ticks == u8::MAX {
            u8::MAX
        } else {
            (d.dmc_ticks + 1) as u8
        },
        ..d
    }
}

pub open spec fn with_dma<V>(c: Clocked<V>, dma: DmaUnit) -> Clocked<V> {
    Clocked { bus: BusModel { dma, ..c.bus }, ..c }
}

/// A DMC request that has waited three ticks without a read to steal is served
/// regardless, so that it cannot be lost.
#[verifier::opaque]
pub open spec fn dmc_waited<M: Mapper>(c: Clocked<M::Model>) -> Clocked<M::Model> {
    match c.bus.apu.channels.dmc.request_kind() {
        Some(kind) => {
            let counted = with_dma(c, wait_counted(c.bus.dma, kind));
            if counted.bus.dma.dmc_ticks >= 3 {
                dmc_dma_run::<M>(counted)
            } else {
                counted
            }
        },
        None => with_dma(c, DmaUnit { dmc_ticks: 0, dmc_kind: None, ..c.bus.dma }),
    }
}

/// The buttons that the hook holds, held.
pub open spec fn buttons_hooked(pad: JoypadModel, hook: FrameHook) -> JoypadModel {
    match hook.buttons {
        Some(bits) => pad.holding(bits),
        None => pad,
    }
}

/// The samples that the hook drains, in the outbox.
pub open spec fn remainder_drained<V>(b: BusModel<V>) -> BusModel<V> {
    if b.hook.drains && b.audio.enabled {
        BusModel {
            apu: NesAPU { sampler: Sampler { samples: Seq::empty(), ..b.apu.sampler }, ..b.apu },
            audio: AudioOutbox { chunks: b.audio.chunks.push(b.apu.sampler.samples), ..b.audio },
            ..b
        }
    } else {
        b
    }
}

/// A frame, if one is finished, announced to the host: the event stands, the
/// hook does its work, and the mark is set.
pub open spec fn frame_announced<V>(b: BusModel<V>, ready: bool) -> BusModel<V> {
    if ready {
        let drained = remainder_drained(b);
        BusModel {
            host_frame_ready: true,
            joypad1: buttons_hooked(b.joypad1, b.hook),
            mark: FrameMark {
                cycles: b.apu.cycles,
                chunks: drained.audio.chunks.len() as usize,
                diagnostics: b.ppu.probe,
            },
            ..drained
        }
    } else {
        b
    }
}

/// The end of a tick: audio is handed over and a finished frame announced.
#[verifier::opaque]
pub open spec fn tick_ended<V>(c: Clocked<V>) -> BusModel<V> {
    frame_announced(audio_delivered(c.bus), c.ready)
}

pub open spec fn tick_begun<V>(b: BusModel<V>) -> Clocked<V> {
    Clocked { bus: b, ready: false, samples: InterruptBatch::empty() }
}

/// What one `tick` gathers: its cycles, any DMA it triggers and their samples.
#[verifier::opaque]
pub open spec fn tick_run<M: Mapper>(b: BusModel<M::Model>, cycles: nat) -> Clocked<M::Model> {
    dmc_waited::<M>(scheduled_dma_run::<M>(cycles_clocked::<M>(tick_begun(b), cycles)))
}

/// The machine after a tick of so many CPU cycles.
#[verifier::opaque]
pub open spec fn ticked<M: Mapper>(b: BusModel<M::Model>, cycles: nat) -> BusModel<M::Model> {
    tick_ended(tick_run::<M>(b, cycles))
}

/// The interrupt samples of the same tick.
#[verifier::opaque]
pub open spec fn tick_samples<M: Mapper>(b: BusModel<M::Model>, cycles: nat) -> InterruptBatch {
    tick_run::<M>(b, cycles).samples
}

/// The machine after a DMC fetch taken between two CPU accesses.
#[verifier::opaque]
pub open spec fn dmc_halted<M: Mapper>(b: BusModel<M::Model>) -> BusModel<M::Model> {
    let c = dmc_dma_run::<M>(tick_begun(b));
    frame_announced(c.bus, c.ready)
}

/// The interrupt samples of the same fetch.
#[verifier::opaque]
pub open spec fn dmc_halt_samples<M: Mapper>(b: BusModel<M::Model>) -> InterruptBatch {
    dmc_dma_run::<M>(tick_begun(b)).samples
}

pub open spec fn with_oe<V>(b: BusModel<V>, holds_oe: bool) -> BusModel<V> {
    BusModel { dma: DmaUnit { holds_oe, ..b.dma }, ..b }
}

/// The CPU's held read address driven on the three non-get cycles of a DMC
/// fetch: from the second repeat on, the controller's /OE stays asserted.
#[verifier::opaque]
pub open spec fn read_repeated<M: Mapper>(b: BusModel<M::Model>, addr: u16) -> BusModel<M::Model> {
    let first = with_oe(after_mem_read::<M>(with_oe(b, false), addr), false);
    let second = with_oe(after_mem_read::<M>(with_oe(first, true), addr), false);
    with_oe(after_mem_read::<M>(with_oe(second, true), addr), false)
}

// ---- Snapshots ----------------------------------------------------------------------

/// The emulated state at one moment, without the host's delivery settings.
pub struct SnapshotModel<V> {
    pub cpu_vram: Seq<u8>,
    pub ppu: PpuModel<V>,
    pub apu: ApuModel,
    pub cycles: usize,
    pub dma: DmaUnit,
    pub audio_enabled: bool,
    pub host_frame_ready: bool,
    pub mark: FrameMark,
    pub joypad1: JoypadModel,
}

pub open spec fn snapshot_of<V>(b: BusModel<V>) -> SnapshotModel<V> {
    SnapshotModel {
        cpu_vram: b.cpu_vram,
        ppu: b.ppu,
        apu: b.apu,
        cycles: b.cycles,
        dma: b.dma,
        audio_enabled: b.audio.enabled,
        host_frame_ready: b.host_frame_ready,
        mark: b.mark,
        joypad1: b.joypad1,
    }
}

/// The machine with a snapshot put back. The chunk size, the chunks and noted
/// writes waiting for the host, the host's hook and the controller's /OE stay as
/// they are.
pub open spec fn restored<V>(b: BusModel<V>, s: SnapshotModel<V>) -> BusModel<V> {
    BusModel {
        cpu_vram: s.cpu_vram,
        ppu: s.ppu,
        apu: NesAPU { register_writes: b.apu.register_writes, ..s.apu },
        cycles: s.cycles,
        dma: DmaUnit { holds_oe: b.dma.holds_oe, ..s.dma },
        audio: AudioOutbox { enabled: s.audio_enabled, ..b.audio },
        host_frame_ready: s.host_frame_ready,
        hook: b.hook,
        mark: s.mark,
        joypad1: s.joypad1,
    }
}

/// A snapshot of a machine that keeps its invariant.
pub open spec fn snapshot_wf<M: Mapper>(s: SnapshotModel<M::Model>) -> bool {
    &&& s.cpu_vram.len() == 2048
    &&& ppu_model::wf::<M>(s.ppu)
    &&& s.apu.channels.wf()
    &&& s.joypad1.wf()
}

/// Whatever has happened since, restoring a snapshot brings back the machine it
/// was taken of, but for what the host keeps.
pub proof fn restoring_brings_the_machine_back<M: Mapper>(
    taken_of: BusModel<M::Model>,
    now: BusModel<M::Model>,
)
    requires
        wf::<M>(taken_of),
        wf::<M>(now),
    ensures
        ({
            let back = restored(now, snapshot_of(taken_of));
            &&& wf::<M>(back)
            &&& snapshot_of(back) == (SnapshotModel {
                apu: NesAPU { register_writes: now.apu.register_writes, ..taken_of.apu },
                dma: DmaUnit { holds_oe: now.dma.holds_oe, ..taken_of.dma },
                ..snapshot_of(taken_of)
            })
            &&& now.audio.chunks == taken_of.audio.chunks && now.audio.chunk_samples
                == taken_of.audio.chunk_samples && now.apu.register_writes
                == taken_of.apu.register_writes && now.hook == taken_of.hook && now.dma.holds_oe
                == taken_of.dma.holds_oe ==> back == taken_of
        }),
{
    reveal(wf);
}

} // verus!
