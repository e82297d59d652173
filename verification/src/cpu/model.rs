//! What the core does, cycle by cycle, as functions from the machine's state to
//! its next state. Every bus access of an executing instruction is one CPU
//! cycle in which the whole machine advances.

use crate::apu::dmc::DmcDmaRequestKind;
use crate::bus::model as bus_model;
use crate::bus::model::{BusModel, InterruptBatch, SnapshotModel};
use crate::cpu::registers::{plain_part, CpuFlags, Registers, STACK_RESET, STATUS_RESET};
use crate::mapper::Mapper;
use crate::opcodes::{opcode_of, AddressingMode, OpCode, Operation};
use vstd::prelude::*;

verus! {

/// The interrupts that a branch saw at its own poll point.
#[derive(Clone, Copy, Debug, PartialEq, Eq, Structural)]
pub struct InterruptPoll {
    pub nmi: bool,
    pub irq: bool,
}

/// Interrupt lines sampled at the end of every CPU cycle. NMI is edge detected
/// and latched until serviced; IRQ is a level. The `_delayed` copies hold the
/// value as of the previous cycle, so an instruction boundary recognizes an
/// interrupt only if it was pending at the end of the penultimate cycle.
#[derive(Clone, Copy, Debug, PartialEq, Eq, Structural)]
pub struct InterruptLines {
    pub nmi_pending: bool,
    pub nmi_pending_delayed: bool,
    pub irq_line: bool,
    pub irq_line_delayed: bool,
    // Branch instructions poll interrupts at a fixed point, the end of their
    // second cycle (the offset fetch), rather than at the generic penultimate
    // cycle.
    pub branch_poll: Option<InterruptPoll>,
}

impl InterruptLines {
    pub open spec fn quiet() -> InterruptLines {
        InterruptLines {
            nmi_pending: false,
            nmi_pending_delayed: false,
            irq_line: false,
            irq_line_delayed: false,
            branch_poll: None,
        }
    }

    /// Samples taken while RDY held the core: they update the live lines but do
    /// not advance the instruction poll pipeline.
    pub open spec fn halted(self, samples: InterruptBatch) -> InterruptLines {
        InterruptLines {
            nmi_pending: self.nmi_pending || samples.nmi_any,
            irq_line: samples.irq_last,
            ..self
        }
    }

    /// The samples of one core cycle; the first belongs to the core, any others
    /// to DMA.
    pub open spec fn cycled(self, samples: InterruptBatch) -> InterruptLines {
        if samples.cycles == 0 {
            self
        } else {
            let first = InterruptLines {
                nmi_pending_delayed: self.nmi_pending,
                nmi_pending: self.nmi_pending || samples.nmi_first,
                irq_line_delayed: self.irq_line,
                irq_line: samples.irq_first,
                ..self
            };
            if samples.cycles > 1 {
                first.halted(samples)
            } else {
                first
            }
        }
    }

    /// The interrupts recognized at an instruction boundary.
    pub open spec fn recognized(self) -> InterruptPoll {
        match self.branch_poll {
            Some(poll) => poll,
            None => InterruptPoll { nmi: self.nmi_pending_delayed, irq: self.irq_line_delayed },
        }
    }
}

/// How far the current instruction has come.
#[derive(Clone, Copy, Debug, PartialEq, Eq, Structural)]
pub struct Progress {
    pub additional_cycles: u8,
    // Real bus accesses issued by the instruction currently executing. Each
    // advances the machine one CPU cycle, so at its end the remaining
    // (internal) cycles are the difference between the cycle budget and this
    // count.
    pub instr_accesses: u8,
    // True only while an instruction is being executed. Inspection accesses
    // leave it clear so they do not advance time.
    pub executing: bool,
}

/// RDY takes effect on the modeled core read after the DMA schedule point; the
/// token records which request owns that slot.
#[derive(Clone, Copy, Debug, PartialEq, Eq, Structural)]
pub struct DmcHeldRead {
    pub kind: DmcDmaRequestKind,
}

/// The core on a bus `B`.
pub struct CoreModel<B> {
    pub regs: Registers,
    pub lines: InterruptLines,
    pub progress: Progress,
    pub dmc_held_read: Option<DmcHeldRead>,
    pub halt_on_brk: bool,
    pub bus: B,
}

/// The whole console, with a cartridge of model `V` in the slot.
pub type CpuModel<V> = CoreModel<BusModel<V>>;

pub open spec fn wf<M: Mapper>(s: CpuModel<M::Model>) -> bool {
    bus_model::wf::<M>(s.bus)
}

pub open spec fn power_on<V>(bus: BusModel<V>) -> CpuModel<V> {
    CpuModel {
        regs: Registers::power_on(),
        lines: InterruptLines::quiet(),
        progress: Progress { additional_cycles: 0, instr_accesses: 0, executing: false },
        dmc_held_read: None,
        halt_on_brk: true,
        bus,
    }
}

/// A state together with the byte that a read yielded.
pub struct Fetched<V> {
    pub cpu: CpuModel<V>,
    pub value: u8,
}

/// A state together with an address or a 16-bit value.
pub struct Word<V> {
    pub cpu: CpuModel<V>,
    pub value: u16,
}

pub open spec fn with_regs<V>(s: CpuModel<V>, regs: Registers) -> CpuModel<V> {
    CpuModel { regs, ..s }
}

pub open spec fn with_pc<V>(s: CpuModel<V>, pc: u16) -> CpuModel<V> {
    CpuModel { regs: s.regs.with_pc(pc), ..s }
}

// ---- Cycles and accesses ----------------------------------------------------------------

/// The machine one core cycle on, with the interrupt lines sampled at its end.
#[verifier::opaque]
pub open spec fn core_cycle<M: Mapper>(s: CpuModel<M::Model>) -> CpuModel<M::Model> {
    CpuModel {
        bus: bus_model::ticked::<M>(s.bus, 1),
        lines: s.lines.cycled(bus_model::tick_samples::<M>(s.bus, 1)),
        ..s
    }
}

/// `n` core cycles.
pub open spec fn core_cycles<M: Mapper>(s: CpuModel<M::Model>, n: nat) -> CpuModel<M::Model>
    decreases n,
{
    if n == 0 {
        s
    } else {
        core_cycle::<M>(core_cycles::<M>(s, (n - 1) as nat))
    }
}

/// The cycle of a bus access, which counts toward the instruction's budget.
#[verifier::opaque]
pub open spec fn access_cycle<M: Mapper>(s: CpuModel<M::Model>) -> CpuModel<M::Model> {
    if s.progress.executing {
        core_cycle::<M>(
            CpuModel {
                progress: Progress {
                    instr_accesses: if s.progress.instr_accesses == u8::MAX {
                        u8::MAX
                    } else {
                        (s.progress.instr_accesses + 1) as u8
                    },
                    ..s.progress
                },
                ..s
            },
        )
    } else {
        s
    }
}

/// A read slot held by an earlier DMC fetch repeats its address.
#[verifier::opaque]
pub open spec fn held_read_repeated<M: Mapper>(s: CpuModel<M::Model>, addr: u16) -> CpuModel<
    M::Model,
> {
    if s.progress.executing && s.dmc_held_read is Some {
        CpuModel {
            bus: bus_model::read_repeated::<M>(s.bus, addr),
            dmc_held_read: None,
            ..s
        }
    } else {
        s
    }
}

/// A pending DMC fetch is served between two read slots.
#[verifier::opaque]
pub open spec fn dmc_scheduled<M: Mapper>(s: CpuModel<M::Model>) -> CpuModel<M::Model> {
    if s.progress.executing && s.bus.apu.channels.dmc.request_kind() is Some {
        CpuModel {
            bus: bus_model::dmc_halted::<M>(s.bus),
            lines: s.lines.halted(bus_model::dmc_halt_samples::<M>(s.bus)),
            dmc_held_read: Some(
                DmcHeldRead { kind: s.bus.apu.channels.dmc.request_kind()->0 },
            ),
            ..s
        }
    } else {
        s
    }
}

/// A core read.
#[verifier::opaque]
pub open spec fn core_read<M: Mapper>(s: CpuModel<M::Model>, addr: u16) -> Fetched<M::Model> {
    let ready = dmc_scheduled::<M>(held_read_repeated::<M>(s, addr));
    Fetched {
        cpu: access_cycle::<M>(
            CpuModel { bus: bus_model::after_mem_read::<M>(ready.bus, addr), ..ready },
        ),
        value: bus_model::value_at::<M>(ready.bus, addr),
    }
}

/// A core write.
#[verifier::opaque]
pub open spec fn core_write<M: Mapper>(s: CpuModel<M::Model>, addr: u16, data: u8) -> CpuModel<
    M::Model,
> {
    access_cycle::<M>(
        CpuModel { bus: bus_model::after_mem_write::<M>(s.bus, addr, data), ..s },
    )
}

/// The little-endian word of two bytes.
pub open spec fn joined(lo: u8, hi: u8) -> u16 {
    (hi * 256 + lo) as u16
}

/// A 16-bit read: two core reads, low byte first.
#[verifier::opaque]
pub open spec fn word_read<M: Mapper>(s: CpuModel<M::Model>, pos: u16) -> Word<M::Model> {
    let lo = core_read::<M>(s, pos);
    let hi = core_read::<M>(lo.cpu, pos.wrapping_add(1));
    Word { cpu: hi.cpu, value: joined(lo.value, hi.value) }
}

/// A 16-bit write: two core writes, low byte first.
#[verifier::opaque]
pub open spec fn word_written<M: Mapper>(s: CpuModel<M::Model>, pos: u16, data: u16) -> CpuModel<
    M::Model,
> {
    core_write::<M>(
        core_write::<M>(s, pos, (data % 256) as u8),
        pos.wrapping_add(1),
        (data / 256) as u8,
    )
}

/// A pointer in the zero page, which wraps inside it.
#[verifier::opaque]
pub open spec fn pointer_read<M: Mapper>(s: CpuModel<M::Model>, ptr: u8) -> Word<M::Model> {
    let lo = core_read::<M>(s, ptr as u16);
    let hi = core_read::<M>(lo.cpu, ptr.wrapping_add(1) as u16);
    Word { cpu: hi.cpu, value: joined(lo.value, hi.value) }
}

// ---- The stack -------------------------------------------------------------------------

#[verifier::opaque]
pub open spec fn pushed<M: Mapper>(s: CpuModel<M::Model>, data: u8) -> CpuModel<M::Model> {
    let written = core_write::<M>(s, (0x100 + s.regs.stack_pointer) as u16, data);
    with_regs(
        written,
        Registers {
            stack_pointer: written.regs.stack_pointer.wrapping_sub(1),
            ..written.regs
        },
    )
}

#[verifier::opaque]
pub open spec fn popped<M: Mapper>(s: CpuModel<M::Model>) -> Fetched<M::Model> {
    let sp = s.regs.stack_pointer.wrapping_add(1);
    core_read::<M>(
        with_regs(s, Registers { stack_pointer: sp, ..s.regs }),
        (0x100 + sp) as u16,
    )
}

/// High byte first, so that the word lies in memory low byte first.
#[verifier::opaque]
pub open spec fn word_pushed<M: Mapper>(s: CpuModel<M::Model>, data: u16) -> CpuModel<M::Model> {
    pushed::<M>(pushed::<M>(s, (data / 256) as u8), (data % 256) as u8)
}

#[verifier::opaque]
pub open spec fn word_popped<M: Mapper>(s: CpuModel<M::Model>) -> Word<M::Model> {
    let lo = popped::<M>(s);
    let hi = popped::<M>(lo.cpu);
    Word { cpu: hi.cpu, value: joined(lo.value, hi.value) }
}

// ---- Addressing ------------------------------------------------------------------------

/// The address that an operand at `at` names, for the modes that name one.
#[verifier::opaque]
pub open spec fn absolute_address<M: Mapper>(
    s: CpuModel<M::Model>,
    mode: AddressingMode,
    at: u16,
) -> Word<M::Model> {
    match mode {
        AddressingMode::ZeroPage => {
            let r = core_read::<M>(s, at);
            Word { cpu: r.cpu, value: r.value as u16 }
        },
        AddressingMode::ZeroPage_X => {
            let r = core_read::<M>(s, at);
            Word { cpu: r.cpu, value: r.value.wrapping_add(r.cpu.regs.register_x) as u16 }
        },
        AddressingMode::ZeroPage_Y => {
            let r = core_read::<M>(s, at);
            Word { cpu: r.cpu, value: r.value.wrapping_add(r.cpu.regs.register_y) as u16 }
        },
        AddressingMode::Absolute => word_read::<M>(s, at),
        AddressingMode::Absolute_X => {
            let w = word_read::<M>(s, at);
            Word { cpu: w.cpu, value: w.value.wrapping_add(w.cpu.regs.register_x as u16) }
        },
        AddressingMode::Absolute_Y => {
            let w = word_read::<M>(s, at);
            Word { cpu: w.cpu, value: w.value.wrapping_add(w.cpu.regs.register_y as u16) }
        },
        AddressingMode::Indirect_X => {
            let r = core_read::<M>(s, at);
            pointer_read::<M>(r.cpu, r.value.wrapping_add(r.cpu.regs.register_x))
        },
        AddressingMode::Indirect_Y => {
            let r = core_read::<M>(s, at);
            let w = pointer_read::<M>(r.cpu, r.value);
            Word { cpu: w.cpu, value: w.value.wrapping_add(w.cpu.regs.register_y as u16) }
        },
        AddressingMode::Immediate | AddressingMode::NoneAddressing => Word { cpu: s, value: at },
    }
}

/// The base of an indexed address and its index, or the whole address and zero
/// for a mode without one.
pub struct Indexed<V> {
    pub cpu: CpuModel<V>,
    pub base: u16,
    pub index: u8,
}

#[verifier::opaque]
pub open spec fn indexed_base<M: Mapper>(s: CpuModel<M::Model>, mode: AddressingMode) -> Indexed<
    M::Model,
> {
    let pc = s.regs.program_counter;
    match mode {
        AddressingMode::Absolute_X => {
            let w = word_read::<M>(s, pc);
            Indexed { cpu: w.cpu, base: w.value, index: w.cpu.regs.register_x }
        },
        AddressingMode::Absolute_Y => {
            let w = word_read::<M>(s, pc);
            Indexed { cpu: w.cpu, base: w.value, index: w.cpu.regs.register_y }
        },
        AddressingMode::Indirect_Y => {
            let r = core_read::<M>(s, pc);
            let w = pointer_read::<M>(r.cpu, r.value);
            Indexed { cpu: w.cpu, base: w.value, index: w.cpu.regs.register_y }
        },
        _ => {
            let w = absolute_address::<M>(s, mode, pc);
            Indexed { cpu: w.cpu, base: w.value, index: 0 }
        },
    }
}

pub open spec fn has_index(mode: AddressingMode) -> bool {
    mode == AddressingMode::Absolute_X || mode == AddressingMode::Absolute_Y || mode
        == AddressingMode::Indirect_Y
}

/// The address with the low byte carried and the high byte not yet.
pub open spec fn uncarried(base: u16, addr: u16) -> u16 {
    (base / 256 * 256 + addr % 256) as u16
}

pub open spec fn crosses_page(from: u16, to: u16) -> bool {
    from / 256 != to / 256
}

/// The effective address of a store: indexed stores always perform a dummy read
/// at the un-carried address first.
#[verifier::opaque]
pub open spec fn write_address<M: Mapper>(s: CpuModel<M::Model>, mode: AddressingMode) -> Word<
    M::Model,
> {
    let i = indexed_base::<M>(s, mode);
    let addr = i.base.wrapping_add(i.index as u16);
    if has_index(mode) {
        Word { cpu: core_read::<M>(i.cpu, uncarried(i.base, addr)).cpu, value: addr }
    } else {
        Word { cpu: i.cpu, value: addr }
    }
}

pub open spec fn penalized<V>(s: CpuModel<V>, cycles: u8) -> CpuModel<V> {
    CpuModel {
        progress: Progress {
            additional_cycles: s.progress.additional_cycles.wrapping_add(cycles),
            ..s.progress
        },
        ..s
    }
}

/// The effective address of a value read: an indexed read spends an extra cycle
/// on a page cross, on a dummy read at the un-carried address.
#[verifier::opaque]
pub open spec fn read_address<M: Mapper>(s: CpuModel<M::Model>, mode: AddressingMode) -> Word<
    M::Model,
> {
    let i = indexed_base::<M>(s, mode);
    let addr = i.base.wrapping_add(i.index as u16);
    if has_index(mode) && crosses_page(i.base, addr) {
        Word {
            cpu: core_read::<M>(penalized(i.cpu, 1), uncarried(i.base, addr)).cpu,
            value: addr,
        }
    } else {
        Word { cpu: i.cpu, value: addr }
    }
}

// ---- Instructions ------------------------------------------------------------------------

/// An instruction that reads a value.
#[verifier::opaque]
pub open spec fn read_run<M: Mapper>(
    s: CpuModel<M::Model>,
    op: Operation,
    mode: AddressingMode,
) -> CpuModel<M::Model> {
    let w = read_address::<M>(s, mode);
    let r = core_read::<M>(w.cpu, w.value);
    with_regs(r.cpu, r.cpu.regs.read_applied(op, r.value))
}

/// An instruction that stores a register.
#[verifier::opaque]
pub open spec fn store_run<M: Mapper>(
    s: CpuModel<M::Model>,
    op: Operation,
    mode: AddressingMode,
) -> CpuModel<M::Model> {
    let w = write_address::<M>(s, mode);
    core_write::<M>(w.cpu, w.value, w.cpu.regs.stored(op))
}

/// A read-modify-write instruction; an undocumented one then folds the result
/// into the accumulator.
#[verifier::opaque]
pub open spec fn modify_run<M: Mapper>(
    s: CpuModel<M::Model>,
    op: Operation,
    mode: AddressingMode,
) -> CpuModel<M::Model> {
    let plain = plain_part(op);
    let w = write_address::<M>(s, mode);
    let r = core_read::<M>(w.cpu, w.value);
    let result = r.cpu.regs.modified(plain, r.value);
    let written = core_write::<M>(
        with_regs(r.cpu, r.cpu.regs.carried(plain, r.value)),
        w.value,
        result,
    );
    with_regs(written, written.regs.with_zn(result).folded(op, result))
}

/// An unstable store. When indexing crosses a page, the high byte of the
/// effective address is itself replaced by the stored value.
#[verifier::opaque]
pub open spec fn high_store_run<M: Mapper>(
    s: CpuModel<M::Model>,
    op: Operation,
    mode: AddressingMode,
) -> CpuModel<M::Model> {
    let begun = if op == Operation::Tas {
        with_regs(
            s,
            Registers { stack_pointer: s.regs.register_a & s.regs.register_x, ..s.regs },
        )
    } else {
        s
    };
    let i = indexed_base::<M>(begun, mode);
    let value = i.cpu.regs.high_stored(op, ((i.base / 256) as u8).wrapping_add(1));
    let effective = i.base.wrapping_add(i.index as u16);
    let dummy = core_read::<M>(i.cpu, uncarried(i.base, effective));
    let target = if crosses_page(i.base, effective) {
        joined((effective % 256) as u8, value)
    } else {
        effective
    };
    core_write::<M>(dummy.cpu, target, value)
}

/// Where a branch with this offset byte goes.
pub open spec fn branch_target(from: u16, offset: u8) -> u16 {
    from.wrapping_add(
        if offset < 128 {
            offset as u16
        } else {
            (0xff00 + offset) as u16
        },
    )
}

/// A branch. The offset is fetched whether or not it is taken, and interrupts
/// are polled at the end of that fetch; taking it costs a cycle, and another on
/// a page cross.
#[verifier::opaque]
pub open spec fn branch_run<M: Mapper>(s: CpuModel<M::Model>, op: Operation) -> CpuModel<
    M::Model,
> {
    let taken = s.regs.branch_taken(op);
    let from = s.regs.program_counter.wrapping_add(1);
    let r = core_read::<M>(s, s.regs.program_counter);
    let polled = CpuModel {
        lines: InterruptLines {
            branch_poll: Some(
                InterruptPoll { nmi: r.cpu.lines.nmi_pending, irq: r.cpu.lines.irq_line },
            ),
            ..r.cpu.lines
        },
        ..r.cpu
    };
    if taken {
        let target = branch_target(from, r.value);
        penalized(
            with_pc(polled, target),
            if crosses_page(from, target) {
                2
            } else {
                1
            },
        )
    } else {
        polled
    }
}

/// Status as an instruction pulls it from the stack: B clear, bit 5 set.
pub open spec fn pulled_status(bits: u8) -> CpuFlags {
    CpuFlags { bits }.with(CpuFlags::BREAK, false).with(CpuFlags::BREAK2, true)
}

#[verifier::opaque]
pub open spec fn stack_run<M: Mapper>(s: CpuModel<M::Model>, op: Operation) -> CpuModel<M::Model> {
    match op {
        Operation::Pha => pushed::<M>(s, s.regs.register_a),
        Operation::Php => pushed::<M>(
            s,
            s.regs.status.with(CpuFlags::BREAK, true).with(CpuFlags::BREAK2, true).bits,
        ),
        Operation::Pla => {
            let r = popped::<M>(s);
            with_regs(r.cpu, r.cpu.regs.with_a(r.value))
        },
        _ => {
            let r = popped::<M>(s);
            with_regs(r.cpu, Registers { status: pulled_status(r.value), ..r.cpu.regs })
        },
    }
}

/// An indirect jump, whose pointer does not carry into its high byte.
#[verifier::opaque]
pub open spec fn indirect_jump_run<M: Mapper>(s: CpuModel<M::Model>) -> CpuModel<M::Model> {
    let w = word_read::<M>(s, s.regs.program_counter);
    let lo = core_read::<M>(w.cpu, w.value);
    let hi = core_read::<M>(
        lo.cpu,
        if w.value % 256 == 255 {
            (w.value / 256 * 256) as u16
        } else {
            (w.value + 1) as u16
        },
    );
    with_pc(hi.cpu, joined(lo.value, hi.value))
}

#[verifier::opaque]
pub open spec fn jump_run<M: Mapper>(s: CpuModel<M::Model>, op: Operation) -> CpuModel<M::Model> {
    let pc = s.regs.program_counter;
    match op {
        Operation::JmpAbsolute => {
            let w = word_read::<M>(s, pc);
            with_pc(w.cpu, w.value)
        },
        Operation::JmpIndirect => indirect_jump_run::<M>(s),
        Operation::Jsr => {
            let returning = word_pushed::<M>(s, pc.wrapping_add(1));
            let w = word_read::<M>(returning, returning.regs.program_counter);
            with_pc(w.cpu, w.value)
        },
        Operation::Rts => {
            let w = word_popped::<M>(s);
            with_pc(w.cpu, w.value.wrapping_add(1))
        },
        _ => {
            let r = popped::<M>(s);
            let w = word_popped::<M>(
                with_regs(r.cpu, Registers { status: pulled_status(r.value), ..r.cpu.regs }),
            );
            with_pc(w.cpu, w.value)
        },
    }
}

/// The kinds of instruction, by what they do to the bus.
#[derive(Clone, Copy, Debug, PartialEq, Eq, Structural)]
pub enum Kind {
    Read,
    Store,
    Modify,
    HighStore,
    Branch,
    Stack,
    Jump,
    Implied,
}

pub open spec fn kind_of(op: Operation) -> Kind {
    match op {
        Operation::Lda | Operation::Ldx | Operation::Ldy | Operation::And | Operation::Eor
        | Operation::Ora | Operation::Adc | Operation::Sbc | Operation::Cmp | Operation::Cpx
        | Operation::Cpy | Operation::Bit | Operation::Lax | Operation::Las | Operation::Anc
        | Operation::Alr | Operation::Arr | Operation::Axs | Operation::Ane | Operation::Lxa
        | Operation::NopRead => Kind::Read,
        Operation::Sta | Operation::Stx | Operation::Sty | Operation::Sax => Kind::Store,
        Operation::Asl | Operation::Lsr | Operation::Rol | Operation::Ror | Operation::Inc
        | Operation::Dec | Operation::Slo | Operation::Rla | Operation::Sre | Operation::Rra
        | Operation::Dcp | Operation::Isb => Kind::Modify,
        Operation::Shy | Operation::Shx | Operation::Sha | Operation::Tas => Kind::HighStore,
        Operation::Bpl | Operation::Bmi | Operation::Bvc | Operation::Bvs | Operation::Bcc
        | Operation::Bcs | Operation::Bne | Operation::Beq => Kind::Branch,
        Operation::Pha | Operation::Php | Operation::Pla | Operation::Plp => Kind::Stack,
        Operation::JmpAbsolute | Operation::JmpIndirect | Operation::Jsr | Operation::Rts
        | Operation::Rti => Kind::Jump,
        _ => Kind::Implied,
    }
}

/// An instruction's own work, behind the opcode fetch.
#[verifier::opaque]
pub open spec fn executed<M: Mapper>(s: CpuModel<M::Model>, code: OpCode) -> CpuModel<M::Model> {
    match kind_of(code.operation) {
        Kind::Read => read_run::<M>(s, code.operation, code.mode),
        Kind::Store => store_run::<M>(s, code.operation, code.mode),
        Kind::Modify => modify_run::<M>(s, code.operation, code.mode),
        Kind::HighStore => high_store_run::<M>(s, code.operation, code.mode),
        Kind::Branch => branch_run::<M>(s, code.operation),
        Kind::Stack => stack_run::<M>(s, code.operation),
        Kind::Jump => jump_run::<M>(s, code.operation),
        Kind::Implied => with_regs(s, s.regs.implied(code.operation)),
    }
}

/// Internal cycles that remain in an instruction's budget.
pub open spec fn cycles_remaining(p: Progress, base: u8) -> nat {
    if base + p.additional_cycles >= p.instr_accesses {
        (base + p.additional_cycles - p.instr_accesses) as nat
    } else {
        0
    }
}

// ---- Interrupts -----------------------------------------------------------------------

/// The start of the interrupt sequence: the dummy fetches. A software interrupt
/// skips its signature byte.
#[verifier::opaque]
pub open spec fn interrupt_begun<M: Mapper>(s: CpuModel<M::Model>, brk: bool) -> CpuModel<
    M::Model,
> {
    let first = core_read::<M>(s, s.regs.program_counter).cpu;
    if brk {
        with_pc(first, first.regs.program_counter.wrapping_add(1))
    } else {
        core_read::<M>(first, first.regs.program_counter).cpu
    }
}

/// The late vector decision: a latched NMI is consumed and takes the vector.
pub open spec fn nmi_consumed<V>(s: CpuModel<V>) -> CpuModel<V> {
    if s.lines.nmi_pending {
        CpuModel {
            lines: InterruptLines {
                nmi_pending: false,
                nmi_pending_delayed: false,
                ..s.lines
            },
            ..s
        }
    } else {
        s
    }
}

/// The seven-cycle sequence shared by BRK, IRQ and NMI. The vector is chosen
/// after the return address is pushed: a pending NMI at that moment steals it
/// even when the sequence began as a BRK or an IRQ.
#[verifier::opaque]
pub open spec fn interrupt_serviced<M: Mapper>(s: CpuModel<M::Model>, brk: bool) -> CpuModel<
    M::Model,
> {
    let begun = interrupt_begun::<M>(s, brk);
    let returning = word_pushed::<M>(begun, begun.regs.program_counter);
    let vector = if returning.lines.nmi_pending {
        0xfffau16
    } else {
        0xfffeu16
    };
    let decided = nmi_consumed(returning);
    let saved = pushed::<M>(
        decided,
        decided.regs.status.with(CpuFlags::BREAK, brk).with(CpuFlags::BREAK2, true).bits,
    );
    let masked = with_regs(saved, saved.regs.with_flag(CpuFlags::INTERRUPT_DISABLE, true));
    let w = word_read::<M>(masked, vector);
    with_pc(w.cpu, w.value)
}

/// The end of an instruction: an interrupt recognized at its poll point is
/// taken. NMI wins over IRQ, and IRQ honours the given interrupt-disable flag.
#[verifier::opaque]
pub open spec fn interrupts_polled<M: Mapper>(
    s: CpuModel<M::Model>,
    irq_disabled: bool,
) -> CpuModel<M::Model> {
    let poll = s.lines.recognized();
    let polled = CpuModel { lines: InterruptLines { branch_poll: None, ..s.lines }, ..s };
    if poll.nmi || (poll.irq && !irq_disabled) {
        interrupt_serviced::<M>(polled, false)
    } else {
        polled
    }
}

// ---- Stepping -------------------------------------------------------------------------

pub open spec fn with_executing<V>(s: CpuModel<V>, executing: bool) -> CpuModel<V> {
    CpuModel { progress: Progress { executing, ..s.progress }, ..s }
}

/// Whether the next step meets the halt sentinel.
pub open spec fn halts<M: Mapper>(s: CpuModel<M::Model>) -> bool {
    s.halt_on_brk && bus_model::value_at::<M>(s.bus, s.regs.program_counter) == 0
}

/// The look at the next opcode that the halt sentinel asks for; it takes no
/// time.
pub open spec fn peeked<M: Mapper>(s: CpuModel<M::Model>) -> CpuModel<M::Model> {
    if s.halt_on_brk {
        CpuModel {
            bus: bus_model::after_mem_read::<M>(s.bus, s.regs.program_counter),
            ..s
        }
    } else {
        s
    }
}

/// The opcode fetch.
#[verifier::opaque]
pub open spec fn opcode_fetched<M: Mapper>(s: CpuModel<M::Model>) -> Fetched<M::Model> {
    let r = core_read::<M>(
        CpuModel {
            progress: Progress { executing: true, instr_accesses: 0, ..s.progress },
            ..s
        },
        s.regs.program_counter,
    );
    let advanced = with_pc(r.cpu, r.cpu.regs.program_counter.wrapping_add(1));
    Fetched {
        cpu: CpuModel {
            progress: Progress { additional_cycles: 0, ..advanced.progress },
            ..advanced
        },
        value: r.value,
    }
}

/// An instruction with its operand skipped, unless it moved the program counter
/// itself.
pub open spec fn operand_skipped<V>(s: CpuModel<V>, from: u16, len: u8) -> CpuModel<V> {
    if s.regs.program_counter == from {
        with_pc(s, from.wrapping_add(len.wrapping_sub(1) as u16))
    } else {
        s
    }
}

/// The rest of an instruction behind its fetch. IRQ goes by the
/// interrupt-disable flag as it stood before the instruction, so CLI, SEI and
/// PLP take effect one instruction late; RTI's change is immediate.
#[verifier::opaque]
pub open spec fn instruction_run<M: Mapper>(s: CpuModel<M::Model>, code: u8) -> CpuModel<
    M::Model,
> {
    if code == 0 {
        interrupt_serviced::<M>(s, true)
    } else {
        let opcode = opcode_of(code);
        let done = executed::<M>(s, opcode);
        let finished = core_cycles::<M>(
            done,
            cycles_remaining(done.progress, opcode.cycles),
        );
        let next = operand_skipped(finished, s.regs.program_counter, opcode.len);
        interrupts_polled::<M>(
            next,
            if code == 0x40 {
                next.regs.has(CpuFlags::INTERRUPT_DISABLE)
            } else {
                s.regs.has(CpuFlags::INTERRUPT_DISABLE)
            },
        )
    }
}

/// One step of the core: the halt sentinel stops it one past the sentinel byte
/// and without a cycle; anything else is an instruction.
#[verifier::opaque]
pub open spec fn stepped<M: Mapper>(s: CpuModel<M::Model>) -> CpuModel<M::Model> {
    let idle = with_executing(s, false);
    let looked = peeked::<M>(idle);
    if halts::<M>(idle) {
        with_pc(looked, looked.regs.program_counter.wrapping_add(1))
    } else {
        let r = opcode_fetched::<M>(looked);
        instruction_run::<M>(r.cpu, r.value)
    }
}

/// The state after at most `limit` steps, stopping behind the halt sentinel.
pub open spec fn run_for<M: Mapper>(s: CpuModel<M::Model>, limit: nat) -> CpuModel<M::Model>
    decreases limit,
{
    if limit == 0 {
        s
    } else if halts::<M>(s) {
        stepped::<M>(s)
    } else {
        run_for::<M>(stepped::<M>(s), (limit - 1) as nat)
    }
}

/// Whether that run meets the halt sentinel.
pub open spec fn run_halts<M: Mapper>(s: CpuModel<M::Model>, limit: nat) -> bool
    decreases limit,
{
    limit > 0 && (halts::<M>(s) || run_halts::<M>(stepped::<M>(s), (limit - 1) as nat))
}

/// Why a run toward the next frame ended.
#[derive(Clone, Copy, Debug, PartialEq, Eq, Structural)]
pub enum FrameRun {
    FrameReady,
    Halted,
    OutOfSteps,
}

/// How a run toward the next frame ends.
pub open spec fn frame_run<M: Mapper>(s: CpuModel<M::Model>, limit: nat) -> FrameRun
    decreases limit,
{
    if s.bus.host_frame_ready {
        FrameRun::FrameReady
    } else if limit == 0 {
        FrameRun::OutOfSteps
    } else if halts::<M>(s) {
        FrameRun::Halted
    } else {
        frame_run::<M>(stepped::<M>(s), (limit - 1) as nat)
    }
}

/// The state where that run ends. The frame event is consumed.
pub open spec fn frame_run_end<M: Mapper>(s: CpuModel<M::Model>, limit: nat) -> CpuModel<M::Model>
    decreases limit,
{
    if s.bus.host_frame_ready {
        with_executing(
            CpuModel { bus: BusModel { host_frame_ready: false, ..s.bus }, ..s },
            false,
        )
    } else if limit == 0 {
        s
    } else if halts::<M>(s) {
        stepped::<M>(s)
    } else {
        frame_run_end::<M>(stepped::<M>(s), (limit - 1) as nat)
    }
}

// ---- Programs and snapshots ----------------------------------------------------------

/// Reset: registers at their start values, and the reset vector followed.
#[verifier::opaque]
pub open spec fn reset_run<M: Mapper>(s: CpuModel<M::Model>) -> CpuModel<M::Model> {
    let cleared = CpuModel {
        regs: Registers {
            register_a: 0,
            register_x: 0,
            register_y: 0,
            status: CpuFlags { bits: STATUS_RESET },
            stack_pointer: STACK_RESET,
            ..s.regs
        },
        dmc_held_read: None,
        ..s
    };
    let w = word_read::<M>(cleared, 0xfffc);
    with_pc(w.cpu, w.value)
}

/// The first `n` bytes of a program written from $0600 on.
pub open spec fn program_written<M: Mapper>(
    s: CpuModel<M::Model>,
    program: Seq<u8>,
    n: nat,
) -> CpuModel<M::Model>
    decreases n,
{
    if n == 0 {
        s
    } else {
        core_write::<M>(
            program_written::<M>(s, program, (n - 1) as nat),
            0x0600u16.wrapping_add(((n - 1) % 0x10000) as u16),
            program[n - 1],
        )
    }
}

/// The core's own state at one moment, and the machine's.
pub struct CpuSnapshotModel<V> {
    pub regs: Registers,
    pub lines: InterruptLines,
    pub additional_cycles: u8,
    pub dmc_held_read: Option<DmcHeldRead>,
    pub bus: SnapshotModel<V>,
}

pub open spec fn snapshot_of<V>(s: CpuModel<V>) -> CpuSnapshotModel<V> {
    CpuSnapshotModel {
        regs: s.regs,
        lines: s.lines,
        additional_cycles: s.progress.additional_cycles,
        dmc_held_read: s.dmc_held_read,
        bus: bus_model::snapshot_of(s.bus),
    }
}

/// The console with a snapshot put back. A branch's poll point, the access
/// count and the halt setting stay as they are.
pub open spec fn restored<V>(s: CpuModel<V>, t: CpuSnapshotModel<V>) -> CpuModel<V> {
    CpuModel {
        regs: t.regs,
        lines: InterruptLines { branch_poll: s.lines.branch_poll, ..t.lines },
        progress: Progress { additional_cycles: t.additional_cycles, ..s.progress },
        dmc_held_read: t.dmc_held_read,
        bus: bus_model::restored(s.bus, t.bus),
        ..s
    }
}

} // verus!
