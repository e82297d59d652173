//! The 6502 core. Addresses lie in memory low byte first: `LDA $8000` is the
//! bytes `ad 00 80`.

use crate::bus::model as bus_model;
use crate::bus::model::InterruptBatch;
use crate::bus::{Bus, BusSnapshot};
use crate::cpu::model::{
    CpuModel, CpuSnapshotModel, DmcHeldRead, Fetched, FrameRun, Indexed, InterruptLines,
    InterruptPoll, Kind, Progress, Word,
};
use crate::cpu::registers::{
    plain_operation, CpuFlags, Registers, STACK_RESET, STATUS_RESET,
};
use crate::joypad::latency_goes_on;
use crate::mapper::Mapper;
use crate::opcodes::{opcode, AddressingMode, OpCode, Operation};
use crate::ppu::NesPPU;
use vstd::prelude::*;

pub mod budget;
pub mod decode;
pub mod effects;
pub mod host;
pub mod laws;
pub mod model;
pub mod program;
pub mod registers;

verus! {

/// The core on a bus `B`.
pub struct CPU<B> {
    pub regs: Registers,
    pub lines: InterruptLines,
    pub progress: Progress,
    pub dmc_held_read: Option<DmcHeldRead>,
    // When true, executing BRK ($00) ends the run instead of taking the
    // interrupt. BRK is the halt sentinel of automation and of small test
    // programs; programs that exercise real BRK/IRQ semantics clear it.
    pub halt_on_brk: bool,
    pub bus: B,
}

/// The whole console.
pub type Console<M> = CPU<Bus<NesPPU<M>>>;

impl<M: Mapper> View for CPU<Bus<NesPPU<M>>> {
    type V = CpuModel<M::Model>;

    open spec fn view(&self) -> CpuModel<M::Model> {
        CpuModel {
            regs: self.regs,
            lines: self.lines,
            progress: self.progress,
            dmc_held_read: self.dmc_held_read,
            halt_on_brk: self.halt_on_brk,
            bus: self.bus@,
        }
    }
}

fn join(lo: u8, hi: u8) -> (r: u16)
    ensures
        r == model::joined(lo, hi),
{
    hi as u16 * 256 + lo as u16
}

proof fn lemma_next_program_address(i: nat)
    ensures
        0x0600u16.wrapping_add((i as int % 0x10000) as u16).wrapping_add(1)
            == 0x0600u16.wrapping_add(((i + 1) % 0x10000) as u16),
{
}

fn uncarried_address(base: u16, addr: u16) -> (r: u16)
    ensures
        r == model::uncarried(base, addr),
{
    base / 256 * 256 + addr % 256
}

impl InterruptLines {
    pub fn latch_halted(&mut self, samples: InterruptBatch)
        ensures
            *final(self) == old(self).halted(samples),
    {
        self.nmi_pending = self.nmi_pending || samples.nmi_any;
        self.irq_line = samples.irq_last;
    }

    pub fn latch_cycle(&mut self, samples: InterruptBatch)
        ensures
            *final(self) == old(self).cycled(samples),
    {
        if samples.cycles == 0 {
            return ;
        }
        // The first sample belongs to the core cycle. Any remaining samples
        // occurred while RDY held the core for DMA.
        self.nmi_pending_delayed = self.nmi_pending;
        self.nmi_pending = self.nmi_pending || samples.nmi_first;
        self.irq_line_delayed = self.irq_line;
        self.irq_line = samples.irq_first;
        if samples.cycles > 1 {
            self.latch_halted(samples);
        }
    }

    fn recognize(&self) -> (r: InterruptPoll)
        ensures
            r == self.recognized(),
    {
        match self.branch_poll {
            Some(poll) => poll,
            None => InterruptPoll { nmi: self.nmi_pending_delayed, irq: self.irq_line_delayed },
        }
    }
}

impl<M: Mapper> CPU<Bus<NesPPU<M>>> {
    pub fn new(bus: Bus<NesPPU<M>>) -> (r: Self)
        ensures
            r@ == model::power_on(bus@),
            r.bus == bus,
    {
        CPU {
            regs: Registers {
                register_a: 0,
                register_x: 0,
                register_y: 0,
                status: CpuFlags { bits: STATUS_RESET },
                program_counter: 0x8000,
                stack_pointer: STACK_RESET,
            },
            lines: InterruptLines {
                nmi_pending: false,
                nmi_pending_delayed: false,
                irq_line: false,
                irq_line_delayed: false,
                branch_poll: None,
            },
            progress: Progress { additional_cycles: 0, instr_accesses: 0, executing: false },
            dmc_held_read: None,
            halt_on_brk: true,
            bus,
        }
    }

    // Advances the machine exactly one CPU cycle and, at the end of it, samples
    // the interrupt lines.
    fn cycle(&mut self)
        requires
            model::wf::<M>(old(self)@),
        ensures
            final(self)@ == model::core_cycle::<M>(old(self)@),
            latency_goes_on(old(self).bus.joypad1, final(self).bus.joypad1),
            model::wf::<M>(final(self)@),
    {
        proof {
            reveal(model::core_cycle);
        }
        let samples = self.bus.tick(1);
        self.lines.latch_cycle(samples);
    }

    fn cycles(&mut self, n: u16)
        requires
            model::wf::<M>(old(self)@),
        ensures
            final(self)@ == model::core_cycles::<M>(old(self)@, n as nat),
            latency_goes_on(old(self).bus.joypad1, final(self).bus.joypad1),
            model::wf::<M>(final(self)@),
    {
        let mut done: u16 = 0;
        while done < n
            invariant
                done <= n,
                model::wf::<M>(self@),
                latency_goes_on(old(self).bus.joypad1, self.bus.joypad1),
                self@ == model::core_cycles::<M>(old(self)@, done as nat),
            decreases n - done,
        {
            self.cycle();
            done += 1;
        }
    }

    // Advances the machine one CPU cycle for a bus access performed while an
    // instruction is executing, and counts it toward the instruction's access
    // total. Accesses outside instruction execution do not tick.
    fn bus_cycle(&mut self)
        requires
            model::wf::<M>(old(self)@),
        ensures
            final(self)@ == model::access_cycle::<M>(old(self)@),
            latency_goes_on(old(self).bus.joypad1, final(self).bus.joypad1),
            model::wf::<M>(final(self)@),
    {
        proof {
            reveal(model::access_cycle);
        }
        if self.progress.executing {
            self.progress.instr_accesses = self.progress.instr_accesses.saturating_add(1);
            self.cycle();
        }
    }

    fn repeat_held_read(&mut self, addr: u16)
        requires
            model::wf::<M>(old(self)@),
        ensures
            final(self)@ == model::held_read_repeated::<M>(old(self)@, addr),
            latency_goes_on(old(self).bus.joypad1, final(self).bus.joypad1),
            model::wf::<M>(final(self)@),
    {
        proof {
            reveal(model::held_read_repeated);
        }
        if self.progress.executing && self.dmc_held_read.is_some() {
            self.dmc_held_read = None;
            self.bus.repeat_dmc_halted_read(addr);
        }
    }

    fn schedule_dmc_halt(&mut self)
        requires
            model::wf::<M>(old(self)@),
        ensures
            final(self)@ == model::dmc_scheduled::<M>(old(self)@),
            latency_goes_on(old(self).bus.joypad1, final(self).bus.joypad1),
            model::wf::<M>(final(self)@),
    {
        proof {
            reveal(model::dmc_scheduled);
        }
        if self.progress.executing {
            if let Some(kind) = self.bus.dmc_request_kind() {
                if let Some(samples) = self.bus.dmc_halt_before_next_read() {
                    self.lines.latch_halted(samples);
                    self.dmc_held_read = Some(DmcHeldRead { kind });
                }
            }
        }
    }

    /// A read by the core. RDY is sampled between core bus slots: a scheduled
    /// DMC DMA is serviced now, and its held/repeated address applies to the
    /// next CPU read slot. Inspection reads neither tick nor participate in
    /// DMA.
    pub fn mem_read(&mut self, addr: u16) -> (r: u8)
        requires
            model::wf::<M>(old(self)@),
        ensures
            fetched(final(self)@, r) == model::core_read::<M>(old(self)@, addr),
            latency_goes_on(old(self).bus.joypad1, final(self).bus.joypad1),
            model::wf::<M>(final(self)@),
    {
        proof {
            reveal(model::core_read);
        }
        self.repeat_held_read(addr);
        self.schedule_dmc_halt();
        let value: u8 = self.bus.mem_read(addr);
        self.bus_cycle();
        value
    }

    pub fn mem_write(&mut self, addr: u16, data: u8)
        requires
            model::wf::<M>(old(self)@),
        ensures
            final(self)@ == model::core_write::<M>(old(self)@, addr, data),
            latency_goes_on(old(self).bus.joypad1, final(self).bus.joypad1),
            model::wf::<M>(final(self)@),
    {
        proof {
            reveal(model::core_write);
        }
        self.bus.mem_write(addr, data);
        self.bus_cycle();
    }

    pub fn mem_read_u16(&mut self, pos: u16) -> (r: u16)
        requires
            model::wf::<M>(old(self)@),
        ensures
            word(final(self)@, r) == model::word_read::<M>(old(self)@, pos),
            latency_goes_on(old(self).bus.joypad1, final(self).bus.joypad1),
            model::wf::<M>(final(self)@),
    {
        proof {
            reveal(model::word_read);
        }
        let lo: u8 = self.mem_read(pos);
        let hi: u8 = self.mem_read(pos.wrapping_add(1));
        join(lo, hi)
    }

    pub fn mem_write_u16(&mut self, pos: u16, data: u16)
        requires
            model::wf::<M>(old(self)@),
        ensures
            final(self)@ == model::word_written::<M>(old(self)@, pos, data),
            latency_goes_on(old(self).bus.joypad1, final(self).bus.joypad1),
            model::wf::<M>(final(self)@),
    {
        proof {
            reveal(model::word_written);
        }
        self.mem_write(pos, (data % 256) as u8);
        self.mem_write(pos.wrapping_add(1), (data / 256) as u8);
    }

    fn read_pointer(&mut self, ptr: u8) -> (r: u16)
        requires
            model::wf::<M>(old(self)@),
        ensures
            word(final(self)@, r) == model::pointer_read::<M>(old(self)@, ptr),
            latency_goes_on(old(self).bus.joypad1, final(self).bus.joypad1),
            model::wf::<M>(final(self)@),
    {
        proof {
            reveal(model::pointer_read);
        }
        let lo: u8 = self.mem_read(ptr as u16);
        let hi: u8 = self.mem_read(ptr.wrapping_add(1) as u16);
        join(lo, hi)
    }

    fn stack_push(&mut self, data: u8)
        requires
            model::wf::<M>(old(self)@),
        ensures
            final(self)@ == model::pushed::<M>(old(self)@, data),
            latency_goes_on(old(self).bus.joypad1, final(self).bus.joypad1),
            model::wf::<M>(final(self)@),
    {
        proof {
            reveal(model::pushed);
        }
        self.mem_write(0x100 + self.regs.stack_pointer as u16, data);
        self.regs.stack_pointer = self.regs.stack_pointer.wrapping_sub(1);
    }

    fn stack_pop(&mut self) -> (r: u8)
        requires
            model::wf::<M>(old(self)@),
        ensures
            fetched(final(self)@, r) == model::popped::<M>(old(self)@),
            latency_goes_on(old(self).bus.joypad1, final(self).bus.joypad1),
            model::wf::<M>(final(self)@),
    {
        proof {
            reveal(model::popped);
        }
        self.regs.stack_pointer = self.regs.stack_pointer.wrapping_add(1);
        self.mem_read(0x100 + self.regs.stack_pointer as u16)
    }

    fn stack_push_u16(&mut self, data: u16)
        requires
            model::wf::<M>(old(self)@),
        ensures
            final(self)@ == model::word_pushed::<M>(old(self)@, data),
            latency_goes_on(old(self).bus.joypad1, final(self).bus.joypad1),
            model::wf::<M>(final(self)@),
    {
        proof {
            reveal(model::word_pushed);
        }
        self.stack_push((data / 256) as u8);
        self.stack_push((data % 256) as u8);
    }

    fn stack_pop_u16(&mut self) -> (r: u16)
        requires
            model::wf::<M>(old(self)@),
        ensures
            word(final(self)@, r) == model::word_popped::<M>(old(self)@),
            latency_goes_on(old(self).bus.joypad1, final(self).bus.joypad1),
            model::wf::<M>(final(self)@),
    {
        proof {
            reveal(model::word_popped);
        }
        let lo: u8 = self.stack_pop();
        let hi: u8 = self.stack_pop();
        join(lo, hi)
    }

    /// The address that an operand at `addr` names.
    pub fn get_absolute_address(&mut self, mode: &AddressingMode, addr: u16) -> (r: u16)
        requires
            model::wf::<M>(old(self)@),
            *mode != AddressingMode::Immediate,
            *mode != AddressingMode::NoneAddressing,
        ensures
            word(final(self)@, r) == model::absolute_address::<M>(old(self)@, *mode, addr),
            latency_goes_on(old(self).bus.joypad1, final(self).bus.joypad1),
            model::wf::<M>(final(self)@),
    {
        self.resolve_address(*mode, addr)
    }

    fn resolve_address(&mut self, mode: AddressingMode, addr: u16) -> (r: u16)
        requires
            model::wf::<M>(old(self)@),
        ensures
            word(final(self)@, r) == model::absolute_address::<M>(old(self)@, mode, addr),
            latency_goes_on(old(self).bus.joypad1, final(self).bus.joypad1),
            model::wf::<M>(final(self)@),
    {
        proof {
            reveal(model::absolute_address);
        }
        match mode {
            AddressingMode::ZeroPage => self.mem_read(addr) as u16,
            AddressingMode::ZeroPage_X => {
                let pos: u8 = self.mem_read(addr);
                pos.wrapping_add(self.regs.register_x) as u16
            },
            AddressingMode::ZeroPage_Y => {
                let pos: u8 = self.mem_read(addr);
                pos.wrapping_add(self.regs.register_y) as u16
            },
            AddressingMode::Absolute => self.mem_read_u16(addr),
            AddressingMode::Absolute_X => {
                let base: u16 = self.mem_read_u16(addr);
                base.wrapping_add(self.regs.register_x as u16)
            },
            AddressingMode::Absolute_Y => {
                let base: u16 = self.mem_read_u16(addr);
                base.wrapping_add(self.regs.register_y as u16)
            },
            AddressingMode::Indirect_X => {
                let base: u8 = self.mem_read(addr);
                self.read_pointer(base.wrapping_add(self.regs.register_x))
            },
            AddressingMode::Indirect_Y => {
                let base: u8 = self.mem_read(addr);
                let pointer: u16 = self.read_pointer(base);
                pointer.wrapping_add(self.regs.register_y as u16)
            },
            AddressingMode::Immediate | AddressingMode::NoneAddressing => addr,
        }
    }

    // The base address and index register of an indexed mode, without the
    // page-cross timing penalty.
    fn indexed_base(&mut self, mode: AddressingMode) -> (r: (u16, u8))
        requires
            model::wf::<M>(old(self)@),
        ensures
            (Indexed { cpu: final(self)@, base: r.0, index: r.1 }) == model::indexed_base::<M>(
                old(self)@,
                mode,
            ),
            latency_goes_on(old(self).bus.joypad1, final(self).bus.joypad1),
            model::wf::<M>(final(self)@),
    {
        proof {
            reveal(model::indexed_base);
        }
        let pc: u16 = self.regs.program_counter;
        match mode {
            AddressingMode::Absolute_X => {
                let base: u16 = self.mem_read_u16(pc);
                (base, self.regs.register_x)
            },
            AddressingMode::Absolute_Y => {
                let base: u16 = self.mem_read_u16(pc);
                (base, self.regs.register_y)
            },
            AddressingMode::Indirect_Y => {
                let ptr: u8 = self.mem_read(pc);
                let base: u16 = self.read_pointer(ptr);
                (base, self.regs.register_y)
            },
            _ => {
                let addr: u16 = self.resolve_address(mode, pc);
                (addr, 0)
            },
        }
    }

    // Effective address for a store. Indexed stores have fixed timing but
    // always perform a dummy read at the address formed with the un-carried
    // high byte before writing, which is observable on hardware registers.
    fn get_write_operand_addressing(&mut self, mode: AddressingMode) -> (r: u16)
        requires
            model::wf::<M>(old(self)@),
        ensures
            word(final(self)@, r) == model::write_address::<M>(old(self)@, mode),
            latency_goes_on(old(self).bus.joypad1, final(self).bus.joypad1),
            model::wf::<M>(final(self)@),
    {
        proof {
            reveal(model::write_address);
        }
        let (base, index): (u16, u8) = self.indexed_base(mode);
        let addr: u16 = base.wrapping_add(index as u16);
        if mode == AddressingMode::Absolute_X || mode == AddressingMode::Absolute_Y || mode
            == AddressingMode::Indirect_Y {
            let _ = self.mem_read(uncarried_address(base, addr));
        }
        addr
    }

    // Indexed reads take one additional cycle when their effective address
    // crosses a page, and first perform a dummy read from the address formed
    // with the un-carried high byte. That access is visible when it lands on a
    // hardware register, so it is issued rather than only counted.
    fn get_read_operand_addressing(&mut self, mode: AddressingMode) -> (r: u16)
        requires
            model::wf::<M>(old(self)@),
        ensures
            word(final(self)@, r) == model::read_address::<M>(old(self)@, mode),
            latency_goes_on(old(self).bus.joypad1, final(self).bus.joypad1),
            model::wf::<M>(final(self)@),
    {
        proof {
            reveal(model::read_address);
        }
        let (base, index): (u16, u8) = self.indexed_base(mode);
        let addr: u16 = base.wrapping_add(index as u16);
        let indexed = mode == AddressingMode::Absolute_X || mode == AddressingMode::Absolute_Y
            || mode == AddressingMode::Indirect_Y;
        if indexed && base / 256 != addr / 256 {
            self.penalize(1);
            let _ = self.mem_read(uncarried_address(base, addr));
        }
        addr
    }

    fn penalize(&mut self, cycles: u8)
        requires
            model::wf::<M>(old(self)@),
        ensures
            final(self)@ == model::penalized(old(self)@, cycles),
            latency_goes_on(old(self).bus.joypad1, final(self).bus.joypad1),
            model::wf::<M>(final(self)@),
    {
        self.progress.additional_cycles = self.progress.additional_cycles.wrapping_add(cycles);
    }

    fn run_read(&mut self, op: Operation, mode: AddressingMode)
        requires
            model::wf::<M>(old(self)@),
        ensures
            final(self)@ == model::read_run::<M>(old(self)@, op, mode),
            latency_goes_on(old(self).bus.joypad1, final(self).bus.joypad1),
            model::wf::<M>(final(self)@),
    {
        proof {
            reveal(model::read_run);
        }
        let addr: u16 = self.get_read_operand_addressing(mode);
        let data: u8 = self.mem_read(addr);
        self.regs.apply_read(op, data);
    }

    fn run_store(&mut self, op: Operation, mode: AddressingMode)
        requires
            model::wf::<M>(old(self)@),
        ensures
            final(self)@ == model::store_run::<M>(old(self)@, op, mode),
            latency_goes_on(old(self).bus.joypad1, final(self).bus.joypad1),
            model::wf::<M>(final(self)@),
    {
        proof {
            reveal(model::store_run);
        }
        let addr: u16 = self.get_write_operand_addressing(mode);
        let value: u8 = self.regs.store_value(op);
        self.mem_write(addr, value);
    }

    // The combination read-modify-write opcodes reuse the plain ones, which
    // perform the fixed-timing access, the memory write-back and the carry
    // update, then fold the second operation into the accumulator.
    fn run_modify(&mut self, op: Operation, mode: AddressingMode)
        requires
            model::wf::<M>(old(self)@),
        ensures
            final(self)@ == model::modify_run::<M>(old(self)@, op, mode),
            latency_goes_on(old(self).bus.joypad1, final(self).bus.joypad1),
            model::wf::<M>(final(self)@),
    {
        proof {
            reveal(model::modify_run);
        }
        let plain = plain_operation(op);
        let addr: u16 = self.get_write_operand_addressing(mode);
        let data: u8 = self.mem_read(addr);
        let result: u8 = self.regs.modify(plain, data);
        self.mem_write(addr, result);
        self.regs.update_zero_and_negative_flags(result);
        self.regs.fold(op, result);
    }

    // The unstable store opcodes AND the source register with (high byte of the
    // base address + 1). Like any indexed store, the dummy read at the
    // un-carried address still happens (observable on APU registers).
    fn sh_store(&mut self, op: Operation, mode: AddressingMode)
        requires
            model::wf::<M>(old(self)@),
        ensures
            final(self)@ == model::high_store_run::<M>(old(self)@, op, mode),
            latency_goes_on(old(self).bus.joypad1, final(self).bus.joypad1),
            model::wf::<M>(final(self)@),
    {
        proof {
            reveal(model::high_store_run);
        }
        if op == Operation::Tas {
            self.regs.stack_pointer = self.regs.register_a & self.regs.register_x;
        }
        let (base, index): (u16, u8) = self.indexed_base(mode);
        let high: u8 = (base / 256) as u8;
        let value: u8 = self.regs.high_store_value(op, high.wrapping_add(1));
        let effective: u16 = base.wrapping_add(index as u16);
        let _ = self.mem_read(uncarried_address(base, effective));
        let target: u16 = if base / 256 != effective / 256 {
            join((effective % 256) as u8, value)
        } else {
            effective
        };
        self.mem_write(target, value);
    }

    fn branch(&mut self, op: Operation)
        requires
            model::wf::<M>(old(self)@),
        ensures
            final(self)@ == model::branch_run::<M>(old(self)@, op),
            latency_goes_on(old(self).bus.joypad1, final(self).bus.joypad1),
            model::wf::<M>(final(self)@),
    {
        proof {
            reveal(model::branch_run);
        }
        let taken = self.regs.takes_branch(op);
        let from: u16 = self.regs.program_counter.wrapping_add(1);
        let offset: u8 = self.mem_read(self.regs.program_counter);
        self.lines.branch_poll = Some(
            InterruptPoll { nmi: self.lines.nmi_pending, irq: self.lines.irq_line },
        );
        if taken {
            let jump: u16 = if offset < 128 {
                offset as u16
            } else {
                0xff00 + offset as u16
            };
            let target: u16 = from.wrapping_add(jump);
            self.regs.program_counter = target;
            if from / 256 != target / 256 {
                self.penalize(2);
            } else {
                self.penalize(1);
            }
        }
    }

    fn pull_status(&mut self, bits: u8)
        ensures
            final(self)@ == model::with_regs(
                old(self)@,
                Registers { status: model::pulled_status(bits), ..old(self)@.regs },
            ),
            final(self).bus == old(self).bus,
    {
        self.regs.status.bits = bits;
        self.regs.status.remove(CpuFlags::BREAK);
        self.regs.status.insert(CpuFlags::BREAK2);
    }

    fn run_stack(&mut self, op: Operation)
        requires
            model::wf::<M>(old(self)@),
        ensures
            final(self)@ == model::stack_run::<M>(old(self)@, op),
            latency_goes_on(old(self).bus.joypad1, final(self).bus.joypad1),
            model::wf::<M>(final(self)@),
    {
        proof {
            reveal(model::stack_run);
        }
        match op {
            Operation::Pha => self.stack_push(self.regs.register_a),
            Operation::Php => {
                let mut flags = self.regs.status;
                flags.insert(CpuFlags::BREAK);
                flags.insert(CpuFlags::BREAK2);
                self.stack_push(flags.bits);
            },
            Operation::Pla => {
                let data: u8 = self.stack_pop();
                self.regs.set_register_a(data);
            },
            _ => {
                let data: u8 = self.stack_pop();
                self.pull_status(data);
            },
        }
    }

    // The pointer's low byte wraps inside its page.
    fn jump_indirect(&mut self)
        requires
            model::wf::<M>(old(self)@),
        ensures
            final(self)@ == model::indirect_jump_run::<M>(old(self)@),
            latency_goes_on(old(self).bus.joypad1, final(self).bus.joypad1),
            model::wf::<M>(final(self)@),
    {
        proof {
            reveal(model::indirect_jump_run);
        }
        let pointer: u16 = self.mem_read_u16(self.regs.program_counter);
        let lo: u8 = self.mem_read(pointer);
        let hi: u8 = if pointer % 256 == 255 {
            self.mem_read(pointer / 256 * 256)
        } else {
            self.mem_read(pointer + 1)
        };
        self.regs.program_counter = join(lo, hi);
    }

    fn run_jump(&mut self, op: Operation)
        requires
            model::wf::<M>(old(self)@),
        ensures
            final(self)@ == model::jump_run::<M>(old(self)@, op),
            latency_goes_on(old(self).bus.joypad1, final(self).bus.joypad1),
            model::wf::<M>(final(self)@),
    {
        proof {
            reveal(model::jump_run);
        }
        match op {
            Operation::JmpAbsolute => {
                let target: u16 = self.mem_read_u16(self.regs.program_counter);
                self.regs.program_counter = target;
            },
            Operation::JmpIndirect => self.jump_indirect(),
            Operation::Jsr => {
                self.stack_push_u16(self.regs.program_counter.wrapping_add(1));
                let target: u16 = self.mem_read_u16(self.regs.program_counter);
                self.regs.program_counter = target;
            },
            Operation::Rts => {
                let target: u16 = self.stack_pop_u16();
                self.regs.program_counter = target.wrapping_add(1);
            },
            _ => {
                let bits: u8 = self.stack_pop();
                self.pull_status(bits);
                let target: u16 = self.stack_pop_u16();
                self.regs.program_counter = target;
            },
        }
    }

    fn execute(&mut self, code: OpCode)
        requires
            model::wf::<M>(old(self)@),
        ensures
            final(self)@ == model::executed::<M>(old(self)@, code),
            latency_goes_on(old(self).bus.joypad1, final(self).bus.joypad1),
            model::wf::<M>(final(self)@),
    {
        proof {
            reveal(model::executed);
        }
        match classify(code.operation) {
            Kind::Read => self.run_read(code.operation, code.mode),
            Kind::Store => self.run_store(code.operation, code.mode),
            Kind::Modify => self.run_modify(code.operation, code.mode),
            Kind::HighStore => self.sh_store(code.operation, code.mode),
            Kind::Branch => self.branch(code.operation),
            Kind::Stack => self.run_stack(code.operation),
            Kind::Jump => self.run_jump(code.operation),
            Kind::Implied => self.regs.apply_implied(code.operation),
        }
    }

    // The dummy fetches at the start of the interrupt sequence.
    fn begin_interrupt(&mut self, brk: bool)
        requires
            model::wf::<M>(old(self)@),
        ensures
            final(self)@ == model::interrupt_begun::<M>(old(self)@, brk),
            latency_goes_on(old(self).bus.joypad1, final(self).bus.joypad1),
            model::wf::<M>(final(self)@),
    {
        proof {
            reveal(model::interrupt_begun);
        }
        let _ = self.mem_read(self.regs.program_counter);
        if brk {
            // The signature byte; the return address skips it.
            self.regs.program_counter = self.regs.program_counter.wrapping_add(1);
        } else {
            let _ = self.mem_read(self.regs.program_counter);
        }
    }

    // Every access of the sequence ticks a real cycle, so the PPU/APU advance
    // through the pushes and vector fetch. `brk` selects the B flag on the
    // pushed status and the two-byte return address past the signature byte.
    fn service_interrupt(&mut self, brk: bool)
        requires
            model::wf::<M>(old(self)@),
        ensures
            final(self)@ == model::interrupt_serviced::<M>(old(self)@, brk),
            latency_goes_on(old(self).bus.joypad1, final(self).bus.joypad1),
            model::wf::<M>(final(self)@),
    {
        proof {
            reveal(model::interrupt_serviced);
        }
        self.begin_interrupt(brk);
        self.stack_push_u16(self.regs.program_counter);
        let vector: u16 = if self.lines.nmi_pending {
            0xfffa
        } else {
            0xfffe
        };
        if self.lines.nmi_pending {
            self.lines.nmi_pending = false;
            self.lines.nmi_pending_delayed = false;
        }
        let mut flags = self.regs.status;
        flags.set(CpuFlags::BREAK, brk);
        flags.set(CpuFlags::BREAK2, true);
        self.stack_push(flags.bits);
        self.regs.status.set(CpuFlags::INTERRUPT_DISABLE, true);
        let target: u16 = self.mem_read_u16(vector);
        self.regs.program_counter = target;
    }

    fn poll_interrupts(&mut self, irq_disabled: bool)
        requires
            model::wf::<M>(old(self)@),
        ensures
            final(self)@ == model::interrupts_polled::<M>(old(self)@, irq_disabled),
            latency_goes_on(old(self).bus.joypad1, final(self).bus.joypad1),
            model::wf::<M>(final(self)@),
    {
        proof {
            reveal(model::interrupts_polled);
        }
        let poll = self.lines.recognize();
        self.lines.branch_poll = None;
        if poll.nmi || (poll.irq && !irq_disabled) {
            self.service_interrupt(false);
        }
    }

    // Ticks the internal (non-bus-access) cycles that remain after an
    // instruction's real accesses, keeping the total exactly the opcode's cycle
    // budget plus any page-cross/branch penalty. Internal cycles never touch an
    // externally visible register, so batching them at the end is cycle-exact
    // for PPU/APU-visible timing.
    fn finish_instruction(&mut self, base_cycles: u8)
        requires
            model::wf::<M>(old(self)@),
        ensures
            final(self)@ == model::core_cycles::<M>(
                old(self)@,
                model::cycles_remaining(old(self)@.progress, base_cycles),
            ),
            latency_goes_on(old(self).bus.joypad1, final(self).bus.joypad1),
            model::wf::<M>(final(self)@),
    {
        let expected: u16 = base_cycles as u16 + self.progress.additional_cycles as u16;
        let issued: u16 = self.progress.instr_accesses as u16;
        let remaining: u16 = if expected >= issued {
            expected - issued
        } else {
            0
        };
        self.cycles(remaining);
    }

    fn fetch_opcode(&mut self) -> (r: u8)
        requires
            model::wf::<M>(old(self)@),
        ensures
            fetched(final(self)@, r) == model::opcode_fetched::<M>(old(self)@),
            latency_goes_on(old(self).bus.joypad1, final(self).bus.joypad1),
            model::wf::<M>(final(self)@),
    {
        proof {
            reveal(model::opcode_fetched);
        }
        self.progress.executing = true;
        self.progress.instr_accesses = 0;
        let code: u8 = self.mem_read(self.regs.program_counter);
        self.regs.program_counter = self.regs.program_counter.wrapping_add(1);
        self.progress.additional_cycles = 0;
        code
    }

    fn run_instruction(&mut self, code: u8)
        requires
            model::wf::<M>(old(self)@),
        ensures
            final(self)@ == model::instruction_run::<M>(old(self)@, code),
            latency_goes_on(old(self).bus.joypad1, final(self).bus.joypad1),
            model::wf::<M>(final(self)@),
    {
        proof {
            reveal(model::instruction_run);
        }
        // A software interrupt's handler runs its first instruction before
        // interrupts are polled again, so no poll happens here.
        if code == 0x00 {
            self.service_interrupt(true);
            return ;
        }
        let entry = opcode(code);
        let irq_disabled_before = self.regs.status.contains(CpuFlags::INTERRUPT_DISABLE);
        let from: u16 = self.regs.program_counter;
        self.execute(entry);
        self.finish_instruction(entry.cycles);
        if self.regs.program_counter == from {
            self.regs.program_counter = from.wrapping_add(entry.len.wrapping_sub(1) as u16);
        }
        let irq_disabled = if code == 0x40 {
            self.regs.status.contains(CpuFlags::INTERRUPT_DISABLE)
        } else {
            irq_disabled_before
        };
        self.poll_interrupts(irq_disabled);
    }

    /// One step of the core. Tells whether it met the halt sentinel, which is
    /// honoured before a cycle is spent on the fetch: it is an automation stop
    /// marker, not a real executed instruction.
    pub fn step(&mut self) -> (r: bool)
        requires
            model::wf::<M>(old(self)@),
        ensures
            final(self)@ == model::stepped::<M>(old(self)@),
            r == model::halts::<M>(old(self)@),
            latency_goes_on(old(self).bus.joypad1, final(self).bus.joypad1),
            model::wf::<M>(final(self)@),
    {
        proof {
            reveal(model::stepped);
        }
        self.progress.executing = false;
        if self.halt_on_brk {
            let next: u8 = self.bus.mem_read(self.regs.program_counter);
            if next == 0 {
                self.regs.program_counter = self.regs.program_counter.wrapping_add(1);
                return true;
            }
        }
        let code: u8 = self.fetch_opcode();
        self.run_instruction(code);
        false
    }

    /// Runs at most `limit` steps; tells whether the halt sentinel ended the
    /// run.
    pub fn run(&mut self, limit: u64) -> (r: bool)
        requires
            model::wf::<M>(old(self)@),
        ensures
            final(self)@ == model::run_for::<M>(old(self)@, limit as nat),
            r == model::run_halts::<M>(old(self)@, limit as nat),
            latency_goes_on(old(self).bus.joypad1, final(self).bus.joypad1),
            model::wf::<M>(final(self)@),
    {
        let mut left: u64 = limit;
        while left > 0
            invariant
                model::wf::<M>(self@),
                latency_goes_on(old(self).bus.joypad1, self.bus.joypad1),
                model::run_for::<M>(self@, left as nat) == model::run_for::<M>(
                    old(self)@,
                    limit as nat,
                ),
                model::run_halts::<M>(self@, left as nat) == model::run_halts::<M>(
                    old(self)@,
                    limit as nat,
                ),
            decreases left,
        {
            if self.step() {
                return true;
            }
            left -= 1;
        }
        false
    }

    /// Runs to the next host-facing vblank boundary, for at most `limit` steps.
    /// The bus raises this event independently of NMI enable; execution stops
    /// before any NMI-handler instruction can poll the controller.
    pub fn run_until_frame_ready(&mut self, limit: u64) -> (r: FrameRun)
        requires
            model::wf::<M>(old(self)@),
        ensures
            final(self)@ == model::frame_run_end::<M>(old(self)@, limit as nat),
            r == model::frame_run::<M>(old(self)@, limit as nat),
            latency_goes_on(old(self).bus.joypad1, final(self).bus.joypad1),
            model::wf::<M>(final(self)@),
    {
        let mut left: u64 = limit;
        loop
            invariant
                model::wf::<M>(self@),
                latency_goes_on(old(self).bus.joypad1, self.bus.joypad1),
                model::frame_run_end::<M>(self@, left as nat) == model::frame_run_end::<M>(
                    old(self)@,
                    limit as nat,
                ),
                model::frame_run::<M>(self@, left as nat) == model::frame_run::<M>(
                    old(self)@,
                    limit as nat,
                ),
            decreases left,
        {
            if self.bus.has_host_frame_ready() {
                let _ = self.bus.take_host_frame_ready();
                self.progress.executing = false;
                return FrameRun::FrameReady;
            }
            if left == 0 {
                return FrameRun::OutOfSteps;
            }
            if self.step() {
                return FrameRun::Halted;
            }
            left -= 1;
        }
    }

    /// Chooses real BRK/IRQ semantics. With `halt` clear, BRK pushes the return
    /// address and status, sets the interrupt-disable flag, and vectors through
    /// $FFFE instead of ending the run.
    pub fn set_halt_on_brk(&mut self, halt: bool)
        ensures
            final(self)@ == (CpuModel { halt_on_brk: halt, ..old(self)@ }),
            final(self).bus == old(self).bus,
    {
        self.halt_on_brk = halt;
    }

    pub fn reset(&mut self)
        requires
            model::wf::<M>(old(self)@),
        ensures
            final(self)@ == model::reset_run::<M>(old(self)@),
            latency_goes_on(old(self).bus.joypad1, final(self).bus.joypad1),
            model::wf::<M>(final(self)@),
    {
        proof {
            reveal(model::reset_run);
        }
        self.regs.register_a = 0;
        self.regs.register_x = 0;
        self.regs.register_y = 0;
        self.regs.stack_pointer = STACK_RESET;
        self.regs.status = CpuFlags { bits: STATUS_RESET };
        self.dmc_held_read = None;
        let vector: u16 = self.mem_read_u16(0xfffc);
        self.regs.program_counter = vector;
    }

    /// Writes a program to $0600 and points the core at it.
    #[verifier::spinoff_prover]
    pub fn load(&mut self, program: &Vec<u8>)
        requires
            model::wf::<M>(old(self)@),
        ensures
            final(self)@ == model::with_pc(
                model::program_written::<M>(old(self)@, program@, program@.len()),
                0x0600,
            ),
            latency_goes_on(old(self).bus.joypad1, final(self).bus.joypad1),
            model::wf::<M>(final(self)@),
    {
        let len: usize = program.len();
        let mut i: usize = 0;
        let mut addr: u16 = 0x0600;
        while i < len
            invariant
                i <= len,
                len == program@.len(),
                addr == 0x0600u16.wrapping_add((i as int % 0x10000) as u16),
                model::wf::<M>(self@),
                latency_goes_on(old(self).bus.joypad1, self.bus.joypad1),
                self@ == model::program_written::<M>(old(self)@, program@, i as nat),
            decreases len - i,
        {
            let ghost before = self@;
            self.mem_write(addr, program[i]);
            addr = addr.wrapping_add(1);
            i += 1;
            proof {
                lemma_next_program_address((i - 1) as nat);
                assert(model::program_written::<M>(old(self)@, program@, i as nat)
                    == model::core_write::<M>(
                    before,
                    0x0600u16.wrapping_add(((i - 1) % 0x10000) as u16),
                    program@[i - 1],
                ));
            }
        }
        self.regs.program_counter = 0x0600;
    }

    /// Loads a program, follows the reset vector and runs at most `limit`
    /// steps; tells whether the halt sentinel ended the run.
    pub fn load_and_run(&mut self, program: &Vec<u8>, limit: u64) -> (r: bool)
        requires
            model::wf::<M>(old(self)@),
        ensures
            ({
                let loaded = model::with_pc(
                    model::program_written::<M>(old(self)@, program@, program@.len()),
                    0x0600,
                );
                let vector = model::word_read::<M>(loaded, 0xfffc);
                let ready = model::with_pc(vector.cpu, vector.value);
                &&& final(self)@ == model::run_for::<M>(ready, limit as nat)
                &&& r == model::run_halts::<M>(ready, limit as nat)
            }),
            latency_goes_on(old(self).bus.joypad1, final(self).bus.joypad1),
            model::wf::<M>(final(self)@),
    {
        self.load(program);
        let vector: u16 = self.mem_read_u16(0xfffc);
        self.regs.program_counter = vector;
        self.run(limit)
    }

    /// An independent copy of the console's state.
    pub fn snapshot(&self) -> (r: CpuSnapshot<M>)
        ensures
            r@ == model::snapshot_of(self@),
            r.bus.joypad1 == self.bus.joypad1,
            model::wf::<M>(self@) ==> bus_model::snapshot_wf::<M>(r@.bus),
    {
        CpuSnapshot {
            regs: self.regs,
            lines: self.lines,
            additional_cycles: self.progress.additional_cycles,
            dmc_held_read: self.dmc_held_read,
            bus: self.bus.snapshot(),
        }
    }

    /// Puts a snapshot back.
    pub fn restore(&mut self, snapshot: CpuSnapshot<M>)
        requires
            model::wf::<M>(old(self)@),
            bus_model::snapshot_wf::<M>(snapshot@.bus),
        ensures
            final(self)@ == model::restored(old(self)@, snapshot@),
            final(self).bus.joypad1 == snapshot.bus.joypad1,
            model::wf::<M>(final(self)@),
    {
        self.regs = snapshot.regs;
        self.lines = InterruptLines { branch_poll: self.lines.branch_poll, ..snapshot.lines };
        self.progress.additional_cycles = snapshot.additional_cycles;
        self.dmc_held_read = snapshot.dmc_held_read;
        self.bus.restore(snapshot.bus);
    }
}

/// The console's state at one moment.
pub struct CpuSnapshot<M: Mapper> {
    pub regs: Registers,
    pub lines: InterruptLines,
    pub additional_cycles: u8,
    pub dmc_held_read: Option<DmcHeldRead>,
    pub bus: BusSnapshot<M>,
}

impl<M: Mapper> View for CpuSnapshot<M> {
    type V = CpuSnapshotModel<M::Model>;

    open spec fn view(&self) -> CpuSnapshotModel<M::Model> {
        CpuSnapshotModel {
            regs: self.regs,
            lines: self.lines,
            additional_cycles: self.additional_cycles,
            dmc_held_read: self.dmc_held_read,
            bus: self.bus@,
        }
    }
}

fn classify(op: Operation) -> (r: Kind)
    ensures
        r == model::kind_of(op),
{
    match op {
        Operation::Lda | Operation::Ldx | Operation::Ldy | Operation::And | Operation::Eor
        | Operation::Ora | Operation::Adc | Operation::Sbc | Operation::Cmp | Operation::Cpx
        | Operation::Cpy | Operation::Bit | Operation::Lax | Operation::Las | Operation::Anc
        | Operation::Alr | Operation::Arr | Operation::Axs | Operation::Ane | Operation::Lxa
        | Operation::NopRead => Kind::Read,
        Operation::Sta | Operation::Stx | Operation::Sty | Operation::Sax => Kind::Store,
        Operation::Asl | Operation::Lsr | Operation::Rol | Operation::Ror | Operation::Inc
        | Operation::Dec | Operation::Slo | Operation::Rla | Operation::Sre | Operation::Rra
        | Operation::Dcp | Operation::Isb => Kind::Modify,
        Operation::Shy | Operation::Shx | Operation::Sha | Operation::Tas => Kind::HighStore,
        Operation::Bpl | Operation::Bmi | Operation::Bvc | Operation::Bvs | Operation::Bcc
        | Operation::Bcs | Operation::Bne | Operation::Beq => Kind::Branch,
        Operation::Pha | Operation::Php | Operation::Pla | Operation::Plp => Kind::Stack,
        Operation::JmpAbsolute | Operation::JmpIndirect | Operation::Jsr | Operation::Rts
        | Operation::Rti => Kind::Jump,
        _ => Kind::Implied,
    }
}

/// A state and the byte read in reaching it.
pub open spec fn fetched<V>(cpu: CpuModel<V>, value: u8) -> Fetched<V> {
    Fetched { cpu, value }
}

/// A state and the word computed in reaching it.
pub open spec fn word<V>(cpu: CpuModel<V>, value: u16) -> Word<V> {
    Word { cpu, value }
}

} // verus!
