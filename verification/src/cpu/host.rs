//! What running the core leaves of the host's settings, and what a snapshot
//! taken between two frames therefore brings back.

use crate::bus::delivery::{delivers, delivery_kept, only_enabled_delivery_moves_audio};
use crate::bus::model as bus_model;
use crate::cpu::model::{
    absolute_address, access_cycle, branch_run, core_cycle, core_cycles, core_read, core_write,
    cycles_remaining, dmc_scheduled, executed, frame_run, frame_run_end, halts,
    held_read_repeated, high_store_run, indexed_base, indirect_jump_run, instruction_run,
    interrupt_begun, interrupt_serviced, interrupts_polled, jump_run, kind_of, modify_run,
    nmi_consumed, opcode_fetched, operand_skipped, peeked, penalized, pointer_read, popped,
    pushed, read_address, read_run, restored, snapshot_of, stack_run, stepped, store_run,
    with_executing, with_regs, word_popped, word_pushed, word_read, write_address,
    CpuModel, FrameRun, InterruptLines, Kind, Progress,
};
use crate::cpu::registers::{plain_part, CpuFlags, Registers};
use crate::mapper::Mapper;
use crate::opcodes::{opcode_of, AddressingMode, OpCode, Operation};
use vstd::prelude::*;

verus! {

/// The host's settings as they were: delivery, the frame hook, tracing, what was
/// delivered or noted while they are off, and the halt setting.
pub open spec fn host_kept<V>(s: CpuModel<V>, t: CpuModel<V>) -> bool {
    delivery_kept(s.bus, t.bus) && t.halt_on_brk == s.halt_on_brk
}

/// The same, and no branch's poll point set or cleared.
pub open spec fn quiet<V>(s: CpuModel<V>, t: CpuModel<V>) -> bool {
    host_kept(s, t) && t.lines.branch_poll == s.lines.branch_poll
}

proof fn lemma_cycle<M: Mapper>(s: CpuModel<M::Model>)
    ensures
        quiet(s, core_cycle::<M>(s)),
{
    reveal(core_cycle);
    only_enabled_delivery_moves_audio::<M>(s.bus, 0, 0, 1);
}

proof fn lemma_cycles<M: Mapper>(s: CpuModel<M::Model>, n: nat)
    ensures
        quiet(s, core_cycles::<M>(s, n)),
    decreases n,
{
    if n > 0 {
        lemma_cycles::<M>(s, (n - 1) as nat);
        lemma_cycle::<M>(core_cycles::<M>(s, (n - 1) as nat));
    }
}

proof fn lemma_access<M: Mapper>(s: CpuModel<M::Model>)
    ensures
        quiet(s, access_cycle::<M>(s)),
{
    reveal(access_cycle);
    let accesses = if s.progress.instr_accesses == u8::MAX {
        u8::MAX
    } else {
        (s.progress.instr_accesses + 1) as u8
    };
    lemma_cycle::<M>(
        CpuModel { progress: Progress { instr_accesses: accesses, ..s.progress }, ..s },
    );
}

proof fn lemma_read<M: Mapper>(s: CpuModel<M::Model>, addr: u16)
    ensures
        quiet(s, core_read::<M>(s, addr).cpu),
{
    reveal(core_read);
    let held = held_read_repeated::<M>(s, addr);
    assert(quiet(s, held)) by {
        reveal(held_read_repeated);
        only_enabled_delivery_moves_audio::<M>(s.bus, addr, 0, 1);
    }
    let ready = dmc_scheduled::<M>(held);
    assert(quiet(held, ready)) by {
        reveal(dmc_scheduled);
        only_enabled_delivery_moves_audio::<M>(held.bus, addr, 0, 1);
    }
    let read = CpuModel { bus: bus_model::after_mem_read::<M>(ready.bus, addr), ..ready };
    assert(quiet(ready, read)) by {
        only_enabled_delivery_moves_audio::<M>(ready.bus, addr, 0, 1);
    }
    lemma_access::<M>(read);
}

proof fn lemma_write<M: Mapper>(s: CpuModel<M::Model>, addr: u16, data: u8)
    ensures
        quiet(s, core_write::<M>(s, addr, data)),
{
    reveal(core_write);
    let written = CpuModel { bus: bus_model::after_mem_write::<M>(s.bus, addr, data), ..s };
    assert(quiet(s, written)) by {
        only_enabled_delivery_moves_audio::<M>(s.bus, addr, data, 1);
    }
    lemma_access::<M>(written);
}

proof fn lemma_word_read<M: Mapper>(s: CpuModel<M::Model>, pos: u16)
    ensures
        quiet(s, word_read::<M>(s, pos).cpu),
{
    reveal(word_read);
    lemma_read::<M>(s, pos);
    lemma_read::<M>(core_read::<M>(s, pos).cpu, pos.wrapping_add(1));
}

proof fn lemma_pointer_read<M: Mapper>(s: CpuModel<M::Model>, ptr: u8)
    ensures
        quiet(s, pointer_read::<M>(s, ptr).cpu),
{
    reveal(pointer_read);
    lemma_read::<M>(s, ptr as u16);
    lemma_read::<M>(core_read::<M>(s, ptr as u16).cpu, ptr.wrapping_add(1) as u16);
}

proof fn lemma_pushed<M: Mapper>(s: CpuModel<M::Model>, data: u8)
    ensures
        quiet(s, pushed::<M>(s, data)),
{
    reveal(pushed);
    lemma_write::<M>(s, (0x100 + s.regs.stack_pointer) as u16, data);
}

proof fn lemma_popped<M: Mapper>(s: CpuModel<M::Model>)
    ensures
        quiet(s, popped::<M>(s).cpu),
{
    reveal(popped);
    let sp = s.regs.stack_pointer.wrapping_add(1);
    lemma_read::<M>(
        with_regs(s, Registers { stack_pointer: sp, ..s.regs }),
        (0x100 + sp) as u16,
    );
}

proof fn lemma_word_pushed<M: Mapper>(s: CpuModel<M::Model>, data: u16)
    ensures
        quiet(s, word_pushed::<M>(s, data)),
{
    reveal(word_pushed);
    lemma_pushed::<M>(s, (data / 256) as u8);
    lemma_pushed::<M>(pushed::<M>(s, (data / 256) as u8), (data % 256) as u8);
}

proof fn lemma_word_popped<M: Mapper>(s: CpuModel<M::Model>)
    ensures
        quiet(s, word_popped::<M>(s).cpu),
{
    reveal(word_popped);
    lemma_popped::<M>(s);
    lemma_popped::<M>(popped::<M>(s).cpu);
}

proof fn lemma_address<M: Mapper>(s: CpuModel<M::Model>, mode: AddressingMode, at: u16)
    ensures
        quiet(s, absolute_address::<M>(s, mode, at).cpu),
{
    reveal(absolute_address);
    let r = core_read::<M>(s, at);
    lemma_read::<M>(s, at);
    lemma_word_read::<M>(s, at);
    lemma_pointer_read::<M>(r.cpu, r.value.wrapping_add(r.cpu.regs.register_x));
    lemma_pointer_read::<M>(r.cpu, r.value);
}

proof fn lemma_indexed<M: Mapper>(s: CpuModel<M::Model>, mode: AddressingMode)
    ensures
        quiet(s, indexed_base::<M>(s, mode).cpu),
{
    reveal(indexed_base);
    let pc = s.regs.program_counter;
    let r = core_read::<M>(s, pc);
    lemma_read::<M>(s, pc);
    lemma_word_read::<M>(s, pc);
    lemma_pointer_read::<M>(r.cpu, r.value);
    lemma_address::<M>(s, mode, pc);
}

proof fn lemma_write_address<M: Mapper>(s: CpuModel<M::Model>, mode: AddressingMode)
    ensures
        quiet(s, write_address::<M>(s, mode).cpu),
{
    reveal(write_address);
    let i = indexed_base::<M>(s, mode);
    let addr = i.base.wrapping_add(i.index as u16);
    lemma_indexed::<M>(s, mode);
    lemma_read::<M>(i.cpu, crate::cpu::model::uncarried(i.base, addr));
}

proof fn lemma_read_address<M: Mapper>(s: CpuModel<M::Model>, mode: AddressingMode)
    ensures
        quiet(s, read_address::<M>(s, mode).cpu),
{
    reveal(read_address);
    let i = indexed_base::<M>(s, mode);
    let addr = i.base.wrapping_add(i.index as u16);
    lemma_indexed::<M>(s, mode);
    lemma_read::<M>(penalized(i.cpu, 1), crate::cpu::model::uncarried(i.base, addr));
}

proof fn lemma_read_run<M: Mapper>(s: CpuModel<M::Model>, op: Operation, mode: AddressingMode)
    ensures
        quiet(s, read_run::<M>(s, op, mode)),
{
    reveal(read_run);
    let w = read_address::<M>(s, mode);
    lemma_read_address::<M>(s, mode);
    lemma_read::<M>(w.cpu, w.value);
}

proof fn lemma_store_run<M: Mapper>(s: CpuModel<M::Model>, op: Operation, mode: AddressingMode)
    ensures
        quiet(s, store_run::<M>(s, op, mode)),
{
    reveal(store_run);
    let w = write_address::<M>(s, mode);
    lemma_write_address::<M>(s, mode);
    lemma_write::<M>(w.cpu, w.value, w.cpu.regs.stored(op));
}

proof fn lemma_modify_run<M: Mapper>(s: CpuModel<M::Model>, op: Operation, mode: AddressingMode)
    ensures
        quiet(s, modify_run::<M>(s, op, mode)),
{
    reveal(modify_run);
    let plain = plain_part(op);
    let w = write_address::<M>(s, mode);
    lemma_write_address::<M>(s, mode);
    let r = core_read::<M>(w.cpu, w.value);
    lemma_read::<M>(w.cpu, w.value);
    lemma_write::<M>(
        with_regs(r.cpu, r.cpu.regs.carried(plain, r.value)),
        w.value,
        r.cpu.regs.modified(plain, r.value),
    );
}

proof fn lemma_high_store_run<M: Mapper>(
    s: CpuModel<M::Model>,
    op: Operation,
    mode: AddressingMode,
)
    ensures
        quiet(s, high_store_run::<M>(s, op, mode)),
{
    reveal(high_store_run);
    let begun = if op == Operation::Tas {
        with_regs(
            s,
            Registers { stack_pointer: s.regs.register_a & s.regs.register_x, ..s.regs },
        )
    } else {
        s
    };
    let i = indexed_base::<M>(begun, mode);
    lemma_indexed::<M>(begun, mode);
    let value = i.cpu.regs.high_stored(op, ((i.base / 256) as u8).wrapping_add(1));
    let effective = i.base.wrapping_add(i.index as u16);
    let at = crate::cpu::model::uncarried(i.base, effective);
    let dummy = core_read::<M>(i.cpu, at);
    lemma_read::<M>(i.cpu, at);
    let target = if crate::cpu::model::crosses_page(i.base, effective) {
        crate::cpu::model::joined((effective % 256) as u8, value)
    } else {
        effective
    };
    lemma_write::<M>(dummy.cpu, target, value);
}

proof fn lemma_branch_run<M: Mapper>(s: CpuModel<M::Model>, op: Operation)
    ensures
        host_kept(s, branch_run::<M>(s, op)),
{
    reveal(branch_run);
    lemma_read::<M>(s, s.regs.program_counter);
}

proof fn lemma_stack_run<M: Mapper>(s: CpuModel<M::Model>, op: Operation)
    ensures
        quiet(s, stack_run::<M>(s, op)),
{
    reveal(stack_run);
    lemma_pushed::<M>(s, s.regs.register_a);
    lemma_pushed::<M>(
        s,
        s.regs.status.with(CpuFlags::BREAK, true).with(CpuFlags::BREAK2, true).bits,
    );
    lemma_popped::<M>(s);
}

proof fn lemma_indirect_jump<M: Mapper>(s: CpuModel<M::Model>)
    ensures
        quiet(s, indirect_jump_run::<M>(s)),
{
    reveal(indirect_jump_run);
    let w = word_read::<M>(s, s.regs.program_counter);
    lemma_word_read::<M>(s, s.regs.program_counter);
    let lo = core_read::<M>(w.cpu, w.value);
    lemma_read::<M>(w.cpu, w.value);
    lemma_read::<M>(lo.cpu, (w.value / 256 * 256) as u16);
    lemma_read::<M>(lo.cpu, (w.value + 1) as u16);
}

proof fn lemma_jump_run<M: Mapper>(s: CpuModel<M::Model>, op: Operation)
    ensures
        quiet(s, jump_run::<M>(s, op)),
{
    reveal(jump_run);
    let pc = s.regs.program_counter;
    lemma_word_read::<M>(s, pc);
    lemma_indirect_jump::<M>(s);
    let returning = word_pushed::<M>(s, pc.wrapping_add(1));
    lemma_word_pushed::<M>(s, pc.wrapping_add(1));
    lemma_word_read::<M>(returning, returning.regs.program_counter);
    lemma_word_popped::<M>(s);
    let r = popped::<M>(s);
    lemma_popped::<M>(s);
    lemma_word_popped::<M>(
        with_regs(
            r.cpu,
            Registers { status: crate::cpu::model::pulled_status(r.value), ..r.cpu.regs },
        ),
    );
}

proof fn lemma_executed<M: Mapper>(s: CpuModel<M::Model>, code: OpCode)
    ensures
        host_kept(s, executed::<M>(s, code)),
        kind_of(code.operation) != Kind::Branch ==> quiet(s, executed::<M>(s, code)),
{
    reveal(executed);
    match kind_of(code.operation) {
        Kind::Read => lemma_read_run::<M>(s, code.operation, code.mode),
        Kind::Store => lemma_store_run::<M>(s, code.operation, code.mode),
        Kind::Modify => lemma_modify_run::<M>(s, code.operation, code.mode),
        Kind::HighStore => lemma_high_store_run::<M>(s, code.operation, code.mode),
        Kind::Branch => lemma_branch_run::<M>(s, code.operation),
        Kind::Stack => lemma_stack_run::<M>(s, code.operation),
        Kind::Jump => lemma_jump_run::<M>(s, code.operation),
        Kind::Implied => {},
    }
}

proof fn lemma_interrupt<M: Mapper>(s: CpuModel<M::Model>, brk: bool)
    ensures
        quiet(s, interrupt_serviced::<M>(s, brk)),
{
    reveal(interrupt_serviced);
    let begun = interrupt_begun::<M>(s, brk);
    assert(quiet(s, begun)) by {
        reveal(interrupt_begun);
        let first = core_read::<M>(s, s.regs.program_counter).cpu;
        lemma_read::<M>(s, s.regs.program_counter);
        lemma_read::<M>(first, first.regs.program_counter);
    }
    let returning = word_pushed::<M>(begun, begun.regs.program_counter);
    lemma_word_pushed::<M>(begun, begun.regs.program_counter);
    let decided = nmi_consumed(returning);
    let bits = decided.regs.status.with(CpuFlags::BREAK, brk).with(CpuFlags::BREAK2, true).bits;
    let saved = pushed::<M>(decided, bits);
    lemma_pushed::<M>(decided, bits);
    let masked = with_regs(saved, saved.regs.with_flag(CpuFlags::INTERRUPT_DISABLE, true));
    lemma_word_read::<M>(masked, 0xfffa);
    lemma_word_read::<M>(masked, 0xfffe);
}

proof fn lemma_instruction<M: Mapper>(s: CpuModel<M::Model>, code: u8)
    ensures
        host_kept(s, instruction_run::<M>(s, code)),
        s.lines.branch_poll is None ==> instruction_run::<M>(s, code).lines.branch_poll is None,
{
    reveal(instruction_run);
    if code == 0 {
        lemma_interrupt::<M>(s, true);
    } else {
        let opcode = opcode_of(code);
        let done = executed::<M>(s, opcode);
        lemma_executed::<M>(s, opcode);
        let left = cycles_remaining(done.progress, opcode.cycles);
        let finished = core_cycles::<M>(done, left);
        lemma_cycles::<M>(done, left);
        let next = operand_skipped(finished, s.regs.program_counter, opcode.len);
        reveal(interrupts_polled);
        lemma_interrupt::<M>(
            CpuModel { lines: InterruptLines { branch_poll: None, ..next.lines }, ..next },
            false,
        );
    }
}

/// A step of the core changes none of the host's settings, delivers no audio
/// while delivery is off, and leaves no poll point behind.
pub proof fn a_step_keeps_the_host_settings<M: Mapper>(s: CpuModel<M::Model>)
    ensures
        host_kept(s, stepped::<M>(s)),
        s.lines.branch_poll is None ==> stepped::<M>(s).lines.branch_poll is None,
{
    reveal(stepped);
    let idle = with_executing(s, false);
    let looked = peeked::<M>(idle);
    only_enabled_delivery_moves_audio::<M>(idle.bus, idle.regs.program_counter, 0, 1);
    let r = opcode_fetched::<M>(looked);
    assert(quiet(looked, r.cpu)) by {
        reveal(opcode_fetched);
        lemma_read::<M>(
            CpuModel {
                progress: Progress { executing: true, instr_accesses: 0, ..looked.progress },
                ..looked
            },
            looked.regs.program_counter,
        );
    }
    lemma_instruction::<M>(r.cpu, r.value);
}

/// The state between two frames: the frame event has been taken, and no
/// instruction has left anything half done.
pub open spec fn between_frames<V>(s: CpuModel<V>) -> bool {
    !s.bus.host_frame_ready && !s.bus.dma.holds_oe && s.lines.branch_poll is None
}

/// A run toward the next frame changes none of the host's settings and delivers
/// no audio while delivery is off; one that reaches the frame ends between two
/// frames again.
pub proof fn a_frame_run_keeps_the_host_settings<M: Mapper>(s: CpuModel<M::Model>, limit: nat)
    ensures
        host_kept(s, frame_run_end::<M>(s, limit)),
        s.lines.branch_poll is None ==> frame_run_end::<M>(s, limit).lines.branch_poll is None,
        !s.bus.dma.holds_oe && s.lines.branch_poll is None && frame_run::<M>(s, limit)
            == FrameRun::FrameReady ==> between_frames(frame_run_end::<M>(s, limit)),
    decreases limit,
{
    if !s.bus.host_frame_ready && limit > 0 {
        a_step_keeps_the_host_settings::<M>(s);
        if !halts::<M>(s) {
            a_frame_run_keeps_the_host_settings::<M>(stepped::<M>(s), (limit - 1) as nat);
        }
    }
}

/// Two consoles that differ at most in how far their last instruction got.
pub open spec fn same_but_for_progress<V>(s: CpuModel<V>, t: CpuModel<V>) -> bool {
    t == (CpuModel {
        progress: Progress {
            additional_cycles: s.progress.additional_cycles,
            ..t.progress
        },
        ..s
    })
}

/// A step does not depend on how far the last instruction got.
pub proof fn a_step_starts_afresh<M: Mapper>(s: CpuModel<M::Model>, t: CpuModel<M::Model>)
    requires
        same_but_for_progress(s, t),
    ensures
        halts::<M>(s) == halts::<M>(t),
        halts::<M>(s) ==> same_but_for_progress(stepped::<M>(s), stepped::<M>(t)),
        !halts::<M>(s) ==> stepped::<M>(s) == stepped::<M>(t),
{
    reveal(stepped);
    reveal(opcode_fetched);
    let a = peeked::<M>(with_executing(s, false));
    let b = peeked::<M>(with_executing(t, false));
    assert(same_but_for_progress(a, b));
    assert((CpuModel {
        progress: Progress { executing: true, instr_accesses: 0, ..a.progress },
        ..a
    }) == (CpuModel {
        progress: Progress { executing: true, instr_accesses: 0, ..b.progress },
        ..b
    }));
}

/// Nor does a run toward the next frame.
pub proof fn a_frame_run_starts_afresh<M: Mapper>(
    s: CpuModel<M::Model>,
    t: CpuModel<M::Model>,
    limit: nat,
)
    requires
        same_but_for_progress(s, t),
    ensures
        frame_run::<M>(s, limit) == frame_run::<M>(t, limit),
        same_but_for_progress(frame_run_end::<M>(s, limit), frame_run_end::<M>(t, limit)),
        !s.bus.host_frame_ready && limit > 0 && !halts::<M>(s) ==> frame_run_end::<M>(s, limit)
            == frame_run_end::<M>(t, limit),
{
    a_step_starts_afresh::<M>(s, t);
}

/// A snapshot taken between two frames, with tracing off, brings the console
/// back after any muted runs, but for how far an instruction got.
pub proof fn a_muted_run_is_taken_back<V>(s: CpuModel<V>, now: CpuModel<V>)
    requires
        between_frames(s),
        !s.bus.apu.trace_writes,
        delivery_kept(
            bus_model::BusModel {
                audio: bus_model::AudioOutbox { enabled: false, ..s.bus.audio },
                ..s.bus
            },
            now.bus,
        ),
        now.halt_on_brk == s.halt_on_brk,
        now.lines.branch_poll is None,
    ensures
        same_but_for_progress(s, restored(now, snapshot_of(s))),
{
}

/// With tracing off, a run toward a frame, taken back and run again, repeats
/// itself: a snapshot holds all that the emulation depends on.
pub proof fn a_replay_repeats_the_frame<M: Mapper>(s: CpuModel<M::Model>, n: nat, limit: nat)
    requires
        between_frames(s),
        !delivers(s.bus),
        !s.bus.apu.trace_writes,
    ensures
        ({
            let back = restored(frame_run_end::<M>(s, n), snapshot_of(s));
            &&& frame_run::<M>(back, limit) == frame_run::<M>(s, limit)
            &&& same_but_for_progress(
                frame_run_end::<M>(s, limit),
                frame_run_end::<M>(back, limit),
            )
        }),
{
    a_frame_run_keeps_the_host_settings::<M>(s, n);
    let back = restored(frame_run_end::<M>(s, n), snapshot_of(s));
    assert(same_but_for_progress(s, back));
    a_frame_run_starts_afresh::<M>(s, back, limit);
}

} // verus!
