//! Properties of the core that span several operations.

use crate::apu::NesAPU;
use crate::bus::laws::only_writes_change_work_ram;
use crate::bus::model as bus_model;
use crate::cpu::model::{
    absolute_address, access_cycle, core_cycle, core_read, core_write, dmc_scheduled, halts,
    held_read_repeated, indexed_base, interrupt_begun, interrupt_serviced, jump_run,
    nmi_consumed, pointer_read, popped, pulled_status, pushed, restored, snapshot_of, stepped,
    store_run, uncarried, wf, word_popped, word_pushed, word_read, write_address, CpuModel,
    InterruptLines, Progress,
};
use crate::cpu::registers::{CpuFlags, Registers};
use crate::mapper::Mapper;
use crate::opcodes::{AddressingMode, Operation};
use vstd::prelude::*;

verus! {

// ---- Flags and arithmetic --------------------------------------------------------

/// Setting or clearing a flag leaves the other flags alone.
pub proof fn a_flag_is_set_alone(f: CpuFlags, mask: u8, other: u8, on: bool)
    requires
        mask & other == 0,
        mask != 0,
        other != 0,
    ensures
        f.with(mask, on).contains(mask) == on,
        f.with(mask, on).contains(other) == f.contains(other),
{
    let bits = f.bits;
    assert((bits | mask) & mask == mask && ((bits & !mask) & mask == mask ==> mask == 0) && (
    mask & other == 0 ==> (bits | mask) & other == bits & other && (bits & !mask) & other == bits
        & other)) by (bit_vector);
}

/// Z and N always describe the last result.
pub proof fn z_and_n_follow_the_result(r: Registers, result: u8)
    ensures
        r.with_zn(result).has(CpuFlags::ZERO) == (result == 0),
        r.with_zn(result).has(CpuFlags::NEGATIV) == (result >= 128),
        r.with_zn(result).has(CpuFlags::CARRY) == r.has(CpuFlags::CARRY),
        r.with_zn(result).has(CpuFlags::OVERFLOW) == r.has(CpuFlags::OVERFLOW),
{
    let zeroed = r.status.with(CpuFlags::ZERO, result == 0);
    lemma_masks_apart();
    a_flag_is_set_alone(r.status, CpuFlags::ZERO, CpuFlags::CARRY, result == 0);
    a_flag_is_set_alone(r.status, CpuFlags::ZERO, CpuFlags::OVERFLOW, result == 0);
    a_flag_is_set_alone(zeroed, CpuFlags::NEGATIV, CpuFlags::ZERO, result >= 128);
    a_flag_is_set_alone(zeroed, CpuFlags::NEGATIV, CpuFlags::CARRY, result >= 128);
    a_flag_is_set_alone(zeroed, CpuFlags::NEGATIV, CpuFlags::OVERFLOW, result >= 128);
}

proof fn lemma_masks_apart()
    ensures
        CpuFlags::ZERO & CpuFlags::CARRY == 0,
        CpuFlags::ZERO & CpuFlags::OVERFLOW == 0,
        CpuFlags::NEGATIV & CpuFlags::ZERO == 0,
        CpuFlags::NEGATIV & CpuFlags::CARRY == 0,
        CpuFlags::NEGATIV & CpuFlags::OVERFLOW == 0,
        CpuFlags::OVERFLOW & CpuFlags::CARRY == 0,
        CpuFlags::CARRY & CpuFlags::OVERFLOW == 0,
{
    assert(0x02u8 & 0x01 == 0 && 0x02u8 & 0x40 == 0 && 0x80u8 & 0x02 == 0 && 0x80u8 & 0x01 == 0
        && 0x80u8 & 0x40 == 0 && 0x40u8 & 0x01 == 0 && 0x01u8 & 0x40 == 0) by (bit_vector);
}

/// Carry as a number.
pub open spec fn carry(r: Registers) -> int {
    if r.has(CpuFlags::CARRY) {
        1
    } else {
        0
    }
}

/// ADC: the nine-bit sum is the carry and the accumulator together.
pub proof fn an_addition_keeps_its_ninth_bit(r: Registers, data: u8)
    ensures
        ({
            let after = r.added(data);
            carry(after) * 256 + after.register_a == r.register_a + data + carry(r)
        }),
{
    let sum = r.register_a + data + carry(r);
    let result = (sum % 256) as u8;
    let overflow = (data ^ result) & (result ^ r.register_a) & 0x80 != 0;
    let carried = r.with_flag(CpuFlags::CARRY, sum > 255);
    let flagged = carried.with_flag(CpuFlags::OVERFLOW, overflow);
    lemma_masks_apart();
    a_flag_is_set_alone(r.status, CpuFlags::CARRY, CpuFlags::OVERFLOW, sum > 255);
    a_flag_is_set_alone(carried.status, CpuFlags::OVERFLOW, CpuFlags::CARRY, overflow);
    z_and_n_follow_the_result(Registers { register_a: result, ..flagged }, result);
}

/// SBC takes away its operand and the borrow, which is the carry's complement.
pub proof fn a_subtraction_borrows(r: Registers, data: u8)
    ensures
        ({
            let after = r.read_applied(Operation::Sbc, data);
            after.register_a as int == (r.register_a - data - (1 - carry(r))) % 256
        }),
{
    an_addition_keeps_its_ninth_bit(r, (255 - data) as u8);
}

/// A comparison orders the two bytes: C when not below, Z when equal.
pub proof fn a_comparison_orders(r: Registers, register: u8, data: u8)
    ensures
        r.compared(register, data).has(CpuFlags::CARRY) == (register >= data),
        r.compared(register, data).has(CpuFlags::ZERO) == (register == data),
        r.compared(register, data).register_a == r.register_a,
{
    let carried = r.with_flag(CpuFlags::CARRY, data <= register);
    lemma_masks_apart();
    a_flag_is_set_alone(r.status, CpuFlags::CARRY, CpuFlags::OVERFLOW, data <= register);
    z_and_n_follow_the_result(carried, register.wrapping_sub(data));
}

/// Rotating left and then right gives the byte and the carry back.
pub proof fn rotations_undo_each_other(r: Registers, data: u8)
    ensures
        ({
            let left = r.modified(Operation::Rol, data);
            let after = r.carried(Operation::Rol, data);
            &&& after.modified(Operation::Ror, left) == data
            &&& carry(after.carried(Operation::Ror, left)) == carry(r)
        }),
{
    let left = r.modified(Operation::Rol, data);
    let after = r.carried(Operation::Rol, data);
    lemma_masks_apart();
    a_flag_is_set_alone(r.status, CpuFlags::CARRY, CpuFlags::OVERFLOW, data >= 128);
    a_flag_is_set_alone(after.status, CpuFlags::CARRY, CpuFlags::OVERFLOW, left % 2 == 1);
}

// ---- Interrupt lines ----------------------------------------------------------------

/// An NMI is latched: once seen it waits through every cycle, access and DMA
/// until an interrupt sequence takes it.
pub proof fn a_latched_nmi_waits<M: Mapper>(s: CpuModel<M::Model>, addr: u16, data: u8)
    requires
        s.lines.nmi_pending,
    ensures
        core_cycle::<M>(s).lines.nmi_pending,
        core_read::<M>(s, addr).cpu.lines.nmi_pending,
        core_write::<M>(s, addr, data).lines.nmi_pending,
{
    reveal(core_cycle);
    reveal(access_cycle);
    reveal(core_read);
    reveal(core_write);
    reveal(held_read_repeated);
    reveal(dmc_scheduled);
}

// ---- Memory and the stack ------------------------------------------------------------

/// What a core access leaves of the core itself: its registers and settings.
proof fn lemma_access_keeps_registers<M: Mapper>(s: CpuModel<M::Model>)
    ensures
        access_cycle::<M>(s).regs == s.regs,
        access_cycle::<M>(s).progress.executing == s.progress.executing,
        access_cycle::<M>(s).bus.cpu_vram == s.bus.cpu_vram,
{
    reveal(access_cycle);
    reveal(core_cycle);
    only_writes_change_work_ram::<M>(s.bus, 0, 1);
}

/// A core read leaves the registers and work RAM alone, and of work RAM yields
/// what is there.
pub proof fn a_read_leaves_ram_alone<M: Mapper>(s: CpuModel<M::Model>, addr: u16)
    ensures
        core_read::<M>(s, addr).cpu.regs == s.regs,
        core_read::<M>(s, addr).cpu.bus.cpu_vram == s.bus.cpu_vram,
        addr < 0x2000 ==> core_read::<M>(s, addr).value == s.bus.cpu_vram[addr as int % 0x800],
{
    reveal(core_read);
    reveal(held_read_repeated);
    reveal(dmc_scheduled);
    let held = held_read_repeated::<M>(s, addr);
    let ready = dmc_scheduled::<M>(held);
    only_writes_change_work_ram::<M>(s.bus, addr, 1);
    only_writes_change_work_ram::<M>(held.bus, addr, 1);
    only_writes_change_work_ram::<M>(ready.bus, addr, 1);
    lemma_access_keeps_registers::<M>(
        CpuModel { bus: bus_model::after_mem_read::<M>(ready.bus, addr), ..ready },
    );
}

/// A core write to work RAM stores its byte and nothing else there.
pub proof fn a_ram_write_stores_its_byte<M: Mapper>(s: CpuModel<M::Model>, addr: u16, data: u8)
    requires
        addr < 0x2000,
    ensures
        core_write::<M>(s, addr, data).regs == s.regs,
        core_write::<M>(s, addr, data).bus.cpu_vram == s.bus.cpu_vram.update(
            addr as int % 0x800,
            data,
        ),
{
    reveal(core_write);
    lemma_access_keeps_registers::<M>(
        CpuModel { bus: bus_model::after_mem_write::<M>(s.bus, addr, data), ..s },
    );
}

/// A store leaves every register and flag alone.
pub proof fn a_store_leaves_the_registers_alone<M: Mapper>(
    s: CpuModel<M::Model>,
    op: Operation,
    mode: AddressingMode,
)
    ensures
        store_run::<M>(s, op, mode).regs == s.regs,
{
    reveal(store_run);
    reveal(write_address);
    reveal(core_write);
    let i = indexed_base::<M>(s, mode);
    let addr = i.base.wrapping_add(i.index as u16);
    lemma_addressing_keeps_registers::<M>(s, mode);
    a_read_leaves_ram_alone::<M>(i.cpu, uncarried(i.base, addr));
    let w = write_address::<M>(s, mode);
    lemma_access_keeps_registers::<M>(
        CpuModel {
            bus: bus_model::after_mem_write::<M>(w.cpu.bus, w.value, w.cpu.regs.stored(op)),
            ..w.cpu
        },
    );
}

proof fn lemma_word_read_keeps_registers<M: Mapper>(s: CpuModel<M::Model>, pos: u16)
    ensures
        word_read::<M>(s, pos).cpu.regs == s.regs,
{
    reveal(word_read);
    a_read_leaves_ram_alone::<M>(s, pos);
    a_read_leaves_ram_alone::<M>(core_read::<M>(s, pos).cpu, pos.wrapping_add(1));
}

proof fn lemma_pointer_read_keeps_registers<M: Mapper>(s: CpuModel<M::Model>, ptr: u8)
    ensures
        pointer_read::<M>(s, ptr).cpu.regs == s.regs,
{
    reveal(pointer_read);
    a_read_leaves_ram_alone::<M>(s, ptr as u16);
    a_read_leaves_ram_alone::<M>(
        core_read::<M>(s, ptr as u16).cpu,
        ptr.wrapping_add(1) as u16,
    );
}

proof fn lemma_addressing_keeps_registers<M: Mapper>(s: CpuModel<M::Model>, mode: AddressingMode)
    ensures
        indexed_base::<M>(s, mode).cpu.regs == s.regs,
{
    reveal(indexed_base);
    reveal(absolute_address);
    let pc = s.regs.program_counter;
    let r = core_read::<M>(s, pc);
    a_read_leaves_ram_alone::<M>(s, pc);
    lemma_word_read_keeps_registers::<M>(s, pc);
    lemma_pointer_read_keeps_registers::<M>(r.cpu, r.value);
    lemma_pointer_read_keeps_registers::<M>(
        r.cpu,
        r.value.wrapping_add(r.cpu.regs.register_x),
    );
}

/// A push stores its byte below what is on the stack.
pub proof fn a_push_stores_its_byte<M: Mapper>(s: CpuModel<M::Model>, data: u8)
    ensures
        pushed::<M>(s, data).regs == (Registers {
            stack_pointer: s.regs.stack_pointer.wrapping_sub(1),
            ..s.regs
        }),
        pushed::<M>(s, data).bus.cpu_vram == s.bus.cpu_vram.update(
            0x100 + s.regs.stack_pointer,
            data,
        ),
{
    reveal(pushed);
    a_ram_write_stores_its_byte::<M>(s, (0x100 + s.regs.stack_pointer) as u16, data);
}

/// A pop yields the byte above the stack pointer.
pub proof fn a_pop_yields_the_top<M: Mapper>(s: CpuModel<M::Model>)
    ensures
        popped::<M>(s).cpu.regs == (Registers {
            stack_pointer: s.regs.stack_pointer.wrapping_add(1),
            ..s.regs
        }),
        popped::<M>(s).cpu.bus.cpu_vram == s.bus.cpu_vram,
        popped::<M>(s).value == s.bus.cpu_vram[0x100 + s.regs.stack_pointer.wrapping_add(1)],
{
    reveal(popped);
    let sp = s.regs.stack_pointer.wrapping_add(1);
    a_read_leaves_ram_alone::<M>(
        CpuModel { regs: Registers { stack_pointer: sp, ..s.regs }, ..s },
        (0x100 + sp) as u16,
    );
}

/// What is pushed is popped, whatever the machine does in between the two
/// accesses' cycles, and the stack pointer is back.
pub proof fn a_push_is_popped<M: Mapper>(s: CpuModel<M::Model>, data: u8)
    requires
        s.bus.cpu_vram.len() == 2048,
    ensures
        popped::<M>(pushed::<M>(s, data)).value == data,
        popped::<M>(pushed::<M>(s, data)).cpu.regs == s.regs,
{
    a_push_stores_its_byte::<M>(s, data);
    a_pop_yields_the_top::<M>(pushed::<M>(s, data));
}

/// A subroutine returns behind its call, and an interrupt to where it struck:
/// a pushed word is popped as it was.
pub proof fn a_pushed_word_is_popped<M: Mapper>(s: CpuModel<M::Model>, data: u16)
    requires
        s.bus.cpu_vram.len() == 2048,
    ensures
        word_popped::<M>(word_pushed::<M>(s, data)).value == data,
        word_popped::<M>(word_pushed::<M>(s, data)).cpu.regs == s.regs,
{
    reveal(word_pushed);
    reveal(word_popped);
    let high = pushed::<M>(s, (data / 256) as u8);
    let both = pushed::<M>(high, (data % 256) as u8);
    a_push_stores_its_byte::<M>(s, (data / 256) as u8);
    a_push_stores_its_byte::<M>(high, (data % 256) as u8);
    a_pop_yields_the_top::<M>(both);
    a_pop_yields_the_top::<M>(popped::<M>(both).cpu);
}

// ---- Control ----------------------------------------------------------------------------

/// Status as an interrupt leaves it for its return: B clear, bit 5 set.
pub open spec fn returned_status(status: CpuFlags) -> CpuFlags {
    status.with(CpuFlags::BREAK, false).with(CpuFlags::BREAK2, true)
}

proof fn lemma_status_round_trip(status: CpuFlags, brk: bool)
    ensures
        pulled_status(
            status.with(CpuFlags::BREAK, brk).with(CpuFlags::BREAK2, true).bits,
        ) == returned_status(status),
{
    let b: u8 = status.bits;
    assert(((b | 0x10) | 0x20) & !0x10u8 | 0x20 == (b & !0x10u8) | 0x20) by (bit_vector);
    assert(((b & !0x10u8) | 0x20) & !0x10u8 | 0x20 == (b & !0x10u8) | 0x20) by (bit_vector);
}

/// An interrupt pushes the return address and the status, three bytes in all,
/// and masks further interrupts; the other registers stay.
pub proof fn an_interrupt_saves_three_bytes<M: Mapper>(s: CpuModel<M::Model>, brk: bool)
    ensures
        ({
            let t = interrupt_serviced::<M>(s, brk);
            let sp = s.regs.stack_pointer;
            let pc = if brk {
                s.regs.program_counter.wrapping_add(1)
            } else {
                s.regs.program_counter
            };
            &&& t.regs.stack_pointer == sp.wrapping_sub(3)
            &&& t.regs.status == s.regs.status.with(CpuFlags::INTERRUPT_DISABLE, true)
            &&& t.regs.register_a == s.regs.register_a
            &&& t.regs.register_x == s.regs.register_x
            &&& t.regs.register_y == s.regs.register_y
            &&& t.bus.cpu_vram == s.bus.cpu_vram.update(0x100 + sp, (pc / 256) as u8).update(
                0x100 + sp.wrapping_sub(1),
                (pc % 256) as u8,
            ).update(
                0x100 + sp.wrapping_sub(2),
                s.regs.status.with(CpuFlags::BREAK, brk).with(CpuFlags::BREAK2, true).bits,
            )
        }),
{
    reveal(interrupt_serviced);
    reveal(interrupt_begun);
    reveal(word_pushed);
    reveal(word_read);
    let first = core_read::<M>(s, s.regs.program_counter).cpu;
    a_read_leaves_ram_alone::<M>(s, s.regs.program_counter);
    a_read_leaves_ram_alone::<M>(first, first.regs.program_counter);
    let begun = interrupt_begun::<M>(s, brk);
    let pc = begun.regs.program_counter;
    let high = pushed::<M>(begun, (pc / 256) as u8);
    a_push_stores_its_byte::<M>(begun, (pc / 256) as u8);
    a_push_stores_its_byte::<M>(high, (pc % 256) as u8);
    let decided = nmi_consumed(word_pushed::<M>(begun, pc));
    let bits = decided.regs.status.with(CpuFlags::BREAK, brk).with(CpuFlags::BREAK2, true).bits;
    let saved = pushed::<M>(decided, bits);
    a_push_stores_its_byte::<M>(decided, bits);
    let masked = CpuModel {
        regs: saved.regs.with_flag(CpuFlags::INTERRUPT_DISABLE, true),
        ..saved
    };
    lemma_vector_read::<M>(masked, 0xfffa);
    lemma_vector_read::<M>(masked, 0xfffe);
}

proof fn lemma_vector_read<M: Mapper>(s: CpuModel<M::Model>, at: u16)
    ensures
        word_read::<M>(s, at).cpu.regs == s.regs,
        word_read::<M>(s, at).cpu.bus.cpu_vram == s.bus.cpu_vram,
{
    reveal(word_read);
    a_read_leaves_ram_alone::<M>(s, at);
    a_read_leaves_ram_alone::<M>(core_read::<M>(s, at).cpu, at.wrapping_add(1));
}

/// Returning from an interrupt resumes where it struck, with the status and the
/// stack as they were; a software interrupt resumes behind its signature byte.
pub proof fn an_interrupt_returns_where_it_struck<M: Mapper>(s: CpuModel<M::Model>, brk: bool)
    requires
        s.bus.cpu_vram.len() == 2048,
    ensures
        jump_run::<M>(interrupt_serviced::<M>(s, brk), Operation::Rti).regs == (Registers {
            status: returned_status(s.regs.status),
            program_counter: if brk {
                s.regs.program_counter.wrapping_add(1)
            } else {
                s.regs.program_counter
            },
            ..s.regs
        }),
{
    reveal(jump_run);
    reveal(word_popped);
    let t = interrupt_serviced::<M>(s, brk);
    an_interrupt_saves_three_bytes::<M>(s, brk);
    let r = popped::<M>(t);
    a_pop_yields_the_top::<M>(t);
    lemma_status_round_trip(s.regs.status, brk);
    let pulled = CpuModel {
        regs: Registers { status: pulled_status(r.value), ..r.cpu.regs },
        ..r.cpu
    };
    a_pop_yields_the_top::<M>(pulled);
    a_pop_yields_the_top::<M>(popped::<M>(pulled).cpu);
}

/// A subroutine returns behind its call: to the byte after the two of its
/// address, with the registers and the stack as they were.
pub proof fn a_subroutine_returns_behind_its_call<M: Mapper>(s: CpuModel<M::Model>)
    requires
        s.bus.cpu_vram.len() == 2048,
    ensures
        jump_run::<M>(jump_run::<M>(s, Operation::Jsr), Operation::Rts).regs == s.regs.with_pc(
            s.regs.program_counter.wrapping_add(2),
        ),
{
    reveal(jump_run);
    reveal(word_popped);
    reveal(word_pushed);
    let back = s.regs.program_counter.wrapping_add(1);
    let high = pushed::<M>(s, (back / 256) as u8);
    a_push_stores_its_byte::<M>(s, (back / 256) as u8);
    a_push_stores_its_byte::<M>(high, (back % 256) as u8);
    let returning = word_pushed::<M>(s, back);
    lemma_vector_read::<M>(returning, returning.regs.program_counter);
    let called = jump_run::<M>(s, Operation::Jsr);
    a_pop_yields_the_top::<M>(called);
    a_pop_yields_the_top::<M>(popped::<M>(called).cpu);
}


/// The halt sentinel takes no time: no cycle passes, and the program counter
/// stops one past it.
pub proof fn the_halt_sentinel_takes_no_time<M: Mapper>(s: CpuModel<M::Model>)
    requires
        halts::<M>(s),
    ensures
        stepped::<M>(s).bus.cycles == s.bus.cycles,
        stepped::<M>(s).regs == s.regs.with_pc(s.regs.program_counter.wrapping_add(1)),
        stepped::<M>(s).bus.cpu_vram == s.bus.cpu_vram,
{
    reveal(stepped);
}

/// Whatever has run since, restoring a snapshot brings back the console it was
/// taken of, but for what the host and the stepping loop keep.
pub proof fn restoring_brings_the_console_back<M: Mapper>(
    taken_of: CpuModel<M::Model>,
    now: CpuModel<M::Model>,
)
    requires
        wf::<M>(taken_of),
        wf::<M>(now),
    ensures
        ({
            let back = restored(now, snapshot_of(taken_of));
            &&& wf::<M>(back)
            &&& back.regs == taken_of.regs
            &&& back.lines == (InterruptLines {
                branch_poll: now.lines.branch_poll,
                ..taken_of.lines
            })
            &&& back.dmc_held_read == taken_of.dmc_held_read
            &&& back.progress == (Progress {
                additional_cycles: taken_of.progress.additional_cycles,
                ..now.progress
            })
            &&& bus_model::snapshot_of(back.bus) == (bus_model::SnapshotModel {
                apu: NesAPU {
                    register_writes: now.bus.apu.register_writes,
                    ..taken_of.bus.apu
                },
                dma: bus_model::DmaUnit {
                    holds_oe: now.bus.dma.holds_oe,
                    ..taken_of.bus.dma
                },
                ..bus_model::snapshot_of(taken_of.bus)
            })
        }),
{
    bus_model::restoring_brings_the_machine_back::<M>(taken_of.bus, now.bus);
}

} // verus!
