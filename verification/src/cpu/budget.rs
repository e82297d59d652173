//! The cycles that instructions take.

use crate::cpu::model::{
    absolute_address, access_cycle, branch_run, branch_target, core_cycle, core_read,
    core_write, crosses_page, cycles_remaining, dmc_scheduled, executed, has_index,
    held_read_repeated, high_store_run, indexed_base, indirect_jump_run, interrupt_begun,
    interrupt_serviced, joined, jump_run, kind_of, modify_run, nmi_consumed, opcode_fetched,
    penalized, pointer_read, popped, pulled_status, pushed, read_address, read_run, stack_run,
    store_run, uncarried, with_regs, word_popped, word_pushed, word_read, write_address,
    CpuModel, Kind, Progress,
};
use crate::cpu::registers::{plain_part, CpuFlags, Registers};
use crate::mapper::Mapper;
use crate::opcodes::{opcode_of, AddressingMode, OpCode, Operation};
use vstd::prelude::*;

verus! {

/// Accesses that form an operand's address.
pub open spec fn address_accesses(mode: AddressingMode) -> nat {
    match mode {
        AddressingMode::ZeroPage | AddressingMode::ZeroPage_X | AddressingMode::ZeroPage_Y => 1,
        AddressingMode::Absolute | AddressingMode::Absolute_X | AddressingMode::Absolute_Y => 2,
        AddressingMode::Indirect_X | AddressingMode::Indirect_Y => 3,
        AddressingMode::Immediate | AddressingMode::NoneAddressing => 0,
    }
}

/// Accesses of a jump or a return.
pub open spec fn jump_accesses(op: Operation) -> nat {
    match op {
        Operation::JmpAbsolute | Operation::Rts => 2,
        Operation::JmpIndirect | Operation::Jsr => 4,
        _ => 3,
    }
}

/// Accesses of an instruction behind its opcode fetch, without the extra one of
/// a read that crosses a page.
pub open spec fn own_accesses(code: OpCode) -> nat {
    let dummy: nat = if has_index(code.mode) {
        1
    } else {
        0
    };
    match kind_of(code.operation) {
        Kind::Read => address_accesses(code.mode) + 1,
        Kind::Store => address_accesses(code.mode) + dummy + 1,
        Kind::Modify => address_accesses(code.mode) + dummy + 2,
        Kind::HighStore => address_accesses(code.mode) + 2,
        Kind::Branch | Kind::Stack => 1,
        Kind::Jump => jump_accesses(code.operation),
        Kind::Implied => 0,
    }
}

/// The table grants every instruction the accesses that it makes, its opcode
/// fetch included.
#[verifier::rlimit(100)]
pub proof fn the_table_grants_every_access(code: u8)
    ensures
        1 + own_accesses(opcode_of(code)) <= opcode_of(code).cycles,
{
    reveal(opcode_of);
}

/// While an instruction executes, `n` accesses have been counted between two
/// states, and nothing else of its progress has moved.
pub open spec fn accessed<V>(s: CpuModel<V>, t: CpuModel<V>, n: nat) -> bool {
    s.progress.executing && s.progress.instr_accesses + n <= u8::MAX ==> t.progress == (Progress {
        instr_accesses: (s.progress.instr_accesses + n) as u8,
        ..s.progress
    })
}

proof fn lemma_access<M: Mapper>(s: CpuModel<M::Model>)
    ensures
        accessed(s, access_cycle::<M>(s), 1),
{
    reveal(access_cycle);
    reveal(core_cycle);
}

proof fn lemma_read<M: Mapper>(s: CpuModel<M::Model>, addr: u16)
    ensures
        accessed(s, core_read::<M>(s, addr).cpu, 1),
{
    reveal(core_read);
    reveal(held_read_repeated);
    reveal(dmc_scheduled);
    let ready = dmc_scheduled::<M>(held_read_repeated::<M>(s, addr));
    lemma_access::<M>(
        CpuModel { bus: crate::bus::model::after_mem_read::<M>(ready.bus, addr), ..ready },
    );
}

proof fn lemma_write<M: Mapper>(s: CpuModel<M::Model>, addr: u16, data: u8)
    ensures
        accessed(s, core_write::<M>(s, addr, data), 1),
{
    reveal(core_write);
    lemma_access::<M>(
        CpuModel { bus: crate::bus::model::after_mem_write::<M>(s.bus, addr, data), ..s },
    );
}

proof fn lemma_word_read<M: Mapper>(s: CpuModel<M::Model>, pos: u16)
    ensures
        accessed(s, word_read::<M>(s, pos).cpu, 2),
{
    reveal(word_read);
    lemma_read::<M>(s, pos);
    lemma_read::<M>(core_read::<M>(s, pos).cpu, pos.wrapping_add(1));
}

proof fn lemma_pointer_read<M: Mapper>(s: CpuModel<M::Model>, ptr: u8)
    ensures
        accessed(s, pointer_read::<M>(s, ptr).cpu, 2),
{
    reveal(pointer_read);
    lemma_read::<M>(s, ptr as u16);
    lemma_read::<M>(core_read::<M>(s, ptr as u16).cpu, ptr.wrapping_add(1) as u16);
}

proof fn lemma_pushed<M: Mapper>(s: CpuModel<M::Model>, data: u8)
    ensures
        accessed(s, pushed::<M>(s, data), 1),
{
    reveal(pushed);
    lemma_write::<M>(s, (0x100 + s.regs.stack_pointer) as u16, data);
}

proof fn lemma_popped<M: Mapper>(s: CpuModel<M::Model>)
    ensures
        accessed(s, popped::<M>(s).cpu, 1),
{
    reveal(popped);
    let sp = s.regs.stack_pointer.wrapping_add(1);
    lemma_read::<M>(
        with_regs(s, Registers { stack_pointer: sp, ..s.regs }),
        (0x100 + sp) as u16,
    );
}

proof fn lemma_word_pushed<M: Mapper>(s: CpuModel<M::Model>, data: u16)
    ensures
        accessed(s, word_pushed::<M>(s, data), 2),
{
    reveal(word_pushed);
    lemma_pushed::<M>(s, (data / 256) as u8);
    lemma_pushed::<M>(pushed::<M>(s, (data / 256) as u8), (data % 256) as u8);
}

proof fn lemma_word_popped<M: Mapper>(s: CpuModel<M::Model>)
    ensures
        accessed(s, word_popped::<M>(s).cpu, 2),
{
    reveal(word_popped);
    lemma_popped::<M>(s);
    lemma_popped::<M>(popped::<M>(s).cpu);
}

proof fn lemma_address<M: Mapper>(s: CpuModel<M::Model>, mode: AddressingMode, at: u16)
    ensures
        accessed(s, absolute_address::<M>(s, mode, at).cpu, address_accesses(mode)),
{
    reveal(absolute_address);
    let r = core_read::<M>(s, at);
    lemma_read::<M>(s, at);
    lemma_word_read::<M>(s, at);
    lemma_pointer_read::<M>(r.cpu, r.value.wrapping_add(r.cpu.regs.register_x));
    lemma_pointer_read::<M>(r.cpu, r.value);
}

proof fn lemma_indexed<M: Mapper>(s: CpuModel<M::Model>, mode: AddressingMode)
    ensures
        accessed(s, indexed_base::<M>(s, mode).cpu, address_accesses(mode)),
{
    reveal(indexed_base);
    let pc = s.regs.program_counter;
    let r = core_read::<M>(s, pc);
    lemma_read::<M>(s, pc);
    lemma_word_read::<M>(s, pc);
    lemma_pointer_read::<M>(r.cpu, r.value);
    lemma_address::<M>(s, mode, pc);
}

proof fn lemma_write_address<M: Mapper>(s: CpuModel<M::Model>, mode: AddressingMode)
    ensures
        accessed(
            s,
            write_address::<M>(s, mode).cpu,
            address_accesses(mode) + if has_index(mode) {
                1nat
            } else {
                0
            },
        ),
{
    reveal(write_address);
    let i = indexed_base::<M>(s, mode);
    let addr = i.base.wrapping_add(i.index as u16);
    lemma_indexed::<M>(s, mode);
    lemma_read::<M>(i.cpu, uncarried(i.base, addr));
}

/// Whether a read with this mode crosses a page.
pub open spec fn read_crosses<M: Mapper>(s: CpuModel<M::Model>, mode: AddressingMode) -> bool {
    let i = indexed_base::<M>(s, mode);
    has_index(mode) && crosses_page(i.base, i.base.wrapping_add(i.index as u16))
}

/// The cycles that an instruction takes beyond its entry in the table: one for
/// a read that crosses a page, one for a branch that is taken, two for one
/// that also crosses a page.
pub open spec fn extra_cycles<M: Mapper>(s: CpuModel<M::Model>, code: OpCode) -> nat {
    match kind_of(code.operation) {
        Kind::Read => if read_crosses::<M>(s, code.mode) {
            1
        } else {
            0
        },
        Kind::Branch => {
            let from = s.regs.program_counter.wrapping_add(1);
            let offset = core_read::<M>(s, s.regs.program_counter).value;
            if !s.regs.branch_taken(code.operation) {
                0
            } else if crosses_page(from, branch_target(from, offset)) {
                2
            } else {
                1
            }
        },
        _ => 0,
    }
}

/// While an instruction executes, `n` accesses have been counted between two
/// states, and `extra` cycles added to its budget.
pub open spec fn spent<V>(s: CpuModel<V>, t: CpuModel<V>, n: nat, extra: nat) -> bool {
    s.progress.executing && s.progress.instr_accesses + n <= u8::MAX && s.progress.additional_cycles
        + extra <= u8::MAX ==> t.progress == (Progress {
        instr_accesses: (s.progress.instr_accesses + n) as u8,
        additional_cycles: (s.progress.additional_cycles + extra) as u8,
        ..s.progress
    })
}

proof fn lemma_read_run<M: Mapper>(s: CpuModel<M::Model>, op: Operation, mode: AddressingMode)
    ensures
        ({
            let extra: nat = if read_crosses::<M>(s, mode) {
                1
            } else {
                0
            };
            spent(s, read_run::<M>(s, op, mode), address_accesses(mode) + extra + 1, extra)
        }),
{
    reveal(read_run);
    reveal(read_address);
    let i = indexed_base::<M>(s, mode);
    let addr = i.base.wrapping_add(i.index as u16);
    lemma_indexed::<M>(s, mode);
    lemma_read::<M>(penalized(i.cpu, 1), uncarried(i.base, addr));
    let w = read_address::<M>(s, mode);
    lemma_read::<M>(w.cpu, w.value);
}

proof fn lemma_store_run<M: Mapper>(s: CpuModel<M::Model>, code: OpCode)
    requires
        kind_of(code.operation) == Kind::Store,
    ensures
        accessed(s, store_run::<M>(s, code.operation, code.mode), own_accesses(code)),
{
    reveal(store_run);
    let w = write_address::<M>(s, code.mode);
    lemma_write_address::<M>(s, code.mode);
    lemma_write::<M>(w.cpu, w.value, w.cpu.regs.stored(code.operation));
}

proof fn lemma_modify_run<M: Mapper>(s: CpuModel<M::Model>, code: OpCode)
    requires
        kind_of(code.operation) == Kind::Modify,
    ensures
        accessed(s, modify_run::<M>(s, code.operation, code.mode), own_accesses(code)),
{
    reveal(modify_run);
    let plain = plain_part(code.operation);
    let w = write_address::<M>(s, code.mode);
    lemma_write_address::<M>(s, code.mode);
    let r = core_read::<M>(w.cpu, w.value);
    lemma_read::<M>(w.cpu, w.value);
    lemma_write::<M>(
        with_regs(r.cpu, r.cpu.regs.carried(plain, r.value)),
        w.value,
        r.cpu.regs.modified(plain, r.value),
    );
}

proof fn lemma_high_store_run<M: Mapper>(s: CpuModel<M::Model>, code: OpCode)
    requires
        kind_of(code.operation) == Kind::HighStore,
    ensures
        accessed(s, high_store_run::<M>(s, code.operation, code.mode), own_accesses(code)),
{
    reveal(high_store_run);
    let begun = if code.operation == Operation::Tas {
        with_regs(
            s,
            Registers { stack_pointer: s.regs.register_a & s.regs.register_x, ..s.regs },
        )
    } else {
        s
    };
    let i = indexed_base::<M>(begun, code.mode);
    lemma_indexed::<M>(begun, code.mode);
    let value = i.cpu.regs.high_stored(code.operation, ((i.base / 256) as u8).wrapping_add(1));
    let effective = i.base.wrapping_add(i.index as u16);
    let at = uncarried(i.base, effective);
    let dummy = core_read::<M>(i.cpu, at);
    lemma_read::<M>(i.cpu, at);
    let target = if crosses_page(i.base, effective) {
        joined((effective % 256) as u8, value)
    } else {
        effective
    };
    lemma_write::<M>(dummy.cpu, target, value);
}

proof fn lemma_branch_run<M: Mapper>(s: CpuModel<M::Model>, code: OpCode)
    requires
        kind_of(code.operation) == Kind::Branch,
    ensures
        spent(s, branch_run::<M>(s, code.operation), 1, extra_cycles::<M>(s, code)),
{
    reveal(branch_run);
    lemma_read::<M>(s, s.regs.program_counter);
}

proof fn lemma_stack_run<M: Mapper>(s: CpuModel<M::Model>, op: Operation)
    ensures
        accessed(s, stack_run::<M>(s, op), 1),
{
    reveal(stack_run);
    lemma_pushed::<M>(s, s.regs.register_a);
    lemma_pushed::<M>(
        s,
        s.regs.status.with(CpuFlags::BREAK, true).with(CpuFlags::BREAK2, true).bits,
    );
    lemma_popped::<M>(s);
}

proof fn lemma_indirect_jump<M: Mapper>(s: CpuModel<M::Model>)
    ensures
        accessed(s, indirect_jump_run::<M>(s), 4),
{
    reveal(indirect_jump_run);
    let w = word_read::<M>(s, s.regs.program_counter);
    lemma_word_read::<M>(s, s.regs.program_counter);
    let lo = core_read::<M>(w.cpu, w.value);
    lemma_read::<M>(w.cpu, w.value);
    lemma_read::<M>(lo.cpu, (w.value / 256 * 256) as u16);
    lemma_read::<M>(lo.cpu, (w.value + 1) as u16);
}

proof fn lemma_jump_run<M: Mapper>(s: CpuModel<M::Model>, code: OpCode)
    requires
        kind_of(code.operation) == Kind::Jump,
    ensures
        accessed(s, jump_run::<M>(s, code.operation), own_accesses(code)),
{
    reveal(jump_run);
    let pc = s.regs.program_counter;
    lemma_word_read::<M>(s, pc);
    lemma_indirect_jump::<M>(s);
    let returning = word_pushed::<M>(s, pc.wrapping_add(1));
    lemma_word_pushed::<M>(s, pc.wrapping_add(1));
    lemma_word_read::<M>(returning, returning.regs.program_counter);
    lemma_word_popped::<M>(s);
    let r = popped::<M>(s);
    lemma_popped::<M>(s);
    lemma_word_popped::<M>(
        with_regs(r.cpu, Registers { status: pulled_status(r.value), ..r.cpu.regs }),
    );
}

/// Every instruction makes the accesses of its kind and mode, and one more where
/// a read crosses a page; its budget grows by the extra cycles and by nothing
/// else.
pub proof fn an_instruction_makes_its_accesses<M: Mapper>(s: CpuModel<M::Model>, code: OpCode)
    requires
        s.progress.executing,
        s.progress.instr_accesses == 1,
        s.progress.additional_cycles == 0,
    ensures
        ({
            let done = executed::<M>(s, code).progress;
            let extra = extra_cycles::<M>(s, code);
            &&& done.executing
            &&& done.additional_cycles == extra
            &&& done.instr_accesses == 1 + own_accesses(code) + if kind_of(code.operation)
                == Kind::Read {
                extra
            } else {
                0
            }
        }),
{
    reveal(executed);
    match kind_of(code.operation) {
        Kind::Read => lemma_read_run::<M>(s, code.operation, code.mode),
        Kind::Store => lemma_store_run::<M>(s, code),
        Kind::Modify => lemma_modify_run::<M>(s, code),
        Kind::HighStore => lemma_high_store_run::<M>(s, code),
        Kind::Branch => lemma_branch_run::<M>(s, code),
        Kind::Stack => lemma_stack_run::<M>(s, code.operation),
        Kind::Jump => lemma_jump_run::<M>(s, code),
        Kind::Implied => {},
    }
}

/// No instruction makes more accesses than its budget has cycles, so that the
/// internal cycles that follow bring its total to exactly its entry in the
/// table and its extra cycles.
pub proof fn an_instruction_takes_exactly_its_budget<M: Mapper>(s: CpuModel<M::Model>, byte: u8)
    requires
        s.progress.executing,
        s.progress.instr_accesses == 1,
        s.progress.additional_cycles == 0,
    ensures
        ({
            let code = opcode_of(byte);
            let done = executed::<M>(s, code).progress;
            &&& done.instr_accesses <= code.cycles + extra_cycles::<M>(s, code)
            &&& done.instr_accesses + cycles_remaining(done, code.cycles) == code.cycles
                + extra_cycles::<M>(s, code)
        }),
{
    an_instruction_makes_its_accesses::<M>(s, opcode_of(byte));
    the_table_grants_every_access(byte);
}

/// An instruction starts with its opcode fetch as its only access.
pub proof fn an_instruction_starts_with_its_fetch<M: Mapper>(s: CpuModel<M::Model>)
    ensures
        opcode_fetched::<M>(s).cpu.progress == (Progress {
            additional_cycles: 0,
            instr_accesses: 1,
            executing: true,
        }),
{
    reveal(opcode_fetched);
    lemma_read::<M>(
        CpuModel {
            progress: Progress { executing: true, instr_accesses: 0, ..s.progress },
            ..s
        },
        s.regs.program_counter,
    );
}

/// The interrupt sequence takes seven cycles, each a bus access: two fetches,
/// three pushes and the two bytes of the vector. The first fetch of a software
/// interrupt is its opcode's.
pub proof fn an_interrupt_takes_seven_cycles<M: Mapper>(s: CpuModel<M::Model>, brk: bool)
    ensures
        accessed(
            s,
            interrupt_serviced::<M>(s, brk),
            if brk {
                6
            } else {
                7
            },
        ),
{
    reveal(interrupt_serviced);
    reveal(interrupt_begun);
    let first = core_read::<M>(s, s.regs.program_counter).cpu;
    lemma_read::<M>(s, s.regs.program_counter);
    lemma_read::<M>(first, first.regs.program_counter);
    let begun = interrupt_begun::<M>(s, brk);
    let returning = word_pushed::<M>(begun, begun.regs.program_counter);
    lemma_word_pushed::<M>(begun, begun.regs.program_counter);
    let decided = nmi_consumed(returning);
    let status = decided.regs.status.with(CpuFlags::BREAK, brk).with(
        CpuFlags::BREAK2,
        true,
    ).bits;
    lemma_pushed::<M>(decided, status);
    let saved = pushed::<M>(decided, status);
    let masked = with_regs(saved, saved.regs.with_flag(CpuFlags::INTERRUPT_DISABLE, true));
    lemma_word_read::<M>(masked, 0xfffa);
    lemma_word_read::<M>(masked, 0xfffe);
}

} // verus!
