//! What instructions do to a program that runs in work RAM: where they find
//! their operands, what they leave in memory, and where they go on.

use crate::bits::{bit, lemma_flag, lemma_masks};
use crate::bus::model::InterruptBatch;
use crate::cpu::laws::{
    a_pop_yields_the_top, a_push_stores_its_byte, a_ram_write_stores_its_byte,
    a_read_leaves_ram_alone,
};
use crate::cpu::model::{
    absolute_address, access_cycle, branch_run, core_cycle, core_cycles, core_read, core_write,
    cycles_remaining, dmc_scheduled, executed, frame_run, frame_run_end, halts, has_index,
    held_read_repeated, high_store_run, indexed_base, indirect_jump_run, instruction_run,
    interrupt_begun, interrupt_serviced, interrupts_polled, joined, jump_run, kind_of, modify_run,
    nmi_consumed, opcode_fetched, operand_skipped, peeked, penalized, pointer_read, popped,
    program_written, pulled_status, pushed, read_address, read_run, reset_run, run_for, run_halts,
    stack_run, stepped, store_run, uncarried, with_pc, with_regs, word_popped, word_pushed,
    word_read, word_written, write_address, CpuModel, FrameRun, InterruptLines, Kind, Progress,
};
use crate::cpu::registers::{plain_part, CpuFlags, Registers};
use crate::mapper::Mapper;
use crate::opcodes::{opcode_of, AddressingMode, OpCode, Operation};
use vstd::prelude::*;

verus! {

/// A byte of work RAM, whose 2 KB repeat through the first 8 KB.
pub open spec fn ram_byte<V>(s: CpuModel<V>, addr: int) -> int {
    s.bus.cpu_vram[addr % 0x800] as int
}

/// A little-endian word of work RAM.
pub open spec fn ram_word<V>(s: CpuModel<V>, addr: int) -> int {
    ram_byte(s, addr) + 256 * ram_byte(s, addr + 1)
}

/// A pointer in the zero page, whose second byte is behind the first or, behind
/// the last, at the start of the page.
pub open spec fn zero_page_word<V>(s: CpuModel<V>, addr: int) -> int {
    ram_byte(s, addr) + 256 * ram_byte(s, (addr + 1) % 256)
}

/// The address of an operand whose bytes begin at `at`.
pub open spec fn effective<V>(s: CpuModel<V>, mode: AddressingMode, at: int) -> int {
    let x = s.regs.register_x as int;
    let y = s.regs.register_y as int;
    match mode {
        AddressingMode::Immediate | AddressingMode::NoneAddressing => at,
        AddressingMode::ZeroPage => ram_byte(s, at),
        AddressingMode::ZeroPage_X => (ram_byte(s, at) + x) % 256,
        AddressingMode::ZeroPage_Y => (ram_byte(s, at) + y) % 256,
        AddressingMode::Absolute => ram_word(s, at),
        AddressingMode::Absolute_X => (ram_word(s, at) + x) % 0x10000,
        AddressingMode::Absolute_Y => (ram_word(s, at) + y) % 0x10000,
        AddressingMode::Indirect_X => zero_page_word(s, (ram_byte(s, at) + x) % 256),
        AddressingMode::Indirect_Y => (zero_page_word(s, ram_byte(s, at)) + y) % 0x10000,
    }
}

/// The address that an index is added to.
pub open spec fn unindexed<V>(s: CpuModel<V>, mode: AddressingMode, at: int) -> int {
    match mode {
        AddressingMode::Absolute_X | AddressingMode::Absolute_Y => ram_word(s, at),
        AddressingMode::Indirect_Y => zero_page_word(s, ram_byte(s, at)),
        _ => effective(s, mode, at),
    }
}

/// Registers and work RAM are as before.
pub open spec fn undisturbed<V>(s: CpuModel<V>, t: CpuModel<V>) -> bool {
    t.regs == s.regs && t.bus.cpu_vram == s.bus.cpu_vram
}

proof fn lemma_word<M: Mapper>(s: CpuModel<M::Model>, at: u16)
    ensures
        undisturbed(s, word_read::<M>(s, at).cpu),
        at < 0x1fff ==> word_read::<M>(s, at).value as int == ram_word(s, at as int),
{
    reveal(word_read);
    a_read_leaves_ram_alone::<M>(s, at);
    a_read_leaves_ram_alone::<M>(core_read::<M>(s, at).cpu, at.wrapping_add(1));
}

proof fn lemma_pointer<M: Mapper>(s: CpuModel<M::Model>, ptr: u8)
    ensures
        undisturbed(s, pointer_read::<M>(s, ptr).cpu),
        pointer_read::<M>(s, ptr).value as int == zero_page_word(s, ptr as int),
{
    reveal(pointer_read);
    a_read_leaves_ram_alone::<M>(s, ptr as u16);
    a_read_leaves_ram_alone::<M>(
        core_read::<M>(s, ptr as u16).cpu,
        ptr.wrapping_add(1) as u16,
    );
}

proof fn lemma_byte_wraps(a: u8, b: u8)
    ensures
        a.wrapping_add(b) as int == (a + b) % 256,
{
}

proof fn lemma_word_wraps(a: u16, b: u8)
    ensures
        a.wrapping_add(b as u16) as int == (a + b) % 0x10000,
{
}

#[verifier::rlimit(60)]
proof fn lemma_indexed<M: Mapper>(s: CpuModel<M::Model>, mode: AddressingMode)
    requires
        s.regs.program_counter < 0x1fff,
    ensures
        ({
            let i = indexed_base::<M>(s, mode);
            let at = s.regs.program_counter as int;
            &&& undisturbed(s, i.cpu)
            &&& i.base as int == unindexed(s, mode, at)
            &&& i.base.wrapping_add(i.index as u16) as int == effective(s, mode, at)
        }),
{
    reveal(indexed_base);
    reveal(absolute_address);
    let pc = s.regs.program_counter;
    let r = core_read::<M>(s, pc);
    a_read_leaves_ram_alone::<M>(s, pc);
    lemma_word::<M>(s, pc);
    lemma_byte_wraps(r.value, s.regs.register_x);
    lemma_byte_wraps(r.value, s.regs.register_y);
    match mode {
        AddressingMode::Indirect_X => {
            let p = r.value.wrapping_add(r.cpu.regs.register_x);
            lemma_pointer::<M>(r.cpu, p);
            lemma_word_wraps(pointer_read::<M>(r.cpu, p).value, 0);
        },
        AddressingMode::Indirect_Y => {
            lemma_pointer::<M>(r.cpu, r.value);
            lemma_word_wraps(pointer_read::<M>(r.cpu, r.value).value, s.regs.register_y);
        },
        AddressingMode::Absolute_X => {
            lemma_word_wraps(word_read::<M>(s, pc).value, s.regs.register_x);
        },
        AddressingMode::Absolute_Y => {
            lemma_word_wraps(word_read::<M>(s, pc).value, s.regs.register_y);
        },
        _ => {
            lemma_word_wraps(indexed_base::<M>(s, mode).base, 0);
        },
    }
}

proof fn lemma_read_keeps_penalties<M: Mapper>(s: CpuModel<M::Model>, addr: u16)
    ensures
        core_read::<M>(s, addr).cpu.progress.additional_cycles == s.progress.additional_cycles,
{
    reveal(core_read);
    reveal(held_read_repeated);
    reveal(dmc_scheduled);
    reveal(access_cycle);
    reveal(core_cycle);
}

#[verifier::rlimit(50)]
proof fn lemma_indexing_keeps_penalties<M: Mapper>(s: CpuModel<M::Model>, mode: AddressingMode)
    ensures
        indexed_base::<M>(s, mode).cpu.progress.additional_cycles == s.progress.additional_cycles,
{
    reveal(indexed_base);
    reveal(absolute_address);
    reveal(word_read);
    reveal(pointer_read);
    let pc = s.regs.program_counter;
    let r = core_read::<M>(s, pc);
    lemma_read_keeps_penalties::<M>(s, pc);
    lemma_read_keeps_penalties::<M>(r.cpu, pc.wrapping_add(1));
    lemma_read_keeps_penalties::<M>(r.cpu, r.value as u16);
    let one = core_read::<M>(r.cpu, r.value as u16);
    lemma_read_keeps_penalties::<M>(one.cpu, r.value.wrapping_add(1) as u16);
    let p = r.value.wrapping_add(r.cpu.regs.register_x);
    lemma_read_keeps_penalties::<M>(r.cpu, p as u16);
    let two = core_read::<M>(r.cpu, p as u16);
    lemma_read_keeps_penalties::<M>(two.cpu, p.wrapping_add(1) as u16);
}

/// Every addressing mode finds its operand: zero-page indexing wraps in the
/// page, long indexing in the address space, and pointers lie in the zero page.
/// Finding it disturbs neither registers nor work RAM. A read whose index
/// crosses a page takes one cycle more.
#[verifier::rlimit(50)]
pub proof fn operands_are_found<M: Mapper>(s: CpuModel<M::Model>, mode: AddressingMode)
    requires
        s.regs.program_counter < 0x1fff,
    ensures
        ({
            let at = s.regs.program_counter as int;
            let found = read_address::<M>(s, mode);
            let stored = write_address::<M>(s, mode);
            let crossed = effective(s, mode, at) / 256 != unindexed(s, mode, at) / 256;
            &&& found.value as int == effective(s, mode, at)
            &&& stored.value as int == effective(s, mode, at)
            &&& undisturbed(s, found.cpu)
            &&& undisturbed(s, stored.cpu)
            &&& s.progress.additional_cycles < 255 ==> found.cpu.progress.additional_cycles as int
                == s.progress.additional_cycles + if crossed {
                1int
            } else {
                0
            }
            &&& stored.cpu.progress.additional_cycles == s.progress.additional_cycles
        }),
{
    reveal(read_address);
    reveal(write_address);
    lemma_indexed::<M>(s, mode);
    lemma_indexing_keeps_penalties::<M>(s, mode);
    let i = indexed_base::<M>(s, mode);
    let addr = i.base.wrapping_add(i.index as u16);
    a_read_leaves_ram_alone::<M>(penalized(i.cpu, 1), uncarried(i.base, addr));
    a_read_leaves_ram_alone::<M>(i.cpu, uncarried(i.base, addr));
    lemma_read_keeps_penalties::<M>(penalized(i.cpu, 1), uncarried(i.base, addr));
    lemma_read_keeps_penalties::<M>(i.cpu, uncarried(i.base, addr));
}

/// A reading instruction applies itself to the byte its operand names, and
/// leaves memory alone.
pub proof fn a_read_applies_to_the_named_byte<M: Mapper>(
    s: CpuModel<M::Model>,
    op: Operation,
    mode: AddressingMode,
)
    requires
        s.regs.program_counter < 0x1fff,
        effective(s, mode, s.regs.program_counter as int) < 0x2000,
        kind_of(op) == Kind::Read,
    ensures
        ({
            let byte = ram_byte(s, effective(s, mode, s.regs.program_counter as int));
            let after = executed::<M>(s, OpCode { operation: op, mode, len: 1, cycles: 2 });
            &&& after == read_run::<M>(s, op, mode)
            &&& after.regs == s.regs.read_applied(op, byte as u8)
            &&& after.bus.cpu_vram == s.bus.cpu_vram
        }),
{
    reveal(executed);
    reveal(read_run);
    operands_are_found::<M>(s, mode);
    let w = read_address::<M>(s, mode);
    a_read_leaves_ram_alone::<M>(w.cpu, w.value);
}

/// A store puts its register where its operand names, and touches no other
/// byte of work RAM and no register.
pub proof fn a_store_stores_at_the_named_byte<M: Mapper>(
    s: CpuModel<M::Model>,
    op: Operation,
    mode: AddressingMode,
)
    requires
        s.regs.program_counter < 0x1fff,
        effective(s, mode, s.regs.program_counter as int) < 0x2000,
        kind_of(op) == Kind::Store,
    ensures
        ({
            let at = effective(s, mode, s.regs.program_counter as int);
            let after = executed::<M>(s, OpCode { operation: op, mode, len: 1, cycles: 2 });
            &&& after == store_run::<M>(s, op, mode)
            &&& after.regs == s.regs
            &&& after.bus.cpu_vram == s.bus.cpu_vram.update(at % 0x800, s.regs.stored(op))
        }),
{
    reveal(executed);
    reveal(store_run);
    operands_are_found::<M>(s, mode);
    let w = write_address::<M>(s, mode);
    a_ram_write_stores_its_byte::<M>(w.cpu, w.value, w.cpu.regs.stored(op));
}

/// A modification replaces the byte its operand names by the result of the
/// plain operation on it, whose flags it takes, and an undocumented one then
/// folds that result into the accumulator.
#[verifier::rlimit(50)]
pub proof fn a_modification_replaces_the_named_byte<M: Mapper>(
    s: CpuModel<M::Model>,
    op: Operation,
    mode: AddressingMode,
)
    requires
        s.regs.program_counter < 0x1fff,
        effective(s, mode, s.regs.program_counter as int) < 0x2000,
        kind_of(op) == Kind::Modify,
    ensures
        ({
            let at = effective(s, mode, s.regs.program_counter as int);
            let byte = ram_byte(s, at) as u8;
            let result = s.regs.modified(plain_part(op), byte);
            let after = executed::<M>(s, OpCode { operation: op, mode, len: 1, cycles: 2 });
            &&& after == modify_run::<M>(s, op, mode)
            &&& after.bus.cpu_vram == s.bus.cpu_vram.update(at % 0x800, result)
            &&& after.regs == s.regs.carried(plain_part(op), byte).with_zn(result).folded(
                op,
                result,
            )
        }),
{
    reveal(executed);
    reveal(modify_run);
    operands_are_found::<M>(s, mode);
    let plain = plain_part(op);
    let w = write_address::<M>(s, mode);
    let r = core_read::<M>(w.cpu, w.value);
    a_read_leaves_ram_alone::<M>(w.cpu, w.value);
    let result = r.cpu.regs.modified(plain, r.value);
    a_ram_write_stores_its_byte::<M>(
        with_regs(r.cpu, r.cpu.regs.carried(plain, r.value)),
        w.value,
        result,
    );
}

/// An unstable store masks its value by the page number behind its base; where
/// the index crosses a page, that value also becomes the page stored to. TAS
/// first leaves what A and X have in common in the stack pointer.
#[verifier::rlimit(50)]
pub proof fn an_unstable_store_masks_by_the_page<M: Mapper>(
    s: CpuModel<M::Model>,
    op: Operation,
    mode: AddressingMode,
)
    requires
        s.regs.program_counter < 0x1fff,
        has_index(mode),
        kind_of(op) == Kind::HighStore,
    ensures
        ({
            let pc = s.regs.program_counter as int;
            let base = unindexed(s, mode, pc);
            let at = effective(s, mode, pc);
            let page = ((base / 256 + 1) % 256) as u8;
            let value = s.regs.high_stored(op, page);
            let target = if at / 256 == base / 256 {
                at
            } else {
                value * 256 + at % 256
            };
            let after = executed::<M>(s, OpCode { operation: op, mode, len: 3, cycles: 5 });
            target < 0x2000 ==> {
                &&& after.bus.cpu_vram == s.bus.cpu_vram.update(target % 0x800, value)
                &&& after.regs == if op == Operation::Tas {
                    Registers { stack_pointer: s.regs.register_a & s.regs.register_x, ..s.regs }
                } else {
                    s.regs
                }
            }
        }),
{
    reveal(executed);
    reveal(high_store_run);
    let begun = if op == Operation::Tas {
        with_regs(
            s,
            Registers { stack_pointer: s.regs.register_a & s.regs.register_x, ..s.regs },
        )
    } else {
        s
    };
    lemma_indexed::<M>(begun, mode);
    let pc = s.regs.program_counter as int;
    assert(effective(begun, mode, pc) == effective(s, mode, pc));
    assert(unindexed(begun, mode, pc) == unindexed(s, mode, pc));
    let i = indexed_base::<M>(begun, mode);
    let effective_at = i.base.wrapping_add(i.index as u16);
    let value = i.cpu.regs.high_stored(op, ((i.base / 256) as u8).wrapping_add(1));
    let dummy = core_read::<M>(i.cpu, uncarried(i.base, effective_at));
    a_read_leaves_ram_alone::<M>(i.cpu, uncarried(i.base, effective_at));
    let target = if i.base / 256 != effective_at / 256 {
        joined((effective_at % 256) as u8, value)
    } else {
        effective_at
    };
    if target < 0x2000 {
        a_ram_write_stores_its_byte::<M>(dummy.cpu, target, value);
    }
}

/// A taken branch goes on at its offset, a signed byte, from the instruction
/// behind it; one not taken stays at its offset byte. Taking it costs a cycle,
/// and another where the target lies on another page.
#[verifier::rlimit(50)]
pub proof fn a_branch_goes_by_its_signed_offset<M: Mapper>(s: CpuModel<M::Model>, op: Operation)
    requires
        s.regs.program_counter < 0x1fff,
        kind_of(op) == Kind::Branch,
        s.progress.additional_cycles == 0,
    ensures
        ({
            let after = branch_run::<M>(s, op);
            let offset = ram_byte(s, s.regs.program_counter as int);
            let signed = if offset < 128 {
                offset
            } else {
                offset - 256
            };
            let next = s.regs.program_counter + 1;
            let target = (next + signed) % 0x10000;
            &&& !s.regs.branch_taken(op) ==> after.regs == s.regs
                && after.progress.additional_cycles == 0
            &&& s.regs.branch_taken(op) ==> {
                &&& after.regs == (Registers { program_counter: target as u16, ..s.regs })
                &&& after.progress.additional_cycles as int == if target / 256 == next / 256 {
                    1int
                } else {
                    2
                }
            }
            &&& after.bus.cpu_vram == s.bus.cpu_vram
        }),
{
    reveal(branch_run);
    a_read_leaves_ram_alone::<M>(s, s.regs.program_counter);
    lemma_read_keeps_penalties::<M>(s, s.regs.program_counter);
}

/// A jump goes where its operand says; an indirect one where the word at that
/// address says, whose second byte is taken from the same page.
#[verifier::rlimit(50)]
pub proof fn jumps_go_where_they_are_told<M: Mapper>(s: CpuModel<M::Model>)
    requires
        s.regs.program_counter < 0x1fff,
    ensures
        ({
            let pointer = ram_word(s, s.regs.program_counter as int);
            let behind = if pointer % 256 == 255 {
                pointer - 255
            } else {
                pointer + 1
            };
            let direct = jump_run::<M>(s, Operation::JmpAbsolute);
            let indirect = jump_run::<M>(s, Operation::JmpIndirect);
            &&& direct.regs == (Registers { program_counter: pointer as u16, ..s.regs })
            &&& pointer < 0x2000 && behind < 0x2000 ==> indirect.regs == (Registers {
                program_counter: (ram_byte(s, pointer) + 256 * ram_byte(s, behind)) as u16,
                ..s.regs
            })
            &&& direct.bus.cpu_vram == s.bus.cpu_vram
            &&& indirect.bus.cpu_vram == s.bus.cpu_vram
        }),
{
    reveal(jump_run);
    reveal(indirect_jump_run);
    lemma_word::<M>(s, s.regs.program_counter);
    let w = word_read::<M>(s, s.regs.program_counter);
    let lo = core_read::<M>(w.cpu, w.value);
    a_read_leaves_ram_alone::<M>(w.cpu, w.value);
    let second = if w.value % 256 == 255 {
        (w.value / 256 * 256) as u16
    } else {
        (w.value + 1) as u16
    };
    a_read_leaves_ram_alone::<M>(lo.cpu, second);
}

/// A call pushes the address of its own last byte, the high byte first, and
/// goes where its operand says.
#[verifier::rlimit(50)]
pub proof fn a_call_pushes_its_last_byte<M: Mapper>(s: CpuModel<M::Model>)
    requires
        s.regs.program_counter < 0x1fff,
        s.bus.cpu_vram.len() == 2048,
        // the operand is not on the stack
        s.regs.program_counter as int % 0x800 >= 0x200,
        s.regs.program_counter as int % 0x800 < 0x7ff,
    ensures
        ({
            let after = jump_run::<M>(s, Operation::Jsr);
            let sp = s.regs.stack_pointer as int;
            let last = s.regs.program_counter + 1;
            &&& after.regs == (Registers {
                program_counter: ram_word(s, s.regs.program_counter as int) as u16,
                stack_pointer: ((sp - 2) % 256) as u8,
                ..s.regs
            })
            &&& after.bus.cpu_vram == s.bus.cpu_vram.update(
                0x100 + sp,
                (last / 256) as u8,
            ).update(0x100 + (sp - 1) % 256, (last % 256) as u8)
        }),
{
    reveal(jump_run);
    reveal(word_pushed);
    let back = s.regs.program_counter.wrapping_add(1);
    let high = pushed::<M>(s, (back / 256) as u8);
    a_push_stores_its_byte::<M>(s, (back / 256) as u8);
    a_push_stores_its_byte::<M>(high, (back % 256) as u8);
    let returning = word_pushed::<M>(s, back);
    lemma_word::<M>(returning, s.regs.program_counter);
}

/// A return goes behind the word on the stack.
pub proof fn a_return_goes_behind_the_word_on_the_stack<M: Mapper>(s: CpuModel<M::Model>)
    ensures
        ({
            let after = jump_run::<M>(s, Operation::Rts);
            let sp = s.regs.stack_pointer as int;
            let low = s.bus.cpu_vram[0x100 + (sp + 1) % 256] as int;
            let high = s.bus.cpu_vram[0x100 + (sp + 2) % 256] as int;
            &&& after.regs == (Registers {
                program_counter: ((low + 256 * high + 1) % 0x10000) as u16,
                stack_pointer: ((sp + 2) % 256) as u8,
                ..s.regs
            })
            &&& after.bus.cpu_vram == s.bus.cpu_vram
        }),
{
    reveal(jump_run);
    reveal(word_popped);
    a_pop_yields_the_top::<M>(s);
    a_pop_yields_the_top::<M>(popped::<M>(s).cpu);
}

/// A return from an interrupt takes the status and then the address.
pub proof fn an_interrupt_return_takes_status_and_address<M: Mapper>(s: CpuModel<M::Model>)
    ensures
        ({
            let after = jump_run::<M>(s, Operation::Rti);
            let sp = s.regs.stack_pointer as int;
            let status = s.bus.cpu_vram[0x100 + (sp + 1) % 256];
            let low = s.bus.cpu_vram[0x100 + (sp + 2) % 256] as int;
            let high = s.bus.cpu_vram[0x100 + (sp + 3) % 256] as int;
            &&& after.regs == (Registers {
                program_counter: (low + 256 * high) as u16,
                stack_pointer: ((sp + 3) % 256) as u8,
                status: pulled_status(status),
                ..s.regs
            })
            &&& after.bus.cpu_vram == s.bus.cpu_vram
        }),
{
    reveal(jump_run);
    reveal(word_popped);
    let r = popped::<M>(s);
    a_pop_yields_the_top::<M>(s);
    let q = with_regs(r.cpu, Registers { status: pulled_status(r.value), ..r.cpu.regs });
    a_pop_yields_the_top::<M>(q);
    a_pop_yields_the_top::<M>(popped::<M>(q).cpu);
}

/// A pulled status keeps every flag but the two that are no flags: B reads
/// clear and the unused bit set. A pushed one has both set.
pub proof fn the_stack_shows_two_more_bits(s: Registers, bits: u8, k: u8)
    requires
        k < 8,
    ensures
        bit(pulled_status(bits).bits, k) == (k == 5 || (k != 4 && bit(
            bits,
            k,
        ))),
        bit(
            s.status.with(CpuFlags::BREAK, true).with(CpuFlags::BREAK2, true).bits,
            k,
        ) == (k == 4 || k == 5 || bit(s.status.bits, k)),
        bit(
            s.status.with(CpuFlags::BREAK, false).with(CpuFlags::BREAK2, true).bits,
            k,
        ) == (k == 5 || (k != 4 && bit(s.status.bits, k))),
{
    lemma_masks(0);
    lemma_flag(bits, 0x10, 4, k);
    lemma_flag(bits & !0x10u8, 0x20, 5, k);
    lemma_flag(s.status.bits, 0x10, 4, k);
    lemma_flag(s.status.bits | 0x10, 0x20, 5, k);
    lemma_flag(s.status.bits & !0x10u8, 0x20, 5, k);
}

/// The four stack instructions push and pull the accumulator and the status.
pub proof fn stack_instructions_move_a_and_the_status<M: Mapper>(s: CpuModel<M::Model>)
    ensures
        ({
            let sp = s.regs.stack_pointer as int;
            let top = s.bus.cpu_vram[0x100 + (sp + 1) % 256];
            let pha = stack_run::<M>(s, Operation::Pha);
            let php = stack_run::<M>(s, Operation::Php);
            let pla = stack_run::<M>(s, Operation::Pla);
            let plp = stack_run::<M>(s, Operation::Plp);
            let lower = Registers { stack_pointer: ((sp - 1) % 256) as u8, ..s.regs };
            let upper = Registers { stack_pointer: ((sp + 1) % 256) as u8, ..s.regs };
            &&& pha.regs == lower && php.regs == lower
            &&& pha.bus.cpu_vram == s.bus.cpu_vram.update(0x100 + sp, s.regs.register_a)
            &&& php.bus.cpu_vram == s.bus.cpu_vram.update(
                0x100 + sp,
                s.regs.status.with(CpuFlags::BREAK, true).with(CpuFlags::BREAK2, true).bits,
            )
            &&& pla.regs == upper.with_a(top)
            &&& plp.regs == (Registers { status: pulled_status(top), ..upper })
            &&& pla.bus.cpu_vram == s.bus.cpu_vram && plp.bus.cpu_vram == s.bus.cpu_vram
        }),
{
    reveal(stack_run);
    a_push_stores_its_byte::<M>(s, s.regs.register_a);
    a_push_stores_its_byte::<M>(
        s,
        s.regs.status.with(CpuFlags::BREAK, true).with(CpuFlags::BREAK2, true).bits,
    );
    a_pop_yields_the_top::<M>(s);
}

/// An instruction is fetched from where the program counter points, which then
/// points behind the opcode.
pub proof fn the_opcode_is_fetched_at_the_counter<M: Mapper>(s: CpuModel<M::Model>)
    requires
        s.regs.program_counter < 0x2000,
    ensures
        ({
            let r = opcode_fetched::<M>(s);
            &&& r.value as int == ram_byte(s, s.regs.program_counter as int)
            &&& r.cpu.regs == (Registers {
                program_counter: (s.regs.program_counter + 1) as u16,
                ..s.regs
            })
            &&& r.cpu.bus.cpu_vram == s.bus.cpu_vram
            &&& r.cpu.progress.additional_cycles == 0
        }),
{
    reveal(opcode_fetched);
    a_read_leaves_ram_alone::<M>(
        CpuModel {
            progress: Progress { executing: true, instr_accesses: 0, ..s.progress },
            ..s
        },
        s.regs.program_counter,
    );
}

/// An instruction that left the program counter where it was goes on behind its
/// operand.
pub proof fn the_counter_moves_behind_the_operand<V>(s: CpuModel<V>, len: u8)
    requires
        1 <= len <= 3,
    ensures
        ({
            let from = s.regs.program_counter;
            let after = operand_skipped(s, from, len);
            &&& after.regs.program_counter as int == (from + len - 1) % 0x10000
            &&& after == with_pc(s, after.regs.program_counter)
            &&& forall|other: u16| other != from ==> #[trigger] operand_skipped(s, other, len) == s
        }),
{
}

/// An interrupt goes on where its vector says: at $FFFE, unless a non-maskable
/// one stands when the return address has been pushed, which takes $FFFA and is
/// then done.
#[verifier::rlimit(50)]
pub proof fn an_interrupt_follows_its_vector<M: Mapper>(s: CpuModel<M::Model>, brk: bool)
    ensures
        ({
            let begun = interrupt_begun::<M>(s, brk);
            let returning = word_pushed::<M>(begun, begun.regs.program_counter);
            let stolen = returning.lines.nmi_pending;
            let saved = pushed::<M>(
                nmi_consumed(returning),
                returning.regs.status.with(CpuFlags::BREAK, brk).with(
                    CpuFlags::BREAK2,
                    true,
                ).bits,
            );
            let masked = with_regs(saved, saved.regs.with_flag(CpuFlags::INTERRUPT_DISABLE, true));
            let low = core_read::<M>(
                masked,
                if stolen {
                    0xfffa
                } else {
                    0xfffe
                },
            );
            let high = core_read::<M>(
                low.cpu,
                if stolen {
                    0xfffb
                } else {
                    0xffff
                },
            );
            &&& interrupt_serviced::<M>(s, brk).regs.program_counter as int == low.value + 256
                * high.value
            &&& !nmi_consumed(returning).lines.nmi_pending
        }),
{
    reveal(interrupt_serviced);
    reveal(word_read);
}

/// A reset clears the registers, puts the stack pointer near the top of its
/// page, disables interrupts and follows the vector at $FFFC.
pub proof fn a_reset_follows_its_vector<M: Mapper>(s: CpuModel<M::Model>)
    ensures
        ({
            let after = reset_run::<M>(s);
            let cleared = CpuModel {
                regs: Registers {
                    register_a: 0,
                    register_x: 0,
                    register_y: 0,
                    status: CpuFlags { bits: 0x24 },
                    stack_pointer: 0xfd,
                    ..s.regs
                },
                dmc_held_read: None,
                ..s
            };
            let low = core_read::<M>(cleared, 0xfffc);
            let high = core_read::<M>(low.cpu, 0xfffd);
            &&& after.regs == (Registers {
                program_counter: (low.value + 256 * high.value) as u16,
                ..cleared.regs
            })
            &&& after.bus.cpu_vram == s.bus.cpu_vram
        }),
{
    reveal(reset_run);
    reveal(word_read);
    let cleared = CpuModel {
        regs: Registers {
            register_a: 0,
            register_x: 0,
            register_y: 0,
            status: CpuFlags { bits: 0x24 },
            stack_pointer: 0xfd,
            ..s.regs
        },
        dmc_held_read: None,
        ..s
    };
    a_read_leaves_ram_alone::<M>(cleared, 0xfffc);
    a_read_leaves_ram_alone::<M>(core_read::<M>(cleared, 0xfffc).cpu, 0xfffd);
}

/// Which instructions read, store, modify and so on: everything not named here
/// works inside the core.
pub proof fn the_kinds_of_instructions(op: Operation)
    ensures
        kind_of(op) == Kind::Store <==> op == Operation::Sta || op == Operation::Stx || op
            == Operation::Sty || op == Operation::Sax,
        kind_of(op) == Kind::HighStore <==> op == Operation::Sha || op == Operation::Shx || op
            == Operation::Shy || op == Operation::Tas,
        kind_of(op) == Kind::Modify <==> op == Operation::Asl || op == Operation::Lsr || op
            == Operation::Rol || op == Operation::Ror || op == Operation::Inc || op
            == Operation::Dec || plain_part(op) != op,
        kind_of(op) == Kind::Stack <==> op == Operation::Pha || op == Operation::Php || op
            == Operation::Pla || op == Operation::Plp,
        kind_of(op) == Kind::Jump <==> op == Operation::JmpAbsolute || op
            == Operation::JmpIndirect || op == Operation::Jsr || op == Operation::Rts || op
            == Operation::Rti,
{
}

/// An interrupt is recognized at an instruction's end if it stood one cycle
/// before it; an edge is kept until it is taken, a level only while it lasts. A
/// branch goes by its own poll.
pub proof fn interrupts_are_seen_a_cycle_late(lines: InterruptLines, samples: InterruptBatch)
    requires
        samples.cycles == 1,
    ensures
        ({
            let after = lines.cycled(samples);
            &&& after.nmi_pending == (lines.nmi_pending || samples.nmi_first)
            &&& after.irq_line == samples.irq_first
            &&& after.branch_poll == lines.branch_poll
            &&& lines.branch_poll is None ==> after.recognized().nmi == lines.nmi_pending
                && after.recognized().irq == lines.irq_line
            &&& lines.branch_poll is Some ==> after.recognized() == lines.branch_poll->0
        }),
{
}

/// Cycles that a transfer steals move the lines but not what has been seen.
pub proof fn stolen_cycles_hide_their_interrupts(lines: InterruptLines, samples: InterruptBatch)
    ensures
        lines.halted(samples).recognized() == lines.recognized(),
        lines.halted(samples).nmi_pending == (lines.nmi_pending || samples.nmi_any),
        lines.halted(samples).irq_line == samples.irq_last,
{
}

/// A batch keeps the first cycle's samples, the last level and whether any edge
/// came.
pub proof fn a_batch_keeps_first_and_last(b: InterruptBatch, edge: bool, level: bool)
    requires
        b.cycles < u16::MAX,
    ensures
        ({
            let after = b.pushed(edge, level);
            &&& after.cycles == b.cycles + 1
            &&& after.nmi_any == (b.nmi_any || edge)
            &&& after.irq_last == level
            &&& b.cycles == 0 ==> after.nmi_first == edge && after.irq_first == level
            &&& b.cycles > 0 ==> after.nmi_first == b.nmi_first && after.irq_first == b.irq_first
        }),
        InterruptBatch::empty().cycles == 0,
{
}

/// At an instruction's end a recognized edge goes before a level, and a level
/// is heeded only while interrupts are enabled; otherwise the program goes on.
pub proof fn enabled_interrupts_are_taken<M: Mapper>(s: CpuModel<M::Model>, disabled: bool)
    ensures
        ({
            let poll = s.lines.recognized();
            let quiet = CpuModel {
                lines: InterruptLines { branch_poll: None, ..s.lines },
                ..s
            };
            let taken = poll.nmi || (poll.irq && !disabled);
            &&& taken ==> interrupts_polled::<M>(s, disabled) == interrupt_serviced::<M>(
                quiet,
                false,
            )
            &&& !taken ==> interrupts_polled::<M>(s, disabled) == quiet
        }),
{
    reveal(interrupts_polled);
}

/// The state an instruction other than BRK leaves, before interrupts are
/// looked at: its work done, its cycles spent and its operand passed.
pub open spec fn finished<M: Mapper>(s: CpuModel<M::Model>, code: u8) -> CpuModel<M::Model> {
    let entry = opcode_of(code);
    let done = executed::<M>(s, entry);
    operand_skipped(
        core_cycles::<M>(done, cycles_remaining(done.progress, entry.cycles)),
        s.regs.program_counter,
        entry.len,
    )
}

/// A change of the interrupt flag acts an instruction late: with the flag set
/// before an instruction, no level is taken behind it, whatever it does, and
/// with the flag clear one is. Only the return from an interrupt is heeded at
/// once.
pub proof fn the_interrupt_flag_acts_late<M: Mapper>(s: CpuModel<M::Model>, code: u8)
    requires
        code != 0,
        !finished::<M>(s, code).lines.recognized().nmi,
    ensures
        ({
            let next = finished::<M>(s, code);
            let quiet = CpuModel {
                lines: InterruptLines { branch_poll: None, ..next.lines },
                ..next
            };
            let flag = if code == 0x40 {
                bit(next.regs.status.bits, 2)
            } else {
                bit(s.regs.status.bits, 2)
            };
            let after = instruction_run::<M>(s, code);
            &&& flag || !next.lines.recognized().irq ==> after == quiet
            &&& !flag && next.lines.recognized().irq ==> after == interrupt_serviced::<M>(
                quiet,
                false,
            )
        }),
{
    reveal(instruction_run);
    reveal(interrupts_polled);
    lemma_masks(0);
    lemma_flag(s.regs.status.bits, 0x04, 2, 2);
    lemma_flag(finished::<M>(s, code).regs.status.bits, 0x04, 2, 2);
}

/// A branch looks at the interrupts as they stand when its offset has been
/// fetched.
pub proof fn a_branch_polls_behind_its_offset<M: Mapper>(s: CpuModel<M::Model>, op: Operation)
    ensures
        ({
            let fetched = core_read::<M>(s, s.regs.program_counter).cpu.lines;
            let poll = branch_run::<M>(s, op).lines.recognized();
            &&& poll.nmi == fetched.nmi_pending
            &&& poll.irq == fetched.irq_line
        }),
{
    reveal(branch_run);
}

/// An index is added to the low byte first: a store reads once at the address
/// whose page is not yet carried, and so does a read whose index crosses a
/// page, before the operand itself.
#[verifier::rlimit(50)]
pub proof fn indexing_reads_at_the_uncarried_page<M: Mapper>(
    s: CpuModel<M::Model>,
    mode: AddressingMode,
)
    requires
        s.regs.program_counter < 0x1fff,
        has_index(mode),
    ensures
        ({
            let at = s.regs.program_counter as int;
            let base = unindexed(s, mode, at);
            let addr = effective(s, mode, at);
            let early = (base - base % 256 + addr % 256) as u16;
            let found = indexed_base::<M>(s, mode).cpu;
            &&& write_address::<M>(s, mode).cpu == core_read::<M>(found, early).cpu
            &&& base / 256 != addr / 256 ==> read_address::<M>(s, mode).cpu == core_read::<M>(
                penalized(found, 1),
                early,
            ).cpu
            &&& base / 256 == addr / 256 ==> read_address::<M>(s, mode).cpu == found
        }),
{
    reveal(read_address);
    reveal(write_address);
    lemma_indexed::<M>(s, mode);
}

/// A modification reads its operand, and then writes it once.
pub proof fn a_modification_reads_then_writes<M: Mapper>(
    s: CpuModel<M::Model>,
    op: Operation,
    mode: AddressingMode,
)
    ensures
        ({
            let w = write_address::<M>(s, mode);
            let r = core_read::<M>(w.cpu, w.value);
            let result = r.cpu.regs.modified(plain_part(op), r.value);
            let carried = with_regs(r.cpu, r.cpu.regs.carried(plain_part(op), r.value));
            modify_run::<M>(s, op, mode).bus == core_write::<M>(carried, w.value, result).bus
        }),
{
    reveal(modify_run);
}

/// A word written to work RAM lies there low byte first and reads back.
pub proof fn a_written_word_reads_back<M: Mapper>(s: CpuModel<M::Model>, at: u16, data: u16)
    requires
        at < 0x1fff,
        s.bus.cpu_vram.len() == 2048,
    ensures
        ({
            let after = word_written::<M>(s, at, data);
            &&& ram_byte(after, at as int) == data as int % 256
            &&& ram_byte(after, at + 1) == data as int / 256
            &&& word_read::<M>(after, at).value == data
            &&& after.regs == s.regs
        }),
{
    reveal(word_written);
    a_ram_write_stores_its_byte::<M>(s, at, (data % 256) as u8);
    let low = core_write::<M>(s, at, (data % 256) as u8);
    a_ram_write_stores_its_byte::<M>(low, at.wrapping_add(1), (data / 256) as u8);
    lemma_word::<M>(word_written::<M>(s, at, data), at);
}

/// A program is loaded at $0600 of work RAM, byte for byte.
pub proof fn a_program_lies_at_0600<M: Mapper>(
    s: CpuModel<M::Model>,
    program: Seq<u8>,
    n: nat,
    i: int,
)
    requires
        s.bus.cpu_vram.len() == 2048,
        n <= 0x200,
        n <= program.len(),
        0 <= i < 2048,
    ensures
        ({
            let after = program_written::<M>(s, program, n);
            &&& after.regs == s.regs
            &&& after.bus.cpu_vram.len() == 2048
            &&& after.bus.cpu_vram[i] == if 0x600 <= i < 0x600 + n {
                program[i - 0x600]
            } else {
                s.bus.cpu_vram[i]
            }
        }),
    decreases n,
{
    if n > 0 {
        a_program_lies_at_0600::<M>(s, program, (n - 1) as nat, i);
        a_ram_write_stores_its_byte::<M>(
            program_written::<M>(s, program, (n - 1) as nat),
            0x0600u16.wrapping_add(((n - 1) % 0x10000) as u16),
            program[n - 1],
        );
    }
}

/// The opcode 0 is a software interrupt: it shows the break bit to its handler,
/// which an interrupt from outside does not.
pub proof fn a_break_is_a_software_interrupt<M: Mapper>(s: CpuModel<M::Model>)
    ensures
        instruction_run::<M>(s, 0) == interrupt_serviced::<M>(s, true),
{
    reveal(instruction_run);
}

/// An instruction's accesses and the cycles behind them make up the cycles of the
/// table and its penalties, unless it has made more accesses already.
pub proof fn accesses_and_rest_make_up_the_cycles(p: Progress, base: u8)
    ensures
        p.instr_accesses <= base + p.additional_cycles ==> p.instr_accesses + cycles_remaining(
            p,
            base,
        ) == base + p.additional_cycles,
        p.instr_accesses > base + p.additional_cycles ==> cycles_remaining(p, base) == 0,
{
}

/// A step looks at the next byte between instructions. The halt sentinel is
/// passed over; anything else is fetched and run.
pub proof fn a_step_passes_or_runs<M: Mapper>(s: CpuModel<M::Model>)
    ensures
        ({
            let idle = CpuModel { progress: Progress { executing: false, ..s.progress }, ..s };
            let looked = peeked::<M>(idle);
            let fetched = opcode_fetched::<M>(looked);
            &&& !halts::<M>(idle) ==> stepped::<M>(s) == instruction_run::<M>(
                fetched.cpu,
                fetched.value,
            )
            &&& halts::<M>(idle) ==> stepped::<M>(s).regs == (Registers {
                program_counter: looked.regs.program_counter.wrapping_add(1),
                ..looked.regs
            })
            &&& halts::<M>(idle) ==> stepped::<M>(s).bus == looked.bus
        }),
{
    reveal(stepped);
}

/// A run is its parts: one that has not met the sentinel goes on where it
/// stopped, and one that has ends there, however many steps are left.
pub proof fn a_run_is_its_parts<M: Mapper>(s: CpuModel<M::Model>, first: nat, second: nat)
    ensures
        run_halts::<M>(s, first) ==> run_for::<M>(s, first + second) == run_for::<M>(s, first),
        !run_halts::<M>(s, first) ==> run_for::<M>(s, first + second) == run_for::<M>(
            run_for::<M>(s, first),
            second,
        ),
        run_halts::<M>(s, first) ==> run_halts::<M>(s, first + second),
        run_for::<M>(s, 0) == s,
        !halts::<M>(s) ==> run_for::<M>(s, 1) == stepped::<M>(s),
        run_halts::<M>(s, 1) == halts::<M>(s),
    decreases first,
{
    reveal_with_fuel(run_for, 2);
    reveal_with_fuel(run_halts, 2);
    if first > 0 && !halts::<M>(s) {
        a_run_is_its_parts::<M>(stepped::<M>(s), (first - 1) as nat, second);
        assert((first - 1) as nat + second == (first + second - 1) as nat);
    }
}

/// A run toward a frame that was out of steps goes on where it stopped; one that
/// met the frame has taken its event and stands between instructions.
pub proof fn a_frame_run_is_its_parts<M: Mapper>(s: CpuModel<M::Model>, first: nat, second: nat)
    ensures
        ({
            let end = frame_run_end::<M>(s, first);
            let how = frame_run::<M>(s, first);
            &&& how == FrameRun::OutOfSteps ==> {
                &&& frame_run::<M>(s, first + second) == frame_run::<M>(end, second)
                &&& frame_run_end::<M>(s, first + second) == frame_run_end::<M>(end, second)
                &&& !end.bus.host_frame_ready
            }
            &&& how != FrameRun::OutOfSteps ==> {
                &&& frame_run::<M>(s, first + second) == how
                &&& frame_run_end::<M>(s, first + second) == end
            }
            &&& how == FrameRun::FrameReady ==> !end.bus.host_frame_ready
                && !end.progress.executing
        }),
        frame_run::<M>(s, 0) == FrameRun::FrameReady <==> s.bus.host_frame_ready,
        !s.bus.host_frame_ready ==> (frame_run::<M>(s, 1) == FrameRun::Halted <==> halts::<M>(s)),
    decreases first,
{
    reveal_with_fuel(frame_run, 2);
    reveal_with_fuel(frame_run_end, 2);
    if first > 0 && !s.bus.host_frame_ready && !halts::<M>(s) {
        a_frame_run_is_its_parts::<M>(stepped::<M>(s), (first - 1) as nat, second);
        assert((first - 1) as nat + second == (first + second - 1) as nat);
    }
}

} // verus!
