//! What a DMC fetch costs in the middle of an OAM transfer.

use crate::apu::{apu_cycle, ApuModel};
use crate::bus::laws::{dmc_silent, in_step, quiet_cycles_left};
use crate::bus::model::{
    a_cycle_flips_the_dma_phase, a_request_stands_in_a_transfer, a_transfer_always_progresses,
    a_transfer_runs_cycle_by_cycle, cycle_clocked, devices_advanced, dmc_served, transfer_access,
    transfer_clocked, transfer_next, transfer_run, BusModel, Clocked, DmcDmaPhase,
    OamDmaPhase, Transfer,
};
use crate::mapper::Mapper;
use vstd::prelude::*;

verus! {

/// Cycles that a transfer has left when the DMC asks for nothing more than the
/// byte it is being served.
pub open spec fn cycles_left(t: Transfer, get_cycle: bool) -> nat
    decreases t.work(), t.wait(get_cycle),
    when t.wf()
{
    if t.finished() {
        0
    } else {
        proof {
            a_transfer_always_progresses(t, false, get_cycle, 0);
        }
        1 + cycles_left(t.stepped(get_cycle, 0), !get_cycle)
    }
}

/// The bytes that a transfer carries do not bear on its length.
proof fn lemma_bytes_cost_nothing(t: Transfer, latch: u8, get_cycle: bool)
    requires
        t.wf(),
    ensures
        cycles_left(Transfer { latch, ..t }, get_cycle) == cycles_left(t, get_cycle),
    decreases t.work(), t.wait(get_cycle),
{
    if !t.finished() {
        let other = Transfer { latch, ..t };
        let next = t.stepped(get_cycle, 0);
        a_transfer_always_progresses(t, false, get_cycle, 0);
        lemma_bytes_cost_nothing(next, other.stepped(get_cycle, 0).latch, !get_cycle);
        assert(other.stepped(get_cycle, 0) == (Transfer {
            latch: other.stepped(get_cycle, 0).latch,
            ..next
        }));
    }
}

/// Without a fetch, a transfer takes the cycles it has left in its reads,
/// writes and alignment.
pub proof fn an_undisturbed_transfer_takes_its_cycles(t: Transfer, get_cycle: bool)
    requires
        in_step(t, get_cycle),
    ensures
        cycles_left(t, get_cycle) == quiet_cycles_left(t, get_cycle),
    decreases t.work(), t.wait(get_cycle),
{
    if !t.finished() {
        a_transfer_always_progresses(t, false, get_cycle, 0);
        an_undisturbed_transfer_takes_its_cycles(t.stepped(get_cycle, 0), !get_cycle);
    }
}

/// Cycles that a fetch adds to a transfer which it meets in this state.
pub open spec fn collision_cost(t: Transfer) -> int {
    if t.oam == OamDmaPhase::Put && t.offset == 255 {
        3
    } else if (t.oam == OamDmaPhase::Put && t.offset == 254) || (t.oam == OamDmaPhase::Get
        && t.offset == 255) {
        1
    } else {
        2
    }
}

/// A fetch in the middle of a transfer costs two cycles, one that meets the
/// penultimate write or the read behind it one, and one that meets the final
/// write three.
pub proof fn a_collision_costs_one_two_or_three_cycles(t: Transfer, get_cycle: bool)
    requires
        in_step(t, get_cycle),
        !t.finished(),
    ensures
        cycles_left(t.with_request(true), get_cycle) == quiet_cycles_left(t, get_cycle)
            + collision_cost(t),
{
    let first = t.with_request(true);
    let second = first.stepped(get_cycle, 0);
    let third = second.stepped(!get_cycle, 0);
    let fourth = third.stepped(get_cycle, 0);
    let fifth = fourth.stepped(!get_cycle, 0);
    let sixth = fifth.stepped(get_cycle, 0);
    reveal_with_fuel(cycles_left, 7);
    a_transfer_always_progresses(t, true, get_cycle, 0);
    a_transfer_always_progresses(second, false, !get_cycle, 0);
    a_transfer_always_progresses(third, false, get_cycle, 0);
    if !fourth.finished() {
        a_transfer_always_progresses(fourth, false, !get_cycle, 0);
        if in_step(fourth, !get_cycle) {
            an_undisturbed_transfer_takes_its_cycles(fourth, !get_cycle);
        }
        if !fifth.finished() {
            a_transfer_always_progresses(fifth, false, get_cycle, 0);
            if in_step(fifth, get_cycle) {
                an_undisturbed_transfer_takes_its_cycles(fifth, get_cycle);
            }
            if in_step(sixth, !get_cycle) {
                an_undisturbed_transfer_takes_its_cycles(sixth, !get_cycle);
            }
        }
    }
}

/// The DMC asks for the last byte of a sample that does not loop.
pub open spec fn last_fetch<V>(b: BusModel<V>) -> bool {
    let dmc = b.apu.channels.dmc;
    dmc.request() is Some && dmc.reader.bytes_remaining == 1 && !dmc.loop_flag
}

/// The DMC unit is busy with its last fetch, or has nothing left to ask for.
pub open spec fn settled<V>(b: BusModel<V>, t: Transfer) -> bool {
    if t.dmc == DmcDmaPhase::Idle {
        dmc_silent(b)
    } else {
        last_fetch(b)
    }
}

proof fn lemma_sample_stays(a: ApuModel)
    ensures
        apu_cycle(a).channels.dmc.reader.bytes_remaining
            == a.channels.dmc.reader.bytes_remaining,
        apu_cycle(a).channels.dmc.loop_flag == a.channels.dmc.loop_flag,
{
    reveal(apu_cycle);
    assert(a.channels.frame_ticked().dmc == a.channels.dmc);
}

proof fn lemma_settled_cycle<M: Mapper>(c: Clocked<M::Model>, t: Transfer)
    requires
        settled(c.bus, t),
    ensures
        settled(transfer_clocked::<M>(c, t).bus, transfer_next::<M>(c, t)),
        transfer_clocked::<M>(c, t).bus.cycles == c.bus.cycles.wrapping_add(1),
{
    a_request_stands_in_a_transfer::<M>(c, t);
    reveal(transfer_clocked);
    reveal(transfer_next);
    reveal(dmc_served);
    reveal(cycle_clocked);
    reveal(devices_advanced);
    lemma_sample_stays(transfer_access::<M>(c.bus, t).apu);
}

/// A transfer that meets no fetch but the last of a sample takes exactly the
/// cycles it has left.
pub proof fn a_settled_transfer_takes_its_cycles<M: Mapper>(c: Clocked<M::Model>, t: Transfer)
    requires
        t.wf(),
        settled(c.bus, t),
    ensures
        transfer_run::<M>(c, t).bus.cycles as int == (c.bus.cycles + cycles_left(
            t,
            c.bus.dma.get_cycle,
        )) % (usize::MAX + 1),
    decreases t.work(), t.wait(c.bus.dma.get_cycle),
{
    let size = usize::MAX + 1;
    if t.finished() {
        vstd::arithmetic::div_mod::lemma_small_mod(c.bus.cycles as nat, size as nat);
    } else {
        let get_cycle = c.bus.dma.get_cycle;
        let cycled = transfer_clocked::<M>(c, t);
        let next = transfer_next::<M>(c, t);
        assert(t.with_request(c.bus.apu.channels.dmc.request() is Some) == t);
        a_transfer_runs_cycle_by_cycle::<M>(c, t, t);
        a_cycle_flips_the_dma_phase::<M>(c, t);
        lemma_settled_cycle::<M>(c, t);
        a_settled_transfer_takes_its_cycles::<M>(cycled, next);
        let left = cycles_left(next, !get_cycle) as int;
        assert(cycles_left(t, get_cycle) == left + 1) by {
            reveal(transfer_next);
            let plain = t.stepped(get_cycle, 0);
            a_transfer_always_progresses(t, false, get_cycle, 0);
            assert(next == (Transfer { latch: next.latch, ..plain }));
            lemma_bytes_cost_nothing(plain, next.latch, !get_cycle);
        }
        if c.bus.cycles == usize::MAX {
            vstd::arithmetic::div_mod::lemma_mod_add_multiples_vanish(left, size);
        }
    }
}

/// On the machine: where the last fetch of a sample meets a transfer, the
/// transfer takes the cycles it had left and the cost of the collision.
pub proof fn a_fetch_lengthens_the_transfer_it_meets<M: Mapper>(c: Clocked<M::Model>, t: Transfer)
    requires
        in_step(t, c.bus.dma.get_cycle),
        !t.finished(),
        last_fetch(c.bus),
    ensures
        transfer_run::<M>(c, t).bus.cycles as int == (c.bus.cycles + quiet_cycles_left(
            t,
            c.bus.dma.get_cycle,
        ) + collision_cost(t)) % (usize::MAX + 1),
{
    let met = t.with_request(true);
    a_transfer_runs_cycle_by_cycle::<M>(c, t, met);
    a_transfer_runs_cycle_by_cycle::<M>(c, met, met);
    a_settled_transfer_takes_its_cycles::<M>(c, met);
    a_collision_costs_one_two_or_three_cycles(t, c.bus.dma.get_cycle);
}

} // verus!
