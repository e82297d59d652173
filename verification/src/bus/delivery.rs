//! Host delivery: what the machine does to its audio outbox, and when.

use crate::apu::every_traced_write_is_noted;
use crate::bus::model::{
    a_cycle_flips_the_dma_phase, a_transfer_always_progresses, after_mem_read, after_mem_write,
    audio_delivered, cycle_clocked, cycles_clocked, devices_advanced, dmc_dma_run, dmc_halted,
    dmc_served, dmc_waited, frame_announced, oam_dma_run, read_repeated, scheduled_dma_run, tick_begun, tick_ended,
    tick_run, ticked, transfer_access, transfer_clocked, transfer_next, transfer_run, value_at, wait_counted,
    with_dma, with_oe, BusModel, Clocked, DmaUnit, Transfer,
};
use crate::joypad::{reads_walk_the_buttons_then_ones, stepped_times};
use crate::mapper::Mapper;
use crate::ppu::model::dma_noted;
use vstd::prelude::*;

verus! {

/// Whether audio is handed over at all: completed chunks, or the remainder at
/// the end of a frame.
pub open spec fn delivers<V>(b: BusModel<V>) -> bool {
    b.audio.enabled && (b.audio.chunk_samples is Some || b.hook.drains)
}

/// What no operation of the machine does: change the host's settings, deliver
/// audio while delivery is off, note a write while tracing is off, or leave the
/// controller's /OE asserted.
pub open spec fn delivery_kept<V>(a: BusModel<V>, b: BusModel<V>) -> bool {
    &&& b.audio.enabled == a.audio.enabled
    &&& b.audio.chunk_samples == a.audio.chunk_samples
    &&& b.hook == a.hook
    &&& !delivers(a) ==> b.audio == a.audio
    &&& b.apu.trace_writes == a.apu.trace_writes
    &&& !a.apu.trace_writes ==> b.apu.register_writes == a.apu.register_writes
    &&& !a.dma.holds_oe ==> !b.dma.holds_oe
}

/// The host's settings, the outbox, the noted writes and /OE untouched.
spec fn untouched<V>(a: BusModel<V>, b: BusModel<V>) -> bool {
    &&& b.audio == a.audio
    &&& b.hook == a.hook
    &&& b.apu.trace_writes == a.apu.trace_writes
    &&& b.apu.register_writes == a.apu.register_writes
    &&& b.dma.holds_oe == a.dma.holds_oe
}

proof fn lemma_cycle_touches_nothing<M: Mapper>(c: Clocked<M::Model>)
    ensures
        untouched(c.bus, cycle_clocked::<M>(c).bus),
{
    reveal(cycle_clocked);
    reveal(devices_advanced);
    every_traced_write_is_noted(c.bus.apu, 0, 0);
}

proof fn lemma_cycles_touch_nothing<M: Mapper>(c: Clocked<M::Model>, n: nat)
    ensures
        untouched(c.bus, cycles_clocked::<M>(c, n).bus),
    decreases n,
{
    if n > 0 {
        lemma_cycles_touch_nothing::<M>(c, (n - 1) as nat);
        lemma_cycle_touches_nothing::<M>(cycles_clocked::<M>(c, (n - 1) as nat));
    }
}

proof fn lemma_dmc_dma_touches_nothing<M: Mapper>(c: Clocked<M::Model>)
    ensures
        untouched(c.bus, dmc_dma_run::<M>(c).bus),
{
    reveal(dmc_dma_run);
    reveal(dmc_served);
    let begun = with_dma(c, DmaUnit { dmc_ticks: 0, dmc_kind: None, ..c.bus.dma });
    lemma_cycles_touch_nothing::<M>(begun, 3);
    let waited = cycles_clocked::<M>(begun, 3);
    lemma_cycle_touches_nothing::<M>(Clocked { bus: dmc_served::<M>(waited.bus), ..waited });
}

proof fn lemma_transfer_touches_nothing<M: Mapper>(c: Clocked<M::Model>, t: Transfer)
    requires
        t.wf(),
    ensures
        untouched(c.bus, transfer_run::<M>(c, t).bus),
    decreases t.work(), t.wait(c.bus.dma.get_cycle),
{
    if !t.finished() {
        let requested = c.bus.apu.channels.dmc.request() is Some;
        let begun = t.with_request(requested);
        let cycled = transfer_clocked::<M>(c, begun);
        let next = transfer_next::<M>(c, begun);
        assert(untouched(c.bus, cycled.bus)) by {
            reveal(transfer_clocked);
            reveal(dmc_served);
            lemma_cycle_touches_nothing::<M>(
                Clocked { bus: transfer_access::<M>(c.bus, begun), ..c },
            );
        }
        a_cycle_flips_the_dma_phase::<M>(c, begun);
        let value = value_at::<M>(c.bus, begun.source());
        a_transfer_always_progresses(t, requested, c.bus.dma.get_cycle, value);
        assert(next == begun.stepped(c.bus.dma.get_cycle, value)) by {
            reveal(transfer_next);
        }
        lemma_transfer_touches_nothing::<M>(cycled, next);
    }
}

proof fn lemma_scheduled_dma_touches_nothing<M: Mapper>(c: Clocked<M::Model>)
    ensures
        untouched(c.bus, scheduled_dma_run::<M>(c).bus),
{
    reveal(scheduled_dma_run);
    reveal(oam_dma_run);
    if let Some(page) = c.bus.dma.oam_page {
        let taken = with_dma(c, DmaUnit { oam_page: None, ..c.bus.dma });
        lemma_transfer_touches_nothing::<M>(
            Clocked { bus: BusModel { ppu: dma_noted(taken.bus.ppu), ..taken.bus }, ..taken },
            Transfer::begun(page),
        );
    }
}

proof fn lemma_repeats_keep<M: Mapper>(b: BusModel<M::Model>, addr: u16)
    ensures
        delivery_kept(b, read_repeated::<M>(b, addr)),
{
    reveal(read_repeated);
    let first = with_oe(after_mem_read::<M>(with_oe(b, false), addr), false);
    let second = with_oe(after_mem_read::<M>(with_oe(first, true), addr), false);
    let third = with_oe(after_mem_read::<M>(with_oe(second, true), addr), false);
    assert(delivery_kept(b, first));
    assert(delivery_kept(first, second));
    assert(delivery_kept(second, third));
}

proof fn lemma_tick_run_touches_nothing<M: Mapper>(b: BusModel<M::Model>, n: nat)
    ensures
        untouched(b, tick_run::<M>(b, n).bus),
{
    reveal(tick_run);
    let begun = tick_begun(b);
    let clocked = cycles_clocked::<M>(begun, n);
    lemma_cycles_touch_nothing::<M>(begun, n);
    let moved = scheduled_dma_run::<M>(clocked);
    lemma_scheduled_dma_touches_nothing::<M>(clocked);
    assert(untouched(moved.bus, dmc_waited::<M>(moved).bus)) by {
        reveal(dmc_waited);
        if let Some(kind) = moved.bus.apu.channels.dmc.request_kind() {
            lemma_dmc_dma_touches_nothing::<M>(
                with_dma(moved, wait_counted(moved.bus.dma, kind)),
            );
        }
    }
}

proof fn lemma_tick_end_keeps<V>(c: Clocked<V>)
    ensures
        delivery_kept(c.bus, tick_ended(c)),
        delivery_kept(c.bus, frame_announced(c.bus, c.ready)),
{
    reveal(tick_ended);
    reveal(audio_delivered);
}

/// Buttons held at the start of vblank are what the next poll of the controller
/// reads, one by one and ones behind the last.
pub proof fn hooked_buttons_reach_the_next_poll<V>(
    b: BusModel<V>,
    buttons: u8,
    high: u8,
    low: u8,
    n: nat,
)
    requires
        b.hook.buttons == Some(buttons),
        high & 1 == 1,
        low & 1 != 1,
    ensures
        ({
            let pad = frame_announced(b, true).joypad1.port;
            stepped_times(pad.written(high).written(low), n).bit() == if n < 8 {
                (buttons >> (n as u8)) & 1
            } else {
                1
            }
        }),
{
    reads_walk_the_buttons_then_ones(frame_announced(b, true).joypad1.port, high, low, n);
}

/// The remainder that a frame hands over follows the chunks before it, and
/// nothing stays behind.
pub proof fn a_drained_frame_keeps_nothing_back<V>(b: BusModel<V>)
    requires
        b.hook.drains,
        b.audio.enabled,
        b.audio.chunks.len() < usize::MAX,
    ensures
        ({
            let after = frame_announced(b, true);
            &&& after.audio.chunks == b.audio.chunks.push(b.apu.sampler.samples)
            &&& after.apu.sampler.samples.len() == 0
            &&& after.mark.chunks == after.audio.chunks.len()
        }),
{
}

/// Audio leaves the machine only at the end of a tick or of a frame, and only
/// while delivery is on; writes are noted only while tracing is on; no access
/// and no tick changes the host's settings.
pub proof fn only_enabled_delivery_moves_audio<M: Mapper>(
    b: BusModel<M::Model>,
    addr: u16,
    data: u8,
    n: nat,
)
    ensures
        delivery_kept(b, after_mem_read::<M>(b, addr)),
        delivery_kept(b, after_mem_write::<M>(b, addr, data)),
        delivery_kept(b, read_repeated::<M>(b, addr)),
        delivery_kept(b, dmc_halted::<M>(b)),
        delivery_kept(b, ticked::<M>(b, n)),
{
    every_traced_write_is_noted(b.apu, addr, data);
    lemma_repeats_keep::<M>(b, addr);
    assert(delivery_kept(b, dmc_halted::<M>(b))) by {
        reveal(dmc_halted);
        lemma_dmc_dma_touches_nothing::<M>(tick_begun(b));
        lemma_tick_end_keeps(dmc_dma_run::<M>(tick_begun(b)));
    }
    assert(delivery_kept(b, ticked::<M>(b, n))) by {
        reveal(ticked);
        lemma_tick_run_touches_nothing::<M>(b, n);
        lemma_tick_end_keeps(tick_run::<M>(b, n));
    }
}

} // verus!
