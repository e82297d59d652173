//! The address space as the CPU sees it: which device answers where, and what
//! each picture port does.

use crate::apu::apu_written;
use crate::apu::sampler::ChannelLevels;
use crate::bits::{lemma_masks, lemma_operators, lemma_tests};
use crate::bus::model::{
    after_mem_read, after_mem_write, chunks_delivered, devices_advanced, dmc_dma_run, dmc_waited,
    events_collected, frame_announced, irq_line, oam_dma_run, port_read, port_written,
    scheduled_dma_run, value_at, wait_counted, with_dma, BusModel, Clocked, DmaUnit, Transfer,
};
use crate::mapper::Mapper;
use crate::ppu::memory::{mirrored, palette_slot};
use crate::ppu::model as ppu_model;
use crate::ppu::model::{rendering_in_progress, PpuModel};
use crate::ppu::picture::greyscale_reads_lose_the_hue;
use crate::ppu::raster::{NmiLine, Raster};
use crate::region::Region;
use vstd::prelude::*;

verus! {

// ---- Reading --------------------------------------------------------------------

/// Who answers a read: work RAM below $2000, the picture ports below $4000, the
/// sound status at $4015, the controller at $4016 and the cartridge from $6000
/// on. Nobody answers elsewhere.
pub proof fn every_address_has_its_device<M: Mapper>(b: BusModel<M::Model>, addr: u16)
    ensures
        ({
            let value = value_at::<M>(b, addr);
            &&& addr < 0x2000 ==> value == b.cpu_vram[addr as int % 0x800]
            &&& addr == 0x4015 ==> value == b.apu.channels.status()
            &&& addr == 0x4016 ==> value == b.joypad1.bit()
            &&& 0x4000 <= addr < 0x6000 && addr != 0x4015 && addr != 0x4016 ==> value == 0
            &&& addr >= 0x6000 ==> value == M::cpu_value(b.ppu.mapper, addr)
        }),
{
}

/// Of the picture ports three can be read: the status, sprite memory and the
/// data port. The others show what is left on the I/O bus.
#[verifier::rlimit(50)]
pub proof fn three_picture_ports_answer<M: Mapper>(b: BusModel<M::Model>, addr: u16)
    requires
        0x2000 <= addr < 0x4000,
    ensures
        ({
            let value = value_at::<M>(b, addr);
            let after = after_mem_read::<M>(b, addr).ppu;
            &&& addr % 8 == 2 ==> value as int / 32 == b.ppu.regs.status.bits as int / 32
            &&& addr % 8 == 2 ==> value as int % 32 == b.ppu.io.decayed(
                b.ppu.raster.total_dots,
            ).value as int % 32
            &&& addr % 8 == 2 ==> !after.regs.loopy.write_latch
            &&& addr % 8 == 4 && !rendering_in_progress(b.ppu) && b.ppu.regs.oam_addr as int % 4 != 2
                ==> value == b.ppu.mem.oam_data[b.ppu.regs.oam_addr as int]
            &&& addr % 8 == 4 && !rendering_in_progress(b.ppu) && b.ppu.regs.oam_addr as int % 4 == 2
                ==> value as int == attribute_shown(
                b.ppu.mem.oam_data[b.ppu.regs.oam_addr as int],
            )
            &&& addr % 8 == 4 ==> after.mem == b.ppu.mem && after.regs == b.ppu.regs
            &&& addr % 8 == 7 && b.ppu.regs.loopy.v as int % 0x4000 < 0x3f00 ==> value
                == b.ppu.regs.internal_data_buf
            &&& addr % 8 == 0 || addr % 8 == 1 || addr % 8 == 3 || addr % 8 == 5 || addr % 8 == 6
                ==> value == b.ppu.io.decayed(b.ppu.raster.total_dots).value && after == (PpuModel {
                io: after.io,
                ..b.ppu
            })
        }),
{
    reveal(port_read);
    lemma_operators(b.ppu.io.decayed(b.ppu.raster.total_dots).value, b.ppu.regs.status.bits, 0);
    lemma_attribute(b.ppu.mem.oam_data[b.ppu.regs.oam_addr as int]);
}

/// An attribute byte as it is read: its bits 2 to 4 do not exist.
pub open spec fn attribute_shown(byte: u8) -> int {
    byte as int / 32 * 32 + byte as int % 4
}

proof fn lemma_attribute(byte: u8)
    ensures
        (byte & 0xe3) as int == attribute_shown(byte),
{
    lemma_masks(byte);
}

/// A data read of palette memory shows its entry at once in the low six bits;
/// greyscale leaves the upper two of them. The nametable byte beneath fills the
/// buffer.
#[verifier::rlimit(50)]
pub proof fn palette_reads_come_at_once<M: Mapper>(p: PpuModel<M::Model>)
    requires
        !rendering_in_progress(p),
        p.regs.loopy.v as int % 0x4000 >= 0x3f00,
    ensures
        ({
            let entry = p.mem.palette_table[palette_slot((p.regs.loopy.v % 0x4000) as u16)];
            let (after, value) = ppu_model::data_read::<M>(p);
            &&& value as int % 64 == ppu_model::palette_read_bits(p.regs.mask, entry)
            &&& after.mem == p.mem
            &&& after.regs.internal_data_buf == p.mem.vram[mirrored(
                M::mirroring_of(p.mapper),
                (p.regs.loopy.v % 0x4000 - 0x1000) as u16,
            ) as int]
        }),
{
    let addr = (p.regs.loopy.v % 0x4000) as u16;
    let q = ppu_model::vram_addr_incremented(p);
    let entry = p.mem.palette_table[palette_slot(addr)];
    let bits = ppu_model::palette_read_bits(p.regs.mask, entry);
    assert(ppu_model::read_value::<M>(q, addr) == entry);
    let read = ppu_model::after_read::<M>(q, addr);
    greyscale_reads_lose_the_hue(p.regs.mask, entry);
    lemma_operators(read.io.decayed(read.raster.total_dots).value, bits, 0);
    let beneath = (addr - 0x1000) as u16;
    let dots = q.raster.total_dots;
    M::ppu_accesses_keep_mirroring(q.mapper, addr, dots);
    M::ppu_accesses_keep_mirroring(read.mapper, beneath, dots);
}

/// A read reaches no other device: of RAM and of the cartridge nothing moves.
pub proof fn a_read_moves_only_its_device<M: Mapper>(b: BusModel<M::Model>, addr: u16)
    ensures
        ({
            let after = after_mem_read::<M>(b, addr);
            &&& after.cpu_vram == b.cpu_vram && after.dma == b.dma && after.cycles == b.cycles
            &&& !(0x2000 <= addr < 0x4000) ==> after.ppu == b.ppu
            &&& addr != 0x4015 ==> after.apu == b.apu
            &&& addr != 0x4016 ==> after.joypad1 == b.joypad1
        }),
{
}

// ---- Writing --------------------------------------------------------------------

/// What a write to a picture port sets, wherever in its page it is written.
#[verifier::rlimit(50)]
pub proof fn picture_ports_take_their_bytes<M: Mapper>(b: BusModel<M::Model>, addr: u16, data: u8)
    requires
        0x2000 <= addr < 0x4000,
    ensures
        ({
            let after = after_mem_write::<M>(b, addr, data).ppu;
            let before = b.ppu;
            &&& addr % 8 == 0 ==> after.regs.ctrl.bits == data && after.regs.mask
                == before.regs.mask && after.regs.oam_addr == before.regs.oam_addr
            &&& addr % 8 == 1 ==> after.regs.mask.bits == data && after.regs.ctrl
                == before.regs.ctrl && after.regs.loopy == before.regs.loopy
            &&& addr % 8 == 2 ==> after.regs == before.regs && after.mem == before.mem
            &&& addr % 8 == 3 ==> after.regs.oam_addr == data && after.mem == before.mem
            &&& addr % 8 == 4 && !rendering_in_progress(before) ==> after.mem.oam_data
                == before.mem.oam_data.update(before.regs.oam_addr as int, data)
                && after.regs.oam_addr as int == (before.regs.oam_addr + 1) % 256
            &&& addr % 8 == 4 && rendering_in_progress(before) ==> after.mem == before.mem
                && after.regs.oam_addr as int == (before.regs.oam_addr + 4) % 256
            &&& addr % 8 == 5 || addr % 8 == 6 ==> after.regs.loopy.write_latch
                == !before.regs.loopy.write_latch && after.mem == before.mem
            &&& addr % 8 < 7 ==> after.mem.vram == before.mem.vram && after.mem.palette_table
                == before.mem.palette_table
        }),
{
    reveal(port_written);
}

/// The rest of the address space takes its writes too: work RAM, the page of a
/// sprite transfer at $4014, the controller's strobe at $4016, the sound
/// registers and the cartridge.
pub proof fn every_write_reaches_its_device<M: Mapper>(b: BusModel<M::Model>, addr: u16, data: u8)
    requires
        !(0x2000 <= addr < 0x4000),
    ensures
        ({
            let after = after_mem_write::<M>(b, addr, data);
            &&& addr < 0x2000 ==> after == (BusModel {
                cpu_vram: b.cpu_vram.update(addr as int % 0x800, data),
                ..b
            })
            &&& addr == 0x4014 ==> after.dma.oam_page == Some(data) && after.apu == b.apu
            &&& addr == 0x4016 ==> after == (BusModel { joypad1: b.joypad1.written(data), ..b })
            &&& 0x4000 <= addr <= 0x4017 && addr != 0x4014 && addr != 0x4016 ==> after == (
            BusModel { apu: apu_written(b.apu, addr, data), ..b })
            &&& 0x4018 <= addr < 0x6000 ==> after == b
            &&& addr >= 0x6000 ==> after == (BusModel {
                ppu: PpuModel { mapper: M::after_cpu_write(b.ppu.mapper, addr, data), ..b.ppu },
                ..b
            })
        }),
{
}

/// Three dots pass in a CPU cycle, one cycle of sound, and the two halves of
/// the transfer clock take turns.
pub proof fn a_cycle_is_three_dots<M: Mapper>(b: BusModel<M::Model>)
    ensures
        ({
            let after = devices_advanced::<M>(b);
            let one = ppu_model::dot_clocked::<M>(b.ppu);
            let two = ppu_model::dot_clocked::<M>(one);
            &&& after.ppu == ppu_model::dot_clocked::<M>(two)
            &&& after.dma.get_cycle == !b.dma.get_cycle
            &&& after.cpu_vram == b.cpu_vram && after.joypad1 == b.joypad1
        }),
{
    reveal(devices_advanced);
    reveal_with_fuel(ppu_model::dots_clocked, 4);
}

/// The interrupt line carries the sound chip's two flags and the cartridge's.
pub proof fn three_sources_pull_the_line<M: Mapper>(b: BusModel<M::Model>)
    ensures
        irq_line::<M>(b) <==> b.apu.channels.frame_counter.frame_irq || b.apu.channels.dmc.irq_flag
            || M::irq_of(b.ppu.mapper),
{
}

/// A sprite transfer reads its page byte by byte.
pub proof fn a_transfer_reads_its_page(t: Transfer)
    requires
        t.offset < 256,
    ensures
        t.source() as int / 256 == t.page as int,
        t.source() as int % 256 == t.offset as int,
        Transfer::begun(t.page).source() as int == t.page * 256,
{
}

// ---- Edges and delays -------------------------------------------------------------

/// An edge shows when its delay is over and not before, until it is polled; it
/// can be withdrawn only before it shows.
pub proof fn an_edge_shows_after_its_delay(n: NmiLine, now: u64, delay: u64, then: u64)
    requires
        now + delay <= u64::MAX,
    ensures
        ({
            let raised = n.raised(now, delay);
            &&& raised.visible(then) is Some <==> then >= now + delay
            &&& then < now + delay ==> raised.polled(then) == raised
            &&& then < now + delay ==> raised.withdrawn(then).visible((now + delay) as u64) is None
            &&& then >= now + delay ==> raised.polled(then).visible(then) is None
            &&& then >= now + delay ==> raised.withdrawn(then) == raised
            &&& raised.frame_ready == n.frame_ready && raised.suppress_vblank == n.suppress_vblank
        }),
{
}

/// Enabling the interrupt while blanking is flagged raises an edge six dots on;
/// disabling it withdraws one that has not shown. On the very dot that clears
/// the flag nothing is raised.
pub proof fn enabling_late_raises_an_edge<V>(p: PpuModel<V>, value: u8)
    requires
        p.raster.total_dots < 0x1_0000_0000_0000,
    ensures
        ({
            let after = ppu_model::ctrl_written(p, value).nmi;
            let now = p.raster.total_dots;
            let flagged = p.regs.status.bits >= 128 && !(p.raster.scanline == 261 && p.raster.dot
                == 0);
            &&& value >= 128 && p.regs.ctrl.bits < 128 && flagged ==> after == p.nmi.raised(now, 6)
            &&& value >= 128 && (p.regs.ctrl.bits >= 128 || !flagged) ==> after == p.nmi
            &&& value < 128 ==> after == p.nmi.withdrawn(now)
        }),
{
    lemma_tests(value);
    lemma_tests(p.regs.ctrl.bits);
    lemma_tests(p.regs.status.bits);
}

/// Blanking raises its edge three dots into it, if bit 7 of the control
/// register asks for it and no status read suppressed it.
pub proof fn blanking_raises_an_edge_three_dots_on<V>(p: PpuModel<V>)
    requires
        p.raster.scanline == 241,
        p.raster.dot == 0,
        !p.nmi.suppress_vblank,
    ensures
        ({
            let after = ppu_model::blanking_clocked(p).nmi;
            &&& after.frame_ready
            &&& p.regs.ctrl.bits >= 128 ==> after.pending is Some && after.due_at
                == p.raster.total_dots.wrapping_add(3)
            &&& p.regs.ctrl.bits < 128 ==> after.pending == p.nmi.pending && after.due_at
                == p.nmi.due_at
        }),
{
    lemma_tests(p.regs.ctrl.bits);
}

/// The raster walks 341 dots a line and 262 lines a frame; lines 0 to 239 and
/// 261 render.
pub proof fn the_raster_walks_lines_and_frames(r: Raster)
    requires
        r.wf(),
        !r.odd_skip_armed,
    ensures
        ({
            let after = r.advanced();
            let place = r.scanline * 341 + r.dot;
            &&& after.scanline * 341 + after.dot == if place + 1 == 262 * 341 {
                0
            } else {
                place + 1
            }
            &&& after.wf()
            &&& r.completes_frame() <==> place + 1 == 262 * 341
            &&& after.odd_frame == (r.odd_frame != r.completes_frame())
        }),
        r.on_render_line() <==> !(240 <= r.scanline <= 260),
{
}

/// The short frame is decided at dot 337 of the pre-render line, on odd frames
/// with rendering asked for, and forgotten at its first dot.
pub proof fn the_short_frame_is_decided_late(r: Raster, rendering: bool)
    ensures
        r.skip_armed(rendering) == (Raster {
            odd_skip_armed: if r.scanline != 261 {
                r.odd_skip_armed
            } else if r.dot == 0 {
                false
            } else if r.dot == 337 {
                r.odd_frame && rendering
            } else {
                r.odd_skip_armed
            },
            ..r
        }),
{
}

// ---- Console families -----------------------------------------------------------

/// The CPU clocks are the crystals divided by twelve, sixteen and fifteen, to
/// the nearest hertz. The NTSC crystal runs at 236.25 MHz over eleven, the
/// other two at 26.601718 MHz.
pub proof fn cpu_clocks_divide_the_crystals()
    ensures
        -66 <= Region::Ntsc.cpu_hz() * 132 - 236_250_000 <= 66,
        -8 <= Region::Pal.cpu_hz() * 16 - 26_601_718 <= 8,
        -7 <= Region::Dendy.cpu_hz() * 15 - 26_601_718 <= 7,
{
}

/// PAL frames have fifty lines more than NTSC ones, and Dendy adds them before
/// its blanking. PAL runs sixteen dots in five cycles, the others three in one.
/// Only NTSC shortens frames.
pub proof fn families_differ_by_fifty_lines(region: Region)
    ensures
        region.scanlines() == 262 + if region is Ntsc {
            0int
        } else {
            50
        },
        region.vblank_start_scanline() == 241 + if region is Dendy {
            50int
        } else {
            0
        },
        region.ppu_ratio().0 * 5 == region.ppu_ratio().1 * if region is Pal {
            16int
        } else {
            15
        },
        region.has_odd_frame_skip() <==> region is Ntsc,
{
}

// ---- Delivery ----------------------------------------------------------------------

/// Whole chunks leave the buffer in order, and what is left is less than one:
/// chunk `i` holds the samples from `i` times its size on.
#[verifier::rlimit(50)]
pub proof fn samples_leave_in_whole_chunks(
    samples: Seq<ChannelLevels>,
    chunks: Seq<Seq<ChannelLevels>>,
    size: int,
    i: int,
)
    requires
        size > 0,
        0 <= i,
    ensures
        ({
            let (left, out) = chunks_delivered(samples, chunks, size);
            let count = samples.len() as int / size;
            &&& out.len() == chunks.len() + count
            &&& left.len() < size
            &&& left == samples.skip(samples.len() - left.len())
            &&& left.len() == samples.len() as int % size
            &&& i < chunks.len() ==> out[i] == chunks[i]
            &&& i < count ==> out[chunks.len() + i] == samples.subrange(i * size, i * size + size)
        }),
    decreases samples.len(),
{
    let n = samples.len() as int;
    if n < size {
        vstd::arithmetic::div_mod::lemma_small_mod(n as nat, size as nat);
        vstd::arithmetic::div_mod::lemma_basic_div(n, size);
        assert(samples.skip(0) =~= samples);
    } else {
        let rest = samples.skip(size);
        let more = chunks.push(samples.take(size));
        vstd::arithmetic::div_mod::lemma_div_plus_one(n - size, size);
        vstd::arithmetic::div_mod::lemma_mod_add_multiples_vanish(n - size, size);
        let (left, out) = chunks_delivered(rest, more, size);
        if i == 0 {
            samples_leave_in_whole_chunks(rest, more, size, chunks.len() as int);
            assert(out[chunks.len() as int] == more[chunks.len() as int]);
            assert(samples.subrange(0, size) =~= samples.take(size));
            assert(0 * size == 0);
        } else {
            samples_leave_in_whole_chunks(rest, more, size, i - 1);
            assert((i - 1) * size + size == i * size) by (nonlinear_arith);
            if i < n / size {
                lemma_chunk_inside(i, size, n);
                assert(rest.subrange((i - 1) * size, i * size) =~= samples.subrange(
                    i * size,
                    i * size + size,
                ));
            }
        }
        if i < chunks.len() {
            samples_leave_in_whole_chunks(rest, more, size, i);
            assert(more[i] == chunks[i]);
        }
        assert(rest.skip(rest.len() - left.len()) =~= samples.skip(samples.len() - left.len()));
    }
}

proof fn lemma_chunk_inside(i: int, size: int, n: int)
    by (nonlinear_arith)
    requires
        0 < size,
        1 <= i < n / size,
    ensures
        size <= i * size,
        i * size + size <= n,
{
}

/// A request that finds no read to steal is served at its third tick, and until
/// then only counted.
pub proof fn a_waiting_request_is_served_at_the_third_tick<M: Mapper>(c: Clocked<M::Model>)
    requires
        c.bus.apu.channels.dmc.request() is Some,
        c.bus.dma.dmc_ticks < 255,
    ensures
        ({
            let kind = c.bus.apu.channels.dmc.request_kind()->0;
            let counted = with_dma(c, wait_counted(c.bus.dma, kind));
            &&& counted.bus.dma.dmc_ticks == c.bus.dma.dmc_ticks + 1
            &&& c.bus.dma.dmc_ticks < 2 ==> dmc_waited::<M>(c) == counted
            &&& c.bus.dma.dmc_ticks >= 2 ==> dmc_waited::<M>(c) == dmc_dma_run::<M>(counted)
        }),
{
    reveal(dmc_waited);
}

/// A scheduled sprite transfer runs at the end of its tick, once.
pub proof fn a_scheduled_transfer_runs_once<M: Mapper>(c: Clocked<M::Model>)
    ensures
        c.bus.dma.oam_page is None ==> scheduled_dma_run::<M>(c) == c,
        c.bus.dma.oam_page is Some ==> scheduled_dma_run::<M>(c) == oam_dma_run::<M>(
            with_dma(c, DmaUnit { oam_page: None, ..c.bus.dma }),
            c.bus.dma.oam_page->0,
        ),
{
    reveal(scheduled_dma_run);
}

/// Collecting a frame event takes it and an edge that shows, and nothing else of
/// the picture chip.
pub proof fn events_are_collected_once<V>(b: BusModel<V>)
    ensures
        ({
            let after = events_collected(b);
            &&& !after.ppu.nmi.frame_ready
            &&& after.ppu.nmi.visible(b.ppu.raster.total_dots) is None
            &&& after == (BusModel { ppu: PpuModel { nmi: after.ppu.nmi, ..b.ppu }, ..b })
            &&& b.ppu.raster.total_dots < b.ppu.nmi.due_at ==> after.ppu.nmi.pending
                == b.ppu.nmi.pending
        }),
{
}

/// A finished frame is announced, and what the sampler still holds handed over as
/// one more chunk where the host asked for audio and for the remainder. No sample
/// is lost or handed over twice.
pub proof fn a_finished_frame_hands_over_the_rest<V>(b: BusModel<V>)
    ensures
        ({
            let after = frame_announced(b, true);
            let handed = b.audio.enabled && b.hook.drains;
            &&& frame_announced(b, false) == b
            &&& after.host_frame_ready
            &&& handed ==> after.audio.chunks == b.audio.chunks.push(b.apu.sampler.samples)
            &&& handed ==> after.apu.sampler.samples.len() == 0
            &&& !handed ==> after.audio == b.audio && after.apu == b.apu
            &&& after.apu.channels == b.apu.channels && after.apu.cycles == b.apu.cycles
            &&& after.mark.cycles == b.apu.cycles
            &&& after.mark.diagnostics == b.ppu.probe
            &&& after.ppu == b.ppu
            &&& b.hook.buttons is Some ==> after.joypad1.port.button_status.bits
                == b.hook.buttons->0
            &&& b.hook.buttons is None ==> after.joypad1 == b.joypad1
        }),
{
}

} // verus!
