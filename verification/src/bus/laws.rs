//! Properties of the bus that span several operations.

use crate::apu::dmc::Dmc;
use crate::apu::{apu_cycle, ApuModel};
use crate::bus::model::{
    a_cycle_flips_the_dma_phase, a_transfer_always_progresses, a_transfer_runs_cycle_by_cycle,
    after_mem_read, after_mem_write, audio_delivered, cycle_clocked, cycles_clocked,
    devices_advanced, dmc_dma_run, dmc_halted, dmc_served, dmc_waited, oam_dma_run,
    read_repeated, scheduled_dma_run, tick_begun, tick_ended, tick_run, ticked, transfer_access,
    transfer_clocked, transfer_next, transfer_run, value_at, wait_counted, with_dma, BusModel,
    Clocked, DmaUnit, DmcDmaPhase, OamDmaPhase, Transfer,
};
use crate::mapper::Mapper;
use crate::ppu::laws::{a_blanked_dot_touches_no_memory, every_dot_counts};
use crate::ppu::model::{dma_noted, dot_clocked, dots_clocked, PpuModel};
use vstd::prelude::*;

verus! {

/// What is written to work RAM reads back under every mirror of its address,
/// and reading it changes nothing.
pub proof fn work_ram_reads_back<M: Mapper>(
    b: BusModel<M::Model>,
    addr: u16,
    again: u16,
    data: u8,
)
    requires
        b.cpu_vram.len() == 2048,
        addr < 0x2000,
        again < 0x2000,
        again % 0x800 == addr % 0x800,
    ensures
        value_at::<M>(after_mem_write::<M>(b, addr, data), again) == data,
        after_mem_read::<M>(b, again) == b,
{
}

/// A write to work RAM leaves every other address of it alone.
pub proof fn a_ram_write_touches_one_byte<M: Mapper>(
    b: BusModel<M::Model>,
    addr: u16,
    other: u16,
    data: u8,
)
    requires
        b.cpu_vram.len() == 2048,
        addr < 0x2000,
        other < 0x2000,
        other % 0x800 != addr % 0x800,
    ensures
        value_at::<M>(after_mem_write::<M>(b, addr, data), other) == value_at::<M>(b, other),
{
}

/// The picture registers repeat every eight bytes up to $3FFF.
pub proof fn picture_registers_repeat<M: Mapper>(
    b: BusModel<M::Model>,
    addr: u16,
    mirror: u16,
    data: u8,
)
    requires
        0x2000 <= addr < 0x4000,
        0x2000 <= mirror < 0x4000,
        addr % 8 == mirror % 8,
    ensures
        value_at::<M>(b, addr) == value_at::<M>(b, mirror),
        after_mem_read::<M>(b, addr) == after_mem_read::<M>(b, mirror),
        after_mem_write::<M>(b, addr, data) == after_mem_write::<M>(b, mirror, data),
{
}

/// A DMC fetch that holds a $4016 read steals exactly one bit: /OE stays
/// asserted across its repeats, so the controller shifts once.
pub proof fn a_held_controller_read_shifts_once<M: Mapper>(b: BusModel<M::Model>)
    ensures
        read_repeated::<M>(b, 0x4016).joypad1 == b.joypad1.stepped(),
{
    reveal(read_repeated);
}

/// Every CPU cycle clocks the PPU three dots and the APU one cycle, also while
/// DMA owns the bus.
pub proof fn every_cycle_clocks_every_device<M: Mapper>(c: Clocked<M::Model>, n: nat)
    ensures
        ({
            let after = cycles_clocked::<M>(c, n).bus;
            &&& after.cycles as int == (c.bus.cycles + n) % (usize::MAX + 1)
            &&& after.apu.cycles as int == (c.bus.apu.cycles + n) % (usize::MAX + 1)
            &&& after.ppu.raster.total_dots as int == (c.bus.ppu.raster.total_dots + 3 * n)
                % 0x1_0000_0000_0000_0000
        }),
    decreases n,
{
    if n > 0 {
        let before = cycles_clocked::<M>(c, (n - 1) as nat);
        every_cycle_clocks_every_device::<M>(c, (n - 1) as nat);
        lemma_cycle_counts::<M>(before);
        lemma_next_count(c.bus.cycles as int, (n - 1) as int);
        lemma_next_count(c.bus.apu.cycles as int, (n - 1) as int);
    } else {
        vstd::arithmetic::div_mod::lemma_small_mod(
            c.bus.cycles as nat,
            (usize::MAX + 1) as nat,
        );
        vstd::arithmetic::div_mod::lemma_small_mod(
            c.bus.apu.cycles as nat,
            (usize::MAX + 1) as nat,
        );
    }
}

proof fn lemma_cycle_counts<M: Mapper>(c: Clocked<M::Model>)
    ensures
        ({
            let after = cycle_clocked::<M>(c).bus;
            &&& after.cycles == c.bus.cycles.wrapping_add(1)
            &&& after.apu.cycles == c.bus.apu.cycles.wrapping_add(1)
            &&& after.ppu.raster.total_dots as int == (c.bus.ppu.raster.total_dots + 3)
                % 0x1_0000_0000_0000_0000
        }),
{
    reveal(cycle_clocked);
    reveal(devices_advanced);
    reveal(apu_cycle);
    every_dot_counts::<M>(c.bus.ppu, 3);
}

proof fn lemma_next_count(start: int, n: int)
    requires
        start >= 0,
        n >= 0,
    ensures
        ({
            let size = usize::MAX + 1;
            (start + n + 1) % size == if (start + n) % size == usize::MAX {
                0
            } else {
                (start + n) % size + 1
            }
        }),
{
    let size = usize::MAX + 1;
    vstd::arithmetic::div_mod::lemma_add_mod_noop(start + n, 1, size);
    vstd::arithmetic::div_mod::lemma_small_mod(1, size as nat);
    vstd::arithmetic::div_mod::lemma_mod_bound(start + n, size);
    let rest = (start + n) % size;
    if rest == usize::MAX {
        vstd::arithmetic::div_mod::lemma_mod_self_0(size);
    } else {
        vstd::arithmetic::div_mod::lemma_small_mod((rest + 1) as nat, size as nat);
    }
}

/// Time, DMA and reads never change work RAM: only writes do.
pub proof fn only_writes_change_work_ram<M: Mapper>(b: BusModel<M::Model>, addr: u16, n: nat)
    ensures
        after_mem_read::<M>(b, addr).cpu_vram == b.cpu_vram,
        read_repeated::<M>(b, addr).cpu_vram == b.cpu_vram,
        dmc_halted::<M>(b).cpu_vram == b.cpu_vram,
        ticked::<M>(b, n).cpu_vram == b.cpu_vram,
{
    reveal(read_repeated);
    reveal(dmc_halted);
    reveal(ticked);
    reveal(tick_run);
    reveal(tick_ended);
    reveal(audio_delivered);
    let begun = tick_begun(b);
    lemma_dmc_dma_keeps_ram::<M>(begun);
    let clocked = cycles_clocked::<M>(begun, n);
    lemma_cycles_keep_ram::<M>(begun, n);
    let moved = scheduled_dma_run::<M>(clocked);
    assert(moved.bus.cpu_vram == b.cpu_vram) by {
        reveal(scheduled_dma_run);
        reveal(oam_dma_run);
        if let Some(page) = clocked.bus.dma.oam_page {
            let taken = with_dma(clocked, DmaUnit { oam_page: None, ..clocked.bus.dma });
            lemma_transfer_keeps_ram::<M>(
                Clocked {
                    bus: BusModel { ppu: dma_noted(taken.bus.ppu), ..taken.bus },
                    ..taken
                },
                Transfer::begun(page),
            );
        }
    }
    assert(dmc_waited::<M>(moved).bus.cpu_vram == b.cpu_vram) by {
        reveal(dmc_waited);
        if let Some(kind) = moved.bus.apu.channels.dmc.request_kind() {
            lemma_dmc_dma_keeps_ram::<M>(with_dma(moved, wait_counted(moved.bus.dma, kind)));
        }
    }
}

proof fn lemma_cycles_keep_ram<M: Mapper>(c: Clocked<M::Model>, n: nat)
    ensures
        cycles_clocked::<M>(c, n).bus.cpu_vram == c.bus.cpu_vram,
    decreases n,
{
    if n > 0 {
        lemma_cycles_keep_ram::<M>(c, (n - 1) as nat);
        reveal(cycle_clocked);
        reveal(devices_advanced);
    }
}

proof fn lemma_dmc_dma_keeps_ram<M: Mapper>(c: Clocked<M::Model>)
    ensures
        dmc_dma_run::<M>(c).bus.cpu_vram == c.bus.cpu_vram,
{
    reveal(dmc_dma_run);
    reveal(dmc_served);
    reveal(cycle_clocked);
    reveal(devices_advanced);
    lemma_cycles_keep_ram::<M>(
        with_dma(c, DmaUnit { dmc_ticks: 0, dmc_kind: None, ..c.bus.dma }),
        3,
    );
}

proof fn lemma_transfer_keeps_ram<M: Mapper>(c: Clocked<M::Model>, t: Transfer)
    requires
        t.wf(),
    ensures
        transfer_run::<M>(c, t).bus.cpu_vram == c.bus.cpu_vram,
    decreases t.work(), t.wait(c.bus.dma.get_cycle),
{
    if !t.finished() {
        let requested = c.bus.apu.channels.dmc.request() is Some;
        let begun = t.with_request(requested);
        let cycled = transfer_clocked::<M>(c, begun);
        let next = transfer_next::<M>(c, begun);
        assert(cycled.bus.cpu_vram == c.bus.cpu_vram) by {
            reveal(transfer_clocked);
            reveal(dmc_served);
            reveal(cycle_clocked);
            reveal(devices_advanced);
        }
        a_cycle_flips_the_dma_phase::<M>(c, begun);
        a_transfer_always_progresses(
            t,
            requested,
            c.bus.dma.get_cycle,
            value_at::<M>(c.bus, begun.source()),
        );
        assert(next == begun.stepped(
            c.bus.dma.get_cycle,
            value_at::<M>(c.bus, begun.source()),
        )) by {
            reveal(transfer_next);
        }
        lemma_transfer_keeps_ram::<M>(cycled, next);
    }
}

// ---- OAM DMA ------------------------------------------------------------------

/// Rendering is off and stays off.
pub open spec fn dark<V>(p: PpuModel<V>) -> bool {
    !p.gate.enabled && !p.gate.pending
}

/// The sample reader points into the cartridge.
pub open spec fn reads_cartridge(d: Dmc) -> bool {
    d.reader.current_address >= 0x8000 && d.reader.sample_address >= 0x8000
}

proof fn lemma_dark_dots<M: Mapper>(p: PpuModel<M::Model>, n: nat)
    requires
        dark(p),
    ensures
        dark(dots_clocked::<M>(p, n)),
        dots_clocked::<M>(p, n).mem == p.mem,
        dots_clocked::<M>(p, n).mapper == p.mapper,
        dots_clocked::<M>(p, n).regs.oam_addr == p.regs.oam_addr,
    decreases n,
{
    if n > 0 {
        let before = dots_clocked::<M>(p, (n - 1) as nat);
        lemma_dark_dots::<M>(p, (n - 1) as nat);
        a_blanked_dot_touches_no_memory::<M>(before);
        assert(dark(dot_clocked::<M>(before))) by {
            reveal(dot_clocked);
        }
    }
}

proof fn lemma_reader_stays(a: ApuModel)
    ensures
        ({
            let after = apu_cycle(a).channels.dmc.reader;
            let before = a.channels.dmc.reader;
            &&& after.current_address == before.current_address
            &&& after.sample_address == before.sample_address
            &&& after.bytes_remaining == before.bytes_remaining
        }),
{
    reveal(apu_cycle);
    assert(a.channels.frame_ticked().dmc == a.channels.dmc);
}

/// What a cycle leaves alone while rendering is off.
proof fn lemma_dark_cycle<M: Mapper>(c: Clocked<M::Model>)
    requires
        dark(c.bus.ppu),
        reads_cartridge(c.bus.apu.channels.dmc),
    ensures
        ({
            let after = cycle_clocked::<M>(c).bus;
            &&& dark(after.ppu)
            &&& after.ppu.mem == c.bus.ppu.mem
            &&& after.ppu.mapper == c.bus.ppu.mapper
            &&& after.ppu.regs.oam_addr == c.bus.ppu.regs.oam_addr
            &&& after.cpu_vram == c.bus.cpu_vram
            &&& reads_cartridge(after.apu.channels.dmc)
            &&& after.apu.channels.dmc.reader.bytes_remaining
                == c.bus.apu.channels.dmc.reader.bytes_remaining
            &&& after.dma.get_cycle == !c.bus.dma.get_cycle
            &&& after.cycles == c.bus.cycles.wrapping_add(1)
        }),
{
    reveal(cycle_clocked);
    reveal(devices_advanced);
    lemma_dark_dots::<M>(c.bus.ppu, 3);
    lemma_reader_stays(c.bus.apu);
}

/// A page of memory proper: work RAM, the cartridge, or the unmapped space
/// between. Reading it moves no device.
pub open spec fn memory_page(page: u8) -> bool {
    page < 0x20 || page > 0x40
}

/// The 256 bytes of a page.
pub open spec fn page_bytes<M: Mapper>(b: BusModel<M::Model>, page: u8) -> Seq<u8> {
    Seq::new(256, |i: int| value_at::<M>(b, (page * 256 + i) as u16))
}

/// A page shows work RAM and the cartridge, and nothing else bears on it.
proof fn lemma_page_stays<M: Mapper>(a: BusModel<M::Model>, b: BusModel<M::Model>, page: u8)
    requires
        memory_page(page),
        b.cpu_vram == a.cpu_vram,
        b.ppu.mapper == a.ppu.mapper,
    ensures
        page_bytes::<M>(b, page) == page_bytes::<M>(a, page),
{
    assert(page_bytes::<M>(b, page) =~= page_bytes::<M>(a, page));
}

/// A transfer underway from such a page.
pub open spec fn copying<M: Mapper>(b: BusModel<M::Model>, t: Transfer) -> bool {
    &&& b.ppu.mem.oam_data.len() == 256
    &&& dark(b.ppu)
    &&& reads_cartridge(b.apu.channels.dmc)
    &&& t.wf()
    &&& memory_page(t.page)
    &&& t.oam == OamDmaPhase::Done ==> t.offset == 256
    &&& t.oam == OamDmaPhase::Put ==> t.latch == page_bytes::<M>(b, t.page)[t.offset as int]
    &&& t.dmc != DmcDmaPhase::Idle ==> b.apu.channels.dmc.request() is Some
}

/// The access of such a transfer cycle: either a byte lands in OAM or nothing
/// does.
proof fn lemma_copy_access<M: Mapper>(b: BusModel<M::Model>, t: Transfer)
    requires
        copying::<M>(b, t),
    ensures
        ({
            let after = transfer_access::<M>(b, t);
            &&& after.cpu_vram == b.cpu_vram
            &&& after.ppu.mapper == b.ppu.mapper
            &&& after.dma == b.dma
            &&& after.cycles == b.cycles
            &&& dark(after.ppu)
            &&& reads_cartridge(after.apu.channels.dmc)
            &&& after.ppu.mem.oam_data == if t.oam_writes(b.dma.get_cycle) {
                b.ppu.mem.oam_data.update(b.ppu.regs.oam_addr as int, t.latch)
            } else {
                b.ppu.mem.oam_data
            }
            &&& after.ppu.regs.oam_addr == if t.oam_writes(b.dma.get_cycle) {
                b.ppu.regs.oam_addr.wrapping_add(1)
            } else {
                b.ppu.regs.oam_addr
            }
        }),
{
    reveal(dmc_served);
}

/// The transfer's own state across such a cycle.
proof fn lemma_copy_step<M: Mapper>(b: BusModel<M::Model>, t: Transfer)
    requires
        copying::<M>(b, t),
    ensures
        ({
            let g = b.dma.get_cycle;
            let next = t.stepped(g, value_at::<M>(b, t.source()));
            &&& next.page == t.page
            &&& next.oam == OamDmaPhase::Done ==> next.offset == 256
            &&& next.oam == OamDmaPhase::Put ==> next.latch == page_bytes::<M>(
                b,
                t.page,
            )[next.offset as int]
            &&& next.offset == if t.oam_writes(g) {
                t.offset + 1
            } else {
                t.offset as int
            }
        }),
{
    assert(t.offset < 256 ==> value_at::<M>(b, t.source()) == page_bytes::<M>(
        b,
        t.page,
    )[t.offset as int]);
}

proof fn lemma_copy_cycle<M: Mapper>(c: Clocked<M::Model>, t: Transfer)
    requires
        copying::<M>(c.bus, t),
    ensures
        ({
            let g = c.bus.dma.get_cycle;
            let after = transfer_clocked::<M>(c, t).bus;
            let at = c.bus.ppu.regs.oam_addr;
            &&& after.cpu_vram == c.bus.cpu_vram
            &&& after.ppu.mapper == c.bus.ppu.mapper
            &&& after.dma.get_cycle == !g
            &&& after.cycles == c.bus.cycles.wrapping_add(1)
            &&& dark(after.ppu)
            &&& reads_cartridge(after.apu.channels.dmc)
            &&& after.ppu.mem.oam_data == if t.oam_writes(g) {
                c.bus.ppu.mem.oam_data.update(at as int, t.latch)
            } else {
                c.bus.ppu.mem.oam_data
            }
            &&& after.ppu.regs.oam_addr == if t.oam_writes(g) {
                at.wrapping_add(1)
            } else {
                at
            }
        }),
{
    reveal(transfer_clocked);
    lemma_copy_access::<M>(c.bus, t);
    lemma_dark_cycle::<M>(Clocked { bus: transfer_access::<M>(c.bus, t), ..c });
}

/// OAM around one written byte: what lands behind it, seen from its own
/// address.
proof fn lemma_page_lands(
    before: Seq<u8>,
    after: Seq<u8>,
    bytes: Seq<u8>,
    at: u8,
    offset: int,
)
    requires
        before.len() == 256,
        after.len() == 256,
        0 <= offset < 256,
        forall|k: int|
            0 <= k < 256 ==> #[trigger] after[(at.wrapping_add(1) + k) % 256] == if k < 255
                - offset {
                bytes[offset + 1 + k]
            } else {
                before.update(at as int, bytes[offset])[(at.wrapping_add(1) + k) % 256]
            },
    ensures
        forall|i: int|
            0 <= i < 256 ==> #[trigger] after[(at + i) % 256] == if i < 256 - offset {
                bytes[offset + i]
            } else {
                before[(at + i) % 256]
            },
{
    assert forall|i: int| 0 <= i < 256 implies #[trigger] after[(at + i) % 256] == if i < 256
        - offset {
        bytes[offset + i]
    } else {
        before[(at + i) % 256]
    } by {
        let k = if i == 0 {
            255int
        } else {
            i - 1
        };
        assert((at.wrapping_add(1) + k) % 256 == (at + i) % 256);
        assert(after[(at.wrapping_add(1) + k) % 256] == after[(at + i) % 256]);
    }
}

/// While rendering is off an OAM DMA copies its page in full, whatever the DMC
/// steals in between: byte `i` of a page of memory lands at OAMADDR + `i`, and
/// OAMADDR is back where it was. Stated of a transfer that stands anywhere in
/// the page: what is left of the page lands.
pub proof fn a_transfer_copies_what_is_left<M: Mapper>(c: Clocked<M::Model>, t: Transfer)
    requires
        copying::<M>(c.bus, t),
    ensures
        ({
            let after = transfer_run::<M>(c, t).bus;
            let at = c.bus.ppu.regs.oam_addr;
            &&& after.ppu.mem.oam_data.len() == 256
            &&& after.cpu_vram == c.bus.cpu_vram
            &&& after.ppu.mapper == c.bus.ppu.mapper
            &&& after.ppu.regs.oam_addr == (at + 256 - t.offset) % 256
            &&& forall|i: int|
                0 <= i < 256 ==> #[trigger] after.ppu.mem.oam_data[(at + i) % 256] == if i
                    < 256 - t.offset {
                    page_bytes::<M>(c.bus, t.page)[t.offset + i]
                } else {
                    c.bus.ppu.mem.oam_data[(at + i) % 256]
                }
        }),
    decreases t.work(), t.wait(c.bus.dma.get_cycle),
{
    if !t.finished() {
        let requested = c.bus.apu.channels.dmc.request() is Some;
        let begun = t.with_request(requested);
        let next = transfer_next::<M>(c, begun);
        let cycled = transfer_clocked::<M>(c, begun);
        a_transfer_runs_cycle_by_cycle::<M>(c, t, begun);
        lemma_copy_cycle::<M>(c, begun);
        assert(next == begun.stepped(
            c.bus.dma.get_cycle,
            value_at::<M>(c.bus, begun.source()),
        )) by {
            reveal(transfer_next);
        }
        lemma_copy_step::<M>(c.bus, begun);
        lemma_page_stays::<M>(c.bus, cycled.bus, t.page);
        a_transfer_copies_what_is_left::<M>(cycled, next);
        if begun.oam_writes(c.bus.dma.get_cycle) {
            lemma_page_lands(
                c.bus.ppu.mem.oam_data,
                transfer_run::<M>(c, t).bus.ppu.mem.oam_data,
                page_bytes::<M>(c.bus, t.page),
                c.bus.ppu.regs.oam_addr,
                t.offset as int,
            );
        }
    }
}

/// While rendering is off, an OAM DMA of a page of work RAM or of the cartridge
/// fills OAM from OAMADDR on with the page's bytes, and changes neither.
pub proof fn an_oam_dma_copies_its_page<M: Mapper>(c: Clocked<M::Model>, page: u8)
    requires
        c.bus.ppu.mem.oam_data.len() == 256,
        dark(c.bus.ppu),
        reads_cartridge(c.bus.apu.channels.dmc),
        memory_page(page),
    ensures
        ({
            let after = oam_dma_run::<M>(c, page).bus;
            let at = c.bus.ppu.regs.oam_addr;
            &&& after.ppu.regs.oam_addr == at
            &&& after.cpu_vram == c.bus.cpu_vram
            &&& after.ppu.mapper == c.bus.ppu.mapper
            &&& forall|i: int|
                0 <= i < 256 ==> #[trigger] after.ppu.mem.oam_data[(at + i) % 256] == value_at::<
                    M,
                >(c.bus, (page * 256 + i) as u16)
        }),
{
    reveal(oam_dma_run);
    let noted = Clocked { bus: BusModel { ppu: dma_noted(c.bus.ppu), ..c.bus }, ..c };
    a_transfer_copies_what_is_left::<M>(noted, Transfer::begun(page));
    lemma_page_stays::<M>(c.bus, noted.bus, page);
    assert forall|i: int| 0 <= i < 256 implies #[trigger] page_bytes::<M>(c.bus, page)[i]
        == value_at::<M>(c.bus, (page * 256 + i) as u16) by {}
}

/// No sample is being played, so the DMC asks for nothing.
pub open spec fn dmc_silent<V>(b: BusModel<V>) -> bool {
    b.apu.channels.dmc.reader.bytes_remaining == 0
}

/// Cycles that a transfer has left when the DMC stays silent.
pub open spec fn quiet_cycles_left(t: Transfer, get_cycle: bool) -> int {
    match t.oam {
        OamDmaPhase::Halt => if get_cycle {
            514
        } else {
            513
        },
        OamDmaPhase::Align => 513,
        OamDmaPhase::Get => 2 * (256 - t.offset),
        OamDmaPhase::Put => 2 * (256 - t.offset) - 1,
        OamDmaPhase::Done => 0,
    }
}

/// Reads fall on get cycles and writes on put cycles.
pub open spec fn in_step(t: Transfer, get_cycle: bool) -> bool {
    &&& t.wf()
    &&& t.dmc == DmcDmaPhase::Idle
    &&& t.oam == OamDmaPhase::Halt || t.oam == OamDmaPhase::Align ==> t.offset == 0
    &&& t.oam == OamDmaPhase::Align ==> !get_cycle
    &&& t.oam == OamDmaPhase::Get ==> get_cycle
    &&& t.oam == OamDmaPhase::Put ==> !get_cycle
}

proof fn lemma_quiet_cycle<M: Mapper>(c: Clocked<M::Model>, t: Transfer)
    requires
        dmc_silent(c.bus),
        in_step(t, c.bus.dma.get_cycle),
        !t.finished(),
    ensures
        ({
            let after = transfer_clocked::<M>(c, t).bus;
            let next = transfer_next::<M>(c, t);
            &&& dmc_silent(after)
            &&& after.cycles == c.bus.cycles.wrapping_add(1)
            &&& in_step(next, after.dma.get_cycle)
            &&& quiet_cycles_left(next, after.dma.get_cycle) + 1 == quiet_cycles_left(
                t,
                c.bus.dma.get_cycle,
            )
        }),
{
    reveal(transfer_clocked);
    reveal(transfer_next);
    reveal(cycle_clocked);
    reveal(devices_advanced);
    lemma_reader_stays(transfer_access::<M>(c.bus, t).apu);
}

/// With the DMC silent, a transfer takes exactly the cycles it has left.
pub proof fn a_quiet_transfer_takes_its_cycles<M: Mapper>(c: Clocked<M::Model>, t: Transfer)
    requires
        dmc_silent(c.bus),
        in_step(t, c.bus.dma.get_cycle),
    ensures
        transfer_run::<M>(c, t).bus.cycles as int == (c.bus.cycles + quiet_cycles_left(
            t,
            c.bus.dma.get_cycle,
        )) % (usize::MAX + 1),
    decreases t.work(), t.wait(c.bus.dma.get_cycle),
{
    let size = usize::MAX + 1;
    if t.finished() {
        vstd::arithmetic::div_mod::lemma_small_mod(c.bus.cycles as nat, size as nat);
    } else {
        let cycled = transfer_clocked::<M>(c, t);
        let next = transfer_next::<M>(c, t);
        a_transfer_runs_cycle_by_cycle::<M>(c, t, t);
        lemma_quiet_cycle::<M>(c, t);
        a_quiet_transfer_takes_its_cycles::<M>(cycled, next);
        let left = quiet_cycles_left(next, cycled.bus.dma.get_cycle);
        if c.bus.cycles == usize::MAX {
            vstd::arithmetic::div_mod::lemma_mod_add_multiples_vanish(left, size);
        }
    }
}

/// With the DMC silent, an OAM DMA stalls the CPU for 513 cycles, or 514 when
/// it has to align first.
pub proof fn an_oam_dma_stalls_513_or_514_cycles<M: Mapper>(c: Clocked<M::Model>, page: u8)
    requires
        dmc_silent(c.bus),
    ensures
        oam_dma_run::<M>(c, page).bus.cycles as int == (c.bus.cycles + if c.bus.dma.get_cycle {
            514int
        } else {
            513
        }) % (usize::MAX + 1),
{
    reveal(oam_dma_run);
    let noted = Clocked { bus: BusModel { ppu: dma_noted(c.bus.ppu), ..c.bus }, ..c };
    a_quiet_transfer_takes_its_cycles::<M>(noted, Transfer::begun(page));
}

} // verus!
