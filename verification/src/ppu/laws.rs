//! Properties of the picture chip that span several operations.

use crate::cartridge::Mirroring;
use crate::mapper::Mapper;
use crate::ppu::memory::{
    mirrored, mirroring_folds_the_nametables, palette_slot, PpuMemory,
};
use crate::ppu::model::{
    addr_written, addressed, after_write, bg_pixel, data_read, data_written, dma_byte_written,
    dot_clocked, dots_clocked, oam_addr_written, oam_data_value, oam_data_written, pixel_rendered,
    read_value, rendering_in_progress, status_read, vram_addr_incremented, wf, with_v,
    write_begun, PpuModel, PpuRegisters,
};
use crate::ppu::page_streamed;
use crate::ppu::registers::status::with_bits;
use vstd::prelude::*;

verus! {

/// While rendering is off, streaming a page stores byte `i` at OAMADDR + `i`,
/// wrapping through the page, and moves OAMADDR by as much.
pub proof fn a_streamed_page_fills_oam_from_the_address<V>(
    p: PpuModel<V>,
    data: Seq<u8>,
    n: nat,
)
    requires
        !rendering_in_progress(p),
        p.mem.oam_data.len() == 256,
        n <= 256,
    ensures
        ({
            let q = page_streamed(p, data, n);
            &&& q == (PpuModel { mem: q.mem, regs: q.regs, ..p })
            &&& q.mem.vram == p.mem.vram
            &&& q.mem.palette_table == p.mem.palette_table
            &&& q.mem.oam_data.len() == 256
            &&& q.regs.oam_addr == (p.regs.oam_addr + n) % 256
            &&& forall|i: int|
                0 <= i < 256 ==> #[trigger] q.mem.oam_data[(p.regs.oam_addr + i) % 256] == if i
                    < n {
                    data[i]
                } else {
                    p.mem.oam_data[(p.regs.oam_addr + i) % 256]
                }
        }),
    decreases n,
{
    if n > 0 {
        let m = (n - 1) as nat;
        a_streamed_page_fills_oam_from_the_address(p, data, m);
        let q = page_streamed(p, data, m);
        let r = page_streamed(p, data, n);
        assert(r == dma_byte_written(q, data[n - 1]));
        let at = (p.regs.oam_addr + m) % 256;
        assert(q.regs.oam_addr == at);
        assert(r.mem.oam_data == q.mem.oam_data.update(at, data[m as int]));
        assert forall|i: int| 0 <= i < 256 implies #[trigger] r.mem.oam_data[(p.regs.oam_addr + i)
            % 256] == if i < n {
            data[i]
        } else {
            p.mem.oam_data[(p.regs.oam_addr + i) % 256]
        } by {
            if i == m {
            } else {
                assert((p.regs.oam_addr + i) % 256 != at);
            }
        }
    }
}

/// A whole page leaves OAMADDR where it started.
pub proof fn a_full_page_returns_the_address<V>(p: PpuModel<V>, data: Seq<u8>)
    requires
        !rendering_in_progress(p),
        p.mem.oam_data.len() == 256,
    ensures
        page_streamed(p, data, 256).regs.oam_addr == p.regs.oam_addr,
{
    a_streamed_page_fills_oam_from_the_address(p, data, 256);
}

/// While rendering owns OAM a DMA byte changes no sprite and no address.
pub proof fn dma_during_rendering_leaves_oam_alone<V>(p: PpuModel<V>, value: u8)
    requires
        rendering_in_progress(p),
    ensures
        dma_byte_written(p, value).mem == p.mem,
        dma_byte_written(p, value).regs == p.regs,
{
}

/// A byte written through $2003/$2004 outside rendering reads back through
/// $2004, less the bits that an attribute byte does not have.
pub proof fn oam_reads_back_what_was_written<V>(p: PpuModel<V>, at: u8, value: u8)
    requires
        !rendering_in_progress(p),
        p.mem.oam_data.len() == 256,
    ensures
        ({
            let q = oam_addr_written(oam_data_written(oam_addr_written(p, at), value), at);
            oam_data_value(q) == if at % 4 == 2 {
                value & 0xe3
            } else {
                value
            }
        }),
{
}

/// A palette byte written through the bus reads back at once, under each of
/// its mirrored addresses.
pub proof fn a_palette_byte_reads_back<M: Mapper>(
    p: PpuModel<M::Model>,
    addr: u16,
    again: u16,
    value: u8,
)
    requires
        wf::<M>(p),
        0x3f00 <= addr < 0x4000,
        0x3f00 <= again < 0x4000,
        palette_slot(again) == palette_slot(addr),
    ensures
        read_value::<M>(after_write::<M>(p, addr, value), again) == value,
{
}

/// A nametable byte written through the bus reads back.
pub proof fn a_nametable_byte_reads_back<M: Mapper>(p: PpuModel<M::Model>, addr: u16, value: u8)
    requires
        wf::<M>(p),
        0x2000 <= addr < 0x3f00,
    ensures
        read_value::<M>(after_write::<M>(p, addr, value), addr) == value,
{
    M::complete_answers(p.mapper, addr);
    M::ppu_accesses_keep_mirroring(p.mapper, addr, p.raster.total_dots);
    M::ppu_accesses_keep_mirroring(addressed::<M>(p, addr).mapper, addr, p.raster.total_dots);
    mirroring_folds_the_nametables(M::mirroring_of(p.mapper), addr);
}

/// The chip with an address put in through $2006, high byte first.
pub open spec fn pointed<M: Mapper>(p: PpuModel<M::Model>, addr: u16) -> PpuModel<M::Model> {
    addr_written::<M>(addr_written::<M>(p, (addr / 256) as u8), (addr % 256) as u8)
}

/// An address put in through $2006 is the address, and nothing that $2007 goes
/// by changes with it.
proof fn lemma_pointed<M: Mapper>(p: PpuModel<M::Model>, addr: u16)
    requires
        !p.regs.loopy.write_latch,
        addr < 0x4000,
    ensures
        ({
            let q = pointed::<M>(p, addr);
            &&& q.regs.loopy.v == addr
            &&& !q.regs.loopy.write_latch
            &&& q.regs == (PpuRegisters { loopy: q.regs.loopy, ..p.regs })
            &&& q.mem == p.mem
            &&& q.raster == p.raster
            &&& q.gate == p.gate
            &&& M::mirroring_of(q.mapper) == M::mirroring_of(p.mapper)
        }),
{
    let t: u16 = p.regs.loopy.t;
    let high: u8 = (addr / 256) as u8;
    let low: u8 = (addr % 256) as u8;
    assert((((t & 0x00ff) | (((high as u16) & 0x3f) << 8)) & 0x7f00) | (low as u16) == addr)
        by (bit_vector)
        requires
            addr < 0x4000,
            high == addr / 256,
            low == addr % 256,
    ;
    M::ppu_accesses_keep_mirroring(p.mapper, addr, p.raster.total_dots);
}

/// The address after a $2007 access with rendering off.
proof fn lemma_address_steps<V>(p: PpuModel<V>)
    requires
        !rendering_in_progress(p),
        p.regs.loopy.v < 0x4000,
    ensures
        vram_addr_incremented(p) == with_v(
            p,
            ((p.regs.loopy.v + p.regs.ctrl.vram_addr_increment()) % 0x4000) as u16,
        ),
{
    let sum: u16 = p.regs.loopy.v.wrapping_add(p.regs.ctrl.vram_addr_increment() as u16);
    assert(sum & 0x3fff == sum % 0x4000) by (bit_vector);
}

proof fn lemma_stored_through_the_port<M: Mapper>(p: PpuModel<M::Model>, value: u8)
    requires
        p.mem.vram.len() == 2048,
        M::mirroring_of(p.mapper) != Mirroring::FourScreen,
        !rendering_in_progress(p),
        0x2000 <= p.regs.loopy.v < 0x3f00,
    ensures
        ({
            let q = data_written::<M>(p, value);
            let slot = mirrored(M::mirroring_of(p.mapper), p.regs.loopy.v) as int;
            &&& slot < 2048
            &&& q.mem == (PpuMemory { vram: p.mem.vram.update(slot, value), ..p.mem })
            &&& q.regs == with_v(
                p,
                ((p.regs.loopy.v + p.regs.ctrl.vram_addr_increment()) % 0x4000) as u16,
            ).regs
            &&& q.raster == p.raster
            &&& q.gate == p.gate
            &&& M::mirroring_of(q.mapper) == M::mirroring_of(p.mapper)
        }),
{
    let v = p.regs.loopy.v;
    let dots = p.raster.total_dots;
    let begun = write_begun(p, 0x2007, value);
    let written = after_write::<M>(begun, v, value);
    M::ppu_accesses_keep_mirroring(p.mapper, v, dots);
    mirroring_folds_the_nametables(M::mirroring_of(p.mapper), v);
    lemma_address_steps(written);
    let stepped = vram_addr_incremented(written);
    M::ppu_accesses_keep_mirroring(stepped.mapper, stepped.regs.loopy.v % 0x4000, dots);
}

/// A read of $2007 below the palettes buffers the byte at the address.
proof fn lemma_buffered_through_the_port<M: Mapper>(p: PpuModel<M::Model>)
    requires
        !rendering_in_progress(p),
        0x2000 <= p.regs.loopy.v < 0x3f00,
    ensures
        ({
            let (q, seen) = data_read::<M>(p);
            let slot = mirrored(M::mirroring_of(p.mapper), p.regs.loopy.v) as int;
            &&& seen == p.regs.internal_data_buf
            &&& q.regs.internal_data_buf == p.mem.vram[slot]
            &&& q.regs.loopy.v == (p.regs.loopy.v + p.regs.ctrl.vram_addr_increment()) % 0x4000
            &&& q.raster == p.raster
            &&& q.gate == p.gate
        }),
{
    lemma_address_steps(p);
    M::ppu_accesses_keep_mirroring(p.mapper, p.regs.loopy.v, p.raster.total_dots);
}

/// With rendering off, a byte written to a nametable through $2006 and $2007
/// lands in the one place that the mirroring gives, changes no other byte, and
/// moves the address on by 1 or 32. Read from there, or from the mirror $1000
/// away, it comes into the read buffer, and with the second read of $2007 to
/// the CPU, unless the address has by then stepped into the palettes.
pub proof fn a_nametable_byte_passes_the_ports<M: Mapper>(
    p: PpuModel<M::Model>,
    addr: u16,
    again: u16,
    value: u8,
)
    requires
        wf::<M>(p),
        !rendering_in_progress(p),
        !p.regs.loopy.write_latch,
        0x2000 <= addr < 0x3f00,
        0x2000 <= again < 0x3f00,
        again % 0x1000 == addr % 0x1000,
    ensures
        ({
            let step = p.regs.ctrl.vram_addr_increment();
            let slot = mirrored(M::mirroring_of(p.mapper), addr) as int;
            let stored = data_written::<M>(pointed::<M>(p, addr), value);
            let buffered = data_read::<M>(pointed::<M>(stored, again)).0;
            &&& slot < 2048
            &&& stored.mem == (PpuMemory { vram: p.mem.vram.update(slot, value), ..p.mem })
            &&& stored.regs.loopy.v == (addr + step) % 0x4000
            &&& buffered.regs.internal_data_buf == value
            &&& again + step < 0x3f00 ==> data_read::<M>(buffered).1 == value
        }),
{
    let set = pointed::<M>(p, addr);
    M::complete_answers(p.mapper, addr);
    lemma_pointed::<M>(p, addr);
    lemma_stored_through_the_port::<M>(set, value);
    let stored = data_written::<M>(set, value);
    lemma_pointed::<M>(stored, again);
    let set_again = pointed::<M>(stored, again);
    lemma_buffered_through_the_port::<M>(set_again);
    let buffered = data_read::<M>(set_again).0;
    if again + p.regs.ctrl.vram_addr_increment() < 0x3f00 {
        lemma_buffered_through_the_port::<M>(buffered);
    }
}

/// Reading the status register always leaves the blanking flag clear and the
/// shared write latch at its first write.
pub proof fn a_status_read_clears_blanking_and_latch<V>(p: PpuModel<V>)
    ensures
        !status_read(p).regs.status.is_in_vblank(),
        !status_read(p).regs.loopy.write_latch,
        status_read(p).regs.loopy.v == p.regs.loopy.v,
        status_read(p).regs.loopy.t == p.regs.loopy.t,
{
    let bits = p.regs.status.bits;
    assert((bits & !0x80u8) & 0x80 == 0) by (bit_vector);
}

/// Every dot moves the dot counter by one, whatever the chip is doing.
pub proof fn every_dot_counts<M: Mapper>(p: PpuModel<M::Model>, n: nat)
    ensures
        dots_clocked::<M>(p, n).raster.total_dots as int == (p.raster.total_dots + n)
            % 0x1_0000_0000_0000_0000,
    decreases n,
{
    if n > 0 {
        every_dot_counts::<M>(p, (n - 1) as nat);
        one_dot_advances_the_raster::<M>(dots_clocked::<M>(p, (n - 1) as nat));
    }
}

/// The raster moves one dot per dot: no fetch, pixel or blanking step touches
/// it.
pub proof fn one_dot_advances_the_raster<M: Mapper>(p: PpuModel<M::Model>)
    ensures
        dot_clocked::<M>(p).raster == crate::ppu::model::dot_begun(p).raster.advanced(),
{
    reveal(dot_clocked);
}

/// With rendering off the pipeline is idle: a dot leaves the cartridge, the
/// memories and the scroll as they were.
pub proof fn a_blanked_dot_touches_no_memory<M: Mapper>(p: PpuModel<M::Model>)
    requires
        !rendering_in_progress(crate::ppu::model::dot_begun(p)),
    ensures
        dot_clocked::<M>(p).mapper == p.mapper,
        dot_clocked::<M>(p).mem == p.mem,
        dot_clocked::<M>(p).regs.loopy == p.regs.loopy,
        dot_clocked::<M>(p).regs.oam_addr == p.regs.oam_addr,
{
    reveal(dot_clocked);
}

// ---- Vertical blanking and sprites -------------------------------------------------------

/// Vertical blanking begins after dot 0 of scanline 241: the flag rises, the
/// finished frame is announced whether or not the interrupt is enabled, and an
/// edge is raised exactly if it is.
pub proof fn blanking_begins_on_scanline_241<M: Mapper>(p: PpuModel<M::Model>)
    requires
        p.raster.scanline == 241,
        p.raster.dot == 0,
        !p.nmi.suppress_vblank,
    ensures
        ({
            let after = dot_clocked::<M>(p);
            &&& after.regs.status.bits & 0x80 == 0x80
            &&& after.nmi.frame_ready
            &&& after.nmi.pending == if p.regs.ctrl.generate_vblank_nmi() {
                Some(1u8)
            } else {
                p.nmi.pending
            }
        }),
{
    reveal(dot_clocked);
    lemma_bit_set(p.regs.status.bits, 0x80);
}

/// A status read on the dot before blanking suppresses the flag and the
/// interrupt of that frame, but not the frame's announcement.
pub proof fn a_last_moment_status_read_suppresses_blanking<M: Mapper>(p: PpuModel<M::Model>)
    requires
        p.raster.scanline == 241,
        p.raster.dot == 0,
    ensures
        ({
            let after = dot_clocked::<M>(status_read(p));
            &&& after.regs.status.bits & 0x80 == 0
            &&& after.nmi.pending == p.nmi.withdrawn(p.raster.total_dots).pending
            &&& after.nmi.frame_ready
            &&& !after.nmi.suppress_vblank
        }),
{
    reveal(dot_clocked);
    lemma_bit_cleared(p.regs.status.bits, 0x80);
}

/// The pre-render line clears the blanking, sprite zero and overflow flags.
pub proof fn the_pre_render_line_clears_the_flags<M: Mapper>(p: PpuModel<M::Model>)
    requires
        p.raster.scanline == 261,
        p.raster.dot == 0,
    ensures
        dot_clocked::<M>(p).regs.status.bits & 0xe0 == 0,
{
    reveal(dot_clocked);
    let bits = p.regs.status.bits;
    assert((bits & !0x80u8 & !0x40u8 & !0x20u8) & 0xe0 == 0) by (bit_vector);
}

proof fn lemma_bit_set(bits: u8, mask: u8)
    ensures
        with_bits(bits, mask, true) & mask == mask,
{
    assert((bits | mask) & mask == mask) by (bit_vector);
}

proof fn lemma_bit_cleared(bits: u8, mask: u8)
    ensures
        with_bits(bits, mask, false) & mask == 0,
{
    assert((bits & !mask) & mask == 0) by (bit_vector);
}

/// Sprite zero never hits in the rightmost column, nor in the leftmost eight
/// where either layer is clipped, nor without a background pixel there.
pub proof fn sprite_zero_hits_only_where_both_layers_show<V>(p: PpuModel<V>)
    requires
        pixel_rendered(p).regs.status != p.regs.status,
    ensures
        p.raster.dot != 256,
        p.gate.enabled,
        p.regs.mask.show_background() && p.regs.mask.show_sprites(),
        p.raster.dot <= 8 ==> p.regs.mask.leftmost_8pxl_background()
            && p.regs.mask.leftmost_8pxl_sprite(),
        bg_pixel(p, p.raster.dot - 1) != 0,
        pixel_rendered(p).regs.status.bits & 0x40 == 0x40,
{
    lemma_bit_set(p.regs.status.bits, 0x40);
}

} // verus!
