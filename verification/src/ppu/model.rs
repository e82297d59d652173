//! What the picture chip does, as functions from its state to its next state.

use crate::mapper::Mapper;
use crate::ppu::background::Background;
use crate::ppu::io::{IoLatch, IoModel};
use crate::ppu::memory::{mirrored, palette_slot, MemoryModel, PpuMemory};
use crate::ppu::raster::{NmiLine, Raster, RenderGate};
use crate::ppu::registers::control::ControlRegister;
use crate::ppu::registers::loopy::{x_incremented, y_incremented, LoopyRegister};
use crate::ppu::registers::mask::MaskRegister;
use crate::ppu::registers::status::{with_bits, StatusRegister};
use crate::ppu::sprites::{
    all_shifted, bits_reversed, empty_units, first_opaque, EvaluationModel, SpriteUnit,
    SpriteUnits, UnitsModel,
};
use crate::render::frame::{pixel_set, FRAME_BYTES};
use crate::render::palette::system_color;
use vstd::prelude::*;

verus! {

/// Cumulative counters for correlating a visual glitch with DMA or a
/// visible-time register write. They do not affect emulation.
#[derive(Clone, Copy, Debug, PartialEq, Eq, Structural)]
pub struct ProbeDiagnostics {
    pub oam_dma_count: u64,
    pub visible_register_writes: u64,
    pub last_register: u16,
    pub last_scanline: u16,
    pub last_dot: usize,
}

/// The registers proper, and the two buses' latches.
#[derive(Clone, Copy, Debug, PartialEq, Eq, Structural)]
pub struct PpuRegisters {
    pub loopy: LoopyRegister,
    pub ctrl: ControlRegister,
    pub mask: MaskRegister,
    pub status: StatusRegister,
    pub oam_addr: u8,
    // Value currently visible on the internal OAM data bus. During rendering,
    // $2004 observes this bus instead of indexing primary OAM with OAMADDR.
    pub oam_data_bus: u8,
    pub internal_data_buf: u8,
}

/// The state of the picture chip with a cartridge of model `V` in the slot.
pub struct PpuModel<V> {
    pub mapper: V,
    pub mem: MemoryModel,
    pub regs: PpuRegisters,
    pub raster: Raster,
    pub gate: RenderGate,
    pub nmi: NmiLine,
    pub bg: Background,
    pub eval: EvaluationModel,
    pub sprites: UnitsModel,
    pub io: IoModel,
    pub frame: Seq<u8>,
    pub probe: ProbeDiagnostics,
}

/// The invariant: a complete cartridge, memories of their sizes, counters in
/// their ranges.
pub open spec fn wf<M: Mapper>(p: PpuModel<M::Model>) -> bool {
    &&& M::complete(p.mapper)
    &&& p.mem.wf()
    &&& p.regs.loopy.wf()
    &&& p.raster.wf()
    &&& p.eval.wf()
    &&& p.sprites.current.len() == 8
    &&& p.sprites.next.len() == 8
    &&& p.io.refreshed_at.len() == 8
    &&& p.frame.len() == FRAME_BYTES
}

/// Power-on with a cartridge in the slot.
pub open spec fn power_on<V>(mapper: V) -> PpuModel<V> {
    PpuModel {
        mapper,
        mem: MemoryModel::initial(),
        regs: PpuRegisters {
            loopy: LoopyRegister::initial(),
            ctrl: ControlRegister { bits: 0 },
            mask: MaskRegister { bits: 0 },
            status: StatusRegister { bits: 0 },
            oam_addr: 0,
            oam_data_bus: 0,
            internal_data_buf: 0,
        },
        raster: Raster::initial(),
        gate: RenderGate::initial(),
        nmi: NmiLine::initial(),
        bg: Background::initial(),
        eval: EvaluationModel::initial(),
        sprites: SpriteUnits { current: empty_units(), next: empty_units() },
        io: IoLatch { value: 0, refreshed_at: Seq::new(8, |b: int| 0u64) },
        frame: crate::mapper::board::zeroes(FRAME_BYTES as nat),
        probe: ProbeDiagnostics {
            oam_dma_count: 0,
            visible_register_writes: 0,
            last_register: 0,
            last_scanline: 0,
            last_dot: 0,
        },
    }
}

// ---- The chip's own bus -------------------------------------------------------

/// The mapper sees every address on the bus, with the dot it appears on.
pub open spec fn addressed<M: Mapper>(p: PpuModel<M::Model>, addr: u16) -> PpuModel<M::Model> {
    PpuModel {
        mapper: M::after_ppu_bus_access(p.mapper, addr % 0x4000, p.raster.total_dots),
        ..p
    }
}

/// What a bus read yields: CHR, a nametable byte or a palette byte.
pub open spec fn read_value<M: Mapper>(p: PpuModel<M::Model>, addr: u16) -> u8 {
    let a = addr % 0x4000;
    let mapper = addressed::<M>(p, addr).mapper;
    if a < 0x2000 {
        M::ppu_value(mapper, a)
    } else if a < 0x3f00 {
        p.mem.vram[mirrored(M::mirroring_of(mapper), a) as int]
    } else {
        p.mem.palette_table[palette_slot(a)]
    }
}

pub open spec fn after_read<M: Mapper>(p: PpuModel<M::Model>, addr: u16) -> PpuModel<M::Model> {
    let q = addressed::<M>(p, addr);
    if addr % 0x4000 < 0x2000 {
        PpuModel { mapper: M::after_ppu_read(q.mapper, addr % 0x4000), ..q }
    } else {
        q
    }
}

pub open spec fn after_write<M: Mapper>(p: PpuModel<M::Model>, addr: u16, value: u8) -> PpuModel<
    M::Model,
> {
    let a = addr % 0x4000;
    let q = addressed::<M>(p, addr);
    if a < 0x2000 {
        PpuModel { mapper: M::after_ppu_write(q.mapper, a, value), ..q }
    } else if a < 0x3f00 {
        PpuModel {
            mem: PpuMemory {
                vram: p.mem.vram.update(mirrored(M::mirroring_of(q.mapper), a) as int, value),
                ..p.mem
            },
            ..q
        }
    } else {
        PpuModel {
            mem: PpuMemory {
                palette_table: p.mem.palette_table.update(palette_slot(a), value),
                ..p.mem
            },
            ..q
        }
    }
}

// ---- Background fetches ---------------------------------------------------------

/// Address of the tile number that `v` points at.
pub open spec fn tile_addr(v: u16) -> u16 {
    (0x2000 + v % 0x1000) as u16
}

/// Address of the attribute byte that covers the tile at `v`.
pub open spec fn attribute_addr(v: u16) -> u16 {
    (0x23c0 + v / 0x400 % 4 * 0x400 + v / 0x80 % 8 * 8 + v / 4 % 8) as u16
}

/// The two attribute bits of the tile at `v`.
pub open spec fn attribute_bits(attr: u8, v: u16) -> u8 {
    (attr >> ((v / 0x40 % 2 * 4 + v / 2 % 2 * 2) as u8)) & 3
}

/// Address of the low pattern byte of the fetched tile's current row.
pub open spec fn bg_pattern_addr(regs: PpuRegisters, tile: u8) -> u16 {
    (regs.ctrl.bknd_pattern_addr() + tile as u16 * 16 + regs.loopy.v / 0x1000 % 8) as u16
}

/// One dot of the background pipeline: the shifters move, and a tile's number,
/// attribute and two pattern bytes are fetched over each eight dots.
pub open spec fn background_clocked<M: Mapper>(p: PpuModel<M::Model>) -> PpuModel<M::Model> {
    let phase = (p.raster.dot - 1) % 8;
    let v = p.regs.loopy.v;
    let shifted = PpuModel { bg: p.bg.shifted(), ..p };
    if phase == 0 {
        let q = PpuModel { bg: shifted.bg.reloaded(), ..p };
        PpuModel {
            bg: Background { next_tile_id: read_value::<M>(q, tile_addr(v)), ..q.bg },
            ..after_read::<M>(q, tile_addr(v))
        }
    } else if phase == 2 {
        let attr = read_value::<M>(shifted, attribute_addr(v));
        PpuModel {
            bg: Background { next_tile_attr: attribute_bits(attr, v), ..shifted.bg },
            ..after_read::<M>(shifted, attribute_addr(v))
        }
    } else if phase == 4 {
        let addr = bg_pattern_addr(p.regs, p.bg.next_tile_id);
        PpuModel {
            bg: Background { next_tile_lo: read_value::<M>(shifted, addr), ..shifted.bg },
            ..after_read::<M>(shifted, addr)
        }
    } else if phase == 6 {
        let addr = (bg_pattern_addr(p.regs, p.bg.next_tile_id) + 8) as u16;
        PpuModel {
            bg: Background { next_tile_hi: read_value::<M>(shifted, addr), ..shifted.bg },
            ..after_read::<M>(shifted, addr)
        }
    } else if phase == 7 {
        with_v(shifted, x_incremented(v))
    } else {
        shifted
    }
}

/// The state with another current address.
pub open spec fn with_v<V>(p: PpuModel<V>, v: u16) -> PpuModel<V> {
    PpuModel {
        regs: PpuRegisters { loopy: LoopyRegister { v, ..p.regs.loopy }, ..p.regs },
        ..p
    }
}

// ---- Sprites ----------------------------------------------------------------------

/// The scanline whose sprites are being selected.
pub open spec fn target_line(r: Raster) -> int {
    if r.scanline == 261 {
        0
    } else {
        r.scanline + 1
    }
}

pub open spec fn with_oam_bus<V>(p: PpuModel<V>, value: u8) -> PpuModel<V> {
    PpuModel { regs: PpuRegisters { oam_data_bus: value, ..p.regs }, ..p }
}

pub open spec fn with_status<V>(p: PpuModel<V>, bits: u8) -> PpuModel<V> {
    PpuModel { regs: PpuRegisters { status: StatusRegister { bits }, ..p.regs }, ..p }
}

/// Dots 1-64: secondary OAM is cleared, and the clear overrides OAM reads.
pub open spec fn secondary_cleared<V>(p: PpuModel<V>) -> PpuModel<V> {
    with_oam_bus(PpuModel { eval: p.eval.cleared(p.raster.dot), ..p }, 0xff)
}

/// Dots 65-256: odd dots read primary OAM, even dots evaluate.
pub open spec fn evaluation_clocked<V>(p: PpuModel<V>) -> PpuModel<V> {
    let q = if p.raster.dot == 65 && p.regs.oam_addr >= 8 {
        PpuModel { mem: p.mem.row_refreshed(p.regs.oam_addr), ..p }
    } else {
        p
    };
    if q.eval.n >= 64 {
        q
    } else if q.raster.dot % 2 != 0 {
        let eval = q.eval.latched(q.mem.oam_data);
        with_oam_bus(PpuModel { eval, ..q }, eval.latch)
    } else {
        let tall = q.regs.ctrl.sprite_size_16();
        let line = target_line(q.raster);
        let bits = if q.eval.overflows(tall, line) {
            with_bits(q.regs.status.bits, 0x20, true)
        } else {
            q.regs.status.bits
        };
        with_oam_bus(
            with_status(PpuModel { eval: q.eval.evaluated(tall, line), ..q }, bits),
            q.eval.write_bus(),
        )
    }
}

/// A fetched pattern byte put into a slot's shifter.
pub open spec fn pattern_loaded<V>(p: PpuModel<V>, slot: int, high: bool, value: u8) -> PpuModel<
    V,
> {
    let unit = p.sprites.next[slot];
    let loaded = if high {
        SpriteUnit { pattern_hi: value, ..unit }
    } else {
        SpriteUnit { pattern_lo: value, ..unit }
    };
    PpuModel { sprites: SpriteUnits { next: p.sprites.next.update(slot, loaded), ..p.sprites }, ..p }
}

/// Dots 257-320: eight dots per slot, two unused nametable fetches and the two
/// pattern bytes.
pub open spec fn sprite_fetch_clocked<M: Mapper>(p: PpuModel<M::Model>) -> PpuModel<M::Model> {
    let slot = (p.raster.dot - 257) / 8;
    let phase = (p.raster.dot - 257) % 8;
    let nametable = tile_addr(p.regs.loopy.v);
    let q = with_oam_bus(p, p.eval.fetch_bus(p.mem.oam_data, slot, phase));
    if phase == 0 {
        let begun = if slot < p.eval.count {
            PpuModel {
                sprites: SpriteUnits {
                    next: p.sprites.next.update(slot, p.eval.unit_for(slot)),
                    ..p.sprites
                },
                ..q
            }
        } else {
            q
        };
        after_read::<M>(begun, nametable)
    } else if phase == 2 {
        after_read::<M>(q, nametable)
    } else if phase == 4 || phase == 6 {
        let low = p.eval.pattern_addr(
            slot,
            p.regs.ctrl.sprite_size_16(),
            p.regs.ctrl.sprt_pattern_addr(),
            target_line(p.raster),
        );
        let addr = if phase == 6 {
            low.wrapping_add(8)
        } else {
            low
        };
        let fetched = read_value::<M>(q, addr);
        let value = if p.eval.flipped(slot) {
            bits_reversed(fetched)
        } else {
            fetched
        };
        pattern_loaded(after_read::<M>(q, addr), slot, phase == 6, value)
    } else {
        q
    }
}

// ---- One dot ------------------------------------------------------------------------

/// Whether PPUMASK asks for rendering at all.
pub open spec fn rendering_requested(mask: MaskRegister) -> bool {
    mask.show_background() || mask.show_sprites()
}

/// Whether rendering owns VRAM and OAM.
pub open spec fn rendering_in_progress<V>(p: PpuModel<V>) -> bool {
    p.raster.on_render_line() && p.gate.enabled
}

/// The start of a dot: a scheduled rendering change lands, and the pre-render
/// line decides whether it will be cut short.
pub open spec fn dot_begun<V>(p: PpuModel<V>) -> PpuModel<V> {
    PpuModel {
        gate: p.gate.settled(p.raster.total_dots),
        raster: p.raster.skip_armed(rendering_requested(p.regs.mask)),
        ..p
    }
}

/// Background fetches at dots 1-256 and 321-336, and two unused nametable
/// fetches at 337 and 339.
pub open spec fn tiles_fetched<M: Mapper>(p: PpuModel<M::Model>) -> PpuModel<M::Model> {
    let dot = p.raster.dot;
    if 1 <= dot <= 256 || 321 <= dot <= 336 {
        background_clocked::<M>(p)
    } else if dot == 337 || dot == 339 {
        after_read::<M>(p, tile_addr(p.regs.loopy.v))
    } else {
        p
    }
}

/// Sprite evaluation and fetches. The fetch sequencer continually forces
/// OAMADDR to zero; outside evaluation and fetch, the first byte of secondary
/// OAM stays on the internal bus.
pub open spec fn sprites_clocked<M: Mapper>(p: PpuModel<M::Model>) -> PpuModel<M::Model> {
    let dot = p.raster.dot;
    if 1 <= dot <= 64 {
        secondary_cleared(p)
    } else if 65 <= dot <= 256 {
        evaluation_clocked(p)
    } else if 257 <= dot <= 320 {
        sprite_fetch_clocked::<M>(PpuModel { regs: PpuRegisters { oam_addr: 0, ..p.regs }, ..p })
    } else {
        with_oam_bus(p, p.eval.secondary_oam[0])
    }
}

/// Scrolling: the row advances at dot 256, and the two halves of the address
/// are reloaded at dot 257 and at dots 280-304 of the pre-render line.
pub open spec fn scrolled<V>(p: PpuModel<V>) -> PpuModel<V> {
    let dot = p.raster.dot;
    let loopy = p.regs.loopy;
    let moved = if dot == 256 {
        LoopyRegister { v: y_incremented(loopy.v), ..loopy }
    } else if dot == 257 {
        loopy.horizontal_copied()
    } else if p.raster.scanline == 261 && 280 <= dot <= 304 {
        loopy.vertical_copied()
    } else {
        loopy
    };
    PpuModel { regs: PpuRegisters { loopy: moved, ..p.regs }, ..p }
}

/// The fetch pipeline of one dot, while rendering is on.
pub open spec fn pipeline_clocked<M: Mapper>(p: PpuModel<M::Model>) -> PpuModel<M::Model> {
    if rendering_in_progress(p) {
        scrolled(sprites_clocked::<M>(tiles_fetched::<M>(p)))
    } else {
        p
    }
}

/// The palette entry behind transparent pixels. With rendering disabled, a
/// palette address left in `v` is presented directly.
pub open spec fn backdrop<V>(p: PpuModel<V>) -> int {
    if !p.gate.enabled && p.regs.loopy.v % 0x4000 >= 0x3f00 {
        palette_slot(p.regs.loopy.v)
    } else {
        0
    }
}

/// The background pixel of column `x`: transparent where it is not shown.
pub open spec fn bg_pixel<V>(p: PpuModel<V>, x: int) -> u8 {
    if p.gate.enabled && p.regs.mask.show_background() && (x >= 8
        || p.regs.mask.leftmost_8pxl_background()) {
        p.bg.pixel(0x8000u16 >> p.regs.loopy.x)
    } else {
        0
    }
}

/// The sprite shown at column `x`, if any.
pub open spec fn shown_sprite<V>(p: PpuModel<V>, x: int) -> Option<SpriteUnit> {
    if p.gate.enabled && p.regs.mask.show_sprites() && (x >= 8
        || p.regs.mask.leftmost_8pxl_sprite()) {
        first_opaque(p.sprites.current, 0)
    } else {
        None
    }
}

/// The palette entry of column `x`: the sprite's where it is opaque and either
/// in front or over a transparent background, else the background's, else the
/// backdrop.
pub open spec fn palette_choice<V>(p: PpuModel<V>, x: int) -> int {
    let bg = bg_pixel(p, x);
    match shown_sprite(p, x) {
        Some(unit) => if bg == 0 || unit.attributes & 0x20 == 0 {
            0x10 + unit.attributes % 4 * 4 + unit.pixel()
        } else {
            p.bg.palette(0x8000u16 >> p.regs.loopy.x) * 4 + bg
        },
        None => if bg == 0 {
            backdrop(p)
        } else {
            p.bg.palette(0x8000u16 >> p.regs.loopy.x) * 4 + bg
        },
    }
}

/// Three quarters of a channel's brightness.
pub open spec fn attenuated(channel: u8) -> u8 {
    (channel as int * 3 / 4) as u8
}

pub open spec fn attenuated_if(channel: u8, on: bool) -> u8 {
    if on {
        attenuated(channel)
    } else {
        channel
    }
}

/// The colour of a palette byte. Greyscale masks the colour number; each
/// emphasis bit attenuates the two channels it does not emphasise.
pub open spec fn color_of(mask: MaskRegister, palette_value: u8) -> (u8, u8, u8) {
    let index = if mask.is_grayscale() {
        palette_value as int / 16 % 4 * 16
    } else {
        palette_value as int % 64
    };
    let rgb = system_color(index);
    (
        attenuated_if(attenuated_if(rgb.0, mask.emphasise_green()), mask.emphasise_blue()),
        attenuated_if(attenuated_if(rgb.1, mask.emphasise_red()), mask.emphasise_blue()),
        attenuated_if(attenuated_if(rgb.2, mask.emphasise_red()), mask.emphasise_green()),
    )
}

/// One pixel of the picture: colour, sprite zero hit, and the sprite shifters
/// moving on.
pub open spec fn pixel_rendered<V>(p: PpuModel<V>) -> PpuModel<V> {
    let x = p.raster.dot - 1;
    let sprite = shown_sprite(p, x);
    let hit = sprite is Some && sprite->0.oam_index == 0 && bg_pixel(p, x) != 0 && x != 255;
    let color = color_of(p.regs.mask, p.mem.palette_table[palette_choice(p, x)]);
    let q = PpuModel {
        frame: pixel_set(p.frame, x, p.raster.scanline as int, color),
        sprites: if p.gate.enabled {
            SpriteUnits { current: all_shifted(p.sprites.current), ..p.sprites }
        } else {
            p.sprites
        },
        ..p
    };
    if hit {
        with_status(q, with_bits(p.regs.status.bits, 0x40, true))
    } else {
        q
    }
}

/// Pixels are produced on visible dots whether or not rendering is on.
pub open spec fn video_clocked<V>(p: PpuModel<V>) -> PpuModel<V> {
    if p.raster.scanline < 240 && 1 <= p.raster.dot <= 256 {
        pixel_rendered(p)
    } else {
        p
    }
}

/// Vertical blanking begins on scanline 241 and ends on the pre-render line.
pub open spec fn blanking_clocked<V>(p: PpuModel<V>) -> PpuModel<V> {
    if p.raster.scanline == 241 && p.raster.dot == 0 {
        let nmi = NmiLine { frame_ready: true, suppress_vblank: false, ..p.nmi };
        if p.nmi.suppress_vblank {
            PpuModel { nmi, ..p }
        } else {
            let flagged = with_status(p, with_bits(p.regs.status.bits, 0x80, true));
            PpuModel {
                nmi: if p.regs.ctrl.generate_vblank_nmi() {
                    nmi.raised(p.raster.total_dots, 3)
                } else {
                    nmi
                },
                ..flagged
            }
        }
    } else if p.raster.scanline == 261 && p.raster.dot == 0 {
        with_status(
            p,
            with_bits(
                with_bits(with_bits(p.regs.status.bits, 0x80, false), 0x40, false),
                0x20,
                false,
            ),
        )
    } else {
        p
    }
}

/// The end of a dot: at a rendered line's end the filled sprite shifters become
/// active, and the raster moves on.
pub open spec fn dot_ended<V>(p: PpuModel<V>) -> PpuModel<V> {
    PpuModel {
        sprites: if p.raster.at_line_end() && rendering_in_progress(p) {
            SpriteUnits { current: p.sprites.next, next: empty_units() }
        } else {
            p.sprites
        },
        raster: p.raster.advanced(),
        ..p
    }
}

/// One dot.
#[verifier::opaque]
pub open spec fn dot_clocked<M: Mapper>(p: PpuModel<M::Model>) -> PpuModel<M::Model> {
    dot_ended(blanking_clocked(video_clocked(pipeline_clocked::<M>(dot_begun(p)))))
}

/// `n` dots.
pub open spec fn dots_clocked<M: Mapper>(p: PpuModel<M::Model>, n: nat) -> PpuModel<M::Model>
    decreases n,
{
    if n == 0 {
        p
    } else {
        dot_clocked::<M>(dots_clocked::<M>(p, (n - 1) as nat))
    }
}

/// Whether any of `n` dots completes a frame.
pub open spec fn frame_completed<M: Mapper>(p: PpuModel<M::Model>, n: nat) -> bool
    decreases n,
{
    n > 0 && (frame_completed::<M>(p, (n - 1) as nat) || dot_begun(
        dots_clocked::<M>(p, (n - 1) as nat),
    ).raster.completes_frame())
}

// ---- Registers --------------------------------------------------------------------------

/// The CPU or the chip drives the I/O bus.
pub open spec fn io_driven<V>(p: PpuModel<V>, value: u8, bits: u8) -> PpuModel<V> {
    PpuModel { io: p.io.driven(value, bits, p.raster.total_dots), ..p }
}

/// A register write is noted while the picture is being drawn.
pub open spec fn write_noted<V>(p: PpuModel<V>, register: u16) -> PpuModel<V> {
    if p.raster.scanline < 240 {
        PpuModel {
            probe: ProbeDiagnostics {
                visible_register_writes: p.probe.visible_register_writes.wrapping_add(1),
                last_register: register,
                last_scanline: p.raster.scanline,
                last_dot: p.raster.dot as usize,
                ..p.probe
            },
            ..p
        }
    } else {
        p
    }
}

pub open spec fn write_begun<V>(p: PpuModel<V>, register: u16, value: u8) -> PpuModel<V> {
    write_noted(io_driven(p, value, 0xff), register)
}

/// $2000. Enabling the interrupt during vertical blanking raises an edge, seen
/// after the following instruction; disabling it withdraws one that has not
/// reached the CPU.
pub open spec fn ctrl_written<V>(p: PpuModel<V>, value: u8) -> PpuModel<V> {
    let q = write_begun(p, 0x2000, value);
    let ctrl = ControlRegister { bits: value };
    let now = p.raster.total_dots;
    PpuModel {
        regs: PpuRegisters { ctrl, loopy: p.regs.loopy.ctrl_written(value), ..p.regs },
        nmi: if !ctrl.generate_vblank_nmi() {
            p.nmi.withdrawn(now)
        } else if !p.regs.ctrl.generate_vblank_nmi() && p.regs.status.is_in_vblank() && !(
        p.raster.scanline == 261 && p.raster.dot == 0) {
            p.nmi.raised(now, 6)
        } else {
            p.nmi
        },
        ..q
    }
}

/// $2001.
pub open spec fn mask_written<V>(p: PpuModel<V>, value: u8) -> PpuModel<V> {
    let mask = MaskRegister { bits: value };
    PpuModel {
        regs: PpuRegisters { mask, ..p.regs },
        gate: p.gate.requested(rendering_requested(mask), p.raster.total_dots),
        ..write_begun(p, 0x2001, value)
    }
}

/// $2002: the flags drive bits 7-5; bits 4-0 keep their open-bus values.
pub open spec fn status_value<V>(p: PpuModel<V>) -> u8 {
    io_driven(p, p.regs.status.bits, 0xe0).io.value
}

/// Reading $2002 clears the blanking flag and the shared write latch,
/// withdraws an edge that has not reached the CPU, and just before blanking
/// suppresses it for this frame.
pub open spec fn status_read<V>(p: PpuModel<V>) -> PpuModel<V> {
    PpuModel {
        regs: PpuRegisters {
            status: StatusRegister { bits: with_bits(p.regs.status.bits, 0x80, false) },
            loopy: LoopyRegister { write_latch: false, ..p.regs.loopy },
            ..p.regs
        },
        nmi: NmiLine {
            suppress_vblank: p.nmi.suppress_vblank || (p.raster.scanline == 241 && p.raster.dot
                == 0),
            ..p.nmi.withdrawn(p.raster.total_dots)
        },
        ..io_driven(p, p.regs.status.bits, 0xe0)
    }
}

/// $2003.
pub open spec fn oam_addr_written<V>(p: PpuModel<V>, value: u8) -> PpuModel<V> {
    PpuModel { regs: PpuRegisters { oam_addr: value, ..p.regs }, ..write_begun(p, 0x2003, value) }
}

/// A byte stored at OAMADDR, which moves on.
pub open spec fn oam_stored<V>(p: PpuModel<V>, value: u8) -> PpuModel<V> {
    PpuModel {
        mem: PpuMemory {
            oam_data: p.mem.oam_data.update(p.regs.oam_addr as int, value),
            ..p.mem
        },
        regs: PpuRegisters { oam_addr: p.regs.oam_addr.wrapping_add(1), ..p.regs },
        ..p
    }
}

/// $2004 write. Rendering owns OAM: the write is then discarded and the address
/// bumped by four.
pub open spec fn oam_data_written<V>(p: PpuModel<V>, value: u8) -> PpuModel<V> {
    let q = write_begun(p, 0x2004, value);
    if rendering_in_progress(p) {
        PpuModel {
            regs: PpuRegisters { oam_addr: p.regs.oam_addr.wrapping_add(4), ..p.regs },
            ..q
        }
    } else {
        oam_stored(q, value)
    }
}

/// $2004 read. Attribute bytes implement only bits 7-5 and 1-0.
pub open spec fn oam_data_value<V>(p: PpuModel<V>) -> u8 {
    if rendering_in_progress(p) {
        p.regs.oam_data_bus
    } else if p.regs.oam_addr % 4 == 2 {
        p.mem.oam_data[p.regs.oam_addr as int] & 0xe3
    } else {
        p.mem.oam_data[p.regs.oam_addr as int]
    }
}

/// $2005.
pub open spec fn scroll_written<V>(p: PpuModel<V>, value: u8) -> PpuModel<V> {
    PpuModel {
        regs: PpuRegisters { loopy: p.regs.loopy.scroll_written(value), ..p.regs },
        ..write_begun(p, 0x2005, value)
    }
}

/// The mapper sees the current address.
pub open spec fn address_shown<M: Mapper>(p: PpuModel<M::Model>) -> PpuModel<M::Model> {
    addressed::<M>(p, p.regs.loopy.v)
}

/// $2006. The second write puts the address on the bus.
pub open spec fn addr_written<M: Mapper>(p: PpuModel<M::Model>, value: u8) -> PpuModel<M::Model> {
    let q = PpuModel {
        regs: PpuRegisters { loopy: p.regs.loopy.addr_written(value), ..p.regs },
        ..write_begun(p, 0x2006, value)
    };
    if p.regs.loopy.write_latch {
        address_shown::<M>(q)
    } else {
        q
    }
}

/// The address after a $2007 access: during rendering the scrolling carry
/// chain is active and both axes step; otherwise it moves by 1 or 32.
pub open spec fn vram_addr_incremented<V>(p: PpuModel<V>) -> PpuModel<V> {
    if rendering_in_progress(p) {
        with_v(p, y_incremented(x_incremented(p.regs.loopy.v)))
    } else {
        PpuModel {
            regs: PpuRegisters {
                loopy: p.regs.loopy.incremented(p.regs.ctrl.vram_addr_increment()),
                ..p.regs
            },
            ..p
        }
    }
}

/// $2007 write.
pub open spec fn data_written<M: Mapper>(p: PpuModel<M::Model>, value: u8) -> PpuModel<M::Model> {
    let q = write_begun(p, 0x2007, value);
    address_shown::<M>(vram_addr_incremented(after_write::<M>(q, p.regs.loopy.v, value)))
}

/// The six bits a palette byte drives.
pub open spec fn palette_read_bits(mask: MaskRegister, value: u8) -> u8 {
    if mask.is_grayscale() {
        value & 0x30
    } else {
        value & 0x3f
    }
}

/// A $2007 read below the palettes: the buffered byte comes back, and the byte
/// at the address refills the buffer.
pub open spec fn buffered_read<M: Mapper>(p: PpuModel<M::Model>) -> (PpuModel<M::Model>, u8) {
    let addr = (p.regs.loopy.v % 0x4000) as u16;
    let q = vram_addr_incremented(p);
    let read = after_read::<M>(q, addr);
    let done = PpuModel {
        regs: PpuRegisters { internal_data_buf: read_value::<M>(q, addr), ..read.regs },
        ..read
    };
    (
        address_shown::<M>(io_driven(done, p.regs.internal_data_buf, 0xff)),
        p.regs.internal_data_buf,
    )
}

/// A $2007 read of a palette: the byte comes back at once on six lines, and the
/// nametable byte beneath refills the buffer.
pub open spec fn palette_read<M: Mapper>(p: PpuModel<M::Model>) -> (PpuModel<M::Model>, u8) {
    let addr = (p.regs.loopy.v % 0x4000) as u16;
    let q = vram_addr_incremented(p);
    let value = palette_read_bits(p.regs.mask, read_value::<M>(q, addr));
    let driven = io_driven(after_read::<M>(q, addr), value, 0x3f);
    let beneath = (addr - 0x1000) as u16;
    let read = after_read::<M>(driven, beneath);
    let done = PpuModel {
        regs: PpuRegisters { internal_data_buf: read_value::<M>(driven, beneath), ..read.regs },
        ..read
    };
    (address_shown::<M>(done), driven.io.value)
}

/// $2007 read.
pub open spec fn data_read<M: Mapper>(p: PpuModel<M::Model>) -> (PpuModel<M::Model>, u8) {
    if p.regs.loopy.v % 0x4000 < 0x3f00 {
        buffered_read::<M>(p)
    } else {
        palette_read::<M>(p)
    }
}

/// One byte of an OAM DMA. Rendering owns OAM: the byte then only drives the
/// I/O bus.
pub open spec fn dma_byte_written<V>(p: PpuModel<V>, value: u8) -> PpuModel<V> {
    if rendering_in_progress(p) {
        io_driven(p, value, 0xff)
    } else {
        oam_stored(p, value)
    }
}

pub open spec fn dma_noted<V>(p: PpuModel<V>) -> PpuModel<V> {
    PpuModel {
        probe: ProbeDiagnostics {
            oam_dma_count: p.probe.oam_dma_count.wrapping_add(1),
            ..p.probe
        },
        ..p
    }
}

} // verus!
