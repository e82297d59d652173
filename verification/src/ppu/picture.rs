//! What the picture chip fetches and shows, in terms of tiles, quadrants and
//! pixels.

use crate::bits::{
    bit, lemma_flag, lemma_masks, lemma_operators, lemma_scroll_fields, lemma_shifter, lemma_tests,
    lemma_word_masks,
};
use crate::mapper::Mapper;
use crate::ppu::background::{spread, Background};
use crate::ppu::memory::{palette_slot, MemoryModel};
use crate::ppu::model::{
    addr_written, attribute_addr, attribute_bits, backdrop, background_clocked, bg_pattern_addr,
    bg_pixel, color_of, ctrl_written, dot_ended, mask_written, palette_choice, palette_read_bits,
    pipeline_clocked, pixel_rendered, read_value, rendering_in_progress, shown_sprite,
    sprite_fetch_clocked, sprites_clocked, status_value, target_line, tile_addr, tiles_fetched,
    video_clocked, vram_addr_incremented, with_oam_bus, write_begun, PpuModel,
};
use crate::ppu::registers::control::ControlRegister;
use crate::ppu::registers::loopy::{x_incremented, y_incremented, LoopyRegister};
use crate::ppu::registers::mask::MaskRegister;
use crate::ppu::sprites::{
    covers_line, first_opaque, reversal_mirrors_every_bit, EvaluationModel, SpriteUnit,
};
use crate::render::frame::{pixel_at, set_pixel_changes_one_pixel, FRAME_BYTES};
use crate::render::palette::system_color;
use vstd::prelude::*;

verus! {

// ---- The scroll address as a place ---------------------------------------------

/// The tile column an address points at, of the 32 of its nametable.
pub open spec fn tile_column(v: u16) -> int {
    v as int % 32
}

/// The tile row an address points at.
pub open spec fn tile_row(v: u16) -> int {
    v as int / 32 % 32
}

/// The pixel row inside the tile.
pub open spec fn fine_row(v: u16) -> int {
    v as int / 0x1000 % 8
}

/// Where the nametable of an address begins.
pub open spec fn nametable_base(v: u16) -> int {
    0x2000 + v as int / 0x400 % 4 * 0x400
}

// ---- Background fetches ----------------------------------------------------------

/// The four quadrants of an attribute byte: a tile takes the bit pair of the
/// 2 by 2 tile block it lies in, of the four blocks that the byte covers.
pub open spec fn quadrant(attribute: u8, column: int, row: int) -> int {
    if row % 4 < 2 {
        if column % 4 < 2 {
            attribute as int % 4
        } else {
            attribute as int / 4 % 4
        }
    } else {
        if column % 4 < 2 {
            attribute as int / 16 % 4
        } else {
            attribute as int / 64
        }
    }
}

#[verifier::rlimit(50)]
proof fn lemma_quadrant(attribute: u8, v: u16)
    ensures
        attribute_bits(attribute, v) as int == quadrant(attribute, tile_column(v), tile_row(v)),
{
    lemma_scroll_fields(v, 0, 0);
    lemma_masks(attribute);
    lemma_masks(attribute >> 0);
    lemma_masks(attribute >> 2);
    lemma_masks(attribute >> 4);
    lemma_masks(attribute >> 6);
    let right = v / 2 % 2;
    let below = v / 0x40 % 2;
    assert(right == 0 || right == 1);
    assert(below == 0 || below == 1);
    assert((right == 0) == (tile_column(v) % 4 < 2));
    assert((below == 0) == (tile_row(v) % 4 < 2));
}

#[verifier::rlimit(50)]
proof fn lemma_fetch_addresses(v: u16)
    ensures
        attribute_addr(v) as int == nametable_base(v) + 0x3c0 + tile_row(v) / 4 * 8 + tile_column(v)
            / 4,
        tile_addr(v) as int == nametable_base(v) + tile_row(v) * 32 + tile_column(v),
{
    lemma_scroll_fields(v, 0, 0);
}

/// The third dot of a fetch reads the attribute byte, one for each block of 4
/// by 4 tiles from $3C0 of the nametable on, and keeps the bit pair of the
/// tile's own quadrant.
#[verifier::rlimit(50)]
pub proof fn a_tile_takes_the_palette_of_its_quadrant<M: Mapper>(p: PpuModel<M::Model>)
    requires
        p.raster.dot >= 1,
        p.raster.dot % 8 == 3,
    ensures
        ({
            let v = p.regs.loopy.v;
            let at = nametable_base(v) + 0x3c0 + tile_row(v) / 4 * 8 + tile_column(v) / 4;
            let byte = read_value::<M>(p, at as u16);
            let after = background_clocked::<M>(p);
            &&& after.bg.next_tile_attr as int == quadrant(byte, tile_column(v), tile_row(v))
            &&& after.bg == (Background {
                next_tile_attr: after.bg.next_tile_attr,
                ..p.bg.shifted()
            })
            &&& after.regs == p.regs && after.mem == p.mem
        }),
{
    let v = p.regs.loopy.v;
    let at = nametable_base(v) + 0x3c0 + tile_row(v) / 4 * 8 + tile_column(v) / 4;
    lemma_fetch_addresses(v);
    let byte = read_value::<M>(p, at as u16);
    let shifted = PpuModel { bg: p.bg.shifted(), ..p };
    assert(read_value::<M>(shifted, at as u16) == byte);
    lemma_quadrant(byte, v);
    assert((p.raster.dot - 1) % 8 == 2);
}

/// The first dot of a fetch puts the tile fetched before into the shifters and
/// reads the number of the next one from its cell of the nametable.
#[verifier::rlimit(50)]
pub proof fn a_tile_number_comes_from_its_cell<M: Mapper>(p: PpuModel<M::Model>)
    requires
        p.raster.dot >= 1,
        p.raster.dot % 8 == 1,
    ensures
        ({
            let v = p.regs.loopy.v;
            let at = nametable_base(v) + tile_row(v) * 32 + tile_column(v);
            let after = background_clocked::<M>(p);
            &&& after.bg == (Background {
                next_tile_id: read_value::<M>(p, at as u16),
                ..p.bg.shifted().reloaded()
            })
            &&& after.regs == p.regs && after.mem == p.mem
        }),
{
    let v = p.regs.loopy.v;
    let at = nametable_base(v) + tile_row(v) * 32 + tile_column(v);
    lemma_fetch_addresses(v);
    assert((p.raster.dot - 1) % 8 == 0);
    let q = PpuModel { bg: p.bg.shifted().reloaded(), ..p };
    assert(read_value::<M>(q, at as u16) == read_value::<M>(p, at as u16));
}

/// The fifth and the seventh dot read the tile's two planes: sixteen bytes a
/// tile, the high plane eight behind the low one, in the pattern table that
/// bit 4 of the control register picks.
#[verifier::rlimit(50)]
pub proof fn a_tile_row_comes_from_two_planes<M: Mapper>(p: PpuModel<M::Model>)
    requires
        p.raster.dot >= 1,
        p.raster.dot % 8 == 5 || p.raster.dot % 8 == 7,
    ensures
        ({
            let table = p.regs.ctrl.bits as int / 16 % 2 * 0x1000;
            let at = table + p.bg.next_tile_id * 16 + fine_row(p.regs.loopy.v);
            let after = background_clocked::<M>(p);
            &&& p.raster.dot % 8 == 5 ==> after.bg == (Background {
                next_tile_lo: read_value::<M>(p, at as u16),
                ..p.bg.shifted()
            })
            &&& p.raster.dot % 8 == 7 ==> after.bg == (Background {
                next_tile_hi: read_value::<M>(p, (at + 8) as u16),
                ..p.bg.shifted()
            })
            &&& after.regs == p.regs && after.mem == p.mem
        }),
{
    let table = p.regs.ctrl.bits as int / 16 % 2 * 0x1000;
    let at = table + p.bg.next_tile_id * 16 + fine_row(p.regs.loopy.v);
    lemma_tests(p.regs.ctrl.bits);
    assert(at == bg_pattern_addr(p.regs, p.bg.next_tile_id));
    let shifted = PpuModel { bg: p.bg.shifted(), ..p };
    assert(read_value::<M>(shifted, at as u16) == read_value::<M>(p, at as u16));
    assert(read_value::<M>(shifted, (at + 8) as u16) == read_value::<M>(p, (at + 8) as u16));
}

/// What the shifters show `f` pixels from the left.
pub open spec fn shown_at(bg: Background, f: int) -> (u8, u8) {
    (bg.pixel(0x8000u16 >> (f as u8)), bg.palette(0x8000u16 >> (f as u8)))
}

/// Each dot moves the picture one pixel to the left.
pub proof fn a_shift_moves_one_pixel(bg: Background, f: int)
    requires
        0 <= f < 15,
    ensures
        shown_at(bg.shifted(), f) == shown_at(bg, f + 1),
{
    lemma_shifter(bg.pattern_lo, 0, f as u16);
    lemma_shifter(bg.pattern_hi, 0, f as u16);
    lemma_shifter(bg.attr_lo, 0, f as u16);
    lemma_shifter(bg.attr_hi, 0, f as u16);
}

/// A reload puts the fetched tile behind the one that shows: pixel `i` of it
/// joins bit 7 - `i` of its planes, in the fetched palette. The eight pixels
/// before it stay.
#[verifier::rlimit(50)]
pub proof fn a_reload_appends_the_fetched_tile(bg: Background, i: int)
    requires
        0 <= i < 8,
    ensures
        shown_at(bg.reloaded(), i) == shown_at(bg, i),
        shown_at(bg.reloaded(), 8 + i).0 as int == (if bit(bg.next_tile_hi, (7 - i) as u8) {
            2int
        } else {
            0
        }) + (if bit(bg.next_tile_lo, (7 - i) as u8) {
            1int
        } else {
            0
        }),
        shown_at(bg.reloaded(), 8 + i).1 as int == bg.next_tile_attr as int % 4,
{
    let one = spread(bg.next_tile_attr & 1 != 0);
    let two = spread(bg.next_tile_attr & 2 != 0);
    lemma_shifter(bg.pattern_lo, bg.next_tile_lo as u16, i as u16);
    lemma_shifter(bg.pattern_hi, bg.next_tile_hi as u16, i as u16);
    lemma_shifter(bg.attr_lo, one as u16, i as u16);
    lemma_shifter(bg.attr_hi, two as u16, i as u16);
    lemma_shifter(bg.pattern_lo, bg.next_tile_lo as u16, (8 + i) as u16);
    lemma_shifter(bg.pattern_hi, bg.next_tile_hi as u16, (8 + i) as u16);
    lemma_shifter(bg.attr_lo, one as u16, (8 + i) as u16);
    lemma_shifter(bg.attr_hi, two as u16, (8 + i) as u16);
    lemma_operators(0, 0, (7 - i) as u8);
    lemma_masks(bg.next_tile_attr);
}

// ---- Scrolling --------------------------------------------------------------------

#[verifier::rlimit(50)]
proof fn lemma_fetches_step_the_column<M: Mapper>(p: PpuModel<M::Model>)
    ensures
        tiles_fetched::<M>(p).raster == p.raster,
        tiles_fetched::<M>(p).regs.loopy == (LoopyRegister {
            v: if p.raster.dot as int % 8 == 0 && (8 <= p.raster.dot <= 256 || 328 <= p.raster.dot
                <= 336) {
                x_incremented(p.regs.loopy.v)
            } else {
                p.regs.loopy.v
            },
            ..p.regs.loopy
        }),
{
    lemma_last_of_eight(p.raster.dot as int);
}

proof fn lemma_last_of_eight(dot: int)
    ensures
        (dot - 1) % 8 == 7 <==> dot % 8 == 0,
{
}

#[verifier::rlimit(50)]
proof fn lemma_sprites_leave_the_address<M: Mapper>(p: PpuModel<M::Model>)
    ensures
        sprites_clocked::<M>(p).raster == p.raster,
        sprites_clocked::<M>(p).regs.loopy == p.regs.loopy,
{
}

/// While rendering, the scroll address steps a column right every eighth dot of
/// the two fetch stretches, a row down behind the last visible dot, takes the
/// horizontal part of the scroll position at dot 257 and the vertical part over
/// dots 280 to 304 of the pre-render line, and otherwise rests.
#[verifier::rlimit(50)]
pub proof fn when_the_scroll_address_moves<M: Mapper>(p: PpuModel<M::Model>)
    requires
        rendering_in_progress(p),
    ensures
        ({
            let dot = p.raster.dot as int;
            let before = p.regs.loopy;
            let after = pipeline_clocked::<M>(p).regs.loopy;
            &&& after.t == before.t && after.x == before.x
            &&& after.write_latch == before.write_latch
            &&& after.v == if dot == 256 {
                y_incremented(x_incremented(before.v))
            } else if dot == 257 {
                before.horizontal_copied().v
            } else if 280 <= dot <= 304 && p.raster.scanline == 261 {
                before.vertical_copied().v
            } else if dot % 8 == 0 && (8 <= dot < 256 || 328 <= dot <= 336) {
                x_incremented(before.v)
            } else {
                before.v
            }
        }),
{
    lemma_fetches_step_the_column::<M>(p);
    let q = tiles_fetched::<M>(p);
    lemma_sprites_leave_the_address::<M>(q);
}

/// The horizontal reload takes the column and the horizontal nametable of the
/// scroll position and leaves the rows; the vertical one does the reverse.
#[verifier::rlimit(50)]
pub proof fn each_reload_copies_its_own_axis(r: LoopyRegister)
    ensures
        ({
            let across = r.horizontal_copied();
            let down = r.vertical_copied();
            &&& tile_column(across.v) == tile_column(r.t)
            &&& across.v as int / 0x400 % 2 == r.t as int / 0x400 % 2
            &&& tile_row(across.v) == tile_row(r.v)
            &&& fine_row(across.v) == fine_row(r.v)
            &&& across.v as int / 0x800 % 2 == r.v as int / 0x800 % 2
            &&& tile_column(down.v) == tile_column(r.v)
            &&& down.v as int / 0x400 % 2 == r.v as int / 0x400 % 2
            &&& tile_row(down.v) == tile_row(r.t)
            &&& fine_row(down.v) == fine_row(r.t)
            &&& down.v as int / 0x800 % 2 == r.t as int / 0x800 % 2
        }),
{
    lemma_scroll_fields(r.v, r.t, 0);
}

/// The low two bits of the control register pick the nametable of the scroll
/// position, and nothing else of it moves.
pub proof fn control_writes_pick_the_nametable<V>(p: PpuModel<V>, value: u8)
    ensures
        ({
            let before = p.regs.loopy;
            let after = ctrl_written(p, value).regs.loopy;
            &&& after.t as int / 0x400 % 4 == value as int % 4
            &&& tile_column(after.t) == tile_column(before.t)
            &&& tile_row(after.t) == tile_row(before.t)
            &&& after.t as int / 0x1000 == before.t as int / 0x1000
            &&& after.v == before.v && after.x == before.x
            &&& after.write_latch == before.write_latch
            &&& ctrl_written(p, value).regs.ctrl.bits == value
        }),
{
    lemma_scroll_fields(0, p.regs.loopy.t, value as u16);
}

/// A data access outside rendering moves the address by one, or by 32 while bit
/// 2 of the control register is set, within the 16 KB of the bus.
pub proof fn data_accesses_step_by_one_or_a_row<V>(p: PpuModel<V>)
    requires
        !rendering_in_progress(p),
    ensures
        vram_addr_incremented(p).regs.loopy.v as int == (p.regs.loopy.v
            + if p.regs.ctrl.bits as int / 4 % 2 == 1 {
            32int
        } else {
            1
        }) % 0x4000,
{
    lemma_tests(p.regs.ctrl.bits);
    lemma_word_masks(p.regs.loopy.v.wrapping_add(32));
    lemma_word_masks(p.regs.loopy.v.wrapping_add(1));
}

// ---- The control and mask registers --------------------------------------------

/// The bits of the control register.
pub proof fn control_bits_have_their_meanings(ctrl: ControlRegister)
    ensures
        ctrl.nametable_addr() == 0x2000 + ctrl.bits as int % 4 * 0x400,
        ctrl.sprt_pattern_addr() == ctrl.bits as int / 8 % 2 * 0x1000,
        ctrl.bknd_pattern_addr() == ctrl.bits as int / 16 % 2 * 0x1000,
        ctrl.sprite_size_16() == (ctrl.bits as int / 32 % 2 == 1),
        ctrl.generate_vblank_nmi() == (ctrl.bits >= 128),
{
    lemma_tests(ctrl.bits);
}

/// The bits of the mask register.
pub proof fn mask_bits_have_their_meanings(mask: MaskRegister)
    ensures
        mask.is_grayscale() == (mask.bits as int % 2 == 1),
        mask.leftmost_8pxl_background() == (mask.bits as int / 2 % 2 == 1),
        mask.leftmost_8pxl_sprite() == (mask.bits as int / 4 % 2 == 1),
        mask.show_background() == (mask.bits as int / 8 % 2 == 1),
        mask.show_sprites() == (mask.bits as int / 16 % 2 == 1),
        mask.emphasise_red() == (mask.bits as int / 32 % 2 == 1),
        mask.emphasise_green() == (mask.bits as int / 64 % 2 == 1),
        mask.emphasise_blue() == (mask.bits >= 128),
{
    lemma_tests(mask.bits);
}

/// A status read shows the three flags in its top bits and what is left on the
/// I/O bus below them.
pub proof fn status_shows_three_flags<V>(p: PpuModel<V>)
    ensures
        status_value(p) as int / 32 == p.regs.status.bits as int / 32,
        status_value(p) as int % 32 == p.io.decayed(p.raster.total_dots).value as int % 32,
{
    lemma_operators(p.io.decayed(p.raster.total_dots).value, p.regs.status.bits, 0);
}

/// A palette byte drives six bits, of which greyscale leaves the upper two.
pub proof fn greyscale_reads_lose_the_hue(mask: MaskRegister, value: u8)
    ensures
        palette_read_bits(mask, value) as int == if mask.bits as int % 2 == 1 {
            value as int / 16 % 4 * 16
        } else {
            value as int % 64
        },
{
    lemma_tests(mask.bits);
    lemma_masks(value);
}

// ---- Pixels -------------------------------------------------------------------------

/// The background shows where bit 3 of the mask asks for it, and in the
/// leftmost eight columns only with bit 1; bits 4 and 2 rule sprites alike.
pub proof fn the_mask_clips_both_layers<V>(p: PpuModel<V>, x: int)
    ensures
        ({
            let bits = p.regs.mask.bits as int;
            let background = p.gate.enabled && bits / 8 % 2 == 1 && (x >= 8 || bits / 2 % 2 == 1);
            let sprites = p.gate.enabled && bits / 16 % 2 == 1 && (x >= 8 || bits / 4 % 2 == 1);
            &&& bg_pixel(p, x) == if background {
                shown_at(p.bg, p.regs.loopy.x as int).0
            } else {
                0
            }
            &&& shown_sprite(p, x) == if sprites {
                first_opaque(p.sprites.current, 0)
            } else {
                None
            }
        }),
{
    lemma_tests(p.regs.mask.bits);
}

/// Where both layers are opaque, bit 5 of the sprite's attributes puts it
/// behind the background. Background entries are 0 to 15 and sprite entries 16
/// to 31, four to a palette; where nothing shows, rendering shows entry 0.
pub proof fn priority_picks_the_layer<V>(p: PpuModel<V>, x: int)
    ensures
        ({
            let bg = bg_pixel(p, x) as int;
            let behind = shown_at(p.bg, p.regs.loopy.x as int).1 * 4 + bg;
            let choice = palette_choice(p, x);
            &&& shown_sprite(p, x) is None && bg > 0 ==> choice == behind
            &&& shown_sprite(p, x) is None && bg == 0 && p.gate.enabled ==> choice == 0
            &&& shown_sprite(p, x) matches Some(unit) ==> {
                let front = 16 + unit.attributes as int % 4 * 4 + unit.pixel();
                &&& bg == 0 ==> choice == front
                &&& unit.attributes as int / 32 % 2 == 0 ==> choice == front
                &&& bg > 0 && unit.attributes as int / 32 % 2 == 1 ==> choice == behind
            }
        }),
{
    if shown_sprite(p, x) is Some {
        lemma_masks(shown_sprite(p, x)->0.attributes);
    }
}

/// With rendering off, a palette address left in the address register shows its
/// own entry, and any other entry 0.
pub proof fn an_idle_screen_shows_the_addressed_entry<V>(p: PpuModel<V>, x: int)
    requires
        !p.gate.enabled,
    ensures
        palette_choice(p, x) == if p.regs.loopy.v as int % 0x4000 >= 0x3f00 {
            palette_slot(p.regs.loopy.v)
        } else {
            0
        },
{
}

/// Palette memory repeats every 32 bytes, and of the sprite half the first
/// entry of each palette is that of the background half.
pub proof fn palette_memory_repeats(addr: u16)
    ensures
        palette_slot(addr) == if addr as int % 4 == 0 {
            addr as int % 16
        } else {
            addr as int % 32
        },
{
    let a = addr as int;
    if a % 4 == 0 {
        assert(a % 32 % 4 == 0);
        assert(a % 32 < 16 ==> a % 16 == a % 32);
        assert(a % 32 >= 16 ==> a % 16 == a % 32 - 16);
    } else {
        assert(a % 32 % 4 != 0);
    }
}

/// How often the emphasis bits attenuate red, green and blue: each bit does it
/// to the two channels other than its own.
pub open spec fn attenuations(mask: MaskRegister) -> (int, int, int) {
    let red = mask.bits as int / 32 % 2;
    let green = mask.bits as int / 64 % 2;
    let blue = mask.bits as int / 128;
    (green + blue, red + blue, red + green)
}

/// A channel attenuated `n` times, each time to three quarters.
pub open spec fn dimmed(channel: u8, n: int) -> int {
    if n == 0 {
        channel as int
    } else if n == 1 {
        channel * 3 / 4
    } else {
        channel * 3 / 4 * 3 / 4
    }
}

proof fn lemma_hue_dropped(value: u8)
    ensures
        value as int % 64 / 16 * 16 == value as int / 16 % 4 * 16,
{
}

/// A palette byte's colour: its low six bits name it, greyscale drops the low
/// four of them, and emphasis dims the channels it does not name.
#[verifier::rlimit(50)]
pub proof fn colours_follow_the_mask(mask: MaskRegister, value: u8)
    ensures
        ({
            let named = if mask.bits as int % 2 == 1 {
                system_color(value as int % 64 / 16 * 16)
            } else {
                system_color(value as int % 64)
            };
            let shown = color_of(mask, value);
            let times = attenuations(mask);
            &&& shown.0 as int == dimmed(named.0, times.0)
            &&& shown.1 as int == dimmed(named.1, times.1)
            &&& shown.2 as int == dimmed(named.2, times.2)
        }),
{
    mask_bits_have_their_meanings(mask);
    lemma_hue_dropped(value);
}

/// Sprite zero hits exactly where it shows over an opaque background pixel, but
/// never in the last column. The hit sets bit 6 of the status register and no
/// other.
pub proof fn sprite_zero_hits_where_both_layers_show<V>(p: PpuModel<V>, k: u8)
    requires
        p.raster.dot >= 1,
        k < 8,
    ensures
        ({
            let x = p.raster.dot - 1;
            let sprite = shown_sprite(p, x);
            let hit = sprite is Some && sprite->0.oam_index == 0 && bg_pixel(p, x) > 0 && x < 255;
            p.raster.dot <= 256 ==> bit(pixel_rendered(p).regs.status.bits, k) == (bit(
                p.regs.status.bits,
                k,
            ) || (k == 6 && hit))
        }),
{
    lemma_masks(0);
    lemma_flag(p.regs.status.bits, 0x40, 6, k);
}

// ---- Sprites ------------------------------------------------------------------------

/// Of the opaque sprites the one in the lowest slot shows.
pub proof fn the_lowest_slot_shows(units: Seq<SpriteUnit>, from: int)
    requires
        0 <= from <= units.len(),
    ensures
        match first_opaque(units, from) {
            Some(unit) => exists|i: int|
                from <= i < units.len() && #[trigger] units[i] == unit && unit.is_opaque() && forall|
                    j: int,
                |
                    from <= j < i ==> !(#[trigger] units[j]).is_opaque(),
            None => forall|j: int| from <= j < units.len() ==> !(#[trigger] units[j]).is_opaque(),
        },
    decreases units.len() - from,
{
    if from < units.len() && !units[from].is_opaque() {
        the_lowest_slot_shows(units, from + 1);
        if first_opaque(units, from) is Some {
            let unit = first_opaque(units, from)->0;
            let i = choose|i: int|
                from + 1 <= i < units.len() && #[trigger] units[i] == unit && unit.is_opaque() && forall|
                    j: int,
                |
                    from + 1 <= j < i ==> !(#[trigger] units[j]).is_opaque();
            assert(units[i] == unit);
        }
    } else if from < units.len() {
        assert(units[from] == first_opaque(units, from)->0);
    }
}

/// A sprite waits until its column has counted down, then shows the top bits of
/// its planes and moves them up one pixel a dot.
pub proof fn a_sprite_counts_down_then_shifts(unit: SpriteUnit)
    requires
        unit.valid,
    ensures
        unit.pixel() as int == unit.pattern_hi as int / 128 * 2 + unit.pattern_lo as int / 128,
        unit.is_opaque() <==> unit.x_counter == 0 && (unit.pattern_hi >= 128 || unit.pattern_lo
            >= 128),
        unit.x_counter > 0 ==> unit.shifted() == (SpriteUnit {
            x_counter: (unit.x_counter - 1) as u8,
            ..unit
        }),
        unit.x_counter == 0 ==> {
            &&& unit.shifted().pattern_hi as int == unit.pattern_hi as int % 128 * 2
            &&& unit.shifted().pattern_lo as int == unit.pattern_lo as int % 128 * 2
            &&& unit.shifted() == (SpriteUnit {
                pattern_hi: unit.shifted().pattern_hi,
                pattern_lo: unit.shifted().pattern_lo,
                ..unit
            })
        },
{
    lemma_masks(unit.pattern_hi);
    lemma_masks(unit.pattern_lo);
}

/// A sprite covers the eight or sixteen lines below its Y.
pub proof fn a_sprite_begins_below_its_y(y: u8, tall: bool, line: int)
    ensures
        covers_line(y, tall, line) <==> exists|row: int|
            #![trigger y + 1 + row]
            0 <= row < (if tall {
                16int
            } else {
                8
            }) && line == y + 1 + row,
{
    if covers_line(y, tall, line) {
        let row = line - y - 1;
        assert(line == y + 1 + row);
    }
}

/// A sprite's row: a small one takes eight rows of its tile in the table that
/// the control register picks, a tall one sixteen of a pair of tiles in the
/// table that the tile's low bit picks; bit 7 of the attributes counts them
/// from the bottom.
pub proof fn a_sprite_row_comes_from_its_tile(
    e: EvaluationModel,
    slot: int,
    tall: bool,
    table: u16,
    line: int,
)
    requires
        e.wf(),
        0 <= slot < e.count,
        table <= 0x1000,
        covers_line(e.secondary_oam[slot * 4], tall, line),
    ensures
        ({
            let y = e.secondary_oam[slot * 4];
            let tile = e.secondary_oam[slot * 4 + 1] as int;
            let attributes = e.secondary_oam[slot * 4 + 2];
            let row = line - y - 1;
            let height = if tall {
                16int
            } else {
                8
            };
            let drawn = if attributes >= 128 {
                height - 1 - row
            } else {
                row
            };
            e.pattern_addr(slot, tall, table, line) as int == if tall {
                tile % 2 * 0x1000 + (tile - tile % 2) * 16 + drawn / 8 * 16 + drawn % 8
            } else {
                table + tile * 16 + drawn
            }
        }),
{
    let attributes = e.secondary_oam[slot * 4 + 2];
    lemma_masks(attributes);
}

/// A slot's third and fourth bytes become the shifter's attributes and column,
/// at the first dot of its eight; the fifth and the seventh dot fetch its low
/// and its high plane, mirrored where bit 6 of the attributes says so.
#[verifier::rlimit(50)]
pub proof fn a_slot_fetches_its_sprite<M: Mapper>(p: PpuModel<M::Model>, slot: int, i: u8)
    requires
        p.eval.wf(),
        p.sprites.next.len() == 8,
        0 <= slot < p.eval.count,
        i < 8,
    ensures
        ({
            let after = sprite_fetch_clocked::<M>(p).sprites;
            let bytes = p.eval.secondary_oam;
            let low = p.eval.pattern_addr(
                slot,
                p.regs.ctrl.bits as int / 32 % 2 == 1,
                (p.regs.ctrl.bits as int / 8 % 2 * 0x1000) as u16,
                target_line(p.raster),
            );
            let from = if bytes[slot * 4 + 2] as int / 64 % 2 == 1 {
                (7 - i) as u8
            } else {
                i
            };
            &&& after.current == p.sprites.current
            &&& p.raster.dot == 257 + slot * 8 ==> after.next[slot] == (SpriteUnit {
                pattern_lo: 0,
                pattern_hi: 0,
                attributes: bytes[slot * 4 + 2],
                x_counter: bytes[slot * 4 + 3],
                oam_index: p.eval.secondary_indices[slot],
                valid: true,
            })
            &&& p.raster.dot == 261 + slot * 8 ==> {
                &&& after.next[slot] == (SpriteUnit {
                    pattern_lo: after.next[slot].pattern_lo,
                    ..p.sprites.next[slot]
                })
                &&& bit(after.next[slot].pattern_lo, i) == bit(read_value::<M>(p, low), from)
            }
            &&& p.raster.dot == 263 + slot * 8 ==> {
                &&& after.next[slot] == (SpriteUnit {
                    pattern_hi: after.next[slot].pattern_hi,
                    ..p.sprites.next[slot]
                })
                &&& bit(after.next[slot].pattern_hi, i) == bit(
                    read_value::<M>(p, low.wrapping_add(8)),
                    from,
                )
            }
        }),
{
    let dot = p.raster.dot as int;
    let phase = (dot - 257) % 8;
    lemma_tests(p.regs.ctrl.bits);
    lemma_masks(p.eval.secondary_oam[slot * 4 + 2]);
    let low = p.eval.pattern_addr(
        slot,
        p.regs.ctrl.sprite_size_16(),
        p.regs.ctrl.sprt_pattern_addr(),
        target_line(p.raster),
    );
    let q = with_oam_bus(p, p.eval.fetch_bus(p.mem.oam_data, slot, phase));
    assert(read_value::<M>(q, low) == read_value::<M>(p, low));
    assert(read_value::<M>(q, low.wrapping_add(8)) == read_value::<M>(p, low.wrapping_add(8)));
    reversal_mirrors_every_bit(read_value::<M>(p, low), (7 - i) as u8);
    reversal_mirrors_every_bit(read_value::<M>(p, low.wrapping_add(8)), (7 - i) as u8);
    if dot == 257 + slot * 8 {
        assert((dot - 257) / 8 == slot && phase == 0);
    } else if dot == 261 + slot * 8 {
        assert((dot - 257) / 8 == slot && phase == 4);
    } else if dot == 263 + slot * 8 {
        assert((dot - 257) / 8 == slot && phase == 6);
    }
}

/// One pair of evaluation dots: a byte is latched, then judged.
pub open spec fn pair_evaluated(e: EvaluationModel, oam: Seq<u8>, tall: bool, line: int) -> EvaluationModel {
    e.latched(oam).evaluated(tall, line)
}

/// While there is room, four pairs of dots copy a sprite that reaches the line
/// whole into the next slot and note its number; one pair passes over a sprite
/// that does not.
#[verifier::rlimit(50)]
pub proof fn evaluation_copies_the_sprites_on_the_line(
    e: EvaluationModel,
    oam: Seq<u8>,
    tall: bool,
    line: int,
)
    requires
        e.wf(),
        e.count < 8,
        e.n < 64,
        e.m == 0,
        oam.len() == 256,
    ensures
        ({
            let one = pair_evaluated(e, oam, tall, line);
            let two = pair_evaluated(one, oam, tall, line);
            let three = pair_evaluated(two, oam, tall, line);
            let four = pair_evaluated(three, oam, tall, line);
            let y = oam[e.n * 4];
            &&& covers_line(y, tall, line) ==> {
                &&& four.count == e.count + 1 && four.n == e.n + 1 && four.m == 0
                &&& four.secondary_indices == e.secondary_indices.update(
                    e.count as int,
                    e.n as u8,
                )
                &&& four.secondary_oam.subrange(e.count * 4, e.count * 4 + 4) =~= oam.subrange(
                    e.n * 4,
                    e.n * 4 + 4,
                )
                &&& four.secondary_oam.take(e.count * 4) =~= e.secondary_oam.take(e.count * 4)
            }
            &&& !covers_line(y, tall, line) ==> {
                &&& one.count == e.count && one.n == e.n + 1 && one.m == 0
                &&& one.secondary_oam == e.secondary_oam
                &&& one.secondary_indices == e.secondary_indices
            }
        }),
{
}

/// With eight sprites found, the scan goes on diagonally, one sprite and one
/// byte further each time, and takes any byte for a Y.
pub proof fn a_full_evaluation_goes_diagonally(
    e: EvaluationModel,
    oam: Seq<u8>,
    tall: bool,
    line: int,
)
    requires
        e.wf(),
        e.count == 8,
        e.n < 64,
        oam.len() == 256,
    ensures
        ({
            let after = pair_evaluated(e, oam, tall, line);
            &&& after.n == e.n + 1 && after.m as int == (e.m + 1) % 4
            &&& after.count == 8 && after.secondary_oam == e.secondary_oam
            &&& e.latched(oam).overflows(tall, line) <==> covers_line(
                oam[e.n * 4 + e.m],
                tall,
                line,
            )
        }),
{
}

/// Secondary memory cleared over the dots up to `n`.
pub open spec fn cleared_to(e: EvaluationModel, n: nat) -> EvaluationModel
    decreases n,
{
    if n == 0 {
        e
    } else {
        cleared_to(e, (n - 1) as nat).cleared(n as u16)
    }
}

/// Sixty-four dots fill secondary memory and start the scan afresh.
pub proof fn sixty_four_dots_clear_the_slots(e: EvaluationModel, n: nat, i: int)
    requires
        e.secondary_oam.len() == 32,
        n <= 64,
        0 <= i < 32,
    ensures
        cleared_to(e, n).secondary_oam.len() == 32,
        cleared_to(e, n).secondary_oam[i] == if 2 * i + 2 <= n {
            0xffu8
        } else {
            e.secondary_oam[i]
        },
        n > 0 ==> cleared_to(e, n).count == 0 && cleared_to(e, n).n == 0 && cleared_to(e, n).m == 0,
    decreases n,
{
    if n > 0 {
        sixty_four_dots_clear_the_slots(e, (n - 1) as nat, i);
    }
}

/// Sprites are chosen for the line that follows, the first line following the
/// pre-render one.
pub proof fn sprites_are_chosen_a_line_ahead(r: crate::ppu::raster::Raster)
    requires
        r.wf(),
    ensures
        target_line(r) == (r.scanline + 1) % 262,
{
}

/// Sprite evaluation keeps to its dots: clearing over the first 64, scanning to
/// 256, fetching to 320, during which the sprite address is held at zero.
#[verifier::rlimit(50)]
pub proof fn sprite_work_keeps_to_its_dots<M: Mapper>(p: PpuModel<M::Model>)
    ensures
        ({
            let dot = p.raster.dot as int;
            let after = sprites_clocked::<M>(p);
            &&& 1 <= dot <= 64 ==> after.eval == p.eval.cleared(p.raster.dot)
                && after.regs.oam_data_bus == 0xff
            &&& 65 <= dot <= 256 && dot % 2 == 1 && p.eval.n < 64 && p.regs.oam_addr < 8
                ==> after.eval == p.eval.latched(p.mem.oam_data)
            &&& 66 <= dot <= 256 && dot % 2 == 0 && p.eval.n < 64 ==> after.eval == p.eval.evaluated(
                p.regs.ctrl.bits as int / 32 % 2 == 1,
                target_line(p.raster),
            )
            &&& 257 <= dot <= 320 ==> after.regs.oam_addr == 0 && after.eval == p.eval
            &&& !(257 <= dot <= 320) ==> after.regs.oam_addr == p.regs.oam_addr && after.sprites
                == p.sprites
            &&& dot == 0 || dot > 320 ==> after.regs.oam_data_bus == p.eval.secondary_oam[0]
                && after.eval == p.eval
        }),
{
    lemma_tests(p.regs.ctrl.bits);
}

// ---- Dots -----------------------------------------------------------------------------

/// A visible dot draws the pixel of its column and line, and no other pixel.
pub proof fn a_dot_draws_its_own_pixel<V>(p: PpuModel<V>, x: int, y: int)
    requires
        p.frame.len() == FRAME_BYTES,
        0 <= x < 256,
        0 <= y < 240,
    ensures
        ({
            let after = video_clocked(p);
            let own = 1 <= p.raster.dot <= 256 && x == p.raster.dot - 1 && y == p.raster.scanline;
            pixel_at(after.frame, x, y) == if own {
                color_of(p.regs.mask, p.mem.palette_table[palette_choice(p, x)])
            } else {
                pixel_at(p.frame, x, y)
            }
        }),
        video_clocked(p).mem == p.mem && video_clocked(p).bg == p.bg && video_clocked(p).eval
            == p.eval,
{
    if p.raster.scanline < 240 && 1 <= p.raster.dot <= 256 {
        let at = p.raster.dot - 1;
        set_pixel_changes_one_pixel(
            p.frame,
            at,
            p.raster.scanline as int,
            color_of(p.regs.mask, p.mem.palette_table[palette_choice(p, at)]),
            x,
            y,
        );
    }
}

/// At the end of a rendered line the sprites that were fetched become the ones
/// that show, and the slots are empty again.
pub proof fn fetched_sprites_show_on_the_next_line<V>(p: PpuModel<V>, i: int)
    requires
        0 <= i < 8,
    ensures
        ({
            let after = dot_ended(p).sprites;
            let ends = p.raster.dot == 340 || (p.raster.scanline == 261 && p.raster.dot == 339
                && p.raster.odd_skip_armed);
            let rendered = (p.raster.scanline < 240 || p.raster.scanline == 261) && p.gate.enabled;
            &&& ends && rendered ==> after.current == p.sprites.next && !after.next[i].valid
            &&& !(ends && rendered) ==> after == p.sprites
        }),
{
}

/// A mask write asks for rendering by bits 3 and 4.
pub proof fn a_mask_write_asks_for_rendering<V>(p: PpuModel<V>, value: u8)
    ensures
        ({
            let asked = value as int / 8 % 2 == 1 || value as int / 16 % 2 == 1;
            let after = mask_written(p, value).gate;
            &&& after.pending == asked
            &&& after.enabled == p.gate.enabled
            &&& asked == p.gate.enabled ==> after.change_at is None
            &&& asked != p.gate.enabled ==> after.change_at is Some
            &&& asked != p.gate.enabled && p.gate.change_at is None ==> after.change_at == Some(
                p.raster.total_dots.wrapping_add(4),
            )
        }),
{
    lemma_tests(value);
}

/// A data access while rendering steps the address as the picture does, a
/// column right and a row down at once.
pub proof fn data_accesses_while_rendering_step_both_ways<V>(p: PpuModel<V>)
    requires
        rendering_in_progress(p),
    ensures
        vram_addr_incremented(p).regs.loopy == (LoopyRegister {
            v: y_incremented(x_incremented(p.regs.loopy.v)),
            ..p.regs.loopy
        }),
{
}

/// The second address write shows the whole address to the cartridge; the first
/// does not.
pub proof fn a_full_address_reaches_the_cartridge<M: Mapper>(p: PpuModel<M::Model>, value: u8)
    ensures
        ({
            let after = addr_written::<M>(p, value);
            &&& !p.regs.loopy.write_latch ==> after.mapper == p.mapper && after.regs.loopy.v
                == p.regs.loopy.v
            &&& p.regs.loopy.write_latch ==> after.mapper == M::after_ppu_bus_access(
                p.mapper,
                after.regs.loopy.v % 0x4000,
                p.raster.total_dots,
            ) && after.regs.loopy.v == after.regs.loopy.t
        }),
{
}

/// A row of sprite memory laid over the first: eight bytes from a multiple of
/// eight, and the rest as it was.
pub proof fn a_row_is_laid_over_the_first(mem: MemoryModel, at: u8, i: int)
    requires
        mem.wf(),
        0 <= i < 256,
    ensures
        ({
            let after = mem.row_refreshed(at);
            &&& after.oam_data[i] == if i < 8 {
                mem.oam_data[at - at as int % 8 + i]
            } else {
                mem.oam_data[i]
            }
            &&& after.vram == mem.vram && after.palette_table == mem.palette_table
        }),
{
}

/// An evaluation that begins with the sprite address past the first row lays
/// that row over the first.
#[verifier::rlimit(50)]
pub proof fn a_late_address_corrupts_the_first_row<M: Mapper>(p: PpuModel<M::Model>)
    ensures
        ({
            let after = sprites_clocked::<M>(p).mem;
            &&& p.raster.dot == 65 && p.regs.oam_addr >= 8 ==> after == p.mem.row_refreshed(
                p.regs.oam_addr,
            )
            &&& p.raster.dot != 65 || p.regs.oam_addr < 8 ==> after == p.mem
        }),
{
}

/// A ninth sprite sets bit 5 of the status register and no other, and what
/// evaluation leaves on the sprite bus is the byte it judged, or the first byte
/// of secondary memory once that is full.
#[verifier::rlimit(50)]
pub proof fn a_ninth_sprite_sets_overflow<M: Mapper>(p: PpuModel<M::Model>, k: u8)
    requires
        66 <= p.raster.dot <= 256,
        p.raster.dot % 2 == 0,
        p.eval.n < 64,
        k < 8,
    ensures
        ({
            let after = sprites_clocked::<M>(p);
            let tall = p.regs.ctrl.bits as int / 32 % 2 == 1;
            let ninth = p.eval.count >= 8 && covers_line(
                p.eval.latch,
                tall,
                target_line(p.raster),
            );
            &&& bit(after.regs.status.bits, k) == (bit(p.regs.status.bits, k) || (k == 5 && ninth))
            &&& after.regs.oam_data_bus == if p.eval.count >= 8 {
                p.eval.secondary_oam[0]
            } else {
                p.eval.latch
            }
        }),
{
    lemma_tests(p.regs.ctrl.bits);
    lemma_masks(0);
    lemma_flag(p.regs.status.bits, 0x20, 5, k);
}

/// During the fetches the sprite bus shows a slot's four bytes, the last of
/// them for five dots; past the last sprite found it shows the Y of the last
/// sprite of all once, and otherwise ones.
#[verifier::rlimit(50)]
pub proof fn the_sprite_bus_shows_the_slots<M: Mapper>(p: PpuModel<M::Model>, slot: int, phase: int)
    requires
        p.raster.dot == 257 + slot * 8 + phase,
        0 <= slot < 8,
        0 <= phase < 8,
    ensures
        ({
            let shown = sprites_clocked::<M>(p).regs.oam_data_bus;
            &&& slot < p.eval.count && phase < 3 ==> shown == p.eval.secondary_oam[slot * 4 + phase]
            &&& slot < p.eval.count && phase >= 3 ==> shown == p.eval.secondary_oam[slot * 4 + 3]
            &&& slot == p.eval.count && phase == 0 ==> shown == p.mem.oam_data[0xfc]
            &&& slot > p.eval.count || (slot == p.eval.count && phase > 0) ==> shown == 0xff
        }),
{
    let dot = p.raster.dot as int;
    assert((dot - 257) / 8 == slot && (dot - 257) % 8 == phase);
}

/// Slots without a sprite fetch tile $FF: of the table that the control register
/// picks, or of the upper table for tall sprites.
pub proof fn empty_slots_fetch_the_last_tile(
    e: EvaluationModel,
    slot: int,
    tall: bool,
    table: u16,
    line: int,
)
    requires
        slot >= e.count,
        table <= 0x1000,
    ensures
        e.pattern_addr(slot, tall, table, line) as int == 0xff * 16 + if tall {
            0x1000
        } else {
            table as int
        },
        !e.flipped(slot),
{
}

/// Register writes are counted while the picture is drawn, with where they fell.
pub proof fn visible_writes_are_counted<V>(p: PpuModel<V>, register: u16, value: u8)
    ensures
        ({
            let after = write_begun(p, register, value).probe;
            &&& p.raster.scanline >= 240 ==> after == p.probe
            &&& p.raster.scanline < 240 ==> after.last_register == register && after.last_scanline
                == p.raster.scanline && after.last_dot == p.raster.dot
            &&& p.raster.scanline < 240 ==> after.visible_register_writes
                == p.probe.visible_register_writes.wrapping_add(1)
            &&& after.oam_dma_count == p.probe.oam_dma_count
        }),
{
}

/// While rendering is off, an address left in the palette shows its entry behind
/// the picture, the sprites' backdrops showing those of the background; otherwise
/// the common backdrop does.
pub proof fn a_palette_address_shows_its_entry<V>(p: PpuModel<V>)
    ensures
        ({
            let entry = p.regs.loopy.v as int % 32;
            backdrop(p) == if p.gate.enabled || p.regs.loopy.v as int % 0x4000 < 0x3f00 {
                0
            } else if entry % 4 == 0 && entry >= 16 {
                entry - 16
            } else {
                entry
            }
        }),
{
}

} // verus!
