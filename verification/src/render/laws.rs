//! Properties of whole-picture rendering: what it shares with the chip's own
//! picture, and where tiles and sprites come to lie.

use crate::bits::{bit, lemma_tests, lemma_word_masks};
use crate::cartridge::Mirroring;
use crate::mapper::Mapper;
use crate::ppu::memory::mirrored;
use crate::ppu::model::PpuModel;
use crate::ppu::picture::quadrant;
use crate::ppu::registers::loopy::{scroll_writes_place_both_offsets, LoopyRegister};
use crate::render::frame::{painted, pixel_at, Paint, FRAME_BYTES};
use crate::render::palette::system_color;
use crate::render::tiles::{tile_value, Placement};
use crate::render::{
    background_drawn, background_placement, bg_palette_of, colors_of, main_table, name_table_drawn,
    palette_number, scroll_x_of, scroll_y_of, second_table, sprite_palette_of, sprite_placement,
    sprites_drawn, tile_read, Rect, Scene,
};
use vstd::prelude::*;

verus! {

/// A tile has the palette that the chip fetches for it: the pair of bits of its
/// quadrant in the attribute byte of its 4 by 4 block.
pub proof fn tiles_have_the_palette_that_is_fetched(attributes: Seq<u8>, column: int, row: int)
    requires
        0 <= column < 32,
        0 <= row < 30,
        attributes.len() == 64,
    ensures
        palette_number(attributes, column, row) == quadrant(
            attributes[row / 4 * 8 + column / 4],
            column,
            row,
        ),
        0 <= palette_number(attributes, column, row) < 4,
{
}

/// Entry `i` of palette `n` is byte 4 `n` + `i` of palette memory, 16 further
/// on for sprites; the first entry of every background palette is the backdrop.
pub proof fn palettes_lie_four_apart(palette: Seq<u8>, attributes: Seq<u8>, column: int, row: int, n: int, i: int)
    requires
        0 < i < 4,
        0 <= n < 4,
    ensures
        bg_palette_of(palette, attributes, column, row)[0] == palette[0],
        bg_palette_of(palette, attributes, column, row)[i] == palette[4 * palette_number(
            attributes,
            column,
            row,
        ) + i],
        bg_palette_of(palette, attributes, column, row).len() == 4,
        sprite_palette_of(palette, n)[i] == palette[16 + 4 * n + i],
        sprite_palette_of(palette, n).len() == 4,
{
}

/// A tile's pixel joins a bit of each of its planes, the leftmost being the
/// highest, and the second plane counting double.
pub proof fn a_pixel_joins_two_planes(tile: Seq<u8>, x: int, y: int)
    requires
        0 <= x < 8,
        0 <= y < 8,
    ensures
        tile_value(tile, x, y) == (if bit(tile[y], (7 - x) as u8) {
            1int
        } else {
            0
        }) + (if bit(tile[8 + y], (7 - x) as u8) {
            2int
        } else {
            0
        }),
{
}

/// A flip shows the tile mirrored in its own square.
pub proof fn a_flip_mirrors_the_tile(place: Placement, tile: Seq<u8>, dx: int, dy: int)
    requires
        0 <= dx < 8,
        0 <= dy < 8,
    ensures
        ({
            let turned = Placement { flip_horizontal: !place.flip_horizontal, ..place };
            let tipped = Placement { flip_vertical: !place.flip_vertical, ..place };
            let at = place.value_at(tile, place.left + dx, place.top + dy);
            &&& turned.value_at(tile, place.left + 7 - dx, place.top + dy) == at
            &&& tipped.value_at(tile, place.left + dx, place.top + 7 - dy) == at
        }),
        !place.flip_horizontal && !place.flip_vertical ==> place.value_at(
            tile,
            place.left + dx,
            place.top + dy,
        ) == tile_value(tile, dx, dy),
{
}

/// The nametable the screen starts in is the one that the chip would read, and
/// the scroll bleeds into the other one, if there is another.
pub proof fn the_screen_starts_in_its_nametable(mirroring: Mirroring, n: u16)
    requires
        n < 4,
        mirroring != Mirroring::FourScreen,
    ensures
        ({
            let start = (0x2000 + n * 0x400) as u16;
            let single = mirroring == Mirroring::SingleScreenLower || mirroring
                == Mirroring::SingleScreenUpper;
            &&& main_table(mirroring, start) == mirrored(mirroring, start)
            &&& second_table(mirroring, start) == if single {
                main_table(mirroring, start)
            } else {
                0x400 - main_table(mirroring, start)
            }
        }),
{
}

/// The scroll is what two scroll writes set.
pub proof fn the_scroll_is_what_was_written(r: LoopyRegister, across: u8, down: u8)
    requires
        !r.write_latch,
    ensures
        scroll_x_of(r.scroll_written(across).scroll_written(down)) == across,
        scroll_y_of(r.scroll_written(across).scroll_written(down)) == down,
{
    scroll_writes_place_both_offsets(r, across, down);
    let done = r.scroll_written(across).scroll_written(down);
    lemma_word_masks(done.t);
    lemma_word_masks(done.t >> 5);
    lemma_fields(done.t);
}

proof fn lemma_fields(t: u16)
    ensures
        (t >> 5) & 0x1f == t as int / 32 % 32,
        (t >> 12) & 7 == t as int / 0x1000 % 8,
{
    vstd::bits::lemma_u16_shr_is_div(t, 5);
    vstd::bits::lemma_u16_shr_is_div(t, 12);
    vstd::arithmetic::power2::lemma2_to64();
    vstd::bits::lemma_u16_low_bits_mask_is_mod(t >> 5, 5);
    vstd::bits::lemma_u16_low_bits_mask_is_mod(t >> 12, 3);
    vstd::bits::lemma_low_bits_mask_values();
}

/// Tile `i` of a nametable covers the pixels of its own cell, shifted, and only
/// those of the part in view.
pub proof fn tiles_lie_in_their_cells(view: Rect, shift_x: int, shift_y: int, i: int, px: int, py: int)
    requires
        -256 <= shift_x <= 256,
        -256 <= shift_y <= 256,
        0 <= view.x1 <= 256,
        0 <= view.x2 <= 256,
        0 <= view.y1 <= 256,
        0 <= view.y2 <= 256,
        0 <= i < 0x3c0,
    ensures
        background_placement(view, shift_x, shift_y, i).shows(px, py) <==> {
            &&& (px - shift_x) / 8 == i % 32
            &&& (py - shift_y) / 8 == i / 32
            &&& view.x1 <= px - shift_x < view.x2
            &&& view.y1 <= py - shift_y < view.y2
        },
        background_placement(view, shift_x, shift_y, i).opaque,
        !background_placement(view, shift_x, shift_y, i).flip_horizontal,
        !background_placement(view, shift_x, shift_y, i).flip_vertical,
{
    let place = background_placement(view, shift_x, shift_y, i);
    assert(place.left == i % 32 * 8 + shift_x);
    assert(place.top == i / 32 * 8 + shift_y);
}

/// A sprite lies at the column of its last byte and the row of its first, with
/// its transparent pixels open and its flips in bits 6 and 7 of the third.
pub proof fn sprites_lie_by_their_bytes(oam: Seq<u8>, i: int, px: int, py: int)
    requires
        oam.len() == 256,
        0 <= i < 64,
    ensures
        ({
            let place = sprite_placement(oam, i);
            &&& place.shows(px, py) <==> 0 <= px - oam[i * 4 + 3] < 8 && 0 <= py - oam[i * 4] < 8
                && px < 256 && py < 240
            &&& place.flip_horizontal <==> oam[i * 4 + 2] as int / 64 % 2 == 1
            &&& place.flip_vertical <==> oam[i * 4 + 2] >= 128
            &&& !place.opaque
        }),
{
}

/// How bright a colour is.
pub open spec fn brightness(index: int) -> int {
    system_color(index).0 + system_color(index).1 + system_color(index).2
}

/// The colours are four rows of sixteen, each row brighter than the one above.
/// The first column and the last three are grey, the last two of them alike;
/// the hues between run from blue through red to green and back towards blue.
#[verifier::rlimit(60)]
pub proof fn colours_lie_by_hue_and_brightness(row: int, column: int)
    requires
        0 <= row < 4,
        0 <= column < 16,
    ensures
        ({
            let (r, g, b) = system_color(row * 16 + column);
            &&& row < 3 ==> brightness(row * 16 + column) <= brightness(row * 16 + 16 + column)
            &&& row < 3 && column > 0 ==> brightness(row * 16 + column) < brightness(
                row * 16 + 16 + column,
            )
            &&& column == 0 || column >= 13 ==> r == g && g == b
            &&& column == 14 ==> system_color(row * 16 + 15) == (r, g, b)
            &&& 1 <= column <= 3 ==> b >= r && b >= g
            &&& column == 4 ==> g < r && g < b
            &&& 5 <= column <= 8 ==> r >= g && r >= b
            &&& 9 <= column <= 11 ==> g >= r && g >= b
            &&& column == 12 ==> r < g && r < b
        }),
{
    reveal(system_color);
}

/// A painted picture shows the paint where there is any, and else what it
/// showed.
pub proof fn paint_covers_what_was_there(data: Seq<u8>, paint: Paint, x: int, y: int)
    requires
        data.len() == FRAME_BYTES,
        0 <= x < 256,
        0 <= y < 240,
    ensures
        painted(data, paint).len() == FRAME_BYTES,
        pixel_at(painted(data, paint), x, y) == match paint(x, y) {
            Some(rgb) => rgb,
            None => pixel_at(data, x, y),
        },
{
    let base = (y * 256 + x) * 3;
    let after = painted(data, paint);
    assert(base / 3 == y * 256 + x && (base + 1) / 3 == y * 256 + x && (base + 2) / 3 == y * 256
        + x);
    assert((y * 256 + x) / 256 == y && (y * 256 + x) % 256 == x);
}

/// Of the sprites the first is drawn last: where it is opaque, it shows.
pub proof fn the_first_sprite_is_on_top<M: Mapper>(
    p: PpuModel<M::Model>,
    s: Scene<M::Model>,
    x: int,
    y: int,
)
    requires
        sprites_drawn::<M>(p, s, 63).frame.len() == FRAME_BYTES,
        0 <= x < 256,
        0 <= y < 240,
        p.mem.oam_data.len() == 256,
    ensures
        ({
            let below = sprites_drawn::<M>(p, s, 63);
            let table = p.regs.ctrl.bits as int / 8 % 2 * 0x1000;
            let tile = tile_read::<M>(
                below.mapper,
                (table + p.mem.oam_data[1] * 16) as u16,
                16,
            ).bytes;
            let place = sprite_placement(p.mem.oam_data, 0);
            let value = place.value_at(tile, x, y);
            let palette = 16 + p.mem.oam_data[2] as int % 4 * 4;
            pixel_at(sprites_drawn::<M>(p, s, 64).frame, x, y) == if place.shows(x, y) && value > 0 {
                system_color(p.mem.palette_table[palette + value] as int % 64)
            } else {
                pixel_at(below.frame, x, y)
            }
        }),
{
    let below = sprites_drawn::<M>(p, s, 63);
    lemma_tests(p.regs.ctrl.bits);
    let tile = tile_read::<M>(
        below.mapper,
        (p.regs.ctrl.sprt_pattern_addr() + p.mem.oam_data[1] * 16) as u16,
        16,
    ).bytes;
    let colours = colors_of(
        sprite_palette_of(p.mem.palette_table, p.mem.oam_data[2] as int % 4),
    );
    let place = sprite_placement(p.mem.oam_data, 0);
    paint_covers_what_was_there(below.frame, place.paint(tile, colours), x, y);
}

/// Without scroll the whole screen is the nametable it starts in.
pub proof fn an_unscrolled_screen_is_one_nametable<M: Mapper>(
    p: PpuModel<M::Model>,
    s: Scene<M::Model>,
)
    requires
        scroll_x_of(p.regs.loopy) == 0,
        scroll_y_of(p.regs.loopy) == 0,
    ensures
        background_drawn::<M>(p, s) == name_table_drawn::<M>(
            p,
            s,
            main_table(M::mirroring_of(p.mapper), p.regs.ctrl.nametable_addr()),
            Rect { x1: 0, y1: 0, x2: 256, y2: 240 },
            0,
            0,
            960,
        ),
{
}

/// A scroll to the right shows the first nametable from its column on, and the
/// second one behind it: the two meet at one column, and no pixel is left out.
pub proof fn a_scrolled_screen_has_one_seam<M: Mapper>(p: PpuModel<M::Model>, s: Scene<M::Model>)
    requires
        scroll_x_of(p.regs.loopy) > 0,
    ensures
        ({
            let x = scroll_x_of(p.regs.loopy);
            let y = scroll_y_of(p.regs.loopy);
            let mirroring = M::mirroring_of(p.mapper);
            let nametable = p.regs.ctrl.nametable_addr();
            let first = name_table_drawn::<M>(
                p,
                s,
                main_table(mirroring, nametable),
                Rect { x1: x as i32, y1: y as i32, x2: 256, y2: 240 },
                0 - x,
                0 - y,
                960,
            );
            background_drawn::<M>(p, s) == name_table_drawn::<M>(
                p,
                first,
                second_table(mirroring, nametable),
                Rect { x1: 0, y1: 0, x2: x as i32, y2: 240 },
                256 - x,
                0,
                960,
            )
        }),
{
}

/// Tiles are read in order; where reading does not move the cartridge, they are
/// its bytes.
pub proof fn a_tile_is_sixteen_bytes_in_a_row<M: Mapper>(
    mapper: M::Model,
    base: u16,
    n: nat,
    i: int,
)
    requires
        base + n <= 0x2000,
        forall|addr: u16| #[trigger] M::after_ppu_read(mapper, addr) == mapper,
        0 <= i < n,
    ensures
        tile_read::<M>(mapper, base, n).bytes.len() == n,
        tile_read::<M>(mapper, base, n).bytes[i] == M::ppu_value(mapper, (base + i) as u16),
        tile_read::<M>(mapper, base, n).mapper == mapper,
    decreases n,
{
    if n > 1 {
        a_tile_is_sixteen_bytes_in_a_row::<M>(mapper, base, (n - 1) as nat, if i < n - 1 {
            i
        } else {
            0
        });
    } else {
        reveal_with_fuel(tile_read, 2);
    }
}

/// A palette's colours are those of its entries' low six bits.
pub proof fn colours_are_named_by_six_bits(palette: Seq<u8>, i: int)
    requires
        0 <= i < 4,
    ensures
        colors_of(palette).len() == 4,
        colors_of(palette)[i] == system_color(palette[i] as int % 64),
{
}

/// A screen scrolled down alone shows the first nametable from its row on, and
/// the second one below it.
pub proof fn a_screen_scrolled_down_has_one_seam<M: Mapper>(
    p: PpuModel<M::Model>,
    s: Scene<M::Model>,
)
    requires
        scroll_x_of(p.regs.loopy) == 0,
        scroll_y_of(p.regs.loopy) > 0,
    ensures
        ({
            let y = scroll_y_of(p.regs.loopy);
            let mirroring = M::mirroring_of(p.mapper);
            let nametable = p.regs.ctrl.nametable_addr();
            let first = name_table_drawn::<M>(
                p,
                s,
                main_table(mirroring, nametable),
                Rect { x1: 0, y1: y as i32, x2: 256, y2: 240 },
                0,
                0 - y,
                960,
            );
            background_drawn::<M>(p, s) == name_table_drawn::<M>(
                p,
                first,
                second_table(mirroring, nametable),
                Rect { x1: 0, y1: 0, x2: 256, y2: y as i32 },
                0,
                240 - y,
                960,
            )
        }),
{
}

/// A tile of a nametable shows in its cell, in the palette of its quadrant, which
/// stands in the 64 bytes behind the 960 tile numbers; outside it leaves the
/// picture alone.
pub proof fn a_nametable_shows_tile_by_tile<M: Mapper>(
    p: PpuModel<M::Model>,
    s: Scene<M::Model>,
    start: int,
    view: Rect,
    shift_x: int,
    shift_y: int,
    i: int,
    px: int,
    py: int,
)
    requires
        0 <= i < 960,
        0 <= start,
        start + 1024 <= p.mem.vram.len(),
        0 <= px < 256,
        0 <= py < 240,
        name_table_drawn::<M>(p, s, start, view, shift_x, shift_y, i as nat).frame.len()
            == FRAME_BYTES,
    ensures
        ({
            let before = name_table_drawn::<M>(p, s, start, view, shift_x, shift_y, i as nat);
            let after = name_table_drawn::<M>(p, s, start, view, shift_x, shift_y, (i + 1) as nat);
            let table = p.regs.ctrl.bits as int / 16 % 2 * 0x1000;
            let tile = tile_read::<M>(
                before.mapper,
                (table + p.mem.vram[start + i] * 16) as u16,
                16,
            ).bytes;
            let place = background_placement(view, shift_x, shift_y, i);
            let value = place.value_at(tile, px, py);
            let attributes = Seq::new(64, |k: int| p.mem.vram[start + 960 + k]);
            let palette = palette_number(attributes, i % 32, i / 32);
            let entry = if value == 0 {
                0
            } else {
                4 * palette + value
            };
            pixel_at(after.frame, px, py) == if place.shows(px, py) {
                system_color(p.mem.palette_table[entry] as int % 64)
            } else {
                pixel_at(before.frame, px, py)
            }
        }),
{
    let before = name_table_drawn::<M>(p, s, start, view, shift_x, shift_y, i as nat);
    lemma_tests(p.regs.ctrl.bits);
    let tile = tile_read::<M>(
        before.mapper,
        (p.regs.ctrl.bknd_pattern_addr() + p.mem.vram[start + i] * 16) as u16,
        16,
    ).bytes;
    let attributes = p.mem.vram.subrange(start + 0x3c0, start + 0x400);
    assert(attributes =~= Seq::new(64, |k: int| p.mem.vram[start + 960 + k]));
    let palette = bg_palette_of(p.mem.palette_table, attributes, i % 32, i / 32);
    let place = background_placement(view, shift_x, shift_y, i);
    paint_covers_what_was_there(before.frame, place.paint(tile, colors_of(palette)), px, py);
}

} // verus!
