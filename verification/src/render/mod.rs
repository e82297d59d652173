//! Whole-picture rendering out of the picture chip's memories: the background
//! under the written scroll, then the sprites. The chip composes its own frame
//! dot by dot; this renderer shows what its memories hold at one moment.

use crate::cartridge::Mirroring;
use crate::mapper::board::zeroes;
use crate::mapper::Mapper;
use crate::ppu::model as ppu_model;
use crate::ppu::model::PpuModel;
use crate::ppu::registers::loopy::LoopyRegister;
use crate::ppu::NesPPU;
use crate::render::frame::{painted, Frame, FRAME_BYTES};
use crate::render::palette::{color, system_color};
use crate::render::tiles::{draw_tile, Placement};
use vstd::prelude::*;

pub mod frame;
pub mod laws;
pub mod palette;
pub mod tiles;

verus! {

/// The picture so far, and the cartridge that its tiles are read from.
pub struct Scene<V> {
    pub mapper: V,
    pub frame: Seq<u8>,
}

/// A cartridge and the bytes read from it.
pub struct TileRead<V> {
    pub mapper: V,
    pub bytes: Seq<u8>,
}

/// The first `n` bytes of the tile at `base`, read in order through the mapper.
pub open spec fn tile_read<M: Mapper>(mapper: M::Model, base: u16, n: nat) -> TileRead<M::Model>
    decreases n,
{
    if n == 0 {
        TileRead { mapper, bytes: Seq::empty() }
    } else {
        let before = tile_read::<M>(mapper, base, (n - 1) as nat);
        let addr = (base + n - 1) as u16;
        TileRead {
            mapper: M::after_ppu_read(before.mapper, addr),
            bytes: before.bytes.push(M::ppu_value(before.mapper, addr)),
        }
    }
}

/// The rectangle of a nametable that is shown.
#[derive(Clone, Copy, Debug, PartialEq, Eq, Structural)]
pub struct Rect {
    pub x1: i32,
    pub y1: i32,
    pub x2: i32,
    pub y2: i32,
}

/// Which of the four background palettes a tile uses: two bits of its
/// attribute byte, by the quadrant it lies in.
pub open spec fn palette_number(attributes: Seq<u8>, column: int, row: int) -> int {
    let byte = attributes[row / 4 * 8 + column / 4] as int;
    if column % 4 < 2 && row % 4 < 2 {
        byte % 4
    } else if row % 4 < 2 {
        byte / 4 % 4
    } else if column % 4 < 2 {
        byte / 16 % 4
    } else {
        byte / 64
    }
}

/// The palette of a background tile: the shared backdrop and its own three
/// colours.
pub open spec fn bg_palette_of(
    palette: Seq<u8>,
    attributes: Seq<u8>,
    column: int,
    row: int,
) -> Seq<u8> {
    let start = 1 + palette_number(attributes, column, row) * 4;
    seq![palette[0], palette[start], palette[start + 1], palette[start + 2]]
}

pub open spec fn sprite_palette_of(palette: Seq<u8>, number: int) -> Seq<u8> {
    let start = 0x11 + number * 4;
    seq![0u8, palette[start], palette[start + 1], palette[start + 2]]
}

/// The colours of a palette. An entry has six bits.
pub open spec fn colors_of(palette: Seq<u8>) -> Seq<(u8, u8, u8)> {
    Seq::new(4, |i: int| system_color(palette[i] as int % 64))
}

/// The scroll that the program wrote, in pixels.
pub open spec fn scroll_x_of(l: LoopyRegister) -> int {
    l.t as int % 32 * 8 + l.x
}

pub open spec fn scroll_y_of(l: LoopyRegister) -> int {
    l.t as int / 32 % 32 * 8 + l.t as int / 0x1000 % 8
}

/// Where tile `i` of a nametable goes.
pub open spec fn background_placement(view: Rect, shift_x: int, shift_y: int, i: int) -> Placement {
    Placement {
        left: (i % 32 * 8 + shift_x) as i32,
        top: (i / 32 * 8 + shift_y) as i32,
        x1: (view.x1 + shift_x) as i32,
        y1: (view.y1 + shift_y) as i32,
        x2: (view.x2 + shift_x) as i32,
        y2: (view.y2 + shift_y) as i32,
        flip_horizontal: false,
        flip_vertical: false,
        opaque: true,
    }
}

/// The first `n` tiles of the nametable at `start` in VRAM, shifted.
pub open spec fn name_table_drawn<M: Mapper>(
    p: PpuModel<M::Model>,
    s: Scene<M::Model>,
    start: int,
    view: Rect,
    shift_x: int,
    shift_y: int,
    n: nat,
) -> Scene<M::Model>
    decreases n,
{
    if n == 0 {
        s
    } else {
        let i = n - 1;
        let before = name_table_drawn::<M>(p, s, start, view, shift_x, shift_y, i as nat);
        let tile = tile_read::<M>(
            before.mapper,
            (p.regs.ctrl.bknd_pattern_addr() + p.mem.vram[start + i] * 16) as u16,
            16,
        );
        let palette = bg_palette_of(
            p.mem.palette_table,
            p.mem.vram.subrange(start + 0x3c0, start + 0x400),
            i % 32,
            i / 32,
        );
        Scene {
            mapper: tile.mapper,
            frame: painted(
                before.frame,
                background_placement(view, shift_x, shift_y, i).paint(
                    tile.bytes,
                    colors_of(palette),
                ),
            ),
        }
    }
}

/// Where the nametable that the screen starts in lies in VRAM.
pub open spec fn main_table(mirroring: Mirroring, nametable: u16) -> int {
    match mirroring {
        Mirroring::SingleScreenUpper => 0x400,
        Mirroring::SingleScreenLower => 0,
        Mirroring::Vertical => if nametable == 0x2400 || nametable == 0x2c00 {
            0x400
        } else {
            0
        },
        _ => if nametable == 0x2800 || nametable == 0x2c00 {
            0x400
        } else {
            0
        },
    }
}

/// Where the nametable that the scroll bleeds into lies.
pub open spec fn second_table(mirroring: Mirroring, nametable: u16) -> int {
    match mirroring {
        Mirroring::SingleScreenUpper => 0x400,
        Mirroring::SingleScreenLower => 0,
        _ => 0x400 - main_table(mirroring, nametable),
    }
}

/// The background: the main nametable shifted by the scroll, and the strip of
/// the second one that the scroll exposes.
pub open spec fn background_drawn<M: Mapper>(
    p: PpuModel<M::Model>,
    s: Scene<M::Model>,
) -> Scene<M::Model> {
    let mirroring = M::mirroring_of(p.mapper);
    let nametable = p.regs.ctrl.nametable_addr();
    let x = scroll_x_of(p.regs.loopy);
    let y = scroll_y_of(p.regs.loopy);
    let main = name_table_drawn::<M>(
        p,
        s,
        main_table(mirroring, nametable),
        Rect { x1: x as i32, y1: y as i32, x2: 256, y2: 240 },
        -x,
        -y,
        0x3c0,
    );
    if x > 0 {
        name_table_drawn::<M>(
            p,
            main,
            second_table(mirroring, nametable),
            Rect { x1: 0, y1: 0, x2: x as i32, y2: 240 },
            256 - x,
            0,
            0x3c0,
        )
    } else if y > 0 {
        name_table_drawn::<M>(
            p,
            main,
            second_table(mirroring, nametable),
            Rect { x1: 0, y1: 0, x2: 256, y2: y as i32 },
            0,
            240 - y,
            0x3c0,
        )
    } else {
        main
    }
}

/// Where a sprite goes, by its four bytes.
pub open spec fn sprite_placement(oam: Seq<u8>, i: int) -> Placement {
    Placement {
        left: oam[i * 4 + 3] as i32,
        top: oam[i * 4] as i32,
        x1: 0,
        y1: 0,
        x2: 256,
        y2: 240,
        flip_horizontal: oam[i * 4 + 2] / 64 % 2 == 1,
        flip_vertical: oam[i * 4 + 2] / 128 == 1,
        opaque: false,
    }
}

/// The last `n` sprites, drawn from the last one down so that the first ones
/// end up on top.
pub open spec fn sprites_drawn<M: Mapper>(
    p: PpuModel<M::Model>,
    s: Scene<M::Model>,
    n: nat,
) -> Scene<M::Model>
    decreases n,
{
    if n == 0 {
        s
    } else {
        let before = sprites_drawn::<M>(p, s, (n - 1) as nat);
        let i = 64 - n;
        let tile = tile_read::<M>(
            before.mapper,
            (p.regs.ctrl.sprt_pattern_addr() + p.mem.oam_data[i * 4 + 1] * 16) as u16,
            16,
        );
        let palette = sprite_palette_of(
            p.mem.palette_table,
            p.mem.oam_data[i * 4 + 2] as int % 4,
        );
        Scene {
            mapper: tile.mapper,
            frame: painted(
                before.frame,
                sprite_placement(p.mem.oam_data, i).paint(tile.bytes, colors_of(palette)),
            ),
        }
    }
}

pub open spec fn rendered<M: Mapper>(p: PpuModel<M::Model>, frame: Seq<u8>) -> Scene<M::Model> {
    sprites_drawn::<M>(p, background_drawn::<M>(p, Scene { mapper: p.mapper, frame }), 64)
}

/// The scroll leaves the second nametable on the screen.
pub open spec fn renderable<M: Mapper>(p: PpuModel<M::Model>) -> bool {
    &&& ppu_model::wf::<M>(p)
    &&& scroll_x_of(p.regs.loopy) > 0 || scroll_y_of(p.regs.loopy) <= 240
}

// Fetch a single 8x8 tile's 16 CHR bytes (two bitplanes) through the mapper.
fn read_tile<M: Mapper>(mapper: &mut M, base: u16) -> (r: [u8; 16])
    requires
        M::complete(old(mapper).model()),
        base + 16 <= 0x2000,
    ensures
        r@ == tile_read::<M>(old(mapper).model(), base, 16).bytes,
        final(mapper).model() == tile_read::<M>(old(mapper).model(), base, 16).mapper,
        M::complete(final(mapper).model()),
{
    let mut tile: [u8; 16] = [0, 0, 0, 0, 0, 0, 0, 0, 0, 0, 0, 0, 0, 0, 0, 0];
    let mut i: u16 = 0;
    while i < 16
        invariant
            i <= 16,
            base + 16 <= 0x2000,
            M::complete(mapper.model()),
            mapper.model() == tile_read::<M>(old(mapper).model(), base, i as nat).mapper,
            tile_read::<M>(old(mapper).model(), base, i as nat).bytes.len() == i,
            forall|k: int|
                0 <= k < i ==> tile@[k] == tile_read::<M>(
                    old(mapper).model(),
                    base,
                    i as nat,
                ).bytes[k],
        decreases 16 - i,
    {
        proof {
            M::complete_answers(mapper.model(), (base + i) as u16);
        }
        tile[i as usize] = mapper.ppu_read(base + i);
        i += 1;
    }
    assert(tile@ =~= tile_read::<M>(old(mapper).model(), base, 16).bytes);
    tile
}

/// The palette of the background tile in a column and row of its nametable.
pub fn bg_palette(
    palette_table: &Vec<u8>,
    attribute_table: &[u8],
    tile_column: usize,
    tile_row: usize,
) -> (r: [u8; 4])
    requires
        palette_table@.len() == 32,
        tile_column < 32,
        tile_row < 32,
        attribute_table@.len() == 64,
    ensures
        r@ == bg_palette_of(
            palette_table@,
            attribute_table@,
            tile_column as int,
            tile_row as int,
        ),
{
    let attr_byte: u8 = attribute_table[tile_row / 4 * 8 + tile_column / 4];
    let number: u8 = if tile_column % 4 < 2 && tile_row % 4 < 2 {
        attr_byte % 4
    } else if tile_row % 4 < 2 {
        attr_byte / 4 % 4
    } else if tile_column % 4 < 2 {
        attr_byte / 16 % 4
    } else {
        attr_byte / 64
    };
    let start: usize = 1 + number as usize * 4;
    let r = [
        palette_table[0],
        palette_table[start],
        palette_table[start + 1],
        palette_table[start + 2],
    ];
    assert(r@ =~= bg_palette_of(
        palette_table@,
        attribute_table@,
        tile_column as int,
        tile_row as int,
    ));
    r
}

// Sprite palettes live at $3F11.. (index 0 is transparent).
fn sprite_palette(palette_table: &Vec<u8>, number: u8) -> (r: [u8; 4])
    requires
        palette_table@.len() == 32,
        number < 4,
    ensures
        r@ == sprite_palette_of(palette_table@, number as int),
{
    let start: usize = 0x11 + number as usize * 4;
    let r = [0, palette_table[start], palette_table[start + 1], palette_table[start + 2]];
    assert(r@ =~= sprite_palette_of(palette_table@, number as int));
    r
}

fn colors(palette: [u8; 4]) -> (r: [(u8, u8, u8); 4])
    ensures
        r@ == colors_of(palette@),
{
    let r = [
        color((palette[0] % 64) as usize),
        color((palette[1] % 64) as usize),
        color((palette[2] % 64) as usize),
        color((palette[3] % 64) as usize),
    ];
    assert(r@ =~= colors_of(palette@));
    r
}

/// The tile viewer's picture of one tile of CHR. Its planes are shown with
/// their weights exchanged.
pub fn show_tile(chr_rom: &Vec<u8>, bank: usize, tile_n: usize) -> (r: Frame)
    requires
        bank <= 1,
        bank * 0x1000 + tile_n * 16 + 16 <= chr_rom@.len(),
    ensures
        r.wf(),
        r@ == painted(
            zeroes(FRAME_BYTES as nat),
            viewer_placement().paint(
                chr_rom@.subrange(
                    bank * 0x1000 + tile_n * 16,
                    bank * 0x1000 + tile_n * 16 + 16,
                ),
                viewer_colors(),
            ),
        ),
{
    let mut frame = Frame::new();
    let len: usize = chr_rom.len();
    let start: usize = bank * 0x1000 + tile_n * 16;
    let mut tile: [u8; 16] = [0, 0, 0, 0, 0, 0, 0, 0, 0, 0, 0, 0, 0, 0, 0, 0];
    let mut i: usize = 0;
    while i < 16
        invariant
            i <= 16,
            start + 16 <= len,
            len == chr_rom@.len(),
            forall|k: int| 0 <= k < i ==> tile@[k] == chr_rom@[start + k],
        decreases 16 - i,
    {
        tile[i] = chr_rom[start + i];
        i += 1;
    }
    assert(tile@ =~= chr_rom@.subrange(start as int, start + 16));
    let shades = [color(0x01), color(0x27), color(0x23), color(0x30)];
    assert(shades@ =~= viewer_colors());
    let place = Placement {
        left: 0,
        top: 0,
        x1: 0,
        y1: 0,
        x2: 256,
        y2: 240,
        flip_horizontal: false,
        flip_vertical: false,
        opaque: true,
    };
    draw_tile(&mut frame, &tile, place, &shades);
    frame
}

pub open spec fn viewer_placement() -> Placement {
    Placement {
        left: 0,
        top: 0,
        x1: 0,
        y1: 0,
        x2: 256,
        y2: 240,
        flip_horizontal: false,
        flip_vertical: false,
        opaque: true,
    }
}

pub open spec fn viewer_colors() -> Seq<(u8, u8, u8)> {
    seq![system_color(0x01), system_color(0x27), system_color(0x23), system_color(0x30)]
}

fn render_name_table<M: Mapper>(
    ppu: &mut NesPPU<M>,
    frame: &mut Frame,
    start: usize,
    view: Rect,
    shift_x: i32,
    shift_y: i32,
    Ghost(base): Ghost<PpuModel<M::Model>>,
)
    requires
        old(frame).wf(),
        ppu_model::wf::<M>(old(ppu)@),
        old(ppu)@ == (PpuModel { mapper: old(ppu)@.mapper, ..base }),
        start == 0 || start == 0x400,
        -256 <= shift_x <= 256,
        -256 <= shift_y <= 256,
        0 <= view.x1 <= 256,
        0 <= view.x2 <= 256,
        0 <= view.y1 <= 256,
        0 <= view.y2 <= 256,
    ensures
        final(frame).wf(),
        ppu_model::wf::<M>(final(ppu)@),
        final(ppu)@ == (PpuModel { mapper: final(ppu)@.mapper, ..base }),
        (Scene { mapper: final(ppu)@.mapper, frame: final(frame)@ }) == name_table_drawn::<M>(
            base,
            Scene { mapper: old(ppu)@.mapper, frame: old(frame)@ },
            start as int,
            view,
            shift_x as int,
            shift_y as int,
            0x3c0,
        ),
{
    let bank: u16 = ppu.regs.ctrl.bknd_pattern_addr();
    let ghost attributes = base.mem.vram.subrange(start + 0x3c0, start + 0x400);
    let mut attribute_table: Vec<u8> = Vec::new();
    let mut k: usize = 0;
    while k < 64
        invariant
            k <= 64,
            start == 0 || start == 0x400,
            ppu_model::wf::<M>(ppu@),
            ppu@.mem.vram == base.mem.vram,
            attributes == base.mem.vram.subrange(start + 0x3c0, start + 0x400),
            attribute_table@.len() == k,
            forall|j: int| 0 <= j < k ==> attribute_table@[j] == attributes[j],
        decreases 64 - k,
    {
        attribute_table.push(ppu.mem.vram[start + 0x3c0 + k]);
        k += 1;
    }
    assert(attribute_table@ =~= attributes);
    let mut i: usize = 0;
    while i < 0x3c0
        invariant
            i <= 0x3c0,
            frame.wf(),
            start == 0 || start == 0x400,
            -256 <= shift_x <= 256,
            -256 <= shift_y <= 256,
            0 <= view.x1 <= 256,
            0 <= view.x2 <= 256,
            0 <= view.y1 <= 256,
            0 <= view.y2 <= 256,
            bank == base.regs.ctrl.bknd_pattern_addr(),
            bank == 0 || bank == 0x1000,
            attribute_table@ == attributes,
            attributes == base.mem.vram.subrange(start + 0x3c0, start + 0x400),
            attributes.len() == 64,
            ppu_model::wf::<M>(ppu@),
            ppu@ == (PpuModel { mapper: ppu@.mapper, ..base }),
            (Scene { mapper: ppu@.mapper, frame: frame@ }) == name_table_drawn::<M>(
                base,
                Scene { mapper: old(ppu)@.mapper, frame: old(frame)@ },
                start as int,
                view,
                shift_x as int,
                shift_y as int,
                i as nat,
            ),
        decreases 0x3c0 - i,
    {
        let index: u16 = ppu.mem.vram[start + i] as u16;
        let tile = read_tile(&mut ppu.mapper, bank + index * 16);
        let palette = bg_palette(
            &ppu.mem.palette_table,
            attribute_table.as_slice(),
            i % 32,
            i / 32,
        );
        let shades = colors(palette);
        let place = Placement {
            left: (i % 32 * 8) as i32 + shift_x,
            top: (i / 32 * 8) as i32 + shift_y,
            x1: view.x1 + shift_x,
            y1: view.y1 + shift_y,
            x2: view.x2 + shift_x,
            y2: view.y2 + shift_y,
            flip_horizontal: false,
            flip_vertical: false,
            opaque: true,
        };
        draw_tile(frame, &tile, place, &shades);
        i += 1;
    }
}

fn render_background<M: Mapper>(ppu: &mut NesPPU<M>, frame: &mut Frame)
    requires
        old(frame).wf(),
        renderable::<M>(old(ppu)@),
    ensures
        final(frame).wf(),
        ppu_model::wf::<M>(final(ppu)@),
        final(ppu)@ == (PpuModel { mapper: final(ppu)@.mapper, ..old(ppu)@ }),
        (Scene { mapper: final(ppu)@.mapper, frame: final(frame)@ }) == background_drawn::<M>(
            old(ppu)@,
            Scene { mapper: old(ppu)@.mapper, frame: old(frame)@ },
        ),
{
    let ghost base = ppu@;
    let t: u16 = ppu.regs.loopy.t;
    let scroll_x: i32 = (t % 32 * 8) as i32 + ppu.regs.loopy.x as i32;
    let scroll_y: i32 = (t / 32 % 32 * 8 + t / 0x1000 % 8) as i32;
    // With vertical mirroring the two logical nametables lie side by side, so
    // horizontal scroll wraps into the neighbour; with horizontal mirroring
    // they're stacked, so vertical scroll does.
    let nametable: u16 = ppu.regs.ctrl.nametable_addr();
    let mirroring = ppu.mirroring();
    let main: usize = match mirroring {
        Mirroring::SingleScreenUpper => 0x400,
        Mirroring::SingleScreenLower => 0,
        Mirroring::Vertical => if nametable == 0x2400 || nametable == 0x2c00 {
            0x400
        } else {
            0
        },
        _ => if nametable == 0x2800 || nametable == 0x2c00 {
            0x400
        } else {
            0
        },
    };
    let second: usize = match mirroring {
        Mirroring::SingleScreenUpper => 0x400,
        Mirroring::SingleScreenLower => 0,
        _ => 0x400 - main,
    };
    // The main nametable, shifted up/left by the scroll so the pixel at
    // (scroll_x, scroll_y) lands at the top-left of the screen.
    render_name_table(
        ppu,
        frame,
        main,
        Rect { x1: scroll_x, y1: scroll_y, x2: 256, y2: 240 },
        -scroll_x,
        -scroll_y,
        Ghost(base),
    );
    // The second nametable fills whatever the scroll exposed: a vertical strip
    // on the right for horizontal scroll, or a horizontal strip on the bottom
    // for vertical scroll.
    if scroll_x > 0 {
        render_name_table(
            ppu,
            frame,
            second,
            Rect { x1: 0, y1: 0, x2: scroll_x, y2: 240 },
            256 - scroll_x,
            0,
            Ghost(base),
        );
    } else if scroll_y > 0 {
        render_name_table(
            ppu,
            frame,
            second,
            Rect { x1: 0, y1: 0, x2: 256, y2: scroll_y },
            0,
            240 - scroll_y,
            Ghost(base),
        );
    }
}

fn render_sprites<M: Mapper>(
    ppu: &mut NesPPU<M>,
    frame: &mut Frame,
    Ghost(base): Ghost<PpuModel<M::Model>>,
)
    requires
        old(frame).wf(),
        ppu_model::wf::<M>(old(ppu)@),
        old(ppu)@ == (PpuModel { mapper: old(ppu)@.mapper, ..base }),
    ensures
        final(frame).wf(),
        ppu_model::wf::<M>(final(ppu)@),
        final(ppu)@ == (PpuModel { mapper: final(ppu)@.mapper, ..base }),
        (Scene { mapper: final(ppu)@.mapper, frame: final(frame)@ }) == sprites_drawn::<M>(
            base,
            Scene { mapper: old(ppu)@.mapper, frame: old(frame)@ },
            64,
        ),
{
    let bank: u16 = ppu.regs.ctrl.sprt_pattern_addr();
    let mut done: usize = 0;
    while done < 64
        invariant
            done <= 64,
            frame.wf(),
            bank == base.regs.ctrl.sprt_pattern_addr(),
            bank == 0 || bank == 0x1000,
            ppu_model::wf::<M>(ppu@),
            ppu@ == (PpuModel { mapper: ppu@.mapper, ..base }),
            (Scene { mapper: ppu@.mapper, frame: frame@ }) == sprites_drawn::<M>(
                base,
                Scene { mapper: old(ppu)@.mapper, frame: old(frame)@ },
                done as nat,
            ),
        decreases 64 - done,
    {
        let i: usize = 63 - done;
        let index: u16 = ppu.mem.oam_data[i * 4 + 1] as u16;
        let attributes: u8 = ppu.mem.oam_data[i * 4 + 2];
        let place = Placement {
            left: ppu.mem.oam_data[i * 4 + 3] as i32,
            top: ppu.mem.oam_data[i * 4] as i32,
            x1: 0,
            y1: 0,
            x2: 256,
            y2: 240,
            flip_horizontal: attributes / 64 % 2 == 1,
            flip_vertical: attributes / 128 == 1,
            opaque: false,
        };
        let shades = colors(sprite_palette(&ppu.mem.palette_table, attributes % 4));
        let tile = read_tile(&mut ppu.mapper, bank + index * 16);
        draw_tile(frame, &tile, place, &shades);
        done += 1;
    }
}

/// Renders the background and the sprites into `frame`.
pub fn render<M: Mapper>(ppu: &mut NesPPU<M>, frame: &mut Frame)
    requires
        old(frame).wf(),
        renderable::<M>(old(ppu)@),
    ensures
        final(frame).wf(),
        ppu_model::wf::<M>(final(ppu)@),
        final(ppu)@ == (PpuModel { mapper: final(ppu)@.mapper, ..old(ppu)@ }),
        (Scene { mapper: final(ppu)@.mapper, frame: final(frame)@ }) == rendered::<M>(
            old(ppu)@,
            old(frame)@,
        ),
{
    let ghost base = ppu@;
    render_background(ppu, frame);
    render_sprites(ppu, frame, Ghost(base));
}

} // verus!
