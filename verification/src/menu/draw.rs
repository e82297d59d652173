//! Rectangles and text on a frame.

use crate::menu::font::{glyph, glyph_number, glyph_rows};
use crate::render::frame::{
    painted, painting_nothing, painting_twice, paints_that_agree, setting_is_painting, Frame,
    Paint, FRAME_BYTES,
};
use crate::text::chars_of;
use vstd::prelude::*;

verus! {

pub type Rgb = (u8, u8, u8);

/// One extra column of spacing between glyphs.
pub const CHAR_ADVANCE: usize = 6;

/// A set of pixels.
pub type Region = spec_fn(int, int) -> bool;

/// One colour over a region.
pub open spec fn tint(region: Region, color: Rgb) -> Paint {
    |x: int, y: int|
        if region(x, y) {
            Some(color)
        } else {
            None
        }
}

/// The picture with a region in one colour.
pub open spec fn tinted(data: Seq<u8>, region: Region, color: Rgb) -> Seq<u8> {
    painted(data, tint(region, color))
}

pub open spec fn in_rect(x: int, y: int, w: int, h: int) -> Region {
    |px: int, py: int| x <= px < x + w && y <= py < y + h
}

/// The part of a rectangle in its first `rows` rows and the first `cols`
/// columns of the next.
pub open spec fn rect_part(x: int, y: int, w: int, rows: int, cols: int) -> Region {
    |px: int, py: int|
        x <= px < x + w && y <= py && (py < y + rows || (py == y + rows && px < x + cols))
}

proof fn lemma_tints_join(data: Seq<u8>, one: Region, two: Region, both: Region, color: Rgb)
    requires
        data.len() == FRAME_BYTES,
        forall|x: int, y: int|
            0 <= x < 256 && 0 <= y < 240 ==> #[trigger] both(x, y) == (one(x, y) || two(x, y)),
    ensures
        tinted(tinted(data, one, color), two, color) == tinted(data, both, color),
{
    let joint = tint(both, color);
    assert forall|x: int, y: int| 0 <= x < 256 && 0 <= y < 240 implies #[trigger] joint(x, y)
        == match (tint(two, color))(x, y) {
        Some(rgb) => Some(rgb),
        None => (tint(one, color))(x, y),
    } by {
        assert(both(x, y) == (one(x, y) || two(x, y)));
    }
    painting_twice(data, tint(one, color), tint(two, color), joint);
}

proof fn lemma_tints_agree(data: Seq<u8>, one: Region, two: Region, color: Rgb)
    requires
        data.len() == FRAME_BYTES,
        forall|x: int, y: int| 0 <= x < 256 && 0 <= y < 240 ==> #[trigger] one(x, y) == two(x, y),
    ensures
        tinted(data, one, color) == tinted(data, two, color),
{
    assert forall|x: int, y: int| 0 <= x < 256 && 0 <= y < 240 implies #[trigger] (tint(
        one,
        color,
    ))(x, y) == (tint(two, color))(x, y) by {
        assert(one(x, y) == two(x, y));
    }
    paints_that_agree(data, tint(one, color), tint(two, color));
}

proof fn lemma_tinting_nothing(data: Seq<u8>, region: Region, color: Rgb)
    requires
        data.len() == FRAME_BYTES,
        forall|x: int, y: int| 0 <= x < 256 && 0 <= y < 240 ==> !#[trigger] region(x, y),
    ensures
        tinted(data, region, color) == data,
{
    assert forall|x: int, y: int| 0 <= x < 256 && 0 <= y < 240 implies #[trigger] (tint(
        region,
        color,
    ))(x, y) is None by {
        assert(!region(x, y));
    }
    painting_nothing(data, tint(region, color));
}

proof fn lemma_setting_tints(data: Seq<u8>, x: int, y: int, color: Rgb, before: Region, after: Region)
    requires
        data.len() == FRAME_BYTES,
        0 <= x,
        0 <= y,
        forall|px: int, py: int|
            0 <= px < 256 && 0 <= py < 240 ==> #[trigger] after(px, py) == (before(px, py) || (px
                == x && py == y)),
    ensures
        crate::render::frame::pixel_set(tinted(data, before, color), x, y, color) == tinted(
            data,
            after,
            color,
        ),
{
    let dot = |px: int, py: int| px == x && py == y;
    assert forall|px: int, py: int| 0 <= px < 256 && 0 <= py < 240 implies #[trigger] (tint(
        dot,
        color,
    ))(px, py) == if px == x && py == y {
        Some(color)
    } else {
        None
    } by {}
    setting_is_painting(tinted(data, before, color), x, y, color, tint(dot, color));
    lemma_tints_join(data, before, dot, after, color);
}

/// Colours a rectangle, clipped at the frame's edges.
pub fn fill_rect(frame: &mut Frame, x: usize, y: usize, w: usize, h: usize, color: Rgb)
    requires
        old(frame).wf(),
        x + w <= usize::MAX,
        y + h <= usize::MAX,
    ensures
        final(frame).wf(),
        final(frame)@ == tinted(
            old(frame)@,
            in_rect(x as int, y as int, w as int, h as int),
            color,
        ),
{
    let ghost base = frame@;
    proof {
        lemma_tinting_nothing(base, rect_part(x as int, y as int, w as int, 0, 0), color);
    }
    let mut dy: usize = 0;
    while dy < h
        invariant
            dy <= h,
            frame.wf(),
            base.len() == FRAME_BYTES,
            x + w <= usize::MAX,
            y + h <= usize::MAX,
            frame@ == tinted(
                base,
                rect_part(x as int, y as int, w as int, dy as int, 0),
                color,
            ),
        decreases h - dy,
    {
        let mut dx: usize = 0;
        while dx < w
            invariant
                dx <= w,
                dy < h,
                frame.wf(),
                base.len() == FRAME_BYTES,
                x + w <= usize::MAX,
                y + h <= usize::MAX,
                frame@ == tinted(
                    base,
                    rect_part(x as int, y as int, w as int, dy as int, dx as int),
                    color,
                ),
            decreases w - dx,
        {
            proof {
                lemma_setting_tints(
                    base,
                    x + dx,
                    y + dy,
                    color,
                    rect_part(x as int, y as int, w as int, dy as int, dx as int),
                    rect_part(x as int, y as int, w as int, dy as int, dx + 1),
                );
            }
            frame.set_pixel(x + dx, y + dy, color);
            dx += 1;
        }
        proof {
            lemma_tints_agree(
                base,
                rect_part(x as int, y as int, w as int, dy as int, w as int),
                rect_part(x as int, y as int, w as int, dy + 1, 0),
                color,
            );
        }
        dy += 1;
    }
    proof {
        lemma_tints_agree(
            base,
            rect_part(x as int, y as int, w as int, h as int, 0),
            in_rect(x as int, y as int, w as int, h as int),
            color,
        );
    }
}

/// Colours the whole frame.
pub fn fill(frame: &mut Frame, color: Rgb)
    requires
        old(frame).wf(),
    ensures
        final(frame).wf(),
        final(frame)@ == tinted(old(frame)@, in_rect(0, 0, 256, 240), color),
{
    fill_rect(frame, 0, 0, 256, 240, color);
}

/// Whether cell `k` of a glyph, counted row by row, is lit.
pub open spec fn cell_lit(rows: Seq<u8>, k: int) -> bool {
    (rows[k / 5] >> ((4 - k % 5) as u8)) & 1 == 1
}

/// Whether the first `n` cells of a glyph at (x, y) cover a pixel, each cell
/// being a block of `scale` by `scale` pixels.
pub open spec fn cells_cover(
    rows: Seq<u8>,
    x: int,
    y: int,
    scale: int,
    n: nat,
    px: int,
    py: int,
) -> bool
    decreases n,
{
    if n == 0 {
        false
    } else {
        let k = n - 1;
        cells_cover(rows, x, y, scale, k as nat, px, py) || (cell_lit(rows, k) && (in_rect(
            x + k % 5 * scale,
            y + k / 5 * scale,
            scale,
            scale,
        ))(px, py))
    }
}

/// Whether a character at (x, y) covers a pixel; one without a glyph covers
/// none.
pub open spec fn char_covers(c: char, x: int, y: int, scale: int, px: int, py: int) -> bool {
    glyph_number(c) is Some && cells_cover(
        glyph_rows(glyph_number(c)->0),
        x,
        y,
        scale,
        35,
        px,
        py,
    )
}

pub open spec fn cells_region(rows: Seq<u8>, x: int, y: int, scale: int, n: nat) -> Region {
    |px: int, py: int| cells_cover(rows, x, y, scale, n, px, py)
}

pub open spec fn char_region(c: char, x: int, y: int, scale: int) -> Region {
    |px: int, py: int| char_covers(c, x, y, scale, px, py)
}

/// Draws `c` with its top-left at (x, y), each font pixel expanded to a
/// `scale`x`scale` block.
pub fn draw_char(frame: &mut Frame, x: usize, y: usize, c: char, scale: usize, color: Rgb)
    requires
        old(frame).wf(),
        x + 5 * scale <= usize::MAX,
        y + 7 * scale <= usize::MAX,
    ensures
        final(frame).wf(),
        final(frame)@ == tinted(
            old(frame)@,
            char_region(c, x as int, y as int, scale as int),
            color,
        ),
{
    let ghost base = frame@;
    let rows = match glyph(c) {
        Some(rows) => rows,
        None => {
            proof {
                lemma_tinting_nothing(
                    base,
                    char_region(c, x as int, y as int, scale as int),
                    color,
                );
            }
            return ;
        },
    };
    proof {
        lemma_tinting_nothing(
            base,
            cells_region(rows@, x as int, y as int, scale as int, 0),
            color,
        );
    }
    let mut k: usize = 0;
    while k < 35
        invariant
            k <= 35,
            frame.wf(),
            base.len() == FRAME_BYTES,
            x + 5 * scale <= usize::MAX,
            y + 7 * scale <= usize::MAX,
            frame@ == tinted(
                base,
                cells_region(rows@, x as int, y as int, scale as int, k as nat),
                color,
            ),
        decreases 35 - k,
    {
        let ghost before = cells_region(rows@, x as int, y as int, scale as int, k as nat);
        let ghost after = cells_region(rows@, x as int, y as int, scale as int, (k + 1) as nat);
        let column: usize = k % 5;
        let row: usize = k / 5;
        assert(0 <= column * scale <= 4 * scale && 0 <= row * scale <= 6 * scale)
            by (nonlinear_arith)
            requires
                column <= 4,
                row <= 6,
        ;
        if (rows[row] >> (4 - column as u8)) & 1 == 1 {
            let ghost block = in_rect(
                x + column * scale,
                y + row * scale,
                scale as int,
                scale as int,
            );
            fill_rect(frame, x + column * scale, y + row * scale, scale, scale, color);
            proof {
                assert(cell_lit(rows@, k as int));
                lemma_tints_join(base, before, block, after, color);
            }
        } else {
            proof {
                assert(!cell_lit(rows@, k as int));
                lemma_tints_agree(base, before, after, color);
            }
        }
        k += 1;
    }
    proof {
        lemma_tints_agree(
            base,
            cells_region(rows@, x as int, y as int, scale as int, 35),
            char_region(c, x as int, y as int, scale as int),
            color,
        );
    }
}

/// Whether the first `n` characters of a text at (x, y) cover a pixel.
pub open spec fn text_covers(
    text: Seq<char>,
    x: int,
    y: int,
    scale: int,
    n: nat,
    px: int,
    py: int,
) -> bool
    decreases n,
{
    n > 0 && (text_covers(text, x, y, scale, (n - 1) as nat, px, py) || char_covers(
        text[n - 1],
        x + (n - 1) * (6 * scale),
        y,
        scale,
        px,
        py,
    ))
}

pub open spec fn text_region(text: Seq<char>, x: int, y: int, scale: int, n: nat) -> Region {
    |px: int, py: int| text_covers(text, x, y, scale, n, px, py)
}

/// The picture with a line of text on it.
pub open spec fn text_drawn(
    data: Seq<u8>,
    x: int,
    y: int,
    text: Seq<char>,
    scale: int,
    color: Rgb,
) -> Seq<u8> {
    tinted(data, text_region(text, x, y, scale, text.len()), color)
}

/// A text whose pixels all have addressable coordinates.
pub open spec fn text_fits(x: int, y: int, text: Seq<char>, scale: int) -> bool {
    &&& x + (text.len() + 1) * (6 * scale) <= usize::MAX
    &&& y + 7 * scale <= usize::MAX
}

pub fn draw_text(frame: &mut Frame, x: usize, y: usize, text: &str, scale: usize, color: Rgb)
    requires
        old(frame).wf(),
        text_fits(x as int, y as int, text@, scale as int),
    ensures
        final(frame).wf(),
        final(frame)@ == text_drawn(
            old(frame)@,
            x as int,
            y as int,
            text@,
            scale as int,
            color,
        ),
{
    let ghost base = frame@;
    let chars = chars_of(text);
    let len: usize = chars.len();
    proof {
        lemma_tinting_nothing(
            base,
            text_region(text@, x as int, y as int, scale as int, 0),
            color,
        );
        assert((len + 1) * (6 * scale) >= 6 * scale) by (nonlinear_arith)
            requires
                len >= 0,
                scale >= 0,
        ;
    }
    let advance: usize = CHAR_ADVANCE * scale;
    let mut cursor_x: usize = x;
    let mut i: usize = 0;
    while i < len
        invariant
            i <= len,
            len == text@.len(),
            chars@ == text@,
            frame.wf(),
            base.len() == FRAME_BYTES,
            advance == 6 * scale,
            text_fits(x as int, y as int, text@, scale as int),
            cursor_x == x + i * (6 * scale),
            frame@ == tinted(
                base,
                text_region(text@, x as int, y as int, scale as int, i as nat),
                color,
            ),
        decreases len - i,
    {
        let ghost before = text_region(text@, x as int, y as int, scale as int, i as nat);
        let ghost after = text_region(text@, x as int, y as int, scale as int, (i + 1) as nat);
        assert((i + 1) * (6 * scale) == i * (6 * scale) + 6 * scale && (i + 1) * (6 * scale) <= (
        len + 1) * (6 * scale) && (i + 2) * (6 * scale) == (i + 1) * (6 * scale) + 6 * scale && (i
            + 2) * (6 * scale) <= (len + 1) * (6 * scale)) by (nonlinear_arith)
            requires
                i + 1 <= len,
                scale >= 0,
        ;
        draw_char(frame, cursor_x, y, chars[i], scale, color);
        proof {
            lemma_tints_join(
                base,
                before,
                char_region(text@[i as int], cursor_x as int, y as int, scale as int),
                after,
                color,
            );
        }
        cursor_x = cursor_x + advance;
        i += 1;
    }
}

/// Width of a text: n glyphs use (n-1) advances plus one glyph width, scaled.
pub open spec fn width_of(text: Seq<char>, scale: int) -> int {
    if text.len() == 0 {
        0
    } else {
        (text.len() * 6 - 1) * scale
    }
}

pub fn text_width(text: &str, scale: usize) -> (r: usize)
    requires
        text@.len() * 6 <= usize::MAX,
        width_of(text@, scale as int) <= usize::MAX,
    ensures
        r == width_of(text@, scale as int),
{
    let count: usize = chars_of(text).len();
    if count == 0 {
        return 0;
    }
    assert((count * 6 - 1) * scale >= 0) by (nonlinear_arith)
        requires
            count >= 1,
            scale >= 0,
    ;
    (count * CHAR_ADVANCE - 1) * scale
}

/// Where a centred text starts; one wider than the screen starts at its edge.
pub open spec fn centered_x(text: Seq<char>, scale: int) -> int {
    if width_of(text, scale) >= 256 {
        0
    } else {
        (256 - width_of(text, scale)) / 2
    }
}

pub open spec fn centered_drawn(
    data: Seq<u8>,
    y: int,
    text: Seq<char>,
    scale: int,
    color: Rgb,
) -> Seq<u8> {
    text_drawn(data, centered_x(text, scale), y, text, scale, color)
}

pub fn draw_text_centered(frame: &mut Frame, y: usize, text: &str, scale: usize, color: Rgb)
    requires
        old(frame).wf(),
        scale >= 1,
        text_fits(256, y as int, text@, scale as int),
    ensures
        final(frame).wf(),
        final(frame)@ == centered_drawn(old(frame)@, y as int, text@, scale as int, color),
{
    let ghost n = text@.len() as int;
    proof {
        assert(n * 6 <= (n + 1) * (6 * scale) && (n * 6 - 1) * scale <= (n + 1) * (6 * scale))
            by (nonlinear_arith)
            requires
                n >= 0,
                scale >= 1,
        ;
    }
    let width: usize = text_width(text, scale);
    let x: usize = if width >= 256 {
        0
    } else {
        (256 - width) / 2
    };
    draw_text(frame, x, y, text, scale, color);
}

} // verus!
