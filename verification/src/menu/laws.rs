//! Properties of the selection screen: where its letters, rows and selection
//! lie.

use crate::bits::bit;
use crate::menu::draw::{
    cells_cover, centered_drawn, centered_x, char_covers, in_rect, text_covers, text_drawn,
    text_region, tint, tinted, width_of, CHAR_ADVANCE,
};
use crate::menu::font::{glyph_number, glyph_rows, upper_char, GLYPH_HEIGHT, GLYPH_WIDTH};
use crate::menu::{
    hint_drawn, menu_drawn, row_drawn, rows_drawn, rows_shown, scroll_for, visible_rows,
    MenuChoice, MenuEvent, MenuState, BACKGROUND, BOTTOM_MARGIN, CURSOR_COLOR, HINT_COLOR,
    ITEM_COLOR, LIST_TOP, ROW_HEIGHT, SELECTED_COLOR, SELECTED_TEXT, TITLE_COLOR,
};
use crate::render::frame::{pixel_at, FRAME_BYTES};
use crate::render::laws::paint_covers_what_was_there;
use vstd::prelude::*;

verus! {

proof fn lemma_block(d: int, scale: int, c: int)
    requires
        scale > 0,
        c >= 0,
    ensures
        c * scale <= d < c * scale + scale <==> d / scale == c,
{
    if c * scale <= d < c * scale + scale {
        vstd::arithmetic::div_mod::lemma_fundamental_div_mod_converse(d, scale, c, d - c * scale);
    }
    if d / scale == c {
        vstd::arithmetic::div_mod::lemma_fundamental_div_mod(d, scale);
        vstd::arithmetic::mul::lemma_mul_is_commutative(scale, c);
    }
}

proof fn lemma_cells(rows: Seq<u8>, x: int, y: int, scale: int, n: nat, px: int, py: int)
    requires
        scale > 0,
        n <= 35,
    ensures
        cells_cover(rows, x, y, scale, n, px, py) <==> {
            let column = (px - x) / scale;
            let row = (py - y) / scale;
            &&& 0 <= column < 5
            &&& 0 <= row
            &&& row * 5 + column < n
            &&& bit(rows[row], (4 - column) as u8)
        },
    decreases n,
{
    if n > 0 {
        let k = n - 1;
        lemma_cells(rows, x, y, scale, k as nat, px, py);
        lemma_block(px - x, scale, k % 5);
        lemma_block(py - y, scale, k / 5);
        let column = (px - x) / scale;
        let row = (py - y) / scale;
        if column == k % 5 && row == k / 5 {
            assert(row * 5 + column == k);
        }
        if 0 <= column < 5 && 0 <= row && row * 5 + column == k {
            assert(k / 5 == row && k % 5 == column);
        }
    }
}

/// A character lights the pixels of the cells that its glyph has a bit for, five
/// columns and seven rows of them, the leftmost column being the highest bit.
pub proof fn a_character_lights_its_cells(c: char, x: int, y: int, scale: int, px: int, py: int)
    requires
        scale > 0,
    ensures
        ({
            let column = (px - x) / scale;
            let row = (py - y) / scale;
            char_covers(c, x, y, scale, px, py) <==> {
                &&& glyph_number(c) is Some
                &&& 0 <= column < 5
                &&& 0 <= row < 7
                &&& bit(glyph_rows(glyph_number(c)->0)[row], (4 - column) as u8)
            }
        }),
        GLYPH_WIDTH == 5,
        GLYPH_HEIGHT == 7,
        CHAR_ADVANCE == GLYPH_WIDTH + 1,
{
    if glyph_number(c) is Some {
        lemma_cells(glyph_rows(glyph_number(c)->0), x, y, scale, 35, px, py);
    }
}

/// A text lights the pixels of its characters, each six cells behind the one
/// before.
pub proof fn a_text_lights_its_characters(
    text: Seq<char>,
    x: int,
    y: int,
    scale: int,
    n: nat,
    px: int,
    py: int,
)
    requires
        n <= text.len(),
    ensures
        text_covers(text, x, y, scale, n, px, py) <==> exists|i: int|
            0 <= i < n && char_covers(
                #[trigger] text[i],
                x + i * (6 * scale),
                y,
                scale,
                px,
                py,
            ),
    decreases n,
{
    if n > 0 {
        a_text_lights_its_characters(text, x, y, scale, (n - 1) as nat, px, py);
        if char_covers(text[n - 1], x + (n - 1) * (6 * scale), y, scale, px, py) {
            let i = n - 1;
            assert(0 <= i < n && char_covers(text[i], x + i * (6 * scale), y, scale, px, py));
        }
    }
}

/// A centred text has the same margin on both sides, or one pixel more on the
/// right; one wider than the screen starts at its left edge.
pub proof fn a_centred_text_has_even_margins(text: Seq<char>, scale: int)
    requires
        scale > 0,
    ensures
        width_of(text, scale) < 256 ==> 0 <= 256 - width_of(text, scale) - 2 * centered_x(
            text,
            scale,
        ) <= 1,
        width_of(text, scale) >= 256 ==> centered_x(text, scale) == 0,
        text.len() == 0 ==> width_of(text, scale) == 0,
        text.len() == 1 ==> width_of(text, scale) == 5 * scale,
{
    if text.len() == 1 {
        assert((text.len() * 6 - 1) * scale == 5 * scale) by (nonlinear_arith)
            requires
                text.len() == 1,
        ;
    }
}

/// One more character widens a text by six cells.
pub proof fn a_character_widens_a_text_by_six_cells(text: Seq<char>, c: char, scale: int)
    requires
        text.len() > 0,
    ensures
        width_of(text.push(c), scale) == width_of(text, scale) + 6 * scale,
{
    let n = text.len() as int;
    assert(((n + 1) * 6 - 1) * scale == (n * 6 - 1) * scale + 6 * scale) by (nonlinear_arith);
}

/// As many rows are shown as fit between the list's top and the bottom margin.
pub proof fn the_page_is_full_of_rows()
    ensures
        LIST_TOP + visible_rows() * ROW_HEIGHT <= 240 - BOTTOM_MARGIN,
        LIST_TOP + (visible_rows() + 1) * ROW_HEIGHT > 240 - BOTTOM_MARGIN,
        visible_rows() == 7,
{
}

/// A page shows what is left of the list, and no more than it holds.
pub proof fn a_page_shows_what_is_left(len: int, scroll: int)
    requires
        0 <= scroll,
        0 <= len,
    ensures
        rows_shown(len, scroll) <= visible_rows(),
        scroll <= len ==> scroll + rows_shown(len, scroll) <= len,
        scroll + rows_shown(len, scroll) < len ==> rows_shown(len, scroll) == visible_rows(),
{
}

/// The page stays where it is while the selection is on it.
pub proof fn the_page_stays_while_it_can(selected: int, scroll: int, len: int)
    requires
        7 <= len,
        0 <= scroll <= len - 7,
        0 <= selected < len,
    ensures
        scroll <= selected < scroll + 7 ==> scroll_for(selected, scroll, len) == scroll || len == 7,
        selected < scroll ==> scroll_for(selected, scroll, len) == selected,
        selected >= scroll + 7 ==> scroll_for(selected, scroll, len) + 6 == selected,
{
}

/// Presses of Down.
pub open spec fn downs(s: MenuState, len: int, n: nat) -> MenuState
    decreases n,
{
    if n == 0 {
        s
    } else {
        downs(s, len, (n - 1) as nat).after(MenuEvent::Down, len)
    }
}

/// Down walks the list from top to bottom and round again.
pub proof fn down_walks_the_list_round(s: MenuState, len: usize, n: nat)
    requires
        0 < len,
        s.selected < len,
    ensures
        downs(s, len as int, n).selected as int == (s.selected + n) % (len as int),
        downs(s, len as int, n).selected < len,
    decreases n,
{
    if n == 0 {
        vstd::arithmetic::div_mod::lemma_small_mod(s.selected as nat, len as nat);
    } else {
        down_walks_the_list_round(s, len, (n - 1) as nat);
        let before = downs(s, len as int, (n - 1) as nat).selected as int;
        vstd::arithmetic::div_mod::lemma_add_mod_noop(s.selected + n - 1, 1, len as int);
        if len == 1 {
        } else {
            vstd::arithmetic::div_mod::lemma_small_mod(1, len as nat);
        }
        if before + 1 < len {
            vstd::arithmetic::div_mod::lemma_small_mod((before + 1) as nat, len as nat);
        } else {
            vstd::arithmetic::div_mod::lemma_mod_self_0(len as int);
        }
        assert((before + 1) % (len as int) == (s.selected + n) % (len as int)) by {
            vstd::arithmetic::div_mod::lemma_add_mod_noop_right(1, s.selected + n - 1, len as int);
        }
    }
}

/// The screen is left by closing it or by Escape, and a game is played by
/// confirming it, if there is one.
pub proof fn choices_come_from_their_events(s: MenuState, event: MenuEvent, len: int)
    ensures
        s.chosen(event, len) == Some(MenuChoice::Quit) <==> event is Quit || event is Escape,
        s.chosen(event, len) is Some && s.chosen(event, len)->0 is Play <==> event is Confirm && len
            > 0,
        event is Confirm && len > 0 ==> s.chosen(event, len) == Some(MenuChoice::Play(s.selected)),
{
}

/// A label lies on its row and nowhere else.
proof fn lemma_label_stays(text: Seq<char>, x: int, y: int, scale: int, n: nat, px: int, py: int)
    requires
        scale > 0,
        n <= text.len(),
        py < y || py >= y + 7 * scale,
    ensures
        !text_covers(text, x, y, scale, n, px, py),
    decreases n,
{
    if n > 0 {
        lemma_label_stays(text, x, y, scale, (n - 1) as nat, px, py);
        a_character_lights_its_cells(text[n - 1], x + (n - 1) * (6 * scale), y, scale, px, py);
        let d = py - y;
        let row = d / scale;
        vstd::arithmetic::div_mod::lemma_fundamental_div_mod(d, scale);
        vstd::arithmetic::div_mod::lemma_mod_bound(d, scale);
        assert(row < 0 || row >= 7) by (nonlinear_arith)
            requires
                d < 0 || d >= 7 * scale,
                d == scale * row + d % scale,
                0 <= d % scale < scale,
        ;
    }
}

/// The selected row shows its label over its cursor over its bar; another row
/// its label alone.
pub proof fn a_row_shows_label_cursor_and_bar(
    data: Seq<u8>,
    label: Seq<char>,
    y: int,
    selected: bool,
    px: int,
    py: int,
)
    requires
        data.len() == FRAME_BYTES,
        0 <= px < 256,
        0 <= py < 240,
    ensures
        row_drawn(data, label, y, selected).len() == FRAME_BYTES,
        pixel_at(row_drawn(data, label, y, selected), px, py) == if text_covers(
            label,
            40,
            y,
            2,
            label.len(),
            px,
            py,
        ) {
            if selected {
                SELECTED_TEXT
            } else {
                ITEM_COLOR
            }
        } else if selected && char_covers('>', 24, y, 2, px, py) {
            CURSOR_COLOR
        } else if selected && 22 <= px < 234 && y - 3 <= py < y + 15 {
            SELECTED_COLOR
        } else {
            pixel_at(data, px, py)
        },
{
    let words = text_region(label, 40, y, 2, label.len());
    if selected {
        reveal_strlit(">");
        let bar = tinted(data, in_rect(22, y - 3, 212, 18), SELECTED_COLOR);
        let mark = text_region(">"@, 24, y, 2, ">"@.len());
        let cursor = text_drawn(bar, 24, y, ">"@, 2, CURSOR_COLOR);
        reveal_with_fuel(text_covers, 2);
        assert(">"@.len() == 1 && ">"@[0] == '>');
        assert(mark(px, py) == char_covers('>', 24, y, 2, px, py));
        paint_covers_what_was_there(
            data,
            tint(in_rect(22, y - 3, 212, 18), SELECTED_COLOR),
            px,
            py,
        );
        paint_covers_what_was_there(bar, tint(mark, CURSOR_COLOR), px, py);
        paint_covers_what_was_there(cursor, tint(words, SELECTED_TEXT), px, py);
    } else {
        paint_covers_what_was_there(data, tint(words, ITEM_COLOR), px, py);
    }
}

/// Every row of a page keeps to its band of twenty lines: what one shows does
/// not depend on the others, and the selected one alone has a bar.
pub proof fn rows_keep_to_their_bands(
    data: Seq<u8>,
    labels: Seq<Seq<char>>,
    selected: int,
    scroll: int,
    n: nat,
    r: int,
    px: int,
    py: int,
)
    requires
        data.len() == FRAME_BYTES,
        0 <= r,
        61 + 20 * r <= py < 81 + 20 * r,
        0 <= px < 256,
        0 <= py < 240,
    ensures
        rows_drawn(data, labels, selected, scroll, n).len() == FRAME_BYTES,
        pixel_at(rows_drawn(data, labels, selected, scroll, n), px, py) == if r < n {
            pixel_at(
                row_drawn(data, labels[scroll + r], 64 + 20 * r, scroll + r == selected),
                px,
                py,
            )
        } else {
            pixel_at(data, px, py)
        },
    decreases n,
{
    if n > 0 {
        let last = n - 1;
        let y = 64 + 20 * last;
        let before = rows_drawn(data, labels, selected, scroll, (n - 1) as nat);
        let label = labels[scroll + last];
        rows_keep_to_their_bands(data, labels, selected, scroll, (n - 1) as nat, r, px, py);
        a_row_shows_label_cursor_and_bar(before, label, y, scroll + last == selected, px, py);
        if r == last {
            a_row_shows_label_cursor_and_bar(data, label, y, scroll + r == selected, px, py);
        } else {
            lemma_label_stays(label, 40, y, 2, label.len(), px, py);
            a_character_lights_its_cells('>', 24, y, 2, px, py);
        }
    }
}

/// The screen is dark but for its texts: where no text or row lies, the
/// background shows, whatever was there before.
pub proof fn an_empty_list_is_told(data: Seq<u8>, selected: int, scroll: int, px: int, py: int)
    requires
        data.len() == FRAME_BYTES,
        0 <= px < 256,
        0 <= py < 240,
        py < 18 || 39 <= py < 110 || 124 <= py < 210 || 217 <= py,
    ensures
        pixel_at(menu_drawn(data, Seq::empty(), selected, scroll), px, py) == BACKGROUND,
{
    let blank = tinted(data, in_rect(0, 0, 256, 240), BACKGROUND);
    paint_covers_what_was_there(data, tint(in_rect(0, 0, 256, 240), BACKGROUND), px, py);
    let titled = centered_drawn(blank, 18, "NES"@, 3, TITLE_COLOR);
    lemma_centred_stays(blank, 18, "NES"@, 3, TITLE_COLOR, px, py);
    lemma_centred_stays(titled, 110, "NO ROMS IN GAMES/"@, 2, ITEM_COLOR, px, py);
    let told = centered_drawn(titled, 110, "NO ROMS IN GAMES/"@, 2, ITEM_COLOR);
    lemma_centred_stays(told, 210, "ESC TO QUIT"@, 1, HINT_COLOR, px, py);
}

proof fn lemma_centred_stays(
    data: Seq<u8>,
    y: int,
    text: Seq<char>,
    scale: int,
    color: (u8, u8, u8),
    px: int,
    py: int,
)
    requires
        data.len() == FRAME_BYTES,
        scale > 0,
        0 <= px < 256,
        0 <= py < 240,
    ensures
        centered_drawn(data, y, text, scale, color).len() == FRAME_BYTES,
        py < y || py >= y + 7 * scale ==> pixel_at(
            centered_drawn(data, y, text, scale, color),
            px,
            py,
        ) == pixel_at(data, px, py),
{
    let x = centered_x(text, scale);
    let words = text_region(text, x, y, scale, text.len());
    paint_covers_what_was_there(data, tint(words, color), px, py);
    if py < y || py >= y + 7 * scale {
        lemma_label_stays(text, x, y, scale, text.len(), px, py);
    }
}

/// On a page with a list, what lies in a row's band is that row on the
/// background.
pub proof fn a_page_shows_its_rows(
    data: Seq<u8>,
    labels: Seq<Seq<char>>,
    selected: int,
    scroll: int,
    r: int,
    px: int,
    py: int,
)
    requires
        data.len() == FRAME_BYTES,
        0 <= scroll,
        0 <= r < 7,
        scroll + r < labels.len(),
        61 + 20 * r <= py < 81 + 20 * r,
        py < 200,
        0 <= px < 256,
    ensures
        ({
            let dark = Seq::new(
                FRAME_BYTES as nat,
                |i: int|
                    if i % 3 == 0 {
                        BACKGROUND.0
                    } else if i % 3 == 1 {
                        BACKGROUND.1
                    } else {
                        BACKGROUND.2
                    },
            );
            pixel_at(menu_drawn(data, labels, selected, scroll), px, py) == pixel_at(
                row_drawn(dark, labels[scroll + r], 64 + 20 * r, scroll + r == selected),
                px,
                py,
            )
        }),
{
    let dark = Seq::new(
        FRAME_BYTES as nat,
        |i: int|
            if i % 3 == 0 {
                BACKGROUND.0
            } else if i % 3 == 1 {
                BACKGROUND.1
            } else {
                BACKGROUND.2
            },
    );
    let blank = tinted(data, in_rect(0, 0, 256, 240), BACKGROUND);
    paint_covers_what_was_there(data, tint(in_rect(0, 0, 256, 240), BACKGROUND), px, py);
    assert(pixel_at(blank, px, py) == BACKGROUND);
    assert(pixel_at(dark, px, py) == BACKGROUND);
    let titled = centered_drawn(blank, 18, "NES"@, 3, TITLE_COLOR);
    lemma_centred_stays(blank, 18, "NES"@, 3, TITLE_COLOR, px, py);
    let n = rows_shown(labels.len() as int, scroll);
    let listed = rows_drawn(titled, labels, selected, scroll, n);
    rows_keep_to_their_bands(titled, labels, selected, scroll, n, r, px, py);
    let label = labels[scroll + r];
    a_row_shows_label_cursor_and_bar(titled, label, 64 + 20 * r, scroll + r == selected, px, py);
    a_row_shows_label_cursor_and_bar(dark, label, 64 + 20 * r, scroll + r == selected, px, py);
    lemma_centred_stays(listed, 52, ".."@, 1, HINT_COLOR, px, py);
    let above = hint_drawn(listed, 52, ".."@, scroll > 0);
    lemma_centred_stays(above, 200, ".."@, 1, HINT_COLOR, px, py);
    let below = hint_drawn(above, 200, ".."@, scroll + 7 < labels.len());
    lemma_centred_stays(
        below,
        226,
        "UP/DOWN SELECT   ENTER PLAY   ESC QUIT"@,
        1,
        HINT_COLOR,
        px,
        py,
    );
}

/// Dots stand above the list exactly where rows lie before the page, and below
/// it where rows lie behind.
pub proof fn dots_tell_of_more_rows(data: Seq<u8>, y: int, px: int, py: int)
    requires
        data.len() == FRAME_BYTES,
        0 <= px < 256,
        0 <= py < 240,
    ensures
        hint_drawn(data, y, ".."@, false) == data,
        pixel_at(hint_drawn(data, y, ".."@, true), px, py) == if char_covers(
            '.',
            centered_x(".."@, 1),
            y,
            1,
            px,
            py,
        ) || char_covers('.', centered_x(".."@, 1) + 6, y, 1, px, py) {
            HINT_COLOR
        } else {
            pixel_at(data, px, py)
        },
{
    reveal_strlit("..");
    reveal_with_fuel(text_covers, 3);
    let x = centered_x(".."@, 1);
    let words = text_region(".."@, x, y, 1, ".."@.len());
    assert(".."@.len() == 2 && ".."@[0] == '.' && ".."@[1] == '.');
    assert(words(px, py) == (char_covers('.', x, y, 1, px, py) || char_covers(
        '.',
        x + 6,
        y,
        1,
        px,
        py,
    )));
    paint_covers_what_was_there(data, tint(words, HINT_COLOR), px, py);
}

/// The screen's colours.
pub proof fn the_colours_differ()
    ensures
        ({
            let all = seq![
                BACKGROUND,
                TITLE_COLOR,
                ITEM_COLOR,
                SELECTED_COLOR,
                SELECTED_TEXT,
                CURSOR_COLOR,
                HINT_COLOR,
            ];
            forall|i: int, j: int| 0 <= i < j < 7 ==> #[trigger] all[i] != #[trigger] all[j]
        }),
{
}

/// Letters are drawn alike in both cases, one glyph each in the order of the
/// alphabet, and the digits follow them.
pub proof fn letters_are_drawn_as_capitals(k: int)
    requires
        0 <= k < 26,
    ensures
        glyph_number((97 + k) as char) == glyph_number((65 + k) as char),
        glyph_number((65 + k) as char) == Some(1 + k),
        k < 10 ==> glyph_number((48 + k) as char) == Some(27 + k),
        glyph_number(' ') == Some(0int),
        glyph_number((96) as char) is None,
        glyph_number((123) as char) is None,
{
}

/// No two capitals, digits or signs share a glyph.
pub proof fn glyphs_are_not_shared(c: char, d: char)
    requires
        glyph_number(c) is Some,
        glyph_number(c) == glyph_number(d),
    ensures
        upper_char(c) == upper_char(d),
        0 <= glyph_number(c)->0 < 46,
{
}

} // verus!
