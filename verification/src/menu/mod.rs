//! The game-selection screen shown at launch: which games it lists and in what
//! order, how it looks, and how it answers the keyboard. It draws into the same
//! 256x240 RGB frame that gameplay presents.

use crate::menu::draw::{
    centered_drawn, draw_text, draw_text_centered, fill, fill_rect, in_rect, text_drawn, text_fits,
    tinted, Rgb,
};
use crate::render::frame::Frame;
use vstd::prelude::*;

pub mod draw;
pub mod font;
pub mod laws;
pub mod order;

verus! {

pub const BACKGROUND: Rgb = (0x0B, 0x0C, 0x1A);

pub const TITLE_COLOR: Rgb = (0xF8, 0xC0, 0x30);

pub const ITEM_COLOR: Rgb = (0xC8, 0xC8, 0xD0);

pub const SELECTED_COLOR: Rgb = (0x30, 0x28, 0x18);

pub const SELECTED_TEXT: Rgb = (0xFF, 0xFF, 0xFF);

pub const CURSOR_COLOR: Rgb = (0x40, 0xC0, 0x60);

pub const HINT_COLOR: Rgb = (0x60, 0x64, 0x80);

pub const LIST_TOP: usize = 64;

pub const ROW_HEIGHT: usize = 20;

pub const LIST_LEFT: usize = 28;

pub const BOTTOM_MARGIN: usize = 24;

/// How many rows fit between the list top and the hint line at the bottom.
#[verifier::allow_in_spec]
pub fn visible_rows() -> usize
    returns
        7usize,
{
    let usable: usize = 240 - (LIST_TOP + BOTTOM_MARGIN + ROW_HEIGHT);
    usable / ROW_HEIGHT + 1
}

// ---- The picture ---------------------------------------------------------------

/// The labels' characters.
pub open spec fn label_chars(labels: Seq<String>) -> Seq<Seq<char>> {
    Seq::new(labels.len(), |i: int| labels[i]@)
}

/// One row of the list.
pub open spec fn row_drawn(data: Seq<u8>, label: Seq<char>, y: int, selected: bool) -> Seq<u8> {
    if selected {
        let bar = tinted(data, in_rect(22, y - 3, 212, 18), SELECTED_COLOR);
        let cursor = text_drawn(bar, 24, y, ">"@, 2, CURSOR_COLOR);
        text_drawn(cursor, 40, y, label, 2, SELECTED_TEXT)
    } else {
        text_drawn(data, 40, y, label, 2, ITEM_COLOR)
    }
}

/// The first `n` rows of the page that starts at `scroll`.
pub open spec fn rows_drawn(
    data: Seq<u8>,
    labels: Seq<Seq<char>>,
    selected: int,
    scroll: int,
    n: nat,
) -> Seq<u8>
    decreases n,
{
    if n == 0 {
        data
    } else {
        row_drawn(
            rows_drawn(data, labels, selected, scroll, (n - 1) as nat),
            labels[scroll + n - 1],
            64 + (n - 1) * 20,
            scroll + n - 1 == selected,
        )
    }
}

/// How many rows of the list a page shows.
pub open spec fn rows_shown(len: int, scroll: int) -> nat {
    if scroll >= len {
        0
    } else if len - scroll < 7 {
        (len - scroll) as nat
    } else {
        7
    }
}

/// Text where a condition holds.
pub open spec fn hint_drawn(data: Seq<u8>, y: int, text: Seq<char>, on: bool) -> Seq<u8> {
    if on {
        centered_drawn(data, y, text, 1, HINT_COLOR)
    } else {
        data
    }
}

/// The whole screen.
pub open spec fn menu_drawn(
    data: Seq<u8>,
    labels: Seq<Seq<char>>,
    selected: int,
    scroll: int,
) -> Seq<u8> {
    let blank = tinted(data, in_rect(0, 0, 256, 240), BACKGROUND);
    let titled = centered_drawn(blank, 18, "NES"@, 3, TITLE_COLOR);
    if labels.len() == 0 {
        let told = centered_drawn(titled, 110, "NO ROMS IN GAMES/"@, 2, ITEM_COLOR);
        centered_drawn(told, 210, "ESC TO QUIT"@, 1, HINT_COLOR)
    } else {
        let listed = rows_drawn(
            titled,
            labels,
            selected,
            scroll,
            rows_shown(labels.len() as int, scroll),
        );
        let above = hint_drawn(listed, 52, ".."@, scroll > 0);
        let below = hint_drawn(above, 200, ".."@, scroll + 7 < labels.len());
        centered_drawn(below, 226, "UP/DOWN SELECT   ENTER PLAY   ESC QUIT"@, 1, HINT_COLOR)
    }
}

fn draw_row(frame: &mut Frame, label: &str, y: usize, selected: bool)
    requires
        old(frame).wf(),
        3 <= y < 240,
        text_fits(40, y as int, label@, 2),
    ensures
        final(frame).wf(),
        final(frame)@ == row_drawn(old(frame)@, label@, y as int, selected),
{
    if selected {
        fill_rect(frame, LIST_LEFT - 6, y - 3, 212, ROW_HEIGHT - 2, SELECTED_COLOR);
        proof {
            reveal_strlit(">");
        }
        draw_text(frame, LIST_LEFT - 4, y, ">", 2, CURSOR_COLOR);
        draw_text(frame, 40, y, label, 2, SELECTED_TEXT);
    } else {
        draw_text(frame, 40, y, label, 2, ITEM_COLOR);
    }
}

proof fn lemma_short_text_fits(y: int, text: Seq<char>, scale: int)
    requires
        text.len() <= 64,
        0 <= y <= 240,
        1 <= scale <= 3,
    ensures
        text_fits(256, y, text, scale),
{
    let n = text.len() as int;
    assert((n + 1) * (6 * scale) <= 65 * 18) by (nonlinear_arith)
        requires
            0 <= n <= 64,
            1 <= scale <= 3,
    ;
}

/// Draws the screen. A label must be short enough for its pixels to have
/// addresses.
pub fn render_menu(frame: &mut Frame, labels: &Vec<String>, selected: usize, scroll: usize)
    requires
        old(frame).wf(),
        scroll <= usize::MAX - 7,
        forall|i: int|
            0 <= i < labels@.len() ==> text_fits(40, 240, #[trigger] labels@[i]@, 2),
    ensures
        final(frame).wf(),
        final(frame)@ == menu_drawn(
            old(frame)@,
            label_chars(labels@),
            selected as int,
            scroll as int,
        ),
{
    let ghost chars = label_chars(labels@);
    fill(frame, BACKGROUND);
    proof {
        reveal_strlit("NES");
        reveal_strlit("NO ROMS IN GAMES/");
        reveal_strlit("ESC TO QUIT");
        reveal_strlit("..");
        reveal_strlit("UP/DOWN SELECT   ENTER PLAY   ESC QUIT");
        lemma_short_text_fits(18, "NES"@, 3);
        lemma_short_text_fits(110, "NO ROMS IN GAMES/"@, 2);
        lemma_short_text_fits(210, "ESC TO QUIT"@, 1);
        lemma_short_text_fits(52, ".."@, 1);
        lemma_short_text_fits(200, ".."@, 1);
        lemma_short_text_fits(226, "UP/DOWN SELECT   ENTER PLAY   ESC QUIT"@, 1);
    }
    draw_text_centered(frame, 18, "NES", 3, TITLE_COLOR);
    let len: usize = labels.len();
    if len == 0 {
        draw_text_centered(frame, 110, "NO ROMS IN GAMES/", 2, ITEM_COLOR);
        draw_text_centered(frame, 210, "ESC TO QUIT", 1, HINT_COLOR);
        return ;
    }
    let ghost titled = frame@;
    let count: usize = if scroll >= len {
        0
    } else if len - scroll < 7 {
        len - scroll
    } else {
        7
    };
    let mut row: usize = 0;
    while row < count
        invariant
            row <= count,
            count <= 7,
            count > 0 ==> scroll + count <= len,
            len == labels@.len(),
            chars == label_chars(labels@),
            frame.wf(),
            forall|i: int|
                0 <= i < labels@.len() ==> text_fits(40, 240, #[trigger] labels@[i]@, 2),
            frame@ == rows_drawn(titled, chars, selected as int, scroll as int, row as nat),
        decreases count - row,
    {
        let index: usize = scroll + row;
        draw_row(
            frame,
            labels[index].as_str(),
            LIST_TOP + row * ROW_HEIGHT,
            index == selected,
        );
        row += 1;
    }
    // Scroll indicators when the list overflows the page.
    if scroll > 0 {
        draw_text_centered(frame, LIST_TOP - 12, "..", 1, HINT_COLOR);
    }
    if scroll + 7 < len {
        draw_text_centered(frame, LIST_TOP + 7 * ROW_HEIGHT - 4, "..", 1, HINT_COLOR);
    }
    draw_text_centered(frame, 226, "UP/DOWN SELECT   ENTER PLAY   ESC QUIT", 1, HINT_COLOR);
}

// ---- The selection -----------------------------------------------------------------

/// The scroll offset that keeps the selected row on the page, as near to the
/// given one as can be.
pub open spec fn scroll_for(selected: int, scroll: int, len: int) -> int {
    if len <= 7 {
        0
    } else {
        let bounded = if scroll < len - 7 {
            scroll
        } else {
            len - 7
        };
        if selected < bounded {
            selected
        } else if selected >= bounded + 7 {
            selected - 6
        } else {
            bounded
        }
    }
}

/// Keeps the selected row inside the visible page by nudging the scroll offset.
pub fn clamp_scroll(selected: usize, scroll: usize, len: usize) -> (r: usize)
    ensures
        r == scroll_for(selected as int, scroll as int, len as int),
{
    let per_page: usize = visible_rows();
    if len <= per_page {
        return 0;
    }
    let bounded: usize = if scroll < len - per_page {
        scroll
    } else {
        len - per_page
    };
    if selected < bounded {
        selected
    } else if selected - bounded >= per_page {
        selected - (per_page - 1)
    } else {
        bounded
    }
}

/// What the user chose on the selection screen.
#[derive(Clone, Copy, Debug, PartialEq, Eq, Structural)]
pub enum MenuChoice {
    /// Launch the game with this number in the list.
    Play(usize),
    /// Close the whole program (window closed or Escape pressed).
    Quit,
}

/// What can happen while the screen is shown.
#[derive(Clone, Copy, Debug, PartialEq, Eq, Structural)]
pub enum MenuEvent {
    Quit,
    Escape,
    Up,
    Down,
    Confirm,
    /// Any exposure or resize.
    Window,
    Other,
}

#[derive(Clone, Copy, Debug, PartialEq, Eq, Structural)]
pub struct MenuState {
    pub selected: usize,
    pub scroll: usize,
    pub dirty: bool,
}

impl MenuState {
    /// The selection lies in a list of `len` games, if there are any.
    pub open spec fn wf(self, len: int) -> bool {
        self.selected == 0 || self.selected < len
    }

    /// The choice that an event makes, if any.
    pub open spec fn chosen(self, event: MenuEvent, len: int) -> Option<MenuChoice> {
        match event {
            MenuEvent::Quit | MenuEvent::Escape => Some(MenuChoice::Quit),
            MenuEvent::Confirm => if len > 0 {
                Some(MenuChoice::Play(self.selected))
            } else {
                None
            },
            _ => None,
        }
    }

    /// The selection after an event: Up and Down wrap around the list.
    pub open spec fn after(self, event: MenuEvent, len: int) -> MenuState {
        if event == MenuEvent::Up && len > 0 {
            MenuState {
                selected: if self.selected == 0 {
                    (len - 1) as usize
                } else {
                    (self.selected - 1) as usize
                },
                dirty: true,
                ..self
            }
        } else if event == MenuEvent::Down && len > 0 {
            MenuState {
                selected: if self.selected + 1 == len {
                    0
                } else {
                    (self.selected + 1) as usize
                },
                dirty: true,
                ..self
            }
        } else if event == MenuEvent::Window {
            MenuState { dirty: true, ..self }
        } else {
            self
        }
    }

    pub fn new() -> (r: Self)
        ensures
            r == (MenuState { selected: 0, scroll: 0, dirty: true }),
    {
        MenuState { selected: 0, scroll: 0, dirty: true }
    }

    /// Answers one event on a list of `len` games.
    pub fn handle(&mut self, event: MenuEvent, len: usize) -> (r: Option<MenuChoice>)
        requires
            old(self).wf(len as int),
        ensures
            r == old(self).chosen(event, len as int),
            *final(self) == old(self).after(event, len as int),
            final(self).wf(len as int),
    {
        match event {
            MenuEvent::Quit | MenuEvent::Escape => Some(MenuChoice::Quit),
            MenuEvent::Up => {
                if len > 0 {
                    self.selected = if self.selected == 0 {
                        len - 1
                    } else {
                        self.selected - 1
                    };
                    self.dirty = true;
                }
                None
            },
            MenuEvent::Down => {
                if len > 0 {
                    self.selected = if self.selected + 1 == len {
                        0
                    } else {
                        self.selected + 1
                    };
                    self.dirty = true;
                }
                None
            },
            MenuEvent::Confirm => if len > 0 {
                Some(MenuChoice::Play(self.selected))
            } else {
                None
            },
            MenuEvent::Window => {
                self.dirty = true;
                None
            },
            MenuEvent::Other => None,
        }
    }

    /// Redraws the screen if it needs it; tells whether it did.
    pub fn refresh(&mut self, frame: &mut Frame, labels: &Vec<String>) -> (r: bool)
        requires
            old(frame).wf(),
            old(self).wf(labels@.len() as int),
            forall|i: int|
                0 <= i < labels@.len() ==> text_fits(40, 240, #[trigger] labels@[i]@, 2),
        ensures
            final(frame).wf(),
            r == old(self).dirty,
            ({
                let scroll = scroll_for(
                    old(self).selected as int,
                    old(self).scroll as int,
                    labels@.len() as int,
                );
                if r {
                    &&& *final(self) == (MenuState {
                        scroll: scroll as usize,
                        dirty: false,
                        ..*old(self)
                    })
                    &&& final(frame)@ == menu_drawn(
                        old(frame)@,
                        label_chars(labels@),
                        old(self).selected as int,
                        scroll,
                    )
                } else {
                    &&& *final(self) == *old(self)
                    &&& final(frame)@ == old(frame)@
                }
            }),
            final(self).wf(labels@.len() as int),
    {
        if !self.dirty {
            return false;
        }
        self.scroll = clamp_scroll(self.selected, self.scroll, labels.len());
        render_menu(frame, labels, self.selected, self.scroll);
        self.dirty = false;
        true
    }
}

/// The selected row is always on the page, and the page never runs past the end
/// of a list that fills it.
pub proof fn the_selection_stays_visible(selected: int, scroll: int, len: int)
    requires
        0 <= selected < len,
        0 <= scroll,
    ensures
        ({
            let s = scroll_for(selected, scroll, len);
            &&& 0 <= s <= selected < s + 7
            &&& len >= 7 ==> s + 7 <= len
            &&& scroll_for(selected, s, len) == s
        }),
{
}

/// Up and Down undo each other.
pub proof fn up_and_down_undo_each_other(s: MenuState, len: usize)
    requires
        0 < len,
        s.selected < len,
    ensures
        s.after(MenuEvent::Up, len as int).after(MenuEvent::Down, len as int).selected
            == s.selected,
        s.after(MenuEvent::Down, len as int).after(MenuEvent::Up, len as int).selected
            == s.selected,
{
}

} // verus!
