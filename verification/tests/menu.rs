//! The selection screen.

use nes_emulator::menu::draw::{text_width, CHAR_ADVANCE};
use nes_emulator::menu::font;
use nes_emulator::menu::{clamp_scroll, visible_rows};

#[test]
fn text_width_matches_glyph_layout() {
    // One glyph: just the glyph width, no trailing advance.
    assert_eq!(text_width("A", 1), font::GLYPH_WIDTH);
    // Three glyphs at scale 2: (3*6 - 1) * 2.
    assert_eq!(text_width("ABC", 2), (3 * CHAR_ADVANCE - 1) * 2);
    assert_eq!(text_width("", 3), 0);
}

#[test]
fn scroll_keeps_selection_visible() {
    let per_page = visible_rows();
    let len = per_page + 5;
    // Selecting past the first page scrolls down enough to show it.
    let scroll = clamp_scroll(per_page, 0, len);
    assert!(per_page >= scroll && per_page < scroll + per_page);
    // Selecting the last item never scrolls past the end.
    let scroll = clamp_scroll(len - 1, 0, len);
    assert_eq!(scroll, len - per_page);
}

#[test]
fn every_supported_glyph_renders() {
    // Filenames and menu chrome only use these; make sure none are missing.
    for c in "ABCDEFGHIJKLMNOPQRSTUVWXYZ0123456789 .-_>:/()!".chars() {
        assert!(font::glyph(c).is_some(), "missing glyph for {c:?}");
    }
}

#[test]
fn only_the_drawable_characters_have_glyphs() {
    let drawable = "ABCDEFGHIJKLMNOPQRSTUVWXYZ0123456789 .-_>:/()!";
    for code in 0..0x250u32 {
        let c = char::from_u32(code).unwrap();
        let upper = c.to_ascii_uppercase();
        let glyph = font::glyph(c);
        assert_eq!(glyph.is_some(), drawable.contains(upper), "{c:?}");
        assert_eq!(glyph, font::glyph(upper));
        if let Some(rows) = glyph {
            assert!(rows.iter().all(|&row| row < 0x20));
            assert_eq!(rows.iter().all(|&row| row == 0), c == ' ');
        }
    }
    assert_eq!(font::glyph('k'), Some([0x11, 0x12, 0x14, 0x18, 0x14, 0x12, 0x11]));
}
