//! The menu's 5 by 7 bitmap font. It covers the characters that show up in file
//! names plus the symbols that the menu draws.

use vstd::prelude::*;

verus! {

pub const GLYPH_WIDTH: usize = 5;

pub const GLYPH_HEIGHT: usize = 7;

/// The glyphs, in the order of `glyph_number`. Each is seven rows; the low five
/// bits of a row are its columns, most significant bit leftmost.
pub const GLYPHS: [[u8; 7]; 46] = [
    [0x00, 0x00, 0x00, 0x00, 0x00, 0x00, 0x00],  // space
    [0x0e, 0x11, 0x11, 0x1f, 0x11, 0x11, 0x11],  // 'A'
    [0x1e, 0x11, 0x11, 0x1e, 0x11, 0x11, 0x1e],  // 'B'
    [0x0e, 0x11, 0x10, 0x10, 0x10, 0x11, 0x0e],  // 'C'
    [0x1e, 0x11, 0x11, 0x11, 0x11, 0x11, 0x1e],  // 'D'
    [0x1f, 0x10, 0x10, 0x1e, 0x10, 0x10, 0x1f],  // 'E'
    [0x1f, 0x10, 0x10, 0x1e, 0x10, 0x10, 0x10],  // 'F'
    [0x0e, 0x11, 0x10, 0x17, 0x11, 0x11, 0x0e],  // 'G'
    [0x11, 0x11, 0x11, 0x1f, 0x11, 0x11, 0x11],  // 'H'
    [0x0e, 0x04, 0x04, 0x04, 0x04, 0x04, 0x0e],  // 'I'
    [0x07, 0x02, 0x02, 0x02, 0x12, 0x12, 0x0c],  // 'J'
    [0x11, 0x12, 0x14, 0x18, 0x14, 0x12, 0x11],  // 'K'
    [0x10, 0x10, 0x10, 0x10, 0x10, 0x10, 0x1f],  // 'L'
    [0x11, 0x1b, 0x15, 0x15, 0x11, 0x11, 0x11],  // 'M'
    [0x11, 0x11, 0x19, 0x15, 0x13, 0x11, 0x11],  // 'N'
    [0x0e, 0x11, 0x11, 0x11, 0x11, 0x11, 0x0e],  // 'O'
    [0x1e, 0x11, 0x11, 0x1e, 0x10, 0x10, 0x10],  // 'P'
    [0x0e, 0x11, 0x11, 0x11, 0x15, 0x12, 0x0d],  // 'Q'
    [0x1e, 0x11, 0x11, 0x1e, 0x14, 0x12, 0x11],  // 'R'
    [0x0e, 0x11, 0x10, 0x0e, 0x01, 0x11, 0x0e],  // 'S'
    [0x1f, 0x04, 0x04, 0x04, 0x04, 0x04, 0x04],  // 'T'
    [0x11, 0x11, 0x11, 0x11, 0x11, 0x11, 0x0e],  // 'U'
    [0x11, 0x11, 0x11, 0x11, 0x11, 0x0a, 0x04],  // 'V'
    [0x11, 0x11, 0x11, 0x15, 0x15, 0x1b, 0x11],  // 'W'
    [0x11, 0x11, 0x0a, 0x04, 0x0a, 0x11, 0x11],  // 'X'
    [0x11, 0x11, 0x0a, 0x04, 0x04, 0x04, 0x04],  // 'Y'
    [0x1f, 0x01, 0x02, 0x04, 0x08, 0x10, 0x1f],  // 'Z'
    [0x0e, 0x11, 0x13, 0x15, 0x19, 0x11, 0x0e],  // '0'
    [0x04, 0x0c, 0x04, 0x04, 0x04, 0x04, 0x0e],  // '1'
    [0x0e, 0x11, 0x01, 0x02, 0x04, 0x08, 0x1f],  // '2'
    [0x1f, 0x02, 0x04, 0x02, 0x01, 0x11, 0x0e],  // '3'
    [0x02, 0x06, 0x0a, 0x12, 0x1f, 0x02, 0x02],  // '4'
    [0x1f, 0x10, 0x1e, 0x01, 0x01, 0x11, 0x0e],  // '5'
    [0x0e, 0x10, 0x10, 0x1e, 0x11, 0x11, 0x0e],  // '6'
    [0x1f, 0x01, 0x02, 0x04, 0x08, 0x08, 0x08],  // '7'
    [0x0e, 0x11, 0x11, 0x0e, 0x11, 0x11, 0x0e],  // '8'
    [0x0e, 0x11, 0x11, 0x0f, 0x01, 0x01, 0x0e],  // '9'
    [0x00, 0x00, 0x00, 0x00, 0x00, 0x06, 0x06],  // '.'
    [0x00, 0x00, 0x00, 0x0e, 0x00, 0x00, 0x00],  // '-'
    [0x00, 0x00, 0x00, 0x00, 0x00, 0x00, 0x1f],  // '_'
    [0x10, 0x08, 0x04, 0x02, 0x04, 0x08, 0x10],  // '>'
    [0x00, 0x06, 0x06, 0x00, 0x06, 0x06, 0x00],  // ':'
    [0x01, 0x02, 0x02, 0x04, 0x08, 0x08, 0x10],  // '/'
    [0x06, 0x08, 0x08, 0x08, 0x08, 0x08, 0x06],  // '('
    [0x0c, 0x02, 0x02, 0x02, 0x02, 0x02, 0x0c],  // ')'
    [0x04, 0x04, 0x04, 0x04, 0x04, 0x00, 0x04],  // '!'
];

/// The ASCII upper-case form of a character; other characters are unchanged.
pub open spec fn upper_char(c: char) -> char {
    if 'a' <= c && c <= 'z' {
        ((c as u8) - 32) as u8 as char
    } else {
        c
    }
}

/// A character's place in the table: the space, the letters, the digits, then
/// the symbols.
pub open spec fn glyph_number(c: char) -> Option<int> {
    let u = upper_char(c);
    if u == ' ' {
        Some(0)
    } else if 'A' <= u && u <= 'Z' {
        Some(1 + (u as u8 - 'A' as u8))
    } else if '0' <= u && u <= '9' {
        Some(27 + (u as u8 - '0' as u8))
    } else if u == '.' {
        Some(37)
    } else if u == '-' {
        Some(38)
    } else if u == '_' {
        Some(39)
    } else if u == '>' {
        Some(40)
    } else if u == ':' {
        Some(41)
    } else if u == '/' {
        Some(42)
    } else if u == '(' {
        Some(43)
    } else if u == ')' {
        Some(44)
    } else if u == '!' {
        Some(45)
    } else {
        None
    }
}

/// The rows of a glyph.
#[verifier::opaque]
pub open spec fn glyph_rows(number: int) -> Seq<u8> {
    GLYPHS@[number]@
}

/// The seven-row bitmap for `c`, or `None` for characters with no glyph.
pub fn glyph(c: char) -> (r: Option<[u8; 7]>)
    ensures
        match r {
            Some(rows) => glyph_number(c) is Some && rows@ == glyph_rows(glyph_number(c)->0),
            None => glyph_number(c) is None,
        },
{
    proof {
        reveal(glyph_rows);
    }
    let u: char = if 'a' <= c && c <= 'z' {
        ((c as u8) - 32) as char
    } else {
        c
    };
    let number: usize = if u == ' ' {
        0
    } else if 'A' <= u && u <= 'Z' {
        1 + (u as u8 - 'A' as u8) as usize
    } else if '0' <= u && u <= '9' {
        27 + (u as u8 - '0' as u8) as usize
    } else if u == '.' {
        37
    } else if u == '-' {
        38
    } else if u == '_' {
        39
    } else if u == '>' {
        40
    } else if u == ':' {
        41
    } else if u == '/' {
        42
    } else if u == '(' {
        43
    } else if u == ')' {
        44
    } else if u == '!' {
        45
    } else {
        return None;
    };
    Some(GLYPHS[number])
}

/// The characters with a glyph, small letters aside, in the order of the table.
pub open spec fn drawable() -> Seq<char> {
    seq![
        ' ', 'A', 'B', 'C', 'D', 'E', 'F', 'G', 'H', 'I', 'J', 'K', 'L', 'M', 'N', 'O', 'P', 'Q',
        'R', 'S', 'T', 'U', 'V', 'W', 'X', 'Y', 'Z', '0', '1', '2', '3', '4', '5', '6', '7', '8',
        '9', '.', '-', '_', '>', ':', '/', '(', ')', '!',
    ]
}

/// Every glyph has seven rows of five columns, and only the space is blank.
proof fn lemma_glyph_shape(number: int)
    requires
        0 <= number < 46,
    ensures
        glyph_rows(number).len() == 7,
        forall|row: int| 0 <= row < 7 ==> #[trigger] glyph_rows(number)[row] < 0x20,
        number == 0 <==> (forall|row: int| 0 <= row < 7 ==> #[trigger] glyph_rows(number)[row] == 0),
{
    reveal(glyph_rows);
    let rows = glyph_rows(number);
    assert(rows[0] < 0x20 && rows[1] < 0x20 && rows[2] < 0x20 && rows[3] < 0x20 && rows[4] < 0x20
        && rows[5] < 0x20 && rows[6] < 0x20);
    if number == 0 {
        assert(rows[0] == 0 && rows[1] == 0 && rows[2] == 0 && rows[3] == 0 && rows[4] == 0
            && rows[5] == 0 && rows[6] == 0);
    } else {
        assert(rows[3] > 0 || rows[4] > 0 || rows[6] > 0);
    }
}

/// A character has a glyph exactly if its upper-case form is one of the
/// drawable characters, whose place in the table it then has; case makes no
/// difference; rows keep to five columns; and only the space is drawn blank.
pub proof fn the_font_draws_its_characters(c: char)
    ensures
        glyph_number(c) is Some <==> drawable().contains(upper_char(c)),
        glyph_number(c) matches Some(number) ==> {
            &&& 0 <= number < drawable().len()
            &&& drawable()[number] == upper_char(c)
            &&& glyph_rows(number).len() == GLYPH_HEIGHT
            &&& forall|row: int|
                0 <= row < GLYPH_HEIGHT ==> #[trigger] glyph_rows(number)[row] < 0x20
            &&& (forall|row: int| 0 <= row < GLYPH_HEIGHT ==> #[trigger] glyph_rows(number)[row] == 0)
                <==> c == ' '
        },
        glyph_number(upper_char(c)) == glyph_number(c),
        upper_char(upper_char(c)) == upper_char(c),
{
    if let Some(number) = glyph_number(c) {
        lemma_glyph_shape(number);
        assert(drawable()[number] == upper_char(c));
    }
}

} // verus!
