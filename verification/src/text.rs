//! Plain-text helpers: decimal and hexadecimal numerals, ASCII case folding
//! and the small scanners that option and script parsing are built from.

use vstd::prelude::*;

verus! {

/// The character of a decimal digit.
pub open spec fn digit_char(d: int) -> char {
    if d == 0 { '0' } else if d == 1 { '1' } else if d == 2 { '2' } else if d == 3 { '3' }
    else if d == 4 { '4' } else if d == 5 { '5' } else if d == 6 { '6' } else if d == 7 { '7' }
    else if d == 8 { '8' } else { '9' }
}

/// The decimal numeral of `n`, most significant digit first, no padding.
pub open spec fn decimal_chars(n: nat) -> Seq<char>
    decreases n,
{
    if n < 10 {
        seq![digit_char(n as int)]
    } else {
        decimal_chars(n / 10).push(digit_char((n % 10) as int))
    }
}

fn digit_text(d: u64) -> (r: &'static str)
    requires
        d < 10,
    ensures
        r@ == seq![digit_char(d as int)],
{
    proof {
        reveal_strlit("0");
        reveal_strlit("1");
        reveal_strlit("2");
        reveal_strlit("3");
        reveal_strlit("4");
        reveal_strlit("5");
        reveal_strlit("6");
        reveal_strlit("7");
        reveal_strlit("8");
        reveal_strlit("9");
    }
    match d {
        0 => "0",
        1 => "1",
        2 => "2",
        3 => "3",
        4 => "4",
        5 => "5",
        6 => "6",
        7 => "7",
        8 => "8",
        _ => "9",
    }
}

/// Formats `n` as a decimal numeral.
pub fn decimal(n: u64) -> (r: String)
    ensures
        r@ == decimal_chars(n as nat),
    decreases n,
{
    if n < 10 {
        String::from_str(digit_text(n))
    } else {
        let mut s = decimal(n / 10);
        s.append(digit_text(n % 10));
        s
    }
}

/// The upper-case hexadecimal digit of a nibble.
pub open spec fn hex_char(d: int) -> char {
    if d < 10 {
        digit_char(d)
    } else if d == 10 { 'A' } else if d == 11 { 'B' } else if d == 12 { 'C' }
    else if d == 13 { 'D' } else if d == 14 { 'E' } else { 'F' }
}

/// A byte as two upper-case hexadecimal digits.
pub open spec fn hex_byte_chars(n: u8) -> Seq<char> {
    seq![hex_char((n / 16) as int), hex_char((n % 16) as int)]
}

fn hex_text(d: u8) -> (r: &'static str)
    requires
        d < 16,
    ensures
        r@ == seq![hex_char(d as int)],
{
    proof {
        reveal_strlit("A");
        reveal_strlit("B");
        reveal_strlit("C");
        reveal_strlit("D");
        reveal_strlit("E");
        reveal_strlit("F");
    }
    if d < 10 {
        return digit_text(d as u64);
    }
    match d {
        10 => "A",
        11 => "B",
        12 => "C",
        13 => "D",
        14 => "E",
        _ => "F",
    }
}

/// The lower-case hexadecimal digit of a nibble.
pub open spec fn lower_hex_char(d: int) -> char {
    if d < 10 {
        digit_char(d)
    } else {
        (('a' as int) + (d - 10)) as char
    }
}

/// The last `width` hexadecimal digits of a number.
pub open spec fn hex_chars(n: nat, width: nat, upper: bool) -> Seq<char>
    decreases width,
{
    if width == 0 {
        Seq::empty()
    } else {
        let last = if upper {
            hex_char((n % 16) as int)
        } else {
            lower_hex_char((n % 16) as int)
        };
        hex_chars(n / 16, (width - 1) as nat, upper).push(last)
    }
}

fn lower_hex_text(d: u8) -> (r: &'static str)
    requires
        d < 16,
    ensures
        r@ == seq![lower_hex_char(d as int)],
{
    let text = match d {
        10 => "a",
        11 => "b",
        12 => "c",
        13 => "d",
        14 => "e",
        15 => "f",
        _ => digit_text(d as u64),
    };
    proof {
        reveal_strlit("a");
        reveal_strlit("b");
        reveal_strlit("c");
        reveal_strlit("d");
        reveal_strlit("e");
        reveal_strlit("f");
        assert(text@ =~= seq![lower_hex_char(d as int)]);
    }
    text
}

/// Formats the last `width` hexadecimal digits of a number.
pub fn hex(n: u64, width: u32, upper: bool) -> (r: String)
    ensures
        r@ == hex_chars(n as nat, width as nat, upper),
    decreases width,
{
    if width == 0 {
        let r = String::from_str("");
        proof {
            reveal_strlit("");
        }
        assert(r@ =~= Seq::<char>::empty());
        return r;
    }
    let mut s = hex(n / 16, width - 1, upper);
    let ghost head = s@;
    let d: u8 = (n % 16) as u8;
    let ghost last = if upper {
        hex_char((n % 16) as int)
    } else {
        lower_hex_char((n % 16) as int)
    };
    s.append(
        if upper {
            hex_text(d)
        } else {
            lower_hex_text(d)
        },
    );
    assert(s@ =~= head.push(last));
    s
}

/// Formats a byte as two upper-case hexadecimal digits.
pub fn hex_byte(n: u8) -> (r: String)
    ensures
        r@ == hex_byte_chars(n),
{
    let mut s = String::from_str(hex_text(n / 16));
    s.append(hex_text(n % 16));
    s
}

/// The ASCII lower-case form of a character; other characters are unchanged.
pub open spec fn lower_char(c: char) -> char {
    if 'A' <= c && c <= 'Z' {
        ((c as u8) + 32) as u8 as char
    } else {
        c
    }
}

/// A text after ASCII lower-casing.
pub open spec fn lower_chars(s: Seq<char>) -> Seq<char> {
    Seq::new(s.len(), |i: int| lower_char(s[i]))
}

/// Lower-cases the ASCII letters of a string.
pub fn lower_of(s: &str) -> (r: Vec<char>)
    ensures
        r@ == lower_chars(s@),
{
    let source = chars_of(s);
    let mut out: Vec<char> = Vec::new();
    let mut i: usize = 0;
    while i < source.len()
        invariant
            source@ == s@,
            i <= source.len(),
            out@ == lower_chars(s@).take(i as int),
        decreases source.len() - i,
    {
        let c = source[i];
        let folded = if 'A' <= c && c <= 'Z' {
            ((c as u8) + 32) as char
        } else {
            c
        };
        out.push(folded);
        i += 1;
    }
    out
}

/// Whether a vector of characters spells `text`.
pub fn spells(chars: &Vec<char>, text: &str) -> (r: bool)
    ensures
        r == (chars@ == text@),
{
    let other = chars_of(text);
    if chars.len() != other.len() {
        return false;
    }
    let mut i: usize = 0;
    while i < chars.len()
        invariant
            other@ == text@,
            chars.len() == other.len(),
            i <= chars.len(),
            forall|j: int| 0 <= j < i ==> chars@[j] == text@[j],
        decreases chars.len() - i,
    {
        if chars[i] != other[i] {
            return false;
        }
        i += 1;
    }
    assert(chars@ =~= text@);
    true
}

/// The characters of a string as a vector.
pub fn chars_of(s: &str) -> (r: Vec<char>)
    ensures
        r@ == s@,
{
    let mut out: Vec<char> = Vec::new();
    for c in it: s.chars()
        invariant
            it.seq() == s@,
            out@ == s@.take(it.index() as int),
    {
        out.push(c);
    }
    out
}

// ---- Scanning ---------------------------------------------------------------------

/// Whether two texts are the same.
pub fn same(a: &str, b: &str) -> (r: bool)
    ensures
        r == (a@ == b@),
{
    spells(&chars_of(a), b)
}

/// What follows a prefix, if the text has it.
pub fn strip_prefix<'a>(s: &'a str, prefix: &str) -> (r: Option<&'a str>)
    ensures
        match r {
            Some(rest) => s@ == prefix@ + rest@,
            None => !prefix@.is_prefix_of(s@),
        },
{
    let chars = chars_of(s);
    let wanted = chars_of(prefix);
    if chars.len() < wanted.len() {
        return None;
    }
    let mut i: usize = 0;
    while i < wanted.len()
        invariant
            chars@ == s@,
            wanted@ == prefix@,
            wanted.len() <= chars.len(),
            i <= wanted.len(),
            forall|j: int| 0 <= j < i ==> s@[j] == prefix@[j],
        decreases wanted.len() - i,
    {
        if chars[i] != wanted[i] {
            return None;
        }
        i += 1;
    }
    let rest = s.substring_char(wanted.len(), chars.len());
    assert(s@ =~= prefix@ + rest@);
    Some(rest)
}

/// The place of the first `c` at or behind `from`, or the end.
pub open spec fn first_at(s: Seq<char>, c: char, from: int) -> int
    decreases s.len() - from,
{
    if from >= s.len() {
        s.len() as int
    } else if s[from] == c {
        from
    } else {
        first_at(s, c, from + 1)
    }
}

fn find_from(chars: &Vec<char>, c: char, from: usize) -> (r: usize)
    requires
        from <= chars@.len(),
    ensures
        r == first_at(chars@, c, from as int),
        from <= r <= chars@.len(),
{
    let mut i: usize = from;
    while i < chars.len()
        invariant
            from <= i <= chars@.len(),
            first_at(chars@, c, i as int) == first_at(chars@, c, from as int),
        decreases chars.len() - i,
    {
        if chars[i] == c {
            return i;
        }
        i += 1;
    }
    i
}

/// The text on both sides of the first `c`, if there is one.
pub open spec fn split_once_at(s: Seq<char>, c: char) -> Option<(Seq<char>, Seq<char>)> {
    let at = first_at(s, c, 0);
    if at < s.len() {
        Some((s.subrange(0, at), s.subrange(at + 1, s.len() as int)))
    } else {
        None
    }
}

pub fn split_once<'a>(s: &'a str, c: char) -> (r: Option<(&'a str, &'a str)>)
    ensures
        match r {
            Some((before, after)) => split_once_at(s@, c) == Some((before@, after@)),
            None => split_once_at(s@, c) is None,
        },
{
    let chars = chars_of(s);
    let at: usize = find_from(&chars, c, 0);
    if at < chars.len() {
        Some((s.substring_char(0, at), s.substring_char(at + 1, chars.len())))
    } else {
        None
    }
}

/// The pieces of a text from `from` on, cut at every `c`.
pub open spec fn pieces_from(s: Seq<char>, c: char, from: int) -> Seq<Seq<char>>
    decreases s.len() - from,
    when 0 <= from <= s.len()
{
    let at = first_at(s, c, from);
    if at < s.len() && at >= from {
        seq![s.subrange(from, at)] + pieces_from(s, c, at + 1)
    } else {
        seq![s.subrange(from, s.len() as int)]
    }
}

/// The characters of some texts.
pub open spec fn views(texts: Seq<&str>) -> Seq<Seq<char>> {
    Seq::new(texts.len(), |i: int| texts[i]@)
}

/// Cuts a text at every `c`.
pub fn split<'a>(s: &'a str, c: char) -> (r: Vec<&'a str>)
    ensures
        views(r@) == pieces_from(s@, c, 0),
{
    let chars = chars_of(s);
    let len: usize = chars.len();
    let mut out: Vec<&'a str> = Vec::new();
    let mut from: usize = 0;
    assert(views(out@) + pieces_from(s@, c, 0) =~= pieces_from(s@, c, 0));
    loop
        invariant
            chars@ == s@,
            len == s@.len(),
            from <= len,
            views(out@) + pieces_from(s@, c, from as int) == pieces_from(s@, c, 0),
        decreases len - from,
    {
        let at: usize = find_from(&chars, c, from);
        let piece = s.substring_char(from, at);
        let ghost before = out@;
        out.push(piece);
        assert(views(out@) =~= views(before) + seq![piece@]);
        if at >= len {
            assert(views(out@) =~= pieces_from(s@, c, 0));
            return out;
        }
        assert(views(out@) + pieces_from(s@, c, at + 1) =~= views(before) + (seq![piece@]
            + pieces_from(s@, c, at + 1)));
        from = at + 1;
    }
}

// ---- Quoting --------------------------------------------------------------------------

/// How std's `Debug` writes a text: in double quotes, with what cannot be
/// printed escaped.
pub uninterp spec fn debug_text(s: Seq<char>) -> Seq<char>;

/// Calls `<str as Debug>::fmt` through `format!` with `{:?}`. Claims only that
/// the result is a function of the text; how single characters are escaped is
/// left unsaid.
#[verifier::external_body]
pub(crate) fn quoted(s: &str) -> (r: String)
    ensures
        r@ == debug_text(s@),
{
    format!("{s:?}")
}

// ---- Decoding and trimming ------------------------------------------------------------

/// The text that std makes of bytes, with a replacement character for whatever
/// is not valid UTF-8.
pub uninterp spec fn lossy_text(bytes: Seq<u8>) -> Seq<char>;

/// Calls `String::from_utf8_lossy`. Claims that the result is a function of the
/// bytes, and that valid UTF-8 is decoded as it stands; where the replacement
/// characters fall in other bytes is left unsaid.
#[verifier::external_body]
pub(crate) fn decoded(bytes: &[u8]) -> (r: String)
    ensures
        r@ == lossy_text(bytes@),
        vstd::utf8::valid_utf8(bytes@) ==> r@ == vstd::utf8::decode_utf8(bytes@),
{
    String::from_utf8_lossy(bytes).into_owned()
}

/// White space, as Unicode has it.
pub open spec fn is_space(c: char) -> bool {
    let n = c as u32;
    ||| 0x09 <= n <= 0x0d
    ||| n == 0x20
    ||| n == 0x85
    ||| n == 0xa0
    ||| n == 0x1680
    ||| 0x2000 <= n <= 0x200a
    ||| n == 0x2028
    ||| n == 0x2029
    ||| n == 0x202f
    ||| n == 0x205f
    ||| n == 0x3000
}

fn space(c: char) -> (r: bool)
    ensures
        r == is_space(c),
{
    let n: u32 = c as u32;
    (0x09 <= n && n <= 0x0d) || n == 0x20 || n == 0x85 || n == 0xa0 || n == 0x1680 || (0x2000 <= n
        && n <= 0x200a) || n == 0x2028 || n == 0x2029 || n == 0x202f || n == 0x205f || n == 0x3000
}

/// A text without the white space at either end.
pub open spec fn trimmed(s: Seq<char>) -> Seq<char>
    decreases s.len(),
{
    if s.len() > 0 && is_space(s[0]) {
        trimmed(s.skip(1))
    } else if s.len() > 0 && is_space(s.last()) {
        trimmed(s.drop_last())
    } else {
        s
    }
}

/// Drops the white space at either end of a text.
pub fn trim(s: &str) -> (r: String)
    ensures
        r@ == trimmed(s@),
{
    let chars = chars_of(s);
    let len: usize = chars.len();
    let mut from: usize = 0;
    assert(s@.subrange(0, len as int) =~= s@);
    while from < len && space(chars[from])
        invariant
            chars@ == s@,
            from <= len,
            len == s@.len(),
            trimmed(s@.subrange(from as int, len as int)) == trimmed(s@),
        decreases len - from,
    {
        assert(s@.subrange(from as int, len as int).skip(1) =~= s@.subrange(
            from + 1,
            len as int,
        ));
        from += 1;
    }
    let mut to: usize = len;
    while to > from && space(chars[to - 1])
        invariant
            chars@ == s@,
            from <= to <= len,
            len == s@.len(),
            from < to ==> !is_space(s@[from as int]),
            trimmed(s@.subrange(from as int, to as int)) == trimmed(s@),
        decreases to - from,
    {
        assert(s@.subrange(from as int, to as int).drop_last() =~= s@.subrange(
            from as int,
            to - 1,
        ));
        to -= 1;
    }
    String::from_str(s.substring_char(from, to))
}

/// A trimmed text begins and ends with something to see, and trimming it again
/// changes nothing.
pub proof fn a_trimmed_text_stays(s: Seq<char>)
    ensures
        trimmed(trimmed(s)) == trimmed(s),
        trimmed(s).len() > 0 ==> !is_space(trimmed(s)[0]) && !is_space(trimmed(s).last()),
    decreases s.len(),
{
    if s.len() > 0 && is_space(s[0]) {
        a_trimmed_text_stays(s.skip(1));
    } else if s.len() > 0 && is_space(s.last()) {
        a_trimmed_text_stays(s.drop_last());
    }
}

// ---- Numbers ------------------------------------------------------------------------

/// The value of a digit in a base up to sixteen.
pub open spec fn digit_value(c: char, base: int) -> Option<nat> {
    let v = if '0' <= c && c <= '9' {
        c as int - '0' as int
    } else if 'a' <= c && c <= 'f' {
        c as int - 'a' as int + 10
    } else if 'A' <= c && c <= 'F' {
        c as int - 'A' as int + 10
    } else {
        99
    };
    if v < base {
        Some(v as nat)
    } else {
        None
    }
}

fn digit(c: char, base: u64) -> (r: Option<u64>)
    requires
        base <= 16,
    ensures
        match r {
            Some(v) => digit_value(c, base as int) == Some(v as nat) && v < base,
            None => digit_value(c, base as int) is None,
        },
{
    let v: u64 = if '0' <= c && c <= '9' {
        (c as u32 - '0' as u32) as u64
    } else if 'a' <= c && c <= 'f' {
        (c as u32 - 'a' as u32) as u64 + 10
    } else if 'A' <= c && c <= 'F' {
        (c as u32 - 'A' as u32) as u64 + 10
    } else {
        99
    };
    if v < base {
        Some(v)
    } else {
        None
    }
}

/// The value of a run of digits, if all of it are digits.
pub open spec fn digits_value(s: Seq<char>, base: int) -> Option<nat>
    decreases s.len(),
{
    if s.len() == 0 {
        Some(0)
    } else {
        match (digits_value(s.drop_last(), base), digit_value(s.last(), base)) {
            (Some(head), Some(last)) => Some((head * base + last) as nat),
            _ => None,
        }
    }
}

/// The number that a text names: an optional plus sign and at least one digit.
pub open spec fn number_named(s: Seq<char>, base: int) -> Option<nat> {
    let digits = if s.len() > 0 && s[0] == '+' {
        s.skip(1)
    } else {
        s
    };
    if digits.len() == 0 {
        None
    } else {
        digits_value(digits, base)
    }
}

/// The same, if it is not above `max`.
pub open spec fn number_up_to(s: Seq<char>, base: int, max: int) -> Option<nat> {
    match number_named(s, base) {
        Some(v) => if v <= max {
            Some(v)
        } else {
            None
        },
        None => None,
    }
}

proof fn lemma_digits_grow(s: Seq<char>, base: int, n: int)
    requires
        1 <= base,
        0 <= n <= s.len(),
        digits_value(s, base) is Some,
    ensures
        digits_value(s.take(n), base) is Some,
        digits_value(s.take(n), base)->0 <= digits_value(s, base)->0,
    decreases s.len(),
{
    if n == s.len() {
        assert(s.take(n) =~= s);
    } else {
        lemma_digits_grow(s.drop_last(), base, n);
        assert(s.drop_last().take(n) =~= s.take(n));
        let head = digits_value(s.drop_last(), base)->0;
        assert(head * base >= head) by (nonlinear_arith)
            requires
                base >= 1,
                head >= 0,
        ;
    }
}

/// Reads a number of at most `max`.
pub fn parse_number(s: &str, base: u64, max: u64) -> (r: Option<u64>)
    requires
        1 <= base <= 16,
    ensures
        match r {
            Some(v) => number_up_to(s@, base as int, max as int) == Some(v as nat),
            None => number_up_to(s@, base as int, max as int) is None,
        },
{
    let chars = chars_of(s);
    let len: usize = chars.len();
    let start: usize = if len > 0 && chars[0] == '+' {
        1
    } else {
        0
    };
    let ghost digits = s@.skip(start as int);
    assert(s@.skip(0) =~= s@);
    if start == len {
        return None;
    }
    let mut value: u128 = 0;
    let mut i: usize = start;
    assert(digits.take(0) =~= Seq::<char>::empty());
    while i < len
        invariant
            1 <= base <= 16,
                start <= i <= len,
            len == s@.len(),
            chars@ == s@,
            digits == s@.skip(start as int),
            value <= max,
            digits_value(digits.take(i - start), base as int) == Some(value as nat),
            number_named(s@, base as int) == digits_value(digits, base as int),
        decreases len - i,
    {
        let ghost next = digits.take(i - start + 1);
        assert(next.drop_last() =~= digits.take(i - start));
        assert(next.last() == chars@[i as int]);
        match digit(chars[i], base) {
            Some(d) => {
                assert(value * base <= 0xffff_ffff_ffff_ffff * 16) by (nonlinear_arith)
                    requires
                        value <= 0xffff_ffff_ffff_ffff,
                        base <= 16,
                ;
                let grown: u128 = value * base as u128 + d as u128;
                if grown > max as u128 {
                    proof {
                        if digits_value(digits, base as int) is Some {
                            lemma_digits_grow(digits, base as int, i - start + 1);
                        }
                    }
                    return None;
                }
                value = grown;
            },
            None => {
                proof {
                    if digits_value(digits, base as int) is Some {
                        lemma_digits_grow(digits, base as int, i - start + 1);
                    }
                }
                return None;
            },
        }
        i += 1;
    }
    assert(digits.take(len - start) =~= digits);
    Some(value as u64)
}

/// A numeral reads back as the number it was written from.
pub proof fn a_numeral_reads_back(n: nat)
    ensures
        decimal_chars(n).len() > 0,
        decimal_chars(n)[0] != '+',
        digits_value(decimal_chars(n), 10) == Some(n),
        number_named(decimal_chars(n), 10) == Some(n),
    decreases n,
{
    let s = decimal_chars(n);
    assert(s.last() == digit_char((n % 10) as int));
    assert(digit_value(s.last(), 10) == Some(n % 10));
    if n < 10 {
        assert(s.drop_last() =~= Seq::<char>::empty());
        assert(digits_value(s.drop_last(), 10) == Some(0nat));
    } else {
        a_numeral_reads_back(n / 10);
        assert(s.drop_last() =~= decimal_chars(n / 10));
    }
}

/// Whether `width` hexadecimal digits are enough for a number.
pub open spec fn fits_hex(n: nat, width: nat) -> bool
    decreases width,
{
    if width == 0 {
        n == 0
    } else {
        fits_hex(n / 16, (width - 1) as nat)
    }
}

/// A hexadecimal numeral of either case has its width and reads back as the
/// number it was written from.
pub proof fn a_hex_numeral_reads_back(n: nat, width: nat, upper: bool)
    requires
        fits_hex(n, width),
    ensures
        hex_chars(n, width, upper).len() == width,
        digits_value(hex_chars(n, width, upper), 16) == Some(n),
    decreases width,
{
    if width > 0 {
        a_hex_numeral_reads_back(n / 16, (width - 1) as nat, upper);
        let s = hex_chars(n, width, upper);
        assert(s.drop_last() =~= hex_chars(n / 16, (width - 1) as nat, upper));
        let d = (n % 16) as int;
        assert(d == 0 || d == 1 || d == 2 || d == 3 || d == 4 || d == 5 || d == 6 || d == 7 || d == 8
            || d == 9 || d == 10 || d == 11 || d == 12 || d == 13 || d == 14 || d == 15);
        assert(digit_value(s.last(), 16) == Some(n % 16));
        assert(n / 16 * 16 + n % 16 == n);
    }
}

/// A byte's two digits read back as the byte.
pub proof fn a_hex_byte_reads_back(n: u8)
    ensures
        hex_byte_chars(n).len() == 2,
        digits_value(hex_byte_chars(n), 16) == Some(n as nat),
{
    let s = hex_byte_chars(n);
    let a = (n / 16) as int;
    let b = (n % 16) as int;
    assert(a == 0 || a == 1 || a == 2 || a == 3 || a == 4 || a == 5 || a == 6 || a == 7 || a == 8
        || a == 9 || a == 10 || a == 11 || a == 12 || a == 13 || a == 14 || a == 15);
    assert(b == 0 || b == 1 || b == 2 || b == 3 || b == 4 || b == 5 || b == 6 || b == 7 || b == 8
        || b == 9 || b == 10 || b == 11 || b == 12 || b == 13 || b == 14 || b == 15);
    assert(s.drop_last() =~= seq![hex_char(a)]);
    assert(seq![hex_char(a)].drop_last() =~= Seq::<char>::empty());
    assert(digits_value(Seq::<char>::empty(), 16) == Some(0nat));
    assert(digits_value(seq![hex_char(a)], 16) == Some(a as nat));
}

/// A numeral does not begin with a zero, unless it is that.
pub proof fn a_numeral_has_no_leading_zero(n: nat)
    requires
        n > 0,
    ensures
        decimal_chars(n)[0] != '0',
    decreases n,
{
    if n >= 10 {
        a_numeral_has_no_leading_zero(n / 10);
        a_numeral_reads_back(n / 10);
    }
}

/// Lower-casing moves the twenty-six capitals by 32 and nothing else, and is
/// done once.
pub proof fn only_capitals_are_lowered(c: char)
    ensures
        'A' <= c && c <= 'Z' ==> lower_char(c) as int == c as int + 32,
        !('A' <= c && c <= 'Z') ==> lower_char(c) == c,
        lower_char(lower_char(c)) == lower_char(c),
{
}

proof fn lemma_first_at(s: Seq<char>, c: char, from: int)
    requires
        0 <= from <= s.len(),
    ensures
        from <= first_at(s, c, from) <= s.len(),
        first_at(s, c, from) < s.len() ==> s[first_at(s, c, from)] == c,
        forall|i: int| from <= i < first_at(s, c, from) ==> s[i] != c,
    decreases s.len() - from,
{
    if from < s.len() && s[from] != c {
        lemma_first_at(s, c, from + 1);
    }
}

/// A text split at a character is that character between the two sides, and
/// does not occur in the first; a text that cannot be split does not hold it.
pub proof fn a_split_cuts_at_the_first(s: Seq<char>, c: char)
    ensures
        match split_once_at(s, c) {
            Some((before, after)) => before + seq![c] + after == s && !before.contains(c),
            None => !s.contains(c),
        },
{
    lemma_first_at(s, c, 0);
    if let Some((before, after)) = split_once_at(s, c) {
        assert(before + seq![c] + after =~= s);
        assert forall|i: int| 0 <= i < before.len() implies before[i] != c by {
            assert(before[i] == s[i]);
        }
    }
}

/// Pieces put together again with the character between them.
pub open spec fn rejoined(pieces: Seq<Seq<char>>, c: char) -> Seq<char>
    decreases pieces.len(),
{
    if pieces.len() == 0 {
        Seq::empty()
    } else if pieces.len() == 1 {
        pieces[0]
    } else {
        pieces[0] + seq![c] + rejoined(pieces.skip(1), c)
    }
}

/// The pieces of a text make up the text, and none of them holds the character
/// it was cut at.
pub proof fn pieces_make_up_the_text(s: Seq<char>, c: char, from: int)
    requires
        0 <= from <= s.len(),
    ensures
        pieces_from(s, c, from).len() > 0,
        rejoined(pieces_from(s, c, from), c) == s.subrange(from, s.len() as int),
        forall|i: int|
            0 <= i < pieces_from(s, c, from).len() ==> !(#[trigger] pieces_from(
                s,
                c,
                from,
            )[i]).contains(c),
    decreases s.len() - from,
{
    lemma_first_at(s, c, from);
    let at = first_at(s, c, from);
    let pieces = pieces_from(s, c, from);
    if at < s.len() {
        let rest = pieces_from(s, c, at + 1);
        pieces_make_up_the_text(s, c, at + 1);
        assert(pieces.skip(1) =~= rest);
        assert(pieces[0] + seq![c] + rejoined(rest, c) =~= s.subrange(from, s.len() as int));
        assert forall|i: int| 0 <= i < pieces.len() implies !(#[trigger] pieces[i]).contains(
            c,
        ) by {
            if i > 0 {
                assert(pieces[i] == rest[i - 1]);
            }
        }
    }
}

} // verus!
