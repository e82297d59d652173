//! Properties of what a probe run writes and judges.

use crate::bits::{bit, lemma_operators};
use crate::audio::BACKLOG_UNAVAILABLE;
use crate::probe::{
    bmp_header, bmp_of, bmp_pixel_byte, button_named, buttons_held, flag_set, health_complaint,
    last_of, listed_frames, optional_number, percentile_place, press_of, presses_of,
    settings_complaint, shot_interval, shot_name_of, AudioHealth, Press, ProbeConfig, ProbeSettings,
};
use crate::joypad::only_the_named_buttons_move;
use crate::render::frame::{pixel_at, FRAME_BYTES};
use crate::text::{a_numeral_reads_back, decimal_chars, digits_value, first_at, split_once_at};
use vstd::prelude::*;

verus! {

/// A little-endian number of four bytes.
pub open spec fn long_at(file: Seq<u8>, at: int) -> int {
    file[at] + 0x100 * file[at + 1] + 0x10000 * file[at + 2] + 0x1000000 * file[at + 3]
}

/// A bitmap's header: its tag, the file's own length, where the pixels begin,
/// the size of the second header, width and height, one plane of 24 bits, and
/// no compression.
pub proof fn the_bitmap_describes_itself(data: Seq<u8>)
    ensures
        ({
            let file = bmp_of(data);
            &&& file[0] == 'B' as u8 && file[1] == 'M' as u8
            &&& long_at(file, 2) == file.len()
            &&& file.len() == 54 + 256 * 240 * 3
            &&& long_at(file, 10) == 54 && long_at(file, 14) == 40
            &&& long_at(file, 18) == 256 && long_at(file, 22) == 240
            &&& long_at(file, 26) == 1 + 24 * 0x10000
            &&& forall|i: int| 30 <= i < 54 ==> #[trigger] file[i] == 0
        }),
{
    let file = bmp_of(data);
    assert forall|i: int| 0 <= i < 54 implies #[trigger] file[i] == bmp_header()[i] by {}
}

/// A pixel of the frame stands in the bitmap with its row counted from the
/// bottom, as blue, green and red.
pub proof fn the_bitmap_shows_every_pixel(data: Seq<u8>, x: int, y: int)
    requires
        0 <= x < 256,
        0 <= y < 240,
    ensures
        ({
            let at = 54 + (239 - y) * 768 + 3 * x;
            let file = bmp_of(data);
            pixel_at(data, x, y) == (file[at + 2], file[at + 1], file[at])
        }),
{
    let i = (239 - y) * 768 + 3 * x;
    let file = bmp_of(data);
    lemma_place(x, y, 0);
    lemma_place(x, y, 1);
    lemma_place(x, y, 2);
    assert(file[54 + i] == bmp_pixel_byte(data, i));
    assert(file[54 + i + 1] == bmp_pixel_byte(data, i + 1));
    assert(file[54 + i + 2] == bmp_pixel_byte(data, i + 2));
}

proof fn lemma_place(x: int, y: int, k: int)
    requires
        0 <= x < 256,
        0 <= y < 240,
        0 <= k < 3,
    ensures
        ({
            let i = (239 - y) * 768 + 3 * x + k;
            &&& 0 <= i < FRAME_BYTES
            &&& i / 768 == 239 - y
            &&& i % 768 / 3 == x
            &&& i % 3 == k
        }),
{
}

/// A button is held in a frame exactly when some press of it lasts through that
/// frame, its ends included.
pub proof fn a_press_holds_its_button(presses: Seq<Press>, frame: u32, n: nat, k: u8)
    requires
        k < 8,
        n <= presses.len(),
    ensures
        bit(buttons_held(presses, frame, n).bits, k) <==> exists|i: int|
            0 <= i < n && (#[trigger] presses[i]).from <= frame <= presses[i].to && bit(
                presses[i].button,
                k,
            ),
    decreases n,
{
    lemma_operators(0, 0, k);
    if n > 0 {
        a_press_holds_its_button(presses, frame, (n - 1) as nat, k);
        let before = buttons_held(presses, frame, (n - 1) as nat);
        let press = presses[n - 1];
        only_the_named_buttons_move(before, press.button, true, k);
        if bit(buttons_held(presses, frame, n).bits, k) {
            if press.from <= frame <= press.to && bit(press.button, k) {
                assert(presses[n - 1] == press);
            } else {
                let i = choose|i: int|
                    0 <= i < n - 1 && (#[trigger] presses[i]).from <= frame <= presses[i].to && bit(
                        presses[i].button,
                        k,
                    );
                assert(0 <= i < n && presses[i].from <= frame <= presses[i].to);
            }
        }
    }
}

proof fn lemma_width(n: nat)
    ensures
        n < 10 ==> decimal_chars(n).len() == 1,
        10 <= n < 100 ==> decimal_chars(n).len() == 2,
        100 <= n < 1000 ==> decimal_chars(n).len() == 3,
        1000 <= n < 10000 ==> decimal_chars(n).len() == 4,
        10000 <= n < 100000 ==> decimal_chars(n).len() == 5,
{
    reveal_with_fuel(decimal_chars, 6);
}

proof fn lemma_zeros(zeros: Seq<char>, digits: Seq<char>, n: nat)
    requires
        forall|i: int| 0 <= i < zeros.len() ==> zeros[i] == '0',
        digits.len() > 0,
        digits_value(digits, 10) == Some(n),
    ensures
        digits_value(zeros + digits, 10) == Some(n),
    decreases zeros.len() + digits.len(),
{
    let all = zeros + digits;
    assert(all.drop_last() =~= zeros + digits.drop_last());
    assert(all.last() == digits.last());
    if digits.len() == 1 {
        assert(digits.drop_last() =~= Seq::<char>::empty());
        assert(zeros + digits.drop_last() =~= zeros);
        lemma_only_zeros(zeros);
        assert(digits_value(digits.drop_last(), 10) == Some(0nat));
    } else {
        let head = digits_value(digits.drop_last(), 10);
        assert(head is Some);
        lemma_zeros(zeros, digits.drop_last(), head->0);
    }
}

proof fn lemma_only_zeros(zeros: Seq<char>)
    requires
        forall|i: int| 0 <= i < zeros.len() ==> zeros[i] == '0',
    ensures
        digits_value(zeros, 10) == Some(0nat),
    decreases zeros.len(),
{
    if zeros.len() > 0 {
        lemma_only_zeros(zeros.drop_last());
    }
}

/// A screenshot's name is `f`, the frame's number in five digits or more, and
/// `.bmp`; the number reads back as the frame.
pub proof fn a_screenshot_is_named_by_its_number(frame: u32)
    ensures
        ({
            let name = shot_name_of(frame);
            let digits = name.subrange(1, name.len() - 4);
            &&& name[0] == 'f'
            &&& name.subrange(name.len() - 4, name.len() as int) == ".bmp"@
            &&& frame < 100_000 ==> digits.len() == 5
            &&& digits_value(digits, 10) == Some(frame as nat)
        }),
{
    reveal_strlit("f");
    reveal_strlit("0000");
    reveal_strlit("000");
    reveal_strlit("00");
    reveal_strlit("0");
    reveal_strlit("");
    reveal_strlit(".bmp");
    let name = shot_name_of(frame);
    let number = decimal_chars(frame as nat);
    let zeros = if frame < 10 {
        "0000"@
    } else if frame < 100 {
        "000"@
    } else if frame < 1000 {
        "00"@
    } else if frame < 10000 {
        "0"@
    } else {
        ""@
    };
    lemma_width(frame as nat);
    a_numeral_reads_back(frame as nat);
    lemma_zeros(zeros, number, frame as nat);
    assert(name.subrange(1, name.len() - 4) =~= zeros + number);
    assert(name.subrange(name.len() - 4, name.len() as int) =~= ".bmp"@);
}

/// At the place of the percentile, 95 of a hundred entries behind the first
/// have been passed and not yet the next.
pub proof fn the_percentile_passes_ninety_five_of_a_hundred(len: int)
    requires
        len > 0,
    ensures
        100 * percentile_place(len) <= 95 * (len - 1) < 100 * (percentile_place(len) + 1),
        0 <= percentile_place(len) < len,
{
}

/// What is kept are the last entries, all of them while there are few.
pub proof fn the_last_entries_are_kept<T>(s: Seq<T>, radius: int, i: int)
    requires
        radius >= 0,
        0 <= i < last_of(s, radius).len(),
    ensures
        last_of(s, radius).len() == if s.len() < radius {
            s.len() as int
        } else {
            radius
        },
        last_of(s, radius)[i] == s[s.len() - last_of(s, radius).len() + i],
{
}

/// Audio was healthy when it ran in real time with its queue known, within the
/// mark, and nothing dropped, run dry or reopened.
pub proof fn healthy_audio_lost_nothing(h: AudioHealth)
    ensures
        health_complaint(h) is None <==> h.realtime && h.queue_end != 0xffff_ffff && h.queue_max
            <= h.high_water_bytes && h.dropped + h.underflows + h.reopens == 0,
        BACKLOG_UNAVAILABLE == u32::MAX,
{
}

/// With a screenshot directory, the interval and the list both make a frame
/// due; without one nothing is.
pub proof fn screenshots_come_by_list_and_interval(c: ProbeConfig, frame: u32, k: u32)
    requires
        c.shot_every is Some ==> c.shot_every->0 > 0,
    ensures
        !c.has_shot_dir ==> !c.shot_due(frame) && !c.in_window(frame),
        c.has_shot_dir && c.shot_frames@.contains(frame) ==> c.shot_due(frame),
        c.has_shot_dir && c.shot_every == Some(1u32) ==> c.shot_due(frame),
        c.has_shot_dir && c.capture_frame == Some(k) ==> (c.in_window(frame) <==> 0 <= frame - k
            <= c.capture_radius),
{
}

proof fn lemma_first_found(a: Seq<char>, c: char, b: Seq<char>, from: int)
    requires
        !a.contains(c),
        0 <= from <= a.len(),
    ensures
        first_at(a + seq![c] + b, c, from) == a.len(),
    decreases a.len() - from,
{
    let all = a + seq![c] + b;
    if from < a.len() {
        assert(all[from] == a[from]);
        assert(a.contains(a[from]));
        lemma_first_found(a, c, b, from + 1);
    } else {
        assert(all[from] == c);
    }
}

proof fn lemma_split(a: Seq<char>, c: char, b: Seq<char>)
    requires
        !a.contains(c),
    ensures
        split_once_at(a + seq![c] + b, c) == Some((a, b)),
{
    let all = a + seq![c] + b;
    lemma_first_found(a, c, b, 0);
    assert(all.subrange(0, a.len() as int) =~= a);
    assert(all.subrange(a.len() as int + 1, all.len() as int) =~= b);
}

proof fn lemma_digits_only(n: nat, c: char)
    requires
        c == '-' || c == '@' || c == '+',
    ensures
        !decimal_chars(n).contains(c),
    decreases n,
{
    let s = decimal_chars(n);
    if n >= 10 {
        lemma_digits_only(n / 10, c);
        assert forall|i: int| 0 <= i < s.len() implies s[i] != c by {
            if i < s.len() - 1 {
                assert(s[i] == decimal_chars(n / 10)[i]);
            }
        }
    }
}

/// A press reads back as it was written: its button's name, `@`, and the two
/// frames with a hyphen between them; without the second frame it lasts.
pub proof fn a_press_reads_back(name: Seq<char>, from: u32, to: u32)
    requires
        button_named(name) is Some,
        !name.contains('@'),
    ensures
        ({
            let first = decimal_chars(from as nat);
            let last = decimal_chars(to as nat);
            let button = button_named(name)->0;
            &&& press_of(name + seq!['@'] + (first + seq!['-'] + last)) == Ok::<Press, Seq<char>>(
                Press { button, from, to },
            )
            &&& press_of(name + seq!['@'] + (first + seq!['-'] + Seq::<char>::empty())) == Ok::<
                Press,
                Seq<char>,
            >(Press { button, from, to: u32::MAX })
        }),
{
    let first = decimal_chars(from as nat);
    let last = decimal_chars(to as nat);
    a_numeral_reads_back(from as nat);
    a_numeral_reads_back(to as nat);
    lemma_digits_only(from as nat, '-');
    lemma_split(name, '@', first + seq!['-'] + last);
    lemma_split(name, '@', first + seq!['-'] + Seq::<char>::empty());
    lemma_split(first, '-', last);
    lemma_split(first, '-', Seq::empty());
}

/// Eight names stand for the eight buttons, one each.
pub proof fn every_button_has_one_name(one: Seq<char>, two: Seq<char>)
    ensures
        button_named(one) is Some && button_named(one) == button_named(two) ==> one == two,
        button_named(one) is Some ==> {
            let b = button_named(one)->0;
            b == 1 || b == 2 || b == 4 || b == 8 || b == 16 || b == 32 || b == 64 || b == 128
        },
{
}

/// A setting is on unless it is absent, `0` or `false`.
pub proof fn a_setting_is_on_unless_denied(value: Seq<char>)
    ensures
        !flag_set(None),
        flag_set(Some(value)) <==> value != "0"@ && value != "false"@,
{
}

/// A script without a bad entry is read entry by entry; otherwise the first bad
/// one is told.
pub proof fn a_script_is_read_entry_by_entry(pieces: Seq<Seq<char>>, n: nat, i: int)
    requires
        n <= pieces.len(),
        0 <= i < n,
        forall|k: int| 0 <= k < n ==> (#[trigger] pieces[k]).len() > 0,
    ensures
        presses_of(pieces, n) is Ok ==> {
            &&& presses_of(pieces, n)->Ok_0.len() == n
            &&& press_of(pieces[i]) == Ok::<Press, Seq<char>>(presses_of(pieces, n)->Ok_0[i])
        },
        presses_of(pieces, n) is Err <==> exists|k: int|
            0 <= k < n && press_of(#[trigger] pieces[k]) is Err,
        (press_of(pieces[i]) is Err && forall|k: int|
            0 <= k < i ==> press_of(#[trigger] pieces[k]) is Ok) ==> presses_of(pieces, n)->Err_0
            == press_of(pieces[i])->Err_0,
    decreases n,
{
    reveal_with_fuel(presses_of, 2);
    if n > 1 {
        let before = if i < n - 1 {
            i
        } else {
            0
        };
        a_script_is_read_entry_by_entry(pieces, (n - 1) as nat, before);
        if presses_of(pieces, (n - 1) as nat) is Ok && press_of(pieces[n - 1]) is Err {
            assert(press_of(pieces[n - 1]) is Err);
        }
    } else {
        assert(presses_of(pieces, 0) == Ok::<Seq<Press>, Seq<char>>(Seq::empty()));
    }
}

/// An empty entry says nothing.
pub proof fn empty_entries_say_nothing(pieces: Seq<Seq<char>>, n: nat)
    requires
        n < pieces.len(),
        pieces[n as int].len() == 0,
    ensures
        presses_of(pieces, n + 1) == presses_of(pieces, n),
        presses_of(pieces, 0) == Ok::<Seq<Press>, Seq<char>>(Seq::empty()),
{
}

/// Settings pass exactly where every number is one, screenshots do not come every
/// zero frames, and the drift window has no complaint. A directory without a list
/// takes a picture every fifty frames.
pub proof fn settings_pass_without_complaint(s: ProbeSettings, listed: Seq<u32>)
    ensures
        settings_complaint(s) is None <==> {
            &&& listed_frames(s) is Ok
            &&& optional_number(s.shot_every) is Some
            &&& optional_number(s.shot_every) != Some(Some(0u32))
            &&& optional_number(s.capture_frame) is Some
            &&& optional_number(s.capture_radius) is Some
            &&& s.drift_complaint is None
        },
        s.shot_every is None ==> shot_interval(s, listed) == if s.has_shot_dir && listed.len()
            == 0 {
            Some(50u32)
        } else {
            None
        },
{
}

} // verus!
