//! One video frame: 256 by 240 pixels of 24-bit colour, row by row.

use crate::mapper::board::{copied, zeroed, zeroes};
use vstd::prelude::*;

verus! {

pub const FRAME_WIDTH: usize = 256;

pub const FRAME_HEIGHT: usize = 240;

/// Bytes in a frame.
pub const FRAME_BYTES: usize = 184320;

pub struct Frame {
    pub data: Vec<u8>,
}

impl View for Frame {
    type V = Seq<u8>;

    open spec fn view(&self) -> Seq<u8> {
        self.data@
    }
}

/// Offset of a pixel's first byte.
pub open spec fn pixel_base(x: int, y: int) -> int {
    (y * 256 + x) * 3
}

/// The picture with one pixel changed; nothing happens off the frame.
pub open spec fn pixel_set(data: Seq<u8>, x: int, y: int, rgb: (u8, u8, u8)) -> Seq<u8> {
    if x >= 256 || y >= 240 {
        data
    } else {
        let base = pixel_base(x, y);
        data.update(base, rgb.0).update(base + 1, rgb.1).update(base + 2, rgb.2)
    }
}

/// The colour of a pixel on the frame.
pub open spec fn pixel_at(data: Seq<u8>, x: int, y: int) -> (u8, u8, u8) {
    let base = pixel_base(x, y);
    (data[base], data[base + 1], data[base + 2])
}

impl Frame {
    pub const WIDTH: usize = 256;

    pub const HEIGHT: usize = 240;

    pub open spec fn wf(&self) -> bool {
        self@.len() == FRAME_BYTES
    }

    /// A black frame.
    pub fn new() -> (r: Self)
        ensures
            r@ == zeroes(FRAME_BYTES as nat),
            r.wf(),
    {
        Frame { data: zeroed(FRAME_BYTES) }
    }

    /// Colours one pixel. A column past the row's end is clipped, so it cannot
    /// roll over into the next scanline's left edge.
    pub fn set_pixel(&mut self, x: usize, y: usize, rgb: (u8, u8, u8))
        requires
            old(self).wf(),
        ensures
            final(self)@ == pixel_set(old(self)@, x as int, y as int, rgb),
            final(self).wf(),
    {
        if x >= Frame::WIDTH || y >= Frame::HEIGHT {
            return ;
        }
        let base: usize = (y * 256 + x) * 3;
        self.data[base] = rgb.0;
        self.data[base + 1] = rgb.1;
        self.data[base + 2] = rgb.2;
    }

    pub fn duplicate(&self) -> (r: Self)
        ensures
            r@ == self@,
    {
        Frame { data: copied(&self.data) }
    }
}

/// Setting a pixel on the frame shows its colour there and leaves every other
/// pixel as it was.
pub proof fn set_pixel_changes_one_pixel(
    data: Seq<u8>,
    x: int,
    y: int,
    rgb: (u8, u8, u8),
    other_x: int,
    other_y: int,
)
    requires
        data.len() == FRAME_BYTES,
        0 <= x < 256,
        0 <= y < 240,
        0 <= other_x < 256,
        0 <= other_y < 240,
    ensures
        pixel_at(pixel_set(data, x, y, rgb), x, y) == rgb,
        (other_x, other_y) != (x, y) ==> pixel_at(pixel_set(data, x, y, rgb), other_x, other_y)
            == pixel_at(data, other_x, other_y),
{
}

/// A pixel off the frame changes nothing.
pub proof fn set_pixel_clips(data: Seq<u8>, x: int, y: int, rgb: (u8, u8, u8))
    requires
        x >= 256 || y >= 240,
    ensures
        pixel_set(data, x, y, rgb) == data,
{
}

// ---- Painting ----------------------------------------------------------------

/// What is painted where: a colour, or nothing.
pub type Paint = spec_fn(int, int) -> Option<(u8, u8, u8)>;

/// One byte of a colour.
pub open spec fn channel(rgb: (u8, u8, u8), i: int) -> u8 {
    if i == 0 {
        rgb.0
    } else if i == 1 {
        rgb.1
    } else {
        rgb.2
    }
}

/// The picture with every painted pixel in its new colour.
pub open spec fn painted(data: Seq<u8>, paint: Paint) -> Seq<u8> {
    Seq::new(
        data.len(),
        |i: int|
            match paint(i / 3 % 256, i / 3 / 256) {
                Some(rgb) => channel(rgb, i % 3),
                None => data[i],
            },
    )
}

/// Two paints that agree on the frame paint the same picture.
pub proof fn paints_that_agree(data: Seq<u8>, one: Paint, other: Paint)
    requires
        data.len() == FRAME_BYTES,
        forall|x: int, y: int| 0 <= x < 256 && 0 <= y < 240 ==> #[trigger] one(x, y) == other(x, y),
    ensures
        painted(data, one) == painted(data, other),
{
    assert forall|i: int| 0 <= i < data.len() implies painted(data, one)[i] == painted(
        data,
        other,
    )[i] by {
        assert(one(i / 3 % 256, i / 3 / 256) == other(i / 3 % 256, i / 3 / 256));
    }
    assert(painted(data, one) =~= painted(data, other));
}

/// Painting nothing leaves the picture alone.
pub proof fn painting_nothing(data: Seq<u8>, paint: Paint)
    requires
        data.len() == FRAME_BYTES,
        forall|x: int, y: int| 0 <= x < 256 && 0 <= y < 240 ==> #[trigger] paint(x, y) is None,
    ensures
        painted(data, paint) == data,
{
    assert forall|i: int| 0 <= i < data.len() implies painted(data, paint)[i] == data[i] by {
        assert(paint(i / 3 % 256, i / 3 / 256) is None);
    }
    assert(painted(data, paint) =~= data);
}

/// One paint over another is one paint, with the second's colours on top.
pub proof fn painting_twice(data: Seq<u8>, first: Paint, second: Paint, both: Paint)
    requires
        data.len() == FRAME_BYTES,
        forall|x: int, y: int|
            0 <= x < 256 && 0 <= y < 240 ==> #[trigger] both(x, y) == match second(x, y) {
                Some(rgb) => Some(rgb),
                None => first(x, y),
            },
    ensures
        painted(painted(data, first), second) == painted(data, both),
{
    let result = painted(painted(data, first), second);
    assert forall|i: int| 0 <= i < data.len() implies result[i] == painted(data, both)[i] by {
        let x = i / 3 % 256;
        let y = i / 3 / 256;
        assert(both(x, y) == match second(x, y) {
            Some(rgb) => Some(rgb),
            None => first(x, y),
        });
    }
    assert(result =~= painted(data, both));
}

/// Setting a pixel is painting it.
pub proof fn setting_is_painting(data: Seq<u8>, x: int, y: int, rgb: (u8, u8, u8), paint: Paint)
    requires
        data.len() == FRAME_BYTES,
        0 <= x,
        0 <= y,
        forall|px: int, py: int|
            0 <= px < 256 && 0 <= py < 240 ==> #[trigger] paint(px, py) == if px == x && py == y {
                Some(rgb)
            } else {
                None
            },
    ensures
        pixel_set(data, x, y, rgb) == painted(data, paint),
{
    let result = pixel_set(data, x, y, rgb);
    assert forall|i: int| 0 <= i < data.len() implies result[i] == painted(data, paint)[i] by {
        let px = i / 3 % 256;
        let py = i / 3 / 256;
        assert(i == pixel_base(px, py) + i % 3);
        assert(paint(px, py) == if px == x && py == y {
            Some(rgb)
        } else {
            None
        });
        if px == x && py == y {
            assert(result[i] == channel(rgb, i % 3));
        } else if x < 256 && y < 240 {
            let base = pixel_base(x, y);
            assert(i != base && i != base + 1 && i != base + 2);
        }
    }
    assert(result =~= painted(data, paint));
}

} // verus!
