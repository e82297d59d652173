//! Drawing 8 by 8 tiles.

use crate::render::frame::{
    painted, painting_nothing, painting_twice, paints_that_agree, setting_is_painting, Frame, Paint,
};
use vstd::prelude::*;

verus! {

/// Where a tile is drawn: its top left corner, the part of the screen that it
/// may touch, how it is flipped, and whether its colour 0 is drawn too.
#[derive(Clone, Copy, Debug, PartialEq, Eq, Structural)]
pub struct Placement {
    pub left: i32,
    pub top: i32,
    pub x1: i32,
    pub y1: i32,
    pub x2: i32,
    pub y2: i32,
    pub flip_horizontal: bool,
    pub flip_vertical: bool,
    pub opaque: bool,
}

/// The two bits of a tile's pixel: the first plane holds the low one.
pub open spec fn tile_value(tile: Seq<u8>, x: int, y: int) -> int {
    (if (tile[y + 8] >> ((7 - x) as u8)) & 1 == 1 {
        2int
    } else {
        0
    }) + if (tile[y] >> ((7 - x) as u8)) & 1 == 1 {
        1int
    } else {
        0
    }
}

impl Placement {
    pub open spec fn wf(self) -> bool {
        &&& -1024 <= self.left <= 1024
        &&& -1024 <= self.top <= 1024
    }

    pub open spec fn shows(self, px: int, py: int) -> bool {
        &&& 0 <= px - self.left < 8
        &&& 0 <= py - self.top < 8
        &&& self.x1 <= px < self.x2
        &&& self.y1 <= py < self.y2
    }

    /// The tile's pixel at a place on the screen.
    pub open spec fn value_at(self, tile: Seq<u8>, px: int, py: int) -> int {
        let dx = px - self.left;
        let dy = py - self.top;
        tile_value(
            tile,
            if self.flip_horizontal {
                7 - dx
            } else {
                dx
            },
            if self.flip_vertical {
                7 - dy
            } else {
                dy
            },
        )
    }

    pub open spec fn paint(self, tile: Seq<u8>, colors: Seq<(u8, u8, u8)>) -> Paint {
        |px: int, py: int|
            {
                let value = self.value_at(tile, px, py);
                if self.shows(px, py) && (value != 0 || self.opaque) {
                    Some(colors[value])
                } else {
                    None
                }
            }
    }

    /// The part of the paint in the first `rows` rows and the first `cols`
    /// columns of the next.
    pub open spec fn part(
        self,
        tile: Seq<u8>,
        colors: Seq<(u8, u8, u8)>,
        rows: int,
        cols: int,
    ) -> Paint {
        |px: int, py: int|
            if py < self.top + rows || (py == self.top + rows && px < self.left + cols) {
                (self.paint(tile, colors))(px, py)
            } else {
                None
            }
    }
}

fn pixel_value(tile: &[u8; 16], x: u8, y: usize) -> (r: usize)
    requires
        x < 8,
        y < 8,
    ensures
        r == tile_value(tile@, x as int, y as int),
        r < 4,
{
    let high: usize = if (tile[y + 8] >> (7 - x)) & 1 == 1 {
        2
    } else {
        0
    };
    let low: usize = if (tile[y] >> (7 - x)) & 1 == 1 {
        1
    } else {
        0
    };
    high + low
}

/// Draws one pixel of a tile.
fn draw_pixel(
    frame: &mut Frame,
    tile: &[u8; 16],
    place: Placement,
    colors: &[(u8, u8, u8); 4],
    dx: u8,
    dy: u8,
    Ghost(base): Ghost<Seq<u8>>,
)
    requires
        old(frame).wf(),
        base.len() == crate::render::frame::FRAME_BYTES,
        place.wf(),
        dx < 8,
        dy < 8,
        old(frame)@ == painted(base, place.part(tile@, colors@, dy as int, dx as int)),
    ensures
        final(frame).wf(),
        final(frame)@ == painted(base, place.part(tile@, colors@, dy as int, dx + 1)),
{
    let px: i32 = place.left + dx as i32;
    let py: i32 = place.top + dy as i32;
    let column: u8 = if place.flip_horizontal {
        7 - dx
    } else {
        dx
    };
    let row: u8 = if place.flip_vertical {
        7 - dy
    } else {
        dy
    };
    let value: usize = pixel_value(tile, column, row as usize);
    let ghost before = place.part(tile@, colors@, dy as int, dx as int);
    let ghost after = place.part(tile@, colors@, dy as int, dx + 1);
    let shown = place.x1 <= px && px < place.x2 && place.y1 <= py && py < place.y2;
    if shown && px >= 0 && py >= 0 && (value != 0 || place.opaque) {
        let rgb = colors[value];
        proof {
            let dot = |x: int, y: int|
                if x == px && y == py {
                    Some(rgb)
                } else {
                    None::<(u8, u8, u8)>
                };
            setting_is_painting(frame@, px as int, py as int, rgb, dot);
            painting_twice(base, before, dot, after);
        }
        frame.set_pixel(px as usize, py as usize, rgb);
    } else {
        proof {
            paints_that_agree(base, before, after);
        }
    }
}

/// Draws a tile.
pub fn draw_tile(
    frame: &mut Frame,
    tile: &[u8; 16],
    place: Placement,
    colors: &[(u8, u8, u8); 4],
)
    requires
        old(frame).wf(),
        place.wf(),
    ensures
        final(frame).wf(),
        final(frame)@ == painted(old(frame)@, place.paint(tile@, colors@)),
{
    let ghost base = frame@;
    proof {
        painting_nothing(base, place.part(tile@, colors@, 0, 0));
    }
    let mut dy: u8 = 0;
    while dy < 8
        invariant
            dy <= 8,
            frame.wf(),
            place.wf(),
            base.len() == crate::render::frame::FRAME_BYTES,
            frame@ == painted(base, place.part(tile@, colors@, dy as int, 0)),
        decreases 8 - dy,
    {
        let mut dx: u8 = 0;
        while dx < 8
            invariant
                dx <= 8,
                dy < 8,
                frame.wf(),
                place.wf(),
                base.len() == crate::render::frame::FRAME_BYTES,
                frame@ == painted(base, place.part(tile@, colors@, dy as int, dx as int)),
            decreases 8 - dx,
        {
            draw_pixel(frame, tile, place, colors, dx, dy, Ghost(base));
            dx += 1;
        }
        proof {
            paints_that_agree(
                base,
                place.part(tile@, colors@, dy as int, 8),
                place.part(tile@, colors@, dy + 1, 0),
            );
        }
        dy += 1;
    }
    proof {
        paints_that_agree(base, place.part(tile@, colors@, 8, 0), place.paint(tile@, colors@));
    }
}

} // verus!
