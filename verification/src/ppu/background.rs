//! Background fetch latches and pixel shifters.

use vstd::prelude::*;

verus! {

/// Four latches and four 16-bit shifters. The high byte of a shifter contains
/// the currently visible tile; the low byte is reloaded with the tile fetched
/// over the preceding eight dots.
#[derive(Clone, Copy, Debug, PartialEq, Eq, Structural)]
pub struct Background {
    pub next_tile_id: u8,
    pub next_tile_attr: u8,
    pub next_tile_lo: u8,
    pub next_tile_hi: u8,
    pub pattern_lo: u16,
    pub pattern_hi: u16,
    pub attr_lo: u16,
    pub attr_hi: u16,
}

/// The low byte of a shifter replaced.
pub open spec fn with_low_byte(shifter: u16, low: u8) -> u16 {
    (shifter & 0xff00) | low as u16
}

/// Eight copies of one attribute bit.
pub open spec fn spread(bit: bool) -> u8 {
    if bit {
        0xff
    } else {
        0
    }
}

impl Background {
    pub open spec fn initial() -> Background {
        Background {
            next_tile_id: 0,
            next_tile_attr: 0,
            next_tile_lo: 0,
            next_tile_hi: 0,
            pattern_lo: 0,
            pattern_hi: 0,
            attr_lo: 0,
            attr_hi: 0,
        }
    }

    pub open spec fn shifted(self) -> Background {
        Background {
            pattern_lo: self.pattern_lo << 1,
            pattern_hi: self.pattern_hi << 1,
            attr_lo: self.attr_lo << 1,
            attr_hi: self.attr_hi << 1,
            ..self
        }
    }

    pub open spec fn reloaded(self) -> Background {
        Background {
            pattern_lo: with_low_byte(self.pattern_lo, self.next_tile_lo),
            pattern_hi: with_low_byte(self.pattern_hi, self.next_tile_hi),
            attr_lo: with_low_byte(self.attr_lo, spread(self.next_tile_attr & 1 != 0)),
            attr_hi: with_low_byte(self.attr_hi, spread(self.next_tile_attr & 2 != 0)),
            ..self
        }
    }

    /// The two-bit background pixel under the fine-X selector.
    pub open spec fn pixel(self, selector: u16) -> u8 {
        ((if self.pattern_hi & selector != 0 {
            2int
        } else {
            0
        }) + (if self.pattern_lo & selector != 0 {
            1int
        } else {
            0
        })) as u8
    }

    /// The two-bit background palette under the fine-X selector.
    pub open spec fn palette(self, selector: u16) -> u8 {
        ((if self.attr_hi & selector != 0 {
            2int
        } else {
            0
        }) + (if self.attr_lo & selector != 0 {
            1int
        } else {
            0
        })) as u8
    }

    pub fn new() -> (r: Self)
        ensures
            r == Background::initial(),
    {
        Background {
            next_tile_id: 0,
            next_tile_attr: 0,
            next_tile_lo: 0,
            next_tile_hi: 0,
            pattern_lo: 0,
            pattern_hi: 0,
            attr_lo: 0,
            attr_hi: 0,
        }
    }

    pub fn shift(&mut self)
        ensures
            *final(self) == old(self).shifted(),
    {
        self.pattern_lo = self.pattern_lo << 1;
        self.pattern_hi = self.pattern_hi << 1;
        self.attr_lo = self.attr_lo << 1;
        self.attr_hi = self.attr_hi << 1;
    }

    pub fn reload(&mut self)
        ensures
            *final(self) == old(self).reloaded(),
    {
        let low: u8 = if self.next_tile_attr & 1 != 0 {
            0xff
        } else {
            0
        };
        let high: u8 = if self.next_tile_attr & 2 != 0 {
            0xff
        } else {
            0
        };
        self.pattern_lo = (self.pattern_lo & 0xff00) | self.next_tile_lo as u16;
        self.pattern_hi = (self.pattern_hi & 0xff00) | self.next_tile_hi as u16;
        self.attr_lo = (self.attr_lo & 0xff00) | low as u16;
        self.attr_hi = (self.attr_hi & 0xff00) | high as u16;
    }

    pub fn read_pixel(&self, selector: u16) -> (r: u8)
        ensures
            r == self.pixel(selector),
            r < 4,
    {
        (if self.pattern_hi & selector != 0 {
            2u8
        } else {
            0
        }) + (if self.pattern_lo & selector != 0 {
            1u8
        } else {
            0
        })
    }

    pub fn read_palette(&self, selector: u16) -> (r: u8)
        ensures
            r == self.palette(selector),
            r < 4,
    {
        (if self.attr_hi & selector != 0 {
            2u8
        } else {
            0
        }) + (if self.attr_lo & selector != 0 {
            1u8
        } else {
            0
        })
    }
}

} // verus!
