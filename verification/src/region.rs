//! Console families and the clock constants that tell them apart.

use crate::text::{lower_of, spells};
use vstd::prelude::*;

verus! {

#[derive(Debug, PartialEq, Eq, Clone, Copy, Structural)]
pub enum Region {
    Ntsc,
    Pal,
    Dendy,
}

impl Default for Region {
    fn default() -> (r: Self)
        ensures
            r == Region::Ntsc,
    {
        Region::Ntsc
    }
}

impl Region {
    /// The console family a name stands for, ignoring ASCII case.
    pub open spec fn named(name: Seq<char>) -> Option<Region> {
        let lower = crate::text::lower_chars(name);
        if lower == "ntsc"@ {
            Some(Region::Ntsc)
        } else if lower == "pal"@ {
            Some(Region::Pal)
        } else if lower == "dendy"@ {
            Some(Region::Dendy)
        } else {
            None
        }
    }

    /// Reads a console family from its name.
    pub fn parse(value: &str) -> (r: Result<Self, String>)
        ensures
            match r {
                Ok(region) => Region::named(value@) == Some(region),
                Err(message) => Region::named(value@) is None && message@ == "unknown region "@
                    + value@ + "; expected ntsc, pal, or dendy"@,
            },
    {
        let lower = lower_of(value);
        if spells(&lower, "ntsc") {
            Ok(Region::Ntsc)
        } else if spells(&lower, "pal") {
            Ok(Region::Pal)
        } else if spells(&lower, "dendy") {
            Ok(Region::Dendy)
        } else {
            let mut message = String::from_str("unknown region ");
            message.append(value);
            message.append("; expected ntsc, pal, or dendy");
            Err(message)
        }
    }

    /// CPU clock in hertz.
    #[verifier::allow_in_spec]
    pub fn cpu_hz(self) -> u64
        returns
            match self {
                Region::Ntsc => 1_789_773u64,
                Region::Pal => 1_662_607,
                Region::Dendy => 1_773_448,
            },
    {
        match self {
            Region::Ntsc => 1_789_773,
            Region::Pal => 1_662_607,
            Region::Dendy => 1_773_448,
        }
    }

    /// PPU dots per CPU cycle, as a fraction.
    #[verifier::allow_in_spec]
    pub fn ppu_ratio(self) -> (u8, u8)
        returns
            match self {
                Region::Ntsc => (3u8, 1u8),
                Region::Dendy => (3u8, 1u8),
                Region::Pal => (16u8, 5u8),
            },
    {
        match self {
            Region::Ntsc | Region::Dendy => (3, 1),
            Region::Pal => (16, 5),
        }
    }

    /// Scanlines per video frame.
    #[verifier::allow_in_spec]
    pub fn scanlines(self) -> u16
        returns
            match self {
                Region::Ntsc => 262u16,
                Region::Pal => 312,
                Region::Dendy => 312,
            },
    {
        match self {
            Region::Ntsc => 262,
            Region::Pal | Region::Dendy => 312,
        }
    }

    /// First scanline of vertical blanking.
    #[verifier::allow_in_spec]
    pub fn vblank_start_scanline(self) -> u16
        returns
            match self {
                Region::Ntsc => 241u16,
                Region::Pal => 241,
                Region::Dendy => 291,
            },
    {
        match self {
            Region::Ntsc | Region::Pal => 241,
            Region::Dendy => 291,
        }
    }

    /// Whether every other rendered frame is one dot shorter.
    #[verifier::allow_in_spec]
    pub fn has_odd_frame_skip(self) -> bool
        returns
            self is Ntsc,
    {
        matches!(self, Region::Ntsc)
    }
}

/// Vertical blanking starts inside the frame for every console family.
pub proof fn vblank_lies_inside_the_frame(region: Region)
    ensures
        region.vblank_start_scanline() < region.scanlines(),
{
}

} // verus!
