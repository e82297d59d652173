//! PPUCTRL ($2000):
//!
//!   7  bit  0
//!   VPHB SINN
//!   |||| ||||
//!   |||| ||++- base nametable ($2000, $2400, $2800, $2C00)
//!   |||| |+--- VRAM address increment per PPUDATA access (1 or 32)
//!   |||| +---- sprite pattern table for 8x8 sprites ($0000 or $1000)
//!   |||+------ background pattern table ($0000 or $1000)
//!   ||+------- sprite size (8x8 or 8x16)
//!   |+-------- master/slave select (unused)
//!   +--------- raise an NMI at the start of vertical blanking

use vstd::prelude::*;

verus! {

#[derive(Clone, Copy, Debug, PartialEq, Eq, Structural)]
pub struct ControlRegister {
    pub bits: u8,
}

impl ControlRegister {
    pub fn new() -> (r: Self)
        ensures
            r == (ControlRegister { bits: 0 }),
    {
        ControlRegister { bits: 0 }
    }

    #[verifier::allow_in_spec]
    pub fn nametable_addr(&self) -> u16
        returns
            (0x2000 + (self.bits % 4) * 0x400) as u16,
    {
        0x2000 + (self.bits % 4) as u16 * 0x400
    }

    #[verifier::allow_in_spec]
    pub fn vram_addr_increment(&self) -> u8
        returns
            (if self.bits & 0x04 == 0 {
                1u8
            } else {
                32u8
            }),
    {
        if self.bits & 0x04 == 0 {
            1
        } else {
            32
        }
    }

    #[verifier::allow_in_spec]
    pub fn sprt_pattern_addr(&self) -> u16
        returns
            (if self.bits & 0x08 == 0 {
                0u16
            } else {
                0x1000u16
            }),
    {
        if self.bits & 0x08 == 0 {
            0
        } else {
            0x1000
        }
    }

    #[verifier::allow_in_spec]
    pub fn bknd_pattern_addr(&self) -> u16
        returns
            (if self.bits & 0x10 == 0 {
                0u16
            } else {
                0x1000u16
            }),
    {
        if self.bits & 0x10 == 0 {
            0
        } else {
            0x1000
        }
    }

    #[verifier::allow_in_spec]
    pub fn sprite_size_16(&self) -> bool
        returns
            self.bits & 0x20 != 0,
    {
        self.bits & 0x20 != 0
    }

    #[verifier::allow_in_spec]
    pub fn generate_vblank_nmi(&self) -> bool
        returns
            self.bits & 0x80 != 0,
    {
        self.bits & 0x80 != 0
    }

    pub fn update(&mut self, data: u8)
        ensures
            *final(self) == (ControlRegister { bits: data }),
    {
        self.bits = data;
    }
}

} // verus!
