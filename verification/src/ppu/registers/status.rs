//! PPUSTATUS ($2002): bit 7 vertical blanking, bit 6 sprite zero hit, bit 5
//! sprite overflow. The lower bits are open bus.

use vstd::prelude::*;

verus! {

#[derive(Clone, Copy, Debug, PartialEq, Eq, Structural)]
pub struct StatusRegister {
    pub bits: u8,
}

/// A register with the bits of `mask` set or cleared.
pub open spec fn with_bits(bits: u8, mask: u8, on: bool) -> u8 {
    if on {
        bits | mask
    } else {
        bits & !mask
    }
}

impl StatusRegister {
    pub fn new() -> (r: Self)
        ensures
            r == (StatusRegister { bits: 0 }),
    {
        StatusRegister { bits: 0 }
    }

    fn set_bits(&mut self, mask: u8, on: bool)
        ensures
            final(self).bits == with_bits(old(self).bits, mask, on),
    {
        if on {
            self.bits = self.bits | mask;
        } else {
            self.bits = self.bits & !mask;
        }
    }

    pub fn set_vblank_status(&mut self, on: bool)
        ensures
            final(self).bits == with_bits(old(self).bits, 0x80, on),
    {
        self.set_bits(0x80, on);
    }

    pub fn set_sprite_zero_hit(&mut self, on: bool)
        ensures
            final(self).bits == with_bits(old(self).bits, 0x40, on),
    {
        self.set_bits(0x40, on);
    }

    pub fn set_sprite_overflow(&mut self, on: bool)
        ensures
            final(self).bits == with_bits(old(self).bits, 0x20, on),
    {
        self.set_bits(0x20, on);
    }

    pub fn reset_vblank_status(&mut self)
        ensures
            final(self).bits == with_bits(old(self).bits, 0x80, false),
    {
        self.set_bits(0x80, false);
    }

    #[verifier::allow_in_spec]
    pub fn is_in_vblank(&self) -> bool
        returns
            self.bits & 0x80 != 0,
    {
        self.bits & 0x80 != 0
    }

    #[verifier::allow_in_spec]
    pub fn snapshot(&self) -> u8
        returns
            self.bits,
    {
        self.bits
    }
}

} // verus!
