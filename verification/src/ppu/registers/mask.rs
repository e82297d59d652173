//! PPUMASK ($2001):
//!
//!   7  bit  0
//!   BGRs bMmG
//!   |||| ||||
//!   |||| |||+- greyscale
//!   |||| ||+-- show background in the leftmost 8 pixels
//!   |||| |+--- show sprites in the leftmost 8 pixels
//!   |||| +---- show background
//!   |||+------ show sprites
//!   ||+------- emphasise red
//!   |+-------- emphasise green
//!   +--------- emphasise blue

use vstd::prelude::*;

verus! {

#[derive(Clone, Copy, Debug, PartialEq, Eq, Structural)]
pub struct MaskRegister {
    pub bits: u8,
}

impl MaskRegister {
    pub fn new() -> (r: Self)
        ensures
            r == (MaskRegister { bits: 0 }),
    {
        MaskRegister { bits: 0 }
    }

    #[verifier::allow_in_spec]
    pub fn is_grayscale(&self) -> bool
        returns
            self.bits & 0x01 != 0,
    {
        self.bits & 0x01 != 0
    }

    #[verifier::allow_in_spec]
    pub fn leftmost_8pxl_background(&self) -> bool
        returns
            self.bits & 0x02 != 0,
    {
        self.bits & 0x02 != 0
    }

    #[verifier::allow_in_spec]
    pub fn leftmost_8pxl_sprite(&self) -> bool
        returns
            self.bits & 0x04 != 0,
    {
        self.bits & 0x04 != 0
    }

    #[verifier::allow_in_spec]
    pub fn show_background(&self) -> bool
        returns
            self.bits & 0x08 != 0,
    {
        self.bits & 0x08 != 0
    }

    #[verifier::allow_in_spec]
    pub fn show_sprites(&self) -> bool
        returns
            self.bits & 0x10 != 0,
    {
        self.bits & 0x10 != 0
    }

    #[verifier::allow_in_spec]
    pub fn emphasise_red(&self) -> bool
        returns
            self.bits & 0x20 != 0,
    {
        self.bits & 0x20 != 0
    }

    #[verifier::allow_in_spec]
    pub fn emphasise_green(&self) -> bool
        returns
            self.bits & 0x40 != 0,
    {
        self.bits & 0x40 != 0
    }

    #[verifier::allow_in_spec]
    pub fn emphasise_blue(&self) -> bool
        returns
            self.bits & 0x80 != 0,
    {
        self.bits & 0x80 != 0
    }

    pub fn update(&mut self, data: u8)
        ensures
            *final(self) == (MaskRegister { bits: data }),
    {
        self.bits = data;
    }
}

} // verus!
