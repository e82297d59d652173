//! The 64 colours the video chip can produce.

use vstd::prelude::*;

verus! {

pub const SYSTEM_PALLETE: [(u8, u8, u8); 64] = [
    (0x80, 0x80, 0x80), (0x00, 0x3d, 0xa6), (0x00, 0x12, 0xb0), (0x44, 0x00, 0x96),
    (0xa1, 0x00, 0x5e), (0xc7, 0x00, 0x28), (0xba, 0x06, 0x00), (0x8c, 0x17, 0x00),
    (0x5c, 0x2f, 0x00), (0x10, 0x45, 0x00), (0x05, 0x4a, 0x00), (0x00, 0x47, 0x2e),
    (0x00, 0x41, 0x66), (0x00, 0x00, 0x00), (0x05, 0x05, 0x05), (0x05, 0x05, 0x05),
    (0xc7, 0xc7, 0xc7), (0x00, 0x77, 0xff), (0x21, 0x55, 0xff), (0x82, 0x37, 0xfa),
    (0xeb, 0x2f, 0xb5), (0xff, 0x29, 0x50), (0xff, 0x22, 0x00), (0xd6, 0x32, 0x00),
    (0xc4, 0x62, 0x00), (0x35, 0x80, 0x00), (0x05, 0x8f, 0x00), (0x00, 0x8a, 0x55),
    (0x00, 0x99, 0xcc), (0x21, 0x21, 0x21), (0x09, 0x09, 0x09), (0x09, 0x09, 0x09),
    (0xff, 0xff, 0xff), (0x0f, 0xd7, 0xff), (0x69, 0xa2, 0xff), (0xd4, 0x80, 0xff),
    (0xff, 0x45, 0xf3), (0xff, 0x61, 0x8b), (0xff, 0x88, 0x33), (0xff, 0x9c, 0x12),
    (0xfa, 0xbc, 0x20), (0x9f, 0xe3, 0x0e), (0x2b, 0xf0, 0x35), (0x0c, 0xf0, 0xa4),
    (0x05, 0xfb, 0xff), (0x5e, 0x5e, 0x5e), (0x0d, 0x0d, 0x0d), (0x0d, 0x0d, 0x0d),
    (0xff, 0xff, 0xff), (0xa6, 0xfc, 0xff), (0xb3, 0xec, 0xff), (0xda, 0xab, 0xeb),
    (0xff, 0xa8, 0xf9), (0xff, 0xab, 0xb3), (0xff, 0xd2, 0xb0), (0xff, 0xef, 0xa6),
    (0xff, 0xf7, 0x9c), (0xd7, 0xe8, 0x95), (0xa6, 0xed, 0xaf), (0xa2, 0xf2, 0xda),
    (0x99, 0xff, 0xfc), (0xdd, 0xdd, 0xdd), (0x11, 0x11, 0x11), (0x11, 0x11, 0x11),
];

/// The colour with a number.
#[verifier::opaque]
pub open spec fn system_color(index: int) -> (u8, u8, u8) {
    SYSTEM_PALLETE@[index]
}

pub fn color(index: usize) -> (r: (u8, u8, u8))
    requires
        index < 64,
    ensures
        r == system_color(index as int),
{
    proof {
        reveal(system_color);
    }
    SYSTEM_PALLETE[index]
}

} // verus!
