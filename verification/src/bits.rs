//! Bytes bit by bit: what the bitwise operators and masks mean, for proofs that
//! state a result by its bits or as a number.

use vstd::prelude::*;

verus! {

/// Bit `i` of a byte.
pub open spec fn bit(x: u8, i: u8) -> bool {
    (x >> i) & 1 == 1
}

/// The operators act on each bit by itself.
pub proof fn lemma_operators(a: u8, b: u8, i: u8)
    by (bit_vector)
    requires
        i < 8,
    ensures
        bit(a & b, i) == (bit(a, i) && bit(b, i)),
        bit(a | b, i) == (bit(a, i) || bit(b, i)),
        bit(a ^ b, i) == (bit(a, i) != bit(b, i)),
        bit(!a, i) == !bit(a, i),
        bit(a >> 1, i) == (i < 7 && bit(a, (i + 1) as u8)),
        b ^ (b ^ a) == a,
        a ^ a == 0,
        a & b == b & a,
        a | b == b | a,
        a ^ b == b ^ a,
        (a >> 1) | 0x80u8 == a / 2 + 128,
        (a >> 1) | 0u8 == a / 2,
        !bit(0, i),
        bit(0xff, i),
        ((a & !0xe0u8) | (b & 0xe0)) / 32 == b / 32,
        ((a & !0xe0u8) | (b & 0xe0)) % 32 == a % 32,
        ((a & !0x3fu8) | (b & 0x3f)) % 64 == b % 64,
        ((a & !0x3fu8) | (b & 0x3f)) / 64 == a / 64,
{
}

/// A flag set or cleared by its mask, bit by bit.
pub proof fn lemma_flag(bits: u8, mask: u8, n: u8, k: u8)
    by (bit_vector)
    requires
        n < 8,
        k < 8,
        mask == 1u8 << n,
    ensures
        bit(bits | mask, k) == (k == n || bit(bits, k)),
        bit(bits & !mask, k) == (k != n && bit(bits, k)),
        (bits & mask == mask) == bit(bits, n),
        (bits & mask != 0) == bit(bits, n),
{
}

/// The eight masks, and a byte's bits as a number's.
pub proof fn lemma_masks(x: u8)
    by (bit_vector)
    ensures
        0x01u8 == 1u8 << 0,
        0x02u8 == 1u8 << 1,
        0x04u8 == 1u8 << 2,
        0x08u8 == 1u8 << 3,
        0x10u8 == 1u8 << 4,
        0x20u8 == 1u8 << 5,
        0x40u8 == 1u8 << 6,
        0x80u8 == 1u8 << 7,
        bit(x, 0) == (x % 2 == 1),
        bit(x, 1) == (x / 2 % 2 == 1),
        bit(x, 2) == (x / 4 % 2 == 1),
        bit(x, 3) == (x / 8 % 2 == 1),
        bit(x, 4) == (x / 16 % 2 == 1),
        bit(x, 5) == (x / 32 % 2 == 1),
        bit(x, 6) == (x / 64 % 2 == 1),
        bit(x, 7) == (x >= 128),
        (x & 0x01 != 0) == (x % 2 == 1),
        (x & 0x01 == 1) == (x % 2 == 1),
        (x & 0x02 != 0) == (x / 2 % 2 == 1),
        (x & 0x04 != 0) == (x / 4 % 2 == 1),
        (x & 0x08 != 0) == (x / 8 % 2 == 1),
        (x & 0x10 != 0) == (x / 16 % 2 == 1),
        (x & 0x20 != 0) == (x / 32 % 2 == 1),
        (x & 0x40 != 0) == (x / 64 % 2 == 1),
        (x & 0x80 != 0) == (x >= 128),
        (x & 0x80 == 0x80) == (x >= 128),
        (x & 0x40 == 0x40) == (x / 64 % 2 == 1),
        (x & 0x20 == 0x20) == (x / 32 % 2 == 1),
        (x & 0x10 == 0x10) == (x / 16 % 2 == 1),
        (x & 0x08 == 0x08) == (x / 8 % 2 == 1),
        (x & 0x04 == 0x04) == (x / 4 % 2 == 1),
        (x & 0x02 == 0x02) == (x / 2 % 2 == 1),
        x & 0x03 == x % 4,
        x & 0x07 == x % 8,
        x & 0x0c == x / 4 % 4 * 4,
        x & 0x0f == x % 16,
        x & 0x1f == x % 32,
        x & 0x3f == x % 64,
        x & 0x7f == x % 128,
        x & 0xf0 == x / 16 * 16,
        x & 0xfe == x / 2 * 2,
        x & 0x30 == x / 16 % 4 * 16,
        x & 0xc0 == x / 64 * 64,
        x & 0xe3 == x / 32 * 32 + x % 4,
        (x & 0x30 == 0x30) == (x / 16 % 2 == 1 && x / 32 % 2 == 1),
        (x & 0xc0 == 0xc0) == (x / 64 % 2 == 1 && x >= 128),
        x / 4 % 16 == x / 4 % 2 + x / 8 % 2 * 2 + x / 16 % 2 * 4 + x / 32 % 2 * 8,
        x / 16 % 4 == x / 16 % 2 + x / 32 % 2 * 2,
        x << 1 == x % 128 * 2,
        x >> 0 == x,
        x >> 1 == x / 2,
        x >> 2 == x / 4,
        x >> 3 == x / 8,
        x >> 4 == x / 16,
        x >> 5 == x / 32,
        x >> 6 == x / 64,
        x >> 7 == x / 128,
{
}

/// A byte's bits, as single masks test them.
pub proof fn lemma_tests(x: u8)
    ensures
        (x & 0x01 != 0) == (x % 2 == 1),
        (x & 0x02 != 0) == (x / 2 % 2 == 1),
        (x & 0x04 != 0) == (x / 4 % 2 == 1),
        (x & 0x08 != 0) == (x / 8 % 2 == 1),
        (x & 0x10 != 0) == (x / 16 % 2 == 1),
        (x & 0x20 != 0) == (x / 32 % 2 == 1),
        (x & 0x40 != 0) == (x / 64 % 2 == 1),
        (x & 0x80 != 0) == (x >= 128),
{
    lemma_masks(x);
}

/// A word's masks as a number's parts.
pub proof fn lemma_word_masks(x: u16)
    by (bit_vector)
    ensures
        x & 0x000f == x % 16,
        x & 0x001f == x % 32,
        x & 0x00ff == x % 256,
        x & 0x03ff == x % 0x400,
        x & 0x0fff == x % 0x1000,
        x & 0x1fff == x % 0x2000,
        x & 0x3fff == x % 0x4000,
        (x & 0x1000 != 0) == (x / 0x1000 % 2 == 1),
        x & 0xe001 == x / 0x2000 * 0x2000 + x % 2,
        x / 0x1000 % 2 == 0 ==> x ^ 0x1000 == x + 0x1000,
        x / 0x1000 % 2 == 1 ==> x ^ 0x1000 == x - 0x1000,
        x >> 1 == x / 2,
        x >> 8 == x / 256,
        x >> 12 == x / 0x1000,
        x >> 13 == x / 0x2000,
        x < 16 ==> x << 4 == x * 16,
        x < 16 ==> x << 8 == x * 256,
        x < 256 ==> x << 8 == x * 256,
{
}

/// A shifter's bits from the top: one step left, and its low byte replaced.
pub proof fn lemma_shifter(s: u16, low: u16, f: u16)
    by (bit_vector)
    requires
        low < 256,
    ensures
        f < 15 ==> ((s << 1) & (0x8000u16 >> f) != 0) == (s & (0x8000u16 >> ((f + 1) as u16)) != 0),
        f < 8 ==> (((s & 0xff00) | low) & (0x8000u16 >> f) != 0) == (s & (0x8000u16 >> f) != 0),
        8 <= f && f < 16 ==> (((s & 0xff00) | low) & (0x8000u16 >> f) != 0) == ((low >> ((15 - f)
            as u16)) & 1 == 1),
{
}

/// Fields of one scroll word laid over another.
pub proof fn lemma_scroll_fields(v: u16, t: u16, value: u16)
    by (bit_vector)
    ensures
        v / 0x80 % 8 == v / 32 % 32 / 4,
        v / 4 % 8 == v % 32 / 4,
        v / 0x40 % 2 == v / 32 % 32 % 4 / 2,
        v / 2 % 2 == v % 32 % 4 / 2,
        v % 0x1000 == v / 0x400 % 4 * 0x400 + v / 32 % 32 * 32 + v % 32,
        ((v & !0x041fu16) | (t & 0x041f)) % 32 == t % 32,
        ((v & !0x041fu16) | (t & 0x041f)) / 32 % 32 == v / 32 % 32,
        ((v & !0x041fu16) | (t & 0x041f)) / 0x400 % 2 == t / 0x400 % 2,
        ((v & !0x041fu16) | (t & 0x041f)) / 0x800 % 2 == v / 0x800 % 2,
        ((v & !0x041fu16) | (t & 0x041f)) / 0x1000 % 8 == v / 0x1000 % 8,
        ((v & !0x7be0u16) | (t & 0x7be0)) % 32 == v % 32,
        ((v & !0x7be0u16) | (t & 0x7be0)) / 32 % 32 == t / 32 % 32,
        ((v & !0x7be0u16) | (t & 0x7be0)) / 0x400 % 2 == v / 0x400 % 2,
        ((v & !0x7be0u16) | (t & 0x7be0)) / 0x800 % 2 == t / 0x800 % 2,
        ((v & !0x7be0u16) | (t & 0x7be0)) / 0x1000 % 8 == t / 0x1000 % 8,
        ((t & !0x0c00u16) | ((value & 0x03) << 10)) % 32 == t % 32,
        ((t & !0x0c00u16) | ((value & 0x03) << 10)) / 32 % 32 == t / 32 % 32,
        ((t & !0x0c00u16) | ((value & 0x03) << 10)) / 0x400 % 4 == value % 4,
        ((t & !0x0c00u16) | ((value & 0x03) << 10)) / 0x1000 == t / 0x1000,
{
}

/// Three nibbles of three bytes joined into one number.
pub proof fn lemma_nibbles(low: u16, middle: u16, high: u16)
    by (bit_vector)
    requires
        low < 256,
        middle < 256,
        high < 256,
    ensures
        (middle & 0xf0) | (low >> 4) | 0u16 == middle / 16 * 16 + low / 16,
        (middle & 0xf0) | (low >> 4) | ((high & 0x0f) << 8) == high % 16 * 256 + middle / 16 * 16
            + low / 16,
{
}

} // verus!
