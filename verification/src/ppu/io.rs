//! The CPU-facing I/O bus of the picture chip: a dynamic latch whose bits
//! fade when nothing drives them.

use vstd::prelude::*;

verus! {

/// Hardware measurements vary with console and temperature (roughly 3-30 ms);
/// this is a deterministic 10 ms in NTSC dots.
pub const PPU_IO_BUS_DECAY_DOTS: u64 = 53_693;

/// The latch. Over an array the latch itself, over a `Seq` its model. Decay is
/// applied when the CPU next observes or drives the latch, which is equivalent
/// to clocking it on every dot.
pub struct IoLatch<R = [u64; 8]> {
    pub value: u8,
    pub refreshed_at: R,
}

pub type IoModel = IoLatch<Seq<u64>>;

impl View for IoLatch<[u64; 8]> {
    type V = IoModel;

    open spec fn view(&self) -> IoModel {
        IoLatch { value: self.value, refreshed_at: self.refreshed_at@ }
    }
}

/// Whether a bit driven at dot `since` still holds at dot `now`.
pub open spec fn is_fresh(since: u64, now: u64) -> bool {
    now.wrapping_sub(since) < PPU_IO_BUS_DECAY_DOTS
}

pub open spec fn fresh_bit(since: u64, now: u64, bit: u8) -> u8 {
    if is_fresh(since, now) {
        bit
    } else {
        0
    }
}

/// The bits that have been driven recently enough to hold.
pub open spec fn fresh_bits(refreshed_at: Seq<u64>, now: u64) -> u8 {
    fresh_bit(refreshed_at[0], now, 0x01) | fresh_bit(refreshed_at[1], now, 0x02) | fresh_bit(
        refreshed_at[2],
        now,
        0x04,
    ) | fresh_bit(refreshed_at[3], now, 0x08) | fresh_bit(refreshed_at[4], now, 0x10) | fresh_bit(
        refreshed_at[5],
        now,
        0x20,
    ) | fresh_bit(refreshed_at[6], now, 0x40) | fresh_bit(refreshed_at[7], now, 0x80)
}

impl IoModel {
    /// The latch with its stale bits gone.
    pub open spec fn decayed(self, now: u64) -> IoModel {
        IoLatch { value: self.value & fresh_bits(self.refreshed_at, now), ..self }
    }

    /// The latch after `value` drove the bits of `driven`; the other bits keep
    /// their values and ages.
    pub open spec fn driven(self, value: u8, driven: u8, now: u64) -> IoModel {
        IoLatch {
            value: (self.decayed(now).value & !driven) | (value & driven),
            refreshed_at: Seq::new(
                8,
                |b: int|
                    if driven & (1u8 << (b as u8)) != 0 {
                        now
                    } else {
                        self.refreshed_at[b]
                    },
            ),
        }
    }
}

fn live_bit(since: u64, now: u64, bit: u8) -> (r: u8)
    ensures
        r == fresh_bit(since, now, bit),
{
    if now.wrapping_sub(since) < PPU_IO_BUS_DECAY_DOTS {
        bit
    } else {
        0
    }
}

impl IoLatch<[u64; 8]> {
    pub fn new() -> (r: Self)
        ensures
            r@.value == 0,
            r@.refreshed_at == Seq::new(8, |b: int| 0u64),
    {
        let refreshed_at: [u64; 8] = [0, 0, 0, 0, 0, 0, 0, 0];
        assert(refreshed_at@ =~= Seq::new(8, |b: int| 0u64));
        IoLatch { value: 0, refreshed_at }
    }

    /// Lets stale bits fade.
    pub fn decay(&mut self, now: u64)
        ensures
            final(self)@ == old(self)@.decayed(now),
    {
        let at = &self.refreshed_at;
        let live: u8 = live_bit(at[0], now, 0x01) | live_bit(at[1], now, 0x02) | live_bit(
            at[2],
            now,
            0x04,
        ) | live_bit(at[3], now, 0x08) | live_bit(at[4], now, 0x10) | live_bit(at[5], now, 0x20)
            | live_bit(at[6], now, 0x40) | live_bit(at[7], now, 0x80);
        self.value = self.value & live;
    }

    /// Drives the bits of `driven` with those of `value`.
    pub fn drive(&mut self, value: u8, driven: u8, now: u64)
        ensures
            final(self)@ == old(self)@.driven(value, driven, now),
    {
        let ghost before = self@;
        self.decay(now);
        self.value = (self.value & !driven) | (value & driven);
        let mut bit: u8 = 0;
        while bit < 8
            invariant
                bit <= 8,
                self.value == before.driven(value, driven, now).value,
                forall|b: int|
                    0 <= b < 8 ==> #[trigger] self.refreshed_at@[b] == if b < bit {
                        before.driven(value, driven, now).refreshed_at[b]
                    } else {
                        before.refreshed_at[b]
                    },
            decreases 8 - bit,
        {
            if driven & (1u8 << bit) != 0 {
                self.refreshed_at[bit as usize] = now;
            }
            bit += 1;
        }
        assert(self.refreshed_at@ =~= before.driven(value, driven, now).refreshed_at);
    }

    pub fn duplicate(&self) -> (r: Self)
        ensures
            r@ == self@,
    {
        IoLatch { value: self.value, refreshed_at: self.refreshed_at }
    }
}

/// Driving every bit leaves the driven value on the latch, and it reads back
/// for the whole hold time.
pub proof fn a_driven_value_reads_back_while_fresh(latch: IoModel, value: u8, then: u64, now: u64)
    requires
        is_fresh(then, now),
    ensures
        latch.driven(value, 0xff, then).value == value,
        latch.driven(value, 0xff, then).decayed(now).value == value,
{
    let kept = latch.decayed(then).value;
    assert((kept & !0xffu8) | (value & 0xff) == value) by (bit_vector);
    let driven = latch.driven(value, 0xff, then);
    assert(forall|b: u8| b < 8 ==> 0xffu8 & (1u8 << b) != 0) by (bit_vector);
    assert(forall|b: int| 0 <= b < 8 ==> #[trigger] driven.refreshed_at[b] == then) by {
        assert forall|b: int| 0 <= b < 8 implies #[trigger] driven.refreshed_at[b] == then by {
            assert(0xffu8 & (1u8 << (b as u8)) != 0);
        }
    }
    let live = fresh_bits(driven.refreshed_at, now);
    assert(live == 0x01u8 | 0x02 | 0x04 | 0x08 | 0x10 | 0x20 | 0x40 | 0x80);
    assert(value & (0x01u8 | 0x02 | 0x04 | 0x08 | 0x10 | 0x20 | 0x40 | 0x80) == value)
        by (bit_vector);
}

/// Once every bit is stale the latch reads zero.
pub proof fn a_stale_latch_reads_zero(latch: IoModel, now: u64)
    requires
        forall|b: int| 0 <= b < 8 ==> !is_fresh(#[trigger] latch.refreshed_at[b], now),
    ensures
        latch.decayed(now).value == 0,
{
    let value = latch.value;
    assert(value & (0u8 | 0 | 0 | 0 | 0 | 0 | 0 | 0) == 0) by (bit_vector);
}

} // verus!
