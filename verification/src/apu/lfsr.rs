//! How long the noise goes on before it repeats: the shift register's loops.
//!
//! A register clock is linear over exclusive or, so what `n` clocks do to any
//! register follows from what they do to the top bit alone. A long run of
//! clocks is then put together from shorter ones.

use crate::apu::noise::{lfsr_never_empties, lfsr_next, noise_periods, Noise};
use vstd::arithmetic::div_mod::{
    lemma_fundamental_div_mod, lemma_fundamental_div_mod_converse, lemma_small_mod,
};
use vstd::prelude::*;
use vstd::set_lib::{lemma_int_range, lemma_len_subset, lemma_subset_equality, set_int_range};

verus! {

/// The shift register after `n` clocks.
pub open spec fn lfsr_after(shift: u16, mode: bool, n: nat) -> u16
    decreases n,
{
    if n == 0 {
        shift
    } else {
        lfsr_next(lfsr_after(shift, mode, (n - 1) as nat), mode)
    }
}

/// Whether the register comes back to `shift` after `n` clocks and not before.
pub open spec fn first_returns_after(shift: u16, mode: bool, n: nat) -> bool {
    &&& lfsr_after(shift, mode, n) == shift
    &&& forall|k: nat| 0 < k < n ==> #[trigger] lfsr_after(shift, mode, k) != shift
}

/// The channel after `n` timer ticks.
pub open spec fn ticked_times(noise: Noise, n: nat) -> Noise
    decreases n,
{
    if n == 0 {
        noise
    } else {
        ticked_times(noise, (n - 1) as nat).timer_ticked()
    }
}

// ---- Clocks -----------------------------------------------------------------------

/// A clock undoes no difference.
proof fn lemma_a_clock_tells_apart(a: u16, b: u16)
    by (bit_vector)
    ensures
        a < 0x8000 && b < 0x8000 && lfsr_next(a, false) == lfsr_next(b, false) ==> a == b,
        a < 0x8000 && b < 0x8000 && lfsr_next(a, true) == lfsr_next(b, true) ==> a == b,
{
}

proof fn lemma_stays_in_range(shift: u16, mode: bool, n: nat)
    requires
        0 < shift < 0x8000,
    ensures
        0 < lfsr_after(shift, mode, n) < 0x8000,
    decreases n,
{
    if n > 0 {
        lemma_stays_in_range(shift, mode, (n - 1) as nat);
        lfsr_never_empties(lfsr_after(shift, mode, (n - 1) as nat), mode);
    }
}

proof fn lemma_clocks_add(shift: u16, mode: bool, m: nat, n: nat)
    ensures
        lfsr_after(lfsr_after(shift, mode, m), mode, n) == lfsr_after(shift, mode, m + n),
    decreases n,
{
    if n > 0 {
        lemma_clocks_add(shift, mode, m, (n - 1) as nat);
    }
}

proof fn lemma_clocks_undo_no_difference(a: u16, b: u16, mode: bool, n: nat)
    requires
        0 < a < 0x8000,
        0 < b < 0x8000,
        lfsr_after(a, mode, n) == lfsr_after(b, mode, n),
    ensures
        a == b,
    decreases n,
{
    if n > 0 {
        let x = lfsr_after(a, mode, (n - 1) as nat);
        let y = lfsr_after(b, mode, (n - 1) as nat);
        lemma_stays_in_range(a, mode, (n - 1) as nat);
        lemma_stays_in_range(b, mode, (n - 1) as nat);
        lemma_a_clock_tells_apart(x, y);
        lemma_clocks_undo_no_difference(a, b, mode, (n - 1) as nat);
    }
}

// ---- Returns ----------------------------------------------------------------------

/// The remainder of one return by another is a return.
proof fn lemma_remainder_returns(shift: u16, mode: bool, n: nat, m: nat)
    requires
        0 < shift < 0x8000,
        m > 0,
        lfsr_after(shift, mode, n) == shift,
        lfsr_after(shift, mode, m) == shift,
    ensures
        lfsr_after(shift, mode, n % m) == shift,
    decreases n,
{
    if n >= m {
        let less = (n - m) as nat;
        lemma_clocks_add(shift, mode, less, m);
        lemma_stays_in_range(shift, mode, less);
        lemma_clocks_undo_no_difference(lfsr_after(shift, mode, less), shift, mode, m);
        lemma_remainder_returns(shift, mode, less, m);
        let q: int = (less / m) as int;
        let r: int = (less % m) as int;
        lemma_fundamental_div_mod(less as int, m as int);
        assert(n == (q + 1) * m + r) by (nonlinear_arith)
            requires
                less == m * q + r,
                n == less + m,
        ;
        lemma_fundamental_div_mod_converse(n as int, m as int, q + 1, r);
    } else {
        lemma_small_mod(n, m);
    }
}

/// A multiple of a return is a return.
proof fn lemma_multiple_returns(shift: u16, mode: bool, m: nat, times: nat)
    requires
        lfsr_after(shift, mode, m) == shift,
    ensures
        lfsr_after(shift, mode, m * times) == shift,
    decreases times,
{
    if times > 0 {
        lemma_multiple_returns(shift, mode, m, (times - 1) as nat);
        assert(m * times == m * ((times - 1) as nat) + m) by (nonlinear_arith)
            requires
                times > 0,
        ;
        lemma_clocks_add(shift, mode, m * ((times - 1) as nat), m);
    } else {
        assert(m * 0 == 0) by (nonlinear_arith);
    }
}

/// The least return at or before a given one.
proof fn lemma_least_return(shift: u16, mode: bool, n: nat) -> (least: nat)
    requires
        n > 0,
        lfsr_after(shift, mode, n) == shift,
    ensures
        0 < least <= n,
        first_returns_after(shift, mode, least),
    decreases n,
{
    if exists|k: nat| 0 < k < n && #[trigger] lfsr_after(shift, mode, k) == shift {
        let k = choose|k: nat| 0 < k < n && #[trigger] lfsr_after(shift, mode, k) == shift;
        lemma_least_return(shift, mode, k)
    } else {
        n
    }
}

/// A return before `n` makes a proper divisor of `n` a return.
proof fn lemma_early_return_divides(shift: u16, mode: bool, n: nat, early: nat) -> (least: nat)
    requires
        0 < shift < 0x8000,
        0 < early < n,
        lfsr_after(shift, mode, n) == shift,
        lfsr_after(shift, mode, early) == shift,
    ensures
        0 < least < n,
        n % least == 0,
        lfsr_after(shift, mode, least) == shift,
{
    let least = lemma_least_return(shift, mode, early);
    lemma_remainder_returns(shift, mode, n, least);
    assert(n % least < least) by (nonlinear_arith)
        requires
            least > 0,
    ;
    least
}

/// If a divisor of `n` is a return, so is `n`.
proof fn lemma_divided_returns(shift: u16, mode: bool, divisor: nat, n: nat)
    requires
        divisor > 0,
        n % divisor == 0,
        lfsr_after(shift, mode, divisor) == shift,
    ensures
        lfsr_after(shift, mode, n) == shift,
{
    lemma_multiple_returns(shift, mode, divisor, n / divisor);
    assert(n == divisor * (n / divisor)) by (nonlinear_arith)
        requires
            divisor > 0,
            n % divisor == 0,
    ;
}

/// 32767 is 7 times 31 times 151, and 93 is 3 times 31: a proper divisor leaves
/// out one of the primes.
proof fn lemma_proper_divisors(d: u32)
    by (bit_vector)
    requires
        0 < d < 32767,
    ensures
        32767u32 % d == 0 ==> 4681u32 % d == 0 || 1057u32 % d == 0 || 217u32 % d == 0,
        d < 93 && 93u32 % d == 0 ==> 31u32 % d == 0 || 3u32 % d == 0,
{
}

// ---- The long loop ----------------------------------------------------------------

/// A clock in the long mode.
#[verifier::opaque]
spec fn clock(x: u16) -> u16 {
    lfsr_next(x, false)
}

proof fn lemma_a_clock_is_linear(a: u16, b: u16)
    by (bit_vector)
    ensures
        a < 0x8000 && b < 0x8000 ==> clock(a ^ b) == clock(a) ^ clock(b),
        a < 0x8000 && b < 0x8000 ==> a ^ b < 0x8000,
        a < 0x8000 ==> clock(a) < 0x8000,
        clock(0) == 0,
{
}

/// Where clocks that take the top bit to `v` take a register. Each bit is the
/// top bit some clocks on, but for the lowest, which is that and the top bit.
#[verifier::opaque]
spec fn jump(v: u16, x: u16) -> u16 {
    let a0 = if x & 0x0001 != 0 { v } else { 0 };
    let a1 = clock(a0) ^ (if x & 0x0002 != 0 { v } else { 0 });
    let a2 = clock(a1) ^ (if x & 0x0004 != 0 { v } else { 0 });
    let a3 = clock(a2) ^ (if x & 0x0008 != 0 { v } else { 0 });
    let a4 = clock(a3) ^ (if x & 0x0010 != 0 { v } else { 0 });
    let a5 = clock(a4) ^ (if x & 0x0020 != 0 { v } else { 0 });
    let a6 = clock(a5) ^ (if x & 0x0040 != 0 { v } else { 0 });
    let a7 = clock(a6) ^ (if x & 0x0080 != 0 { v } else { 0 });
    let a8 = clock(a7) ^ (if x & 0x0100 != 0 { v } else { 0 });
    let a9 = clock(a8) ^ (if x & 0x0200 != 0 { v } else { 0 });
    let a10 = clock(a9) ^ (if x & 0x0400 != 0 { v } else { 0 });
    let a11 = clock(a10) ^ (if x & 0x0800 != 0 { v } else { 0 });
    let a12 = clock(a11) ^ (if x & 0x1000 != 0 { v } else { 0 });
    let a13 = clock(a12) ^ (if x & 0x2000 != 0 { v } else { 0 });
    let a14 = clock(a13) ^ (if x & 0x4000 != 0 { v } else { 0 });
    a14 ^ a0
}

/// `v` where the register has the bits of `mask`.
spec fn picked(x: u16, mask: u16, v: u16) -> u16 {
    if x & mask != 0 {
        v
    } else {
        0
    }
}

/// One bit more of a jump, and the same after a clock.
proof fn lemma_next_bit(a: u16, v: u16, x: u16, mask: u16) -> (next: u16)
    requires
        a < 0x8000,
        v < 0x8000,
    ensures
        next == clock(a) ^ picked(x, mask, v),
        next < 0x8000,
        clock(next) == clock(clock(a)) ^ picked(x, mask, clock(v)),
{
    lemma_a_clock_is_linear(0, 0);
    lemma_a_clock_is_linear(a, 0);
    lemma_a_clock_is_linear(clock(a), picked(x, mask, v));
    clock(a) ^ picked(x, mask, v)
}

proof fn lemma_a_clock_moves_the_jump(v: u16, x: u16)
    requires
        v < 0x8000,
    ensures
        clock(jump(v, x)) == jump(clock(v), x),
{
    reveal(jump);
    lemma_a_clock_is_linear(0, 0);
    lemma_a_clock_is_linear(v, 0);
    let a0 = picked(x, 0x0001, v);
    let a1 = lemma_next_bit(a0, v, x, 0x0002);
    let a2 = lemma_next_bit(a1, v, x, 0x0004);
    let a3 = lemma_next_bit(a2, v, x, 0x0008);
    let a4 = lemma_next_bit(a3, v, x, 0x0010);
    let a5 = lemma_next_bit(a4, v, x, 0x0020);
    let a6 = lemma_next_bit(a5, v, x, 0x0040);
    let a7 = lemma_next_bit(a6, v, x, 0x0080);
    let a8 = lemma_next_bit(a7, v, x, 0x0100);
    let a9 = lemma_next_bit(a8, v, x, 0x0200);
    let a10 = lemma_next_bit(a9, v, x, 0x0400);
    let a11 = lemma_next_bit(a10, v, x, 0x0800);
    let a12 = lemma_next_bit(a11, v, x, 0x1000);
    let a13 = lemma_next_bit(a12, v, x, 0x2000);
    let a14 = lemma_next_bit(a13, v, x, 0x4000);
    lemma_a_clock_is_linear(a14, a0);
}

/// The register put together from its bits, one bit at a time.
proof fn lemma_bits_enter(x: u16)
    by (bit_vector)
    requires
        x < 0x8000,
    ensures
        (if x & 0x0001 != 0 { 0x4000 } else { 0u16 }) == (x << 14) & 0x7fff,
        clock((x << 14) & 0x7fff) ^ (if x & 0x0002 != 0 { 0x4000 } else { 0u16 })
            == (x << 13) & 0x7fff,
        clock((x << 13) & 0x7fff) ^ (if x & 0x0004 != 0 { 0x4000 } else { 0u16 })
            == (x << 12) & 0x7fff,
        clock((x << 12) & 0x7fff) ^ (if x & 0x0008 != 0 { 0x4000 } else { 0u16 })
            == (x << 11) & 0x7fff,
        clock((x << 11) & 0x7fff) ^ (if x & 0x0010 != 0 { 0x4000 } else { 0u16 })
            == (x << 10) & 0x7fff,
        clock((x << 10) & 0x7fff) ^ (if x & 0x0020 != 0 { 0x4000 } else { 0u16 })
            == (x << 9) & 0x7fff,
        clock((x << 9) & 0x7fff) ^ (if x & 0x0040 != 0 { 0x4000 } else { 0u16 })
            == (x << 8) & 0x7fff,
        clock((x << 8) & 0x7fff) ^ (if x & 0x0080 != 0 { 0x4000 } else { 0u16 })
            == (x << 7) & 0x7fff,
        clock((x << 7) & 0x7fff) ^ (if x & 0x0100 != 0 { 0x4000 } else { 0u16 })
            == (x << 6) & 0x7fff,
        clock((x << 6) & 0x7fff) ^ (if x & 0x0200 != 0 { 0x4000 } else { 0u16 })
            == (x << 5) & 0x7fff,
        clock((x << 5) & 0x7fff) ^ (if x & 0x0400 != 0 { 0x4000 } else { 0u16 })
            == (x << 4) & 0x7fff,
        clock((x << 4) & 0x7fff) ^ (if x & 0x0800 != 0 { 0x4000 } else { 0u16 })
            == (x << 3) & 0x7fff,
        clock((x << 3) & 0x7fff) ^ (if x & 0x1000 != 0 { 0x4000 } else { 0u16 })
            == (x << 2) & 0x7fff,
        clock((x << 2) & 0x7fff) ^ (if x & 0x2000 != 0 { 0x4000 } else { 0u16 })
            == (x << 1) & 0x7fff,
        clock((x << 1) & 0x7fff) ^ (if x & 0x4000 != 0 { 0x4000 } else { 0u16 }) ^ (if x
            & 0x0001 != 0 { 0x4000 } else { 0u16 }) == x,
{
}

/// No clocks at all leave a register as it is.
proof fn lemma_top_bit_at_rest(x: u16)
    requires
        x < 0x8000,
    ensures
        jump(0x4000, x) == x,
{
    reveal(jump);
    lemma_bits_enter(x);
}

/// What `n` clocks do to the top bit says what they do to any register.
proof fn lemma_clocks_jump(x: u16, n: nat)
    requires
        x < 0x8000,
    ensures
        lfsr_after(x, false, n) == jump(lfsr_after(0x4000, false, n), x),
    decreases n,
{
    if n == 0 {
        lemma_top_bit_at_rest(x);
    } else {
        lemma_clocks_jump(x, (n - 1) as nat);
        lemma_stays_in_range(0x4000, false, (n - 1) as nat);
        reveal(clock);
        lemma_a_clock_moves_the_jump(lfsr_after(0x4000, false, (n - 1) as nat), x);
    }
}

/// A run of clocks behind another.
proof fn lemma_jumps_join(m: nat, n: nat, v: u16, w: u16)
    requires
        lfsr_after(0x4000, false, m) == v,
        lfsr_after(0x4000, false, n) == w,
        w < 0x8000,
    ensures
        lfsr_after(0x4000, false, m + n) == jump(v, w),
{
    lemma_clocks_add(0x4000, false, n, m);
    lemma_clocks_jump(w, m);
}

/// Runs of clocks put together: what two of them do to the top bit.
proof fn lemma_jump_values()
    by (bit_vector)
    ensures
        lfsr_next(0x4000, false) == 0x2000,
        jump(0x2000, 0x2000) == 0x1000,
        jump(0x1000, 0x2000) == 0x0800,
        jump(0x0800, 0x0800) == 0x0100,
        jump(0x0100, 0x2000) == 0x0080,
        jump(0x0080, 0x0080) == 0x4001,
        jump(0x4001, 0x4001) == 0x4003,
        jump(0x4003, 0x0800) == 0x2800,
        jump(0x2800, 0x2800) == 0x1100,
        jump(0x1100, 0x2800) == 0x0aa0,
        jump(0x1100, 0x1100) == 0x0404,
        jump(0x0404, 0x0aa0) == 0x7f2a,
        jump(0x0404, 0x4001) == 0x0c0c,
        jump(0x0c0c, 0x0080) == 0x0a18,
        jump(0x0a18, 0x0100) == 0x2828,
        jump(0x2828, 0x2828) == 0x1dc0,
        jump(0x1dc0, 0x2828) == 0x7755,
        jump(0x1dc0, 0x1dc0) == 0x7545,
        jump(0x7545, 0x7755) == 0x0720,
        jump(0x0720, 0x0720) == 0x0c54,
        jump(0x0c54, 0x0c54) == 0x3270,
        jump(0x3270, 0x7755) == 0x2634,
        jump(0x2634, 0x2634) == 0x1f60,
        jump(0x1f60, 0x2634) == 0x6634,
        jump(0x6634, 0x6634) == 0x5f60,
        jump(0x5f60, 0x2634) == 0x4000,
{
}

/// Where the top bit goes in the runs of clocks that matter.
proof fn lemma_top_bit_runs()
    ensures
        lfsr_after(0x4000, false, 217) == 0x7f2a,
        lfsr_after(0x4000, false, 1057) == 0x0720,
        lfsr_after(0x4000, false, 4681) == 0x2634,
        lfsr_after(0x4000, false, 32767) == 0x4000,
{
    lemma_jump_values();
    reveal_with_fuel(lfsr_after, 2);
    lemma_jumps_join(1, 1, 0x2000, 0x2000);
    lemma_jumps_join(2, 1, 0x1000, 0x2000);
    lemma_jumps_join(3, 3, 0x0800, 0x0800);
    lemma_jumps_join(6, 1, 0x0100, 0x2000);
    lemma_jumps_join(7, 7, 0x0080, 0x0080);
    lemma_jumps_join(14, 14, 0x4001, 0x4001);
    lemma_jumps_join(28, 3, 0x4003, 0x0800);
    lemma_jumps_join(31, 31, 0x2800, 0x2800);
    lemma_jumps_join(62, 31, 0x1100, 0x2800);
    lemma_jumps_join(62, 62, 0x1100, 0x1100);
    lemma_jumps_join(124, 93, 0x0404, 0x0aa0);
    lemma_jumps_join(124, 14, 0x0404, 0x4001);
    lemma_jumps_join(138, 7, 0x0c0c, 0x0080);
    lemma_jumps_join(145, 6, 0x0a18, 0x0100);
    lemma_jumps_join(151, 151, 0x2828, 0x2828);
    lemma_jumps_join(302, 151, 0x1dc0, 0x2828);
    lemma_jumps_join(302, 302, 0x1dc0, 0x1dc0);
    lemma_jumps_join(604, 453, 0x7545, 0x7755);
    lemma_jumps_join(1057, 1057, 0x0720, 0x0720);
    lemma_jumps_join(2114, 2114, 0x0c54, 0x0c54);
    lemma_jumps_join(4228, 453, 0x3270, 0x7755);
    lemma_jumps_join(4681, 4681, 0x2634, 0x2634);
    lemma_jumps_join(9362, 4681, 0x1f60, 0x2634);
    lemma_jumps_join(14043, 14043, 0x6634, 0x6634);
    lemma_jumps_join(28086, 4681, 0x5f60, 0x2634);
}

/// The top bit first comes back after 32767 clocks.
proof fn lemma_top_bit_returns()
    ensures
        first_returns_after(0x4000, false, 32767),
{
    lemma_top_bit_runs();
    assert forall|k: nat| 0 < k < 32767 implies #[trigger] lfsr_after(0x4000, false, k)
        != 0x4000 by {
        if lfsr_after(0x4000, false, k) == 0x4000 {
            let least = lemma_early_return_divides(0x4000, false, 32767, k);
            lemma_proper_divisors(least as u32);
            if 4681nat % least == 0 {
                lemma_divided_returns(0x4000, false, least, 4681);
            } else if 1057nat % least == 0 {
                lemma_divided_returns(0x4000, false, least, 1057);
            } else {
                lemma_divided_returns(0x4000, false, least, 217);
            }
        }
    }
}

/// Before its first return the register shows no value twice.
proof fn lemma_no_value_twice(shift: u16, mode: bool, n: nat, i: nat, j: nat)
    requires
        0 < shift < 0x8000,
        first_returns_after(shift, mode, n),
        i < j < n,
    ensures
        lfsr_after(shift, mode, i) != lfsr_after(shift, mode, j),
{
    let apart = (j - i) as nat;
    if lfsr_after(shift, mode, i) == lfsr_after(shift, mode, j) {
        lemma_clocks_add(shift, mode, apart, i);
        lemma_stays_in_range(shift, mode, apart);
        lemma_clocks_undo_no_difference(lfsr_after(shift, mode, apart), shift, mode, i);
    }
}

/// A loop returns as late to each of its values.
proof fn lemma_loop_returns(start: u16, mode: bool, n: nat, k: nat)
    requires
        0 < start < 0x8000,
        first_returns_after(start, mode, n),
    ensures
        first_returns_after(lfsr_after(start, mode, k), mode, n),
{
    let shift = lfsr_after(start, mode, k);
    lemma_clocks_add(start, mode, n, k);
    lemma_clocks_add(start, mode, k, n);
    assert forall|i: nat| 0 < i < n implies #[trigger] lfsr_after(shift, mode, i) != shift by {
        if lfsr_after(shift, mode, i) == shift {
            lemma_clocks_add(start, mode, k, i);
            lemma_clocks_add(start, mode, i, k);
            lemma_stays_in_range(start, mode, i);
            lemma_clocks_undo_no_difference(lfsr_after(start, mode, i), start, mode, k);
        }
    }
}

/// Every register that is not empty lies on the top bit's loop, which has as
/// many values as there are such registers.
proof fn lemma_one_long_loop(shift: u16) -> (k: nat)
    requires
        0 < shift < 0x8000,
    ensures
        shift == lfsr_after(0x4000, false, k),
{
    lemma_top_bit_returns();
    let walk = Seq::new(32767, |i: int| lfsr_after(0x4000, false, i as nat) as int);
    let all = set_int_range(1, 0x8000);
    assert forall|i: int, j: int| 0 <= i < walk.len() && 0 <= j < walk.len() && i != j implies walk[i]
        != walk[j] by {
        if i < j {
            lemma_no_value_twice(0x4000, false, 32767, i as nat, j as nat);
        } else {
            lemma_no_value_twice(0x4000, false, 32767, j as nat, i as nat);
        }
    }
    walk.unique_seq_to_set();
    lemma_int_range(1, 0x8000);
    assert(walk.to_set().subset_of(all)) by {
        assert forall|value: int| walk.to_set().contains(value) implies all.contains(value) by {
            let i = choose|i: int| 0 <= i < walk.len() && walk[i] == value;
            lemma_stays_in_range(0x4000, false, i as nat);
        }
    }
    lemma_len_subset(walk.to_set(), all);
    lemma_subset_equality(walk.to_set(), all);
    assert(walk.to_set().contains(shift as int));
    let i = choose|i: int| 0 <= i < walk.len() && walk[i] == shift as int;
    i as nat
}

/// In the long mode every register first comes back after 32767 clocks: it goes
/// through all that are not empty.
pub proof fn the_long_noise_repeats_after_32767(shift: u16)
    requires
        0 < shift < 0x8000,
    ensures
        first_returns_after(shift, false, 32767),
{
    let k = lemma_one_long_loop(shift);
    lemma_top_bit_returns();
    lemma_loop_returns(0x4000, false, 32767, k);
}

// ---- The short loop ---------------------------------------------------------------

spec fn ten_short_steps(x: u16) -> u16 {
    let a1 = lfsr_next(x, true);
    let a2 = lfsr_next(a1, true);
    let a3 = lfsr_next(a2, true);
    let a4 = lfsr_next(a3, true);
    let a5 = lfsr_next(a4, true);
    let a6 = lfsr_next(a5, true);
    let a7 = lfsr_next(a6, true);
    let a8 = lfsr_next(a7, true);
    let a9 = lfsr_next(a8, true);
    lfsr_next(a9, true)
}

proof fn lemma_short_values()
    by (bit_vector)
    ensures
        lfsr_next(lfsr_next(lfsr_next(1, true), true), true) != 1,
        ten_short_steps(0x0001) == 0x4020,
        ten_short_steps(0x4020) == 0x2410,
        ten_short_steps(0x2410) == 0x1009,
        lfsr_next(0x1009, true) == 0x4804,
        ten_short_steps(0x4804) == 0x2492,
        ten_short_steps(0x2492) == 0x0009,
        ten_short_steps(0x0009) == 0x4120,
        lfsr_next(0x4120, true) == 0x2090,
        ten_short_steps(0x2090) == 0x0248,
        ten_short_steps(0x0248) == 0x0820,
        ten_short_steps(0x0820) == 0x0002,
        lfsr_next(0x0002, true) == 0x0001,
{
}

proof fn lemma_ten_more(n: nat, x: u16)
    requires
        lfsr_after(1, true, n) == x,
    ensures
        lfsr_after(1, true, n + 10) == ten_short_steps(x),
{
    reveal_with_fuel(lfsr_after, 11);
}

proof fn lemma_short_runs()
    ensures
        lfsr_after(1, true, 3) != 1,
        lfsr_after(1, true, 31) != 1,
        lfsr_after(1, true, 93) == 1,
{
    lemma_short_values();
    reveal_with_fuel(lfsr_after, 4);
    lemma_ten_more(0, 0x0001);
    lemma_ten_more(10, 0x4020);
    lemma_ten_more(20, 0x2410);
    lemma_ten_more(31, 0x4804);
    lemma_ten_more(41, 0x2492);
    lemma_ten_more(51, 0x0009);
    lemma_ten_more(62, 0x2090);
    lemma_ten_more(72, 0x0248);
    lemma_ten_more(82, 0x0820);
}

/// In the short mode a register on the loop of the power-up value first comes
/// back after 93 clocks.
pub proof fn the_short_noise_repeats_after_93(shift: u16, n: nat)
    requires
        shift == lfsr_after(1, true, n),
    ensures
        first_returns_after(shift, true, 93),
{
    lemma_short_runs();
    assert forall|k: nat| 0 < k < 93 implies #[trigger] lfsr_after(1, true, k) != 1 by {
        if lfsr_after(1, true, k) == 1 {
            let least = lemma_early_return_divides(1, true, 93, k);
            lemma_proper_divisors(least as u32);
            if 31nat % least == 0 {
                lemma_divided_returns(1, true, least, 31);
            } else {
                lemma_divided_returns(1, true, least, 3);
            }
        }
    }
    lemma_loop_returns(1, true, 93, n);
}

// ---- The timer --------------------------------------------------------------------

/// Clocks of the register in `n` ticks of a timer that stands at zero: one on
/// the first tick, and one every period from there on.
pub open spec fn clocks_in(n: nat, period: nat) -> nat {
    if n % period == 0 {
        n / period
    } else {
        n / period + 1
    }
}

proof fn lemma_next_quotient(n: nat, period: nat)
    requires
        period > 0,
    ensures
        n % period + 1 < period ==> (n + 1) / period == n / period && (n + 1) % period == n % period
            + 1,
        n % period + 1 == period ==> (n + 1) / period == n / period + 1 && (n + 1) % period == 0,
        n % period < period,
{
    let q: int = (n / period) as int;
    let r: int = (n % period) as int;
    assert(n == period * q + r && r < period) by (nonlinear_arith)
        requires
            period > 0,
            q == n as int / period as int,
            r == n as int % period as int,
    ;
    if r + 1 < period {
        assert(n + 1 == q * period + (r + 1)) by (nonlinear_arith)
            requires
                n == period * q + r,
        ;
        lemma_fundamental_div_mod_converse((n + 1) as int, period as int, q, r + 1);
    } else {
        assert(n + 1 == (q + 1) * period + 0) by (nonlinear_arith)
            requires
                n == period * q + r,
                r + 1 == period,
        ;
        lemma_fundamental_div_mod_converse((n + 1) as int, period as int, q + 1, 0);
    }
}

/// From a timer at zero, the register is clocked on ticks 1, p + 1, 2p + 1 and so
/// on, where p is the period, and on no others. Nothing else changes, and the
/// register stays within 15 bits and is never empty.
pub proof fn the_noise_is_clocked_every_period(noise: Noise, n: nat)
    requires
        noise.wf(),
        noise.timer == 0,
    ensures
        ({
            let period = noise.timer_period as nat;
            let after = ticked_times(noise, n);
            &&& after == (Noise {
                timer: after.timer,
                shift: lfsr_after(noise.shift, noise.mode, clocks_in(n, period)),
                ..noise
            })
            &&& after.timer == if n % period == 0 {
                0
            } else {
                period - n % period
            }
            &&& 0 < after.shift < 0x8000
        }),
    decreases n,
{
    let period = noise.timer_period as nat;
    if n == 0 {
        assert(0nat % period == 0 && 0nat / period == 0) by (nonlinear_arith)
            requires
                period > 0,
        ;
    } else {
        the_noise_is_clocked_every_period(noise, (n - 1) as nat);
        lemma_next_quotient((n - 1) as nat, period);
    }
    lemma_stays_in_range(noise.shift, noise.mode, clocks_in(n, period));
}

/// The noise from power-up, once mode and period are set: after `n` ticks the
/// register has been clocked on ticks 1, p + 1, 2p + 1 and so on up to then,
/// and it first shows its power-up value again after 32767 clocks in the long
/// mode and after 93 in the short.
pub proof fn the_noise_from_power_up(data: u8, n: nat)
    ensures
        ({
            let set = Noise::initial().mode_period_written(data);
            let short = data & 0x80 != 0;
            let after = ticked_times(set, n);
            &&& after.shift == lfsr_after(
                1,
                short,
                clocks_in(n, noise_periods()[data as int % 16] as nat),
            )
            &&& 0 < after.shift < 0x8000
            &&& first_returns_after(
                1,
                short,
                if short {
                    93
                } else {
                    32767
                },
            )
        }),
{
    the_noise_is_clocked_every_period(Noise::initial().mode_period_written(data), n);
    the_long_noise_repeats_after_32767(1);
    the_short_noise_repeats_after_93(1, 0);
}

} // verus!
