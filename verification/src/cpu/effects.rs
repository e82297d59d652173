//! What each instruction leaves in the registers and flags, stated by number
//! and by bit.

use crate::bits::{bit, lemma_flag, lemma_masks, lemma_operators};
use crate::cpu::registers::{plain_part, CpuFlags, Registers};
use crate::opcodes::Operation;
use vstd::prelude::*;

verus! {

pub open spec fn flag_c(r: Registers) -> bool {
    r.status.bits % 2 == 1
}

pub open spec fn flag_z(r: Registers) -> bool {
    r.status.bits / 2 % 2 == 1
}

pub open spec fn flag_i(r: Registers) -> bool {
    r.status.bits / 4 % 2 == 1
}

pub open spec fn flag_d(r: Registers) -> bool {
    r.status.bits / 8 % 2 == 1
}

pub open spec fn flag_v(r: Registers) -> bool {
    r.status.bits / 64 % 2 == 1
}

pub open spec fn flag_n(r: Registers) -> bool {
    r.status.bits >= 128
}

/// The carry flag as a number.
pub open spec fn carry_in(r: Registers) -> int {
    if flag_c(r) {
        1
    } else {
        0
    }
}

/// Interrupt mask, decimal mode and the two bits without a flag are as before.
pub open spec fn control_bits_kept(before: Registers, after: Registers) -> bool {
    after.status.bits / 4 % 16 == before.status.bits / 4 % 16
}

/// N and Z tell of `result`, and no other flag has moved.
pub open spec fn only_nz_follow(before: Registers, after: Registers, result: u8) -> bool {
    &&& flag_n(after) == (result >= 128)
    &&& flag_z(after) == (result == 0)
    &&& flag_c(after) == flag_c(before)
    &&& flag_v(after) == flag_v(before)
    &&& control_bits_kept(before, after)
}

/// Every register but the accumulator is as before.
pub open spec fn only_a_moves(before: Registers, after: Registers) -> bool {
    &&& after.register_x == before.register_x
    &&& after.register_y == before.register_y
    &&& after.stack_pointer == before.stack_pointer
    &&& after.program_counter == before.program_counter
}

/// Every register is as before.
pub open spec fn registers_kept(before: Registers, after: Registers) -> bool {
    only_a_moves(before, after) && after.register_a == before.register_a
}

/// A byte read as two's complement.
pub open spec fn signed(x: u8) -> int {
    if x < 128 {
        x as int
    } else {
        x - 256
    }
}

proof fn lemma_flag_numbers(bits: u8)
    ensures
        bits & 0x01 == 0x01 <==> bits % 2 == 1,
        bits & 0x02 == 0x02 <==> bits / 2 % 2 == 1,
        bits & 0x04 == 0x04 <==> bits / 4 % 2 == 1,
        bits & 0x08 == 0x08 <==> bits / 8 % 2 == 1,
        bits & 0x40 == 0x40 <==> bits / 64 % 2 == 1,
        bits & 0x80 == 0x80 <==> bits >= 128,
{
    lemma_masks(bits);
}

/// A byte's number from its bits.
proof fn lemma_bits_of(x: u8)
    ensures
        bit(x, 0) == (x % 2 == 1),
        bit(x, 1) == (x / 2 % 2 == 1),
        bit(x, 2) == (x / 4 % 2 == 1),
        bit(x, 3) == (x / 8 % 2 == 1),
        bit(x, 4) == (x / 16 % 2 == 1),
        bit(x, 5) == (x / 32 % 2 == 1),
        bit(x, 6) == (x / 64 % 2 == 1),
        bit(x, 7) == (x >= 128),
{
    lemma_masks(x);
}

proof fn lemma_four_bits(x: u8, y: u8)
    requires
        x / 4 % 2 == y / 4 % 2,
        x / 8 % 2 == y / 8 % 2,
        x / 16 % 2 == y / 16 % 2,
        x / 32 % 2 == y / 32 % 2,
    ensures
        x / 4 % 16 == y / 4 % 16,
{
    lemma_masks(x);
    lemma_masks(y);
}

proof fn lemma_two_bits(x: u8, y: u8)
    requires
        x / 16 % 2 == y / 16 % 2,
        x / 32 % 2 == y / 32 % 2,
    ensures
        x / 16 % 4 == y / 16 % 4,
{
    lemma_masks(x);
    lemma_masks(y);
}

/// One flag set or cleared: that flag, and no other bit.
proof fn lemma_with_flag(f: CpuFlags, mask: u8, n: u8, on: bool)
    requires
        n < 8,
        mask == 1u8 << n,
    ensures
        forall|k: u8| k < 8 ==> #[trigger] bit(f.with(mask, on).bits, k) == if k == n {
            on
        } else {
            bit(f.bits, k)
        },
        f.contains(mask) == bit(f.bits, n),
{
    lemma_flag(f.bits, mask, n, n);
    assert forall|k: u8| k < 8 implies #[trigger] bit(f.with(mask, on).bits, k) == if k == n {
        on
    } else {
        bit(f.bits, k)
    } by {
        lemma_flag(f.bits, mask, n, k);
    }
}

/// What `with_zn` leaves, by flags.
proof fn lemma_zn(r: Registers, result: u8)
    ensures
        only_nz_follow(r, r.with_zn(result), result),
        registers_kept(r, r.with_zn(result)),
{
    let zeroed = r.status.with(CpuFlags::ZERO, result == 0);
    let done = zeroed.with(CpuFlags::NEGATIV, result >= 128);
    lemma_masks(0);
    lemma_with_flag(r.status, CpuFlags::ZERO, 1, result == 0);
    lemma_with_flag(zeroed, CpuFlags::NEGATIV, 7, result >= 128);
    lemma_bits_of(r.status.bits);
    lemma_bits_of(zeroed.bits);
    lemma_bits_of(done.bits);
    lemma_four_bits(done.bits, r.status.bits);
}

/// What one flag leaves of the others.
#[verifier::rlimit(50)]
proof fn lemma_one_flag(r: Registers, mask: u8, n: u8, on: bool)
    requires
        n < 8,
        mask == 1u8 << n,
    ensures
        ({
            let after = r.with_flag(mask, on);
            &&& registers_kept(r, after)
            &&& flag_c(after) == if n == 0 {
                on
            } else {
                flag_c(r)
            }
            &&& flag_z(after) == if n == 1 {
                on
            } else {
                flag_z(r)
            }
            &&& flag_i(after) == if n == 2 {
                on
            } else {
                flag_i(r)
            }
            &&& flag_d(after) == if n == 3 {
                on
            } else {
                flag_d(r)
            }
            &&& flag_v(after) == if n == 6 {
                on
            } else {
                flag_v(r)
            }
            &&& flag_n(after) == if n == 7 {
                on
            } else {
                flag_n(r)
            }
            &&& n < 4 || n > 5 ==> after.status.bits / 16 % 4 == r.status.bits / 16 % 4
            &&& n < 2 || n > 5 ==> control_bits_kept(r, after)
            &&& r.has(mask) == bit(r.status.bits, n)
        }),
{
    let after = r.with_flag(mask, on);
    lemma_with_flag(r.status, mask, n, on);
    let b = r.status.bits;
    let a = after.status.bits;
    lemma_bits_of(b);
    lemma_bits_of(a);
    assert(bit(a, 0) == if n == 0 { on } else { bit(b, 0) });
    assert(bit(a, 1) == if n == 1 { on } else { bit(b, 1) });
    assert(bit(a, 2) == if n == 2 { on } else { bit(b, 2) });
    assert(bit(a, 3) == if n == 3 { on } else { bit(b, 3) });
    assert(bit(a, 4) == if n == 4 { on } else { bit(b, 4) });
    assert(bit(a, 5) == if n == 5 { on } else { bit(b, 5) });
    assert(bit(a, 6) == if n == 6 { on } else { bit(b, 6) });
    assert(bit(a, 7) == if n == 7 { on } else { bit(b, 7) });
    if n < 4 || n > 5 {
        lemma_two_bits(a, b);
    }
    if n < 2 || n > 5 {
        lemma_four_bits(a, b);
    }
}

proof fn lemma_carry_flag(r: Registers, on: bool)
    ensures
        flag_c(r.with_flag(CpuFlags::CARRY, on)) == on,
        flag_v(r.with_flag(CpuFlags::CARRY, on)) == flag_v(r),
        flag_n(r.with_flag(CpuFlags::CARRY, on)) == flag_n(r),
        flag_z(r.with_flag(CpuFlags::CARRY, on)) == flag_z(r),
        control_bits_kept(r, r.with_flag(CpuFlags::CARRY, on)),
        registers_kept(r, r.with_flag(CpuFlags::CARRY, on)),
        r.has(CpuFlags::CARRY) == flag_c(r),
{
    lemma_masks(r.status.bits);
    lemma_one_flag(r, CpuFlags::CARRY, 0, on);
}

proof fn lemma_overflow_flag(r: Registers, on: bool)
    ensures
        flag_v(r.with_flag(CpuFlags::OVERFLOW, on)) == on,
        flag_c(r.with_flag(CpuFlags::OVERFLOW, on)) == flag_c(r),
        flag_n(r.with_flag(CpuFlags::OVERFLOW, on)) == flag_n(r),
        flag_z(r.with_flag(CpuFlags::OVERFLOW, on)) == flag_z(r),
        control_bits_kept(r, r.with_flag(CpuFlags::OVERFLOW, on)),
        registers_kept(r, r.with_flag(CpuFlags::OVERFLOW, on)),
        r.has(CpuFlags::OVERFLOW) == flag_v(r),
{
    lemma_masks(r.status.bits);
    lemma_one_flag(r, CpuFlags::OVERFLOW, 6, on);
}

/// A register loaded with `value`: N and Z follow.
proof fn lemma_loads(r: Registers, value: u8)
    ensures
        only_nz_follow(r, r.with_a(value), value),
        only_a_moves(r, r.with_a(value)),
        r.with_a(value).register_a == value,
        only_nz_follow(r, r.with_x(value), value),
        r.with_x(value).register_x == value,
        r.with_x(value).register_a == r.register_a,
        r.with_x(value).register_y == r.register_y,
        r.with_x(value).stack_pointer == r.stack_pointer,
        r.with_x(value).program_counter == r.program_counter,
        only_nz_follow(r, r.with_y(value), value),
        r.with_y(value).register_y == value,
        r.with_y(value).register_a == r.register_a,
        r.with_y(value).register_x == r.register_x,
        r.with_y(value).stack_pointer == r.stack_pointer,
        r.with_y(value).program_counter == r.program_counter,
{
    lemma_zn(Registers { register_a: value, ..r }, value);
    lemma_zn(Registers { register_x: value, ..r }, value);
    lemma_zn(Registers { register_y: value, ..r }, value);
}

// ---- Loads, logic and tests ---------------------------------------------------------

/// A load puts the byte read in its own register and lets N and Z tell of it;
/// nothing else moves.
#[verifier::rlimit(50)]
pub proof fn a_load_fills_its_register(r: Registers, v: u8)
    ensures
        ({
            let lda = r.read_applied(Operation::Lda, v);
            let ldx = r.read_applied(Operation::Ldx, v);
            let ldy = r.read_applied(Operation::Ldy, v);
            &&& lda.register_a == v && only_a_moves(r, lda) && only_nz_follow(r, lda, v)
            &&& ldx.register_x == v && ldx.register_a == r.register_a && ldx.register_y
                == r.register_y && ldx.stack_pointer == r.stack_pointer && ldx.program_counter
                == r.program_counter && only_nz_follow(r, ldx, v)
            &&& ldy.register_y == v && ldy.register_a == r.register_a && ldy.register_x
                == r.register_x && ldy.stack_pointer == r.stack_pointer && ldy.program_counter
                == r.program_counter && only_nz_follow(r, ldy, v)
        }),
{
    lemma_loads(r, v);
}

/// AND, ORA and EOR act on each bit of the accumulator and the operand by
/// itself: both, either, or exactly one of the two.
#[verifier::rlimit(50)]
pub proof fn logic_acts_bit_by_bit(r: Registers, v: u8, i: u8)
    requires
        i < 8,
    ensures
        ({
            let both = r.read_applied(Operation::And, v);
            let either = r.read_applied(Operation::Ora, v);
            let differ = r.read_applied(Operation::Eor, v);
            &&& bit(both.register_a, i) == (bit(r.register_a, i) && bit(v, i))
            &&& bit(either.register_a, i) == (bit(r.register_a, i) || bit(v, i))
            &&& bit(differ.register_a, i) == (bit(r.register_a, i) != bit(v, i))
            &&& only_a_moves(r, both) && only_nz_follow(r, both, both.register_a)
            &&& only_a_moves(r, either) && only_nz_follow(r, either, either.register_a)
            &&& only_a_moves(r, differ) && only_nz_follow(r, differ, differ.register_a)
        }),
{
    let a = r.register_a;
    lemma_operators(v, a, i);
    lemma_loads(r, v & a);
    lemma_loads(r, v | a);
    lemma_loads(r, v ^ a);
}

/// EOR with the same operand twice gives the accumulator back, and EOR with the
/// accumulator itself clears it.
#[verifier::rlimit(50)]
pub proof fn eor_undoes_itself(r: Registers, v: u8)
    ensures
        r.read_applied(Operation::Eor, v).read_applied(Operation::Eor, v).register_a
            == r.register_a,
        r.read_applied(Operation::Eor, r.register_a).register_a == 0,
        flag_z(r.read_applied(Operation::Eor, r.register_a)),
{
    let a = r.register_a;
    lemma_operators(a, v, 0);
    lemma_operators(a, a, 0);
    lemma_loads(r, a ^ a);
}

/// BIT changes no register: Z tells whether the operand and the accumulator
/// share no set bit, N and V are the operand's two high bits.
#[verifier::rlimit(50)]
pub proof fn bit_tests_without_changing(r: Registers, v: u8)
    ensures
        ({
            let after = r.read_applied(Operation::Bit, v);
            &&& registers_kept(r, after)
            &&& flag_n(after) == (v >= 128)
            &&& flag_v(after) == (v / 64 % 2 == 1)
            &&& flag_c(after) == flag_c(r)
            &&& control_bits_kept(r, after)
            &&& flag_z(after) ==> forall|i: u8|
                i < 8 ==> !(#[trigger] bit(v, i) && bit(r.register_a, i))
            &&& !flag_z(after) ==> exists|i: u8|
                i < 8 && #[trigger] bit(v, i) && bit(r.register_a, i)
        }),
{
    let common = r.register_a & v;
    let z = r.with_flag(CpuFlags::ZERO, common == 0);
    let n = z.with_flag(CpuFlags::NEGATIV, v & 0x80 != 0);
    lemma_masks(v);
    lemma_masks(common);
    lemma_one_flag(r, CpuFlags::ZERO, 1, common == 0);
    lemma_one_flag(z, CpuFlags::NEGATIV, 7, v & 0x80 != 0);
    lemma_one_flag(n, CpuFlags::OVERFLOW, 6, v & 0x40 != 0);
    assert forall|i: u8| i < 8 implies bit(common, i) == (#[trigger] bit(v, i) && bit(
        r.register_a,
        i,
    )) by {
        lemma_operators(r.register_a, v, i);
    }
    if common == 0 {
        assert forall|i: u8| i < 8 implies !(#[trigger] bit(v, i) && bit(r.register_a, i)) by {
            lemma_operators(0, 0, i);
        }
    } else {
        let i: u8 = if common % 2 == 1 {
            0
        } else if common / 2 % 2 == 1 {
            1
        } else if common / 4 % 2 == 1 {
            2
        } else if common / 8 % 2 == 1 {
            3
        } else if common / 16 % 2 == 1 {
            4
        } else if common / 32 % 2 == 1 {
            5
        } else if common / 64 % 2 == 1 {
            6
        } else {
            7
        };
        assert(bit(common, i));
        assert(bit(v, i) && bit(r.register_a, i));
    }
}

// ---- Arithmetic -----------------------------------------------------------------------

/// The overflow expression is the sign test of an addition.
proof fn lemma_overflow(a: u8, data: u8, result: u8, carry: bool)
    by (bit_vector)
    requires
        result == (a + data + if carry {
            1int
        } else {
            0int
        }) % 256,
    ensures
        ((data ^ result) & (result ^ a) & 0x80 != 0) == ((a >= 128) == (data >= 128) && (a >= 128)
            != (result >= 128)),
{
}

proof fn lemma_added(r: Registers, data: u8)
    ensures
        ({
            let after = r.added(data);
            let sum = r.register_a + data + carry_in(r);
            let total = signed(r.register_a) + signed(data) + carry_in(r);
            &&& carry_in(after) * 256 + after.register_a == sum
            &&& flag_v(after) == (total < -128 || total > 127)
            &&& flag_n(after) == (after.register_a >= 128)
            &&& flag_z(after) == (after.register_a == 0)
            &&& only_a_moves(r, after)
            &&& control_bits_kept(r, after)
        }),
{
    lemma_carry_flag(r, true);
    let sum = r.register_a + data + carry_in(r);
    let result = (sum % 256) as u8;
    let overflow = (data ^ result) & (result ^ r.register_a) & 0x80 != 0;
    let carried = r.with_flag(CpuFlags::CARRY, sum > 255);
    let flagged = carried.with_flag(CpuFlags::OVERFLOW, overflow);
    lemma_carry_flag(r, sum > 255);
    lemma_overflow_flag(carried, overflow);
    lemma_loads(flagged, result);
    lemma_overflow(r.register_a, data, result, flag_c(r));
}

/// ADC: carry and accumulator together hold the sum of accumulator, operand and
/// carry; V tells that the signed sum does not fit a byte.
#[verifier::rlimit(50)]
pub proof fn an_addition_adds(r: Registers, v: u8)
    ensures
        ({
            let after = r.read_applied(Operation::Adc, v);
            let total = signed(r.register_a) + signed(v) + carry_in(r);
            &&& carry_in(after) * 256 + after.register_a == r.register_a + v + carry_in(r)
            &&& flag_v(after) == (total < -128 || total > 127)
            &&& flag_n(after) == (after.register_a >= 128)
            &&& flag_z(after) == (after.register_a == 0)
            &&& only_a_moves(r, after)
            &&& control_bits_kept(r, after)
        }),
{
    lemma_added(r, v);
}

/// SBC: the accumulator less operand and borrow. C tells that nothing had to be
/// borrowed, V that the signed difference does not fit a byte.
#[verifier::rlimit(50)]
pub proof fn a_subtraction_subtracts(r: Registers, v: u8)
    ensures
        ({
            let after = r.read_applied(Operation::Sbc, v);
            let difference = r.register_a - v - (1 - carry_in(r));
            let total = signed(r.register_a) - signed(v) - (1 - carry_in(r));
            &&& after.register_a == if difference < 0 {
                difference + 256
            } else {
                difference
            }
            &&& flag_c(after) == (difference >= 0)
            &&& flag_v(after) == (total < -128 || total > 127)
            &&& flag_n(after) == (after.register_a >= 128)
            &&& flag_z(after) == (after.register_a == 0)
            &&& only_a_moves(r, after)
            &&& control_bits_kept(r, after)
        }),
{
    lemma_added(r, (255 - v) as u8);
}

/// Whether `after` tells how `register` compares with `v`.
pub open spec fn tells_comparison(
    before: Registers,
    after: Registers,
    register: u8,
    v: u8,
) -> bool {
    &&& registers_kept(before, after)
    &&& flag_c(after) == (register >= v)
    &&& flag_z(after) == (register == v)
    &&& flag_n(after) == ((register - v) % 256 >= 128)
    &&& flag_v(after) == flag_v(before)
    &&& control_bits_kept(before, after)
}

proof fn lemma_compared(r: Registers, register: u8, v: u8)
    ensures
        tells_comparison(r, r.compared(register, v), register, v),
{
    lemma_carry_flag(r, v <= register);
    lemma_zn(r.with_flag(CpuFlags::CARRY, v <= register), register.wrapping_sub(v));
}

/// CMP, CPX and CPY compare A, X and Y with the operand and change none of them.
#[verifier::rlimit(50)]
pub proof fn comparisons_tell_the_order(r: Registers, v: u8)
    ensures
        tells_comparison(r, r.read_applied(Operation::Cmp, v), r.register_a, v),
        tells_comparison(r, r.read_applied(Operation::Cpx, v), r.register_x, v),
        tells_comparison(r, r.read_applied(Operation::Cpy, v), r.register_y, v),
{
    lemma_compared(r, r.register_a, v);
    lemma_compared(r, r.register_x, v);
    lemma_compared(r, r.register_y, v);
}

// ---- Undocumented reads ---------------------------------------------------------------

/// LAX loads A and X alike; LAS loads A, X and the stack pointer with what the
/// operand and the stack pointer have in common; NOPs with an operand do
/// nothing.
#[verifier::rlimit(50)]
pub proof fn double_loads_agree(r: Registers, v: u8, i: u8)
    requires
        i < 8,
    ensures
        ({
            let lax = r.read_applied(Operation::Lax, v);
            let las = r.read_applied(Operation::Las, v);
            &&& lax.register_a == v && lax.register_x == v && lax.register_y == r.register_y
            &&& lax.stack_pointer == r.stack_pointer && lax.program_counter == r.program_counter
            &&& only_nz_follow(r, lax, v)
            &&& bit(las.register_a, i) == (bit(v, i) && bit(r.stack_pointer, i))
            &&& las.register_x == las.register_a && las.stack_pointer == las.register_a
            &&& las.register_y == r.register_y && las.program_counter == r.program_counter
            &&& only_nz_follow(r, las, las.register_a)
            &&& r.read_applied(Operation::NopRead, v) == r
        }),
{
    lemma_loads(r, v);
    let value = v & r.stack_pointer;
    lemma_operators(v, r.stack_pointer, i);
    lemma_zn(
        Registers { register_a: value, register_x: value, stack_pointer: value, ..r },
        value,
    );
}

/// ANC is AND with N copied to C; ALR is AND and then a shift right; ARR is AND
/// and then a rotation right whose C and V come off the result's two high bits
/// below the sign.
#[verifier::rlimit(50)]
pub proof fn masked_shifts_mask_then_shift(r: Registers, v: u8)
    ensures
        ({
            let masked = r.read_applied(Operation::And, v).register_a;
            let anc = r.read_applied(Operation::Anc, v);
            let alr = r.read_applied(Operation::Alr, v);
            let arr = r.read_applied(Operation::Arr, v);
            &&& anc.register_a == masked && only_a_moves(r, anc)
            &&& flag_c(anc) == (masked >= 128) && flag_n(anc) == (masked >= 128)
            &&& flag_z(anc) == (masked == 0) && flag_v(anc) == flag_v(r)
            &&& control_bits_kept(r, anc)
            &&& alr.register_a * 2 + carry_in(alr) == masked && only_a_moves(r, alr)
            &&& flag_z(alr) == (alr.register_a == 0) && !flag_n(alr) && flag_v(alr) == flag_v(r)
            &&& control_bits_kept(r, alr)
            &&& arr.register_a as int == masked / 2 + carry_in(r) * 128 && only_a_moves(r, arr)
            &&& flag_n(arr) == flag_c(r) && flag_z(arr) == (arr.register_a == 0)
            &&& flag_c(arr) == (arr.register_a / 64 % 2 == 1)
            &&& flag_v(arr) == (arr.register_a / 64 % 2 != arr.register_a / 32 % 2)
            &&& control_bits_kept(r, arr)
        }),
{
    let a = r.register_a;
    lemma_operators(a, v, 0);
    let value: u8 = a & v;
    assert(v & a == value);
    lemma_masks(value);
    // ANC.
    let loaded = r.with_a(value);
    lemma_loads(r, value);
    lemma_carry_flag(loaded, value & 0x80 != 0);
    // ALR.
    let low = r.with_flag(CpuFlags::CARRY, value & 1 != 0);
    lemma_carry_flag(r, value & 1 != 0);
    lemma_loads(low, value >> 1);
    // ARR.
    let result: u8 = (value >> 1) | if r.has(CpuFlags::CARRY) {
        0x80u8
    } else {
        0u8
    };
    lemma_operators(value, value, 0);
    lemma_masks(result);
    let rotated = r.with_a(result);
    lemma_loads(r, result);
    lemma_carry_flag(rotated, result & 0x40 != 0);
    lemma_overflow_flag(
        rotated.with_flag(CpuFlags::CARRY, result & 0x40 != 0),
        (result & 0x40 != 0) != (result & 0x20 != 0),
    );
}

/// AXS takes the operand from what A and X have in common, into X, with C as in
/// a comparison and no borrow.
#[verifier::rlimit(50)]
pub proof fn axs_subtracts_from_the_common_bits(r: Registers, v: u8)
    ensures
        ({
            let common = r.read_applied(Operation::And, r.register_x).register_a;
            let after = r.read_applied(Operation::Axs, v);
            &&& after.register_x as int == (common - v) % 256
            &&& flag_c(after) == (common >= v)
            &&& flag_n(after) == (after.register_x >= 128)
            &&& flag_z(after) == (after.register_x == 0)
            &&& flag_v(after) == flag_v(r) && control_bits_kept(r, after)
            &&& after.register_a == r.register_a && after.register_y == r.register_y
            &&& after.stack_pointer == r.stack_pointer && after.program_counter
                == r.program_counter
        }),
{
    lemma_operators(r.register_a, r.register_x, 0);
    let common = r.register_a & r.register_x;
    let flagged = r.with_flag(CpuFlags::CARRY, common >= v);
    lemma_carry_flag(r, common >= v);
    lemma_loads(flagged, common.wrapping_sub(v));
}

/// With the analog constant all ones, ANE leaves in A what X and the operand
/// have in common, and LXA loads A and X with the operand.
#[verifier::rlimit(50)]
pub proof fn unstable_loads_mix_in_all_ones(r: Registers, v: u8, i: u8)
    requires
        i < 8,
    ensures
        ({
            let ane = r.read_applied(Operation::Ane, v);
            let lxa = r.read_applied(Operation::Lxa, v);
            &&& bit(ane.register_a, i) == (bit(r.register_x, i) && bit(v, i))
            &&& only_a_moves(r, ane) && only_nz_follow(r, ane, ane.register_a)
            &&& bit(lxa.register_a, i) == bit(v, i)
            &&& lxa.register_x == lxa.register_a && lxa.register_y == r.register_y
            &&& lxa.stack_pointer == r.stack_pointer && lxa.program_counter == r.program_counter
            &&& only_nz_follow(r, lxa, lxa.register_a)
        }),
{
    let ones: u8 = r.register_a | 0xff;
    lemma_operators(r.register_a, 0xff, i);
    lemma_operators(ones, r.register_x, i);
    lemma_operators(ones & r.register_x, v, i);
    lemma_operators(ones, v, i);
    lemma_loads(r, ones & r.register_x & v);
    lemma_loads(r, ones & v);
}

// ---- Shifts, counts and their combinations ------------------------------------------------

/// A shift or rotation is a nine-bit move through the carry; INC and DEC count
/// modulo 256 and leave the carry.
#[verifier::rlimit(50)]
pub proof fn shifts_move_through_the_carry(r: Registers, data: u8)
    ensures
        ({
            let c = carry_in(r);
            let asl = r.carried(Operation::Asl, data);
            let rol = r.carried(Operation::Rol, data);
            let lsr = r.carried(Operation::Lsr, data);
            let ror = r.carried(Operation::Ror, data);
            &&& carry_in(asl) * 256 + r.modified(Operation::Asl, data) == data * 2
            &&& carry_in(rol) * 256 + r.modified(Operation::Rol, data) == data * 2 + c
            &&& r.modified(Operation::Lsr, data) * 2 + carry_in(lsr) == data
            &&& r.modified(Operation::Ror, data) * 2 + carry_in(ror) == data + c * 256
            &&& r.modified(Operation::Inc, data) as int == (data + 1) % 256
            &&& r.modified(Operation::Dec, data) as int == (data - 1) % 256
            &&& r.carried(Operation::Inc, data) == r && r.carried(Operation::Dec, data) == r
            &&& registers_kept(r, asl) && registers_kept(r, rol)
            &&& registers_kept(r, lsr) && registers_kept(r, ror)
            &&& flag_v(asl) == flag_v(r) && flag_v(rol) == flag_v(r)
            &&& flag_v(lsr) == flag_v(r) && flag_v(ror) == flag_v(r)
            &&& control_bits_kept(r, asl) && control_bits_kept(r, rol)
            &&& control_bits_kept(r, lsr) && control_bits_kept(r, ror)
        }),
{
    lemma_carry_flag(r, data >= 128);
    lemma_carry_flag(r, data % 2 == 1);
}

/// An undocumented read-modify-write instruction is a plain one followed by a
/// plain read instruction on its result.
#[verifier::rlimit(50)]
pub proof fn combined_instructions_are_two_in_one(r: Registers, data: u8)
    ensures
        plain_part(Operation::Slo) == Operation::Asl,
        plain_part(Operation::Rla) == Operation::Rol,
        plain_part(Operation::Sre) == Operation::Lsr,
        plain_part(Operation::Rra) == Operation::Ror,
        plain_part(Operation::Dcp) == Operation::Dec,
        plain_part(Operation::Isb) == Operation::Inc,
        plain_part(Operation::Asl) == Operation::Asl,
        plain_part(Operation::Rol) == Operation::Rol,
        plain_part(Operation::Lsr) == Operation::Lsr,
        plain_part(Operation::Ror) == Operation::Ror,
        plain_part(Operation::Inc) == Operation::Inc,
        plain_part(Operation::Dec) == Operation::Dec,
        r.folded(Operation::Slo, data) == r.read_applied(Operation::Ora, data),
        r.folded(Operation::Rla, data) == r.read_applied(Operation::And, data),
        r.folded(Operation::Sre, data) == r.read_applied(Operation::Eor, data),
        r.folded(Operation::Rra, data) == r.read_applied(Operation::Adc, data),
        r.folded(Operation::Dcp, data) == r.read_applied(Operation::Cmp, data),
        r.folded(Operation::Isb, data) == r.read_applied(Operation::Sbc, data),
        r.folded(Operation::Asl, data) == r,
        r.folded(Operation::Rol, data) == r,
        r.folded(Operation::Lsr, data) == r,
        r.folded(Operation::Ror, data) == r,
        r.folded(Operation::Inc, data) == r,
        r.folded(Operation::Dec, data) == r,
{
    let a = r.register_a;
    lemma_operators(a, data, 0);
}

/// The accumulator forms of the shifts, as nine-bit moves.
#[verifier::rlimit(50)]
pub proof fn accumulator_shifts_move_through_the_carry(r: Registers)
    ensures
        ({
            let a = r.register_a;
            let c = carry_in(r);
            let asl = r.implied(Operation::AslAccumulator);
            let rol = r.implied(Operation::RolAccumulator);
            let lsr = r.implied(Operation::LsrAccumulator);
            let ror = r.implied(Operation::RorAccumulator);
            &&& carry_in(asl) * 256 + asl.register_a == a * 2
            &&& carry_in(rol) * 256 + rol.register_a == a * 2 + c
            &&& lsr.register_a * 2 + carry_in(lsr) == a
            &&& ror.register_a * 2 + carry_in(ror) == a + c * 256
            &&& shifted_cleanly(r, asl) && shifted_cleanly(r, rol)
            &&& shifted_cleanly(r, lsr) && shifted_cleanly(r, ror)
        }),
{
    let a = r.register_a;
    shifts_move_through_the_carry(r, a);
    lemma_carry_flag(r, a >= 128);
    lemma_carry_flag(r, a % 2 == 1);
    let high = r.with_flag(CpuFlags::CARRY, a >= 128);
    let low = r.with_flag(CpuFlags::CARRY, a % 2 == 1);
    lemma_loads(high, r.modified(Operation::Asl, a));
    lemma_loads(high, r.modified(Operation::Rol, a));
    lemma_loads(low, r.modified(Operation::Lsr, a));
    lemma_loads(low, r.modified(Operation::Ror, a));
}

/// N and Z tell of the accumulator, and nothing but A, N, Z and C has moved.
pub open spec fn shifted_cleanly(before: Registers, after: Registers) -> bool {
    &&& only_a_moves(before, after)
    &&& flag_n(after) == (after.register_a >= 128)
    &&& flag_z(after) == (after.register_a == 0)
    &&& flag_v(after) == flag_v(before)
    &&& control_bits_kept(before, after)
}

// ---- Transfers, counts and flags ----------------------------------------------------------

/// Transfers copy one register to another, and N and Z follow, but not for TXS,
/// which only moves the stack pointer.
#[verifier::rlimit(50)]
pub proof fn transfers_copy(r: Registers)
    ensures
        ({
            let tax = r.implied(Operation::Tax);
            let tay = r.implied(Operation::Tay);
            let tsx = r.implied(Operation::Tsx);
            let txa = r.implied(Operation::Txa);
            let tya = r.implied(Operation::Tya);
            &&& moved(r, tax, r.register_a, r.register_a, r.register_y)
            &&& moved(r, tay, r.register_a, r.register_x, r.register_a)
            &&& moved(r, tsx, r.register_a, r.stack_pointer, r.register_y)
            &&& moved(r, txa, r.register_x, r.register_x, r.register_y)
            &&& moved(r, tya, r.register_y, r.register_x, r.register_y)
            &&& only_nz_follow(r, tax, r.register_a) && only_nz_follow(r, tay, r.register_a)
            &&& only_nz_follow(r, tsx, r.stack_pointer) && only_nz_follow(r, txa, r.register_x)
            &&& only_nz_follow(r, tya, r.register_y)
        }),
        r.implied(Operation::Txs).stack_pointer == r.register_x,
        r.implied(Operation::Txs).status == r.status,
        r.implied(Operation::Txs).register_a == r.register_a,
        r.implied(Operation::Txs).register_x == r.register_x,
        r.implied(Operation::Txs).register_y == r.register_y,
        r.implied(Operation::Txs).program_counter == r.program_counter,
{
    lemma_loads(r, r.register_a);
    lemma_loads(r, r.stack_pointer);
    lemma_loads(r, r.register_x);
    lemma_loads(r, r.register_y);
}

/// INX and DEX count X up and down by one modulo 256, with N and Z following.
#[verifier::rlimit(50)]
pub proof fn x_counts(r: Registers)
    ensures
        ({
            let inx = r.implied(Operation::Inx);
            let dex = r.implied(Operation::Dex);
            &&& moved(r, inx, r.register_a, inx.register_x, r.register_y)
            &&& moved(r, dex, r.register_a, dex.register_x, r.register_y)
            &&& inx.register_x as int == (r.register_x + 1) % 256
            &&& dex.register_x as int == (r.register_x - 1) % 256
            &&& only_nz_follow(r, inx, inx.register_x)
            &&& only_nz_follow(r, dex, dex.register_x)
        }),
{
    lemma_loads(r, r.register_x.wrapping_add(1));
    lemma_loads(r, r.register_x.wrapping_sub(1));
}

/// INY and DEY count Y up and down by one modulo 256, with N and Z following.
#[verifier::rlimit(50)]
pub proof fn y_counts(r: Registers)
    ensures
        ({
            let iny = r.implied(Operation::Iny);
            let dey = r.implied(Operation::Dey);
            &&& moved(r, iny, r.register_a, r.register_x, iny.register_y)
            &&& moved(r, dey, r.register_a, r.register_x, dey.register_y)
            &&& iny.register_y as int == (r.register_y + 1) % 256
            &&& dey.register_y as int == (r.register_y - 1) % 256
            &&& only_nz_follow(r, iny, iny.register_y)
            &&& only_nz_follow(r, dey, dey.register_y)
        }),
{
    lemma_loads(r, r.register_y.wrapping_add(1));
    lemma_loads(r, r.register_y.wrapping_sub(1));
}

/// NOP does nothing, and a jam steps back onto its own opcode.
#[verifier::rlimit(50)]
pub proof fn nop_rests_and_a_jam_steps_back(r: Registers)
    ensures
        r.implied(Operation::Nop) == r,
        ({
            let jam = r.implied(Operation::Jam);
            &&& jam.program_counter as int == (r.program_counter - 1) % 0x10000
            &&& jam == (Registers { program_counter: jam.program_counter, ..r })
        }),
{
}

/// The three working registers hold these, and the others are as before.
pub open spec fn moved(before: Registers, after: Registers, a: u8, x: u8, y: u8) -> bool {
    &&& after.register_a == a
    &&& after.register_x == x
    &&& after.register_y == y
    &&& after.stack_pointer == before.stack_pointer
    &&& after.program_counter == before.program_counter
}

/// The flag instructions set and clear C, I, D and V, each of them only its own.
#[verifier::rlimit(50)]
pub proof fn flag_instructions_move_one_flag(r: Registers)
    ensures
        flags_are(r, r.implied(Operation::Clc), false, flag_i(r), flag_d(r), flag_v(r)),
        flags_are(r, r.implied(Operation::Sec), true, flag_i(r), flag_d(r), flag_v(r)),
        flags_are(r, r.implied(Operation::Cli), flag_c(r), false, flag_d(r), flag_v(r)),
        flags_are(r, r.implied(Operation::Sei), flag_c(r), true, flag_d(r), flag_v(r)),
        flags_are(r, r.implied(Operation::Cld), flag_c(r), flag_i(r), false, flag_v(r)),
        flags_are(r, r.implied(Operation::Sed), flag_c(r), flag_i(r), true, flag_v(r)),
        flags_are(r, r.implied(Operation::Clv), flag_c(r), flag_i(r), flag_d(r), false),
{
    lemma_masks(0);
    lemma_one_flag(r, CpuFlags::CARRY, 0, false);
    lemma_one_flag(r, CpuFlags::CARRY, 0, true);
    lemma_one_flag(r, CpuFlags::INTERRUPT_DISABLE, 2, false);
    lemma_one_flag(r, CpuFlags::INTERRUPT_DISABLE, 2, true);
    lemma_one_flag(r, CpuFlags::DECIMAL_MODE, 3, false);
    lemma_one_flag(r, CpuFlags::DECIMAL_MODE, 3, true);
    lemma_one_flag(r, CpuFlags::OVERFLOW, 6, false);
}

/// No register has moved, C, I, D and V are these, and N and Z as before.
pub open spec fn flags_are(
    before: Registers,
    after: Registers,
    c: bool,
    i: bool,
    d: bool,
    v: bool,
) -> bool {
    &&& registers_kept(before, after)
    &&& flag_c(after) == c
    &&& flag_i(after) == i
    &&& flag_d(after) == d
    &&& flag_v(after) == v
    &&& flag_n(after) == flag_n(before)
    &&& flag_z(after) == flag_z(before)
    &&& after.status.bits / 16 % 4 == before.status.bits / 16 % 4
}

/// Each pair of branches goes by one flag, one on it clear and one on it set.
#[verifier::rlimit(50)]
pub proof fn branches_go_by_their_flags(r: Registers)
    ensures
        r.branch_taken(Operation::Bpl) == !flag_n(r),
        r.branch_taken(Operation::Bmi) == flag_n(r),
        r.branch_taken(Operation::Bvc) == !flag_v(r),
        r.branch_taken(Operation::Bvs) == flag_v(r),
        r.branch_taken(Operation::Bcc) == !flag_c(r),
        r.branch_taken(Operation::Bcs) == flag_c(r),
        r.branch_taken(Operation::Bne) == !flag_z(r),
        r.branch_taken(Operation::Beq) == flag_z(r),
{
    lemma_flag_numbers(r.status.bits);
}

/// What stores store: a register, what A and X have in common, or for the
/// unstable ones that and the page number behind the base.
#[verifier::rlimit(50)]
pub proof fn stores_store_their_register(r: Registers, high: u8, i: u8)
    requires
        i < 8,
    ensures
        r.stored(Operation::Sta) == r.register_a,
        r.stored(Operation::Stx) == r.register_x,
        r.stored(Operation::Sty) == r.register_y,
        bit(r.stored(Operation::Sax), i) == (bit(r.register_a, i) && bit(r.register_x, i)),
        bit(r.high_stored(Operation::Shx, high), i) == (bit(r.register_x, i) && bit(high, i)),
        bit(r.high_stored(Operation::Shy, high), i) == (bit(r.register_y, i) && bit(high, i)),
        bit(r.high_stored(Operation::Sha, high), i) == (bit(r.register_a, i) && bit(
            r.register_x,
            i,
        ) && bit(high, i)),
        bit(r.high_stored(Operation::Tas, high), i) == (bit(r.register_a, i) && bit(
            r.register_x,
            i,
        ) && bit(high, i)),
{
    lemma_operators(r.register_a, r.register_x, i);
    lemma_operators(r.register_x, high, i);
    lemma_operators(r.register_y, high, i);
    lemma_operators(r.register_a & r.register_x, high, i);
}

} // verus!
