//! The voting-power decay curve.
//!
//! A locked balance carries voting power that scales linearly with the
//! remaining lock time: exactly the balance when no lock time remains, and
//! the balance times the locker's maximum multiplier when the remaining time
//! equals the maximum lock duration. Between those anchors,
//!
//! ```text
//! power = amount + amount * (multiplier - 1) * remaining / max_duration
//! ```
//!
//! with the remaining time clamped to `[0, max_duration]` and the division
//! rounding down. This module defines the curve and proves its shape: power
//! never decreases with the locked amount, never increases as time passes,
//! and hits both anchors exactly.

use vstd::arithmetic::div_mod::{
    lemma_div_is_ordered, lemma_div_multiples_vanish, lemma_div_pos_is_pos,
};
use vstd::arithmetic::mul::{lemma_mul_inequality, lemma_mul_is_commutative, lemma_mul_nonnegative};
use vstd::prelude::*;

verus! {

/// The lock time still ahead at `now`, clamped to `[0, max_duration]`.
pub open spec fn remaining_lock_time(ends_at: i64, now: i64, max_duration: i64) -> int {
    if ends_at - now <= 0 {
        0
    } else if ends_at - now >= max_duration {
        max_duration as int
    } else {
        ends_at - now
    }
}

/// The voting power of `amount` with `remaining` seconds of lock ahead, as
/// an unbounded integer. With no remaining time the power is the bare
/// amount; otherwise the linear bonus is added, rounded down.
pub open spec fn scaled_power(amount: u64, multiplier: u8, remaining: int, max_duration: i64)
    -> int {
    if remaining <= 0 {
        amount as int
    } else {
        amount + (amount * (multiplier - 1) * remaining) / (max_duration as int)
    }
}

/// The voting power of a lock over `amount` that ends at `ends_at`, read at
/// `now`, as an unbounded integer.
pub open spec fn voting_power_of(
    amount: u64,
    multiplier: u8,
    ends_at: i64,
    now: i64,
    max_duration: i64,
) -> int {
    scaled_power(amount, multiplier, remaining_lock_time(ends_at, now, max_duration), max_duration)
}

/// Whether the checked computation of the voting power succeeds: both the
/// full-lock bonus base `amount * (multiplier - 1)` and the final power must
/// be representable.
pub open spec fn voting_power_fits(
    amount: u64,
    multiplier: u8,
    ends_at: i64,
    now: i64,
    max_duration: i64,
) -> bool {
    let remaining = remaining_lock_time(ends_at, now, max_duration);
    remaining <= 0 || (amount * (multiplier - 1) <= u64::MAX && voting_power_of(
        amount,
        multiplier,
        ends_at,
        now,
        max_duration,
    ) <= u64::MAX)
}

/// The linear bonus never exceeds its full-lock value: with
/// `0 < remaining <= max_duration`, `base * remaining / max_duration <= base`.
pub proof fn lemma_bonus_bounded(base: int, remaining: int, max_duration: i64)
    requires
        0 <= base,
        0 < remaining <= max_duration,
    ensures
        0 <= (base * remaining) / (max_duration as int) <= base,
{
    lemma_mul_nonnegative(base, remaining);
    lemma_div_pos_is_pos(base * remaining, max_duration as int);
    lemma_mul_inequality(remaining, max_duration as int, base);
    lemma_mul_is_commutative(base, remaining);
    lemma_mul_is_commutative(base, max_duration as int);
    lemma_div_is_ordered(base * remaining, (max_duration as int) * base, max_duration as int);
    lemma_div_multiples_vanish(base, max_duration as int);
}

/// Law: voting power is monotonically non-decreasing in the locked amount.
pub proof fn lemma_power_monotone_in_amount(
    a1: u64,
    a2: u64,
    multiplier: u8,
    ends_at: i64,
    now: i64,
    max_duration: i64,
)
    requires
        a1 <= a2,
        multiplier >= 1,
    ensures
        voting_power_of(a1, multiplier, ends_at, now, max_duration) <= voting_power_of(
            a2,
            multiplier,
            ends_at,
            now,
            max_duration,
        ),
{
    let remaining = remaining_lock_time(ends_at, now, max_duration);
    if remaining > 0 {
        lemma_mul_inequality(a1 as int, a2 as int, multiplier - 1);
        lemma_mul_inequality(a1 * (multiplier - 1), a2 * (multiplier - 1), remaining);
        lemma_div_is_ordered(
            a1 * (multiplier - 1) * remaining,
            a2 * (multiplier - 1) * remaining,
            max_duration as int,
        );
    }
}

/// Law: voting power is monotonically non-increasing as the clock advances
/// toward (and past) the end of the lock.
pub proof fn lemma_power_antitone_in_time(
    amount: u64,
    multiplier: u8,
    ends_at: i64,
    now1: i64,
    now2: i64,
    max_duration: i64,
)
    requires
        now1 <= now2,
        multiplier >= 1,
        max_duration >= 0,
    ensures
        voting_power_of(amount, multiplier, ends_at, now2, max_duration) <= voting_power_of(
            amount,
            multiplier,
            ends_at,
            now1,
            max_duration,
        ),
{
    let r1 = remaining_lock_time(ends_at, now1, max_duration);
    let r2 = remaining_lock_time(ends_at, now2, max_duration);
    assert(r2 <= r1);
    let base = amount * (multiplier - 1);
    lemma_mul_nonnegative(amount as int, multiplier - 1);
    if r2 <= 0 {
        if r1 > 0 {
            lemma_mul_nonnegative(base, r1);
            lemma_div_pos_is_pos(base * r1, max_duration as int);
        }
    } else {
        lemma_mul_inequality(r2, r1, base);
        lemma_mul_is_commutative(base, r2);
        lemma_mul_is_commutative(base, r1);
        lemma_div_is_ordered(base * r2, base * r1, max_duration as int);
    }
}

/// Law: at `now == ends_at` the voting power equals the locked amount
/// exactly — the bonus has fully decayed.
pub proof fn lemma_power_at_end(amount: u64, multiplier: u8, ends_at: i64, max_duration: i64)
    ensures
        voting_power_of(amount, multiplier, ends_at, ends_at, max_duration) == amount,
{
}

/// At a full lock — remaining time equal to the maximum duration — the
/// voting power equals `amount * multiplier` exactly: the floor division
/// loses nothing at the upper anchor.
pub proof fn lemma_power_at_full_lock(amount: u64, multiplier: u8, max_duration: i64)
    requires
        multiplier >= 1,
        0 < max_duration,
    ensures
        scaled_power(amount, multiplier, max_duration as int, max_duration) == amount * multiplier,
{
    let base = amount * (multiplier - 1);
    lemma_mul_is_commutative(base, max_duration as int);
    lemma_div_multiples_vanish(base, max_duration as int);
    assert(amount + amount * (multiplier - 1) == amount * multiplier) by {
        lemma_mul_is_commutative(amount as int, multiplier - 1);
        lemma_mul_is_commutative(amount as int, multiplier as int);
        assert((multiplier - 1) * amount + amount == (multiplier as int) * amount) by {
            lemma_mul_basics_helper(amount as int, multiplier as int);
        }
    }
}

/// `(m - 1) * a + a == m * a` for `m >= 1`: one distributivity step.
proof fn lemma_mul_basics_helper(a: int, m: int)
    requires
        m >= 1,
    ensures
        (m - 1) * a + a == m * a,
{
    vstd::arithmetic::mul::lemma_mul_is_distributive_sub_other_way(a, m, 1);
}

} // verus!
