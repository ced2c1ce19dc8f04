//! Numeric safety layer: the widened pro-rata division and the arithmetic
//! facts that the settlement proofs rest on.

use vstd::prelude::*;
use vstd::arithmetic::div_mod::{
    lemma_div_is_ordered, lemma_div_multiples_vanish, lemma_div_pos_is_pos,
    lemma_fundamental_div_mod, lemma_mod_division_less_than_divisor,
};
use vstd::arithmetic::mul::{
    lemma_mul_inequality, lemma_mul_is_commutative, lemma_mul_is_distributive_add,
    lemma_mul_nonnegative, lemma_mul_upper_bound,
};

verus! {

/// The exact pro-rata payout: `floor(xp * pool / total)` over unbounded
/// integers. Truncates toward zero; the dust is not distributed.
pub open spec fn pro_rata_payout(xp: u64, pool: u64, total: u64) -> int
    recommends
        total > 0,
{
    (xp * pool) / (total as int)
}

/// A contributor holding no more than the whole epoch's XP is paid no more
/// than the whole purse.
pub proof fn lemma_payout_bounded(xp: u64, pool: u64, total: u64)
    requires
        total > 0,
        xp <= total,
    ensures
        0 <= pro_rata_payout(xp, pool, total) <= pool,
{
    lemma_mul_nonnegative(xp as int, pool as int);
    lemma_div_pos_is_pos(xp as int * pool as int, total as int);
    lemma_mul_inequality(xp as int, total as int, pool as int);
    lemma_div_is_ordered(xp as int * pool as int, total as int * pool as int, total as int);
    lemma_mul_is_commutative(total as int, pool as int);
    lemma_div_multiples_vanish(pool as int, total as int);
}

/// Floor division is sub-additive: for nonnegative numerators,
/// `a / d + b / d <= (a + b) / d`. This is the step that makes the sum of
/// truncated pro-rata payouts stay within the purse.
pub proof fn lemma_div_add_le(a: int, b: int, d: int)
    requires
        0 <= a,
        0 <= b,
        0 < d,
    ensures
        a / d + b / d <= (a + b) / d,
{
    lemma_fundamental_div_mod(a, d);
    lemma_fundamental_div_mod(b, d);
    lemma_mod_division_less_than_divisor(a, d);
    lemma_mod_division_less_than_divisor(b, d);
    lemma_mul_is_distributive_add(d, a / d, b / d);
    lemma_div_is_ordered(d * (a / d + b / d), a + b, d);
    lemma_div_multiples_vanish(a / d + b / d, d);
}

/// Computes the pro-rata payout with a widened 128-bit intermediate, so
/// `xp * pool` cannot overflow before the division.
pub fn pro_rata_reward(xp: u64, pool: u64, total: u64) -> (r: u64)
    requires
        total > 0,
        xp <= total,
    ensures
        r == pro_rata_payout(xp, pool, total),
        r <= pool,
{
    proof {
        lemma_payout_bounded(xp, pool, total);
        lemma_mul_upper_bound(xp as int, u64::MAX as int, pool as int, u64::MAX as int);
    }
    let wide: u128 = (xp as u128) * (pool as u128);
    let q: u128 = wide / (total as u128);
    q as u64
}

} // verus!
