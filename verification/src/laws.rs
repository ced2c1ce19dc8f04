//! The ledger's aggregate laws: facts that span whole sequences of calls,
//! stated over the models the transition contracts use and proved once.
//!
//! An epoch's snapshot store is modelled as a sequence of per-contributor
//! XP values, one entry per wallet, zero standing for "never synced this
//! epoch" — exactly the engine's sentinel, under which a first sync and a
//! re-sync follow the same replace rule.

use vstd::prelude::*;
use vstd::arithmetic::div_mod::{lemma_div_is_ordered, lemma_div_multiples_vanish};
use vstd::arithmetic::mul::{
    lemma_mul_inequality, lemma_mul_is_commutative, lemma_mul_is_distributive_add_other_way,
    lemma_mul_nonnegative,
};
use crate::math::{lemma_div_add_le, pro_rata_payout};

verus! {

/// The sum of a sequence of per-contributor XP values.
pub open spec fn sum_xp(xs: Seq<u64>) -> int
    decreases xs.len(),
{
    if xs.len() == 0 {
        0
    } else {
        sum_xp(xs.drop_last()) + xs.last()
    }
}

pub proof fn lemma_sum_xp_nonneg(xs: Seq<u64>)
    ensures
        0 <= sum_xp(xs),
    decreases xs.len(),
{
    if xs.len() > 0 {
        lemma_sum_xp_nonneg(xs.drop_last());
    }
}

/// Replacing one entry moves the sum by exactly the difference between the
/// new value and the old.
pub proof fn lemma_sum_xp_update(xs: Seq<u64>, i: int, v: u64)
    requires
        0 <= i < xs.len(),
    ensures
        sum_xp(xs.update(i, v)) == sum_xp(xs) - xs[i] + v,
    decreases xs.len(),
{
    if i == xs.len() - 1 {
        assert(xs.update(i, v).drop_last() =~= xs.drop_last());
    } else {
        lemma_sum_xp_update(xs.drop_last(), i, v);
        assert(xs.update(i, v).drop_last() =~= xs.drop_last().update(i, v));
    }
}

pub proof fn lemma_sum_xp_push(xs: Seq<u64>, v: u64)
    ensures
        sum_xp(xs.push(v)) == sum_xp(xs) + v,
{
    assert(xs.push(v).drop_last() =~= xs);
}

/// One sync step preserves the store invariant that the epoch aggregate
/// equals the sum of all snapshot values. The hypothesis is exactly what
/// the sync engine's contract ensures of the aggregate: the old snapshot
/// value subtracted, the new one added — with a first sync holding the
/// zero sentinel.
pub proof fn lemma_sync_step_preserves_aggregate(
    snaps: Seq<u64>,
    i: int,
    new_xp: u64,
    total: u64,
    new_total: u64,
)
    requires
        0 <= i < snaps.len(),
        total == sum_xp(snaps),
        new_total == total - snaps[i] + new_xp,
    ensures
        new_total == sum_xp(snaps.update(i, new_xp)),
{
    lemma_sum_xp_update(snaps, i, new_xp);
}

/// The snapshot values after a sequence of syncs to one epoch: each sync
/// replaces the named contributor's entry with the newly reported absolute
/// value.
pub open spec fn snaps_after(snaps: Seq<u64>, updates: Seq<(int, u64)>) -> Seq<u64>
    decreases updates.len(),
{
    if updates.len() == 0 {
        snaps
    } else {
        snaps_after(snaps, updates.drop_last()).update(
            updates.last().0,
            updates.last().1,
        )
    }
}

pub proof fn lemma_snaps_after_len(snaps: Seq<u64>, updates: Seq<(int, u64)>)
    requires
        forall|k: int| 0 <= k < updates.len() ==> 0 <= (#[trigger] updates[k]).0 < snaps.len(),
    ensures
        snaps_after(snaps, updates).len() == snaps.len(),
    decreases updates.len(),
{
    if updates.len() > 0 {
        let front = updates.drop_last();
        assert(forall|k: int| 0 <= k < front.len() ==> (#[trigger] front[k]) == updates[k]);
        lemma_snaps_after_len(snaps, front);
    }
}

/// The epoch aggregate as the sync engine maintains it: each sync subtracts
/// the contributor's previous snapshot value and adds the new one — a
/// first sync subtracts the zero sentinel, which is the same rule.
pub open spec fn total_after(snaps: Seq<u64>, updates: Seq<(int, u64)>, total: int) -> int
    decreases updates.len(),
{
    if updates.len() == 0 {
        total
    } else {
        total_after(snaps, updates.drop_last(), total) - snaps_after(
            snaps,
            updates.drop_last(),
        )[updates.last().0] + updates.last().1
    }
}

/// No sequence of syncs double-counts: start an epoch with an aggregate
/// equal to the sum of its snapshot values (a fresh epoch has both zero),
/// apply any sequence of syncs — the same contributor however often — and
/// the aggregate the engine maintains still equals the sum of each
/// contributor's final reported value.
pub proof fn lemma_syncs_never_double_count(snaps: Seq<u64>, updates: Seq<(int, u64)>)
    requires
        forall|k: int| 0 <= k < updates.len() ==> 0 <= (#[trigger] updates[k]).0 < snaps.len(),
    ensures
        total_after(snaps, updates, sum_xp(snaps)) == sum_xp(snaps_after(snaps, updates)),
    decreases updates.len(),
{
    if updates.len() > 0 {
        let front = updates.drop_last();
        assert(forall|k: int| 0 <= k < front.len() ==> (#[trigger] front[k]) == updates[k]);
        lemma_syncs_never_double_count(snaps, front);
        lemma_snaps_after_len(snaps, front);
        lemma_sum_xp_update(snaps_after(snaps, front), updates.last().0, updates.last().1);
    }
}

/// The sum of the truncated pro-rata payouts of a sequence of snapshot
/// values against one purse.
pub open spec fn sum_payouts(xps: Seq<u64>, pool: u64, total: u64) -> int
    decreases xps.len(),
{
    if xps.len() == 0 {
        0
    } else {
        sum_payouts(xps.drop_last(), pool, total) + pro_rata_payout(xps.last(), pool, total)
    }
}

/// The payout sum never beats the undivided share of the XP sum.
proof fn lemma_sum_payouts_le(xps: Seq<u64>, pool: u64, total: u64)
    requires
        total > 0,
    ensures
        sum_payouts(xps, pool, total) <= (sum_xp(xps) * pool) / (total as int),
    decreases xps.len(),
{
    if xps.len() > 0 {
        let front = xps.drop_last();
        lemma_sum_payouts_le(front, pool, total);
        lemma_sum_xp_nonneg(front);
        lemma_mul_nonnegative(sum_xp(front), pool as int);
        lemma_mul_nonnegative(xps.last() as int, pool as int);
        lemma_div_add_le(sum_xp(front) * pool, xps.last() * pool, total as int);
        lemma_mul_is_distributive_add_other_way(pool as int, sum_xp(front), xps.last() as int);
    }
}

/// The central pro-rata invariant: for an epoch whose aggregate XP is
/// positive and at least the sum of the claiming snapshots' values — which
/// the sync engine guarantees, since the aggregate equals the sum of all
/// snapshot values — the payouts across all contributors sum to at most
/// the purse. Truncation only loses dust; it never overpays.
pub proof fn lemma_payouts_never_exceed_purse(xps: Seq<u64>, pool: u64, total: u64)
    requires
        total > 0,
        sum_xp(xps) <= total,
    ensures
        sum_payouts(xps, pool, total) <= pool,
{
    lemma_sum_payouts_le(xps, pool, total);
    lemma_sum_xp_nonneg(xps);
    lemma_mul_inequality(sum_xp(xps), total as int, pool as int);
    lemma_div_is_ordered(sum_xp(xps) * pool, total as int * pool as int, total as int);
    lemma_mul_is_commutative(total as int, pool as int);
    lemma_div_multiples_vanish(pool as int, total as int);
}

} // verus!
