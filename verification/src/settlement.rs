//! Settlement engine: the two independent claim flows. A USDC claim pays a
//! pro-rata share of one finalized epoch's purse; an SBT claim mints the
//! accrued balance against the global supply cap.
//!
//! Each function validates, computes, commits the ledger mutation, and
//! returns the amount the caller must actually transfer or mint; a rejected
//! call changes nothing.

use vstd::prelude::*;
use crate::constants::{CLAIM_WINDOW_SECONDS, RETROACTIVE_WINDOW_SECONDS};
use crate::errors::ErrorCode;
use crate::math::{pro_rata_payout, pro_rata_reward};
use crate::state::{Config, Contributor, EpochSnapshot, RewardEpoch};

verus! {

/// Why a USDC claim is rejected, if it is, in the order the checks run:
/// the epoch must be finalized, unclaimed by this contributor, inside the
/// 30-day claim window, carry XP, have ended no earlier than 90 days before
/// the contributor registered, and owe a nonzero truncated payout that the
/// lifetime counter can still absorb.
pub open spec fn usdc_claim_rejection(
    epoch: RewardEpoch,
    snapshot: EpochSnapshot,
    contributor: Contributor,
    now: i64,
) -> Option<ErrorCode> {
    if !epoch.finalized {
        Some(ErrorCode::EpochNotFinalized)
    } else if snapshot.usdc_claimed {
        Some(ErrorCode::AlreadyClaimed)
    } else if now > epoch.end_time + CLAIM_WINDOW_SECONDS {
        Some(ErrorCode::ClaimWindowExpired)
    } else if epoch.total_xp == 0 {
        Some(ErrorCode::NoXpInEpoch)
    } else if epoch.end_time < contributor.registered_at - RETROACTIVE_WINDOW_SECONDS {
        Some(ErrorCode::EpochTooOld)
    } else if pro_rata_payout(snapshot.xp, epoch.usdc_reward_amount, epoch.total_xp) == 0 {
        Some(ErrorCode::NoRewardToClaim)
    } else if contributor.lifetime_usdc_earned + pro_rata_payout(
        snapshot.xp,
        epoch.usdc_reward_amount,
        epoch.total_xp,
    ) > u64::MAX {
        Some(ErrorCode::MathOverflow)
    } else {
        None
    }
}

/// Pays one contributor their pro-rata share of a finalized epoch's purse:
/// `floor(snapshot.xp * usdc_reward_amount / total_xp)`, computed with a
/// widened intermediate. On success the snapshot's one-way claim flag is
/// set, the contributor's lifetime counter grows by the payout, and the
/// returned amount is what the caller must transfer out of the pool.
pub fn claim_usdc_rewards(
    epoch: &RewardEpoch,
    snapshot: &mut EpochSnapshot,
    contributor: &mut Contributor,
    epoch_number: u64,
    now: i64,
) -> (r: Result<u64, ErrorCode>)
    requires
        epoch.epoch_number == epoch_number,
        old(snapshot).epoch == epoch.epoch_number,
        old(snapshot).contributor == old(contributor).wallet,
        old(snapshot).xp <= epoch.total_xp,
        epoch.end_time <= i64::MAX - CLAIM_WINDOW_SECONDS,
        old(contributor).registered_at >= i64::MIN + RETROACTIVE_WINDOW_SECONDS,
    ensures
        match r {
            Ok(amount) => {
                &&& usdc_claim_rejection(*epoch, *old(snapshot), *old(contributor), now) is None
                &&& amount == pro_rata_payout(
                    old(snapshot).xp,
                    epoch.usdc_reward_amount,
                    epoch.total_xp,
                )
                &&& 0 < amount <= epoch.usdc_reward_amount
                &&& *final(snapshot) == (EpochSnapshot { usdc_claimed: true, ..*old(snapshot) })
                &&& *final(contributor) == (Contributor {
                    lifetime_usdc_earned: (old(contributor).lifetime_usdc_earned + amount) as u64,
                    last_claim_epoch: epoch_number,
                    ..*old(contributor)
                })
            },
            Err(e) => {
                &&& usdc_claim_rejection(*epoch, *old(snapshot), *old(contributor), now) == Some(e)
                &&& *final(snapshot) == *old(snapshot)
                &&& *final(contributor) == *old(contributor)
            },
        },
{
    if !epoch.finalized {
        return Err(ErrorCode::EpochNotFinalized);
    }
    if snapshot.usdc_claimed {
        return Err(ErrorCode::AlreadyClaimed);
    }
    if now > epoch.end_time + CLAIM_WINDOW_SECONDS {
        return Err(ErrorCode::ClaimWindowExpired);
    }
    if epoch.total_xp == 0 {
        return Err(ErrorCode::NoXpInEpoch);
    }
    if epoch.end_time < contributor.registered_at - RETROACTIVE_WINDOW_SECONDS {
        return Err(ErrorCode::EpochTooOld);
    }

    let reward_amount = pro_rata_reward(snapshot.xp, epoch.usdc_reward_amount, epoch.total_xp);
    if reward_amount == 0 {
        return Err(ErrorCode::NoRewardToClaim);
    }
    let new_lifetime = match contributor.lifetime_usdc_earned.checked_add(reward_amount) {
        Some(v) => v,
        None => { return Err(ErrorCode::MathOverflow) },
    };

    snapshot.usdc_claimed = true;
    contributor.lifetime_usdc_earned = new_lifetime;
    contributor.last_claim_epoch = epoch_number;
    Ok(reward_amount)
}

/// A USDC claim is one-shot: a successful claim leaves the snapshot's
/// one-way flag set, and any later claim against that snapshot — whatever
/// the time and however the contributor record has moved on — is rejected
/// as already claimed.
pub proof fn lemma_usdc_claim_is_one_shot(
    epoch: RewardEpoch,
    snapshot: EpochSnapshot,
    contributor: Contributor,
    now: i64,
    later_contributor: Contributor,
    later_now: i64,
)
    requires
        usdc_claim_rejection(epoch, snapshot, contributor, now) is None,
    ensures
        usdc_claim_rejection(
            epoch,
            (EpochSnapshot { usdc_claimed: true, ..snapshot }),
            later_contributor,
            later_now,
        ) == Some(ErrorCode::AlreadyClaimed),
{
}

/// Why an SBT claim is rejected, if it is: nothing accrued and unclaimed,
/// or the supply cap already reached. The two `MathOverflow` arms guard the
/// checked subtractions on records that would violate their invariants;
/// well-formed records never take them.
pub open spec fn sbt_claim_rejection(config: Config, contributor: Contributor) -> Option<
    ErrorCode,
> {
    if contributor.total_sbt_claimed > contributor.total_sbt_claimable {
        Some(ErrorCode::MathOverflow)
    } else if contributor.total_sbt_claimable == contributor.total_sbt_claimed {
        Some(ErrorCode::NoSbtToClaim)
    } else if config.sbt_minted > config.sbt_total_supply {
        Some(ErrorCode::MathOverflow)
    } else if config.sbt_minted == config.sbt_total_supply {
        Some(ErrorCode::SbtSupplyExhausted)
    } else {
        None
    }
}

/// The partial-fulfilment policy: a claim mints the lesser of the unclaimed
/// accrual and the remaining supply.
pub open spec fn sbt_mint_amount(config: Config, contributor: Contributor) -> int {
    let claimable = contributor.total_sbt_claimable - contributor.total_sbt_claimed;
    let remaining = config.sbt_total_supply - config.sbt_minted;
    if claimable <= remaining {
        claimable
    } else {
        remaining
    }
}

/// Mints a contributor's unclaimed SBT accrual, capped by the remaining
/// global supply: when the cap is nearly exhausted the contributor receives
/// whatever remains rather than failing, and the shortfall stays recorded
/// as still claimable. On success both the contributor's claimed counter
/// and the global mint counter grow by the returned amount, which the
/// caller must actually mint. The supply cap is never exceeded, after any
/// sequence of calls: every call preserves `config.sbt_minted <=
/// config.sbt_total_supply`.
pub fn claim_sbt_tokens(config: &mut Config, contributor: &mut Contributor) -> (r: Result<
    u64,
    ErrorCode,
>)
    ensures
        match r {
            Ok(minted) => {
                &&& sbt_claim_rejection(*old(config), *old(contributor)) is None
                &&& minted == sbt_mint_amount(*old(config), *old(contributor))
                &&& minted > 0
                &&& *final(config) == (Config {
                    sbt_minted: (old(config).sbt_minted + minted) as u64,
                    ..*old(config)
                })
                &&& *final(contributor) == (Contributor {
                    total_sbt_claimed: (old(contributor).total_sbt_claimed + minted) as u64,
                    ..*old(contributor)
                })
                &&& final(config).wf()
                &&& final(contributor).wf()
            },
            Err(e) => {
                &&& sbt_claim_rejection(*old(config), *old(contributor)) == Some(e)
                &&& *final(config) == *old(config)
                &&& *final(contributor) == *old(contributor)
            },
        },
        old(config).wf() ==> final(config).wf(),
{
    let claimable = match contributor.total_sbt_claimable.checked_sub(
        contributor.total_sbt_claimed,
    ) {
        Some(v) => v,
        None => { return Err(ErrorCode::MathOverflow) },
    };
    if claimable == 0 {
        return Err(ErrorCode::NoSbtToClaim);
    }
    let remaining_supply = match config.sbt_total_supply.checked_sub(config.sbt_minted) {
        Some(v) => v,
        None => { return Err(ErrorCode::MathOverflow) },
    };
    let actual_mint = if claimable <= remaining_supply {
        claimable
    } else {
        remaining_supply
    };
    if actual_mint == 0 {
        return Err(ErrorCode::SbtSupplyExhausted);
    }

    contributor.total_sbt_claimed = contributor.total_sbt_claimed + actual_mint;
    config.sbt_minted = config.sbt_minted + actual_mint;
    Ok(actual_mint)
}

} // verus!
