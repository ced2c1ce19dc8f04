//! XP Sync Engine: merges one oracle-reported absolute XP value into the
//! current epoch, updating the contributor, the epoch aggregate and the
//! per-epoch snapshot atomically.

use vstd::prelude::*;
use crate::constants::{
    MAX_DOMAIN_CATEGORIES, MAX_ROLE_CATEGORIES, MAX_SKILL_CATEGORIES, MAX_XP_INCREASE,
};
use crate::contributors::{label_is_valid, valid_label};
use crate::errors::ErrorCode;
use crate::state::{
    Address, Config, Contributor, EpochSnapshot, RewardEpoch, XpCategory, XpSyncedEvent,
};

verus! {

/// The XP delta an absolute report implies: saturating, never negative.
pub open spec fn xp_delta(old_xp: u64, new_xp: u64) -> u64 {
    if new_xp >= old_xp {
        (new_xp - old_xp) as u64
    } else {
        0u64
    }
}

/// SBT accrued by one sync: delta times ratio, deliberately saturating to
/// zero rather than failing when the product overflows — a soft-cap policy,
/// distinct from the hard [`MAX_XP_INCREASE`] rejection.
pub open spec fn sbt_earned_of(old_xp: u64, new_xp: u64, ratio: u64) -> u64 {
    if xp_delta(old_xp, new_xp) * ratio > u64::MAX {
        0u64
    } else {
        (xp_delta(old_xp, new_xp) * ratio) as u64
    }
}

/// Why a sync call is rejected, if it is, in the order the checks run:
/// input validation, the closed-epoch guard, the anti-abuse ceiling, then
/// the checked-arithmetic guards of the registered branch. A sync for an
/// unregistered wallet past validation is accepted as a no-op.
pub open spec fn sync_rejection(
    config: Config,
    epoch: RewardEpoch,
    contributor: Contributor,
    snapshot: EpochSnapshot,
    wallet: Address,
    label: Seq<char>,
    total_xp: u64,
    n_role: nat,
    n_domain: nat,
    n_skill: nat,
) -> Option<ErrorCode> {
    if !valid_label(label) {
        Some(ErrorCode::InvalidGithubUsername)
    } else if n_role > MAX_ROLE_CATEGORIES || n_domain > MAX_DOMAIN_CATEGORIES || n_skill
        > MAX_SKILL_CATEGORIES {
        Some(ErrorCode::TooManyCategories)
    } else if epoch.finalized {
        Some(ErrorCode::EpochFinalized)
    } else if contributor.wallet == wallet {
        if xp_delta(contributor.total_xp, total_xp) > MAX_XP_INCREASE {
            Some(ErrorCode::XpTooHigh)
        } else if contributor.total_sbt_claimable + sbt_earned_of(
            contributor.total_xp,
            total_xp,
            config.xp_to_sbt_ratio,
        ) > u64::MAX {
            Some(ErrorCode::MathOverflow)
        } else if snapshot.xp == 0 && epoch.total_xp + total_xp > u64::MAX {
            Some(ErrorCode::MathOverflow)
        } else if snapshot.xp != 0 && snapshot.xp > epoch.total_xp {
            Some(ErrorCode::MathOverflow)
        } else if snapshot.xp != 0 && epoch.total_xp - snapshot.xp + total_xp > u64::MAX {
            Some(ErrorCode::MathOverflow)
        } else {
            None
        }
    } else {
        None
    }
}

/// Reconciles one contributor's oracle-reported absolute XP into the open
/// epoch.
///
/// For a registered wallet this raises the contributor's cumulative XP and
/// SBT accrual by the saturating delta, and replaces (never adds to) the
/// wallet's contribution inside the epoch aggregate: a snapshot with the
/// zero sentinel counts as a first sync and is added whole, a later sync
/// subtracts the old snapshot value before adding the new one, so repeated
/// syncs do not double-count. For an unregistered wallet nothing is
/// mutated; the call succeeds purely to surface the returned event. A
/// rejected call leaves every record unchanged.
pub fn sync_contributor_xp(
    config: &Config,
    epoch: &mut RewardEpoch,
    contributor: &mut Contributor,
    snapshot: &mut EpochSnapshot,
    wallet: Address,
    github_username: String,
    total_xp: u64,
    role_xp_data: Vec<XpCategory>,
    domain_xp_data: Vec<XpCategory>,
    skill_xp_data: Vec<XpCategory>,
    now: i64,
) -> (r: Result<XpSyncedEvent, ErrorCode>)
    requires
        old(contributor).wallet == wallet && old(snapshot).xp == 0 ==> old(
            epoch,
        ).contributor_count < u16::MAX,
    ensures
        match r {
            Ok(event) => {
                let registered = old(contributor).wallet == wallet;
                let earned = if registered {
                    sbt_earned_of(old(contributor).total_xp, total_xp, config.xp_to_sbt_ratio)
                } else {
                    0u64
                };
                &&& sync_rejection(
                    *config,
                    *old(epoch),
                    *old(contributor),
                    *old(snapshot),
                    wallet,
                    github_username@,
                    total_xp,
                    role_xp_data@.len(),
                    domain_xp_data@.len(),
                    skill_xp_data@.len(),
                ) is None
                &&& if registered {
                    &&& *final(contributor) == (Contributor {
                        total_xp,
                        total_sbt_claimable: (old(contributor).total_sbt_claimable + earned) as u64,
                        ..*old(contributor)
                    })
                    &&& *final(snapshot) == (EpochSnapshot {
                        contributor: wallet,
                        epoch: old(epoch).epoch_number,
                        xp: total_xp,
                        usdc_claimed: false,
                        sbt_earned: earned,
                    })
                    &&& if old(snapshot).xp == 0 {
                        *final(epoch) == (RewardEpoch {
                            contributor_count: (old(epoch).contributor_count + 1) as u16,
                            total_xp: (old(epoch).total_xp + total_xp) as u64,
                            ..*old(epoch)
                        })
                    } else {
                        *final(epoch) == (RewardEpoch {
                            total_xp: (old(epoch).total_xp - old(snapshot).xp + total_xp) as u64,
                            ..*old(epoch)
                        })
                    }
                } else {
                    &&& *final(contributor) == *old(contributor)
                    &&& *final(snapshot) == *old(snapshot)
                    &&& *final(epoch) == *old(epoch)
                }
                &&& event.wallet == wallet
                &&& event.github_username == github_username
                &&& event.epoch == old(epoch).epoch_number
                &&& event.total_xp == total_xp
                &&& event.role_xp == role_xp_data
                &&& event.domain_xp == domain_xp_data
                &&& event.skill_xp == skill_xp_data
                &&& event.sbt_earned == earned
                &&& event.timestamp == now
                &&& event.is_registered == registered
            },
            Err(e) => {
                &&& sync_rejection(
                    *config,
                    *old(epoch),
                    *old(contributor),
                    *old(snapshot),
                    wallet,
                    github_username@,
                    total_xp,
                    role_xp_data@.len(),
                    domain_xp_data@.len(),
                    skill_xp_data@.len(),
                ) == Some(e)
                &&& *final(epoch) == *old(epoch)
                &&& *final(contributor) == *old(contributor)
                &&& *final(snapshot) == *old(snapshot)
            },
        },
{
    if !label_is_valid(github_username.as_str()) {
        return Err(ErrorCode::InvalidGithubUsername);
    }
    if role_xp_data.len() > MAX_ROLE_CATEGORIES || domain_xp_data.len() > MAX_DOMAIN_CATEGORIES
        || skill_xp_data.len() > MAX_SKILL_CATEGORIES {
        return Err(ErrorCode::TooManyCategories);
    }
    if epoch.finalized {
        return Err(ErrorCode::EpochFinalized);
    }

    let is_registered = contributor.wallet == wallet;
    let mut sbt_earned: u64 = 0;

    if is_registered {
        let old_xp = contributor.total_xp;
        let delta = total_xp.saturating_sub(old_xp);
        if delta > MAX_XP_INCREASE {
            return Err(ErrorCode::XpTooHigh);
        }

        sbt_earned = match delta.checked_mul(config.xp_to_sbt_ratio) {
            Some(v) => v,
            None => 0,
        };
        let new_claimable = match contributor.total_sbt_claimable.checked_add(sbt_earned) {
            Some(v) => v,
            None => { return Err(ErrorCode::MathOverflow) },
        };

        let is_new_snapshot = snapshot.xp == 0;
        let snapshot_old_xp = snapshot.xp;
        let new_epoch_total: u64;
        let new_count: u16;
        if is_new_snapshot {
            new_epoch_total = match epoch.total_xp.checked_add(total_xp) {
                Some(v) => v,
                None => { return Err(ErrorCode::MathOverflow) },
            };
            new_count = epoch.contributor_count + 1;
        } else {
            let reduced = match epoch.total_xp.checked_sub(snapshot_old_xp) {
                Some(v) => v,
                None => { return Err(ErrorCode::MathOverflow) },
            };
            new_epoch_total = match reduced.checked_add(total_xp) {
                Some(v) => v,
                None => { return Err(ErrorCode::MathOverflow) },
            };
            new_count = epoch.contributor_count;
        }

        contributor.total_xp = total_xp;
        contributor.total_sbt_claimable = new_claimable;
        snapshot.contributor = wallet;
        snapshot.epoch = epoch.epoch_number;
        snapshot.xp = total_xp;
        snapshot.usdc_claimed = false;
        snapshot.sbt_earned = sbt_earned;
        epoch.total_xp = new_epoch_total;
        epoch.contributor_count = new_count;
    }

    Ok(XpSyncedEvent {
        wallet,
        github_username,
        epoch: epoch.epoch_number,
        total_xp,
        role_xp: role_xp_data,
        domain_xp: domain_xp_data,
        skill_xp: skill_xp_data,
        sbt_earned,
        timestamp: now,
        is_registered,
    })
}

} // verus!
