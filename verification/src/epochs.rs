//! Epoch registry: opening a new reward window and finalizing an ended one.

use vstd::prelude::*;
use crate::constants::SECONDS_PER_WEEK;
use crate::errors::ErrorCode;
use crate::state::{Config, RewardEpoch};

verus! {

/// Opens the next sequential epoch: a fresh week-long window with the given
/// USDC purse, and advances the registry's counters. The caller supplies
/// the current time.
pub fn create_epoch(config: &mut Config, usdc_reward_amount: u64, now: i64) -> (epoch: RewardEpoch)
    requires
        old(config).current_epoch < u64::MAX,
        old(config).total_epochs < u64::MAX,
        now <= i64::MAX - SECONDS_PER_WEEK,
    ensures
        epoch == (RewardEpoch {
            epoch_number: (old(config).current_epoch + 1) as u64,
            start_time: now,
            end_time: (now + SECONDS_PER_WEEK) as i64,
            total_xp: 0,
            usdc_reward_amount,
            contributor_count: 0,
            finalized: false,
        }),
        *final(config) == (Config {
            current_epoch: (old(config).current_epoch + 1) as u64,
            total_epochs: (old(config).total_epochs + 1) as u64,
            ..*old(config)
        }),
{
    let epoch_number = config.current_epoch + 1;
    let epoch = RewardEpoch {
        epoch_number,
        start_time: now,
        end_time: now + SECONDS_PER_WEEK,
        total_xp: 0,
        usdc_reward_amount,
        contributor_count: 0,
        finalized: false,
    };
    config.current_epoch = epoch_number;
    config.total_epochs = config.total_epochs + 1;
    epoch
}

/// Why a finalize call is rejected, if it is: a second finalize, or one
/// before the epoch's end time.
pub open spec fn finalize_rejection(epoch: RewardEpoch, now: i64) -> Option<ErrorCode> {
    if epoch.finalized {
        Some(ErrorCode::EpochAlreadyFinalized)
    } else if now < epoch.end_time {
        Some(ErrorCode::EpochNotEnded)
    } else {
        None
    }
}

/// The terminal transition of an epoch: sets the one-way `finalized` flag
/// once the window has ended. Succeeds exactly when the epoch is not yet
/// finalized and `now` has reached its end time; a failed call changes
/// nothing.
pub fn finalize_epoch(epoch: &mut RewardEpoch, now: i64) -> (r: Result<(), ErrorCode>)
    ensures
        match r {
            Ok(()) => {
                &&& finalize_rejection(*old(epoch), now) is None
                &&& *final(epoch) == (RewardEpoch { finalized: true, ..*old(epoch) })
            },
            Err(e) => {
                &&& finalize_rejection(*old(epoch), now) == Some(e)
                &&& *final(epoch) == *old(epoch)
            },
        },
{
    if epoch.finalized {
        return Err(ErrorCode::EpochAlreadyFinalized);
    }
    if now < epoch.end_time {
        return Err(ErrorCode::EpochNotEnded);
    }
    epoch.finalized = true;
    Ok(())
}

} // verus!
