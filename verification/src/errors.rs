//! Categorical error codes. Every failed operation surfaces exactly one of
//! these and leaves all records unchanged.

use vstd::prelude::*;

verus! {

#[derive(Clone, Copy, PartialEq, Eq, Structural, Debug)]
pub enum ErrorCode {
    /// XP increase too high.
    XpTooHigh,
    /// Epoch is already finalized (rejected sync).
    EpochFinalized,
    /// Epoch is already finalized (rejected second finalize).
    EpochAlreadyFinalized,
    /// Epoch has not ended yet.
    EpochNotEnded,
    /// GitHub username must be 1-39 bytes.
    InvalidGithubUsername,
    /// Epoch is not finalized yet.
    EpochNotFinalized,
    /// Rewards already claimed for this epoch.
    AlreadyClaimed,
    /// Claim window has expired (30 days after epoch end).
    ClaimWindowExpired,
    /// No XP recorded in this epoch.
    NoXpInEpoch,
    /// No reward to claim.
    NoRewardToClaim,
    /// Math overflow.
    MathOverflow,
    /// Too many XP categories.
    TooManyCategories,
    /// No SBT tokens to claim.
    NoSbtToClaim,
    /// SBT supply exhausted.
    SbtSupplyExhausted,
    /// Contributor not registered.
    ContributorNotRegistered,
    /// Epoch ended before the 90-day retroactive claim window.
    EpochTooOld,
}

} // verus!
