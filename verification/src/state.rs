//! The ledger's record types and their well-formedness invariants.
//!
//! One `Config` singleton, one `RewardEpoch` per epoch number, one
//! `Contributor` per wallet, and one `EpochSnapshot` per (epoch, wallet)
//! pair. The embedding runtime owns storage and addressing of the records;
//! this crate states and preserves their invariants.

use vstd::prelude::*;

verus! {

/// An opaque 32-byte account identity, held as four plain words. The ledger
/// only ever compares identities for equality and stores them.
#[derive(Clone, Copy, PartialEq, Eq, Structural, Debug)]
pub struct Address {
    pub w0: u64,
    pub w1: u64,
    pub w2: u64,
    pub w3: u64,
}

/// The global singleton: identities, epoch counters, and the SBT supply
/// accounting.
#[derive(Clone, Copy, Debug)]
pub struct Config {
    pub admin: Address,
    pub oracle: Address,
    pub usdc_mint: Address,
    pub sbt_mint: Address,
    pub usdc_vault: Address,
    /// Number of the currently open epoch; 0 before any epoch exists.
    pub current_epoch: u64,
    pub total_epochs: u64,
    /// Fixed integer multiplier converting XP deltas to SBT.
    pub xp_to_sbt_ratio: u64,
    /// Immutable cap on SBT ever minted.
    pub sbt_total_supply: u64,
    /// Running total of SBT minted so far.
    pub sbt_minted: u64,
}

impl Config {
    /// The one global invariant on the supply counters: the running mint
    /// total never exceeds the immutable cap.
    pub open spec fn wf(self) -> bool {
        self.sbt_minted <= self.sbt_total_supply
    }
}

/// One sequentially numbered, week-long reward window with a fixed USDC
/// purse and a running aggregate of its contributors' current XP.
#[derive(Clone, Copy, Debug)]
pub struct RewardEpoch {
    /// 1-based, strictly increasing.
    pub epoch_number: u64,
    pub start_time: i64,
    pub end_time: i64,
    /// Sum of every contributor's latest snapshot XP for this epoch —
    /// an aggregate of current values, not of deltas.
    pub total_xp: u64,
    /// Fixed at creation, immutable thereafter.
    pub usdc_reward_amount: u64,
    pub contributor_count: u16,
    /// One-way flag; set only after `end_time` has passed.
    pub finalized: bool,
}

/// Per-wallet cumulative XP and reward-claim state.
#[derive(Clone, Debug)]
pub struct Contributor {
    pub wallet: Address,
    /// Opaque bounded-length label; never parsed.
    pub github_username: String,
    /// Latest oracle-reported absolute XP; monotone non-decreasing.
    pub total_xp: u64,
    /// Cumulative ratio-converted XP; monotone non-decreasing.
    pub total_sbt_claimable: u64,
    /// Monotone non-decreasing, never exceeds `total_sbt_claimable`.
    pub total_sbt_claimed: u64,
    pub lifetime_usdc_earned: u64,
    pub last_claim_epoch: u64,
    pub registered_at: i64,
}

impl Contributor {
    /// A contributor never has claimed more SBT than they accrued.
    pub open spec fn wf(self) -> bool {
        self.total_sbt_claimed <= self.total_sbt_claimable
    }
}

/// The frozen per-(epoch, contributor) XP value and claim flag.
///
/// `xp == 0` doubles as the "never synced this epoch" sentinel: the sync
/// engine treats a zero snapshot as a first sync for the epoch.
#[derive(Clone, Copy, Debug)]
pub struct EpochSnapshot {
    pub contributor: Address,
    pub epoch: u64,
    /// Absolute XP as of the last sync in this epoch.
    pub xp: u64,
    /// One-way flag: set at most once, and a claim is rejected if set.
    pub usdc_claimed: bool,
    /// XP delta × ratio recorded at sync time; informational.
    pub sbt_earned: u64,
}

/// One named entry of a per-category XP breakdown. Carried only for
/// observability; never summed into ledger state.
#[derive(Clone, Debug)]
pub struct XpCategory {
    pub name: String,
    pub amount: u64,
}

/// The structured event emitted by every sync call: the full input plus the
/// computed SBT accrual and the registration flag. This is the only durable
/// record of category-level detail.
#[derive(Clone, Debug)]
pub struct XpSyncedEvent {
    pub wallet: Address,
    pub github_username: String,
    pub epoch: u64,
    pub total_xp: u64,
    pub role_xp: Vec<XpCategory>,
    pub domain_xp: Vec<XpCategory>,
    pub skill_xp: Vec<XpCategory>,
    pub sbt_earned: u64,
    pub timestamp: i64,
    pub is_registered: bool,
}

} // verus!
