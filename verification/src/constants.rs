//! Fixed protocol parameters.

use vstd::prelude::*;

verus! {

/// GitHub usernames are at most 39 bytes long; the empty label is rejected.
pub const MAX_GITHUB_USERNAME_LEN: usize = 39;

/// Length of one reward epoch: seven days, in seconds.
pub const SECONDS_PER_WEEK: i64 = 7 * 24 * 60 * 60;

/// USDC claims stay open this long after an epoch ends: thirty days, in seconds.
pub const CLAIM_WINDOW_SECONDS: i64 = 30 * 24 * 60 * 60;

/// A contributor may claim epochs that ended no earlier than ninety days
/// before their registration.
pub const RETROACTIVE_WINDOW_SECONDS: i64 = 90 * 24 * 60 * 60;

/// Anti-abuse ceiling on how much one sync call may raise a contributor's XP.
pub const MAX_XP_INCREASE: u64 = 1_000_000;

/// Fixed multiplier converting an XP delta into SBT tokens.
pub const XP_TO_SBT_RATIO: u64 = 100;

/// Hard, immutable cap on the number of SBT tokens ever minted.
pub const SBT_MAX_SUPPLY: u64 = 1_000_000_000;

/// Cardinality limits on the per-category XP breakdowns carried by a sync.
pub const MAX_ROLE_CATEGORIES: usize = 10;
pub const MAX_DOMAIN_CATEGORIES: usize = 15;
pub const MAX_SKILL_CATEGORIES: usize = 20;

} // verus!
