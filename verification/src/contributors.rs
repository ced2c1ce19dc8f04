//! Contributor ledger: registration and label updates.

use vstd::prelude::*;
use vstd::utf8::encode_utf8;
use crate::constants::MAX_GITHUB_USERNAME_LEN;
use crate::errors::ErrorCode;
use crate::state::{Address, Contributor};

verus! {

/// The opaque display label is valid when its UTF-8 encoding is between 1
/// and 39 bytes. The label is never parsed beyond this bound.
pub open spec fn valid_label(label: Seq<char>) -> bool {
    0 < encode_utf8(label).len() <= MAX_GITHUB_USERNAME_LEN
}

/// Exec check of [`valid_label`] on a borrowed string.
pub fn label_is_valid(label: &str) -> (b: bool)
    ensures
        b == valid_label(label@),
{
    let n: usize = label.as_bytes().len();
    n > 0 && n <= MAX_GITHUB_USERNAME_LEN
}

/// Creates a fresh contributor record for `wallet` at time `now`: all
/// cumulative counters start at zero. Rejects exactly the out-of-bounds
/// labels.
pub fn register_contributor(
    wallet: Address,
    github_username: String,
    now: i64,
) -> (r: Result<Contributor, ErrorCode>)
    ensures
        match r {
            Ok(c) => {
                &&& valid_label(github_username@)
                &&& c == (Contributor {
                    wallet,
                    github_username,
                    total_xp: 0,
                    total_sbt_claimable: 0,
                    total_sbt_claimed: 0,
                    lifetime_usdc_earned: 0,
                    last_claim_epoch: 0,
                    registered_at: now,
                })
                &&& c.wf()
            },
            Err(e) => {
                &&& !valid_label(github_username@)
                &&& e == ErrorCode::InvalidGithubUsername
            },
        },
{
    if !label_is_valid(github_username.as_str()) {
        return Err(ErrorCode::InvalidGithubUsername);
    }
    Ok(Contributor {
        wallet,
        github_username,
        total_xp: 0,
        total_sbt_claimable: 0,
        total_sbt_claimed: 0,
        lifetime_usdc_earned: 0,
        last_claim_epoch: 0,
        registered_at: now,
    })
}

/// Replaces a contributor's display label; every other field is kept.
/// Rejects exactly the out-of-bounds labels, changing nothing.
pub fn update_github_link(
    contributor: &mut Contributor,
    new_github_username: String,
) -> (r: Result<(), ErrorCode>)
    ensures
        match r {
            Ok(()) => {
                &&& valid_label(new_github_username@)
                &&& *final(contributor) == (Contributor {
                    github_username: new_github_username,
                    ..*old(contributor)
                })
            },
            Err(e) => {
                &&& !valid_label(new_github_username@)
                &&& e == ErrorCode::InvalidGithubUsername
                &&& *final(contributor) == *old(contributor)
            },
        },
{
    if !label_is_valid(new_github_username.as_str()) {
        return Err(ErrorCode::InvalidGithubUsername);
    }
    contributor.github_username = new_github_username;
    Ok(())
}

} // verus!
