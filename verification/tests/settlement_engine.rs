//! The settlement engine: pro-rata USDC claims and supply-capped SBT
//! claims, with the full sync-finalize-claim scenarios.

use leaderboard_rewards::config_ops::initialize;
use leaderboard_rewards::constants::{CLAIM_WINDOW_SECONDS, SECONDS_PER_WEEK};
use leaderboard_rewards::contributors::register_contributor;
use leaderboard_rewards::epochs::{create_epoch, finalize_epoch};
use leaderboard_rewards::errors::ErrorCode;
use leaderboard_rewards::settlement::{claim_sbt_tokens, claim_usdc_rewards};
use leaderboard_rewards::state::{Address, Config, Contributor, EpochSnapshot, RewardEpoch};
use leaderboard_rewards::sync::sync_contributor_xp;

fn addr(n: u64) -> Address {
    Address { w0: n, w1: 0, w2: 0, w3: 0 }
}

fn fresh_snapshot() -> EpochSnapshot {
    EpochSnapshot {
        contributor: addr(0),
        epoch: 0,
        xp: 0,
        usdc_claimed: false,
        sbt_earned: 0,
    }
}

fn sync(
    config: &Config,
    epoch: &mut RewardEpoch,
    contributor: &mut Contributor,
    snapshot: &mut EpochSnapshot,
    wallet: Address,
    total_xp: u64,
) {
    sync_contributor_xp(
        config,
        epoch,
        contributor,
        snapshot,
        wallet,
        String::from("label"),
        total_xp,
        Vec::new(),
        Vec::new(),
        Vec::new(),
        10,
    )
    .unwrap();
}

/// Purse 1000 split 60/40: the two payouts are exactly 600 and 400.
#[test]
fn pro_rata_split_pays_exact_shares() {
    let mut cfg = initialize(addr(1), addr(2), addr(3), addr(4), addr(5));
    let mut epoch = create_epoch(&mut cfg, 1_000, 0);
    let mut alice = register_contributor(addr(7), String::from("alice"), 0).unwrap();
    let mut bob = register_contributor(addr(8), String::from("bob"), 0).unwrap();
    let mut snap_a = fresh_snapshot();
    let mut snap_b = fresh_snapshot();

    sync(&cfg, &mut epoch, &mut alice, &mut snap_a, addr(7), 60);
    sync(&cfg, &mut epoch, &mut bob, &mut snap_b, addr(8), 40);
    assert_eq!(epoch.total_xp, 100);
    finalize_epoch(&mut epoch, SECONDS_PER_WEEK).unwrap();

    let now = SECONDS_PER_WEEK + 1;
    let paid_a = claim_usdc_rewards(&epoch, &mut snap_a, &mut alice, 1, now).unwrap();
    let paid_b = claim_usdc_rewards(&epoch, &mut snap_b, &mut bob, 1, now).unwrap();

    assert_eq!(paid_a, 600);
    assert_eq!(paid_b, 400);
    assert_eq!(alice.lifetime_usdc_earned, 600);
    assert_eq!(bob.lifetime_usdc_earned, 400);
    assert_eq!(alice.last_claim_epoch, 1);
    assert!(snap_a.usdc_claimed);
    assert!(snap_b.usdc_claimed);
    // The purse is never overpaid.
    assert!(paid_a + paid_b <= 1_000);
}

/// Truncated shares lose dust but never overpay the purse.
#[test]
fn truncated_payouts_stay_within_purse() {
    let mut cfg = initialize(addr(1), addr(2), addr(3), addr(4), addr(5));
    let mut epoch = create_epoch(&mut cfg, 100, 0);
    let mut total_paid: u64 = 0;
    let mut contributors = Vec::new();
    for i in 0..3u64 {
        let mut c = register_contributor(addr(10 + i), String::from("c"), 0).unwrap();
        let mut s = fresh_snapshot();
        sync(&cfg, &mut epoch, &mut c, &mut s, addr(10 + i), 1);
        contributors.push((c, s));
    }
    assert_eq!(epoch.total_xp, 3);
    finalize_epoch(&mut epoch, SECONDS_PER_WEEK).unwrap();

    for (c, s) in contributors.iter_mut() {
        let paid = claim_usdc_rewards(&epoch, s, c, 1, SECONDS_PER_WEEK).unwrap();
        assert_eq!(paid, 33);
        total_paid += paid;
    }
    assert_eq!(total_paid, 99);
    assert!(total_paid <= 100);
}

#[test]
fn usdc_claim_succeeds_once_then_reports_already_claimed() {
    let mut cfg = initialize(addr(1), addr(2), addr(3), addr(4), addr(5));
    let mut epoch = create_epoch(&mut cfg, 1_000, 0);
    let mut alice = register_contributor(addr(7), String::from("alice"), 0).unwrap();
    let mut snap = fresh_snapshot();
    sync(&cfg, &mut epoch, &mut alice, &mut snap, addr(7), 60);
    finalize_epoch(&mut epoch, SECONDS_PER_WEEK).unwrap();

    let now = SECONDS_PER_WEEK + 1;
    assert!(claim_usdc_rewards(&epoch, &mut snap, &mut alice, 1, now).is_ok());
    let second = claim_usdc_rewards(&epoch, &mut snap, &mut alice, 1, now);
    assert_eq!(second, Err(ErrorCode::AlreadyClaimed));
    assert_eq!(alice.lifetime_usdc_earned, 1_000);
}

#[test]
fn usdc_claim_rejected_before_finalization() {
    let mut cfg = initialize(addr(1), addr(2), addr(3), addr(4), addr(5));
    let mut epoch = create_epoch(&mut cfg, 1_000, 0);
    let mut alice = register_contributor(addr(7), String::from("alice"), 0).unwrap();
    let mut snap = fresh_snapshot();
    sync(&cfg, &mut epoch, &mut alice, &mut snap, addr(7), 60);

    let r = claim_usdc_rewards(&epoch, &mut snap, &mut alice, 1, SECONDS_PER_WEEK);
    assert_eq!(r, Err(ErrorCode::EpochNotFinalized));
    assert!(!snap.usdc_claimed);
}

/// A claim 31 days after the epoch ended is outside the 30-day window.
#[test]
fn usdc_claim_rejected_after_window_expires() {
    let mut cfg = initialize(addr(1), addr(2), addr(3), addr(4), addr(5));
    let mut epoch = create_epoch(&mut cfg, 1_000, 0);
    let mut alice = register_contributor(addr(7), String::from("alice"), 0).unwrap();
    let mut snap = fresh_snapshot();
    sync(&cfg, &mut epoch, &mut alice, &mut snap, addr(7), 60);
    finalize_epoch(&mut epoch, SECONDS_PER_WEEK).unwrap();

    let now = epoch.end_time + 31 * 24 * 60 * 60;
    let r = claim_usdc_rewards(&epoch, &mut snap, &mut alice, 1, now);
    assert_eq!(r, Err(ErrorCode::ClaimWindowExpired));
    // The last moment of the window still pays.
    let r = claim_usdc_rewards(&epoch, &mut snap, &mut alice, 1, epoch.end_time + CLAIM_WINDOW_SECONDS);
    assert_eq!(r, Ok(1_000));
}

#[test]
fn usdc_claim_rejected_when_epoch_has_no_xp() {
    let mut cfg = initialize(addr(1), addr(2), addr(3), addr(4), addr(5));
    let mut epoch = create_epoch(&mut cfg, 1_000, 0);
    let mut alice = register_contributor(addr(7), String::from("alice"), 0).unwrap();
    let mut snap = fresh_snapshot();
    finalize_epoch(&mut epoch, SECONDS_PER_WEEK).unwrap();

    let r = claim_usdc_rewards(&epoch, &mut snap, &mut alice, 1, SECONDS_PER_WEEK);
    assert_eq!(r, Err(ErrorCode::NoXpInEpoch));
}

#[test]
fn usdc_claim_rejected_when_epoch_too_old_for_late_registrant() {
    let mut cfg = initialize(addr(1), addr(2), addr(3), addr(4), addr(5));
    let mut epoch = create_epoch(&mut cfg, 1_000, 0);
    let mut alice = register_contributor(addr(7), String::from("alice"), 0).unwrap();
    let mut snap = fresh_snapshot();
    sync(&cfg, &mut epoch, &mut alice, &mut snap, addr(7), 60);
    finalize_epoch(&mut epoch, SECONDS_PER_WEEK).unwrap();

    // Registration more than 90 days after the epoch's end.
    alice.registered_at = epoch.end_time + 90 * 24 * 60 * 60 + 1;
    let r = claim_usdc_rewards(&epoch, &mut snap, &mut alice, 1, SECONDS_PER_WEEK + 1);
    assert_eq!(r, Err(ErrorCode::EpochTooOld));

    // Exactly 90 days is still eligible (though here the window has also
    // long expired, so use a fresh bound check via registered_at).
    alice.registered_at = epoch.end_time + 90 * 24 * 60 * 60;
    let r = claim_usdc_rewards(&epoch, &mut snap, &mut alice, 1, SECONDS_PER_WEEK + 1);
    assert_eq!(r, Ok(1_000));
}

#[test]
fn usdc_claim_rejected_when_truncated_share_is_zero() {
    let mut cfg = initialize(addr(1), addr(2), addr(3), addr(4), addr(5));
    // Purse of 2 split over total 3: a single XP point rounds to zero.
    let mut epoch = create_epoch(&mut cfg, 2, 0);
    let mut alice = register_contributor(addr(7), String::from("alice"), 0).unwrap();
    let mut bob = register_contributor(addr(8), String::from("bob"), 0).unwrap();
    let mut snap_a = fresh_snapshot();
    let mut snap_b = fresh_snapshot();
    sync(&cfg, &mut epoch, &mut alice, &mut snap_a, addr(7), 1);
    sync(&cfg, &mut epoch, &mut bob, &mut snap_b, addr(8), 2);
    finalize_epoch(&mut epoch, SECONDS_PER_WEEK).unwrap();

    let r = claim_usdc_rewards(&epoch, &mut snap_a, &mut alice, 1, SECONDS_PER_WEEK);
    assert_eq!(r, Err(ErrorCode::NoRewardToClaim));
    assert!(!snap_a.usdc_claimed);
}

#[test]
fn usdc_claim_rejected_on_lifetime_counter_overflow() {
    let mut cfg = initialize(addr(1), addr(2), addr(3), addr(4), addr(5));
    let mut epoch = create_epoch(&mut cfg, 1_000, 0);
    let mut alice = register_contributor(addr(7), String::from("alice"), 0).unwrap();
    let mut snap = fresh_snapshot();
    sync(&cfg, &mut epoch, &mut alice, &mut snap, addr(7), 60);
    finalize_epoch(&mut epoch, SECONDS_PER_WEEK).unwrap();

    alice.lifetime_usdc_earned = u64::MAX;
    let r = claim_usdc_rewards(&epoch, &mut snap, &mut alice, 1, SECONDS_PER_WEEK);
    assert_eq!(r, Err(ErrorCode::MathOverflow));
    assert!(!snap.usdc_claimed);
    assert_eq!(alice.lifetime_usdc_earned, u64::MAX);
}

/// Accrue 500 XP at ratio 100, claim the full 50000 SBT.
#[test]
fn sbt_claim_mints_full_accrual_when_supply_allows() {
    let mut cfg = initialize(addr(1), addr(2), addr(3), addr(4), addr(5));
    let mut epoch = create_epoch(&mut cfg, 1_000, 0);
    let mut alice = register_contributor(addr(7), String::from("alice"), 0).unwrap();
    let mut snap = fresh_snapshot();
    sync(&cfg, &mut epoch, &mut alice, &mut snap, addr(7), 500);
    assert_eq!(alice.total_sbt_claimable, 50_000);

    let minted = claim_sbt_tokens(&mut cfg, &mut alice).unwrap();
    assert_eq!(minted, 50_000);
    assert_eq!(alice.total_sbt_claimed, 50_000);
    assert_eq!(cfg.sbt_minted, 50_000);
    assert!(cfg.sbt_minted <= cfg.sbt_total_supply);
}

/// Partial fulfilment: claimable 50 against remaining supply 30 mints
/// exactly 30, leaves 20 still recorded, and the next attempt reports the
/// supply as exhausted.
#[test]
fn sbt_claim_partially_fulfils_at_supply_cap() {
    let mut cfg = initialize(addr(1), addr(2), addr(3), addr(4), addr(5));
    cfg.sbt_total_supply = 100;
    cfg.sbt_minted = 70;
    let mut alice = register_contributor(addr(7), String::from("alice"), 0).unwrap();
    alice.total_sbt_claimable = 50;

    let minted = claim_sbt_tokens(&mut cfg, &mut alice).unwrap();
    assert_eq!(minted, 30);
    assert_eq!(alice.total_sbt_claimed, 30);
    assert_eq!(alice.total_sbt_claimable - alice.total_sbt_claimed, 20);
    assert_eq!(cfg.sbt_minted, 100);

    let r = claim_sbt_tokens(&mut cfg, &mut alice);
    assert_eq!(r, Err(ErrorCode::SbtSupplyExhausted));
    assert_eq!(cfg.sbt_minted, 100);
    assert!(cfg.sbt_minted <= cfg.sbt_total_supply);
}

#[test]
fn sbt_claim_rejected_with_nothing_accrued() {
    let mut cfg = initialize(addr(1), addr(2), addr(3), addr(4), addr(5));
    let mut alice = register_contributor(addr(7), String::from("alice"), 0).unwrap();
    let r = claim_sbt_tokens(&mut cfg, &mut alice);
    assert_eq!(r, Err(ErrorCode::NoSbtToClaim));
}

/// The supply cap holds across any sequence of claims by any contributors.
#[test]
fn sbt_supply_cap_holds_across_claim_sequences() {
    let mut cfg = initialize(addr(1), addr(2), addr(3), addr(4), addr(5));
    cfg.sbt_total_supply = 1_000;
    for i in 0..10u64 {
        let mut c = register_contributor(addr(20 + i), String::from("c"), 0).unwrap();
        c.total_sbt_claimable = 300;
        let _ = claim_sbt_tokens(&mut cfg, &mut c);
        assert!(cfg.sbt_minted <= cfg.sbt_total_supply);
    }
    assert_eq!(cfg.sbt_minted, 1_000);
}
