//! The vesting policy: how much of a deal's amount has vested at a given
//! time, and how much of it the recipient can claim.

use vstd::prelude::*;
use crate::state::{Deal, EligibilityStatus, VestingType};

verus! {

/// `x`, or zero where `x` is negative.
pub open spec fn floor_at_zero(x: int) -> int {
    if x < 0 {
        0
    } else {
        x
    }
}

/// The smaller of `x` and `y`.
pub open spec fn lesser(x: int, y: int) -> int {
    if x <= y {
        x
    } else {
        y
    }
}

/// The share of `amount` that `pct` percent make, rounded down.
pub open spec fn capped_share(amount: int, pct: int) -> int {
    amount * pct / 100
}

/// The time that has passed at `now` since `since`; none before `since`.
pub open spec fn elapsed_since(now: int, since: int) -> int {
    floor_at_zero(now - since)
}

/// What of `total` has unlocked after `elapsed` of `duration`, rounded down:
/// in proportion to the time passed, and all of it once the duration is over.
/// A duration that is not positive is over at once.
pub open spec fn linear_unlock(total: int, elapsed: int, duration: int) -> int {
    if elapsed >= duration {
        total
    } else {
        total * elapsed / duration
    }
}

/// What of the deal's amount has vested at `now`, where `pct` is the share in
/// percent that the obligation alone unlocks. Eligibility comes first: nothing
/// vests while the recipient is not eligible, whatever the vesting type.
///
/// Without vesting, the whole amount vests when the recipient is fully
/// eligible. By market cap, the share vests with the obligation and the
/// whole amount with full eligibility. By time, the share vests with the
/// obligation; with full eligibility the rest unlocks on top of it, linearly
/// over the vesting duration, counted from the time the obligation was done.
pub open spec fn vested_amount(deal: Deal, now: i64, pct: u8) -> int {
    let amount = deal.amount as int;
    let share = capped_share(amount, pct as int);
    match deal.vesting_type {
        VestingType::NoVesting => match deal.eligibility_status {
            EligibilityStatus::NotEligible => 0,
            EligibilityStatus::PartiallyEligible => 0,
            EligibilityStatus::FullyEligible => amount,
        },
        VestingType::Marketcap => match deal.eligibility_status {
            EligibilityStatus::NotEligible => 0,
            EligibilityStatus::PartiallyEligible => share,
            EligibilityStatus::FullyEligible => amount,
        },
        VestingType::Time => match deal.eligibility_status {
            EligibilityStatus::NotEligible => 0,
            EligibilityStatus::PartiallyEligible => share,
            EligibilityStatus::FullyEligible => share + linear_unlock(
                floor_at_zero(amount - share),
                elapsed_since(now as int, deal.done_obligation_time as int),
                deal.vesting_duration as int,
            ),
        },
    }
}

/// What the recipient can claim at `now`: what has vested, at most the deal's
/// amount, less what was released already; never less than nothing.
pub open spec fn claimable_amount(deal: Deal, now: i64, pct: u8) -> int {
    floor_at_zero(lesser(vested_amount(deal, now, pct), deal.amount as int) - deal.released_amount)
}

/// `total * elapsed / duration` stays within `total` while the duration runs.
proof fn lemma_linear_unlock_bounds(total: int, elapsed: int, duration: int)
    requires
        0 <= total,
        0 <= elapsed < duration,
    ensures
        0 <= total * elapsed <= total * duration,
        0 <= total * elapsed / duration <= total,
{
    assert(0 <= total * elapsed <= total * duration) by (nonlinear_arith)
        requires
            0 <= total,
            0 <= elapsed < duration,
    ;
    assert(0 <= total * elapsed / duration <= total) by (nonlinear_arith)
        requires
            0 <= total * elapsed <= total * duration,
            0 < duration,
            0 <= total,
    ;
}

/// A share of at most 100 percent lies within the amount.
proof fn lemma_capped_share_bounds(amount: int, pct: int)
    requires
        0 <= amount,
        0 <= pct <= 100,
    ensures
        0 <= capped_share(amount, pct) <= amount,
{
    assert(0 <= amount * pct <= amount * 100) by (nonlinear_arith)
        requires
            0 <= amount,
            0 <= pct <= 100,
    ;
}

/// The later, the more has unlocked.
proof fn lemma_linear_unlock_grows(total: int, earlier: int, later: int, duration: int)
    requires
        0 <= total,
        0 <= earlier <= later,
    ensures
        0 <= linear_unlock(total, earlier, duration) <= linear_unlock(total, later, duration)
            <= total,
{
    if later < duration {
        lemma_linear_unlock_bounds(total, earlier, duration);
        lemma_linear_unlock_bounds(total, later, duration);
        assert(total * earlier / duration <= total * later / duration) by (nonlinear_arith)
            requires
                0 <= total,
                0 <= earlier <= later,
                0 < duration,
        ;
    } else if earlier < duration {
        lemma_linear_unlock_bounds(total, earlier, duration);
    }
}

/// The claimable amount as the policy words it, case by case, for a deal
/// that has released no more than its amount and a share of at most 100
/// percent. Without vesting, and by market cap once fully eligible, it is
/// the balance that remains. While the recipient is partially eligible, by
/// market cap or by time, it is what of the capped share is not released
/// yet. By time, once fully eligible, it is what of the capped share is not
/// released yet, and what has unlocked of the rest less what was released
/// beyond the share, together at most the balance that remains.
pub proof fn claimable_by_policy(deal: Deal, now: i64, pct: u8)
    requires
        deal.wf(),
        pct <= 100,
    ensures
        ({
            let amount = deal.amount as int;
            let released = deal.released_amount as int;
            let share = capped_share(amount, pct as int);
            let unlocked = linear_unlock(
                amount - share,
                elapsed_since(now as int, deal.done_obligation_time as int),
                deal.vesting_duration as int,
            );
            let claimable = claimable_amount(deal, now, pct);
            &&& 0 <= share <= amount
            &&& 0 <= unlocked <= amount - share
            &&& 0 <= claimable <= amount - released
            &&& match deal.vesting_type {
                VestingType::NoVesting => match deal.eligibility_status {
                    EligibilityStatus::FullyEligible => claimable == amount - released,
                    _ => claimable == 0,
                },
                VestingType::Marketcap => match deal.eligibility_status {
                    EligibilityStatus::NotEligible => claimable == 0,
                    EligibilityStatus::PartiallyEligible => {
                        claimable == floor_at_zero(lesser(amount, share) - released)
                    },
                    EligibilityStatus::FullyEligible => claimable == amount - released,
                },
                VestingType::Time => match deal.eligibility_status {
                    EligibilityStatus::NotEligible => claimable == 0,
                    EligibilityStatus::PartiallyEligible => {
                        claimable == lesser(floor_at_zero(share - released), amount)
                    },
                    EligibilityStatus::FullyEligible => {
                        claimable == lesser(
                            floor_at_zero(share - released)
                                + floor_at_zero(unlocked - floor_at_zero(released - share)),
                            amount - released,
                        )
                    },
                },
            }
        }),
{
    let amount = deal.amount as int;
    let share = capped_share(amount, pct as int);
    lemma_capped_share_bounds(amount, pct as int);
    lemma_linear_unlock_grows(
        amount - share,
        elapsed_since(now as int, deal.done_obligation_time as int),
        elapsed_since(now as int, deal.done_obligation_time as int),
        deal.vesting_duration as int,
    );
}

/// Time takes nothing back: with the deal and the percentage as they are,
/// what can be claimed later is no less than what can be claimed earlier.
pub proof fn claimable_grows_with_time(deal: Deal, earlier: i64, later: i64, pct: u8)
    requires
        earlier <= later,
    ensures
        claimable_amount(deal, earlier, pct) <= claimable_amount(deal, later, pct),
{
    let amount = deal.amount as int;
    let share = capped_share(amount, pct as int);
    lemma_linear_unlock_grows(
        floor_at_zero(amount - share),
        elapsed_since(earlier as int, deal.done_obligation_time as int),
        elapsed_since(later as int, deal.done_obligation_time as int),
        deal.vesting_duration as int,
    );
}

/// The share of `amount` that `pct` percent make.
fn share_of(amount: u64, pct: u8) -> (share: u128)
    ensures
        share == capped_share(amount as int, pct as int),
        pct <= 100 ==> share <= amount,
        share <= 3 * amount,
{
    assert(0 <= amount * pct <= amount * 255 && (pct <= 100 ==> amount * pct <= amount * 100))
        by (nonlinear_arith)
        requires
            0 <= amount,
            0 <= pct <= 255,
    ;
    let product: u128 = amount as u128 * pct as u128;
    product / 100
}

/// What of `total` has unlocked at `now`, the duration running from `since`.
fn unlocked_by_time(total: u64, now: i64, since: i64, duration: i64) -> (unlocked: u64)
    ensures
        unlocked == linear_unlock(
            total as int,
            elapsed_since(now as int, since as int),
            duration as int,
        ),
        unlocked <= total,
{
    let passed: i128 = now as i128 - since as i128;
    let elapsed: i128 = if passed < 0 {
        0
    } else {
        passed
    };
    if elapsed >= duration as i128 {
        total
    } else {
        proof {
            lemma_linear_unlock_bounds(total as int, elapsed as int, duration as int);
            assert(total * duration <= 0xffff_ffff_ffff_ffff * 0x7fff_ffff_ffff_ffff)
                by (nonlinear_arith)
                requires
                    0 <= total <= 0xffff_ffff_ffff_ffff,
                    0 <= duration <= 0x7fff_ffff_ffff_ffff,
            ;
        }
        let product: u128 = total as u128 * elapsed as u128;
        let unlocked: u128 = product / duration as u128;
        unlocked as u64
    }
}

/// What the recipient of `deal` can claim at `current_time`, where
/// `max_claimable_after_obligation` is the share in percent that can be
/// claimed while the recipient is only partially eligible.
///
/// Claiming the result never brings the released amount above the deal's
/// amount.
pub fn calculate_vested_amount(
    deal: &Deal,
    current_time: i64,
    max_claimable_after_obligation: u8,
) -> (claimable: u64)
    ensures
        claimable == claimable_amount(*deal, current_time, max_claimable_after_obligation),
        claimable <= floor_at_zero(deal.amount - deal.released_amount),
{
    let amount: u64 = deal.amount;
    let percent: u8 = max_claimable_after_obligation;
    let vested: u128 = match deal.vesting_type {
        VestingType::NoVesting => match deal.eligibility_status {
            EligibilityStatus::FullyEligible => amount as u128,
            _ => 0,
        },
        VestingType::Marketcap => match deal.eligibility_status {
            EligibilityStatus::NotEligible => 0,
            EligibilityStatus::PartiallyEligible => share_of(amount, percent),
            EligibilityStatus::FullyEligible => amount as u128,
        },
        VestingType::Time => match deal.eligibility_status {
            EligibilityStatus::NotEligible => 0,
            EligibilityStatus::PartiallyEligible => share_of(amount, percent),
            EligibilityStatus::FullyEligible => {
                let share: u128 = share_of(amount, percent);
                let rest: u64 = if share < amount as u128 {
                    (amount as u128 - share) as u64
                } else {
                    0
                };
                let unlocked: u64 = unlocked_by_time(
                    rest,
                    current_time,
                    deal.done_obligation_time,
                    deal.vesting_duration,
                );
                share + unlocked as u128
            },
        },
    };
    let capped: u64 = if vested < amount as u128 {
        vested as u64
    } else {
        amount
    };
    if capped > deal.released_amount {
        capped - deal.released_amount
    } else {
        0
    }
}

} // verus!
