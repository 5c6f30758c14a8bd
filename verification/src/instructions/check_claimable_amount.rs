//! The question of how much can be claimed, which changes nothing.

use vstd::prelude::*;
use crate::state::{Deal, Escrow};
use crate::vesting::{calculate_vested_amount, claimable_amount, floor_at_zero};

verus! {

/// What the recipient of `deal` can claim at `now` under the configuration
/// `escrow`. The answer depends on the three arguments alone, and asking
/// changes none of them.
pub fn check_claimable_amount(deal: &Deal, escrow: &Escrow, now: i64) -> (claimable: u64)
    ensures
        claimable == claimable_amount(*deal, now, escrow.max_claimable_after_obligation),
        claimable <= floor_at_zero(deal.amount - deal.released_amount),
{
    calculate_vested_amount(deal, now, escrow.max_claimable_after_obligation)
}

} // verus!
