//! The recipient's claim of everything that can be claimed.

use vstd::prelude::*;
use crate::error::ErrorCode;
use crate::identity::Identity;
use crate::instructions::release_payment::{
    book_release, check_claim, claim_refusal, payment_released,
};
use crate::state::{lawful_step, Deal, Escrow, Payout};
use crate::vesting::{calculate_vested_amount, claimable_amount};

verus! {

/// Why `signer` cannot claim from `deal` at `now`, if anything stands against
/// it: what stands against any claim, or that nothing can be claimed.
pub open spec fn resolve_deal_refusal(
    deal: Deal,
    escrow: Escrow,
    signer: Identity,
    attestation: Option<Identity>,
    now: i64,
) -> Option<ErrorCode> {
    if claim_refusal(deal, escrow, signer, attestation) is Some {
        claim_refusal(deal, escrow, signer, attestation)
    } else if claimable_amount(deal, now, escrow.max_claimable_after_obligation) == 0 {
        Some(ErrorCode::ExceedsVestedAmount)
    } else {
        None
    }
}

/// What the host has to move after a claim of `claimed`: all of it goes to
/// the recipient.
pub open spec fn claim_payout(claimed: int) -> Payout {
    Payout { to_kol: claimed as u64, to_project_owner: 0 }
}

/// Claims for the recipient of `deal` everything that can be claimed at
/// `now`, and says what the host has to move from escrow to the recipient.
///
/// `attestation` is the identity that co-signs the claim as the authorizer
/// of a deal that vests by market cap.
pub fn resolve_deal(
    deal: &mut Deal,
    escrow: &Escrow,
    signer: &Identity,
    attestation: Option<Identity>,
    now: i64,
) -> (r: Result<Payout, ErrorCode>)
    ensures
        match resolve_deal_refusal(*old(deal), *escrow, *signer, attestation, now) {
            Some(e) => r == Err::<Payout, ErrorCode>(e) && *final(deal) == *old(deal),
            None => {
                let claimed = claimable_amount(
                    *old(deal),
                    now,
                    escrow.max_claimable_after_obligation,
                );
                &&& r == Ok::<Payout, ErrorCode>(claim_payout(claimed))
                &&& *final(deal) == payment_released(*old(deal), claimed as u64)
            },
        },
        r matches Ok(payout) ==> payout.to_kol > 0
            && final(deal).released_amount == old(deal).released_amount + payout.to_kol,
        lawful_step(*old(deal), *final(deal)),
{
    match check_claim(deal, escrow, signer, &attestation) {
        Err(e) => {
            return Err(e);
        },
        Ok(_) => {},
    }
    let claimable: u64 = calculate_vested_amount(deal, now, escrow.max_claimable_after_obligation);
    if claimable == 0 {
        return Err(ErrorCode::ExceedsVestedAmount);
    }
    book_release(deal, claimable);
    Ok(Payout { to_kol: claimable, to_project_owner: 0 })
}

} // verus!
