//! The admin's update of the recipient's eligibility.

use vstd::prelude::*;
use crate::authority::{is_admin, signed_by_admin};
use crate::error::ErrorCode;
use crate::identity::Identity;
use crate::state::{lawful_step, Deal, EligibilityStatus, Escrow};

verus! {

/// Why `signer` cannot set the eligibility, if anything stands against it:
/// only the admin can, whatever the state of the deal.
pub open spec fn set_eligibility_refusal(escrow: Escrow, signer: Identity) -> Option<ErrorCode> {
    if !signed_by_admin(signer, escrow) {
        Some(ErrorCode::UnauthorizedSigner)
    } else {
        None
    }
}

/// Whether the update marks the obligation as done: the recipient becomes
/// partially eligible and was not fully eligible before.
pub open spec fn marks_obligation_done(deal: Deal, new_status: EligibilityStatus) -> bool {
    new_status == EligibilityStatus::PartiallyEligible
        && deal.eligibility_status != EligibilityStatus::FullyEligible
}

/// The deal after its eligibility was set to `new_status` at `now`. The time
/// at which the obligation was done is taken where the update marks it.
pub open spec fn eligibility_set(deal: Deal, new_status: EligibilityStatus, now: i64) -> Deal {
    Deal {
        eligibility_status: new_status,
        done_obligation_time: if marks_obligation_done(deal, new_status) {
            now
        } else {
            deal.done_obligation_time
        },
        ..deal
    }
}

/// Sets the eligibility of the recipient of `deal` at `now`, for the admin
/// and in any state of the deal.
pub fn set_eligibility_status(
    deal: &mut Deal,
    escrow: &Escrow,
    signer: &Identity,
    new_status: EligibilityStatus,
    now: i64,
) -> (r: Result<(), ErrorCode>)
    ensures
        match set_eligibility_refusal(*escrow, *signer) {
            Some(e) => r == Err::<(), ErrorCode>(e) && *final(deal) == *old(deal),
            None => r is Ok && *final(deal) == eligibility_set(*old(deal), new_status, now),
        },
        lawful_step(*old(deal), *final(deal)),
{
    if !is_admin(signer, escrow) {
        return Err(ErrorCode::UnauthorizedSigner);
    }
    if new_status == EligibilityStatus::PartiallyEligible
        && deal.eligibility_status != EligibilityStatus::FullyEligible {
        deal.done_obligation_time = now;
    }
    deal.eligibility_status = new_status;
    Ok(())
}

} // verus!
