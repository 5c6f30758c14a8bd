//! The opening of a dispute over an accepted deal.

use vstd::prelude::*;
use crate::authority::{is_owner_or_kol, signed_by_owner_or_kol};
use crate::error::ErrorCode;
use crate::identity::Identity;
use crate::state::{lawful_step, Deal, DealStatus, DisputeReason};

verus! {

/// Why `signer` cannot dispute `deal`, if anything stands against it. The
/// caller's role is tested first, then the deal's state.
pub open spec fn dispute_refusal(deal: Deal, signer: Identity) -> Option<ErrorCode> {
    if !signed_by_owner_or_kol(signer, deal) {
        Some(ErrorCode::UnauthorizedSigner)
    } else if deal.status != DealStatus::Accepted {
        Some(ErrorCode::InvalidDealStatus)
    } else {
        None
    }
}

/// The deal after it was disputed for `reason`.
pub open spec fn disputed(deal: Deal, reason: DisputeReason) -> Deal {
    Deal { status: DealStatus::Disputed, dispute_reason: reason, ..deal }
}

/// Opens a dispute over `deal` for one of its two parties.
pub fn dispute_deal(
    deal: &mut Deal,
    signer: &Identity,
    reason: DisputeReason,
) -> (r: Result<(), ErrorCode>)
    ensures
        match dispute_refusal(*old(deal), *signer) {
            Some(e) => r == Err::<(), ErrorCode>(e) && *final(deal) == *old(deal),
            None => r is Ok && *final(deal) == disputed(*old(deal), reason),
        },
        lawful_step(*old(deal), *final(deal)),
{
    if !is_owner_or_kol(signer, deal) {
        return Err(ErrorCode::UnauthorizedSigner);
    }
    if deal.status != DealStatus::Accepted {
        return Err(ErrorCode::InvalidDealStatus);
    }
    deal.status = DealStatus::Disputed;
    deal.dispute_reason = reason;
    Ok(())
}

} // verus!
