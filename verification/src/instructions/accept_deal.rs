//! The acceptance of a deal.

use vstd::prelude::*;
use crate::authority::{is_kol_or_admin, signed_by_kol_or_admin};
use crate::error::ErrorCode;
use crate::identity::Identity;
use crate::state::{lawful_step, Deal, DealStatus, Escrow};

verus! {

/// Why `signer` cannot accept `deal`, if anything stands against it. The
/// caller's role is tested first, then the deal's state.
pub open spec fn accept_refusal(
    deal: Deal,
    escrow: Escrow,
    signer: Identity,
) -> Option<ErrorCode> {
    if !signed_by_kol_or_admin(signer, deal, escrow) {
        Some(ErrorCode::UnauthorizedSigner)
    } else if deal.status != DealStatus::Created {
        Some(ErrorCode::InvalidDealStatus)
    } else {
        None
    }
}

/// The deal after its acceptance at `now`.
pub open spec fn accepted(deal: Deal, now: i64) -> Deal {
    Deal { status: DealStatus::Accepted, accept_time: now, ..deal }
}

/// Accepts `deal` at `now` for its recipient or the admin.
pub fn accept_deal(
    deal: &mut Deal,
    escrow: &Escrow,
    signer: &Identity,
    now: i64,
) -> (r: Result<(), ErrorCode>)
    ensures
        match accept_refusal(*old(deal), *escrow, *signer) {
            Some(e) => r == Err::<(), ErrorCode>(e) && *final(deal) == *old(deal),
            None => r is Ok && *final(deal) == accepted(*old(deal), now),
        },
        lawful_step(*old(deal), *final(deal)),
{
    if !is_kol_or_admin(signer, deal, escrow) {
        return Err(ErrorCode::UnauthorizedSigner);
    }
    if deal.status != DealStatus::Created {
        return Err(ErrorCode::InvalidDealStatus);
    }
    deal.status = DealStatus::Accepted;
    deal.accept_time = now;
    Ok(())
}

} // verus!
