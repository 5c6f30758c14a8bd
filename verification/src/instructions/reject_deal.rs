//! The rejection of a deal that was not accepted yet.

use vstd::prelude::*;
use crate::authority::{is_kol_or_admin, signed_by_kol_or_admin};
use crate::error::ErrorCode;
use crate::identity::Identity;
use crate::state::{lawful_step, Deal, DealStatus, Escrow, Payout};

verus! {

/// Why `signer` cannot reject `deal`, if anything stands against it. The
/// caller's role is tested first, then the deal's state.
pub open spec fn reject_refusal(
    deal: Deal,
    escrow: Escrow,
    signer: Identity,
) -> Option<ErrorCode> {
    if !signed_by_kol_or_admin(signer, deal, escrow) {
        Some(ErrorCode::UnauthorizedSigner)
    } else if deal.status != DealStatus::Created {
        Some(ErrorCode::InvalidDealStatus)
    } else {
        None
    }
}

/// The deal after its rejection.
pub open spec fn rejected(deal: Deal) -> Deal {
    Deal { status: DealStatus::Rejected, ..deal }
}

/// What the host has to move after the rejection: the full amount goes back
/// to the project owner.
pub open spec fn refund_payout(deal: Deal) -> Payout {
    Payout { to_kol: 0, to_project_owner: deal.amount }
}

/// Rejects `deal` for its recipient or the admin, and says what the host has
/// to move from escrow back to the project owner: the full amount.
pub fn reject_deal(
    deal: &mut Deal,
    escrow: &Escrow,
    signer: &Identity,
) -> (r: Result<Payout, ErrorCode>)
    ensures
        match reject_refusal(*old(deal), *escrow, *signer) {
            Some(e) => r == Err::<Payout, ErrorCode>(e) && *final(deal) == *old(deal),
            None => {
                &&& r == Ok::<Payout, ErrorCode>(refund_payout(*old(deal)))
                &&& *final(deal) == rejected(*old(deal))
            },
        },
        lawful_step(*old(deal), *final(deal)),
{
    if !is_kol_or_admin(signer, deal, escrow) {
        return Err(ErrorCode::UnauthorizedSigner);
    }
    if deal.status != DealStatus::Created {
        return Err(ErrorCode::InvalidDealStatus);
    }
    deal.status = DealStatus::Rejected;
    Ok(Payout { to_kol: 0, to_project_owner: deal.amount })
}

} // verus!
