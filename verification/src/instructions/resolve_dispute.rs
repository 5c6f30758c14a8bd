//! The admin's resolution of a disputed deal.

use vstd::prelude::*;
use crate::authority::{is_admin, signed_by_admin};
use crate::error::ErrorCode;
use crate::identity::Identity;
use crate::state::{lawful_step, Deal, DealStatus, DisputeResolution, Escrow, Payout};
use crate::vesting::floor_at_zero;

verus! {

/// What the escrow still holds of the deal: the amount less what was released.
pub open spec fn remaining_balance(deal: Deal) -> int {
    floor_at_zero(deal.amount - deal.released_amount)
}

/// The recipient's part of the remaining balance under `resolution`.
pub open spec fn kol_share(deal: Deal, resolution: DisputeResolution) -> int {
    match resolution {
        DisputeResolution::ReleaseToKol => remaining_balance(deal),
        DisputeResolution::RefundToProjectOwner => 0,
        DisputeResolution::Custom(kol_amount) => kol_amount as int,
    }
}

/// Why `signer` cannot resolve the dispute over `deal` in this way, if
/// anything stands against it. The caller's role is tested first, then the
/// deal's state, then the split.
pub open spec fn resolve_dispute_refusal(
    deal: Deal,
    escrow: Escrow,
    signer: Identity,
    resolution: DisputeResolution,
) -> Option<ErrorCode> {
    if !signed_by_admin(signer, escrow) {
        Some(ErrorCode::UnauthorizedSigner)
    } else if deal.status != DealStatus::Disputed {
        Some(ErrorCode::InvalidDealStatus)
    } else if kol_share(deal, resolution) > remaining_balance(deal) {
        Some(ErrorCode::InvalidCustomAmount)
    } else {
        None
    }
}

/// The amounts that leave escrow under `resolution`: together they are the
/// whole remaining balance.
pub open spec fn dispute_payout(deal: Deal, resolution: DisputeResolution) -> Payout {
    Payout {
        to_kol: kol_share(deal, resolution) as u64,
        to_project_owner: (remaining_balance(deal) - kol_share(deal, resolution)) as u64,
    }
}

/// The deal after its dispute was resolved: what went to the recipient counts
/// as released, what went back to the project owner does not.
pub open spec fn dispute_resolved(deal: Deal, resolution: DisputeResolution) -> Deal {
    Deal {
        released_amount: (deal.released_amount + kol_share(deal, resolution)) as u64,
        status: DealStatus::Resolved,
        ..deal
    }
}

/// The three resolutions, for a deal that has released no more than its
/// amount and a split within the remaining balance. A release hands the
/// whole remaining balance to the recipient, and the deal has then released
/// its whole amount. A refund hands it to the project owner and leaves the
/// released amount as it was. A custom split hands the recipient the given
/// amount, which counts as released, and the project owner the rest.
pub proof fn resolution_by_mode(deal: Deal, resolution: DisputeResolution)
    requires
        deal.wf(),
        kol_share(deal, resolution) <= remaining_balance(deal),
    ensures
        ({
            let remaining = deal.amount - deal.released_amount;
            let payout = dispute_payout(deal, resolution);
            let released = dispute_resolved(deal, resolution).released_amount;
            match resolution {
                DisputeResolution::ReleaseToKol => {
                    &&& payout.to_kol == remaining
                    &&& payout.to_project_owner == 0
                    &&& released == deal.amount
                },
                DisputeResolution::RefundToProjectOwner => {
                    &&& payout.to_kol == 0
                    &&& payout.to_project_owner == remaining
                    &&& released == deal.released_amount
                },
                DisputeResolution::Custom(kol_amount) => {
                    &&& payout.to_kol == kol_amount
                    &&& payout.to_project_owner == remaining - kol_amount
                    &&& released == deal.released_amount + kol_amount
                },
            }
        }),
{
}

/// Resolves the dispute over `deal` as the admin decided, and says what the
/// host has to move out of escrow: the recipient's part and the project
/// owner's part, which together are the whole remaining balance.
pub fn resolve_dispute(
    deal: &mut Deal,
    escrow: &Escrow,
    signer: &Identity,
    resolution: DisputeResolution,
) -> (r: Result<Payout, ErrorCode>)
    ensures
        match resolve_dispute_refusal(*old(deal), *escrow, *signer, resolution) {
            Some(e) => r == Err::<Payout, ErrorCode>(e) && *final(deal) == *old(deal),
            None => {
                &&& r == Ok::<Payout, ErrorCode>(dispute_payout(*old(deal), resolution))
                &&& *final(deal) == dispute_resolved(*old(deal), resolution)
            },
        },
        r matches Ok(payout) ==> {
            &&& payout.to_kol + payout.to_project_owner == remaining_balance(*old(deal))
            &&& final(deal).released_amount == old(deal).released_amount + payout.to_kol
        },
        lawful_step(*old(deal), *final(deal)),
{
    if !is_admin(signer, escrow) {
        return Err(ErrorCode::UnauthorizedSigner);
    }
    if deal.status != DealStatus::Disputed {
        return Err(ErrorCode::InvalidDealStatus);
    }
    let remaining: u64 = if deal.amount > deal.released_amount {
        deal.amount - deal.released_amount
    } else {
        0
    };
    let to_kol: u64 = match resolution {
        DisputeResolution::ReleaseToKol => remaining,
        DisputeResolution::RefundToProjectOwner => 0,
        DisputeResolution::Custom(kol_amount) => {
            if kol_amount > remaining {
                return Err(ErrorCode::InvalidCustomAmount);
            }
            kol_amount
        },
    };
    deal.released_amount = deal.released_amount + to_kol;
    deal.status = DealStatus::Resolved;
    Ok(Payout { to_kol, to_project_owner: remaining - to_kol })
}

} // verus!
