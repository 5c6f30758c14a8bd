//! The admin's update of the share that the obligation alone unlocks.

use vstd::prelude::*;
use crate::authority::{is_admin, signed_by_admin};
use crate::error::ErrorCode;
use crate::identity::Identity;
use crate::state::Escrow;

verus! {

/// Why `signer` cannot set the percentage to `new_percentage`, if anything
/// stands against it. The caller's role is tested first, then the value.
pub open spec fn update_percentage_refusal(
    escrow: Escrow,
    signer: Identity,
    new_percentage: u8,
) -> Option<ErrorCode> {
    if !signed_by_admin(signer, escrow) {
        Some(ErrorCode::UnauthorizedSigner)
    } else if new_percentage > 100 {
        Some(ErrorCode::InvalidPercentage)
    } else {
        None
    }
}

/// The configuration with the percentage set to `new_percentage`.
pub open spec fn percentage_updated(escrow: Escrow, new_percentage: u8) -> Escrow {
    Escrow { max_claimable_after_obligation: new_percentage, ..escrow }
}

/// Sets the share, in percent of a deal's amount, that can be claimed while
/// the recipient is only partially eligible. It holds for every claim that
/// is computed afterwards; what was released stays released.
pub fn update_max_claimable_percentage(
    escrow: &mut Escrow,
    signer: &Identity,
    new_percentage: u8,
) -> (r: Result<(), ErrorCode>)
    ensures
        match update_percentage_refusal(*old(escrow), *signer, new_percentage) {
            Some(e) => r == Err::<(), ErrorCode>(e) && *final(escrow) == *old(escrow),
            None => r is Ok && *final(escrow) == percentage_updated(*old(escrow), new_percentage),
        },
        r is Ok || old(escrow).wf() ==> final(escrow).wf(),
{
    if !is_admin(signer, escrow) {
        return Err(ErrorCode::UnauthorizedSigner);
    }
    if new_percentage > 100 {
        return Err(ErrorCode::InvalidPercentage);
    }
    escrow.max_claimable_after_obligation = new_percentage;
    Ok(())
}

} // verus!
