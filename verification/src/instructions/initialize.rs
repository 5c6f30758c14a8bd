//! The bootstrap of a deployment.

use vstd::prelude::*;
use crate::error::ErrorCode;
use crate::identity::Identity;
use crate::state::Escrow;

verus! {

/// Why the deployment cannot start with this percentage, if anything stands
/// against it.
pub open spec fn initialize_refusal(max_claimable_after_obligation: u8) -> Option<ErrorCode> {
    if max_claimable_after_obligation > 100 {
        Some(ErrorCode::InvalidPercentage)
    } else {
        None
    }
}

/// The configuration with which a deployment starts.
pub open spec fn initial_configuration(
    admin: Identity,
    max_claimable_after_obligation: u8,
) -> Escrow {
    Escrow { admin, max_claimable_after_obligation }
}

/// The configuration of a deployment whose admin is `admin`, with the share
/// in percent that can be claimed while a recipient is only partially
/// eligible. A percentage above 100 is refused.
pub fn initialize(
    admin: Identity,
    max_claimable_after_obligation: u8,
) -> (r: Result<Escrow, ErrorCode>)
    ensures
        match initialize_refusal(max_claimable_after_obligation) {
            Some(e) => r == Err::<Escrow, ErrorCode>(e),
            None => r == Ok::<Escrow, ErrorCode>(
                initial_configuration(admin, max_claimable_after_obligation),
            ),
        },
        r matches Ok(escrow) ==> escrow.wf(),
{
    if max_claimable_after_obligation > 100 {
        return Err(ErrorCode::InvalidPercentage);
    }
    Ok(Escrow { admin, max_claimable_after_obligation })
}

} // verus!
