//! Who may ask for what. The host verifies the caller's signature and hands
//! over the caller's identity; the roles are decided here.

use vstd::prelude::*;
use crate::identity::Identity;
use crate::state::{Deal, Escrow};

verus! {

/// The caller is the deployment's admin.
pub open spec fn signed_by_admin(signer: Identity, escrow: Escrow) -> bool {
    signer@ == escrow.admin@
}

/// The caller is the deal's recipient or the admin.
pub open spec fn signed_by_kol_or_admin(signer: Identity, deal: Deal, escrow: Escrow) -> bool {
    signer@ == deal.kol@ || signer@ == escrow.admin@
}

/// The caller is one of the deal's two parties.
pub open spec fn signed_by_owner_or_kol(signer: Identity, deal: Deal) -> bool {
    signer@ == deal.project_owner@ || signer@ == deal.kol@
}

/// Whether `signer` is the admin of `escrow`.
pub fn is_admin(signer: &Identity, escrow: &Escrow) -> (r: bool)
    ensures
        r == signed_by_admin(*signer, *escrow),
{
    signer.same(&escrow.admin)
}

/// Whether `signer` is the recipient of `deal` or the admin of `escrow`.
pub fn is_kol_or_admin(signer: &Identity, deal: &Deal, escrow: &Escrow) -> (r: bool)
    ensures
        r == signed_by_kol_or_admin(*signer, *deal, *escrow),
{
    signer.same(&deal.kol) || signer.same(&escrow.admin)
}

/// Whether `signer` is the project owner or the recipient of `deal`.
pub fn is_owner_or_kol(signer: &Identity, deal: &Deal) -> (r: bool)
    ensures
        r == signed_by_owner_or_kol(*signer, *deal),
{
    signer.same(&deal.project_owner) || signer.same(&deal.kol)
}

} // verus!
