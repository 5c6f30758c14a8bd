//! The release of a requested amount to the recipient.

use vstd::prelude::*;
use crate::authority::{is_kol_or_admin, signed_by_kol_or_admin};
use crate::error::ErrorCode;
use crate::identity::Identity;
use crate::state::{lawful_step, Deal, DealStatus, Escrow, VestingType};
use crate::vesting::{calculate_vested_amount, claimable_amount};

verus! {

/// The deal is in a state from which the recipient can claim.
pub open spec fn open_to_claims(deal: Deal) -> bool {
    deal.status == DealStatus::Accepted || deal.status == DealStatus::PartialCompleted
}

/// What is wrong with the attestation that comes with a claim, if anything.
/// A deal that vests by market cap needs the attestation of its authorizer;
/// any other deal takes none.
pub open spec fn attestation_refusal(
    deal: Deal,
    attestation: Option<Identity>,
) -> Option<ErrorCode> {
    match deal.vesting_type {
        VestingType::Marketcap => match attestation {
            None => Some(ErrorCode::MissingMarketcapAuthorizer),
            Some(attestor) => {
                if deal.marketcap_authorizer is Some
                    && deal.marketcap_authorizer->0@ == attestor@ {
                    None
                } else {
                    Some(ErrorCode::InvalidMarketcapAuthorizer)
                }
            },
        },
        _ => {
            if attestation is Some {
                Some(ErrorCode::UnexpectedMarketcapAuthorizer)
            } else {
                None
            }
        },
    }
}

/// Why `signer` cannot claim from `deal` at all, if anything stands against
/// it. The caller's role is tested first, then the deal's state, then the
/// attestation.
pub open spec fn claim_refusal(
    deal: Deal,
    escrow: Escrow,
    signer: Identity,
    attestation: Option<Identity>,
) -> Option<ErrorCode> {
    if !signed_by_kol_or_admin(signer, deal, escrow) {
        Some(ErrorCode::UnauthorizedSigner)
    } else if !open_to_claims(deal) {
        Some(ErrorCode::InvalidDealStatus)
    } else {
        attestation_refusal(deal, attestation)
    }
}

/// Why `amount` cannot be released from `deal` at `now`, if anything stands
/// against it: what stands against any claim, or an amount that is nothing or
/// more than can be claimed.
pub open spec fn release_refusal(
    deal: Deal,
    escrow: Escrow,
    signer: Identity,
    attestation: Option<Identity>,
    now: i64,
    amount: u64,
) -> Option<ErrorCode> {
    if claim_refusal(deal, escrow, signer, attestation) is Some {
        claim_refusal(deal, escrow, signer, attestation)
    } else if amount == 0
        || amount > claimable_amount(deal, now, escrow.max_claimable_after_obligation) {
        Some(ErrorCode::ExceedsVestedAmount)
    } else {
        None
    }
}

/// The deal after `amount` was released to the recipient: completed once
/// everything is released, partially completed before.
pub open spec fn payment_released(deal: Deal, amount: u64) -> Deal {
    Deal {
        released_amount: (deal.released_amount + amount) as u64,
        status: if deal.released_amount + amount >= deal.amount {
            DealStatus::Completed
        } else {
            DealStatus::PartialCompleted
        },
        ..deal
    }
}

/// Tests what stands against any claim from `deal` by `signer`.
pub(crate) fn check_claim(
    deal: &Deal,
    escrow: &Escrow,
    signer: &Identity,
    attestation: &Option<Identity>,
) -> (r: Result<(), ErrorCode>)
    ensures
        match claim_refusal(*deal, *escrow, *signer, *attestation) {
            Some(e) => r == Err::<(), ErrorCode>(e),
            None => r is Ok,
        },
{
    if !is_kol_or_admin(signer, deal, escrow) {
        return Err(ErrorCode::UnauthorizedSigner);
    }
    if !(deal.status == DealStatus::Accepted || deal.status == DealStatus::PartialCompleted) {
        return Err(ErrorCode::InvalidDealStatus);
    }
    match deal.vesting_type {
        VestingType::Marketcap => match attestation {
            None => Err(ErrorCode::MissingMarketcapAuthorizer),
            Some(attestor) => match &deal.marketcap_authorizer {
                None => Err(ErrorCode::InvalidMarketcapAuthorizer),
                Some(authorizer) => {
                    if authorizer.same(attestor) {
                        Ok(())
                    } else {
                        Err(ErrorCode::InvalidMarketcapAuthorizer)
                    }
                },
            },
        },
        _ => match attestation {
            Some(_) => Err(ErrorCode::UnexpectedMarketcapAuthorizer),
            None => Ok(()),
        },
    }
}

/// Books the release of `amount` to the recipient.
pub(crate) fn book_release(deal: &mut Deal, amount: u64)
    requires
        old(deal).released_amount + amount <= u64::MAX,
    ensures
        *final(deal) == payment_released(*old(deal), amount),
{
    deal.released_amount = deal.released_amount + amount;
    if deal.released_amount >= deal.amount {
        deal.status = DealStatus::Completed;
    } else {
        deal.status = DealStatus::PartialCompleted;
    }
}

/// Releases `amount` to the recipient of `deal`, where the recipient or the
/// admin asks for it at `now` and the amount is something, and no more than
/// can be claimed. The host then moves `amount` from escrow to the recipient.
///
/// `attestation` is the identity that co-signs the claim as the authorizer
/// of a deal that vests by market cap.
pub fn release_payment(
    deal: &mut Deal,
    escrow: &Escrow,
    signer: &Identity,
    attestation: Option<Identity>,
    now: i64,
    amount: u64,
) -> (r: Result<(), ErrorCode>)
    ensures
        match release_refusal(*old(deal), *escrow, *signer, attestation, now, amount) {
            Some(e) => r == Err::<(), ErrorCode>(e) && *final(deal) == *old(deal),
            None => r is Ok && *final(deal) == payment_released(*old(deal), amount),
        },
        r is Ok ==> final(deal).released_amount == old(deal).released_amount + amount,
        lawful_step(*old(deal), *final(deal)),
{
    match check_claim(deal, escrow, signer, &attestation) {
        Err(e) => {
            return Err(e);
        },
        Ok(_) => {},
    }
    let claimable: u64 = calculate_vested_amount(deal, now, escrow.max_claimable_after_obligation);
    if amount == 0 || amount > claimable {
        return Err(ErrorCode::ExceedsVestedAmount);
    }
    book_release(deal, amount);
    Ok(())
}

} // verus!
