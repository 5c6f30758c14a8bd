//! The creation of a deal.

use vstd::prelude::*;
use crate::error::ErrorCode;
use crate::identity::Identity;
use crate::state::{Deal, DealStatus, DisputeReason, EligibilityStatus, VestingType};

verus! {

/// What is wrong with the authorizer that a new deal names, if anything: a
/// deal that vests by market cap needs one, any other deal takes none.
pub open spec fn create_deal_refusal(
    vesting_type: VestingType,
    marketcap_authorizer: Option<Identity>,
) -> Option<ErrorCode> {
    match vesting_type {
        VestingType::Marketcap => {
            if marketcap_authorizer is None {
                Some(ErrorCode::MissingMarketcapAuthorizer)
            } else {
                None
            }
        },
        _ => {
            if marketcap_authorizer is Some {
                Some(ErrorCode::UnexpectedMarketcapAuthorizer)
            } else {
                None
            }
        },
    }
}

/// The deal as it is created at `now`: nothing released, the recipient not
/// eligible, no dispute.
pub open spec fn created_deal(
    order_id: [u8; 16],
    project_owner: Identity,
    kol: Identity,
    mint: Identity,
    amount: u64,
    vesting_type: VestingType,
    vesting_duration: i64,
    marketcap_authorizer: Option<Identity>,
    now: i64,
) -> Deal {
    Deal {
        order_id,
        project_owner,
        kol,
        mint,
        amount,
        released_amount: 0,
        vesting_type,
        vesting_duration,
        start_time: now,
        accept_time: 0,
        done_obligation_time: 0,
        status: DealStatus::Created,
        eligibility_status: EligibilityStatus::NotEligible,
        dispute_reason: DisputeReason::NoDispute,
        marketcap_authorizer,
    }
}

/// Creates the deal of `project_owner` with `kol` over `amount` of `mint`,
/// at `now`. The host then moves `amount` from the project owner into escrow.
pub fn create_deal(
    order_id: [u8; 16],
    project_owner: Identity,
    kol: Identity,
    mint: Identity,
    amount: u64,
    vesting_type: VestingType,
    vesting_duration: i64,
    marketcap_authorizer: Option<Identity>,
    now: i64,
) -> (r: Result<Deal, ErrorCode>)
    ensures
        match create_deal_refusal(vesting_type, marketcap_authorizer) {
            Some(e) => r == Err::<Deal, ErrorCode>(e),
            None => r == Ok::<Deal, ErrorCode>(
                created_deal(
                    order_id,
                    project_owner,
                    kol,
                    mint,
                    amount,
                    vesting_type,
                    vesting_duration,
                    marketcap_authorizer,
                    now,
                ),
            ),
        },
        r matches Ok(deal) ==> deal.wf(),
{
    match vesting_type {
        VestingType::Marketcap => {
            if marketcap_authorizer.is_none() {
                return Err(ErrorCode::MissingMarketcapAuthorizer);
            }
        },
        _ => {
            if marketcap_authorizer.is_some() {
                return Err(ErrorCode::UnexpectedMarketcapAuthorizer);
            }
        },
    }
    Ok(
        Deal {
            order_id,
            project_owner,
            kol,
            mint,
            amount,
            released_amount: 0,
            vesting_type,
            vesting_duration,
            start_time: now,
            accept_time: 0,
            done_obligation_time: 0,
            status: DealStatus::Created,
            eligibility_status: EligibilityStatus::NotEligible,
            dispute_reason: DisputeReason::NoDispute,
            marketcap_authorizer,
        },
    )
}

} // verus!
