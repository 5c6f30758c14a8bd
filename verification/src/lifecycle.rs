//! The lifecycle of a deal as a whole: the operations as values, what each
//! makes of a deal, and what holds of every sequence of them.

use vstd::prelude::*;
use crate::error::ErrorCode;
use crate::identity::Identity;
use crate::instructions::accept_deal::{accept_refusal, accepted};
use crate::instructions::dispute_deal::{dispute_refusal, disputed};
use crate::instructions::reject_deal::{refund_payout, reject_refusal, rejected};
use crate::instructions::release_payment::{payment_released, release_refusal};
use crate::instructions::resolve_deal::{claim_payout, resolve_deal_refusal};
use crate::instructions::resolve_dispute::{
    dispute_payout, dispute_resolved, resolve_dispute_refusal,
};
use crate::instructions::set_eligibility_status::{eligibility_set, set_eligibility_refusal};
use crate::state::{
    lawful_step, same_terms, Deal, DealStatus, DisputeReason, DisputeResolution,
    EligibilityStatus, Escrow, Payout,
};
use crate::vesting::claimable_amount;

verus! {

/// A request on a deal, with the caller and the time that it comes with.
pub enum Operation {
    Accept { signer: Identity, now: i64 },
    Reject { signer: Identity },
    Release { signer: Identity, attestation: Option<Identity>, now: i64, amount: u64 },
    Claim { signer: Identity, attestation: Option<Identity>, now: i64 },
    Dispute { signer: Identity, reason: DisputeReason },
    ResolveDispute { signer: Identity, resolution: DisputeResolution },
    SetEligibility { signer: Identity, new_status: EligibilityStatus, now: i64 },
}

/// An operation together with the configuration under which it is asked.
pub struct Step {
    pub escrow: Escrow,
    pub operation: Operation,
}

/// Why the operation is refused on `deal`, if it is.
pub open spec fn refusal(deal: Deal, escrow: Escrow, operation: Operation) -> Option<ErrorCode> {
    match operation {
        Operation::Accept { signer, now } => accept_refusal(deal, escrow, signer),
        Operation::Reject { signer } => reject_refusal(deal, escrow, signer),
        Operation::Release { signer, attestation, now, amount } => release_refusal(
            deal,
            escrow,
            signer,
            attestation,
            now,
            amount,
        ),
        Operation::Claim { signer, attestation, now } => resolve_deal_refusal(
            deal,
            escrow,
            signer,
            attestation,
            now,
        ),
        Operation::Dispute { signer, reason } => dispute_refusal(deal, signer),
        Operation::ResolveDispute { signer, resolution } => resolve_dispute_refusal(
            deal,
            escrow,
            signer,
            resolution,
        ),
        Operation::SetEligibility { signer, new_status, now } => set_eligibility_refusal(
            escrow,
            signer,
        ),
    }
}

/// The deal after the operation, where it is not refused.
pub open spec fn effect(deal: Deal, escrow: Escrow, operation: Operation) -> Deal {
    match operation {
        Operation::Accept { signer, now } => accepted(deal, now),
        Operation::Reject { signer } => rejected(deal),
        Operation::Release { signer, attestation, now, amount } => payment_released(deal, amount),
        Operation::Claim { signer, attestation, now } => payment_released(
            deal,
            claimable_amount(deal, now, escrow.max_claimable_after_obligation) as u64,
        ),
        Operation::Dispute { signer, reason } => disputed(deal, reason),
        Operation::ResolveDispute { signer, resolution } => dispute_resolved(deal, resolution),
        Operation::SetEligibility { signer, new_status, now } => eligibility_set(
            deal,
            new_status,
            now,
        ),
    }
}

/// The deal after the operation was asked for: changed where the operation
/// is carried out, as it was where the operation is refused.
pub open spec fn outcome(deal: Deal, escrow: Escrow, operation: Operation) -> Deal {
    if refusal(deal, escrow, operation) is None {
        effect(deal, escrow, operation)
    } else {
        deal
    }
}

/// What the host has to move out of escrow for the operation: the payout
/// that the operation answers with, and nothing where it is refused or moves
/// no funds.
pub open spec fn payout(deal: Deal, escrow: Escrow, operation: Operation) -> Payout {
    if refusal(deal, escrow, operation) is Some {
        Payout { to_kol: 0, to_project_owner: 0 }
    } else {
        match operation {
            Operation::Reject { signer } => refund_payout(deal),
            Operation::Release { signer, attestation, now, amount } => Payout {
                to_kol: amount,
                to_project_owner: 0,
            },
            Operation::Claim { signer, attestation, now } => claim_payout(
                claimable_amount(deal, now, escrow.max_claimable_after_obligation),
            ),
            Operation::ResolveDispute { signer, resolution } => dispute_payout(deal, resolution),
            _ => Payout { to_kol: 0, to_project_owner: 0 },
        }
    }
}

/// The row of the operation in the table of transitions: the states from
/// which it moves a deal, and the states to which.
pub open spec fn table_row(operation: Operation, from: DealStatus, to: DealStatus) -> bool {
    match operation {
        Operation::Accept { .. } => from == DealStatus::Created && to == DealStatus::Accepted,
        Operation::Reject { .. } => from == DealStatus::Created && to == DealStatus::Rejected,
        Operation::Release { .. } | Operation::Claim { .. } => {
            &&& from == DealStatus::Accepted || from == DealStatus::PartialCompleted
            &&& to == DealStatus::PartialCompleted || to == DealStatus::Completed
        },
        Operation::Dispute { .. } => from == DealStatus::Accepted && to == DealStatus::Disputed,
        Operation::ResolveDispute { .. } => {
            from == DealStatus::Disputed && to == DealStatus::Resolved
        },
        Operation::SetEligibility { .. } => false,
    }
}

/// The deal after the steps, one after the other.
pub open spec fn run(deal: Deal, steps: Seq<Step>) -> Deal
    decreases steps.len(),
{
    if steps.len() == 0 {
        deal
    } else {
        outcome(run(deal, steps.drop_last()), steps.last().escrow, steps.last().operation)
    }
}

/// Every operation, carried out or refused, is a lawful step: the terms of
/// the deal stay, the status stays or moves along an edge, the released
/// amount does not decrease, and it stays within the deal's amount.
pub proof fn operation_is_lawful(deal: Deal, escrow: Escrow, operation: Operation)
    ensures
        lawful_step(deal, outcome(deal, escrow, operation)),
{
}

/// A refused operation changes nothing of the deal, and an operation that
/// is carried out found the deal in a state of its row of the table and
/// moves it as the row says; setting the eligibility moves no status.
pub proof fn status_moves_by_the_table(deal: Deal, escrow: Escrow, operation: Operation)
    ensures
        ({
            let after = outcome(deal, escrow, operation);
            &&& refusal(deal, escrow, operation) is Some ==> after == deal
            &&& refusal(deal, escrow, operation) is None && !(operation is SetEligibility)
                ==> table_row(operation, deal.status, after.status)
            &&& operation is SetEligibility ==> after.status == deal.status
            &&& after.status != deal.status ==> table_row(operation, deal.status, after.status)
        }),
{
}

/// Whatever the operations and in whatever order: a deal that has released
/// no more than its amount never comes to release more, the released amount
/// never decreases from one state to a later one, and the terms stay.
pub proof fn run_is_lawful(deal: Deal, steps: Seq<Step>, i: int, j: int)
    requires
        0 <= i <= j <= steps.len(),
    ensures
        deal.wf() ==> run(deal, steps.take(j)).wf(),
        run(deal, steps.take(i)).released_amount <= run(deal, steps.take(j)).released_amount,
        same_terms(deal, run(deal, steps.take(j))),
    decreases j,
{
    if j > 0 {
        let before = steps.take(j - 1);
        let last = steps.take(j).last();
        assert(steps.take(j).drop_last() =~= before);
        run_is_lawful(deal, steps, if i < j { i } else { j - 1 }, j - 1);
        operation_is_lawful(run(deal, before), last.escrow, last.operation);
    }
}

/// Everything that has left escrow after the steps, to either party.
pub open spec fn paid_out(deal: Deal, steps: Seq<Step>) -> int
    decreases steps.len(),
{
    if steps.len() == 0 {
        0
    } else {
        let before = run(deal, steps.drop_last());
        let moved = payout(before, steps.last().escrow, steps.last().operation);
        paid_out(deal, steps.drop_last()) + moved.to_kol + moved.to_project_owner
    }
}

/// How what has left escrow goes with the state of a deal that holds
/// `amount`: nothing before the first claim and during a dispute, what was
/// released while claims go on, and the whole amount once the deal is
/// rejected, completed or resolved.
pub open spec fn books_balance(deal: Deal, paid: int) -> bool {
    match deal.status {
        DealStatus::Created => deal.released_amount == 0 && paid == 0,
        DealStatus::Accepted => deal.released_amount == 0 && paid == 0,
        DealStatus::Disputed => deal.released_amount == 0 && paid == 0,
        DealStatus::PartialCompleted => paid == deal.released_amount < deal.amount,
        DealStatus::Completed => paid == deal.released_amount == deal.amount,
        DealStatus::Rejected => deal.released_amount == 0 && paid == deal.amount,
        DealStatus::Resolved => deal.released_amount <= deal.amount && paid == deal.amount,
    }
}

/// The escrow stays solvent. From the creation of a deal on, whatever the
/// operations and in whatever order, no more leaves escrow than the deal's
/// amount that went in; and once the deal is rejected, completed or
/// resolved, exactly that amount has left it.
pub proof fn escrow_stays_solvent(deal: Deal, steps: Seq<Step>)
    requires
        deal.status == DealStatus::Created,
        deal.released_amount == 0,
    ensures
        books_balance(run(deal, steps), paid_out(deal, steps)),
        run(deal, steps).amount == deal.amount,
        0 <= paid_out(deal, steps) <= deal.amount,
        ({
            let status = run(deal, steps).status;
            status == DealStatus::Rejected || status == DealStatus::Completed || status
                == DealStatus::Resolved
        }) ==> paid_out(deal, steps) == deal.amount,
    decreases steps.len(),
{
    if steps.len() > 0 {
        escrow_stays_solvent(deal, steps.drop_last());
    }
}

} // verus!
