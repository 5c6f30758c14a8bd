//! The records of the ledger: the configuration of a deployment and the deal.

use vstd::prelude::*;
use crate::identity::Identity;

verus! {

/// How the escrowed amount unlocks.
#[derive(Clone, Copy, Debug, PartialEq, Eq, Structural)]
pub enum VestingType {
    /// Linear over `vesting_duration`, from the time the obligation was done.
    Time,
    /// On a milestone that the deal's authorizer attests.
    Marketcap,
    /// All at once, when the recipient is fully eligible.
    NoVesting,
}

/// Where a deal stands in its lifecycle.
#[derive(Clone, Copy, Debug, PartialEq, Eq, Structural)]
pub enum DealStatus {
    /// The amount is in escrow; the recipient has not answered yet.
    Created,
    /// The recipient took the deal; nothing is released yet.
    Accepted,
    /// The recipient declined; the amount went back to the project owner.
    Rejected,
    /// A part of the amount is released.
    PartialCompleted,
    /// The whole amount is released.
    Completed,
    /// One of the parties has called for the admin.
    Disputed,
    /// The admin has split the remaining balance.
    Resolved,
}

/// What the admin has granted the recipient, whatever time has passed.
#[derive(Clone, Copy, Debug, PartialEq, Eq, Structural)]
pub enum EligibilityStatus {
    /// Nothing can be claimed yet.
    NotEligible,
    /// The obligation is done: the capped share can be claimed.
    PartiallyEligible,
    /// Everything that has vested can be claimed.
    FullyEligible,
}

/// The classification of a dispute.
#[derive(Clone, Copy, Debug, PartialEq, Eq, Structural)]
pub enum DisputeReason {
    /// The deal is not in dispute.
    NoDispute,
    Unresolved,
    Other,
}

/// The admin's decision on a disputed deal.
#[derive(Clone, Copy, Debug, PartialEq, Eq, Structural)]
pub enum DisputeResolution {
    /// The whole remaining balance goes to the recipient.
    ReleaseToKol,
    /// The whole remaining balance goes back to the project owner.
    RefundToProjectOwner,
    /// The recipient gets the given amount, the project owner the rest.
    Custom(u64),
}

/// The configuration of one deployment.
#[derive(Clone, Copy, Debug, PartialEq, Eq)]
pub struct Escrow {
    /// Who resolves disputes and sets eligibility.
    pub admin: Identity,
    /// The share of a deal's amount, in percent, that can be claimed while
    /// the recipient is only partially eligible.
    pub max_claimable_after_obligation: u8,
}

impl Escrow {
    /// The share is a percentage: at most 100.
    pub open spec fn wf(&self) -> bool {
        self.max_claimable_after_obligation <= 100
    }
}

/// One escrowed payment, from its creation to its end.
#[derive(Clone, Copy, Debug, PartialEq, Eq)]
pub struct Deal {
    /// The caller's correlation identifier.
    pub order_id: [u8; 16],
    pub project_owner: Identity,
    /// The recipient.
    pub kol: Identity,
    /// The asset that is escrowed.
    pub mint: Identity,
    /// The escrowed total, fixed at creation.
    pub amount: u64,
    /// What has been paid out to the recipient so far.
    pub released_amount: u64,
    pub vesting_type: VestingType,
    /// The span over which time vesting unlocks.
    pub vesting_duration: i64,
    pub start_time: i64,
    pub accept_time: i64,
    /// When the recipient's obligation was marked as done.
    pub done_obligation_time: i64,
    pub status: DealStatus,
    pub eligibility_status: EligibilityStatus,
    pub dispute_reason: DisputeReason,
    /// Who attests the milestone of a deal that vests by market cap.
    pub marketcap_authorizer: Option<Identity>,
}

impl Deal {
    /// No more has been released than was escrowed.
    pub open spec fn wf(&self) -> bool {
        self.released_amount <= self.amount
    }
}

/// The edges along which a deal's status moves: a created deal is accepted
/// or rejected; an accepted deal is disputed, or claimed from until it is
/// completed; a disputed deal is resolved. Rejected, completed and resolved
/// deals stay as they are.
pub open spec fn status_edge(from: DealStatus, to: DealStatus) -> bool {
    match from {
        DealStatus::Created => to == DealStatus::Accepted || to == DealStatus::Rejected,
        DealStatus::Accepted => {
            to == DealStatus::PartialCompleted || to == DealStatus::Completed
                || to == DealStatus::Disputed
        },
        DealStatus::PartialCompleted => {
            to == DealStatus::PartialCompleted || to == DealStatus::Completed
        },
        DealStatus::Disputed => to == DealStatus::Resolved,
        DealStatus::Rejected => false,
        DealStatus::Completed => false,
        DealStatus::Resolved => false,
    }
}

/// The terms that are fixed when a deal is created are the same in `before`
/// and `after`.
pub open spec fn same_terms(before: Deal, after: Deal) -> bool {
    &&& after.order_id == before.order_id
    &&& after.project_owner == before.project_owner
    &&& after.kol == before.kol
    &&& after.mint == before.mint
    &&& after.amount == before.amount
    &&& after.vesting_type == before.vesting_type
    &&& after.vesting_duration == before.vesting_duration
    &&& after.start_time == before.start_time
    &&& after.marketcap_authorizer == before.marketcap_authorizer
}

/// What holds of a deal before and after any operation on it: its terms
/// stay, its status stays or moves along an edge, the released amount does
/// not decrease, and it stays within the deal's amount where it was.
pub open spec fn lawful_step(before: Deal, after: Deal) -> bool {
    &&& same_terms(before, after)
    &&& after.status == before.status || status_edge(before.status, after.status)
    &&& after.released_amount >= before.released_amount
    &&& before.wf() ==> after.wf()
}

/// The amounts that the host has to move out of escrow after an operation.
#[derive(Clone, Copy, Debug, PartialEq, Eq, Structural)]
pub struct Payout {
    pub to_kol: u64,
    pub to_project_owner: u64,
}

} // verus!
