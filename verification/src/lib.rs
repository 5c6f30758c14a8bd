//! Escrow-and-vesting ledger for a payment between a project owner and a
//! recipient (the KOL): the deal record, the rules that decide how much of
//! the escrowed amount the recipient may withdraw, the lifecycle of a deal,
//! and the admin's resolution of a dispute.
//!
//! The library moves no funds and reads no clock. Every operation takes the
//! caller's identity and the current time as plain values, and answers with
//! the amounts that the host has to move. A refused operation changes
//! nothing.

pub mod address;
pub mod authority;
pub mod error;
pub mod identity;
pub mod instructions;
pub mod lifecycle;
pub mod state;
pub mod vesting;

pub use address::{get_deal_address, get_escrow_address, get_vault_address};
pub use error::ErrorCode;
pub use identity::Identity;
pub use instructions::accept_deal::accept_deal;
pub use instructions::check_claimable_amount::check_claimable_amount;
pub use instructions::create_deal::create_deal;
pub use instructions::dispute_deal::dispute_deal;
pub use instructions::initialize::initialize;
pub use instructions::reject_deal::reject_deal;
pub use instructions::release_payment::release_payment;
pub use instructions::resolve_deal::resolve_deal;
pub use instructions::resolve_dispute::resolve_dispute;
pub use instructions::set_eligibility_status::set_eligibility_status;
pub use instructions::update_max_claimable_percentage::update_max_claimable_percentage;
pub use state::{
    Deal, DealStatus, DisputeReason, DisputeResolution, EligibilityStatus, Escrow, Payout,
    VestingType,
};
pub use vesting::calculate_vested_amount;
