//! The operations on a deal and on the configuration, one to a file.

pub mod accept_deal;
pub mod check_claimable_amount;
pub mod create_deal;
pub mod dispute_deal;
pub mod initialize;
pub mod reject_deal;
pub mod release_payment;
pub mod resolve_deal;
pub mod resolve_dispute;
pub mod set_eligibility_status;
pub mod update_max_claimable_percentage;
