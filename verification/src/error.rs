//! The reasons for which an operation is refused.

use vstd::prelude::*;

verus! {

/// Why an operation was refused. A refused operation leaves the deal and the
/// configuration as they were.
#[derive(Clone, Copy, Debug, PartialEq, Eq, Structural)]
pub enum ErrorCode {
    /// The operation was attempted outside its legal source state.
    InvalidDealStatus,
    /// The caller has not the identity or role that the operation asks for.
    UnauthorizedSigner,
    /// Nothing can be claimed, or more was asked for than can be claimed.
    ExceedsVestedAmount,
    /// A deal vesting by market cap needs an authorizer, and none was given.
    MissingMarketcapAuthorizer,
    /// An authorizer was given where the vesting type has no use for one.
    UnexpectedMarketcapAuthorizer,
    /// The attestation comes from another identity than the deal's authorizer.
    InvalidMarketcapAuthorizer,
    /// The percentage lies outside 0 to 100.
    InvalidPercentage,
    /// The recipient's share of a custom split exceeds the remaining balance.
    InvalidCustomAmount,
}

} // verus!
