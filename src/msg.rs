//! The calls that the auction answers, as plain values.
use vstd::prelude::*;

verus! {

/// Starts an auction. A missing owner means the caller; a missing
/// denomination means the default native one.
#[derive(Debug, Clone, PartialEq, Eq)]
pub struct BidInstantiateMsg {
    pub owner: Option<String>,
    pub denom: Option<String>,
}

#[derive(Debug, Clone, PartialEq, Eq)]
pub enum BidExecuteMsg {
    Bid {},
    Close {},
    /// `receiver` is an address already checked by the host.
    Retract { receiver: Option<String> },
}

#[derive(Debug, Clone, PartialEq, Eq)]
pub enum BidQueryMsg {
    GetOwner {},
    GetDenom {},
    BidForAddress { address: String },
    BidClosed {},
    HighestBid {},
    HighestBidder {},
    BidWinner,
}

#[derive(Debug, Clone, PartialEq, Eq)]
pub struct BidMigrateMsg {}

} // verus!
