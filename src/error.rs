//! The ways a call on the auction can be refused.
use vstd::prelude::*;

verus! {

/// Every refusal aborts the call with no effect on the state.
#[derive(Debug, Clone, PartialEq, Eq)]
pub enum BidError {
    /// A failure reported by the host: a malformed address, missing data.
    Std(String),
    /// An amount left the range of 128-bit token amounts.
    Overflow,
    OwnerCannotBid,
    NotEnoughCoinForCommission,
    BidTooLow,
    BidClosed,
    BidAlreadyClosed,
    BidNotClosed,
    OnlyOwnerCanClose,
    NoBidPresent,
    /// Reserved: no operation raises it.
    InvalidHighestBidder,
    BidWinner,
    RetractAlreadyDone,
}

} // verus!
