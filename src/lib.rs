//! A single-item auction: participants send tokens as bids, the highest
//! cumulative principal wins, a fixed commission is taken per accepted bid,
//! and after the auction closes every other bidder may reclaim its principal.
pub mod contract;
pub mod error;
pub mod laws;
pub mod ledger;
pub mod msg;
pub mod state;
