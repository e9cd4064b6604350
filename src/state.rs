//! The auction's persistent state, its abstract model, and the invariant
//! that every accepted call keeps.
use vstd::prelude::*;
use crate::ledger::AddrMap;

verus! {

/// The fee, in the smallest unit of the accepted denomination, charged on
/// every accepted bid (half a token).
pub const CONTRACT_COMMISSION: u128 = 500_000;

/// The denomination accepted when none is given at instantiation.
pub open spec fn default_denom() -> Seq<char> {
    seq!['u', 'a', 't', 'o', 'm']
}

/// An amount of one denomination, as attached to a call.
#[derive(Debug, Clone, PartialEq, Eq)]
pub struct Coin {
    pub denom: String,
    pub amount: u128,
}

/// A transfer that the host is asked to carry out once the call is applied.
#[derive(Debug, Clone, PartialEq, Eq)]
pub struct BankSend {
    pub to_address: String,
    pub denom: String,
    pub amount: u128,
}

/// The value of an observability attribute.
#[derive(Debug, Clone, PartialEq, Eq)]
pub enum AttrValue {
    Text(String),
    Amount(u128),
}

#[derive(Debug, Clone, PartialEq, Eq)]
pub struct Attribute {
    pub key: String,
    pub value: AttrValue,
}

/// What an accepted call hands back: transfers, in order, and attributes.
#[derive(Debug, Clone, PartialEq, Eq)]
pub struct Response {
    pub messages: Vec<BankSend>,
    pub attributes: Vec<Attribute>,
}

/// A transfer as (recipient, denomination, amount).
pub open spec fn send_view(m: BankSend) -> (Seq<char>, Seq<char>, u128) {
    (m.to_address@, m.denom@, m.amount)
}

impl Response {
    pub open spec fn sends(self) -> Seq<(Seq<char>, Seq<char>, u128)> {
        self.messages@.map_values(|m: BankSend| send_view(m))
    }
}

pub open spec fn opt_view(o: Option<String>) -> Option<Seq<char>> {
    match o {
        Some(s) => Some(s@),
        None => None,
    }
}

/// Total amount of `denom` among `funds`.
pub open spec fn sum_denom(funds: Seq<Coin>, denom: Seq<char>) -> int
    decreases funds.len(),
{
    if funds.len() == 0 {
        0
    } else {
        sum_denom(funds.drop_last(), denom) + if funds.last().denom@ == denom {
            funds.last().amount as int
        } else {
            0
        }
    }
}

/// A ledger entry, or zero where there is none.
pub open spec fn amount_or_zero(m: Map<Seq<char>, u128>, a: Seq<char>) -> int {
    if m.contains_key(a) {
        m[a] as int
    } else {
        0
    }
}

/// The abstract auction: addresses as character sequences, ledgers as maps.
pub struct AuctionView {
    pub owner: Seq<char>,
    pub denom: Seq<char>,
    pub closed: bool,
    pub winner: Option<Seq<char>>,
    pub highest_bidder: Option<Seq<char>>,
    /// Cumulative principal by address.
    pub bids: Map<Seq<char>, u128>,
    /// Cumulative commission by address.
    pub commissions: Map<Seq<char>, u128>,
    /// Addresses that have already retracted.
    pub retracted: Set<Seq<char>>,
}

impl AuctionView {
    /// Principal of the current highest bidder, zero when there is none.
    pub open spec fn highest_bid(self) -> int {
        match self.highest_bidder {
            Some(h) => amount_or_zero(self.bids, h),
            None => 0,
        }
    }

    /// What holds after every accepted call.
    pub open spec fn inv(self) -> bool {
        &&& !self.bids.contains_key(self.owner)
        &&& match self.highest_bidder {
            Some(h) => {
                &&& self.bids.contains_key(h)
                &&& forall|a: Seq<char>|
                    #[trigger] self.bids.contains_key(a) && a != h ==> self.bids[a] < self.bids[h]
            },
            None => self.bids.dom() == Set::<Seq<char>>::empty(),
        }
        &&& !self.closed ==> self.winner is None && self.retracted == Set::<Seq<char>>::empty()
        &&& self.closed ==> self.winner is Some && self.winner == self.highest_bidder
    }
}

/// The auction's state as the host stores it between calls.
pub struct AuctionState {
    pub owner: String,
    pub denom: String,
    pub closed: bool,
    pub winner: Option<String>,
    pub highest_bidder: Option<String>,
    pub bids: AddrMap<u128>,
    pub commissions: AddrMap<u128>,
    pub retracted: AddrMap<()>,
}

impl View for AuctionState {
    type V = AuctionView;

    open spec fn view(&self) -> AuctionView {
        AuctionView {
            owner: self.owner@,
            denom: self.denom@,
            closed: self.closed,
            winner: opt_view(self.winner),
            highest_bidder: opt_view(self.highest_bidder),
            bids: self.bids@,
            commissions: self.commissions@,
            retracted: self.retracted@.dom(),
        }
    }
}

impl AuctionState {
    /// The ledgers are well formed.
    pub open spec fn wf(&self) -> bool {
        &&& self.bids.wf()
        &&& self.commissions.wf()
        &&& self.retracted.wf()
    }
}

} // verus!
