//! The auction state machine: instantiation, bidding, closing, retraction,
//! and the read-only queries over its state.
use vstd::prelude::*;
use crate::error::BidError;
use crate::ledger::AddrMap;
use crate::msg::{BidExecuteMsg, BidInstantiateMsg, BidQueryMsg};
use crate::state::{
    default_denom, opt_view, amount_or_zero, sum_denom, AttrValue, Attribute, AuctionState, AuctionView, BankSend, Coin,
    Response, CONTRACT_COMMISSION,
};

verus! {

broadcast use vstd::string::to_string_from_display_ensures_for_str;

/// Principal that `sender` holds after a bid with `funds`: what it sent in
/// the accepted denomination, less the commission, plus what it held before.
pub open spec fn new_bid_of(v: AuctionView, sender: Seq<char>, funds: Seq<Coin>) -> int {
    sum_denom(funds, v.denom) - CONTRACT_COMMISSION + amount_or_zero(v.bids, sender)
}

/// Why a bid is refused, checked in this order; `None` when it is accepted.
pub open spec fn bid_error(v: AuctionView, sender: Seq<char>, funds: Seq<Coin>) -> Option<BidError> {
    if v.closed {
        Some(BidError::BidClosed)
    } else if sender == v.owner {
        Some(BidError::OwnerCannotBid)
    } else if sum_denom(funds, v.denom) > u128::MAX {
        Some(BidError::Overflow)
    } else if sum_denom(funds, v.denom) < CONTRACT_COMMISSION {
        Some(BidError::NotEnoughCoinForCommission)
    } else if new_bid_of(v, sender, funds) > u128::MAX {
        Some(BidError::Overflow)
    } else if new_bid_of(v, sender, funds) <= v.highest_bid() {
        Some(BidError::BidTooLow)
    } else if amount_or_zero(v.commissions, sender) + CONTRACT_COMMISSION > u128::MAX {
        Some(BidError::Overflow)
    } else {
        None
    }
}

/// The state after an accepted bid.
pub open spec fn bid_next(v: AuctionView, sender: Seq<char>, funds: Seq<Coin>) -> AuctionView {
    AuctionView {
        highest_bidder: Some(sender),
        bids: v.bids.insert(sender, new_bid_of(v, sender, funds) as u128),
        commissions: v.commissions.insert(
            sender,
            (amount_or_zero(v.commissions, sender) + CONTRACT_COMMISSION) as u128,
        ),
        ..v
    }
}

/// What `bid` promises: on acceptance the next state, the commission sent
/// to the owner, and the new principal and the commission as attributes; on
/// refusal the error and an untouched state.
pub open spec fn bid_post(
    pre: AuctionView,
    post: AuctionView,
    sender: Seq<char>,
    funds: Seq<Coin>,
    r: Result<Response, BidError>,
) -> bool {
    match r {
        Ok(resp) => {
            &&& bid_error(pre, sender, funds) is None
            &&& post == bid_next(pre, sender, funds)
            &&& resp.sends() == seq![(pre.owner, pre.denom, CONTRACT_COMMISSION)]
            &&& resp.attributes@.len() == 3
            &&& resp.attributes@[0].value == AttrValue::Amount(new_bid_of(pre, sender, funds) as u128)
            &&& resp.attributes@[1].value == AttrValue::Amount(CONTRACT_COMMISSION)
        },
        Err(e) => {
            &&& bid_error(pre, sender, funds) == Some(e)
            &&& post == pre
        },
    }
}

/// Why a close is refused, checked in this order; `None` when it succeeds.
pub open spec fn close_error(v: AuctionView, sender: Seq<char>) -> Option<BidError> {
    if v.closed {
        Some(BidError::BidAlreadyClosed)
    } else if sender != v.owner {
        Some(BidError::OnlyOwnerCanClose)
    } else {
        match v.highest_bidder {
            Some(h) => if v.bids.contains_key(h) {
                None
            } else {
                Some(BidError::NoBidPresent)
            },
            None => Some(BidError::NoBidPresent),
        }
    }
}

/// The state after a successful close: closed, the highest bidder as winner.
pub open spec fn close_next(v: AuctionView) -> AuctionView {
    AuctionView { closed: true, winner: v.highest_bidder, ..v }
}

/// What `close` promises: on success the next state and the winner's
/// principal sent to the owner; on refusal the error and an untouched state.
pub open spec fn close_post(
    pre: AuctionView,
    post: AuctionView,
    sender: Seq<char>,
    r: Result<Response, BidError>,
) -> bool {
    match r {
        Ok(resp) => {
            &&& close_error(pre, sender) is None
            &&& post == close_next(pre)
            &&& resp.sends() == seq![(pre.owner, pre.denom, pre.bids[pre.highest_bidder->Some_0])]
        },
        Err(e) => {
            &&& close_error(pre, sender) == Some(e)
            &&& post == pre
        },
    }
}

/// Who receives a retraction: the named receiver, else the caller.
pub open spec fn recipient_of(sender: Seq<char>, receiver: Option<Seq<char>>) -> Seq<char> {
    match receiver {
        Some(a) => a,
        None => sender,
    }
}

/// Why a retraction for `recipient` is refused, checked in this order;
/// `None` when it succeeds.
pub open spec fn retract_error(v: AuctionView, recipient: Seq<char>) -> Option<BidError> {
    if !v.closed {
        Some(BidError::BidNotClosed)
    } else if v.winner == Some(recipient) {
        Some(BidError::BidWinner)
    } else if v.retracted.contains(recipient) {
        Some(BidError::RetractAlreadyDone)
    } else if !v.bids.contains_key(recipient) {
        Some(BidError::NoBidPresent)
    } else {
        None
    }
}

/// The state after a successful retraction: the recipient is marked.
pub open spec fn retract_next(v: AuctionView, recipient: Seq<char>) -> AuctionView {
    AuctionView { retracted: v.retracted.insert(recipient), ..v }
}

/// What `retract` promises: on success the recipient marked and its
/// principal sent back to it; on refusal the error and an untouched state.
pub open spec fn retract_post(
    pre: AuctionView,
    post: AuctionView,
    recipient: Seq<char>,
    r: Result<Response, BidError>,
) -> bool {
    match r {
        Ok(resp) => {
            &&& retract_error(pre, recipient) is None
            &&& post == retract_next(pre, recipient)
            &&& resp.sends() == seq![(recipient, pre.denom, pre.bids[recipient])]
        },
        Err(e) => {
            &&& retract_error(pre, recipient) == Some(e)
            &&& post == pre
        },
    }
}

/// The state right after instantiation.
pub open spec fn instantiate_view(
    sender: Seq<char>,
    owner: Option<Seq<char>>,
    denom: Option<Seq<char>>,
) -> AuctionView {
    AuctionView {
        owner: match owner {
            Some(o) => o,
            None => sender,
        },
        denom: match denom {
            Some(d) => d,
            None => default_denom(),
        },
        closed: false,
        winner: None,
        highest_bidder: None,
        bids: Map::empty(),
        commissions: Map::empty(),
        retracted: Set::empty(),
    }
}

/// Total funds sent by `a`: principal plus commission; `None` when `a` has
/// no principal on record.
pub open spec fn contribution(v: AuctionView, a: Seq<char>) -> Option<int> {
    if v.bids.contains_key(a) {
        Some(v.bids[a] + amount_or_zero(v.commissions, a))
    } else {
        None
    }
}

/// What a query for the contribution of `a` answers.
pub open spec fn contribution_result(v: AuctionView, a: Seq<char>) -> Result<u128, BidError> {
    match contribution(v, a) {
        None => Err(BidError::NoBidPresent),
        Some(c) => if c <= u128::MAX {
            Ok(c as u128)
        } else {
            Err(BidError::Overflow)
        },
    }
}

/// What a query for the highest bid answers.
pub open spec fn highest_bid_result(v: AuctionView) -> Result<u128, BidError> {
    match v.highest_bidder {
        None => Err(BidError::NoBidPresent),
        Some(h) => contribution_result(v, h),
    }
}

/// What a query for the state's owner, denomination, closed flag, winner,
/// highest bidder or amounts answers.
#[derive(Debug, Clone, PartialEq, Eq)]
pub enum QueryAnswer {
    Owner(String),
    Denom(String),
    Amount(u128),
    Closed(bool),
    Address(Option<String>),
}

/// The answer that `msg` receives on the state `v`.
pub open spec fn query_post(v: AuctionView, msg: BidQueryMsg, r: Result<QueryAnswer, BidError>) -> bool {
    match msg {
        BidQueryMsg::GetOwner {} => r matches Ok(QueryAnswer::Owner(o)) && o@ == v.owner,
        BidQueryMsg::GetDenom {} => r matches Ok(QueryAnswer::Denom(d)) && d@ == v.denom,
        BidQueryMsg::BidClosed {} => r == Ok::<QueryAnswer, BidError>(QueryAnswer::Closed(v.closed)),
        BidQueryMsg::HighestBidder {} => r matches Ok(QueryAnswer::Address(a)) && opt_view(a)
            == v.highest_bidder,
        BidQueryMsg::BidWinner => r matches Ok(QueryAnswer::Address(a)) && opt_view(a) == v.winner,
        BidQueryMsg::BidForAddress { address } => match contribution_result(v, address@) {
            Ok(c) => r == Ok::<QueryAnswer, BidError>(QueryAnswer::Amount(c)),
            Err(e) => r == Err::<QueryAnswer, BidError>(e),
        },
        BidQueryMsg::HighestBid {} => match highest_bid_result(v) {
            Ok(c) => r == Ok::<QueryAnswer, BidError>(QueryAnswer::Amount(c)),
            Err(e) => r == Err::<QueryAnswer, BidError>(e),
        },
    }
}

/// A prefix of the funds never holds more of a denomination than all of them.
proof fn lemma_sum_prefix(funds: Seq<Coin>, denom: Seq<char>, i: int)
    requires
        0 <= i <= funds.len(),
    ensures
        0 <= sum_denom(funds.take(i), denom) <= sum_denom(funds, denom),
    decreases funds.len(),
{
    if i == funds.len() {
        assert(funds.take(i) =~= funds);
        lemma_sum_nonneg(funds, denom);
    } else {
        lemma_sum_prefix(funds.drop_last(), denom, i);
        assert(funds.drop_last().take(i) =~= funds.take(i));
    }
}

proof fn lemma_sum_nonneg(funds: Seq<Coin>, denom: Seq<char>)
    ensures
        sum_denom(funds, denom) >= 0,
    decreases funds.len(),
{
    if funds.len() > 0 {
        lemma_sum_nonneg(funds.drop_last(), denom);
    }
}

/// Total amount of `denom` among `funds`, or `None` where it exceeds the
/// range of an amount.
fn sum_of_denom(funds: &Vec<Coin>, denom: &String) -> (r: Option<u128>)
    ensures
        sum_denom(funds@, denom@) >= 0,
        r == (if sum_denom(funds@, denom@) <= u128::MAX {
            Some(sum_denom(funds@, denom@) as u128)
        } else {
            None::<u128>
        }),
{
    proof {
        lemma_sum_nonneg(funds@, denom@);
    }
    let mut total: u128 = 0;
    let mut i: usize = 0;
    while i < funds.len()
        invariant
            i <= funds@.len(),
            total == sum_denom(funds@.take(i as int), denom@),
        decreases funds@.len() - i,
    {
        assert(funds@.take(i + 1).drop_last() =~= funds@.take(i as int));
        if funds[i].denom == *denom {
            if total > u128::MAX - funds[i].amount {
                proof {
                    lemma_sum_prefix(funds@, denom@, i + 1);
                }
                return None;
            }
            total = total + funds[i].amount;
        }
        i = i + 1;
    }
    assert(funds@.take(i as int) =~= funds@);
    Some(total)
}

fn amount_or_zero_of(m: &AddrMap<u128>, a: &String) -> (r: u128)
    requires
        m.wf(),
    ensures
        r == amount_or_zero(m@, a@),
{
    match m.get(a) {
        Some(x) => x,
        None => 0,
    }
}

fn text(s: &str) -> (r: String)
    ensures
        r@ == s@,
{
    s.to_string()
}

impl AuctionState {
    /// Places a bid from `sender` with the attached `funds`. An accepted bid
    /// adds what was sent in the accepted denomination, less the commission,
    /// to the sender's principal, makes the sender the highest bidder, and
    /// asks for the commission to be sent to the owner.
    pub fn bid(&mut self, sender: &String, funds: &Vec<Coin>) -> (r: Result<Response, BidError>)
        requires
            old(self).wf(),
        ensures
            final(self).wf(),
            bid_post(old(self)@, final(self)@, sender@, funds@, r),
    {
        if self.closed {
            return Err(BidError::BidClosed);
        }
        if *sender == self.owner {
            return Err(BidError::OwnerCannotBid);
        }
        let sent = match sum_of_denom(funds, &self.denom) {
            Some(s) => s,
            None => {
                return Err(BidError::Overflow);
            },
        };
        if sent < CONTRACT_COMMISSION {
            return Err(BidError::NotEnoughCoinForCommission);
        }
        let highest_bid: u128 = match &self.highest_bidder {
            Some(h) => amount_or_zero_of(&self.bids, h),
            None => 0,
        };
        let current_bid = amount_or_zero_of(&self.bids, sender);
        let principal = sent - CONTRACT_COMMISSION;
        if principal > u128::MAX - current_bid {
            return Err(BidError::Overflow);
        }
        let new_bid = principal + current_bid;
        if new_bid <= highest_bid {
            return Err(BidError::BidTooLow);
        }
        let commission = amount_or_zero_of(&self.commissions, sender);
        if commission > u128::MAX - CONTRACT_COMMISSION {
            return Err(BidError::Overflow);
        }
        self.commissions.insert(sender.clone(), commission + CONTRACT_COMMISSION);
        self.highest_bidder = Some(sender.clone());
        self.bids.insert(sender.clone(), new_bid);

        let mut messages: Vec<BankSend> = Vec::new();
        messages.push(
            BankSend {
                to_address: self.owner.clone(),
                denom: self.denom.clone(),
                amount: CONTRACT_COMMISSION,
            },
        );
        let mut attributes: Vec<Attribute> = Vec::new();
        attributes.push(Attribute { key: text("sent amount"), value: AttrValue::Amount(new_bid) });
        attributes.push(
            Attribute { key: text("commission"), value: AttrValue::Amount(CONTRACT_COMMISSION) },
        );
        attributes.push(Attribute { key: text("method"), value: AttrValue::Text(text("bid")) });
        let resp = Response { messages, attributes };
        proof {
            assert(resp.sends() =~= seq![(old(self).owner@, old(self).denom@, CONTRACT_COMMISSION)]);
            assert(self@ == bid_next(old(self)@, sender@, funds@));
        }
        Ok(resp)
    }

    /// Ends the auction. Only the owner may close, once, and only after a
    /// bid; the winner's principal is then sent to the owner.
    pub fn close(&mut self, sender: &String) -> (r: Result<Response, BidError>)
        requires
            old(self).wf(),
        ensures
            final(self).wf(),
            close_post(old(self)@, final(self)@, sender@, r),
    {
        if self.closed {
            return Err(BidError::BidAlreadyClosed);
        }
        if self.owner != *sender {
            return Err(BidError::OnlyOwnerCanClose);
        }
        let winner = match &self.highest_bidder {
            Some(h) => h.clone(),
            None => {
                return Err(BidError::NoBidPresent);
            },
        };
        let amount = match self.bids.get(&winner) {
            Some(b) => b,
            None => {
                return Err(BidError::NoBidPresent);
            },
        };
        let mut messages: Vec<BankSend> = Vec::new();
        messages.push(
            BankSend { to_address: self.owner.clone(), denom: self.denom.clone(), amount },
        );
        let mut attributes: Vec<Attribute> = Vec::new();
        attributes.push(Attribute { key: text("winner"), value: AttrValue::Text(winner.clone()) });
        attributes.push(Attribute { key: text("method"), value: AttrValue::Text(text("close")) });
        self.closed = true;
        self.winner = Some(winner);
        let resp = Response { messages, attributes };
        proof {
            assert(resp.sends() =~= seq![
                (old(self).owner@, old(self).denom@, old(self)@.bids[old(self)@.highest_bidder->Some_0]),
            ]);
        }
        Ok(resp)
    }

    /// Refunds the principal of `receiver`, or of the caller when none is
    /// named, once the auction is closed. The winner cannot retract, and no
    /// address can retract twice; the commission is never refunded.
    pub fn retract(&mut self, sender: &String, receiver: Option<String>) -> (r: Result<
        Response,
        BidError,
    >)
        requires
            old(self).wf(),
        ensures
            final(self).wf(),
            retract_post(old(self)@, final(self)@, recipient_of(sender@, opt_view(receiver)), r),
    {
        if !self.closed {
            return Err(BidError::BidNotClosed);
        }
        let recipient = match receiver {
            Some(a) => a,
            None => sender.clone(),
        };
        let is_winner = match &self.winner {
            Some(w) => *w == recipient,
            None => false,
        };
        if is_winner {
            return Err(BidError::BidWinner);
        }
        if self.retracted.contains_key(&recipient) {
            return Err(BidError::RetractAlreadyDone);
        }
        let amount = match self.bids.get(&recipient) {
            Some(b) => b,
            None => {
                return Err(BidError::NoBidPresent);
            },
        };
        self.retracted.insert(recipient.clone(), ());
        let mut messages: Vec<BankSend> = Vec::new();
        messages.push(
            BankSend { to_address: recipient.clone(), denom: self.denom.clone(), amount },
        );
        let mut attributes: Vec<Attribute> = Vec::new();
        attributes.push(Attribute { key: text("amount"), value: AttrValue::Amount(amount) });
        attributes.push(Attribute { key: text("recipient"), value: AttrValue::Text(recipient) });
        attributes.push(Attribute { key: text("method"), value: AttrValue::Text(text("retract")) });
        let resp = Response { messages, attributes };
        proof {
            let rc = recipient_of(sender@, opt_view(receiver));
            assert(resp.sends() =~= seq![(rc, old(self).denom@, old(self)@.bids[rc])]);
            assert(self@.retracted =~= old(self)@.retracted.insert(rc));
        }
        Ok(resp)
    }

    /// Starts an auction on behalf of `sender`: the owner is the one named,
    /// else the sender; the denomination is the one named, else the default.
    pub fn instantiate(sender: String, msg: BidInstantiateMsg) -> (r: (AuctionState, Response))
        ensures
            r.0.wf(),
            r.0@ == instantiate_view(sender@, opt_view(msg.owner), opt_view(msg.denom)),
            r.1.sends() == Seq::<(Seq<char>, Seq<char>, u128)>::empty(),
    {
        let owner = match msg.owner {
            Some(o) => o,
            None => sender,
        };
        let denom = match msg.denom {
            Some(d) => d,
            None => {
                let d = text("uatom");
                proof {
                    reveal_strlit("uatom");
                    assert(d@ =~= default_denom());
                }
                d
            },
        };
        let mut attributes: Vec<Attribute> = Vec::new();
        attributes.push(Attribute { key: text("owner"), value: AttrValue::Text(owner.clone()) });
        attributes.push(
            Attribute { key: text("method"), value: AttrValue::Text(text("instantiate")) },
        );
        let state = AuctionState {
            owner,
            denom,
            closed: false,
            winner: None,
            highest_bidder: None,
            bids: AddrMap::new(),
            commissions: AddrMap::new(),
            retracted: AddrMap::new(),
        };
        let resp = Response { messages: Vec::new(), attributes };
        proof {
            assert(state@.retracted =~= Set::<Seq<char>>::empty());
            assert(resp.sends() =~= Seq::<(Seq<char>, Seq<char>, u128)>::empty());
        }
        (state, resp)
    }

    /// Total funds sent by `address`: principal plus commission.
    pub fn bid_for_address(&self, address: &String) -> (r: Result<u128, BidError>)
        requires
            self.wf(),
        ensures
            r == contribution_result(self@, address@),
    {
        let bid = match self.bids.get(address) {
            Some(b) => b,
            None => {
                return Err(BidError::NoBidPresent);
            },
        };
        let commission = amount_or_zero_of(&self.commissions, address);
        if bid > u128::MAX - commission {
            return Err(BidError::Overflow);
        }
        Ok(bid + commission)
    }

    /// Total funds sent by the current highest bidder.
    pub fn highest_bid(&self) -> (r: Result<u128, BidError>)
        requires
            self.wf(),
        ensures
            r == highest_bid_result(self@),
    {
        match &self.highest_bidder {
            Some(h) => self.bid_for_address(h),
            None => Err(BidError::NoBidPresent),
        }
    }

    /// Carries out a state-changing call from `sender` with `funds` attached.
    pub fn execute(&mut self, sender: &String, funds: &Vec<Coin>, msg: BidExecuteMsg) -> (r: Result<
        Response,
        BidError,
    >)
        requires
            old(self).wf(),
        ensures
            final(self).wf(),
            match msg {
                BidExecuteMsg::Bid {} => bid_post(old(self)@, final(self)@, sender@, funds@, r),
                BidExecuteMsg::Close {} => close_post(old(self)@, final(self)@, sender@, r),
                BidExecuteMsg::Retract { receiver } => retract_post(
                    old(self)@,
                    final(self)@,
                    recipient_of(sender@, opt_view(receiver)),
                    r,
                ),
            },
    {
        match msg {
            BidExecuteMsg::Bid {} => self.bid(sender, funds),
            BidExecuteMsg::Close {} => self.close(sender),
            BidExecuteMsg::Retract { receiver } => self.retract(sender, receiver),
        }
    }

    /// Answers a read-only query; the state is not changed.
    pub fn query(&self, msg: &BidQueryMsg) -> (r: Result<QueryAnswer, BidError>)
        requires
            self.wf(),
        ensures
            query_post(self@, *msg, r),
    {
        match msg {
            BidQueryMsg::GetOwner {} => Ok(QueryAnswer::Owner(self.owner.clone())),
            BidQueryMsg::GetDenom {} => Ok(QueryAnswer::Denom(self.denom.clone())),
            BidQueryMsg::BidClosed {} => Ok(QueryAnswer::Closed(self.closed)),
            BidQueryMsg::BidForAddress { address } => match self.bid_for_address(address) {
                Ok(c) => Ok(QueryAnswer::Amount(c)),
                Err(e) => Err(e),
            },
            BidQueryMsg::HighestBid {} => match self.highest_bid() {
                Ok(c) => Ok(QueryAnswer::Amount(c)),
                Err(e) => Err(e),
            },
            BidQueryMsg::HighestBidder {} => Ok(QueryAnswer::Address(self.highest_bidder.clone())),
            BidQueryMsg::BidWinner => Ok(QueryAnswer::Address(self.winner.clone())),
        }
    }
}

} // verus!
