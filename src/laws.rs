//! Properties of the auction that hold across calls, proved over the
//! abstract state.
use vstd::prelude::*;
use crate::contract::{
    bid_error, bid_next, close_error, close_next, close_post, instantiate_view, new_bid_of,
    retract_error, retract_next, retract_post,
};
use crate::error::BidError;
use crate::state::{sum_denom, AuctionView, Coin, Response, CONTRACT_COMMISSION};

verus! {

/// A freshly instantiated auction satisfies the invariant.
pub proof fn lemma_instantiate_inv(
    sender: Seq<char>,
    owner: Option<Seq<char>>,
    denom: Option<Seq<char>>,
)
    ensures
        instantiate_view(sender, owner, denom).inv(),
{
    let v = instantiate_view(sender, owner, denom);
    assert(v.bids.dom() =~= Set::<Seq<char>>::empty());
}

/// An accepted bid keeps the invariant: its new principal is strictly above
/// the previous highest one, its sender becomes the highest bidder and holds
/// the largest principal, and the owner still has no principal.
pub proof fn lemma_bid_keeps_inv(v: AuctionView, sender: Seq<char>, funds: Seq<Coin>)
    requires
        v.inv(),
        bid_error(v, sender, funds) is None,
    ensures
        new_bid_of(v, sender, funds) > v.highest_bid(),
        bid_next(v, sender, funds).highest_bidder == Some(sender),
        bid_next(v, sender, funds).inv(),
{
    let w = bid_next(v, sender, funds);
    assert forall|a: Seq<char>| #[trigger] w.bids.contains_key(a) && a != sender implies w.bids[a]
        < w.bids[sender] by {
        assert(v.bids.contains_key(a));
        match v.highest_bidder {
            Some(h) => {
                if a != h {
                    assert(v.bids[a] < v.bids[h]);
                }
            },
            None => {
                assert(v.bids.dom().contains(a));
            },
        }
    }
}

/// A bid whose new principal does not exceed the current highest one is
/// refused with `BidTooLow` once the earlier checks pass; a refused call
/// leaves the state as it was (see `bid_post`).
pub proof fn lemma_low_bid_refused(v: AuctionView, sender: Seq<char>, funds: Seq<Coin>)
    requires
        !v.closed,
        sender != v.owner,
        CONTRACT_COMMISSION <= sum_denom(funds, v.denom) <= u128::MAX,
        new_bid_of(v, sender, funds) <= v.highest_bid(),
    ensures
        bid_error(v, sender, funds) == Some(BidError::BidTooLow),
{
}

/// A successful close keeps the invariant.
pub proof fn lemma_close_keeps_inv(v: AuctionView, sender: Seq<char>)
    requires
        v.inv(),
        close_error(v, sender) is None,
    ensures
        close_next(v).inv(),
{
}

/// A successful retraction keeps the invariant.
pub proof fn lemma_retract_keeps_inv(v: AuctionView, recipient: Seq<char>)
    requires
        v.inv(),
        retract_error(v, recipient) is None,
    ensures
        retract_next(v, recipient).inv(),
{
}

/// No state that satisfies the invariant records a principal for the owner.
pub proof fn lemma_owner_has_no_bid(v: AuctionView)
    requires
        v.inv(),
    ensures
        !v.bids.contains_key(v.owner),
{
}

/// Close succeeds at most once: after a successful close every further
/// close, by anyone, fails with `BidAlreadyClosed`, and so does every bid.
pub proof fn lemma_close_once(v: AuctionView, sender: Seq<char>, next_sender: Seq<char>, funds: Seq<Coin>)
    requires
        close_error(v, sender) is None,
    ensures
        close_error(close_next(v), next_sender) == Some(BidError::BidAlreadyClosed),
        bid_error(close_next(v), next_sender, funds) == Some(BidError::BidClosed),
{
}

/// Before any bid has been accepted, the owner's close fails with
/// `NoBidPresent`.
pub proof fn lemma_close_before_bid(v: AuctionView)
    requires
        v.inv(),
        !v.closed,
        v.bids.dom() == Set::<Seq<char>>::empty(),
    ensures
        close_error(v, v.owner) == Some(BidError::NoBidPresent),
{
    if v.highest_bidder is Some {
        assert(v.bids.dom().contains(v.highest_bidder->Some_0));
    }
}

/// Retraction before close always fails with `BidNotClosed`.
pub proof fn lemma_retract_before_close(v: AuctionView, recipient: Seq<char>)
    requires
        !v.closed,
    ensures
        retract_error(v, recipient) == Some(BidError::BidNotClosed),
{
}

/// The winner can never retract.
pub proof fn lemma_winner_cannot_retract(v: AuctionView, recipient: Seq<char>)
    requires
        v.inv(),
        v.winner == Some(recipient),
    ensures
        retract_error(v, recipient) == Some(BidError::BidWinner),
{
}

/// An address retracts at most once: after its successful retraction, a
/// second one fails with `RetractAlreadyDone`.
pub proof fn lemma_retract_once(v: AuctionView, recipient: Seq<char>)
    requires
        v.inv(),
        retract_error(v, recipient) is None,
    ensures
        retract_error(retract_next(v, recipient), recipient) == Some(BidError::RetractAlreadyDone),
{
}

/// A successful close pays the owner exactly the winner's recorded
/// principal, in the accepted denomination, and nothing else.
pub proof fn lemma_close_pays_winner_principal(
    pre: AuctionView,
    post: AuctionView,
    sender: Seq<char>,
    r: Result<Response, BidError>,
)
    requires
        close_post(pre, post, sender, r),
        r is Ok,
    ensures
        post.winner is Some,
        r->Ok_0.sends() == seq![(post.owner, post.denom, post.bids[post.winner->Some_0])],
{
}

/// A successful retraction pays the recipient exactly its recorded
/// principal, in the accepted denomination; the commission stays with the
/// owner and the principal on record is left as it was.
pub proof fn lemma_retract_pays_principal(
    pre: AuctionView,
    post: AuctionView,
    recipient: Seq<char>,
    r: Result<Response, BidError>,
)
    requires
        retract_post(pre, post, recipient, r),
        r is Ok,
    ensures
        pre.bids.contains_key(recipient),
        r->Ok_0.sends() == seq![(recipient, pre.denom, pre.bids[recipient])],
        post.bids == pre.bids,
        post.commissions == pre.commissions,
{
}

} // verus!
