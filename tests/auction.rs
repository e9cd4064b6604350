use std::collections::HashMap;

use cw_bid::contract::QueryAnswer;
use cw_bid::error::BidError;
use cw_bid::msg::{BidExecuteMsg, BidInstantiateMsg, BidQueryMsg};
use cw_bid::state::{AuctionState, Coin};

fn coins(amount: u128, denom: &str) -> Vec<Coin> {
    vec![Coin { denom: denom.to_string(), amount }]
}

fn s(x: &str) -> String {
    x.to_string()
}

/// Balances kept by the host: funds attached to an accepted call leave the
/// caller, and the transfers the call asks for are carried out in order.
struct Bank {
    balances: HashMap<String, u128>,
}

impl Bank {
    fn new(initial: &[(&str, u128)]) -> Bank {
        let mut balances = HashMap::new();
        for (who, amount) in initial {
            balances.insert(s(who), *amount);
        }
        Bank { balances }
    }

    fn balance(&self, who: &str) -> u128 {
        *self.balances.get(who).unwrap_or(&0)
    }

    fn execute(
        &mut self,
        state: &mut AuctionState,
        sender: &str,
        funds: &[Coin],
        msg: BidExecuteMsg,
    ) -> Result<(), BidError> {
        let funds: Vec<Coin> = funds.to_vec();
        let attached: u128 = funds.iter().map(|c| c.amount).sum();
        assert!(self.balance(sender) >= attached);
        let resp = state.execute(&s(sender), &funds, msg)?;
        *self.balances.entry(s(sender)).or_insert(0) -= attached;
        for m in resp.messages {
            *self.balances.entry(m.to_address).or_insert(0) += m.amount;
        }
        Ok(())
    }
}

fn instantiate(sender: &str, owner: Option<String>, denom: Option<String>) -> AuctionState {
    AuctionState::instantiate(s(sender), BidInstantiateMsg { owner, denom }).0
}

fn owner_of(st: &AuctionState) -> String {
    match st.query(&BidQueryMsg::GetOwner {}) {
        Ok(QueryAnswer::Owner(o)) => o,
        other => panic!("unexpected answer {:?}", other),
    }
}

fn denom_of(st: &AuctionState) -> String {
    match st.query(&BidQueryMsg::GetDenom {}) {
        Ok(QueryAnswer::Denom(d)) => d,
        other => panic!("unexpected answer {:?}", other),
    }
}

fn closed_of(st: &AuctionState) -> bool {
    match st.query(&BidQueryMsg::BidClosed {}) {
        Ok(QueryAnswer::Closed(c)) => c,
        other => panic!("unexpected answer {:?}", other),
    }
}

fn winner_of(st: &AuctionState) -> Option<String> {
    match st.query(&BidQueryMsg::BidWinner) {
        Ok(QueryAnswer::Address(a)) => a,
        other => panic!("unexpected answer {:?}", other),
    }
}

fn highest_bidder_of(st: &AuctionState) -> Option<String> {
    match st.query(&BidQueryMsg::HighestBidder {}) {
        Ok(QueryAnswer::Address(a)) => a,
        other => panic!("unexpected answer {:?}", other),
    }
}

fn highest_bid_of(st: &AuctionState) -> Result<u128, BidError> {
    match st.query(&BidQueryMsg::HighestBid {}) {
        Ok(QueryAnswer::Amount(a)) => Ok(a),
        Ok(other) => panic!("unexpected answer {:?}", other),
        Err(e) => Err(e),
    }
}

fn bid(bank: &mut Bank, st: &mut AuctionState, sender: &str, funds: &[Coin]) -> Result<(), BidError> {
    bank.execute(st, sender, funds, BidExecuteMsg::Bid {})
}

fn close(bank: &mut Bank, st: &mut AuctionState, sender: &str) -> Result<(), BidError> {
    bank.execute(st, sender, &[], BidExecuteMsg::Close {})
}

fn retract(
    bank: &mut Bank,
    st: &mut AuctionState,
    sender: &str,
    receiver: Option<String>,
) -> Result<(), BidError> {
    bank.execute(st, sender, &[], BidExecuteMsg::Retract { receiver })
}

#[test]
fn functional_tests_no_owner_no_denom_given() {
    let st = instantiate("contract_instance_owner_addr", None, None);
    assert_eq!(owner_of(&st), "contract_instance_owner_addr");
    assert_eq!(denom_of(&st), "uatom");
    assert_eq!(None, winner_of(&st));
    assert_eq!(None, highest_bidder_of(&st));
    assert!(!closed_of(&st))
}

#[test]
fn functional_tests_owner_no_denom_given() {
    let st = instantiate("contract_instance_owner_addr", Some(s("new_owner")), None);
    assert_eq!(owner_of(&st), "new_owner");
    assert_eq!(denom_of(&st), "uatom");
    assert_eq!(None, winner_of(&st));
    assert_eq!(None, highest_bidder_of(&st));
    assert!(!closed_of(&st))
}

#[test]
fn functional_tests_owner_denom_given() {
    let st = instantiate("contract_instance_owner_addr", Some(s("new_owner")), Some(s("ujuno")));
    assert_eq!(owner_of(&st), "new_owner");
    assert_eq!(denom_of(&st), "ujuno");
    assert_eq!(None, winner_of(&st));
    assert_eq!(None, highest_bidder_of(&st));
    assert!(!closed_of(&st))
}

#[test]
fn integration_tests_no_owner_no_denom_given() {
    let st = instantiate("owner", None, None);
    assert_eq!(denom_of(&st), "uatom");
    assert_eq!(owner_of(&st), "owner");
    assert!(!closed_of(&st));
    assert_eq!(winner_of(&st), None);
    assert_eq!(highest_bidder_of(&st), None);
    assert!(highest_bid_of(&st).is_err());
}

#[test]
fn integration_tests_owner_no_denom_given() {
    let st = instantiate("owner", Some(s("test")), None);
    assert_eq!(denom_of(&st), "uatom");
    assert_eq!(owner_of(&st), "test");
    assert!(!closed_of(&st));
    assert_eq!(winner_of(&st), None);
    assert_eq!(highest_bidder_of(&st), None);
    assert!(highest_bid_of(&st).is_err());
}

#[test]
fn integration_tests_owner_denom_given() {
    let st = instantiate("owner", Some(s("test")), Some(s("ujuno")));
    assert_eq!(denom_of(&st), "ujuno");
    assert_eq!(owner_of(&st), "test");
    assert!(!closed_of(&st));
    assert_eq!(winner_of(&st), None);
    assert_eq!(highest_bidder_of(&st), None);
    assert!(highest_bid_of(&st).is_err());
}

#[test]
fn close_with_errors() {
    let mut bank = Bank::new(&[("user1", 10_000_000)]);
    let mut st = instantiate("owner", Some(s("test")), Some(s("ujuno")));

    assert_eq!(close(&mut bank, &mut st, "owner"), Err(BidError::OnlyOwnerCanClose));
    assert_eq!(close(&mut bank, &mut st, "test"), Err(BidError::NoBidPresent));
    assert_eq!(
        bid(
            &mut bank,
            &mut st,
            "user1",
            &[Coin { denom: s("ujuno"), amount: 5_000_000 }]
        ),
        Ok(())
    );
    assert_eq!(close(&mut bank, &mut st, "test"), Ok(()));
    assert_eq!(close(&mut bank, &mut st, "test"), Err(BidError::BidAlreadyClosed));
}

#[test]
fn scenario() {
    let mut bank = Bank::new(&[("alex", 100_000_000), ("ann", 100_000_000)]);
    let mut st = instantiate("owner", None, None);

    assert_eq!(bid(&mut bank, &mut st, "alex", &coins(15_000_000, "uatom")), Ok(()));
    assert_eq!(highest_bidder_of(&st), Some(s("alex")));
    assert_eq!(highest_bid_of(&st), Ok(15_000_000));

    assert_eq!(bid(&mut bank, &mut st, "ann", &coins(17_000_000, "uatom")), Ok(()));
    assert_eq!(highest_bidder_of(&st), Some(s("ann")));
    assert_eq!(highest_bid_of(&st), Ok(17_000_000));

    assert_eq!(bid(&mut bank, &mut st, "ann", &coins(2_000_000, "uatom")), Ok(()));
    assert_eq!(highest_bidder_of(&st), Some(s("ann")));
    assert_eq!(highest_bid_of(&st), Ok(19_000_000));

    assert_eq!(
        bid(&mut bank, &mut st, "alex", &coins(1_000_000, "uatom")),
        Err(BidError::BidTooLow)
    );
    assert_eq!(highest_bidder_of(&st), Some(s("ann")));
    assert_eq!(highest_bid_of(&st), Ok(19_000_000));

    assert_eq!(bid(&mut bank, &mut st, "alex", &coins(5_000_000, "uatom")), Ok(()));
    assert_eq!(highest_bidder_of(&st), Some(s("alex")));
    assert_eq!(highest_bid_of(&st), Ok(20_000_000));

    assert_eq!(close(&mut bank, &mut st, "owner"), Ok(()));
    assert_eq!(highest_bidder_of(&st), Some(s("alex")));
    assert_eq!(highest_bid_of(&st), Ok(20_000_000));

    // 19 of principal from alex, 2 of commissions from both bidders
    assert_eq!(bank.balance("owner"), 21_000_000);
    assert_eq!(bank.balance("alex"), 80_000_000);
    assert_eq!(bank.balance("ann"), 81_000_000);

    assert_eq!(retract(&mut bank, &mut st, "owner", None), Err(BidError::NoBidPresent));
    assert_eq!(
        retract(&mut bank, &mut st, "owner", Some(s("alex"))),
        Err(BidError::BidWinner)
    );
    assert_eq!(retract(&mut bank, &mut st, "owner", Some(s("ann"))), Ok(()));
    assert_eq!(
        retract(&mut bank, &mut st, "owner", Some(s("ann"))),
        Err(BidError::RetractAlreadyDone)
    );

    assert_eq!(bank.balance("alex"), 80_000_000);
    assert_eq!(bank.balance("ann"), 99_000_000);
}
