use custody::auction::{
    instantiate, query, Auction, AuctionHistoryResponse, ContractError, HighestBidResponse,
    InstantiateMsg, Mode, PlaceBidMsg, QueryMsg, QueryResponse, StartAuctionMsg,
    MAX_EXPIRATION_SECONDS,
};
use custody::payment::Coin;

const T0: u64 = 1_000_000_000_000;
const HOUR_NANOS: u64 = 3600 * 1_000_000_000;

fn s(x: &str) -> String {
    x.to_string()
}

fn cony(amount: u128) -> Vec<Coin> {
    vec![Coin { denom: s("cony"), amount }]
}

fn start_msg(expiration_time: u64, start_bid: u64) -> StartAuctionMsg {
    StartAuctionMsg {
        expiration_time,
        cw721_address: s("registry"),
        token_id: s("T"),
        start_bid,
    }
}

fn fresh() -> Auction {
    instantiate(s("auction"), &InstantiateMsg {})
}

fn started() -> Auction {
    let mut a = fresh();
    a.start_auction(&s("S"), &start_msg(3600, 100), T0, &Some(s("S")), true).unwrap();
    a
}

#[test]
fn auction_round_scenario() {
    let mut a = fresh();
    assert_eq!(a.state.mode, Mode::End);
    assert_eq!(a.history_index, 0);

    a.start_auction(&s("S"), &start_msg(3600, 100), T0, &Some(s("S")), true).unwrap();
    assert_eq!(a.state.mode, Mode::Progress);
    assert_eq!(a.state.end_time, T0 + HOUR_NANOS);
    assert_eq!(a.state.seller, s("S"));

    let r = a.place_bid(&s("B1"), &PlaceBidMsg { bid: 100 }, T0 + 1, 1000);
    assert_eq!(r, Err(ContractError::InvalidBidError { bid: 100, highest_bid: 100 }));

    a.place_bid(&s("B1"), &PlaceBidMsg { bid: 150 }, T0 + 2, 1000).unwrap();
    assert_eq!(
        a.get_highest_bid(),
        Ok(HighestBidResponse { highest_bid: 150, bidder: s("B1") })
    );

    let early = a.end_auction(&s("B1"), T0 + 10, &cony(150), true);
    assert_eq!(early, Err(ContractError::AuctionTimeError {}));

    let later = T0 + HOUR_NANOS + 1;
    let other = a.end_auction(&s("B2"), later, &cony(150), true);
    assert_eq!(other, Err(ContractError::Unauthorized {}));
    assert_eq!(a.state.mode, Mode::Progress);

    let payout = a.end_auction(&s("B1"), later, &cony(150), true).unwrap();
    assert_eq!(payout.to_address, s("S"));
    assert_eq!(payout.amount, Coin { denom: s("cony"), amount: 150 });
    assert_eq!(a.state.mode, Mode::End);
    assert_eq!(a.bid, None);
    assert_eq!(a.history_index, 1);
    assert_eq!(
        a.get_auction_history(0),
        Ok(AuctionHistoryResponse {
            end_time: T0 + HOUR_NANOS,
            seller: s("S"),
            cw721_address: s("registry"),
            token_id: s("T"),
            highest_bid: 150,
            bidder: s("B1"),
        })
    );
}

#[test]
fn start_rejects_long_expiration() {
    let mut a = fresh();
    let r = a.start_auction(
        &s("S"),
        &start_msg(MAX_EXPIRATION_SECONDS + 1, 100),
        T0,
        &Some(s("S")),
        true,
    );
    assert_eq!(r, Err(ContractError::ExpirationTimeError { val: 604801 }));
    assert_eq!(a.state.mode, Mode::End);
    assert_eq!(a.bid, None);
}

#[test]
fn start_accepts_one_week() {
    let mut a = fresh();
    a.start_auction(&s("S"), &start_msg(604800, 1), T0, &Some(s("S")), true).unwrap();
    assert_eq!(a.state.end_time, T0 + 604800 * 1_000_000_000);
}

#[test]
fn start_rejected_while_in_progress() {
    let mut a = started();
    let r = a.start_auction(&s("S"), &start_msg(10, 1), T0, &Some(s("S")), true);
    assert_eq!(r, Err(ContractError::AuctionProgressError {}));
    let r = a.start_auction(&s("S"), &start_msg(604801, 1), T0, &Some(s("S")), true);
    assert_eq!(r, Err(ContractError::AuctionProgressError {}));
}

#[test]
fn start_requires_token_owner() {
    let mut a = fresh();
    let r = a.start_auction(&s("S"), &start_msg(10, 1), T0, &Some(s("X")), true);
    assert_eq!(r, Err(ContractError::Unauthorized {}));
    let r = a.start_auction(&s("S"), &start_msg(10, 1), T0, &None, true);
    assert_eq!(r, Err(ContractError::Unauthorized {}));
    assert_eq!(a.state.mode, Mode::End);
}

#[test]
fn start_fails_when_transfer_fails() {
    let mut a = fresh();
    let r = a.start_auction(&s("S"), &start_msg(10, 1), T0, &Some(s("S")), false);
    assert_eq!(r, Err(ContractError::TransferNFTError { sender: s("S"), token_id: s("T") }));
    assert_eq!(a.state.mode, Mode::End);
    assert_eq!(a.bid, None);
}

#[test]
fn start_check_matches_start() {
    let a = fresh();
    assert_eq!(a.start_auction_check(&s("S"), &start_msg(10, 1), &Some(s("S"))), Ok(()));
    assert_eq!(
        a.start_auction_check(&s("S"), &start_msg(10, 1), &Some(s("Y"))),
        Err(ContractError::Unauthorized {})
    );
}

#[test]
fn bid_rejected_without_auction() {
    let mut a = fresh();
    let r = a.place_bid(&s("B"), &PlaceBidMsg { bid: 5 }, T0, 100);
    assert_eq!(r, Err(ContractError::AuctionNoProgressError {}));
}

#[test]
fn bid_rejected_at_end_time() {
    let mut a = started();
    let r = a.place_bid(&s("B"), &PlaceBidMsg { bid: 500 }, T0 + HOUR_NANOS, 1000);
    assert_eq!(r, Err(ContractError::AuctionExpiredError {}));
    a.place_bid(&s("B"), &PlaceBidMsg { bid: 500 }, T0 + HOUR_NANOS - 1, 1000).unwrap();
}

#[test]
fn bid_rejected_on_low_balance() {
    let mut a = started();
    let r = a.place_bid(&s("B"), &PlaceBidMsg { bid: 500 }, T0, 499);
    assert_eq!(r, Err(ContractError::InsufficientBalanceError {}));
    assert_eq!(a.get_highest_bid(), Ok(HighestBidResponse { highest_bid: 100, bidder: s("S") }));
}

#[test]
fn bids_strictly_increase() {
    let mut a = started();
    a.place_bid(&s("B1"), &PlaceBidMsg { bid: 101 }, T0, 1000).unwrap();
    a.place_bid(&s("B2"), &PlaceBidMsg { bid: 200 }, T0, 1000).unwrap();
    let r = a.place_bid(&s("B1"), &PlaceBidMsg { bid: 150 }, T0, 1000);
    assert_eq!(r, Err(ContractError::InvalidBidError { bid: 150, highest_bid: 200 }));
    let r = a.place_bid(&s("B3"), &PlaceBidMsg { bid: 200 }, T0, 1000);
    assert_eq!(r, Err(ContractError::InvalidBidError { bid: 200, highest_bid: 200 }));
    assert_eq!(a.get_highest_bid(), Ok(HighestBidResponse { highest_bid: 200, bidder: s("B2") }));
}

#[test]
fn end_rejected_without_auction() {
    let mut a = fresh();
    let r = a.end_auction(&s("B"), T0, &cony(10), true);
    assert_eq!(r, Err(ContractError::AuctionNoProgressError {}));
}

#[test]
fn end_allowed_exactly_at_end_time() {
    let mut a = started();
    a.end_auction(&s("S"), T0 + HOUR_NANOS, &cony(100), true).unwrap();
    assert_eq!(a.history_index, 1);
}

#[test]
fn end_requires_single_coin() {
    let mut a = started();
    let at = T0 + HOUR_NANOS;
    assert_eq!(a.end_auction(&s("S"), at, &vec![], true), Err(ContractError::FundsError {}));
    assert_eq!(a.end_auction(&s("S"), at, &cony(0), true), Err(ContractError::FundsError {}));
    let two = vec![
        Coin { denom: s("cony"), amount: 100 },
        Coin { denom: s("other"), amount: 1 },
    ];
    assert_eq!(a.end_auction(&s("S"), at, &two, true), Err(ContractError::FundsError {}));
    assert_eq!(a.state.mode, Mode::Progress);
}

#[test]
fn end_requires_enough_cony() {
    let mut a = started();
    let at = T0 + HOUR_NANOS;
    assert_eq!(
        a.end_auction(&s("S"), at, &cony(99), true),
        Err(ContractError::InsufficientBalanceError {})
    );
    let wrong = vec![Coin { denom: s("atom"), amount: 1000 }];
    assert_eq!(
        a.end_auction(&s("S"), at, &wrong, true),
        Err(ContractError::InsufficientBalanceError {})
    );
    assert_eq!(a.end_auction_check(&s("S"), at, &cony(100)), Ok(()));
}

#[test]
fn end_fails_when_transfer_fails() {
    let mut a = started();
    let r = a.end_auction(&s("S"), T0 + HOUR_NANOS, &cony(100), false);
    assert_eq!(
        r,
        Err(ContractError::TransferNFTError { sender: s("auction"), token_id: s("T") })
    );
    assert_eq!(a.state.mode, Mode::Progress);
    assert_eq!(a.history_index, 0);
}

#[test]
fn history_grows_by_one_per_auction() {
    let mut a = started();
    a.end_auction(&s("S"), T0 + HOUR_NANOS, &cony(100), true).unwrap();
    a.start_auction(&s("S"), &start_msg(1, 7), T0 + HOUR_NANOS, &Some(s("S")), true).unwrap();
    a.place_bid(&s("B"), &PlaceBidMsg { bid: 8 }, T0 + HOUR_NANOS, 8).unwrap();
    a.end_auction(&s("B"), T0 + 2 * HOUR_NANOS, &cony(9), true).unwrap();
    assert_eq!(a.history_index, 2);
    assert_eq!(a.get_auction_history(1).unwrap().highest_bid, 8);
    assert_eq!(a.get_auction_history(0).unwrap().highest_bid, 100);
    assert_eq!(a.get_auction_history(2), Err(ContractError::NoHistory { idx: 2 }));
}

#[test]
fn queries_answer_from_state() {
    let a = started();
    let item = query(&a, &QueryMsg::GetAuctionItem {}).unwrap();
    match item {
        QueryResponse::AuctionItem(i) => {
            assert_eq!(i.end_time, T0 + HOUR_NANOS);
            assert_eq!(i.token_id, s("T"));
            assert_eq!(i.start_bid, 100);
        }
        _ => panic!("wrong answer"),
    }
    let idle = fresh();
    assert_eq!(query(&idle, &QueryMsg::GetHighestBid {}), Err(ContractError::NoBid {}));
    assert_eq!(
        query(&idle, &QueryMsg::GetAuctionHistory { idx: 0 }),
        Err(ContractError::NoHistory { idx: 0 })
    );
}
