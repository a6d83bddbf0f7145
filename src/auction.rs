//! The auction engine: one NFT at a time is escrowed, bid on until its end
//! time, and released to the highest bidder against payment.
//!
//! The host supplies the block time (in nanoseconds), the caller's address,
//! the attached funds and what the NFT registry reported; the engine decides
//! and returns the next state, or an error with the state left as it was.
use vstd::prelude::*;
use crate::payment::{Coin, is_single_coin, one_coin};

verus! {

/// Longest running time of an auction: one week, in seconds.
pub const MAX_EXPIRATION_SECONDS: u64 = 604800;

pub const NANOS_PER_SECOND: u64 = 1000000000;

/// The denomination in which bids are made and paid.
pub open spec fn settlement_denom() -> Seq<char> {
    "cony"@
}

fn settlement_denom_string() -> (r: String)
    ensures
        r@ == settlement_denom(),
{
    String::from_str("cony")
}

/// Whether an auction is running.
#[derive(Clone, Copy, Debug, PartialEq, Eq, Structural)]
pub enum Mode {
    Progress,
    End,
}

/// The auction slot: the running auction, or empty values when none runs.
#[derive(Clone, Debug, PartialEq, Eq)]
pub struct State {
    pub mode: Mode,
    /// Block time, in nanoseconds, from which the auction may be ended.
    pub end_time: u64,
    pub seller: String,
    pub cw721_address: String,
    pub token_id: String,
    pub start_bid: u64,
}

/// The best offer so far; the seller holds it with the start bid at first.
#[derive(Clone, Debug, PartialEq, Eq)]
pub struct Bid {
    pub highest_bid: u64,
    pub bidder: String,
}

/// A concluded auction, as recorded when it ended.
#[derive(Clone, Debug, PartialEq, Eq)]
pub struct History {
    pub end_time: u64,
    pub seller: String,
    pub cw721_address: String,
    pub token_id: String,
    pub highest_bid: u64,
    pub bidder: String,
}

#[derive(Clone, Debug, PartialEq, Eq)]
pub struct InstantiateMsg {}

#[derive(Clone, Debug, PartialEq, Eq)]
pub struct StartAuctionMsg {
    /// Running time of the auction, in seconds.
    pub expiration_time: u64,
    pub cw721_address: String,
    pub token_id: String,
    pub start_bid: u64,
}

#[derive(Clone, Debug, PartialEq, Eq)]
pub struct PlaceBidMsg {
    pub bid: u64,
}

#[derive(Clone, Debug, PartialEq, Eq)]
pub enum ExecuteMsg {
    StartAuction(StartAuctionMsg),
    PlaceBid(PlaceBidMsg),
    EndAuction {},
}

#[derive(Clone, Debug, PartialEq, Eq)]
pub enum QueryMsg {
    GetHighestBid {},
    GetAuctionItem {},
    GetAuctionHistory { idx: u32 },
}

#[derive(Clone, Debug, PartialEq, Eq)]
pub struct HighestBidResponse {
    pub highest_bid: u64,
    pub bidder: String,
}

#[derive(Clone, Debug, PartialEq, Eq)]
pub struct AuctionItemResponse {
    pub end_time: u64,
    pub cw721_address: String,
    pub token_id: String,
    pub start_bid: u64,
}

#[derive(Clone, Debug, PartialEq, Eq)]
pub struct AuctionHistoryResponse {
    pub end_time: u64,
    pub seller: String,
    pub cw721_address: String,
    pub token_id: String,
    pub highest_bid: u64,
    pub bidder: String,
}

#[derive(Clone, Debug, PartialEq, Eq)]
pub enum QueryResponse {
    HighestBid(HighestBidResponse),
    AuctionItem(AuctionItemResponse),
    AuctionHistory(AuctionHistoryResponse),
}

/// The transfer of the winning bid to the seller, to be sent by the host.
#[derive(Clone, Debug, PartialEq, Eq)]
pub struct Payout {
    pub to_address: String,
    pub amount: Coin,
}

#[derive(Clone, Debug, PartialEq, Eq)]
pub enum ContractError {
    /// The caller lacks the identity the operation asks for.
    Unauthorized {},
    /// The requested running time exceeds one week.
    ExpirationTimeError { val: u64 },
    /// The NFT registry refused to move the token.
    TransferNFTError { sender: String, token_id: String },
    /// An auction is already running.
    AuctionProgressError {},
    /// No auction is running.
    AuctionNoProgressError {},
    /// The bid does not exceed the highest bid.
    InvalidBidError { bid: u64, highest_bid: u64 },
    /// The auction has not reached its end time yet.
    AuctionTimeError {},
    /// The auction has reached its end time and takes no more bids.
    AuctionExpiredError {},
    /// The balance or the payment is below what is owed.
    InsufficientBalanceError {},
    /// The payment is not exactly one coin.
    FundsError {},
    /// No auction was recorded under this index.
    NoHistory { idx: u32 },
    /// No bid is held while no auction runs.
    NoBid {},
    /// The history index has reached its largest value.
    HistoryIndexOverflow {},
}

impl State {
    /// The values that stand in the slot while no auction runs.
    pub open spec fn is_cleared(self) -> bool {
        &&& self.mode == Mode::End
        &&& self.end_time == 0
        &&& self.seller@.len() == 0
        &&& self.cw721_address@.len() == 0
        &&& self.token_id@.len() == 0
        &&& self.start_bid == 0
    }

    fn cleared() -> (r: State)
        ensures
            r.is_cleared(),
    {
        State {
            mode: Mode::End,
            end_time: 0,
            seller: String::new(),
            cw721_address: String::new(),
            token_id: String::new(),
            start_bid: 0,
        }
    }
}

/// One auction contract instance: its own address, the auction slot, the
/// highest bid and the history of concluded auctions.
pub struct Auction {
    pub address: String,
    pub state: State,
    pub bid: Option<Bid>,
    pub histories: Vec<History>,
    pub history_index: u32,
}

impl Auction {
    pub open spec fn wf(self) -> bool {
        &&& self.history_index as int == self.histories@.len()
        &&& self.state.mode == Mode::End ==> self.state.is_cleared() && self.bid is None
        &&& self.state.mode == Mode::Progress ==> self.bid is Some
    }

    /// The highest bid while an auction runs.
    pub open spec fn highest(self) -> u64 {
        self.bid->Some_0.highest_bid
    }

    /// Whether `next` is this auction with the slot emptied, the bid cleared
    /// and the concluded auction appended to the history.
    pub open spec fn concluded_into(self, next: Auction) -> bool {
        &&& next.address == self.address
        &&& next.state.is_cleared()
        &&& next.bid is None
        &&& next.histories@ == self.histories@.push(self.record())
        &&& next.history_index == self.history_index + 1
    }

    /// The history record of the running auction.
    pub open spec fn record(self) -> History {
        History {
            end_time: self.state.end_time,
            seller: self.state.seller,
            cw721_address: self.state.cw721_address,
            token_id: self.state.token_id,
            highest_bid: self.bid->Some_0.highest_bid,
            bidder: self.bid->Some_0.bidder,
        }
    }

    /// The checks of `start_auction` that come before the token moves.
    pub open spec fn start_gate(
        self,
        caller: String,
        msg: StartAuctionMsg,
        owner: Option<String>,
    ) -> Result<(), ContractError> {
        if self.state.mode == Mode::Progress {
            Err(ContractError::AuctionProgressError {})
        } else if msg.expiration_time > MAX_EXPIRATION_SECONDS {
            Err(ContractError::ExpirationTimeError { val: msg.expiration_time })
        } else if !(owner is Some && owner->Some_0@ == caller@) {
            Err(ContractError::Unauthorized {})
        } else {
            Ok(())
        }
    }

    /// The auction once `caller` has opened it at block time `now`.
    pub open spec fn started(self, caller: String, msg: StartAuctionMsg, now: u64) -> Auction {
        Auction {
            address: self.address,
            state: State {
                mode: Mode::Progress,
                end_time: (now + msg.expiration_time * NANOS_PER_SECOND) as u64,
                seller: caller,
                cw721_address: msg.cw721_address,
                token_id: msg.token_id,
                start_bid: msg.start_bid,
            },
            bid: Some(Bid { highest_bid: msg.start_bid, bidder: caller }),
            histories: self.histories,
            history_index: self.history_index,
        }
    }

    /// The auction once `caller` has bid `msg.bid`.
    pub open spec fn with_bid(self, caller: String, msg: PlaceBidMsg) -> Auction {
        Auction { bid: Some(Bid { highest_bid: msg.bid, bidder: caller }), ..self }
    }

    /// The checks of `place_bid`, in the order they are made.
    pub open spec fn bid_gate(self, msg: PlaceBidMsg, now: u64, balance: u128) -> Result<
        (),
        ContractError,
    > {
        if self.state.mode != Mode::Progress {
            Err(ContractError::AuctionNoProgressError {})
        } else if now >= self.state.end_time {
            Err(ContractError::AuctionExpiredError {})
        } else if balance < msg.bid {
            Err(ContractError::InsufficientBalanceError {})
        } else if msg.bid <= self.highest() {
            Err(ContractError::InvalidBidError { bid: msg.bid, highest_bid: self.highest() })
        } else {
            Ok(())
        }
    }

    /// The checks of `end_auction` that come before the token moves.
    pub open spec fn end_gate(self, caller: String, now: u64, funds: Seq<Coin>) -> Result<
        (),
        ContractError,
    > {
        if self.state.mode != Mode::Progress {
            Err(ContractError::AuctionNoProgressError {})
        } else if now < self.state.end_time {
            Err(ContractError::AuctionTimeError {})
        } else if self.bid->Some_0.bidder@ != caller@ {
            Err(ContractError::Unauthorized {})
        } else if !is_single_coin(funds) {
            Err(ContractError::FundsError {})
        } else if funds[0].denom@ != settlement_denom() || funds[0].amount < self.highest() {
            Err(ContractError::InsufficientBalanceError {})
        } else if self.history_index == u32::MAX {
            Err(ContractError::HistoryIndexOverflow {})
        } else {
            Ok(())
        }
    }
}

/// Sets up an auction contract at `address` with no auction running and an
/// empty history.
pub fn instantiate(address: String, msg: &InstantiateMsg) -> (r: Auction)
    ensures
        r.wf(),
        r.address == address,
        r.state.is_cleared(),
        r.bid is None,
        r.histories@.len() == 0,
        r.history_index == 0,
{
    Auction { address, state: State::cleared(), bid: None, histories: Vec::new(), history_index: 0 }
}

impl Auction {
    /// Makes the checks of `start_auction` that come before the token moves:
    /// no auction runs, the running time is at most a week, and the registry
    /// reported `caller` as the token's owner.
    pub fn start_auction_check(
        &self,
        caller: &String,
        msg: &StartAuctionMsg,
        owner: &Option<String>,
    ) -> (r: Result<(), ContractError>)
        ensures
            r == self.start_gate(*caller, *msg, *owner),
    {
        if self.state.mode == Mode::Progress {
            return Err(ContractError::AuctionProgressError {});
        }
        if msg.expiration_time > MAX_EXPIRATION_SECONDS {
            return Err(ContractError::ExpirationTimeError { val: msg.expiration_time });
        }
        match owner {
            Some(o) => {
                if *o != *caller {
                    return Err(ContractError::Unauthorized {});
                }
            },
            None => {
                return Err(ContractError::Unauthorized {});
            },
        }
        Ok(())
    }

    /// Opens an auction of the token `msg.token_id` for `caller` at block time
    /// `now`. `owner` is the token's owner as the registry reported it (`None`
    /// when it reported none) and `transferred` whether the registry moved the
    /// token into this contract's custody. On any error nothing changes. The
    /// end time, `now` plus the running time, must fit in a `u64`.
    pub fn start_auction(
        &mut self,
        caller: &String,
        msg: &StartAuctionMsg,
        now: u64,
        owner: &Option<String>,
        transferred: bool,
    ) -> (r: Result<(), ContractError>)
        requires
            old(self).wf(),
            old(self).start_gate(*caller, *msg, *owner) is Ok && transferred ==> now
                + msg.expiration_time * NANOS_PER_SECOND <= u64::MAX,
        ensures
            final(self).wf(),
            old(self).start_gate(*caller, *msg, *owner) is Err ==> r == old(self).start_gate(
                *caller,
                *msg,
                *owner,
            ) && *final(self) == *old(self),
            old(self).start_gate(*caller, *msg, *owner) is Ok && transferred ==> r is Ok
                && *final(self) == old(self).started(*caller, *msg, now),
            old(self).start_gate(*caller, *msg, *owner) is Ok && !transferred ==> r is Err && r->Err_0
                == (ContractError::TransferNFTError { sender: *caller, token_id: msg.token_id })
                && *final(self) == *old(self),
            msg.expiration_time > MAX_EXPIRATION_SECONDS ==> r is Err && *final(self) == *old(self),
            msg.expiration_time > MAX_EXPIRATION_SECONDS && old(self).state.mode == Mode::End ==> r
                is Err && r->Err_0 == (ContractError::ExpirationTimeError {
                val: msg.expiration_time,
            }),
    {
        let checked = self.start_auction_check(caller, msg, owner);
        if let Err(e) = checked {
            return Err(e);
        }
        if !transferred {
            return Err(
                ContractError::TransferNFTError {
                    sender: caller.clone(),
                    token_id: msg.token_id.clone(),
                },
            );
        }
        let end_time = now + msg.expiration_time * NANOS_PER_SECOND;
        self.bid = Some(Bid { highest_bid: msg.start_bid, bidder: caller.clone() });
        self.state = State {
            mode: Mode::Progress,
            end_time,
            seller: caller.clone(),
            cw721_address: msg.cw721_address.clone(),
            token_id: msg.token_id.clone(),
            start_bid: msg.start_bid,
        };
        Ok(())
    }

    /// Records a bid of `msg.bid` by `caller` at block time `now`, where
    /// `balance` is the caller's balance in the settlement denomination. No
    /// funds move: the balance is only checked. On any error nothing changes.
    pub fn place_bid(&mut self, caller: &String, msg: &PlaceBidMsg, now: u64, balance: u128) -> (r:
        Result<(), ContractError>)
        requires
            old(self).wf(),
        ensures
            final(self).wf(),
            old(self).bid_gate(*msg, now, balance) is Err ==> r == old(self).bid_gate(
                *msg,
                now,
                balance,
            ) && *final(self) == *old(self),
            old(self).bid_gate(*msg, now, balance) is Ok ==> r is Ok && *final(self) == old(self).with_bid(*caller, *msg),
            r is Ok ==> final(self).highest() > old(self).highest(),
            old(self).state.mode == Mode::Progress && msg.bid <= old(self).highest() ==> r is Err
                && *final(self) == *old(self),
    {
        if self.state.mode != Mode::Progress {
            return Err(ContractError::AuctionNoProgressError {});
        }
        if now >= self.state.end_time {
            return Err(ContractError::AuctionExpiredError {});
        }
        if balance < msg.bid as u128 {
            return Err(ContractError::InsufficientBalanceError {});
        }
        let highest = match &self.bid {
            Some(b) => b.highest_bid,
            None => 0,
        };
        if msg.bid <= highest {
            return Err(ContractError::InvalidBidError { bid: msg.bid, highest_bid: highest });
        }
        self.bid = Some(Bid { highest_bid: msg.bid, bidder: caller.clone() });
        Ok(())
    }

    /// Makes the checks of `end_auction` that come before the token moves: an
    /// auction runs and has reached its end time, `caller` holds the highest
    /// bid, `funds` is one coin of the settlement denomination covering it,
    /// and the history has room for one more record.
    pub fn end_auction_check(&self, caller: &String, now: u64, funds: &Vec<Coin>) -> (r: Result<
        (),
        ContractError,
    >)
        requires
            self.wf(),
        ensures
            r == self.end_gate(*caller, now, funds@),
    {
        if self.state.mode != Mode::Progress {
            return Err(ContractError::AuctionNoProgressError {});
        }
        if now < self.state.end_time {
            return Err(ContractError::AuctionTimeError {});
        }
        let (highest, bidder_matches) = match &self.bid {
            Some(b) => (b.highest_bid, b.bidder == *caller),
            None => (0, false),
        };
        if !bidder_matches {
            return Err(ContractError::Unauthorized {});
        }
        match one_coin(funds) {
            Ok(coin) => {
                let denom = settlement_denom_string();
                if coin.denom != denom || coin.amount < highest as u128 {
                    return Err(ContractError::InsufficientBalanceError {});
                }
            },
            Err(_) => {
                return Err(ContractError::FundsError {});
            },
        }
        if self.history_index == u32::MAX {
            return Err(ContractError::HistoryIndexOverflow {});
        }
        Ok(())
    }

    /// Concludes the running auction for `caller` at block time `now`, paid
    /// with `funds`; `transferred` is whether the registry moved the token
    /// from this contract to the caller. The auction slot is emptied, the bid
    /// cleared and the auction appended to the history at the previous index;
    /// the result is the payment of the winning bid to the seller. On any
    /// error nothing changes.
    pub fn end_auction(&mut self, caller: &String, now: u64, funds: &Vec<Coin>, transferred: bool) -> (r:
        Result<Payout, ContractError>)
        requires
            old(self).wf(),
        ensures
            final(self).wf(),
            old(self).end_gate(*caller, now, funds@) is Err ==> r is Err && r->Err_0 == old(self).end_gate(*caller, now, funds@)->Err_0 && *final(self) == *old(self),
            old(self).end_gate(*caller, now, funds@) is Ok && !transferred ==> r is Err && r->Err_0
                == (ContractError::TransferNFTError {
                sender: old(self).address,
                token_id: old(self).state.token_id,
            }) && *final(self) == *old(self),
            old(self).end_gate(*caller, now, funds@) is Ok && transferred ==> r is Ok,
            r is Ok ==> old(self).concluded_into(*final(self)),
            r is Ok ==> r->Ok_0.to_address == old(self).state.seller && r->Ok_0.amount.denom@
                == settlement_denom() && r->Ok_0.amount.amount == old(self).highest() as u128,
            r is Ok ==> old(self).state.mode == Mode::Progress && now >= old(self).state.end_time
                && old(self).bid->Some_0.bidder@ == caller@,
            r is Ok ==> final(self).histories@[old(self).history_index as int] == old(self).record(),
            old(self).state.mode == Mode::End ==> r is Err && *final(self) == *old(self),
            now < old(self).state.end_time ==> r is Err && *final(self) == *old(self),
            old(self).state.mode == Mode::Progress && now >= old(self).state.end_time && old(self).bid->Some_0.bidder@ != caller@ ==> r is Err && r->Err_0 == (ContractError::Unauthorized {})
                && *final(self) == *old(self),
    {
        let checked = self.end_auction_check(caller, now, funds);
        if let Err(e) = checked {
            return Err(e);
        }
        if !transferred {
            return Err(
                ContractError::TransferNFTError {
                    sender: self.address.clone(),
                    token_id: self.state.token_id.clone(),
                },
            );
        }
        let (highest_bid, bidder) = match &self.bid {
            Some(b) => (b.highest_bid, b.bidder.clone()),
            None => (0, String::new()),
        };
        let record = History {
            end_time: self.state.end_time,
            seller: self.state.seller.clone(),
            cw721_address: self.state.cw721_address.clone(),
            token_id: self.state.token_id.clone(),
            highest_bid,
            bidder,
        };
        let payout = Payout {
            to_address: self.state.seller.clone(),
            amount: Coin { denom: settlement_denom_string(), amount: highest_bid as u128 },
        };
        self.state = State::cleared();
        self.bid = None;
        self.histories.push(record);
        self.history_index = self.history_index + 1;
        Ok(payout)
    }

    /// The highest bid and its bidder while an auction runs.
    pub fn get_highest_bid(&self) -> (r: Result<HighestBidResponse, ContractError>)
        ensures
            self.bid is Some ==> r is Ok && r->Ok_0 == (HighestBidResponse {
                highest_bid: self.bid->Some_0.highest_bid,
                bidder: self.bid->Some_0.bidder,
            }),
            self.bid is None ==> r is Err && r->Err_0 == (ContractError::NoBid {}),
    {
        match &self.bid {
            Some(b) => Ok(HighestBidResponse { highest_bid: b.highest_bid, bidder: b.bidder.clone() }),
            None => Err(ContractError::NoBid {}),
        }
    }

    /// The item on sale: the empty values while no auction runs.
    pub fn get_auction_item(&self) -> (r: AuctionItemResponse)
        ensures
            r == (AuctionItemResponse {
                end_time: self.state.end_time,
                cw721_address: self.state.cw721_address,
                token_id: self.state.token_id,
                start_bid: self.state.start_bid,
            }),
    {
        AuctionItemResponse {
            end_time: self.state.end_time,
            cw721_address: self.state.cw721_address.clone(),
            token_id: self.state.token_id.clone(),
            start_bid: self.state.start_bid,
        }
    }

    /// The concluded auction recorded under `idx`.
    pub fn get_auction_history(&self, idx: u32) -> (r: Result<AuctionHistoryResponse, ContractError>)
        ensures
            idx < self.histories@.len() ==> r is Ok && r->Ok_0 == history_response(
                self.histories@[idx as int],
            ),
            idx >= self.histories@.len() ==> r is Err && r->Err_0 == (ContractError::NoHistory {
                idx,
            }),
    {
        if (idx as usize) < self.histories.len() {
            let h = &self.histories[idx as usize];
            Ok(
                AuctionHistoryResponse {
                    end_time: h.end_time,
                    seller: h.seller.clone(),
                    cw721_address: h.cw721_address.clone(),
                    token_id: h.token_id.clone(),
                    highest_bid: h.highest_bid,
                    bidder: h.bidder.clone(),
                },
            )
        } else {
            Err(ContractError::NoHistory { idx })
        }
    }
}

/// The reply to a history query for the record `h`.
pub open spec fn history_response(h: History) -> AuctionHistoryResponse {
    AuctionHistoryResponse {
        end_time: h.end_time,
        seller: h.seller,
        cw721_address: h.cw721_address,
        token_id: h.token_id,
        highest_bid: h.highest_bid,
        bidder: h.bidder,
    }
}

/// Answers a query on `auction`.
pub fn query(auction: &Auction, msg: &QueryMsg) -> (r: Result<QueryResponse, ContractError>)
    ensures
        match *msg {
            QueryMsg::GetHighestBid {} => match auction.bid {
                Some(b) => r is Ok && r->Ok_0 == QueryResponse::HighestBid(
                    (HighestBidResponse { highest_bid: b.highest_bid, bidder: b.bidder }),
                ),
                None => r is Err && r->Err_0 == (ContractError::NoBid {}),
            },
            QueryMsg::GetAuctionItem {} => r is Ok && r->Ok_0 == QueryResponse::AuctionItem(
                (AuctionItemResponse {
                    end_time: auction.state.end_time,
                    cw721_address: auction.state.cw721_address,
                    token_id: auction.state.token_id,
                    start_bid: auction.state.start_bid,
                }),
            ),
            QueryMsg::GetAuctionHistory { idx } => if idx < auction.histories@.len() {
                r is Ok && r->Ok_0 == QueryResponse::AuctionHistory(
                    history_response(auction.histories@[idx as int]),
                )
            } else {
                r is Err && r->Err_0 == (ContractError::NoHistory { idx })
            },
        },
{
    match msg {
        QueryMsg::GetHighestBid {} => match auction.get_highest_bid() {
            Ok(b) => Ok(QueryResponse::HighestBid(b)),
            Err(e) => Err(e),
        },
        QueryMsg::GetAuctionItem {} => Ok(QueryResponse::AuctionItem(auction.get_auction_item())),
        QueryMsg::GetAuctionHistory { idx } => match auction.get_auction_history(*idx) {
            Ok(h) => Ok(QueryResponse::AuctionHistory(h)),
            Err(e) => Err(e),
        },
    }
}

/// Along any run of accepted bids in one auction, the highest bid strictly
/// increases: `run[k + 1]` is `run[k]` after the bid `bids[k]` (caller,
/// message, block time, balance) was accepted.
pub proof fn lemma_accepted_bids_increase(
    run: Seq<Auction>,
    bids: Seq<(String, PlaceBidMsg, u64, u128)>,
)
    requires
        run.len() == bids.len() + 1,
        forall|k: int|
            0 <= k < bids.len() ==> (#[trigger] run[k]).bid_gate(bids[k].1, bids[k].2, bids[k].3)
                is Ok && run[k + 1] == run[k].with_bid(bids[k].0, bids[k].1),
    ensures
        forall|i: int, j: int| 0 <= i < j < run.len() ==> run[i].highest() < run[j].highest(),
{
    let h = run.map_values(|a: Auction| a.highest() as int);
    assert forall|k: int| 0 <= k < h.len() - 1 implies #[trigger] h[k] < h[k + 1] by {
        assert(run[k].bid_gate(bids[k].1, bids[k].2, bids[k].3) is Ok);
    }
    lemma_steps_increase(h);
    assert forall|i: int, j: int| 0 <= i < j < run.len() implies run[i].highest()
        < run[j].highest() by {
        assert(h[i] < h[j]);
    }
}

/// A sequence that increases at every step increases between any two places.
proof fn lemma_steps_increase(h: Seq<int>)
    requires
        forall|k: int| 0 <= k < h.len() - 1 ==> #[trigger] h[k] < h[k + 1],
    ensures
        forall|i: int, j: int| 0 <= i < j < h.len() ==> h[i] < h[j],
    decreases h.len(),
{
    if h.len() > 1 {
        let t = h.drop_last();
        assert forall|k: int| 0 <= k < t.len() - 1 implies #[trigger] t[k] < t[k + 1] by {
            assert(t[k] == h[k] && t[k + 1] == h[k + 1]);
        }
        lemma_steps_increase(t);
        assert forall|i: int, j: int| 0 <= i < j < h.len() implies h[i] < h[j] by {
            if j < h.len() - 1 {
                assert(t[i] == h[i] && t[j] == h[j]);
            } else if i < j - 1 {
                assert(t[i] == h[i] && t[j - 1] == h[j - 1]);
                assert(h[j - 1] < h[j]);
            }
        }
    }
}

} // verus!
