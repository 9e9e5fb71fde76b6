//! Messages of the auction: what callers may ask, what they are told, and
//! the record of the one operation that may be in flight.

use crate::actor::ActorId;
use vstd::prelude::*;
use vstd::std_specs::cmp::PartialEqSpecImpl;

verus! {

pub type TamagotchiId = ActorId;

pub type TransactionId = u64;

pub type Bid = u128;

pub type Duration = u64;

/// The multi-step operation that the auction has begun and not yet finished.
///
/// A bid owns two adjacent transaction ids, its own and the next one: the
/// first tags the transfer that pulls the bidder's tokens, the second the
/// refund of the previous bidder. A settlement owns one.
#[derive(Clone, Copy, Debug, Eq)]
pub enum Transaction {
    StartAuction { tamagotchi_id: TamagotchiId, bid: Bid, duration: u64 },
    MakeBid { transaction_id: TransactionId, bidder: ActorId, bid: Bid },
    SettleAuction { transaction_id: TransactionId },
}

impl PartialEq for Transaction {
    fn eq(&self, other: &Transaction) -> (equal: bool) {
        match (*self, *other) {
            (
                Transaction::StartAuction { tamagotchi_id, bid, duration },
                Transaction::StartAuction {
                    tamagotchi_id: other_id,
                    bid: other_bid,
                    duration: other_duration,
                },
            ) => tamagotchi_id == other_id && bid == other_bid && duration == other_duration,
            (
                Transaction::MakeBid { transaction_id, bidder, bid },
                Transaction::MakeBid {
                    transaction_id: other_id,
                    bidder: other_bidder,
                    bid: other_bid,
                },
            ) => transaction_id == other_id && bidder == other_bidder && bid == other_bid,
            (
                Transaction::SettleAuction { transaction_id },
                Transaction::SettleAuction { transaction_id: other_id },
            ) => transaction_id == other_id,
            _ => false,
        }
    }
}

impl PartialEqSpecImpl for Transaction {
    open spec fn obeys_eq_spec() -> bool {
        true
    }

    open spec fn eq_spec(&self, other: &Transaction) -> bool {
        *self == *other
    }
}

/// A request to the auction.
#[derive(Clone, Copy, Debug, PartialEq, Eq)]
pub enum AuctionAction {
    StartAuction { tamagotchi_id: TamagotchiId, minimum_bid: Bid, duration: u64 },
    MakeBid { bid: Bid },
    SettleAuction,
    MakeReservation,
    CompleteTx(Transaction),
}

/// What the auction reports when a request has been carried out.
#[derive(Clone, Copy, Debug, PartialEq, Eq, Structural)]
pub enum AuctionEvent {
    AuctionStarted,
    BidMade { bid: Bid },
    AuctionSettled,
    ReservationMade,
}

/// Why the auction did not carry out a request.
#[derive(Clone, Copy, Debug, PartialEq, Eq, Structural)]
pub enum AuctionError {
    RerunTransaction,
    UnableToChangeOwner,
    UnableToTransferTokens,
    WrongTx,
    WrongParams,
    WrongState,
    WrongDuration,
    WrongBid,
    NoTx,
    WrongReceivedMessage,
    NotOwner,
}

} // verus!
