//! The auction as a mathematical state machine: what each request and each
//! answer does to the state, and what the auction asks for next.

use crate::actor::{nobody, ActorId};
use crate::auction_io::{AuctionAction, AuctionError, AuctionEvent, TamagotchiId, Transaction};
use crate::protocol::{
    owner_change, owner_query, owner_told, refused, succeeded, tamagotchi_answered, token_transfer,
    tokens_moved, Call, Delayed, Env, Reply, Stage, Step,
};
use gstd::ReservationId;
use vstd::prelude::*;

verus! {

/// Shortest auction that may be started, in milliseconds.
pub const MIN_DURATION: u64 = 300_000;

/// Gas that one reservation sets aside.
pub const RESERVATION_AMOUNT: u64 = 50_000_000_000;

/// Number of blocks for which a reservation is held.
pub const RESERVATION_DURATION: u32 = 86400;

/// Gas set aside for the system before a request that makes calls.
pub const SYSTEM_GAS: u64 = 1_000_000_000;

/// Gas set aside for the system before each token transfer.
pub const TRANSFER_GAS: u64 = 2_000_000_000;

/// Whether an auction is running.
#[derive(Clone, Copy, Debug, PartialEq, Eq, Structural)]
pub enum Status {
    ReadyToStart,
    InProcess,
}

impl Default for Status {
    fn default() -> (status: Status)
        ensures
            status == Status::ReadyToStart,
    {
        Status::ReadyToStart
    }
}

/// The state of an auction, as the contracts speak of it.
pub struct AuctionView {
    /// The tamagotchi that is, or last was, on sale.
    pub tamagotchi_id: TamagotchiId,
    pub status: Status,
    /// The highest bid so far, or the minimum bid before the first one.
    pub current_bid: u128,
    /// Who made the highest bid; zero while nobody has bid.
    pub current_bidder: ActorId,
    /// The token program in which bids are paid.
    pub ft_contract_id: ActorId,
    /// The operation in flight, if there is one.
    pub transaction: Option<Transaction>,
    /// The next transaction id to hand out.
    pub transaction_id: u64,
    /// When the running auction ends, in milliseconds; zero when idle.
    pub ended_at: u64,
    /// Who owned the tamagotchi before the auction took it over.
    pub prev_tmg_owner: ActorId,
    /// Gas reservations that are still unspent, oldest first.
    pub reservations: Seq<ReservationId>,
}

/// The transaction id that lies `by` after `id`, wrapping round at the end of
/// the range.
pub open spec fn advanced(id: u64, by: u64) -> u64 {
    if id + by > u64::MAX {
        (id + by - 0x1_0000_0000_0000_0000) as u64
    } else {
        (id + by) as u64
    }
}

/// The state with its transaction slot emptied.
pub open spec fn cleared(s: AuctionView) -> AuctionView {
    AuctionView { transaction: None, ..s }
}

/// The state once the auction of `tamagotchi_id` runs: the slot is empty,
/// the minimum bid stands as the current bid, and the deadline lies
/// `duration` after `now`.
pub open spec fn activated(
    s: AuctionView,
    tamagotchi_id: TamagotchiId,
    bid: u128,
    duration: u64,
    now: u64,
) -> AuctionView {
    AuctionView {
        tamagotchi_id,
        status: Status::InProcess,
        current_bid: bid,
        ended_at: (now + duration) as u64,
        transaction: None,
        ..s
    }
}

/// The state once a bid has been paid for: it is the current bid, and the
/// slot is empty.
pub open spec fn outbid(s: AuctionView, bidder: ActorId, bid: u128) -> AuctionView {
    AuctionView { current_bid: bid, current_bidder: bidder, transaction: None, ..s }
}

/// The state once an auction is settled: idle, with nobody bidding and the
/// slot empty.
pub open spec fn settled(s: AuctionView) -> AuctionView {
    AuctionView {
        transaction: None,
        prev_tmg_owner: nobody(),
        current_bidder: nobody(),
        status: Status::ReadyToStart,
        ended_at: 0,
        ..s
    }
}

/// The step that ends a start with success: the caller learns that the
/// auction has started, and a request to settle it is scheduled with the
/// duration of the auction as its delay.
pub open spec fn started(duration: u64) -> Step {
    Step::Finish {
        reply: Ok(AuctionEvent::AuctionStarted),
        delayed: Some(Delayed { action: AuctionAction::SettleAuction, delay: duration }),
    }
}

/// The first call of a transaction's completion, with the stage that takes
/// its answer.
pub open spec fn first_step(s: AuctionView, env: Env, tx: Transaction) -> Step {
    match tx {
        Transaction::StartAuction { tamagotchi_id, bid, duration } => Step::Await {
            call: owner_query(tamagotchi_id),
            stage: Stage::StartOwner { tamagotchi_id, bid, duration },
        },
        Transaction::MakeBid { transaction_id, bidder, bid } => Step::Await {
            call: token_transfer(transaction_id, s.ft_contract_id, bidder, env.program_id, bid),
            stage: Stage::BidPull { transaction_id, bidder, bid },
        },
        Transaction::SettleAuction { transaction_id } => Step::Await {
            call: owner_query(s.tamagotchi_id),
            stage: Stage::SettleOwner { transaction_id },
        },
    }
}

/// The transaction that a stage belongs to.
pub open spec fn stage_transaction(stage: Stage) -> Transaction {
    match stage {
        Stage::StartOwner { tamagotchi_id, bid, duration } => Transaction::StartAuction {
            tamagotchi_id,
            bid,
            duration,
        },
        Stage::StartTransfer { tamagotchi_id, bid, duration, owner } => Transaction::StartAuction {
            tamagotchi_id,
            bid,
            duration,
        },
        Stage::BidPull { transaction_id, bidder, bid } => Transaction::MakeBid {
            transaction_id,
            bidder,
            bid,
        },
        Stage::BidRefund { transaction_id, bidder, bid } => Transaction::MakeBid {
            transaction_id,
            bidder,
            bid,
        },
        Stage::SettleOwner { transaction_id } => Transaction::SettleAuction { transaction_id },
        Stage::SettleReturn { transaction_id } => Transaction::SettleAuction { transaction_id },
        Stage::SettlePayout { transaction_id } => Transaction::SettleAuction { transaction_id },
        Stage::SettleHandOver { transaction_id } => Transaction::SettleAuction { transaction_id },
    }
}

/// What the answer to the owner query of a start does.
pub open spec fn start_owner_told(
    s: AuctionView,
    env: Env,
    tamagotchi_id: TamagotchiId,
    bid: u128,
    duration: u64,
    reply: Reply,
) -> (AuctionView, Step) {
    match owner_told(reply) {
        None => (cleared(s), refused(AuctionError::WrongReceivedMessage)),
        Some(owner) => if owner == env.program_id {
            (activated(s, tamagotchi_id, bid, duration, env.block_timestamp), started(duration))
        } else if owner != env.source {
            (cleared(s), refused(AuctionError::NotOwner))
        } else {
            (
                s,
                Step::Await {
                    call: owner_change(tamagotchi_id, env.program_id),
                    stage: Stage::StartTransfer { tamagotchi_id, bid, duration, owner },
                },
            )
        },
    }
}

/// What the answer to the ownership transfer of a start does.
pub open spec fn start_transfer_told(
    s: AuctionView,
    env: Env,
    tamagotchi_id: TamagotchiId,
    bid: u128,
    duration: u64,
    owner: ActorId,
    reply: Reply,
) -> (AuctionView, Step) {
    if !tamagotchi_answered(reply) {
        (cleared(s), refused(AuctionError::UnableToChangeOwner))
    } else {
        (
            AuctionView {
                prev_tmg_owner: owner,
                ..activated(s, tamagotchi_id, bid, duration, env.block_timestamp)
            },
            started(duration),
        )
    }
}

/// What the answer to the transfer that pulls a bidder's tokens does.
pub open spec fn bid_pull_told(
    s: AuctionView,
    env: Env,
    transaction_id: u64,
    bidder: ActorId,
    bid: u128,
    reply: Reply,
) -> (AuctionView, Step) {
    if !tokens_moved(reply) {
        (cleared(s), refused(AuctionError::UnableToTransferTokens))
    } else if !s.current_bidder.is_zero() {
        (
            s,
            Step::Await {
                call: token_transfer(
                    advanced(transaction_id, 1),
                    s.ft_contract_id,
                    env.program_id,
                    s.current_bidder,
                    s.current_bid,
                ),
                stage: Stage::BidRefund { transaction_id, bidder, bid },
            },
        )
    } else {
        (outbid(s, bidder, bid), succeeded(AuctionEvent::BidMade { bid }))
    }
}

/// What the answer to the refund of the previous bidder does.
pub open spec fn bid_refund_told(s: AuctionView, bidder: ActorId, bid: u128, reply: Reply) -> (
    AuctionView,
    Step,
) {
    if !tokens_moved(reply) {
        (s, refused(AuctionError::RerunTransaction))
    } else {
        (outbid(s, bidder, bid), succeeded(AuctionEvent::BidMade { bid }))
    }
}

/// What the answer to the owner query of a settlement does.
pub open spec fn settle_owner_told(s: AuctionView, env: Env, transaction_id: u64, reply: Reply) -> (
    AuctionView,
    Step,
) {
    match owner_told(reply) {
        None => (s, refused(AuctionError::WrongReceivedMessage)),
        Some(owner) => if owner != env.program_id {
            (settled(s), succeeded(AuctionEvent::AuctionSettled))
        } else if s.current_bidder.is_zero() {
            (
                s,
                Step::Await {
                    call: owner_change(s.tamagotchi_id, s.prev_tmg_owner),
                    stage: Stage::SettleReturn { transaction_id },
                },
            )
        } else {
            (
                s,
                Step::Await {
                    call: token_transfer(
                        transaction_id,
                        s.ft_contract_id,
                        env.program_id,
                        s.prev_tmg_owner,
                        s.current_bid,
                    ),
                    stage: Stage::SettlePayout { transaction_id },
                },
            )
        },
    }
}

/// What the answer to the payout of a settlement does.
pub open spec fn settle_payout_told(s: AuctionView, transaction_id: u64, reply: Reply) -> (
    AuctionView,
    Step,
) {
    if !tokens_moved(reply) {
        (s, refused(AuctionError::RerunTransaction))
    } else {
        (
            s,
            Step::Await {
                call: owner_change(s.tamagotchi_id, s.current_bidder),
                stage: Stage::SettleHandOver { transaction_id },
            },
        )
    }
}

/// What the answer to the last ownership transfer of a settlement does.
pub open spec fn settle_transfer_told(s: AuctionView, reply: Reply) -> (AuctionView, Step) {
    if !tamagotchi_answered(reply) {
        (s, refused(AuctionError::RerunTransaction))
    } else {
        (settled(s), succeeded(AuctionEvent::AuctionSettled))
    }
}

/// The state with one more reservation, the newest last.
pub open spec fn reserved(s: AuctionView, reservation_id: ReservationId) -> AuctionView {
    AuctionView { reservations: s.reservations.push(reservation_id), ..s }
}

/// The state and the next step after the answer `reply` has arrived for the
/// call made at `stage`.
pub open spec fn resumed(s: AuctionView, env: Env, stage: Stage, reply: Reply) -> (
    AuctionView,
    Step,
) {
    match stage {
        Stage::StartOwner { tamagotchi_id, bid, duration } => start_owner_told(
            s,
            env,
            tamagotchi_id,
            bid,
            duration,
            reply,
        ),
        Stage::StartTransfer { tamagotchi_id, bid, duration, owner } => start_transfer_told(
            s,
            env,
            tamagotchi_id,
            bid,
            duration,
            owner,
            reply,
        ),
        Stage::BidPull { transaction_id, bidder, bid } => bid_pull_told(
            s,
            env,
            transaction_id,
            bidder,
            bid,
            reply,
        ),
        Stage::BidRefund { transaction_id, bidder, bid } => bid_refund_told(s, bidder, bid, reply),
        Stage::SettleOwner { transaction_id } => settle_owner_told(s, env, transaction_id, reply),
        Stage::SettleReturn { transaction_id } => settle_transfer_told(s, reply),
        Stage::SettlePayout { transaction_id } => settle_payout_told(s, transaction_id, reply),
        Stage::SettleHandOver { transaction_id } => settle_transfer_told(s, reply),
    }
}

/// Whether the answer `reply` at `stage` sets the auction going, and with it
/// the deadline: at the start of an auction, the answer that names the
/// auction itself as the owner, and the answer that confirms the transfer
/// to it.
pub open spec fn sets_deadline(env: Env, stage: Stage, reply: Reply) -> bool {
    match stage {
        Stage::StartOwner { .. } => owner_told(reply) == Some(env.program_id),
        Stage::StartTransfer { .. } => tamagotchi_answered(reply),
        _ => false,
    }
}

/// The duration of the auction that a stage starts; zero for the stages of
/// other transactions.
pub open spec fn stage_duration(stage: Stage) -> u64 {
    match stage {
        Stage::StartOwner { duration, .. } => duration,
        Stage::StartTransfer { duration, .. } => duration,
        _ => 0,
    }
}

/// Whether the answer `reply` at `stage` can be taken at the time of `env`:
/// where it sets the deadline, the deadline must not lie past the end of
/// time. Every other answer can be taken at any time.
pub open spec fn deadline_fits(env: Env, stage: Stage, reply: Reply) -> bool {
    sets_deadline(env, stage, reply) ==> env.block_timestamp + stage_duration(stage) <= u64::MAX
}

/// Whether a start request asks for the transaction `tx` again.
pub open spec fn start_matches(
    tx: Transaction,
    tamagotchi_id: TamagotchiId,
    minimum_bid: u128,
    duration: u64,
) -> bool {
    tx == (Transaction::StartAuction { tamagotchi_id, bid: minimum_bid, duration })
}

/// Whether a bid of `bid` by `bidder` asks for the transaction `tx` again.
pub open spec fn bid_matches(tx: Transaction, bidder: ActorId, bid: u128) -> bool {
    tx matches Transaction::MakeBid { bidder: pending_bidder, bid: pending_bid, .. }
        && pending_bidder == bidder && pending_bid == bid
}

/// What a request to start an auction does.
pub open spec fn start_requested(
    s: AuctionView,
    env: Env,
    tamagotchi_id: TamagotchiId,
    minimum_bid: u128,
    duration: u64,
) -> (AuctionView, Step) {
    match s.transaction {
        Some(tx) => if !(tx is StartAuction) {
            (s, refused(AuctionError::WrongTx))
        } else if !start_matches(tx, tamagotchi_id, minimum_bid, duration) {
            (s, refused(AuctionError::WrongParams))
        } else {
            (s, first_step(s, env, tx))
        },
        None => if s.status != Status::ReadyToStart {
            (s, refused(AuctionError::WrongState))
        } else if duration < MIN_DURATION {
            (s, refused(AuctionError::WrongDuration))
        } else {
            let tx = Transaction::StartAuction { tamagotchi_id, bid: minimum_bid, duration };
            (AuctionView { transaction: Some(tx), ..s }, first_step(s, env, tx))
        },
    }
}

/// What a bid does.
pub open spec fn bid_requested(s: AuctionView, env: Env, bid: u128) -> (AuctionView, Step) {
    match s.transaction {
        Some(tx) => if !(tx is MakeBid) {
            (s, refused(AuctionError::WrongTx))
        } else if !bid_matches(tx, env.source, bid) {
            (s, refused(AuctionError::WrongParams))
        } else {
            (s, first_step(s, env, tx))
        },
        None => if s.status != Status::InProcess {
            (s, refused(AuctionError::WrongState))
        } else if bid <= s.current_bid {
            (s, refused(AuctionError::WrongBid))
        } else {
            let tx = Transaction::MakeBid {
                transaction_id: s.transaction_id,
                bidder: env.source,
                bid,
            };
            (
                AuctionView {
                    transaction: Some(tx),
                    transaction_id: advanced(s.transaction_id, 2),
                    ..s
                },
                first_step(s, env, tx),
            )
        },
    }
}

/// What a request to settle the auction does.
pub open spec fn settle_requested(s: AuctionView, env: Env) -> (AuctionView, Step) {
    match s.transaction {
        Some(tx) => if !(tx is SettleAuction) {
            (s, refused(AuctionError::WrongTx))
        } else {
            (s, first_step(s, env, tx))
        },
        None => if env.block_timestamp < s.ended_at {
            (s, refused(AuctionError::WrongState))
        } else {
            let tx = Transaction::SettleAuction { transaction_id: s.transaction_id };
            (
                AuctionView {
                    transaction: Some(tx),
                    transaction_id: advanced(s.transaction_id, 1),
                    ..s
                },
                first_step(s, env, tx),
            )
        },
    }
}

/// What a request to complete the pending transaction does.
pub open spec fn completion_requested(s: AuctionView, env: Env, tx: Transaction) -> Step {
    match s.transaction {
        Some(pending) => if pending == tx {
            first_step(s, env, tx)
        } else {
            refused(AuctionError::WrongTx)
        },
        None => refused(AuctionError::NoTx),
    }
}

/// The step that asks the host for a gas reservation.
pub open spec fn reservation_step() -> Step {
    Step::Reserve { gas: RESERVATION_AMOUNT, duration: RESERVATION_DURATION }
}

/// What a request does, whichever it is.
pub open spec fn handled(s: AuctionView, env: Env, action: AuctionAction) -> (AuctionView, Step) {
    match action {
        AuctionAction::StartAuction { tamagotchi_id, minimum_bid, duration } => start_requested(
            s,
            env,
            tamagotchi_id,
            minimum_bid,
            duration,
        ),
        AuctionAction::MakeBid { bid } => bid_requested(s, env, bid),
        AuctionAction::SettleAuction => settle_requested(s, env),
        AuctionAction::MakeReservation => (s, reservation_step()),
        AuctionAction::CompleteTx(tx) => (s, completion_requested(s, env, tx)),
    }
}

/// The gas to set aside for the system before a request is handled: the
/// requests that make calls need it, the others none.
pub open spec fn request_gas(action: AuctionAction) -> Option<u64> {
    match action {
        AuctionAction::StartAuction { .. } | AuctionAction::MakeBid { .. }
        | AuctionAction::SettleAuction => Some(SYSTEM_GAS),
        _ => None,
    }
}

/// The gas to set aside for the system before a call is made: a token
/// transfer needs it, the other calls none.
pub open spec fn call_gas(call: Call) -> Option<u64> {
    match call {
        Call::Tokens { .. } => Some(TRANSFER_GAS),
        _ => None,
    }
}

/// A message that the auction sends to itself out of a gas reservation, to
/// have its pending transaction completed.
pub struct Resubmission {
    pub reservation_id: ReservationId,
    pub action: AuctionAction,
}

/// What the loss of a running operation does: while a transaction is pending
/// and a reservation is left, the oldest reservation is spent on a request
/// to complete that transaction. Otherwise nothing happens.
pub open spec fn signalled(s: AuctionView) -> (AuctionView, Option<Resubmission>) {
    match s.transaction {
        Some(tx) => if s.reservations.len() > 0 {
            (
                AuctionView { reservations: s.reservations.remove(0), ..s },
                Some(
                    Resubmission {
                        reservation_id: s.reservations[0],
                        action: AuctionAction::CompleteTx(tx),
                    },
                ),
            )
        } else {
            (s, None)
        },
        None => (s, None),
    }
}

} // verus!
