//! The auction: one tamagotchi on sale at a time, paid for in tokens, with
//! every multi-step operation logged so that it can be taken up again.

use crate::actor::{nobody, ActorId};
use crate::auction_io::{
    AuctionAction, AuctionError, AuctionEvent, Bid, TamagotchiId, Transaction, TransactionId,
};
use crate::auction_model::{
    activated, bid_requested, call_gas, completion_requested, deadline_fits, first_step, handled,
    outbid, request_gas, reserved, resumed, settle_requested, settled, signalled, start_requested,
    stage_duration, started, AuctionView, Resubmission, Status, MIN_DURATION,
    RESERVATION_AMOUNT, RESERVATION_DURATION, SYSTEM_GAS, TRANSFER_GAS,
};
use crate::protocol::{
    change_owner, get_owner, owner_changed, owner_from, tokens_transferred, transfer_tokens, Call,
    Delayed, Env, Reply, Stage, Step,
};
use gstd::ReservationId;
use vstd::prelude::*;

verus! {

/// Tells how much gas to set aside for the system before `action` is
/// handled.
pub fn system_reserve_gas(action: &AuctionAction) -> (gas: Option<u64>)
    ensures
        gas == request_gas(*action),
{
    match action {
        AuctionAction::StartAuction { .. } | AuctionAction::MakeBid { .. }
        | AuctionAction::SettleAuction => Some(SYSTEM_GAS),
        _ => None,
    }
}

/// Tells how much gas to set aside for the system before `call` is made.
pub fn transfer_reserve_gas(call: &Call) -> (gas: Option<u64>)
    ensures
        gas == call_gas(*call),
{
    match call {
        Call::Tokens { .. } => Some(TRANSFER_GAS),
        _ => None,
    }
}

/// Tells whether the answer `reply` to the call made at `stage` can be taken
/// at the time of `env`: where it sets the auction going, the deadline must
/// not lie past the end of time.
pub fn can_take(env: &Env, stage: &Stage, reply: &Reply) -> (fits: bool)
    ensures
        fits == deadline_fits(*env, *stage, *reply),
{
    match stage {
        Stage::StartOwner { duration, .. } => {
            match owner_from(reply) {
                Some(owner) => owner != env.program_id || *duration <= u64::MAX
                    - env.block_timestamp,
                None => true,
            }
        },
        Stage::StartTransfer { duration, .. } => {
            !owner_changed(reply) || *duration <= u64::MAX - env.block_timestamp
        },
        _ => true,
    }
}

/// Tells whether any answer to the call made at `stage` can be taken at the
/// time of `env`: there is room for the deadline, whether or not the answer
/// will set it.
pub fn can_resume(env: &Env, stage: &Stage) -> (fits: bool)
    ensures
        fits == (env.block_timestamp + stage_duration(*stage) <= u64::MAX),
        fits ==> forall|reply: Reply| deadline_fits(*env, *stage, reply),
{
    match stage {
        Stage::StartOwner { duration, .. } | Stage::StartTransfer { duration, .. } => {
            *duration <= u64::MAX - env.block_timestamp
        },
        _ => true,
    }
}

/// The state of the auction program.
pub struct Auction {
    tamagotchi_id: TamagotchiId,
    status: Status,
    current_bid: u128,
    current_bidder: ActorId,
    ft_contract_id: ActorId,
    transaction: Option<Transaction>,
    transaction_id: TransactionId,
    ended_at: u64,
    prev_tmg_owner: ActorId,
    reservations: Vec<ReservationId>,
}

impl View for Auction {
    type V = AuctionView;

    closed spec fn view(&self) -> AuctionView {
        AuctionView {
            tamagotchi_id: self.tamagotchi_id,
            status: self.status,
            current_bid: self.current_bid,
            current_bidder: self.current_bidder,
            ft_contract_id: self.ft_contract_id,
            transaction: self.transaction,
            transaction_id: self.transaction_id,
            ended_at: self.ended_at,
            prev_tmg_owner: self.prev_tmg_owner,
            reservations: self.reservations@,
        }
    }
}

/// The state of an auction that has never run and is paid in the token
/// program `ft_contract_id`.
pub open spec fn fresh(ft_contract_id: ActorId) -> AuctionView {
    AuctionView {
        tamagotchi_id: nobody(),
        status: Status::ReadyToStart,
        current_bid: 0,
        current_bidder: nobody(),
        ft_contract_id,
        transaction: None,
        transaction_id: 0,
        ended_at: 0,
        prev_tmg_owner: nobody(),
        reservations: Seq::empty(),
    }
}

impl Default for Auction {
    fn default() -> (auction: Auction)
        ensures
            auction@ == fresh(nobody()),
    {
        Auction::new(ActorId::zero())
    }
}

impl Auction {
    /// An idle auction whose bids are paid in the token program
    /// `ft_contract_id`.
    pub fn new(ft_contract_id: ActorId) -> (auction: Auction)
        ensures
            auction@ == fresh(ft_contract_id),
    {
        Auction {
            tamagotchi_id: ActorId::zero(),
            status: Status::ReadyToStart,
            current_bid: 0,
            current_bidder: ActorId::zero(),
            ft_contract_id,
            transaction: None,
            transaction_id: 0,
            ended_at: 0,
            prev_tmg_owner: ActorId::zero(),
            reservations: Vec::new(),
        }
    }

    /// The tamagotchi that is, or last was, on sale.
    pub fn tamagotchi_id(&self) -> (id: TamagotchiId)
        ensures
            id == self@.tamagotchi_id,
    {
        self.tamagotchi_id
    }

    /// Whether an auction is running.
    pub fn status(&self) -> (status: Status)
        ensures
            status == self@.status,
    {
        self.status
    }

    /// The highest bid so far, or the minimum bid before the first one.
    pub fn current_bid(&self) -> (bid: u128)
        ensures
            bid == self@.current_bid,
    {
        self.current_bid
    }

    /// Who made the highest bid; zero while nobody has bid.
    pub fn current_bidder(&self) -> (bidder: ActorId)
        ensures
            bidder == self@.current_bidder,
    {
        self.current_bidder
    }

    /// The token program in which bids are paid.
    pub fn ft_contract_id(&self) -> (id: ActorId)
        ensures
            id == self@.ft_contract_id,
    {
        self.ft_contract_id
    }

    /// The transaction in flight, if there is one.
    pub fn transaction(&self) -> (tx: Option<Transaction>)
        ensures
            tx == self@.transaction,
    {
        self.transaction
    }

    /// The next transaction id to hand out.
    pub fn transaction_id(&self) -> (id: TransactionId)
        ensures
            id == self@.transaction_id,
    {
        self.transaction_id
    }

    /// When the running auction ends, in milliseconds; zero when idle.
    pub fn ended_at(&self) -> (deadline: u64)
        ensures
            deadline == self@.ended_at,
    {
        self.ended_at
    }

    /// Who owned the tamagotchi before the auction took it over.
    pub fn prev_tmg_owner(&self) -> (owner: ActorId)
        ensures
            owner == self@.prev_tmg_owner,
    {
        self.prev_tmg_owner
    }

    /// The gas reservations that are still unspent, oldest first.
    pub fn reservations(&self) -> (held: &Vec<ReservationId>)
        ensures
            held@ == self@.reservations,
    {
        &self.reservations
    }

    /// Begins to complete `tx`: nothing changes yet, and the result is the
    /// first call that `tx` needs together with the stage that takes its
    /// answer.
    pub fn complete_tx(&self, env: &Env, tx: Transaction) -> (step: Step)
        ensures
            step == first_step(self@, *env, tx),
    {
        match tx {
            Transaction::StartAuction { tamagotchi_id, bid, duration } => Step::Await {
                call: get_owner(&tamagotchi_id),
                stage: Stage::StartOwner { tamagotchi_id, bid, duration },
            },
            Transaction::MakeBid { transaction_id, bidder, bid } => Step::Await {
                call: transfer_tokens(
                    transaction_id,
                    &self.ft_contract_id,
                    &bidder,
                    &env.program_id,
                    bid,
                ),
                stage: Stage::BidPull { transaction_id, bidder, bid },
            },
            Transaction::SettleAuction { transaction_id } => Step::Await {
                call: get_owner(&self.tamagotchi_id),
                stage: Stage::SettleOwner { transaction_id },
            },
        }
    }

    /// Handles a request to put `tamagotchi_id` on sale for `duration`
    /// milliseconds, with bids above `minimum_bid`.
    ///
    /// While a transaction is pending, only the very same start is taken up
    /// again; any other request is turned away and nothing changes. With the
    /// slot empty, the auction must be idle and the duration long enough;
    /// then the start is logged and its first call is asked for.
    pub fn start_auction(
        &mut self,
        env: &Env,
        tamagotchi_id: &TamagotchiId,
        minimum_bid: Bid,
        duration: u64,
    ) -> (step: Step)
        ensures
            (final(self)@, step) == start_requested(
                old(self)@,
                *env,
                *tamagotchi_id,
                minimum_bid,
                duration,
            ),
    {
        if let Some(tx) = self.transaction {
            return match tx {
                Transaction::StartAuction {
                    tamagotchi_id: prev_tmg_id,
                    bid,
                    duration: prev_duration,
                } => {
                    if *tamagotchi_id != prev_tmg_id || bid != minimum_bid || duration
                        != prev_duration {
                        Step::Finish { reply: Err(AuctionError::WrongParams), delayed: None }
                    } else {
                        self.complete_tx(env, tx)
                    }
                },
                _ => Step::Finish { reply: Err(AuctionError::WrongTx), delayed: None },
            };
        }
        if self.status != Status::ReadyToStart {
            return Step::Finish { reply: Err(AuctionError::WrongState), delayed: None };
        }
        if duration < MIN_DURATION {
            return Step::Finish { reply: Err(AuctionError::WrongDuration), delayed: None };
        }
        let tx = Transaction::StartAuction {
            tamagotchi_id: *tamagotchi_id,
            bid: minimum_bid,
            duration,
        };
        let step = self.complete_tx(env, tx);
        self.transaction = Some(tx);
        step
    }

    /// Handles a bid of `bid` tokens by the sender of the message.
    ///
    /// While a transaction is pending, only the same bid by the same bidder
    /// is taken up again; any other request is turned away and nothing
    /// changes. With the slot empty, an auction must be running and the bid
    /// must exceed the current one; then the bid is logged under two fresh
    /// transaction ids and its first call is asked for.
    pub fn make_bid(&mut self, env: &Env, bid: u128) -> (step: Step)
        ensures
            (final(self)@, step) == bid_requested(old(self)@, *env, bid),
    {
        if let Some(tx) = self.transaction {
            return match tx {
                Transaction::MakeBid { transaction_id: _, bidder, bid: prev_bid } => {
                    if bidder == env.source && bid == prev_bid {
                        self.complete_tx(env, tx)
                    } else {
                        Step::Finish { reply: Err(AuctionError::WrongParams), delayed: None }
                    }
                },
                _ => Step::Finish { reply: Err(AuctionError::WrongTx), delayed: None },
            };
        }
        if self.status != Status::InProcess {
            return Step::Finish { reply: Err(AuctionError::WrongState), delayed: None };
        }
        if bid <= self.current_bid {
            return Step::Finish { reply: Err(AuctionError::WrongBid), delayed: None };
        }
        let transaction_id = self.transaction_id;
        let tx = Transaction::MakeBid { transaction_id, bidder: env.source, bid };
        let step = self.complete_tx(env, tx);
        self.transaction_id = self.transaction_id.wrapping_add(2);
        self.transaction = Some(tx);
        step
    }

    /// Handles a request to settle the auction.
    ///
    /// A pending settlement is taken up again; any other pending
    /// transaction turns the request away and nothing changes. With the
    /// slot empty, the deadline must have been reached; then the settlement
    /// is logged under a fresh transaction id and its first call is asked
    /// for.
    pub fn settle_auction(&mut self, env: &Env) -> (step: Step)
        ensures
            (final(self)@, step) == settle_requested(old(self)@, *env),
    {
        if let Some(tx) = self.transaction {
            return match tx {
                Transaction::SettleAuction { .. } => self.complete_tx(env, tx),
                _ => Step::Finish { reply: Err(AuctionError::WrongTx), delayed: None },
            };
        }
        if env.block_timestamp < self.ended_at {
            return Step::Finish { reply: Err(AuctionError::WrongState), delayed: None };
        }
        let transaction_id = self.transaction_id;
        let tx = Transaction::SettleAuction { transaction_id };
        let step = self.complete_tx(env, tx);
        self.transaction_id = self.transaction_id.wrapping_add(1);
        self.transaction = Some(tx);
        step
    }

    /// Handles a request to complete the transaction `tx`: it is taken up
    /// where it is the pending one, and turned away otherwise.
    pub fn complete_pending(&self, env: &Env, tx: Transaction) -> (step: Step)
        ensures
            step == completion_requested(self@, *env, tx),
    {
        match self.transaction {
            Some(pending) => {
                if tx == pending {
                    self.complete_tx(env, tx)
                } else {
                    Step::Finish { reply: Err(AuctionError::WrongTx), delayed: None }
                }
            },
            None => Step::Finish { reply: Err(AuctionError::NoTx), delayed: None },
        }
    }

    /// Stores a gas reservation that the host has granted, behind the ones
    /// already held.
    pub fn make_reservation(&mut self, reservation_id: ReservationId) -> (reply: Result<
        AuctionEvent,
        AuctionError,
    >)
        ensures
            final(self)@ == reserved(old(self)@, reservation_id),
            reply == Ok::<AuctionEvent, AuctionError>(AuctionEvent::ReservationMade),
    {
        self.reservations.push(reservation_id);
        Ok(AuctionEvent::ReservationMade)
    }

    /// Routes a request to the handler of its kind.
    pub fn handle(&mut self, env: &Env, action: AuctionAction) -> (step: Step)
        ensures
            (final(self)@, step) == handled(old(self)@, *env, action),
    {
        match action {
            AuctionAction::StartAuction { tamagotchi_id, minimum_bid, duration } => {
                self.start_auction(env, &tamagotchi_id, minimum_bid, duration)
            },
            AuctionAction::MakeBid { bid } => self.make_bid(env, bid),
            AuctionAction::SettleAuction => self.settle_auction(env),
            AuctionAction::MakeReservation => Step::Reserve {
                gas: RESERVATION_AMOUNT,
                duration: RESERVATION_DURATION,
            },
            AuctionAction::CompleteTx(tx) => self.complete_pending(env, tx),
        }
    }

    /// Reacts to the loss of a running operation: while a transaction is
    /// pending and a reservation is left, takes the oldest reservation out
    /// and returns it with the request that completes the transaction, for
    /// the host to send to the auction itself.
    pub fn my_handle_signal(&mut self) -> (resubmission: Option<Resubmission>)
        ensures
            (final(self)@, resubmission) == signalled(old(self)@),
    {
        if let Some(tx) = self.transaction {
            if self.reservations.len() > 0 {
                let reservation_id = self.reservations.remove(0);
                return Some(Resubmission { reservation_id, action: AuctionAction::CompleteTx(tx) });
            }
        }
        None
    }

    /// Ends a start with success and schedules the settlement.
    fn started(duration: u64) -> (step: Step)
        ensures
            step == started(duration),
    {
        Step::Finish {
            reply: Ok(AuctionEvent::AuctionStarted),
            delayed: Some(Delayed { action: AuctionAction::SettleAuction, delay: duration }),
        }
    }

    /// Puts the auction of `tamagotchi_id` under way and empties the slot.
    fn activate(&mut self, tamagotchi_id: TamagotchiId, bid: u128, duration: u64, now: u64)
        requires
            now + duration <= u64::MAX,
        ensures
            final(self)@ == activated(old(self)@, tamagotchi_id, bid, duration, now),
    {
        self.tamagotchi_id = tamagotchi_id;
        self.status = Status::InProcess;
        self.current_bid = bid;
        self.ended_at = now + duration;
        self.transaction = None;
    }

    /// Records a paid bid as the highest one and empties the slot.
    fn accept_bid(&mut self, bidder: ActorId, bid: u128)
        ensures
            final(self)@ == outbid(old(self)@, bidder, bid),
    {
        self.current_bid = bid;
        self.current_bidder = bidder;
        self.transaction = None;
    }

    /// Returns the auction to its idle state and empties the slot.
    fn reset(&mut self)
        ensures
            final(self)@ == settled(old(self)@),
    {
        self.transaction = None;
        self.prev_tmg_owner = ActorId::zero();
        self.current_bidder = ActorId::zero();
        self.status = Status::ReadyToStart;
        self.ended_at = 0;
    }

    /// Takes the answer `reply` to the call that was made at `stage` and goes
    /// on with the transaction from there.
    ///
    /// The business state changes only when the last call of a transaction
    /// is confirmed, and the slot is emptied in the same step. A definite
    /// failure of the first call empties the slot and changes nothing else,
    /// and so does a start by somebody who does not own the tamagotchi. A
    /// failure after an earlier call took effect leaves everything as it is
    /// and reports `RerunTransaction`: the same request, sent again, repeats
    /// the calls under the same transaction ids.
    ///
    /// Only an answer that sets the auction going needs room for the
    /// deadline; `can_take` tells whether an answer has it.
    pub fn resume(&mut self, env: &Env, stage: Stage, reply: Reply) -> (step: Step)
        requires
            deadline_fits(*env, stage, reply),
        ensures
            (final(self)@, step) == resumed(old(self)@, *env, stage, reply),
    {
        match stage {
            Stage::StartOwner { tamagotchi_id, bid, duration } => {
                let owner = match owner_from(&reply) {
                    Some(owner) => owner,
                    None => {
                        self.transaction = None;
                        return Step::Finish {
                            reply: Err(AuctionError::WrongReceivedMessage),
                            delayed: None,
                        };
                    },
                };
                if owner == env.program_id {
                    self.activate(tamagotchi_id, bid, duration, env.block_timestamp);
                    return Self::started(duration);
                }
                if owner != env.source {
                    self.transaction = None;
                    return Step::Finish { reply: Err(AuctionError::NotOwner), delayed: None };
                }
                Step::Await {
                    call: change_owner(&tamagotchi_id, &env.program_id),
                    stage: Stage::StartTransfer { tamagotchi_id, bid, duration, owner },
                }
            },
            Stage::StartTransfer { tamagotchi_id, bid, duration, owner } => {
                if !owner_changed(&reply) {
                    self.transaction = None;
                    return Step::Finish {
                        reply: Err(AuctionError::UnableToChangeOwner),
                        delayed: None,
                    };
                }
                self.activate(tamagotchi_id, bid, duration, env.block_timestamp);
                self.prev_tmg_owner = owner;
                Self::started(duration)
            },
            Stage::BidPull { transaction_id, bidder, bid } => {
                if !tokens_transferred(&reply) {
                    self.transaction = None;
                    return Step::Finish {
                        reply: Err(AuctionError::UnableToTransferTokens),
                        delayed: None,
                    };
                }
                if !self.current_bidder.is_zero() {
                    return Step::Await {
                        call: transfer_tokens(
                            transaction_id.wrapping_add(1),
                            &self.ft_contract_id,
                            &env.program_id,
                            &self.current_bidder,
                            self.current_bid,
                        ),
                        stage: Stage::BidRefund { transaction_id, bidder, bid },
                    };
                }
                self.accept_bid(bidder, bid);
                Step::Finish { reply: Ok(AuctionEvent::BidMade { bid }), delayed: None }
            },
            Stage::BidRefund { transaction_id, bidder, bid } => {
                if !tokens_transferred(&reply) {
                    return Step::Finish {
                        reply: Err(AuctionError::RerunTransaction),
                        delayed: None,
                    };
                }
                self.accept_bid(bidder, bid);
                Step::Finish { reply: Ok(AuctionEvent::BidMade { bid }), delayed: None }
            },
            Stage::SettleOwner { transaction_id } => {
                let owner = match owner_from(&reply) {
                    Some(owner) => owner,
                    None => {
                        return Step::Finish {
                            reply: Err(AuctionError::WrongReceivedMessage),
                            delayed: None,
                        };
                    },
                };
                if owner == env.program_id {
                    if self.current_bidder.is_zero() {
                        return Step::Await {
                            call: change_owner(&self.tamagotchi_id, &self.prev_tmg_owner),
                            stage: Stage::SettleReturn { transaction_id },
                        };
                    }
                    return Step::Await {
                        call: transfer_tokens(
                            transaction_id,
                            &self.ft_contract_id,
                            &env.program_id,
                            &self.prev_tmg_owner,
                            self.current_bid,
                        ),
                        stage: Stage::SettlePayout { transaction_id },
                    };
                }
                self.reset();
                Step::Finish { reply: Ok(AuctionEvent::AuctionSettled), delayed: None }
            },
            Stage::SettlePayout { transaction_id } => {
                if !tokens_transferred(&reply) {
                    return Step::Finish {
                        reply: Err(AuctionError::RerunTransaction),
                        delayed: None,
                    };
                }
                Step::Await {
                    call: change_owner(&self.tamagotchi_id, &self.current_bidder),
                    stage: Stage::SettleHandOver { transaction_id },
                }
            },
            Stage::SettleReturn { .. } | Stage::SettleHandOver { .. } => {
                if !owner_changed(&reply) {
                    return Step::Finish {
                        reply: Err(AuctionError::RerunTransaction),
                        delayed: None,
                    };
                }
                self.reset();
                Step::Finish { reply: Ok(AuctionEvent::AuctionSettled), delayed: None }
            },
        }
    }
}

} // verus!
