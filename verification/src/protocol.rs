//! The vocabulary of an interruptible operation: the calls that the auction
//! asks its host to make, the answers that come back, and the place at which
//! a suspended operation goes on.

use crate::actor::ActorId;
use crate::auction_io::{AuctionAction, AuctionError, AuctionEvent, TamagotchiId, TransactionId};
use crate::tmg_io::{named_owner, owner_in, TmgAction, TmgEvent};
use vstd::prelude::*;

verus! {

/// What the host knows about the message that is being handled.
#[derive(Clone, Copy, Debug)]
pub struct Env {
    /// The sender of the message.
    pub source: ActorId,
    /// The auction program itself.
    pub program_id: ActorId,
    /// The time of the current block, in milliseconds.
    pub block_timestamp: u64,
}

/// A request that the host carries out for the auction before it hands the
/// answer back.
#[derive(Clone, Copy, Debug, PartialEq, Eq)]
pub enum Call {
    /// Send `action` to the tamagotchi `target` and wait for its answer.
    Tamagotchi { target: TamagotchiId, action: TmgAction },
    /// Ask the token program `token_address` to move `amount` tokens from
    /// `sender` to `recipient`. The token program applies a given
    /// `transaction_id` once, however often it is asked.
    Tokens {
        token_address: ActorId,
        transaction_id: TransactionId,
        sender: ActorId,
        recipient: ActorId,
        amount: u128,
    },
}

/// The answer to a `Call`.
#[derive(Clone, Debug, PartialEq, Eq)]
pub enum Reply {
    /// The tamagotchi answered with this event.
    Tamagotchi(TmgEvent),
    /// The token program confirmed the transfer.
    TokensTransferred,
    /// The call could not be sent, was refused, or the answer was not the one
    /// that the call expects.
    Failed,
}

/// The owner that a reply reports, if it is a tamagotchi's `Owner` event.
pub open spec fn owner_told(reply: Reply) -> Option<ActorId> {
    match reply {
        Reply::Tamagotchi(event) => named_owner(event),
        _ => None,
    }
}

/// Whether a reply is an answer of the tamagotchi, whichever event it holds.
pub open spec fn tamagotchi_answered(reply: Reply) -> bool {
    reply is Tamagotchi
}

/// Whether a reply confirms a token transfer.
pub open spec fn tokens_moved(reply: Reply) -> bool {
    reply is TokensTransferred
}

/// The place at which a suspended operation goes on when the answer to its
/// last call arrives. Each stage holds the transaction that it belongs to.
#[derive(Clone, Copy, Debug, PartialEq, Eq)]
pub enum Stage {
    /// Start: the owner of the tamagotchi was asked for.
    StartOwner { tamagotchi_id: TamagotchiId, bid: u128, duration: u64 },
    /// Start: `owner` was asked to hand the tamagotchi to the auction.
    StartTransfer { tamagotchi_id: TamagotchiId, bid: u128, duration: u64, owner: ActorId },
    /// Bid: the bidder's tokens are being pulled in.
    BidPull { transaction_id: TransactionId, bidder: ActorId, bid: u128 },
    /// Bid: the previous bidder is being refunded.
    BidRefund { transaction_id: TransactionId, bidder: ActorId, bid: u128 },
    /// Settlement: the owner of the tamagotchi was asked for.
    SettleOwner { transaction_id: TransactionId },
    /// Settlement without a bidder: the tamagotchi goes back to its owner.
    SettleReturn { transaction_id: TransactionId },
    /// Settlement: the winning bid is being paid out to the previous owner.
    SettlePayout { transaction_id: TransactionId },
    /// Settlement: the tamagotchi is being handed to the winner.
    SettleHandOver { transaction_id: TransactionId },
}

/// A message that the auction wants delivered to itself after `delay`. The
/// delay is meant in full; the host takes as much of it as it can count.
#[derive(Clone, Copy, Debug, PartialEq, Eq)]
pub struct Delayed {
    pub action: AuctionAction,
    pub delay: u64,
}

/// What the auction wants next.
#[derive(Clone, Copy, Debug, PartialEq, Eq)]
pub enum Step {
    /// Make `call`, then resume at `stage` with the answer.
    Await { call: Call, stage: Stage },
    /// Reserve `gas` for `duration` blocks, then hand the reservation to
    /// `Auction::make_reservation`, which gives the reply.
    Reserve { gas: u64, duration: u32 },
    /// The request is done: send `reply` to the caller and, if there is one,
    /// schedule the delayed message.
    Finish { reply: Result<AuctionEvent, AuctionError>, delayed: Option<Delayed> },
}

/// The step that ends a request with an event and no delayed message.
pub open spec fn succeeded(event: AuctionEvent) -> Step {
    Step::Finish { reply: Ok(event), delayed: None }
}

/// The step that ends a request with an error.
pub open spec fn refused(error: AuctionError) -> Step {
    Step::Finish { reply: Err(error), delayed: None }
}

/// The call that asks a tamagotchi who owns it.
pub open spec fn owner_query(tamagotchi_id: TamagotchiId) -> Call {
    Call::Tamagotchi { target: tamagotchi_id, action: TmgAction::Owner }
}

/// The call that asks a tamagotchi to pass to `new_owner`.
pub open spec fn owner_change(tamagotchi_id: TamagotchiId, new_owner: ActorId) -> Call {
    Call::Tamagotchi { target: tamagotchi_id, action: TmgAction::Transfer(new_owner) }
}

/// The call that moves tokens under a transaction id.
pub open spec fn token_transfer(
    transaction_id: TransactionId,
    token_address: ActorId,
    from: ActorId,
    to: ActorId,
    amount: u128,
) -> Call {
    Call::Tokens { token_address, transaction_id, sender: from, recipient: to, amount }
}

/// Builds the call that asks a tamagotchi who owns it.
pub fn get_owner(tamagotchi_id: &TamagotchiId) -> (call: Call)
    ensures
        call == owner_query(*tamagotchi_id),
{
    Call::Tamagotchi { target: *tamagotchi_id, action: TmgAction::Owner }
}

/// Builds the call that asks a tamagotchi to pass to `new_owner`.
pub fn change_owner(tamagotchi_id: &TamagotchiId, new_owner: &ActorId) -> (call: Call)
    ensures
        call == owner_change(*tamagotchi_id, *new_owner),
{
    Call::Tamagotchi { target: *tamagotchi_id, action: TmgAction::Transfer(*new_owner) }
}

/// Builds the call that moves `amount_tokens` from `from` to `to` in the
/// token program at `token_address`, under `transaction_id`.
pub fn transfer_tokens(
    transaction_id: TransactionId,
    token_address: &ActorId,
    from: &ActorId,
    to: &ActorId,
    amount_tokens: u128,
) -> (call: Call)
    ensures
        call == token_transfer(transaction_id, *token_address, *from, *to, amount_tokens),
{
    Call::Tokens {
        token_address: *token_address,
        transaction_id,
        sender: *from,
        recipient: *to,
        amount: amount_tokens,
    }
}

/// Reads the owner out of the answer to an owner query.
pub fn owner_from(reply: &Reply) -> (owner: Option<ActorId>)
    ensures
        owner == owner_told(*reply),
{
    match reply {
        Reply::Tamagotchi(event) => owner_in(event),
        _ => None,
    }
}

/// Tells whether the answer to an owner change confirms it.
pub fn owner_changed(reply: &Reply) -> (changed: bool)
    ensures
        changed == tamagotchi_answered(*reply),
{
    match reply {
        Reply::Tamagotchi(_) => true,
        _ => false,
    }
}

/// Tells whether the answer to a token transfer confirms it.
pub fn tokens_transferred(reply: &Reply) -> (moved: bool)
    ensures
        moved == tokens_moved(*reply),
{
    match reply {
        Reply::TokensTransferred => true,
        _ => false,
    }
}

} // verus!
