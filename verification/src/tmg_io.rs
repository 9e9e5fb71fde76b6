//! Messages and state of the tamagotchi program, the subject of auctions
//! and battles.

use crate::actor::ActorId;
use gstd::ReservationId;
use vstd::prelude::*;

verus! {

/// Identifier of an attribute that a tamagotchi can buy in the store.
pub type AttributeId = u32;

/// Identifier under which a downstream program deduplicates requests.
pub type TransactionId = u64;

/// The stored state of a tamagotchi.
pub struct Tamagotchi {
    pub name: String,
    pub date_of_birth: u64,
    pub owner: ActorId,
    pub fed: u64,
    pub fed_block: u64,
    pub entertained: u64,
    pub entertained_block: u64,
    pub rested: u64,
    pub rested_block: u64,
    pub allowed_account: Option<ActorId>,
    pub ft_contract_id: ActorId,
    pub ft_transaction_id: TransactionId,
    pub approve_transaction: Option<(TransactionId, ActorId, u128)>,
    pub reservations: Vec<ReservationId>,
}

/// A request to a tamagotchi.
#[derive(Clone, Copy, Debug, PartialEq, Eq)]
pub enum TmgAction {
    Name,
    Age,
    Feed,
    Play,
    Sleep,
    Transfer(ActorId),
    Approve(ActorId),
    RevokeApproval,
    ApproveTokens { account: ActorId, amount: u128 },
    SetFTokenContract(ActorId),
    BuyAttribute { store_id: ActorId, attribute_id: AttributeId },
    CheckState,
    ReserveGas { reservation_amount: u64, duration: u32 },
    Owner,
}

/// An answer of a tamagotchi.
#[derive(Clone, Debug, PartialEq, Eq)]
pub enum TmgEvent {
    Name(String),
    Age(u64),
    Fed,
    Entertained,
    Slept,
    Transfer(ActorId),
    Approve(ActorId),
    RevokeApproval,
    ApproveTokens { account: ActorId, amount: u128 },
    FTokenContractSet,
    ApprovalError,
    AttributeBought(AttributeId),
    CompletePrevPurchase(AttributeId),
    ErrorDuringPurchase,
    FeedMe,
    PlayWithMe,
    WantToSleep,
    MakeReservation,
    GasReserved,
    Owner(ActorId),
}

/// The owner that an answer names: `Some` exactly for `TmgEvent::Owner`.
pub open spec fn named_owner(event: TmgEvent) -> Option<ActorId> {
    match event {
        TmgEvent::Owner(owner) => Some(owner),
        _ => None,
    }
}

/// Reads the owner out of a tamagotchi's answer to `TmgAction::Owner`.
pub fn owner_in(event: &TmgEvent) -> (owner: Option<ActorId>)
    ensures
        owner == named_owner(*event),
{
    match event {
        TmgEvent::Owner(owner) => Some(*owner),
        _ => None,
    }
}

} // verus!
