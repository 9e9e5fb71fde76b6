//! Escrows: a buyer's payment is held until the buyer confirms delivery.

use crate::actor::ActorId;
use vstd::prelude::*;

verus! {

/// Where an escrow stands.
#[derive(Clone, Copy, Debug, PartialEq, Eq, Structural)]
pub enum EscrowState {
    AwaitingPayment,
    AwaitingDelivery,
    Closed,
}

impl Default for EscrowState {
    fn default() -> (state: EscrowState)
        ensures
            state == EscrowState::AwaitingPayment,
    {
        EscrowState::AwaitingPayment
    }
}

/// What an escrow reports when a request has been carried out.
#[derive(Clone, Copy, Debug, PartialEq, Eq, Structural)]
pub enum EscrowEvent {
    ProgramInitialized,
    FundsDeposited,
    DeliveryConfirmed,
    PaymentToSeller,
}

/// An escrow between one seller and one buyer.
#[derive(Clone, Copy, Debug)]
pub struct Escrow {
    pub seller: ActorId,
    pub buyer: ActorId,
    pub price: u128,
    pub state: EscrowState,
}

impl Escrow {
    /// An escrow that waits for the buyer's payment.
    pub fn new(seller: ActorId, buyer: ActorId, price: u128) -> (escrow: Escrow)
        ensures
            escrow == (Escrow { seller, buyer, price, state: EscrowState::AwaitingPayment }),
    {
        Escrow { seller, buyer, price, state: EscrowState::AwaitingPayment }
    }

    /// Whether a message from `source` that carries `value` is the payment
    /// this escrow waits for: it waits for one, the buyer sends it, and the
    /// value is the price.
    pub open spec fn accepts_deposit(&self, source: ActorId, value: u128) -> bool {
        self.state == EscrowState::AwaitingPayment && source == self.buyer && value == self.price
    }

    /// Tells whether a message from `source` that carries `value` is the
    /// payment this escrow waits for.
    pub fn can_deposit(&self, source: &ActorId, value: u128) -> (accepted: bool)
        ensures
            accepted == self.accepts_deposit(*source, value),
    {
        self.state == EscrowState::AwaitingPayment && *source == self.buyer && value == self.price
    }

    /// Takes the buyer's payment: from now on the escrow waits for the
    /// delivery.
    pub fn deposit(&mut self, source: &ActorId, value: u128) -> (event: EscrowEvent)
        requires
            old(self).accepts_deposit(*source, value),
        ensures
            *final(self) == (Escrow { state: EscrowState::AwaitingDelivery, ..*old(self) }),
            event == EscrowEvent::FundsDeposited,
    {
        self.state = EscrowState::AwaitingDelivery;
        EscrowEvent::FundsDeposited
    }

    /// Confirming a delivery does nothing in this escrow.
    pub fn confirm_delivery(&mut self)
        ensures
            *final(self) == *old(self),
    {
    }
}

/// The seller of an escrow.
pub fn seller(state: Escrow) -> (seller: ActorId)
    ensures
        seller == state.seller,
{
    state.seller
}

/// The buyer of an escrow.
pub fn buyer(state: Escrow) -> (buyer: ActorId)
    ensures
        buyer == state.buyer,
{
    state.buyer
}

/// Where an escrow stands.
pub fn escrow_state(state: Escrow) -> (stands: EscrowState)
    ensures
        stands == state.state,
{
    state.state
}

} // verus!
