//! The escrow that a factory creates and speaks for: every request reaches
//! it through the factory, which names the account on whose behalf it asks.

use crate::actor::ActorId;
use crate::escrow::{EscrowEvent, EscrowState};
use vstd::prelude::*;

verus! {

/// An escrow under the control of a factory.
#[derive(Clone, Copy, Debug)]
pub struct Escrow {
    pub factory_id: ActorId,
    pub seller: ActorId,
    pub buyer: ActorId,
    pub price: u128,
    pub state: EscrowState,
}

/// A payment that the escrow wants sent.
#[derive(Clone, Copy, Debug, PartialEq, Eq)]
pub struct Payment {
    pub to: ActorId,
    pub event: EscrowEvent,
    pub value: u128,
}

/// What the confirmation of a delivery leads to: the payment to the seller
/// and the event for the factory.
#[derive(Clone, Copy, Debug, PartialEq, Eq)]
pub struct Delivered {
    pub payment: Payment,
    pub event: EscrowEvent,
}

impl Escrow {
    /// An escrow that the factory `factory_id` has just created. It waits
    /// for the buyer's payment and reports that it is ready.
    pub fn init(factory_id: ActorId, seller: ActorId, buyer: ActorId, price: u128) -> (created: (
        Escrow,
        EscrowEvent,
    ))
        ensures
            created.0 == (Escrow {
                factory_id,
                seller,
                buyer,
                price,
                state: EscrowState::AwaitingPayment,
            }),
            created.1 == EscrowEvent::ProgramInitialized,
    {
        (
            Escrow { factory_id, seller, buyer, price, state: EscrowState::AwaitingPayment },
            EscrowEvent::ProgramInitialized,
        )
    }

    /// Whether a message from `source` on behalf of `account`, carrying
    /// `value`, is the payment this escrow waits for: it waits for one, the
    /// factory sends it for the buyer, and the value is the price.
    pub open spec fn accepts_deposit(&self, source: ActorId, account: ActorId, value: u128) -> bool {
        &&& self.state == EscrowState::AwaitingPayment
        &&& source == self.factory_id
        &&& account == self.buyer
        &&& value == self.price
    }

    /// Whether a message from `source` on behalf of `account` confirms the
    /// delivery this escrow waits for: it waits for one, and the factory
    /// sends the message for the buyer.
    pub open spec fn accepts_confirmation(&self, source: ActorId, account: ActorId) -> bool {
        &&& self.state == EscrowState::AwaitingDelivery
        &&& source == self.factory_id
        &&& account == self.buyer
    }

    /// Tells whether a message is the payment this escrow waits for.
    pub fn can_deposit(&self, source: &ActorId, account: &ActorId, value: u128) -> (accepted: bool)
        ensures
            accepted == self.accepts_deposit(*source, *account, value),
    {
        self.state == EscrowState::AwaitingPayment && *source == self.factory_id && *account
            == self.buyer && value == self.price
    }

    /// Tells whether a message confirms the delivery this escrow waits for.
    pub fn can_confirm(&self, source: &ActorId, account: &ActorId) -> (accepted: bool)
        ensures
            accepted == self.accepts_confirmation(*source, *account),
    {
        self.state == EscrowState::AwaitingDelivery && *source == self.factory_id && *account
            == self.buyer
    }

    /// Takes the buyer's payment: from now on the escrow waits for the
    /// delivery.
    pub fn deposit(&mut self, source: &ActorId, account: &ActorId, value: u128) -> (event:
        EscrowEvent)
        requires
            old(self).accepts_deposit(*source, *account, value),
        ensures
            *final(self) == (Escrow { state: EscrowState::AwaitingDelivery, ..*old(self) }),
            event == EscrowEvent::FundsDeposited,
    {
        self.state = EscrowState::AwaitingDelivery;
        EscrowEvent::FundsDeposited
    }

    /// Takes the buyer's confirmation: the escrow closes, and the price is
    /// to be paid to the seller.
    pub fn confirm_delivery(&mut self, source: &ActorId, account: &ActorId) -> (outcome: Delivered)
        requires
            old(self).accepts_confirmation(*source, *account),
        ensures
            *final(self) == (Escrow { state: EscrowState::Closed, ..*old(self) }),
            outcome == (Delivered {
                payment: Payment {
                    to: old(self).seller,
                    event: EscrowEvent::PaymentToSeller,
                    value: old(self).price,
                },
                event: EscrowEvent::DeliveryConfirmed,
            }),
    {
        self.state = EscrowState::Closed;
        Delivered {
            payment: Payment {
                to: self.seller,
                event: EscrowEvent::PaymentToSeller,
                value: self.price,
            },
            event: EscrowEvent::DeliveryConfirmed,
        }
    }
}

} // verus!
