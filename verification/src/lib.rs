//! Tamagotchi contracts: an auction with interruption-safe transactions, a
//! battle arena and escrows, written as state machines over plain values.

pub mod actor;
pub mod auction;
pub mod auction_io;
pub mod auction_laws;
pub mod auction_model;
pub mod battle;
pub mod battle_io;
pub mod escrow;
pub mod escrow_new;
pub mod protocol;
pub mod tmg_io;
