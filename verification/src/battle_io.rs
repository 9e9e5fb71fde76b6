//! Messages and state of the battle between two tamagotchi.

use crate::actor::ActorId;
use crate::tmg_io::AttributeId;
use std::collections::BTreeSet;
use vstd::prelude::*;

verus! {

pub type TamagotchiId = ActorId;

/// Where a battle stands.
#[derive(Clone, Copy, Debug, PartialEq, Eq, Structural)]
pub enum BattleState {
    Registration,
    Moves,
    Waiting,
    GameIsOver,
}

impl Default for BattleState {
    fn default() -> (state: BattleState)
        ensures
            state == BattleState::Registration,
    {
        BattleState::Registration
    }
}

/// A tamagotchi that takes part in a battle.
#[derive(Clone, Debug)]
pub struct Player {
    pub owner: ActorId,
    pub tmg_id: TamagotchiId,
    pub energy: u16,
    pub power: u16,
    pub attributes: BTreeSet<AttributeId>,
}

/// A player as the contracts speak of it.
pub struct PlayerView {
    pub owner: ActorId,
    pub tmg_id: TamagotchiId,
    pub energy: u16,
    pub power: u16,
    pub attributes: Set<AttributeId>,
}

impl View for Player {
    type V = PlayerView;

    open spec fn view(&self) -> PlayerView {
        PlayerView {
            owner: self.owner,
            tmg_id: self.tmg_id,
            energy: self.energy,
            power: self.power,
            attributes: self.attributes@,
        }
    }
}

/// The state of the battle program.
pub struct Battle {
    pub players: Vec<Player>,
    pub state: BattleState,
    pub current_turn: u8,
    pub winner: ActorId,
    pub steps: u8,
    pub tmg_store_id: ActorId,
}

/// A battle as the contracts speak of it.
pub struct BattleView {
    pub players: Seq<PlayerView>,
    pub state: BattleState,
    pub current_turn: u8,
    pub winner: ActorId,
    pub steps: u8,
    pub tmg_store_id: ActorId,
}

impl View for Battle {
    type V = BattleView;

    open spec fn view(&self) -> BattleView {
        BattleView {
            players: Seq::new(self.players@.len(), |i: int| self.players@[i]@),
            state: self.state,
            current_turn: self.current_turn,
            winner: self.winner,
            steps: self.steps,
            tmg_store_id: self.tmg_store_id,
        }
    }
}

/// A request to the battle.
#[derive(Clone, Copy, Debug, PartialEq, Eq)]
pub enum BattleAction {
    Register { tmg_id: TamagotchiId },
    MakeMove,
    UpdateInfo,
    StartNewGame,
}

/// What the battle reports when a request has been carried out.
#[derive(Clone, Copy, Debug, PartialEq, Eq)]
pub enum BattleEvent {
    Registered { tmg_id: TamagotchiId },
    MoveMade,
    GoToWaitingState,
    GameIsOver,
    InfoUpdated,
    NewGame,
}

} // verus!
