//! The battle: two tamagotchi take turns hitting each other until one of
//! them has no energy left.

use crate::actor::{nobody, ActorId};
use crate::battle_io::{
    Battle, BattleAction, BattleEvent, BattleState, BattleView, Player, PlayerView, TamagotchiId,
};
use crate::tmg_io::{named_owner, AttributeId, TmgEvent};
use std::collections::BTreeSet;
use vstd::prelude::*;
use vstd::std_specs::btree::group_btree_axioms;

verus! {

broadcast use group_btree_axioms;

/// The attribute that makes its owner hit five times as hard.
pub const SWORD_ID: AttributeId = 1;

/// The factor by which a sword multiplies the power of a hit.
pub const SWORD_POWER: u16 = 5;

/// Gas given to the delayed message that refreshes the players.
pub const GAS_AMOUNT: u64 = 10_000_000_000;

/// Number of blocks after which the players are refreshed.
pub const TIME_FOR_UPDATE: u32 = 6;

/// Number of moves after which a round pauses.
pub const MAX_STEPS_FOR_ROUND: u8 = 5;

/// Power and energy of a player add up to this.
pub const MAX_POWER: u16 = 10_000;

/// The least power that is drawn; a lower draw is replaced by half of
/// `MAX_POWER`.
pub const MIN_POWER: u16 = 3_000;

/// The power that a player gets from 32 random bytes: the first two bytes,
/// read as a big-endian number and reduced below `MAX_POWER`, or half of
/// `MAX_POWER` where that is less than `MIN_POWER`.
pub open spec fn power_from(random: Seq<u8>) -> u16 {
    let drawn = (random[0] * 256 + random[1]) % (MAX_POWER as int);
    if drawn < MIN_POWER {
        (MAX_POWER / 2) as u16
    } else {
        drawn as u16
    }
}

/// The player who moves first, from 32 random bytes: 0 or 1, by the parity
/// of the first byte.
pub open spec fn turn_from(random: Seq<u8>) -> u8 {
    (random[0] % 2) as u8
}

/// Draws the side that moves first from random bytes.
pub fn get_turn(random: &[u8; 32]) -> (turn: u8)
    ensures
        turn == turn_from(random@),
        turn < 2,
{
    random[0] % 2
}

/// Draws the power of a new player from random bytes.
pub fn genetate_power(random: &[u8; 32]) -> (power: u16)
    ensures
        power == power_from(random@),
        MIN_POWER <= power < MAX_POWER,
{
    let high: u16 = random[0] as u16;
    let low: u16 = random[1] as u16;
    let random_power: u16 = (high * 256 + low) % MAX_POWER;
    if random_power < MIN_POWER {
        return MAX_POWER / 2;
    }
    random_power
}

/// Reads the owner out of a tamagotchi's answer to the question who owns
/// it. Any other answer is no answer to that question.
pub fn get_owner(reply: &TmgEvent) -> (owner: ActorId)
    requires
        reply is Owner,
    ensures
        named_owner(*reply) == Some(owner),
{
    match reply {
        TmgEvent::Owner(owner) => *owner,
        _ => ActorId::zero(),
    }
}

/// A message that the battle wants delivered to itself, with `gas`, after
/// `delay` blocks.
#[derive(Clone, Copy, Debug, PartialEq, Eq)]
pub struct Scheduled {
    pub action: BattleAction,
    pub gas: u64,
    pub delay: u32,
}

/// What a move leads to: the event for the caller, and the message to
/// schedule where the round pauses.
#[derive(Clone, Copy, Debug, PartialEq, Eq)]
pub struct Moved {
    pub event: BattleEvent,
    pub scheduled: Option<Scheduled>,
}

/// Whether a battle is fit to be played: while moves are made or awaited
/// there are exactly two players and the turn is one of them, and no
/// player's power reaches `MAX_POWER`.
pub open spec fn playable(b: BattleView) -> bool {
    &&& (b.state == BattleState::Moves || b.state == BattleState::Waiting) ==> b.players.len() == 2
        && b.current_turn < 2
    &&& b.state == BattleState::Registration ==> b.players.len() < 2
    &&& forall|i: int| 0 <= i < b.players.len() ==> (#[trigger] b.players[i]).power < MAX_POWER
}

/// A battle without players, that looks up attributes in `tmg_store_id`.
pub open spec fn vacant(tmg_store_id: ActorId) -> BattleView {
    BattleView {
        players: Seq::empty(),
        state: BattleState::Registration,
        current_turn: 0,
        winner: nobody(),
        steps: 0,
        tmg_store_id,
    }
}

/// The player who enters a battle with the given power: power and energy
/// add up to `MAX_POWER`.
pub open spec fn entrant(
    owner: ActorId,
    tmg_id: TamagotchiId,
    power: u16,
    attributes: Set<AttributeId>,
) -> PlayerView {
    PlayerView { owner, tmg_id, energy: (MAX_POWER - power) as u16, power, attributes }
}

/// Whether the next player to register is the second, with whom the moves
/// begin: only then is a turn drawn.
pub open spec fn opens_moves(b: BattleView) -> bool {
    b.players.len() == 1
}

/// The battle after a player has registered: with the second player the
/// moves begin, and `turn` says who makes the first.
pub open spec fn registered(b: BattleView, player: PlayerView, turn: u8) -> BattleView {
    let players = b.players.push(player);
    if opens_moves(b) {
        BattleView { players, current_turn: turn, state: BattleState::Moves, ..b }
    } else {
        BattleView { players, ..b }
    }
}

/// The energy that a hit by `attacker` takes away: a fifth of the power,
/// or the whole power with a sword, rounded down.
pub open spec fn damage(attacker: PlayerView) -> int {
    let factor: int = if attacker.attributes.contains(SWORD_ID) {
        SWORD_POWER as int
    } else {
        1
    };
    (factor * attacker.power) / 5
}

/// The energy that is left of `energy` after a hit by `attacker`, never
/// below zero.
pub open spec fn energy_left(energy: u16, attacker: PlayerView) -> u16 {
    if energy - damage(attacker) < 0 {
        0
    } else {
        (energy - damage(attacker)) as u16
    }
}

/// The battle after the player whose turn it is has hit the other one, and
/// what comes of it. A player without energy has lost. Otherwise the turn
/// passes on, until the round has had its moves and pauses.
pub open spec fn moved(b: BattleView) -> (BattleView, Moved) {
    let turn = b.current_turn as int;
    let next = (turn + 1) % 2;
    let attacker = b.players[turn];
    let left = energy_left(b.players[next].energy, attacker);
    let players = b.players.update(next, PlayerView { energy: left, ..b.players[next] });
    if left == 0 {
        (
            BattleView { players, state: BattleState::GameIsOver, winner: attacker.tmg_id, ..b },
            Moved { event: BattleEvent::GameIsOver, scheduled: None },
        )
    } else if b.steps <= MAX_STEPS_FOR_ROUND {
        (
            BattleView { players, steps: (b.steps + 1) as u8, current_turn: next as u8, ..b },
            Moved { event: BattleEvent::MoveMade, scheduled: None },
        )
    } else {
        (
            BattleView { players, state: BattleState::Waiting, steps: 0, ..b },
            Moved {
                event: BattleEvent::GoToWaitingState,
                scheduled: Some(
                    Scheduled {
                        action: BattleAction::UpdateInfo,
                        gas: GAS_AMOUNT,
                        delay: TIME_FOR_UPDATE,
                    },
                ),
            },
        )
    }
}

/// The battle after the attributes of both players were looked up again:
/// the moves go on, and `turn` says who makes the next.
pub open spec fn refreshed(
    b: BattleView,
    first: Set<AttributeId>,
    second: Set<AttributeId>,
    turn: u8,
) -> BattleView {
    BattleView {
        players: b.players.update(0, PlayerView { attributes: first, ..b.players[0] }).update(
            1,
            PlayerView { attributes: second, ..b.players[1] },
        ),
        state: BattleState::Moves,
        current_turn: turn,
        ..b
    }
}

/// The battle made ready for a new game: no players, nobody has won.
pub open spec fn restarted(b: BattleView) -> BattleView {
    BattleView {
        winner: nobody(),
        current_turn: 0,
        players: Seq::empty(),
        state: BattleState::Registration,
        ..b
    }
}

impl Battle {
    /// A battle without players, that looks up attributes in
    /// `tmg_store_id`.
    pub fn new(tmg_store_id: ActorId) -> (battle: Battle)
        ensures
            battle@ == vacant(tmg_store_id),
            playable(battle@),
    {
        let battle = Battle {
            players: Vec::new(),
            state: BattleState::Registration,
            current_turn: 0,
            winner: ActorId::zero(),
            steps: 0,
            tmg_store_id,
        };
        assert(battle@.players =~= Seq::empty());
        battle
    }

    /// Tells whether the next registration needs random bytes for the turn:
    /// it does where it brings the second player.
    pub fn draws_turn(&self) -> (drawn: bool)
        ensures
            drawn == opens_moves(self@),
    {
        self.players.len() == 1
    }

    /// Registers the tamagotchi `tmg_id` of `owner` with the attributes that
    /// the store reported. Its power is drawn from `power_random`; where it
    /// is the second player, `turn_random` decides who moves first, and
    /// otherwise it is not looked at.
    pub fn register(
        &mut self,
        tmg_id: &TamagotchiId,
        attributes: BTreeSet<AttributeId>,
        owner: ActorId,
        power_random: &[u8; 32],
        turn_random: &[u8; 32],
    ) -> (event: BattleEvent)
        requires
            old(self)@.state == BattleState::Registration,
            playable(old(self)@),
        ensures
            final(self)@ == registered(
                old(self)@,
                entrant(owner, *tmg_id, power_from(power_random@), attributes@),
                turn_from(turn_random@),
            ),
            playable(final(self)@),
            event == (BattleEvent::Registered { tmg_id: *tmg_id }),
    {
        let power = genetate_power(power_random);
        let energy = MAX_POWER - power;
        let player = Player { owner, tmg_id: *tmg_id, energy, power, attributes };
        self.players.push(player);
        if self.players.len() == 2 {
            self.current_turn = get_turn(turn_random);
            self.state = BattleState::Moves;
        }
        assert(final(self)@.players =~= old(self)@.players.push(
            entrant(owner, *tmg_id, power_from(power_random@), attributes@),
        ));
        BattleEvent::Registered { tmg_id: *tmg_id }
    }

    /// Tells whether the battle is fit to be played.
    pub fn is_playable(&self) -> (fit: bool)
        ensures
            fit == playable(self@),
    {
        let count = self.players.len();
        let moving = self.state == BattleState::Moves || self.state == BattleState::Waiting;
        if moving && !(count == 2 && self.current_turn < 2) {
            return false;
        }
        if self.state == BattleState::Registration && count >= 2 {
            return false;
        }
        let mut i: usize = 0;
        while i < count
            invariant
                count == self.players.len(),
                i <= count,
                forall|k: int| 0 <= k < i ==> (#[trigger] self@.players[k]).power < MAX_POWER,
            decreases count - i,
        {
            if self.players[i].power >= MAX_POWER {
                assert(self@.players[i as int].power >= MAX_POWER);
                return false;
            }
            i += 1;
        }
        true
    }

    /// Tells whether `source` may make a move now: the battle is in its
    /// moves, and `source` owns the player whose turn it is.
    pub fn may_move(&self, source: &ActorId) -> (allowed: bool)
        requires
            playable(self@),
        ensures
            allowed == (self@.state == BattleState::Moves && self@.players[self@.current_turn
                as int].owner == *source),
    {
        self.state == BattleState::Moves && self.players[self.current_turn as usize].owner
            == *source
    }

    /// Lets the player whose turn it is hit the other one.
    pub fn make_move(&mut self, source: &ActorId) -> (outcome: Moved)
        requires
            playable(old(self)@),
            old(self)@.state == BattleState::Moves,
            old(self)@.players[old(self)@.current_turn as int].owner == *source,
        ensures
            (final(self)@, outcome) == moved(old(self)@),
            playable(final(self)@),
    {
        let turn: usize = self.current_turn as usize;
        let next_turn: usize = (turn + 1) % 2;
        let power = self.players[turn].power;
        let winner = self.players[turn].tmg_id;
        let sword_power: u16 = if self.players[turn].attributes.contains(&SWORD_ID) {
            SWORD_POWER
        } else {
            1
        };
        let energy = self.players[next_turn].energy.saturating_sub((sword_power * power) / 5);
        let opponent = Player {
            owner: self.players[next_turn].owner,
            tmg_id: self.players[next_turn].tmg_id,
            energy,
            power: self.players[next_turn].power,
            attributes: self.players[next_turn].attributes.clone(),
        };
        self.players.set(next_turn, opponent);
        let outcome = if energy == 0 {
            self.state = BattleState::GameIsOver;
            self.winner = winner;
            Moved { event: BattleEvent::GameIsOver, scheduled: None }
        } else if self.steps <= MAX_STEPS_FOR_ROUND {
            self.steps += 1;
            self.current_turn = next_turn as u8;
            Moved { event: BattleEvent::MoveMade, scheduled: None }
        } else {
            self.state = BattleState::Waiting;
            self.steps = 0;
            Moved {
                event: BattleEvent::GoToWaitingState,
                scheduled: Some(
                    Scheduled {
                        action: BattleAction::UpdateInfo,
                        gas: GAS_AMOUNT,
                        delay: TIME_FOR_UPDATE,
                    },
                ),
            }
        };
        assert(final(self)@.players =~= moved(old(self)@).0.players);
        outcome
    }

    /// Takes in the attributes that the store reports for the first and the
    /// second player, and lets the moves go on; `turn_random` decides who
    /// makes the next one. Only the battle itself may ask for this, so the
    /// sender `source` must be the program `program_id`.
    pub fn update_info(
        &mut self,
        source: &ActorId,
        program_id: &ActorId,
        first: BTreeSet<AttributeId>,
        second: BTreeSet<AttributeId>,
        turn_random: &[u8; 32],
    ) -> (event: BattleEvent)
        requires
            *source == *program_id,
            playable(old(self)@),
            old(self)@.state == BattleState::Waiting,
        ensures
            final(self)@ == refreshed(old(self)@, first@, second@, turn_from(turn_random@)),
            playable(final(self)@),
            event == BattleEvent::InfoUpdated,
    {
        let one = Player {
            owner: self.players[0].owner,
            tmg_id: self.players[0].tmg_id,
            energy: self.players[0].energy,
            power: self.players[0].power,
            attributes: first,
        };
        let other = Player {
            owner: self.players[1].owner,
            tmg_id: self.players[1].tmg_id,
            energy: self.players[1].energy,
            power: self.players[1].power,
            attributes: second,
        };
        self.players.set(0, one);
        self.players.set(1, other);
        self.state = BattleState::Moves;
        self.current_turn = get_turn(turn_random);
        assert(final(self)@.players =~= refreshed(
            old(self)@,
            first@,
            second@,
            turn_from(turn_random@),
        ).players);
        BattleEvent::InfoUpdated
    }

    /// Clears the battle for a new game once the last one is over.
    pub fn start_new_game(&mut self) -> (event: BattleEvent)
        requires
            old(self)@.state == BattleState::GameIsOver,
        ensures
            final(self)@ == restarted(old(self)@),
            playable(final(self)@),
            event == BattleEvent::NewGame,
    {
        self.winner = ActorId::zero();
        self.current_turn = 0;
        self.players = Vec::new();
        self.state = BattleState::Registration;
        assert(final(self)@.players =~= Seq::empty());
        BattleEvent::NewGame
    }
}

} // verus!
