use std::collections::BTreeSet;
use tmg_contracts::actor::ActorId;
use tmg_contracts::battle::{genetate_power, get_owner, get_turn, Moved, Scheduled};
use tmg_contracts::battle_io::{Battle, BattleAction, BattleEvent, BattleState, Player};
use tmg_contracts::tmg_io::TmgEvent;

fn who(n: u8) -> ActorId {
    ActorId::new([n; 32])
}

fn random(first: u8, second: u8) -> [u8; 32] {
    let mut bytes = [0u8; 32];
    bytes[0] = first;
    bytes[1] = second;
    bytes
}

fn sword() -> BTreeSet<u32> {
    let mut attributes = BTreeSet::new();
    attributes.insert(1);
    attributes
}

/// Two players of the given powers; the player with index `turn` moves
/// first.
fn arena(first_power: [u8; 32], second_power: [u8; 32], first_armed: bool, turn: u8) -> Battle {
    let mut battle = Battle::new(who(50));
    let attributes = if first_armed { sword() } else { BTreeSet::new() };
    battle.register(&who(10), attributes, who(1), &first_power, &random(0, 0));
    battle.register(&who(20), BTreeSet::new(), who(2), &second_power, &random(turn, 0));
    battle
}

#[test]
fn power_is_drawn_from_the_first_two_bytes() {
    assert_eq!(genetate_power(&random(0x12, 0x34)), 4660);
    assert_eq!(genetate_power(&random(0xFF, 0xFF)), 5535);
    assert_eq!(genetate_power(&random(0x27, 0x10)), 5000);
    assert_eq!(genetate_power(&random(0x27, 0x0F)), 9999);
    assert_eq!(genetate_power(&random(0x0B, 0xB8)), 3000);
}

#[test]
fn a_low_draw_gives_half_of_the_maximum() {
    assert_eq!(genetate_power(&random(0, 5)), 5000);
    assert_eq!(genetate_power(&random(0x0B, 0xB7)), 5000);
    assert_eq!(genetate_power(&random(0, 0)), 5000);
}

#[test]
fn the_turn_is_the_parity_of_the_first_byte() {
    assert_eq!(get_turn(&random(0, 9)), 0);
    assert_eq!(get_turn(&random(3, 0)), 1);
    assert_eq!(get_turn(&random(254, 1)), 0);
    assert_eq!(get_turn(&random(255, 0)), 1);
}

#[test]
fn the_owner_is_read_from_the_answer() {
    assert_eq!(get_owner(&TmgEvent::Owner(who(7))), who(7));
}

#[test]
fn a_new_battle_waits_for_players() {
    let battle = Battle::new(who(50));
    assert!(battle.players.is_empty());
    assert_eq!(battle.state, BattleState::Registration);
    assert_eq!(battle.state, BattleState::default());
    assert_eq!(battle.current_turn, 0);
    assert_eq!(battle.steps, 0);
    assert_eq!(battle.tmg_store_id, who(50));
    assert!(battle.winner.is_zero());
}

#[test]
fn the_second_player_opens_the_moves() {
    let mut battle = Battle::new(who(50));
    let event = battle.register(&who(10), sword(), who(1), &random(0x12, 0x34), &random(1, 0));
    assert_eq!(event, BattleEvent::Registered { tmg_id: who(10) });
    assert_eq!(battle.state, BattleState::Registration);
    assert_eq!(battle.current_turn, 0);
    assert_eq!(battle.players.len(), 1);
    assert_eq!(battle.players[0].owner, who(1));
    assert_eq!(battle.players[0].tmg_id, who(10));
    assert_eq!(battle.players[0].power, 4660);
    assert_eq!(battle.players[0].energy, 5340);
    assert_eq!(battle.players[0].attributes, sword());

    let event =
        battle.register(&who(20), BTreeSet::new(), who(2), &random(0, 1), &random(1, 0));
    assert_eq!(event, BattleEvent::Registered { tmg_id: who(20) });
    assert_eq!(battle.state, BattleState::Moves);
    assert_eq!(battle.current_turn, 1);
    assert_eq!(battle.players.len(), 2);
    assert_eq!(battle.players[1].power, 5000);
    assert_eq!(battle.players[1].energy, 5000);
    assert!(battle.players[1].attributes.is_empty());
}

#[test]
fn only_the_player_in_turn_may_move() {
    let battle = arena(random(0x0B, 0xB8), random(0x0B, 0xB8), false, 1);
    assert!(battle.may_move(&who(2)));
    assert!(!battle.may_move(&who(1)));
    assert!(!battle.may_move(&who(3)));
    let waiting = Battle::new(who(50));
    assert!(!waiting.may_move(&who(1)));
}

#[test]
fn a_hit_takes_a_fifth_of_the_power() {
    let mut battle = arena(random(0x0B, 0xB8), random(0x12, 0x34), false, 0);
    let outcome = battle.make_move(&who(1));
    assert_eq!(outcome, Moved { event: BattleEvent::MoveMade, scheduled: None });
    assert_eq!(battle.players[1].energy, 5340 - 600);
    assert_eq!(battle.players[0].energy, 7000);
    assert_eq!(battle.current_turn, 1);
    assert_eq!(battle.steps, 1);
    assert_eq!(battle.state, BattleState::Moves);

    let outcome = battle.make_move(&who(2));
    assert_eq!(outcome.event, BattleEvent::MoveMade);
    assert_eq!(battle.players[0].energy, 7000 - 932);
    assert_eq!(battle.current_turn, 0);
    assert_eq!(battle.steps, 2);
}

#[test]
fn a_sword_hits_with_the_whole_power() {
    let mut battle = arena(random(0x12, 0x34), random(0x0B, 0xB8), true, 0);
    let outcome = battle.make_move(&who(1));
    assert_eq!(outcome.event, BattleEvent::MoveMade);
    assert_eq!(battle.players[1].energy, 7000 - 4660);
    assert_eq!(battle.players[1].power, 3000);
    assert!(battle.players[1].attributes.is_empty());
}

#[test]
fn a_player_without_energy_has_lost() {
    let mut battle = arena(random(0x12, 0x34), random(0x0B, 0xB8), true, 0);
    battle.make_move(&who(1));
    battle.make_move(&who(2));
    let outcome = battle.make_move(&who(1));
    assert_eq!(outcome, Moved { event: BattleEvent::GameIsOver, scheduled: None });
    assert_eq!(battle.players[1].energy, 0);
    assert_eq!(battle.state, BattleState::GameIsOver);
    assert_eq!(battle.winner, who(10));
    assert_eq!(battle.steps, 2);
    assert_eq!(battle.current_turn, 0);
}

#[test]
fn the_round_pauses_after_its_moves() {
    let mut battle = arena(random(0x0B, 0xB8), random(0x0B, 0xB8), false, 0);
    for step in 0..6u8 {
        let source = if step % 2 == 0 { who(1) } else { who(2) };
        let outcome = battle.make_move(&source);
        assert_eq!(outcome.event, BattleEvent::MoveMade);
        assert_eq!(battle.steps, step + 1);
    }
    assert_eq!(battle.current_turn, 0);
    let outcome = battle.make_move(&who(1));
    assert_eq!(
        outcome,
        Moved {
            event: BattleEvent::GoToWaitingState,
            scheduled: Some(Scheduled {
                action: BattleAction::UpdateInfo,
                gas: 10_000_000_000,
                delay: 6,
            }),
        }
    );
    assert_eq!(battle.state, BattleState::Waiting);
    assert_eq!(battle.steps, 0);
    assert_eq!(battle.current_turn, 0);
    assert_eq!(battle.players[1].energy, 7000 - 4 * 600);
    assert_eq!(battle.players[0].energy, 7000 - 3 * 600);
}

#[test]
fn an_update_brings_new_attributes_and_a_new_turn() {
    let mut battle = arena(random(0x0B, 0xB8), random(0x0B, 0xB8), false, 0);
    for step in 0..7u8 {
        let source = if step % 2 == 0 { who(1) } else { who(2) };
        battle.make_move(&source);
    }
    let event = battle.update_info(&who(99), &who(99), BTreeSet::new(), sword(), &random(7, 0));
    assert_eq!(event, BattleEvent::InfoUpdated);
    assert_eq!(battle.state, BattleState::Moves);
    assert_eq!(battle.current_turn, 1);
    assert!(battle.players[0].attributes.is_empty());
    assert_eq!(battle.players[1].attributes, sword());
    assert_eq!(battle.players[0].owner, who(1));
    assert_eq!(battle.players[1].tmg_id, who(20));
    assert_eq!(battle.players[1].energy, 7000 - 4 * 600);
    assert_eq!(battle.players[1].power, 3000);

    let outcome = battle.make_move(&who(2));
    assert_eq!(outcome.event, BattleEvent::MoveMade);
    assert_eq!(battle.players[0].energy, 7000 - 3 * 600 - 3000);
}

#[test]
fn a_new_game_clears_the_arena() {
    let mut battle = arena(random(0x12, 0x34), random(0x0B, 0xB8), true, 0);
    battle.make_move(&who(1));
    battle.make_move(&who(2));
    battle.make_move(&who(1));
    let event = battle.start_new_game();
    assert_eq!(event, BattleEvent::NewGame);
    assert_eq!(battle.state, BattleState::Registration);
    assert!(battle.players.is_empty());
    assert!(battle.winner.is_zero());
    assert_eq!(battle.current_turn, 0);
    assert_eq!(battle.steps, 2);
    assert_eq!(battle.tmg_store_id, who(50));
}

#[test]
fn a_battle_is_playable_with_its_players_in_order() {
    let mut battle = Battle::new(who(50));
    assert!(battle.is_playable());
    battle.register(&who(10), sword(), who(1), &random(0x12, 0x34), &random(1, 0));
    assert!(battle.is_playable());
    battle.register(&who(20), sword(), who(2), &random(0x12, 0x34), &random(1, 0));
    assert!(battle.is_playable());

    let mut short = Battle::new(who(50));
    short.state = BattleState::Moves;
    assert!(!short.is_playable());

    let mut crowded = arena(random(0x0B, 0xB8), random(0x0B, 0xB8), false, 0);
    crowded.state = BattleState::Registration;
    assert!(!crowded.is_playable());

    let mut lost = arena(random(0x0B, 0xB8), random(0x0B, 0xB8), false, 0);
    lost.current_turn = 2;
    assert!(!lost.is_playable());

    let mut strong = Battle::new(who(50));
    strong.players.push(Player {
        owner: who(1),
        tmg_id: who(10),
        energy: 0,
        power: 10_000,
        attributes: BTreeSet::new(),
    });
    assert!(!strong.is_playable());
    strong.players[0].power = 9_999;
    assert!(strong.is_playable());
}

#[test]
fn a_turn_is_drawn_with_the_second_player_only() {
    let mut battle = Battle::new(who(50));
    assert!(!battle.draws_turn());
    battle.register(&who(10), sword(), who(1), &random(0x12, 0x34), &random(1, 0));
    // The bytes for the turn were not looked at.
    assert_eq!(battle.current_turn, 0);
    assert_eq!(battle.state, BattleState::Registration);
    assert!(battle.draws_turn());
    battle.register(&who(20), sword(), who(2), &random(0x12, 0x34), &random(1, 0));
    assert_eq!(battle.current_turn, 1);
    assert!(!battle.draws_turn());
}
