use kaizo_quest::action::{Action, Attack, Bleed, Defend, PureAttack, Skip, Stun};
use kaizo_quest::battle::{player_first_with_coin, take_turn, take_turn_with_roll, OnionBattle, OnionBattleState};
use kaizo_quest::common::Stats;
use kaizo_quest::log::Log;
use kaizo_quest::onion::{Alignment, Character, OnionCharacter, Species, Status};

fn fake_species_with_bst(bst: u32) -> Species {
    Species {
        name: "fake".to_string(),
        bst,
        stats: Stats::from_values(1, 1, 1, 1),
        alignment: Alignment::Rock,
    }
}

fn fake_character(level: u32) -> OnionCharacter {
    let mut character = Character::from_species(fake_species_with_bst(400));
    character.attributes.level = level;
    character.attributes.stats = character.species.stats.scale_truncated(10 * level);
    character.refresh();
    character
}

fn fake_attack(power: u32) -> Attack {
    Attack { name: "fake".to_string(), power, alignment: Alignment::Scissors, priority: 0 }
}

fn with_health(health: u32) -> OnionCharacter {
    let mut c = Character::from_species(fake_species_with_bst(0));
    c.attributes.stats.health = health;
    c.refresh();
    c
}

#[test]
fn battle_test() {
    let mut battle = OnionBattle { player: fake_character(5), enemy: fake_character(5) };

    let action = Action::Attack(fake_attack(30));
    battle.player_turn(&action);

    assert_eq!(battle.enemy.state.health, 9);
}

#[test]
fn defeat_takes_precedence() {
    let battle = OnionBattle::new(with_health(0), with_health(0));
    assert_eq!(battle.battle_state(), OnionBattleState::Defeat);
    let battle = OnionBattle::new(with_health(1), with_health(0));
    assert_eq!(battle.battle_state(), OnionBattleState::Victory);
    let battle = OnionBattle::new(with_health(0), with_health(1));
    assert_eq!(battle.battle_state(), OnionBattleState::Defeat);
    let battle = OnionBattle::new(with_health(1), with_health(1));
    assert_eq!(battle.battle_state(), OnionBattleState::InProcess);
}

#[test]
fn turns_do_nothing_once_decided() {
    let mut battle = OnionBattle::new(with_health(5), with_health(0));
    let before = battle.clone();
    let hit = Action::PureAttack(PureAttack { name: "Burst".to_string(), power: 3 });
    assert!(battle.player_turn(&hit).is_empty());
    assert!(battle.enemy_turn(&hit).is_empty());
    assert_eq!(battle, before);
}

#[test]
fn enemy_turn_hits_player() {
    let mut battle = OnionBattle::new(with_health(10), with_health(10));
    let hit = Action::PureAttack(PureAttack { name: "Burst".to_string(), power: 3 });
    battle.enemy_turn(&hit);
    assert_eq!(battle.player.state.health, 7);
    assert_eq!(battle.enemy.state.health, 10);
}

#[test]
fn stunned_user_rolls_for_recovery() {
    let stun = Stun { name: "Yawn".to_string() };
    let hit = Action::PureAttack(PureAttack { name: "Burst".to_string(), power: 2 });

    let mut user = with_health(10);
    let mut target = with_health(10);
    stun.act(&mut target, &mut user);
    stun.act(&mut target, &mut user);
    // intensity 2: recovery on rolls that are multiples of 3
    let (u, t) = (user.clone(), target.clone());
    let logs = take_turn_with_roll(&mut user, &mut target, &hit, 4);
    assert_eq!((&user, &target), (&u, &t));
    assert_eq!(logs, vec![Log::Stunned { name: "fake".to_string() }]);

    let logs = take_turn_with_roll(&mut user, &mut target, &hit, 6);
    assert_eq!(user.state.status.contains_key(&Status::Stun), false);
    assert_eq!(target.state.health, 8);
    assert_eq!(logs[0], Log::NoLongerStunned { name: "fake".to_string() });
    assert_eq!(logs.len(), 2);

    // the largest intensity: only multiples of 2^32 recover, so only roll 0
    let mut user = with_health(10);
    user.state.status.stack(Status::Stun, u32::MAX);
    take_turn_with_roll(&mut user, &mut target, &hit, u32::MAX);
    assert!(user.state.status.contains_key(&Status::Stun));
    take_turn_with_roll(&mut user, &mut target, &hit, 0);
    assert!(!user.state.status.contains_key(&Status::Stun));
}

#[test]
fn stun_recovery_rate_matches_intensity() {
    let hit = Action::Skip(Skip);
    for n in [1u32, 2, 4] {
        let trials = 20000;
        let mut recovered = 0;
        for _ in 0..trials {
            let mut user = with_health(10);
            let mut target = with_health(10);
            user.state.status.stack(Status::Stun, n);
            take_turn(&mut user, &mut target, &hit);
            if !user.state.status.contains_key(&Status::Stun) {
                recovered += 1;
            }
        }
        let rate = recovered as f64 / trials as f64;
        let expected = 1.0 / (n as f64 + 1.0);
        assert!((rate - expected).abs() < 0.03, "n = {}: rate {} expected {}", n, rate, expected);
    }
}

#[test]
fn bleeding_user_acts_then_bleeds() {
    let mut user = with_health(10);
    let mut target = with_health(10);
    Bleed { name: "Cut".to_string(), power: 4 }.act(&mut target, &mut user);
    let hit = Action::PureAttack(PureAttack { name: "Burst".to_string(), power: 1 });
    let logs = take_turn(&mut user, &mut target, &hit);
    assert_eq!(target.state.health, 9);
    assert_eq!(user.state.health, 6);
    assert_eq!(logs.last(), Some(&Log::HurtByBleed { name: "fake".to_string() }));
    take_turn(&mut user, &mut target, &hit);
    take_turn(&mut user, &mut target, &hit);
    assert_eq!(user.state.health, 0);
}

#[test]
fn end_turn_in_process_drops_guards() {
    let mut battle = OnionBattle::new(with_health(10), with_health(10));
    let defend = Action::Defend(Defend { name: "Block".to_string() });
    battle.player_turn(&defend);
    battle.enemy_turn(&defend);
    let bleed = Bleed { name: "Cut".to_string(), power: 1 };
    bleed.act(&mut battle.player, &mut battle.enemy);
    let (state, logs) = battle.end_turn();
    assert_eq!(state, OnionBattleState::InProcess);
    assert!(logs.is_empty());
    assert!(!battle.player.state.status.contains_key(&Status::Defend));
    assert!(!battle.enemy.state.status.contains_key(&Status::Defend));
    assert_eq!(battle.enemy.state.status.get(&Status::Bleed), Some(1));
}

#[test]
fn end_turn_victory_awards_experience() {
    let mut player = with_health(10);
    player.attributes.level = 2;
    let mut enemy = Character::from_species(fake_species_with_bst(450));
    enemy.attributes.level = 5;
    // enemy worth 232; divided by player level 2 = 116 points
    let mut battle = OnionBattle::new(player, enemy);
    let (state, logs) = battle.end_turn();
    assert_eq!(state, OnionBattleState::Victory);
    assert_eq!(logs[0], Log::Defeated { name: "fake".to_string() });
    assert_eq!(logs[1], Log::GainedExperience { points: 116 });
    assert_eq!(logs.len(), 3);
    assert_eq!(battle.player.attributes.level, 3);
    assert_eq!(battle.player.attributes.experience, 16);
}

#[test]
fn end_turn_victory_level_zero_counts_as_one() {
    let player = with_health(10);
    let mut enemy = Character::from_species(fake_species_with_bst(100));
    enemy.attributes.level = 1;
    let mut battle = OnionBattle::new(player, enemy);
    let (_, logs) = battle.end_turn();
    assert_eq!(logs[1], Log::GainedExperience { points: 19 });
    assert_eq!(battle.player.attributes.experience, 19);
}

#[test]
fn end_turn_defeat_changes_nothing() {
    let mut battle = OnionBattle::new(with_health(0), with_health(3));
    let before = battle.clone();
    let (state, logs) = battle.end_turn();
    assert_eq!(state, OnionBattleState::Defeat);
    assert_eq!(logs, vec![Log::Died { name: "fake".to_string() }]);
    assert_eq!(battle, before);
}

#[test]
fn turn_order() {
    assert!(player_first_with_coin(1, 0, 0, 9, false));
    assert!(!player_first_with_coin(0, 1, 9, 0, true));
    assert!(player_first_with_coin(0, 0, 5, 4, false));
    assert!(!player_first_with_coin(0, 0, 4, 5, true));
    assert!(player_first_with_coin(0, 0, 4, 4, true));
    assert!(!player_first_with_coin(0, 0, 4, 4, false));

    let mut fast = with_health(5);
    fast.attributes.stats.speed = 9;
    let slow = with_health(5);
    let battle = OnionBattle::new(fast, slow);
    let skip = Action::Skip(Skip);
    let defend = Action::Defend(Defend { name: "Block".to_string() });
    assert!(battle.player_goes_first(&skip, &skip));
    assert!(!battle.player_goes_first(&skip, &defend));
    let even = OnionBattle::new(with_health(5), with_health(5));
    let mut firsts = 0;
    for _ in 0..2000 {
        if even.player_goes_first(&skip, &skip) {
            firsts += 1;
        }
    }
    assert!(firsts > 800 && firsts < 1200);
}
