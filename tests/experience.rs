use kaizo_quest::common::Stats;
use kaizo_quest::log::Log;
use kaizo_quest::onion::{Alignment, Character, OnionCharacter, Species};

fn fake_species_with_bst(bst: u32) -> Species {
    Species {
        name: "fake".to_string(),
        bst,
        stats: Stats::from_values(1, 1, 1, 1),
        alignment: Alignment::Rock,
    }
}

fn fake_character() -> OnionCharacter {
    Character::from_species(fake_species_with_bst(0))
}

#[test]
fn experience_sanity_test() {
    let mut character = fake_character();

    // not set up
    assert_eq!(character.experience(), 0);

    // no bst
    character.attributes.level = 1;
    assert_eq!(character.experience(), 0);

    // no level
    character.attributes.level = 0;
    character.species.bst = 1;
    assert_eq!(character.experience(), 0);
}

#[test]
fn experience_table_test1() {
    let mut character = fake_character();

    character.attributes.level = 1;

    character.species.bst = 100;
    assert_eq!(character.experience(), 19);

    character.species.bst = 200;
    assert_eq!(character.experience(), 45);

    character.species.bst = 300;
    assert_eq!(character.experience(), 77);

    character.species.bst = 400;
    assert_eq!(character.experience(), 103);

    character.species.bst = 500;
    assert_eq!(character.experience(), 129);

    character.species.bst = 600;
    assert_eq!(character.experience(), 174);
}

#[test]
fn experience_table_test2() {
    let mut character = fake_character();

    character.species.bst = 450;

    character.attributes.level = 1;
    assert_eq!(character.experience(), 116);

    character.attributes.level = 5;
    assert_eq!(character.experience(), 232);

    character.attributes.level = 10;
    assert_eq!(character.experience(), 348);

    character.attributes.level = 25;
    assert_eq!(character.experience(), 696);

    character.attributes.level = 50;
    assert_eq!(character.experience(), 1161);

    character.attributes.level = 100;
    assert_eq!(character.experience(), 1858);
}

#[test]
fn gain_experience_test() {
    let mut character = fake_character();

    let _ = character.gain_experience(1);
    assert_eq!(character.attributes.experience, 1);

    let _ = character.gain_experience(100);
    assert_eq!(character.attributes.experience, 1);

    let _ = character.gain_experience(99);
    assert_eq!(character.attributes.experience, 0);

    let _ = character.gain_experience(234);
    assert_eq!(character.attributes.experience, 34);
}

#[test]
fn experience_at_the_largest_values() {
    let mut character = fake_character();
    character.species.bst = u32::MAX;
    character.attributes.level = u32::MAX;
    // floor(log2(2^32)) = 32 for both; (2^32-1)*32 * ((2^32-1)/32) / 31
    let a: u128 = (u32::MAX as u128) * 32;
    let b: u128 = (u32::MAX as u128) / 32;
    assert_eq!(character.experience() as u128, a * b / 31);
}

#[test]
fn gain_experience_levels_and_grows_once() {
    let mut character = Character::from_species(fake_species_with_bst(470));
    // growth for a level-up: SCALING_FACTOR = 100 points over equal weights, 25 per stat
    let logs = character.gain_experience(250);
    assert_eq!(character.attributes.level, 2);
    assert_eq!(character.attributes.experience, 50);
    assert_eq!(character.attributes.stats, Stats::from_values(25, 25, 25, 25));
    assert_eq!(logs, vec![
        Log::GainedExperience { points: 250 },
        Log::StatsIncreased { increase: Stats::from_values(25, 25, 25, 25) },
    ]);
    let logs = character.gain_experience(10);
    assert_eq!(logs.len(), 1);
    assert_eq!(character.attributes.level, 2);
    assert_eq!(character.attributes.experience, 60);
    assert_eq!(character.attributes.stats, Stats::from_values(25, 25, 25, 25));
}

#[test]
fn gain_experience_saturates_level() {
    let mut character = fake_character();
    character.attributes.level = u32::MAX - 1;
    character.gain_experience(u64::MAX);
    assert_eq!(character.attributes.level, u32::MAX);
    assert_eq!(character.attributes.experience, ((u64::MAX as u128) % 100) as u32);
}

#[test]
fn refresh_resets_battle_state() {
    let mut character = fake_character();
    character.attributes.stats.health = 30;
    character.state.alignment = Alignment::Paper;
    character.state.status.stack(kaizo_quest::onion::Status::Stun, 2);
    character.refresh();
    assert_eq!(character.state.health, 30);
    assert_eq!(character.state.alignment, Alignment::Rock);
    assert!(!character.state.status.contains_key(&kaizo_quest::onion::Status::Stun));
    let once = character.clone();
    character.refresh();
    assert_eq!(character, once);
}

#[test]
fn from_species_and_actions_keeps_actions() {
    let c = Character::from_species_and_actions(fake_species_with_bst(5), vec![3, 1, 4]);
    assert_eq!(c.attributes.actions, vec![3, 1, 4]);
    assert_eq!(c.name, "fake");
    assert_eq!(c.attributes.level, 0);
    assert_eq!(c.priority(), 0);
    let picked = c.random_action().unwrap();
    assert!([3, 1, 4].contains(&picked));
    assert_eq!(Character::from_species(fake_species_with_bst(5)).random_action(), None);
}

#[test]
fn level_up_growth_sums_to_scaling_factor() {
    let mut species = fake_species_with_bst(650);
    species.stats = Stats::from_values(1, 1, 1, 0);
    for _ in 0..20 {
        let mut character = Character::from_species(species.clone());
        character.gain_experience(100);
        let s = character.attributes.stats;
        // 33 each from truncation, the last point drawn at random
        assert_eq!(s.health as u64 + s.attack as u64 + s.defense as u64 + s.speed as u64, 100);
        assert!(s.health >= 33 && s.attack >= 33 && s.defense >= 33);
    }
}
