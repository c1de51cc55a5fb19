use kaizo_quest::kaizo::{Alignment, Character, Species, Stats, Status, StatusTable};

fn is_zero(stats: Stats<u32>) -> bool {
    stats.health == 0 && stats.attack == 0 && stats.defense == 0 && stats.speed == 0
}

#[test]
fn stats_test() {
    let zero = Stats::zero();
    assert_eq!(is_zero(zero), true);
    assert_eq!(zero, Stats::zero());
    assert_eq!(zero + Stats::zero(), Stats::zero());

    let stats = Stats { health: 1, attack: 1, defense: 1, speed: 1 };
    let stats2 = Stats { health: 0, attack: 1, defense: 2, speed: 3 };
    assert_eq!(stats + stats, Stats { health: 2, attack: 2, defense: 2, speed: 2 });
    assert_eq!(stats + stats2, Stats { health: 1, attack: 2, defense: 3, speed: 4 });
}

fn species() -> Species {
    Species {
        name: "Old One".to_string(),
        bst: 300,
        base_stats: Stats { health: 1, attack: 1, defense: 1, speed: 1 },
        alignment: Alignment::C,
    }
}

#[test]
fn legacy_character_damage_and_refresh() {
    let mut c = Character::from_species(species());
    assert_eq!(c.name, "Old One");
    assert_eq!(c.state.health, 0);
    c.attributes.stats.health = 12;
    c.attributes.stats.speed = 3;
    c.refresh();
    assert_eq!(c.state.health, 12);
    assert_eq!(c.priority(), 3);
    c.deal_damage(5);
    assert_eq!(c.state.health, 7);
    c.deal_damage(50);
    assert_eq!(c.state.health, 0);
    assert!(!c.state.status.contains_key(&Status::Poison));
    assert_eq!(c.state.status, StatusTable::new());

    let mut s = Stats::zero();
    s.add_assign(Stats { health: 1, attack: 2, defense: 3, speed: 4 });
    assert_eq!(s, Stats { health: 1, attack: 2, defense: 3, speed: 4 });
}
