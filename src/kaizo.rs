use vstd::prelude::*;

use crate::common::Actions;

verus! {

/// The four battle statistics of the four-alignment ruleset.
#[derive(Clone, Copy, Debug, PartialEq, Eq, Structural)]
pub struct Stats<T> {
    pub health: T,
    pub attack: T,
    pub defense: T,
    pub speed: T,
}

impl Stats<u32> {
    pub open spec fn spec_is_zero(self) -> bool {
        self.health == 0 && self.attack == 0 && self.defense == 0 && self.speed == 0
    }

    /// Whether the componentwise sum of `self` and `other` fits in `u32`.
    pub open spec fn can_add(self, other: Stats<u32>) -> bool {
        &&& self.health + other.health <= u32::MAX
        &&& self.attack + other.attack <= u32::MAX
        &&& self.defense + other.defense <= u32::MAX
        &&& self.speed + other.speed <= u32::MAX
    }

    /// The componentwise sum, for operands where it fits.
    pub open spec fn sum_with(self, other: Stats<u32>) -> Stats<u32> {
        Stats {
            health: (self.health + other.health) as u32,
            attack: (self.attack + other.attack) as u32,
            defense: (self.defense + other.defense) as u32,
            speed: (self.speed + other.speed) as u32,
        }
    }

    pub fn zero() -> (r: Stats<u32>)
        ensures
            r.spec_is_zero(),
    {
        Stats { health: 0, attack: 0, defense: 0, speed: 0 }
    }

    /// Adds `other` componentwise into `self`.
    pub fn add_assign(&mut self, other: Stats<u32>)
        requires
            old(self).can_add(other),
        ensures
            *final(self) == old(self).sum_with(other),
    {
        self.health = self.health + other.health;
        self.attack = self.attack + other.attack;
        self.defense = self.defense + other.defense;
        self.speed = self.speed + other.speed;
    }
}

impl core::ops::Add<Stats<u32>> for Stats<u32> {
    type Output = Stats<u32>;

    fn add(self, other: Stats<u32>) -> (r: Stats<u32>) {
        Stats {
            health: self.health + other.health,
            attack: self.attack + other.attack,
            defense: self.defense + other.defense,
            speed: self.speed + other.speed,
        }
    }
}

impl vstd::std_specs::ops::AddSpecImpl<Stats<u32>> for Stats<u32> {
    open spec fn obeys_add_spec() -> bool {
        true
    }

    open spec fn add_req(self, other: Stats<u32>) -> bool {
        self.can_add(other)
    }

    open spec fn add_spec(self, other: Stats<u32>) -> Stats<u32> {
        self.sum_with(other)
    }
}

#[derive(Clone, Copy, Debug, PartialEq, Eq, Hash, Structural)]
pub enum Status {
    Defend,
    Poison,
    Sleep,
}

#[derive(Clone, Copy, Debug, PartialEq, Eq, Structural)]
pub enum Alignment {
    A,
    B,
    C,
    D,
}

/// Properties shared by every character of a species; `base_stats` holds integer ratio
/// weights.
#[derive(Clone, Debug, PartialEq, Eq)]
pub struct Species {
    pub name: String,
    pub bst: u32,
    pub base_stats: Stats<u32>,
    pub alignment: Alignment,
}

#[derive(Clone, Debug, PartialEq, Eq)]
pub struct Attributes {
    pub level: u32,
    pub experience: u32,
    pub stats: Stats<u32>,
    pub actions: Actions,
}

/// Active status effects and their intensities; an absent effect is `None`.
#[derive(Clone, Copy, Debug, PartialEq, Eq, Structural)]
pub struct StatusTable {
    pub defend: Option<i32>,
    pub poison: Option<i32>,
    pub sleep: Option<i32>,
}

impl StatusTable {
    pub open spec fn empty() -> StatusTable {
        StatusTable { defend: None, poison: None, sleep: None }
    }

    pub fn new() -> (r: StatusTable)
        ensures
            r == StatusTable::empty(),
    {
        StatusTable { defend: None, poison: None, sleep: None }
    }

    pub fn contains_key(&self, s: &Status) -> (r: bool)
        ensures
            r == match *s {
                Status::Defend => self.defend.is_some(),
                Status::Poison => self.poison.is_some(),
                Status::Sleep => self.sleep.is_some(),
            },
    {
        match s {
            Status::Defend => self.defend.is_some(),
            Status::Poison => self.poison.is_some(),
            Status::Sleep => self.sleep.is_some(),
        }
    }
}

#[derive(Clone, Debug, PartialEq, Eq)]
pub struct State {
    pub health: i32,
    pub status: StatusTable,
}

#[derive(Clone, Debug, PartialEq, Eq)]
pub struct Character {
    pub name: String,
    pub species: Species,
    pub attributes: Attributes,
    pub state: State,
}

impl Character {
    /// A character of `species` at level 0 with no experience, zero stats, no actions, no
    /// health and no status effects.
    pub fn from_species(species: Species) -> (r: Character)
        ensures
            r.name == species.name,
            r.species == species,
            r.attributes.level == 0,
            r.attributes.experience == 0,
            r.attributes.stats.spec_is_zero(),
            r.attributes.actions@.len() == 0,
            r.state.health == 0,
            r.state.status == StatusTable::empty(),
    {
        Character {
            name: species.name.clone(),
            species,
            attributes: Attributes { level: 0, experience: 0, stats: Stats::zero(), actions: Vec::new() },
            state: State { health: 0, status: StatusTable::new() },
        }
    }

    /// The speed stat, which breaks ties in turn order.
    pub fn priority(&self) -> (r: u32)
        ensures
            r == self.attributes.stats.speed,
    {
        self.attributes.stats.speed
    }

    /// Lowers health by `damage`, stopping at 0.
    pub fn deal_damage(&mut self, damage: i32)
        requires
            i32::MIN <= old(self).state.health - damage <= i32::MAX,
        ensures
            final(self).state.health == if old(self).state.health - damage > 0 {
                old(self).state.health - damage
            } else {
                0
            },
            final(self).state.status == old(self).state.status,
            final(self).name == old(self).name,
            final(self).species == old(self).species,
            final(self).attributes == old(self).attributes,
    {
        let left = self.state.health - damage;
        self.state.health = if left > 0 {
            left
        } else {
            0
        };
    }

    /// Resets the battle state: full health and no status effects.
    pub fn refresh(&mut self)
        requires
            old(self).attributes.stats.health <= i32::MAX,
        ensures
            final(self).state.health == old(self).attributes.stats.health,
            final(self).state.status == StatusTable::empty(),
            final(self).name == old(self).name,
            final(self).species == old(self).species,
            final(self).attributes == old(self).attributes,
    {
        self.state.health = self.attributes.stats.health as i32;
        self.state.status = StatusTable::new();
    }
}

} // verus!
