use vstd::prelude::*;

use crate::common::{ActionId, Actions, Attributes, Stats};
use crate::dice::draw_below;
use crate::log::Log;

verus! {

/// Kinds of status effect a character can carry in battle.
#[derive(Clone, Copy, Debug, PartialEq, Eq, Hash, Structural)]
pub enum Status {
    Defend,
    Bleed,
    Stun,
}

/// The three alignments, each strong against one other: Rock beats Scissors,
/// Scissors beats Paper, Paper beats Rock.
#[derive(Clone, Copy, Debug, PartialEq, Eq, Structural)]
pub enum Alignment {
    Rock,
    Paper,
    Scissors,
}

/// Experience needed for one level.
pub const EXPERIENCE_TO_LEVEL: u32 = 100;

/// Growth budget handed to a species' stat scaling on each level-up.
pub const SCALING_FACTOR: u32 = 100;

/// Divisor of the experience a defeated character is worth.
pub const BASE_EXPERIENCE: u32 = 31;

/// Divisor that turns a growth budget and a base stat total into stat points.
pub const GROWTH_FACTOR: u32 = 47;

/// Whether `a` is strong against `b`.
pub open spec fn beats(a: Alignment, b: Alignment) -> bool {
    ||| (a == Alignment::Rock && b == Alignment::Scissors)
    ||| (a == Alignment::Scissors && b == Alignment::Paper)
    ||| (a == Alignment::Paper && b == Alignment::Rock)
}

/// Effectiveness of an attack of alignment `a` on a defender of alignment `b`, scaled by
/// ten: 20 when `a` beats `b`, 5 when `b` beats `a`, 10 otherwise.
pub open spec fn effectiveness_of(a: Alignment, b: Alignment) -> u32 {
    if beats(a, b) {
        20
    } else if beats(b, a) {
        5
    } else {
        10
    }
}

impl Alignment {
    pub fn effectiveness(self, other: Alignment) -> (r: u32)
        ensures
            r == effectiveness_of(self, other),
    {
        match (self, other) {
            (Alignment::Rock, Alignment::Paper) => 5,
            (Alignment::Paper, Alignment::Scissors) => 5,
            (Alignment::Scissors, Alignment::Rock) => 5,
            (Alignment::Rock, Alignment::Scissors) => 20,
            (Alignment::Scissors, Alignment::Paper) => 20,
            (Alignment::Paper, Alignment::Rock) => 20,
            _ => 10,
        }
    }
}

/// Effectiveness is defined on every pair of alignments and takes exactly one of the
/// three values; when one alignment is super effective against another, the other is
/// not very effective against it, and an alignment is neutral against itself.
pub proof fn lemma_effectiveness_cycle(a: Alignment, b: Alignment)
    ensures
        effectiveness_of(a, b) == 20 || effectiveness_of(a, b) == 5 || effectiveness_of(a, b) == 10,
        effectiveness_of(a, b) == 20 <==> effectiveness_of(b, a) == 5,
        a == b ==> effectiveness_of(a, b) == 10,
        a != b ==> effectiveness_of(a, b) != 10,
{
}

/// Active status effects and their intensities; an absent effect is `None`.
#[derive(Clone, Copy, Debug, PartialEq, Eq, Structural)]
pub struct Statuses {
    pub defend: Option<u32>,
    pub bleed: Option<u32>,
    pub stun: Option<u32>,
}

/// `a + b`, capped at `u32::MAX`.
pub open spec fn capped_add(a: u32, b: u32) -> u32 {
    if a + b > u32::MAX {
        u32::MAX
    } else {
        (a + b) as u32
    }
}

/// `level + gained`, capped at `u32::MAX`.
pub open spec fn capped_level(level: u32, gained: int) -> u32 {
    if level + gained > u32::MAX {
        u32::MAX
    } else {
        (level + gained) as u32
    }
}

/// Componentwise `a + b`, each capped at `u32::MAX`.
pub open spec fn capped_sum(a: Stats<u32>, b: Stats<u32>) -> Stats<u32> {
    Stats {
        health: capped_add(a.health, b.health),
        attack: capped_add(a.attack, b.attack),
        defense: capped_add(a.defense, b.defense),
        speed: capped_add(a.speed, b.speed),
    }
}

impl Statuses {
    pub open spec fn spec_get(self, s: Status) -> Option<u32> {
        match s {
            Status::Defend => self.defend,
            Status::Bleed => self.bleed,
            Status::Stun => self.stun,
        }
    }

    pub open spec fn spec_set(self, s: Status, v: Option<u32>) -> Statuses {
        match s {
            Status::Defend => Statuses { defend: v, ..self },
            Status::Bleed => Statuses { bleed: v, ..self },
            Status::Stun => Statuses { stun: v, ..self },
        }
    }

    /// Intensity of `s` after stacking `amount` on it (an absent effect starts at 0).
    pub open spec fn stacked(self, s: Status, amount: u32) -> Statuses {
        let base: u32 = match self.spec_get(s) {
            Some(n) => n,
            None => 0,
        };
        self.spec_set(s, Some(capped_add(base, amount)))
    }

    pub open spec fn empty() -> Statuses {
        Statuses { defend: None, bleed: None, stun: None }
    }

    pub fn new() -> (r: Statuses)
        ensures
            r == Statuses::empty(),
    {
        Statuses { defend: None, bleed: None, stun: None }
    }

    pub fn contains_key(&self, s: &Status) -> (r: bool)
        ensures
            r == self.spec_get(*s).is_some(),
    {
        self.get(s).is_some()
    }

    pub fn get(&self, s: &Status) -> (r: Option<u32>)
        ensures
            r == self.spec_get(*s),
    {
        match s {
            Status::Defend => self.defend,
            Status::Bleed => self.bleed,
            Status::Stun => self.stun,
        }
    }

    /// Sets the intensity of `s`, making it present.
    pub fn insert(&mut self, s: Status, intensity: u32)
        ensures
            *final(self) == old(self).spec_set(s, Some(intensity)),
    {
        match s {
            Status::Defend => self.defend = Some(intensity),
            Status::Bleed => self.bleed = Some(intensity),
            Status::Stun => self.stun = Some(intensity),
        }
    }

    /// Adds `amount` to the intensity of `s`, starting from 0 when it was absent.
    /// The intensity stops at `u32::MAX`.
    pub fn stack(&mut self, s: Status, amount: u32)
        ensures
            *final(self) == old(self).stacked(s, amount),
    {
        let base: u32 = match self.get(&s) {
            Some(n) => n,
            None => 0,
        };
        let v = Some(base.saturating_add(amount));
        match s {
            Status::Defend => self.defend = v,
            Status::Bleed => self.bleed = v,
            Status::Stun => self.stun = v,
        }
    }

    pub fn remove(&mut self, s: &Status)
        ensures
            *final(self) == old(self).spec_set(*s, None),
    {
        match s {
            Status::Defend => self.defend = None,
            Status::Bleed => self.bleed = None,
            Status::Stun => self.stun = None,
        }
    }
}

/// Properties shared by every character of a species. `stats` holds the species'
/// relative strengths as integer ratio weights.
#[derive(Clone, Debug, PartialEq, Eq)]
pub struct Species {
    pub name: String,
    pub bst: u32,
    pub stats: Stats<u32>,
    pub alignment: Alignment,
}

impl Species {
    /// Stat points handed out for a growth budget `a`: `floor(a * bst / GROWTH_FACTOR)`,
    /// capped at `u32::MAX`.
    pub open spec fn growth(self, a: nat) -> nat {
        let g = a * (self.bst as nat) / (GROWTH_FACTOR as nat);
        if g > u32::MAX {
            u32::MAX as nat
        } else {
            g
        }
    }

    /// Whether `inc` is a stat increase that `scale(a)` can produce: its components sum
    /// to the growth for `a`, and each is at least the truncated share of its ratio weight.
    pub open spec fn is_increase(self, a: nat, inc: Stats<u32>) -> bool {
        self.stats.scales_to(self.growth(a), inc)
    }

    /// Splits the growth for budget `a` over the four stats by the species' ratio weights;
    /// points lost to truncation go to stats drawn at random.
    pub fn scale(&self, a: u32) -> (r: Stats<u32>)
        ensures
            self.is_increase(a as nat, r),
    {
        proof {
            assert(a as nat * self.bst as nat <= (u32::MAX as nat) * (u32::MAX as nat)) by (nonlinear_arith)
                requires a <= u32::MAX, self.bst <= u32::MAX;
        }
        let g: u64 = a as u64 * self.bst as u64 / GROWTH_FACTOR as u64;
        let growth: u32 = if g > u32::MAX as u64 {
            u32::MAX
        } else {
            g as u32
        };
        self.stats.scale(growth)
    }

    /// A copy of `self`.
    pub fn duplicate(&self) -> (r: Species)
        ensures
            r == *self,
    {
        Species { name: self.name.clone(), bst: self.bst, stats: self.stats, alignment: self.alignment }
    }
}

/// State of a character that only lives as long as a battle.
#[derive(Clone, Debug, PartialEq, Eq)]
pub struct State {
    pub alignment: Alignment,
    pub health: u32,
    pub status: Statuses,
}

#[derive(Clone, Debug, PartialEq, Eq)]
pub struct Character {
    pub name: String,
    pub species: Species,
    pub attributes: Attributes,
    pub state: State,
}

pub type OnionCharacter = Character;

/// `max(0, health - damage)`.
pub open spec fn damaged(health: u32, damage: int) -> u32 {
    if damage >= health {
        0
    } else {
        (health - damage) as u32
    }
}

/// `floor(log2(x))` for `x > 0`, and 0 for `x == 0`.
pub open spec fn log2(x: nat) -> nat
    decreases x,
{
    if x < 2 {
        0
    } else {
        1 + log2(x / 2)
    }
}

proof fn lemma_log2_below(x: nat, k: nat)
    requires
        1 <= x < vstd::arithmetic::power2::pow2(k),
    ensures
        log2(x) < k,
    decreases k,
{
    if k == 0 {
        vstd::arithmetic::power2::lemma2_to64();
    } else {
        vstd::arithmetic::power2::lemma_pow2_unfold(k);
        if x >= 2 {
            lemma_log2_below(x / 2, (k - 1) as nat);
        }
    }
}

/// `floor(log2(x))`, with 0 for `x == 0`.
fn floor_log2(x: u64) -> (r: u32)
    ensures
        r == log2(x as nat),
        r < 64,
{
    proof {
        if x >= 1 {
            vstd::arithmetic::power2::lemma2_to64();
            lemma_log2_below(x as nat, 64);
        }
    }
    let mut y: u64 = x;
    let mut r: u32 = 0;
    while y >= 2
        invariant
            r + log2(y as nat) == log2(x as nat),
            log2(x as nat) < 64,
        decreases y,
    {
        y = y / 2;
        r = r + 1;
    }
    r
}

/// Experience a character of base stat total `bst` at `level` is worth when defeated.
pub open spec fn experience_value(bst: nat, level: nat) -> nat {
    if level == 0 || bst == 0 {
        0
    } else {
        (bst * log2(bst + 1)) * (level / log2(level + 1)) / (BASE_EXPERIENCE as nat)
    }
}

impl Character {
    /// `self` with its battle health replaced.
    pub open spec fn with_health(self, health: u32) -> Character {
        Character { state: State { health, ..self.state }, ..self }
    }

    /// `self` with its status effects replaced.
    pub open spec fn with_status(self, status: Statuses) -> Character {
        Character { state: State { status, ..self.state }, ..self }
    }

    /// Whether `self` is a fresh character of `species`: named after it, at level 0 with no
    /// experience and zero stats, with no health and no status effects.
    pub open spec fn is_fresh(self, species: Species) -> bool {
        &&& self.name == species.name
        &&& self.species == species
        &&& self.attributes.level == 0
        &&& self.attributes.experience == 0
        &&& self.attributes.stats.spec_is_zero()
        &&& self.state.alignment == species.alignment
        &&& self.state.health == 0
        &&& self.state.status == Statuses::empty()
    }

    pub fn from_species(species: Species) -> (r: Character)
        ensures
            r.is_fresh(species),
            r.attributes.actions@.len() == 0,
    {
        let alignment = species.alignment;
        Character {
            name: species.name.clone(),
            species,
            attributes: Attributes {
                level: 0,
                experience: 0,
                stats: Stats::zero(),
                actions: Vec::new(),
            },
            state: State { alignment, health: 0, status: Statuses::new() },
        }
    }

    pub fn from_species_and_actions(species: Species, actions: Actions) -> (r: Character)
        ensures
            r.is_fresh(species),
            r.attributes.actions == actions,
    {
        let mut character = Character::from_species(species);
        character.attributes.actions = actions;
        character
    }

    /// The speed stat, which breaks ties in turn order.
    pub fn priority(&self) -> (r: u32)
        ensures
            r == self.attributes.stats.speed,
    {
        self.attributes.stats.speed
    }

    /// One of the known actions, drawn at random; `None` when none is known.
    pub fn random_action(&self) -> (r: Option<ActionId>)
        ensures
            self.attributes.actions@.len() == 0 <==> r is None,
            r matches Some(id) ==> self.attributes.actions@.contains(id),
    {
        if self.attributes.actions.len() == 0 {
            None
        } else {
            let i = draw_below(self.attributes.actions.len());
            Some(self.attributes.actions[i])
        }
    }

    /// Resets the battle state: full health, no status effects, the species' alignment.
    pub fn refresh(&mut self)
        ensures
            final(self).name == old(self).name,
            final(self).species == old(self).species,
            final(self).attributes == old(self).attributes,
            final(self).state == (State {
                alignment: old(self).species.alignment,
                health: old(self).attributes.stats.health,
                status: Statuses::empty(),
            }),
    {
        self.state.alignment = self.species.alignment;
        self.state.health = self.attributes.stats.health;
        self.state.status = Statuses::new();
    }

    /// Experience this character is worth when defeated.
    pub fn experience(&self) -> (r: u64)
        ensures
            r == experience_value(self.species.bst as nat, self.attributes.level as nat),
    {
        if self.attributes.level == 0 || self.species.bst == 0 {
            return 0;
        }
        let bst: u64 = self.species.bst as u64;
        let level: u64 = self.attributes.level as u64;
        let lb = floor_log2(bst + 1);
        let ll = floor_log2(level + 1);
        proof {
            vstd::arithmetic::power2::lemma2_to64_rest();
            lemma_log2_below((bst + 1) as nat, 33);
            reveal_with_fuel(log2, 3);
            assert(ll >= 1);
            if level >= 3 {
                assert(ll >= 2);
            }
            assert(lb <= 32);
            assert(bst * lb <= 137438953440) by (nonlinear_arith)
                requires bst <= 4294967295, lb <= 32;
        }
        let a: u64 = bst * lb as u64;
        let b: u64 = level / ll as u64;
        proof {
            assert(a <= 137438953440) by (nonlinear_arith)
                requires a == bst * lb, bst <= 4294967295, lb <= 32;
            assert(b <= 2147483647) by (nonlinear_arith)
                requires b == level / (ll as u64), ll >= 1, level <= 4294967295,
                    level >= 3 ==> ll >= 2;
            assert(a as u128 * b as u128 <= 137438953440u128 * 2147483647u128) by (nonlinear_arith)
                requires a <= 137438953440, b <= 2147483647;
        }
        let p: u128 = a as u128 * b as u128;
        (p / 31) as u64
    }

    /// Whether `after` and `logs` are what gaining `points` experience makes of `self`:
    /// every `EXPERIENCE_TO_LEVEL` points make a level, and when at least one level is
    /// gained the realized stats grow once by `species.stats.scale(SCALING_FACTOR)`,
    /// however many levels it was. Level and stats stop at `u32::MAX`.
    pub open spec fn gained_experience(self, points: u64, after: Character, logs: Seq<Log>) -> bool {
        let total = self.attributes.experience + points;
        &&& after.attributes.experience == total % (EXPERIENCE_TO_LEVEL as int)
        &&& after.attributes.level == capped_level(self.attributes.level, total / (EXPERIENCE_TO_LEVEL as int))
        &&& after.name == self.name
        &&& after.species == self.species
        &&& after.state == self.state
        &&& after.attributes.actions == self.attributes.actions
        &&& logs.len() >= 1
        &&& logs[0] == (Log::GainedExperience { points })
        &&& total < EXPERIENCE_TO_LEVEL ==> {
            &&& logs.len() == 1
            &&& after.attributes.stats == self.attributes.stats
        }
        &&& total >= EXPERIENCE_TO_LEVEL ==> {
            &&& logs.len() == 2
            &&& logs[1] is StatsIncreased
            &&& self.species.stats.scales_to(SCALING_FACTOR as nat, logs[1]->increase)
            &&& after.attributes.stats == capped_sum(self.attributes.stats, logs[1]->increase)
        }
    }

    /// Adds `points` experience; every `EXPERIENCE_TO_LEVEL` points make a level. When at
    /// least one level is gained, the realized stats grow once by `species.stats.scale(SCALING_FACTOR)`,
    /// however many levels it was. Level and stats stop at `u32::MAX`.
    pub fn gain_experience(&mut self, points: u64) -> (logs: Vec<Log>)
        ensures
            old(self).gained_experience(points, *final(self), logs@),
    {
        let mut logs: Vec<Log> = Vec::new();
        logs.push(Log::GainedExperience { points });
        let total: u128 = self.attributes.experience as u128 + points as u128;
        self.attributes.experience = (total % EXPERIENCE_TO_LEVEL as u128) as u32;
        let levels: u128 = total / EXPERIENCE_TO_LEVEL as u128;
        let level: u128 = self.attributes.level as u128 + levels;
        self.attributes.level = if level > u32::MAX as u128 {
            u32::MAX
        } else {
            level as u32
        };
        if levels > 0 {
            let increase = self.species.stats.scale(SCALING_FACTOR);
            logs.push(Log::StatsIncreased { increase });
            let old_stats = self.attributes.stats;
            self.attributes.stats = Stats {
                health: old_stats.health.saturating_add(increase.health),
                attack: old_stats.attack.saturating_add(increase.attack),
                defense: old_stats.defense.saturating_add(increase.defense),
                speed: old_stats.speed.saturating_add(increase.speed),
            };
        }
        logs
    }

    /// Lowers health by `damage`, stopping at 0.
    pub fn deal_damage(&mut self, damage: u64)
        ensures
            *final(self) == old(self).with_health(damaged(old(self).state.health, damage as int)),
            final(self).state.health == if damage >= old(self).state.health {
                0
            } else {
                old(self).state.health - damage
            },
    {
        if damage >= self.state.health as u64 {
            self.state.health = 0;
        } else {
            self.state.health = self.state.health - damage as u32;
        }
    }
}

} // verus!
