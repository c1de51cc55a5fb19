use vstd::prelude::*;

use crate::action::ActionPool;
use crate::common::Actions;
use crate::dice::draw_below;
use crate::onion::{Character, Statuses, EXPERIENCE_TO_LEVEL, SCALING_FACTOR};

verus! {

/// The species and actions that characters are drawn from.
#[derive(Clone, Debug, PartialEq, Eq)]
pub struct OnionWorld {
    pub species: Vec<crate::onion::Species>,
    pub actions: ActionPool,
}

/// Number of actions a drawn character knows.
pub const KNOWN_ACTIONS: usize = 4;

impl OnionWorld {
    /// Whether characters can be drawn: there is a species, and an identifier to draw.
    pub open spec fn can_sample(self) -> bool {
        &&& self.species@.len() > 0
        &&& 0 < self.actions.spec_len() + self.actions.padding <= usize::MAX
    }

    /// Whether `c` knows `KNOWN_ACTIONS` identifiers of this world's pool and padding.
    pub open spec fn knows_pool_actions(self, c: Character) -> bool {
        &&& c.attributes.actions@.len() == KNOWN_ACTIONS
        &&& forall|i: int| 0 <= i < KNOWN_ACTIONS ==>
            #[trigger] c.attributes.actions@[i] < self.actions.spec_len() + self.actions.padding
    }

    /// A fresh character of a species drawn at random, knowing actions drawn at random.
    pub fn sample(&self) -> (r: Character)
        requires
            self.can_sample(),
        ensures
            self.species@.contains(r.species),
            r.is_fresh(r.species),
            self.knows_pool_actions(r),
    {
        let i = draw_below(self.species.len());
        let species = self.species[i].duplicate();
        let mut actions: Actions = Vec::new();
        while actions.len() < KNOWN_ACTIONS
            invariant
                self.can_sample(),
                actions@.len() <= KNOWN_ACTIONS,
                forall|j: int| 0 <= j < actions@.len() ==>
                    #[trigger] actions@[j] < self.actions.spec_len() + self.actions.padding,
            decreases KNOWN_ACTIONS - actions@.len(),
        {
            actions.push(self.actions.sample());
        }
        let r = Character::from_species_and_actions(species, actions);
        assert(self.species@[i as int] == r.species);
        r
    }

    /// A character drawn as by `sample`, brought to `level`: no leftover experience,
    /// stats scaled from its species' ratio weights to `level * SCALING_FACTOR`, and a
    /// refreshed battle state.
    pub fn sample_at_level(&self, level: u32) -> (r: Character)
        requires
            self.can_sample(),
            level * EXPERIENCE_TO_LEVEL <= u32::MAX,
        ensures
            self.species@.contains(r.species),
            r.name == r.species.name,
            self.knows_pool_actions(r),
            r.attributes.level == level,
            r.attributes.experience == 0,
            r.species.stats.scales_to((level * SCALING_FACTOR) as nat, r.attributes.stats),
            r.state.alignment == r.species.alignment,
            r.state.health == r.attributes.stats.health,
            r.state.status == Statuses::empty(),
    {
        let mut character = self.sample();
        proof {
            assert((level * 100) % 100 == 0 && (level * 100) / 100 == level) by (nonlinear_arith);
        }
        let _ = character.gain_experience(level as u64 * EXPERIENCE_TO_LEVEL as u64);
        character.attributes.stats = character.species.stats.scale(level * SCALING_FACTOR);
        character.refresh();
        character
    }
}

} // verus!
