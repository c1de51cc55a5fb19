use vstd::prelude::*;

use crate::common::Stats;

verus! {

/// One line of battle narration, kept structured so that callers decide how to render it.
#[derive(Clone, Debug, PartialEq, Eq)]
pub enum Log {
    /// `user` used the action named `action`.
    Used { user: String, action: String },
    /// `user` skipped its turn.
    Skipped { user: String },
    /// `target` blocked the attack named `action` that `user` used.
    Blocked { target: String, user: String, action: String },
    /// `target` blocked an attack of `user`.
    BlockedAttack { target: String, user: String },
    VeryEffective,
    NotVeryEffective,
    /// `user` raised its guard.
    Defending { user: String },
    /// A bleed was refused because `target` is stunned.
    AlreadyStunned { target: String },
    /// A stun was refused because `target` is bleeding.
    AlreadyBleeding { target: String },
    /// `target` gained `amount` bleeding.
    GainedBleed { target: String, amount: u32 },
    /// `name` is stunned: either freshly, or it lost its turn to a stun.
    Stunned { name: String },
    /// `name` recovered from its stun.
    NoLongerStunned { name: String },
    /// `name` lost health to its bleeding.
    HurtByBleed { name: String },
    /// The enemy `name` was defeated.
    Defeated { name: String },
    /// The player `name` died.
    Died { name: String },
    /// The player gained `points` experience.
    GainedExperience { points: u64 },
    /// Levelling up raised the realized stats by `increase`.
    StatsIncreased { increase: Stats<u32> },
}

} // verus!
