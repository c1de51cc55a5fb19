use vstd::prelude::*;

use crate::common::ActionId;
use crate::dice::draw_below;
use crate::log::Log;
use crate::text::{decimal, push_decimal};
use crate::onion::{damaged, effectiveness_of, Alignment, Character, Status};

verus! {

/// An attack whose damage follows the level, the attack/defense ratio, the same-alignment
/// bonus and alignment effectiveness.
#[derive(Clone, Debug, PartialEq, Eq)]
pub struct Attack {
    pub name: String,
    pub power: u32,
    pub alignment: Alignment,
    pub priority: i32,
}

/// An attack that removes exactly `power` health.
#[derive(Clone, Debug, PartialEq, Eq)]
pub struct PureAttack {
    pub name: String,
    pub power: u32,
}

/// Raises the user's guard, blocking attacks until the end of the round.
#[derive(Clone, Debug, PartialEq, Eq)]
pub struct Defend {
    pub name: String,
}

/// Stacks `power` bleeding on the target, unless it is stunned.
#[derive(Clone, Debug, PartialEq, Eq)]
pub struct Bleed {
    pub name: String,
    pub power: u32,
}

/// Stacks one stun on the target, unless it is bleeding.
#[derive(Clone, Debug, PartialEq, Eq)]
pub struct Stun {
    pub name: String,
}

/// Does nothing; stands in for an action identifier that resolves to nothing.
#[derive(Clone, Copy, Debug, PartialEq, Eq)]
pub struct Skip;

/// What an action leaves behind: the user, the target and the log lines.
pub type Outcome = (Character, Character, Seq<Log>);

/// Same-alignment bonus, scaled by ten.
pub open spec fn stab_of(user: Character, alignment: Alignment) -> int {
    if user.state.alignment == alignment {
        15
    } else {
        10
    }
}

/// Damage of an attack of `power` and `alignment` from `user` on `target`:
/// `(2 * level / 5 + 2) * power * (attack / defense) * stab * effectiveness / 5000 + 2`,
/// where a defense of 0 counts as 1.
pub open spec fn attack_damage(power: u32, alignment: Alignment, user: Character, target: Character) -> int {
    let level_factor = 2 * (user.attributes.level as int) / 5 + 2;
    let defense = if target.attributes.stats.defense == 0 {
        1
    } else {
        target.attributes.stats.defense as int
    };
    let ratio = user.attributes.stats.attack as int / defense;
    let eff = effectiveness_of(alignment, target.state.alignment) as int;
    level_factor * power * ratio * stab_of(user, alignment) * eff / 5000 + 2
}

/// Whether `c` has raised its guard.
pub open spec fn defending(c: Character) -> bool {
    c.state.status.defend.is_some()
}

/// The name an alignment goes by.
pub open spec fn alignment_name(a: Alignment) -> Seq<char> {
    match a {
        Alignment::Rock => "Rock"@,
        Alignment::Paper => "Paper"@,
        Alignment::Scissors => "Scissors"@,
    }
}

fn push_alignment(out: &mut String, a: Alignment)
    ensures
        final(out)@ == old(out)@ + alignment_name(a),
{
    match a {
        Alignment::Rock => out.append("Rock"),
        Alignment::Paper => out.append("Paper"),
        Alignment::Scissors => out.append("Scissors"),
    }
}

impl Attack {
    pub open spec fn outcome(self, user: Character, target: Character) -> Outcome {
        let used = Log::Used { user: user.name, action: self.name };
        if defending(target) {
            (user, target, seq![used, Log::Blocked { target: target.name, user: user.name, action: self.name }])
        } else {
            let eff = effectiveness_of(self.alignment, target.state.alignment);
            let comment = if eff == 20 {
                seq![Log::VeryEffective]
            } else if eff == 5 {
                seq![Log::NotVeryEffective]
            } else {
                Seq::empty()
            };
            let hit = target.with_health(
                damaged(target.state.health, attack_damage(self.power, self.alignment, user, target)),
            );
            (user, hit, seq![used] + comment)
        }
    }

    pub open spec fn spec_description(self) -> Seq<char> {
        alignment_name(self.alignment) + "-aligned Attack with "@ + decimal(self.power as nat) + " power."@
            + if self.priority > 0 {
            "\nHas priority."@
        } else {
            Seq::empty()
        }
    }

    pub fn description(&self) -> (r: String)
        ensures
            r@ == self.spec_description(),
    {
        let mut out = String::new();
        push_alignment(&mut out, self.alignment);
        out.append("-aligned Attack with ");
        push_decimal(&mut out, self.power as u64);
        out.append(" power.");
        if self.priority > 0 {
            out.append("\nHas priority.");
        }
        assert(out@ =~= self.spec_description());
        out
    }

    pub fn name(&self) -> (r: String)
        ensures
            r == self.name,
    {
        self.name.clone()
    }

    pub fn priority(&self) -> (r: i32)
        ensures
            r == self.priority,
    {
        self.priority
    }

    pub fn act(&self, user: &mut Character, target: &mut Character) -> (logs: Vec<Log>)
        ensures
            (*final(user), *final(target), logs@) == self.outcome(*old(user), *old(target)),
            defending(*old(target)) ==> *final(target) == *old(target),
    {
        let mut logs: Vec<Log> = Vec::new();
        logs.push(Log::Used { user: user.name.clone(), action: self.name.clone() });
        if target.state.status.contains_key(&Status::Defend) {
            logs.push(Log::Blocked { target: target.name.clone(), user: user.name.clone(), action: self.name.clone() });
        } else {
            let level_factor: u128 = 2 * user.attributes.level as u128 / 5 + 2;
            let defense: u32 = if target.attributes.stats.defense == 0 {
                1
            } else {
                target.attributes.stats.defense
            };
            let ratio: u128 = (user.attributes.stats.attack / defense) as u128;
            let stab: u128 = if user.state.alignment == self.alignment {
                15
            } else {
                10
            };
            let eff = self.alignment.effectiveness(target.state.alignment);
            if eff == 20 {
                logs.push(Log::VeryEffective);
            } else if eff == 5 {
                logs.push(Log::NotVeryEffective);
            }
            proof {
                assert(level_factor <= 1717986920);
                assert(ratio <= 4294967295);
                assert(level_factor * (self.power as u128) <= 1717986920u128 * 4294967295u128) by (nonlinear_arith)
                    requires level_factor <= 1717986920, self.power <= 4294967295;
                assert(level_factor * (self.power as u128) * ratio
                    <= 1717986920u128 * 4294967295u128 * 4294967295u128) by (nonlinear_arith)
                    requires level_factor * (self.power as u128) <= 1717986920u128 * 4294967295u128,
                        ratio <= 4294967295;
                assert(level_factor * (self.power as u128) * ratio * stab
                    <= 1717986920u128 * 4294967295u128 * 4294967295u128 * 15) by (nonlinear_arith)
                    requires level_factor * (self.power as u128) * ratio
                        <= 1717986920u128 * 4294967295u128 * 4294967295u128, stab <= 15;
                assert(level_factor * (self.power as u128) * ratio * stab * (eff as u128)
                    <= 1717986920u128 * 4294967295u128 * 4294967295u128 * 15 * 20) by (nonlinear_arith)
                    requires level_factor * (self.power as u128) * ratio * stab
                        <= 1717986920u128 * 4294967295u128 * 4294967295u128 * 15, eff <= 20;
            }
            let damage: u128 = level_factor * self.power as u128 * ratio * stab * eff as u128 / 5000 + 2;
            let capped: u64 = if damage > u64::MAX as u128 {
                u64::MAX
            } else {
                damage as u64
            };
            target.deal_damage(capped);
        }
        logs
    }
}

impl PureAttack {
    pub open spec fn outcome(self, user: Character, target: Character) -> Outcome {
        let used = Log::Used { user: user.name, action: self.name };
        if defending(target) {
            (user, target, seq![used, Log::BlockedAttack { target: target.name, user: user.name }])
        } else {
            (user, target.with_health(damaged(target.state.health, self.power as int)), seq![used])
        }
    }

    pub open spec fn spec_description(self) -> Seq<char> {
        "Attack for exactly "@ + decimal(self.power as nat) + " damage."@
    }

    pub fn description(&self) -> (r: String)
        ensures
            r@ == self.spec_description(),
    {
        let mut out = String::from_str("Attack for exactly ");
        push_decimal(&mut out, self.power as u64);
        out.append(" damage.");
        assert(out@ =~= self.spec_description());
        out
    }

    pub fn name(&self) -> (r: String)
        ensures
            r == self.name,
    {
        self.name.clone()
    }

    pub fn act(&self, user: &mut Character, target: &mut Character) -> (logs: Vec<Log>)
        ensures
            (*final(user), *final(target), logs@) == self.outcome(*old(user), *old(target)),
            defending(*old(target)) ==> *final(target) == *old(target),
    {
        let mut logs: Vec<Log> = Vec::new();
        logs.push(Log::Used { user: user.name.clone(), action: self.name.clone() });
        if target.state.status.contains_key(&Status::Defend) {
            logs.push(Log::BlockedAttack { target: target.name.clone(), user: user.name.clone() });
        } else {
            target.deal_damage(self.power as u64);
        }
        logs
    }
}

impl Defend {
    pub open spec fn outcome(self, user: Character, target: Character) -> Outcome {
        (user.with_status(user.state.status.spec_set(Status::Defend, Some(0))), target, seq![Log::Defending { user: user.name }])
    }

    pub fn description(&self) -> (r: String)
        ensures
            r@ == "Defend against attacks."@,
    {
        String::from_str("Defend against attacks.")
    }

    pub fn name(&self) -> (r: String)
        ensures
            r == self.name,
    {
        self.name.clone()
    }

    /// Defending acts before actions of ordinary priority.
    pub fn priority(&self) -> (r: i32)
        ensures
            r == 2,
    {
        2
    }

    pub fn act(&self, user: &mut Character, target: &mut Character) -> (logs: Vec<Log>)
        ensures
            (*final(user), *final(target), logs@) == self.outcome(*old(user), *old(target)),
            final(user).state.status.defend == Some(0u32),
    {
        let mut logs: Vec<Log> = Vec::new();
        logs.push(Log::Defending { user: user.name.clone() });
        user.state.status.insert(Status::Defend, 0);
        logs
    }
}

impl Bleed {
    pub open spec fn outcome(self, user: Character, target: Character) -> Outcome {
        let used = Log::Used { user: user.name, action: self.name };
        if target.state.status.stun.is_some() {
            (user, target, seq![used, Log::AlreadyStunned { target: target.name }])
        } else {
            (
                user,
                target.with_status(target.state.status.stacked(Status::Bleed, self.power)),
                seq![used, Log::GainedBleed { target: target.name, amount: self.power }],
            )
        }
    }

    pub open spec fn spec_description(self) -> Seq<char> {
        "Applies "@ + decimal(self.power as nat) + " bleeding to the enemy."@
    }

    pub fn description(&self) -> (r: String)
        ensures
            r@ == self.spec_description(),
    {
        let mut out = String::from_str("Applies ");
        push_decimal(&mut out, self.power as u64);
        out.append(" bleeding to the enemy.");
        assert(out@ =~= self.spec_description());
        out
    }

    pub fn name(&self) -> (r: String)
        ensures
            r == self.name,
    {
        self.name.clone()
    }

    pub fn act(&self, user: &mut Character, target: &mut Character) -> (logs: Vec<Log>)
        ensures
            (*final(user), *final(target), logs@) == self.outcome(*old(user), *old(target)),
            old(target).state.status.stun.is_some() ==> {
                &&& *final(target) == *old(target)
                &&& logs@.last() == (Log::AlreadyStunned { target: old(target).name })
            },
    {
        let mut logs: Vec<Log> = Vec::new();
        logs.push(Log::Used { user: user.name.clone(), action: self.name.clone() });
        if target.state.status.contains_key(&Status::Stun) {
            logs.push(Log::AlreadyStunned { target: target.name.clone() });
        } else {
            target.state.status.stack(Status::Bleed, self.power);
            logs.push(Log::GainedBleed { target: target.name.clone(), amount: self.power });
        }
        logs
    }
}

impl Stun {
    pub open spec fn outcome(self, user: Character, target: Character) -> Outcome {
        let used = Log::Used { user: user.name, action: self.name };
        if target.state.status.bleed.is_some() {
            (user, target, seq![used, Log::AlreadyBleeding { target: target.name }])
        } else {
            (
                user,
                target.with_status(target.state.status.stacked(Status::Stun, 1)),
                seq![used, Log::Stunned { name: target.name }],
            )
        }
    }

    pub fn description(&self) -> (r: String)
        ensures
            r@ == "Stuns the enemy."@,
    {
        String::from_str("Stuns the enemy.")
    }

    pub fn name(&self) -> (r: String)
        ensures
            r == self.name,
    {
        self.name.clone()
    }

    pub fn act(&self, user: &mut Character, target: &mut Character) -> (logs: Vec<Log>)
        ensures
            (*final(user), *final(target), logs@) == self.outcome(*old(user), *old(target)),
            old(target).state.status.bleed.is_some() ==> {
                &&& *final(target) == *old(target)
                &&& logs@.last() == (Log::AlreadyBleeding { target: old(target).name })
            },
    {
        let mut logs: Vec<Log> = Vec::new();
        logs.push(Log::Used { user: user.name.clone(), action: self.name.clone() });
        if target.state.status.contains_key(&Status::Bleed) {
            logs.push(Log::AlreadyBleeding { target: target.name.clone() });
        } else {
            target.state.status.stack(Status::Stun, 1);
            logs.push(Log::Stunned { name: target.name.clone() });
        }
        logs
    }
}

impl Skip {
    pub open spec fn outcome(self, user: Character, target: Character) -> Outcome {
        (user, target, seq![Log::Skipped { user: user.name }])
    }

    pub fn description(&self) -> (r: String)
        ensures
            r@ == "User skips their next turn."@,
    {
        String::from_str("User skips their next turn.")
    }

    pub fn name(&self) -> (r: String)
        ensures
            r@ == "Skip"@,
    {
        String::from_str("Skip")
    }

    pub fn act(&self, user: &mut Character, target: &mut Character) -> (logs: Vec<Log>)
        ensures
            (*final(user), *final(target), logs@) == self.outcome(*old(user), *old(target)),
    {
        let mut logs: Vec<Log> = Vec::new();
        logs.push(Log::Skipped { user: user.name.clone() });
        logs
    }
}

/// Every kind of action a character can take.
#[derive(Clone, Debug, PartialEq, Eq)]
pub enum Action {
    Attack(Attack),
    PureAttack(PureAttack),
    Defend(Defend),
    Bleed(Bleed),
    Stun(Stun),
    Skip(Skip),
}

impl Action {
    pub open spec fn outcome(self, user: Character, target: Character) -> Outcome {
        match self {
            Action::Attack(a) => a.outcome(user, target),
            Action::PureAttack(a) => a.outcome(user, target),
            Action::Defend(a) => a.outcome(user, target),
            Action::Bleed(a) => a.outcome(user, target),
            Action::Stun(a) => a.outcome(user, target),
            Action::Skip(a) => a.outcome(user, target),
        }
    }

    pub open spec fn spec_name(self) -> Seq<char> {
        match self {
            Action::Attack(a) => a.name@,
            Action::PureAttack(a) => a.name@,
            Action::Defend(a) => a.name@,
            Action::Bleed(a) => a.name@,
            Action::Stun(a) => a.name@,
            Action::Skip(_) => "Skip"@,
        }
    }

    /// Turn-order priority: higher acts first.
    pub open spec fn spec_priority(self) -> i32 {
        match self {
            Action::Attack(a) => a.priority,
            Action::Defend(_) => 2,
            _ => 0,
        }
    }

    pub fn name(&self) -> (r: String)
        ensures
            r@ == self.spec_name(),
    {
        match self {
            Action::Attack(a) => a.name(),
            Action::PureAttack(a) => a.name(),
            Action::Defend(a) => a.name(),
            Action::Bleed(a) => a.name(),
            Action::Stun(a) => a.name(),
            Action::Skip(a) => a.name(),
        }
    }

    pub open spec fn spec_description(self) -> Seq<char> {
        match self {
            Action::Attack(a) => a.spec_description(),
            Action::PureAttack(a) => a.spec_description(),
            Action::Defend(_) => "Defend against attacks."@,
            Action::Bleed(a) => a.spec_description(),
            Action::Stun(_) => "Stuns the enemy."@,
            Action::Skip(_) => "User skips their next turn."@,
        }
    }

    pub fn description(&self) -> (r: String)
        ensures
            r@ == self.spec_description(),
    {
        match self {
            Action::Attack(a) => a.description(),
            Action::PureAttack(a) => a.description(),
            Action::Defend(a) => a.description(),
            Action::Bleed(a) => a.description(),
            Action::Stun(a) => a.description(),
            Action::Skip(a) => a.description(),
        }
    }

    pub fn priority(&self) -> (r: i32)
        ensures
            r == self.spec_priority(),
    {
        match self {
            Action::Attack(a) => a.priority(),
            Action::Defend(a) => a.priority(),
            _ => 0,
        }
    }

    pub fn act(&self, user: &mut Character, target: &mut Character) -> (logs: Vec<Log>)
        ensures
            (*final(user), *final(target), logs@) == self.outcome(*old(user), *old(target)),
    {
        match self {
            Action::Attack(a) => a.act(user, target),
            Action::PureAttack(a) => a.act(user, target),
            Action::Defend(a) => a.act(user, target),
            Action::Bleed(a) => a.act(user, target),
            Action::Stun(a) => a.act(user, target),
            Action::Skip(a) => a.act(user, target),
        }
    }
}

/// A raised guard blocks both kinds of attack: the target comes out unchanged.
pub proof fn lemma_defend_blocks_attacks(action: Action, user: Character, target: Character)
    requires
        defending(target),
        action is Attack || action is PureAttack,
    ensures
        action.outcome(user, target).1 == target,
        action.outcome(user, target).0 == user,
{
}

/// Bleeding and stunning exclude each other: stacking one on a target that carries the
/// other changes nothing and ends the log with the refusal.
pub proof fn lemma_debuffs_exclusive(action: Action, user: Character, target: Character)
    requires
        (action is Bleed && target.state.status.stun.is_some())
            || (action is Stun && target.state.status.bleed.is_some()),
    ensures
        action.outcome(user, target).0 == user,
        action.outcome(user, target).1 == target,
        action is Bleed ==> action.outcome(user, target).2.last() == (Log::AlreadyStunned { target: target.name }),
        action is Stun ==> action.outcome(user, target).2.last() == (Log::AlreadyBleeding { target: target.name }),
{
}

/// The actions of a world, grouped by kind. An identifier counts through the attacks,
/// then the pure attacks, defends, bleeds and stuns; any identifier past them resolves to
/// `Skip`. `padding` adds that many extra `Skip` identifiers to sampling.
#[derive(Clone, Debug, PartialEq, Eq)]
pub struct ActionPool {
    pub attack: Vec<Attack>,
    pub pure_attack: Vec<PureAttack>,
    pub defend: Vec<Defend>,
    pub bleed: Vec<Bleed>,
    pub stun: Vec<Stun>,
    pub padding: usize,
}

impl ActionPool {
    /// Number of actions in the pool.
    pub open spec fn spec_len(self) -> int {
        self.attack@.len() as int + self.pure_attack@.len() + self.defend@.len() + self.bleed@.len()
            + self.stun@.len()
    }

    /// Whether the pool holds the standard pure attacks, defends, bleeds and stuns.
    pub open spec fn has_standard_actions(self) -> bool {
        &&& self.pure_attack@.len() == 2
        &&& self.pure_attack@[0].name@ == "Burst"@ && self.pure_attack@[0].power == 20
        &&& self.pure_attack@[1].name@ == "Blast"@ && self.pure_attack@[1].power == 40
        &&& self.defend@.len() == 2
        &&& self.defend@[0].name@ == "Block"@
        &&& self.defend@[1].name@ == "Dodge"@
        &&& self.bleed@.len() == 2
        &&& self.bleed@[0].name@ == "Cut"@ && self.bleed@[0].power == 1
        &&& self.bleed@[1].name@ == "Slice"@ && self.bleed@[1].power == 1
        &&& self.stun@.len() == 3
        &&& self.stun@[0].name@ == "Lullabye"@
        &&& self.stun@[1].name@ == "Paralyze"@
        &&& self.stun@[2].name@ == "Yawn"@
    }

    /// The action that identifier `id` resolves to.
    pub open spec fn lookup(self, id: int) -> Action {
        let a = self.attack@.len();
        let p = a + self.pure_attack@.len();
        let d = p + self.defend@.len();
        let b = d + self.bleed@.len();
        let s = b + self.stun@.len();
        if id < a {
            Action::Attack(self.attack@[id])
        } else if id < p {
            Action::PureAttack(self.pure_attack@[id - a])
        } else if id < d {
            Action::Defend(self.defend@[id - p])
        } else if id < b {
            Action::Bleed(self.bleed@[id - d])
        } else if id < s {
            Action::Stun(self.stun@[id - b])
        } else {
            Action::Skip(Skip)
        }
    }

    pub fn empty_pool() -> (r: ActionPool)
        ensures
            r.spec_len() == 0,
            r.padding == 0,
    {
        ActionPool {
            attack: Vec::new(),
            pure_attack: Vec::new(),
            defend: Vec::new(),
            bleed: Vec::new(),
            stun: Vec::new(),
            padding: 0,
        }
    }

    /// The given attacks with the standard pure attacks, defends, bleeds and stuns.
    pub fn with_padding(attack: Vec<Attack>, padding: usize) -> (r: ActionPool)
        ensures
            r.attack == attack,
            r.padding == padding,
            r.has_standard_actions(),
    {
        ActionPool {
            attack,
            pure_attack: vec![
                PureAttack { name: String::from_str("Burst"), power: 20 },
                PureAttack { name: String::from_str("Blast"), power: 40 },
            ],
            defend: vec![
                Defend { name: String::from_str("Block") },
                Defend { name: String::from_str("Dodge") },
            ],
            bleed: vec![
                Bleed { name: String::from_str("Cut"), power: 1 },
                Bleed { name: String::from_str("Slice"), power: 1 },
            ],
            stun: vec![
                Stun { name: String::from_str("Lullabye") },
                Stun { name: String::from_str("Paralyze") },
                Stun { name: String::from_str("Yawn") },
            ],
            padding,
        }
    }

    pub fn with_attacks(attack: Vec<Attack>) -> (r: ActionPool)
        ensures
            r.attack == attack,
            r.padding == 0,
            r.has_standard_actions(),
    {
        ActionPool::with_padding(attack, 0)
    }

    pub fn len(&self) -> (r: usize)
        requires
            self.spec_len() <= usize::MAX,
        ensures
            r == self.spec_len(),
    {
        self.attack.len() + self.pure_attack.len() + self.defend.len() + self.bleed.len()
            + self.stun.len()
    }

    /// The action that identifier `id` resolves to.
    pub fn index(&self, id: ActionId) -> (r: Action)
        ensures
            r == self.lookup(id as int),
    {
        let mut rest: usize = id;
        if rest < self.attack.len() {
            let a = &self.attack[rest];
            return Action::Attack(Attack { name: a.name.clone(), power: a.power, alignment: a.alignment, priority: a.priority });
        }
        rest = rest - self.attack.len();
        if rest < self.pure_attack.len() {
            let a = &self.pure_attack[rest];
            return Action::PureAttack(PureAttack { name: a.name.clone(), power: a.power });
        }
        rest = rest - self.pure_attack.len();
        if rest < self.defend.len() {
            let a = &self.defend[rest];
            return Action::Defend(Defend { name: a.name.clone() });
        }
        rest = rest - self.defend.len();
        if rest < self.bleed.len() {
            let a = &self.bleed[rest];
            return Action::Bleed(Bleed { name: a.name.clone(), power: a.power });
        }
        rest = rest - self.bleed.len();
        if rest < self.stun.len() {
            let a = &self.stun[rest];
            return Action::Stun(Stun { name: a.name.clone() });
        }
        Action::Skip(Skip)
    }

    /// An identifier drawn at random among the actions and the padding.
    pub fn sample(&self) -> (r: ActionId)
        requires
            0 < self.spec_len() + self.padding <= usize::MAX,
        ensures
            r < self.spec_len() + self.padding,
    {
        draw_below(self.len() + self.padding)
    }
}

} // verus!
