use vstd::prelude::*;

use crate::action::{Action, ActionPool, Outcome};
use crate::common::ActionId;
use crate::dice::draw_below;
use crate::log::Log;
use crate::onion::{damaged, experience_value, Character, Status};

verus! {

/// What a turn of `user` with `action` against `target` leaves behind, given the value
/// `roll` drawn for stun recovery.
///
/// A stunned user with intensity `n` recovers when `roll % (n + 1) == 0`: the stun is
/// removed and the action goes ahead; otherwise the turn is lost. A bleeding user acts,
/// then loses its bleed intensity in health, stopping at 0. Anyone else just acts.
pub open spec fn turn_outcome(action: Action, user: Character, target: Character, roll: u32) -> Outcome {
    match user.state.status.stun {
        Some(n) => {
            if (roll as int) % (n + 1) == 0 {
                let recovered = user.with_status(user.state.status.spec_set(Status::Stun, None));
                let (u, t, logs) = action.outcome(recovered, target);
                (u, t, seq![Log::NoLongerStunned { name: user.name }] + logs)
            } else {
                (user, target, seq![Log::Stunned { name: user.name }])
            }
        },
        None => match user.state.status.bleed {
            Some(n) => {
                let (u, t, logs) = action.outcome(user, target);
                (
                    u.with_health(damaged(u.state.health, n as int)),
                    t,
                    logs + seq![Log::HurtByBleed { name: user.name }],
                )
            },
            None => action.outcome(user, target),
        },
    }
}

/// Takes the turn of `user` with `action` against `target`, where `roll` is the value drawn
/// for stun recovery.
pub fn take_turn_with_roll(user: &mut Character, target: &mut Character, action: &Action, roll: u32) -> (logs: Vec<Log>)
    ensures
        (*final(user), *final(target), logs@) == turn_outcome(*action, *old(user), *old(target), roll),
{
    match user.state.status.get(&Status::Stun) {
        Some(n) => {
            if roll as u64 % (n as u64 + 1) == 0 {
                user.state.status.remove(&Status::Stun);
                let mut logs: Vec<Log> = Vec::new();
                logs.push(Log::NoLongerStunned { name: user.name.clone() });
                let mut acted = action.act(user, target);
                logs.append(&mut acted);
                logs
            } else {
                let mut logs: Vec<Log> = Vec::new();
                logs.push(Log::Stunned { name: user.name.clone() });
                logs
            }
        },
        None => match user.state.status.get(&Status::Bleed) {
            Some(n) => {
                let name = user.name.clone();
                let mut logs = action.act(user, target);
                user.deal_damage(n as u64);
                logs.push(Log::HurtByBleed { name });
                logs
            },
            None => action.act(user, target),
        },
    }
}

/// Takes the turn of `user` with `action` against `target`; a stunned user draws its
/// recovery at random.
pub fn take_turn(user: &mut Character, target: &mut Character, action: &Action) -> (logs: Vec<Log>)
    ensures
        exists|roll: u32|
            (*final(user), *final(target), logs@) == #[trigger] turn_outcome(*action, *old(user), *old(target), roll),
{
    let roll: u32 = if user.state.status.contains_key(&Status::Stun) {
        rand::random::<u32>()
    } else {
        0
    };
    let logs = take_turn_with_roll(user, target, action, roll);
    assert((*user, *target, logs@) == turn_outcome(*action, *old(user), *old(target), roll));
    logs
}

/// Removes a raised guard: it lasts only until the end of the round.
fn clean_up(character: &mut Character)
    ensures
        *final(character) == old(character).with_status(old(character).state.status.spec_set(Status::Defend, None)),
{
    character.state.status.remove(&Status::Defend);
}

#[derive(Clone, Copy, Debug, PartialEq, Eq, Structural)]
pub enum OnionBattleState {
    Defeat,
    InProcess,
    Victory,
}

/// Whether the player acts first: the action of strictly higher priority goes first; on a
/// tie the faster character; on a tie of speeds too, the coin.
pub open spec fn player_first(player_priority: i32, enemy_priority: i32, player_speed: u32, enemy_speed: u32, coin: bool) -> bool {
    ||| player_priority > enemy_priority
    ||| (player_priority == enemy_priority && player_speed > enemy_speed)
    ||| (player_priority == enemy_priority && player_speed == enemy_speed && coin)
}

pub fn player_first_with_coin(player_priority: i32, enemy_priority: i32, player_speed: u32, enemy_speed: u32, coin: bool) -> (r: bool)
    ensures
        r == player_first(player_priority, enemy_priority, player_speed, enemy_speed, coin),
{
    if player_priority > enemy_priority {
        true
    } else if player_priority == enemy_priority && player_speed > enemy_speed {
        true
    } else {
        player_priority == enemy_priority && player_speed == enemy_speed && coin
    }
}

/// A battle between the player and an enemy.
#[derive(Clone, Debug, PartialEq, Eq)]
pub struct OnionBattle {
    pub player: Character,
    pub enemy: Character,
}

/// Experience the player earns for defeating `enemy`: the enemy's worth divided by the
/// player's level, where a level of 0 counts as 1.
pub open spec fn reward(player: Character, enemy: Character) -> nat {
    let level = if player.attributes.level == 0 {
        1
    } else {
        player.attributes.level as nat
    };
    experience_value(enemy.species.bst as nat, enemy.attributes.level as nat) / level
}

impl OnionBattle {
    /// Defeat when the player has no health left (checked first), Victory when the enemy
    /// has none, InProcess otherwise.
    pub open spec fn spec_state(self) -> OnionBattleState {
        if self.player.state.health == 0 {
            OnionBattleState::Defeat
        } else if self.enemy.state.health == 0 {
            OnionBattleState::Victory
        } else {
            OnionBattleState::InProcess
        }
    }

    pub fn new(player: Character, enemy: Character) -> (r: OnionBattle)
        ensures
            r.player == player,
            r.enemy == enemy,
    {
        OnionBattle { player, enemy }
    }

    pub fn battle_state(&self) -> (r: OnionBattleState)
        ensures
            r == self.spec_state(),
            self.player.state.health == 0 ==> r == OnionBattleState::Defeat,
    {
        if self.player.state.health == 0 {
            OnionBattleState::Defeat
        } else if self.enemy.state.health == 0 {
            OnionBattleState::Victory
        } else {
            OnionBattleState::InProcess
        }
    }

    fn clean_up(&mut self)
        ensures
            final(self).player == old(self).player.with_status(
                old(self).player.state.status.spec_set(Status::Defend, None),
            ),
            final(self).enemy == old(self).enemy.with_status(
                old(self).enemy.state.status.spec_set(Status::Defend, None),
            ),
    {
        clean_up(&mut self.player);
        clean_up(&mut self.enemy);
    }

    /// The player's turn with `action`; nothing happens once the battle is decided.
    pub fn player_turn(&mut self, action: &Action) -> (logs: Vec<Log>)
        ensures
            old(self).spec_state() != OnionBattleState::InProcess ==> {
                &&& *final(self) == *old(self)
                &&& logs@.len() == 0
            },
            old(self).spec_state() == OnionBattleState::InProcess ==> exists|roll: u32|
                (final(self).player, final(self).enemy, logs@)
                    == #[trigger] turn_outcome(*action, old(self).player, old(self).enemy, roll),
    {
        if let OnionBattleState::InProcess = self.battle_state() {
            take_turn(&mut self.player, &mut self.enemy, action)
        } else {
            Vec::new()
        }
    }

    /// The enemy's turn with `action`; nothing happens once the battle is decided.
    pub fn enemy_turn(&mut self, action: &Action) -> (logs: Vec<Log>)
        ensures
            old(self).spec_state() != OnionBattleState::InProcess ==> {
                &&& *final(self) == *old(self)
                &&& logs@.len() == 0
            },
            old(self).spec_state() == OnionBattleState::InProcess ==> exists|roll: u32|
                (final(self).enemy, final(self).player, logs@)
                    == #[trigger] turn_outcome(*action, old(self).enemy, old(self).player, roll),
    {
        if let OnionBattleState::InProcess = self.battle_state() {
            take_turn(&mut self.enemy, &mut self.player, action)
        } else {
            Vec::new()
        }
    }

    /// Ends the round. On Victory the player earns `reward(player, enemy)` experience; on
    /// Defeat nothing changes; while the battle goes on, raised guards are dropped.
    pub fn end_turn(&mut self) -> (r: (OnionBattleState, Vec<Log>))
        ensures
            r.0 == old(self).spec_state(),
            old(self).spec_state() == OnionBattleState::Victory ==> {
                &&& r.1@.len() >= 1
                &&& r.1@[0] == (Log::Defeated { name: old(self).enemy.name })
                &&& final(self).enemy == old(self).enemy
                &&& reward(old(self).player, old(self).enemy) <= u64::MAX
                &&& old(self).player.gained_experience(
                    reward(old(self).player, old(self).enemy) as u64,
                    final(self).player,
                    r.1@.drop_first(),
                )
            },
            old(self).spec_state() == OnionBattleState::Defeat ==> {
                &&& *final(self) == *old(self)
                &&& r.1@ == seq![Log::Died { name: old(self).player.name }]
            },
            old(self).spec_state() == OnionBattleState::InProcess ==> {
                &&& final(self).player == old(self).player.with_status(
                    old(self).player.state.status.spec_set(Status::Defend, None),
                )
                &&& final(self).enemy == old(self).enemy.with_status(
                    old(self).enemy.state.status.spec_set(Status::Defend, None),
                )
                &&& r.1@.len() == 0
            },
    {
        let mut logs: Vec<Log> = Vec::new();
        let state = self.battle_state();
        match state {
            OnionBattleState::Victory => {
                logs.push(Log::Defeated { name: self.enemy.name.clone() });
                let level: u64 = if self.player.attributes.level == 0 {
                    1
                } else {
                    self.player.attributes.level as u64
                };
                let points: u64 = self.enemy.experience() / level;
                let mut gained = self.player.gain_experience(points);
                let ghost gained_view = gained@;
                logs.append(&mut gained);
                assert(logs@.drop_first() =~= gained_view);
            },
            OnionBattleState::Defeat => {
                logs.push(Log::Died { name: self.player.name.clone() });
            },
            OnionBattleState::InProcess => {
                self.clean_up();
            },
        }
        (state, logs)
    }

    /// Whether the player acts before the enemy this round; a tie of priorities and speeds
    /// is settled by a fair coin.
    pub fn player_goes_first(&self, player_action: &Action, enemy_action: &Action) -> (r: bool)
        ensures
            exists|coin: bool|
                r == #[trigger] player_first(
                    player_action.spec_priority(),
                    enemy_action.spec_priority(),
                    self.player.attributes.stats.speed,
                    self.enemy.attributes.stats.speed,
                    coin,
                ),
    {
        let coin = rand::random::<bool>();
        let r = player_first_with_coin(
            player_action.priority(),
            enemy_action.priority(),
            self.player.priority(),
            self.enemy.priority(),
            coin,
        );
        assert(r == player_first(
            player_action.spec_priority(),
            enemy_action.spec_priority(),
            self.player.attributes.stats.speed,
            self.enemy.attributes.stats.speed,
            coin,
        ));
        r
    }
}

} // verus!
