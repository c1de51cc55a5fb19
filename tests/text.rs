use kaizo_quest::action::{Action, Attack, Bleed, Defend, PureAttack, Skip, Stun};
use kaizo_quest::common::Stats;
use kaizo_quest::log::Log;
use kaizo_quest::onion::Alignment;
use kaizo_quest::text::push_decimal;

fn s(x: &str) -> String {
    x.to_string()
}

#[test]
fn decimal_rendering() {
    for n in [0u64, 7, 10, 99, 100, 1858, u64::MAX] {
        let mut out = s("n=");
        push_decimal(&mut out, n);
        assert_eq!(out, format!("n={}", n));
    }
}

#[test]
fn log_lines() {
    let cases = vec![
        (Log::Used { user: s("Ann"), action: s("Jab") }, "Ann used Jab."),
        (Log::Skipped { user: s("Ann") }, "Ann used Skip."),
        (Log::Blocked { target: s("Bo"), user: s("Ann"), action: s("Jab") }, "Bo blocked Ann's Jab."),
        (Log::BlockedAttack { target: s("Bo"), user: s("Ann") }, "Bo blocked Ann's attack"),
        (Log::VeryEffective, "It's very effective."),
        (Log::NotVeryEffective, "It's not very effective."),
        (Log::Defending { user: s("Bo") }, "Bo is defending."),
        (Log::AlreadyStunned { target: s("Bo") }, "But Bo is stunned."),
        (Log::AlreadyBleeding { target: s("Bo") }, "But Bo is poisoned."),
        (Log::GainedBleed { target: s("Bo"), amount: 12 }, "Bo gained 12 bleeding."),
        (Log::Stunned { name: s("Bo") }, "Bo is stunned."),
        (Log::NoLongerStunned { name: s("Bo") }, "Bo is no longer stunned."),
        (Log::HurtByBleed { name: s("Bo") }, "Bo was hurt by bleed."),
        (Log::Defeated { name: s("Bo") }, "Defeated Bo!"),
        (Log::Died { name: s("Ann") }, "Ann died!"),
        (Log::GainedExperience { points: 116 }, "Gained 116 experience!"),
        (
            Log::StatsIncreased { increase: Stats::from_values(1, 20, 300, 0) },
            "Stats increased by Stats { health: 1, attack: 20, defense: 300, speed: 0 }",
        ),
    ];
    for (log, text) in cases {
        assert_eq!(log.text(), text);
    }
}

#[test]
fn descriptions() {
    let plain = Attack { name: s("Jab"), power: 45, alignment: Alignment::Paper, priority: 0 };
    assert_eq!(plain.description(), "Paper-aligned Attack with 45 power.");
    let quick = Attack { name: s("Jab"), power: 10, alignment: Alignment::Scissors, priority: 1 };
    assert_eq!(quick.description(), "Scissors-aligned Attack with 10 power.\nHas priority.");
    assert_eq!(PureAttack { name: s("Burst"), power: 20 }.description(), "Attack for exactly 20 damage.");
    assert_eq!(Defend { name: s("Block") }.description(), "Defend against attacks.");
    assert_eq!(Bleed { name: s("Cut"), power: 1 }.description(), "Applies 1 bleeding to the enemy.");
    assert_eq!(Stun { name: s("Yawn") }.description(), "Stuns the enemy.");
    assert_eq!(Skip.description(), "User skips their next turn.");
    assert_eq!(Action::Attack(plain).description(), "Paper-aligned Attack with 45 power.");
    assert_eq!(Action::Skip(Skip).description(), "User skips their next turn.");
}
