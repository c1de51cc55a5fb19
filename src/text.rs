use vstd::prelude::*;

use crate::common::Stats;
use crate::log::Log;

verus! {

/// The character for decimal digit `d`.
pub open spec fn digit_char(d: nat) -> char {
    if d == 0 {
        '0'
    } else if d == 1 {
        '1'
    } else if d == 2 {
        '2'
    } else if d == 3 {
        '3'
    } else if d == 4 {
        '4'
    } else if d == 5 {
        '5'
    } else if d == 6 {
        '6'
    } else if d == 7 {
        '7'
    } else if d == 8 {
        '8'
    } else {
        '9'
    }
}

/// `n` written in decimal, without leading zeros.
pub open spec fn decimal(n: nat) -> Seq<char>
    decreases n,
{
    if n < 10 {
        seq![digit_char(n)]
    } else {
        decimal(n / 10).push(digit_char(n % 10))
    }
}

fn digit_str(d: u64) -> (r: &'static str)
    requires
        d < 10,
    ensures
        r@ == seq![digit_char(d as nat)],
{
    proof {
        reveal_strlit("0");
        reveal_strlit("1");
        reveal_strlit("2");
        reveal_strlit("3");
        reveal_strlit("4");
        reveal_strlit("5");
        reveal_strlit("6");
        reveal_strlit("7");
        reveal_strlit("8");
        reveal_strlit("9");
    }
    if d == 0 {
        "0"
    } else if d == 1 {
        "1"
    } else if d == 2 {
        "2"
    } else if d == 3 {
        "3"
    } else if d == 4 {
        "4"
    } else if d == 5 {
        "5"
    } else if d == 6 {
        "6"
    } else if d == 7 {
        "7"
    } else if d == 8 {
        "8"
    } else {
        "9"
    }
}

/// Appends `n` in decimal to `s`.
pub fn push_decimal(s: &mut String, n: u64)
    ensures
        final(s)@ == old(s)@ + decimal(n as nat),
    decreases n,
{
    if n >= 10 {
        push_decimal(s, n / 10);
    }
    s.append(digit_str(n % 10));
    proof {
        if n < 10 {
            assert(decimal(n as nat) == seq![digit_char(n as nat)]);
        }
        assert(s@ =~= old(s)@ + decimal(n as nat));
    }
}

/// How a stat vector is written in the log.
pub open spec fn stats_text(s: Stats<u32>) -> Seq<char> {
    "Stats { health: "@ + decimal(s.health as nat) + ", attack: "@ + decimal(s.attack as nat)
        + ", defense: "@ + decimal(s.defense as nat) + ", speed: "@ + decimal(s.speed as nat) + " }"@
}

fn push_stats(out: &mut String, s: Stats<u32>)
    ensures
        final(out)@ == old(out)@ + stats_text(s),
{
    out.append("Stats { health: ");
    push_decimal(out, s.health as u64);
    out.append(", attack: ");
    push_decimal(out, s.attack as u64);
    out.append(", defense: ");
    push_decimal(out, s.defense as u64);
    out.append(", speed: ");
    push_decimal(out, s.speed as u64);
    out.append(" }");
    assert(out@ =~= old(out)@ + stats_text(s));
}

impl Log {
    /// The line as shown to the player.
    pub open spec fn spec_text(self) -> Seq<char> {
        match self {
            Log::Used { user, action } => user@ + " used "@ + action@ + "."@,
            Log::Skipped { user } => user@ + " used Skip."@,
            Log::Blocked { target, user, action } => target@ + " blocked "@ + user@ + "'s "@ + action@ + "."@,
            Log::BlockedAttack { target, user } => target@ + " blocked "@ + user@ + "'s attack"@,
            Log::VeryEffective => "It's very effective."@,
            Log::NotVeryEffective => "It's not very effective."@,
            Log::Defending { user } => user@ + " is defending."@,
            Log::AlreadyStunned { target } => "But "@ + target@ + " is stunned."@,
            Log::AlreadyBleeding { target } => "But "@ + target@ + " is poisoned."@,
            Log::GainedBleed { target, amount } => target@ + " gained "@ + decimal(amount as nat) + " bleeding."@,
            Log::Stunned { name } => name@ + " is stunned."@,
            Log::NoLongerStunned { name } => name@ + " is no longer stunned."@,
            Log::HurtByBleed { name } => name@ + " was hurt by bleed."@,
            Log::Defeated { name } => "Defeated "@ + name@ + "!"@,
            Log::Died { name } => name@ + " died!"@,
            Log::GainedExperience { points } => "Gained "@ + decimal(points as nat) + " experience!"@,
            Log::StatsIncreased { increase } => "Stats increased by "@ + stats_text(increase),
        }
    }

    pub fn text(&self) -> (r: String)
        ensures
            r@ == self.spec_text(),
    {
        let mut out = String::new();
        match self {
            Log::Used { user, action } => {
                out.append(user.as_str());
                out.append(" used ");
                out.append(action.as_str());
                out.append(".");
            },
            Log::Skipped { user } => {
                out.append(user.as_str());
                out.append(" used Skip.");
            },
            Log::Blocked { target, user, action } => {
                out.append(target.as_str());
                out.append(" blocked ");
                out.append(user.as_str());
                out.append("'s ");
                out.append(action.as_str());
                out.append(".");
            },
            Log::BlockedAttack { target, user } => {
                out.append(target.as_str());
                out.append(" blocked ");
                out.append(user.as_str());
                out.append("'s attack");
            },
            Log::VeryEffective => {
                out.append("It's very effective.");
            },
            Log::NotVeryEffective => {
                out.append("It's not very effective.");
            },
            Log::Defending { user } => {
                out.append(user.as_str());
                out.append(" is defending.");
            },
            Log::AlreadyStunned { target } => {
                out.append("But ");
                out.append(target.as_str());
                out.append(" is stunned.");
            },
            Log::AlreadyBleeding { target } => {
                out.append("But ");
                out.append(target.as_str());
                out.append(" is poisoned.");
            },
            Log::GainedBleed { target, amount } => {
                out.append(target.as_str());
                out.append(" gained ");
                push_decimal(&mut out, *amount as u64);
                out.append(" bleeding.");
            },
            Log::Stunned { name } => {
                out.append(name.as_str());
                out.append(" is stunned.");
            },
            Log::NoLongerStunned { name } => {
                out.append(name.as_str());
                out.append(" is no longer stunned.");
            },
            Log::HurtByBleed { name } => {
                out.append(name.as_str());
                out.append(" was hurt by bleed.");
            },
            Log::Defeated { name } => {
                out.append("Defeated ");
                out.append(name.as_str());
                out.append("!");
            },
            Log::Died { name } => {
                out.append(name.as_str());
                out.append(" died!");
            },
            Log::GainedExperience { points } => {
                out.append("Gained ");
                push_decimal(&mut out, *points);
                out.append(" experience!");
            },
            Log::StatsIncreased { increase } => {
                out.append("Stats increased by ");
                push_stats(&mut out, *increase);
            },
        }
        assert(out@ =~= self.spec_text());
        out
    }
}

} // verus!
