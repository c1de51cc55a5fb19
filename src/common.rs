use vstd::prelude::*;

verus! {

/// Identifies an action by its index in a caller-owned action pool.
pub type ActionId = usize;

/// The identifiers of the actions a character knows.
pub type Actions = Vec<ActionId>;

/// The four battle statistics of a character: health, attack, defense and speed.
#[derive(Clone, Copy, Debug, PartialEq, Eq, Structural)]
pub struct Stats<T> {
    pub health: T,
    pub attack: T,
    pub defense: T,
    pub speed: T,
}

impl<T> Stats<T> {
    pub fn from_values(health: T, attack: T, defense: T, speed: T) -> (r: Stats<T>)
        ensures
            r == (Stats { health, attack, defense, speed }),
    {
        Stats { health, attack, defense, speed }
    }
}

impl Stats<u32> {
    /// Sum of the four components.
    pub open spec fn total(self) -> int {
        self.health + self.attack + self.defense + self.speed
    }

    /// Whether the componentwise sum of `self` and `other` fits in `u32`.
    pub open spec fn can_add(self, other: Stats<u32>) -> bool {
        &&& self.health + other.health <= u32::MAX
        &&& self.attack + other.attack <= u32::MAX
        &&& self.defense + other.defense <= u32::MAX
        &&& self.speed + other.speed <= u32::MAX
    }

    /// The componentwise sum, for operands where it fits.
    pub open spec fn sum_with(self, other: Stats<u32>) -> Stats<u32> {
        Stats {
            health: (self.health + other.health) as u32,
            attack: (self.attack + other.attack) as u32,
            defense: (self.defense + other.defense) as u32,
            speed: (self.speed + other.speed) as u32,
        }
    }

    pub open spec fn spec_is_zero(self) -> bool {
        self.health == 0 && self.attack == 0 && self.defense == 0 && self.speed == 0
    }

    pub fn zero() -> (r: Stats<u32>)
        ensures
            r.spec_is_zero(),
    {
        Stats { health: 0, attack: 0, defense: 0, speed: 0 }
    }

    pub fn is_zero(&self) -> (r: bool)
        ensures
            r == self.spec_is_zero(),
    {
        self.health == 0 && self.attack == 0 && self.defense == 0 && self.speed == 0
    }

    pub fn set_zero(&mut self)
        ensures
            final(self).spec_is_zero(),
    {
        *self = Stats::zero();
    }

    /// Adds `other` componentwise into `self`.
    pub fn add_assign(&mut self, other: Stats<u32>)
        requires
            old(self).can_add(other),
        ensures
            *final(self) == old(self).sum_with(other),
    {
        self.health = self.health + other.health;
        self.attack = self.attack + other.attack;
        self.defense = self.defense + other.defense;
        self.speed = self.speed + other.speed;
    }

    /// Builds the vector from a sequence laid out as health, attack, defense, speed.
    pub fn from_vec(stats: &Vec<u32>) -> (r: Stats<u32>)
        requires
            stats@.len() >= 4,
        ensures
            r == (Stats { health: stats@[0], attack: stats@[1], defense: stats@[2], speed: stats@[3] }),
    {
        Stats { health: stats[0], attack: stats[1], defense: stats[2], speed: stats[3] }
    }

    /// The components as a sequence: health, attack, defense, speed.
    pub fn to_vec(&self) -> (r: Vec<u32>)
        ensures
            r@ == seq![self.health, self.attack, self.defense, self.speed],
    {
        vec![self.health, self.attack, self.defense, self.speed]
    }
}

impl core::ops::Add<Stats<u32>> for Stats<u32> {
    type Output = Stats<u32>;

    fn add(self, other: Stats<u32>) -> (r: Stats<u32>) {
        Stats {
            health: self.health + other.health,
            attack: self.attack + other.attack,
            defense: self.defense + other.defense,
            speed: self.speed + other.speed,
        }
    }
}

impl vstd::std_specs::ops::AddSpecImpl<Stats<u32>> for Stats<u32> {
    open spec fn obeys_add_spec() -> bool {
        true
    }

    open spec fn add_req(self, other: Stats<u32>) -> bool {
        self.can_add(other)
    }

    open spec fn add_spec(self, other: Stats<u32>) -> Stats<u32> {
        self.sum_with(other)
    }
}

/// `floor(total * weight / sum)`, or 0 when the weights sum to 0.
pub open spec fn share(total: nat, weight: nat, sum: nat) -> nat {
    if sum == 0 {
        0
    } else {
        (total * weight) / sum
    }
}

/// Number of draws in `draws` that select component `i` (a draw `d` selects `d % 4`).
pub open spec fn draws_for(draws: Seq<usize>, i: nat) -> nat
    decreases draws.len(),
{
    if draws.len() == 0 {
        0
    } else {
        draws_for(draws.drop_last(), i) + if draws.last() % 4 == i {
            1nat
        } else {
            0nat
        }
    }
}

/// Each draw in the sequence counts for exactly one component.
pub proof fn lemma_draws_partition(draws: Seq<usize>)
    ensures
        draws_for(draws, 0) + draws_for(draws, 1) + draws_for(draws, 2) + draws_for(draws, 3)
            == draws.len(),
    decreases draws.len(),
{
    if draws.len() > 0 {
        lemma_draws_partition(draws.drop_last());
    }
}

impl Stats<u32> {
    /// `self` read as ratio weights, scaled so that component `i` is
    /// `floor(total * weight_i / sum of weights)`.
    pub open spec fn scaled(self, total: nat) -> Stats<u32> {
        Stats {
            health: share(total, self.health as nat, self.total() as nat) as u32,
            attack: share(total, self.attack as nat, self.total() as nat) as u32,
            defense: share(total, self.defense as nat, self.total() as nat) as u32,
            speed: share(total, self.speed as nat, self.total() as nat) as u32,
        }
    }

    /// `self` with one added to each component as many times as `draws` selects it.
    pub open spec fn with_draws(self, draws: Seq<usize>) -> Stats<u32> {
        Stats {
            health: (self.health + draws_for(draws, 0)) as u32,
            attack: (self.attack + draws_for(draws, 1)) as u32,
            defense: (self.defense + draws_for(draws, 2)) as u32,
            speed: (self.speed + draws_for(draws, 3)) as u32,
        }
    }

    /// The truncated shares alone: component `i` is `floor(total * weight_i / sum)`, so the
    /// sum may fall short of `total`. Weights that sum to 0 give the zero vector.
    pub fn scale_truncated(&self, total: u32) -> (r: Stats<u32>)
        ensures
            r == self.scaled(total as nat),
            r.total() <= total,
    {
        let sum: u64 = self.health as u64 + self.attack as u64 + self.defense as u64 + self.speed as u64;
        if sum == 0 {
            proof {
                assert(self.scaled(total as nat).spec_is_zero());
            }
            return Stats::zero();
        }
        let h = share_of(total, self.health, sum);
        let a = share_of(total, self.attack, sum);
        let d = share_of(total, self.defense, sum);
        let s = share_of(total, self.speed, sum);
        proof {
            lemma_shares_bounded(total as nat, self.health as nat, self.attack as nat,
                self.defense as nat, self.speed as nat);
        }
        Stats { health: h, attack: a, defense: d, speed: s }
    }

    /// Adds one to component `d % 4` for each draw `d`, in order.
    pub fn with_draws_applied(&self, draws: &Vec<usize>) -> (r: Stats<u32>)
        requires
            self.total() + draws@.len() <= u32::MAX,
        ensures
            r == self.with_draws(draws@),
            r.health == self.health + draws_for(draws@, 0),
            r.attack == self.attack + draws_for(draws@, 1),
            r.defense == self.defense + draws_for(draws@, 2),
            r.speed == self.speed + draws_for(draws@, 3),
            r.total() == self.total() + draws@.len(),
    {
        let mut r = *self;
        let mut k: usize = 0;
        while k < draws.len()
            invariant
                k <= draws@.len(),
                self.total() + draws@.len() <= u32::MAX,
                r.health == self.health + draws_for(draws@.subrange(0, k as int), 0),
                r.attack == self.attack + draws_for(draws@.subrange(0, k as int), 1),
                r.defense == self.defense + draws_for(draws@.subrange(0, k as int), 2),
                r.speed == self.speed + draws_for(draws@.subrange(0, k as int), 3),
                r.total() == self.total() + k,
            decreases draws@.len() - k,
        {
            let d = draws[k];
            let ghost prefix = draws@.subrange(0, k as int);
            let ghost next = draws@.subrange(0, k + 1);
            proof {
                assert(next.drop_last() =~= prefix);
                assert(next.last() == d);
                assert(draws_for(next, 0) == draws_for(prefix, 0) + if d % 4 == 0 { 1nat } else { 0nat });
                assert(draws_for(next, 1) == draws_for(prefix, 1) + if d % 4 == 1 { 1nat } else { 0nat });
                assert(draws_for(next, 2) == draws_for(prefix, 2) + if d % 4 == 2 { 1nat } else { 0nat });
                assert(draws_for(next, 3) == draws_for(prefix, 3) + if d % 4 == 3 { 1nat } else { 0nat });
            }
            let which = d % 4;
            if which == 0 {
                r.health = r.health + 1;
            } else if which == 1 {
                r.attack = r.attack + 1;
            } else if which == 2 {
                r.defense = r.defense + 1;
            } else {
                r.speed = r.speed + 1;
            }
            k = k + 1;
        }
        proof {
            assert(draws@.subrange(0, draws@.len() as int) =~= draws@);
        }
        r
    }

    /// Whether `r` is a scaling of the ratio weights in `self` to `total`: it sums to
    /// exactly `total`, and each component is at least its truncated share.
    pub open spec fn scales_to(self, total: nat, r: Stats<u32>) -> bool {
        let floor = self.scaled(total);
        &&& r.total() == total
        &&& r.health >= floor.health
        &&& r.attack >= floor.attack
        &&& r.defense >= floor.defense
        &&& r.speed >= floor.speed
    }

    /// Scales the ratio weights in `self` to integers that sum to exactly `total`: each
    /// component gets its truncated share, and the shortfall is handed out one point at a
    /// time to components drawn at random. Weights that sum to 0 have every share at 0,
    /// so all of `total` is handed out at random.
    pub fn scale(&self, total: u32) -> (r: Stats<u32>)
        ensures
            self.scales_to(total as nat, r),
    {
        let base = self.scale_truncated(total);
        let shortfall: u32 = total - (base.health + base.attack + base.defense + base.speed);
        let mut draws: Vec<usize> = Vec::new();
        let mut k: u32 = 0;
        while k < shortfall
            invariant
                k <= shortfall,
                draws@.len() == k,
            decreases shortfall - k,
        {
            draws.push(rand::random::<usize>());
            k = k + 1;
        }
        base.with_draws_applied(&draws)
    }
}

/// Scaling reaches its total exactly: the truncated shares of `total` under any ratio
/// weights, plus one point for each draw of the shortfall, sum to `total`.
pub proof fn lemma_scale_reaches_total(ratios: Stats<u32>, total: u32, draws: Seq<usize>)
    requires
        draws.len() == total - ratios.scaled(total as nat).total(),
    ensures
        ratios.scaled(total as nat).total() <= total,
        ratios.scaled(total as nat).with_draws(draws).total() == total,
{
    let base = ratios.scaled(total as nat);
    if ratios.total() > 0 {
        lemma_shares_bounded(total as nat, ratios.health as nat, ratios.attack as nat,
            ratios.defense as nat, ratios.speed as nat);
        lemma_share_fits(total as nat, ratios.health as nat, ratios.total() as nat);
        lemma_share_fits(total as nat, ratios.attack as nat, ratios.total() as nat);
        lemma_share_fits(total as nat, ratios.defense as nat, ratios.total() as nat);
        lemma_share_fits(total as nat, ratios.speed as nat, ratios.total() as nat);
    }
    lemma_draws_partition(draws);
}

/// A truncated share never exceeds the total it is a share of.
proof fn lemma_share_fits(total: nat, weight: nat, sum: nat)
    requires
        weight <= sum,
    ensures
        share(total, weight, sum) <= total,
{
    if sum > 0 {
        assert((total * weight) / sum <= total) by (nonlinear_arith)
            requires weight <= sum, sum > 0;
    }
}

/// `floor(total * weight / sum)` for a weight that is part of `sum`.
fn share_of(total: u32, weight: u32, sum: u64) -> (r: u32)
    requires
        sum > 0,
        weight <= sum,
    ensures
        r == share(total as nat, weight as nat, sum as nat),
        r <= total,
{
    proof {
        assert(total as nat * weight as nat <= (u32::MAX as nat) * (u32::MAX as nat)) by (nonlinear_arith)
            requires total <= u32::MAX, weight <= u32::MAX;
        assert((total as nat * weight as nat) / (sum as nat) <= total as nat) by (nonlinear_arith)
            requires weight <= sum, sum > 0;
    }
    (total as u64 * weight as u64 / sum) as u32
}

/// The truncated shares of a total never add up to more than the total.
proof fn lemma_shares_bounded(total: nat, h: nat, a: nat, d: nat, s: nat)
    requires
        h + a + d + s > 0,
    ensures
        share(total, h, h + a + d + s) + share(total, a, h + a + d + s)
            + share(total, d, h + a + d + s) + share(total, s, h + a + d + s) <= total,
{
    let n = h + a + d + s;
    let qh = (total * h) / n;
    let qa = (total * a) / n;
    let qd = (total * d) / n;
    let qs = (total * s) / n;
    assert(qh * n <= total * h) by (nonlinear_arith) requires qh == (total * h) / n, n > 0;
    assert(qa * n <= total * a) by (nonlinear_arith) requires qa == (total * a) / n, n > 0;
    assert(qd * n <= total * d) by (nonlinear_arith) requires qd == (total * d) / n, n > 0;
    assert(qs * n <= total * s) by (nonlinear_arith) requires qs == (total * s) / n, n > 0;
    assert((qh + qa + qd + qs) * n <= total * n) by (nonlinear_arith)
        requires qh * n <= total * h, qa * n <= total * a, qd * n <= total * d,
            qs * n <= total * s, n == h + a + d + s;
    assert(qh + qa + qd + qs <= total) by (nonlinear_arith)
        requires (qh + qa + qd + qs) * n <= total * n, n > 0;
}

/// Progression of a character that persists across battles.
#[derive(Clone, Debug, PartialEq, Eq)]
pub struct Attributes {
    pub level: u32,
    pub experience: u32,
    pub stats: Stats<u32>,
    pub actions: Actions,
}

} // verus!
