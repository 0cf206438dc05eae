use vstd::prelude::*;
use crate::stats::MonStatistics;

verus! {

/// Game data held for one mon NFT: the seed its statistics are rolled from,
/// and its level.
#[derive(Clone, Copy, Debug, PartialEq, Eq, Structural)]
pub struct MonState {
    pub seed: u64,
    pub level: u64,
}

impl Default for MonState {
    fn default() -> (r: Self)
        ensures
            r == (MonState { seed: 0, level: 0 }),
    {
        MonState { seed: 0, level: 0 }
    }
}

/// `stats` are statistics that `roll` can produce for a mon with `seed` at
/// `level`: mass is rolled from the seed, energy from the seed minus one, and
/// order from the seed minus two.
pub open spec fn rolled<R: Fn(u64, u64) -> u64>(
    roll: R,
    seed: u64,
    level: u64,
    stats: MonStatistics,
) -> bool {
    &&& call_ensures(roll, (seed, level), stats.mass)
    &&& call_ensures(roll, ((seed - 1) as u64, level), stats.energy)
    &&& call_ensures(roll, ((seed - 2) as u64, level), stats.order)
}

/// `roll` may be called on every seed and level.
pub open spec fn roll_total<R: Fn(u64, u64) -> u64>(roll: R) -> bool {
    forall|s: u64, l: u64| #[trigger] call_requires(roll, (s, l))
}

/// `roll` gives one result for each seed and level.
pub open spec fn roll_deterministic<R: Fn(u64, u64) -> u64>(roll: R) -> bool {
    forall|s: u64, l: u64, a: u64, b: u64|
        #![trigger call_ensures(roll, (s, l), a), call_ensures(roll, (s, l), b)]
        call_ensures(roll, (s, l), a) && call_ensures(roll, (s, l), b) ==> a == b
}

/// A mon's statistics depend only on its seed and level: with a roll that
/// gives one result per seed and level, two rolls of the same seed and
/// level give the same statistics.
pub proof fn law_stats_depend_only_on_seed_and_level<R: Fn(u64, u64) -> u64>(
    roll: R,
    seed: u64,
    level: u64,
    a: MonStatistics,
    b: MonStatistics,
)
    requires
        roll_deterministic(roll),
        rolled(roll, seed, level, a),
        rolled(roll, seed, level, b),
    ensures
        a == b,
{
}

/// Statistics are rolled from consecutive seeds: the mass of a mon whose
/// seed is one less is the energy of this mon, and its energy is this mon's
/// order.
pub proof fn law_rolled_from_previous_seed<R: Fn(u64, u64) -> u64>(
    roll: R,
    seed: u64,
    level: u64,
    this: MonStatistics,
    previous: MonStatistics,
)
    requires
        roll_deterministic(roll),
        seed >= 3,
        rolled(roll, seed, level, this),
        rolled(roll, (seed - 1) as u64, level, previous),
    ensures
        previous.mass == this.energy,
        previous.energy == this.order,
{
    assert(((seed - 1) as u64 - 1) as u64 == (seed - 2) as u64);
}

impl MonState {
    /// Statistics of the mon at `level`: each kind is rolled with `roll`
    /// from the mon's seed (minus one for energy, minus two for order).
    pub fn generate_stats<R: Fn(u64, u64) -> u64>(&self, level: u64, roll: &R) -> (r:
        MonStatistics)
        requires
            self.seed >= 2,
            roll_total(*roll),
        ensures
            rolled(*roll, self.seed, level, r),
            call_ensures(*roll, (self.seed, level), r.mass),
            call_ensures(*roll, ((self.seed - 1) as u64, level), r.energy),
            call_ensures(*roll, ((self.seed - 2) as u64, level), r.order),
    {
        let mass = roll(self.seed, level);
        let energy = roll(self.seed - 1, level);
        let order = roll(self.seed - 2, level);
        let r = MonStatistics { mass, energy, order };
        r
    }
}

} // verus!
