use vstd::prelude::*;

verus! {

/// Decimal places of every token minted by the program.
pub const DECIMALS: u8 = 6;

/// `10` raised to `e`.
pub open spec fn ten_pow(e: nat) -> nat
    decreases e,
{
    if e == 0 {
        1
    } else {
        10 * ten_pow((e - 1) as nat)
    }
}

/// Number of base units ("lamports") in one whole stat token.
pub open spec fn token_unit() -> nat {
    ten_pow(DECIMALS as nat)
}

/// One whole token is a million base units.
pub proof fn lemma_token_unit_value()
    ensures
        token_unit() == 1_000_000,
{
    reveal_with_fuel(ten_pow, 7);
}

/// Powers of ten up to `DECIMALS` stay within a million.
proof fn lemma_ten_pow_small(k: nat)
    requires
        k <= DECIMALS,
    ensures
        ten_pow(k) <= 1_000_000,
{
    reveal_with_fuel(ten_pow, 7);
    if k == 0 {
    } else if k == 1 {
    } else if k == 2 {
    } else if k == 3 {
    } else if k == 4 {
    } else if k == 5 {
    } else {
    }
}

/// Computes `10^DECIMALS`, the number of base units in one whole token.
pub fn token_unit_exec() -> (r: u64)
    ensures
        r == token_unit(),
{
    let mut r: u64 = 1;
    let mut i: u8 = 0;
    while i < DECIMALS
        invariant
            i <= DECIMALS,
            r == ten_pow(i as nat),
        decreases DECIMALS - i,
    {
        proof {
            lemma_ten_pow_small((i + 1) as nat);
        }
        assert(ten_pow((i + 1) as nat) == 10 * ten_pow(i as nat));
        r = r * 10;
        i = i + 1;
    }
    r
}

/// The three kinds of statistics a mon has; each kind has a token of its own.
#[derive(Clone, Copy, Debug, PartialEq, Eq, Structural)]
pub enum StatKind {
    Mass,
    Energy,
    Order,
}

/// Integer statistics of a mon (or amounts of the three stat tokens).
#[derive(Clone, Copy, Debug, PartialEq, Eq, Structural)]
pub struct MonStatistics {
    pub mass: u64,
    pub energy: u64,
    pub order: u64,
}

impl Default for MonStatistics {
    fn default() -> (r: Self)
        ensures
            r == (MonStatistics { mass: 0, energy: 0, order: 0 }),
    {
        MonStatistics { mass: 0, energy: 0, order: 0 }
    }
}

impl MonStatistics {
    /// The statistic of one kind.
    pub open spec fn get(self, kind: StatKind) -> u64 {
        match kind {
            StatKind::Mass => self.mass,
            StatKind::Energy => self.energy,
            StatKind::Order => self.order,
        }
    }

    /// Sum of the three statistics.
    pub open spec fn total(self) -> int {
        self.mass + self.energy + self.order
    }

    /// Every statistic of `self` is at least the one of `other`.
    pub open spec fn dominates(self, other: MonStatistics) -> bool {
        forall|k: StatKind| #[trigger] self.get(k) >= other.get(k)
    }

    /// Every statistic, counted in base units, fits in a `u64`.
    pub open spec fn lamports_fit(self) -> bool {
        forall|k: StatKind| #[trigger] self.get(k) * token_unit() <= u64::MAX
    }

    /// Converts whole-token amounts into base units (`10^DECIMALS` each).
    pub fn to_mon_lamports(&self) -> (r: MonStatistics)
        requires
            self.lamports_fit(),
        ensures
            forall|k: StatKind| #[trigger] r.get(k) == self.get(k) * token_unit(),
            r.mass == self.mass * 1_000_000,
            r.energy == self.energy * 1_000_000,
            r.order == self.order * 1_000_000,
    {
        let unit = token_unit_exec();
        proof {
            lemma_token_unit_value();
            assert(self.get(StatKind::Mass) * token_unit() <= u64::MAX);
            assert(self.get(StatKind::Energy) * token_unit() <= u64::MAX);
            assert(self.get(StatKind::Order) * token_unit() <= u64::MAX);
        }
        let r = MonStatistics {
            mass: self.mass * unit,
            energy: self.energy * unit,
            order: self.order * unit,
        };
        assert forall|k: StatKind| #[trigger] r.get(k) == self.get(k) * token_unit() by {
            match k {
                StatKind::Mass => {},
                StatKind::Energy => {},
                StatKind::Order => {},
            }
        }
        r
    }

    /// Converts whole-token amounts into base units, or gives `None` where
    /// one of them would not fit in a `u64`.
    pub fn checked_mon_lamports(&self) -> (r: Option<MonStatistics>)
        ensures
            r is Some <==> self.lamports_fit(),
            r matches Some(l) ==> forall|k: StatKind| #[trigger] l.get(k) == self.get(k) * token_unit(),
            r matches Some(l) ==> l.mass == self.mass * 1_000_000 && l.energy == self.energy
                * 1_000_000 && l.order == self.order * 1_000_000,
            r is None ==> self.mass * 1_000_000 > u64::MAX || self.energy * 1_000_000 > u64::MAX
                || self.order * 1_000_000 > u64::MAX,
    {
        let unit = token_unit_exec();
        proof {
            lemma_token_unit_value();
        }
        let fits = self.mass.checked_mul(unit).is_some() && self.energy.checked_mul(unit).is_some()
            && self.order.checked_mul(unit).is_some();
        if fits {
            assert forall|k: StatKind| #[trigger] self.get(k) * token_unit() <= u64::MAX by {
                match k {
                    StatKind::Mass => {},
                    StatKind::Energy => {},
                    StatKind::Order => {},
                }
            }
            Some(self.to_mon_lamports())
        } else {
            assert(!(self.get(StatKind::Mass) * token_unit() <= u64::MAX)
                || !(self.get(StatKind::Energy) * token_unit() <= u64::MAX)
                || !(self.get(StatKind::Order) * token_unit() <= u64::MAX));
            None
        }
    }

    /// Adds the three statistics together.
    pub fn sum_parts(&self) -> (r: u64)
        requires
            self.total() <= u64::MAX,
        ensures
            r == self.total(),
            r == self.mass + self.energy + self.order,
    {
        self.mass + self.energy + self.order
    }

    /// Statistic-wise difference `from_this - take_this`.
    pub fn diff_stats(from_this: MonStatistics, take_this: MonStatistics) -> (r: MonStatistics)
        requires
            from_this.dominates(take_this),
        ensures
            forall|k: StatKind| #[trigger] r.get(k) == from_this.get(k) - take_this.get(k),
            r.mass == from_this.mass - take_this.mass,
            r.energy == from_this.energy - take_this.energy,
            r.order == from_this.order - take_this.order,
    {
        assert(from_this.get(StatKind::Mass) >= take_this.get(StatKind::Mass));
        assert(from_this.get(StatKind::Energy) >= take_this.get(StatKind::Energy));
        assert(from_this.get(StatKind::Order) >= take_this.get(StatKind::Order));
        let r = MonStatistics {
            mass: from_this.mass - take_this.mass,
            energy: from_this.energy - take_this.energy,
            order: from_this.order - take_this.order,
        };
        assert forall|k: StatKind| #[trigger] r.get(k) == from_this.get(k) - take_this.get(k) by {
            match k {
                StatKind::Mass => {},
                StatKind::Energy => {},
                StatKind::Order => {},
            }
        }
        r
    }
}

/// Scaling to base units commutes with taking differences: the increase of
/// a statistic, in base units, is the difference of the two statistics in
/// base units.
pub proof fn law_lamports_of_difference(from_this: MonStatistics, take_this: MonStatistics, k: StatKind)
    requires
        from_this.dominates(take_this),
    ensures
        (from_this.get(k) - take_this.get(k)) * token_unit() == from_this.get(k) * token_unit()
            - take_this.get(k) * token_unit(),
{
    vstd::arithmetic::mul::lemma_mul_is_distributive_sub_other_way(
        token_unit() as int,
        from_this.get(k) as int,
        take_this.get(k) as int,
    );
}

} // verus!
