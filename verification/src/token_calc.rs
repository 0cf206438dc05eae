use vstd::prelude::*;
use crate::error::ErrorCode;
use crate::stats::{MonStatistics, StatKind};

verus! {

/// Outcome of an exchange of stat tokens for mon tokens: how many tokens of
/// each stat kind are given up, and how many mon tokens are received.
#[derive(Clone, Copy, Debug, PartialEq, Eq, Structural)]
pub struct TokenCalc {
    pub amount_stat_tokens: u64,
    pub amount_mon_tokens: u64,
}

/// The smallest of the three balances, earlier kinds winning ties.
pub open spec fn lowest_balance(balance: MonStatistics) -> u64 {
    let after_energy = if balance.energy < balance.mass { balance.energy } else { balance.mass };
    if balance.order < after_energy { balance.order } else { after_energy }
}

/// How many tokens of each stat kind a purchase asks for: the requested
/// amount, or everything the user can give up of every kind when none is given.
pub open spec fn requested_stat_tokens(amount: Option<u64>, user_balance: MonStatistics) -> u64 {
    match amount {
        Some(a) => a,
        None => lowest_balance(user_balance),
    }
}

/// `exchange` may be called on every amount and supplies.
pub open spec fn exchange_total<F: Fn(u64, u64, u64) -> u64>(exchange: F) -> bool {
    forall|a: u64, m: u64, s: u64| #[trigger] call_requires(exchange, (a, m, s))
}

/// `exchange` gives one result for each amount and supplies.
pub open spec fn exchange_deterministic<F: Fn(u64, u64, u64) -> u64>(exchange: F) -> bool {
    forall|a: u64, m: u64, t: u64, r1: u64, r2: u64|
        #![trigger call_ensures(exchange, (a, m, t), r1), call_ensures(exchange, (a, m, t), r2)]
        call_ensures(exchange, (a, m, t), r1) && call_ensures(exchange, (a, m, t), r2) ==> r1 == r2
}

/// Offering more stat tokens never buys fewer mon tokens from `exchange`,
/// at the same supplies.
pub open spec fn exchange_monotone<F: Fn(u64, u64, u64) -> u64>(exchange: F) -> bool {
    forall|a1: u64, a2: u64, m: u64, t: u64, r1: u64, r2: u64|
        #![trigger call_ensures(exchange, (a1, m, t), r1), call_ensures(exchange, (a2, m, t), r2)]
        a1 <= a2 && call_ensures(exchange, (a1, m, t), r1) && call_ensures(exchange, (a2, m, t), r2)
            ==> r1 <= r2
}

/// `calc` is an exchange that `mon_tokens_user_can_buy` accepts for these
/// arguments.
pub open spec fn accepted_purchase<F: Fn(u64, u64, u64) -> u64>(
    amount: Option<u64>,
    user_balance: MonStatistics,
    stat_token_supply: MonStatistics,
    mon_token_supply: u64,
    exchange: F,
    calc: TokenCalc,
) -> bool {
    &&& requested_stat_tokens(amount, user_balance) <= lowest_balance(user_balance)
    &&& calc.amount_stat_tokens == requested_stat_tokens(amount, user_balance)
    &&& call_ensures(
        exchange,
        (calc.amount_stat_tokens, mon_token_supply, stat_token_supply.total() as u64),
        calc.amount_mon_tokens,
    )
}

/// `b` holds the three statistics of `a`, in some order.
pub open spec fn permuted(a: MonStatistics, b: MonStatistics) -> bool {
    let (x, y, z) = (b.mass, b.energy, b.order);
    ||| (x, y, z) == (a.mass, a.energy, a.order)
    ||| (x, y, z) == (a.mass, a.order, a.energy)
    ||| (x, y, z) == (a.energy, a.mass, a.order)
    ||| (x, y, z) == (a.energy, a.order, a.mass)
    ||| (x, y, z) == (a.order, a.mass, a.energy)
    ||| (x, y, z) == (a.order, a.energy, a.mass)
}

impl TokenCalc {
    /// Works out how many stat tokens of each kind the user gives up, and
    /// how many mon tokens that buys.
    ///
    /// The user offers `amount` tokens of every stat kind, or, with `None`,
    /// as many as the smallest of their three balances. Offering more than
    /// that smallest balance is refused with `InvalidMonTokenAmount`.
    /// The number of mon tokens is `exchange(offered, mon_token_supply,
    /// sum of the stat token supplies)`: the price at which stat tokens
    /// trade for mon tokens.
    pub fn mon_tokens_user_can_buy<F: Fn(u64, u64, u64) -> u64>(
        amount: Option<u64>,
        user_balance: MonStatistics,
        stat_token_supply: MonStatistics,
        mon_token_supply: u64,
        exchange: &F,
    ) -> (r: Result<TokenCalc, ErrorCode>)
        requires
            stat_token_supply.total() <= u64::MAX,
            exchange_total(*exchange),
        ensures
            r is Err <==> requested_stat_tokens(amount, user_balance) > lowest_balance(
                user_balance,
            ),
            r is Err ==> r == Err::<TokenCalc, ErrorCode>(ErrorCode::InvalidMonTokenAmount),
            amount is None ==> r is Ok,
            amount matches Some(a) ==> (r is Ok <==> forall|k: StatKind|
                a <= #[trigger] user_balance.get(k)),
            r matches Ok(calc) ==> amount matches Some(a) ==> calc.amount_stat_tokens == a,
            r matches Ok(calc) ==> call_ensures(
                *exchange,
                (
                    calc.amount_stat_tokens,
                    mon_token_supply,
                    (stat_token_supply.mass + stat_token_supply.energy + stat_token_supply.order) as u64,
                ),
                calc.amount_mon_tokens,
            ),
            r matches Ok(calc) ==> amount is None ==> {
                &&& forall|k: StatKind| calc.amount_stat_tokens <= #[trigger] user_balance.get(k)
                &&& exists|k: StatKind| calc.amount_stat_tokens == #[trigger] user_balance.get(k)
            },
            r matches Ok(calc) ==> {
                &&& accepted_purchase(
                    amount,
                    user_balance,
                    stat_token_supply,
                    mon_token_supply,
                    *exchange,
                    calc,
                )
                &&& calc.amount_stat_tokens == requested_stat_tokens(amount, user_balance)
                &&& forall|k: StatKind| calc.amount_stat_tokens <= #[trigger] user_balance.get(k)
                &&& call_ensures(
                    *exchange,
                    (calc.amount_stat_tokens, mon_token_supply, stat_token_supply.total() as u64),
                    calc.amount_mon_tokens,
                )
            },
    {
        let summed_stat_tokens = stat_token_supply.sum_parts();
        let mut lowest = user_balance.mass;
        if user_balance.energy < lowest {
            lowest = user_balance.energy;
        }
        if user_balance.order < lowest {
            lowest = user_balance.order;
        }
        let amount_opt = amount;
        let amount = match amount {
            Some(a) => a,
            None => lowest,
        };
        proof {
            law_purchase_offers_what_is_asked(amount_opt, user_balance);
        }
        if amount > lowest {
            return Err(ErrorCode::InvalidMonTokenAmount);
        }
        proof {
            lemma_lowest_balance_is_minimum(user_balance);
            law_purchase_offers_what_is_asked(None, user_balance);
        }
        let amount_mon_tokens = exchange(amount, mon_token_supply, summed_stat_tokens);
        Ok(TokenCalc { amount_stat_tokens: amount, amount_mon_tokens })
    }
}

/// The lowest balance is the minimum of the three balances.
pub proof fn lemma_lowest_balance_is_minimum(balance: MonStatistics)
    ensures
        forall|k: StatKind| lowest_balance(balance) <= #[trigger] balance.get(k),
        exists|k: StatKind| lowest_balance(balance) == #[trigger] balance.get(k),
{
    assert forall|k: StatKind| lowest_balance(balance) <= #[trigger] balance.get(k) by {
        match k {
            StatKind::Mass => {},
            StatKind::Energy => {},
            StatKind::Order => {},
        }
    }
    if lowest_balance(balance) == balance.get(StatKind::Mass) {
    } else if lowest_balance(balance) == balance.get(StatKind::Energy) {
    } else {
        assert(lowest_balance(balance) == balance.get(StatKind::Order));
    }
}

/// What a purchase offers: the amount asked for, or, when none is asked
/// for, the smallest of the three balances (at most every balance and equal
/// to one of them); and an offer is within reach exactly when it is at most
/// every balance, so an offer made without an amount always is.
pub proof fn law_purchase_offers_what_is_asked(amount: Option<u64>, user_balance: MonStatistics)
    ensures
        amount matches Some(a) ==> requested_stat_tokens(amount, user_balance) == a,
        amount is None ==> forall|k: StatKind|
            requested_stat_tokens(amount, user_balance) <= #[trigger] user_balance.get(k),
        amount is None ==> exists|k: StatKind|
            requested_stat_tokens(amount, user_balance) == #[trigger] user_balance.get(k),
        (requested_stat_tokens(amount, user_balance) <= lowest_balance(user_balance)) <==> forall|
            k: StatKind,
        | requested_stat_tokens(amount, user_balance) <= #[trigger] user_balance.get(k),
        amount is None ==> requested_stat_tokens(amount, user_balance) <= lowest_balance(
            user_balance,
        ),
{
    lemma_lowest_balance_is_minimum(user_balance);
    let req = requested_stat_tokens(amount, user_balance);
    if forall|k: StatKind| req <= #[trigger] user_balance.get(k) {
        let k = choose|k: StatKind| lowest_balance(user_balance) == #[trigger] user_balance.get(k);
        assert(req <= user_balance.get(k));
    }
}

/// Selling more never yields less: of two accepted exchanges at the same
/// balances and supplies, the one that offers more stat tokens buys at least
/// as many mon tokens, when the price gives more for more.
pub proof fn law_purchase_monotone<F: Fn(u64, u64, u64) -> u64>(
    amount_1: u64,
    amount_2: u64,
    user_balance: MonStatistics,
    stat_token_supply: MonStatistics,
    mon_token_supply: u64,
    exchange: F,
    calc_1: TokenCalc,
    calc_2: TokenCalc,
)
    requires
        amount_1 <= amount_2,
        exchange_monotone(exchange),
        accepted_purchase(
            Some(amount_1),
            user_balance,
            stat_token_supply,
            mon_token_supply,
            exchange,
            calc_1,
        ),
        accepted_purchase(
            Some(amount_2),
            user_balance,
            stat_token_supply,
            mon_token_supply,
            exchange,
            calc_2,
        ),
    ensures
        calc_1.amount_stat_tokens <= calc_2.amount_stat_tokens,
        calc_1.amount_mon_tokens <= calc_2.amount_mon_tokens,
{
}

/// An exchange depends only on the smallest balance and the summed supply:
/// permuting the three balances, or the three supplies, changes neither
/// whether it is refused nor, with a price that gives one result per
/// argument, what it gives.
pub proof fn law_purchase_ignores_stat_order<F: Fn(u64, u64, u64) -> u64>(
    amount: Option<u64>,
    balance_1: MonStatistics,
    balance_2: MonStatistics,
    supply_1: MonStatistics,
    supply_2: MonStatistics,
    mon_token_supply: u64,
    exchange: F,
    calc_1: TokenCalc,
    calc_2: TokenCalc,
)
    requires
        permuted(balance_1, balance_2),
        permuted(supply_1, supply_2),
    ensures
        lowest_balance(balance_1) == lowest_balance(balance_2),
        supply_1.total() == supply_2.total(),
        (requested_stat_tokens(amount, balance_1) > lowest_balance(balance_1)) == (
        requested_stat_tokens(amount, balance_2) > lowest_balance(balance_2)),
        exchange_deterministic(exchange) && accepted_purchase(
            amount,
            balance_1,
            supply_1,
            mon_token_supply,
            exchange,
            calc_1,
        ) && accepted_purchase(amount, balance_2, supply_2, mon_token_supply, exchange, calc_2)
            ==> calc_1 == calc_2,
{
    lemma_lowest_balance_is_minimum(balance_1);
    lemma_lowest_balance_is_minimum(balance_2);
    assert(lowest_balance(balance_1) == lowest_balance(balance_2));
    if exchange_deterministic(exchange) && accepted_purchase(
        amount,
        balance_1,
        supply_1,
        mon_token_supply,
        exchange,
        calc_1,
    ) && accepted_purchase(amount, balance_2, supply_2, mon_token_supply, exchange, calc_2) {
        assert(calc_1.amount_stat_tokens == calc_2.amount_stat_tokens);
        assert(supply_1.total() as u64 == supply_2.total() as u64);
        assert(call_ensures(
            exchange,
            (calc_1.amount_stat_tokens, mon_token_supply, supply_1.total() as u64),
            calc_2.amount_mon_tokens,
        ));
    }
}

} // verus!
