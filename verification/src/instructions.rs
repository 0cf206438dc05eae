use vstd::prelude::*;
use crate::error::ErrorCode;
use crate::state::{MonState, law_stats_depend_only_on_seed_and_level, roll_deterministic, rolled, roll_total};
use crate::stats::{MonStatistics, StatKind, law_lamports_of_difference, token_unit};
use crate::token_calc::{TokenCalc, lemma_lowest_balance_is_minimum, lowest_balance, requested_stat_tokens};

verus! {

/// A token mint the program works with.
#[derive(Clone, Copy, Debug, PartialEq, Eq, Structural)]
pub enum TokenMint {
    /// The main game token ($MON).
    MonToken,
    /// The token of one stat kind.
    StatToken(StatKind),
    /// The mint of a mon NFT.
    Nft,
    /// A stat token mint chosen by its seed string.
    SeededStat,
}

/// A call into the token program that an instruction makes. Tokens are
/// always minted to, burnt from, or closed in the user's token account for
/// the mint.
#[derive(Clone, Copy, Debug, PartialEq, Eq, Structural)]
pub enum TokenOp {
    /// Mint `amount` tokens of `mint` into the user's account, with the
    /// game creator account as mint authority.
    MintTo { mint: TokenMint, amount: u64 },
    /// Burn `amount` tokens of `mint` from the user's account, with the user
    /// as authority.
    Burn { mint: TokenMint, amount: u64 },
    /// Close the user's NFT token account, paying its rent to the payer.
    CloseNftAccount,
}

/// What one token call burns of `mint`.
pub open spec fn op_burns(op: TokenOp, mint: TokenMint) -> int {
    match op {
        TokenOp::Burn { mint: m, amount } => if m == mint {
            amount as int
        } else {
            0
        },
        _ => 0,
    }
}

/// What one token call mints of `mint`.
pub open spec fn op_mints(op: TokenOp, mint: TokenMint) -> int {
    match op {
        TokenOp::MintTo { mint: m, amount } => if m == mint {
            amount as int
        } else {
            0
        },
        _ => 0,
    }
}

/// Total that the calls `ops` burn of `mint` from the user.
pub open spec fn burnt(ops: Seq<TokenOp>, mint: TokenMint) -> int
    decreases ops.len(),
{
    if ops.len() == 0 {
        0
    } else {
        op_burns(ops[0], mint) + burnt(ops.drop_first(), mint)
    }
}

/// Total that the calls `ops` mint of `mint` to the user.
pub open spec fn minted(ops: Seq<TokenOp>, mint: TokenMint) -> int
    decreases ops.len(),
{
    if ops.len() == 0 {
        0
    } else {
        op_mints(ops[0], mint) + minted(ops.drop_first(), mint)
    }
}

proof fn lemma_totals_one(a: TokenOp, m: TokenMint)
    ensures
        burnt(seq![a], m) == op_burns(a, m),
        minted(seq![a], m) == op_mints(a, m),
{
    assert(seq![a].drop_first() =~= Seq::<TokenOp>::empty());
    assert(burnt(Seq::<TokenOp>::empty(), m) == 0);
    assert(minted(Seq::<TokenOp>::empty(), m) == 0);
    assert(seq![a][0] == a);
}

proof fn lemma_totals_cons(a: TokenOp, rest: Seq<TokenOp>, m: TokenMint)
    ensures
        burnt(seq![a] + rest, m) == op_burns(a, m) + burnt(rest, m),
        minted(seq![a] + rest, m) == op_mints(a, m) + minted(rest, m),
{
    assert((seq![a] + rest).drop_first() =~= rest);
}

proof fn lemma_totals_three(a: TokenOp, b: TokenOp, c: TokenOp, m: TokenMint)
    ensures
        burnt(seq![a, b, c], m) == op_burns(a, m) + op_burns(b, m) + op_burns(c, m),
        minted(seq![a, b, c], m) == op_mints(a, m) + op_mints(b, m) + op_mints(c, m),
{
    lemma_totals_one(c, m);
    lemma_totals_cons(b, seq![c], m);
    assert(seq![b] + seq![c] =~= seq![b, c]);
    lemma_totals_cons(a, seq![b, c], m);
    assert(seq![a] + seq![b, c] =~= seq![a, b, c]);
}

proof fn lemma_totals_four(a: TokenOp, b: TokenOp, c: TokenOp, d: TokenOp, m: TokenMint)
    ensures
        burnt(seq![a, b, c, d], m) == op_burns(a, m) + op_burns(b, m) + op_burns(c, m)
            + op_burns(d, m),
        minted(seq![a, b, c, d], m) == op_mints(a, m) + op_mints(b, m) + op_mints(c, m)
            + op_mints(d, m),
{
    lemma_totals_three(b, c, d, m);
    lemma_totals_cons(a, seq![b, c, d], m);
    assert(seq![a] + seq![b, c, d] =~= seq![a, b, c, d]);
}

proof fn lemma_totals_five(
    a: TokenOp,
    b: TokenOp,
    c: TokenOp,
    d: TokenOp,
    e: TokenOp,
    m: TokenMint,
)
    ensures
        burnt(seq![a, b, c, d, e], m) == op_burns(a, m) + op_burns(b, m) + op_burns(c, m)
            + op_burns(d, m) + op_burns(e, m),
        minted(seq![a, b, c, d, e], m) == op_mints(a, m) + op_mints(b, m) + op_mints(c, m)
            + op_mints(d, m) + op_mints(e, m),
{
    lemma_totals_four(b, c, d, e, m);
    lemma_totals_cons(a, seq![b, c, d, e], m);
    assert(seq![a] + seq![b, c, d, e] =~= seq![a, b, c, d, e]);
}

/// `mint_stat_tokens_to`: mints `amount` tokens of the seeded stat mint to
/// the user.
pub fn mint_stat_tokens_to(amount: u64) -> (ops: Vec<TokenOp>)
    ensures
        ops@ == seq![TokenOp::MintTo { mint: TokenMint::SeededStat, amount }],
{
    vec![TokenOp::MintTo { mint: TokenMint::SeededStat, amount }]
}

/// `initialize_nft_mon_state`: a new mon's seed is the current unix
/// timestamp, read as an unsigned number; its level is left as it is.
pub fn initialize_nft_mon_state(mon_state: &mut MonState, now_ts: i64)
    ensures
        final(mon_state).seed == now_ts as u64,
        final(mon_state).level == old(mon_state).level,
{
    mon_state.seed = now_ts as u64;
}

/// `initialize_nft_mint`: mints the single token of a new mon NFT to the user.
pub fn initialize_nft_mint() -> (ops: Vec<TokenOp>)
    ensures
        ops@ == seq![TokenOp::MintTo { mint: TokenMint::Nft, amount: 1 }],
{
    vec![TokenOp::MintTo { mint: TokenMint::Nft, amount: 1 }]
}

/// A creator listed in an NFT's metadata.
#[derive(Clone, Copy, Debug, PartialEq, Eq)]
pub struct Creator {
    pub address: [u8; 32],
    pub verified: bool,
    pub share: u8,
}

/// The metadata that `mint_nft` gives a mon NFT.
#[derive(Clone, Debug, PartialEq, Eq)]
pub struct NftMetadata {
    pub name: String,
    pub symbol: String,
    pub uri: String,
    pub creators: Vec<Creator>,
    pub seller_fee_basis_points: u16,
    pub update_authority_is_signer: bool,
    pub is_mutable: bool,
}

/// `mint_nft`: the metadata of a mon NFT. The game creator account is its
/// only creator, verified, with the whole share; sellers pay 6.5%.
pub fn mint_nft(game_creator_pda: [u8; 32]) -> (m: NftMetadata)
    ensures
        m.name@ == "dummy config"@,
        m.symbol@ == "$MON"@,
        m.uri@
            == "https://42arbl3cd7lx2f3mmagvl2uraedjag7me2pslu7wuvhvhe3pmsjq.arweave.net/5oEQr2If130XbGANVeqRAQaQG-wmnyXT9qVPU5NvZJM/"@,
        m.creators@ == seq![Creator { address: game_creator_pda, verified: true, share: 100 }],
        m.seller_fee_basis_points == 650,
        m.update_authority_is_signer,
        m.is_mutable,
{
    let creators = vec![Creator { address: game_creator_pda, verified: true, share: 100 }];
    NftMetadata {
        name: String::from_str("dummy config"),
        symbol: String::from_str("$MON"),
        uri: String::from_str(
            "https://42arbl3cd7lx2f3mmagvl2uraedjag7me2pslu7wuvhvhe3pmsjq.arweave.net/5oEQr2If130XbGANVeqRAQaQG-wmnyXT9qVPU5NvZJM/",
        ),
        creators,
        seller_fee_basis_points: 650,
        update_authority_is_signer: true,
        is_mutable: true,
    }
}

/// What a level-up adds to a mon: its statistics before and after, and the
/// increase counted in base units, `None` where an increase is negative or
/// does not fit in a `u64`.
#[derive(Clone, Copy, Debug, PartialEq, Eq, Structural)]
pub struct LevelUpQuote {
    pub prev_stats: MonStatistics,
    pub next_stats: MonStatistics,
    pub stats_added: Option<MonStatistics>,
}

/// The increase from `prev` to `next` of every statistic, counted in base
/// units, fits in a `u64`.
pub open spec fn increase_fits(prev: MonStatistics, next: MonStatistics) -> bool {
    forall|k: StatKind| #[trigger] ((next.get(k) - prev.get(k)) * token_unit()) <= u64::MAX
}

/// `q` is what `level_up_quote` reports: the increase is given exactly when
/// every statistic grows and its increase in base units fits in a `u64`,
/// and it is then that increase.
pub open spec fn quote_consistent(q: LevelUpQuote) -> bool {
    &&& q.stats_added is Some <==> q.next_stats.dominates(q.prev_stats) && increase_fits(
        q.prev_stats,
        q.next_stats,
    )
    &&& q.stats_added matches Some(added) ==> forall|k: StatKind| #[trigger] added.get(k) == (
    q.next_stats.get(k) - q.prev_stats.get(k)) * token_unit()
}

/// First half of `level_up_mon`: rolls the mon's statistics at its level
/// and at the next one, and the increase between them in base units. The
/// price of that increase depends on the token supplies and is worked out
/// by the caller.
pub fn level_up_quote<R: Fn(u64, u64) -> u64>(mon_state: &MonState, roll: &R) -> (q:
    LevelUpQuote)
    requires
        mon_state.seed >= 2,
        mon_state.level < u64::MAX,
        roll_total(*roll),
    ensures
        rolled(*roll, mon_state.seed, mon_state.level, q.prev_stats),
        rolled(*roll, mon_state.seed, (mon_state.level + 1) as u64, q.next_stats),
        quote_consistent(q),
        q.stats_added matches Some(added) ==> {
            &&& added.mass == (q.next_stats.mass - q.prev_stats.mass) * 1_000_000
            &&& added.energy == (q.next_stats.energy - q.prev_stats.energy) * 1_000_000
            &&& added.order == (q.next_stats.order - q.prev_stats.order) * 1_000_000
        },
        q.stats_added is None ==> (q.next_stats.mass < q.prev_stats.mass || q.next_stats.energy
            < q.prev_stats.energy || q.next_stats.order < q.prev_stats.order || (q.next_stats.mass
            - q.prev_stats.mass) * 1_000_000 > u64::MAX || (q.next_stats.energy
            - q.prev_stats.energy) * 1_000_000 > u64::MAX || (q.next_stats.order
            - q.prev_stats.order) * 1_000_000 > u64::MAX),
{
    let level = mon_state.level;
    let prev_stats = mon_state.generate_stats(level, roll);
    let next_stats = mon_state.generate_stats(level + 1, roll);
    let grows = next_stats.mass >= prev_stats.mass && next_stats.energy >= prev_stats.energy
        && next_stats.order >= prev_stats.order;
    if !grows {
        assert(!(next_stats.get(StatKind::Mass) >= prev_stats.get(StatKind::Mass))
            || !(next_stats.get(StatKind::Energy) >= prev_stats.get(StatKind::Energy))
            || !(next_stats.get(StatKind::Order) >= prev_stats.get(StatKind::Order)));
        return LevelUpQuote { prev_stats, next_stats, stats_added: None };
    }
    assert forall|k: StatKind| #[trigger] next_stats.get(k) >= prev_stats.get(k) by {
        match k {
            StatKind::Mass => {},
            StatKind::Energy => {},
            StatKind::Order => {},
        }
    }
    let diff = MonStatistics::diff_stats(next_stats, prev_stats);
    let stats_added = diff.checked_mon_lamports();
    proof {
        if stats_added is Some {
            assert forall|k: StatKind|
                #[trigger] ((next_stats.get(k) - prev_stats.get(k)) * token_unit())
                    <= u64::MAX by {
                assert(diff.get(k) * token_unit() <= u64::MAX);
            }
        } else {
            let k = choose|k: StatKind| !(#[trigger] diff.get(k) * token_unit() <= u64::MAX);
            assert(!(((next_stats.get(k) - prev_stats.get(k)) * token_unit()) <= u64::MAX));
        }
    }
    LevelUpQuote { prev_stats, next_stats, stats_added }
}

/// The base units a stat token amount of kind `k` is worth.
pub open spec fn base_units(stats: MonStatistics, k: StatKind) -> int {
    stats.get(k) * token_unit()
}

/// Sum, for kind `k`, of the increases reported by a run of level-up quotes.
pub open spec fn total_added(quotes: Seq<LevelUpQuote>, k: StatKind) -> int
    decreases quotes.len(),
{
    if quotes.len() == 0 {
        0
    } else {
        total_added(quotes.drop_last(), k) + quotes.last().stats_added->0.get(k)
    }
}

/// Each quote of the run starts from the statistics the previous one ended at.
pub open spec fn chained(quotes: Seq<LevelUpQuote>) -> bool {
    forall|i: int| 0 <= i < quotes.len() - 1 ==> #[trigger] quotes[i].next_stats == quotes[i
        + 1].prev_stats
}

/// Level-ups add up to the dust value: over a run of successive level-ups,
/// the increases of every statistic in base units add up to what dusting the
/// mon after the run gives beyond what dusting it before the run gives.
pub proof fn law_level_ups_add_up_to_dust_value(quotes: Seq<LevelUpQuote>, k: StatKind)
    requires
        quotes.len() >= 1,
        chained(quotes),
        forall|i: int|
            0 <= i < quotes.len() ==> #[trigger] quote_consistent(quotes[i])
                && quotes[i].stats_added is Some,
    ensures
        total_added(quotes, k) == base_units(quotes.last().next_stats, k) - base_units(
            quotes[0].prev_stats,
            k,
        ),
    decreases quotes.len(),
{
    let last = quotes.last();
    assert(quote_consistent(quotes[quotes.len() - 1]));
    let added = last.stats_added->0;
    assert(added.get(k) == (last.next_stats.get(k) - last.prev_stats.get(k)) * token_unit());
    assert(last.next_stats.get(k) >= last.prev_stats.get(k));
    law_lamports_of_difference(last.next_stats, last.prev_stats, k);
    assert(total_added(quotes, k) == total_added(quotes.drop_last(), k) + added.get(k));
    if quotes.len() == 1 {
        assert(total_added(quotes.drop_last(), k) == 0);
    } else {
        let rest = quotes.drop_last();
        assert(rest[0] == quotes[0]);
        assert forall|i: int| 0 <= i < rest.len() - 1 implies #[trigger] rest[i].next_stats
            == rest[i + 1].prev_stats by {
            assert(quotes[i].next_stats == quotes[i + 1].prev_stats);
        }
        assert forall|i: int| 0 <= i < rest.len() implies #[trigger] quote_consistent(rest[i])
            && rest[i].stats_added is Some by {
            assert(quote_consistent(quotes[i]));
        }
        law_level_ups_add_up_to_dust_value(rest, k);
        assert(quotes[quotes.len() - 2].next_stats == quotes[quotes.len() - 1].prev_stats);
        assert(rest.last() == quotes[quotes.len() - 2]);
    }
}

/// Dusting after a level-up: every stat token that dusting the mon at its
/// new level mints is what dusting it at its old level mints, plus the
/// increase the level-up quote reported.
pub proof fn law_dust_after_level_up(q: LevelUpQuote, nft_balance: u64, i: int)
    requires
        quote_consistent(q),
        q.stats_added is Some,
        q.prev_stats.lamports_fit(),
        q.next_stats.lamports_fit(),
        0 <= i < 3,
    ensures
        dust_ops(q.next_stats, nft_balance)[i]->MintTo_amount == dust_ops(
            q.prev_stats,
            nft_balance,
        )[i]->MintTo_amount + q.stats_added->0.get(stat_kind_of_index(i)),
{
    let k = stat_kind_of_index(i);
    let added = q.stats_added->0;
    assert(added.get(k) == (q.next_stats.get(k) - q.prev_stats.get(k)) * token_unit());
    assert(q.next_stats.get(k) >= q.prev_stats.get(k));
    assert(q.next_stats.get(k) * token_unit() <= u64::MAX);
    assert(q.prev_stats.get(k) * token_unit() <= u64::MAX);
    law_lamports_of_difference(q.next_stats, q.prev_stats, k);
}

/// The stat kind whose token the `i`-th call of a dust mints.
pub open spec fn stat_kind_of_index(i: int) -> StatKind {
    if i == 0 {
        StatKind::Mass
    } else if i == 1 {
        StatKind::Energy
    } else {
        StatKind::Order
    }
}

/// Which token a level-up lacks, if any: mass is checked first, then
/// energy, then order.
pub open spec fn level_up_shortfall(stat_cost: MonStatistics, user_balance: MonStatistics) -> Option<
    ErrorCode,
> {
    if stat_cost.mass > user_balance.mass {
        Some(ErrorCode::InsufficientMassTokens)
    } else if stat_cost.energy > user_balance.energy {
        Some(ErrorCode::InsufficientEnergyTokens)
    } else if stat_cost.order > user_balance.order {
        Some(ErrorCode::InsufficientOrderTokens)
    } else {
        None
    }
}

/// The burns that pay for a level-up.
pub open spec fn level_up_burns(stat_cost: MonStatistics) -> Seq<TokenOp> {
    seq![
        TokenOp::Burn { mint: TokenMint::StatToken(StatKind::Mass), amount: stat_cost.mass },
        TokenOp::Burn { mint: TokenMint::StatToken(StatKind::Energy), amount: stat_cost.energy },
        TokenOp::Burn { mint: TokenMint::StatToken(StatKind::Order), amount: stat_cost.order },
    ]
}

/// A level-up burns exactly its cost: of every stat token the cost of that
/// kind, of any other token nothing; and it mints nothing.
pub proof fn law_level_up_burns_exactly_the_cost(stat_cost: MonStatistics, mint: TokenMint)
    ensures
        mint matches TokenMint::StatToken(k) ==> burnt(level_up_burns(stat_cost), mint)
            == stat_cost.get(k),
        !(mint is StatToken) ==> burnt(level_up_burns(stat_cost), mint) == 0,
        minted(level_up_burns(stat_cost), mint) == 0,
{
    let ops = level_up_burns(stat_cost);
    lemma_totals_three(ops[0], ops[1], ops[2], mint);
    assert(ops =~= seq![ops[0], ops[1], ops[2]]);
}

/// Second half of `level_up_mon`: given what the level-up costs of every
/// stat token and what the user holds, refuses it when the user holds too
/// little (mass checked first, then energy, then order), and otherwise
/// burns the cost and raises the mon's level by one.
pub fn level_up_mon(
    mon_state: &mut MonState,
    stat_cost: MonStatistics,
    user_balance: MonStatistics,
) -> (r: Result<Vec<TokenOp>, ErrorCode>)
    requires
        old(mon_state).level < u64::MAX,
    ensures
        r is Ok <==> user_balance.dominates(stat_cost),
        match level_up_shortfall(stat_cost, user_balance) {
            Some(e) => r == Err::<Vec<TokenOp>, ErrorCode>(e) && *final(mon_state) == *old(
                mon_state,
            ),
            None => r matches Ok(ops) && ops@ == level_up_burns(stat_cost) && *final(mon_state)
                == (MonState { seed: old(mon_state).seed, level: (old(mon_state).level + 1) as u64 }),
        },
        (r == Err::<Vec<TokenOp>, ErrorCode>(ErrorCode::InsufficientMassTokens)) <==> stat_cost.mass
            > user_balance.mass,
        (r == Err::<Vec<TokenOp>, ErrorCode>(ErrorCode::InsufficientEnergyTokens)) <==> (
        stat_cost.mass <= user_balance.mass && stat_cost.energy > user_balance.energy),
        (r == Err::<Vec<TokenOp>, ErrorCode>(ErrorCode::InsufficientOrderTokens)) <==> (
        stat_cost.mass <= user_balance.mass && stat_cost.energy <= user_balance.energy
            && stat_cost.order > user_balance.order),
        r is Err ==> *final(mon_state) == *old(mon_state),
        r matches Ok(ops) ==> {
            &&& final(mon_state).seed == old(mon_state).seed
            &&& final(mon_state).level == old(mon_state).level + 1
            &&& forall|k: StatKind|
                #![trigger stat_cost.get(k)]
                burnt(ops@, TokenMint::StatToken(k)) == stat_cost.get(k)
            &&& forall|m: TokenMint| !(m is StatToken) ==> #[trigger] burnt(ops@, m) == 0
            &&& forall|m: TokenMint| #[trigger] minted(ops@, m) == 0
        },
{
    if stat_cost.mass > user_balance.mass {
        assert(!(user_balance.get(StatKind::Mass) >= stat_cost.get(StatKind::Mass)));
        return Err(ErrorCode::InsufficientMassTokens);
    } else if stat_cost.energy > user_balance.energy {
        assert(!(user_balance.get(StatKind::Energy) >= stat_cost.get(StatKind::Energy)));
        return Err(ErrorCode::InsufficientEnergyTokens);
    } else if stat_cost.order > user_balance.order {
        assert(!(user_balance.get(StatKind::Order) >= stat_cost.get(StatKind::Order)));
        return Err(ErrorCode::InsufficientOrderTokens);
    }
    assert forall|k: StatKind| #[trigger] user_balance.get(k) >= stat_cost.get(k) by {
        match k {
            StatKind::Mass => {},
            StatKind::Energy => {},
            StatKind::Order => {},
        }
    }
    let ops = vec![
        TokenOp::Burn { mint: TokenMint::StatToken(StatKind::Mass), amount: stat_cost.mass },
        TokenOp::Burn { mint: TokenMint::StatToken(StatKind::Energy), amount: stat_cost.energy },
        TokenOp::Burn { mint: TokenMint::StatToken(StatKind::Order), amount: stat_cost.order },
    ];
    assert(ops@ =~= level_up_burns(stat_cost));
    proof {
        assert forall|k: StatKind| #![trigger stat_cost.get(k)]
            burnt(ops@, TokenMint::StatToken(k)) == stat_cost.get(k) by {
            law_level_up_burns_exactly_the_cost(stat_cost, TokenMint::StatToken(k));
        }
        assert forall|m: TokenMint| !(m is StatToken) implies #[trigger] burnt(ops@, m) == 0 by {
            law_level_up_burns_exactly_the_cost(stat_cost, m);
        }
        assert forall|m: TokenMint| #[trigger] minted(ops@, m) == 0 by {
            law_level_up_burns_exactly_the_cost(stat_cost, m);
        }
    }
    mon_state.level = mon_state.level + 1;
    Ok(ops)
}

/// A level-up never burns more of a stat token than the user holds: when
/// the user holds at least the cost of every kind (exactly when
/// `level_up_mon` accepts), each burn is within the user's balance of its kind.
pub proof fn law_level_up_within_balances(
    stat_cost: MonStatistics,
    user_balance: MonStatistics,
    i: int,
)
    requires
        user_balance.dominates(stat_cost),
        0 <= i < 3,
    ensures
        level_up_shortfall(stat_cost, user_balance) is None,
        level_up_burns(stat_cost)[i]->Burn_amount <= user_balance.get(stat_kind_of_index(i)),
        level_up_burns(stat_cost)[i]->Burn_mint == TokenMint::StatToken(stat_kind_of_index(i)),
{
    assert(user_balance.get(StatKind::Mass) >= stat_cost.get(StatKind::Mass));
    assert(user_balance.get(StatKind::Energy) >= stat_cost.get(StatKind::Energy));
    assert(user_balance.get(StatKind::Order) >= stat_cost.get(StatKind::Order));
}

/// What dusting a mon gives: its statistics at its level, and the token
/// calls, `None` where a statistic in base units does not fit in a `u64`.
#[derive(Clone, Debug, PartialEq, Eq)]
pub struct DustMon {
    pub stats: MonStatistics,
    pub token_ops: Option<Vec<TokenOp>>,
}

/// The token calls that dust a mon: every statistic is minted to the user
/// in base units of its stat token, then the NFT is burnt and its account
/// closed.
pub open spec fn dust_ops(stats: MonStatistics, nft_balance: u64) -> Seq<TokenOp> {
    seq![
        TokenOp::MintTo {
            mint: TokenMint::StatToken(StatKind::Mass),
            amount: (stats.mass * token_unit()) as u64,
        },
        TokenOp::MintTo {
            mint: TokenMint::StatToken(StatKind::Energy),
            amount: (stats.energy * token_unit()) as u64,
        },
        TokenOp::MintTo {
            mint: TokenMint::StatToken(StatKind::Order),
            amount: (stats.order * token_unit()) as u64,
        },
        TokenOp::Burn { mint: TokenMint::Nft, amount: nft_balance },
        TokenOp::CloseNftAccount,
    ]
}

/// A dust pays out exactly the mon's statistics: of every stat token it
/// mints that statistic in base units, of any other token nothing; it burns
/// the whole NFT balance and nothing else, and its last call closes the
/// NFT account.
pub proof fn law_dust_pays_the_stats_and_burns_the_nft(
    stats: MonStatistics,
    nft_balance: u64,
    mint: TokenMint,
)
    requires
        stats.lamports_fit(),
    ensures
        mint matches TokenMint::StatToken(k) ==> minted(dust_ops(stats, nft_balance), mint)
            == stats.get(k) * token_unit(),
        !(mint is StatToken) ==> minted(dust_ops(stats, nft_balance), mint) == 0,
        burnt(dust_ops(stats, nft_balance), TokenMint::Nft) == nft_balance,
        mint != TokenMint::Nft ==> burnt(dust_ops(stats, nft_balance), mint) == 0,
        dust_ops(stats, nft_balance).last() == TokenOp::CloseNftAccount,
{
    let ops = dust_ops(stats, nft_balance);
    lemma_totals_five(ops[0], ops[1], ops[2], ops[3], ops[4], mint);
    lemma_totals_five(ops[0], ops[1], ops[2], ops[3], ops[4], TokenMint::Nft);
    assert(ops =~= seq![ops[0], ops[1], ops[2], ops[3], ops[4]]);
    assert(stats.get(StatKind::Mass) * token_unit() <= u64::MAX);
    assert(stats.get(StatKind::Energy) * token_unit() <= u64::MAX);
    assert(stats.get(StatKind::Order) * token_unit() <= u64::MAX);
}

/// `dust_mon`: destroys a mon NFT (the user's whole balance of it,
/// `nft_balance`) and gives its owner the mon's statistics as stat tokens.
/// A user who holds none of the NFT does not own the mon and is refused with
/// `NftNotHeld`: nothing is minted.
pub fn dust_mon<R: Fn(u64, u64) -> u64>(mon_state: &MonState, roll: &R, nft_balance: u64) -> (r:
    Result<DustMon, ErrorCode>)
    requires
        mon_state.seed >= 2,
        roll_total(*roll),
    ensures
        r is Err <==> nft_balance == 0,
        r is Err ==> r == Err::<DustMon, ErrorCode>(ErrorCode::NftNotHeld),
        r matches Ok(d) ==> {
            &&& rolled(*roll, mon_state.seed, mon_state.level, d.stats)
            &&& d.token_ops is Some <==> d.stats.lamports_fit()
            &&& d.token_ops matches Some(ops) ==> ops@ == dust_ops(d.stats, nft_balance)
            &&& d.token_ops matches Some(ops) ==> {
                &&& forall|k: StatKind|
                    #![trigger d.stats.get(k)]
                    minted(ops@, TokenMint::StatToken(k)) == d.stats.get(k) * token_unit()
                &&& forall|m: TokenMint| !(m is StatToken) ==> #[trigger] minted(ops@, m) == 0
                &&& burnt(ops@, TokenMint::Nft) == nft_balance
                &&& forall|m: TokenMint| m != TokenMint::Nft ==> #[trigger] burnt(ops@, m) == 0
                &&& ops@.last() == TokenOp::CloseNftAccount
            }
        },
{
    if nft_balance == 0 {
        return Err(ErrorCode::NftNotHeld);
    }
    let level = mon_state.level;
    let stats = mon_state.generate_stats(level, roll);
    match stats.checked_mon_lamports() {
        Some(l) => {
            let ops = vec![
                TokenOp::MintTo { mint: TokenMint::StatToken(StatKind::Mass), amount: l.mass },
                TokenOp::MintTo { mint: TokenMint::StatToken(StatKind::Energy), amount: l.energy },
                TokenOp::MintTo { mint: TokenMint::StatToken(StatKind::Order), amount: l.order },
                TokenOp::Burn { mint: TokenMint::Nft, amount: nft_balance },
                TokenOp::CloseNftAccount,
            ];
            assert(l.get(StatKind::Mass) == stats.get(StatKind::Mass) * token_unit());
            assert(l.get(StatKind::Energy) == stats.get(StatKind::Energy) * token_unit());
            assert(l.get(StatKind::Order) == stats.get(StatKind::Order) * token_unit());
            assert(ops@ =~= dust_ops(stats, nft_balance));
            proof {
                law_dust_pays_the_stats_and_burns_the_nft(stats, nft_balance, TokenMint::Nft);
                assert forall|k: StatKind| #![trigger stats.get(k)]
                    minted(ops@, TokenMint::StatToken(k)) == stats.get(k) * token_unit() by {
                    law_dust_pays_the_stats_and_burns_the_nft(
                        stats,
                        nft_balance,
                        TokenMint::StatToken(k),
                    );
                }
                assert forall|m: TokenMint| !(m is StatToken) implies #[trigger] minted(ops@, m)
                    == 0 by {
                    law_dust_pays_the_stats_and_burns_the_nft(stats, nft_balance, m);
                }
                assert forall|m: TokenMint| m != TokenMint::Nft implies #[trigger] burnt(ops@, m)
                    == 0 by {
                    law_dust_pays_the_stats_and_burns_the_nft(stats, nft_balance, m);
                }
            }
            Ok(DustMon { stats, token_ops: Some(ops) })
        },
        None => Ok(DustMon { stats, token_ops: None }),
    }
}

/// A dust pays out according to the mon's seed and level alone: with a roll
/// that gives one result per seed and level, two dusts of mons with the same
/// seed and level roll the same statistics and mint the same amounts of every
/// stat token, whatever NFT balances they burn.
pub proof fn law_dust_payout_depends_only_on_seed_and_level<R: Fn(u64, u64) -> u64>(
    roll: R,
    seed: u64,
    level: u64,
    stats_1: MonStatistics,
    nft_balance_1: u64,
    stats_2: MonStatistics,
    nft_balance_2: u64,
    i: int,
)
    requires
        roll_deterministic(roll),
        rolled(roll, seed, level, stats_1),
        rolled(roll, seed, level, stats_2),
        0 <= i < 3,
    ensures
        stats_1 == stats_2,
        dust_ops(stats_1, nft_balance_1)[i] == dust_ops(stats_2, nft_balance_2)[i],
{
    law_stats_depend_only_on_seed_and_level(roll, seed, level, stats_1, stats_2);
}

/// Dusting after a level-up pays the increase on top: for a mon `before`
/// whose level-up was quoted as `q` and accepted, leaving `after`, the stats
/// a dust of `after` rolls are the quote's next statistics, and every stat
/// token it mints is what a dust of `before` mints plus the quoted increase.
pub proof fn law_level_up_then_dust<R: Fn(u64, u64) -> u64>(
    roll: R,
    before: MonState,
    q: LevelUpQuote,
    after: MonState,
    dust_before: MonStatistics,
    dust_after: MonStatistics,
    nft_balance: u64,
    i: int,
)
    requires
        roll_deterministic(roll),
        before.level < u64::MAX,
        rolled(roll, before.seed, before.level, q.prev_stats),
        rolled(roll, before.seed, (before.level + 1) as u64, q.next_stats),
        quote_consistent(q),
        q.stats_added is Some,
        after == (MonState { seed: before.seed, level: (before.level + 1) as u64 }),
        rolled(roll, before.seed, before.level, dust_before),
        rolled(roll, after.seed, after.level, dust_after),
        dust_before.lamports_fit(),
        dust_after.lamports_fit(),
        0 <= i < 3,
    ensures
        dust_before == q.prev_stats,
        dust_after == q.next_stats,
        dust_ops(dust_after, nft_balance)[i]->MintTo_amount == dust_ops(
            dust_before,
            nft_balance,
        )[i]->MintTo_amount + q.stats_added->0.get(stat_kind_of_index(i)),
{
    law_stats_depend_only_on_seed_and_level(roll, before.seed, before.level, dust_before, q.prev_stats);
    law_stats_depend_only_on_seed_and_level(
        roll,
        before.seed,
        (before.level + 1) as u64,
        dust_after,
        q.next_stats,
    );
    law_dust_after_level_up(q, nft_balance, i);
}

/// The token calls of a purchase of mon tokens: the same amount of every
/// stat token is burnt, and the mon tokens are minted to the user.
pub open spec fn buy_ops(calc: TokenCalc) -> Seq<TokenOp> {
    seq![
        TokenOp::Burn {
            mint: TokenMint::StatToken(StatKind::Mass),
            amount: calc.amount_stat_tokens,
        },
        TokenOp::Burn {
            mint: TokenMint::StatToken(StatKind::Energy),
            amount: calc.amount_stat_tokens,
        },
        TokenOp::Burn {
            mint: TokenMint::StatToken(StatKind::Order),
            amount: calc.amount_stat_tokens,
        },
        TokenOp::MintTo { mint: TokenMint::MonToken, amount: calc.amount_mon_tokens },
    ]
}

/// A purchase never burns more of a stat token than the user holds: for an
/// exchange that `TokenCalc::mon_tokens_user_can_buy` accepts, each burn of
/// `buy_mon_tokens` is within the user's balance of its kind.
pub proof fn law_purchase_within_balances(
    amount: Option<u64>,
    user_balance: MonStatistics,
    calc: TokenCalc,
    i: int,
)
    requires
        requested_stat_tokens(amount, user_balance) <= lowest_balance(user_balance),
        calc.amount_stat_tokens == requested_stat_tokens(amount, user_balance),
        0 <= i < 3,
    ensures
        buy_ops(calc)[i]->Burn_amount <= user_balance.get(stat_kind_of_index(i)),
        buy_ops(calc)[i]->Burn_mint == TokenMint::StatToken(stat_kind_of_index(i)),
{
    lemma_lowest_balance_is_minimum(user_balance);
    assert(lowest_balance(user_balance) <= user_balance.get(stat_kind_of_index(i)));
}

/// A purchase moves exactly the computed amounts: it burns the offered
/// amount of every stat token and nothing else, and mints the computed mon
/// tokens and nothing else.
pub proof fn law_purchase_moves_exactly_the_computed_amounts(calc: TokenCalc, mint: TokenMint)
    ensures
        mint is StatToken ==> burnt(buy_ops(calc), mint) == calc.amount_stat_tokens,
        !(mint is StatToken) ==> burnt(buy_ops(calc), mint) == 0,
        minted(buy_ops(calc), TokenMint::MonToken) == calc.amount_mon_tokens,
        mint != TokenMint::MonToken ==> minted(buy_ops(calc), mint) == 0,
{
    let ops = buy_ops(calc);
    lemma_totals_four(ops[0], ops[1], ops[2], ops[3], mint);
    lemma_totals_four(ops[0], ops[1], ops[2], ops[3], TokenMint::MonToken);
    assert(ops =~= seq![ops[0], ops[1], ops[2], ops[3]]);
}

/// `buy_mon_tokens`: the token calls that carry out an exchange worked out
/// by `TokenCalc::mon_tokens_user_can_buy`.
pub fn buy_mon_tokens(calc: &TokenCalc) -> (ops: Vec<TokenOp>)
    ensures
        ops@ == buy_ops(*calc),
        forall|k: StatKind| #[trigger]
            burnt(ops@, TokenMint::StatToken(k)) == calc.amount_stat_tokens,
        forall|m: TokenMint| !(m is StatToken) ==> #[trigger] burnt(ops@, m) == 0,
        minted(ops@, TokenMint::MonToken) == calc.amount_mon_tokens,
        forall|m: TokenMint| m != TokenMint::MonToken ==> #[trigger] minted(ops@, m) == 0,
{
    proof {
        let c = *calc;
        law_purchase_moves_exactly_the_computed_amounts(c, TokenMint::MonToken);
        assert forall|k: StatKind| #[trigger]
            burnt(buy_ops(c), TokenMint::StatToken(k)) == c.amount_stat_tokens by {
            law_purchase_moves_exactly_the_computed_amounts(c, TokenMint::StatToken(k));
        }
        assert forall|m: TokenMint| !(m is StatToken) implies #[trigger] burnt(buy_ops(c), m)
            == 0 by {
            law_purchase_moves_exactly_the_computed_amounts(c, m);
        }
        assert forall|m: TokenMint| m != TokenMint::MonToken implies #[trigger] minted(
            buy_ops(c),
            m,
        ) == 0 by {
            law_purchase_moves_exactly_the_computed_amounts(c, m);
        }
    }
    let a = calc.amount_stat_tokens;
    vec![
        TokenOp::Burn { mint: TokenMint::StatToken(StatKind::Mass), amount: a },
        TokenOp::Burn { mint: TokenMint::StatToken(StatKind::Energy), amount: a },
        TokenOp::Burn { mint: TokenMint::StatToken(StatKind::Order), amount: a },
        TokenOp::MintTo { mint: TokenMint::MonToken, amount: calc.amount_mon_tokens },
    ]
}

} // verus!
