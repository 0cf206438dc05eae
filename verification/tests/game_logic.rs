use mon_maker::error::ErrorCode;
use mon_maker::instructions::{
    buy_mon_tokens, dust_mon, initialize_nft_mint, initialize_nft_mon_state, level_up_mon,
    level_up_quote, mint_nft, mint_stat_tokens_to, Creator, LevelUpQuote, TokenMint, TokenOp,
};
use mon_maker::state::MonState;
use mon_maker::stats::{token_unit_exec, MonStatistics, StatKind};
use mon_maker::token_calc::TokenCalc;

fn stats(mass: u64, energy: u64, order: u64) -> MonStatistics {
    MonStatistics { mass, energy, order }
}

/// A roll that grows with the level: `seed * 100 + level * 3`.
fn growing_roll(seed: u64, level: u64) -> u64 {
    seed * 100 + level * 3
}

/// The float price of the game: stat tokens trade for mon tokens
/// at the ratio of the mon token supply to the summed stat token supply.
fn float_exchange(amount: u64, mon_token_supply: u64, summed_stat_tokens: u64) -> u64 {
    let mon_token_per_stat_token = mon_token_supply as f64 / summed_stat_tokens as f64;
    ((amount as f64) * mon_token_per_stat_token) as u64
}

#[test]
fn token_unit_is_ten_to_the_decimals() {
    assert_eq!(token_unit_exec(), 1_000_000);
}

#[test]
fn sum_parts_adds_the_three_statistics() {
    assert_eq!(stats(1, 20, 300).sum_parts(), 321);
    assert_eq!(stats(0, 0, 0).sum_parts(), 0);
}

#[test]
fn default_statistics_and_state_are_zero() {
    assert_eq!(MonStatistics::default(), stats(0, 0, 0));
    assert_eq!(MonState::default(), MonState { seed: 0, level: 0 });
}

#[test]
fn to_mon_lamports_scales_by_a_million() {
    assert_eq!(stats(1, 2, 3).to_mon_lamports(), stats(1_000_000, 2_000_000, 3_000_000));
    assert_eq!(stats(0, 7, 0).to_mon_lamports(), stats(0, 7_000_000, 0));
}

#[test]
fn checked_mon_lamports_refuses_overflow() {
    assert_eq!(stats(4, 5, 6).checked_mon_lamports(), Some(stats(4_000_000, 5_000_000, 6_000_000)));
    assert_eq!(stats(1, u64::MAX, 1).checked_mon_lamports(), None);
    let largest = u64::MAX / 1_000_000;
    assert_eq!(
        stats(largest, 0, 0).checked_mon_lamports(),
        Some(stats(largest * 1_000_000, 0, 0))
    );
    assert_eq!(stats(0, 0, largest + 1).checked_mon_lamports(), None);
}

#[test]
fn diff_stats_subtracts_each_statistic() {
    assert_eq!(MonStatistics::diff_stats(stats(10, 20, 30), stats(1, 20, 5)), stats(9, 0, 25));
}

#[test]
fn lamports_of_difference_is_difference_of_lamports() {
    let a = stats(10, 20, 30);
    let b = stats(1, 2, 3);
    let left = MonStatistics::diff_stats(a, b).to_mon_lamports();
    let right = MonStatistics::diff_stats(a.to_mon_lamports(), b.to_mon_lamports());
    assert_eq!(left, right);
}

#[test]
fn generate_stats_rolls_from_seed_minus_kind() {
    let state = MonState { seed: 10, level: 4 };
    let s = state.generate_stats(4, &growing_roll);
    assert_eq!(s, stats(1012, 912, 812));
    let s0 = state.generate_stats(0, &|seed: u64, level: u64| seed + level);
    assert_eq!(s0, stats(10, 9, 8));
}

#[test]
fn new_mon_seed_is_the_timestamp() {
    let mut state = MonState { seed: 0, level: 0 };
    initialize_nft_mon_state(&mut state, 1_640_995_200);
    assert_eq!(state, MonState { seed: 1_640_995_200, level: 0 });
    let mut odd = MonState { seed: 3, level: 9 };
    initialize_nft_mon_state(&mut odd, -1);
    assert_eq!(odd, MonState { seed: u64::MAX, level: 9 });
}

#[test]
fn minting_calls() {
    assert_eq!(
        mint_stat_tokens_to(42),
        vec![TokenOp::MintTo { mint: TokenMint::SeededStat, amount: 42 }]
    );
    assert_eq!(initialize_nft_mint(), vec![TokenOp::MintTo { mint: TokenMint::Nft, amount: 1 }]);
}

#[test]
fn nft_metadata() {
    let pda = [9u8; 32];
    let m = mint_nft(pda);
    assert_eq!(m.name, "dummy config");
    assert_eq!(m.symbol, "$MON");
    assert_eq!(
        m.uri,
        "https://42arbl3cd7lx2f3mmagvl2uraedjag7me2pslu7wuvhvhe3pmsjq.arweave.net/5oEQr2If130XbGANVeqRAQaQG-wmnyXT9qVPU5NvZJM/"
    );
    assert_eq!(m.creators, vec![Creator { address: pda, verified: true, share: 100 }]);
    assert_eq!(m.seller_fee_basis_points, 650);
    assert!(m.update_authority_is_signer);
    assert!(m.is_mutable);
}

#[test]
fn level_up_quote_reports_increase_in_base_units() {
    let state = MonState { seed: 10, level: 4 };
    let q = level_up_quote(&state, &growing_roll);
    assert_eq!(q.prev_stats, stats(1012, 912, 812));
    assert_eq!(q.next_stats, stats(1015, 915, 815));
    assert_eq!(q.stats_added, Some(stats(3_000_000, 3_000_000, 3_000_000)));
}

#[test]
fn level_up_quote_refuses_shrinking_statistics() {
    let state = MonState { seed: 10, level: 4 };
    let shrinking = |seed: u64, level: u64| seed * 100 - level;
    let q = level_up_quote(&state, &shrinking);
    assert_eq!(q.prev_stats, stats(996, 896, 796));
    assert_eq!(q.next_stats, stats(995, 895, 795));
    assert_eq!(q.stats_added, None);
}

#[test]
fn level_up_quote_refuses_overflowing_increase() {
    let state = MonState { seed: 2, level: 0 };
    let jump = |_seed: u64, level: u64| if level == 0 { 0 } else { u64::MAX };
    let q = level_up_quote(&state, &jump);
    assert_eq!(q.stats_added, None);
}

#[test]
fn level_up_burns_cost_and_raises_level() {
    let mut state = MonState { seed: 10, level: 4 };
    let ops = level_up_mon(&mut state, stats(5, 6, 7), stats(5, 100, 7)).unwrap();
    assert_eq!(
        ops,
        vec![
            TokenOp::Burn { mint: TokenMint::StatToken(StatKind::Mass), amount: 5 },
            TokenOp::Burn { mint: TokenMint::StatToken(StatKind::Energy), amount: 6 },
            TokenOp::Burn { mint: TokenMint::StatToken(StatKind::Order), amount: 7 },
        ]
    );
    assert_eq!(state, MonState { seed: 10, level: 5 });
}

#[test]
fn level_up_refuses_insufficient_mass() {
    let mut state = MonState { seed: 10, level: 4 };
    assert_eq!(
        level_up_mon(&mut state, stats(5, 6, 7), stats(4, 0, 0)),
        Err(ErrorCode::InsufficientMassTokens)
    );
    assert_eq!(state, MonState { seed: 10, level: 4 });
}

#[test]
fn level_up_refuses_insufficient_energy() {
    let mut state = MonState { seed: 10, level: 4 };
    assert_eq!(
        level_up_mon(&mut state, stats(5, 6, 7), stats(5, 5, 0)),
        Err(ErrorCode::InsufficientEnergyTokens)
    );
    assert_eq!(state.level, 4);
}

#[test]
fn level_up_refuses_insufficient_order() {
    let mut state = MonState { seed: 10, level: 4 };
    assert_eq!(
        level_up_mon(&mut state, stats(5, 6, 7), stats(5, 6, 6)),
        Err(ErrorCode::InsufficientOrderTokens)
    );
    assert_eq!(state.level, 4);
}

#[test]
fn level_up_with_nothing_to_pay() {
    let mut state = MonState { seed: 2, level: 0 };
    let ops = level_up_mon(&mut state, stats(0, 0, 0), stats(0, 0, 0)).unwrap();
    assert_eq!(ops.len(), 3);
    assert_eq!(state.level, 1);
}

#[test]
fn dust_mints_statistics_and_destroys_nft() {
    let state = MonState { seed: 10, level: 4 };
    let d = dust_mon(&state, &growing_roll, 1).unwrap();
    assert_eq!(d.stats, stats(1012, 912, 812));
    assert_eq!(
        d.token_ops,
        Some(vec![
            TokenOp::MintTo { mint: TokenMint::StatToken(StatKind::Mass), amount: 1_012_000_000 },
            TokenOp::MintTo { mint: TokenMint::StatToken(StatKind::Energy), amount: 912_000_000 },
            TokenOp::MintTo { mint: TokenMint::StatToken(StatKind::Order), amount: 812_000_000 },
            TokenOp::Burn { mint: TokenMint::Nft, amount: 1 },
            TokenOp::CloseNftAccount,
        ])
    );
}

#[test]
fn dust_refuses_overflowing_statistics() {
    let state = MonState { seed: 2, level: 0 };
    let d = dust_mon(&state, &|_s: u64, _l: u64| u64::MAX, 1).unwrap();
    assert_eq!(d.stats, stats(u64::MAX, u64::MAX, u64::MAX));
    assert_eq!(d.token_ops, None);
}

#[test]
fn level_ups_add_up_to_dust_value() {
    let start = MonState { seed: 7, level: 0 };
    let mut state = start;
    let mut added = stats(0, 0, 0);
    let mut quotes: Vec<LevelUpQuote> = Vec::new();
    for _ in 0..3 {
        let q = level_up_quote(&state, &growing_roll);
        let a = q.stats_added.unwrap();
        added = stats(added.mass + a.mass, added.energy + a.energy, added.order + a.order);
        quotes.push(q);
        level_up_mon(&mut state, stats(0, 0, 0), stats(0, 0, 0)).unwrap();
    }
    for i in 0..2 {
        assert_eq!(quotes[i].next_stats, quotes[i + 1].prev_stats);
    }
    let before = dust_mon(&start, &growing_roll, 1).unwrap().stats.to_mon_lamports();
    let after = dust_mon(&state, &growing_roll, 1).unwrap().stats.to_mon_lamports();
    assert_eq!(MonStatistics::diff_stats(after, before), added);
}

#[test]
fn dust_after_level_up_adds_the_increase() {
    let state = MonState { seed: 10, level: 4 };
    let q = level_up_quote(&state, &growing_roll);
    let before = dust_mon(&state, &growing_roll, 1).unwrap().token_ops.unwrap();
    let next = MonState { seed: 10, level: 5 };
    let after = dust_mon(&next, &growing_roll, 1).unwrap().token_ops.unwrap();
    let added = q.stats_added.unwrap();
    let kinds = [added.mass, added.energy, added.order];
    for i in 0..3 {
        match (before[i], after[i]) {
            (TokenOp::MintTo { amount: b, .. }, TokenOp::MintTo { amount: a, .. }) => {
                assert_eq!(a, b + kinds[i]);
            }
            _ => panic!("a dust mints each stat token first"),
        }
    }
}

#[test]
fn buy_everything_the_smallest_balance_allows() {
    let balance = stats(50, 20, 30);
    let supply = stats(200, 200, 200);
    let calc =
        TokenCalc::mon_tokens_user_can_buy(None, balance, supply, 300, &float_exchange).unwrap();
    assert_eq!(calc, TokenCalc { amount_stat_tokens: 20, amount_mon_tokens: 10 });
}

#[test]
fn buy_a_requested_amount() {
    let balance = stats(50, 20, 30);
    let supply = stats(100, 100, 100);
    let calc =
        TokenCalc::mon_tokens_user_can_buy(Some(12), balance, supply, 600, &float_exchange)
            .unwrap();
    assert_eq!(calc, TokenCalc { amount_stat_tokens: 12, amount_mon_tokens: 24 });
    let exact =
        TokenCalc::mon_tokens_user_can_buy(Some(20), balance, supply, 600, &float_exchange)
            .unwrap();
    assert_eq!(exact.amount_stat_tokens, 20);
}

#[test]
fn buy_more_than_the_smallest_balance_is_refused() {
    let balance = stats(50, 20, 30);
    let supply = stats(100, 100, 100);
    assert_eq!(
        TokenCalc::mon_tokens_user_can_buy(Some(21), balance, supply, 600, &float_exchange),
        Err(ErrorCode::InvalidMonTokenAmount)
    );
}

#[test]
fn lowest_balance_ties_and_zero() {
    let supply = stats(1, 1, 1);
    let calc = TokenCalc::mon_tokens_user_can_buy(
        None,
        stats(8, 8, 3),
        supply,
        0,
        &|a: u64, _m: u64, _s: u64| a,
    )
    .unwrap();
    assert_eq!(calc.amount_stat_tokens, 3);
    let none = TokenCalc::mon_tokens_user_can_buy(
        None,
        stats(0, 8, 8),
        supply,
        0,
        &|a: u64, _m: u64, _s: u64| a,
    )
    .unwrap();
    assert_eq!(none, TokenCalc { amount_stat_tokens: 0, amount_mon_tokens: 0 });
}

#[test]
fn exchange_sees_summed_stat_supply() {
    let calc = TokenCalc::mon_tokens_user_can_buy(
        Some(1),
        stats(5, 5, 5),
        stats(10, 20, 30),
        99,
        &|a: u64, m: u64, s: u64| a * 1_000_000 + m * 1_000 + s,
    )
    .unwrap();
    assert_eq!(calc.amount_mon_tokens, 1_099_060);
}

#[test]
fn buying_burns_each_stat_token_and_mints_mon_tokens() {
    let ops = buy_mon_tokens(&TokenCalc { amount_stat_tokens: 4, amount_mon_tokens: 9 });
    assert_eq!(
        ops,
        vec![
            TokenOp::Burn { mint: TokenMint::StatToken(StatKind::Mass), amount: 4 },
            TokenOp::Burn { mint: TokenMint::StatToken(StatKind::Energy), amount: 4 },
            TokenOp::Burn { mint: TokenMint::StatToken(StatKind::Order), amount: 4 },
            TokenOp::MintTo { mint: TokenMint::MonToken, amount: 9 },
        ]
    );
}

#[test]
fn dust_refuses_a_user_without_the_nft() {
    let state = MonState { seed: 10, level: 4 };
    assert_eq!(dust_mon(&state, &growing_roll, 0), Err(ErrorCode::NftNotHeld));
}

#[test]
fn dust_payout_depends_only_on_seed_and_level() {
    let a = dust_mon(&MonState { seed: 10, level: 4 }, &growing_roll, 1).unwrap();
    let b = dust_mon(&MonState { seed: 10, level: 4 }, &growing_roll, 7).unwrap();
    assert_eq!(a.stats, b.stats);
    assert_eq!(a.token_ops.unwrap()[..3], b.token_ops.unwrap()[..3]);
}

#[test]
fn level_up_then_dust_pays_the_next_statistics() {
    let mut state = MonState { seed: 10, level: 4 };
    let q = level_up_quote(&state, &growing_roll);
    level_up_mon(&mut state, stats(0, 0, 0), stats(0, 0, 0)).unwrap();
    let d = dust_mon(&state, &growing_roll, 1).unwrap();
    assert_eq!(d.stats, q.next_stats);
}

#[test]
fn previous_seed_shifts_the_stat_kinds() {
    let this = MonState { seed: 10, level: 2 }.generate_stats(2, &growing_roll);
    let previous = MonState { seed: 9, level: 0 }.generate_stats(2, &growing_roll);
    assert_eq!(previous.mass, this.energy);
    assert_eq!(previous.energy, this.order);
}

#[test]
fn selling_more_never_buys_fewer_mon_tokens() {
    let balance = stats(50, 20, 30);
    let supply = stats(70, 80, 90);
    let mut last = TokenCalc { amount_stat_tokens: 0, amount_mon_tokens: 0 };
    for a in 0..=20u64 {
        let calc =
            TokenCalc::mon_tokens_user_can_buy(Some(a), balance, supply, 1234, &float_exchange)
                .unwrap();
        assert!(calc.amount_stat_tokens >= last.amount_stat_tokens);
        assert!(calc.amount_mon_tokens >= last.amount_mon_tokens);
        last = calc;
    }
}

#[test]
fn purchase_ignores_the_order_of_stats() {
    let r1 = TokenCalc::mon_tokens_user_can_buy(None, stats(50, 20, 30), stats(10, 20, 30), 99, &float_exchange);
    let r2 = TokenCalc::mon_tokens_user_can_buy(None, stats(30, 50, 20), stats(30, 10, 20), 99, &float_exchange);
    assert_eq!(r1, r2);
    let e1 = TokenCalc::mon_tokens_user_can_buy(Some(25), stats(50, 20, 30), stats(10, 20, 30), 99, &float_exchange);
    let e2 = TokenCalc::mon_tokens_user_can_buy(Some(25), stats(20, 30, 50), stats(20, 30, 10), 99, &float_exchange);
    assert_eq!(e1, Err(ErrorCode::InvalidMonTokenAmount));
    assert_eq!(e1, e2);
}
