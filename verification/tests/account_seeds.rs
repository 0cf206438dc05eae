use mon_maker::instructions::TokenMint;
use mon_maker::seeds::{
    game_creator_seeds, game_token_mint_seeds, mon_state_seeds, nft_mint_seeds,
    seeded_stat_mint_seeds,
};
use mon_maker::stats::StatKind;

fn concat(seeds: &[Vec<u8>]) -> Vec<u8> {
    seeds.iter().flat_map(|s| s.iter().copied()).collect()
}

#[test]
fn game_creator_seed_layout() {
    let auth = [3u8; 32];
    let seeds = game_creator_seeds(&auth, 254);
    assert_eq!(
        seeds,
        vec![b"crypto-mons".to_vec(), auth.to_vec(), b"creator".to_vec(), vec![254u8]]
    );
}

#[test]
fn game_token_mint_seed_layouts() {
    let auth = [1u8; 32];
    let key = [2u8; 32];
    let tags: [(TokenMint, &[u8]); 4] = [
        (TokenMint::MonToken, b"mon-token"),
        (TokenMint::StatToken(StatKind::Mass), b"mass-token"),
        (TokenMint::StatToken(StatKind::Energy), b"energy-token"),
        (TokenMint::StatToken(StatKind::Order), b"order-token"),
    ];
    for (mint, tag) in tags {
        assert_eq!(
            game_token_mint_seeds(&auth, &key, mint, 7),
            vec![b"crypto-mons".to_vec(), auth.to_vec(), key.to_vec(), tag.to_vec(), vec![7u8]]
        );
    }
}

#[test]
fn nft_and_mon_state_seed_layouts() {
    let auth = [1u8; 32];
    let nft = [5u8; 32];
    assert_eq!(
        nft_mint_seeds(&auth, &nft, 9),
        vec![b"crypto-mons".to_vec(), auth.to_vec(), nft.to_vec(), vec![9u8]]
    );
    assert_eq!(mon_state_seeds(&nft, 8), vec![b"mon-state".to_vec(), nft.to_vec(), vec![8u8]]);
}

#[test]
fn seeded_stat_mint_layout() {
    let auth = [1u8; 32];
    let key = [4u8; 32];
    assert_eq!(
        seeded_stat_mint_seeds(&auth, &key, "luck".as_bytes(), 3),
        vec![b"crypto-mons".to_vec(), auth.to_vec(), key.to_vec(), b"luck".to_vec(), vec![3u8]]
    );
}

#[test]
fn game_creator_seeds_tell_authorities_apart() {
    let a = concat(&game_creator_seeds(&[1u8; 32], 255));
    let b = concat(&game_creator_seeds(&[2u8; 32], 255));
    let c = concat(&game_creator_seeds(&[1u8; 32], 254));
    assert_ne!(a, b);
    assert_ne!(a, c);
    assert_eq!(a, concat(&game_creator_seeds(&[1u8; 32], 255)));
}

#[test]
fn game_token_mints_never_share_seed_bytes() {
    let mints = [
        TokenMint::MonToken,
        TokenMint::StatToken(StatKind::Mass),
        TokenMint::StatToken(StatKind::Energy),
        TokenMint::StatToken(StatKind::Order),
    ];
    for (i, m1) in mints.iter().enumerate() {
        for (j, m2) in mints.iter().enumerate() {
            if i != j {
                let a = concat(&game_token_mint_seeds(&[0u8; 32], &[0u8; 32], *m1, 0));
                let b = concat(&game_token_mint_seeds(&[255u8; 32], &[7u8; 32], *m2, 255));
                assert_ne!(a, b);
            }
        }
    }
}

#[test]
fn mon_state_seeds_apart_from_game_accounts() {
    let key = [99u8; 32];
    let state = concat(&mon_state_seeds(&key, 1));
    assert_ne!(state, concat(&game_creator_seeds(&key, 1)));
    assert_ne!(state, concat(&nft_mint_seeds(&key, &key, 1)));
    assert_ne!(state[0], b"crypto-mons"[0]);
}

#[test]
fn seeded_stat_mint_with_a_tag_is_that_token_mint() {
    let auth = [6u8; 32];
    let key = [8u8; 32];
    assert_eq!(
        seeded_stat_mint_seeds(&auth, &key, "mass-token".as_bytes(), 2),
        game_token_mint_seeds(&auth, &key, TokenMint::StatToken(StatKind::Mass), 2)
    );
    assert_eq!(
        seeded_stat_mint_seeds(&auth, &key, "mon-token".as_bytes(), 2),
        game_token_mint_seeds(&auth, &key, TokenMint::MonToken, 2)
    );
}
