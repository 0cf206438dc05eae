use vstd::prelude::*;
use crate::instructions::TokenMint;
use crate::stats::StatKind;

verus! {

/// `b"crypto-mons"`: the first seed of every account the game creator controls.
pub const PREFIX: [u8; 11] = [99, 114, 121, 112, 116, 111, 45, 109, 111, 110, 115];

/// `b"creator"`: marks the game creator account.
pub const CREATOR: [u8; 7] = [99, 114, 101, 97, 116, 111, 114];

/// `b"mon-state"`: marks the game data account of a mon.
pub const MON_STATE_SEED: [u8; 9] = [109, 111, 110, 45, 115, 116, 97, 116, 101];

/// `b"mon-token"`: tags the mint of the main game token.
pub const MON_TOKEN_SEED: [u8; 9] = [109, 111, 110, 45, 116, 111, 107, 101, 110];

/// `b"mass-token"`: tags the mint of the mass token.
pub const MASS_SEED: [u8; 10] = [109, 97, 115, 115, 45, 116, 111, 107, 101, 110];

/// `b"energy-token"`: tags the mint of the energy token.
pub const ENERGY_SEED: [u8; 12] = [101, 110, 101, 114, 103, 121, 45, 116, 111, 107, 101, 110];

/// `b"order-token"`: tags the mint of the order token.
pub const ORDER_SEED: [u8; 11] = [111, 114, 100, 101, 114, 45, 116, 111, 107, 101, 110];

/// The bytes of `PREFIX`.
pub open spec fn prefix_seed() -> Seq<u8> {
    PREFIX@
}

/// The bytes of `CREATOR`.
pub open spec fn creator_seed() -> Seq<u8> {
    CREATOR@
}

/// The bytes of `MON_STATE_SEED`.
pub open spec fn mon_state_seed() -> Seq<u8> {
    MON_STATE_SEED@
}

/// The tag of a game token mint: `MON_TOKEN_SEED`, `MASS_SEED`,
/// `ENERGY_SEED` or `ORDER_SEED`.
pub open spec fn game_token_tag(mint: TokenMint) -> Seq<u8> {
    match mint {
        TokenMint::StatToken(StatKind::Mass) => MASS_SEED@,
        TokenMint::StatToken(StatKind::Energy) => ENERGY_SEED@,
        TokenMint::StatToken(StatKind::Order) => ORDER_SEED@,
        _ => MON_TOKEN_SEED@,
    }
}

/// The main game token and the three stat tokens have mints of their own,
/// derived from a key and a tag.
pub open spec fn is_game_token(mint: TokenMint) -> bool {
    mint is MonToken || mint is StatToken
}

/// The seeds, as byte sequences, that a list of seed buffers holds.
pub open spec fn seed_bytes(seeds: Seq<Vec<u8>>) -> Seq<Seq<u8>> {
    seeds.map_values(|v: Vec<u8>| v@)
}

/// Seeds of the game creator account, which signs every mint.
pub open spec fn game_creator_seed_list(game_creator_auth: Seq<u8>, bump: u8) -> Seq<Seq<u8>> {
    seq![prefix_seed(), game_creator_auth, creator_seed(), seq![bump]]
}

/// Seeds of the mint of a game token.
pub open spec fn game_token_mint_seed_list(
    game_creator_auth: Seq<u8>,
    mint_key: Seq<u8>,
    mint: TokenMint,
    bump: u8,
) -> Seq<Seq<u8>> {
    seq![prefix_seed(), game_creator_auth, mint_key, game_token_tag(mint), seq![bump]]
}

/// Seeds of the mint of a mon NFT.
pub open spec fn nft_mint_seed_list(game_creator_auth: Seq<u8>, nft_mint_key: Seq<u8>, bump: u8) -> Seq<
    Seq<u8>,
> {
    seq![prefix_seed(), game_creator_auth, nft_mint_key, seq![bump]]
}

/// Seeds of a stat token mint chosen by a seed string.
pub open spec fn seeded_stat_mint_seed_list(
    game_creator_auth: Seq<u8>,
    stat_mint_key: Seq<u8>,
    stat_seed: Seq<u8>,
    bump: u8,
) -> Seq<Seq<u8>> {
    seq![prefix_seed(), game_creator_auth, stat_mint_key, stat_seed, seq![bump]]
}

/// Seeds of the game data account of a mon.
pub open spec fn mon_state_seed_list(nft_mint_key: Seq<u8>, bump: u8) -> Seq<Seq<u8>> {
    seq![mon_state_seed(), nft_mint_key, seq![bump]]
}

fn game_token_tag_bytes(mint: TokenMint) -> (r: Vec<u8>)
    ensures
        r@ == game_token_tag(mint),
{
    match mint {
        TokenMint::StatToken(StatKind::Mass) => vstd::slice::slice_to_vec(&MASS_SEED),
        TokenMint::StatToken(StatKind::Energy) => vstd::slice::slice_to_vec(&ENERGY_SEED),
        TokenMint::StatToken(StatKind::Order) => vstd::slice::slice_to_vec(&ORDER_SEED),
        _ => vstd::slice::slice_to_vec(&MON_TOKEN_SEED),
    }
}

fn bump_seed_bytes(bump: u8) -> (r: Vec<u8>)
    ensures
        r@ == seq![bump],
{
    let r = vec![bump];
    assert(r@ =~= seq![bump]);
    r
}

/// Seeds (bump included) of the game creator account of `game_creator_auth`;
/// the program signs every token call with them.
pub fn game_creator_seeds(game_creator_auth: &[u8; 32], bump: u8) -> (r: Vec<Vec<u8>>)
    ensures
        seed_bytes(r@) == game_creator_seed_list(game_creator_auth@, bump),
        r@.len() == 4,
        r@[0]@ == PREFIX@,
        r@[1]@ == game_creator_auth@,
        r@[2]@ == CREATOR@,
        r@[3]@ == seq![bump],
{
    let r = vec![
        vstd::slice::slice_to_vec(&PREFIX),
        vstd::slice::slice_to_vec(game_creator_auth),
        vstd::slice::slice_to_vec(&CREATOR),
        bump_seed_bytes(bump),
    ];
    assert(seed_bytes(r@) =~= game_creator_seed_list(game_creator_auth@, bump));
    r
}

/// Seeds (bump included) of the mint of the main game token or of a stat
/// token, created with the signer key `mint_key`.
pub fn game_token_mint_seeds(
    game_creator_auth: &[u8; 32],
    mint_key: &[u8; 32],
    mint: TokenMint,
    bump: u8,
) -> (r: Vec<Vec<u8>>)
    requires
        is_game_token(mint),
    ensures
        seed_bytes(r@) == game_token_mint_seed_list(game_creator_auth@, mint_key@, mint, bump),
        r@.len() == 5,
        r@[0]@ == PREFIX@,
        r@[1]@ == game_creator_auth@,
        r@[2]@ == mint_key@,
        r@[3]@ == game_token_tag(mint),
        r@[4]@ == seq![bump],
{
    let r = vec![
        vstd::slice::slice_to_vec(&PREFIX),
        vstd::slice::slice_to_vec(game_creator_auth),
        vstd::slice::slice_to_vec(mint_key),
        game_token_tag_bytes(mint),
        bump_seed_bytes(bump),
    ];
    assert(seed_bytes(r@) =~= game_token_mint_seed_list(
        game_creator_auth@,
        mint_key@,
        mint,
        bump,
    ));
    r
}

/// Seeds (bump included) of the mint of a mon NFT.
pub fn nft_mint_seeds(game_creator_auth: &[u8; 32], nft_mint_key: &[u8; 32], bump: u8) -> (r: Vec<
    Vec<u8>,
>)
    ensures
        seed_bytes(r@) == nft_mint_seed_list(game_creator_auth@, nft_mint_key@, bump),
        r@.len() == 4,
        r@[0]@ == PREFIX@,
        r@[1]@ == game_creator_auth@,
        r@[2]@ == nft_mint_key@,
        r@[3]@ == seq![bump],
{
    let r = vec![
        vstd::slice::slice_to_vec(&PREFIX),
        vstd::slice::slice_to_vec(game_creator_auth),
        vstd::slice::slice_to_vec(nft_mint_key),
        bump_seed_bytes(bump),
    ];
    assert(seed_bytes(r@) =~= nft_mint_seed_list(game_creator_auth@, nft_mint_key@, bump));
    r
}

/// Seeds (bump included) of a stat token mint chosen by the bytes of the
/// seed string `stat_seed`.
pub fn seeded_stat_mint_seeds(
    game_creator_auth: &[u8; 32],
    stat_mint_key: &[u8; 32],
    stat_seed: &[u8],
    bump: u8,
) -> (r: Vec<Vec<u8>>)
    ensures
        seed_bytes(r@) == seeded_stat_mint_seed_list(
            game_creator_auth@,
            stat_mint_key@,
            stat_seed@,
            bump,
        ),
        r@.len() == 5,
        r@[0]@ == PREFIX@,
        r@[1]@ == game_creator_auth@,
        r@[2]@ == stat_mint_key@,
        r@[3]@ == stat_seed@,
        r@[4]@ == seq![bump],
{
    let r = vec![
        vstd::slice::slice_to_vec(&PREFIX),
        vstd::slice::slice_to_vec(game_creator_auth),
        vstd::slice::slice_to_vec(stat_mint_key),
        vstd::slice::slice_to_vec(stat_seed),
        bump_seed_bytes(bump),
    ];
    assert(seed_bytes(r@) =~= seeded_stat_mint_seed_list(
        game_creator_auth@,
        stat_mint_key@,
        stat_seed@,
        bump,
    ));
    r
}

/// Seeds (bump included) of the game data account of the mon whose NFT
/// mint is `nft_mint_key`.
pub fn mon_state_seeds(nft_mint_key: &[u8; 32], bump: u8) -> (r: Vec<Vec<u8>>)
    ensures
        seed_bytes(r@) == mon_state_seed_list(nft_mint_key@, bump),
        r@.len() == 3,
        r@[0]@ == MON_STATE_SEED@,
        r@[1]@ == nft_mint_key@,
        r@[2]@ == seq![bump],
{
    let r = vec![vstd::slice::slice_to_vec(&MON_STATE_SEED), vstd::slice::slice_to_vec(nft_mint_key), bump_seed_bytes(bump)];
    assert(seed_bytes(r@) =~= mon_state_seed_list(nft_mint_key@, bump));
    r
}

/// The bytes a list of seeds is hashed from: the seeds one after another.
pub open spec fn seed_concat(seeds: Seq<Seq<u8>>) -> Seq<u8> {
    seeds.flatten()
}

proof fn lemma_flatten_three(a: Seq<u8>, b: Seq<u8>, c: Seq<u8>)
    ensures
        seq![a, b, c].flatten() == a + b + c,
{
    let s = seq![a, b, c];
    assert(s.drop_first() =~= seq![b, c]);
    assert(s.drop_first().drop_first() =~= seq![c]);
    assert(s.drop_first().drop_first().drop_first() =~= Seq::<Seq<u8>>::empty());
    assert(seq![c].drop_first() =~= Seq::<Seq<u8>>::empty());
    assert(seq![c].drop_first().flatten() =~= Seq::<u8>::empty());
    assert(seq![c].flatten() =~= c + Seq::<u8>::empty());
    assert(c + Seq::<u8>::empty() =~= c);
    assert(seq![b, c].flatten() =~= b + c);
    assert(s.flatten() =~= a + (b + c));
    assert(a + (b + c) =~= a + b + c);
}

proof fn lemma_flatten_four(a: Seq<u8>, b: Seq<u8>, c: Seq<u8>, d: Seq<u8>)
    ensures
        seq![a, b, c, d].flatten() == a + b + c + d,
{
    let s = seq![a, b, c, d];
    assert(s.drop_first() =~= seq![b, c, d]);
    lemma_flatten_three(b, c, d);
    assert(s.flatten() =~= a + (b + c + d));
    assert(a + (b + c + d) =~= a + b + c + d);
}

proof fn lemma_flatten_five(a: Seq<u8>, b: Seq<u8>, c: Seq<u8>, d: Seq<u8>, e: Seq<u8>)
    ensures
        seq![a, b, c, d, e].flatten() == a + b + c + d + e,
{
    let s = seq![a, b, c, d, e];
    assert(s.drop_first() =~= seq![b, c, d, e]);
    lemma_flatten_four(b, c, d, e);
    assert(s.flatten() =~= a + (b + c + d + e));
    assert(a + (b + c + d + e) =~= a + b + c + d + e);
}

/// The game creator account is told apart by its authority and bump: two
/// authority keys (or bumps) that differ give different seed bytes.
pub proof fn law_game_creator_seeds_injective(
    auth_1: Seq<u8>,
    bump_1: u8,
    auth_2: Seq<u8>,
    bump_2: u8,
)
    requires
        auth_1.len() == 32,
        auth_2.len() == 32,
        seed_concat(game_creator_seed_list(auth_1, bump_1)) == seed_concat(
            game_creator_seed_list(auth_2, bump_2),
        ),
    ensures
        auth_1 == auth_2,
        bump_1 == bump_2,
{
    lemma_flatten_four(prefix_seed(), auth_1, creator_seed(), seq![bump_1]);
    lemma_flatten_four(prefix_seed(), auth_2, creator_seed(), seq![bump_2]);
    let c1 = prefix_seed() + auth_1 + creator_seed() + seq![bump_1];
    let c2 = prefix_seed() + auth_2 + creator_seed() + seq![bump_2];
    assert(c1 == c2);
    assert(c1.subrange(11, 43) =~= auth_1);
    assert(c2.subrange(11, 43) =~= auth_2);
    assert(c1[50] == bump_1);
    assert(c2[50] == bump_2);
}

/// The mints of the main game token and of the three stat tokens never
/// share seed bytes, whatever keys and bumps they are created with: their
/// tags have different lengths.
pub proof fn law_game_token_mints_distinct(
    auth_1: Seq<u8>,
    key_1: Seq<u8>,
    mint_1: TokenMint,
    bump_1: u8,
    auth_2: Seq<u8>,
    key_2: Seq<u8>,
    mint_2: TokenMint,
    bump_2: u8,
)
    requires
        auth_1.len() == 32,
        key_1.len() == 32,
        auth_2.len() == 32,
        key_2.len() == 32,
        is_game_token(mint_1),
        is_game_token(mint_2),
        mint_1 != mint_2,
    ensures
        seed_concat(game_token_mint_seed_list(auth_1, key_1, mint_1, bump_1)) != seed_concat(
            game_token_mint_seed_list(auth_2, key_2, mint_2, bump_2),
        ),
{
    lemma_flatten_five(prefix_seed(), auth_1, key_1, game_token_tag(mint_1), seq![bump_1]);
    lemma_flatten_five(prefix_seed(), auth_2, key_2, game_token_tag(mint_2), seq![bump_2]);
    assert(game_token_tag(mint_1).len() != game_token_tag(mint_2).len());
    let c1 = prefix_seed() + auth_1 + key_1 + game_token_tag(mint_1) + seq![bump_1];
    let c2 = prefix_seed() + auth_2 + key_2 + game_token_tag(mint_2) + seq![bump_2];
    assert(c1.len() == 11 + 32 + 32 + game_token_tag(mint_1).len() + 1);
    assert(c2.len() == 11 + 32 + 32 + game_token_tag(mint_2).len() + 1);
    assert(c1.len() != c2.len());
}

/// The game data account of a mon never shares seed bytes with an account
/// whose seeds start with the game prefix (the game creator and every mint).
pub proof fn law_mon_state_apart_from_game_accounts(
    nft_mint_key: Seq<u8>,
    bump: u8,
    other: Seq<Seq<u8>>,
)
    requires
        other.len() >= 1,
        other[0] == prefix_seed(),
    ensures
        seed_concat(mon_state_seed_list(nft_mint_key, bump)) != seed_concat(other),
{
    lemma_flatten_three(mon_state_seed(), nft_mint_key, seq![bump]);
    assert(other.flatten() == other.first() + other.drop_first().flatten());
    assert((mon_state_seed() + nft_mint_key + seq![bump])[0] == 109);
    assert((prefix_seed() + other.drop_first().flatten())[0] == 99);
}

/// A seeded stat mint whose seed string is a stat token's tag is that stat
/// token's mint: minting stat tokens by seed reaches the game's stat tokens.
pub proof fn law_seeded_stat_mint_is_game_token_mint(
    auth: Seq<u8>,
    key: Seq<u8>,
    mint: TokenMint,
    bump: u8,
)
    requires
        is_game_token(mint),
    ensures
        seeded_stat_mint_seed_list(auth, key, game_token_tag(mint), bump)
            == game_token_mint_seed_list(auth, key, mint, bump),
{
}

/// The bytes the game creator account's address is derived from: the
/// prefix, then the authority key unchanged, then the creator marker, then
/// the bump.
pub proof fn law_game_creator_seed_bytes(game_creator_auth: Seq<u8>, bump: u8)
    requires
        game_creator_auth.len() == 32,
    ensures
        ({
            let c = seed_concat(game_creator_seed_list(game_creator_auth, bump));
            &&& c.len() == 51
            &&& c.subrange(0, 11) == PREFIX@
            &&& c.subrange(11, 43) == game_creator_auth
            &&& c.subrange(43, 50) == CREATOR@
            &&& c[50] == bump
        }),
{
    lemma_flatten_four(prefix_seed(), game_creator_auth, creator_seed(), seq![bump]);
    let c = prefix_seed() + game_creator_auth + creator_seed() + seq![bump];
    assert(c.subrange(0, 11) =~= PREFIX@);
    assert(c.subrange(11, 43) =~= game_creator_auth);
    assert(c.subrange(43, 50) =~= CREATOR@);
}

/// The bytes a game token mint's address is derived from: the prefix, the
/// authority key and the mint key unchanged, the token's tag (`MASS_SEED`,
/// `ENERGY_SEED`, `ORDER_SEED` or `MON_TOKEN_SEED`), then the bump.
pub proof fn law_game_token_mint_seed_bytes(
    game_creator_auth: Seq<u8>,
    mint_key: Seq<u8>,
    mint: TokenMint,
    bump: u8,
)
    requires
        game_creator_auth.len() == 32,
        mint_key.len() == 32,
        is_game_token(mint),
    ensures
        ({
            let c = seed_concat(game_token_mint_seed_list(game_creator_auth, mint_key, mint, bump));
            &&& c.len() == 76 + game_token_tag(mint).len()
            &&& c.subrange(0, 11) == PREFIX@
            &&& c.subrange(11, 43) == game_creator_auth
            &&& c.subrange(43, 75) == mint_key
            &&& c.subrange(75, c.len() - 1) == game_token_tag(mint)
            &&& c[c.len() - 1] == bump
        }),
        mint == TokenMint::MonToken ==> game_token_tag(mint) == MON_TOKEN_SEED@,
        mint == TokenMint::StatToken(StatKind::Mass) ==> game_token_tag(mint) == MASS_SEED@,
        mint == TokenMint::StatToken(StatKind::Energy) ==> game_token_tag(mint) == ENERGY_SEED@,
        mint == TokenMint::StatToken(StatKind::Order) ==> game_token_tag(mint) == ORDER_SEED@,
{
    let t = game_token_tag(mint);
    lemma_flatten_five(prefix_seed(), game_creator_auth, mint_key, t, seq![bump]);
    let c = prefix_seed() + game_creator_auth + mint_key + t + seq![bump];
    assert(c.subrange(0, 11) =~= PREFIX@);
    assert(c.subrange(11, 43) =~= game_creator_auth);
    assert(c.subrange(43, 75) =~= mint_key);
    assert(c.subrange(75, c.len() - 1) =~= t);
}

/// The bytes a mon NFT mint's address is derived from: the prefix, then the
/// authority key and the NFT mint key unchanged, then the bump.
pub proof fn law_nft_mint_seed_bytes(game_creator_auth: Seq<u8>, nft_mint_key: Seq<u8>, bump: u8)
    requires
        game_creator_auth.len() == 32,
        nft_mint_key.len() == 32,
    ensures
        ({
            let c = seed_concat(nft_mint_seed_list(game_creator_auth, nft_mint_key, bump));
            &&& c.len() == 76
            &&& c.subrange(0, 11) == PREFIX@
            &&& c.subrange(11, 43) == game_creator_auth
            &&& c.subrange(43, 75) == nft_mint_key
            &&& c[75] == bump
        }),
{
    lemma_flatten_four(prefix_seed(), game_creator_auth, nft_mint_key, seq![bump]);
    let c = prefix_seed() + game_creator_auth + nft_mint_key + seq![bump];
    assert(c.subrange(0, 11) =~= PREFIX@);
    assert(c.subrange(11, 43) =~= game_creator_auth);
    assert(c.subrange(43, 75) =~= nft_mint_key);
}

/// The bytes a seeded stat mint's address is derived from: the prefix, the
/// authority key and the stat mint key unchanged, the seed string's bytes,
/// then the bump.
pub proof fn law_seeded_stat_mint_seed_bytes(
    game_creator_auth: Seq<u8>,
    stat_mint_key: Seq<u8>,
    stat_seed: Seq<u8>,
    bump: u8,
)
    requires
        game_creator_auth.len() == 32,
        stat_mint_key.len() == 32,
    ensures
        ({
            let c = seed_concat(
                seeded_stat_mint_seed_list(game_creator_auth, stat_mint_key, stat_seed, bump),
            );
            &&& c.len() == 76 + stat_seed.len()
            &&& c.subrange(0, 11) == PREFIX@
            &&& c.subrange(11, 43) == game_creator_auth
            &&& c.subrange(43, 75) == stat_mint_key
            &&& c.subrange(75, c.len() - 1) == stat_seed
            &&& c[c.len() - 1] == bump
        }),
{
    lemma_flatten_five(prefix_seed(), game_creator_auth, stat_mint_key, stat_seed, seq![bump]);
    let c = prefix_seed() + game_creator_auth + stat_mint_key + stat_seed + seq![bump];
    assert(c.subrange(0, 11) =~= PREFIX@);
    assert(c.subrange(11, 43) =~= game_creator_auth);
    assert(c.subrange(43, 75) =~= stat_mint_key);
    assert(c.subrange(75, c.len() - 1) =~= stat_seed);
}

/// The bytes a mon's game data account's address is derived from: the
/// mon-state marker, then the NFT mint key unchanged, then the bump.
pub proof fn law_mon_state_seed_bytes(nft_mint_key: Seq<u8>, bump: u8)
    requires
        nft_mint_key.len() == 32,
    ensures
        ({
            let c = seed_concat(mon_state_seed_list(nft_mint_key, bump));
            &&& c.len() == 42
            &&& c.subrange(0, 9) == MON_STATE_SEED@
            &&& c.subrange(9, 41) == nft_mint_key
            &&& c[41] == bump
        }),
{
    lemma_flatten_three(mon_state_seed(), nft_mint_key, seq![bump]);
    let c = mon_state_seed() + nft_mint_key + seq![bump];
    assert(c.subrange(0, 9) =~= MON_STATE_SEED@);
    assert(c.subrange(9, 41) =~= nft_mint_key);
}

} // verus!
