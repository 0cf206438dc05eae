# mon_maker

Game logic of the mon maker Solana program, verified with Verus.

- `src/` — the verified library:
  - `stats.rs`: statistics of a mon, their conversion to token base units;
  - `state.rs`: the game data of a mon and how its statistics are rolled;
  - `token_calc.rs`: the exchange of stat tokens for the main game token;
  - `instructions.rs`: what each instruction of the program decides: the
    token calls it makes, the state it leaves, the errors it answers with;
  - `seeds.rs`: the seeds of the program-derived accounts;
  - `error.rs`: the program's errors.
- `app/` — the Anchor program around the library: account validation, reads
  of the clock and of balances, the floating-point prices, and the calls into
  the token and metadata programs.
- `tests/` — tests of the library on concrete values.
