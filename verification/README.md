# inverse_arena

Verified game logic of the Inverse Arena Soroban contracts: a minority-wins
elimination game whose entry fees earn yield in a real-world-asset vault
while the game runs.

Layout:

- `src/` - the library, verified with Verus. Each contract is a state value
  whose entry points are transitions with contracts:
  - `yield_arena/` - the arena whose principal sits in a yield vault
    (commit-reveal rounds, minority-wins eliminations, yield snapshots,
    prize claim);
  - `fee_arena/` - the arena that takes a platform fee, with creator stakes,
    slashing, refunds and RWA yield records;
  - `factory.rs`, `staking.rs`, `payout.rs`, `rwa_adapter.rs`, `oracle.rs`,
    `admin_transfer.rs` - the supporting contracts;
  - `digest.rs` - the SHA-256 host function, behind a trusted wrapper;
  - `*/laws.rs` and the `law_*` proof functions - properties that hold over
    several entry points or over every state.
- `tests/` - tests that run the compiled library.
- `app/` - host glue (not verified): address mapping, authorization, token
  movements, oracle and vault calls, deployment and event publication.
