# test_suites

Verified bookkeeping for the Soroban test fixture of the Orbit protocol tests.

- `src/token.rs`: `TokenIndex`, the slot of each test token, and indexing of
  token lists by it.
- `src/ledger.rs`: the ledger parameters the fixture sets, the first ledger,
  and time travel (`after_jump`, `after_jump_with_sequence`), with their laws.
- `src/setup.rs`: the amounts and prices the fixture starts the backstop and
  the mock oracle with.
- `src/storage.rs`: the pool storage keys the fixture reads, and emission
  stream indices.
- `src/fixture.rs`: `TestFixture`, `PoolFixture`, `PairFixture`: the pool and
  pair registries, reserve recording, and planning of pool storage reads.
- `src/host.rs`: the Soroban types and calls the library relies on.
- `app/lib.rs`: starting the environment, configuring the mock oracle, and
  performing the storage reads the library plans.
