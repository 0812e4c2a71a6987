# primar

Three Soroban contracts for agent-to-agent service payments on Stellar,
with their logic verified in Verus:

- `registry`: providers register a service id with a price per call, then
  reprice it and change its lifecycle status; admin pause; events.
- `budget`: owners set per-agent session and task caps; payments are checked
  against them.
- `settlement`: payers record payments under unique transaction ids; the
  protocol fee is computed in basis points.

## Layout

- `src/` is the verified library. Each contract is a struct holding its
  storage as plain values (`src/<contract>/mod.rs`), with one method per entry
  point. Every mutating method's contract is a spec predicate
  `<method>_effect` relating the storage and the invocation (`host::Env`:
  ledger time, demanded authorizations, published events, lifetime
  extensions) before and after the call. `src/<contract>/laws.rs` proves what
  holds across calls. `src/symbol_map.rs` is the persistent storage of one
  record type, keyed by symbol.
- `app/` holds the Soroban entry points (`#[contract]`, `#[contractimpl]`,
  `#[contracttype]`, `#[contracterror]`). Each loads the ledger entries that
  the call reads into the library's storage value, runs the verified method,
  demands the authorizations it lists (the host aborts the invocation when one
  is missing), writes back what changed, and publishes the events.
- `tests/` runs the library.
