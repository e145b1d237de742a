# Investment Vault

A vault that takes USDC deposits for shares (HBS), invests in registered projects, distributes
yield, and redeems shares, written in Rust and verified with Verus.

- `src/` is the library. The vault is a value; every operation is a method whose contract says
  exactly when it is refused and why, what it changes, and what the host is to do. A refused
  operation changes nothing.
  - `types.rs`, `constants.rs`, `state.rs`: the plain values, the limits, the state and its model.
  - `arith.rs`, `tables.rs`, `guards.rs`, `shares.rs`, `assets.rs`: amounts, tables, conditions, the
    ledger of shares, the value of the vault.
  - `deposits.rs`, `withdrawals.rs`, `yields.rs`, `funding.rs`, `investments.rs`, `insurance.rs`,
    `fees.rs`, `admin.rs`, `token.rs`, `flash_loans.rs`, `bridge.rs`, `carbon.rs`, `compliance.rs`:
    the operations.
  - `invariants.rs`: what holds of the vault at all times; each operation keeps it.
  - `laws/`: what the operations promise together.
- `app/` is the vault as a Soroban contract: storage, authorization, tokens and events.
- `tests/` runs the library on concrete values.

One thing is believed without proof: that the host's SHA-256 is a function of the bytes it is given
(`bridge.rs`).
