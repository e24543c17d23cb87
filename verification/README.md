# tycoon

Verified core of the Tycoon Soroban contracts.

- `src/` (Verus): access tiers (`admin`), the cross-contract auth matrix
  (`auth`), upgrade governance (`migration`), storage-rent budgets
  (`storage_rent`), the decision logic of the Tycoon token (`token`), and a
  ledger-level model of the token (`ledger`) in which every entrypoint is
  proved to keep `total_supply == sum of balances`, to move or burn exactly
  what it says, and to succeed exactly on the inputs it should.
- `app/` (plain Rust): the Soroban contract itself and the host-side helpers
  (admin storage, TTL bumps). Each entrypoint authenticates, reads storage,
  asks the library for a decision, writes it back and emits its event.
- `tests/`: tests of the library.
