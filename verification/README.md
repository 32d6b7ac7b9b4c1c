# graveyield

Verified core of the GraveYield protocol: the scanner program, which decides
whether an AMM pool is derelict (six criteria, two phases an epoch gap
apart) and records eligibility anchors and certificates, and the vault
program, which gates salvages on those certificates, records them and
accounts for LP-holder claims.

- `src/` holds the library. Each instruction is a function from the
  accounts it reads (as plain values) and the clock to the accounts it
  writes and the events it emits, with a contract checked by Verus.
  `src/laws.rs` states the properties that span instructions.
  `src/spl_token.rs` holds the trusted calls into `anchor_spl` that decode
  SPL token accounts and mints.
- `app/` is the on-chain glue: Anchor account layouts and validation,
  clock and rent reads, the vault-creation call, and event emission.
- `tests/` exercises the library on concrete values.
