# stellar_insure

Verified core of a parametric insurance contract for Stellar (Soroban).

- `src/premium.rs` — actuarial premium pricing in integer fixed-point
  arithmetic, with an exact contract and proofs of the minimum floor,
  the error conditions, monotonicity and the one-year identity.
- `src/storage.rs` — the ledger key layout (`ADMIN`, `POLICY_CTR`,
  `POLICY_<id>`, `CLAIM_<id>`) with a proof that keys never collide,
  and the reporting of lookups.
- `src/oracle.rs` — condition oracles.
- `src/types.rs` — policy and claim records, errors.
- `app/` — the host-facing layer: Soroban-encoded copies of the records and
  the storage accessors that call the host.
