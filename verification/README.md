# revora_contracts

Verified security assertions for a revenue-share contract.

- `src/error.rs`: the `RevoraError` enum and its stable numeric codes
  (`code()`), with proofs that the codes are distinct and contiguous.
- `src/security_assertions/`: guards returning `Result<(), RevoraError>`:
  `input_validation` (basis points, amounts, period ids, multisig
  thresholds, distinct addresses), `auth_boundaries` (only the proposed
  party may accept a handoff), `state_consistency` (pending transfers and
  rotations, offering existence, duplicate deposits, claims, blacklist,
  freeze, payment-token lock), `safe_math` (checked and saturating `i128`
  arithmetic, share computation) and `abort_handling` (recoverable versus
  fatal errors, recovery with defaults).
- `src/operations.rs`: the operations generated for property tests, over
  plain stand-ins for addresses and symbols, their value rules, and the
  per-offering period-ordering check that filters operation sequences.
- `src/periods.rs`: a strictly increasing schedule of period identifiers.

Every public function states its result exactly in its `ensures` clause;
the laws that relate functions are public proof functions next to them.
`app/` holds property-test generators and host-level authorization
checkpoints that need `proptest` and `soroban-sdk`.
