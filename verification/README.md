# stellar_trust

Verified core of the StellarTrust governance contract, written in Verus.

- `src/model.rs` - the abstract governance state (`GovView`) and, for every
  operation, a function from state and arguments to the next state and the
  returned value (`None` where the operation aborts on arithmetic overflow).
- `src/governance.rs` - `GovernanceContract`, the executable state machine:
  proposals (create, vote, finalize, execute, cancel), configuration, the
  arbitrator stake registry (stake, withdraw, slash) and jury pools (create,
  vote, resolve, distribute). Each operation is proved to produce exactly what
  the model prescribes and to keep the state invariant. The ledger time and
  token balances are arguments; token movements come back as `TokenTransfer`
  values.
- `src/laws.rs` - properties across operations: the invariant is kept by every
  operation, a voter is counted at most once, executed proposals and jury
  resolutions are final, tallies only grow, stakes stay positive, and more.
- `src/auth.rs` - the multi-signature admin threshold check.
- `src/escrow_errors.rs` - escrow error codes and their round trip.
- `app/` - the Soroban contract around the library: storage, authorization,
  token calls and events.
