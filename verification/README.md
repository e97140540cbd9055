# stake

A token staking pool whose accounting is verified with Verus.

- `src/` is the verified library: the pool and user records (`state`), the
  reward formulas (`rewards`), one module per instruction under
  `instructions/` with the accounts it reads and the decision it makes, and
  `laws`, which proves properties that span instructions (the pool total
  equals the sum of user stakes, locked stakes come back in full, a repeated
  claim pays nothing, the rewards owed never exceed what the pool emits, ...).
- `app/` is the Anchor program around it: account constraints, the clock,
  token and metadata CPIs, and events. It calls the `*_is_safe` checks before
  each instruction and aborts where the arithmetic would overflow.
- `tests/` runs the library on concrete pools.
