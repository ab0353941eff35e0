# escrow

Milestone escrow between a client and a freelancer: funded deposits,
approval-gated milestone releases with a protocol fee, refunds of unreleased
milestones, arbiter-resolved disputes, finalization records, reputation,
client migration, governance-admin rotation with a timelock, and pause and
emergency controls.

- `src/` is the verified library. `Escrow` holds the whole state; every
  operation is specified over its model `EscrowView`: it either fails with the
  first error of a fixed chain of checks and changes nothing, or applies
  exactly the stated effect. Token movements are returned as `Transfer`
  values (inside release, refund and resolution receipts) for the host to
  carry out. `src/laws.rs` states properties that span operations.
- `app/` is the Soroban contract around the library: storage, caller
  authorization, token transfers, events, and ledger copies of the types.
- `tests/` exercise the library on concrete scenarios.
