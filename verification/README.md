# xworks_freelance_contract

A freelance marketplace contract for CosmWasm chains: clients post jobs, freelancers
send proposals, payments are held in escrow and released or refunded, parties rate
each other and raise disputes that the admin resolves, and bounties reward the best
submissions. Titles, descriptions and other texts live off-chain; the contract keeps
the SHA-256 hash of each published content bundle.

The contract's logic is written in Verus and proved against its specifications.

## Layout

- `src/` — the verified library.
  - `contract.rs`: `execute` and `query`, with `execute_outcome` / `query_outcome`
    stating what every message does.
  - `jobs.rs`, `job_management.rs`, `escrow.rs`, `escrow_management.rs`,
    `bounty.rs`, `users.rs`, `user_management.rs`, `admin.rs`,
    `admin_management.rs`: the operations, each with a refusal specification
    (which error, on which inputs) and a success specification (the new state and
    the response).
  - `queries.rs`, `query_helpers.rs`: the read-only answers.
  - `state.rs`: the stored records and the well-formedness invariant `wf` that every
    operation keeps.
  - `security.rs`, `helpers.rs`, `contract_helpers.rs`: validation, daily rate
    limits, fee arithmetic.
  - `hash_utils.rs`, `category_skill_manager.rs`, `text.rs`, `decimal.rs`,
    `store.rs` (a string-keyed table kept in key order), `chain.rs` (blocks,
    funds and payments as plain values), `error.rs`.
  - `laws.rs`: properties of the contract as a whole — refused messages change
    nothing, escrows split payments exactly, only the admin refunds, a paid-out
    escrow is not released or refunded again (a dispute resolution can still pay
    it), blocked addresses are refused, and more.
- `tests/` — scenario tests run against the compiled library.
- `app/` — the CosmWasm entry points: JSON messages and answers, storage of the
  state, address validation, and conversion of payments into bank and CW20
  messages.
