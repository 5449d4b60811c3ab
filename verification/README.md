# vero_core_contracts

The decision logic of the Vero guardian-consensus contract, verified with
Verus, and the Soroban contract that runs it.

- `src/` holds the verified library. Each entry point of the contract reads
  what it needs from storage and hands it, as plain values, to a function
  here that decides what to answer and what to write back:
  `consensus` (the weighted tally of a task), `contract` (votes, defaults,
  cost estimates), `task`, `drips`, `staking`, `circuit_breaker`,
  `reentrancy`, `address` and `snapshot`. Proof functions named `law_…`
  state the properties that hold across calls.
- `app/` holds the Soroban contract: storage, authorization, events and the
  calls to the token, vault and Drips contracts. The contract's lists (task
  ids, ballots, stream ids) live in host memory as `soroban_sdk::Vec`, which
  only the host environment can read or change; `app/` copies each into a
  `Vec` for the library and writes the library's result back. The
  `soroban-sdk` dependency in `Cargo.toml` is for `app/` alone.
- `tests/` runs the library on concrete scenarios.
