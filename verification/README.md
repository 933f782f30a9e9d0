# staking_reward

The logic of a token staking program, verified with Verus. Holders stake EXO
for one of four durations; the stake's interest-rate class (tier times four
plus duration) sets its EXO, GCRED and foundation-node rewards, which are paid
out on `claim` and `unstake`. The owner pauses the program and sets its
addresses and tiers.

Each instruction in `src/program.rs` takes its accounts as plain values,
refuses or updates the base account, and returns the token transfers, mints
and events to carry out. Its contract states the result over the spec
functions of `src/model.rs`; `src/laws.rs` proves properties that span
instructions, and `src/guards.rs` tests the range conditions the instructions
rely on.

`app/` is the on-chain program: it reads the accounts, runs the library's
instructions, stores the base account and makes the token program calls.
It needs the `exo_token` and `gcred_token` programs' client crates, which are
not part of this repository.
