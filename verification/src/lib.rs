//! The logic of a token staking program: holders stake EXO for one of four
//! durations, earn EXO, GCRED and a share of the foundation node's reward by
//! interest-rate class, claim and unstake; the owner pauses the program, sets
//! addresses and tiers. Instructions work on plain account values and return
//! the token transfers, mints and events they call for.

pub mod state;
pub mod rates;
pub mod events;
pub mod accounts;
pub mod amount;
pub mod model;
pub mod lookup;
pub mod program;
pub mod laws;
pub mod guards;
