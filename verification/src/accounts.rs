//! The accounts each instruction works on, with the values it reads from them.

use vstd::prelude::*;
use crate::state::{BaseAccount, Pubkey};

verus! {

/// Accounts of `initialize`.
pub struct Initialize {
    pub base_account: BaseAccount,
    /// The signer that creates the program and becomes its owner.
    pub user: Pubkey,
}

/// Accounts of `stake`.
pub struct Stake {
    /// The signer that stakes.
    pub holder: Pubkey,
    pub base_account: BaseAccount,
    /// EXO balance of the holder's token account.
    pub my_token_account_amount: u64,
    /// EXO balance of the foundation node's token account.
    pub foundation_node_token_account_amount: u64,
    /// The cluster clock's Unix timestamp.
    pub unix_timestamp: i64,
}

/// Accounts of `unstake`.
pub struct UnStake {
    /// The signer that unstakes.
    pub holder: Pubkey,
    pub base_account: BaseAccount,
    /// The cluster clock's Unix timestamp.
    pub unix_timestamp: i64,
}

/// Accounts of `claim`.
pub struct Claim {
    /// The signer that claims.
    pub holder: Pubkey,
    pub base_account: BaseAccount,
    /// The cluster clock's Unix timestamp.
    pub unix_timestamp: i64,
}

/// Accounts of the owner's settings and of the queries.
pub struct UpdatePauseRoleOrAddressOrInfo {
    pub base_account: BaseAccount,
    /// The signer of the instruction.
    pub user: Pubkey,
}

} // verus!
