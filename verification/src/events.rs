//! What an instruction hands back: its error codes, the events it logs and the
//! token transfers and mints it asks the token programs for.

use vstd::prelude::*;
use crate::state::Pubkey;

verus! {

#[derive(Clone, Copy, Debug, PartialEq, Eq)]
pub struct StakeExo {
    pub holder: Pubkey,
    pub amount: u64,
    pub interest_rate: u8,
}

#[derive(Clone, Copy, Debug, PartialEq, Eq)]
pub struct UnStakeExo {
    pub holder: Pubkey,
    pub amount: u64,
    pub interest_rate: u8,
}

#[derive(Clone, Copy, Debug, PartialEq, Eq)]
pub struct GCREDAddressUpdated {
    pub gcred_address: Pubkey,
}

#[derive(Clone, Copy, Debug, PartialEq, Eq)]
pub struct FoundationNodeUpdated {
    pub foundation_node: Pubkey,
}

#[derive(Clone, Copy, Debug, PartialEq, Eq)]
pub struct ClaimGCRED {
    pub holder: Pubkey,
    pub amount: u64,
}

#[derive(Clone, Copy, Debug, PartialEq, Eq)]
pub struct ClaimExo {
    pub holder: Pubkey,
    pub reward: u64,
    pub interest_rate: u8,
}

#[derive(Clone, Copy, Debug, PartialEq, Eq)]
pub struct ClaimFN {
    pub holder: Pubkey,
    pub reward_amount: u64,
}

#[derive(Clone, Copy, Debug, PartialEq, Eq)]
pub struct ExoAddressUpdated {
    pub exo_address: Pubkey,
}

/// A logged event.
#[derive(Clone, Copy, Debug, PartialEq, Eq)]
pub enum Event {
    StakeExo(StakeExo),
    UnStakeExo(UnStakeExo),
    GCREDAddressUpdated(GCREDAddressUpdated),
    FoundationNodeUpdated(FoundationNodeUpdated),
    ClaimGCRED(ClaimGCRED),
    ClaimExo(ClaimExo),
    ClaimFN(ClaimFN),
    ExoAddressUpdated(ExoAddressUpdated),
}

/// One step that an instruction asks to be carried out, in order, after it
/// has updated the base account. A step that fails aborts the instruction.
#[derive(Clone, Copy, Debug, PartialEq, Eq)]
pub enum Effect {
    /// Move `amount` EXO from the holder to the base account, signed by the holder.
    TransferExoToBase { holder: Pubkey, amount: u64 },
    /// Move `amount` EXO from the base account back to the holder, signed by the base account.
    TransferExoToHolder { holder: Pubkey, amount: u64 },
    /// Mint `amount` EXO to `to`.
    MintExo { to: Pubkey, amount: u64 },
    /// Mint `amount` GCRED to `to` as a staking reward.
    MintGcred { to: Pubkey, amount: u64 },
    /// Log an event.
    Emit(Event),
}

/// Why an instruction was refused.
#[derive(Clone, Copy, Debug, PartialEq, Eq)]
pub enum ErrorCode {
    NotOwnerAccount,
    NotEnoughExoToken,
    DurationNotMatch,
    ErrorForPause,
    InvalidStakingIndex,
    UnStakingFailed,
}

impl ErrorCode {
    pub open spec fn spec_msg(self) -> &'static str {
        match self {
            ErrorCode::NotOwnerAccount => "You must be owner!",
            ErrorCode::NotEnoughExoToken => "Not enough EXO token to stake!",
            ErrorCode::DurationNotMatch => "Duration does not match",
            ErrorCode::ErrorForPause => "The contract is paused!",
            ErrorCode::InvalidStakingIndex => "Invalid staking index!",
            ErrorCode::UnStakingFailed => "Cannot unstake!",
        }
    }

    /// The message shown for the error.
    pub fn msg(&self) -> (m: &'static str)
        ensures
            m == self.spec_msg(),
    {
        match self {
            ErrorCode::NotOwnerAccount => "You must be owner!",
            ErrorCode::NotEnoughExoToken => "Not enough EXO token to stake!",
            ErrorCode::DurationNotMatch => "Duration does not match",
            ErrorCode::ErrorForPause => "The contract is paused!",
            ErrorCode::InvalidStakingIndex => "Invalid staking index!",
            ErrorCode::UnStakingFailed => "Cannot unstake!",
        }
    }
}

} // verus!
