//! Rate tables and the reward formula.

use vstd::prelude::*;

verus! {

/// Minimum stake needed to be promoted into each tier.
pub open spec fn tier_amount_table() -> Seq<u64> {
    seq![0u64, 2000000000000000u64, 4000000000000000u64, 8000000000000000u64]
}

/// Lock period, in seconds, of each staking duration.
pub open spec fn staking_period_table() -> Seq<i64> {
    seq![0i64, 2592000i64, 5184000i64, 7776000i64]
}

/// Yearly EXO reward, in tenths of a percent, of each interest-rate class.
pub open spec fn exo_reward_apr_table() -> Seq<u8> {
    seq![50u8, 55, 60, 65, 60, 65, 70, 75, 60, 65, 70, 75, 60, 65, 70, 75]
}

/// Share of the foundation-node reward, in tenths of a percent, of each interest-rate class.
pub open spec fn fn_reward_percent_table() -> Seq<u8> {
    seq![0u8, 0, 0, 0, 30, 60, 85, 115, 40, 70, 95, 125, 50, 80, 105, 145]
}

/// Daily GCRED return, in millionths, of each interest-rate class.
pub open spec fn gcred_return_table() -> Seq<u16> {
    seq![0u16, 0, 0, 242, 0, 0, 266, 354, 0, 0, 293, 390, 0, 0, 322, 426]
}

pub fn get_tier_amount() -> (v: Vec<u64>)
    ensures
        v@ == tier_amount_table(),
{
    vec![0, 2000000000000000, 4000000000000000, 8000000000000000]
}

pub fn get_staking_period() -> (v: Vec<i64>)
    ensures
        v@ == staking_period_table(),
{
    vec![0, 30 * 3600 * 24, 60 * 3600 * 24, 90 * 3600 * 24]
}

pub fn get_exo_reward_apr(interest_rate: u8) -> (r: u8)
    requires
        interest_rate < 16,
    ensures
        r == exo_reward_apr_table()[interest_rate as int],
{
    let exo_reward_apr: Vec<u8> = vec![50, 55, 60, 65, 60, 65, 70, 75, 60, 65, 70, 75, 60, 65, 70, 75];
    exo_reward_apr[interest_rate as usize]
}

pub fn get_fn_reward_percent() -> (v: Vec<u8>)
    ensures
        v@ == fn_reward_percent_table(),
{
    vec![0, 0, 0, 0, 30, 60, 85, 115, 40, 70, 95, 125, 50, 80, 105, 145]
}

pub fn get_gcred_return(interest: u8) -> (r: u16)
    requires
        interest < 16,
    ensures
        r == gcred_return_table()[interest as int],
{
    let gcred_return: Vec<u16> = vec![0, 0, 0, 242, 0, 0, 266, 354, 0, 0, 293, 390, 0, 0, 322, 426];
    gcred_return[interest as usize]
}

/// The EXO reward for `amount` staked `reward_days` seconds at a yearly rate of
/// `percent` tenths of a percent; the day count is taken as an unsigned number.
pub open spec fn spec_cal_reward(amount: u64, percent: u64, reward_days: i64) -> int {
    (amount * percent * (reward_days as u64)) as int / 365000 / 86400
}

/// The reward products fit in 64 bits.
pub open spec fn cal_reward_fits(amount: u64, percent: u64, reward_days: i64) -> bool {
    &&& amount * percent <= u64::MAX
    &&& amount * percent * (reward_days as u64) <= u64::MAX
}

pub fn cal_reward(amount: u64, percent: u64, reward_days: i64) -> (r: u64)
    requires
        cal_reward_fits(amount, percent, reward_days),
    ensures
        r == spec_cal_reward(amount, percent, reward_days),
{
    amount * percent * reward_days as u64 / 365000 / (3600 * 24)
}

} // verus!
