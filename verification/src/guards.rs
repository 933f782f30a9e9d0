//! Tests of whether an instruction stays within the integer ranges, list
//! bounds and counters it relies on. An instruction is only run where its
//! test holds; elsewhere it fails without touching the account.

use vstd::prelude::*;
use crate::accounts::{Claim, Stake, UnStake, UpdatePauseRoleOrAddressOrInfo};
use crate::amount::{parse_u64, spec_parse_u64};
use crate::lookup::{lemma_filter_take_step, lemma_total_staked_prefix, locate_stake, tier_value_of};
use crate::model::{
    claim_refusal, claim_target, indices_below_max, rewards_fit, stake_fits, stake_refusal,
    stakes_of, total_staked, unstake_fits, unstake_refusal,
};
use crate::rates::{get_exo_reward_apr, get_fn_reward_percent, get_gcred_return, get_staking_period};
use crate::state::{BaseAccount, Pubkey, StakingInfo};

verus! {

/// No stake of `holder` carries the largest stake number.
fn indices_below_max_exec(infos: &Vec<StakingInfo>, holder: &Pubkey) -> (r: bool)
    ensures
        r == indices_below_max(infos@, *holder),
{
    let mut i: usize = 0;
    while i < infos.len()
        invariant
            i <= infos.len(),
            forall|j: int|
                0 <= j < i && #[trigger] infos@[j].holder == *holder ==> infos@[j].index < u16::MAX,
        decreases infos.len() - i,
    {
        if infos[i].holder.same_as(holder) && infos[i].index == u16::MAX {
            assert(infos@[i as int].holder == *holder);
            return false;
        }
        i = i + 1;
    }
    true
}

/// Whether an accepted stake stays in range.
fn stake_fits_exec(b: &BaseAccount, holder: &Pubkey, duration: u8, now: i64, fn_balance: u64) -> (r:
    bool)
    requires
        duration < 4,
    ensures
        r == stake_fits(b@, *holder, duration, now, fn_balance),
{
    let tier = tier_value_of(&b.tier, holder);
    let class: u16 = tier as u16 * 4 + duration as u16;
    if class > 255 {
        return false;
    }
    if holder.same_as(&b.foundation_node) {
        return fn_balance.checked_mul(75).is_some();
    }
    if class >= 16 {
        return false;
    }
    if !indices_below_max_exec(&b.staking_infos, holder) {
        return false;
    }
    let period = get_staking_period();
    if now.checked_add(period[duration as usize]).is_none() {
        return false;
    }
    b.total_staking < u64::MAX && b.interest_holder_counter[class as usize] < u32::MAX
}

/// Whether `stake` can run on these arguments.
pub fn stake_is_safe(ctx: &Stake, amount: &String, duration: u8) -> (r: bool)
    ensures
        r == (spec_parse_u64(amount@) is Some && (stake_refusal(
            ctx.base_account@,
            spec_parse_u64(amount@).unwrap(),
            ctx.my_token_account_amount,
            duration,
        ) is None ==> stake_fits(
            ctx.base_account@,
            ctx.holder,
            duration,
            ctx.unix_timestamp,
            ctx.foundation_node_token_account_amount,
        ))),
{
    let value = match parse_u64(amount.as_str()) {
        Some(v) => v,
        None => {
            return false;
        },
    };
    if ctx.base_account.paused || value > ctx.my_token_account_amount || duration >= 4 {
        return true;
    }
    stake_fits_exec(
        &ctx.base_account,
        &ctx.holder,
        duration,
        ctx.unix_timestamp,
        ctx.foundation_node_token_account_amount,
    )
}


/// Whether settling the rewards of `s` stays in range.
fn rewards_fit_exec(b: &BaseAccount, s: &StakingInfo, now: i64) -> (r: bool)
    ensures
        r == rewards_fit(b@, *s, now),
{
    let end: i64 = if now >= s.expire_date {
        s.expire_date
    } else {
        now
    };
    let staked_days: i64 = match end.checked_sub(s.start_date) {
        Some(d) => d,
        None => {
            return false;
        },
    };
    if staked_days <= s.claim_day {
        return true;
    }
    if s.interest_rate >= 16 {
        return false;
    }
    let days: i64 = match staked_days.checked_sub(s.claim_day) {
        Some(d) => d,
        None => {
            return false;
        },
    };
    let days_u: u64 = days as u64;
    let apr = get_exo_reward_apr(s.interest_rate) as u64;
    let exo_product = match s.amount.checked_mul(apr) {
        Some(p) => p,
        None => {
            return false;
        },
    };
    let exo_full = match exo_product.checked_mul(days_u) {
        Some(p) => p,
        None => {
            return false;
        },
    };
    let exo = exo_full / 365000 / (3600 * 24);
    let gcred = get_gcred_return(s.interest_rate) as u64;
    let gcred_product = match s.amount.checked_mul(gcred) {
        Some(p) => p,
        None => {
            return false;
        },
    };
    if gcred_product.checked_mul(days_u).is_none() {
        return false;
    }
    let total = match b.total_reward_amount.checked_add(exo) {
        Some(t) => t,
        None => {
            return false;
        },
    };
    let holders = b.interest_holder_counter[s.interest_rate as usize];
    let share: u64 = if holders == 0 {
        0
    } else {
        let percent = get_fn_reward_percent();
        match b.fn_reward.checked_mul(percent[s.interest_rate as usize] as u64) {
            Some(p) => p / holders as u64 / 1000,
            None => {
                return false;
            },
        }
    };
    let fn_amount = match share.checked_mul(days_u) {
        Some(a) => a,
        None => {
            return false;
        },
    };
    total.checked_add(fn_amount).is_some()
}

/// Whether `unstake` can run on these arguments.
pub fn unstake_is_safe(ctx: &UnStake, staking_index: u16) -> (r: bool)
    ensures
        r == ((!ctx.base_account.paused ==> {
            &&& ctx.base_account.staking_infos.len() > 0
            &&& ctx.base_account.tier.len() > 0
            &&& ctx.base_account.tier_candidate.len() > 0
        }) && (unstake_refusal(ctx.base_account@, ctx.holder, staking_index, ctx.unix_timestamp)
            is None ==> unstake_fits(
            ctx.base_account@,
            ctx.holder,
            staking_index,
            ctx.unix_timestamp,
        ))),
{
    let b = &ctx.base_account;
    if b.paused {
        return true;
    }
    if b.staking_infos.len() == 0 || b.tier.len() == 0 || b.tier_candidate.len() == 0 {
        return false;
    }
    let now = ctx.unix_timestamp;
    let (max_length, target) = locate_stake(
        &b.staking_infos,
        &ctx.holder,
        staking_index,
        b.staking_infos[0],
    );
    if max_length <= staking_index {
        return true;
    }
    if now < target.expire_date && target.interest_rate % 4 != 0 {
        return true;
    }
    rewards_fit_exec(b, &target, now) && target.interest_rate < 16
        && b.interest_holder_counter[target.interest_rate as usize] >= 1 && (max_length as usize)
        <= b.staking_infos.len() && b.total_staking >= 1
}

/// Whether `claim` can run on these arguments.
pub fn claim_is_safe(ctx: &Claim, staking_index: u16) -> (r: bool)
    ensures
        r == (claim_refusal(ctx.base_account@, ctx.holder, staking_index) is None ==> rewards_fit(
            ctx.base_account@,
            claim_target(ctx.base_account@, ctx.holder, staking_index),
            ctx.unix_timestamp,
        )),
{
    let b = &ctx.base_account;
    if b.paused {
        return true;
    }
    let (max_length, target) = locate_stake(
        &b.staking_infos,
        &ctx.holder,
        staking_index,
        StakingInfo::default(),
    );
    if max_length <= staking_index {
        return true;
    }
    rewards_fit_exec(b, &target, ctx.unix_timestamp)
}

/// Whether the total staked by `holder` fits in 64 bits.
pub fn total_is_safe(ctx: &UpdatePauseRoleOrAddressOrInfo, holder: Pubkey) -> (r: bool)
    ensures
        r == (total_staked(ctx.base_account@.staking_infos, holder) <= u64::MAX),
{
    let infos = &ctx.base_account.staking_infos;
    let mut amount: u64 = 0;
    let mut i: usize = 0;
    assert(infos@.take(0) =~= Seq::<StakingInfo>::empty());
    proof {
        reveal_with_fuel(Seq::filter, 1);
    }
    while i < infos.len()
        invariant
            i <= infos.len(),
            infos@ == ctx.base_account@.staking_infos,
            amount == total_staked(infos@.take(i as int), holder),
        decreases infos.len() - i,
    {
        proof {
            lemma_filter_take_step(infos@, holder, i as int);
            lemma_total_staked_prefix(infos@, holder, i + 1);
            let f = stakes_of(infos@.take(i as int), holder);
            assert(f.push(infos@[i as int]).drop_last() =~= f);
        }
        if infos[i].holder.same_as(&holder) {
            amount = match amount.checked_add(infos[i].amount) {
                Some(a) => a,
                None => {
                    assert(total_staked(infos@.take(i + 1), holder) == amount + infos@[i as int].amount);
                    return false;
                },
            };
        }
        i = i + 1;
    }
    assert(infos@.take(infos.len() as int) =~= infos@);
    true
}

} // verus!
