//! The program's instructions. Each takes its accounts, checks the request,
//! updates the base account, and hands back the transfers, mints and events
//! that go with it, to be carried out in order.

use vstd::prelude::*;
use crate::accounts::{Claim, Initialize, Stake, UnStake, UpdatePauseRoleOrAddressOrInfo};
use crate::amount::{parse_u64, spec_parse_u64};
use crate::events::{
    ClaimExo, ClaimFN, ClaimGCRED, Effect, ErrorCode, Event, ExoAddressUpdated,
    FoundationNodeUpdated, GCREDAddressUpdated, StakeExo, UnStakeExo,
};
use crate::lookup::{
    assign_tier, collect_stakes, locate_stake, mark_candidates, next_stake_number, sum_stakes,
    tier_value_of,
};
use crate::model::{
    account_after_claim, account_after_stake, account_after_unstake, claim_refusal, claim_target,
    reward_effects, reward_total, rewards_fit, stake_effects, stake_fits, stake_refusal, stakes_of,
    tier_of, tiers_after_set, total_staked, unstake_effects, unstake_fits, unstake_refusal,
};
use crate::rates::{
    cal_reward, get_exo_reward_apr, get_fn_reward_percent, get_gcred_return, get_staking_period,
    get_tier_amount,
};
use crate::state::{
    lemma_counter_sum_update, BaseAccount, BaseAccountView, Pubkey, StakingInfo, TierCandiate,
};

verus! {

/// Counts the rewards a stake has earned since it was last settled into the
/// base account and appends the mints and events that pay them out.
fn settle_rewards(
    base: &mut BaseAccount,
    holder: Pubkey,
    target: StakingInfo,
    now: i64,
    effects: &mut Vec<Effect>,
)
    requires
        rewards_fit(old(base)@, target, now),
    ensures
        final(base)@ == (BaseAccountView {
            total_reward_amount: (old(base)@.total_reward_amount + reward_total(
                old(base)@,
                target,
                now,
            )) as u64,
            ..old(base)@
        }),
        final(effects)@ == old(effects)@ + reward_effects(old(base)@, holder, target, now),
{
    let ghost b = base@;
    let ghost start = effects@;
    let cur_date: i64 = if now >= target.expire_date {
        target.expire_date
    } else {
        now
    };
    let staked_days: i64 = cur_date - target.start_date;
    if staked_days > target.claim_day {
        let reward_days: i64 = staked_days - target.claim_day;
        let reward_apr = get_exo_reward_apr(target.interest_rate);
        let reward = cal_reward(target.amount, reward_apr as u64, reward_days);
        base.total_reward_amount = base.total_reward_amount + reward;
        effects.push(Effect::MintExo { to: holder, amount: reward });

        let gcred_return = get_gcred_return(target.interest_rate);
        let gcred_reward = (target.amount * gcred_return as u64 * reward_days as u64) / 1000000;
        effects.push(Effect::MintGcred { to: holder, amount: gcred_reward });
        effects.push(Effect::Emit(Event::ClaimGCRED(ClaimGCRED { holder, amount: gcred_reward })));
        effects.push(
            Effect::Emit(
                Event::ClaimExo(ClaimExo { holder, reward, interest_rate: target.interest_rate }),
            ),
        );

        let fn_reward_percent = get_fn_reward_percent();
        let holders = base.interest_holder_counter[target.interest_rate as usize];
        let reward_amount_fn: u64 = if holders == 0 {
            0
        } else {
            base.fn_reward * fn_reward_percent[target.interest_rate as usize] as u64 / holders as u64
                / 1000
        };
        let reward_amount = reward_amount_fn * reward_days as u64;
        base.total_reward_amount = base.total_reward_amount + reward_amount;
        if reward_amount > 0 {
            effects.push(Effect::MintExo { to: holder, amount: reward_amount });
            effects.push(
                Effect::Emit(Event::ClaimFN(ClaimFN { holder, reward_amount })),
            );
        }
        assert(base@ =~= BaseAccountView {
            total_reward_amount: (b.total_reward_amount + reward_total(b, target, now)) as u64,
            ..b
        });
        assert(effects@ =~= start + reward_effects(b, holder, target, now));
    } else {
        assert(effects@ =~= start + reward_effects(b, holder, target, now));
    }
}

/// Stakes `amount` EXO (a decimal string) for one of the four durations.
/// The foundation node's stake only sets its daily reward from its token
/// balance; any other holder's stake is recorded with its interest-rate class
/// (from the holder's tier and the duration), counted in that class, and may
/// make the holder a candidate for the next tier. Either way the amount moves
/// from the holder to the base account.
pub fn stake(ctx: &mut Stake, amount: String, duration: u8) -> (res: Result<Vec<Effect>, ErrorCode>)
    requires
        spec_parse_u64(amount@) is Some,
        stake_refusal(
            old(ctx).base_account@,
            spec_parse_u64(amount@).unwrap(),
            old(ctx).my_token_account_amount,
            duration,
        ) is None ==> stake_fits(
            old(ctx).base_account@,
            old(ctx).holder,
            duration,
            old(ctx).unix_timestamp,
            old(ctx).foundation_node_token_account_amount,
        ),
    ensures
        ({
            let b = old(ctx).base_account@;
            let holder = old(ctx).holder;
            let value = spec_parse_u64(amount@).unwrap();
            match stake_refusal(b, value, old(ctx).my_token_account_amount, duration) {
                Some(e) => res == Err::<Vec<Effect>, ErrorCode>(e) && final(ctx).base_account@ == b,
                None => {
                    &&& res matches Ok(effects)
                    &&& effects@ == stake_effects(b, holder, value, duration)
                    &&& final(ctx).base_account@ == account_after_stake(
                        b,
                        holder,
                        value,
                        duration,
                        old(ctx).unix_timestamp,
                        old(ctx).foundation_node_token_account_amount,
                    )
                },
            }
        }),
        final(ctx).holder == old(ctx).holder,
        final(ctx).my_token_account_amount == old(ctx).my_token_account_amount,
        final(ctx).foundation_node_token_account_amount == old(
            ctx,
        ).foundation_node_token_account_amount,
        final(ctx).unix_timestamp == old(ctx).unix_timestamp,
        old(ctx).base_account@.wf() ==> final(ctx).base_account@.wf(),
{
    let amount: u64 = parse_u64(amount.as_str()).unwrap();
    if ctx.base_account.paused {
        return Err(ErrorCode::ErrorForPause);
    }
    if amount > ctx.my_token_account_amount {
        return Err(ErrorCode::NotEnoughExoToken);
    }
    if duration >= 4 {
        return Err(ErrorCode::DurationNotMatch);
    }
    let ghost b = ctx.base_account@;
    let holder = ctx.holder;
    let now = ctx.unix_timestamp;
    let tier_holder = tier_value_of(&ctx.base_account.tier, &holder);
    let interest_rate: u8 = tier_holder * 4 + duration;

    if holder.same_as(&ctx.base_account.foundation_node) {
        ctx.base_account.fn_reward = ctx.foundation_node_token_account_amount * 75 / 1000 / 365;
    } else {
        let min_amount = get_tier_amount();
        let period = get_staking_period();
        let index = next_stake_number(&ctx.base_account.staking_infos, &holder);
        let new_staking_info = StakingInfo {
            holder,
            amount,
            start_date: now,
            expire_date: now + period[duration as usize],
            duration: duration as i64 * 3600 * 24,
            claim_day: 0,
            interest_rate,
            index,
        };
        ctx.base_account.staking_infos.push(new_staking_info);
        ctx.base_account.total_staking = ctx.base_account.total_staking + 1;
        let class = interest_rate as usize;
        let holders = ctx.base_account.interest_holder_counter[class];
        ctx.base_account.interest_holder_counter[class] = holders + 1;
        if tier_holder < 3 && amount > min_amount[tier_holder as usize + 1] && duration > tier_holder {
            mark_candidates(&mut ctx.base_account.tier_candidate, &holder);
            ctx.base_account.tier_candidate.push(TierCandiate { address: holder, value: false });
        }
    }
    proof {
        let after = account_after_stake(
            b,
            holder,
            amount,
            duration,
            now,
            ctx.foundation_node_token_account_amount,
        );
        assert(ctx.base_account@ =~= after);
        if b.wf() && holder != b.foundation_node {
            let class = interest_rate as int;
            lemma_counter_sum_update(
                b.interest_holder_counter,
                class,
                (b.interest_holder_counter[class] + 1) as u32,
            );
        }
    }
    let mut effects: Vec<Effect> = Vec::new();
    effects.push(Effect::TransferExoToBase { holder, amount });
    effects.push(Effect::Emit(Event::StakeExo(StakeExo { holder, amount, interest_rate })));
    assert(effects@ =~= stake_effects(b, holder, amount, duration));
    Ok(effects)
}

/// Withdraws a stake. The stake of the holder numbered `staking_index` (or,
/// when there is none, the first stake of the list) is settled: its rewards
/// are paid out and one holder fewer is counted in its class. The holder's
/// last stake number then names, counted from one, the list position whose
/// stake is paid back to the holder, and the last stake of the list is
/// removed. Withdrawing also needs the first entries of the tier and
/// tier-candidate lists to exist.
pub fn unstake(ctx: &mut UnStake, staking_index: u16) -> (res: Result<Vec<Effect>, ErrorCode>)
    requires
        !old(ctx).base_account.paused ==> {
            &&& old(ctx).base_account.staking_infos.len() > 0
            &&& old(ctx).base_account.tier.len() > 0
            &&& old(ctx).base_account.tier_candidate.len() > 0
        },
        unstake_refusal(old(ctx).base_account@, old(ctx).holder, staking_index, old(ctx).unix_timestamp)
            is None ==> unstake_fits(
            old(ctx).base_account@,
            old(ctx).holder,
            staking_index,
            old(ctx).unix_timestamp,
        ),
    ensures
        ({
            let b = old(ctx).base_account@;
            let holder = old(ctx).holder;
            let now = old(ctx).unix_timestamp;
            match unstake_refusal(b, holder, staking_index, now) {
                Some(e) => res == Err::<Vec<Effect>, ErrorCode>(e) && final(ctx).base_account@ == b,
                None => {
                    &&& res matches Ok(effects)
                    &&& effects@ == unstake_effects(b, holder, staking_index, now)
                    &&& final(ctx).base_account@ == account_after_unstake(b, holder, staking_index, now)
                },
            }
        }),
        final(ctx).holder == old(ctx).holder,
        final(ctx).unix_timestamp == old(ctx).unix_timestamp,
        old(ctx).base_account@.wf() ==> final(ctx).base_account@.wf(),
{
    if ctx.base_account.paused {
        return Err(ErrorCode::ErrorForPause);
    }
    let ghost b = ctx.base_account@;
    let holder = ctx.holder;
    let now = ctx.unix_timestamp;
    let first = ctx.base_account.staking_infos[0];
    let (max_length, target_staking) = locate_stake(
        &ctx.base_account.staking_infos,
        &holder,
        staking_index,
        first,
    );
    if max_length <= staking_index {
        return Err(ErrorCode::InvalidStakingIndex);
    }
    if now < target_staking.expire_date && target_staking.interest_rate % 4 != 0 {
        return Err(ErrorCode::UnStakingFailed);
    }
    let mut effects: Vec<Effect> = Vec::new();
    settle_rewards(&mut ctx.base_account, holder, target_staking, now, &mut effects);

    let class = target_staking.interest_rate as usize;
    let holders = ctx.base_account.interest_holder_counter[class];
    ctx.base_account.interest_holder_counter[class] = holders - 1;
    let returned = ctx.base_account.staking_infos[max_length as usize - 1];
    ctx.base_account.staking_infos.pop();
    ctx.base_account.total_staking = ctx.base_account.total_staking - 1;

    effects.push(Effect::TransferExoToHolder { holder, amount: returned.amount });
    effects.push(
        Effect::Emit(
            Event::UnStakeExo(
                UnStakeExo { holder, amount: returned.amount, interest_rate: returned.interest_rate },
            ),
        ),
    );
    proof {
        let after = account_after_unstake(b, holder, staking_index, now);
        assert(ctx.base_account@ =~= after);
        assert(effects@ =~= unstake_effects(b, holder, staking_index, now));
        if b.wf() {
            let class = target_staking.interest_rate as int;
            lemma_counter_sum_update(
                b.interest_holder_counter,
                class,
                (b.interest_holder_counter[class] - 1) as u32,
            );
        }
    }
    Ok(effects)
}

/// Pays out what the holder's stake numbered `staking_index` has earned (a
/// stake of all zeros when the holder has none with that number). The stake
/// itself is left as it is.
pub fn claim(ctx: &mut Claim, staking_index: u16) -> (res: Result<Vec<Effect>, ErrorCode>)
    requires
        claim_refusal(old(ctx).base_account@, old(ctx).holder, staking_index) is None ==> rewards_fit(
            old(ctx).base_account@,
            claim_target(old(ctx).base_account@, old(ctx).holder, staking_index),
            old(ctx).unix_timestamp,
        ),
    ensures
        ({
            let b = old(ctx).base_account@;
            let holder = old(ctx).holder;
            let now = old(ctx).unix_timestamp;
            match claim_refusal(b, holder, staking_index) {
                Some(e) => res == Err::<Vec<Effect>, ErrorCode>(e) && final(ctx).base_account@ == b,
                None => {
                    &&& res matches Ok(effects)
                    &&& effects@ == reward_effects(b, holder, claim_target(b, holder, staking_index), now)
                    &&& final(ctx).base_account@ == account_after_claim(b, holder, staking_index, now)
                },
            }
        }),
        final(ctx).holder == old(ctx).holder,
        final(ctx).unix_timestamp == old(ctx).unix_timestamp,
        old(ctx).base_account@.wf() ==> final(ctx).base_account@.wf(),
{
    if ctx.base_account.paused {
        return Err(ErrorCode::ErrorForPause);
    }
    let holder = ctx.holder;
    let now = ctx.unix_timestamp;
    let (max_length, target_staking) = locate_stake(
        &ctx.base_account.staking_infos,
        &holder,
        staking_index,
        StakingInfo::default(),
    );
    if max_length <= staking_index {
        return Err(ErrorCode::InvalidStakingIndex);
    }
    let mut effects: Vec<Effect> = Vec::new();
    settle_rewards(&mut ctx.base_account, holder, target_staking, now, &mut effects);
    Ok(effects)
}


/// Sets up the base account: the token addresses and the bump, with the
/// signer as default admin and owner, and the EXO program as EXO role.
pub fn initialize(ctx: &mut Initialize, exo_address: Pubkey, gcred_address: Pubkey, bump: u8) -> (res:
    Result<(), ErrorCode>)
    ensures
        res is Ok,
        final(ctx).base_account@ == (BaseAccountView {
            exo_address,
            gcred_address,
            default_admin_role: old(ctx).user,
            owner_role: old(ctx).user,
            exo_role: exo_address,
            bump,
            ..old(ctx).base_account@
        }),
        final(ctx).user == old(ctx).user,
        old(ctx).base_account@.wf() ==> final(ctx).base_account@.wf(),
{
    let user = ctx.user;
    ctx.base_account.exo_address = exo_address;
    ctx.base_account.gcred_address = gcred_address;
    ctx.base_account.default_admin_role = user;
    ctx.base_account.owner_role = user;
    ctx.base_account.exo_role = exo_address;
    ctx.base_account.bump = bump;
    Ok(())
}

/// The base account after a setting of the owner: `Err` when the signer is
/// not the owner, with the account as it was.
pub open spec fn owner_only(
    b: BaseAccountView,
    user: Pubkey,
    res: Result<Vec<Effect>, ErrorCode>,
    after: BaseAccountView,
    changed: BaseAccountView,
    effects: Seq<Effect>,
) -> bool {
    if b.owner_role != user {
        res == Err::<Vec<Effect>, ErrorCode>(ErrorCode::NotOwnerAccount) && after == b
    } else {
        res matches Ok(v) && v@ == effects && after == changed
    }
}

/// Pauses staking, unstaking, claiming and tier setting. Owner only.
pub fn pause(ctx: &mut UpdatePauseRoleOrAddressOrInfo) -> (res: Result<(), ErrorCode>)
    ensures
        old(ctx).base_account.owner_role != old(ctx).user ==> res == Err::<(), ErrorCode>(
            ErrorCode::NotOwnerAccount,
        ) && final(ctx).base_account@ == old(ctx).base_account@,
        old(ctx).base_account.owner_role == old(ctx).user ==> res is Ok && final(ctx).base_account@
            == (BaseAccountView { paused: true, ..old(ctx).base_account@ }),
        final(ctx).user == old(ctx).user,
        old(ctx).base_account@.wf() ==> final(ctx).base_account@.wf(),
{
    if !ctx.base_account.owner_role.same_as(&ctx.user) {
        return Err(ErrorCode::NotOwnerAccount);
    }
    ctx.base_account.paused = true;
    Ok(())
}

/// Lifts a pause. Owner only.
pub fn unpause(ctx: &mut UpdatePauseRoleOrAddressOrInfo) -> (res: Result<(), ErrorCode>)
    ensures
        old(ctx).base_account.owner_role != old(ctx).user ==> res == Err::<(), ErrorCode>(
            ErrorCode::NotOwnerAccount,
        ) && final(ctx).base_account@ == old(ctx).base_account@,
        old(ctx).base_account.owner_role == old(ctx).user ==> res is Ok && final(ctx).base_account@
            == (BaseAccountView { paused: false, ..old(ctx).base_account@ }),
        final(ctx).user == old(ctx).user,
        old(ctx).base_account@.wf() ==> final(ctx).base_account@.wf(),
{
    if !ctx.base_account.owner_role.same_as(&ctx.user) {
        return Err(ErrorCode::NotOwnerAccount);
    }
    ctx.base_account.paused = false;
    Ok(())
}

/// Sets the GCRED token address. Owner only.
pub fn set_gcred_address(ctx: &mut UpdatePauseRoleOrAddressOrInfo, gcred_address: Pubkey) -> (res:
    Result<Vec<Effect>, ErrorCode>)
    ensures
        owner_only(
            old(ctx).base_account@,
            old(ctx).user,
            res,
            final(ctx).base_account@,
            BaseAccountView { gcred_address, ..old(ctx).base_account@ },
            seq![Effect::Emit(Event::GCREDAddressUpdated(GCREDAddressUpdated { gcred_address }))],
        ),
        final(ctx).user == old(ctx).user,
        old(ctx).base_account@.wf() ==> final(ctx).base_account@.wf(),
{
    if !ctx.base_account.owner_role.same_as(&ctx.user) {
        return Err(ErrorCode::NotOwnerAccount);
    }
    ctx.base_account.gcred_address = gcred_address;
    let mut effects: Vec<Effect> = Vec::new();
    effects.push(Effect::Emit(Event::GCREDAddressUpdated(GCREDAddressUpdated { gcred_address })));
    Ok(effects)
}

/// Sets the foundation node's address. Owner only.
pub fn set_fn_address(ctx: &mut UpdatePauseRoleOrAddressOrInfo, foundation_node: Pubkey) -> (res:
    Result<Vec<Effect>, ErrorCode>)
    ensures
        owner_only(
            old(ctx).base_account@,
            old(ctx).user,
            res,
            final(ctx).base_account@,
            BaseAccountView { foundation_node, ..old(ctx).base_account@ },
            seq![Effect::Emit(Event::FoundationNodeUpdated(FoundationNodeUpdated { foundation_node }))],
        ),
        final(ctx).user == old(ctx).user,
        old(ctx).base_account@.wf() ==> final(ctx).base_account@.wf(),
{
    if !ctx.base_account.owner_role.same_as(&ctx.user) {
        return Err(ErrorCode::NotOwnerAccount);
    }
    ctx.base_account.foundation_node = foundation_node;
    let mut effects: Vec<Effect> = Vec::new();
    effects.push(
        Effect::Emit(Event::FoundationNodeUpdated(FoundationNodeUpdated { foundation_node })),
    );
    Ok(effects)
}

/// Sets the EXO token address. Owner only.
pub fn set_exo_address(ctx: &mut UpdatePauseRoleOrAddressOrInfo, exo_address: Pubkey) -> (res:
    Result<Vec<Effect>, ErrorCode>)
    ensures
        owner_only(
            old(ctx).base_account@,
            old(ctx).user,
            res,
            final(ctx).base_account@,
            BaseAccountView { exo_address, ..old(ctx).base_account@ },
            seq![Effect::Emit(Event::ExoAddressUpdated(ExoAddressUpdated { exo_address }))],
        ),
        final(ctx).user == old(ctx).user,
        old(ctx).base_account@.wf() ==> final(ctx).base_account@.wf(),
{
    if !ctx.base_account.owner_role.same_as(&ctx.user) {
        return Err(ErrorCode::NotOwnerAccount);
    }
    ctx.base_account.exo_address = exo_address;
    let mut effects: Vec<Effect> = Vec::new();
    effects.push(Effect::Emit(Event::ExoAddressUpdated(ExoAddressUpdated { exo_address })));
    Ok(effects)
}

/// Gives `holder` tier `tier`. Refused while paused, and unless `holder` is
/// the owner.
pub fn set_tier(ctx: &mut UpdatePauseRoleOrAddressOrInfo, holder: Pubkey, tier: u8) -> (res: Result<
    (),
    ErrorCode,
>)
    ensures
        ({
            let b = old(ctx).base_account@;
            if b.paused {
                res == Err::<(), ErrorCode>(ErrorCode::ErrorForPause) && final(ctx).base_account@ == b
            } else if b.owner_role != holder {
                res == Err::<(), ErrorCode>(ErrorCode::NotOwnerAccount) && final(ctx).base_account@ == b
            } else {
                res is Ok && final(ctx).base_account@ == (BaseAccountView {
                    tier: tiers_after_set(b.tier, holder, tier),
                    ..b
                })
            }
        }),
        final(ctx).user == old(ctx).user,
        old(ctx).base_account@.wf() ==> final(ctx).base_account@.wf(),
{
    if ctx.base_account.paused {
        return Err(ErrorCode::ErrorForPause);
    }
    if !ctx.base_account.owner_role.same_as(&holder) {
        return Err(ErrorCode::NotOwnerAccount);
    }
    assign_tier(&mut ctx.base_account.tier, &holder, tier);
    Ok(())
}

/// The tier of `holder`: that of its last entry, or 0.
pub fn get_tier(ctx: &UpdatePauseRoleOrAddressOrInfo, holder: Pubkey) -> (res: Result<u8, ErrorCode>)
    ensures
        res == Ok::<u8, ErrorCode>(tier_of(ctx.base_account@.tier, holder)),
{
    Ok(tier_value_of(&ctx.base_account.tier, &holder))
}

/// The stakes of `holder`, in order.
pub fn get_staking_info(ctx: &UpdatePauseRoleOrAddressOrInfo, holder: Pubkey) -> (res: Result<
    Vec<StakingInfo>,
    ErrorCode,
>)
    ensures
        res matches Ok(v) && v@ == stakes_of(ctx.base_account@.staking_infos, holder),
{
    Ok(collect_stakes(&ctx.base_account.staking_infos, &holder))
}

/// The amount `holder` has staked in total.
pub fn get_total_staing_amount(ctx: &UpdatePauseRoleOrAddressOrInfo, holder: Pubkey) -> (res: Result<
    u64,
    ErrorCode,
>)
    requires
        total_staked(ctx.base_account@.staking_infos, holder) <= u64::MAX,
    ensures
        res matches Ok(v) && v == total_staked(ctx.base_account@.staking_infos, holder),
{
    Ok(sum_stakes(&ctx.base_account.staking_infos, &holder))
}

} // verus!
