//! Properties that hold across the instructions.

use vstd::prelude::*;
use crate::events::ErrorCode;
use crate::model::{
    account_after_claim, account_after_stake, account_after_unstake, claim_refusal, claim_target,
    daily_fn_share, find_stake, fn_reward_amount, interest_class, last_index, new_stake,
    reward_days, rewards_fit, stake_refusal, stakes_of, tier_of, tiers_after_set, total_staked,
    unstake_refusal, unstake_target,
};
use crate::rates::{fn_reward_percent_table, staking_period_table};
use crate::state::{lemma_zero_counters, BaseAccountView, Pubkey, StakingInfo, Tier};
use vstd::arithmetic::div_mod::{lemma_fundamental_div_mod, lemma_mod_pos_bound};

verus! {

/// A freshly created base account is well formed.
pub proof fn lemma_fresh_account_wf()
    ensures
        BaseAccountView::zeroed().wf(),
{
    lemma_zero_counters(16);
}

/// Overwriting the entries of `holder` leaves the tier of every other address
/// as it was, and gives `holder` the new value when it has an entry.
proof fn lemma_tier_of_overwritten(tiers: Seq<Tier>, holder: Pubkey, value: u8, other: Pubkey)
    ensures
        ({
            let after = tiers.map_values(
                |t: Tier| if t.address == holder { Tier { address: t.address, value } } else { t },
            );
            &&& other != holder ==> tier_of(after, other) == tier_of(tiers, other)
            &&& (exists|i: int| 0 <= i < tiers.len() && #[trigger] tiers[i].address == holder)
                ==> tier_of(after, holder) == value
        }),
    decreases tiers.len(),
{
    let f = |t: Tier| if t.address == holder { Tier { address: t.address, value } } else { t };
    if tiers.len() > 0 {
        let rest = tiers.drop_last();
        assert(tiers.map_values(f).drop_last() =~= rest.map_values(f));
        lemma_tier_of_overwritten(rest, holder, value, other);
        if tiers.last().address != holder {
            if exists|i: int| 0 <= i < tiers.len() && #[trigger] tiers[i].address == holder {
                let i = choose|i: int| 0 <= i < tiers.len() && #[trigger] tiers[i].address == holder;
                assert(rest[i].address == holder);
            }
        }
    }
}

/// Reading a tier gives back what setting it wrote.
pub proof fn lemma_tier_read_back(tiers: Seq<Tier>, holder: Pubkey, value: u8)
    ensures
        tier_of(tiers_after_set(tiers, holder, value), holder) == value,
{
    lemma_tier_of_overwritten(tiers, holder, value, holder);
}

/// Setting the tier of `holder` leaves every other address's tier as it was.
pub proof fn lemma_tier_set_keeps_others(tiers: Seq<Tier>, holder: Pubkey, value: u8, other: Pubkey)
    requires
        other != holder,
    ensures
        tier_of(tiers_after_set(tiers, holder, value), other) == tier_of(tiers, other),
{
    lemma_tier_of_overwritten(tiers, holder, value, other);
    assert(tiers.push(Tier { address: holder, value }).drop_last() =~= tiers);
}

/// A stake appended to the list is the last of its holder's stakes, and
/// another holder's stakes do not change.
pub proof fn lemma_stakes_of_push(infos: Seq<StakingInfo>, s: StakingInfo, holder: Pubkey)
    ensures
        stakes_of(infos.push(s), holder) == if s.holder == holder {
            stakes_of(infos, holder).push(s)
        } else {
            stakes_of(infos, holder)
        },
{
    reveal_with_fuel(Seq::filter, 1);
    assert(infos.push(s).drop_last() =~= infos);
}

/// A stake by a holder other than the foundation node adds the new stake to
/// the holder's stakes and its amount to the holder's total; the stakes of
/// every other address stay as they were.
pub proof fn lemma_stake_records(
    b: BaseAccountView,
    holder: Pubkey,
    amount: u64,
    duration: u8,
    now: i64,
    fn_balance: u64,
    other: Pubkey,
)
    requires
        holder != b.foundation_node,
    ensures
        ({
            let after = account_after_stake(b, holder, amount, duration, now, fn_balance);
            let s = new_stake(b, holder, amount, duration, now);
            &&& stakes_of(after.staking_infos, holder) == stakes_of(b.staking_infos, holder).push(s)
            &&& total_staked(after.staking_infos, holder) == total_staked(b.staking_infos, holder)
                + amount
            &&& other != holder ==> stakes_of(after.staking_infos, other) == stakes_of(
                b.staking_infos,
                other,
            )
        }),
{
    let s = new_stake(b, holder, amount, duration, now);
    lemma_stakes_of_push(b.staking_infos, s, holder);
    lemma_stakes_of_push(b.staking_infos, s, other);
    let f = stakes_of(b.staking_infos, holder);
    assert(f.push(s).drop_last() =~= f);
}

/// While the program is paused, stakes, unstakes and claims are refused with
/// `ErrorForPause`.
pub proof fn lemma_paused_refuses(
    b: BaseAccountView,
    holder: Pubkey,
    amount: u64,
    balance: u64,
    duration: u8,
    index: u16,
    now: i64,
)
    requires
        b.paused,
    ensures
        stake_refusal(b, amount, balance, duration) == Some(ErrorCode::ErrorForPause),
        unstake_refusal(b, holder, index, now) == Some(ErrorCode::ErrorForPause),
        claim_refusal(b, holder, index) == Some(ErrorCode::ErrorForPause),
{
}

/// A claim changes nothing but the total of rewards paid, which never goes down.
pub proof fn lemma_claim_only_counts_rewards(b: BaseAccountView, holder: Pubkey, index: u16, now: i64)
    requires
        rewards_fit(b, claim_target(b, holder, index), now),
    ensures
        ({
            let after = account_after_claim(b, holder, index, now);
            &&& after == (BaseAccountView { total_reward_amount: after.total_reward_amount, ..b })
            &&& after.total_reward_amount >= b.total_reward_amount
        }),
{
}

/// An unstake removes exactly one stake from the list and from the count.
pub proof fn lemma_unstake_removes_one(b: BaseAccountView, holder: Pubkey, index: u16, now: i64)
    requires
        b.staking_infos.len() > 0,
        b.total_staking >= 1,
    ensures
        ({
            let after = account_after_unstake(b, holder, index, now);
            &&& after.staking_infos.len() == b.staking_infos.len() - 1
            &&& after.total_staking == b.total_staking - 1
            &&& after.staking_infos == b.staking_infos.take(b.staking_infos.len() - 1)
        }),
{
}


/// A stake with a lock period (an interest-rate class not divisible by four)
/// cannot be withdrawn before it expires: the unstake that reaches it is
/// refused with `UnStakingFailed`. Once it has expired, or when its class has
/// no lock period, the unstake is not refused for the lock.
pub proof fn lemma_locked_stake_refused(b: BaseAccountView, holder: Pubkey, index: u16, now: i64)
    requires
        !b.paused,
        last_index(b.staking_infos, holder) > index,
    ensures
        ({
            let s = unstake_target(b, holder, index);
            &&& (now < s.expire_date && s.interest_rate % 4 != 0) ==> unstake_refusal(
                b,
                holder,
                index,
                now,
            ) == Some(ErrorCode::UnStakingFailed)
            &&& (now >= s.expire_date || s.interest_rate % 4 == 0) ==> unstake_refusal(
                b,
                holder,
                index,
                now,
            ) is None
        }),
{
}

/// A stake recorded for a duration of one to three periods is in a class
/// with a lock period, and expires that period after it was made.
pub proof fn lemma_new_stake_is_locked(
    b: BaseAccountView,
    holder: Pubkey,
    amount: u64,
    duration: u8,
    now: i64,
)
    requires
        1 <= duration < 4,
        interest_class(tier_of(b.tier, holder), duration) <= u8::MAX,
        now + staking_period_table()[duration as int] <= i64::MAX,
    ensures
        ({
            let s = new_stake(b, holder, amount, duration, now);
            &&& s.interest_rate % 4 == duration
            &&& s.interest_rate % 4 != 0
            &&& s.expire_date == now + staking_period_table()[duration as int]
            &&& s.expire_date > now
        }),
{
}

/// Whether `s` is a stake of `holder` numbered `index`.
pub open spec fn is_stake_of(s: StakingInfo, holder: Pubkey, index: u16) -> bool {
    s.holder == holder && s.index == index
}

/// The stake settled for `holder` and number `index` is one of `holder`'s own
/// stakes with that number, the last such in the list; when `holder` has none
/// with that number, it is `default`.
pub proof fn lemma_find_stake_is_holders(
    infos: Seq<StakingInfo>,
    holder: Pubkey,
    index: u16,
    default: StakingInfo,
)
    ensures
        ({
            let r = find_stake(infos, holder, index, default);
            &&& (exists|j: int| 0 <= j < infos.len() && is_stake_of(#[trigger] infos[j], holder, index))
                ==> {
                &&& is_stake_of(r, holder, index)
                &&& exists|j: int|
                    0 <= j < infos.len() && #[trigger] infos[j] == r && forall|k: int|
                        j < k < infos.len() ==> !is_stake_of(#[trigger] infos[k], holder, index)
            }
            &&& !(exists|j: int| 0 <= j < infos.len() && is_stake_of(#[trigger] infos[j], holder, index))
                ==> r == default
        }),
    decreases infos.len(),
{
    if infos.len() > 0 {
        let rest = infos.drop_last();
        let n = infos.len() - 1;
        lemma_find_stake_is_holders(rest, holder, index, default);
        let r = find_stake(infos, holder, index, default);
        if is_stake_of(infos.last(), holder, index) {
            assert(infos[n] == r);
        } else {
            assert(r == find_stake(rest, holder, index, default));
            if exists|j: int| 0 <= j < infos.len() && is_stake_of(#[trigger] infos[j], holder, index) {
                let j = choose|j: int|
                    0 <= j < infos.len() && is_stake_of(#[trigger] infos[j], holder, index);
                assert(j < n);
                assert(rest[j] == infos[j]);
                let w = choose|w: int|
                    0 <= w < rest.len() && #[trigger] rest[w] == r && forall|k: int|
                        w < k < rest.len() ==> !is_stake_of(#[trigger] rest[k], holder, index);
                assert(infos[w] == r);
                assert forall|k: int| w < k < infos.len() implies !is_stake_of(
                    #[trigger] infos[k],
                    holder,
                    index,
                ) by {
                    if k < n {
                        assert(rest[k] == infos[k]);
                    }
                }
            } else {
                assert forall|j: int| 0 <= j < rest.len() implies !is_stake_of(
                    #[trigger] rest[j],
                    holder,
                    index,
                ) by {
                    assert(rest[j] == infos[j]);
                }
            }
        }
    }
}

/// The stakes that `claim` and `unstake` settle for `holder` and number
/// `index` belong to `holder` and carry that number whenever `holder` has
/// such a stake.
pub proof fn lemma_settled_stake_is_holders(b: BaseAccountView, holder: Pubkey, index: u16)
    requires
        exists|j: int|
            0 <= j < b.staking_infos.len() && is_stake_of(#[trigger] b.staking_infos[j], holder, index),
    ensures
        claim_target(b, holder, index).holder == holder,
        claim_target(b, holder, index).index == index,
        unstake_target(b, holder, index).holder == holder,
        unstake_target(b, holder, index).index == index,
{
    lemma_find_stake_is_holders(b.staking_infos, holder, index, StakingInfo::spec_zeroed());
    lemma_find_stake_is_holders(b.staking_infos, holder, index, b.staking_infos[0]);
}

/// `p / k / 1000` is the largest `q` with `q * k * 1000 <= p`.
proof fn lemma_split_per_mille(p: int, k: int)
    requires
        p >= 0,
        k > 0,
    ensures
        (p / k / 1000) * k * 1000 <= p < (p / k / 1000 + 1) * k * 1000,
{
    let q1 = p / k;
    let q = q1 / 1000;
    lemma_fundamental_div_mod(p, k);
    lemma_mod_pos_bound(p, k);
    assert(q1 >= 0) by (nonlinear_arith)
        requires
            p == k * q1 + p % k,
            0 <= p % k < k,
            p >= 0,
            k > 0,
    ;
    lemma_fundamental_div_mod(q1, 1000);
    lemma_mod_pos_bound(q1, 1000);
    assert(q * k * 1000 <= p < (q + 1) * k * 1000) by (nonlinear_arith)
        requires
            p == k * q1 + p % k,
            0 <= p % k < k,
            q1 == 1000 * q + q1 % 1000,
            0 <= q1 % 1000 < 1000,
            k > 0,
    ;
}

/// The foundation-node reward of a class is shared among its holders: with
/// `k` holders, `k` daily shares never exceed the class's daily part
/// `fn_reward * percent / 1000`, and each share is the largest that does so;
/// the stake's share grows with the seconds it has earned. A class with no
/// holders gets nothing.
pub proof fn lemma_fn_share_split(b: BaseAccountView, s: StakingInfo, now: i64)
    requires
        s.interest_rate < 16,
    ensures
        ({
            let k = b.interest_holder_counter[s.interest_rate as int];
            let class_part = b.fn_reward * fn_reward_percent_table()[s.interest_rate as int];
            let share = daily_fn_share(b, s);
            &&& k == 0 ==> share == 0
            &&& k > 0 ==> share * k * 1000 <= class_part < (share + 1) * k * 1000
            &&& k > 0 ==> share >= 0
            &&& fn_reward_amount(b, s, now) == share * reward_days(s, now)
        }),
{
    let k = b.interest_holder_counter[s.interest_rate as int];
    let class_part = b.fn_reward * fn_reward_percent_table()[s.interest_rate as int];
    if k > 0 {
        assert(class_part >= 0) by (nonlinear_arith)
            requires
                class_part == b.fn_reward * fn_reward_percent_table()[s.interest_rate as int],
                b.fn_reward >= 0,
                fn_reward_percent_table()[s.interest_rate as int] >= 0,
        ;
        lemma_split_per_mille(class_part, k as int);
    }
}

/// The foundation node's stake sets its daily reward from its current token
/// balance, `balance * 75 / 1000 / 365`, whatever the reward was before, and
/// changes nothing else; staking again with the same balance gives the same
/// reward.
pub proof fn lemma_foundation_stake_sets_reward(
    b: BaseAccountView,
    amount: u64,
    duration: u8,
    now: i64,
    fn_balance: u64,
    amount2: u64,
    duration2: u8,
    now2: i64,
)
    requires
        fn_balance * 75 <= u64::MAX,
    ensures
        ({
            let holder = b.foundation_node;
            let after = account_after_stake(b, holder, amount, duration, now, fn_balance);
            let again = account_after_stake(after, holder, amount2, duration2, now2, fn_balance);
            &&& after.fn_reward == fn_balance * 75 / 1000 / 365
            &&& after == (BaseAccountView { fn_reward: after.fn_reward, ..b })
            &&& again.fn_reward == after.fn_reward
            &&& again == after
        }),
{
}

} // verus!
