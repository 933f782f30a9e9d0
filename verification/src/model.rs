//! What the instructions compute, stated over sequences and integers.

use vstd::prelude::*;
use crate::state::{BaseAccountView, Pubkey, StakingInfo, Tier, TierCandiate};
use crate::rates::{
    cal_reward_fits, exo_reward_apr_table, fn_reward_percent_table, gcred_return_table,
    spec_cal_reward, staking_period_table, tier_amount_table,
};
use crate::events::{ClaimExo, ClaimFN, ClaimGCRED, Effect, ErrorCode, Event, StakeExo, UnStakeExo};

verus! {

// ---------------------------------------------------------------------------
// Lookups in the base account's lists
// ---------------------------------------------------------------------------

/// The tier of `holder`: the value of the last entry for it, or 0.
pub open spec fn tier_of(tiers: Seq<Tier>, holder: Pubkey) -> u8
    decreases tiers.len(),
{
    if tiers.len() == 0 {
        0
    } else if tiers.last().address == holder {
        tiers.last().value
    } else {
        tier_of(tiers.drop_last(), holder)
    }
}

/// The tier list after `holder` is given tier `value`: every entry for it is
/// overwritten, or a new entry is appended when there is none.
pub open spec fn tiers_after_set(tiers: Seq<Tier>, holder: Pubkey, value: u8) -> Seq<Tier> {
    if exists|i: int| 0 <= i < tiers.len() && #[trigger] tiers[i].address == holder {
        tiers.map_values(|t: Tier| if t.address == holder { Tier { address: t.address, value } } else { t })
    } else {
        tiers.push(Tier { address: holder, value })
    }
}

/// Whether `s` belongs to `holder`.
pub open spec fn owned_by(holder: Pubkey) -> spec_fn(StakingInfo) -> bool {
    |s: StakingInfo| s.holder == holder
}

/// The stakes of `holder`, in order.
pub open spec fn stakes_of(infos: Seq<StakingInfo>, holder: Pubkey) -> Seq<StakingInfo> {
    infos.filter(owned_by(holder))
}

/// The sum of the amounts of `stakes`.
pub open spec fn sum_amounts(stakes: Seq<StakingInfo>) -> int
    decreases stakes.len(),
{
    if stakes.len() == 0 {
        0
    } else {
        sum_amounts(stakes.drop_last()) + stakes.last().amount
    }
}

/// The amount `holder` has staked in total.
pub open spec fn total_staked(infos: Seq<StakingInfo>, holder: Pubkey) -> int {
    sum_amounts(stakes_of(infos, holder))
}

/// The stake number of `holder`'s last stake, or 0 when it has none.
pub open spec fn last_index(infos: Seq<StakingInfo>, holder: Pubkey) -> u16
    decreases infos.len(),
{
    if infos.len() == 0 {
        0
    } else if infos.last().holder == holder {
        infos.last().index
    } else {
        last_index(infos.drop_last(), holder)
    }
}

/// The number that a new stake of `holder` gets: one more than the number of
/// its last stake, or 1 when it has none.
pub open spec fn next_index(infos: Seq<StakingInfo>, holder: Pubkey) -> int
    decreases infos.len(),
{
    if infos.len() == 0 {
        1
    } else if infos.last().holder == holder {
        infos.last().index + 1
    } else {
        next_index(infos.drop_last(), holder)
    }
}

/// No stake of `holder` carries the largest stake number.
pub open spec fn indices_below_max(infos: Seq<StakingInfo>, holder: Pubkey) -> bool {
    forall|i: int|
        0 <= i < infos.len() && #[trigger] infos[i].holder == holder ==> infos[i].index < u16::MAX
}

/// The last stake of `holder` numbered `index`, or `default` when there is none.
pub open spec fn find_stake(
    infos: Seq<StakingInfo>,
    holder: Pubkey,
    index: u16,
    default: StakingInfo,
) -> StakingInfo
    decreases infos.len(),
{
    if infos.len() == 0 {
        default
    } else if infos.last().holder == holder && infos.last().index == index {
        infos.last()
    } else {
        find_stake(infos.drop_last(), holder, index, default)
    }
}

// ---------------------------------------------------------------------------
// Staking
// ---------------------------------------------------------------------------

/// The interest-rate class of a stake: four classes per tier, one per duration.
pub open spec fn interest_class(tier: u8, duration: u8) -> int {
    tier * 4 + duration
}

/// A stake of `amount` for `duration` makes its holder, now in `tier`, a
/// candidate for the next tier.
pub open spec fn qualifies_for_promotion(tier: u8, amount: u64, duration: u8) -> bool {
    tier < 3 && amount > tier_amount_table()[tier + 1] && duration > tier
}

/// The candidate list after `holder` qualified: its entries are marked, and a
/// new unmarked entry is appended.
pub open spec fn candidates_after_stake(cands: Seq<TierCandiate>, holder: Pubkey) -> Seq<TierCandiate> {
    cands.map_values(
        |c: TierCandiate|
            if c.address == holder {
                TierCandiate { address: c.address, value: true }
            } else {
                c
            },
    ).push(TierCandiate { address: holder, value: false })
}

/// The stake recorded for `holder`.
pub open spec fn new_stake(
    b: BaseAccountView,
    holder: Pubkey,
    amount: u64,
    duration: u8,
    now: i64,
) -> StakingInfo {
    StakingInfo {
        holder,
        amount,
        start_date: now,
        expire_date: (now + staking_period_table()[duration as int]) as i64,
        duration: (duration * 86400) as i64,
        claim_day: 0,
        interest_rate: interest_class(tier_of(b.tier, holder), duration) as u8,
        index: next_index(b.staking_infos, holder) as u16,
    }
}

/// The foundation node's daily reward, set when it stakes.
pub open spec fn foundation_daily_reward(fn_balance: u64) -> int {
    fn_balance * 75 / 1000 / 365
}

/// The base account after an accepted stake.
pub open spec fn account_after_stake(
    b: BaseAccountView,
    holder: Pubkey,
    amount: u64,
    duration: u8,
    now: i64,
    fn_balance: u64,
) -> BaseAccountView {
    if holder == b.foundation_node {
        BaseAccountView { fn_reward: foundation_daily_reward(fn_balance) as u64, ..b }
    } else {
        let tier = tier_of(b.tier, holder);
        let class = interest_class(tier, duration);
        BaseAccountView {
            staking_infos: b.staking_infos.push(new_stake(b, holder, amount, duration, now)),
            total_staking: (b.total_staking + 1) as u64,
            interest_holder_counter: b.interest_holder_counter.update(
                class,
                (b.interest_holder_counter[class] + 1) as u32,
            ),
            tier_candidate: if qualifies_for_promotion(tier, amount, duration) {
                candidates_after_stake(b.tier_candidate, holder)
            } else {
                b.tier_candidate
            },
            ..b
        }
    }
}

/// An accepted stake stays within the integer ranges and the counters.
pub open spec fn stake_fits(
    b: BaseAccountView,
    holder: Pubkey,
    duration: u8,
    now: i64,
    fn_balance: u64,
) -> bool {
    let class = interest_class(tier_of(b.tier, holder), duration);
    &&& class <= u8::MAX
    &&& holder == b.foundation_node ==> fn_balance * 75 <= u64::MAX
    &&& holder != b.foundation_node ==> {
        &&& class < 16
        &&& indices_below_max(b.staking_infos, holder)
        &&& now + staking_period_table()[duration as int] <= i64::MAX
        &&& b.total_staking < u64::MAX
        &&& b.interest_holder_counter[class] < u32::MAX
    }
}

/// Why a stake is refused, if it is: a paused program, a balance below the
/// amount, or an unknown duration, checked in that order.
pub open spec fn stake_refusal(b: BaseAccountView, amount: u64, balance: u64, duration: u8) -> Option<
    ErrorCode,
> {
    if b.paused {
        Some(ErrorCode::ErrorForPause)
    } else if amount > balance {
        Some(ErrorCode::NotEnoughExoToken)
    } else if duration >= 4 {
        Some(ErrorCode::DurationNotMatch)
    } else {
        None
    }
}

/// What an accepted stake asks for: the transfer, then its event.
pub open spec fn stake_effects(b: BaseAccountView, holder: Pubkey, amount: u64, duration: u8) -> Seq<Effect> {
    seq![
        Effect::TransferExoToBase { holder, amount },
        Effect::Emit(
            Event::StakeExo(
                StakeExo {
                    holder,
                    amount,
                    interest_rate: interest_class(tier_of(b.tier, holder), duration) as u8,
                },
            ),
        ),
    ]
}

// ---------------------------------------------------------------------------
// Rewards
// ---------------------------------------------------------------------------

/// The time up to which a stake earns: now, or its expiry once passed.
pub open spec fn reward_end(s: StakingInfo, now: i64) -> i64 {
    if now >= s.expire_date {
        s.expire_date
    } else {
        now
    }
}

/// How long the stake has earned.
pub open spec fn staked_days(s: StakingInfo, now: i64) -> int {
    reward_end(s, now) - s.start_date
}

/// The stake has earned past what was claimed.
pub open spec fn has_reward(s: StakingInfo, now: i64) -> bool {
    staked_days(s, now) > s.claim_day
}

/// How long the stake has earned past what was claimed.
pub open spec fn reward_days(s: StakingInfo, now: i64) -> int {
    staked_days(s, now) - s.claim_day
}

/// The EXO reward of the stake.
pub open spec fn exo_reward(s: StakingInfo, now: i64) -> int {
    spec_cal_reward(
        s.amount,
        exo_reward_apr_table()[s.interest_rate as int] as u64,
        reward_days(s, now) as i64,
    )
}

/// The GCRED reward of the stake.
pub open spec fn gcred_reward(s: StakingInfo, now: i64) -> int {
    s.amount * gcred_return_table()[s.interest_rate as int] * reward_days(s, now) / 1000000
}

/// The stake's daily share of the foundation-node reward, split among the
/// holders of its interest-rate class.
pub open spec fn daily_fn_share(b: BaseAccountView, s: StakingInfo) -> int {
    let holders = b.interest_holder_counter[s.interest_rate as int];
    if holders == 0 {
        0
    } else {
        b.fn_reward * fn_reward_percent_table()[s.interest_rate as int] / (holders as int) / 1000
    }
}

/// The stake's foundation-node reward.
pub open spec fn fn_reward_amount(b: BaseAccountView, s: StakingInfo, now: i64) -> int {
    daily_fn_share(b, s) * reward_days(s, now)
}

/// All that is paid out for the stake.
pub open spec fn reward_total(b: BaseAccountView, s: StakingInfo, now: i64) -> int {
    if has_reward(s, now) {
        exo_reward(s, now) + fn_reward_amount(b, s, now)
    } else {
        0
    }
}

/// Settling the stake's rewards stays within the integer ranges and the rate tables.
pub open spec fn rewards_fit(b: BaseAccountView, s: StakingInfo, now: i64) -> bool {
    &&& i64::MIN <= staked_days(s, now) <= i64::MAX
    &&& has_reward(s, now) ==> {
        let days = reward_days(s, now);
        let gcred = gcred_return_table()[s.interest_rate as int];
        let holders = b.interest_holder_counter[s.interest_rate as int];
        &&& s.interest_rate < 16
        &&& days <= i64::MAX
        &&& cal_reward_fits(s.amount, exo_reward_apr_table()[s.interest_rate as int] as u64, days as i64)
        &&& s.amount * gcred <= u64::MAX
        &&& s.amount * gcred * days <= u64::MAX
        &&& b.total_reward_amount + exo_reward(s, now) <= u64::MAX
        &&& holders != 0 ==> b.fn_reward * fn_reward_percent_table()[s.interest_rate as int] <= u64::MAX
        &&& fn_reward_amount(b, s, now) <= u64::MAX
        &&& b.total_reward_amount + exo_reward(s, now) + fn_reward_amount(b, s, now) <= u64::MAX
    }
}

/// What settling the stake's rewards asks for: the EXO and GCRED mints with
/// their events, then the foundation-node share when there is one.
pub open spec fn reward_effects(b: BaseAccountView, holder: Pubkey, s: StakingInfo, now: i64) -> Seq<Effect> {
    if has_reward(s, now) {
        let exo = exo_reward(s, now) as u64;
        let gcred = gcred_reward(s, now) as u64;
        let share = fn_reward_amount(b, s, now) as u64;
        seq![
            Effect::MintExo { to: holder, amount: exo },
            Effect::MintGcred { to: holder, amount: gcred },
            Effect::Emit(Event::ClaimGCRED(ClaimGCRED { holder, amount: gcred })),
            Effect::Emit(Event::ClaimExo(ClaimExo { holder, reward: exo, interest_rate: s.interest_rate })),
        ] + if share > 0 {
            seq![
                Effect::MintExo { to: holder, amount: share },
                Effect::Emit(Event::ClaimFN(ClaimFN { holder, reward_amount: share })),
            ]
        } else {
            Seq::empty()
        }
    } else {
        Seq::empty()
    }
}

// ---------------------------------------------------------------------------
// Claiming and unstaking
// ---------------------------------------------------------------------------

/// The stake that `claim` settles.
pub open spec fn claim_target(b: BaseAccountView, holder: Pubkey, index: u16) -> StakingInfo {
    find_stake(b.staking_infos, holder, index, StakingInfo::spec_zeroed())
}

/// The base account after an accepted claim: the rewards are counted.
pub open spec fn account_after_claim(
    b: BaseAccountView,
    holder: Pubkey,
    index: u16,
    now: i64,
) -> BaseAccountView {
    let s = claim_target(b, holder, index);
    BaseAccountView { total_reward_amount: (b.total_reward_amount + reward_total(b, s, now)) as u64, ..b }
}

/// The stake that `unstake` settles.
pub open spec fn unstake_target(b: BaseAccountView, holder: Pubkey, index: u16) -> StakingInfo {
    find_stake(b.staking_infos, holder, index, b.staking_infos[0])
}

/// A stake with a lock period cannot be withdrawn before it expires.
pub open spec fn still_locked(s: StakingInfo, now: i64) -> bool {
    now < s.expire_date && s.interest_rate % 4 != 0
}

/// The stake that `unstake` returns: the one at the position of the holder's
/// last stake number, counted from one.
pub open spec fn returned_stake(b: BaseAccountView, holder: Pubkey) -> StakingInfo {
    b.staking_infos[last_index(b.staking_infos, holder) - 1]
}

/// Why an unstake is refused, if it is: a paused program, an unknown stake
/// number, or a stake still locked, checked in that order.
pub open spec fn unstake_refusal(b: BaseAccountView, holder: Pubkey, index: u16, now: i64) -> Option<
    ErrorCode,
> {
    if b.paused {
        Some(ErrorCode::ErrorForPause)
    } else if last_index(b.staking_infos, holder) <= index {
        Some(ErrorCode::InvalidStakingIndex)
    } else if still_locked(unstake_target(b, holder, index), now) {
        Some(ErrorCode::UnStakingFailed)
    } else {
        None
    }
}

/// Why a claim is refused, if it is: a paused program or an unknown stake
/// number, checked in that order.
pub open spec fn claim_refusal(b: BaseAccountView, holder: Pubkey, index: u16) -> Option<ErrorCode> {
    if b.paused {
        Some(ErrorCode::ErrorForPause)
    } else if last_index(b.staking_infos, holder) <= index {
        Some(ErrorCode::InvalidStakingIndex)
    } else {
        None
    }
}

/// The base account after an accepted unstake: rewards counted, one holder
/// fewer in the settled stake's class, and the last stake removed.
pub open spec fn account_after_unstake(
    b: BaseAccountView,
    holder: Pubkey,
    index: u16,
    now: i64,
) -> BaseAccountView {
    let s = unstake_target(b, holder, index);
    BaseAccountView {
        total_reward_amount: (b.total_reward_amount + reward_total(b, s, now)) as u64,
        interest_holder_counter: b.interest_holder_counter.update(
            s.interest_rate as int,
            (b.interest_holder_counter[s.interest_rate as int] - 1) as u32,
        ),
        staking_infos: b.staking_infos.drop_last(),
        total_staking: (b.total_staking - 1) as u64,
        ..b
    }
}

/// An accepted unstake stays within the integer ranges, the counters and the list.
pub open spec fn unstake_fits(b: BaseAccountView, holder: Pubkey, index: u16, now: i64) -> bool {
    let s = unstake_target(b, holder, index);
    &&& rewards_fit(b, s, now)
    &&& s.interest_rate < 16
    &&& b.interest_holder_counter[s.interest_rate as int] >= 1
    &&& last_index(b.staking_infos, holder) <= b.staking_infos.len()
    &&& b.total_staking >= 1
}

/// What an accepted unstake asks for: the rewards, then the returned stake's
/// transfer and its event.
pub open spec fn unstake_effects(b: BaseAccountView, holder: Pubkey, index: u16, now: i64) -> Seq<Effect> {
    let r = returned_stake(b, holder);
    reward_effects(b, holder, unstake_target(b, holder, index), now) + seq![
        Effect::TransferExoToHolder { holder, amount: r.amount },
        Effect::Emit(
            Event::UnStakeExo(UnStakeExo { holder, amount: r.amount, interest_rate: r.interest_rate }),
        ),
    ]
}

} // verus!
