//! Searches and updates of the base account's lists.

use vstd::prelude::*;
use crate::state::{Pubkey, StakingInfo, Tier, TierCandiate};
use crate::model::{
    find_stake, indices_below_max, last_index, next_index, stakes_of, sum_amounts,
    tier_of, tiers_after_set, total_staked,
};

verus! {

/// The tier of `holder`.
pub fn tier_value_of(tiers: &Vec<Tier>, holder: &Pubkey) -> (v: u8)
    ensures
        v == tier_of(tiers@, *holder),
{
    let mut value: u8 = 0;
    let mut i: usize = 0;
    while i < tiers.len()
        invariant
            i <= tiers.len(),
            value == tier_of(tiers@.take(i as int), *holder),
        decreases tiers.len() - i,
    {
        if tiers[i].address.same_as(holder) {
            value = tiers[i].value;
        }
        assert(tiers@.take(i + 1).drop_last() =~= tiers@.take(i as int));
        i = i + 1;
    }
    assert(tiers@.take(tiers.len() as int) =~= tiers@);
    value
}

/// The number that a new stake of `holder` gets.
pub fn next_stake_number(infos: &Vec<StakingInfo>, holder: &Pubkey) -> (n: u16)
    requires
        indices_below_max(infos@, *holder),
    ensures
        n == next_index(infos@, *holder),
{
    let mut index: u16 = 1;
    let mut i: usize = 0;
    while i < infos.len()
        invariant
            i <= infos.len(),
            indices_below_max(infos@, *holder),
            index == next_index(infos@.take(i as int), *holder),
        decreases infos.len() - i,
    {
        if infos[i].holder.same_as(holder) {
            index = infos[i].index + 1;
        }
        assert(infos@.take(i + 1).drop_last() =~= infos@.take(i as int));
        i = i + 1;
    }
    assert(infos@.take(infos.len() as int) =~= infos@);
    index
}

/// The number of `holder`'s last stake, and its last stake numbered `index`
/// (or `default`).
pub fn locate_stake(infos: &Vec<StakingInfo>, holder: &Pubkey, index: u16, default: StakingInfo) -> (r: (
    u16,
    StakingInfo,
))
    ensures
        r.0 == last_index(infos@, *holder),
        r.1 == find_stake(infos@, *holder, index, default),
{
    let mut max_length: u16 = 0;
    let mut target = default;
    let mut i: usize = 0;
    while i < infos.len()
        invariant
            i <= infos.len(),
            max_length == last_index(infos@.take(i as int), *holder),
            target == find_stake(infos@.take(i as int), *holder, index, default),
        decreases infos.len() - i,
    {
        if infos[i].holder.same_as(holder) {
            max_length = infos[i].index;
            if infos[i].index == index {
                target = infos[i];
            }
        }
        assert(infos@.take(i + 1).drop_last() =~= infos@.take(i as int));
        i = i + 1;
    }
    assert(infos@.take(infos.len() as int) =~= infos@);
    (max_length, target)
}

/// Marks every candidate entry of `holder`.
pub fn mark_candidates(cands: &mut Vec<TierCandiate>, holder: &Pubkey)
    ensures
        final(cands)@ == old(cands)@.map_values(
            |c: TierCandiate|
                if c.address == *holder {
                    TierCandiate { address: c.address, value: true }
                } else {
                    c
                },
        ),
{
    let ghost start = cands@;
    let mut i: usize = 0;
    while i < cands.len()
        invariant
            i <= cands.len(),
            cands@.len() == start.len(),
            forall|j: int|
                0 <= j < i ==> #[trigger] cands@[j] == (if start[j].address == *holder {
                    TierCandiate { address: start[j].address, value: true }
                } else {
                    start[j]
                }),
            forall|j: int| i <= j < cands@.len() ==> #[trigger] cands@[j] == start[j],
        decreases cands.len() - i,
    {
        if cands[i].address.same_as(holder) {
            let address = cands[i].address;
            cands[i] = TierCandiate { address, value: true };
        }
        i = i + 1;
    }
    assert(cands@ =~= start.map_values(
        |c: TierCandiate|
            if c.address == *holder {
                TierCandiate { address: c.address, value: true }
            } else {
                c
            },
    ));
}

/// Gives `holder` tier `value`.
pub fn assign_tier(tiers: &mut Vec<Tier>, holder: &Pubkey, value: u8)
    ensures
        final(tiers)@ == tiers_after_set(old(tiers)@, *holder, value),
{
    let ghost start = tiers@;
    let mut flag = false;
    let mut i: usize = 0;
    while i < tiers.len()
        invariant
            i <= tiers.len(),
            tiers@.len() == start.len(),
            flag <==> exists|j: int| 0 <= j < i && #[trigger] start[j].address == *holder,
            forall|j: int|
                0 <= j < i ==> #[trigger] tiers@[j] == (if start[j].address == *holder {
                    Tier { address: start[j].address, value }
                } else {
                    start[j]
                }),
            forall|j: int| i <= j < tiers@.len() ==> #[trigger] tiers@[j] == start[j],
        decreases tiers.len() - i,
    {
        if tiers[i].address.same_as(holder) {
            let address = tiers[i].address;
            tiers[i] = Tier { address, value };
            flag = true;
        }
        i = i + 1;
    }
    if !flag {
        assert(!exists|j: int| 0 <= j < start.len() && #[trigger] start[j].address == *holder);
        assert(tiers@ =~= start);
        tiers.push(Tier { address: *holder, value });
    } else {
        assert(tiers@ =~= start.map_values(
            |t: Tier| if t.address == *holder { Tier { address: t.address, value } } else { t },
        ));
    }
}

/// One step of a filter over a growing prefix.
pub proof fn lemma_filter_take_step(s: Seq<StakingInfo>, holder: Pubkey, i: int)
    requires
        0 <= i < s.len(),
    ensures
        stakes_of(s.take(i + 1), holder) == if s[i].holder == holder {
            stakes_of(s.take(i), holder).push(s[i])
        } else {
            stakes_of(s.take(i), holder)
        },
{
    reveal_with_fuel(Seq::filter, 1);
    assert(s.take(i + 1).drop_last() =~= s.take(i));
}

/// A prefix holds no more of `holder`'s stake than the whole list.
pub proof fn lemma_total_staked_prefix(s: Seq<StakingInfo>, holder: Pubkey, i: int)
    requires
        0 <= i <= s.len(),
    ensures
        0 <= total_staked(s.take(i), holder) <= total_staked(s, holder),
    decreases s.len() - i,
{
    if i == s.len() {
        assert(s.take(i) =~= s);
        lemma_sum_nonnegative(stakes_of(s, holder));
    } else {
        lemma_total_staked_prefix(s, holder, i + 1);
        lemma_filter_take_step(s, holder, i);
        let f = stakes_of(s.take(i), holder);
        lemma_sum_nonnegative(f);
        if s[i].holder == holder {
            assert(f.push(s[i]).drop_last() =~= f);
            assert(sum_amounts(f.push(s[i])) == sum_amounts(f) + s[i].amount);
        }
    }
}

pub proof fn lemma_sum_nonnegative(s: Seq<StakingInfo>)
    ensures
        sum_amounts(s) >= 0,
    decreases s.len(),
{
    if s.len() > 0 {
        lemma_sum_nonnegative(s.drop_last());
    }
}

/// The stakes of `holder`, in order.
pub fn collect_stakes(infos: &Vec<StakingInfo>, holder: &Pubkey) -> (r: Vec<StakingInfo>)
    ensures
        r@ == stakes_of(infos@, *holder),
{
    let mut r: Vec<StakingInfo> = Vec::new();
    let mut i: usize = 0;
    assert(infos@.take(0) =~= Seq::<StakingInfo>::empty());
    proof {
        reveal_with_fuel(Seq::filter, 1);
    }
    while i < infos.len()
        invariant
            i <= infos.len(),
            r@ == stakes_of(infos@.take(i as int), *holder),
        decreases infos.len() - i,
    {
        proof {
            lemma_filter_take_step(infos@, *holder, i as int);
        }
        if infos[i].holder.same_as(holder) {
            r.push(infos[i]);
        }
        i = i + 1;
    }
    assert(infos@.take(infos.len() as int) =~= infos@);
    r
}

/// The amount `holder` has staked in total.
pub fn sum_stakes(infos: &Vec<StakingInfo>, holder: &Pubkey) -> (total: u64)
    requires
        total_staked(infos@, *holder) <= u64::MAX,
    ensures
        total == total_staked(infos@, *holder),
{
    let mut amount: u64 = 0;
    let mut i: usize = 0;
    assert(infos@.take(0) =~= Seq::<StakingInfo>::empty());
    proof {
        reveal_with_fuel(Seq::filter, 1);
    }
    while i < infos.len()
        invariant
            i <= infos.len(),
            total_staked(infos@, *holder) <= u64::MAX,
            amount == total_staked(infos@.take(i as int), *holder),
        decreases infos.len() - i,
    {
        proof {
            lemma_filter_take_step(infos@, *holder, i as int);
            lemma_total_staked_prefix(infos@, *holder, i + 1);
            let f = stakes_of(infos@.take(i as int), *holder);
            assert(f.push(infos@[i as int]).drop_last() =~= f);
        }
        if infos[i].holder.same_as(holder) {
            amount = amount + infos[i].amount;
        }
        i = i + 1;
    }
    assert(infos@.take(infos.len() as int) =~= infos@);
    amount
}

} // verus!
