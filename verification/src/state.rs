//! The program's account data: public keys, stakes, tiers and the base account.

use vstd::prelude::*;

verus! {

broadcast use vstd::array::group_array_axioms;

/// Number of interest-rate classes: four tiers times four staking durations.
pub const RATE_CLASSES: usize = 16;

/// A 32-byte account address.
#[derive(Clone, Copy, Debug, PartialEq, Eq)]
pub struct Pubkey {
    pub bytes: [u8; 32],
}

impl Pubkey {
    pub fn new(bytes: [u8; 32]) -> (k: Pubkey)
        ensures
            k.bytes == bytes,
    {
        Pubkey { bytes }
    }

    /// The all-zero address.
    pub fn zero() -> (k: Pubkey)
        ensures
            k == Pubkey::spec_zero(),
    {
        Pubkey { bytes: [0u8; 32] }
    }

    pub open spec fn spec_zero() -> Pubkey {
        Pubkey { bytes: vstd::array::spec_array_fill_for_copy_type::<u8, 32>(0u8) }
    }

    /// Compares two addresses byte by byte.
    pub fn same_as(&self, other: &Pubkey) -> (r: bool)
        ensures
            r == (*self == *other),
    {
        let mut i: usize = 0;
        while i < 32
            invariant
                i <= 32,
                forall|j: int| 0 <= j < i ==> self.bytes[j] == other.bytes[j],
            decreases 32 - i,
        {
            if self.bytes[i] != other.bytes[i] {
                return false;
            }
            i = i + 1;
        }
        assert(self.bytes =~= other.bytes);
        true
    }
}


/// One stake of a holder.
#[derive(Clone, Copy, Debug, PartialEq, Eq)]
pub struct StakingInfo {
    pub holder: Pubkey,
    pub amount: u64,
    pub start_date: i64,
    pub expire_date: i64,
    pub duration: i64,
    pub claim_day: i64,
    pub interest_rate: u8,
    pub index: u16,
}

impl StakingInfo {
    /// The all-zero stake.
    pub open spec fn spec_zeroed() -> StakingInfo {
        StakingInfo {
            holder: Pubkey::spec_zero(),
            amount: 0,
            start_date: 0,
            expire_date: 0,
            duration: 0,
            claim_day: 0,
            interest_rate: 0,
            index: 0,
        }
    }
}

impl Default for StakingInfo {
    fn default() -> (r: StakingInfo)
        ensures
            r == StakingInfo::spec_zeroed(),
    {
        StakingInfo {
            holder: Pubkey::zero(),
            amount: 0,
            start_date: 0,
            expire_date: 0,
            duration: 0,
            claim_day: 0,
            interest_rate: 0,
            index: 0,
        }
    }
}

/// The tier recorded for an address.
#[derive(Clone, Copy, Debug, PartialEq, Eq)]
pub struct Tier {
    pub address: Pubkey,
    pub value: u8,
}

/// An address that qualified for a tier promotion.
#[derive(Clone, Copy, Debug, PartialEq, Eq)]
pub struct TierCandiate {
    pub address: Pubkey,
    pub value: bool,
}

/// The program's base account.
#[derive(Clone, Debug, PartialEq, Eq)]
pub struct BaseAccount {
    pub exo_address: Pubkey,
    pub gcred_address: Pubkey,
    pub default_admin_role: Pubkey,
    pub owner_role: Pubkey,
    pub exo_role: Pubkey,
    pub foundation_node: Pubkey,
    pub bump: u8,
    pub paused: bool,
    pub fn_reward: u64,
    pub total_staking: u64,
    pub total_reward_amount: u64,
    pub interest_holder_counter: [u32; 16],
    pub staking_infos: Vec<StakingInfo>,
    pub tier: Vec<Tier>,
    pub tier_candidate: Vec<TierCandiate>,
}

/// The sum of the class counters.
pub open spec fn counter_sum(counters: Seq<u32>) -> int
    decreases counters.len(),
{
    if counters.len() == 0 {
        0
    } else {
        counter_sum(counters.drop_last()) + counters.last()
    }
}

/// Changing one counter changes the sum by the difference.
pub proof fn lemma_counter_sum_update(counters: Seq<u32>, i: int, v: u32)
    requires
        0 <= i < counters.len(),
    ensures
        counter_sum(counters.update(i, v)) == counter_sum(counters) - counters[i] + v,
    decreases counters.len(),
{
    let u = counters.update(i, v);
    if i < counters.len() - 1 {
        assert(u.drop_last() =~= counters.drop_last().update(i, v));
        lemma_counter_sum_update(counters.drop_last(), i, v);
    } else {
        assert(u.drop_last() =~= counters.drop_last());
    }
}

/// Counters that are all zero sum to zero.
pub proof fn lemma_zero_counters(n: nat)
    ensures
        counter_sum(Seq::new(n, |i: int| 0u32)) == 0,
    decreases n,
{
    if n > 0 {
        assert(Seq::new(n, |i: int| 0u32).drop_last() =~= Seq::new((n - 1) as nat, |i: int| 0u32));
        lemma_zero_counters((n - 1) as nat);
    }
}

/// The base account with its lists taken as sequences.
#[verifier::ext_equal]
pub struct BaseAccountView {
    pub exo_address: Pubkey,
    pub gcred_address: Pubkey,
    pub default_admin_role: Pubkey,
    pub owner_role: Pubkey,
    pub exo_role: Pubkey,
    pub foundation_node: Pubkey,
    pub bump: u8,
    pub paused: bool,
    pub fn_reward: u64,
    pub total_staking: u64,
    pub total_reward_amount: u64,
    pub interest_holder_counter: Seq<u32>,
    pub staking_infos: Seq<StakingInfo>,
    pub tier: Seq<Tier>,
    pub tier_candidate: Seq<TierCandiate>,
}

impl View for BaseAccount {
    type V = BaseAccountView;

    open spec fn view(&self) -> BaseAccountView {
        BaseAccountView {
            exo_address: self.exo_address,
            gcred_address: self.gcred_address,
            default_admin_role: self.default_admin_role,
            owner_role: self.owner_role,
            exo_role: self.exo_role,
            foundation_node: self.foundation_node,
            bump: self.bump,
            paused: self.paused,
            fn_reward: self.fn_reward,
            total_staking: self.total_staking,
            total_reward_amount: self.total_reward_amount,
            interest_holder_counter: self.interest_holder_counter@,
            staking_infos: self.staking_infos@,
            tier: self.tier@,
            tier_candidate: self.tier_candidate@,
        }
    }
}

impl BaseAccountView {
    /// A freshly created account: every byte zero.
    pub open spec fn zeroed() -> BaseAccountView {
        BaseAccountView {
            exo_address: Pubkey::spec_zero(),
            gcred_address: Pubkey::spec_zero(),
            default_admin_role: Pubkey::spec_zero(),
            owner_role: Pubkey::spec_zero(),
            exo_role: Pubkey::spec_zero(),
            foundation_node: Pubkey::spec_zero(),
            bump: 0,
            paused: false,
            fn_reward: 0,
            total_staking: 0,
            total_reward_amount: 0,
            interest_holder_counter: Seq::new(16, |i: int| 0u32),
            staking_infos: Seq::empty(),
            tier: Seq::empty(),
            tier_candidate: Seq::empty(),
        }
    }

    /// What the instructions keep: the stake count and the sum of the class
    /// counters both match the stake list, and every stake's interest-rate
    /// class names one of the sixteen counters.
    pub open spec fn wf(self) -> bool {
        &&& self.interest_holder_counter.len() == 16
        &&& self.total_staking == self.staking_infos.len()
        &&& counter_sum(self.interest_holder_counter) == self.staking_infos.len()
        &&& forall|i: int|
            0 <= i < self.staking_infos.len() ==> #[trigger] self.staking_infos[i].interest_rate
                < 16
    }
}

impl Default for BaseAccount {
    fn default() -> (r: BaseAccount)
        ensures
            r@ == BaseAccountView::zeroed(),
    {
        let r = BaseAccount {
            exo_address: Pubkey::zero(),
            gcred_address: Pubkey::zero(),
            default_admin_role: Pubkey::zero(),
            owner_role: Pubkey::zero(),
            exo_role: Pubkey::zero(),
            foundation_node: Pubkey::zero(),
            bump: 0,
            paused: false,
            fn_reward: 0,
            total_staking: 0,
            total_reward_amount: 0,
            interest_holder_counter: [0u32; 16],
            staking_infos: Vec::new(),
            tier: Vec::new(),
            tier_candidate: Vec::new(),
        };
        assert(r.interest_holder_counter@ =~= Seq::new(16, |i: int| 0u32));
        proof {
            lemma_zero_counters(16);
        }
        r
    }
}

} // verus!
