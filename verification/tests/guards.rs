use staking_reward::accounts::{Claim, Initialize, Stake, UnStake, UpdatePauseRoleOrAddressOrInfo};
use staking_reward::guards::{claim_is_safe, stake_is_safe, total_is_safe, unstake_is_safe};
use staking_reward::program::initialize;
use staking_reward::state::{BaseAccount, Pubkey, StakingInfo, Tier, TierCandiate};

fn k(n: u8) -> Pubkey {
    Pubkey::new([n; 32])
}

fn base() -> BaseAccount {
    let mut ctx = Initialize { base_account: BaseAccount::default(), user: k(1) };
    initialize(&mut ctx, k(200), k(201), 1).unwrap();
    ctx.base_account
}

fn info(holder: Pubkey, amount: u64, interest_rate: u8, index: u16) -> StakingInfo {
    StakingInfo {
        holder,
        amount,
        start_date: 0,
        expire_date: 1_000_000,
        duration: 0,
        claim_day: 0,
        interest_rate,
        index,
    }
}

fn stake_ctx(b: BaseAccount, holder: Pubkey) -> Stake {
    Stake {
        holder,
        base_account: b,
        my_token_account_amount: u64::MAX,
        foundation_node_token_account_amount: u64::MAX,
        unix_timestamp: 0,
    }
}

#[test]
fn stake_amount_must_parse() {
    let ctx = stake_ctx(base(), k(7));
    assert!(stake_is_safe(&ctx, &"12".to_string(), 1));
    assert!(stake_is_safe(&ctx, &"+12".to_string(), 1));
    assert!(stake_is_safe(&ctx, &"18446744073709551615".to_string(), 1));
    assert!(!stake_is_safe(&ctx, &"18446744073709551616".to_string(), 1));
    assert!(!stake_is_safe(&ctx, &"".to_string(), 1));
    assert!(!stake_is_safe(&ctx, &"+".to_string(), 1));
    assert!(!stake_is_safe(&ctx, &"-1".to_string(), 1));
    assert!(!stake_is_safe(&ctx, &" 1".to_string(), 1));
    assert!(!stake_is_safe(&ctx, &"1a".to_string(), 1));
}

#[test]
fn stake_class_must_name_a_counter() {
    let mut b = base();
    b.tier.push(Tier { address: k(7), value: 4 });
    let ctx = stake_ctx(b.clone(), k(7));
    assert!(!stake_is_safe(&ctx, &"1".to_string(), 0));
    // A refused stake is safe whatever the tier.
    assert!(stake_is_safe(&ctx, &"1".to_string(), 4));
    // The foundation node's stake needs no counter, only a class that fits a
    // byte and a daily reward that can be computed from its balance.
    b.foundation_node = k(7);
    let mut ctx = stake_ctx(b.clone(), k(7));
    assert!(!stake_is_safe(&ctx, &"1".to_string(), 0));
    ctx.foundation_node_token_account_amount = 1_000;
    assert!(stake_is_safe(&ctx, &"1".to_string(), 0));
    b.tier[0].value = 64;
    let mut ctx = stake_ctx(b, k(7));
    ctx.foundation_node_token_account_amount = 1_000;
    assert!(!stake_is_safe(&ctx, &"1".to_string(), 0));
}

#[test]
fn stake_number_must_not_overflow() {
    let mut b = base();
    b.staking_infos.push(info(k(7), 1, 0, u16::MAX));
    b.total_staking = 1;
    let ctx = stake_ctx(b.clone(), k(7));
    assert!(!stake_is_safe(&ctx, &"1".to_string(), 0));
    let ctx = stake_ctx(b, k(8));
    assert!(stake_is_safe(&ctx, &"1".to_string(), 0));
}

#[test]
fn unstake_needs_first_entries() {
    let mut b = base();
    b.staking_infos.push(info(k(7), 1, 0, 1));
    b.total_staking = 1;
    b.interest_holder_counter[0] = 1;
    let ctx = UnStake { holder: k(7), base_account: b.clone(), unix_timestamp: 10 };
    assert!(!unstake_is_safe(&ctx, 0));
    b.tier.push(Tier { address: k(7), value: 0 });
    b.tier_candidate.push(TierCandiate { address: k(7), value: false });
    let ctx = UnStake { holder: k(7), base_account: b.clone(), unix_timestamp: 10 };
    assert!(unstake_is_safe(&ctx, 0));
    b.interest_holder_counter[0] = 0;
    let ctx = UnStake { holder: k(7), base_account: b, unix_timestamp: 10 };
    assert!(!unstake_is_safe(&ctx, 0));
}

#[test]
fn claim_rewards_must_fit() {
    let mut b = base();
    b.staking_infos.push(info(k(7), u64::MAX, 1, 1));
    b.staking_infos.push(info(k(7), 1, 1, 2));
    b.total_staking = 2;
    let ctx = Claim { holder: k(7), base_account: b.clone(), unix_timestamp: 10 };
    assert!(!claim_is_safe(&ctx, 1));
    // Before any time has passed there is nothing to compute.
    let ctx = Claim { holder: k(7), base_account: b, unix_timestamp: 0 };
    assert!(claim_is_safe(&ctx, 1));
}

#[test]
fn totals_must_fit() {
    let mut b = base();
    b.staking_infos.push(info(k(7), u64::MAX, 0, 1));
    b.staking_infos.push(info(k(7), 1, 0, 2));
    b.staking_infos.push(info(k(8), 5, 0, 1));
    let ctx = UpdatePauseRoleOrAddressOrInfo { base_account: b, user: k(1) };
    assert!(!total_is_safe(&ctx, k(7)));
    assert!(total_is_safe(&ctx, k(8)));
}
