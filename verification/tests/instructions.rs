use staking_reward::accounts::{Claim, Initialize, Stake, UnStake, UpdatePauseRoleOrAddressOrInfo};
use staking_reward::events::{
    ClaimExo, ClaimFN, ClaimGCRED, Effect, ErrorCode, Event, ExoAddressUpdated,
    FoundationNodeUpdated, GCREDAddressUpdated, StakeExo, UnStakeExo,
};
use staking_reward::program::{
    claim, get_staking_info, get_tier, get_total_staing_amount, initialize, pause, set_exo_address,
    set_fn_address, set_gcred_address, set_tier, stake, unpause, unstake,
};
use staking_reward::state::{BaseAccount, Pubkey, StakingInfo, Tier, TierCandiate};

const DAY: i64 = 86400;
const MONTH: i64 = 30 * DAY;

fn key(n: u8) -> Pubkey {
    Pubkey::new([n; 32])
}

fn owner() -> Pubkey {
    key(1)
}

fn fresh() -> BaseAccount {
    let mut ctx = Initialize { base_account: BaseAccount::default(), user: owner() };
    initialize(&mut ctx, key(200), key(201), 254).unwrap();
    ctx.base_account
}

fn stake_ctx(base: BaseAccount, holder: Pubkey, balance: u64, now: i64) -> Stake {
    Stake {
        holder,
        base_account: base,
        my_token_account_amount: balance,
        foundation_node_token_account_amount: 0,
        unix_timestamp: now,
    }
}

fn do_stake(base: BaseAccount, holder: Pubkey, amount: &str, duration: u8, now: i64) -> (BaseAccount, Vec<Effect>) {
    let mut ctx = stake_ctx(base, holder, u64::MAX, now);
    let effects = stake(&mut ctx, amount.to_string(), duration).unwrap();
    (ctx.base_account, effects)
}

fn admin(base: BaseAccount, user: Pubkey) -> UpdatePauseRoleOrAddressOrInfo {
    UpdatePauseRoleOrAddressOrInfo { base_account: base, user }
}

#[test]
fn initialize_sets_roles_and_addresses() {
    let base = fresh();
    assert_eq!(base.exo_address, key(200));
    assert_eq!(base.gcred_address, key(201));
    assert_eq!(base.exo_role, key(200));
    assert_eq!(base.owner_role, owner());
    assert_eq!(base.default_admin_role, owner());
    assert_eq!(base.bump, 254);
    assert!(!base.paused);
    assert!(base.staking_infos.is_empty());
    assert_eq!(base.interest_holder_counter, [0u32; 16]);
}

#[test]
fn stake_records_a_stake() {
    let holder = key(7);
    let (base, effects) = do_stake(fresh(), holder, "1500", 1, 1000);
    assert_eq!(
        base.staking_infos,
        vec![StakingInfo {
            holder,
            amount: 1500,
            start_date: 1000,
            expire_date: 1000 + MONTH,
            duration: DAY,
            claim_day: 0,
            interest_rate: 1,
            index: 1,
        }]
    );
    assert_eq!(base.total_staking, 1);
    assert_eq!(base.interest_holder_counter[1], 1);
    assert!(base.tier_candidate.is_empty());
    assert_eq!(
        effects,
        vec![
            Effect::TransferExoToBase { holder, amount: 1500 },
            Effect::Emit(Event::StakeExo(StakeExo { holder, amount: 1500, interest_rate: 1 })),
        ]
    );
}

#[test]
fn stake_numbers_follow_the_holders_last_stake() {
    let (base, _) = do_stake(fresh(), key(7), "10", 0, 0);
    let (base, _) = do_stake(base, key(8), "10", 0, 0);
    let (base, _) = do_stake(base, key(7), "10", 2, 0);
    let numbers: Vec<(Pubkey, u16)> = base.staking_infos.iter().map(|s| (s.holder, s.index)).collect();
    assert_eq!(numbers, vec![(key(7), 1), (key(8), 1), (key(7), 2)]);
    assert_eq!(base.staking_infos[2].expire_date, 2 * MONTH);
    assert_eq!(base.staking_infos[2].interest_rate, 2);
    assert_eq!(base.total_staking, 3);
    assert_eq!(base.interest_holder_counter[0], 2);
    assert_eq!(base.interest_holder_counter[2], 1);
}

#[test]
fn stake_amount_is_parsed_as_decimal() {
    let (base, _) = do_stake(fresh(), key(7), "007", 0, 0);
    assert_eq!(base.staking_infos[0].amount, 7);
    let (base, effects) = do_stake(fresh(), key(7), "+42", 0, 0);
    assert_eq!(base.staking_infos[0].amount, 42);
    assert_eq!(effects[0], Effect::TransferExoToBase { holder: key(7), amount: 42 });
}

#[test]
fn stake_uses_the_holders_tier() {
    let mut ctx = admin(fresh(), owner());
    set_tier(&mut ctx, owner(), 2).unwrap();
    let (base, effects) = do_stake(ctx.base_account, owner(), "5", 3, 0);
    assert_eq!(base.staking_infos[0].interest_rate, 11);
    assert_eq!(base.interest_holder_counter[11], 1);
    assert_eq!(
        effects[1],
        Effect::Emit(Event::StakeExo(StakeExo { holder: owner(), amount: 5, interest_rate: 11 }))
    );
}

#[test]
fn large_long_stake_makes_a_tier_candidate() {
    let holder = key(7);
    let mut base = fresh();
    base.tier_candidate.push(TierCandiate { address: holder, value: false });
    base.tier_candidate.push(TierCandiate { address: key(9), value: false });
    let (base, _) = do_stake(base, holder, "2000000000000001", 1, 0);
    assert_eq!(
        base.tier_candidate,
        vec![
            TierCandiate { address: holder, value: true },
            TierCandiate { address: key(9), value: false },
            TierCandiate { address: holder, value: false },
        ]
    );
    // Exactly the threshold, or a duration no longer than the tier, is not enough.
    let (base, _) = do_stake(fresh(), holder, "2000000000000000", 1, 0);
    assert!(base.tier_candidate.is_empty());
    let (base, _) = do_stake(fresh(), holder, "2000000000000001", 0, 0);
    assert!(base.tier_candidate.is_empty());
}

#[test]
fn foundation_node_stake_sets_its_daily_reward() {
    let mut ctx = admin(fresh(), owner());
    set_fn_address(&mut ctx, key(50)).unwrap();
    let mut ctx = Stake {
        holder: key(50),
        base_account: ctx.base_account,
        my_token_account_amount: 100,
        foundation_node_token_account_amount: 1_000_000,
        unix_timestamp: 0,
    };
    let effects = stake(&mut ctx, "100".to_string(), 0).unwrap();
    assert_eq!(ctx.base_account.fn_reward, 205);
    assert!(ctx.base_account.staking_infos.is_empty());
    assert_eq!(ctx.base_account.total_staking, 0);
    assert_eq!(
        effects,
        vec![
            Effect::TransferExoToBase { holder: key(50), amount: 100 },
            Effect::Emit(Event::StakeExo(StakeExo { holder: key(50), amount: 100, interest_rate: 0 })),
        ]
    );
}

#[test]
fn stake_refusals() {
    let mut paused = admin(fresh(), owner());
    pause(&mut paused).unwrap();
    let mut ctx = stake_ctx(paused.base_account, key(7), 100, 0);
    assert_eq!(stake(&mut ctx, "10".to_string(), 1), Err(ErrorCode::ErrorForPause));

    let mut ctx = stake_ctx(fresh(), key(7), 100, 0);
    assert_eq!(stake(&mut ctx, "101".to_string(), 1), Err(ErrorCode::NotEnoughExoToken));
    assert_eq!(stake(&mut ctx, "100".to_string(), 4), Err(ErrorCode::DurationNotMatch));
    assert_eq!(ctx.base_account, fresh());
}

#[test]
fn claim_pays_exo_reward() {
    let holder = key(7);
    let (base, _) = do_stake(fresh(), holder, "1000000000", 1, 0);
    let (base, _) = do_stake(base, holder, "5", 0, 0);
    let mut ctx = Claim { holder, base_account: base, unix_timestamp: DAY };
    let effects = claim(&mut ctx, 1).unwrap();
    assert_eq!(
        effects,
        vec![
            Effect::MintExo { to: holder, amount: 150684 },
            Effect::MintGcred { to: holder, amount: 0 },
            Effect::Emit(Event::ClaimGCRED(ClaimGCRED { holder, amount: 0 })),
            Effect::Emit(Event::ClaimExo(ClaimExo { holder, reward: 150684, interest_rate: 1 })),
        ]
    );
    assert_eq!(ctx.base_account.total_reward_amount, 150684);
    // The stake itself is left as it is, so a second claim pays the same again.
    let effects = claim(&mut ctx, 1).unwrap();
    assert_eq!(effects[0], Effect::MintExo { to: holder, amount: 150684 });
    assert_eq!(ctx.base_account.total_reward_amount, 2 * 150684);
}

#[test]
fn claim_pays_gcred_reward_up_to_expiry() {
    let holder = key(7);
    let (base, _) = do_stake(fresh(), holder, "1000000000", 3, 0);
    let (base, _) = do_stake(base, holder, "5", 0, 0);
    // Long after the 90-day lock ends, rewards stop at the expiry.
    let mut ctx = Claim { holder, base_account: base, unix_timestamp: 1000 * DAY };
    let effects = claim(&mut ctx, 1).unwrap();
    let days: u64 = 90 * 86400;
    let exo = 1_000_000_000u64 * 65 * days / 365000 / 86400;
    let gcred = 1_000_000_000u64 * 242 * days / 1_000_000;
    assert_eq!(effects[0], Effect::MintExo { to: holder, amount: exo });
    assert_eq!(effects[1], Effect::MintGcred { to: holder, amount: gcred });
    assert_eq!(effects.len(), 4);
}

#[test]
fn claim_pays_foundation_node_share() {
    let holder = owner();
    let mut ctx = admin(fresh(), owner());
    set_fn_address(&mut ctx, key(50)).unwrap();
    set_tier(&mut ctx, owner(), 1).unwrap();
    let mut fn_stake = Stake {
        holder: key(50),
        base_account: ctx.base_account,
        my_token_account_amount: 0,
        foundation_node_token_account_amount: 1_000_000_000,
        unix_timestamp: 0,
    };
    stake(&mut fn_stake, "0".to_string(), 0).unwrap();
    assert_eq!(fn_stake.base_account.fn_reward, 205479);
    let (base, _) = do_stake(fn_stake.base_account, holder, "1000000000", 1, 0);
    let (base, _) = do_stake(base, holder, "5", 2, 0);
    assert_eq!(base.staking_infos[0].interest_rate, 5);
    let mut ctx = Claim { holder, base_account: base, unix_timestamp: DAY };
    let effects = claim(&mut ctx, 1).unwrap();
    assert_eq!(effects.len(), 6);
    assert_eq!(effects[0], Effect::MintExo { to: holder, amount: 178082 });
    assert_eq!(effects[4], Effect::MintExo { to: holder, amount: 1065139200 });
    assert_eq!(effects[5], Effect::Emit(Event::ClaimFN(ClaimFN { holder, reward_amount: 1065139200 })));
    assert_eq!(ctx.base_account.total_reward_amount, 178082 + 1065139200);
}

#[test]
fn claim_before_any_time_passes_pays_nothing() {
    let holder = key(7);
    let (base, _) = do_stake(fresh(), holder, "1000", 1, 500);
    let (base, _) = do_stake(base, holder, "1000", 1, 500);
    let mut ctx = Claim { holder, base_account: base, unix_timestamp: 500 };
    assert_eq!(claim(&mut ctx, 1), Ok(vec![]));
    assert_eq!(ctx.base_account.total_reward_amount, 0);
}

#[test]
fn claim_of_an_unnumbered_stake_pays_nothing() {
    // Stake numbers start at one; below the holder's last number but with no
    // stake of that number, the settled stake is all zeros.
    let holder = key(7);
    let (base, _) = do_stake(fresh(), holder, "1000000000", 1, 0);
    let mut ctx = Claim { holder, base_account: base, unix_timestamp: DAY };
    assert_eq!(claim(&mut ctx, 0), Ok(vec![]));
    assert_eq!(ctx.base_account.total_reward_amount, 0);
}

#[test]
fn claim_refusals() {
    let holder = key(7);
    let (base, _) = do_stake(fresh(), holder, "1000", 1, 0);
    let mut ctx = Claim { holder, base_account: base.clone(), unix_timestamp: DAY };
    assert_eq!(claim(&mut ctx, 1), Err(ErrorCode::InvalidStakingIndex));
    let mut other = Claim { holder: key(8), base_account: base.clone(), unix_timestamp: DAY };
    assert_eq!(claim(&mut other, 0), Err(ErrorCode::InvalidStakingIndex));
    let mut paused = admin(base, owner());
    pause(&mut paused).unwrap();
    let mut ctx = Claim { holder, base_account: paused.base_account, unix_timestamp: DAY };
    assert_eq!(claim(&mut ctx, 0), Err(ErrorCode::ErrorForPause));
}

fn unstake_ready(base: BaseAccount) -> BaseAccount {
    let mut base = base;
    base.tier.push(Tier { address: key(99), value: 0 });
    base.tier_candidate.push(TierCandiate { address: key(99), value: false });
    base
}

#[test]
fn unstake_returns_stake_and_rewards() {
    let holder = key(7);
    let (base, _) = do_stake(fresh(), holder, "1000000000", 1, 0);
    let mut ctx = UnStake { holder, base_account: unstake_ready(base), unix_timestamp: MONTH };
    let effects = unstake(&mut ctx, 0).unwrap();
    let exo = 1_000_000_000u64 * 55 * (MONTH as u64) / 365000 / 86400;
    assert_eq!(
        effects,
        vec![
            Effect::MintExo { to: holder, amount: exo },
            Effect::MintGcred { to: holder, amount: 0 },
            Effect::Emit(Event::ClaimGCRED(ClaimGCRED { holder, amount: 0 })),
            Effect::Emit(Event::ClaimExo(ClaimExo { holder, reward: exo, interest_rate: 1 })),
            Effect::TransferExoToHolder { holder, amount: 1_000_000_000 },
            Effect::Emit(Event::UnStakeExo(UnStakeExo { holder, amount: 1_000_000_000, interest_rate: 1 })),
        ]
    );
    assert!(ctx.base_account.staking_infos.is_empty());
    assert_eq!(ctx.base_account.total_staking, 0);
    assert_eq!(ctx.base_account.interest_holder_counter[1], 0);
    assert_eq!(ctx.base_account.total_reward_amount, exo);
}

#[test]
fn unstake_pays_back_the_stake_at_the_holders_last_number() {
    // Holder 7 has stake number 1 at position 1; holder 8 staked after it.
    let (base, _) = do_stake(fresh(), key(7), "300", 0, 0);
    let (base, _) = do_stake(base, key(8), "800", 0, 0);
    let mut ctx = UnStake { holder: key(7), base_account: unstake_ready(base), unix_timestamp: 0 };
    let effects = unstake(&mut ctx, 0).unwrap();
    assert_eq!(
        effects,
        vec![
            Effect::TransferExoToHolder { holder: key(7), amount: 300 },
            Effect::Emit(Event::UnStakeExo(UnStakeExo { holder: key(7), amount: 300, interest_rate: 0 })),
        ]
    );
    // The last stake of the list is the one removed.
    assert_eq!(ctx.base_account.staking_infos.len(), 1);
    assert_eq!(ctx.base_account.staking_infos[0].holder, key(7));
    assert_eq!(ctx.base_account.total_staking, 1);
    assert_eq!(ctx.base_account.interest_holder_counter[0], 1);
}

#[test]
fn unstake_refusals() {
    let holder = key(7);
    let (base, _) = do_stake(fresh(), holder, "1000", 1, 0);
    let base = unstake_ready(base);
    let mut ctx = UnStake { holder, base_account: base.clone(), unix_timestamp: MONTH - 1 };
    assert_eq!(unstake(&mut ctx, 0), Err(ErrorCode::UnStakingFailed));
    assert_eq!(unstake(&mut ctx, 1), Err(ErrorCode::InvalidStakingIndex));
    assert_eq!(ctx.base_account, base);
    let mut paused = admin(base, owner());
    pause(&mut paused).unwrap();
    let mut ctx = UnStake { holder, base_account: paused.base_account, unix_timestamp: MONTH };
    assert_eq!(unstake(&mut ctx, 0), Err(ErrorCode::ErrorForPause));
}

#[test]
fn owner_settings() {
    let mut ctx = admin(fresh(), owner());
    assert_eq!(
        set_gcred_address(&mut ctx, key(60)),
        Ok(vec![Effect::Emit(Event::GCREDAddressUpdated(GCREDAddressUpdated { gcred_address: key(60) }))])
    );
    assert_eq!(
        set_exo_address(&mut ctx, key(61)),
        Ok(vec![Effect::Emit(Event::ExoAddressUpdated(ExoAddressUpdated { exo_address: key(61) }))])
    );
    assert_eq!(
        set_fn_address(&mut ctx, key(62)),
        Ok(vec![Effect::Emit(Event::FoundationNodeUpdated(FoundationNodeUpdated { foundation_node: key(62) }))])
    );
    assert_eq!(ctx.base_account.gcred_address, key(60));
    assert_eq!(ctx.base_account.exo_address, key(61));
    assert_eq!(ctx.base_account.foundation_node, key(62));
    assert_eq!(pause(&mut ctx), Ok(()));
    assert!(ctx.base_account.paused);
    assert_eq!(unpause(&mut ctx), Ok(()));
    assert!(!ctx.base_account.paused);
}

#[test]
fn settings_refused_to_others() {
    let before = fresh();
    let mut ctx = admin(before.clone(), key(3));
    assert_eq!(pause(&mut ctx), Err(ErrorCode::NotOwnerAccount));
    assert_eq!(unpause(&mut ctx), Err(ErrorCode::NotOwnerAccount));
    assert_eq!(set_gcred_address(&mut ctx, key(60)), Err(ErrorCode::NotOwnerAccount));
    assert_eq!(set_exo_address(&mut ctx, key(60)), Err(ErrorCode::NotOwnerAccount));
    assert_eq!(set_fn_address(&mut ctx, key(60)), Err(ErrorCode::NotOwnerAccount));
    assert_eq!(ctx.base_account, before);
}

#[test]
fn set_tier_then_get_tier() {
    let mut ctx = admin(fresh(), key(3));
    assert_eq!(get_tier(&ctx, owner()), Ok(0));
    assert_eq!(set_tier(&mut ctx, owner(), 2), Ok(()));
    assert_eq!(get_tier(&ctx, owner()), Ok(2));
    assert_eq!(set_tier(&mut ctx, owner(), 3), Ok(()));
    assert_eq!(get_tier(&ctx, owner()), Ok(3));
    assert_eq!(ctx.base_account.tier, vec![Tier { address: owner(), value: 3 }]);
    assert_eq!(get_tier(&ctx, key(4)), Ok(0));
}

#[test]
fn set_tier_refusals() {
    let mut ctx = admin(fresh(), owner());
    assert_eq!(set_tier(&mut ctx, key(4), 1), Err(ErrorCode::NotOwnerAccount));
    pause(&mut ctx).unwrap();
    assert_eq!(set_tier(&mut ctx, owner(), 1), Err(ErrorCode::ErrorForPause));
    assert!(ctx.base_account.tier.is_empty());
}

#[test]
fn get_tier_reads_the_last_entry() {
    let mut base = fresh();
    base.tier.push(Tier { address: key(4), value: 1 });
    base.tier.push(Tier { address: key(5), value: 2 });
    base.tier.push(Tier { address: key(4), value: 3 });
    let ctx = admin(base, owner());
    assert_eq!(get_tier(&ctx, key(4)), Ok(3));
    assert_eq!(get_tier(&ctx, key(5)), Ok(2));
}

#[test]
fn queries_of_stakes() {
    let (base, _) = do_stake(fresh(), key(7), "300", 0, 0);
    let (base, _) = do_stake(base, key(8), "800", 0, 0);
    let (base, _) = do_stake(base, key(7), "25", 2, 0);
    let ctx = admin(base, owner());
    let mine = get_staking_info(&ctx, key(7)).unwrap();
    assert_eq!(mine.len(), 2);
    assert_eq!(mine[0].amount, 300);
    assert_eq!(mine[1].amount, 25);
    assert_eq!(get_total_staing_amount(&ctx, key(7)), Ok(325));
    assert_eq!(get_total_staing_amount(&ctx, key(8)), Ok(800));
    assert_eq!(get_total_staing_amount(&ctx, key(9)), Ok(0));
    assert_eq!(get_staking_info(&ctx, key(9)), Ok(vec![]));
}

#[test]
fn stake_count_matches_stake_list() {
    let (base, _) = do_stake(fresh(), key(7), "300", 0, 0);
    let (base, _) = do_stake(base, key(8), "800", 1, 0);
    let (base, _) = do_stake(base, key(7), "25", 2, 0);
    assert_eq!(base.total_staking as usize, base.staking_infos.len());
    let mut ctx = UnStake { holder: key(7), base_account: unstake_ready(base), unix_timestamp: 0 };
    unstake(&mut ctx, 0).unwrap();
    assert_eq!(ctx.base_account.total_staking as usize, ctx.base_account.staking_infos.len());
    assert_eq!(ctx.base_account.total_staking, 2);
}

#[test]
fn class_counters_sum_to_the_number_of_stakes() {
    let (base, _) = do_stake(fresh(), key(7), "300", 1, 0);
    let (base, _) = do_stake(base, key(8), "800", 0, 0);
    let mut ctx = UnStake { holder: key(7), base_account: unstake_ready(base), unix_timestamp: MONTH };
    unstake(&mut ctx, 0).unwrap();
    let sum: u32 = ctx.base_account.interest_holder_counter.iter().sum();
    assert_eq!(sum as usize, ctx.base_account.staking_infos.len());
    // The settled stake's class loses a holder, while the last stake of the
    // list is the one removed: the class-1 stake remains with a zero counter.
    assert_eq!(ctx.base_account.staking_infos[0].interest_rate, 1);
    assert_eq!(ctx.base_account.interest_holder_counter[1], 0);
    assert_eq!(ctx.base_account.interest_holder_counter[0], 1);
}
