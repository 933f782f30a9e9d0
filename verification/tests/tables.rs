use staking_reward::events::ErrorCode;
use staking_reward::rates::{
    cal_reward, get_exo_reward_apr, get_fn_reward_percent, get_gcred_return, get_staking_period,
    get_tier_amount,
};
use staking_reward::state::{BaseAccount, Pubkey, StakingInfo};

#[test]
fn tier_amounts() {
    assert_eq!(get_tier_amount(), vec![0, 2000000000000000, 4000000000000000, 8000000000000000]);
}

#[test]
fn staking_periods() {
    assert_eq!(get_staking_period(), vec![0, 2592000, 5184000, 7776000]);
}

#[test]
fn reward_tables() {
    let apr: Vec<u8> = (0..16).map(get_exo_reward_apr).collect();
    assert_eq!(apr, vec![50, 55, 60, 65, 60, 65, 70, 75, 60, 65, 70, 75, 60, 65, 70, 75]);
    let gcred: Vec<u16> = (0..16).map(get_gcred_return).collect();
    assert_eq!(gcred, vec![0, 0, 0, 242, 0, 0, 266, 354, 0, 0, 293, 390, 0, 0, 322, 426]);
    assert_eq!(
        get_fn_reward_percent(),
        vec![0, 0, 0, 0, 30, 60, 85, 115, 40, 70, 95, 125, 50, 80, 105, 145]
    );
}

#[test]
fn reward_formula() {
    assert_eq!(cal_reward(1_000_000_000, 55, 86400), 150684);
    assert_eq!(cal_reward(365000, 1, 86400), 1);
    assert_eq!(cal_reward(365000, 1, 86399), 0);
    assert_eq!(cal_reward(0, 75, 86400), 0);
}

#[test]
fn error_messages() {
    assert_eq!(ErrorCode::NotOwnerAccount.msg(), "You must be owner!");
    assert_eq!(ErrorCode::NotEnoughExoToken.msg(), "Not enough EXO token to stake!");
    assert_eq!(ErrorCode::DurationNotMatch.msg(), "Duration does not match");
    assert_eq!(ErrorCode::ErrorForPause.msg(), "The contract is paused!");
    assert_eq!(ErrorCode::InvalidStakingIndex.msg(), "Invalid staking index!");
    assert_eq!(ErrorCode::UnStakingFailed.msg(), "Cannot unstake!");
}

#[test]
fn keys_compare_by_bytes() {
    let a = Pubkey::new([3; 32]);
    let mut bytes = [3u8; 32];
    assert!(a.same_as(&Pubkey::new(bytes)));
    bytes[31] = 4;
    assert!(!a.same_as(&Pubkey::new(bytes)));
    assert!(Pubkey::zero().same_as(&Pubkey::new([0; 32])));
}

#[test]
fn fresh_account_is_zeroed() {
    let b = BaseAccount::default();
    assert_eq!(b.owner_role, Pubkey::zero());
    assert_eq!(b.total_staking, 0);
    assert_eq!(b.interest_holder_counter, [0; 16]);
    let s = StakingInfo::default();
    assert_eq!(s.amount, 0);
    assert_eq!(s.holder, Pubkey::zero());
}
