use inverse_arena::staking::{StakingContract, StakingError, StakingEvent, HELLO};
use inverse_arena::{AccountId, TokenTransfer};

const ADMIN: AccountId = 1;
const TOKEN: AccountId = 2;
const STAKER: AccountId = 10;

fn setup() -> StakingContract {
    let mut pool = StakingContract::new();
    pool.initialize(ADMIN, TOKEN).unwrap();
    pool
}

#[test]
fn hello_returns_101112() {
    assert_eq!(StakingContract::hello(), 101112);
    assert_eq!(HELLO, 101112);
}

#[test]
fn initialize_sets_admin_and_token() {
    let pool = setup();
    assert_eq!(pool.admin(), ADMIN);
    assert_eq!(pool.token(), TOKEN);
}

#[test]
fn initialize_rejects_duplicate() {
    let mut pool = setup();
    let result = pool.initialize(77, 78);
    assert!(result.is_err());
    assert_eq!(result, Err(StakingError::AlreadyInitialized));
    assert_eq!(pool.admin(), ADMIN);
}

#[test]
fn stake_mints_shares_one_to_one_when_empty() {
    let mut pool = setup();
    let shares = pool.stake(STAKER, 100).unwrap();
    assert_eq!(shares, 100);
    assert_eq!(pool.total_staked(), 100);
    assert_eq!(pool.total_shares(), 100);
}

#[test]
fn stake_mints_proportional_shares_when_not_empty() {
    let mut pool = setup();
    let staker2: AccountId = 11;
    pool.stake(STAKER, 100).unwrap();
    let shares = pool.stake(staker2, 100).unwrap();
    assert_eq!(shares, 100);
    assert_eq!(pool.total_staked(), 200);
    assert_eq!(pool.total_shares(), 200);
}

#[test]
fn stake_requires_positive_amount() {
    let mut pool = setup();
    let result = pool.stake(STAKER, 0);
    assert!(result.is_err());
    assert_eq!(result, Err(StakingError::InvalidAmount));
}

#[test]
fn unstake_returns_proportional_tokens() {
    let mut pool = setup();
    pool.stake(STAKER, 100).unwrap();
    let tokens = pool.unstake(STAKER, 50).unwrap();
    assert_eq!(tokens, 50);
    assert_eq!(pool.total_staked(), 50);
    assert_eq!(pool.total_shares(), 50);
}

#[test]
fn unstake_rejects_excess_shares() {
    let mut pool = setup();
    pool.stake(STAKER, 100).unwrap();
    let result = pool.unstake(STAKER, 101);
    assert!(result.is_err());
    assert_eq!(result, Err(StakingError::InsufficientShares));
}

#[test]
fn unstake_rejects_zero_shares() {
    let mut pool = setup();
    pool.stake(STAKER, 100).unwrap();
    let result = pool.unstake(STAKER, 0);
    assert!(result.is_err());
    assert_eq!(result, Err(StakingError::InvalidAmount));
}

#[test]
fn get_position_returns_zero_when_no_stake() {
    let pool = setup();
    let pos = pool.get_position(STAKER);
    assert_eq!(pos.amount, 0);
    assert_eq!(pos.shares, 0);
}

#[test]
fn get_position_returns_stake_after_staking() {
    let mut pool = setup();
    pool.stake(STAKER, 100).unwrap();
    let pos = pool.get_position(STAKER);
    assert_eq!(pos.amount, 100);
    assert_eq!(pos.shares, 100);
}

#[test]
fn staked_balance_matches_position() {
    let mut pool = setup();
    pool.stake(STAKER, 75).unwrap();
    assert_eq!(pool.staked_balance(STAKER), 75);
}

#[test]
fn get_staker_stats_computes_share_bps() {
    let mut pool = setup();
    let staker2: AccountId = 11;
    pool.stake(STAKER, 100).unwrap();
    pool.stake(staker2, 300).unwrap();
    let stats = pool.get_staker_stats(STAKER);
    assert_eq!(stats.amount, 100);
    assert_eq!(stats.shares, 100);
    assert_eq!(stats.stake_share_bps, 2500);
}

#[test]
fn get_staker_stats_zero_bps_when_no_stake() {
    let pool = setup();
    let stats = pool.get_staker_stats(STAKER);
    assert_eq!(stats.stake_share_bps, 0);
}

#[test]
fn pause_blocks_stake() {
    let mut pool = setup();
    pool.pause().unwrap();
    assert!(pool.is_paused());
    let result = pool.stake(STAKER, 100);
    assert!(result.is_err());
    assert_eq!(result, Err(StakingError::Paused));
}

#[test]
fn unpause_resumes_stake() {
    let mut pool = setup();
    pool.pause().unwrap();
    pool.unpause().unwrap();
    assert!(!pool.is_paused());
    let result = pool.stake(STAKER, 100);
    assert!(result.is_ok());
}

#[test]
fn pause_requires_admin() {
    let mut pool = setup();
    let result = pool.pause();
    assert!(result.is_ok());
    let mut uninitialized = StakingContract::new();
    assert_eq!(uninitialized.pause(), Err(StakingError::NotInitialized));
}

#[test]
fn multiple_stakers_get_fair_shares() {
    let mut pool = setup();
    let mut stakers: Vec<AccountId> = Vec::new();
    for i in 0..5u64 {
        let s = 100 + i;
        pool.stake(s, 100).unwrap();
        stakers.push(s);
    }
    assert_eq!(pool.total_staked(), 500);
    assert_eq!(pool.total_shares(), 500);
    for s in stakers.iter() {
        let pos = pool.get_position(*s);
        assert_eq!(pos.amount, 100);
        assert_eq!(pos.shares, 100);
    }
}

#[test]
fn unstake_reduces_global_totals() {
    let mut pool = setup();
    let staker2: AccountId = 11;
    pool.stake(STAKER, 200).unwrap();
    pool.stake(staker2, 200).unwrap();
    pool.unstake(STAKER, 100).unwrap();
    assert_eq!(pool.total_staked(), 300);
    assert_eq!(pool.total_shares(), 300);
    let pos = pool.get_position(STAKER);
    assert_eq!(pos.amount, 100);
    assert_eq!(pos.shares, 100);
}

#[test]
fn stake_before_initialize_is_refused() {
    let mut pool = StakingContract::new();
    assert_eq!(pool.stake(STAKER, 10), Err(StakingError::NotInitialized));
    assert_eq!(pool.unstake(STAKER, 10), Err(StakingError::NotInitialized));
}

#[test]
fn pause_blocks_unstake() {
    let mut pool = setup();
    pool.stake(STAKER, 100).unwrap();
    pool.pause().unwrap();
    assert_eq!(pool.unstake(STAKER, 10), Err(StakingError::Paused));
    assert_eq!(pool.total_staked(), 100);
}

#[test]
fn unstake_undoes_stake_exactly() {
    let mut pool = setup();
    pool.stake(20, 333).unwrap();
    let shares = pool.stake(STAKER, 1234).unwrap();
    let tokens = pool.unstake(STAKER, shares).unwrap();
    assert_eq!(tokens, 1234);
    assert_eq!(pool.total_staked(), 333);
    assert_eq!(pool.get_position(STAKER).amount, 0);
}

#[test]
fn stake_and_unstake_record_transfers_and_events() {
    let mut pool = setup();
    pool.stake(STAKER, 40).unwrap();
    pool.unstake(STAKER, 15).unwrap();
    assert_eq!(
        pool.transfers,
        vec![
            TokenTransfer::In { from: STAKER, amount: 40 },
            TokenTransfer::Out { to: STAKER, amount: 15 },
        ]
    );
    assert_eq!(
        pool.events,
        vec![
            StakingEvent::Staked { staker: STAKER, amount: 40, shares: 40 },
            StakingEvent::Unstaked { staker: STAKER, tokens: 15, shares: 15 },
        ]
    );
}

#[test]
fn failed_stake_changes_nothing() {
    let mut pool = setup();
    pool.stake(STAKER, 40).unwrap();
    let _ = pool.stake(STAKER, -5);
    let _ = pool.unstake(STAKER, 41);
    assert_eq!(pool.total_staked(), 40);
    assert_eq!(pool.transfers.len(), 1);
    assert_eq!(pool.events.len(), 1);
}
