use magicshards_staking::error::StakingError;
use magicshards_staking::farm::{
    add_manager, add_to_whitelist, create_farm, create_locks, fund_reward, remove_from_whitelist,
    Farm,
};
use magicshards_staking::farmer::{initialize_farmer, recompute_rate_sum};
use magicshards_staking::lock::LockConfig;
use magicshards_staking::ops::{claim_rewards, compute_reward_rate, stake, unstake};
use magicshards_staking::receipt::{ReceiptState, StakeReceipt};

/// A farm with authority 1, collection 77 whitelisted at base rate 5, and one
/// tier (id 0): duration 100, cooldown 10, neutral bonus.
fn standard_farm() -> Farm {
    let mut farm = create_farm(1);
    add_to_whitelist(&mut farm, 1, 77, 5).unwrap();
    create_locks(
        &mut farm,
        1,
        vec![LockConfig { duration: 100, cooldown: 10, bonus_factor: 10000 }],
    )
    .unwrap();
    fund_reward(&mut farm, 10_000).unwrap();
    farm
}

#[test]
fn reward_rate_determinism() {
    assert_eq!(compute_reward_rate(2, 5, 10000), Ok(10));
    assert_eq!(compute_reward_rate(2, 5, 15000), Ok(15));
    // truncation toward zero: 3 * 3 * 0.5x = 4.5 -> 4
    assert_eq!(compute_reward_rate(3, 3, 5000), Ok(4));
    assert_eq!(compute_reward_rate(0, 5, 10000), Ok(0));
}

#[test]
fn reward_rate_overflow() {
    assert_eq!(
        compute_reward_rate(u64::MAX, 2, 10000),
        Err(StakingError::ArithmeticOverflow)
    );
    assert_eq!(
        compute_reward_rate(u64::MAX, 1, 20000),
        Err(StakingError::ArithmeticOverflow)
    );
}

#[test]
fn stake_reserves_full_term() {
    let mut farm = standard_farm();
    let mut farmer = initialize_farmer(42);
    let mut receipt = StakeReceipt::uninitialized(42, 9);
    let out = stake(&mut farm, &mut farmer, &mut receipt, 77, 9, 0, 2, 1000).unwrap();
    assert_eq!(out.reward_rate, 10);
    assert_eq!(out.reserved, 1000);
    assert_eq!(out.lock_amount, 2);
    assert_eq!(farm.reward.reserved, 1000);
    assert_eq!(farmer.total_reward_rate, 10);
    assert_eq!(receipt.state, ReceiptState::Running);
    assert_eq!(receipt.start_ts, 1000);
    assert_eq!(receipt.reward_rate, 10);
    assert_eq!(receipt.claimed_amount, 0);
}

#[test]
fn stake_fails_when_pool_cannot_cover() {
    let mut farm = standard_farm();
    // leave less than the 1000 the stake needs
    farm.reward.try_reserve(9_500).unwrap();
    let mut farmer = initialize_farmer(42);
    let mut receipt = StakeReceipt::uninitialized(42, 9);
    let r = stake(&mut farm, &mut farmer, &mut receipt, 77, 9, 0, 2, 1000);
    assert_eq!(r, Err(StakingError::InsufficientRewardPool));
    assert_eq!(farm.reward.reserved, 9_500);
    assert_eq!(farmer.total_reward_rate, 0);
    assert_eq!(receipt.state, ReceiptState::Uninitialized);
}

#[test]
fn double_lock_always_fails() {
    let mut farm = standard_farm();
    let mut farmer = initialize_farmer(42);
    let mut receipt = StakeReceipt::uninitialized(42, 9);
    stake(&mut farm, &mut farmer, &mut receipt, 77, 9, 0, 2, 1000).unwrap();
    let snapshot_pool = farm.reward;
    let snapshot_receipt = receipt;
    let snapshot_farmer = farmer;
    let r = stake(&mut farm, &mut farmer, &mut receipt, 77, 9, 0, 2, 2000);
    assert_eq!(r, Err(StakingError::GemStillStaked));
    assert_eq!(farm.reward, snapshot_pool);
    assert_eq!(receipt, snapshot_receipt);
    assert_eq!(farmer, snapshot_farmer);
}

#[test]
fn cooldown_enforcement() {
    let mut farm = standard_farm();
    let mut farmer = initialize_farmer(42);
    let mut receipt = StakeReceipt::uninitialized(42, 9);
    stake(&mut farm, &mut farmer, &mut receipt, 77, 9, 0, 2, 0).unwrap();
    unstake(&mut farm, &mut farmer, &mut receipt, 100).unwrap();
    assert_eq!(receipt.state, ReceiptState::Ended(100));
    let r = stake(&mut farm, &mut farmer, &mut receipt, 77, 9, 0, 2, 105);
    assert_eq!(r, Err(StakingError::CooldownNotElapsed));
    let r = stake(&mut farm, &mut farmer, &mut receipt, 77, 9, 0, 2, 110);
    assert!(r.is_ok());
    assert_eq!(receipt.state, ReceiptState::Running);
    assert_eq!(receipt.start_ts, 110);
}

#[test]
fn claim_pays_only_new_accrual() {
    let mut farm = standard_farm();
    let mut farmer = initialize_farmer(42);
    let mut receipt = StakeReceipt::uninitialized(42, 9);
    stake(&mut farm, &mut farmer, &mut receipt, 77, 9, 0, 2, 0).unwrap();
    // 30 time units at rate 10
    assert_eq!(claim_rewards(&mut farm, &farmer, &mut receipt, 30), Ok(300));
    assert_eq!(farm.reward.claimed, 300);
    assert_eq!(farm.reward.reserved, 700);
    assert_eq!(receipt.claimed_amount, 300);
    // no elapsed time: nothing new, nothing paid twice
    let r = claim_rewards(&mut farm, &farmer, &mut receipt, 30);
    assert_eq!(r, Err(StakingError::NothingToClaim));
    assert_eq!(farm.reward.claimed, 300);
    assert_eq!(receipt.claimed_amount, 300);
}

#[test]
fn claim_capped_at_full_term() {
    let mut farm = standard_farm();
    let mut farmer = initialize_farmer(42);
    let mut receipt = StakeReceipt::uninitialized(42, 9);
    stake(&mut farm, &mut farmer, &mut receipt, 77, 9, 0, 2, 0).unwrap();
    // far past the 100-unit term: pays the full reservation, no more
    assert_eq!(claim_rewards(&mut farm, &farmer, &mut receipt, 5000), Ok(1000));
    assert_eq!(farm.reward.claimed, 1000);
    assert_eq!(farm.reward.reserved, 0);
    assert_eq!(
        claim_rewards(&mut farm, &farmer, &mut receipt, 6000),
        Err(StakingError::NothingToClaim)
    );
}

#[test]
fn round_trip_restores_ledger() {
    let mut farm = standard_farm();
    let mut farmer = initialize_farmer(42);
    let mut receipt = StakeReceipt::uninitialized(42, 9);
    let reserved_before = farm.reward.reserved;
    let rate_before = farmer.total_reward_rate;
    stake(&mut farm, &mut farmer, &mut receipt, 77, 9, 0, 2, 500).unwrap();
    let released = unstake(&mut farm, &mut farmer, &mut receipt, 500).unwrap();
    assert_eq!(released, 2);
    assert_eq!(farm.reward.reserved, reserved_before);
    assert_eq!(farmer.total_reward_rate, rate_before);
    assert_eq!(receipt.state, ReceiptState::Ended(500));
}

#[test]
fn unstake_mid_term_releases_remainder() {
    let mut farm = standard_farm();
    let mut farmer = initialize_farmer(42);
    let mut receipt = StakeReceipt::uninitialized(42, 9);
    stake(&mut farm, &mut farmer, &mut receipt, 77, 9, 0, 2, 0).unwrap();
    claim_rewards(&mut farm, &farmer, &mut receipt, 30).unwrap();
    // unstake at t=50: 50 of 100 units unaccrued, release 10 * 50 = 500
    unstake(&mut farm, &mut farmer, &mut receipt, 50).unwrap();
    assert_eq!(farm.reward.reserved, 1000 - 300 - 500);
    // the rest of the accrued reward (t in 30..50) is still claimable
    assert_eq!(claim_rewards(&mut farm, &farmer, &mut receipt, 60), Ok(200));
    assert_eq!(farm.reward.reserved, 0);
    assert_eq!(farm.reward.claimed, 500);
}

#[test]
fn zero_amount_stake() {
    let mut farm = standard_farm();
    let mut farmer = initialize_farmer(42);
    let mut receipt = StakeReceipt::uninitialized(42, 9);
    let out = stake(&mut farm, &mut farmer, &mut receipt, 77, 9, 0, 0, 1000).unwrap();
    assert_eq!(out.lock_amount, 0);
    assert_eq!(out.reward_rate, 0);
    assert_eq!(out.reserved, 0);
    assert_eq!(farm.reward.reserved, 0);
    assert_eq!(receipt.state, ReceiptState::Running);
    assert_eq!(receipt.amount, 0);
}

#[test]
fn stake_requires_whitelist() {
    let mut farm = standard_farm();
    let mut farmer = initialize_farmer(42);
    let mut receipt = StakeReceipt::uninitialized(42, 9);
    let r = stake(&mut farm, &mut farmer, &mut receipt, 78, 9, 0, 2, 1000);
    assert_eq!(r, Err(StakingError::NotWhitelisted));
}

#[test]
fn stake_unknown_lock() {
    let mut farm = standard_farm();
    let mut farmer = initialize_farmer(42);
    let mut receipt = StakeReceipt::uninitialized(42, 9);
    let r = stake(&mut farm, &mut farmer, &mut receipt, 77, 9, 3, 2, 1000);
    assert_eq!(r, Err(StakingError::LockNotFound));
}

#[test]
fn restake_revalidates_ownership() {
    let mut farm = standard_farm();
    let mut farmer = initialize_farmer(42);
    let mut receipt = StakeReceipt::uninitialized(42, 9);
    stake(&mut farm, &mut farmer, &mut receipt, 77, 9, 0, 2, 0).unwrap();
    unstake(&mut farm, &mut farmer, &mut receipt, 100).unwrap();
    let mut other = initialize_farmer(43);
    let r = stake(&mut farm, &mut other, &mut receipt, 77, 9, 0, 2, 200);
    assert_eq!(r, Err(StakingError::WrongFarmer));
    let r = stake(&mut farm, &mut farmer, &mut receipt, 77, 8, 0, 2, 200);
    assert_eq!(r, Err(StakingError::WrongAsset));
}

#[test]
fn unstake_demands_running_receipt() {
    let mut farm = standard_farm();
    let mut farmer = initialize_farmer(42);
    let mut receipt = StakeReceipt::uninitialized(42, 9);
    let r = unstake(&mut farm, &mut farmer, &mut receipt, 100);
    assert_eq!(r, Err(StakingError::GemNotStaked));
}

#[test]
fn clock_regression_fails_closed() {
    let mut farm = standard_farm();
    let mut farmer = initialize_farmer(42);
    let mut receipt = StakeReceipt::uninitialized(42, 9);
    stake(&mut farm, &mut farmer, &mut receipt, 77, 9, 0, 2, 1000).unwrap();
    assert_eq!(
        unstake(&mut farm, &mut farmer, &mut receipt, 999),
        Err(StakingError::InvalidTimestamp)
    );
    assert_eq!(
        claim_rewards(&mut farm, &farmer, &mut receipt, 999),
        Err(StakingError::InvalidTimestamp)
    );
}

#[test]
fn claim_before_any_stake() {
    let mut farm = standard_farm();
    let farmer = initialize_farmer(42);
    let mut receipt = StakeReceipt::uninitialized(42, 9);
    let r = claim_rewards(&mut farm, &farmer, &mut receipt, 1000);
    assert_eq!(r, Err(StakingError::NothingToClaim));
}

#[test]
fn pool_reserve_exact_boundary() {
    let mut farm = create_farm(1);
    fund_reward(&mut farm, 1000).unwrap();
    assert_eq!(farm.reward.try_reserve(1000), Ok(()));
    assert_eq!(
        farm.reward.try_reserve(1),
        Err(StakingError::InsufficientRewardPool)
    );
    assert_eq!(farm.reward.release(400), Ok(()));
    assert_eq!(farm.reward.reserved, 600);
    assert_eq!(farm.reward.record_claim(600), Ok(()));
    assert_eq!(farm.reward.claimed, 600);
    assert_eq!(farm.reward.reserved, 0);
    // claimed budget is consumed: only 400 is free again
    assert_eq!(farm.reward.try_reserve(400), Ok(()));
    assert_eq!(
        farm.reward.try_reserve(1),
        Err(StakingError::InsufficientRewardPool)
    );
}

#[test]
fn pool_fund_overflow() {
    let mut farm = create_farm(1);
    fund_reward(&mut farm, u64::MAX).unwrap();
    assert_eq!(
        fund_reward(&mut farm, 1),
        Err(StakingError::ArithmeticOverflow)
    );
    assert_eq!(farm.reward.funded, u64::MAX);
}

#[test]
fn whitelist_management() {
    let mut farm = create_farm(1);
    assert_eq!(add_to_whitelist(&mut farm, 2, 77, 5), Err(StakingError::Unauthorized));
    assert_eq!(add_to_whitelist(&mut farm, 1, 77, 5), Ok(()));
    assert_eq!(
        add_to_whitelist(&mut farm, 1, 77, 9),
        Err(StakingError::AlreadyWhitelisted)
    );
    assert_eq!(add_to_whitelist(&mut farm, 1, 78, 7), Ok(()));
    assert_eq!(
        remove_from_whitelist(&mut farm, 2, 77),
        Err(StakingError::Unauthorized)
    );
    assert_eq!(remove_from_whitelist(&mut farm, 1, 77), Ok(()));
    assert_eq!(
        remove_from_whitelist(&mut farm, 1, 77),
        Err(StakingError::NotWhitelisted)
    );
    // the other entry still resolves
    assert_eq!(farm.whitelist.len(), 1);
    assert_eq!(farm.whitelist[0].collection_id, 78);
    assert_eq!(farm.whitelist[0].base_rate, 7);
}

#[test]
fn delisting_keeps_running_receipts_at_their_rate() {
    let mut farm = standard_farm();
    let mut farmer = initialize_farmer(42);
    let mut receipt = StakeReceipt::uninitialized(42, 9);
    stake(&mut farm, &mut farmer, &mut receipt, 77, 9, 0, 2, 0).unwrap();
    remove_from_whitelist(&mut farm, 1, 77).unwrap();
    // the rate was captured at stake time and claims still honour it
    assert_eq!(receipt.reward_rate, 10);
    assert_eq!(claim_rewards(&mut farm, &farmer, &mut receipt, 30), Ok(300));
    // a new cycle, though, finds the collection delisted
    unstake(&mut farm, &mut farmer, &mut receipt, 100).unwrap();
    let r = stake(&mut farm, &mut farmer, &mut receipt, 77, 9, 0, 2, 200);
    assert_eq!(r, Err(StakingError::NotWhitelisted));
}

#[test]
fn manager_roles() {
    let mut farm = create_farm(1);
    assert_eq!(add_manager(&mut farm, 2, 3), Err(StakingError::Unauthorized));
    assert_eq!(add_manager(&mut farm, 1, 3), Ok(()));
    assert_eq!(add_to_whitelist(&mut farm, 3, 77, 5), Ok(()));
}

#[test]
fn lock_registry() {
    let mut farm = create_farm(1);
    let r = create_locks(
        &mut farm,
        1,
        vec![
            LockConfig { duration: 100, cooldown: 10, bonus_factor: 10000 },
            LockConfig { duration: 0, cooldown: 0, bonus_factor: 10000 },
        ],
    );
    assert_eq!(r, Err(StakingError::InvalidLockConfig));
    assert_eq!(farm.locks.len(), 0);
    create_locks(
        &mut farm,
        1,
        vec![
            LockConfig { duration: 100, cooldown: 10, bonus_factor: 10000 },
            LockConfig { duration: 200, cooldown: 20, bonus_factor: 15000 },
        ],
    )
    .unwrap();
    create_locks(&mut farm, 1, vec![LockConfig { duration: 7, cooldown: 0, bonus_factor: 500 }])
        .unwrap();
    assert_eq!(farm.locks.len(), 3);
    assert_eq!(farm.locks[0].id, 0);
    assert_eq!(farm.locks[1].id, 1);
    assert_eq!(farm.locks[2].id, 2);
    assert_eq!(farm.locks[1].duration, 200);
    assert_eq!(farm.locks[2].bonus_factor, 500);
    assert_eq!(
        create_locks(&mut farm, 9, vec![]),
        Err(StakingError::Unauthorized)
    );
}

#[test]
fn aggregate_matches_recomputed_sum() {
    let mut farm = standard_farm();
    add_to_whitelist(&mut farm, 1, 78, 3).unwrap();
    let mut farmer = initialize_farmer(42);
    let mut receipts = vec![
        StakeReceipt::uninitialized(42, 9),
        StakeReceipt::uninitialized(42, 10),
        StakeReceipt::uninitialized(42, 11),
    ];
    stake(&mut farm, &mut farmer, &mut receipts[0], 77, 9, 0, 2, 0).unwrap();
    stake(&mut farm, &mut farmer, &mut receipts[1], 78, 10, 0, 4, 0).unwrap();
    stake(&mut farm, &mut farmer, &mut receipts[2], 77, 11, 0, 1, 0).unwrap();
    // rates: 10, 12, 5 — all running
    assert_eq!(farmer.total_reward_rate, 27);
    assert_eq!(recompute_rate_sum(&receipts), Ok(27));
    unstake(&mut farm, &mut farmer, &mut receipts[1], 50).unwrap();
    assert_eq!(farmer.total_reward_rate, 15);
    assert_eq!(recompute_rate_sum(&receipts), Ok(15));
    unstake(&mut farm, &mut farmer, &mut receipts[0], 60).unwrap();
    unstake(&mut farm, &mut farmer, &mut receipts[2], 60).unwrap();
    assert_eq!(farmer.total_reward_rate, 0);
    assert_eq!(recompute_rate_sum(&receipts), Ok(0));
}

#[test]
fn bonus_tier_changes_rate_and_reservation() {
    let mut farm = create_farm(1);
    add_to_whitelist(&mut farm, 1, 77, 5).unwrap();
    create_locks(
        &mut farm,
        1,
        vec![
            LockConfig { duration: 100, cooldown: 10, bonus_factor: 10000 },
            LockConfig { duration: 50, cooldown: 5, bonus_factor: 15000 },
        ],
    )
    .unwrap();
    fund_reward(&mut farm, 10_000).unwrap();
    let mut farmer = initialize_farmer(42);
    let mut receipt = StakeReceipt::uninitialized(42, 9);
    let out = stake(&mut farm, &mut farmer, &mut receipt, 77, 9, 1, 2, 0).unwrap();
    assert_eq!(out.reward_rate, 15);
    assert_eq!(out.reserved, 750);
    assert_eq!(farm.reward.reserved, 750);
}
