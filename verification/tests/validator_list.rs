use stake_pool::{
    Fee, StakePool, StakePoolError, StakeStatus, ValidatorList, ValidatorStakeInfo,
    add_validator_to_pool, decrease_additional_validator_stake, decrease_validator_stake,
    increase_additional_validator_stake, increase_validator_stake, redelegate,
    remove_validator_from_pool,
};

fn ready_pool(reserve: u64) -> StakePool {
    let (mut pool, _list) = StakePool::initialize(
        1,
        2,
        10,
        Fee { numerator: 0, denominator: 1 },
        Fee { numerator: 0, denominator: 1 },
        Fee { numerator: 0, denominator: 1 },
        0,
        0,
    )
    .unwrap();
    pool.reserve_lamports = reserve;
    pool
}

fn plain_entry(vote: u64, active: u64, transient: u64) -> ValidatorStakeInfo {
    ValidatorStakeInfo {
        vote_account_address: vote,
        active_stake_lamports: active,
        transient_stake_lamports: transient,
        transient_seed_suffix: 0,
        validator_seed_suffix: 0,
        status: StakeStatus::Active,
    }
}

#[test]
fn list_insert_find_and_capacity() {
    let mut list = ValidatorList::new(2);
    assert_eq!(list.len(), 0);
    assert_eq!(list.insert(plain_entry(10, 0, 0)), Ok(()));
    assert_eq!(list.insert(plain_entry(20, 0, 0)), Ok(()));
    assert_eq!(list.find(10), Some(0));
    assert_eq!(list.find(20), Some(1));
    assert_eq!(list.find(30), None);
    assert_eq!(
        list.insert(plain_entry(30, 0, 0)),
        Err(StakePoolError::ListFull)
    );
    assert_eq!(list.len(), 2);
}

#[test]
fn list_rejects_duplicate_votes() {
    let mut list = ValidatorList::new(4);
    list.insert(plain_entry(10, 0, 0)).unwrap();
    assert_eq!(
        list.insert(plain_entry(10, 5, 5)),
        Err(StakePoolError::DuplicateValidator)
    );
    assert_eq!(list.len(), 1);
}

#[test]
fn cleanup_removes_only_drained_tombstones() {
    let mut list = ValidatorList::new(4);
    list.insert(plain_entry(10, 0, 0)).unwrap();
    let mut gone = plain_entry(20, 0, 0);
    gone.status = StakeStatus::ReadyForRemoval;
    list.insert(gone).unwrap();
    let mut still_staked = plain_entry(30, 5, 0);
    still_staked.status = StakeStatus::ReadyForRemoval;
    list.insert(still_staked).unwrap();
    list.cleanup_removed_validator_entries();
    assert_eq!(list.len(), 2);
    assert_eq!(list.find(10), Some(0));
    assert_eq!(list.find(20), None);
    assert_eq!(list.find(30), Some(1));
}

#[test]
fn add_validator_funds_floor_from_reserve() {
    let mut pool = ready_pool(5_000_000);
    let mut list = ValidatorList::new(4);
    assert_eq!(
        add_validator_to_pool(&mut pool, &mut list, 10, 1, 1_000, 1_000_000, 0),
        Ok(())
    );
    assert_eq!(pool.reserve_lamports, 5_000_000 - 1_001_000);
    let e = list.get(0);
    assert_eq!(e.vote_account_address, 10);
    assert_eq!(e.active_stake_lamports, 1_001_000);
    assert_eq!(e.transient_stake_lamports, 0);
    assert_eq!(e.validator_seed_suffix, 1);
    assert!(matches!(e.status, StakeStatus::Active));
    assert_eq!(
        add_validator_to_pool(&mut pool, &mut list, 10, 1, 1_000, 1_000_000, 0).err(),
        Some(StakePoolError::DuplicateValidator)
    );
}

#[test]
fn add_validator_needs_reserve() {
    let mut pool = ready_pool(100);
    let mut list = ValidatorList::new(4);
    assert_eq!(
        add_validator_to_pool(&mut pool, &mut list, 10, 0, 1_000, 1_000_000, 0).err(),
        Some(StakePoolError::InsufficientFunds)
    );
    assert_eq!(pool.reserve_lamports, 100);
    assert_eq!(list.len(), 0);
}

#[test]
fn increase_moves_reserve_into_transient() {
    let mut pool = ready_pool(10_000_000);
    let mut list = ValidatorList::new(4);
    list.insert(plain_entry(10, 2_000_000, 0)).unwrap();
    assert_eq!(
        increase_validator_stake(&mut pool, &mut list, 10, 1_500_000, 42, 1_000, 1_000_000, 0),
        Ok(())
    );
    assert_eq!(pool.reserve_lamports, 10_000_000 - 1_500_000);
    let e = list.get(0);
    assert_eq!(e.transient_stake_lamports, 1_500_000);
    assert_eq!(e.transient_seed_suffix, 42);
    assert_eq!(e.active_stake_lamports, 2_000_000);
}

#[test]
fn increase_below_move_minimum_rejected() {
    let mut pool = ready_pool(10_000_000);
    let mut list = ValidatorList::new(4);
    list.insert(plain_entry(10, 2_000_000, 0)).unwrap();
    assert_eq!(
        increase_validator_stake(&mut pool, &mut list, 10, 1_000_999, 0, 1_000, 1_000_000, 0)
            .err(),
        Some(StakePoolError::MinimumBalanceViolation)
    );
}

#[test]
fn increase_collides_on_existing_transient() {
    // two increase instructions race on one validator: the first wins, the
    // second hits the deterministically derived transient account in use
    let mut pool = ready_pool(10_000_000);
    let mut list = ValidatorList::new(4);
    list.insert(plain_entry(10, 2_000_000, 0)).unwrap();
    assert_eq!(
        increase_validator_stake(&mut pool, &mut list, 10, 1_500_000, 1, 1_000, 1_000_000, 0),
        Ok(())
    );
    let before_pool = pool.reserve_lamports;
    assert_eq!(
        increase_validator_stake(&mut pool, &mut list, 10, 1_200_000, 2, 1_000, 1_000_000, 0)
            .err(),
        Some(StakePoolError::TransientAccountInUse)
    );
    // the loser leaves no trace
    assert_eq!(pool.reserve_lamports, before_pool);
    assert_eq!(list.get(0).transient_stake_lamports, 1_500_000);
    assert_eq!(list.get(0).transient_seed_suffix, 1);
}

#[test]
fn increase_additional_joins_transient_with_matching_seed() {
    let mut pool = ready_pool(10_000_000);
    let mut list = ValidatorList::new(4);
    let mut e = plain_entry(10, 2_000_000, 500_000);
    e.transient_seed_suffix = 7;
    list.insert(e).unwrap();
    assert_eq!(
        increase_additional_validator_stake(
            &mut pool, &mut list, 10, 1_200_000, 9, 0, 1_000, 1_000_000, 0,
        )
        .err(),
        Some(StakePoolError::TransientSeedMismatch)
    );
    assert_eq!(
        increase_additional_validator_stake(
            &mut pool, &mut list, 10, 1_200_000, 7, 0, 1_000, 1_000_000, 0,
        ),
        Ok(())
    );
    assert_eq!(list.get(0).transient_stake_lamports, 1_700_000);
}

#[test]
fn increase_needs_reserve_funds() {
    let mut pool = ready_pool(1_000);
    let mut list = ValidatorList::new(4);
    list.insert(plain_entry(10, 2_000_000, 0)).unwrap();
    assert_eq!(
        increase_validator_stake(&mut pool, &mut list, 10, 1_001_000, 0, 1_000, 1_000_000, 0)
            .err(),
        Some(StakePoolError::InsufficientFunds)
    );
}

#[test]
fn increase_unknown_validator() {
    let mut pool = ready_pool(10_000_000);
    let mut list = ValidatorList::new(4);
    assert_eq!(
        increase_validator_stake(&mut pool, &mut list, 99, 1_001_000, 0, 1_000, 1_000_000, 0)
            .err(),
        Some(StakePoolError::NotFound)
    );
}

#[test]
fn increase_rejected_while_leaving() {
    let mut pool = ready_pool(10_000_000);
    let mut list = ValidatorList::new(4);
    let mut e = plain_entry(10, 2_000_000, 0);
    e.status = StakeStatus::DeactivatingValidator;
    list.insert(e).unwrap();
    assert_eq!(
        increase_validator_stake(&mut pool, &mut list, 10, 1_001_000, 0, 1_000, 1_000_000, 0)
            .err(),
        Some(StakePoolError::ValidatorNotActive)
    );
}

#[test]
fn decrease_below_minimum_rejected() {
    // the canonical account must retain the minimum delegation after the
    // split: one lamport over the allowance fails, the exact allowance works
    let pool = ready_pool(0);
    let mut list = ValidatorList::new(4);
    list.insert(plain_entry(10, 1_500_000, 0)).unwrap();
    let minimum_delegation = 1_000_000;
    assert_eq!(
        decrease_validator_stake(&pool, &mut list, 10, 500_001, 3, minimum_delegation, 0).err(),
        Some(StakePoolError::MinimumBalanceViolation)
    );
    assert_eq!(list.get(0).active_stake_lamports, 1_500_000);
    assert_eq!(
        decrease_validator_stake(&pool, &mut list, 10, 500_000, 3, minimum_delegation, 0),
        Ok(())
    );
    let e = list.get(0);
    assert_eq!(e.active_stake_lamports, 1_000_000);
    assert_eq!(e.transient_stake_lamports, 500_000);
    assert_eq!(e.transient_seed_suffix, 3);
}

#[test]
fn decrease_collides_on_existing_transient() {
    let pool = ready_pool(0);
    let mut list = ValidatorList::new(4);
    list.insert(plain_entry(10, 5_000_000, 1)).unwrap();
    assert_eq!(
        decrease_validator_stake(&pool, &mut list, 10, 1_000_000, 0, 1_000_000, 0).err(),
        Some(StakePoolError::TransientAccountInUse)
    );
}

#[test]
fn decrease_additional_move_minimum_and_overflow() {
    let pool = ready_pool(0);
    let mut list = ValidatorList::new(4);
    list.insert(plain_entry(10, 5_000_000, 500_000)).unwrap();
    // the split must fund a whole ephemeral account
    assert_eq!(
        decrease_additional_validator_stake(
            &pool, &mut list, 10, 500_000, 0, 0, 1_000, 1_000_000, 0,
        )
        .err(),
        Some(StakePoolError::MinimumBalanceViolation)
    );
    assert_eq!(
        decrease_additional_validator_stake(
            &pool, &mut list, 10, 1_001_000, 0, 0, 1_000, 1_000_000, 0,
        ),
        Ok(())
    );
    let e = list.get(0);
    assert_eq!(e.active_stake_lamports, 5_000_000 - 1_001_000);
    assert_eq!(e.transient_stake_lamports, 1_501_000);
}

#[test]
fn remove_validator_tombstones() {
    let mut pool = ready_pool(5_000_000);
    let mut list = ValidatorList::new(4);
    add_validator_to_pool(&mut pool, &mut list, 10, 0, 1_000, 1_000_000, 0).unwrap();
    assert_eq!(
        remove_validator_from_pool(&pool, &mut list, 10, 1_000, 1_000_000, 0),
        Ok(())
    );
    assert!(matches!(
        list.get(0).status,
        StakeStatus::DeactivatingValidator
    ));
    // still present until reconciliation drains it and cleanup runs
    assert_eq!(list.len(), 1);
}

#[test]
fn remove_validator_with_extra_stake_rejected() {
    let pool = ready_pool(0);
    let mut list = ValidatorList::new(4);
    list.insert(plain_entry(10, 2_000_000, 0)).unwrap();
    assert_eq!(
        remove_validator_from_pool(&pool, &mut list, 10, 1_000, 500_000, 0).err(),
        Some(StakePoolError::NonZeroStake)
    );
    assert_eq!(
        remove_validator_from_pool(&pool, &mut list, 99, 1_000, 500_000, 0).err(),
        Some(StakePoolError::NotFound)
    );
}

#[test]
fn remove_validator_with_transient_deactivates_all() {
    let pool = ready_pool(0);
    let mut list = ValidatorList::new(4);
    list.insert(plain_entry(10, 1_000_000, 77)).unwrap();
    assert_eq!(
        remove_validator_from_pool(&pool, &mut list, 10, 0, 1_000_000, 0),
        Ok(())
    );
    assert!(matches!(list.get(0).status, StakeStatus::DeactivatingAll));
}

#[test]
fn redelegate_ephemeral_hop_amounts() {
    let pool = ready_pool(0);
    let mut list = ValidatorList::new(4);
    list.insert(plain_entry(10, 3_000_000, 0)).unwrap();
    list.insert(plain_entry(20, 1_000_000, 0)).unwrap();
    let rent = 1_000;
    let minimum = 1_000_000;
    let lamports = 2 * rent + minimum;
    assert_eq!(
        redelegate(&pool, &mut list, 10, 20, lamports, 5, 6, 7, rent, minimum, 0),
        Ok(())
    );
    let src = list.get(0);
    let dst = list.get(1);
    assert_eq!(src.active_stake_lamports, 3_000_000 - lamports);
    assert_eq!(src.transient_stake_lamports, rent);
    assert_eq!(src.transient_seed_suffix, 5);
    assert_eq!(dst.transient_stake_lamports, lamports - rent);
    assert_eq!(dst.transient_seed_suffix, 7);
}

#[test]
fn redelegate_rejects_bad_requests() {
    let pool = ready_pool(0);
    let mut list = ValidatorList::new(4);
    list.insert(plain_entry(10, 3_000_000, 0)).unwrap();
    let mut busy = plain_entry(20, 1_000_000, 500);
    busy.transient_seed_suffix = 9;
    list.insert(busy).unwrap();
    assert_eq!(
        redelegate(&pool, &mut list, 10, 10, 1_002_000, 0, 0, 0, 1_000, 1_000_000, 0).err(),
        Some(StakePoolError::DuplicateValidator)
    );
    assert_eq!(
        redelegate(&pool, &mut list, 10, 30, 1_002_000, 0, 0, 0, 1_000, 1_000_000, 0).err(),
        Some(StakePoolError::NotFound)
    );
    // the destination's live transient seed must match
    assert_eq!(
        redelegate(&pool, &mut list, 10, 20, 1_002_000, 0, 0, 8, 1_000, 1_000_000, 0).err(),
        Some(StakePoolError::TransientSeedMismatch)
    );
    // too little to fund both rent-exemptions plus the minimum
    assert_eq!(
        redelegate(&pool, &mut list, 10, 20, 1_001_999, 0, 0, 9, 1_000, 1_000_000, 0).err(),
        Some(StakePoolError::MinimumBalanceViolation)
    );
}

#[test]
fn deposit_stake_merges_into_canonical() {
    let mut pool = ready_pool(0);
    pool.total_lamports = 1_000_000;
    pool.pool_token_supply = 1_000_000;
    let mut list = ValidatorList::new(4);
    list.insert(plain_entry(10, 2_000_000, 0)).unwrap();
    let receipt = pool.deposit_stake(&mut list, 10, 300_000, 0).unwrap();
    assert_eq!(receipt.pool_tokens_user, 300_000);
    assert_eq!(list.get(0).active_stake_lamports, 2_300_000);
    assert_eq!(pool.total_lamports, 1_300_000);
    assert_eq!(pool.pool_token_supply, 1_300_000);
}

#[test]
fn deposit_stake_respects_preferred_validator() {
    let mut pool = ready_pool(0);
    pool.total_lamports = 1_000_000;
    pool.pool_token_supply = 1_000_000;
    let mut list = ValidatorList::new(4);
    list.insert(plain_entry(10, 2_000_000, 0)).unwrap();
    list.insert(plain_entry(20, 2_000_000, 0)).unwrap();
    pool.set_preferred_validator(&list, stake_pool::PreferredValidatorType::Deposit, Some(20))
        .unwrap();
    assert_eq!(
        pool.deposit_stake(&mut list, 10, 300_000, 0).err(),
        Some(StakePoolError::IncorrectPreferredValidator)
    );
    assert!(pool.deposit_stake(&mut list, 20, 300_000, 0).is_ok());
}

#[test]
fn withdraw_stake_keeps_minimum_delegation() {
    let mut pool = ready_pool(0);
    pool.total_lamports = 2_000_000;
    pool.pool_token_supply = 2_000_000;
    let mut list = ValidatorList::new(4);
    list.insert(plain_entry(10, 1_500_000, 0)).unwrap();
    assert_eq!(
        pool.withdraw_stake(&mut list, 10, 600_000, 1_000_000, 0).err(),
        Some(StakePoolError::MinimumBalanceViolation)
    );
    let lamports_out = pool
        .withdraw_stake(&mut list, 10, 500_000, 1_000_000, 0)
        .unwrap();
    assert_eq!(lamports_out, 500_000);
    assert_eq!(list.get(0).active_stake_lamports, 1_000_000);
    assert_eq!(pool.total_lamports, 1_500_000);
    assert_eq!(pool.pool_token_supply, 1_500_000);
}

#[test]
fn stake_trades_have_slippage_guards() {
    let mut pool = ready_pool(0);
    pool.total_lamports = 2_000_000;
    pool.pool_token_supply = 1_000_000;
    let mut list = ValidatorList::new(4);
    list.insert(plain_entry(10, 2_000_000, 0)).unwrap();
    assert_eq!(
        pool.deposit_stake_with_slippage(&mut list, 10, 100, 51, 0).err(),
        Some(StakePoolError::SlippageExceeded)
    );
    assert!(pool
        .deposit_stake_with_slippage(&mut list, 10, 100, 50, 0)
        .is_ok());
    assert_eq!(
        pool.withdraw_stake_with_slippage(&mut list, 10, 100, 0, 201, 0).err(),
        Some(StakePoolError::SlippageExceeded)
    );
    assert!(pool
        .withdraw_stake_with_slippage(&mut list, 10, 100, 0, 200, 0)
        .is_ok());
}
