use stake_pool::{
    Fee, FeeType, StakePool, StakePoolError, StakeState, StakeStatus, ValidatorAccountsObservation,
    ValidatorList, ValidatorStakeInfo, redelegate, remove_validator_from_pool,
    update_stake_pool, update_stake_pool_balance, update_validator_list_balance,
};

fn reconciled_pool(reserve: u64) -> StakePool {
    let (mut pool, _list) = StakePool::initialize(
        1,
        2,
        16,
        Fee { numerator: 0, denominator: 1 },
        Fee { numerator: 0, denominator: 1 },
        Fee { numerator: 0, denominator: 1 },
        0,
        0,
    )
    .unwrap();
    pool.reserve_lamports = reserve;
    pool
}

fn entry_with(vote: u64, active: u64, transient: u64, status: StakeStatus) -> ValidatorStakeInfo {
    ValidatorStakeInfo {
        vote_account_address: vote,
        active_stake_lamports: active,
        transient_stake_lamports: transient,
        transient_seed_suffix: 0,
        validator_seed_suffix: 0,
        status,
    }
}

fn observed(
    transient_lamports: u64,
    transient_state: StakeState,
    credits_match: bool,
    validator_inactive: bool,
) -> ValidatorAccountsObservation {
    ValidatorAccountsObservation {
        transient_lamports,
        transient_state,
        credits_match,
        validator_inactive,
    }
}

fn idle() -> ValidatorAccountsObservation {
    observed(0, StakeState::Inactive, false, false)
}

fn total_accounted(pool: &StakePool, list: &ValidatorList) -> u128 {
    let mut sum = pool.reserve_lamports as u128;
    for i in 0..list.len() {
        let e = list.get(i);
        sum += e.active_stake_lamports as u128 + e.transient_stake_lamports as u128;
    }
    sum
}

#[test]
fn inactive_transient_merges_into_reserve() {
    let mut pool = reconciled_pool(500);
    let mut list = ValidatorList::new(4);
    list.insert(entry_with(10, 2_000_000, 700_000, StakeStatus::Active))
        .unwrap();
    let obs = vec![observed(700_000, StakeState::Inactive, false, false)];
    update_validator_list_balance(&mut pool, &mut list, &obs, 0, 1, false, 1_000);
    assert_eq!(pool.reserve_lamports, 700_500);
    let e = list.get(0);
    assert_eq!(e.transient_stake_lamports, 0);
    assert_eq!(e.active_stake_lamports, 2_000_000);
}

#[test]
fn active_transient_merges_into_canonical() {
    let mut pool = reconciled_pool(0);
    let mut list = ValidatorList::new(4);
    list.insert(entry_with(10, 2_000_000, 700_000, StakeStatus::Active))
        .unwrap();
    // the transient account earned 1_234 lamports of rewards while activating
    let obs = vec![observed(701_234, StakeState::Active, true, false)];
    update_validator_list_balance(&mut pool, &mut list, &obs, 0, 1, false, 1_000);
    let e = list.get(0);
    assert_eq!(e.active_stake_lamports, 2_000_000 + 701_234 - 1_000);
    assert_eq!(e.transient_stake_lamports, 0);
    // the rent-exemption travels back to the reserve
    assert_eq!(pool.reserve_lamports, 1_000);
}

#[test]
fn mismatched_credits_only_reported() {
    let mut pool = reconciled_pool(0);
    let mut list = ValidatorList::new(4);
    list.insert(entry_with(10, 2_000_000, 700_000, StakeStatus::Active))
        .unwrap();
    let obs = vec![observed(700_777, StakeState::Active, false, false)];
    update_validator_list_balance(&mut pool, &mut list, &obs, 0, 1, false, 1_000);
    let e = list.get(0);
    // no merge: the observed balance is recorded, the merge waits
    assert_eq!(e.active_stake_lamports, 2_000_000);
    assert_eq!(e.transient_stake_lamports, 700_777);
    assert_eq!(pool.reserve_lamports, 0);
}

#[test]
fn still_activating_transient_left_pending() {
    let mut pool = reconciled_pool(0);
    let mut list = ValidatorList::new(4);
    list.insert(entry_with(10, 2_000_000, 700_000, StakeStatus::Active))
        .unwrap();
    let obs = vec![observed(700_001, StakeState::Activating, true, false)];
    update_validator_list_balance(&mut pool, &mut list, &obs, 0, 1, false, 1_000);
    assert_eq!(list.get(0).transient_stake_lamports, 700_001);
}

#[test]
fn no_merge_reports_without_merging() {
    let mut pool = reconciled_pool(0);
    let mut list = ValidatorList::new(4);
    list.insert(entry_with(10, 2_000_000, 700_000, StakeStatus::Active))
        .unwrap();
    let obs = vec![observed(700_000, StakeState::Inactive, true, false)];
    update_validator_list_balance(&mut pool, &mut list, &obs, 0, 1, true, 1_000);
    let e = list.get(0);
    assert_eq!(e.transient_stake_lamports, 700_000);
    assert_eq!(pool.reserve_lamports, 0);
}

#[test]
fn reconciliation_is_idempotent() {
    // running the pass twice in one epoch against the same chain state
    // leaves exactly the state of the first run
    let mut pool = reconciled_pool(100);
    let mut list = ValidatorList::new(8);
    list.insert(entry_with(10, 1_000_000, 400_000, StakeStatus::Active))
        .unwrap();
    list.insert(entry_with(20, 2_000_000, 300_000, StakeStatus::Active))
        .unwrap();
    list.insert(entry_with(30, 3_000_000, 200_000, StakeStatus::Active))
        .unwrap();
    let obs = vec![
        observed(400_000, StakeState::Inactive, false, false),
        observed(300_500, StakeState::Active, true, false),
        observed(200_000, StakeState::Activating, false, false),
    ];
    update_validator_list_balance(&mut pool, &mut list, &obs, 0, 3, false, 1_000);
    let reserve_after_first = pool.reserve_lamports;
    let entries_after_first: Vec<ValidatorStakeInfo> =
        (0..list.len()).map(|i| list.get(i)).collect();
    update_validator_list_balance(&mut pool, &mut list, &obs, 0, 3, false, 1_000);
    assert_eq!(pool.reserve_lamports, reserve_after_first);
    for (i, e) in entries_after_first.iter().enumerate() {
        assert_eq!(list.get(i), *e);
    }
}

#[test]
fn chunked_reconciliation_matches_one_pass() {
    // any split point gives the same final state as a single pass
    for split in 0..=4usize {
        let mut pool_a = reconciled_pool(0);
        let mut pool_b = reconciled_pool(0);
        let mut list_a = ValidatorList::new(8);
        let mut list_b = ValidatorList::new(8);
        for v in 0..4u64 {
            let e = entry_with(v + 1, 1_000_000 * (v + 1), 100_000 + v, StakeStatus::Active);
            list_a.insert(e).unwrap();
            list_b.insert(e).unwrap();
        }
        let obs = vec![
            observed(100_000, StakeState::Inactive, false, false),
            observed(100_501, StakeState::Active, true, false),
            observed(100_002, StakeState::Deactivating, false, false),
            observed(100_003, StakeState::Inactive, false, false),
        ];
        update_validator_list_balance(&mut pool_a, &mut list_a, &obs, 0, split, false, 1_000);
        update_validator_list_balance(&mut pool_a, &mut list_a, &obs, split, 4 - split, false, 1_000);
        update_validator_list_balance(&mut pool_b, &mut list_b, &obs, 0, 4, false, 1_000);
        assert_eq!(pool_a.reserve_lamports, pool_b.reserve_lamports);
        assert_eq!(list_a.len(), list_b.len());
        for i in 0..list_a.len() {
            assert_eq!(list_a.get(i), list_b.get(i));
        }
    }
}

#[test]
fn redelegation_round_trip_lands_minus_two_rents() {
    // redelegating 2 * rent + minimum from a fresh source to a fresh
    // destination grows the destination's canonical stake by exactly
    // lamports - 2 * rent once reconciliation merges both transients
    let rent = 1_000u64;
    let minimum = 1_000_000u64;
    let lamports = 2 * rent + minimum;
    let mut pool = reconciled_pool(0);
    let mut list = ValidatorList::new(4);
    list.insert(entry_with(10, 5_000_000, 0, StakeStatus::Active))
        .unwrap();
    list.insert(entry_with(20, 1_000_000, 0, StakeStatus::Active))
        .unwrap();
    let destination_before = list.get(1).active_stake_lamports;
    let accounted_before = total_accounted(&pool, &list);
    redelegate(&pool, &mut list, 10, 20, lamports, 1, 2, 3, rent, minimum, 0).unwrap();
    assert_eq!(total_accounted(&pool, &list), accounted_before);
    // next epoch: the source transient deactivated, the destination
    // transient activated with matching credits
    let obs = vec![
        observed(rent, StakeState::Inactive, false, false),
        observed(lamports - rent, StakeState::Active, true, false),
    ];
    update_validator_list_balance(&mut pool, &mut list, &obs, 0, 2, false, rent);
    let destination = list.get(1);
    assert_eq!(
        destination.active_stake_lamports,
        destination_before + (lamports - 2 * rent)
    );
    assert_eq!(destination.transient_stake_lamports, 0);
    assert_eq!(list.get(0).transient_stake_lamports, 0);
    // both rent-exemptions ended up in the reserve: nothing was lost
    assert_eq!(pool.reserve_lamports, 2 * rent);
    assert_eq!(total_accounted(&pool, &list), accounted_before);
}

#[test]
fn removal_lifecycle_drains_into_reserve() {
    let mut pool = reconciled_pool(0);
    let mut list = ValidatorList::new(4);
    list.insert(entry_with(10, 1_001_000, 0, StakeStatus::Active))
        .unwrap();
    list.insert(entry_with(20, 2_000_000, 0, StakeStatus::Active))
        .unwrap();
    let accounted_before = total_accounted(&pool, &list);
    remove_validator_from_pool(&pool, &mut list, 10, 1_000, 1_000_000, 0).unwrap();
    // first epoch after removal: the canonical account is still cooling down
    let obs = vec![idle(), idle()];
    update_validator_list_balance(&mut pool, &mut list, &obs, 0, 2, false, 1_000);
    assert!(matches!(
        list.get(0).status,
        StakeStatus::DeactivatingValidator
    ));
    // next epoch it is inactive and drains
    let obs = vec![observed(0, StakeState::Inactive, false, true), idle()];
    update_validator_list_balance(&mut pool, &mut list, &obs, 0, 2, false, 1_000);
    let e = list.get(0);
    assert!(matches!(e.status, StakeStatus::ReadyForRemoval));
    assert_eq!(e.active_stake_lamports, 0);
    assert_eq!(pool.reserve_lamports, 1_001_000);
    assert_eq!(total_accounted(&pool, &list), accounted_before);
    list.cleanup_removed_validator_entries();
    assert_eq!(list.len(), 1);
    assert_eq!(list.find(20), Some(0));
    assert_eq!(total_accounted(&pool, &list), accounted_before);
}

#[test]
fn balance_update_mints_epoch_fee() {
    let mut pool = reconciled_pool(0);
    pool.set_fee(FeeType::Epoch(Fee { numerator: 1, denominator: 10 }))
        .unwrap();
    pool.total_lamports = 1_000;
    pool.pool_token_supply = 1_000;
    let mut list = ValidatorList::new(4);
    list.insert(entry_with(10, 1_100, 0, StakeStatus::Active))
        .unwrap();
    let minted = update_stake_pool_balance(&mut pool, &list, 0, 3).unwrap();
    // reward 100, fee 10 lamports, minted at the fresh 1100:1000 rate
    assert_eq!(minted, 9);
    assert_eq!(pool.total_lamports, 1_100);
    assert_eq!(pool.pool_token_supply, 1_009);
    assert_eq!(pool.last_update_epoch, 3);
}

#[test]
fn balance_update_without_reward_mints_nothing() {
    let mut pool = reconciled_pool(500);
    pool.set_fee(FeeType::Epoch(Fee { numerator: 1, denominator: 10 }))
        .unwrap();
    pool.total_lamports = 2_000;
    pool.pool_token_supply = 2_000;
    let mut list = ValidatorList::new(4);
    list.insert(entry_with(10, 1_000, 0, StakeStatus::Active))
        .unwrap();
    // value dropped; the reserve floor of 500 is excluded from the total
    let minted = update_stake_pool_balance(&mut pool, &list, 500, 4).unwrap();
    assert_eq!(minted, 0);
    assert_eq!(pool.total_lamports, 1_000);
    assert_eq!(pool.pool_token_supply, 2_000);
    assert_eq!(pool.last_update_epoch, 4);
}

#[test]
fn stale_pool_unblocked_by_balance_update() {
    let mut pool = reconciled_pool(1_000_000);
    pool.total_lamports = 1_000_000;
    pool.pool_token_supply = 1_000_000;
    assert_eq!(
        pool.deposit_sol(100, 1).err(),
        Some(StakePoolError::StakeListAndPoolOutOfDate)
    );
    let list = ValidatorList::new(4);
    update_stake_pool_balance(&mut pool, &list, 0, 1).unwrap();
    assert!(pool.deposit_sol(100, 1).is_ok());
}

#[test]
fn full_update_reconciles_mints_and_cleans() {
    let mut pool = reconciled_pool(0);
    pool.set_fee(FeeType::Epoch(Fee { numerator: 1, denominator: 10 }))
        .unwrap();
    pool.total_lamports = 3_000_000;
    pool.pool_token_supply = 3_000_000;
    let mut list = ValidatorList::new(16);
    // seven validators, so the pass runs in two chunks of five
    for v in 0..7u64 {
        list.insert(entry_with(v + 1, 400_000, 0, StakeStatus::Active))
            .unwrap();
    }
    list.insert(entry_with(
        99,
        0,
        0,
        StakeStatus::ReadyForRemoval,
    ))
    .unwrap();
    let obs = vec![idle(); 8];
    let minted = update_stake_pool(&mut pool, &mut list, &obs, false, 1_000, 0, 9).unwrap();
    // no transient stake anywhere: total is 7 * 400_000, a 200_000 loss,
    // so no reward and no fee
    assert_eq!(minted, 0);
    assert_eq!(pool.total_lamports, 2_800_000);
    assert_eq!(pool.last_update_epoch, 9);
    // the drained tombstone is gone
    assert_eq!(list.len(), 7);
    assert_eq!(list.find(99), None);
}

#[test]
fn balance_update_overflow_detected() {
    let mut pool = reconciled_pool(0);
    let mut list = ValidatorList::new(4);
    list.insert(entry_with(10, u64::MAX, 0, StakeStatus::Active))
        .unwrap();
    list.insert(entry_with(20, u64::MAX, 0, StakeStatus::Active))
        .unwrap();
    let before = pool;
    assert_eq!(
        update_stake_pool_balance(&mut pool, &list, 0, 5).err(),
        Some(StakePoolError::ArithmeticOverflow)
    );
    assert_eq!(pool, before);
}

#[test]
fn conservation_across_rebalancing_sequence() {
    let rent = 1_000u64;
    let minimum = 1_000_000u64;
    let mut pool = reconciled_pool(10_000_000);
    let mut list = ValidatorList::new(8);
    stake_pool::add_validator_to_pool(&mut pool, &mut list, 10, 0, rent, minimum, 0).unwrap();
    stake_pool::add_validator_to_pool(&mut pool, &mut list, 20, 0, rent, minimum, 0).unwrap();
    let accounted = total_accounted(&pool, &list);
    stake_pool::increase_validator_stake(
        &mut pool, &mut list, 10, 2_000_000, 1, rent, minimum, 0,
    )
    .unwrap();
    assert_eq!(total_accounted(&pool, &list), accounted);
    let obs = vec![
        observed(2_000_000, StakeState::Active, true, false),
        idle(),
    ];
    update_validator_list_balance(&mut pool, &mut list, &obs, 0, 2, false, rent);
    assert_eq!(total_accounted(&pool, &list), accounted);
    stake_pool::decrease_validator_stake(&pool, &mut list, 10, 500_000, 2, minimum, 0).unwrap();
    assert_eq!(total_accounted(&pool, &list), accounted);
    let obs = vec![observed(500_000, StakeState::Inactive, false, false), idle()];
    update_validator_list_balance(&mut pool, &mut list, &obs, 0, 2, false, rent);
    assert_eq!(total_accounted(&pool, &list), accounted);
}

#[test]
fn anomalous_entry_is_contained() {
    // an entry whose merge would not fit is left pending; its neighbors
    // still reconcile
    let mut pool = reconciled_pool(0);
    let mut list = ValidatorList::new(4);
    list.insert(entry_with(10, u64::MAX - 10, 500, StakeStatus::Active))
        .unwrap();
    list.insert(entry_with(20, 1_000, 700, StakeStatus::Active))
        .unwrap();
    let obs = vec![
        observed(500, StakeState::Active, true, false),
        observed(700, StakeState::Inactive, false, false),
    ];
    update_validator_list_balance(&mut pool, &mut list, &obs, 0, 2, false, 100);
    // the first entry's canonical stake cannot absorb the merge
    let stuck = list.get(0);
    assert_eq!(stuck.active_stake_lamports, u64::MAX - 10);
    assert_eq!(stuck.transient_stake_lamports, 500);
    // the second entry merged normally
    assert_eq!(list.get(1).transient_stake_lamports, 0);
    assert_eq!(pool.reserve_lamports, 700);
}
