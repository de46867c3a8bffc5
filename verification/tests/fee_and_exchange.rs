use stake_pool::{Fee, FeeType, StakePool, StakePoolError, ValidatorList};

fn flat_pool(total: u64, supply: u64, reserve: u64) -> StakePool {
    let (mut pool, _list) = StakePool::initialize(
        1,
        2,
        10,
        Fee { numerator: 0, denominator: 1 },
        Fee { numerator: 0, denominator: 1 },
        Fee { numerator: 0, denominator: 1 },
        0,
        0,
    )
    .unwrap();
    pool.total_lamports = total;
    pool.pool_token_supply = supply;
    pool.reserve_lamports = reserve;
    pool
}

#[test]
fn fee_apply_exact_value() {
    let fee = Fee { numerator: 3, denominator: 10 };
    assert_eq!(fee.apply(100), (30, 70));
    assert_eq!(fee.apply(0), (0, 0));
    assert_eq!(fee.apply(9), (2, 7));
}

#[test]
fn fee_zero_denominator_takes_nothing() {
    let fee = Fee { numerator: 0, denominator: 0 };
    assert_eq!(fee.apply(12345), (0, 12345));
}

#[test]
fn fee_bounded_by_amount() {
    // the fee part never exceeds the amount, and the parts sum back exactly
    let fee = Fee { numerator: 99, denominator: 100 };
    for amount in [0u64, 1, 7, 1_000_000, u64::MAX] {
        let (part, rest) = fee.apply(amount);
        assert!(part <= amount);
        assert_eq!(part + rest, amount);
    }
}

#[test]
fn fee_zero_constructor() {
    let fee = Fee::zero();
    assert_eq!(fee.apply(777), (0, 777));
}

#[test]
fn referral_split_exact() {
    let (referral, manager) = stake_pool::split_referral(1000, 25);
    assert_eq!(referral, 250);
    assert_eq!(manager, 750);
    let (referral, manager) = stake_pool::split_referral(3, 50);
    assert_eq!(referral, 1);
    assert_eq!(manager, 2);
}

#[test]
fn fee_type_check_validates() {
    assert!(FeeType::Epoch(Fee { numerator: 1, denominator: 2 }).check());
    assert!(!FeeType::Withdrawal(Fee { numerator: 3, denominator: 2 }).check());
    assert!(FeeType::Referral(100).check());
    assert!(!FeeType::Referral(101).check());
}

#[test]
fn initialize_rejects_improper_fee() {
    let r = StakePool::initialize(
        1,
        2,
        10,
        Fee { numerator: 2, denominator: 1 },
        Fee { numerator: 0, denominator: 1 },
        Fee { numerator: 0, denominator: 1 },
        0,
        0,
    );
    assert_eq!(r.err(), Some(StakePoolError::FeeTooHigh));
    let r = StakePool::initialize(
        1,
        2,
        10,
        Fee { numerator: 0, denominator: 1 },
        Fee { numerator: 0, denominator: 1 },
        Fee { numerator: 0, denominator: 1 },
        101,
        0,
    );
    assert_eq!(r.err(), Some(StakePoolError::FeeTooHigh));
}

#[test]
fn set_fee_updates_and_validates() {
    let mut pool = flat_pool(0, 0, 0);
    let new_fee = Fee { numerator: 1, denominator: 20 };
    assert_eq!(pool.set_fee(FeeType::Withdrawal(new_fee)), Ok(()));
    assert_eq!(pool.withdrawal_fee, new_fee);
    assert_eq!(
        pool.set_fee(FeeType::Deposit(Fee { numerator: 5, denominator: 4 })),
        Err(StakePoolError::FeeTooHigh)
    );
    assert_eq!(pool.deposit_fee, Fee { numerator: 0, denominator: 1 });
}

#[test]
fn calc_tokens_bootstrap_and_rate() {
    let empty = flat_pool(0, 0, 0);
    assert_eq!(empty.calc_pool_tokens_for_deposit(42), Some(42));
    let pool = flat_pool(2_000_000, 1_000_000, 0);
    // half a token per lamport at a 2:1 value-to-supply rate
    assert_eq!(pool.calc_pool_tokens_for_deposit(100), Some(50));
    assert_eq!(pool.calc_lamports_withdraw_amount(50), Some(100));
    assert_eq!(flat_pool(5, 0, 0).calc_lamports_withdraw_amount(1), None);
}

#[test]
fn deposit_withdraw_round_trip() {
    // pool at a 1:1 rate; a fee-free deposit of 100_000 lamports mints
    // 100_000 tokens, and withdrawing them returns exactly 100_000 lamports
    let mut pool = flat_pool(1_000_000, 1_000_000, 1_000_000);
    let receipt = pool.deposit_sol(100_000, 0).unwrap();
    assert_eq!(receipt.pool_tokens_minted, 100_000);
    assert_eq!(receipt.pool_tokens_user, 100_000);
    assert_eq!(receipt.pool_tokens_manager, 0);
    assert_eq!(receipt.pool_tokens_referral, 0);
    assert_eq!(pool.total_lamports, 1_100_000);
    assert_eq!(pool.pool_token_supply, 1_100_000);
    let lamports_out = pool.withdraw_sol(100_000, 0).unwrap();
    assert_eq!(lamports_out, 100_000);
    assert_eq!(pool.total_lamports, 1_000_000);
    assert_eq!(pool.pool_token_supply, 1_000_000);
}

#[test]
fn withdraw_fee_deducted_predictably() {
    let mut pool = flat_pool(1_000_000, 1_000_000, 1_000_000);
    pool.set_fee(FeeType::Withdrawal(Fee { numerator: 1, denominator: 100 }))
        .unwrap();
    // 1% of the tokens stays with the manager; the other 99% burn at 1:1
    let lamports_out = pool.withdraw_sol(100_000, 0).unwrap();
    assert_eq!(lamports_out, 99_000);
    assert_eq!(pool.pool_token_supply, 1_000_000 - 99_000);
    assert_eq!(pool.total_lamports, 1_000_000 - 99_000);
}

#[test]
fn deposit_fee_split_with_referrer() {
    let mut pool = flat_pool(1_000_000, 1_000_000, 1_000_000);
    pool.set_fee(FeeType::Deposit(Fee { numerator: 10, denominator: 100 }))
        .unwrap();
    pool.set_fee(FeeType::Referral(30)).unwrap();
    let receipt = pool.deposit_sol(10_000, 0).unwrap();
    assert_eq!(receipt.pool_tokens_minted, 10_000);
    // 10% fee of 1_000 tokens, of which 30% goes to the referrer
    assert_eq!(receipt.pool_tokens_user, 9_000);
    assert_eq!(receipt.pool_tokens_referral, 300);
    assert_eq!(receipt.pool_tokens_manager, 700);
}

#[test]
fn stale_pool_rejects_value_moves() {
    let mut pool = flat_pool(1_000_000, 1_000_000, 1_000_000);
    assert_eq!(
        pool.deposit_sol(1, 7).err(),
        Some(StakePoolError::StakeListAndPoolOutOfDate)
    );
    assert_eq!(
        pool.withdraw_sol(1, 7).err(),
        Some(StakePoolError::StakeListAndPoolOutOfDate)
    );
    assert_eq!(pool.total_lamports, 1_000_000);
}

#[test]
fn withdraw_more_than_supply_fails() {
    let mut pool = flat_pool(1_000_000, 1_000, 1_000_000);
    assert_eq!(
        pool.withdraw_sol(1_001, 0).err(),
        Some(StakePoolError::InsufficientFunds)
    );
    let mut drained = flat_pool(0, 0, 0);
    assert_eq!(
        drained.withdraw_sol(0, 0).err(),
        Some(StakePoolError::InsufficientFunds)
    );
}

#[test]
fn withdraw_beyond_reserve_fails() {
    // the pool's value sits on validators; the reserve cannot cover the trade
    let mut pool = flat_pool(1_000_000, 1_000_000, 10);
    assert_eq!(
        pool.withdraw_sol(1_000, 0).err(),
        Some(StakePoolError::InsufficientFunds)
    );
}

#[test]
fn deposit_overflow_detected() {
    let mut pool = flat_pool(0, 0, 0);
    pool.deposit_sol(u64::MAX, 0).unwrap();
    assert_eq!(pool.total_lamports, u64::MAX);
    assert_eq!(
        pool.deposit_sol(1, 0).err(),
        Some(StakePoolError::ArithmeticOverflow)
    );
    assert_eq!(pool.total_lamports, u64::MAX);
}

#[test]
fn deposit_slippage_guard() {
    let mut pool = flat_pool(2_000_000, 1_000_000, 0);
    // 100 lamports buy only 50 tokens at the 2:1 rate
    assert_eq!(
        pool.deposit_sol_with_slippage(100, 51, 0).err(),
        Some(StakePoolError::SlippageExceeded)
    );
    assert_eq!(pool.pool_token_supply, 1_000_000);
    let receipt = pool.deposit_sol_with_slippage(100, 50, 0).unwrap();
    assert_eq!(receipt.pool_tokens_user, 50);
}

#[test]
fn withdraw_slippage_guard() {
    let mut pool = flat_pool(1_000_000, 1_000_000, 1_000_000);
    assert_eq!(
        pool.withdraw_sol_with_slippage(100, 101, 0).err(),
        Some(StakePoolError::SlippageExceeded)
    );
    assert_eq!(pool.withdraw_sol_with_slippage(100, 100, 0), Ok(100));
}

#[test]
fn manager_and_staker_setters() {
    let mut pool = flat_pool(0, 0, 0);
    pool.set_manager(77);
    pool.set_staker(88);
    assert_eq!(pool.manager, 77);
    assert_eq!(pool.staker, 88);
    pool.set_funding_authority(stake_pool::FundingType::SolDeposit, Some(5));
    assert_eq!(pool.sol_deposit_authority, Some(5));
    pool.set_funding_authority(stake_pool::FundingType::SolDeposit, None);
    assert_eq!(pool.sol_deposit_authority, None);
    pool.set_funding_authority(stake_pool::FundingType::StakeDeposit, Some(6));
    assert_eq!(pool.stake_deposit_authority, Some(6));
    pool.set_funding_authority(stake_pool::FundingType::SolWithdraw, Some(7));
    assert_eq!(pool.sol_withdraw_authority, Some(7));
}

#[test]
fn preferred_validator_must_exist() {
    let mut pool = flat_pool(0, 0, 0);
    let list = ValidatorList::new(4);
    assert_eq!(
        pool.set_preferred_validator(
            &list,
            stake_pool::PreferredValidatorType::Deposit,
            Some(9),
        )
        .err(),
        Some(StakePoolError::NotFound)
    );
    assert_eq!(
        pool.set_preferred_validator(&list, stake_pool::PreferredValidatorType::Deposit, None),
        Ok(())
    );
    assert_eq!(pool.preferred_deposit_validator, None);
}

#[test]
fn error_messages_are_descriptive() {
    assert!(StakePoolError::ListFull.message().contains("full"));
    assert!(StakePoolError::SlippageExceeded.message().contains("slippage"));
    assert!(!StakePoolError::ArithmeticOverflow.message().is_empty());
}
