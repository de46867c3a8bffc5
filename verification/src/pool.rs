//! The stake pool aggregate: total-value accounting, the exchange rate
//! between lamports and pool-share tokens, deposits and withdrawals.

use vstd::prelude::*;

verus! {

use crate::error::StakePoolError;
use crate::fee::{Fee, FeeType, fee_amount, lemma_fee_amount_bounded, split_referral};
use crate::state::{
    StakeStatus, ValidatorList, ValidatorStakeInfo, has_vote, lemma_unique_votes_update,
    lemma_vote_index, vote_index,
};
use vstd::arithmetic::mul::lemma_mul_upper_bound;

/// Outcome of depositing `lamports` into the reserve at epoch
/// `current_epoch`, possibly bounded by a slippage minimum.
///
/// On success: the reserve and the total value grow by the deposit, the
/// supply grows by the tokens minted at the pre-deposit rate, and the minted
/// tokens are split between depositor, manager and referrer by the deposit
/// and referral fees.
pub open spec fn spec_deposit_sol(
    pool: StakePool,
    lamports: u64,
    current_epoch: u64,
    minimum_pool_tokens_out: Option<u64>,
) -> Result<(StakePool, DepositReceipt), StakePoolError> {
    let total = pool.total_lamports as int;
    let supply = pool.pool_token_supply as int;
    let minted = tokens_for_deposit(total, supply, lamports as int);
    let fee = pool.deposit_fee.spec_apply(minted);
    let referral = fee_amount(fee, pool.referral_fee as int, 100);
    if !pool.is_updated_for(current_epoch) {
        Err(StakePoolError::StakeListAndPoolOutOfDate)
    } else if minted > u64::MAX {
        Err(StakePoolError::ArithmeticOverflow)
    } else if total + lamports > u64::MAX || supply + minted > u64::MAX
        || pool.reserve_lamports + lamports > u64::MAX {
        Err(StakePoolError::ArithmeticOverflow)
    } else if minimum_pool_tokens_out matches Some(m) && minted - fee < m {
        Err(StakePoolError::SlippageExceeded)
    } else {
        Ok((
            StakePool {
                reserve_lamports: (pool.reserve_lamports + lamports) as u64,
                total_lamports: (total + lamports) as u64,
                pool_token_supply: (supply + minted) as u64,
                ..pool
            },
            DepositReceipt {
                pool_tokens_minted: minted as u64,
                pool_tokens_user: (minted - fee) as u64,
                pool_tokens_manager: (fee - referral) as u64,
                pool_tokens_referral: referral as u64,
            },
        ))
    }
}

/// Outcome of burning `pool_tokens_in` against the reserve at epoch
/// `current_epoch`, possibly bounded by a slippage minimum.
///
/// On success: the withdrawal fee stays with the manager in tokens, the
/// rest burns at the current rate, and the lamports owed leave the reserve
/// and the total value.
pub open spec fn spec_withdraw_sol(
    pool: StakePool,
    pool_tokens_in: u64,
    current_epoch: u64,
    minimum_lamports_out: Option<u64>,
) -> Result<(StakePool, u64), StakePoolError> {
    let total = pool.total_lamports as int;
    let supply = pool.pool_token_supply as int;
    let fee = pool.withdrawal_fee.spec_apply(pool_tokens_in as int);
    let burn = pool_tokens_in - fee;
    let out = lamports_for_tokens(total, supply, burn);
    if !pool.is_updated_for(current_epoch) {
        Err(StakePoolError::StakeListAndPoolOutOfDate)
    } else if supply == 0 || pool_tokens_in > supply {
        Err(StakePoolError::InsufficientFunds)
    } else if out > pool.reserve_lamports {
        Err(StakePoolError::InsufficientFunds)
    } else if minimum_lamports_out matches Some(m) && out < m {
        Err(StakePoolError::SlippageExceeded)
    } else {
        Ok((
            StakePool {
                reserve_lamports: (pool.reserve_lamports - out) as u64,
                total_lamports: (total - out) as u64,
                pool_token_supply: (supply - burn) as u64,
                ..pool
            },
            out as u64,
        ))
    }
}

/// Outcome of depositing an already-delegated stake position of
/// `stake_lamports` onto validator `vote` at epoch `current_epoch`.
///
/// On success: the deposited lamports merge into the validator's canonical
/// stake, the total value grows by them, and tokens minted at the
/// pre-deposit rate are split by the deposit and referral fees.
pub open spec fn spec_deposit_stake(
    pool: StakePool,
    s: Seq<ValidatorStakeInfo>,
    vote: u64,
    stake_lamports: u64,
    current_epoch: u64,
    minimum_pool_tokens_out: Option<u64>,
) -> Result<(StakePool, Seq<ValidatorStakeInfo>, DepositReceipt), StakePoolError> {
    let total = pool.total_lamports as int;
    let supply = pool.pool_token_supply as int;
    let minted = tokens_for_deposit(total, supply, stake_lamports as int);
    let fee = pool.deposit_fee.spec_apply(minted);
    let referral = fee_amount(fee, pool.referral_fee as int, 100);
    let i = vote_index(s, vote);
    let e = s[i];
    if !pool.is_updated_for(current_epoch) {
        Err(StakePoolError::StakeListAndPoolOutOfDate)
    } else if !has_vote(s, vote) {
        Err(StakePoolError::NotFound)
    } else if e.status != StakeStatus::Active {
        Err(StakePoolError::ValidatorNotActive)
    } else if pool.preferred_deposit_validator matches Some(p) && p != vote {
        Err(StakePoolError::IncorrectPreferredValidator)
    } else if minted > u64::MAX {
        Err(StakePoolError::ArithmeticOverflow)
    } else if total + stake_lamports > u64::MAX || supply + minted > u64::MAX
        || e.active_stake_lamports + stake_lamports > u64::MAX {
        Err(StakePoolError::ArithmeticOverflow)
    } else if minimum_pool_tokens_out matches Some(m) && minted - fee < m {
        Err(StakePoolError::SlippageExceeded)
    } else {
        Ok((
            StakePool {
                total_lamports: (total + stake_lamports) as u64,
                pool_token_supply: (supply + minted) as u64,
                ..pool
            },
            s.update(i, ValidatorStakeInfo {
                active_stake_lamports: (e.active_stake_lamports + stake_lamports) as u64,
                ..e
            }),
            DepositReceipt {
                pool_tokens_minted: minted as u64,
                pool_tokens_user: (minted - fee) as u64,
                pool_tokens_manager: (fee - referral) as u64,
                pool_tokens_referral: referral as u64,
            },
        ))
    }
}

/// Outcome of burning `pool_tokens_in` against validator `vote`'s canonical
/// stake at epoch `current_epoch`.
///
/// On success: the withdrawal fee stays with the manager in tokens, the
/// rest burns at the current rate, and the lamports owed leave the
/// validator's canonical stake and the total value.  The canonical stake
/// must retain at least `minimum_delegation`.
pub open spec fn spec_withdraw_stake(
    pool: StakePool,
    s: Seq<ValidatorStakeInfo>,
    vote: u64,
    pool_tokens_in: u64,
    minimum_delegation: u64,
    current_epoch: u64,
    minimum_lamports_out: Option<u64>,
) -> Result<(StakePool, Seq<ValidatorStakeInfo>, u64), StakePoolError> {
    let total = pool.total_lamports as int;
    let supply = pool.pool_token_supply as int;
    let fee = pool.withdrawal_fee.spec_apply(pool_tokens_in as int);
    let burn = pool_tokens_in - fee;
    let out = lamports_for_tokens(total, supply, burn);
    let i = vote_index(s, vote);
    let e = s[i];
    if !pool.is_updated_for(current_epoch) {
        Err(StakePoolError::StakeListAndPoolOutOfDate)
    } else if !has_vote(s, vote) {
        Err(StakePoolError::NotFound)
    } else if e.status != StakeStatus::Active {
        Err(StakePoolError::ValidatorNotActive)
    } else if pool.preferred_withdraw_validator matches Some(p) && p != vote {
        Err(StakePoolError::IncorrectPreferredValidator)
    } else if supply == 0 || pool_tokens_in > supply {
        Err(StakePoolError::InsufficientFunds)
    } else if e.active_stake_lamports < out + minimum_delegation {
        Err(StakePoolError::MinimumBalanceViolation)
    } else if minimum_lamports_out matches Some(m) && out < m {
        Err(StakePoolError::SlippageExceeded)
    } else {
        Ok((
            StakePool {
                total_lamports: (total - out) as u64,
                pool_token_supply: (supply - burn) as u64,
                ..pool
            },
            s.update(i, ValidatorStakeInfo {
                active_stake_lamports: (e.active_stake_lamports - out) as u64,
                ..e
            }),
            out as u64,
        ))
    }
}

/// Selects which preferred validator a preference-setting operation updates.
#[derive(Clone, Copy, Debug, PartialEq, Eq, Structural)]
pub enum PreferredValidatorType {
    /// Set the preferred validator for deposits.
    Deposit,
    /// Set the preferred validator for withdrawals.
    Withdraw,
}

/// Selects which funding authority an authority-setting operation updates.
#[derive(Clone, Copy, Debug, PartialEq, Eq, Structural)]
pub enum FundingType {
    /// The authority that must sign stake deposits.
    StakeDeposit,
    /// The authority that must sign lamport deposits.
    SolDeposit,
    /// The authority that must sign lamport withdrawals.
    SolWithdraw,
}

/// How freshly minted pool tokens of a deposit are distributed.
#[derive(Clone, Copy, Debug, PartialEq, Eq, Structural)]
pub struct DepositReceipt {
    /// Pool tokens minted for the deposit in total.
    pub pool_tokens_minted: u64,
    /// Pool tokens credited to the depositor.
    pub pool_tokens_user: u64,
    /// Pool tokens credited to the manager as the deposit fee.
    pub pool_tokens_manager: u64,
    /// Pool tokens credited to the referrer out of the deposit fee.
    pub pool_tokens_referral: u64,
}

/// Pool tokens minted for depositing `lamports` at the current rate.
///
/// An empty pool (no value or no supply) bootstraps one token per lamport.
pub open spec fn tokens_for_deposit(total: int, supply: int, lamports: int) -> int {
    if total == 0 || supply == 0 {
        lamports
    } else {
        lamports * supply / total
    }
}

/// Lamports owed for burning `tokens` at the current rate.
pub open spec fn lamports_for_tokens(total: int, supply: int, tokens: int) -> int {
    if supply == 0 {
        0
    } else {
        tokens * total / supply
    }
}

/// The pool aggregate.
///
/// `total_lamports` is the last-reconciled estimate of pool value; it and
/// `pool_token_supply` together imply the exchange rate.  Both are
/// recomputed, not incrementally trusted, by the epoch reconciliation, and
/// any value-moving operation fails while they are stale.
#[derive(Clone, Copy, Debug, PartialEq, Eq, Structural)]
pub struct StakePool {
    /// Authority over fees and funding authorities.
    pub manager: u64,
    /// Operator that spreads and rebalances the pooled stake.
    pub staker: u64,
    /// Optional authority that must sign stake deposits.
    pub stake_deposit_authority: Option<u64>,
    /// Optional authority that must sign lamport deposits.
    pub sol_deposit_authority: Option<u64>,
    /// Optional authority that must sign lamport withdrawals.
    pub sol_withdraw_authority: Option<u64>,
    /// Validator all stake deposits must go to, when set.
    pub preferred_deposit_validator: Option<u64>,
    /// Validator all stake withdrawals must come from, when set.
    pub preferred_withdraw_validator: Option<u64>,
    /// Undedicated lamports awaiting delegation or withdrawal.
    pub reserve_lamports: u64,
    /// Last-reconciled estimate of the pool's value in lamports.
    pub total_lamports: u64,
    /// Supply of pool-share tokens.
    pub pool_token_supply: u64,
    /// Epoch of the last completed reconciliation.
    pub last_update_epoch: u64,
    /// Fee assessed on epoch reward growth.
    pub epoch_fee: Fee,
    /// Fee charged on each withdrawal.
    pub withdrawal_fee: Fee,
    /// Fee charged on each deposit.
    pub deposit_fee: Fee,
    /// Percentage of the deposit fee that goes to a referrer.
    pub referral_fee: u8,
}

impl StakePool {
    /// Structural invariant: every fee fraction is proper.
    pub open spec fn wf(self) -> bool {
        &&& self.epoch_fee.wf()
        &&& self.withdrawal_fee.wf()
        &&& self.deposit_fee.wf()
        &&& self.referral_fee <= 100
    }

    /// The pool is reconciled for `epoch`, so value-moving operations may run.
    pub open spec fn is_updated_for(self, epoch: u64) -> bool {
        self.last_update_epoch == epoch
    }

    /// Creates a new pool with an empty validator list.
    ///
    /// Fails with `FeeTooHigh` when a fee fraction is improper or the
    /// referral percentage exceeds 100.
    pub fn initialize(
        manager: u64,
        staker: u64,
        max_validators: u32,
        epoch_fee: Fee,
        withdrawal_fee: Fee,
        deposit_fee: Fee,
        referral_fee: u8,
        current_epoch: u64,
    ) -> (r: Result<(StakePool, ValidatorList), StakePoolError>)
        ensures
            match r {
                Ok((pool, list)) => {
                    &&& epoch_fee.wf() && withdrawal_fee.wf() && deposit_fee.wf() && referral_fee <= 100
                    &&& pool.wf()
                    &&& list.wf()
                    &&& pool == (StakePool {
                        manager,
                        staker,
                        stake_deposit_authority: None,
                        sol_deposit_authority: None,
                        sol_withdraw_authority: None,
                        preferred_deposit_validator: None,
                        preferred_withdraw_validator: None,
                        reserve_lamports: 0u64,
                        total_lamports: 0u64,
                        pool_token_supply: 0u64,
                        last_update_epoch: current_epoch,
                        epoch_fee,
                        withdrawal_fee,
                        deposit_fee,
                        referral_fee,
                    })
                    &&& list.entries() =~= Seq::<ValidatorStakeInfo>::empty()
                    &&& list.max_validators == max_validators
                },
                Err(e) => e == StakePoolError::FeeTooHigh
                    && !(epoch_fee.wf() && withdrawal_fee.wf() && deposit_fee.wf() && referral_fee <= 100),
            },
    {
        if epoch_fee.numerator > epoch_fee.denominator
            || withdrawal_fee.numerator > withdrawal_fee.denominator
            || deposit_fee.numerator > deposit_fee.denominator
            || referral_fee > 100
        {
            return Err(StakePoolError::FeeTooHigh);
        }
        let pool = StakePool {
            manager,
            staker,
            stake_deposit_authority: None,
            sol_deposit_authority: None,
            sol_withdraw_authority: None,
            preferred_deposit_validator: None,
            preferred_withdraw_validator: None,
            reserve_lamports: 0,
            total_lamports: 0,
            pool_token_supply: 0,
            last_update_epoch: current_epoch,
            epoch_fee,
            withdrawal_fee,
            deposit_fee,
            referral_fee,
        };
        Ok((pool, ValidatorList::new(max_validators)))
    }

    /// Replaces the manager.
    pub fn set_manager(&mut self, new_manager: u64)
        ensures
            *final(self) == (StakePool { manager: new_manager, ..*old(self) }),
    {
        self.manager = new_manager;
    }

    /// Replaces the staker.
    pub fn set_staker(&mut self, new_staker: u64)
        ensures
            *final(self) == (StakePool { staker: new_staker, ..*old(self) }),
    {
        self.staker = new_staker;
    }

    /// Replaces one of the three funding authorities.
    pub fn set_funding_authority(&mut self, funding_type: FundingType, new_authority: Option<u64>)
        ensures
            *final(self) == match funding_type {
                FundingType::StakeDeposit => (StakePool { stake_deposit_authority: new_authority, ..*old(self) }),
                FundingType::SolDeposit => (StakePool { sol_deposit_authority: new_authority, ..*old(self) }),
                FundingType::SolWithdraw => (StakePool { sol_withdraw_authority: new_authority, ..*old(self) }),
            },
    {
        match funding_type {
            FundingType::StakeDeposit => self.stake_deposit_authority = new_authority,
            FundingType::SolDeposit => self.sol_deposit_authority = new_authority,
            FundingType::SolWithdraw => self.sol_withdraw_authority = new_authority,
        }
    }

    /// Replaces one fee of the pool, after validating it.
    ///
    /// Fails with `FeeTooHigh` on an improper fraction or a referral
    /// percentage over 100; the pool is unchanged on failure.
    pub fn set_fee(&mut self, fee: FeeType) -> (r: Result<(), StakePoolError>)
        ensures
            match r {
                Ok(()) => fee.wf() && *final(self) == match fee {
                    FeeType::Epoch(f) => (StakePool { epoch_fee: f, ..*old(self) }),
                    FeeType::Withdrawal(f) => (StakePool { withdrawal_fee: f, ..*old(self) }),
                    FeeType::Deposit(f) => (StakePool { deposit_fee: f, ..*old(self) }),
                    FeeType::Referral(pct) => (StakePool { referral_fee: pct, ..*old(self) }),
                },
                Err(e) => e == StakePoolError::FeeTooHigh && !fee.wf() && *final(self) == *old(self),
            },
    {
        if !fee.check() {
            return Err(StakePoolError::FeeTooHigh);
        }
        match fee {
            FeeType::Epoch(f) => self.epoch_fee = f,
            FeeType::Withdrawal(f) => self.withdrawal_fee = f,
            FeeType::Deposit(f) => self.deposit_fee = f,
            FeeType::Referral(pct) => self.referral_fee = pct,
        }
        Ok(())
    }

    /// Sets or unsets the preferred deposit or withdrawal validator.
    ///
    /// Fails with `NotFound` when a validator is named that is not part of
    /// the pool; the pool is unchanged on failure.
    pub fn set_preferred_validator(
        &mut self,
        list: &ValidatorList,
        validator_type: PreferredValidatorType,
        vote_account_address: Option<u64>,
    ) -> (r: Result<(), StakePoolError>)
        ensures
            match r {
                Ok(()) => {
                    &&& (vote_account_address matches Some(v) ==> has_vote(list.entries(), v))
                    &&& *final(self) == match validator_type {
                        PreferredValidatorType::Deposit => (StakePool {
                            preferred_deposit_validator: vote_account_address, ..*old(self)
                        }),
                        PreferredValidatorType::Withdraw => (StakePool {
                            preferred_withdraw_validator: vote_account_address, ..*old(self)
                        }),
                    }
                },
                Err(e) => {
                    &&& e == StakePoolError::NotFound
                    &&& (vote_account_address matches Some(v) && !has_vote(list.entries(), v))
                    &&& *final(self) == *old(self)
                },
            },
    {
        if let Some(vote) = vote_account_address {
            if list.find(vote).is_none() {
                return Err(StakePoolError::NotFound);
            }
        }
        match validator_type {
            PreferredValidatorType::Deposit => self.preferred_deposit_validator = vote_account_address,
            PreferredValidatorType::Withdraw => self.preferred_withdraw_validator = vote_account_address,
        }
        Ok(())
    }

    /// Pool tokens owed for a deposit of `lamports` at the current rate,
    /// or `None` when the product does not fit in 64 bits.
    pub fn calc_pool_tokens_for_deposit(&self, lamports: u64) -> (r: Option<u64>)
        ensures
            match r {
                Some(t) => t == tokens_for_deposit(
                    self.total_lamports as int, self.pool_token_supply as int, lamports as int),
                None => tokens_for_deposit(
                    self.total_lamports as int, self.pool_token_supply as int, lamports as int)
                    > u64::MAX,
            },
    {
        if self.total_lamports == 0 || self.pool_token_supply == 0 {
            return Some(lamports);
        }
        proof {
            lemma_mul_upper_bound(lamports as int, u64::MAX as int, self.pool_token_supply as int, u64::MAX as int);
            vstd::arithmetic::div_mod::lemma_div_pos_is_pos(
                lamports as int * self.pool_token_supply as int, self.total_lamports as int);
        }
        let product: u128 = (lamports as u128) * (self.pool_token_supply as u128);
        let quotient: u128 = product / (self.total_lamports as u128);
        if quotient > u64::MAX as u128 {
            None
        } else {
            Some(quotient as u64)
        }
    }

    /// Lamports owed for burning `tokens` at the current rate.
    ///
    /// `None` when the pool has no token supply.  For `tokens` within the
    /// supply the result is within the pool's total value.
    pub fn calc_lamports_withdraw_amount(&self, tokens: u64) -> (r: Option<u64>)
        ensures
            match r {
                Some(l) => {
                    &&& self.pool_token_supply > 0
                    &&& l == lamports_for_tokens(
                        self.total_lamports as int, self.pool_token_supply as int, tokens as int)
                },
                None => self.pool_token_supply == 0 || lamports_for_tokens(
                    self.total_lamports as int, self.pool_token_supply as int, tokens as int)
                    > u64::MAX,
            },
    {
        if self.pool_token_supply == 0 {
            return None;
        }
        proof {
            lemma_mul_upper_bound(tokens as int, u64::MAX as int, self.total_lamports as int, u64::MAX as int);
            vstd::arithmetic::div_mod::lemma_div_pos_is_pos(
                tokens as int * self.total_lamports as int, self.pool_token_supply as int);
        }
        let product: u128 = (tokens as u128) * (self.total_lamports as u128);
        let quotient: u128 = product / (self.pool_token_supply as u128);
        if quotient > u64::MAX as u128 {
            None
        } else {
            Some(quotient as u64)
        }
    }

    /// Deposits `lamports` into the reserve, bounded by an optional
    /// slippage minimum.
    fn deposit_sol_internal(
        &mut self,
        lamports: u64,
        current_epoch: u64,
        minimum_pool_tokens_out: Option<u64>,
    ) -> (r: Result<DepositReceipt, StakePoolError>)
        requires
            old(self).wf(),
        ensures
            final(self).wf(),
            match r {
                Ok(receipt) => spec_deposit_sol(
                    *old(self), lamports, current_epoch, minimum_pool_tokens_out)
                    == Ok::<_, StakePoolError>((*final(self), receipt)),
                Err(e) => *final(self) == *old(self) && spec_deposit_sol(
                    *old(self), lamports, current_epoch, minimum_pool_tokens_out)
                    == Err::<(StakePool, DepositReceipt), _>(e),
            },
    {
        if self.last_update_epoch != current_epoch {
            return Err(StakePoolError::StakeListAndPoolOutOfDate);
        }
        let minted = match self.calc_pool_tokens_for_deposit(lamports) {
            Some(t) => t,
            None => {
                return Err(StakePoolError::ArithmeticOverflow);
            },
        };
        if lamports > u64::MAX - self.total_lamports
            || minted > u64::MAX - self.pool_token_supply
            || lamports > u64::MAX - self.reserve_lamports
        {
            return Err(StakePoolError::ArithmeticOverflow);
        }
        let (fee_tokens, user_tokens) = self.deposit_fee.apply(minted);
        let (referral_tokens, manager_tokens) = split_referral(fee_tokens, self.referral_fee);
        if let Some(m) = minimum_pool_tokens_out {
            if user_tokens < m {
                return Err(StakePoolError::SlippageExceeded);
            }
        }
        self.reserve_lamports = self.reserve_lamports + lamports;
        self.total_lamports = self.total_lamports + lamports;
        self.pool_token_supply = self.pool_token_supply + minted;
        Ok(DepositReceipt {
            pool_tokens_minted: minted,
            pool_tokens_user: user_tokens,
            pool_tokens_manager: manager_tokens,
            pool_tokens_referral: referral_tokens,
        })
    }

    /// Deposits `lamports` into the reserve in exchange for pool tokens at
    /// the current rate; the deposit fee is split with the referrer.
    ///
    /// Fails with `StakeListAndPoolOutOfDate` when the pool is stale for
    /// `current_epoch`, and with `ArithmeticOverflow` when a balance or the
    /// supply would leave 64 bits; the pool is unchanged on failure.
    pub fn deposit_sol(&mut self, lamports: u64, current_epoch: u64) -> (r: Result<
        DepositReceipt,
        StakePoolError,
    >)
        requires
            old(self).wf(),
        ensures
            final(self).wf(),
            match r {
                Ok(receipt) => spec_deposit_sol(*old(self), lamports, current_epoch, None)
                    == Ok::<_, StakePoolError>((*final(self), receipt)),
                Err(e) => *final(self) == *old(self) && spec_deposit_sol(
                    *old(self), lamports, current_epoch, None)
                    == Err::<(StakePool, DepositReceipt), _>(e),
            },
    {
        self.deposit_sol_internal(lamports, current_epoch, None)
    }

    /// Like [`Self::deposit_sol`], but fails with `SlippageExceeded` before
    /// completing a trade that would credit the depositor fewer than
    /// `minimum_pool_tokens_out` tokens.
    pub fn deposit_sol_with_slippage(
        &mut self,
        lamports: u64,
        minimum_pool_tokens_out: u64,
        current_epoch: u64,
    ) -> (r: Result<DepositReceipt, StakePoolError>)
        requires
            old(self).wf(),
        ensures
            final(self).wf(),
            match r {
                Ok(receipt) => spec_deposit_sol(
                    *old(self), lamports, current_epoch, Some(minimum_pool_tokens_out))
                    == Ok::<_, StakePoolError>((*final(self), receipt)),
                Err(e) => *final(self) == *old(self) && spec_deposit_sol(
                    *old(self), lamports, current_epoch, Some(minimum_pool_tokens_out))
                    == Err::<(StakePool, DepositReceipt), _>(e),
            },
    {
        self.deposit_sol_internal(lamports, current_epoch, Some(minimum_pool_tokens_out))
    }

    /// Burns pool tokens against the reserve, bounded by an optional
    /// slippage minimum.
    fn withdraw_sol_internal(
        &mut self,
        pool_tokens_in: u64,
        current_epoch: u64,
        minimum_lamports_out: Option<u64>,
    ) -> (r: Result<u64, StakePoolError>)
        requires
            old(self).wf(),
        ensures
            final(self).wf(),
            match r {
                Ok(lamports_out) => spec_withdraw_sol(
                    *old(self), pool_tokens_in, current_epoch, minimum_lamports_out)
                    == Ok::<_, StakePoolError>((*final(self), lamports_out)),
                Err(e) => *final(self) == *old(self) && spec_withdraw_sol(
                    *old(self), pool_tokens_in, current_epoch, minimum_lamports_out)
                    == Err::<(StakePool, u64), _>(e),
            },
    {
        if self.last_update_epoch != current_epoch {
            return Err(StakePoolError::StakeListAndPoolOutOfDate);
        }
        if self.pool_token_supply == 0 || pool_tokens_in > self.pool_token_supply {
            return Err(StakePoolError::InsufficientFunds);
        }
        let (fee_tokens, burn_tokens) = self.withdrawal_fee.apply(pool_tokens_in);
        proof {
            lemma_withdraw_within_total(
                self.total_lamports as int,
                self.pool_token_supply as int,
                pool_tokens_in - self.withdrawal_fee.spec_apply(pool_tokens_in as int),
            );
        }
        let lamports_out = match self.calc_lamports_withdraw_amount(burn_tokens) {
            Some(l) => l,
            None => {
                return Err(StakePoolError::InsufficientFunds);
            },
        };
        if lamports_out > self.reserve_lamports {
            return Err(StakePoolError::InsufficientFunds);
        }
        if let Some(m) = minimum_lamports_out {
            if lamports_out < m {
                return Err(StakePoolError::SlippageExceeded);
            }
        }
        self.reserve_lamports = self.reserve_lamports - lamports_out;
        self.total_lamports = self.total_lamports - lamports_out;
        self.pool_token_supply = self.pool_token_supply - burn_tokens;
        Ok(lamports_out)
    }

    /// Burns `pool_tokens_in` in exchange for lamports from the reserve at
    /// the current rate; the withdrawal fee stays with the manager.
    ///
    /// Fails with `StakeListAndPoolOutOfDate` when the pool is stale for
    /// `current_epoch`, and with `InsufficientFunds` when the tokens exceed
    /// the supply or the reserve cannot cover the lamports owed; the pool
    /// is unchanged on failure.
    pub fn withdraw_sol(&mut self, pool_tokens_in: u64, current_epoch: u64) -> (r: Result<
        u64,
        StakePoolError,
    >)
        requires
            old(self).wf(),
        ensures
            final(self).wf(),
            match r {
                Ok(lamports_out) => spec_withdraw_sol(*old(self), pool_tokens_in, current_epoch, None)
                    == Ok::<_, StakePoolError>((*final(self), lamports_out)),
                Err(e) => *final(self) == *old(self) && spec_withdraw_sol(
                    *old(self), pool_tokens_in, current_epoch, None)
                    == Err::<(StakePool, u64), _>(e),
            },
    {
        self.withdraw_sol_internal(pool_tokens_in, current_epoch, None)
    }

    /// Like [`Self::withdraw_sol`], but fails with `SlippageExceeded`
    /// before completing a trade that would pay out fewer than
    /// `minimum_lamports_out` lamports.
    pub fn withdraw_sol_with_slippage(
        &mut self,
        pool_tokens_in: u64,
        minimum_lamports_out: u64,
        current_epoch: u64,
    ) -> (r: Result<u64, StakePoolError>)
        requires
            old(self).wf(),
        ensures
            final(self).wf(),
            match r {
                Ok(lamports_out) => spec_withdraw_sol(
                    *old(self), pool_tokens_in, current_epoch, Some(minimum_lamports_out))
                    == Ok::<_, StakePoolError>((*final(self), lamports_out)),
                Err(e) => *final(self) == *old(self) && spec_withdraw_sol(
                    *old(self), pool_tokens_in, current_epoch, Some(minimum_lamports_out))
                    == Err::<(StakePool, u64), _>(e),
            },
    {
        self.withdraw_sol_internal(pool_tokens_in, current_epoch, Some(minimum_lamports_out))
    }

    /// Deposits a stake position onto a validator, bounded by an optional
    /// slippage minimum.
    fn deposit_stake_internal(
        &mut self,
        list: &mut ValidatorList,
        vote_account_address: u64,
        stake_lamports: u64,
        current_epoch: u64,
        minimum_pool_tokens_out: Option<u64>,
    ) -> (r: Result<DepositReceipt, StakePoolError>)
        requires
            old(self).wf(),
            old(list).wf(),
        ensures
            final(self).wf(),
            final(list).wf(),
            final(list).max_validators == old(list).max_validators,
            match r {
                Ok(receipt) => spec_deposit_stake(
                    *old(self), old(list).entries(), vote_account_address, stake_lamports,
                    current_epoch, minimum_pool_tokens_out)
                    == Ok::<_, StakePoolError>((*final(self), final(list).entries(), receipt)),
                Err(e) => *final(self) == *old(self) && *final(list) == *old(list)
                    && spec_deposit_stake(
                        *old(self), old(list).entries(), vote_account_address, stake_lamports,
                        current_epoch, minimum_pool_tokens_out)
                    == Err::<(StakePool, Seq<ValidatorStakeInfo>, DepositReceipt), _>(e),
            },
    {
        if self.last_update_epoch != current_epoch {
            return Err(StakePoolError::StakeListAndPoolOutOfDate);
        }
        let i = match list.find(vote_account_address) {
            Some(i) => i,
            None => {
                return Err(StakePoolError::NotFound);
            },
        };
        proof {
            lemma_vote_index(list.entries(), vote_account_address, i as int);
        }
        let e = list.get(i);
        if !matches!(e.status, StakeStatus::Active) {
            return Err(StakePoolError::ValidatorNotActive);
        }
        if let Some(p) = self.preferred_deposit_validator {
            if p != vote_account_address {
                return Err(StakePoolError::IncorrectPreferredValidator);
            }
        }
        let minted = match self.calc_pool_tokens_for_deposit(stake_lamports) {
            Some(t) => t,
            None => {
                return Err(StakePoolError::ArithmeticOverflow);
            },
        };
        if stake_lamports > u64::MAX - self.total_lamports
            || minted > u64::MAX - self.pool_token_supply
            || stake_lamports > u64::MAX - e.active_stake_lamports
        {
            return Err(StakePoolError::ArithmeticOverflow);
        }
        let (fee_tokens, user_tokens) = self.deposit_fee.apply(minted);
        let (referral_tokens, manager_tokens) = split_referral(fee_tokens, self.referral_fee);
        if let Some(m) = minimum_pool_tokens_out {
            if user_tokens < m {
                return Err(StakePoolError::SlippageExceeded);
            }
        }
        list.set(i, ValidatorStakeInfo {
            active_stake_lamports: e.active_stake_lamports + stake_lamports,
            ..e
        });
        self.total_lamports = self.total_lamports + stake_lamports;
        self.pool_token_supply = self.pool_token_supply + minted;
        proof {
            lemma_unique_votes_update(old(list).entries(), i as int, list.entries()[i as int]);
        }
        Ok(DepositReceipt {
            pool_tokens_minted: minted,
            pool_tokens_user: user_tokens,
            pool_tokens_manager: manager_tokens,
            pool_tokens_referral: referral_tokens,
        })
    }

    /// Deposits an already-delegated stake position of `stake_lamports`
    /// onto validator `vote_account_address` in exchange for pool tokens at
    /// the current rate; the deposit fee is split with the referrer.
    ///
    /// Fails with `StakeListAndPoolOutOfDate` when the pool is stale,
    /// `NotFound` when the validator is not in the list,
    /// `ValidatorNotActive` when its entry no longer accepts transitions,
    /// `IncorrectPreferredValidator` when a preferred deposit validator is
    /// set and differs, and `ArithmeticOverflow` when a balance or the
    /// supply would leave 64 bits; nothing changes on failure.
    pub fn deposit_stake(
        &mut self,
        list: &mut ValidatorList,
        vote_account_address: u64,
        stake_lamports: u64,
        current_epoch: u64,
    ) -> (r: Result<DepositReceipt, StakePoolError>)
        requires
            old(self).wf(),
            old(list).wf(),
        ensures
            final(self).wf(),
            final(list).wf(),
            final(list).max_validators == old(list).max_validators,
            match r {
                Ok(receipt) => spec_deposit_stake(
                    *old(self), old(list).entries(), vote_account_address, stake_lamports,
                    current_epoch, None)
                    == Ok::<_, StakePoolError>((*final(self), final(list).entries(), receipt)),
                Err(e) => *final(self) == *old(self) && *final(list) == *old(list)
                    && spec_deposit_stake(
                        *old(self), old(list).entries(), vote_account_address, stake_lamports,
                        current_epoch, None)
                    == Err::<(StakePool, Seq<ValidatorStakeInfo>, DepositReceipt), _>(e),
            },
    {
        self.deposit_stake_internal(list, vote_account_address, stake_lamports, current_epoch, None)
    }

    /// Like [`Self::deposit_stake`], but fails with `SlippageExceeded`
    /// before completing a trade that would credit the depositor fewer
    /// than `minimum_pool_tokens_out` tokens.
    pub fn deposit_stake_with_slippage(
        &mut self,
        list: &mut ValidatorList,
        vote_account_address: u64,
        stake_lamports: u64,
        minimum_pool_tokens_out: u64,
        current_epoch: u64,
    ) -> (r: Result<DepositReceipt, StakePoolError>)
        requires
            old(self).wf(),
            old(list).wf(),
        ensures
            final(self).wf(),
            final(list).wf(),
            final(list).max_validators == old(list).max_validators,
            match r {
                Ok(receipt) => spec_deposit_stake(
                    *old(self), old(list).entries(), vote_account_address, stake_lamports,
                    current_epoch, Some(minimum_pool_tokens_out))
                    == Ok::<_, StakePoolError>((*final(self), final(list).entries(), receipt)),
                Err(e) => *final(self) == *old(self) && *final(list) == *old(list)
                    && spec_deposit_stake(
                        *old(self), old(list).entries(), vote_account_address, stake_lamports,
                        current_epoch, Some(minimum_pool_tokens_out))
                    == Err::<(StakePool, Seq<ValidatorStakeInfo>, DepositReceipt), _>(e),
            },
    {
        self.deposit_stake_internal(
            list, vote_account_address, stake_lamports, current_epoch, Some(minimum_pool_tokens_out))
    }

    /// Burns pool tokens against a validator's canonical stake, bounded by
    /// an optional slippage minimum.
    fn withdraw_stake_internal(
        &mut self,
        list: &mut ValidatorList,
        vote_account_address: u64,
        pool_tokens_in: u64,
        minimum_delegation: u64,
        current_epoch: u64,
        minimum_lamports_out: Option<u64>,
    ) -> (r: Result<u64, StakePoolError>)
        requires
            old(self).wf(),
            old(list).wf(),
        ensures
            final(self).wf(),
            final(list).wf(),
            final(list).max_validators == old(list).max_validators,
            match r {
                Ok(lamports_out) => spec_withdraw_stake(
                    *old(self), old(list).entries(), vote_account_address, pool_tokens_in,
                    minimum_delegation, current_epoch, minimum_lamports_out)
                    == Ok::<_, StakePoolError>((*final(self), final(list).entries(), lamports_out)),
                Err(e) => *final(self) == *old(self) && *final(list) == *old(list)
                    && spec_withdraw_stake(
                        *old(self), old(list).entries(), vote_account_address, pool_tokens_in,
                        minimum_delegation, current_epoch, minimum_lamports_out)
                    == Err::<(StakePool, Seq<ValidatorStakeInfo>, u64), _>(e),
            },
    {
        if self.last_update_epoch != current_epoch {
            return Err(StakePoolError::StakeListAndPoolOutOfDate);
        }
        let i = match list.find(vote_account_address) {
            Some(i) => i,
            None => {
                return Err(StakePoolError::NotFound);
            },
        };
        proof {
            lemma_vote_index(list.entries(), vote_account_address, i as int);
        }
        let e = list.get(i);
        if !matches!(e.status, StakeStatus::Active) {
            return Err(StakePoolError::ValidatorNotActive);
        }
        if let Some(p) = self.preferred_withdraw_validator {
            if p != vote_account_address {
                return Err(StakePoolError::IncorrectPreferredValidator);
            }
        }
        if self.pool_token_supply == 0 || pool_tokens_in > self.pool_token_supply {
            return Err(StakePoolError::InsufficientFunds);
        }
        let (fee_tokens, burn_tokens) = self.withdrawal_fee.apply(pool_tokens_in);
        proof {
            lemma_withdraw_within_total(
                self.total_lamports as int,
                self.pool_token_supply as int,
                pool_tokens_in - self.withdrawal_fee.spec_apply(pool_tokens_in as int),
            );
        }
        let lamports_out = match self.calc_lamports_withdraw_amount(burn_tokens) {
            Some(l) => l,
            None => {
                return Err(StakePoolError::InsufficientFunds);
            },
        };
        if lamports_out > e.active_stake_lamports
            || e.active_stake_lamports - lamports_out < minimum_delegation
        {
            return Err(StakePoolError::MinimumBalanceViolation);
        }
        if let Some(m) = minimum_lamports_out {
            if lamports_out < m {
                return Err(StakePoolError::SlippageExceeded);
            }
        }
        list.set(i, ValidatorStakeInfo {
            active_stake_lamports: e.active_stake_lamports - lamports_out,
            ..e
        });
        self.total_lamports = self.total_lamports - lamports_out;
        self.pool_token_supply = self.pool_token_supply - burn_tokens;
        proof {
            lemma_unique_votes_update(old(list).entries(), i as int, list.entries()[i as int]);
        }
        Ok(lamports_out)
    }

    /// Burns `pool_tokens_in` in exchange for lamports split out of
    /// validator `vote_account_address`'s canonical stake at the current
    /// rate; the withdrawal fee stays with the manager.
    ///
    /// Fails with `StakeListAndPoolOutOfDate` when the pool is stale,
    /// `NotFound` when the validator is not in the list,
    /// `ValidatorNotActive` when its entry no longer accepts transitions,
    /// `IncorrectPreferredValidator` when a preferred withdrawal validator
    /// is set and differs, `InsufficientFunds` when the tokens exceed the
    /// supply, and `MinimumBalanceViolation` when the canonical stake would
    /// retain less than `minimum_delegation`; nothing changes on failure.
    pub fn withdraw_stake(
        &mut self,
        list: &mut ValidatorList,
        vote_account_address: u64,
        pool_tokens_in: u64,
        minimum_delegation: u64,
        current_epoch: u64,
    ) -> (r: Result<u64, StakePoolError>)
        requires
            old(self).wf(),
            old(list).wf(),
        ensures
            final(self).wf(),
            final(list).wf(),
            final(list).max_validators == old(list).max_validators,
            match r {
                Ok(lamports_out) => spec_withdraw_stake(
                    *old(self), old(list).entries(), vote_account_address, pool_tokens_in,
                    minimum_delegation, current_epoch, None)
                    == Ok::<_, StakePoolError>((*final(self), final(list).entries(), lamports_out)),
                Err(e) => *final(self) == *old(self) && *final(list) == *old(list)
                    && spec_withdraw_stake(
                        *old(self), old(list).entries(), vote_account_address, pool_tokens_in,
                        minimum_delegation, current_epoch, None)
                    == Err::<(StakePool, Seq<ValidatorStakeInfo>, u64), _>(e),
            },
    {
        self.withdraw_stake_internal(
            list, vote_account_address, pool_tokens_in, minimum_delegation, current_epoch, None)
    }

    /// Like [`Self::withdraw_stake`], but fails with `SlippageExceeded`
    /// before completing a trade that would pay out fewer than
    /// `minimum_lamports_out` lamports.
    pub fn withdraw_stake_with_slippage(
        &mut self,
        list: &mut ValidatorList,
        vote_account_address: u64,
        pool_tokens_in: u64,
        minimum_delegation: u64,
        minimum_lamports_out: u64,
        current_epoch: u64,
    ) -> (r: Result<u64, StakePoolError>)
        requires
            old(self).wf(),
            old(list).wf(),
        ensures
            final(self).wf(),
            final(list).wf(),
            final(list).max_validators == old(list).max_validators,
            match r {
                Ok(lamports_out) => spec_withdraw_stake(
                    *old(self), old(list).entries(), vote_account_address, pool_tokens_in,
                    minimum_delegation, current_epoch, Some(minimum_lamports_out))
                    == Ok::<_, StakePoolError>((*final(self), final(list).entries(), lamports_out)),
                Err(e) => *final(self) == *old(self) && *final(list) == *old(list)
                    && spec_withdraw_stake(
                        *old(self), old(list).entries(), vote_account_address, pool_tokens_in,
                        minimum_delegation, current_epoch, Some(minimum_lamports_out))
                    == Err::<(StakePool, Seq<ValidatorStakeInfo>, u64), _>(e),
            },
    {
        self.withdraw_stake_internal(
            list, vote_account_address, pool_tokens_in, minimum_delegation, current_epoch,
            Some(minimum_lamports_out))
    }
}


/// A deposit never lowers the exchange rate: against a pool holding value
/// and supply, the value per token after minting is at least the value per
/// token before, stated by cross-multiplication.  Truncation when minting
/// rounds in the pool's favor.
pub proof fn lemma_deposit_sol_rate_nondecreasing(
    pool: StakePool,
    lamports: u64,
    current_epoch: u64,
)
    requires
        pool.total_lamports > 0,
        pool.pool_token_supply > 0,
        spec_deposit_sol(pool, lamports, current_epoch, None) is Ok,
    ensures
        ({
            let next = spec_deposit_sol(pool, lamports, current_epoch, None)->Ok_0.0;
            (next.total_lamports as int) * (pool.pool_token_supply as int)
                >= (pool.total_lamports as int) * (next.pool_token_supply as int)
        }),
{
    let total = pool.total_lamports as int;
    let supply = pool.pool_token_supply as int;
    let minted = lamports * supply / total;
    vstd::arithmetic::div_mod::lemma_fundamental_div_mod(lamports * supply, total);
    vstd::arithmetic::div_mod::lemma_mod_bound(lamports * supply, total);
    assert(minted * total <= lamports * supply) by (nonlinear_arith)
        requires
            total * minted + (lamports * supply) % total == lamports * supply,
            (lamports * supply) % total >= 0,
    ;
    assert((total + lamports) * supply >= total * (supply + minted)) by (nonlinear_arith)
        requires
            minted * total <= lamports * supply,
    ;
}

/// A withdrawal never lowers the exchange rate: the lamports paid out are
/// the truncated value of the burned tokens, so the value per remaining
/// token cannot drop, stated by cross-multiplication.
pub proof fn lemma_withdraw_sol_rate_nondecreasing(
    pool: StakePool,
    pool_tokens_in: u64,
    current_epoch: u64,
)
    requires
        pool.wf(),
        spec_withdraw_sol(pool, pool_tokens_in, current_epoch, None) is Ok,
    ensures
        ({
            let next = spec_withdraw_sol(pool, pool_tokens_in, current_epoch, None)->Ok_0.0;
            (next.total_lamports as int) * (pool.pool_token_supply as int)
                >= (pool.total_lamports as int) * (next.pool_token_supply as int)
        }),
{
    let total = pool.total_lamports as int;
    let supply = pool.pool_token_supply as int;
    let fee = pool.withdrawal_fee.spec_apply(pool_tokens_in as int);
    let burn = pool_tokens_in - fee;
    let out = burn * total / supply;
    lemma_fee_amount_bounded(
        pool_tokens_in as int, pool.withdrawal_fee.numerator as int,
        pool.withdrawal_fee.denominator as int);
    lemma_withdraw_within_total(total, supply, burn);
    vstd::arithmetic::div_mod::lemma_fundamental_div_mod(burn * total, supply);
    vstd::arithmetic::div_mod::lemma_mod_bound(burn * total, supply);
    assert(out * supply <= burn * total) by (nonlinear_arith)
        requires
            supply * out + (burn * total) % supply == burn * total,
            (burn * total) % supply >= 0,
    ;
    assert((total - out) * supply >= total * (supply - burn)) by (nonlinear_arith)
        requires
            out * supply <= burn * total,
    ;
}

/// A stake deposit never lowers the exchange rate, like a lamport deposit:
/// the tokens minted are the truncated value of the stake merged in.
pub proof fn lemma_deposit_stake_rate_nondecreasing(
    pool: StakePool,
    s: Seq<ValidatorStakeInfo>,
    vote: u64,
    stake_lamports: u64,
    current_epoch: u64,
)
    requires
        pool.total_lamports > 0,
        pool.pool_token_supply > 0,
        spec_deposit_stake(pool, s, vote, stake_lamports, current_epoch, None) is Ok,
    ensures
        ({
            let next = spec_deposit_stake(pool, s, vote, stake_lamports, current_epoch, None)
                ->Ok_0.0;
            (next.total_lamports as int) * (pool.pool_token_supply as int)
                >= (pool.total_lamports as int) * (next.pool_token_supply as int)
        }),
{
    let total = pool.total_lamports as int;
    let supply = pool.pool_token_supply as int;
    let minted = stake_lamports * supply / total;
    vstd::arithmetic::div_mod::lemma_fundamental_div_mod(stake_lamports * supply, total);
    vstd::arithmetic::div_mod::lemma_mod_bound(stake_lamports * supply, total);
    assert(minted * total <= stake_lamports * supply) by (nonlinear_arith)
        requires
            total * minted + (stake_lamports * supply) % total == stake_lamports * supply,
            (stake_lamports * supply) % total >= 0,
    ;
    assert((total + stake_lamports) * supply >= total * (supply + minted)) by (nonlinear_arith)
        requires
            minted * total <= stake_lamports * supply,
    ;
}

/// A stake withdrawal never lowers the exchange rate, like a lamport
/// withdrawal: the lamports split out are the truncated value of the
/// burned tokens.
pub proof fn lemma_withdraw_stake_rate_nondecreasing(
    pool: StakePool,
    s: Seq<ValidatorStakeInfo>,
    vote: u64,
    pool_tokens_in: u64,
    minimum_delegation: u64,
    current_epoch: u64,
)
    requires
        pool.wf(),
        spec_withdraw_stake(
            pool, s, vote, pool_tokens_in, minimum_delegation, current_epoch, None) is Ok,
    ensures
        ({
            let next = spec_withdraw_stake(
                pool, s, vote, pool_tokens_in, minimum_delegation, current_epoch, None)
                ->Ok_0.0;
            (next.total_lamports as int) * (pool.pool_token_supply as int)
                >= (pool.total_lamports as int) * (next.pool_token_supply as int)
        }),
{
    let total = pool.total_lamports as int;
    let supply = pool.pool_token_supply as int;
    let fee = pool.withdrawal_fee.spec_apply(pool_tokens_in as int);
    let burn = pool_tokens_in - fee;
    let out = burn * total / supply;
    lemma_fee_amount_bounded(
        pool_tokens_in as int, pool.withdrawal_fee.numerator as int,
        pool.withdrawal_fee.denominator as int);
    lemma_withdraw_within_total(total, supply, burn);
    vstd::arithmetic::div_mod::lemma_fundamental_div_mod(burn * total, supply);
    vstd::arithmetic::div_mod::lemma_mod_bound(burn * total, supply);
    assert(out * supply <= burn * total) by (nonlinear_arith)
        requires
            supply * out + (burn * total) % supply == burn * total,
            (burn * total) % supply >= 0,
    ;
    assert((total - out) * supply >= total * (supply - burn)) by (nonlinear_arith)
        requires
            out * supply <= burn * total,
    ;
}

/// Burning within the supply never draws more than the pool's total value.
pub proof fn lemma_withdraw_within_total(total: int, supply: int, tokens: int)
    requires
        0 <= total <= u64::MAX,
        0 <= tokens <= supply,
        0 < supply,
    ensures
        0 <= lamports_for_tokens(total, supply, tokens) <= total,
{
    lemma_fee_amount_bounded(total, tokens, supply);
    assert(total * tokens == tokens * total) by (nonlinear_arith);
}

} // verus!
