//! Accounting engine for a pooled-staking system.
//!
//! Many depositors contribute lamports (directly or as an already-delegated
//! stake position) in exchange for a fungible pool-share token, while a
//! designated staker spreads the pooled stake across a bounded set of
//! validators and rebalances it every epoch.  This crate holds the
//! validator-list accounting and rebalancing state machine: the fee and
//! exchange-rate arithmetic, the record type for one validator's stake
//! sub-accounts, the capacity-bounded validator list, the stake-transition
//! rules for increasing, decreasing and redelegating stake, and the per-epoch
//! balance reconciliation that folds transient stake back into canonical
//! balances.
//!
//! The chain-side collaborators (the native stake-delegation primitive, the
//! fungible-token ledger, the clock) are out of scope: operations take their
//! observable effects as plain values and return the pool's next state.

mod error;
mod fee;
mod state;
mod pool;
mod transition;
mod reconcile;
mod conservation;

pub use error::StakePoolError;
pub use fee::{Fee, FeeType, fee_amount, lemma_fee_amount_bounded, split_referral};
pub use state::{
    StakeStatus, ValidatorStakeInfo, ValidatorList, has_vote, total_stake, unique_votes,
    vote_index,
};
pub use pool::{
    StakePool, PreferredValidatorType, FundingType, DepositReceipt,
    lamports_for_tokens, tokens_for_deposit, spec_deposit_sol, spec_withdraw_sol,
    spec_deposit_stake, spec_withdraw_stake, lemma_deposit_sol_rate_nondecreasing,
    lemma_withdraw_sol_rate_nondecreasing, lemma_deposit_stake_rate_nondecreasing,
    lemma_withdraw_stake_rate_nondecreasing,
};
pub use reconcile::{
    StakeState, ValidatorAccountsObservation, MAX_VALIDATORS_TO_UPDATE,
    reconcile_entry, reconcile_list, spec_update_stake_pool_balance,
    update_validator_list_balance, update_stake_pool_balance, update_stake_pool,
    lemma_reconcile_list_idempotent, lemma_reconcile_list_split,
    lemma_reconcile_list_conserves,
};
pub use conservation::{
    RebalanceOp, apply_rebalance_op, apply_rebalance_ops, ops_observe_recorded,
    lemma_conservation, lemma_increase_mutual_exclusion,
};
pub use transition::{
    add_validator_to_pool, remove_validator_from_pool, increase_validator_stake,
    increase_additional_validator_stake, decrease_validator_stake,
    decrease_additional_validator_stake, redelegate, spec_add_validator_to_pool,
    spec_remove_validator_from_pool, spec_increase_validator_stake,
    spec_increase_additional_validator_stake, spec_decrease_validator_stake,
    spec_decrease_additional_validator_stake, spec_redelegate,
};
