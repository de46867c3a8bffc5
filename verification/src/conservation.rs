//! Laws that tie the rebalancing operations together: value conservation
//! across arbitrary operation sequences, and mutual exclusion of
//! concurrent baseline transitions on one validator.

use vstd::prelude::*;

verus! {

use crate::error::StakePoolError;
use crate::pool::StakePool;
use crate::reconcile::{
    ValidatorAccountsObservation, lemma_reconcile_list_conserves, reconcile_list,
};
use crate::state::{
    StakeStatus, ValidatorStakeInfo, has_vote, lemma_total_stake_filter,
    lemma_total_stake_update, lemma_unique_votes_update, lemma_vote_index, total_stake,
    unique_votes, vote_index,
};
use crate::transition::{
    spec_decrease_additional_validator_stake, spec_decrease_validator_stake,
    spec_increase_additional_validator_stake, spec_increase_validator_stake, spec_redelegate,
};

/// One rebalancing step of the pool, with the environment it runs in.
pub enum RebalanceOp {
    /// A baseline stake increase from the reserve.
    Increase {
        /// Validator whose stake grows.
        vote: u64,
        /// Lamports moved from the reserve.
        lamports: u64,
        /// Seed for the transient account.
        transient_stake_seed: u64,
        /// Rent-exempt minimum of a stake account.
        rent_exemption: u64,
        /// Smallest delegation the chain accepts.
        minimum_delegation: u64,
        /// Epoch the instruction runs in.
        current_epoch: u64,
    },
    /// An additional stake increase alongside existing transient stake.
    IncreaseAdditional {
        /// Validator whose stake grows.
        vote: u64,
        /// Lamports moved from the reserve.
        lamports: u64,
        /// Seed for the transient account.
        transient_stake_seed: u64,
        /// Rent-exempt minimum of a stake account.
        rent_exemption: u64,
        /// Smallest delegation the chain accepts.
        minimum_delegation: u64,
        /// Epoch the instruction runs in.
        current_epoch: u64,
    },
    /// A baseline stake decrease toward the reserve.
    Decrease {
        /// Validator whose stake shrinks.
        vote: u64,
        /// Lamports split out of the canonical account.
        lamports: u64,
        /// Seed for the transient account.
        transient_stake_seed: u64,
        /// Smallest delegation the chain accepts.
        minimum_delegation: u64,
        /// Epoch the instruction runs in.
        current_epoch: u64,
    },
    /// An additional stake decrease alongside existing transient stake.
    DecreaseAdditional {
        /// Validator whose stake shrinks.
        vote: u64,
        /// Lamports split out of the canonical account.
        lamports: u64,
        /// Seed for the transient account.
        transient_stake_seed: u64,
        /// Rent-exempt minimum of a stake account.
        rent_exemption: u64,
        /// Smallest delegation the chain accepts.
        minimum_delegation: u64,
        /// Epoch the instruction runs in.
        current_epoch: u64,
    },
    /// A redelegation from one validator to another.
    Redelegate {
        /// Validator the stake leaves.
        source_vote: u64,
        /// Validator the stake heads to.
        destination_vote: u64,
        /// Lamports redelegated.
        lamports: u64,
        /// Seed for the source transient account.
        source_transient_stake_seed: u64,
        /// Seed for the destination transient account.
        destination_transient_stake_seed: u64,
        /// Rent-exempt minimum of a stake account.
        rent_exemption: u64,
        /// Smallest delegation the chain accepts.
        minimum_delegation: u64,
        /// Epoch the instruction runs in.
        current_epoch: u64,
    },
    /// A chunk of the per-epoch balance reconciliation.
    Reconcile {
        /// What the chain shows for each validator's sub-accounts.
        observations: Seq<ValidatorAccountsObservation>,
        /// First entry of the chunk.
        start: int,
        /// Number of entries in the chunk.
        count: int,
        /// Whether merging is skipped.
        no_merge: bool,
        /// Rent-exempt minimum of a stake account.
        rent_exemption: u64,
    },
    /// The cleanup pass that removes tombstoned, drained entries.
    Cleanup,
}

/// The pool and list after one rebalancing step; a step that fails leaves
/// both untouched, matching the all-or-nothing transaction semantics.
pub open spec fn apply_rebalance_op(
    pool: StakePool,
    s: Seq<ValidatorStakeInfo>,
    op: RebalanceOp,
) -> (StakePool, Seq<ValidatorStakeInfo>) {
    match op {
        RebalanceOp::Increase {
            vote, lamports, transient_stake_seed, rent_exemption, minimum_delegation,
            current_epoch,
        } => match spec_increase_validator_stake(
            pool, s, vote, lamports, transient_stake_seed, rent_exemption,
            minimum_delegation, current_epoch,
        ) {
            Ok(next) => next,
            Err(_) => (pool, s),
        },
        RebalanceOp::IncreaseAdditional {
            vote, lamports, transient_stake_seed, rent_exemption, minimum_delegation,
            current_epoch,
        } => match spec_increase_additional_validator_stake(
            pool, s, vote, lamports, transient_stake_seed, rent_exemption,
            minimum_delegation, current_epoch,
        ) {
            Ok(next) => next,
            Err(_) => (pool, s),
        },
        RebalanceOp::Decrease {
            vote, lamports, transient_stake_seed, minimum_delegation, current_epoch,
        } => match spec_decrease_validator_stake(
            pool, s, vote, lamports, transient_stake_seed, minimum_delegation, current_epoch,
        ) {
            Ok(s2) => (pool, s2),
            Err(_) => (pool, s),
        },
        RebalanceOp::DecreaseAdditional {
            vote, lamports, transient_stake_seed, rent_exemption, minimum_delegation,
            current_epoch,
        } => match spec_decrease_additional_validator_stake(
            pool, s, vote, lamports, transient_stake_seed, rent_exemption,
            minimum_delegation, current_epoch,
        ) {
            Ok(s2) => (pool, s2),
            Err(_) => (pool, s),
        },
        RebalanceOp::Redelegate {
            source_vote, destination_vote, lamports, source_transient_stake_seed,
            destination_transient_stake_seed, rent_exemption, minimum_delegation, current_epoch,
        } => match spec_redelegate(
            pool, s, source_vote, destination_vote, lamports, source_transient_stake_seed,
            destination_transient_stake_seed, rent_exemption, minimum_delegation, current_epoch,
        ) {
            Ok(s2) => (pool, s2),
            Err(_) => (pool, s),
        },
        RebalanceOp::Reconcile { observations, start, count, no_merge, rent_exemption } => {
            let r = reconcile_list(
                s, observations, start, count, no_merge, rent_exemption,
                pool.reserve_lamports,
            );
            (StakePool { reserve_lamports: r.1, ..pool }, r.0)
        },
        RebalanceOp::Cleanup => (
            pool,
            s.filter(|e: ValidatorStakeInfo| !e.spec_removable()),
        ),
    }
}

/// The pool and list after a whole sequence of rebalancing steps.
pub open spec fn apply_rebalance_ops(
    pool: StakePool,
    s: Seq<ValidatorStakeInfo>,
    ops: Seq<RebalanceOp>,
) -> (StakePool, Seq<ValidatorStakeInfo>)
    decreases ops.len(),
{
    if ops.len() == 0 {
        (pool, s)
    } else {
        let next = apply_rebalance_op(pool, s, ops[0]);
        apply_rebalance_ops(next.0, next.1, ops.drop_first())
    }
}

/// A reconciliation step observes exactly the recorded in-flight balances:
/// no reward accrued and nothing was lost on chain.  The other steps put
/// no condition on the chain.
pub open spec fn op_observes_recorded(s: Seq<ValidatorStakeInfo>, op: RebalanceOp) -> bool {
    match op {
        RebalanceOp::Reconcile { observations, start, count, .. } => {
            &&& 0 <= start
            &&& forall|j: int|
                start <= j < start + count && j < s.len()
                    ==> #[trigger] observations[j].transient_lamports
                    == s[j].transient_stake_lamports
        },
        _ => true,
    }
}

/// Every reconciliation step of the sequence observes the balances
/// recorded at the state it runs in.
pub open spec fn ops_observe_recorded(
    pool: StakePool,
    s: Seq<ValidatorStakeInfo>,
    ops: Seq<RebalanceOp>,
) -> bool
    decreases ops.len(),
{
    if ops.len() == 0 {
        true
    } else {
        let next = apply_rebalance_op(pool, s, ops[0]);
        op_observes_recorded(s, ops[0]) && ops_observe_recorded(next.0, next.1, ops.drop_first())
    }
}

/// One rebalancing step conserves value: the lamports accounted across
/// all validator entries plus the reserve are unchanged, provided a
/// reconciliation step observes the recorded in-flight balances.
pub proof fn lemma_rebalance_op_conserves(
    pool: StakePool,
    s: Seq<ValidatorStakeInfo>,
    op: RebalanceOp,
)
    requires
        op_observes_recorded(s, op),
    ensures
        ({
            let next = apply_rebalance_op(pool, s, op);
            total_stake(next.1) + next.0.reserve_lamports
                == total_stake(s) + pool.reserve_lamports
        }),
{
    let next = apply_rebalance_op(pool, s, op);
    match op {
        RebalanceOp::Increase { vote, .. } => {
            if next.1 != s {
                let i = vote_index(s, vote);
                assert(has_vote(s, vote));
                lemma_total_stake_update(s, i, next.1[i]);
            }
        },
        RebalanceOp::IncreaseAdditional { vote, .. } => {
            if next.1 != s {
                let i = vote_index(s, vote);
                assert(has_vote(s, vote));
                lemma_total_stake_update(s, i, next.1[i]);
            }
        },
        RebalanceOp::Decrease { vote, .. } => {
            if next.1 != s {
                let i = vote_index(s, vote);
                assert(has_vote(s, vote));
                lemma_total_stake_update(s, i, next.1[i]);
            }
        },
        RebalanceOp::DecreaseAdditional { vote, .. } => {
            if next.1 != s {
                let i = vote_index(s, vote);
                assert(has_vote(s, vote));
                lemma_total_stake_update(s, i, next.1[i]);
            }
        },
        RebalanceOp::Redelegate {
            source_vote, destination_vote, lamports, source_transient_stake_seed,
            destination_transient_stake_seed, rent_exemption, minimum_delegation, current_epoch,
        } => {
            let r = spec_redelegate(
                pool, s, source_vote, destination_vote, lamports, source_transient_stake_seed,
                destination_transient_stake_seed, rent_exemption, minimum_delegation,
                current_epoch,
            );
            if r is Ok {
                let si = vote_index(s, source_vote);
                let di = vote_index(s, destination_vote);
                assert(has_vote(s, source_vote));
                assert(has_vote(s, destination_vote));
                assert(s[si].vote_account_address != s[di].vote_account_address);
                let mid = s.update(si, ValidatorStakeInfo {
                    active_stake_lamports: (s[si].active_stake_lamports - lamports) as u64,
                    transient_stake_lamports: rent_exemption,
                    transient_seed_suffix: source_transient_stake_seed,
                    ..s[si]
                });
                lemma_total_stake_update(s, si, mid[si]);
                lemma_total_stake_update(mid, di, next.1[di]);
            }
        },
        RebalanceOp::Reconcile { observations, start, count, no_merge, rent_exemption } => {
            lemma_reconcile_list_conserves(
                s, observations, start, count, no_merge, rent_exemption,
                pool.reserve_lamports,
            );
        },
        RebalanceOp::Cleanup => {
            lemma_total_stake_filter(s, |e: ValidatorStakeInfo| !e.spec_removable());
        },
    }
}

/// Conservation: across any sequence of increase, decrease, redelegate,
/// reconcile and cleanup steps, the lamports accounted across all
/// validator entries plus the reserve never change, as long as each
/// reconciliation observes the recorded in-flight balances.  Only
/// deposits, withdrawals and observed reward growth can move the total.
pub proof fn lemma_conservation(
    pool: StakePool,
    s: Seq<ValidatorStakeInfo>,
    ops: Seq<RebalanceOp>,
)
    requires
        ops_observe_recorded(pool, s, ops),
    ensures
        ({
            let end = apply_rebalance_ops(pool, s, ops);
            total_stake(end.1) + end.0.reserve_lamports
                == total_stake(s) + pool.reserve_lamports
        }),
    decreases ops.len(),
{
    if ops.len() > 0 {
        let next = apply_rebalance_op(pool, s, ops[0]);
        lemma_rebalance_op_conserves(pool, s, ops[0]);
        lemma_conservation(next.0, next.1, ops.drop_first());
    }
}

/// Mutual exclusion via addressing: of two baseline stake increases
/// submitted for the same validator in the same epoch, at most one
/// succeeds.  After the first takes effect, the second deterministically
/// collides on the transient account and fails with
/// `TransientAccountInUse`, whatever amount or seed it asks for; nothing
/// is corrupted, because a failed instruction has no effect.
pub proof fn lemma_increase_mutual_exclusion(
    pool: StakePool,
    s: Seq<ValidatorStakeInfo>,
    vote: u64,
    lamports1: u64,
    lamports2: u64,
    seed1: u64,
    seed2: u64,
    rent_exemption: u64,
    minimum_delegation: u64,
    current_epoch: u64,
)
    requires
        unique_votes(s),
        0 < lamports1,
        spec_increase_validator_stake(
            pool, s, vote, lamports1, seed1, rent_exemption, minimum_delegation,
            current_epoch) is Ok,
    ensures
        ({
            let next = spec_increase_validator_stake(
                pool, s, vote, lamports1, seed1, rent_exemption, minimum_delegation,
                current_epoch)->Ok_0;
            spec_increase_validator_stake(
                next.0, next.1, vote, lamports2, seed2, rent_exemption, minimum_delegation,
                current_epoch) == Err::<(StakePool, Seq<ValidatorStakeInfo>), _>(
                StakePoolError::TransientAccountInUse)
        }),
{
    let next = spec_increase_validator_stake(
        pool, s, vote, lamports1, seed1, rent_exemption, minimum_delegation, current_epoch,
    )->Ok_0;
    let i = vote_index(s, vote);
    assert(has_vote(s, vote));
    lemma_unique_votes_update(s, i, next.1[i]);
    assert(next.1[i].vote_account_address == vote);
    assert(has_vote(next.1, vote)) by {
        assert(0 <= i < next.1.len() && next.1[i].vote_account_address == vote);
    }
    lemma_vote_index(next.1, vote, i);
    assert(next.1[i].transient_stake_lamports == lamports1);
    assert(next.1[i].status == StakeStatus::Active);
}

} // verus!
