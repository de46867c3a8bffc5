//! Per-epoch balance reconciliation: folding each validator's transient
//! stake back into canonical balances and the reserve, then recomputing
//! the pool's total value and minting the epoch fee.
//!
//! The routine is chunk-addressable and resumable: entries are processed
//! by index range, each entry's outcome depends only on that entry and its
//! own observed sub-accounts, and reconciling in two disjoint chunks gives
//! the same final state as one pass.  A single validator's anomaly (a
//! stuck activation, mismatched credits, a balance that will not fit) is
//! contained to that entry: its transient stake is simply reported as
//! still pending, and the pass moves on.

use vstd::prelude::*;

verus! {

use crate::error::StakePoolError;
use crate::fee::lemma_fee_amount_bounded;
use crate::pool::StakePool;
use crate::state::{
    StakeStatus, ValidatorList, ValidatorStakeInfo, lemma_total_stake_prefix_mono,
    lemma_total_stake_update, lemma_unique_votes_update, total_stake, unique_votes,
};

/// Activation state of a stake account, as the chain reports it.
#[derive(Clone, Copy, Debug, PartialEq, Eq, Structural)]
pub enum StakeState {
    /// Delegated this epoch; not yet earning.
    Activating,
    /// Fully delegated and earning.
    Active,
    /// Undelegated this epoch; still locked.
    Deactivating,
    /// Fully undelegated; lamports are free to move.
    Inactive,
}

/// What the chain shows for one validator's sub-accounts at reconciliation.
#[derive(Clone, Copy, Debug, PartialEq, Eq, Structural)]
pub struct ValidatorAccountsObservation {
    /// Balance of the transient stake account; zero when it does not exist.
    pub transient_lamports: u64,
    /// Activation state of the transient stake account's delegation.
    pub transient_state: StakeState,
    /// Whether the transient account's credits-observed match the canonical
    /// account's, which merging requires.
    pub credits_match: bool,
    /// Whether the canonical stake account's delegation is fully inactive.
    pub validator_inactive: bool,
}

/// One entry's reconciliation step: the updated entry and the lamports it
/// releases into the reserve.
///
/// With the transient account fully deactivated its whole balance merges
/// into the reserve.  With it fully active and credits matching, its
/// balance beyond the rent-exemption merges into the canonical stake and
/// the rent-exemption returns to the reserve.  In every other state the
/// observed balance is only reported, leaving the merge to a later epoch.
/// Entries leaving the pool drain their canonical stake into the reserve
/// once it deactivates.  `no_merge` skips all merging and draining and
/// only reports balances.
pub open spec fn reconcile_entry(
    e: ValidatorStakeInfo,
    obs: ValidatorAccountsObservation,
    no_merge: bool,
    rent_exemption: u64,
) -> (ValidatorStakeInfo, int) {
    if e.status == StakeStatus::ReadyForRemoval {
        (e, 0)
    } else if no_merge {
        if e.transient_stake_lamports != 0 {
            (ValidatorStakeInfo { transient_stake_lamports: obs.transient_lamports, ..e }, 0)
        } else {
            (e, 0)
        }
    } else {
        let merged = if e.transient_stake_lamports != 0 {
            if obs.transient_state == StakeState::Inactive {
                (
                    ValidatorStakeInfo { transient_stake_lamports: 0u64, ..e },
                    obs.transient_lamports as int,
                )
            } else if obs.transient_state == StakeState::Active && obs.credits_match
                && e.status == StakeStatus::Active
                && obs.transient_lamports >= rent_exemption
                && e.active_stake_lamports + obs.transient_lamports - rent_exemption
                    <= u64::MAX {
                (
                    ValidatorStakeInfo {
                        active_stake_lamports: (e.active_stake_lamports
                            + obs.transient_lamports - rent_exemption) as u64,
                        transient_stake_lamports: 0u64,
                        ..e
                    },
                    rent_exemption as int,
                )
            } else {
                (ValidatorStakeInfo { transient_stake_lamports: obs.transient_lamports, ..e }, 0int)
            }
        } else {
            (e, 0int)
        };
        let drained = if (merged.0.status == StakeStatus::DeactivatingValidator
            || merged.0.status == StakeStatus::DeactivatingAll) && obs.validator_inactive {
            (
                ValidatorStakeInfo {
                    active_stake_lamports: 0u64,
                    status: if merged.0.transient_stake_lamports == 0 {
                        StakeStatus::ReadyForRemoval
                    } else {
                        StakeStatus::DeactivatingTransient
                    },
                    ..merged.0
                },
                merged.1 + merged.0.active_stake_lamports,
            )
        } else {
            merged
        };
        let settled = if drained.0.transient_stake_lamports == 0
            && drained.0.status == StakeStatus::DeactivatingAll {
            ValidatorStakeInfo { status: StakeStatus::DeactivatingValidator, ..drained.0 }
        } else if drained.0.transient_stake_lamports == 0
            && drained.0.status == StakeStatus::DeactivatingTransient {
            ValidatorStakeInfo { status: StakeStatus::ReadyForRemoval, ..drained.0 }
        } else {
            drained.0
        };
        (settled, drained.1)
    }
}

/// A reconciliation step never takes lamports out of the reserve, never
/// changes an entry's identity or seeds, and releases at most the entry's
/// own stake plus the observed transient balance.
pub proof fn lemma_reconcile_entry_frame(
    e: ValidatorStakeInfo,
    obs: ValidatorAccountsObservation,
    no_merge: bool,
    rent_exemption: u64,
)
    ensures
        reconcile_entry(e, obs, no_merge, rent_exemption).1 >= 0,
        reconcile_entry(e, obs, no_merge, rent_exemption).1
            <= e.stake() + obs.transient_lamports,
        reconcile_entry(e, obs, no_merge, rent_exemption).0.vote_account_address
            == e.vote_account_address,
        reconcile_entry(e, obs, no_merge, rent_exemption).0.transient_seed_suffix
            == e.transient_seed_suffix,
        reconcile_entry(e, obs, no_merge, rent_exemption).0.validator_seed_suffix
            == e.validator_seed_suffix,
{
}

/// Reconciling an entry twice against one observation is the same as
/// reconciling it once: the second step changes nothing and releases
/// nothing.
pub proof fn lemma_reconcile_entry_idempotent(
    e: ValidatorStakeInfo,
    obs: ValidatorAccountsObservation,
    no_merge: bool,
    rent_exemption: u64,
)
    ensures
        reconcile_entry(
            reconcile_entry(e, obs, no_merge, rent_exemption).0, obs, no_merge, rent_exemption)
            == (reconcile_entry(e, obs, no_merge, rent_exemption).0, 0int),
{
}

/// When the observed transient balance equals the recorded one (no reward
/// growth and no loss in flight), a reconciliation step conserves value:
/// entry stake plus released lamports equals the entry's previous stake.
pub proof fn lemma_reconcile_entry_conserves(
    e: ValidatorStakeInfo,
    obs: ValidatorAccountsObservation,
    no_merge: bool,
    rent_exemption: u64,
)
    requires
        obs.transient_lamports == e.transient_stake_lamports,
    ensures
        reconcile_entry(e, obs, no_merge, rent_exemption).0.stake()
            + reconcile_entry(e, obs, no_merge, rent_exemption).1 == e.stake(),
{
}

/// Computes one entry's reconciliation step.
fn reconcile_entry_exec(
    e: ValidatorStakeInfo,
    obs: ValidatorAccountsObservation,
    no_merge: bool,
    rent_exemption: u64,
) -> (r: (ValidatorStakeInfo, u64, u64))
    ensures
        reconcile_entry(e, obs, no_merge, rent_exemption)
            == (r.0, r.1 + r.2 as int),
{
    if matches!(e.status, StakeStatus::ReadyForRemoval) {
        return (e, 0, 0);
    }
    if no_merge {
        if e.transient_stake_lamports != 0 {
            return (
                ValidatorStakeInfo { transient_stake_lamports: obs.transient_lamports, ..e },
                0,
                0,
            );
        }
        return (e, 0, 0);
    }
    let (e1, d1): (ValidatorStakeInfo, u64) = if e.transient_stake_lamports != 0 {
        if matches!(obs.transient_state, StakeState::Inactive) {
            (
                ValidatorStakeInfo { transient_stake_lamports: 0, ..e },
                obs.transient_lamports,
            )
        } else if matches!(obs.transient_state, StakeState::Active) && obs.credits_match
            && matches!(e.status, StakeStatus::Active)
            && obs.transient_lamports >= rent_exemption
            && obs.transient_lamports - rent_exemption
                <= u64::MAX - e.active_stake_lamports {
            (
                ValidatorStakeInfo {
                    active_stake_lamports: e.active_stake_lamports
                        + (obs.transient_lamports - rent_exemption),
                    transient_stake_lamports: 0,
                    ..e
                },
                rent_exemption,
            )
        } else {
            (ValidatorStakeInfo { transient_stake_lamports: obs.transient_lamports, ..e }, 0)
        }
    } else {
        (e, 0)
    };
    let (e2, d2): (ValidatorStakeInfo, u64) = if (matches!(
        e1.status,
        StakeStatus::DeactivatingValidator,
    ) || matches!(e1.status, StakeStatus::DeactivatingAll)) && obs.validator_inactive {
        (
            ValidatorStakeInfo {
                active_stake_lamports: 0,
                status: if e1.transient_stake_lamports == 0 {
                    StakeStatus::ReadyForRemoval
                } else {
                    StakeStatus::DeactivatingTransient
                },
                ..e1
            },
            e1.active_stake_lamports,
        )
    } else {
        (e1, 0)
    };
    let e3 = if e2.transient_stake_lamports == 0
        && matches!(e2.status, StakeStatus::DeactivatingAll) {
        ValidatorStakeInfo { status: StakeStatus::DeactivatingValidator, ..e2 }
    } else if e2.transient_stake_lamports == 0
        && matches!(e2.status, StakeStatus::DeactivatingTransient) {
        ValidatorStakeInfo { status: StakeStatus::ReadyForRemoval, ..e2 }
    } else {
        e2
    };
    (e3, d1, d2)
}

/// Reconciliation of the entries at positions `start .. start + count`,
/// in list order: the updated entries and the updated reserve.
///
/// Each entry's released lamports join the reserve; an entry whose release
/// would not fit in the reserve is left untouched for a later epoch, like
/// any other per-entry anomaly.
pub open spec fn reconcile_list(
    s: Seq<ValidatorStakeInfo>,
    obs: Seq<ValidatorAccountsObservation>,
    start: int,
    count: int,
    no_merge: bool,
    rent_exemption: u64,
    reserve: u64,
) -> (Seq<ValidatorStakeInfo>, u64)
    decreases count,
{
    if count <= 0 || start < 0 || start >= s.len() {
        (s, reserve)
    } else {
        let step = reconcile_entry(s[start], obs[start], no_merge, rent_exemption);
        if reserve + step.1 <= u64::MAX {
            reconcile_list(
                s.update(start, step.0), obs, start + 1, count - 1, no_merge, rent_exemption,
                (reserve + step.1) as u64,
            )
        } else {
            reconcile_list(s, obs, start + 1, count - 1, no_merge, rent_exemption, reserve)
        }
    }
}

/// A reconciliation pass keeps the list's length and every entry's
/// identity, only touches positions in its own range, and never shrinks
/// the reserve.
pub proof fn lemma_reconcile_list_frame(
    s: Seq<ValidatorStakeInfo>,
    obs: Seq<ValidatorAccountsObservation>,
    start: int,
    count: int,
    no_merge: bool,
    rent_exemption: u64,
    reserve: u64,
)
    ensures
        reconcile_list(s, obs, start, count, no_merge, rent_exemption, reserve).0.len() == s.len(),
        reconcile_list(s, obs, start, count, no_merge, rent_exemption, reserve).1 >= reserve,
        forall|j: int|
            0 <= j < s.len() && !(start <= j < start + count)
                ==> reconcile_list(s, obs, start, count, no_merge, rent_exemption, reserve).0[j]
                == s[j],
        forall|j: int|
            0 <= j < s.len()
                ==> #[trigger] reconcile_list(
                    s, obs, start, count, no_merge, rent_exemption, reserve,
                ).0[j].vote_account_address == s[j].vote_account_address,
    decreases count,
{
    if count <= 0 || start < 0 || start >= s.len() {
    } else {
        let step = reconcile_entry(s[start], obs[start], no_merge, rent_exemption);
        lemma_reconcile_entry_frame(s[start], obs[start], no_merge, rent_exemption);
        let r0 = reconcile_list(s, obs, start, count, no_merge, rent_exemption, reserve);
        if reserve + step.1 <= u64::MAX {
            let mid = s.update(start, step.0);
            let r2 = (reserve + step.1) as u64;
            lemma_reconcile_list_frame(
                mid, obs, start + 1, count - 1, no_merge, rent_exemption, r2);
            assert(r0 == reconcile_list(mid, obs, start + 1, count - 1, no_merge, rent_exemption, r2));
            assert forall|j: int|
                0 <= j < s.len() && !(start <= j < start + count) implies r0.0[j] == s[j] by {
                assert(r0.0[j] == mid[j]);
            }
            assert forall|j: int|
                0 <= j < s.len() implies #[trigger] r0.0[j].vote_account_address
                    == s[j].vote_account_address by {
                assert(r0.0[j].vote_account_address == mid[j].vote_account_address);
            }
        } else {
            lemma_reconcile_list_frame(
                s, obs, start + 1, count - 1, no_merge, rent_exemption, reserve);
            assert(r0 == reconcile_list(s, obs, start + 1, count - 1, no_merge, rent_exemption, reserve));
            assert forall|j: int|
                0 <= j < s.len() implies #[trigger] r0.0[j].vote_account_address
                    == s[j].vote_account_address by {
            }
        }
    }
}

/// Reconciling `start .. start + count` in two disjoint chunks, split at
/// any point, is the same as reconciling it in one pass.
pub proof fn lemma_reconcile_list_split(
    s: Seq<ValidatorStakeInfo>,
    obs: Seq<ValidatorAccountsObservation>,
    start: int,
    k: int,
    count: int,
    no_merge: bool,
    rent_exemption: u64,
    reserve: u64,
)
    requires
        0 <= start,
        0 <= k <= count,
    ensures
        ({
            let first = reconcile_list(s, obs, start, k, no_merge, rent_exemption, reserve);
            reconcile_list(first.0, obs, start + k, count - k, no_merge, rent_exemption, first.1)
        }) == reconcile_list(s, obs, start, count, no_merge, rent_exemption, reserve),
    decreases k,
{
    if k <= 0 || start < 0 || start >= s.len() {
        // the first chunk does nothing: either it is empty, or the whole
        // range already lies past the end of the list
    } else {
        let step = reconcile_entry(s[start], obs[start], no_merge, rent_exemption);
        if reserve + step.1 <= u64::MAX {
            lemma_reconcile_list_split(
                s.update(start, step.0), obs, start + 1, k - 1, count - 1, no_merge,
                rent_exemption, (reserve + step.1) as u64,
            );
        } else {
            lemma_reconcile_list_split(
                s, obs, start + 1, k - 1, count - 1, no_merge, rent_exemption, reserve);
        }
    }
}

/// Running a reconciliation pass twice against one set of observations is
/// the same as running it once: the second pass changes nothing.
pub proof fn lemma_reconcile_list_idempotent(
    s: Seq<ValidatorStakeInfo>,
    obs: Seq<ValidatorAccountsObservation>,
    start: int,
    count: int,
    no_merge: bool,
    rent_exemption: u64,
    reserve: u64,
)
    requires
        0 <= start,
    ensures
        ({
            let once = reconcile_list(s, obs, start, count, no_merge, rent_exemption, reserve);
            reconcile_list(once.0, obs, start, count, no_merge, rent_exemption, once.1) == once
        }),
    decreases count,
{
    let once = reconcile_list(s, obs, start, count, no_merge, rent_exemption, reserve);
    if count <= 0 || start >= s.len() {
    } else {
        let step = reconcile_entry(s[start], obs[start], no_merge, rent_exemption);
        lemma_reconcile_entry_frame(s[start], obs[start], no_merge, rent_exemption);
        if reserve + step.1 <= u64::MAX {
            let mid = s.update(start, step.0);
            let r2 = (reserve + step.1) as u64;
            lemma_reconcile_list_frame(
                mid, obs, start + 1, count - 1, no_merge, rent_exemption, r2);
            assert(once == reconcile_list(
                mid, obs, start + 1, count - 1, no_merge, rent_exemption, r2));
            assert(reconcile_list(
                mid, obs, start + 1, count - 1, no_merge, rent_exemption, r2).0[start]
                == mid[start]);
            assert(once.0[start] == step.0);
            lemma_reconcile_entry_idempotent(s[start], obs[start], no_merge, rent_exemption);
            assert(reconcile_entry(once.0[start], obs[start], no_merge, rent_exemption)
                == (step.0, 0int));
            assert(once.0.update(start, step.0) =~= once.0);
            lemma_reconcile_list_idempotent(
                mid, obs, start + 1, count - 1, no_merge, rent_exemption, r2);
        } else {
            lemma_reconcile_list_frame(
                s, obs, start + 1, count - 1, no_merge, rent_exemption, reserve);
            assert(once == reconcile_list(
                s, obs, start + 1, count - 1, no_merge, rent_exemption, reserve));
            assert(reconcile_list(
                s, obs, start + 1, count - 1, no_merge, rent_exemption, reserve).0[start]
                == s[start]);
            assert(once.0[start] == s[start]);
            assert(once.1 >= reserve);
            lemma_reconcile_list_idempotent(
                s, obs, start + 1, count - 1, no_merge, rent_exemption, reserve);
        }
    }
}

/// When every observed transient balance in the range equals the recorded
/// one (no reward growth and no loss in flight), reconciliation conserves
/// value: the total accounted stake plus the reserve is unchanged.
pub proof fn lemma_reconcile_list_conserves(
    s: Seq<ValidatorStakeInfo>,
    obs: Seq<ValidatorAccountsObservation>,
    start: int,
    count: int,
    no_merge: bool,
    rent_exemption: u64,
    reserve: u64,
)
    requires
        0 <= start,
        forall|j: int|
            start <= j < start + count && j < s.len()
                ==> #[trigger] obs[j].transient_lamports == s[j].transient_stake_lamports,
    ensures
        ({
            let once = reconcile_list(s, obs, start, count, no_merge, rent_exemption, reserve);
            total_stake(once.0) + once.1 == total_stake(s) + reserve
        }),
    decreases count,
{
    if count <= 0 || start >= s.len() {
    } else {
        let step = reconcile_entry(s[start], obs[start], no_merge, rent_exemption);
        if reserve + step.1 <= u64::MAX {
            let mid = s.update(start, step.0);
            let r2 = (reserve + step.1) as u64;
            lemma_reconcile_entry_conserves(s[start], obs[start], no_merge, rent_exemption);
            lemma_total_stake_update(s, start, step.0);
            lemma_reconcile_list_conserves(
                mid, obs, start + 1, count - 1, no_merge, rent_exemption, r2);
        } else {
            lemma_reconcile_list_conserves(
                s, obs, start + 1, count - 1, no_merge, rent_exemption, reserve);
        }
    }
}

/// How many validator entries one reconciliation call processes at most
/// when driving a full update in chunks.
pub const MAX_VALIDATORS_TO_UPDATE: usize = 5;

/// Reconciles the entries at positions
/// `start_index .. start_index + chunk_size` against what the chain shows
/// for their stake sub-accounts, folding released lamports into the
/// reserve.
///
/// `observations` is indexed like the list.  The pass is resumable and
/// chunk-splittable, never fails, and touches nothing of the pool but the
/// reserve; a single entry's anomaly is contained to that entry.  With
/// `no_merge` set, balances are only reported and nothing merges.
pub fn update_validator_list_balance(
    pool: &mut StakePool,
    list: &mut ValidatorList,
    observations: &Vec<ValidatorAccountsObservation>,
    start_index: usize,
    chunk_size: usize,
    no_merge: bool,
    rent_exemption: u64,
)
    requires
        old(list).wf(),
        observations@.len() == old(list).entries().len(),
    ensures
        final(list).wf(),
        final(list).max_validators == old(list).max_validators,
        *final(pool) == (StakePool {
            reserve_lamports: final(pool).reserve_lamports, ..*old(pool)
        }),
        (final(list).entries(), final(pool).reserve_lamports) == reconcile_list(
            old(list).entries(), observations@, start_index as int, chunk_size as int,
            no_merge, rent_exemption, old(pool).reserve_lamports,
        ),
{
    let ghost old_s = list.entries();
    let ghost old_r = pool.reserve_lamports;
    let n = list.len();
    let end = if start_index > n {
        start_index
    } else if n - start_index < chunk_size {
        n
    } else {
        start_index + chunk_size
    };
    let mut i = start_index;
    while i < end
        invariant
            start_index <= i <= end,
            end == if start_index > n { start_index as int } else if n - start_index < chunk_size { n as int } else { start_index + chunk_size },
            n == old_s.len(),
            observations@.len() == n,
            list.entries().len() == n,
            list.wf(),
            list.max_validators == old(list).max_validators,
            *pool == (StakePool { reserve_lamports: pool.reserve_lamports, ..*old(pool) }),
            reconcile_list(
                old_s, observations@, start_index as int, chunk_size as int, no_merge,
                rent_exemption, old_r,
            ) == reconcile_list(
                list.entries(), observations@, i as int,
                chunk_size - (i - start_index), no_merge, rent_exemption,
                pool.reserve_lamports,
            ),
        decreases end - i,
    {
        let ghost cur_s = list.entries();
        let ghost cur_r = pool.reserve_lamports;
        let e = list.get(i);
        let obs = observations[i];
        let (updated, d1, d2) = reconcile_entry_exec(e, obs, no_merge, rent_exemption);
        proof {
            lemma_reconcile_entry_frame(e, obs, no_merge, rent_exemption);
        }
        if (pool.reserve_lamports as u128) + (d1 as u128) + (d2 as u128) <= u64::MAX as u128 {
            list.set(i, updated);
            pool.reserve_lamports = pool.reserve_lamports + d1 + d2;
            proof {
                lemma_unique_votes_update(cur_s, i as int, updated);
            }
        }
        proof {
            let rem = chunk_size - (i - start_index);
            let step = reconcile_entry(cur_s[i as int], observations@[i as int], no_merge, rent_exemption);
            assert(reconcile_list(
                cur_s, observations@, i as int, rem, no_merge, rent_exemption, cur_r,
            ) == if cur_r + step.1 <= u64::MAX {
                reconcile_list(
                    cur_s.update(i as int, step.0), observations@, i + 1, rem - 1, no_merge,
                    rent_exemption, (cur_r + step.1) as u64,
                )
            } else {
                reconcile_list(cur_s, observations@, i + 1, rem - 1, no_merge, rent_exemption, cur_r)
            });
        }
        i = i + 1;
    }
}

/// Outcome of recomputing the pool's total value after a full
/// reconciliation pass and minting the epoch fee.
///
/// The fresh total is the accounted stake across the list plus the
/// reserve beyond its own rent-exempt floor.  The positive growth since
/// the last update is reward; the epoch fee's share of it is converted to
/// pool tokens at the fresh rate and minted to the manager, diluting all
/// holders proportionally, and the pool is marked reconciled for
/// `current_epoch`.
pub open spec fn spec_update_stake_pool_balance(
    pool: StakePool,
    s: Seq<ValidatorStakeInfo>,
    reserve_rent_exemption: u64,
    current_epoch: u64,
) -> Result<(StakePool, u64), StakePoolError> {
    let usable_reserve = if pool.reserve_lamports >= reserve_rent_exemption {
        pool.reserve_lamports - reserve_rent_exemption
    } else {
        0
    };
    let new_total = total_stake(s) + usable_reserve;
    let reward = if new_total > pool.total_lamports { new_total - pool.total_lamports } else { 0 };
    let fee_lamports = pool.epoch_fee.spec_apply(reward);
    let minted = if pool.pool_token_supply == 0 || new_total == 0 {
        0
    } else {
        fee_lamports * pool.pool_token_supply / new_total
    };
    if new_total > u64::MAX {
        Err(StakePoolError::ArithmeticOverflow)
    } else if pool.pool_token_supply + minted > u64::MAX {
        Err(StakePoolError::ArithmeticOverflow)
    } else {
        Ok((
            StakePool {
                total_lamports: new_total as u64,
                pool_token_supply: (pool.pool_token_supply + minted) as u64,
                last_update_epoch: current_epoch,
                ..pool
            },
            minted as u64,
        ))
    }
}

/// Recomputes the pool's total value from the reconciled list and the
/// reserve, mints the epoch fee's share of the reward growth to the
/// manager, and marks the pool reconciled for `current_epoch`.
///
/// Returns the pool tokens minted.  Fails with `ArithmeticOverflow` when
/// the fresh total or supply would leave 64 bits; the pool is unchanged
/// on failure.
pub fn update_stake_pool_balance(
    pool: &mut StakePool,
    list: &ValidatorList,
    reserve_rent_exemption: u64,
    current_epoch: u64,
) -> (r: Result<u64, StakePoolError>)
    requires
        old(pool).wf(),
    ensures
        final(pool).wf(),
        match r {
            Ok(minted) => spec_update_stake_pool_balance(
                *old(pool), list.entries(), reserve_rent_exemption, current_epoch)
                == Ok::<_, StakePoolError>((*final(pool), minted)),
            Err(e) => *final(pool) == *old(pool) && spec_update_stake_pool_balance(
                *old(pool), list.entries(), reserve_rent_exemption, current_epoch)
                == Err::<(StakePool, u64), _>(e),
        },
{
    let ghost s = list.entries();
    let n = list.len();
    let mut sum: u128 = 0;
    let mut i: usize = 0;
    while i < n
        invariant
            i <= n,
            n == s.len(),
            list.entries() == s,
            sum == total_stake(s.subrange(0, i as int)),
            sum <= u64::MAX,
            *pool == *old(pool),
            pool.wf(),
        decreases n - i,
    {
        let e = list.get(i);
        proof {
            assert(s.subrange(0, i + 1).drop_last() =~= s.subrange(0, i as int));
            assert(s.subrange(0, i + 1).last() == s[i as int]);
        }
        sum = sum + (e.active_stake_lamports as u128) + (e.transient_stake_lamports as u128);
        if sum > u64::MAX as u128 {
            proof {
                lemma_total_stake_prefix_mono(s, i + 1, n as int);
                assert(s.subrange(0, n as int) =~= s);
            }
            return Err(StakePoolError::ArithmeticOverflow);
        }
        i = i + 1;
    }
    proof {
        assert(s.subrange(0, n as int) =~= s);
    }
    let usable_reserve = if pool.reserve_lamports >= reserve_rent_exemption {
        pool.reserve_lamports - reserve_rent_exemption
    } else {
        0
    };
    if sum + (usable_reserve as u128) > u64::MAX as u128 {
        return Err(StakePoolError::ArithmeticOverflow);
    }
    let new_total = (sum as u64) + usable_reserve;
    let reward = if new_total > pool.total_lamports {
        new_total - pool.total_lamports
    } else {
        0
    };
    let (fee_lamports, _) = pool.epoch_fee.apply(reward);
    let minted = if pool.pool_token_supply == 0 || new_total == 0 {
        0
    } else {
        proof {
            lemma_fee_amount_bounded(
                pool.pool_token_supply as int,
                pool.epoch_fee.spec_apply(reward as int),
                new_total as int,
            );
            assert(pool.pool_token_supply as int * (fee_lamports as int)
                == fee_lamports as int * pool.pool_token_supply as int) by (nonlinear_arith);
            vstd::arithmetic::mul::lemma_mul_upper_bound(
                fee_lamports as int, u64::MAX as int,
                pool.pool_token_supply as int, u64::MAX as int);
        }
        ((fee_lamports as u128) * (pool.pool_token_supply as u128) / (new_total as u128)) as u64
    };
    if minted > u64::MAX - pool.pool_token_supply {
        return Err(StakePoolError::ArithmeticOverflow);
    }
    pool.total_lamports = new_total;
    pool.pool_token_supply = pool.pool_token_supply + minted;
    pool.last_update_epoch = current_epoch;
    Ok(minted)
}

/// Drives a full epoch update: reconciles the whole list in chunks of
/// [`MAX_VALIDATORS_TO_UPDATE`], recomputes the pool balance and mints
/// the epoch fee, then removes the entries whose removal completed.
///
/// Returns the pool tokens minted.  When the balance step fails with
/// `ArithmeticOverflow` the list keeps its reconciled state and the
/// cleanup pass is skipped.
pub fn update_stake_pool(
    pool: &mut StakePool,
    list: &mut ValidatorList,
    observations: &Vec<ValidatorAccountsObservation>,
    no_merge: bool,
    rent_exemption: u64,
    reserve_rent_exemption: u64,
    current_epoch: u64,
) -> (r: Result<u64, StakePoolError>)
    requires
        old(pool).wf(),
        old(list).wf(),
        observations@.len() == old(list).entries().len(),
    ensures
        final(pool).wf(),
        final(list).wf(),
        final(list).max_validators == old(list).max_validators,
        ({
            let full = reconcile_list(
                old(list).entries(), observations@, 0, old(list).entries().len() as int,
                no_merge, rent_exemption, old(pool).reserve_lamports,
            );
            let mid_pool = StakePool { reserve_lamports: full.1, ..*old(pool) };
            match r {
                Ok(minted) => {
                    &&& spec_update_stake_pool_balance(
                        mid_pool, full.0, reserve_rent_exemption, current_epoch)
                        == Ok::<_, StakePoolError>((*final(pool), minted))
                    &&& final(list).entries() == full.0.filter(
                        |e: ValidatorStakeInfo| !e.spec_removable())
                },
                Err(e) => {
                    &&& spec_update_stake_pool_balance(
                        mid_pool, full.0, reserve_rent_exemption, current_epoch)
                        == Err::<(StakePool, u64), _>(e)
                    &&& *final(pool) == mid_pool
                    &&& final(list).entries() == full.0
                },
            }
        }),
{
    let ghost old_s = list.entries();
    let ghost old_r = pool.reserve_lamports;
    let n = list.len();
    let mut idx: usize = 0;
    while idx < n
        invariant
            idx <= n,
            n == old_s.len(),
            observations@.len() == n,
            list.entries().len() == n,
            list.wf(),
            list.max_validators == old(list).max_validators,
            *pool == (StakePool { reserve_lamports: pool.reserve_lamports, ..*old(pool) }),
            reconcile_list(
                old_s, observations@, 0, n as int, no_merge, rent_exemption, old_r,
            ) == reconcile_list(
                list.entries(), observations@, idx as int, n - idx, no_merge,
                rent_exemption, pool.reserve_lamports,
            ),
        decreases n - idx,
    {
        let ghost cur_s = list.entries();
        let ghost cur_r = pool.reserve_lamports;
        let k = if n - idx < MAX_VALIDATORS_TO_UPDATE {
            n - idx
        } else {
            MAX_VALIDATORS_TO_UPDATE
        };
        update_validator_list_balance(
            pool, list, observations, idx, k, no_merge, rent_exemption);
        proof {
            lemma_reconcile_list_frame(
                cur_s, observations@, idx as int, k as int, no_merge, rent_exemption, cur_r);
            lemma_reconcile_list_split(
                cur_s, observations@, idx as int, k as int, n - idx, no_merge,
                rent_exemption, cur_r);
        }
        idx = idx + k;
    }
    let minted = match update_stake_pool_balance(
        pool, list, reserve_rent_exemption, current_epoch) {
        Ok(minted) => minted,
        Err(e) => {
            return Err(e);
        },
    };
    list.cleanup_removed_validator_entries();
    Ok(minted)
}

} // verus!
