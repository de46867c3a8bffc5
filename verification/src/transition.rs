//! The stake-transition engine: which sub-accounts move which lamports to
//! realize an increase, decrease or redelegation of a validator's stake.
//!
//! Mutual exclusion is by deterministic addressing: the transient
//! sub-account of a validator is a pure function of its seed, so a baseline
//! transition on a validator that already holds transient stake
//! deterministically collides and is rejected, never corrupting state.

use vstd::prelude::*;

verus! {

use crate::error::StakePoolError;
use crate::pool::StakePool;
use crate::state::{
    StakeStatus, ValidatorList, ValidatorStakeInfo, has_vote, lemma_unique_votes_push,
    lemma_unique_votes_update, lemma_vote_index, vote_index,
};

/// Outcome of adding validator `vote` to the pool.
///
/// On success the reserve funds a fresh canonical stake account at its
/// floor of `rent_exemption + minimum_delegation` lamports, and a fresh
/// entry joins the list.
pub open spec fn spec_add_validator_to_pool(
    pool: StakePool,
    s: Seq<ValidatorStakeInfo>,
    max_validators: u32,
    vote: u64,
    seed: u32,
    rent_exemption: u64,
    minimum_delegation: u64,
    current_epoch: u64,
) -> Result<(StakePool, Seq<ValidatorStakeInfo>), StakePoolError> {
    let floor = rent_exemption + minimum_delegation;
    if !pool.is_updated_for(current_epoch) {
        Err(StakePoolError::StakeListAndPoolOutOfDate)
    } else if s.len() >= max_validators {
        Err(StakePoolError::ListFull)
    } else if has_vote(s, vote) {
        Err(StakePoolError::DuplicateValidator)
    } else if pool.reserve_lamports < floor {
        Err(StakePoolError::InsufficientFunds)
    } else {
        Ok((
            StakePool { reserve_lamports: (pool.reserve_lamports - floor) as u64, ..pool },
            s.push(ValidatorStakeInfo {
                vote_account_address: vote,
                active_stake_lamports: floor as u64,
                transient_stake_lamports: 0u64,
                transient_seed_suffix: 0u64,
                validator_seed_suffix: seed,
                status: StakeStatus::Active,
            }),
        ))
    }
}

/// Outcome of removing validator `vote` from the pool.
///
/// Removal only tombstones: the entry's canonical account (and transient
/// account, if one is in flight) starts deactivating, and the epoch
/// reconciliation drains it into the reserve before the cleanup pass
/// removes the entry physically.
pub open spec fn spec_remove_validator_from_pool(
    pool: StakePool,
    s: Seq<ValidatorStakeInfo>,
    vote: u64,
    rent_exemption: u64,
    minimum_delegation: u64,
    current_epoch: u64,
) -> Result<Seq<ValidatorStakeInfo>, StakePoolError> {
    let i = vote_index(s, vote);
    let e = s[i];
    if !pool.is_updated_for(current_epoch) {
        Err(StakePoolError::StakeListAndPoolOutOfDate)
    } else if !has_vote(s, vote) {
        Err(StakePoolError::NotFound)
    } else if e.status != StakeStatus::Active {
        Err(StakePoolError::ValidatorNotActive)
    } else if e.active_stake_lamports > rent_exemption + minimum_delegation {
        Err(StakePoolError::NonZeroStake)
    } else {
        Ok(s.update(i, ValidatorStakeInfo {
            status: if e.transient_stake_lamports == 0 {
                StakeStatus::DeactivatingValidator
            } else {
                StakeStatus::DeactivatingAll
            },
            ..e
        }))
    }
}

/// Outcome of increasing validator `vote`'s stake by `lamports` from the
/// reserve (baseline variant).
///
/// On success the reserve funds a transient account of `lamports`, which
/// activates toward the validator; the rent-exemption share returns to the
/// reserve when reconciliation merges it.  The baseline variant collides
/// with any existing transient stake.
pub open spec fn spec_increase_validator_stake(
    pool: StakePool,
    s: Seq<ValidatorStakeInfo>,
    vote: u64,
    lamports: u64,
    transient_stake_seed: u64,
    rent_exemption: u64,
    minimum_delegation: u64,
    current_epoch: u64,
) -> Result<(StakePool, Seq<ValidatorStakeInfo>), StakePoolError> {
    let i = vote_index(s, vote);
    let e = s[i];
    if !pool.is_updated_for(current_epoch) {
        Err(StakePoolError::StakeListAndPoolOutOfDate)
    } else if !has_vote(s, vote) {
        Err(StakePoolError::NotFound)
    } else if e.status != StakeStatus::Active {
        Err(StakePoolError::ValidatorNotActive)
    } else if e.transient_stake_lamports != 0 {
        Err(StakePoolError::TransientAccountInUse)
    } else if lamports < rent_exemption + minimum_delegation {
        Err(StakePoolError::MinimumBalanceViolation)
    } else if pool.reserve_lamports < lamports {
        Err(StakePoolError::InsufficientFunds)
    } else {
        Ok((
            StakePool { reserve_lamports: (pool.reserve_lamports - lamports) as u64, ..pool },
            s.update(i, ValidatorStakeInfo {
                transient_stake_lamports: lamports,
                transient_seed_suffix: transient_stake_seed,
                ..e
            }),
        ))
    }
}

/// Outcome of increasing validator `vote`'s stake by `lamports` alongside
/// existing transient stake (additional variant).
///
/// The new stake routes through an ephemeral account within the one
/// instruction, so it works whether or not transient stake exists; an
/// existing transient account keeps its seed, which the request must match.
pub open spec fn spec_increase_additional_validator_stake(
    pool: StakePool,
    s: Seq<ValidatorStakeInfo>,
    vote: u64,
    lamports: u64,
    transient_stake_seed: u64,
    rent_exemption: u64,
    minimum_delegation: u64,
    current_epoch: u64,
) -> Result<(StakePool, Seq<ValidatorStakeInfo>), StakePoolError> {
    let i = vote_index(s, vote);
    let e = s[i];
    if !pool.is_updated_for(current_epoch) {
        Err(StakePoolError::StakeListAndPoolOutOfDate)
    } else if !has_vote(s, vote) {
        Err(StakePoolError::NotFound)
    } else if e.status != StakeStatus::Active {
        Err(StakePoolError::ValidatorNotActive)
    } else if e.transient_stake_lamports != 0 && e.transient_seed_suffix != transient_stake_seed {
        Err(StakePoolError::TransientSeedMismatch)
    } else if lamports < rent_exemption + minimum_delegation {
        Err(StakePoolError::MinimumBalanceViolation)
    } else if pool.reserve_lamports < lamports {
        Err(StakePoolError::InsufficientFunds)
    } else if e.transient_stake_lamports + lamports > u64::MAX {
        Err(StakePoolError::ArithmeticOverflow)
    } else {
        Ok((
            StakePool { reserve_lamports: (pool.reserve_lamports - lamports) as u64, ..pool },
            s.update(i, ValidatorStakeInfo {
                transient_stake_lamports: (e.transient_stake_lamports + lamports) as u64,
                transient_seed_suffix: transient_stake_seed,
                ..e
            }),
        ))
    }
}

/// Outcome of decreasing validator `vote`'s stake by `lamports` toward the
/// reserve (baseline variant).
///
/// On success `lamports` split out of the canonical account into a
/// deactivating transient account; the canonical account must retain at
/// least `minimum_delegation`.  The baseline variant collides with any
/// existing transient stake.
pub open spec fn spec_decrease_validator_stake(
    pool: StakePool,
    s: Seq<ValidatorStakeInfo>,
    vote: u64,
    lamports: u64,
    transient_stake_seed: u64,
    minimum_delegation: u64,
    current_epoch: u64,
) -> Result<Seq<ValidatorStakeInfo>, StakePoolError> {
    let i = vote_index(s, vote);
    let e = s[i];
    if !pool.is_updated_for(current_epoch) {
        Err(StakePoolError::StakeListAndPoolOutOfDate)
    } else if !has_vote(s, vote) {
        Err(StakePoolError::NotFound)
    } else if e.status != StakeStatus::Active {
        Err(StakePoolError::ValidatorNotActive)
    } else if e.transient_stake_lamports != 0 {
        Err(StakePoolError::TransientAccountInUse)
    } else if e.active_stake_lamports < lamports + minimum_delegation {
        Err(StakePoolError::MinimumBalanceViolation)
    } else {
        Ok(s.update(i, ValidatorStakeInfo {
            active_stake_lamports: (e.active_stake_lamports - lamports) as u64,
            transient_stake_lamports: lamports,
            transient_seed_suffix: transient_stake_seed,
            ..e
        }))
    }
}

/// Outcome of decreasing validator `vote`'s stake by `lamports` alongside
/// existing transient stake (additional variant).
///
/// The split routes through an ephemeral account within the one
/// instruction, so it works whether or not transient stake exists; an
/// existing transient account keeps its seed, which the request must
/// match.  The amount moved must fund a whole ephemeral account, at least
/// `rent_exemption + minimum_delegation`.
pub open spec fn spec_decrease_additional_validator_stake(
    pool: StakePool,
    s: Seq<ValidatorStakeInfo>,
    vote: u64,
    lamports: u64,
    transient_stake_seed: u64,
    rent_exemption: u64,
    minimum_delegation: u64,
    current_epoch: u64,
) -> Result<Seq<ValidatorStakeInfo>, StakePoolError> {
    let i = vote_index(s, vote);
    let e = s[i];
    if !pool.is_updated_for(current_epoch) {
        Err(StakePoolError::StakeListAndPoolOutOfDate)
    } else if !has_vote(s, vote) {
        Err(StakePoolError::NotFound)
    } else if e.status != StakeStatus::Active {
        Err(StakePoolError::ValidatorNotActive)
    } else if e.transient_stake_lamports != 0 && e.transient_seed_suffix != transient_stake_seed {
        Err(StakePoolError::TransientSeedMismatch)
    } else if lamports < rent_exemption + minimum_delegation {
        Err(StakePoolError::MinimumBalanceViolation)
    } else if e.active_stake_lamports < lamports + minimum_delegation {
        Err(StakePoolError::MinimumBalanceViolation)
    } else if e.transient_stake_lamports + lamports > u64::MAX {
        Err(StakePoolError::ArithmeticOverflow)
    } else {
        Ok(s.update(i, ValidatorStakeInfo {
            active_stake_lamports: (e.active_stake_lamports - lamports) as u64,
            transient_stake_lamports: (e.transient_stake_lamports + lamports) as u64,
            transient_seed_suffix: transient_stake_seed,
            ..e
        }))
    }
}

/// Outcome of redelegating `lamports` from validator `source_vote` to
/// validator `destination_vote`.
///
/// The stake leaves the source canonical account through a source
/// transient account, hops through an ephemeral account (a stake account
/// cannot be redelegated twice in one epoch), and lands in the destination
/// transient account.  One rent-exemption deactivates with the source
/// transient account and a second one rides in the destination transient
/// account; both return to the reserve at reconciliation, so
/// `lamports - 2 * rent_exemption` eventually reaches the destination's
/// canonical stake.
pub open spec fn spec_redelegate(
    pool: StakePool,
    s: Seq<ValidatorStakeInfo>,
    source_vote: u64,
    destination_vote: u64,
    lamports: u64,
    source_transient_stake_seed: u64,
    destination_transient_stake_seed: u64,
    rent_exemption: u64,
    minimum_delegation: u64,
    current_epoch: u64,
) -> Result<Seq<ValidatorStakeInfo>, StakePoolError> {
    let si = vote_index(s, source_vote);
    let src = s[si];
    let di = vote_index(s, destination_vote);
    let dst = s[di];
    if !pool.is_updated_for(current_epoch) {
        Err(StakePoolError::StakeListAndPoolOutOfDate)
    } else if source_vote == destination_vote {
        Err(StakePoolError::DuplicateValidator)
    } else if !has_vote(s, source_vote) || !has_vote(s, destination_vote) {
        Err(StakePoolError::NotFound)
    } else if src.status != StakeStatus::Active || dst.status != StakeStatus::Active {
        Err(StakePoolError::ValidatorNotActive)
    } else if src.transient_stake_lamports != 0 {
        Err(StakePoolError::TransientAccountInUse)
    } else if dst.transient_stake_lamports != 0
        && dst.transient_seed_suffix != destination_transient_stake_seed {
        Err(StakePoolError::TransientSeedMismatch)
    } else if lamports < 2 * rent_exemption + minimum_delegation {
        Err(StakePoolError::MinimumBalanceViolation)
    } else if src.active_stake_lamports < lamports + minimum_delegation {
        Err(StakePoolError::MinimumBalanceViolation)
    } else if dst.transient_stake_lamports + lamports - rent_exemption > u64::MAX {
        Err(StakePoolError::ArithmeticOverflow)
    } else {
        Ok(s.update(si, ValidatorStakeInfo {
            active_stake_lamports: (src.active_stake_lamports - lamports) as u64,
            transient_stake_lamports: rent_exemption,
            transient_seed_suffix: source_transient_stake_seed,
            ..src
        }).update(di, ValidatorStakeInfo {
            transient_stake_lamports: (dst.transient_stake_lamports + lamports
                - rent_exemption) as u64,
            transient_seed_suffix: destination_transient_stake_seed,
            ..dst
        }))
    }
}

/// Adds validator `vote_account_address` to the pool's list, funding its
/// canonical stake account at the floor of
/// `rent_exemption + minimum_delegation` lamports from the reserve.
///
/// Fails with `StakeListAndPoolOutOfDate` when the pool is stale,
/// `ListFull` at capacity, `DuplicateValidator` when the validator is
/// already in the list, and `InsufficientFunds` when the reserve cannot
/// fund the floor; nothing changes on failure.
pub fn add_validator_to_pool(
    pool: &mut StakePool,
    list: &mut ValidatorList,
    vote_account_address: u64,
    seed: u32,
    rent_exemption: u64,
    minimum_delegation: u64,
    current_epoch: u64,
) -> (r: Result<(), StakePoolError>)
    requires
        old(list).wf(),
    ensures
        final(list).wf(),
        final(list).max_validators == old(list).max_validators,
        match r {
            Ok(()) => spec_add_validator_to_pool(
                *old(pool), old(list).entries(), old(list).max_validators, vote_account_address,
                seed, rent_exemption, minimum_delegation, current_epoch)
                == Ok::<_, StakePoolError>((*final(pool), final(list).entries())),
            Err(e) => *final(pool) == *old(pool) && *final(list) == *old(list)
                && spec_add_validator_to_pool(
                    *old(pool), old(list).entries(), old(list).max_validators,
                    vote_account_address, seed, rent_exemption, minimum_delegation, current_epoch)
                == Err::<(StakePool, Seq<ValidatorStakeInfo>), _>(e),
        },
{
    if pool.last_update_epoch != current_epoch {
        return Err(StakePoolError::StakeListAndPoolOutOfDate);
    }
    if list.len() >= list.max_validators as usize {
        return Err(StakePoolError::ListFull);
    }
    if list.find(vote_account_address).is_some() {
        return Err(StakePoolError::DuplicateValidator);
    }
    if minimum_delegation > u64::MAX - rent_exemption
        || pool.reserve_lamports < rent_exemption + minimum_delegation
    {
        return Err(StakePoolError::InsufficientFunds);
    }
    let floor = rent_exemption + minimum_delegation;
    let entry = ValidatorStakeInfo::new(vote_account_address, floor, seed);
    proof {
        lemma_unique_votes_push(list.entries(), entry);
    }
    pool.reserve_lamports = pool.reserve_lamports - floor;
    match list.insert(entry) {
        Ok(()) => Ok(()),
        Err(_) => {
            // unreachable: capacity and duplication were checked above
            proof {
                assert(false);
            }
            Err(StakePoolError::ListFull)
        },
    }
}

/// Removes validator `vote_account_address` from the pool, deactivating
/// its stake.
///
/// The canonical stake account must be back at its floor; the entry is
/// tombstoned, its accounts deactivate, and reconciliation followed by the
/// cleanup pass completes the removal.  Fails with
/// `StakeListAndPoolOutOfDate` when the pool is stale, `NotFound` when the
/// validator is not in the list, `ValidatorNotActive` when it is already
/// leaving, and `NonZeroStake` when canonical stake above the floor
/// remains; nothing changes on failure.
pub fn remove_validator_from_pool(
    pool: &StakePool,
    list: &mut ValidatorList,
    vote_account_address: u64,
    rent_exemption: u64,
    minimum_delegation: u64,
    current_epoch: u64,
) -> (r: Result<(), StakePoolError>)
    requires
        old(list).wf(),
    ensures
        final(list).wf(),
        final(list).max_validators == old(list).max_validators,
        match r {
            Ok(()) => spec_remove_validator_from_pool(
                *pool, old(list).entries(), vote_account_address, rent_exemption,
                minimum_delegation, current_epoch)
                == Ok::<_, StakePoolError>(final(list).entries()),
            Err(e) => *final(list) == *old(list) && spec_remove_validator_from_pool(
                *pool, old(list).entries(), vote_account_address, rent_exemption,
                minimum_delegation, current_epoch)
                == Err::<Seq<ValidatorStakeInfo>, _>(e),
        },
{
    if pool.last_update_epoch != current_epoch {
        return Err(StakePoolError::StakeListAndPoolOutOfDate);
    }
    let i = match list.find(vote_account_address) {
        Some(i) => i,
        None => {
            return Err(StakePoolError::NotFound);
        },
    };
    proof {
        lemma_vote_index(list.entries(), vote_account_address, i as int);
    }
    let e = list.get(i);
    if !matches!(e.status, StakeStatus::Active) {
        return Err(StakePoolError::ValidatorNotActive);
    }
    if minimum_delegation <= u64::MAX - rent_exemption
        && e.active_stake_lamports > rent_exemption + minimum_delegation
    {
        return Err(StakePoolError::NonZeroStake);
    }
    let status = if e.transient_stake_lamports == 0 {
        StakeStatus::DeactivatingValidator
    } else {
        StakeStatus::DeactivatingAll
    };
    list.set(i, ValidatorStakeInfo { status, ..e });
    proof {
        lemma_unique_votes_update(old(list).entries(), i as int, list.entries()[i as int]);
    }
    Ok(())
}

/// Increases validator `vote_account_address`'s stake by `lamports` from
/// the reserve (baseline variant).
///
/// Fails with `StakeListAndPoolOutOfDate` when the pool is stale,
/// `NotFound` when the validator is not in the list, `ValidatorNotActive`
/// when its entry no longer accepts transitions, `TransientAccountInUse`
/// when stake is already in flight for it, `MinimumBalanceViolation` when
/// `lamports` cannot fund a whole transient account, and
/// `InsufficientFunds` when the reserve lacks `lamports`; nothing changes
/// on failure.
pub fn increase_validator_stake(
    pool: &mut StakePool,
    list: &mut ValidatorList,
    vote_account_address: u64,
    lamports: u64,
    transient_stake_seed: u64,
    rent_exemption: u64,
    minimum_delegation: u64,
    current_epoch: u64,
) -> (r: Result<(), StakePoolError>)
    requires
        old(list).wf(),
    ensures
        final(list).wf(),
        final(list).max_validators == old(list).max_validators,
        match r {
            Ok(()) => spec_increase_validator_stake(
                *old(pool), old(list).entries(), vote_account_address, lamports,
                transient_stake_seed, rent_exemption, minimum_delegation, current_epoch)
                == Ok::<_, StakePoolError>((*final(pool), final(list).entries())),
            Err(e) => *final(pool) == *old(pool) && *final(list) == *old(list)
                && spec_increase_validator_stake(
                    *old(pool), old(list).entries(), vote_account_address, lamports,
                    transient_stake_seed, rent_exemption, minimum_delegation, current_epoch)
                == Err::<(StakePool, Seq<ValidatorStakeInfo>), _>(e),
        },
{
    if pool.last_update_epoch != current_epoch {
        return Err(StakePoolError::StakeListAndPoolOutOfDate);
    }
    let i = match list.find(vote_account_address) {
        Some(i) => i,
        None => {
            return Err(StakePoolError::NotFound);
        },
    };
    proof {
        lemma_vote_index(list.entries(), vote_account_address, i as int);
    }
    let e = list.get(i);
    if !matches!(e.status, StakeStatus::Active) {
        return Err(StakePoolError::ValidatorNotActive);
    }
    if e.transient_stake_lamports != 0 {
        return Err(StakePoolError::TransientAccountInUse);
    }
    if minimum_delegation > u64::MAX - rent_exemption
        || lamports < rent_exemption + minimum_delegation
    {
        return Err(StakePoolError::MinimumBalanceViolation);
    }
    if pool.reserve_lamports < lamports {
        return Err(StakePoolError::InsufficientFunds);
    }
    pool.reserve_lamports = pool.reserve_lamports - lamports;
    list.set(i, ValidatorStakeInfo {
        transient_stake_lamports: lamports,
        transient_seed_suffix: transient_stake_seed,
        ..e
    });
    proof {
        lemma_unique_votes_update(old(list).entries(), i as int, list.entries()[i as int]);
    }
    Ok(())
}

/// Increases validator `vote_account_address`'s stake by `lamports`
/// alongside existing transient stake (additional variant), routing
/// through the ephemeral account derived from `ephemeral_stake_seed`.
///
/// Fails as the baseline variant does, except that existing transient
/// stake is joined rather than rejected: its recorded seed must match
/// `transient_stake_seed`, else `TransientSeedMismatch`.
pub fn increase_additional_validator_stake(
    pool: &mut StakePool,
    list: &mut ValidatorList,
    vote_account_address: u64,
    lamports: u64,
    transient_stake_seed: u64,
    ephemeral_stake_seed: u64,
    rent_exemption: u64,
    minimum_delegation: u64,
    current_epoch: u64,
) -> (r: Result<(), StakePoolError>)
    requires
        old(list).wf(),
    ensures
        final(list).wf(),
        final(list).max_validators == old(list).max_validators,
        match r {
            Ok(()) => spec_increase_additional_validator_stake(
                *old(pool), old(list).entries(), vote_account_address, lamports,
                transient_stake_seed, rent_exemption, minimum_delegation, current_epoch)
                == Ok::<_, StakePoolError>((*final(pool), final(list).entries())),
            Err(e) => *final(pool) == *old(pool) && *final(list) == *old(list)
                && spec_increase_additional_validator_stake(
                    *old(pool), old(list).entries(), vote_account_address, lamports,
                    transient_stake_seed, rent_exemption, minimum_delegation, current_epoch)
                == Err::<(StakePool, Seq<ValidatorStakeInfo>), _>(e),
        },
{
    let _ = ephemeral_stake_seed;
    if pool.last_update_epoch != current_epoch {
        return Err(StakePoolError::StakeListAndPoolOutOfDate);
    }
    let i = match list.find(vote_account_address) {
        Some(i) => i,
        None => {
            return Err(StakePoolError::NotFound);
        },
    };
    proof {
        lemma_vote_index(list.entries(), vote_account_address, i as int);
    }
    let e = list.get(i);
    if !matches!(e.status, StakeStatus::Active) {
        return Err(StakePoolError::ValidatorNotActive);
    }
    if e.transient_stake_lamports != 0 && e.transient_seed_suffix != transient_stake_seed {
        return Err(StakePoolError::TransientSeedMismatch);
    }
    if minimum_delegation > u64::MAX - rent_exemption
        || lamports < rent_exemption + minimum_delegation
    {
        return Err(StakePoolError::MinimumBalanceViolation);
    }
    if pool.reserve_lamports < lamports {
        return Err(StakePoolError::InsufficientFunds);
    }
    if lamports > u64::MAX - e.transient_stake_lamports {
        return Err(StakePoolError::ArithmeticOverflow);
    }
    pool.reserve_lamports = pool.reserve_lamports - lamports;
    list.set(i, ValidatorStakeInfo {
        transient_stake_lamports: e.transient_stake_lamports + lamports,
        transient_seed_suffix: transient_stake_seed,
        ..e
    });
    proof {
        lemma_unique_votes_update(old(list).entries(), i as int, list.entries()[i as int]);
    }
    Ok(())
}

/// Decreases validator `vote_account_address`'s stake by `lamports`,
/// splitting them into a deactivating transient account headed for the
/// reserve (baseline variant).
///
/// Fails with `StakeListAndPoolOutOfDate` when the pool is stale,
/// `NotFound` when the validator is not in the list, `ValidatorNotActive`
/// when its entry no longer accepts transitions, `TransientAccountInUse`
/// when stake is already in flight for it, and `MinimumBalanceViolation`
/// when the canonical account would retain less than
/// `minimum_delegation`; nothing changes on failure.
pub fn decrease_validator_stake(
    pool: &StakePool,
    list: &mut ValidatorList,
    vote_account_address: u64,
    lamports: u64,
    transient_stake_seed: u64,
    minimum_delegation: u64,
    current_epoch: u64,
) -> (r: Result<(), StakePoolError>)
    requires
        old(list).wf(),
    ensures
        final(list).wf(),
        final(list).max_validators == old(list).max_validators,
        match r {
            Ok(()) => spec_decrease_validator_stake(
                *pool, old(list).entries(), vote_account_address, lamports,
                transient_stake_seed, minimum_delegation, current_epoch)
                == Ok::<_, StakePoolError>(final(list).entries()),
            Err(e) => *final(list) == *old(list) && spec_decrease_validator_stake(
                *pool, old(list).entries(), vote_account_address, lamports,
                transient_stake_seed, minimum_delegation, current_epoch)
                == Err::<Seq<ValidatorStakeInfo>, _>(e),
        },
{
    if pool.last_update_epoch != current_epoch {
        return Err(StakePoolError::StakeListAndPoolOutOfDate);
    }
    let i = match list.find(vote_account_address) {
        Some(i) => i,
        None => {
            return Err(StakePoolError::NotFound);
        },
    };
    proof {
        lemma_vote_index(list.entries(), vote_account_address, i as int);
    }
    let e = list.get(i);
    if !matches!(e.status, StakeStatus::Active) {
        return Err(StakePoolError::ValidatorNotActive);
    }
    if e.transient_stake_lamports != 0 {
        return Err(StakePoolError::TransientAccountInUse);
    }
    if minimum_delegation > u64::MAX - lamports
        || e.active_stake_lamports < lamports + minimum_delegation
    {
        return Err(StakePoolError::MinimumBalanceViolation);
    }
    list.set(i, ValidatorStakeInfo {
        active_stake_lamports: e.active_stake_lamports - lamports,
        transient_stake_lamports: lamports,
        transient_seed_suffix: transient_stake_seed,
        ..e
    });
    proof {
        lemma_unique_votes_update(old(list).entries(), i as int, list.entries()[i as int]);
    }
    Ok(())
}

/// Decreases validator `vote_account_address`'s stake by `lamports`
/// alongside existing transient stake (additional variant), routing
/// through the ephemeral account derived from `ephemeral_stake_seed`.
///
/// Fails as the baseline variant does, except that existing transient
/// stake is joined rather than rejected: its recorded seed must match
/// `transient_stake_seed`, else `TransientSeedMismatch`; and `lamports`
/// must fund a whole ephemeral account, at least
/// `rent_exemption + minimum_delegation`.
pub fn decrease_additional_validator_stake(
    pool: &StakePool,
    list: &mut ValidatorList,
    vote_account_address: u64,
    lamports: u64,
    transient_stake_seed: u64,
    ephemeral_stake_seed: u64,
    rent_exemption: u64,
    minimum_delegation: u64,
    current_epoch: u64,
) -> (r: Result<(), StakePoolError>)
    requires
        old(list).wf(),
    ensures
        final(list).wf(),
        final(list).max_validators == old(list).max_validators,
        match r {
            Ok(()) => spec_decrease_additional_validator_stake(
                *pool, old(list).entries(), vote_account_address, lamports,
                transient_stake_seed, rent_exemption, minimum_delegation, current_epoch)
                == Ok::<_, StakePoolError>(final(list).entries()),
            Err(e) => *final(list) == *old(list) && spec_decrease_additional_validator_stake(
                *pool, old(list).entries(), vote_account_address, lamports,
                transient_stake_seed, rent_exemption, minimum_delegation, current_epoch)
                == Err::<Seq<ValidatorStakeInfo>, _>(e),
        },
{
    let _ = ephemeral_stake_seed;
    if pool.last_update_epoch != current_epoch {
        return Err(StakePoolError::StakeListAndPoolOutOfDate);
    }
    let i = match list.find(vote_account_address) {
        Some(i) => i,
        None => {
            return Err(StakePoolError::NotFound);
        },
    };
    proof {
        lemma_vote_index(list.entries(), vote_account_address, i as int);
    }
    let e = list.get(i);
    if !matches!(e.status, StakeStatus::Active) {
        return Err(StakePoolError::ValidatorNotActive);
    }
    if e.transient_stake_lamports != 0 && e.transient_seed_suffix != transient_stake_seed {
        return Err(StakePoolError::TransientSeedMismatch);
    }
    if minimum_delegation > u64::MAX - rent_exemption
        || lamports < rent_exemption + minimum_delegation
    {
        return Err(StakePoolError::MinimumBalanceViolation);
    }
    if minimum_delegation > u64::MAX - lamports
        || e.active_stake_lamports < lamports + minimum_delegation
    {
        return Err(StakePoolError::MinimumBalanceViolation);
    }
    if lamports > u64::MAX - e.transient_stake_lamports {
        return Err(StakePoolError::ArithmeticOverflow);
    }
    list.set(i, ValidatorStakeInfo {
        active_stake_lamports: e.active_stake_lamports - lamports,
        transient_stake_lamports: e.transient_stake_lamports + lamports,
        transient_seed_suffix: transient_stake_seed,
        ..e
    });
    proof {
        lemma_unique_votes_update(old(list).entries(), i as int, list.entries()[i as int]);
    }
    Ok(())
}

/// Redelegates `lamports` from validator `source_vote_account` to
/// validator `destination_vote_account`, through a source transient
/// account, the ephemeral account derived from `ephemeral_stake_seed`,
/// and the destination transient account.
///
/// Fails with `StakeListAndPoolOutOfDate` when the pool is stale,
/// `DuplicateValidator` when source and destination coincide, `NotFound`
/// when either is not in the list, `ValidatorNotActive` when either entry
/// no longer accepts transitions, `TransientAccountInUse` when the source
/// already has stake in flight, `TransientSeedMismatch` when the
/// destination has transient stake under a different seed, and
/// `MinimumBalanceViolation` when `lamports` cannot fund the two
/// rent-exemptions plus a minimum delegation, or the source would retain
/// less than `minimum_delegation`; nothing changes on failure.
pub fn redelegate(
    pool: &StakePool,
    list: &mut ValidatorList,
    source_vote_account: u64,
    destination_vote_account: u64,
    lamports: u64,
    source_transient_stake_seed: u64,
    ephemeral_stake_seed: u64,
    destination_transient_stake_seed: u64,
    rent_exemption: u64,
    minimum_delegation: u64,
    current_epoch: u64,
) -> (r: Result<(), StakePoolError>)
    requires
        old(list).wf(),
    ensures
        final(list).wf(),
        final(list).max_validators == old(list).max_validators,
        match r {
            Ok(()) => spec_redelegate(
                *pool, old(list).entries(), source_vote_account, destination_vote_account,
                lamports, source_transient_stake_seed, destination_transient_stake_seed,
                rent_exemption, minimum_delegation, current_epoch)
                == Ok::<_, StakePoolError>(final(list).entries()),
            Err(e) => *final(list) == *old(list) && spec_redelegate(
                *pool, old(list).entries(), source_vote_account, destination_vote_account,
                lamports, source_transient_stake_seed, destination_transient_stake_seed,
                rent_exemption, minimum_delegation, current_epoch)
                == Err::<Seq<ValidatorStakeInfo>, _>(e),
        },
{
    let _ = ephemeral_stake_seed;
    if pool.last_update_epoch != current_epoch {
        return Err(StakePoolError::StakeListAndPoolOutOfDate);
    }
    if source_vote_account == destination_vote_account {
        return Err(StakePoolError::DuplicateValidator);
    }
    let si = match list.find(source_vote_account) {
        Some(i) => i,
        None => {
            return Err(StakePoolError::NotFound);
        },
    };
    let di = match list.find(destination_vote_account) {
        Some(i) => i,
        None => {
            return Err(StakePoolError::NotFound);
        },
    };
    proof {
        lemma_vote_index(list.entries(), source_vote_account, si as int);
        lemma_vote_index(list.entries(), destination_vote_account, di as int);
    }
    let src = list.get(si);
    let dst = list.get(di);
    if !matches!(src.status, StakeStatus::Active) || !matches!(dst.status, StakeStatus::Active) {
        return Err(StakePoolError::ValidatorNotActive);
    }
    if src.transient_stake_lamports != 0 {
        return Err(StakePoolError::TransientAccountInUse);
    }
    if dst.transient_stake_lamports != 0
        && dst.transient_seed_suffix != destination_transient_stake_seed
    {
        return Err(StakePoolError::TransientSeedMismatch);
    }
    if (lamports as u128) < 2 * (rent_exemption as u128) + (minimum_delegation as u128) {
        return Err(StakePoolError::MinimumBalanceViolation);
    }
    if minimum_delegation > u64::MAX - lamports
        || src.active_stake_lamports < lamports + minimum_delegation
    {
        return Err(StakePoolError::MinimumBalanceViolation);
    }
    if lamports - rent_exemption > u64::MAX - dst.transient_stake_lamports {
        return Err(StakePoolError::ArithmeticOverflow);
    }
    list.set(si, ValidatorStakeInfo {
        active_stake_lamports: src.active_stake_lamports - lamports,
        transient_stake_lamports: rent_exemption,
        transient_seed_suffix: source_transient_stake_seed,
        ..src
    });
    proof {
        lemma_unique_votes_update(old(list).entries(), si as int, list.entries()[si as int]);
    }
    list.set(di, ValidatorStakeInfo {
        transient_stake_lamports: dst.transient_stake_lamports + (lamports - rent_exemption),
        transient_seed_suffix: destination_transient_stake_seed,
        ..dst
    });
    proof {
        let mid = old(list).entries().update(si as int, ValidatorStakeInfo {
            active_stake_lamports: (src.active_stake_lamports - lamports) as u64,
            transient_stake_lamports: rent_exemption,
            transient_seed_suffix: source_transient_stake_seed,
            ..src
        });
        lemma_unique_votes_update(mid, di as int, list.entries()[di as int]);
    }
    Ok(())
}

} // verus!
