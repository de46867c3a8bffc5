//! The validator list: one record per participating validator.

use vstd::prelude::*;

verus! {

/// Lifecycle tag of a validator entry.
///
/// It governs whether the entry may receive new stake transitions or must
/// first be drained before its physical removal.
#[derive(Clone, Copy, Debug, PartialEq, Eq, Structural)]
pub enum StakeStatus {
    /// The entry participates normally and accepts new transitions.
    Active,
    /// The canonical account is drained; the transient account must still
    /// deactivate before the entry can be removed.
    DeactivatingTransient,
    /// Fully drained; the next cleanup pass removes the entry physically.
    ReadyForRemoval,
    /// The canonical account is deactivating; no transient stake remains.
    DeactivatingValidator,
    /// Both the canonical and the transient account are deactivating.
    DeactivatingAll,
}

/// One validator's participation in the pool.
#[derive(Clone, Copy, Debug, PartialEq, Eq, Structural)]
pub struct ValidatorStakeInfo {
    /// Identity of the validator being delegated to.
    pub vote_account_address: u64,
    /// Lamports believed delegated in the canonical stake account.
    pub active_stake_lamports: u64,
    /// Lamports currently in flight in the transient sub-account; zero when
    /// no transition is under way.
    pub transient_stake_lamports: u64,
    /// Disambiguator from which the transient sub-account address is derived.
    pub transient_seed_suffix: u64,
    /// Disambiguator from which the canonical sub-account address is derived.
    pub validator_seed_suffix: u32,
    /// Lifecycle tag of this entry.
    pub status: StakeStatus,
}

impl ValidatorStakeInfo {
    /// All lamports this entry accounts for.
    pub open spec fn stake(self) -> int {
        self.active_stake_lamports + self.transient_stake_lamports
    }

    /// A fresh entry as the add-validator operation creates it.
    pub fn new(vote_account_address: u64, active_stake_lamports: u64, validator_seed_suffix: u32) -> (r: ValidatorStakeInfo)
        ensures
            r == (ValidatorStakeInfo {
                vote_account_address,
                active_stake_lamports,
                transient_stake_lamports: 0,
                transient_seed_suffix: 0,
                validator_seed_suffix,
                status: StakeStatus::Active,
            }),
    {
        ValidatorStakeInfo {
            vote_account_address,
            active_stake_lamports,
            transient_stake_lamports: 0,
            transient_seed_suffix: 0,
            validator_seed_suffix,
            status: StakeStatus::Active,
        }
    }

    /// An entry is eligible for physical removal once it is tombstoned and
    /// carries no stake.
    pub open spec fn spec_removable(self) -> bool {
        self.status == StakeStatus::ReadyForRemoval && self.stake() == 0
    }

    /// Checks eligibility for physical removal.
    pub fn removable(&self) -> (r: bool)
        ensures
            r == self.spec_removable(),
    {
        matches!(self.status, StakeStatus::ReadyForRemoval)
            && self.active_stake_lamports == 0
            && self.transient_stake_lamports == 0
    }
}

/// Whether some entry of `s` has the vote account `vote`.
pub open spec fn has_vote(s: Seq<ValidatorStakeInfo>, vote: u64) -> bool {
    exists|i: int| 0 <= i < s.len() && #[trigger] s[i].vote_account_address == vote
}

/// No two entries of `s` share a vote account.
pub open spec fn unique_votes(s: Seq<ValidatorStakeInfo>) -> bool {
    forall|i: int, j: int|
        0 <= i < j < s.len() ==> #[trigger] s[i].vote_account_address
            != #[trigger] s[j].vote_account_address
}

/// The position of the entry with vote account `vote`.
///
/// Meaningful whenever `has_vote(s, vote)` holds; under `unique_votes` it is
/// the one and only such position.
pub open spec fn vote_index(s: Seq<ValidatorStakeInfo>, vote: u64) -> int {
    choose|i: int| 0 <= i < s.len() && #[trigger] s[i].vote_account_address == vote
}

/// Updating an entry without changing its vote account preserves vote
/// uniqueness.
pub proof fn lemma_unique_votes_update(s: Seq<ValidatorStakeInfo>, i: int, e: ValidatorStakeInfo)
    requires
        unique_votes(s),
        0 <= i < s.len(),
        e.vote_account_address == s[i].vote_account_address,
    ensures
        unique_votes(s.update(i, e)),
{
    let s2 = s.update(i, e);
    assert forall|a: int, b: int|
        0 <= a < b < s2.len() implies #[trigger] s2[a].vote_account_address
            != #[trigger] s2[b].vote_account_address by {
        assert(s2[a].vote_account_address == s[a].vote_account_address);
        assert(s2[b].vote_account_address == s[b].vote_account_address);
        assert(s[a].vote_account_address != s[b].vote_account_address);
    }
}

/// Appending an entry with a fresh vote account preserves vote uniqueness.
pub proof fn lemma_unique_votes_push(s: Seq<ValidatorStakeInfo>, e: ValidatorStakeInfo)
    requires
        unique_votes(s),
        !has_vote(s, e.vote_account_address),
    ensures
        unique_votes(s.push(e)),
{
    let s2 = s.push(e);
    assert forall|a: int, b: int|
        0 <= a < b < s2.len() implies #[trigger] s2[a].vote_account_address
            != #[trigger] s2[b].vote_account_address by {
        if b == s.len() {
            assert(s2[a] == s[a]);
            assert(s[a].vote_account_address != e.vote_account_address);
        } else {
            assert(s2[a] == s[a]);
            assert(s2[b] == s[b]);
        }
    }
}

/// Under unique vote accounts, any position holding `vote` is `vote_index`.
pub proof fn lemma_vote_index(s: Seq<ValidatorStakeInfo>, vote: u64, i: int)
    requires
        unique_votes(s),
        0 <= i < s.len(),
        s[i].vote_account_address == vote,
    ensures
        vote_index(s, vote) == i,
{
    assert(has_vote(s, vote));
    let j = vote_index(s, vote);
    assert(0 <= j < s.len() && s[j].vote_account_address == vote);
    if i < j {
        assert(s[i].vote_account_address != s[j].vote_account_address);
    } else if j < i {
        assert(s[j].vote_account_address != s[i].vote_account_address);
    }
}

/// The lamports accounted across all entries: active plus transient.
pub open spec fn total_stake(s: Seq<ValidatorStakeInfo>) -> int
    decreases s.len(),
{
    if s.len() == 0 {
        0
    } else {
        total_stake(s.drop_last()) + s.last().stake()
    }
}

/// Appending an entry adds its stake to the total.
pub proof fn lemma_total_stake_push(s: Seq<ValidatorStakeInfo>, e: ValidatorStakeInfo)
    ensures
        total_stake(s.push(e)) == total_stake(s) + e.stake(),
{
    assert(s.push(e).drop_last() =~= s);
}

/// Replacing one entry shifts the total by the difference in stake.
pub proof fn lemma_total_stake_update(s: Seq<ValidatorStakeInfo>, i: int, e: ValidatorStakeInfo)
    requires
        0 <= i < s.len(),
    ensures
        total_stake(s.update(i, e)) == total_stake(s) - s[i].stake() + e.stake(),
    decreases s.len(),
{
    if i == s.len() - 1 {
        assert(s.update(i, e).drop_last() =~= s.drop_last());
    } else {
        assert(s.update(i, e).drop_last() =~= s.drop_last().update(i, e));
        lemma_total_stake_update(s.drop_last(), i, e);
    }
}

/// Entry stakes are nonnegative, so prefix totals only grow.
pub proof fn lemma_total_stake_prefix_mono(s: Seq<ValidatorStakeInfo>, i: int, j: int)
    requires
        0 <= i <= j <= s.len(),
    ensures
        total_stake(s.subrange(0, i)) <= total_stake(s.subrange(0, j)),
    decreases j - i,
{
    if i < j {
        lemma_total_stake_prefix_mono(s, i, j - 1);
        assert(s.subrange(0, j).drop_last() =~= s.subrange(0, j - 1));
        assert(total_stake(s.subrange(0, j))
            == total_stake(s.subrange(0, j - 1)) + s[j - 1].stake());
    }
}

/// Dropping only zero-stake entries keeps the total unchanged.
pub proof fn lemma_total_stake_filter(s: Seq<ValidatorStakeInfo>, pred: spec_fn(ValidatorStakeInfo) -> bool)
    requires
        forall|i: int| 0 <= i < s.len() && !pred(#[trigger] s[i]) ==> s[i].stake() == 0,
    ensures
        total_stake(s.filter(pred)) == total_stake(s),
    decreases s.len(),
{
    reveal(Seq::filter);
    if s.len() != 0 {
        lemma_total_stake_filter(s.drop_last(), pred);
        if pred(s.last()) {
            lemma_total_stake_push(s.drop_last().filter(pred), s.last());
        } else {
            assert(s[s.len() - 1].stake() == 0);
        }
    }
}

/// An ordered, capacity-bounded collection of validator entries.
///
/// Entries are looked up by vote account, never by position; positions are
/// only stable within one epoch's chunked reconciliation pass.
#[derive(Debug)]
pub struct ValidatorList {
    /// The entries, in insertion order.
    pub validators: Vec<ValidatorStakeInfo>,
    /// Capacity fixed at creation.
    pub max_validators: u32,
}

impl ValidatorList {
    /// The entries as a mathematical sequence.
    pub open spec fn entries(self) -> Seq<ValidatorStakeInfo> {
        self.validators@
    }

    /// Structural invariant: within capacity, and no two entries share a
    /// vote account.
    pub open spec fn wf(self) -> bool {
        &&& self.entries().len() <= self.max_validators
        &&& unique_votes(self.entries())
    }

    /// An empty list with the given fixed capacity.
    pub fn new(max_validators: u32) -> (r: ValidatorList)
        ensures
            r.wf(),
            r.entries() =~= Seq::<ValidatorStakeInfo>::empty(),
            r.max_validators == max_validators,
    {
        ValidatorList { validators: Vec::new(), max_validators }
    }

    /// The number of entries.
    pub fn len(&self) -> (r: usize)
        ensures
            r == self.entries().len(),
    {
        self.validators.len()
    }

    /// A copy of the entry at position `i`.
    pub fn get(&self, i: usize) -> (r: ValidatorStakeInfo)
        requires
            i < self.entries().len(),
        ensures
            r == self.entries()[i as int],
    {
        self.validators[i]
    }

    /// Position of the entry with vote account `vote`, by identity.
    ///
    /// Callers must not rely on the position staying stable across removals.
    pub fn find(&self, vote: u64) -> (r: Option<usize>)
        ensures
            match r {
                Some(i) => i < self.entries().len()
                    && self.entries()[i as int].vote_account_address == vote,
                None => !has_vote(self.entries(), vote),
            },
    {
        let n = self.validators.len();
        let mut i: usize = 0;
        while i < n
            invariant
                i <= n,
                n == self.entries().len(),
                forall|j: int| 0 <= j < i ==> #[trigger] self.entries()[j].vote_account_address != vote,
            decreases n - i,
        {
            if self.validators[i].vote_account_address == vote {
                return Some(i);
            }
            i = i + 1;
        }
        None
    }

    /// Appends a new entry.
    ///
    /// Fails with `ListFull` when the list is at capacity, and with
    /// `DuplicateValidator` when an entry with the same vote account exists;
    /// the list is unchanged on failure.
    pub fn insert(&mut self, entry: ValidatorStakeInfo) -> (r: Result<(), crate::error::StakePoolError>)
        requires
            old(self).wf(),
        ensures
            final(self).wf(),
            final(self).max_validators == old(self).max_validators,
            match r {
                Ok(()) => old(self).entries().len() < old(self).max_validators
                    && !has_vote(old(self).entries(), entry.vote_account_address)
                    && final(self).entries() == old(self).entries().push(entry),
                Err(e) => *final(self) == *old(self) && (
                    if old(self).entries().len() >= old(self).max_validators {
                        e == crate::error::StakePoolError::ListFull
                    } else {
                        e == crate::error::StakePoolError::DuplicateValidator
                            && has_vote(old(self).entries(), entry.vote_account_address)
                    }
                ),
            },
    {
        if self.validators.len() >= self.max_validators as usize {
            return Err(crate::error::StakePoolError::ListFull);
        }
        if self.find(entry.vote_account_address).is_some() {
            return Err(crate::error::StakePoolError::DuplicateValidator);
        }
        self.validators.push(entry);
        Ok(())
    }

    /// Overwrites the entry at position `i`.
    pub fn set(&mut self, i: usize, entry: ValidatorStakeInfo)
        requires
            i < old(self).entries().len(),
        ensures
            final(self).entries() == old(self).entries().update(i as int, entry),
            final(self).max_validators == old(self).max_validators,
    {
        self.validators[i] = entry;
    }

    /// Physically removes every entry that is tombstoned with zero stake.
    ///
    /// Surviving entries keep their relative order.  The total accounted
    /// stake is unchanged, because only zero-stake entries leave.
    pub fn cleanup_removed_validator_entries(&mut self)
        requires
            old(self).wf(),
        ensures
            final(self).wf(),
            final(self).max_validators == old(self).max_validators,
            final(self).entries() == old(self).entries().filter(|e: ValidatorStakeInfo| !e.spec_removable()),
            total_stake(final(self).entries()) == total_stake(old(self).entries()),
    {
        let ghost all = self.entries();
        let ghost keep = |e: ValidatorStakeInfo| !e.spec_removable();
        let n = self.validators.len();
        let mut kept: Vec<ValidatorStakeInfo> = Vec::new();
        let mut i: usize = 0;
        while i < n
            invariant
                i <= n,
                n == all.len(),
                self.entries() == all,
                keep == (|e: ValidatorStakeInfo| !e.spec_removable()),
                kept@ == all.subrange(0, i as int).filter(keep),
            decreases n - i,
        {
            let e = self.validators[i];
            proof {
                reveal(Seq::filter);
                let pre = all.subrange(0, i as int);
                let post = all.subrange(0, i + 1);
                assert(post.drop_last() =~= pre);
                assert(post.last() == all[i as int]);
                assert(post.filter(keep) == if keep(all[i as int]) {
                    pre.filter(keep).push(all[i as int])
                } else {
                    pre.filter(keep)
                });
            }
            if !e.removable() {
                kept.push(e);
            }
            i = i + 1;
        }
        proof {
            assert(all.subrange(0, n as int) =~= all);
            all.lemma_filter_len(keep);
            lemma_total_stake_filter(all, keep);
            assert forall|a: int, b: int|
                0 <= a < b < all.filter(keep).len() implies #[trigger] all.filter(keep)[a].vote_account_address
                    != #[trigger] all.filter(keep)[b].vote_account_address by {
                lemma_filter_indexes(all, keep, a, b);
            }
        }
        self.validators = kept;
    }
}

/// Two distinct positions of a filtered sequence come from two distinct
/// positions of the original, in order.
proof fn lemma_filter_indexes(s: Seq<ValidatorStakeInfo>, pred: spec_fn(ValidatorStakeInfo) -> bool, a: int, b: int)
    requires
        0 <= a < b < s.filter(pred).len(),
    ensures
        exists|i: int, j: int|
            0 <= i < j < s.len() && s[i] == s.filter(pred)[a] && s[j] == s.filter(pred)[b],
    decreases s.len(),
{
    reveal(Seq::filter);
    let f = s.filter(pred);
    let fd = s.drop_last().filter(pred);
    if s.len() == 0 {
    } else if pred(s.last()) {
        if b < f.len() - 1 {
            lemma_filter_indexes(s.drop_last(), pred, a, b);
        } else {
            // b is the last filtered position, coming from s.last()
            if a < fd.len() {
                lemma_filter_index_source(s.drop_last(), pred, a);
                let i = choose|i: int|
                    0 <= i < s.drop_last().len() && s.drop_last()[i] == fd[a];
                assert(s[i] == f[a]);
                assert(s[s.len() - 1] == f[b]);
            }
        }
    } else {
        lemma_filter_indexes(s.drop_last(), pred, a, b);
    }
}

/// Every filtered element comes from some position of the original.
proof fn lemma_filter_index_source(s: Seq<ValidatorStakeInfo>, pred: spec_fn(ValidatorStakeInfo) -> bool, a: int)
    requires
        0 <= a < s.filter(pred).len(),
    ensures
        exists|i: int| 0 <= i < s.len() && s[i] == s.filter(pred)[a],
    decreases s.len(),
{
    reveal(Seq::filter);
    if s.len() != 0 {
        let fd = s.drop_last().filter(pred);
        if a < fd.len() {
            lemma_filter_index_source(s.drop_last(), pred, a);
            let i = choose|i: int| 0 <= i < s.drop_last().len() && s.drop_last()[i] == fd[a];
            assert(s[i] == s.filter(pred)[a]);
        } else {
            assert(s[s.len() - 1] == s.filter(pred)[a]);
        }
    }
}

} // verus!
