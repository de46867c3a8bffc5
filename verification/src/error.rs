//! Errors surfaced by the pool accounting engine.

use vstd::prelude::*;

verus! {

/// Every failure an operation of the engine can surface.
///
/// Precondition errors (`ListFull`, `DuplicateValidator`, `NotFound`,
/// `NonZeroStake`, `ValidatorNotActive`, `TransientAccountInUse`,
/// `TransientSeedMismatch`, `IncorrectPreferredValidator`) are detected before
/// any mutation.  Numeric errors (`InsufficientFunds`,
/// `MinimumBalanceViolation`, `SlippageExceeded`, `ArithmeticOverflow`,
/// `FeeTooHigh`) abort the whole operation; overflow is never silently
/// wrapped.  `StakeListAndPoolOutOfDate` is recoverable by re-running the
/// epoch reconciliation first.  Every operation that returns one of these
/// leaves its inputs unchanged.
#[derive(Clone, Copy, Debug, PartialEq, Eq, Structural)]
pub enum StakePoolError {
    /// The validator list is at its fixed capacity.
    ListFull,
    /// The validator list already holds an entry for this vote account.
    DuplicateValidator,
    /// No entry of the validator list has this vote account.
    NotFound,
    /// The entry still carries active or transient stake beyond its floor.
    NonZeroStake,
    /// The entry's status does not admit new stake transitions.
    ValidatorNotActive,
    /// The entry already has stake in flight in its transient sub-account.
    TransientAccountInUse,
    /// The requested transient seed differs from the seed already in use.
    TransientSeedMismatch,
    /// A preferred validator is set and the request names another one.
    IncorrectPreferredValidator,
    /// The paying balance does not cover the requested lamports.
    InsufficientFunds,
    /// The operation would leave a stake account below its required minimum.
    MinimumBalanceViolation,
    /// The trade would end outside the caller's explicit slippage bound.
    SlippageExceeded,
    /// A balance or supply computation does not fit in 64 bits.
    ArithmeticOverflow,
    /// A fee fraction is improper or a referral percentage is over 100.
    FeeTooHigh,
    /// The pool was not reconciled for the current epoch.
    StakeListAndPoolOutOfDate,
}

impl StakePoolError {
    /// A short description, for callers that log failures.
    pub fn message(&self) -> String {
        match self {
            StakePoolError::ListFull => "validator list is full".to_string(),
            StakePoolError::DuplicateValidator => "validator is already in the list".to_string(),
            StakePoolError::NotFound => "validator is not in the list".to_string(),
            StakePoolError::NonZeroStake => "validator still carries stake".to_string(),
            StakePoolError::ValidatorNotActive => "validator does not accept transitions".to_string(),
            StakePoolError::TransientAccountInUse => "transient stake account is in use".to_string(),
            StakePoolError::TransientSeedMismatch => "transient seed does not match".to_string(),
            StakePoolError::IncorrectPreferredValidator => "request must use the preferred validator".to_string(),
            StakePoolError::InsufficientFunds => "balance does not cover the request".to_string(),
            StakePoolError::MinimumBalanceViolation => "stake would fall below the minimum".to_string(),
            StakePoolError::SlippageExceeded => "trade ends outside the slippage bound".to_string(),
            StakePoolError::ArithmeticOverflow => "computation does not fit in 64 bits".to_string(),
            StakePoolError::FeeTooHigh => "fee fraction is improper".to_string(),
            StakePoolError::StakeListAndPoolOutOfDate => "pool balances are stale for this epoch".to_string(),
        }
    }
}

} // verus!
