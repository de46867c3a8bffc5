//! Fee arithmetic: rational fees applied by truncating division.

use vstd::prelude::*;

verus! {

use vstd::arithmetic::mul::lemma_mul_upper_bound;
use vstd::arithmetic::div_mod::{
    lemma_div_is_ordered, lemma_div_multiples_vanish, lemma_div_pos_is_pos,
};

/// A fee as a rational number `numerator / denominator`.
///
/// A proper fee has `numerator <= denominator`; a zero denominator means
/// "no fee".  Fees are applied by truncating division, always rounding in
/// the pool's favor.
#[derive(Clone, Copy, Debug, PartialEq, Eq, Structural)]
pub struct Fee {
    /// Numerator of the fee fraction.
    pub numerator: u64,
    /// Denominator of the fee fraction.
    pub denominator: u64,
}

/// The fee taken from `amount` by the fraction `numerator / denominator`,
/// truncated; a zero denominator takes no fee.
pub open spec fn fee_amount(amount: int, numerator: int, denominator: int) -> int {
    if denominator == 0 {
        0
    } else {
        amount * numerator / denominator
    }
}

impl Fee {
    /// A proper fee never exceeds the amount it is applied to.
    pub open spec fn wf(self) -> bool {
        self.numerator <= self.denominator
    }

    /// The fee this fraction takes from `amount`.
    pub open spec fn spec_apply(self, amount: int) -> int {
        fee_amount(amount, self.numerator as int, self.denominator as int)
    }

    /// A fee that takes nothing.
    pub fn zero() -> (r: Fee)
        ensures
            r.wf(),
            forall|amount: int| r.spec_apply(amount) == 0,
    {
        Fee { numerator: 0, denominator: 1 }
    }

    /// Splits `amount` into the fee this fraction takes and the remainder.
    ///
    /// The two parts always sum back to `amount` exactly: no value leaks.
    pub fn apply(&self, amount: u64) -> (r: (u64, u64))
        requires
            self.wf(),
        ensures
            r.0 == self.spec_apply(amount as int),
            r.0 + r.1 == amount,
            r.0 <= amount,
    {
        if self.denominator == 0 {
            (0, amount)
        } else {
            proof {
                lemma_fee_amount_bounded(amount as int, self.numerator as int, self.denominator as int);
                lemma_mul_upper_bound(amount as int, u64::MAX as int, self.numerator as int, u64::MAX as int);
            }
            let product: u128 = (amount as u128) * (self.numerator as u128);
            let fee_part: u64 = (product / (self.denominator as u128)) as u64;
            (fee_part, amount - fee_part)
        }
    }
}

/// For a proper fee the truncated fee part lies between 0 and the amount.
pub proof fn lemma_fee_amount_bounded(amount: int, numerator: int, denominator: int)
    requires
        0 <= amount,
        0 <= numerator <= denominator,
    ensures
        0 <= fee_amount(amount, numerator, denominator) <= amount,
{
    if denominator != 0 {
        assert(amount * numerator <= amount * denominator) by (nonlinear_arith)
            requires
                0 <= amount,
                numerator <= denominator,
        ;
        assert(0 <= amount * numerator) by (nonlinear_arith)
            requires
                0 <= amount,
                0 <= numerator,
        ;
        assert(amount * denominator == denominator * amount) by (nonlinear_arith);
        lemma_div_is_ordered(amount * numerator, amount * denominator, denominator);
        lemma_div_multiples_vanish(amount, denominator);
        lemma_div_pos_is_pos(amount * numerator, denominator);
    }
}

/// Splits an already-computed fee between a referrer and the manager.
///
/// The referrer receives `referral_pct` percent of `fee_tokens`, truncated;
/// the manager keeps the rest.  The referral share never exceeds the
/// original fee amount.
pub fn split_referral(fee_tokens: u64, referral_pct: u8) -> (r: (u64, u64))
    requires
        referral_pct <= 100,
    ensures
        r.0 == fee_amount(fee_tokens as int, referral_pct as int, 100),
        r.0 + r.1 == fee_tokens,
        r.0 <= fee_tokens,
{
    let pct_fee = Fee { numerator: referral_pct as u64, denominator: 100 };
    pct_fee.apply(fee_tokens)
}

/// Selects which fee of the pool a fee-setting operation updates.
#[derive(Clone, Copy, Debug, PartialEq, Eq, Structural)]
pub enum FeeType {
    /// The fee assessed on epoch reward growth.
    Epoch(Fee),
    /// The fee charged on each withdrawal.
    Withdrawal(Fee),
    /// The fee charged on each deposit.
    Deposit(Fee),
    /// The percentage of the deposit fee that goes to a referrer.
    Referral(u8),
}

impl FeeType {
    /// An update is acceptable when the fraction is proper, or the
    /// percentage is at most 100.
    pub open spec fn wf(self) -> bool {
        match self {
            FeeType::Epoch(f) => f.wf(),
            FeeType::Withdrawal(f) => f.wf(),
            FeeType::Deposit(f) => f.wf(),
            FeeType::Referral(pct) => pct <= 100,
        }
    }

    /// Checks that the update is acceptable.
    pub fn check(&self) -> (r: bool)
        ensures
            r == self.wf(),
    {
        match self {
            FeeType::Epoch(f) => f.numerator <= f.denominator,
            FeeType::Withdrawal(f) => f.numerator <= f.denominator,
            FeeType::Deposit(f) => f.numerator <= f.denominator,
            FeeType::Referral(pct) => *pct <= 100,
        }
    }
}

} // verus!
