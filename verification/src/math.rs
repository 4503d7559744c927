//! Fixed-point decimals, voting thresholds and block timestamps held as plain
//! integers, with the arithmetic the contracts take from `cosmwasm_std` and
//! `cw_utils`.

use vstd::prelude::*;
use cosmwasm_std::{Decimal as CwDecimal, Uint128};
use cw_utils::{Threshold as Cw, ThresholdError as E};

verus! {

/// Number of atomic units in one whole `Decimal` (eighteen fractional digits).
pub const DECIMAL_FRACTIONAL: u128 = 1_000_000_000_000_000_000u128;

/// A non-negative fixed-point number with eighteen fractional digits, held by
/// its count of atomic units (`value = atomics / 10^18`).
#[derive(Clone, Copy, Debug, PartialEq, Eq, Structural)]
pub struct Decimal {
    pub atomics: u128,
}

/// `numerator * 10^18 / denominator`, rounded down: the atomics of the ratio.
pub open spec fn ratio_atomics(numerator: int, denominator: int) -> int {
    numerator * (DECIMAL_FRACTIONAL as int) / denominator
}

/// `amount * atomics / 10^18`, rounded down: an integer amount scaled by a decimal.
pub open spec fn scaled_floor(amount: int, atomics: int) -> int {
    amount * atomics / (DECIMAL_FRACTIONAL as int)
}

/// Calls `cosmwasm_std::Decimal::from_ratio`, which computes
/// `numerator * 10^18 / denominator` in 256-bit arithmetic, rounding down,
/// and panics when the denominator is zero or the result exceeds `u128`.
/// Claimed: the atomics of the result are exactly that quotient.
#[verifier::external_body]
fn from_ratio_atomics(numerator: u128, denominator: u128) -> (atomics: u128)
    requires
        denominator > 0,
        ratio_atomics(numerator as int, denominator as int) <= u128::MAX,
    ensures
        atomics == ratio_atomics(numerator as int, denominator as int),
{
    cosmwasm_std::Decimal::from_ratio(numerator, denominator).atomics().u128()
}

/// Calls `cosmwasm_std::Decimal::checked_from_ratio`, which computes
/// `numerator * 10^18 / denominator` in 256-bit arithmetic, rounding down,
/// and fails when the denominator is zero or the result exceeds `u128`.
/// Claimed: for a non-zero denominator it succeeds exactly when the quotient
/// fits `u128`, and then returns the quotient's atomics.
#[verifier::external_body]
fn checked_ratio_atomics(numerator: u128, denominator: u128) -> (atomics: Option<u128>)
    requires
        denominator > 0,
    ensures
        atomics is Some <==> ratio_atomics(numerator as int, denominator as int) <= u128::MAX,
        atomics matches Some(a) ==> a == ratio_atomics(numerator as int, denominator as int),
{
    match cosmwasm_std::Decimal::checked_from_ratio(numerator, denominator) {
        Ok(d) => Some(d.atomics().u128()),
        Err(_) => None,
    }
}

/// Calls `<cosmwasm_std::Uint128 as Mul<cosmwasm_std::Decimal>>::mul`, which
/// returns zero when either side is zero and otherwise
/// `amount * atomics / 10^18` computed in 256-bit arithmetic, rounding down,
/// panicking when the result exceeds `u128`.
/// Claimed: the result is exactly that quotient.
#[verifier::external_body]
fn mul_decimal_floor(amount: u128, atomics: u128) -> (product: u128)
    requires
        scaled_floor(amount as int, atomics as int) <= u128::MAX,
    ensures
        product == scaled_floor(amount as int, atomics as int),
{
    let d = cosmwasm_std::Decimal::new(cosmwasm_std::Uint128::new(atomics));
    (cosmwasm_std::Uint128::new(amount) * d).u128()
}

impl Decimal {
    /// The decimal zero.
    pub fn zero() -> (d: Decimal)
        ensures
            d.atomics == 0,
    {
        Decimal { atomics: 0 }
    }

    /// `x` percent, i.e. `x / 100`.
    pub fn percent(x: u64) -> (d: Decimal)
        ensures
            d.atomics == x * 10_000_000_000_000_000,
    {
        assert(x * 10_000_000_000_000_000 <= u128::MAX) by (nonlinear_arith)
            requires
                x <= u64::MAX,
        ;
        Decimal { atomics: (x as u128) * 10_000_000_000_000_000u128 }
    }

    /// `x` per mille, i.e. `x / 1000`.
    pub fn permille(x: u64) -> (d: Decimal)
        ensures
            d.atomics == x * 1_000_000_000_000_000,
    {
        assert(x * 1_000_000_000_000_000 <= u128::MAX) by (nonlinear_arith)
            requires
                x <= u64::MAX,
        ;
        Decimal { atomics: (x as u128) * 1_000_000_000_000_000u128 }
    }

    /// The ratio `numerator / denominator`, rounded down to eighteen digits.
    pub fn from_ratio(numerator: u128, denominator: u128) -> (d: Decimal)
        requires
            denominator > 0,
            ratio_atomics(numerator as int, denominator as int) <= u128::MAX,
        ensures
            d.atomics == ratio_atomics(numerator as int, denominator as int),
    {
        Decimal { atomics: from_ratio_atomics(numerator, denominator) }
    }

    /// The ratio `numerator / denominator`, rounded down to eighteen digits,
    /// or `None` when it does not fit.
    pub fn checked_from_ratio(numerator: u128, denominator: u128) -> (d: Option<Decimal>)
        requires
            denominator > 0,
        ensures
            d is Some <==> ratio_atomics(numerator as int, denominator as int) <= u128::MAX,
            d matches Some(x) ==> x.atomics == ratio_atomics(numerator as int, denominator as int),
    {
        match checked_ratio_atomics(numerator, denominator) {
            Some(atomics) => Some(Decimal { atomics }),
            None => None,
        }
    }

    /// `amount * self`, rounded down to an integer.
    pub fn mul_floor(&self, amount: u128) -> (product: u128)
        requires
            scaled_floor(amount as int, self.atomics as int) <= u128::MAX,
        ensures
            product == scaled_floor(amount as int, self.atomics as int),
    {
        mul_decimal_floor(amount, self.atomics)
    }
}


/// Ways a DAO tallies votes: a fixed weight of yes votes, a percentage of the
/// total weight, or a threshold together with a quorum.
#[derive(Clone, Copy, Debug, PartialEq, Eq, Structural)]
pub enum Threshold {
    AbsoluteCount { weight: u64 },
    AbsolutePercentage { percentage: Decimal },
    ThresholdQuorum { threshold: Decimal, quorum: Decimal },
}

/// Why a threshold cannot be met.
#[derive(Clone, Copy, Debug, PartialEq, Eq, Structural)]
pub enum ThresholdError {
    InvalidThreshold,
    ZeroQuorumThreshold,
    UnreachableQuorumThreshold,
    ZeroWeight,
    UnreachableWeight,
}

/// A percentage threshold must lie in `[0.5, 1]`.
pub open spec fn threshold_percent_check(p: Decimal) -> Result<(), ThresholdError> {
    if p.atomics > DECIMAL_FRACTIONAL || p.atomics < DECIMAL_FRACTIONAL / 2 {
        Err(ThresholdError::InvalidThreshold)
    } else {
        Ok(())
    }
}

/// A quorum must lie in `(0, 1]`.
pub open spec fn quorum_check(q: Decimal) -> Result<(), ThresholdError> {
    if q.atomics == 0 {
        Err(ThresholdError::ZeroQuorumThreshold)
    } else if q.atomics > DECIMAL_FRACTIONAL {
        Err(ThresholdError::UnreachableQuorumThreshold)
    } else {
        Ok(())
    }
}

impl Threshold {
    /// Whether the threshold can be reached given the total weight of a group.
    pub open spec fn validation(self, total_weight: u64) -> Result<(), ThresholdError> {
        match self {
            Threshold::AbsoluteCount { weight } => {
                if weight == 0 {
                    Err(ThresholdError::ZeroWeight)
                } else if weight > total_weight {
                    Err(ThresholdError::UnreachableWeight)
                } else {
                    Ok(())
                }
            },
            Threshold::AbsolutePercentage { percentage } => threshold_percent_check(percentage),
            Threshold::ThresholdQuorum { threshold, quorum } => {
                match threshold_percent_check(threshold) {
                    Err(e) => Err(e),
                    Ok(_) => quorum_check(quorum),
                }
            },
        }
    }

    /// Checks that the threshold is reachable with `total_weight`.
    pub fn validate(&self, total_weight: u64) -> (r: Result<(), ThresholdError>)
        ensures
            r == self.validation(total_weight),
    {
        cw_threshold_validate(self, total_weight)
    }
}

/// Calls `cw_utils::Threshold::validate` on the same threshold. Its source
/// rejects a zero or an unreachable absolute count, a percentage outside
/// `[50%, 100%]`, and a quorum that is zero or above `100%`, in that order.
/// Claimed: the outcome equals `Threshold::validation`, error kind included
/// (its source never returns the `Std` variant, so that arm is not reached).
#[verifier::external_body]
fn cw_threshold_validate(t: &Threshold, total_weight: u64) -> (r: Result<(), ThresholdError>)
    ensures
        r == t.validation(total_weight),
{
    let dec = |d: Decimal| CwDecimal::new(Uint128::new(d.atomics));
    let cw = match *t {
        Threshold::AbsoluteCount { weight } => Cw::AbsoluteCount { weight },
        Threshold::AbsolutePercentage { percentage } => Cw::AbsolutePercentage { percentage: dec(percentage) },
        Threshold::ThresholdQuorum { threshold, quorum } => Cw::ThresholdQuorum { threshold: dec(threshold), quorum: dec(quorum) },
    };
    cw.validate(total_weight).map_err(|e| match e {
        E::ZeroQuorumThreshold {} => ThresholdError::ZeroQuorumThreshold,
        E::UnreachableQuorumThreshold {} => ThresholdError::UnreachableQuorumThreshold,
        E::ZeroWeight {} => ThresholdError::ZeroWeight,
        E::UnreachableWeight {} => ThresholdError::UnreachableWeight,
        E::InvalidThreshold {} | E::Std(_) => ThresholdError::InvalidThreshold,
    })
}

/// Nanoseconds in one second.
pub const NANOS_PER_SECOND: u64 = 1_000_000_000u64;

/// A point in block time, held as nanoseconds since the Unix epoch.
#[derive(Clone, Copy, Debug, PartialEq, Eq, Structural)]
pub struct Timestamp {
    pub nanos: u64,
}

impl Timestamp {
    /// The timestamp `seconds` seconds after the epoch.
    pub fn from_seconds(seconds: u64) -> (t: Timestamp)
        requires
            seconds * NANOS_PER_SECOND <= u64::MAX,
        ensures
            t.nanos == seconds * NANOS_PER_SECOND,
    {
        Timestamp { nanos: seconds * NANOS_PER_SECOND }
    }

    /// Whole seconds since the epoch.
    pub fn seconds(&self) -> (s: u64)
        ensures
            s == self.nanos / NANOS_PER_SECOND,
    {
        self.nanos / NANOS_PER_SECOND
    }

    /// This timestamp moved `seconds` seconds later.
    pub fn plus_seconds(&self, seconds: u64) -> (t: Timestamp)
        requires
            seconds * NANOS_PER_SECOND <= u64::MAX,
            self.nanos + seconds * NANOS_PER_SECOND <= u64::MAX,
        ensures
            t.nanos == self.nanos + seconds * NANOS_PER_SECOND,
    {
        Timestamp { nanos: self.nanos + seconds * NANOS_PER_SECOND }
    }

    /// This timestamp moved `nanos` nanoseconds earlier.
    pub fn minus_nanos(&self, nanos: u64) -> (t: Timestamp)
        requires
            nanos <= self.nanos,
        ensures
            t.nanos == self.nanos - nanos,
    {
        Timestamp { nanos: self.nanos - nanos }
    }
}

} // verus!
