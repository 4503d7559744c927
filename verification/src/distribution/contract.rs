//! Adding grants and paying out what has vested.

use vstd::prelude::*;
use crate::math::{Decimal, NANOS_PER_SECOND, Timestamp, scaled_floor};
use crate::distribution::error::ContractError;
use crate::distribution::msg::GrantResponse;
use crate::distribution::state::{Config, Grant};

verus! {

/// Smallest payout a claim may make.
pub const MIN_CLAIMABLE_AMOUNT: u128 = 50000u128;

/// Denomination in which grants are paid.
pub const GRANT_DENOM: &'static str = "uluna";

/// Whole seconds from the grant's start to `now`.
pub open spec fn elapsed_seconds(now: Timestamp, grant: Grant) -> int {
    (now.nanos - grant.started.nanos) / (NANOS_PER_SECOND as int)
}

/// Whole seconds from the grant's start to its expiry.
pub open spec fn lifespan_seconds(grant: Grant) -> int {
    (grant.expires.nanos - grant.started.nanos) / (NANOS_PER_SECOND as int)
}

/// Per mille of the grant vested at `now`, rounded down, at most 1000.
pub open spec fn matured_permille(now: Timestamp, grant: Grant) -> int {
    let p = elapsed_seconds(now, grant) * 1000 / lifespan_seconds(grant);
    if p < 1000 { p } else { 1000 }
}

/// Amount of the grant vested at `now`, rounded down.
pub open spec fn matured_amount(now: Timestamp, grant: Grant) -> int {
    scaled_floor(grant.amount_approved as int, matured_permille(now, grant) * 1_000_000_000_000_000)
}

/// Amount of the grant already paid out.
pub open spec fn already_claimed(grant: Grant) -> int {
    grant.amount_approved - grant.amount_remaining
}

/// Amount vested at `now` and not yet paid out.
pub open spec fn claimable(now: Timestamp, grant: Grant) -> int {
    matured_amount(now, grant) - already_claimed(grant)
}

/// Whether the vested amount can be computed at `now`: time does not run
/// before the grant's start, the grant lasts at least a second, the per mille
/// computation fits `u64`, and no more has been paid out than has vested.
pub open spec fn claim_defined(now: Timestamp, grant: Grant) -> bool {
    &&& grant.started.nanos <= now.nanos
    &&& grant.started.nanos <= grant.expires.nanos
    &&& lifespan_seconds(grant) > 0
    &&& elapsed_seconds(now, grant) * 1000 <= u64::MAX
    &&& grant.amount_remaining <= grant.amount_approved
    &&& already_claimed(grant) <= matured_amount(now, grant)
}

/// At most the whole approved amount vests.
pub proof fn lemma_matured_at_most_approved(now: Timestamp, grant: Grant)
    requires
        lifespan_seconds(grant) > 0,
        grant.started.nanos <= now.nanos,
    ensures
        0 <= matured_amount(now, grant) <= grant.amount_approved,
{
    let p = matured_permille(now, grant);
    let a = grant.amount_approved as int;
    let df = crate::math::DECIMAL_FRACTIONAL as int;
    assert(elapsed_seconds(now, grant) >= 0) by (nonlinear_arith)
        requires
            now.nanos >= grant.started.nanos,
    ;
    assert(elapsed_seconds(now, grant) * 1000 >= 0) by (nonlinear_arith)
        requires
            elapsed_seconds(now, grant) >= 0,
    ;
    assert(elapsed_seconds(now, grant) * 1000 / lifespan_seconds(grant) >= 0) by (nonlinear_arith)
        requires
            elapsed_seconds(now, grant) * 1000 >= 0,
            lifespan_seconds(grant) > 0,
    ;
    assert(0 <= p <= 1000);
    assert(0 <= a * (p * 1_000_000_000_000_000) <= a * df) by (nonlinear_arith)
        requires
            0 <= p <= 1000,
            a >= 0,
            df == 1_000_000_000_000_000_000,
    ;
    vstd::arithmetic::div_mod::lemma_div_is_ordered(a * (p * 1_000_000_000_000_000), a * df, df);
    vstd::arithmetic::div_mod::lemma_div_by_multiple(a, df);
    vstd::arithmetic::div_mod::lemma_div_pos_is_pos(a * (p * 1_000_000_000_000_000), df);
}

/// Whether the vested amount of `grant` can be computed at `block_time` (see
/// `claim_defined`).
pub fn claim_computable(block_time: Timestamp, grant: &Grant) -> (b: bool)
    ensures
        b == claim_defined(block_time, *grant),
{
    if grant.started.nanos > block_time.nanos || grant.started.nanos > grant.expires.nanos {
        return false;
    }
    if grant.amount_remaining > grant.amount_approved {
        return false;
    }
    let time_passed: u64 = block_time.minus_nanos(grant.started.nanos).seconds();
    let duration: u64 = grant.expires.minus_nanos(grant.started.nanos).seconds();
    if duration == 0 {
        return false;
    }
    let scaled: u64 = match time_passed.checked_mul(1000) {
        Some(v) => v,
        None => {
            return false;
        },
    };
    proof {
        lemma_matured_at_most_approved(block_time, *grant);
    }
    let permille: u64 = scaled / duration;
    let matured_permille: u64 = if permille < 1000 { permille } else { 1000 };
    let matured_amount: u128 = Decimal::permille(matured_permille).mul_floor(grant.amount_approved);
    grant.amount_approved - grant.amount_remaining <= matured_amount
}

/// Amount of `grant` vested at `block_time` and not yet paid out.
pub fn claimable_amount(block_time: Timestamp, grant: &Grant) -> (amount: u128)
    requires
        claim_defined(block_time, *grant),
    ensures
        amount == claimable(block_time, *grant),
{
    proof {
        lemma_matured_at_most_approved(block_time, *grant);
    }
    let time_passed: u64 = block_time.minus_nanos(grant.started.nanos).seconds();
    let duration: u64 = grant.expires.minus_nanos(grant.started.nanos).seconds();
    let permille: u64 = time_passed * 1000 / duration;
    let matured_permille: u64 = if permille < 1000 { permille } else { 1000 };
    let matured_amount: u128 = Decimal::permille(matured_permille).mul_floor(grant.amount_approved);
    let already_claimed: u128 = grant.amount_approved - grant.amount_remaining;
    matured_amount - already_claimed
}

/// Adds a grant of `amount` to `dao` running `duration` seconds from
/// `block_time`, numbered after the last of `grant_count`. Only the owner
/// (the governance contract) may add grants.
pub fn execute_add_grant(
    config: &Config,
    sender: &String,
    grant_count: Option<u64>,
    block_time: Timestamp,
    dao: String,
    duration: u64,
    amount: u128,
) -> (r: Result<Grant, ContractError>)
    requires
        config.owner@ == sender@ ==> {
            &&& grant_count matches Some(c) ==> c < u64::MAX
            &&& duration * NANOS_PER_SECOND <= u64::MAX
            &&& block_time.nanos + duration * NANOS_PER_SECOND <= u64::MAX
        },
    ensures
        config.owner@ != sender@ ==> r == Err::<Grant, ContractError>(ContractError::Unauthorized {}),
        config.owner@ == sender@ ==> r == Ok::<Grant, ContractError>(Grant {
            grant_id: match grant_count { Some(c) => (c + 1) as u64, None => 1u64 },
            dao,
            amount_approved: amount,
            amount_remaining: amount,
            started: block_time,
            expires: Timestamp { nanos: (block_time.nanos + duration * NANOS_PER_SECOND) as u64 },
        }),
{
    if config.owner != *sender {
        return Err(ContractError::Unauthorized {});
    }
    let grant_id: u64 = Grant::next_id(grant_count);
    Ok(Grant {
        grant_id,
        dao,
        amount_approved: amount,
        amount_remaining: amount,
        started: block_time,
        expires: block_time.plus_seconds(duration),
    })
}

/// A claim paid out: the grant with the payout deducted, and the payout.
#[derive(Clone, Debug, PartialEq, Eq)]
pub struct Payout {
    pub grant: Grant,
    pub amount: u128,
}

/// Why a claim on `grant` at `now` is refused: no such grant, nothing left
/// to pay, or less than the minimum payout vested.
pub open spec fn claim_refusal(grant: Option<Grant>, now: Timestamp) -> Option<ContractError> {
    match grant {
        None => Some(ContractError::GrantNotFound {}),
        Some(g) => if g.amount_remaining == 0 {
            Some(ContractError::AlreadyClaimed {})
        } else if claimable(now, g) < MIN_CLAIMABLE_AMOUNT {
            Some(ContractError::AmountTooSmall {})
        } else {
            None
        },
    }
}

/// Pays out what has vested of `grant` at `block_time`. Anyone may claim; the
/// payout goes to the grant's DAO.
pub fn execute_claim(grant: Option<Grant>, block_time: Timestamp) -> (r: Result<Payout, ContractError>)
    requires
        grant matches Some(g) ==> (g.amount_remaining != 0 ==> claim_defined(block_time, g)),
    ensures
        match claim_refusal(grant, block_time) {
            Some(e) => r == Err::<Payout, ContractError>(e),
            None => r == Ok::<Payout, ContractError>(Payout {
                grant: Grant {
                    amount_remaining: (grant->0.amount_remaining - claimable(block_time, grant->0)) as u128,
                    ..grant->0
                },
                amount: claimable(block_time, grant->0) as u128,
            }),
        },
{
    let mut grant: Grant = match grant {
        None => {
            return Err(ContractError::GrantNotFound {});
        },
        Some(g) => g,
    };
    if grant.amount_remaining == 0 {
        return Err(ContractError::AlreadyClaimed {});
    }
    let amount: u128 = claimable_amount(block_time, &grant);
    proof {
        lemma_matured_at_most_approved(block_time, grant);
    }
    grant.amount_remaining = grant.amount_remaining - amount;
    if amount < MIN_CLAIMABLE_AMOUNT {
        return Err(ContractError::AmountTooSmall {});
    }
    Ok(Payout { grant, amount })
}

/// `grant` as reported at `block_time`, if it exists.
pub fn query_grant(grant: Option<Grant>, block_time: Timestamp) -> (r: Option<GrantResponse>)
    requires
        grant matches Some(g) ==> claim_defined(block_time, g),
    ensures
        match grant {
            None => r is None,
            Some(g) => r == Some(GrantResponse {
                grant_id: g.grant_id,
                dao: g.dao,
                amount_approved: g.amount_approved,
                amount_remaining: g.amount_remaining,
                started: g.started,
                expires: g.expires,
                claimable_amount: claimable(block_time, g) as u128,
            }),
        },
{
    match grant {
        None => None,
        Some(grant) => {
            let claimable_amount: u128 = claimable_amount(block_time, &grant);
            Some(GrantResponse {
                grant_id: grant.grant_id,
                dao: grant.dao,
                amount_approved: grant.amount_approved,
                amount_remaining: grant.amount_remaining,
                started: grant.started,
                expires: grant.expires,
                claimable_amount,
            })
        },
    }
}

/// Sets up the contract's configuration.
pub fn instantiate(msg: crate::distribution::msg::InstantiateMsg) -> (c: Config)
    ensures
        c == (Config { owner: msg.owner, identityservice_contract: msg.identityservice_contract }),
{
    Config { owner: msg.owner, identityservice_contract: msg.identityservice_contract }
}

} // verus!
