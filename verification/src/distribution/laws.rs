//! Properties of grant payouts across claims and over time.

use vstd::prelude::*;
use vstd::arithmetic::div_mod::{lemma_div_by_multiple, lemma_div_is_ordered};
use crate::math::{NANOS_PER_SECOND, Timestamp};
use crate::distribution::contract::{
    already_claimed, claim_defined, claimable, elapsed_seconds, lemma_matured_at_most_approved,
    lifespan_seconds, matured_amount, matured_permille,
};
use crate::distribution::state::Grant;

verus! {

/// A claim never pays out more than remains of the grant, so all payouts
/// together never exceed the approved amount.
pub proof fn lemma_payout_within_remaining(now: Timestamp, grant: Grant)
    requires
        claim_defined(now, grant),
    ensures
        0 <= claimable(now, grant) <= grant.amount_remaining,
        already_claimed(grant) + claimable(now, grant) <= grant.amount_approved,
{
    lemma_matured_at_most_approved(now, grant);
}

/// Once a grant has expired, everything that remains of it can be claimed.
pub proof fn lemma_fully_vested_after_expiry(now: Timestamp, grant: Grant)
    requires
        claim_defined(now, grant),
        grant.expires.nanos <= now.nanos,
    ensures
        claimable(now, grant) == grant.amount_remaining,
{
    let ns = NANOS_PER_SECOND as int;
    let life = lifespan_seconds(grant);
    let el = elapsed_seconds(now, grant);
    lemma_div_is_ordered(grant.expires.nanos - grant.started.nanos, now.nanos - grant.started.nanos, ns);
    assert(life * 1000 <= el * 1000) by (nonlinear_arith)
        requires
            life <= el,
    ;
    lemma_div_is_ordered(life * 1000, el * 1000, life);
    lemma_div_by_multiple(1000, life);
    assert(life * 1000 == 1000 * life) by (nonlinear_arith);
    assert(matured_permille(now, grant) == 1000);
    let a = grant.amount_approved as int;
    assert(a * (1000 * 1_000_000_000_000_000) == a * 1_000_000_000_000_000_000) by (nonlinear_arith);
    lemma_div_by_multiple(a, 1_000_000_000_000_000_000);
    assert(matured_amount(now, grant) == a);
}

/// What can be claimed of a grant only grows as time passes (absent claims).
pub proof fn lemma_claimable_grows_with_time(earlier: Timestamp, later: Timestamp, grant: Grant)
    requires
        claim_defined(earlier, grant),
        claim_defined(later, grant),
        earlier.nanos <= later.nanos,
    ensures
        claimable(earlier, grant) <= claimable(later, grant),
{
    let ns = NANOS_PER_SECOND as int;
    let life = lifespan_seconds(grant);
    let e1 = elapsed_seconds(earlier, grant);
    let e2 = elapsed_seconds(later, grant);
    lemma_div_is_ordered(earlier.nanos - grant.started.nanos, later.nanos - grant.started.nanos, ns);
    assert(e1 * 1000 <= e2 * 1000) by (nonlinear_arith)
        requires
            e1 <= e2,
    ;
    lemma_div_is_ordered(e1 * 1000, e2 * 1000, life);
    let p1 = matured_permille(earlier, grant);
    let p2 = matured_permille(later, grant);
    assert(p1 <= p2);
    let a = grant.amount_approved as int;
    assert(a * (p1 * 1_000_000_000_000_000) <= a * (p2 * 1_000_000_000_000_000)) by (nonlinear_arith)
        requires
            p1 <= p2,
            a >= 0,
    ;
    lemma_div_is_ordered(a * (p1 * 1_000_000_000_000_000), a * (p2 * 1_000_000_000_000_000), 1_000_000_000_000_000_000);
}

/// A claim takes everything vested so far: right after it, at the same
/// time, nothing more can be claimed.
pub proof fn lemma_claim_takes_all_vested(now: Timestamp, grant: Grant)
    requires
        claim_defined(now, grant),
    ensures
        ({
            let after = Grant { amount_remaining: (grant.amount_remaining - claimable(now, grant)) as u128, ..grant };
            &&& claim_defined(now, after)
            &&& claimable(now, after) == 0
        }),
{
    lemma_matured_at_most_approved(now, grant);
}

/// What has vested of a grant at `now` is its approved amount times the
/// share of its lifespan elapsed, counted in whole seconds and in per mille
/// (rounded down, at most 1000), divided by 1000 and rounded down.
pub proof fn lemma_vested_share(now: Timestamp, grant: Grant)
    requires
        grant.started.nanos <= now.nanos,
        lifespan_seconds(grant) > 0,
    ensures
        ({
            let elapsed = (now.nanos - grant.started.nanos) / 1_000_000_000;
            let lifespan = (grant.expires.nanos - grant.started.nanos) / 1_000_000_000;
            let share = if elapsed * 1000 / lifespan < 1000 { elapsed * 1000 / lifespan } else { 1000 };
            matured_amount(now, grant) == grant.amount_approved * share / 1000
        }),
{
    let p = matured_permille(now, grant);
    let a = grant.amount_approved as int;
    lemma_matured_at_most_approved(now, grant);
    assert(elapsed_seconds(now, grant) >= 0);
    assert(elapsed_seconds(now, grant) * 1000 / lifespan_seconds(grant) >= 0) by (nonlinear_arith)
        requires
            elapsed_seconds(now, grant) >= 0,
            lifespan_seconds(grant) > 0,
    ;
    assert(p >= 0);
    assert(a * p >= 0) by (nonlinear_arith)
        requires a >= 0, p >= 0;
    let x = (a * p) * 1_000_000_000_000_000;
    assert(a * (p * 1_000_000_000_000_000) == x) by (nonlinear_arith)
        requires x == (a * p) * 1_000_000_000_000_000;
    lemma_div_by_multiple(a * p, 1_000_000_000_000_000);
    vstd::arithmetic::div_mod::lemma_div_denominator(x, 1_000_000_000_000_000, 1000);
    assert(1_000_000_000_000_000int * 1000 == crate::math::DECIMAL_FRACTIONAL as int);
}

} // verus!
