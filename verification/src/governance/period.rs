//! The posting and voting periods of the governance cycle.
//!
//! Time since `period_start_epoch` is cut into cycles of a posting period
//! followed by a voting period; proposals are posted in the first and voted
//! on in the second.

use vstd::prelude::*;
use vstd::arithmetic::div_mod::{lemma_fundamental_div_mod, lemma_mod_decreases, lemma_mod_multiples_basic};
use crate::governance::msg::{PeriodInfoResponse, ProposalPeriod};
use crate::governance::state::Config;

verus! {

/// Length of a full cycle in seconds.
pub open spec fn cycle_length(config: Config) -> int {
    config.posting_period_length + config.voting_period_length
}

/// Seconds elapsed since the current cycle began.
pub open spec fn time_in_cycle(config: Config, now: u64) -> int {
    (now - config.period_start_epoch) % cycle_length(config)
}

/// Second at which the current cycle's posting period began.
pub open spec fn posting_start(config: Config, now: u64) -> int {
    now - time_in_cycle(config, now)
}

/// Whether the period can be computed at second `now`: the epoch has begun,
/// the cycle is non-empty and fits `u64`, and so do all period bounds up to
/// the next voting start.
pub open spec fn period_defined(config: Config, now: u64) -> bool {
    &&& now >= config.period_start_epoch
    &&& 0 < cycle_length(config) <= u64::MAX
    &&& posting_start(config, now) + config.posting_period_length + cycle_length(config) <= u64::MAX
}

/// The period information at second `now` of block `height`.
pub open spec fn period_info_spec(config: Config, now: u64, height: u64) -> PeriodInfoResponse {
    let tic = time_in_cycle(config, now);
    let start = posting_start(config, now);
    let p = config.posting_period_length as int;
    let cycle = cycle_length(config);
    PeriodInfoResponse {
        current_block: height,
        current_period: if tic > p { ProposalPeriod::Voting } else { ProposalPeriod::Posting },
        current_time_in_cycle: tic as u64,
        current_posting_start: start as u64,
        current_voting_start: (start + p) as u64,
        current_voting_end: (start + p + config.voting_period_length) as u64,
        next_posting_start: (start + cycle) as u64,
        next_voting_start: (start + p + cycle) as u64,
        posting_period_length: config.posting_period_length,
        voting_period_length: config.voting_period_length,
        cycle_length: cycle as u64,
    }
}

/// Where second `now` of block `height` stands in the governance cycle.
pub fn period_info(config: &Config, now: u64, height: u64) -> (info: PeriodInfoResponse)
    requires
        period_defined(*config, now),
    ensures
        info == period_info_spec(*config, now, height),
{
    let time_delta: u64 = now - config.period_start_epoch;
    let full_cycle: u64 = config.posting_period_length + config.voting_period_length;
    let time_in_cycle: u64 = time_delta % full_cycle;
    proof {
        lemma_mod_decreases(time_delta as nat, full_cycle as nat);
    }
    let current_period: ProposalPeriod = if time_in_cycle > config.posting_period_length {
        ProposalPeriod::Voting
    } else {
        ProposalPeriod::Posting
    };
    let current_posting_start: u64 = now - time_in_cycle;
    let current_voting_start: u64 = current_posting_start + config.posting_period_length;
    let current_voting_end: u64 = current_voting_start + config.voting_period_length;
    let next_posting_start: u64 = current_posting_start + full_cycle;
    let next_voting_start: u64 = current_voting_start + full_cycle;
    PeriodInfoResponse {
        current_block: height,
        current_period,
        current_time_in_cycle: time_in_cycle,
        current_posting_start,
        current_voting_start,
        current_voting_end,
        next_posting_start,
        next_voting_start,
        posting_period_length: config.posting_period_length,
        voting_period_length: config.voting_period_length,
        cycle_length: config.posting_period_length + config.voting_period_length,
    }
}

/// Whether the period can be computed at second `now` (see `period_defined`).
pub fn period_computable(config: &Config, now: u64) -> (b: bool)
    ensures
        b == period_defined(*config, now),
{
    if now < config.period_start_epoch {
        return false;
    }
    let cycle: u64 = match config.posting_period_length.checked_add(config.voting_period_length) {
        Some(c) => c,
        None => {
            return false;
        },
    };
    if cycle == 0 {
        return false;
    }
    let time_delta: u64 = now - config.period_start_epoch;
    let in_cycle: u64 = time_delta % cycle;
    proof {
        lemma_mod_decreases(time_delta as nat, cycle as nat);
    }
    let start: u64 = now - in_cycle;
    match start.checked_add(config.posting_period_length) {
        Some(v) => v.checked_add(cycle).is_some(),
        None => false,
    }
}

/// The current cycle contains `now`: it began at or before `now`, a whole
/// number of cycles after the epoch, and the next one begins after `now`;
/// within it the voting period directly follows the posting period and ends
/// where the next cycle begins, and the current period is the voting period
/// exactly when `now` lies after the voting start.
pub proof fn lemma_period_contains_now(config: Config, now: u64, height: u64)
    requires
        period_defined(config, now),
    ensures
        ({
            let info = period_info_spec(config, now, height);
            &&& info.current_posting_start <= now < info.next_posting_start
            &&& (info.current_posting_start - config.period_start_epoch) % cycle_length(config) == 0
            &&& info.current_voting_start == info.current_posting_start + config.posting_period_length
            &&& info.current_voting_end == info.next_posting_start
            &&& info.next_posting_start == info.current_posting_start + info.cycle_length
            &&& (info.current_period == ProposalPeriod::Voting <==> now > info.current_voting_start)
        }),
{
    let cycle = cycle_length(config);
    let delta = now - config.period_start_epoch;
    lemma_fundamental_div_mod(delta, cycle);
    lemma_mod_multiples_basic(delta / cycle, cycle);
    assert(delta / cycle * cycle == cycle * (delta / cycle)) by (nonlinear_arith);
    assert(posting_start(config, now) - config.period_start_epoch == cycle * (delta / cycle));
}

} // verus!
