//! Properties of the governance contract that span several requests.

use vstd::prelude::*;
use crate::shared::{SlotVoteResult, addr_in};
use crate::governance::contract::{conclude_refusal, concluded_proposal, unexpired, vote_recorded, vote_refusal, won_grant};
use crate::governance::error::ContractError;
use crate::governance::msg::{CoreSlot, PeriodInfoResponse};
use crate::governance::slots::{assign_slot, core_team_refusal, max_weight};
use crate::governance::msg::ProposalPeriod;
use crate::governance::period::{period_defined, period_info_spec};
use crate::governance::submit::{deposit_of, posted, submission_refusal, Submission};
use crate::identityservice::state::{IdType, Identity};
use crate::shared::Coin;
use crate::governance::state::{text_violation, is_safe_text_char, MIN_TITLE_LENGTH, MAX_TITLE_LENGTH, MIN_DESC_LENGTH, MAX_DESC_LENGTH};
use crate::math::Threshold;
use crate::shared::Voter;
use vstd::utf8::encode_utf8;
use crate::governance::state::{Config, CoreSlots, Funding, Proposal, ProposalStatus, VoteOption, WinningGrant};

verus! {

/// An address votes at most once on a proposal: once its vote has been
/// recorded, a second vote by the same address, under the same conditions
/// that admitted the first, is refused with `UserAlreadyVoted`.
pub proof fn lemma_vote_only_once(
    period: PeriodInfoResponse,
    before: Proposal,
    after: Proposal,
    voter: String,
    option: VoteOption,
    vote_coins: u128,
    now: u64,
    second_option_coins: u128,
)
    requires
        vote_refusal(period, before, voter@, now, vote_coins) is None,
        vote_recorded(before, after, voter, option, vote_coins),
    ensures
        vote_refusal(period, after, voter@, now, second_option_coins) == Some(ContractError::UserAlreadyVoted {}),
{
    match option {
        VoteOption::Yes => {
            let n = before.yes_voters@.len() as int;
            assert(after.yes_voters@[n] == voter);
            assert(addr_in(after.yes_voters@, voter@));
        },
        VoteOption::No => {
            let n = before.no_voters@.len() as int;
            assert(after.no_voters@[n] == voter);
            assert(addr_in(after.no_voters@, voter@));
        },
    }
}

/// A recorded vote adds the voter's coins to the chosen side only, appends
/// the voter to that side's voters, and changes nothing else.
pub proof fn lemma_vote_tally(before: Proposal, after: Proposal, voter: String, option: VoteOption, vote_coins: u128)
    requires
        vote_recorded(before, after, voter, option, vote_coins),
    ensures
        after.coins_yes + after.coins_no == before.coins_yes + before.coins_no + vote_coins,
        option == VoteOption::Yes ==> {
            &&& after.coins_yes == before.coins_yes + vote_coins
            &&& after.coins_no == before.coins_no
            &&& after.yes_voters@ == before.yes_voters@.push(voter)
            &&& after.no_voters@ == before.no_voters@
        },
        option == VoteOption::No ==> {
            &&& after.coins_no == before.coins_no + vote_coins
            &&& after.coins_yes == before.coins_yes
            &&& after.no_voters@ == before.no_voters@.push(voter)
            &&& after.yes_voters@ == before.yes_voters@
        },
        after.id == before.id && after.dao == before.dao && after.voting_end == before.voting_end
            && after.concluded_at_height == before.concluded_at_height && after.funding == before.funding,
{
}

/// A proposal is concluded at most once: once concluded, any later attempt
/// to conclude it is refused, with `ProposalAlreadyConcluded` after its voting
/// end; and no attempt succeeds before its voting end.
pub proof fn lemma_conclude_only_once(
    proposal: Proposal,
    height: u64,
    now: u64,
    supply: u128,
    percentage: u64,
    later_now: u64,
)
    requires
        conclude_refusal(proposal, now) is None,
    ensures
        later_now > proposal.voting_end ==> conclude_refusal(concluded_proposal(proposal, height, now, supply, percentage), later_now)
            == Some(ContractError::ProposalAlreadyConcluded {}),
        later_now <= proposal.voting_end ==> conclude_refusal(concluded_proposal(proposal, height, now, supply, percentage), later_now)
            == Some(ContractError::VotingPeriodNotEnded),
{
}

/// The status of a concluded proposal is final: whatever the supply, time
/// or required percentage at query time, it is reported as the status fixed
/// at conclusion, which is a concluded success or a concluded expiry.
pub proof fn lemma_concluded_status_is_final(
    proposal: Proposal,
    height: u64,
    now: u64,
    supply: u128,
    percentage: u64,
    query_supply: u128,
    query_now: u64,
    query_percentage: u64,
)
    requires
        conclude_refusal(proposal, now) is None,
    ensures
        ({
            let concluded = concluded_proposal(proposal, height, now, supply, percentage);
            let status = concluded.reported_status(query_supply, query_now, query_percentage);
            &&& status == proposal.status_at(supply, now, percentage, true)
            &&& (status == ProposalStatus::SuccessConcluded || status == ProposalStatus::ExpiredConcluded)
        }),
{
}

/// No DAO ever holds two core slots: a slot vote whose winning DAO would end
/// up holding at most one slot keeps every DAO at one slot at most, and so
/// does vacating a slot (by resignation or revocation).
pub proof fn lemma_slot_holders_stay_distinct(core_slots: CoreSlots, slot: CoreSlot, challenger: SlotVoteResult)
    requires
        core_slots.distinct_holders(),
    ensures
        assign_slot(core_slots, slot, challenger).0.count_held(challenger.dao@) <= 1
            ==> assign_slot(core_slots, slot, challenger).0.distinct_holders(),
        core_slots.with_holder(slot, None).distinct_holders(),
{
    let after = assign_slot(core_slots, slot, challenger).0;
    if after.count_held(challenger.dao@) <= 1 {
        assert forall|dao: Seq<char>| #[trigger] after.count_held(dao) <= 1 by {
            assert(core_slots.count_held(dao) <= 1);
        }
    }
    let vacated = core_slots.with_holder(slot, None);
    assert forall|dao: Seq<char>| #[trigger] vacated.count_held(dao) <= 1 by {
        assert(core_slots.count_held(dao) <= 1);
    }
}

/// Concluding keeps exactly the running grants: every grant kept at block
/// `height` was stored before and runs at least until then, every stored
/// grant still running is kept, and a grant won at `height` runs until
/// then too.
pub proof fn lemma_concluded_grants_are_running(
    grants: Seq<WinningGrant>,
    proposal: Proposal,
    funding: Funding,
    core_slots: CoreSlots,
    height: u64,
)
    requires
        height + funding.duration_in_blocks <= u64::MAX,
    ensures
        forall|i: int| 0 <= i < unexpired(grants, height).len()
            ==> (#[trigger] unexpired(grants, height)[i]).expire_at_height >= height
                && grants.contains(unexpired(grants, height)[i]),
        forall|i: int| 0 <= i < grants.len() && (#[trigger] grants[i]).expire_at_height >= height
            ==> unexpired(grants, height).contains(grants[i]),
        won_grant(proposal, funding, core_slots, height).expire_at_height >= height,
{
    let pred = |g: WinningGrant| g.expire_at_height >= height;
    grants.filter_lemma(pred);
    assert forall|i: int| 0 <= i < unexpired(grants, height).len()
        implies grants.contains(#[trigger] unexpired(grants, height)[i]) by {
        assert(grants.filter(pred).contains(grants.filter(pred)[i]));
        grants.lemma_filter_contains_rev(pred, grants.filter(pred)[i]);
    }
}

/// Once `set_concluded_status` has fixed a proposal's status at a second
/// `now` after its voting end, `query_status` reports that status whatever
/// the supply, time and percentage asked with, and it is a concluded success
/// or a concluded expiry; a proposal without a fixed status is reported with
/// its live status.
pub proof fn lemma_query_status_after_conclusion(
    proposal: Proposal,
    supply: u128,
    now: u64,
    percentage: u64,
    query_supply: u128,
    query_now: u64,
    query_percentage: u64,
)
    ensures
        now > proposal.voting_end ==> ({
            let fixed = proposal.status_at(supply, now, percentage, true);
            let concluded = Proposal { concluded_status: Some(fixed), ..proposal };
            &&& concluded.reported_status(query_supply, query_now, query_percentage) == fixed
            &&& (fixed == ProposalStatus::SuccessConcluded || fixed == ProposalStatus::ExpiredConcluded)
        }),
        proposal.concluded_status is None ==> proposal.reported_status(query_supply, query_now, query_percentage)
            == proposal.status_at(query_supply, query_now, query_percentage, false),
{
}

/// The grant a funded success wins is capped at 250 per mille exactly when
/// the proposal's DAO holds the core tech slot, at 125 per mille otherwise,
/// whoever holds the brand and creative slots.
pub proof fn lemma_won_grant_cap(
    proposal: Proposal,
    funding: Funding,
    core_slots: CoreSlots,
    height: u64,
    brand: Option<SlotVoteResult>,
    creative: Option<SlotVoteResult>,
)
    ensures
        (core_slots.core_tech matches Some(s) && s.dao@ == proposal.dao@)
            ==> won_grant(proposal, funding, core_slots, height).max_cap == 250,
        !(core_slots.core_tech matches Some(s) && s.dao@ == proposal.dao@)
            ==> won_grant(proposal, funding, core_slots, height).max_cap == 125,
        won_grant(proposal, funding, CoreSlots { brand, creative, ..core_slots }, height).max_cap
            == won_grant(proposal, funding, core_slots, height).max_cap,
        won_grant(proposal, funding, core_slots, height).dao == proposal.dao,
        won_grant(proposal, funding, core_slots, height).amount == funding.amount,
        won_grant(proposal, funding, core_slots, height).proposal_id == proposal.id,
        height + funding.duration_in_blocks <= u64::MAX
            ==> won_grant(proposal, funding, core_slots, height).expire_at_height == height + funding.duration_in_blocks,
{
}

/// The largest voter weight is at least every voter's weight and, for a
/// non-empty list, is one of them.
pub proof fn lemma_max_weight_is_largest(voters: Seq<Voter>)
    ensures
        forall|i: int| 0 <= i < voters.len() ==> (#[trigger] voters[i]).weight <= max_weight(voters),
        voters.len() > 0 ==> exists|i: int| 0 <= i < voters.len() && (#[trigger] voters[i]).weight == max_weight(voters),
    decreases voters.len(),
{
    if voters.len() > 0 {
        let front = voters.drop_last();
        lemma_max_weight_is_largest(front);
        assert forall|i: int| 0 <= i < voters.len() implies (#[trigger] voters[i]).weight <= max_weight(voters) by {
            if i < voters.len() - 1 {
                assert(voters[i] == front[i]);
            }
        }
        if voters.last().weight > max_weight(front) {
            assert(voters[voters.len() - 1].weight == max_weight(voters));
        } else if front.len() > 0 {
            let j = choose|j: int| 0 <= j < front.len() && (#[trigger] front[j]).weight == max_weight(front);
            assert(voters[j] == front[j]);
        } else {
            assert(voters[0].weight == max_weight(voters));
        }
    }
}

/// A threshold reached by a weight is reached by every larger weight.
pub proof fn lemma_threshold_reach_monotone(threshold: Threshold, smaller: u64, larger: u64)
    requires
        smaller <= larger,
        threshold.validation(smaller) is Ok,
    ensures
        threshold.validation(larger) is Ok,
{
}

/// The core team rules: a DAO passes them only with three to nine voters,
/// none of whom reaches the threshold alone; in particular a DAO with a
/// voter whose weight alone meets a non-zero absolute count is refused.
pub proof fn lemma_core_team_rules(voters: Seq<Voter>, threshold: Threshold)
    ensures
        core_team_refusal(voters, threshold) is None ==> {
            &&& 3 <= voters.len() <= 9
            &&& forall|i: int| 0 <= i < voters.len() ==> threshold.validation((#[trigger] voters[i]).weight) is Err
        },
        (voters.len() < 3 || voters.len() > 9) ==> core_team_refusal(voters, threshold)
            == Some(ContractError::WrongCoreTeamMemberCount { min: 3, max: 9 }),
        (threshold matches Threshold::AbsoluteCount { weight } && weight > 0
            && exists|i: int| 0 <= i < voters.len() && (#[trigger] voters[i]).weight >= weight)
            ==> core_team_refusal(voters, threshold) is Some,
{
    lemma_max_weight_is_largest(voters);
    if core_team_refusal(voters, threshold) is None {
        assert forall|i: int| 0 <= i < voters.len() implies threshold.validation((#[trigger] voters[i]).weight) is Err by {
            if threshold.validation(voters[i].weight) is Ok {
                lemma_threshold_reach_monotone(threshold, voters[i].weight, max_weight(voters));
            }
        }
    }
    if threshold matches Threshold::AbsoluteCount { weight } && weight > 0
        && exists|i: int| 0 <= i < voters.len() && (#[trigger] voters[i]).weight >= weight {
        let i = choose|i: int| 0 <= i < voters.len() && (#[trigger] voters[i]).weight >= threshold->weight;
        assert(threshold.validation(voters[i].weight) is Ok);
        if core_team_refusal(voters, threshold) is None {
            lemma_threshold_reach_monotone(threshold, voters[i].weight, max_weight(voters));
        }
    }
}

/// A vote is counted only during the voting period, on an unconcluded
/// proposal whose voting end has not passed, from an address that has not
/// voted on it, and with some bonded coins.
pub proof fn lemma_vote_accepted_only_in_time(
    period: PeriodInfoResponse,
    proposal: Proposal,
    sender: Seq<char>,
    now: u64,
    vote_coins: u128,
)
    ensures
        vote_refusal(period, proposal, sender, now, vote_coins) is None ==> {
            &&& period.current_period == ProposalPeriod::Voting
            &&& proposal.concluded_at_height is None
            &&& now <= proposal.voting_end
            &&& forall|i: int| 0 <= i < proposal.yes_voters@.len() ==> (#[trigger] proposal.yes_voters@[i])@ != sender
            &&& forall|i: int| 0 <= i < proposal.no_voters@.len() ==> (#[trigger] proposal.no_voters@[i])@ != sender
            &&& vote_coins > 0
        },
        (period.current_period == ProposalPeriod::Voting && proposal.concluded_at_height is None
            && proposal.voting_end < now) ==> vote_refusal(period, proposal, sender, now, vote_coins)
            == Some(ContractError::ProposalVotingEnded {}),
{
}

/// The characters allowed in proposal text are exactly the ASCII letters
/// and digits, ASCII whitespace and the symbols `!&?#()*+'-./"`.
pub proof fn lemma_safe_text_chars(c: char)
    ensures
        ('a' <= c <= 'z') ==> is_safe_text_char(c),
        ('A' <= c <= 'Z') ==> is_safe_text_char(c),
        ('0' <= c <= '9') ==> is_safe_text_char(c),
        (c == ' ' || c == '\t' || c == '\n' || c == '\x0C' || c == '\r') ==> is_safe_text_char(c),
        (c == '!' || c == '&' || c == '?' || c == '#' || c == '(' || c == ')' || c == '*'
            || c == '+' || c == '\'' || c == '-' || c == '.' || c == '/' || c == '"') ==> is_safe_text_char(c),
        is_safe_text_char(c) ==> (('a' <= c <= 'z') || ('A' <= c <= 'Z') || ('0' <= c <= '9')
            || c == ' ' || c == '\t' || c == '\n' || c == '\x0C' || c == '\r'
            || c == '!' || c == '&' || c == '?' || c == '#' || c == '(' || c == ')' || c == '*'
            || c == '+' || c == '\'' || c == '-' || c == '.' || c == '/' || c == '"'),
{
}

/// A title of 4 to 64 bytes and a description of 4 to 1024 bytes, made only
/// of ASCII letters, digits and whitespace and the symbols `!&?#()*+'-./"`,
/// break no text rule.
pub proof fn lemma_valid_text_accepted(title: Seq<char>, description: Seq<char>)
    requires
        MIN_TITLE_LENGTH <= encode_utf8(title).len() <= MAX_TITLE_LENGTH,
        MIN_DESC_LENGTH <= encode_utf8(description).len() <= MAX_DESC_LENGTH,
        forall|i: int| 0 <= i < title.len() ==> {
            let c = #[trigger] title[i];
            ('a' <= c <= 'z') || ('A' <= c <= 'Z') || ('0' <= c <= '9')
            || c == ' ' || c == '\t' || c == '\n' || c == '\x0C' || c == '\r'
            || c == '!' || c == '&' || c == '?' || c == '#' || c == '(' || c == ')' || c == '*'
            || c == '+' || c == '\'' || c == '-' || c == '.' || c == '/' || c == '"'
        },
        forall|i: int| 0 <= i < description.len() ==> {
            let c = #[trigger] description[i];
            ('a' <= c <= 'z') || ('A' <= c <= 'Z') || ('0' <= c <= '9')
            || c == ' ' || c == '\t' || c == '\n' || c == '\x0C' || c == '\r'
            || c == '!' || c == '&' || c == '?' || c == '#' || c == '(' || c == ')' || c == '*'
            || c == '+' || c == '\'' || c == '-' || c == '.' || c == '/' || c == '"'
        },
    ensures
        text_violation(title, description) is None,
{
    assert forall|i: int| 0 <= i < title.len() implies is_safe_text_char(#[trigger] title[i]) by {
        lemma_safe_text_chars(title[i]);
    }
    assert forall|i: int| 0 <= i < description.len() implies is_safe_text_char(#[trigger] description[i]) by {
        lemma_safe_text_chars(description[i]);
    }
}

/// A proposal that passes the posting checks and whose title (4 to 64
/// bytes) and description (4 to 1024 bytes) are made only of ASCII letters,
/// digits and whitespace and the symbols `!&?#()*+'-./"` is posted, burning
/// the deposit.
pub proof fn lemma_valid_text_is_posted(
    r: Result<Submission, ContractError>,
    title: Seq<char>,
    description: Seq<char>,
    deposit: u128,
    expected: spec_fn(Proposal) -> bool,
)
    requires
        posted(r, None, title, description, deposit, expected),
        MIN_TITLE_LENGTH <= encode_utf8(title).len() <= MAX_TITLE_LENGTH,
        MIN_DESC_LENGTH <= encode_utf8(description).len() <= MAX_DESC_LENGTH,
        forall|i: int| 0 <= i < title.len() ==> {
            let c = #[trigger] title[i];
            ('a' <= c <= 'z') || ('A' <= c <= 'Z') || ('0' <= c <= '9')
            || c == ' ' || c == '\t' || c == '\n' || c == '\x0C' || c == '\r'
            || c == '!' || c == '&' || c == '?' || c == '#' || c == '(' || c == ')' || c == '*'
            || c == '+' || c == '\'' || c == '-' || c == '.' || c == '/' || c == '"'
        },
        forall|i: int| 0 <= i < description.len() ==> {
            let c = #[trigger] description[i];
            ('a' <= c <= 'z') || ('A' <= c <= 'Z') || ('0' <= c <= '9')
            || c == ' ' || c == '\t' || c == '\n' || c == '\x0C' || c == '\r'
            || c == '!' || c == '&' || c == '?' || c == '#' || c == '(' || c == ')' || c == '*'
            || c == '+' || c == '\'' || c == '-' || c == '.' || c == '/' || c == '"'
        },
    ensures
        r matches Ok(s) && s.burn_amount == deposit && expected(s.proposal),
{
    lemma_valid_text_accepted(title, description);
}

/// Only a DAO may post, only during the posting period, and only with a
/// `ujmes` deposit of at least the required amount: the posting checks pass
/// exactly then (a DAO posting in the posting period sends some `ujmes`).
pub proof fn lemma_posting_checks(identity: Option<Identity>, period: PeriodInfoResponse, funds: Seq<Coin>, required: u128)
    requires
        (identity matches Some(i) && i.id_type == IdType::Dao) && period.current_period == ProposalPeriod::Posting
            ==> deposit_of(funds) is Some,
    ensures
        submission_refusal(identity, period, funds, required) is None <==> {
            &&& identity matches Some(i) && i.id_type == IdType::Dao
            &&& period.current_period == ProposalPeriod::Posting
            &&& deposit_of(funds) matches Some(d) && d >= required
        },
{
}

proof fn lemma_floor_div_reaches(a: int, b: int, c: int)
    requires
        b > 0,
    ensures
        (a / b >= c) <==> (a >= c * b),
{
    vstd::arithmetic::div_mod::lemma_fundamental_div_mod(a, b);
    let q = a / b;
    let r = a % b;
    assert(0 <= r < b);
    assert(a == b * q + r);
    if q >= c {
        assert(a >= c * b) by (nonlinear_arith)
            requires q >= c, b > 0, a == b * q + r, r >= 0;
    } else {
        assert(a < c * b) by (nonlinear_arith)
            requires q <= c - 1, b > 0, a == b * q + r, r < b;
    }
}

/// A proposal past its voting end succeeds exactly when its net yes coins
/// (yes less no, or none when no outweighs yes) make at least `percentage`
/// percent of the voting total: `100 * net >= percentage * total`. With a
/// voting total of zero it succeeds only when no percentage is required.
pub proof fn lemma_success_is_net_yes_share(proposal: Proposal, supply: u128, now: u64, percentage: u64, is_concluded: bool)
    requires
        now > proposal.voting_end,
        proposal.coins_total(supply) >= 0,
    ensures
        ({
            let status = proposal.status_at(supply, now, percentage, is_concluded);
            let total = proposal.coins_total(supply);
            let net = if proposal.coins_yes >= proposal.coins_no { proposal.coins_yes - proposal.coins_no } else { 0 };
            &&& total > 0 ==> ((status == ProposalStatus::SuccessConcluded || status == ProposalStatus::Success)
                <==> 100 * net >= percentage * total)
            &&& total == 0 ==> ((status == ProposalStatus::SuccessConcluded || status == ProposalStatus::Success)
                <==> percentage == 0)
            &&& is_concluded ==> (status == ProposalStatus::SuccessConcluded || status == ProposalStatus::ExpiredConcluded)
            &&& !is_concluded ==> (status == ProposalStatus::Success || status == ProposalStatus::Expired)
        }),
{
    let total = proposal.coins_total(supply);
    let net: int = if proposal.coins_yes >= proposal.coins_no { proposal.coins_yes - proposal.coins_no } else { 0 };
    let d = crate::math::DECIMAL_FRACTIONAL as int;
    let p = percentage as int;
    assert(p * d / 100 == p * 10_000_000_000_000_000) by {
        assert(p * d == (p * 10_000_000_000_000_000) * 100) by (nonlinear_arith)
            requires d == 1_000_000_000_000_000_000;
        vstd::arithmetic::div_mod::lemma_div_by_multiple(p * 10_000_000_000_000_000, 100);
    }
    if total > 0 {
        lemma_floor_div_reaches(net * d, total, p * 10_000_000_000_000_000);
        assert((net * d >= (p * 10_000_000_000_000_000) * total) <==> (100 * net >= p * total)) by (nonlinear_arith)
            requires d == 1_000_000_000_000_000_000;
    } else {
        assert(0 >= p * 10_000_000_000_000_000 <==> p == 0) by (nonlinear_arith)
            requires p >= 0;
    }
}

/// A slot vote only ever changes the contested slot. A vacant slot goes to
/// the challenger; a held one goes to the challenger exactly when its vote
/// ended later than the holder's, or at the same second with a strictly
/// larger yes ratio, and otherwise stays with the holder.
pub proof fn lemma_slot_goes_to_later_or_stronger_vote(core_slots: CoreSlots, slot: CoreSlot, challenger: SlotVoteResult)
    ensures
        forall|other: CoreSlot| other != slot
            ==> (#[trigger] assign_slot(core_slots, slot, challenger).0.holder(other)) == core_slots.holder(other),
        core_slots.holder(slot) is None ==> assign_slot(core_slots, slot, challenger).0.holder(slot) == Some(challenger),
        core_slots.holder(slot) matches Some(current) ==> assign_slot(core_slots, slot, challenger).0.holder(slot)
            == if challenger.proposal_voting_end > current.proposal_voting_end
                || (challenger.proposal_voting_end == current.proposal_voting_end
                    && challenger.yes_ratio.atomics > current.yes_ratio.atomics) {
                Some(challenger)
            } else {
                Some(current)
            },
{
}

/// Time is cut into cycles starting at the period start epoch: the current
/// cycle starts at a whole number of cycles after the epoch and contains
/// `now`; its posting period runs for the posting length and is followed by
/// the voting period; `now` is in the voting period exactly when it is past
/// the voting start.
pub proof fn lemma_period_layout(config: Config, now: u64, height: u64)
    requires
        period_defined(config, now),
    ensures
        ({
            let info = period_info_spec(config, now, height);
            let cycle = config.posting_period_length + config.voting_period_length;
            &&& info.current_posting_start <= now < info.current_posting_start + cycle
            &&& info.current_posting_start >= config.period_start_epoch
            &&& (info.current_posting_start - config.period_start_epoch) % cycle == 0
            &&& info.current_voting_start == info.current_posting_start + config.posting_period_length
            &&& info.current_voting_end == info.current_voting_start + config.voting_period_length
            &&& info.next_posting_start == info.current_posting_start + cycle
            &&& info.next_voting_start == info.current_voting_start + cycle
            &&& info.current_time_in_cycle == now - info.current_posting_start
            &&& (info.current_period == ProposalPeriod::Voting <==> now > info.current_voting_start)
            &&& info.current_block == height
        }),
{
    let cycle = config.posting_period_length + config.voting_period_length;
    let delta = now - config.period_start_epoch;
    vstd::arithmetic::div_mod::lemma_fundamental_div_mod(delta, cycle);
    vstd::arithmetic::div_mod::lemma_mod_bound(delta, cycle);
    let q = delta / cycle;
    assert(delta - delta % cycle == cycle * q);
    vstd::arithmetic::div_mod::lemma_mod_multiples_basic(q, cycle);
    assert(q * cycle == cycle * q) by (nonlinear_arith);
}

} // verus!
