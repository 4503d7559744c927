//! Execution of governance requests: each handler takes the stored values it
//! reads and the facts other contracts report, and returns what is stored
//! and sent back.

use vstd::prelude::*;
use crate::math::{Decimal, ratio_atomics};
use crate::shared::{StdError, addr_in, contains_addr, is_holder};
use crate::governance::error::ContractError;
use crate::governance::msg::{PeriodInfoResponse, ProposalPeriod};
use crate::governance::state::{Config, CoreSlots, Funding, Proposal, ProposalStatus, VoteOption, WinningGrant};

verus! {

broadcast use vstd::string::group_string_axioms;

/// Why a vote is refused, if it is: outside the voting period, on a
/// concluded proposal, after the proposal's voting end, a second vote by the
/// same address, or a voter without bonded coins.
pub open spec fn vote_refusal(
    period: PeriodInfoResponse,
    proposal: Proposal,
    sender: Seq<char>,
    now: u64,
    vote_coins: u128,
) -> Option<ContractError> {
    if period.current_period != ProposalPeriod::Voting {
        Some(ContractError::NotVotingPeriod {})
    } else if proposal.concluded_at_height is Some {
        Some(ContractError::ProposalAlreadyConcluded {})
    } else if proposal.voting_end < now {
        Some(ContractError::ProposalVotingEnded {})
    } else if addr_in(proposal.yes_voters@, sender) || addr_in(proposal.no_voters@, sender) {
        Some(ContractError::UserAlreadyVoted {})
    } else if vote_coins == 0 {
        Some(ContractError::NoVoteCoins { min_vote_coins: 1 })
    } else {
        None
    }
}

/// Whether adding `vote_coins` to the chosen side overflows.
pub open spec fn vote_overflows(proposal: Proposal, vote: VoteOption, vote_coins: u128) -> bool {
    match vote {
        VoteOption::Yes => proposal.coins_yes + vote_coins > u128::MAX,
        VoteOption::No => proposal.coins_no + vote_coins > u128::MAX,
    }
}

/// `after` is `before` with `voter`'s vote of `vote_coins` added to the
/// chosen side and the voter appended to that side's voters.
pub open spec fn vote_recorded(before: Proposal, after: Proposal, voter: String, vote: VoteOption, vote_coins: u128) -> bool {
    match vote {
        VoteOption::Yes => {
            &&& after.coins_yes == before.coins_yes + vote_coins
            &&& after.yes_voters@ == before.yes_voters@.push(voter)
            &&& after == (Proposal { coins_yes: after.coins_yes, yes_voters: after.yes_voters, ..before })
        },
        VoteOption::No => {
            &&& after.coins_no == before.coins_no + vote_coins
            &&& after.no_voters@ == before.no_voters@.push(voter)
            &&& after == (Proposal { coins_no: after.coins_no, no_voters: after.no_voters, ..before })
        },
    }
}

/// Records `sender`'s vote on `proposal`, weighted by the `vote_coins` (bonded
/// coins) the sender holds, at second `now`.
pub fn vote(
    period: &PeriodInfoResponse,
    proposal: Proposal,
    sender: String,
    now: u64,
    vote_coins: u128,
    option: VoteOption,
) -> (r: Result<Proposal, ContractError>)
    ensures
        match r {
            Ok(after) => {
                &&& vote_refusal(*period, proposal, sender@, now, vote_coins) is None
                &&& !vote_overflows(proposal, option, vote_coins)
                &&& vote_recorded(proposal, after, sender, option, vote_coins)
            },
            Err(e) => match vote_refusal(*period, proposal, sender@, now, vote_coins) {
                Some(refusal) => e == refusal,
                None => vote_overflows(proposal, option, vote_coins) && e == ContractError::StdError(StdError::Overflow {}),
            },
        },
        r is Ok ==> {
            &&& period.current_period == ProposalPeriod::Voting
            &&& proposal.concluded_at_height is None
            &&& now <= proposal.voting_end
            &&& vote_coins > 0
        },
        (period.current_period == ProposalPeriod::Voting && proposal.concluded_at_height is None
            && proposal.voting_end < now) ==> r == Err::<Proposal, ContractError>(ContractError::ProposalVotingEnded {}),
{
    if period.current_period != ProposalPeriod::Voting {
        return Err(ContractError::NotVotingPeriod {});
    }
    if proposal.concluded_at_height.is_some() {
        return Err(ContractError::ProposalAlreadyConcluded {});
    }
    if proposal.voting_end < now {
        return Err(ContractError::ProposalVotingEnded {});
    }
    if contains_addr(&proposal.yes_voters, &sender) || contains_addr(&proposal.no_voters, &sender) {
        return Err(ContractError::UserAlreadyVoted {});
    }
    if vote_coins == 0 {
        return Err(ContractError::NoVoteCoins { min_vote_coins: 1 });
    }
    let mut proposal = proposal;
    match option {
        VoteOption::Yes => {
            match proposal.coins_yes.checked_add(vote_coins) {
                Some(total) => {
                    proposal.coins_yes = total;
                },
                None => {
                    return Err(ContractError::StdError(StdError::Overflow {}));
                },
            }
            proposal.yes_voters.push(sender);
        },
        VoteOption::No => {
            match proposal.coins_no.checked_add(vote_coins) {
                Some(total) => {
                    proposal.coins_no = total;
                },
                None => {
                    return Err(ContractError::StdError(StdError::Overflow {}));
                },
            }
            proposal.no_voters.push(sender);
        },
    }
    Ok(proposal)
}


/// The grants still running at block `height`.
pub open spec fn unexpired(grants: Seq<WinningGrant>, height: u64) -> Seq<WinningGrant> {
    grants.filter(|g: WinningGrant| g.expire_at_height >= height)
}

/// The grants not won by proposal `proposal_id`.
pub open spec fn without_proposal(grants: Seq<WinningGrant>, proposal_id: u64) -> Seq<WinningGrant> {
    grants.filter(|g: WinningGrant| g.proposal_id != proposal_id)
}

pub proof fn lemma_filter_push<A>(s: Seq<A>, pred: spec_fn(A) -> bool, e: A)
    ensures
        pred(e) ==> s.push(e).filter(pred) == s.filter(pred).push(e),
        !pred(e) ==> s.push(e).filter(pred) == s.filter(pred),
{
    reveal(Seq::filter);
    assert(s.push(e).drop_last() == s);
}

/// Keeps the grants still running at block `height`, in order.
pub fn retain_unexpired(grants: Vec<WinningGrant>, height: u64) -> (kept: Vec<WinningGrant>)
    ensures
        kept@ == unexpired(grants@, height),
{
    let ghost pred = |g: WinningGrant| g.expire_at_height >= height;
    let ghost all = grants@;
    let mut kept: Vec<WinningGrant> = Vec::new();
    for g in it: grants.into_iter()
        invariant
            it.seq() == all,
            pred == (|g: WinningGrant| g.expire_at_height >= height),
            kept@ == all.take(it.index() as int).filter(pred),
    {
        let ghost i = it.index() as int;
        proof {
            lemma_filter_push(all.take(i), pred, g);
            assert(all.take(i).push(g) =~= all.take(i + 1));
            assert(g == all[i]);
        }
        if g.expire_at_height >= height {
            kept.push(g);
        }
        assert(kept@ == all.take(i + 1).filter(pred));
    }
    proof {
        assert(all.take(all.len() as int) == all);
    }
    kept
}

/// Drops the grants won by proposal `proposal_id`, keeping the others in order.
pub fn retain_other_proposals(grants: Vec<WinningGrant>, proposal_id: u64) -> (kept: Vec<WinningGrant>)
    ensures
        kept@ == without_proposal(grants@, proposal_id),
{
    let ghost pred = |g: WinningGrant| g.proposal_id != proposal_id;
    let ghost all = grants@;
    let mut kept: Vec<WinningGrant> = Vec::new();
    for g in it: grants.into_iter()
        invariant
            it.seq() == all,
            pred == (|g: WinningGrant| g.proposal_id != proposal_id),
            kept@ == all.take(it.index() as int).filter(pred),
    {
        let ghost i = it.index() as int;
        proof {
            lemma_filter_push(all.take(i), pred, g);
            assert(all.take(i).push(g) =~= all.take(i + 1));
            assert(g == all[i]);
        }
        if g.proposal_id != proposal_id {
            kept.push(g);
        }
        assert(kept@ == all.take(i + 1).filter(pred));
    }
    proof {
        assert(all.take(all.len() as int) == all);
    }
    kept
}


/// What concluding a proposal stores and triggers.
#[derive(Clone, Debug, PartialEq, Eq)]
pub struct Conclusion {
    /// The proposal with its conclusion recorded.
    pub proposal: Proposal,
    /// The grants to store: the unexpired ones, plus the grant the proposal won.
    pub winning_grants: Vec<WinningGrant>,
    /// Whether the proposal's messages are to be executed.
    pub execute_msgs: bool,
}

/// Share of the funding pool a grant may take, in per mille: twice as much
/// for the DAO holding the core tech slot.
pub open spec fn funding_cap(core_slots: CoreSlots, dao: Seq<char>) -> u64 {
    if core_slots.core_tech matches Some(s) && s.dao@ == dao { 250 } else { 125 }
}

/// The grant a successful funded proposal wins when concluded at `height`.
pub open spec fn won_grant(proposal: Proposal, funding: Funding, core_slots: CoreSlots, height: u64) -> WinningGrant {
    WinningGrant {
        dao: proposal.dao,
        amount: funding.amount,
        expire_at_height: (height + funding.duration_in_blocks) as u64,
        yes_ratio: Decimal {
            atomics: ratio_atomics(proposal.coins_yes as int, proposal.coins_yes + proposal.coins_no) as u128,
        },
        proposal_id: proposal.id,
        max_cap: funding_cap(core_slots, proposal.dao@),
    }
}

/// Whether concluding can proceed without leaving the integer ranges: the
/// voting total and status are defined, and a won grant's expiry height and
/// yes ratio are representable.
pub open spec fn conclude_defined(proposal: Proposal, height: u64, now: u64, supply: u128, percentage: u64) -> bool {
    (now > proposal.voting_end && proposal.concluded_at_height is None) ==> {
        &&& proposal.status_defined(supply, now)
        &&& (proposal.status_at(supply, now, percentage, true) == ProposalStatus::SuccessConcluded
            && proposal.funding is Some) ==> {
            &&& height + proposal.funding->0.duration_in_blocks <= u64::MAX
            &&& 0 < proposal.coins_yes + proposal.coins_no <= u128::MAX
        }
    }
}

/// Whether concluding can proceed at block `height`, second `now` (see
/// `conclude_defined`).
pub fn conclude_computable(proposal: &Proposal, height: u64, now: u64, supply: u128, percentage: u64) -> (b: bool)
    ensures
        b == conclude_defined(*proposal, height, now, supply, percentage),
{
    if !(now > proposal.voting_end && proposal.concluded_at_height.is_none()) {
        return true;
    }
    if !proposal.status_computable(supply, now) {
        return false;
    }
    let status = proposal.current_status(supply, now, percentage, true);
    match proposal.funding {
        Some(f) => {
            if status != ProposalStatus::SuccessConcluded {
                return true;
            }
            height.checked_add(f.duration_in_blocks).is_some() && match proposal.coins_yes.checked_add(proposal.coins_no) {
                Some(total) => total > 0,
                None => false,
            }
        },
        None => true,
    }
}

pub proof fn lemma_share_at_most_one(part: u128, total: u128)
    requires
        0 < total,
        part <= total,
    ensures
        ratio_atomics(part as int, total as int) <= crate::math::DECIMAL_FRACTIONAL,
{
    let df = crate::math::DECIMAL_FRACTIONAL as int;
    assert(part * df <= total * df) by (nonlinear_arith)
        requires
            part <= total,
            df >= 0,
    ;
    vstd::arithmetic::div_mod::lemma_div_is_ordered(part * df, total * df, total as int);
    vstd::arithmetic::div_mod::lemma_div_by_multiple(df, total as int);
    assert(total * df == df * total) by (nonlinear_arith);
}

/// Why concluding at second `now` is refused: the voting period has not
/// ended, or the proposal is already concluded.
pub open spec fn conclude_refusal(proposal: Proposal, now: u64) -> Option<ContractError> {
    if now <= proposal.voting_end {
        Some(ContractError::VotingPeriodNotEnded)
    } else if proposal.concluded_at_height is Some {
        Some(ContractError::ProposalAlreadyConcluded {})
    } else {
        None
    }
}

/// `proposal` concluded at block `height`, second `now`: the conclusion
/// height, the voting total taken from `supply`, and the concluded status
/// are recorded.
pub open spec fn concluded_proposal(proposal: Proposal, height: u64, now: u64, supply: u128, percentage: u64) -> Proposal {
    Proposal {
        concluded_at_height: Some(height),
        concluded_coins_total: Some(proposal.coins_total(supply) as u128),
        concluded_status: Some(proposal.status_at(supply, now, percentage, true)),
        ..proposal
    }
}

/// Concludes `proposal` at block `height`, second `now`: after its voting end,
/// and only once. The voting total is snapshotted from the bonded `supply`,
/// the concluded status fixed, expired grants dropped, and on success the
/// funding the proposal asked for becomes a winning grant and its messages
/// are to be executed.
pub fn conclude(
    proposal: Proposal,
    config: &Config,
    core_slots: &CoreSlots,
    winning_grants: Vec<WinningGrant>,
    height: u64,
    now: u64,
    supply: u128,
) -> (r: Result<Conclusion, ContractError>)
    requires
        conclude_defined(proposal, height, now, supply, config.proposal_required_percentage),
    ensures
        match conclude_refusal(proposal, now) {
            Some(e) => r == Err::<Conclusion, ContractError>(e),
            None => r matches Ok(c) && {
                let concluded = concluded_proposal(proposal, height, now, supply, config.proposal_required_percentage);
                let success = concluded.concluded_status == Some(ProposalStatus::SuccessConcluded);
                &&& c.proposal == concluded
                &&& c.execute_msgs == success
                &&& c.winning_grants@ == if success && proposal.funding is Some {
                    unexpired(winning_grants@, height).push(won_grant(proposal, proposal.funding->0, *core_slots, height))
                } else {
                    unexpired(winning_grants@, height)
                }
            },
        },
        r matches Ok(c) ==> (c.proposal.concluded_status == Some(ProposalStatus::SuccessConcluded)
            && proposal.funding is Some ==> {
            &&& c.winning_grants@.len() > 0
            &&& c.winning_grants@.last().dao == proposal.dao
            &&& c.winning_grants@.last().proposal_id == proposal.id
            &&& c.winning_grants@.last().amount == proposal.funding->0.amount
            &&& c.winning_grants@.last().max_cap
                == if core_slots.core_tech matches Some(s) && s.dao@ == proposal.dao@ { 250u64 } else { 125u64 }
        }),
{
    if now <= proposal.voting_end {
        return Err(ContractError::VotingPeriodNotEnded);
    }
    if proposal.concluded_at_height.is_some() {
        return Err(ContractError::ProposalAlreadyConcluded {});
    }
    let ghost before = proposal;
    let mut proposal = proposal;
    proposal.concluded_at_height = Some(height);
    proposal.update_coins_total(supply);
    proposal.set_concluded_status(supply, now, config.proposal_required_percentage);
    let mut winning_grants = retain_unexpired(winning_grants, height);
    let success: bool = match proposal.concluded_status {
        Some(ProposalStatus::SuccessConcluded) => true,
        _ => false,
    };
    if success {
        let max_cap: u64 = if is_holder(&core_slots.core_tech, &proposal.dao) { 250 } else { 125 };
        match proposal.funding {
            Some(funding) => {
                let total: u128 = proposal.coins_yes + proposal.coins_no;
                proof {
                    lemma_share_at_most_one(proposal.coins_yes, total);
                }
                winning_grants.push(WinningGrant {
                    dao: proposal.dao.clone(),
                    amount: funding.amount,
                    expire_at_height: height + funding.duration_in_blocks,
                    yes_ratio: Decimal::from_ratio(proposal.coins_yes, total),
                    proposal_id: proposal.id,
                    max_cap,
                });
            },
            None => {},
        }
    }
    Ok(Conclusion { proposal, winning_grants, execute_msgs: success })
}


/// The state a freshly set up contract stores.
#[derive(Clone, Debug, PartialEq, Eq)]
pub struct InitialState {
    pub config: Config,
    pub core_slots: CoreSlots,
    pub winning_grants: Vec<WinningGrant>,
    pub proposal_count: u64,
}

/// Sets up the contract from `msg`; `msg.owner` may link the other contracts
/// once. No slot is held, no grant won and no proposal posted.
pub fn instantiate(msg: crate::governance::msg::InstantiateMsg) -> (s: InitialState)
    ensures
        s.config == (Config {
            owner: Some(msg.owner),
            art_dealer_addr: None,
            identityservice_addr: None,
            proposal_required_deposit: msg.proposal_required_deposit,
            proposal_required_percentage: msg.proposal_required_percentage,
            period_start_epoch: msg.period_start_epoch,
            posting_period_length: msg.posting_period_length,
            voting_period_length: msg.voting_period_length,
        }),
        s.core_slots == (CoreSlots { brand: None, creative: None, core_tech: None }),
        s.winning_grants@.len() == 0,
        s.proposal_count == 0,
{
    InitialState {
        config: Config {
            owner: Some(msg.owner),
            art_dealer_addr: None,
            identityservice_addr: None,
            proposal_required_deposit: msg.proposal_required_deposit,
            proposal_required_percentage: msg.proposal_required_percentage,
            period_start_epoch: msg.period_start_epoch,
            posting_period_length: msg.posting_period_length,
            voting_period_length: msg.voting_period_length,
        },
        core_slots: CoreSlots { brand: None, creative: None, core_tech: None },
        winning_grants: Vec::new(),
        proposal_count: 0,
    }
}

/// Links the art dealer and identity service contracts. Only the owner may,
/// and only once: the owner is cleared.
pub fn set_contract(config: Config, sender: &String, art_dealer: String, identityservice: String) -> (r: Result<Config, ContractError>)
    ensures
        !(config.owner matches Some(o) && o@ == sender@) ==> r == Err::<Config, ContractError>(ContractError::Unauthorized {}),
        (config.owner matches Some(o) && o@ == sender@) ==> r == Ok::<Config, ContractError>(Config {
            owner: None,
            art_dealer_addr: Some(art_dealer),
            identityservice_addr: Some(identityservice),
            ..config
        }),
{
    let authorized: bool = match &config.owner {
        Some(owner) => *owner == *sender,
        None => false,
    };
    if !authorized {
        return Err(ContractError::Unauthorized {});
    }
    let mut config = config;
    config.art_dealer_addr = Some(art_dealer);
    config.identityservice_addr = Some(identityservice);
    config.owner = None;
    Ok(config)
}

} // verus!
