//! Answers to governance queries.

use vstd::prelude::*;
use crate::shared::{GovernanceCoreSlotsResponse, ProposalQueryStatus, SlotVoteResult};
use crate::governance::contract::lemma_filter_push;
use crate::governance::msg::ProposalResponse;
use crate::governance::state::{CoreSlots, Proposal, ProposalStatus, index_class, status_class};

verus! {

/// The holder `slot`, unless its funding ended before block `height`.
pub open spec fn active_holder(slot: Option<SlotVoteResult>, height: u64) -> Option<SlotVoteResult> {
    match slot {
        Some(s) => if s.proposal_funding_end >= height { Some(s) } else { None },
        None => None,
    }
}

fn keep_active(slot: Option<SlotVoteResult>, height: u64) -> (r: Option<SlotVoteResult>)
    ensures
        r == active_holder(slot, height),
{
    match slot {
        Some(s) => {
            if s.proposal_funding_end >= height {
                Some(s)
            } else {
                None
            }
        },
        None => None,
    }
}

/// The core slots as of block `height`: a slot whose holder's funding has
/// ended counts as vacant.
pub fn core_slots(slots: CoreSlots, height: u64) -> (r: GovernanceCoreSlotsResponse)
    ensures
        r.brand == active_holder(slots.brand, height),
        r.creative == active_holder(slots.creative, height),
        r.core_tech == active_holder(slots.core_tech, height),
{
    GovernanceCoreSlotsResponse {
        brand: keep_active(slots.brand, height),
        creative: keep_active(slots.creative, height),
        core_tech: keep_active(slots.core_tech, height),
    }
}

/// `proposal` as reported, with `status` as its status.
pub open spec fn response_of(proposal: Proposal, status: ProposalStatus) -> ProposalResponse {
    ProposalResponse {
        id: proposal.id,
        dao: proposal.dao,
        title: proposal.title,
        description: proposal.description,
        prop_type: proposal.prop_type,
        coins_yes: proposal.coins_yes,
        coins_no: proposal.coins_no,
        yes_voters: proposal.yes_voters,
        no_voters: proposal.no_voters,
        deposit_amount: proposal.deposit_amount,
        start_block: proposal.start_block,
        posting_start: proposal.posting_start,
        voting_start: proposal.voting_start,
        voting_end: proposal.voting_end,
        funding: proposal.funding,
        concluded_at_height: proposal.concluded_at_height,
        status,
        msgs: proposal.msgs,
    }
}

/// `proposal` as reported, with `status` as its status.
pub fn proposal_response(proposal: Proposal, status: ProposalStatus) -> (r: ProposalResponse)
    ensures
        r == response_of(proposal, status),
{
    ProposalResponse {
        id: proposal.id,
        dao: proposal.dao,
        title: proposal.title,
        description: proposal.description,
        prop_type: proposal.prop_type,
        coins_yes: proposal.coins_yes,
        coins_no: proposal.coins_no,
        yes_voters: proposal.yes_voters,
        no_voters: proposal.no_voters,
        deposit_amount: proposal.deposit_amount,
        start_block: proposal.start_block,
        posting_start: proposal.posting_start,
        voting_start: proposal.voting_start,
        voting_end: proposal.voting_end,
        funding: proposal.funding,
        concluded_at_height: proposal.concluded_at_height,
        status,
        msgs: proposal.msgs,
    }
}

/// The `stored` proposal as reported at second `now`, given the bonded `supply`: its
/// concluded status once concluded, otherwise its current status.
pub fn proposal(stored: Proposal, supply: u128, now: u64, proposal_required_percentage: u64) -> (r: ProposalResponse)
    requires
        stored.concluded_status is None ==> stored.status_defined(supply, now),
    ensures
        r == response_of(stored, stored.reported_status(supply, now, proposal_required_percentage)),
{
    let status: ProposalStatus = stored.query_status(supply, now, proposal_required_percentage);
    proposal_response(stored, status)
}

/// Whether `proposal` belongs on a listing of class `class` that starts at
/// identifier `start` (from the first proposal when there is none).
pub open spec fn listed(proposal: Proposal, start: Option<u64>, class: ProposalQueryStatus) -> bool {
    &&& (start matches Some(s) ==> proposal.id >= s)
    &&& status_class(proposal.concluded_status) == class
}

/// A page of a listing: the first `limit` of `stored` that belong on it, in
/// their order.
pub open spec fn proposal_page(stored: Seq<Proposal>, start: Option<u64>, class: ProposalQueryStatus, limit: nat) -> Seq<Proposal> {
    let kept = stored.filter(|p: Proposal| listed(p, start, class));
    if kept.len() <= limit { kept } else { kept.take(limit as int) }
}

/// The page of a listing of class `class` from identifier `start`, at most
/// `limit` long, out of the stored proposals `stored` (in identifier order).
pub fn proposals_page(stored: Vec<Proposal>, start: Option<u64>, class: ProposalQueryStatus, limit: usize) -> (page: Vec<Proposal>)
    ensures
        page@ == proposal_page(stored@, start, class, limit as nat),
{
    let ghost pred = |p: Proposal| listed(p, start, class);
    let ghost all = stored@;
    let mut page: Vec<Proposal> = Vec::new();
    assert(all.take(0).filter(pred) =~= Seq::<Proposal>::empty()) by {
        reveal(Seq::filter);
    }
    for p in it: stored.into_iter()
        invariant
            it.seq() == all,
            pred == (|p: Proposal| listed(p, start, class)),
            page@ == proposal_page(all.take(it.index() as int), start, class, limit as nat),
            page@.len() <= limit,
    {
        let ghost i = it.index() as int;
        let ghost before = all.take(i).filter(pred);
        proof {
            lemma_filter_push(all.take(i), pred, p);
            assert(all.take(i).push(p) =~= all.take(i + 1));
            assert(p == all[i]);
        }
        let in_range: bool = match start {
            Some(s) => p.id >= s,
            None => true,
        };
        let belongs: bool = in_range && index_class(&p) == class;
        assert(belongs == pred(p));
        if belongs && page.len() < limit {
            page.push(p);
        } else {
            proof {
                if pred(p) {
                    assert(before.push(p).take(limit as int) =~= before.take(limit as int));
                }
            }
        }
    }
    proof {
        assert(all.take(all.len() as int) =~= all);
    }
    page
}

} // verus!
