//! Core slots: who may hold one, how a slot vote displaces the current
//! holder, and how a holder resigns or is revoked.

use vstd::prelude::*;
use crate::math::{Decimal, Threshold, ratio_atomics};
use crate::shared::{SlotVoteResult, Voter, MAX_DAO_MEMBERS, MIN_CORE_TEAM_MEMBERS};
use crate::governance::contract::{retain_other_proposals, without_proposal};
use crate::governance::error::ContractError;
use crate::governance::laws::lemma_slot_holders_stay_distinct;
use crate::governance::msg::CoreSlot;
use crate::governance::state::{CoreSlots, Proposal, ProposalType, WinningGrant};

verus! {

broadcast use vstd::string::group_string_axioms;

/// The largest weight among `voters` (zero when there are none).
pub open spec fn max_weight(voters: Seq<Voter>) -> u64
    decreases voters.len(),
{
    if voters.len() == 0 {
        0
    } else {
        let rest = max_weight(voters.drop_last());
        if voters.last().weight > rest { voters.last().weight } else { rest }
    }
}

/// The largest weight among `voters` (zero when there are none).
pub fn find_max_weight(voters: &Vec<Voter>) -> (m: u64)
    ensures
        m == max_weight(voters@),
        forall|i: int| 0 <= i < voters@.len() ==> (#[trigger] voters@[i]).weight <= m,
        voters@.len() > 0 ==> exists|i: int| 0 <= i < voters@.len() && (#[trigger] voters@[i]).weight == m,
{
    let mut m: u64 = 0;
    let mut i: usize = 0;
    while i < voters.len()
        invariant
            i <= voters.len(),
            m == max_weight(voters@.take(i as int)),
        decreases voters.len() - i,
    {
        assert(voters@.take(i + 1).drop_last() =~= voters@.take(i as int));
        if voters[i].weight > m {
            m = voters[i].weight;
        }
        i = i + 1;
    }
    assert(voters@.take(voters.len() as int) =~= voters@);
    proof {
        crate::governance::laws::lemma_max_weight_is_largest(voters@);
    }
    m
}

/// Why a DAO may not hold a core slot, if it may not: it needs three to nine
/// members, and no single member may reach the DAO's threshold alone.
pub open spec fn core_team_refusal(voters: Seq<Voter>, threshold: Threshold) -> Option<ContractError> {
    if voters.len() > MAX_DAO_MEMBERS || voters.len() < MIN_CORE_TEAM_MEMBERS {
        Some(ContractError::WrongCoreTeamMemberCount { min: MIN_CORE_TEAM_MEMBERS, max: MAX_DAO_MEMBERS })
    } else if threshold.validation(max_weight(voters)) is Ok {
        Some(ContractError::WrongCoreTeamMemberVotingPower { threshold, current: max_weight(voters) })
    } else {
        None
    }
}

/// Checks the core slot membership rules on a DAO's `voters` and `threshold`.
pub fn check_core_team(voters: &Vec<Voter>, threshold: &Threshold) -> (r: Result<(), ContractError>)
    ensures
        r == match core_team_refusal(voters@, *threshold) {
            Some(e) => Err(e),
            None => Ok::<(), ContractError>(()),
        },
{
    if voters.len() > MAX_DAO_MEMBERS || voters.len() < MIN_CORE_TEAM_MEMBERS {
        return Err(ContractError::WrongCoreTeamMemberCount { min: MIN_CORE_TEAM_MEMBERS, max: MAX_DAO_MEMBERS });
    }
    let max_weight: u64 = find_max_weight(voters);
    if threshold.validate(max_weight).is_ok() {
        return Err(ContractError::WrongCoreTeamMemberVotingPower { threshold: *threshold, current: max_weight });
    }
    Ok(())
}

/// How a slot vote went.
#[derive(Clone, Copy, Debug, PartialEq, Eq, Structural)]
pub enum SlotClaim {
    /// The slot was vacant.
    ClaimedEmpty,
    /// The holder won an earlier vote and is replaced.
    ClaimedFromPreviousPeriod,
    /// The holder won a vote ending at the same time with a smaller yes ratio.
    ClaimedWithLargerYesRatio,
    /// The holder won a vote ending at the same time with at least this yes ratio.
    LargerYesRatioExists,
    /// The holder won a later vote.
    OlderProposal,
}

impl SlotClaim {
    /// The result text reported in the `result` attribute.
    pub open spec fn text(self) -> Seq<char> {
        match self {
            SlotClaim::ClaimedEmpty => "claimed empty core slot"@,
            SlotClaim::ClaimedFromPreviousPeriod => "claimed core slot from previous period slot vote result"@,
            SlotClaim::ClaimedWithLargerYesRatio => "claimed core slot from current period slot vote result with smaller yes_ratio"@,
            SlotClaim::LargerYesRatioExists => "error: slot vote result with larger yes_ratio exists"@,
            SlotClaim::OlderProposal => "error: proposal is older than current slot vote result"@,
        }
    }

    /// The result text reported in the `result` attribute.
    pub fn to_string(&self) -> (s: String)
        ensures
            s@ == self.text(),
    {
        match self {
            SlotClaim::ClaimedEmpty => "claimed empty core slot".to_string(),
            SlotClaim::ClaimedFromPreviousPeriod => "claimed core slot from previous period slot vote result".to_string(),
            SlotClaim::ClaimedWithLargerYesRatio => "claimed core slot from current period slot vote result with smaller yes_ratio".to_string(),
            SlotClaim::LargerYesRatioExists => "error: slot vote result with larger yes_ratio exists".to_string(),
            SlotClaim::OlderProposal => "error: proposal is older than current slot vote result".to_string(),
        }
    }
}

/// The outcome of a slot vote `challenger` against the `current` holder: the
/// later vote wins, a tie in voting end goes to the strictly larger yes
/// ratio; also the proposal whose funding ends (the displaced holder's, when
/// it is displaced by a tie or by its own newer vote).
pub open spec fn contest(current: SlotVoteResult, challenger: SlotVoteResult) -> (SlotVoteResult, SlotClaim, Option<u64>) {
    if challenger.proposal_voting_end > current.proposal_voting_end {
        (challenger, SlotClaim::ClaimedFromPreviousPeriod,
            if current.dao@ == challenger.dao@ { Some(current.proposal_id) } else { None })
    } else if challenger.proposal_voting_end == current.proposal_voting_end {
        if challenger.yes_ratio.atomics > current.yes_ratio.atomics {
            (challenger, SlotClaim::ClaimedWithLargerYesRatio, Some(current.proposal_id))
        } else {
            (current, SlotClaim::LargerYesRatioExists, None)
        }
    } else {
        (current, SlotClaim::OlderProposal, None)
    }
}

/// Decides between the `current` holder of a slot and a `challenger`.
pub fn winning_core_slot(current: SlotVoteResult, challenger: SlotVoteResult) -> (r: (SlotVoteResult, SlotClaim, Option<u64>))
    ensures
        r == contest(current, challenger),
{
    if challenger.proposal_voting_end > current.proposal_voting_end {
        let remove: Option<u64> = if current.dao == challenger.dao { Some(current.proposal_id) } else { None };
        (challenger, SlotClaim::ClaimedFromPreviousPeriod, remove)
    } else if challenger.proposal_voting_end == current.proposal_voting_end {
        if challenger.yes_ratio.atomics > current.yes_ratio.atomics {
            let remove: Option<u64> = Some(current.proposal_id);
            (challenger, SlotClaim::ClaimedWithLargerYesRatio, remove)
        } else {
            (current, SlotClaim::LargerYesRatioExists, None)
        }
    } else {
        (current, SlotClaim::OlderProposal, None)
    }
}

/// The slots after `challenger` contests `slot`, how it went, and whose
/// funding ends.
pub open spec fn assign_slot(core_slots: CoreSlots, slot: CoreSlot, challenger: SlotVoteResult) -> (CoreSlots, SlotClaim, Option<u64>) {
    match core_slots.holder(slot) {
        None => (core_slots.with_holder(slot, Some(challenger)), SlotClaim::ClaimedEmpty, None),
        Some(current) => {
            let (winner, claim, remove) = contest(current, challenger);
            (core_slots.with_holder(slot, Some(winner)), claim, remove)
        },
    }
}

/// Takes the holder of `slot` out of the slots, leaving it vacant.
fn take_holder(core_slots: &mut CoreSlots, slot: CoreSlot) -> (h: Option<SlotVoteResult>)
    ensures
        h == old(core_slots).holder(slot),
        *final(core_slots) == old(core_slots).with_holder(slot, None),
{
    match slot {
        CoreSlot::Brand {} => core_slots.brand.take(),
        CoreSlot::Creative {} => core_slots.creative.take(),
        CoreSlot::CoreTech {} => core_slots.core_tech.take(),
    }
}

/// Gives `slot` to `holder`.
fn put_holder(core_slots: &mut CoreSlots, slot: CoreSlot, holder: Option<SlotVoteResult>)
    ensures
        *final(core_slots) == old(core_slots).with_holder(slot, holder),
{
    match slot {
        CoreSlot::Brand {} => core_slots.brand = holder,
        CoreSlot::Creative {} => core_slots.creative = holder,
        CoreSlot::CoreTech {} => core_slots.core_tech = holder,
    }
}

/// How many slots `dao` holds.
fn count_held(core_slots: &CoreSlots, dao: &String) -> (n: u64)
    ensures
        n == core_slots.count_held(dao@),
{
    let mut n: u64 = 0;
    if crate::shared::is_holder(&core_slots.brand, dao) {
        n = n + 1;
    }
    if crate::shared::is_holder(&core_slots.creative, dao) {
        n = n + 1;
    }
    if crate::shared::is_holder(&core_slots.core_tech, dao) {
        n = n + 1;
    }
    n
}

/// The slot vote result a concluded, funded core slot proposal carries.
pub open spec fn slot_vote_result(proposal: Proposal) -> SlotVoteResult {
    SlotVoteResult {
        dao: proposal.dao,
        yes_ratio: Decimal {
            atomics: ratio_atomics(proposal.coins_yes as int, proposal.coins_yes + proposal.coins_no) as u128,
        },
        proposal_voting_end: proposal.voting_end,
        proposal_funding_end: (proposal.concluded_at_height->0 + proposal.funding->0.duration_in_blocks) as u64,
        proposal_id: proposal.id,
    }
}

/// Whether the slot vote result of `proposal` can be formed: it is concluded
/// and funded, its funding end fits `u64`, and it received votes whose sum
/// fits `u128`.
pub open spec fn slot_vote_defined(proposal: Proposal) -> bool {
    &&& proposal.concluded_at_height is Some
    &&& proposal.funding is Some
    &&& proposal.concluded_at_height->0 + proposal.funding->0.duration_in_blocks <= u64::MAX
    &&& 0 < proposal.coins_yes + proposal.coins_no <= u128::MAX
}

/// Whether the slot vote result of `proposal` can be formed (see
/// `slot_vote_defined`).
pub fn slot_vote_computable(proposal: &Proposal) -> (b: bool)
    ensures
        b == slot_vote_defined(*proposal),
{
    match (proposal.concluded_at_height, proposal.funding) {
        (Some(h), Some(f)) => h.checked_add(f.duration_in_blocks).is_some() && match proposal.coins_yes.checked_add(proposal.coins_no) {
            Some(total) => total > 0,
            None => false,
        },
        _ => false,
    }
}

/// What assigning a core slot stores.
#[derive(Clone, Debug, PartialEq, Eq)]
pub enum CoreSlotAssignment {
    /// The DAO would then hold two slots: nothing is stored.
    AlreadyHoldsSlot,
    /// The slots and grants to store, the proposal's yes ratio, and how the
    /// slot vote went.
    Assigned { core_slots: CoreSlots, winning_grants: Vec<WinningGrant>, yes_ratio: Decimal, claim: SlotClaim },
}

/// Whether `sender` is the governance contract itself.
pub fn require_self(contract_address: &String, sender: &String) -> (r: Result<(), ContractError>)
    ensures
        r == if sender@ == contract_address@ { Ok::<(), ContractError>(()) } else { Err(ContractError::Unauthorized {}) },
{
    if *sender == *contract_address {
        Ok(())
    } else {
        Err(ContractError::Unauthorized {})
    }
}

/// Assigns the core slot won by the concluded `proposal`. Only the
/// governance contract itself may call it (as the proposal's message). The
/// DAO (with `voters` and `threshold`) must meet the core team rules; the
/// proposal contests its slot; a DAO never holds two slots, and when a
/// holder is displaced its grant ends.
pub fn set_core_slot(
    contract_address: &String,
    sender: &String,
    proposal: &Proposal,
    voters: &Vec<Voter>,
    threshold: &Threshold,
    core_slots: CoreSlots,
    winning_grants: Vec<WinningGrant>,
) -> (r: Result<CoreSlotAssignment, ContractError>)
    requires
        sender@ == contract_address@ && core_team_refusal(voters@, *threshold) is None
            ==> slot_vote_defined(*proposal),
    ensures
        sender@ != contract_address@ ==> r == Err::<CoreSlotAssignment, ContractError>(ContractError::Unauthorized {}),
        sender@ == contract_address@ ==> match core_team_refusal(voters@, *threshold) {
            Some(e) => r == Err::<CoreSlotAssignment, ContractError>(e),
            None => match proposal.prop_type {
                ProposalType::CoreSlot(slot) => {
                    let (slots, claim, remove) = assign_slot(core_slots, slot, slot_vote_result(*proposal));
                    if slots.count_held(proposal.dao@) > 1 {
                        r == Ok::<CoreSlotAssignment, ContractError>(CoreSlotAssignment::AlreadyHoldsSlot)
                    } else {
                        r matches Ok(CoreSlotAssignment::Assigned { core_slots: cs, winning_grants: wg, yes_ratio, claim: c })
                            && cs == slots && c == claim && yes_ratio == slot_vote_result(*proposal).yes_ratio
                            && wg@ == match remove {
                                Some(id) => without_proposal(winning_grants@, id),
                                None => winning_grants@,
                            }
                    }
                },
                _ => r == Err::<CoreSlotAssignment, ContractError>(ContractError::InvalidProposalType {}),
            },
        },
        core_slots.distinct_holders() ==> (r matches Ok(CoreSlotAssignment::Assigned { core_slots: cs, .. })
            ==> cs.distinct_holders()),
        r is Ok ==> {
            &&& 3 <= voters@.len() <= 9
            &&& forall|i: int| 0 <= i < voters@.len() ==> threshold.validation((#[trigger] voters@[i]).weight) is Err
        },
{
    proof {
        crate::governance::laws::lemma_core_team_rules(voters@, *threshold);
    }
    let ghost before = core_slots;
    require_self(contract_address, sender)?;
    check_core_team(voters, threshold)?;
    let total: u128 = proposal.coins_yes + proposal.coins_no;
    proof {
        crate::governance::contract::lemma_share_at_most_one(proposal.coins_yes, total);
    }
    let yes_ratio: Decimal = Decimal::from_ratio(proposal.coins_yes, total);
    let concluded_at_height: u64 = match proposal.concluded_at_height {
        Some(h) => h,
        None => 0,
    };
    let duration: u64 = match proposal.funding {
        Some(f) => f.duration_in_blocks,
        None => 0,
    };
    let challenger = SlotVoteResult {
        dao: proposal.dao.clone(),
        yes_ratio,
        proposal_voting_end: proposal.voting_end,
        proposal_funding_end: concluded_at_height + duration,
        proposal_id: proposal.id,
    };
    let slot: CoreSlot = match proposal.prop_type {
        ProposalType::CoreSlot(slot) => slot,
        _ => {
            return Err(ContractError::InvalidProposalType {});
        },
    };
    let mut core_slots = core_slots;
    let claim: SlotClaim;
    let remove: Option<u64>;
    match take_holder(&mut core_slots, slot) {
        None => {
            put_holder(&mut core_slots, slot, Some(challenger));
            claim = SlotClaim::ClaimedEmpty;
            remove = None;
        },
        Some(current) => {
            let (winner, c, rm) = winning_core_slot(current, challenger);
            put_holder(&mut core_slots, slot, Some(winner));
            claim = c;
            remove = rm;
        },
    }
    if count_held(&core_slots, &proposal.dao) > 1 {
        return Ok(CoreSlotAssignment::AlreadyHoldsSlot);
    }
    let winning_grants = match remove {
        Some(id) => retain_other_proposals(winning_grants, id),
        None => winning_grants,
    };
    proof {
        if before.distinct_holders() {
            lemma_slot_holders_stay_distinct(before, slot, slot_vote_result(*proposal));
        }
    }
    Ok(CoreSlotAssignment::Assigned { core_slots, winning_grants, yes_ratio, claim })
}

/// The holder of `slot` gives it up. Only the holder itself may resign.
pub fn resign_core_slot(core_slots: CoreSlots, sender: &String, slot: CoreSlot) -> (r: Result<CoreSlots, ContractError>)
    requires
        core_slots.holder(slot) is Some,
    ensures
        core_slots.holder(slot)->0.dao@ != sender@ ==> r == Err::<CoreSlots, ContractError>(ContractError::Unauthorized {}),
        core_slots.holder(slot)->0.dao@ == sender@ ==> r == Ok::<CoreSlots, ContractError>(core_slots.with_holder(slot, None)),
{
    let mut core_slots = core_slots;
    let holder: Option<SlotVoteResult> = take_holder(&mut core_slots, slot);
    match holder {
        Some(h) => {
            if h.dao != *sender {
                return Err(ContractError::Unauthorized {});
            }
        },
        None => {},
    }
    Ok(core_slots)
}

/// What revoking a core slot stores.
#[derive(Clone, Debug, PartialEq, Eq)]
pub struct Revocation {
    pub core_slots: CoreSlots,
    pub winning_grants: Vec<WinningGrant>,
}

/// Carries out a successful revoke proposal: the grant of the revoked core
/// slot proposal ends and its DAO loses the slot, provided it still holds
/// it. Only the governance contract itself may call it.
pub fn unset_core_slot(
    contract_address: &String,
    sender: &String,
    proposal: &Proposal,
    revoked: &Option<Proposal>,
    core_slots: CoreSlots,
    winning_grants: Vec<WinningGrant>,
) -> (r: Result<Revocation, ContractError>)
    requires
        sender@ == contract_address@ && proposal.prop_type is RevokeProposal ==> {
            &&& revoked is Some
            &&& revoked->0.prop_type matches ProposalType::CoreSlot(s) ==> core_slots.holder(s) is Some
        },
    ensures
        sender@ != contract_address@ ==> r == Err::<Revocation, ContractError>(ContractError::Unauthorized {}),
        sender@ == contract_address@ ==> match proposal.prop_type {
            ProposalType::RevokeProposal(revoke_id) => match revoked->0.prop_type {
                ProposalType::CoreSlot(s) => if core_slots.holder(s)->0.dao@ != revoked->0.dao@ {
                    r == Err::<Revocation, ContractError>(ContractError::WrongDao {})
                } else {
                    r matches Ok(rv) && rv.core_slots == core_slots.with_holder(s, None)
                        && rv.winning_grants@ == without_proposal(winning_grants@, revoke_id)
                },
                _ => r matches Err(ContractError::ProposalNotValid { error })
                    && error@ == "Proposal to revoke is not a core proposal"@,
            },
            _ => r matches Err(ContractError::ProposalNotValid { error })
                && error@ == "Proposal is not a revoke proposal"@,
        },
{
    require_self(contract_address, sender)?;
    let revoke_id: u64 = match proposal.prop_type {
        ProposalType::RevokeProposal(id) => id,
        _ => {
            return Err(ContractError::ProposalNotValid { error: "Proposal is not a revoke proposal".to_string() });
        },
    };
    let revoked: &Proposal = revoked.as_ref().unwrap();
    let winning_grants = retain_other_proposals(winning_grants, revoke_id);
    let slot: CoreSlot = match revoked.prop_type {
        ProposalType::CoreSlot(s) => s,
        _ => {
            return Err(ContractError::ProposalNotValid { error: "Proposal to revoke is not a core proposal".to_string() });
        },
    };
    let mut core_slots = core_slots;
    match take_holder(&mut core_slots, slot) {
        Some(h) => {
            if h.dao != revoked.dao {
                return Err(ContractError::WrongDao {});
            }
        },
        None => {},
    }
    Ok(Revocation { core_slots, winning_grants })
}

} // verus!
