//! Posting proposals: only DAOs may post, only in the posting period, and
//! only with the required deposit, which is burnt.

use vstd::prelude::*;
use crate::math::Threshold;
use crate::shared::{Coin, Env, MessageInfo, Voter, is_holder};
use crate::identityservice::state::{IdType, Identity};
use crate::governance::error::ContractError;
use crate::governance::msg::{CoreSlot, Feature, PeriodInfoResponse, ProposalMsg, ProposalPeriod};
use crate::governance::slots::{check_core_team, core_team_refusal};
use crate::governance::state::{Config, CoreSlots, Funding, Proposal, ProposalAction, ProposalType, text_violation};

verus! {

broadcast use vstd::string::group_string_axioms;

/// Address to which proposal deposits are sent, burning them.
pub const BURN_ADDRESS: &'static str = "jmes1qqqqqqqqqqqqqqqqqqqqqqqqqqqqqqqqf5laz2";

/// A posted proposal, with the deposit to burn.
#[derive(Clone, Debug, PartialEq, Eq)]
pub struct Submission {
    pub proposal: Proposal,
    /// Amount of `ujmes` sent to `BURN_ADDRESS`.
    pub burn_amount: u128,
}

/// The members and tally rule of a DAO, as the DAO reports them.
#[derive(Clone, Debug, PartialEq, Eq)]
pub struct DaoMembership {
    pub voters: Vec<Voter>,
    pub threshold: Threshold,
}

/// The amount of the first `ujmes` coin among `funds`.
pub open spec fn deposit_of(funds: Seq<Coin>) -> Option<u128>
    decreases funds.len(),
{
    if funds.len() == 0 {
        None
    } else if funds[0].denom@ == "ujmes"@ {
        Some(funds[0].amount)
    } else {
        deposit_of(funds.drop_first())
    }
}

/// The amount of the first `ujmes` coin among `funds`.
pub fn find_deposit(funds: &Vec<Coin>) -> (d: Option<u128>)
    ensures
        d == deposit_of(funds@),
{
    let denom: String = "ujmes".to_string();
    let mut i: usize = 0;
    assert(funds@.subrange(0, funds@.len() as int) =~= funds@);
    while i < funds.len()
        invariant
            i <= funds.len(),
            denom@ == "ujmes"@,
            deposit_of(funds@) == deposit_of(funds@.subrange(i as int, funds@.len() as int)),
        decreases funds.len() - i,
    {
        let ghost rest = funds@.subrange(i as int, funds@.len() as int);
        assert(rest.drop_first() =~= funds@.subrange(i + 1, funds@.len() as int));
        if funds[i].denom == denom {
            return Some(funds[i].amount);
        }
        i = i + 1;
    }
    None
}

/// A new proposal as posted: no votes, the current cycle's periods, not concluded.
pub open spec fn is_fresh_proposal(
    p: Proposal,
    id: u64,
    dao: Seq<char>,
    title: Seq<char>,
    description: Seq<char>,
    prop_type: ProposalType,
    deposit: u128,
    height: u64,
    period: PeriodInfoResponse,
    funding: Option<Funding>,
) -> bool {
    &&& p.id == id
    &&& p.dao@ == dao
    &&& p.title@ == title
    &&& p.description@ == description
    &&& p.prop_type == prop_type
    &&& p.coins_yes == 0
    &&& p.coins_no == 0
    &&& p.yes_voters@.len() == 0
    &&& p.no_voters@.len() == 0
    &&& p.deposit_amount == deposit
    &&& p.start_block == height
    &&& p.posting_start == period.current_posting_start
    &&& p.voting_start == period.current_voting_start
    &&& p.voting_end == period.current_voting_end
    &&& p.concluded_at_height is None
    &&& p.concluded_status is None
    &&& p.concluded_coins_total is None
    &&& p.funding == funding
}

/// The result of posting: the kind's own refusal, else the text rule's, else
/// the proposal `expected` describes, with the deposit burnt.
pub open spec fn posted(
    r: Result<Submission, ContractError>,
    refusal: Option<ContractError>,
    title: Seq<char>,
    description: Seq<char>,
    deposit: u128,
    expected: spec_fn(Proposal) -> bool,
) -> bool {
    match refusal {
        Some(e) => r == Err::<Submission, ContractError>(e),
        None => match text_violation(title, description) {
            Some(m) => r matches Err(ContractError::ProposalNotValid { error }) && error@ == m,
            None => r matches Ok(s) && s.burn_amount == deposit && expected(s.proposal),
        },
    }
}

/// The proposal fields every kind shares.
fn fresh_proposal(
    id: u64,
    dao: String,
    title: String,
    description: String,
    prop_type: ProposalType,
    deposit: u128,
    height: u64,
    period: &PeriodInfoResponse,
    funding: Option<Funding>,
    msgs: Option<Vec<ProposalAction>>,
) -> (p: Proposal)
    ensures
        is_fresh_proposal(p, id, dao@, title@, description@, prop_type, deposit, height, *period, funding),
        p.msgs == msgs,
{
    Proposal {
        id,
        dao,
        title,
        description,
        prop_type,
        coins_yes: 0,
        coins_no: 0,
        yes_voters: Vec::new(),
        no_voters: Vec::new(),
        deposit_amount: deposit,
        start_block: height,
        posting_start: period.current_posting_start,
        voting_start: period.current_voting_start,
        voting_end: period.current_voting_end,
        concluded_at_height: None,
        concluded_status: None,
        concluded_coins_total: None,
        funding,
        msgs,
    }
}

/// Validates the built proposal and pairs it with its deposit.
fn finish(proposal: Proposal) -> (r: Result<Submission, ContractError>)
    ensures
        match text_violation(proposal.title@, proposal.description@) {
            Some(m) => r matches Err(ContractError::ProposalNotValid { error }) && error@ == m,
            None => r == Ok::<Submission, ContractError>(Submission { burn_amount: proposal.deposit_amount, proposal }),
        },
{
    match proposal.validate() {
        Err(e) => Err(e),
        Ok(()) => {
            let burn_amount: u128 = proposal.deposit_amount;
            Ok(Submission { proposal, burn_amount })
        },
    }
}

/// A text proposal, optionally asking for funding; it executes nothing.
pub open spec fn text_expected(id: u64, dao: Seq<char>, title: Seq<char>, description: Seq<char>, deposit: u128, height: u64, period: PeriodInfoResponse, funding: Option<Funding>) -> spec_fn(Proposal) -> bool {
    |p: Proposal| is_fresh_proposal(p, id, dao, title, description, ProposalType::Text {}, deposit, height, period, funding)
        && p.msgs is None
}

/// Posts a text proposal as proposal `id`.
pub fn text_proposal(
    id: u64,
    sender: String,
    height: u64,
    period: &PeriodInfoResponse,
    deposit_amount: u128,
    title: String,
    description: String,
    funding: Option<Funding>,
) -> (r: Result<Submission, ContractError>)
    ensures
        posted(r, None, title@, description@, deposit_amount,
            text_expected(id, sender@, title@, description@, deposit_amount, height, *period, funding)),
{
    let proposal = fresh_proposal(id, sender, title, description, ProposalType::Text {}, deposit_amount,
        height, period, funding, None);
    finish(proposal)
}

/// A feature request: when it passes, the art dealer approves the DAO for
/// `approved` mints over the funding duration.
pub open spec fn feature_expected(id: u64, dao: String, title: Seq<char>, description: Seq<char>, deposit: u128, height: u64, period: PeriodInfoResponse, funding: Funding, feature: Feature, art_dealer: String) -> spec_fn(Proposal) -> bool {
    |p: Proposal| is_fresh_proposal(p, id, dao@, title, description, ProposalType::FeatureRequest(feature), deposit, height, period, Some(funding))
        && (p.msgs matches Some(m) && m@ == seq![match feature {
            Feature::ArtDealer { approved } => ProposalAction::ApproveDealer {
                contract_addr: art_dealer,
                dao,
                approved,
                duration: funding.duration_in_blocks,
            },
        }])
}

/// Posts a feature request as proposal `id`; `art_dealer` is the art dealer
/// contract that is to approve the DAO.
pub fn request_feature(
    id: u64,
    sender: String,
    height: u64,
    period: &PeriodInfoResponse,
    deposit_amount: u128,
    art_dealer: &String,
    title: String,
    description: String,
    funding: Funding,
    feature: Feature,
) -> (r: Result<Submission, ContractError>)
    ensures
        posted(r, None, title@, description@, deposit_amount,
            feature_expected(id, sender, title@, description@, deposit_amount, height, *period, funding, feature, *art_dealer)),
{
    let action = match feature {
        Feature::ArtDealer { approved } => ProposalAction::ApproveDealer {
            contract_addr: art_dealer.clone(),
            dao: sender.clone(),
            approved,
            duration: funding.duration_in_blocks,
        },
    };
    let mut msgs: Vec<ProposalAction> = Vec::new();
    msgs.push(action);
    let proposal = fresh_proposal(id, sender, title, description, ProposalType::FeatureRequest(feature),
        deposit_amount, height, period, Some(funding), Some(msgs));
    finish(proposal)
}

/// The messages an improvement proposal executes, one per submitted message.
pub open spec fn custom_actions(m: Seq<ProposalAction>, msgs: Seq<Vec<u8>>) -> bool {
    &&& m.len() == msgs.len()
    &&& forall|i: int| 0 <= i < msgs.len() ==> #[trigger] m[i] == ProposalAction::Custom { msg: msgs[i] }
}

/// An improvement proposal, executing the submitted messages when it passes.
pub open spec fn improvement_expected(id: u64, dao: Seq<char>, title: Seq<char>, description: Seq<char>, deposit: u128, height: u64, period: PeriodInfoResponse, msgs: Seq<Vec<u8>>) -> spec_fn(Proposal) -> bool {
    |p: Proposal| is_fresh_proposal(p, id, dao, title, description, ProposalType::Improvement {}, deposit, height, period, None)
        && (p.msgs matches Some(m) && custom_actions(m@, msgs))
}

/// Only the DAO holding the core tech slot may post improvements.
pub open spec fn improvement_refusal(core_slots: CoreSlots, sender: Seq<char>) -> Option<ContractError> {
    if core_slots.core_tech matches Some(s) && s.dao@ == sender { None } else { Some(ContractError::Unauthorized {}) }
}

/// Posts an improvement proposal as proposal `id`.
pub fn improvement(
    id: u64,
    sender: String,
    height: u64,
    period: &PeriodInfoResponse,
    deposit_amount: u128,
    core_slots: &CoreSlots,
    title: String,
    description: String,
    msgs: Vec<Vec<u8>>,
) -> (r: Result<Submission, ContractError>)
    ensures
        posted(r, improvement_refusal(*core_slots, sender@), title@, description@, deposit_amount,
            improvement_expected(id, sender@, title@, description@, deposit_amount, height, *period, msgs@)),
{
    if !is_holder(&core_slots.core_tech, &sender) {
        return Err(ContractError::Unauthorized {});
    }
    let ghost all = msgs@;
    let mut actions: Vec<ProposalAction> = Vec::new();
    for msg in it: msgs.into_iter()
        invariant
            it.seq() == all,
            custom_actions(actions@, all.take(it.index() as int)),
    {
        let ghost i = it.index() as int;
        proof {
            assert(msg == all[i]);
        }
        actions.push(ProposalAction::Custom { msg });
        assert(all.take(i + 1) =~= all.take(i).push(all[i]));
    }
    assert(all.take(all.len() as int) =~= all);
    let proposal = fresh_proposal(id, sender, title, description, ProposalType::Improvement {},
        deposit_amount, height, period, None, Some(actions));
    finish(proposal)
}

/// A core slot proposal, assigning the slot through the governance contract
/// when it passes.
pub open spec fn core_slot_expected(id: u64, dao: Seq<char>, title: Seq<char>, description: Seq<char>, deposit: u128, height: u64, period: PeriodInfoResponse, funding: Funding, slot: CoreSlot, contract_address: String) -> spec_fn(Proposal) -> bool {
    |p: Proposal| is_fresh_proposal(p, id, dao, title, description, ProposalType::CoreSlot(slot), deposit, height, period, Some(funding))
        && (p.msgs matches Some(m) && m@ == seq![ProposalAction::SetCoreSlot { contract_addr: contract_address, proposal_id: id }])
}

/// Why a core slot proposal is refused: the DAO breaks the core team rules,
/// or it challenges another DAO's slot after the first half of the posting
/// period.
pub open spec fn core_slot_refusal(
    membership: DaoMembership,
    core_slots: CoreSlots,
    period: PeriodInfoResponse,
    sender: Seq<char>,
    slot: CoreSlot,
) -> Option<ContractError> {
    match core_team_refusal(membership.voters@, membership.threshold) {
        Some(e) => Some(e),
        None => {
            let holds = core_slots.holder(slot) matches Some(s) && s.dao@ == sender;
            let first_half = period.current_time_in_cycle < period.posting_period_length / 2;
            if !holds && !first_half { Some(ContractError::TooLateToChallengeCoreSlot {}) } else { None }
        },
    }
}

/// Posts a core slot proposal as proposal `id`; `membership` is what the
/// posting DAO reports of itself.
pub fn core_slot(
    id: u64,
    sender: String,
    env: &Env,
    period: &PeriodInfoResponse,
    deposit_amount: u128,
    membership: &DaoMembership,
    core_slots: &CoreSlots,
    title: String,
    description: String,
    funding: Funding,
    slot: CoreSlot,
) -> (r: Result<Submission, ContractError>)
    ensures
        posted(r, core_slot_refusal(*membership, *core_slots, *period, sender@, slot), title@, description@, deposit_amount,
            core_slot_expected(id, sender@, title@, description@, deposit_amount, env.block_height, *period, funding, slot, env.contract_address)),
        r is Ok ==> {
            &&& 3 <= membership.voters@.len() <= 9
            &&& forall|i: int| 0 <= i < membership.voters@.len()
                ==> membership.threshold.validation((#[trigger] membership.voters@[i]).weight) is Err
        },
{
    proof {
        crate::governance::laws::lemma_core_team_rules(membership.voters@, membership.threshold);
    }
    check_core_team(&membership.voters, &membership.threshold)?;
    let first_half: bool = period.current_time_in_cycle < period.posting_period_length / 2;
    let holds: bool = match slot {
        CoreSlot::CoreTech {} => is_holder(&core_slots.core_tech, &sender),
        CoreSlot::Brand {} => is_holder(&core_slots.brand, &sender),
        CoreSlot::Creative {} => is_holder(&core_slots.creative, &sender),
    };
    if !holds && !first_half {
        return Err(ContractError::TooLateToChallengeCoreSlot {});
    }
    let mut msgs: Vec<ProposalAction> = Vec::new();
    msgs.push(ProposalAction::SetCoreSlot { contract_addr: env.contract_address.clone(), proposal_id: id });
    let proposal = fresh_proposal(id, sender, title, description, ProposalType::CoreSlot(slot),
        deposit_amount, env.block_height, period, Some(funding), Some(msgs));
    finish(proposal)
}

/// A revoke proposal, revoking the slot through the governance contract
/// when it passes.
pub open spec fn revoke_expected(id: u64, dao: Seq<char>, title: Seq<char>, description: Seq<char>, deposit: u128, height: u64, period: PeriodInfoResponse, revoke_proposal_id: u64, contract_address: String) -> spec_fn(Proposal) -> bool {
    |p: Proposal| is_fresh_proposal(p, id, dao, title, description, ProposalType::RevokeProposal(revoke_proposal_id), deposit, height, period, None)
        && (p.msgs matches Some(m) && m@ == seq![ProposalAction::UnsetCoreSlot { contract_addr: contract_address, proposal_id: id }])
}

/// Posts, as proposal `id`, a proposal to revoke the core slot won by
/// proposal `revoke_proposal_id`.
pub fn revoke_core_slot(
    id: u64,
    sender: String,
    env: &Env,
    period: &PeriodInfoResponse,
    deposit_amount: u128,
    title: String,
    description: String,
    revoke_proposal_id: u64,
) -> (r: Result<Submission, ContractError>)
    ensures
        posted(r, None, title@, description@, deposit_amount,
            revoke_expected(id, sender@, title@, description@, deposit_amount, env.block_height, *period, revoke_proposal_id, env.contract_address)),
{
    let mut msgs: Vec<ProposalAction> = Vec::new();
    msgs.push(ProposalAction::UnsetCoreSlot { contract_addr: env.contract_address.clone(), proposal_id: id });
    let proposal = fresh_proposal(id, sender, title, description, ProposalType::RevokeProposal(revoke_proposal_id),
        deposit_amount, env.block_height, period, None, Some(msgs));
    finish(proposal)
}


/// Why posting is refused before the kind of proposal matters: only DAO
/// identities may post, only in a posting period, and only with at least the
/// required `ujmes` deposit.
pub open spec fn submission_refusal(identity: Option<Identity>, period: PeriodInfoResponse, funds: Seq<Coin>, required_deposit: u128) -> Option<ContractError> {
    if !(identity matches Some(i) && i.id_type == IdType::Dao) {
        Some(ContractError::Unauthorized {})
    } else if period.current_period != ProposalPeriod::Posting {
        Some(ContractError::NotPostingPeriod {})
    } else if deposit_of(funds)->0 < required_deposit {
        Some(ContractError::InsufficientProposalFee { proposal_fee: required_deposit })
    } else {
        None
    }
}

/// Posts the proposal `proposal_msg` sent by `info.sender`, whose identity as
/// the identity service reports it is `identity`. It becomes proposal number
/// `proposal_count + 1`. `membership` is what the sender reports of itself,
/// needed for core slot proposals.
pub fn proposal(
    config: &Config,
    identity: &Option<Identity>,
    period: &PeriodInfoResponse,
    env: &Env,
    info: &MessageInfo,
    proposal_count: Option<u64>,
    core_slots: &CoreSlots,
    membership: &Option<DaoMembership>,
    proposal_msg: ProposalMsg,
) -> (r: Result<Submission, ContractError>)
    requires
        (identity matches Some(i) && i.id_type == IdType::Dao) && period.current_period == ProposalPeriod::Posting
            ==> deposit_of(info.funds@) is Some,
        submission_refusal(*identity, *period, info.funds@, config.proposal_required_deposit) is None ==> {
            &&& (proposal_count matches Some(c) ==> c < u64::MAX)
            &&& (proposal_msg is RequestFeature ==> config.art_dealer_addr is Some)
            &&& (proposal_msg is CoreSlot ==> membership is Some)
        },
    ensures
        match submission_refusal(*identity, *period, info.funds@, config.proposal_required_deposit) {
            Some(e) => r == Err::<Submission, ContractError>(e),
            None => {
                let id = match proposal_count { Some(c) => (c + 1) as u64, None => 1u64 };
                let deposit = deposit_of(info.funds@)->0;
                let sender = info.sender;
                let height = env.block_height;
                match proposal_msg {
                    ProposalMsg::TextProposal { title, description, funding } => posted(r, None, title@, description@, deposit,
                        text_expected(id, sender@, title@, description@, deposit, height, *period, funding)),
                    ProposalMsg::RequestFeature { title, description, funding, feature } => posted(r, None, title@, description@, deposit,
                        feature_expected(id, sender, title@, description@, deposit, height, *period, funding, feature, config.art_dealer_addr->0)),
                    ProposalMsg::Improvement { title, description, msgs } => posted(r, improvement_refusal(*core_slots, sender@), title@, description@, deposit,
                        improvement_expected(id, sender@, title@, description@, deposit, height, *period, msgs@)),
                    ProposalMsg::CoreSlot { title, description, funding, slot } => posted(r, core_slot_refusal(membership->0, *core_slots, *period, sender@, slot), title@, description@, deposit,
                        core_slot_expected(id, sender@, title@, description@, deposit, height, *period, funding, slot, env.contract_address)),
                    ProposalMsg::RevokeProposal { title, description, revoke_proposal_id } => posted(r, None, title@, description@, deposit,
                        revoke_expected(id, sender@, title@, description@, deposit, height, *period, revoke_proposal_id, env.contract_address)),
                }
            },
        },
{
    let is_dao: bool = match identity {
        Some(i) => match i.id_type {
            IdType::Dao => true,
            IdType::User => false,
        },
        None => false,
    };
    if !is_dao {
        return Err(ContractError::Unauthorized {});
    }
    if period.current_period != ProposalPeriod::Posting {
        return Err(ContractError::NotPostingPeriod {});
    }
    let deposit_amount: u128 = match find_deposit(&info.funds) {
        Some(d) => d,
        None => 0,
    };
    if deposit_amount < config.proposal_required_deposit {
        return Err(ContractError::InsufficientProposalFee { proposal_fee: config.proposal_required_deposit });
    }
    let id: u64 = Proposal::next_id(proposal_count);
    let sender: String = info.sender.clone();
    match proposal_msg {
        ProposalMsg::TextProposal { title, description, funding } =>
            text_proposal(id, sender, env.block_height, period, deposit_amount, title, description, funding),
        ProposalMsg::RequestFeature { title, description, funding, feature } => {
            match &config.art_dealer_addr {
                Some(art_dealer) => request_feature(id, sender, env.block_height, period, deposit_amount,
                    art_dealer, title, description, funding, feature),
                None => Err(ContractError::Unauthorized {}),
            }
        },
        ProposalMsg::Improvement { title, description, msgs } =>
            improvement(id, sender, env.block_height, period, deposit_amount, core_slots, title, description, msgs),
        ProposalMsg::CoreSlot { title, description, funding, slot } => {
            match membership {
                Some(m) => core_slot(id, sender, env, period, deposit_amount, m, core_slots, title, description, funding, slot),
                None => Err(ContractError::Unauthorized {}),
            }
        },
        ProposalMsg::RevokeProposal { title, description, revoke_proposal_id } =>
            revoke_core_slot(id, sender, env, period, deposit_amount, title, description, revoke_proposal_id),
    }
}

} // verus!
