//! Messages of the governance contract and the answers to its queries.

use vstd::prelude::*;
use crate::governance::state::{Funding, ProposalAction, ProposalStatus, ProposalType, VoteOption, WinningGrant};

verus! {

broadcast use vstd::string::group_string_axioms;

/// Parameters fixed when the contract is set up.
#[derive(Clone, Debug, PartialEq, Eq)]
pub struct InstantiateMsg {
    pub owner: String,
    pub proposal_required_deposit: u128,
    /// Net yes percentage a proposal needs to pass, e.g. 51.
    pub proposal_required_percentage: u64,
    /// Epoch second at which the first posting period starts.
    pub period_start_epoch: u64,
    /// Length of a posting period in seconds.
    pub posting_period_length: u64,
    /// Length of a voting period in seconds.
    pub voting_period_length: u64,
}

/// Migration carries no parameters.
#[derive(Clone, Copy, Debug, PartialEq, Eq, Structural)]
pub struct MigrateMsg {}

/// Requests the governance contract executes.
#[derive(Clone, Debug, PartialEq, Eq)]
pub enum ExecuteMsg {
    Propose(ProposalMsg),
    Vote { id: u64, vote: VoteOption },
    Conclude { id: u64 },
    SetContract { art_dealer: String, identityservice: String },
    SetCoreSlot { proposal_id: u64 },
    UnsetCoreSlot { proposal_id: u64 },
    /// `note` explains the resignation; it only appears in the emitted attributes.
    ResignCoreSlot { slot: CoreSlot, note: String },
}

/// The parameters of each kind of proposal.
#[derive(Clone, Debug, PartialEq, Eq)]
pub enum ProposalMsg {
    TextProposal { title: String, description: String, funding: Option<Funding> },
    RequestFeature { title: String, description: String, funding: Funding, feature: Feature },
    /// `msgs` are the messages to execute, each held as its JSON encoding.
    Improvement { title: String, description: String, msgs: Vec<Vec<u8>> },
    CoreSlot { title: String, description: String, funding: Funding, slot: CoreSlot },
    RevokeProposal { title: String, description: String, revoke_proposal_id: u64 },
}

/// Grant request sent to the distribution contract.
#[derive(Clone, Debug, PartialEq, Eq)]
pub struct AddGrantMsg {
    pub add_grant: AddGrant,
}

/// A grant of `amount` to `dao` over `duration` seconds.
#[derive(Clone, Debug, PartialEq, Eq)]
pub struct AddGrant {
    pub dao: String,
    pub duration: u64,
    pub amount: u128,
}

/// A feature a proposal can request.
#[derive(Clone, Copy, Debug, PartialEq, Eq, Structural)]
pub enum Feature {
    ArtDealer { approved: u64 },
}

/// The three core slots a DAO can hold.
#[derive(Clone, Copy, Debug, PartialEq, Eq, Structural)]
pub enum CoreSlot {
    Brand {},
    Creative {},
    CoreTech {},
}

impl CoreSlot {
    /// The snake-case name of the slot.
    pub open spec fn name(self) -> Seq<char> {
        match self {
            CoreSlot::Brand {} => "brand"@,
            CoreSlot::Creative {} => "creative"@,
            CoreSlot::CoreTech {} => "core_tech"@,
        }
    }

    /// The snake-case name of the slot, as shown in event attributes.
    pub fn to_string(&self) -> (s: String)
        ensures
            s@ == self.name(),
    {
        match self {
            CoreSlot::Brand {} => "brand".to_string(),
            CoreSlot::Creative {} => "creative".to_string(),
            CoreSlot::CoreTech {} => "core_tech".to_string(),
        }
    }
}

/// The two phases of a governance cycle.
#[derive(Clone, Copy, Debug, PartialEq, Eq, Structural)]
pub enum ProposalPeriod {
    Posting,
    Voting,
}

/// Where the current block stands in the governance cycle.
#[derive(Clone, Copy, Debug, PartialEq, Eq, Structural)]
pub struct PeriodInfoResponse {
    pub current_block: u64,
    pub current_period: ProposalPeriod,
    pub current_time_in_cycle: u64,
    pub current_posting_start: u64,
    pub current_voting_start: u64,
    pub current_voting_end: u64,
    pub next_posting_start: u64,
    pub next_voting_start: u64,
    pub posting_period_length: u64,
    pub voting_period_length: u64,
    pub cycle_length: u64,
}

/// The grants currently being paid out.
#[derive(Clone, Debug, PartialEq, Eq)]
pub struct WinningGrantsResponse {
    pub winning_grants: Vec<WinningGrant>,
}

/// A proposal as reported by queries, with its status at query time.
#[derive(Clone, Debug, PartialEq, Eq)]
pub struct ProposalResponse {
    pub id: u64,
    pub dao: String,
    pub title: String,
    pub description: String,
    pub prop_type: ProposalType,
    pub coins_yes: u128,
    pub coins_no: u128,
    pub yes_voters: Vec<String>,
    pub no_voters: Vec<String>,
    pub deposit_amount: u128,
    pub start_block: u64,
    pub posting_start: u64,
    pub voting_start: u64,
    pub voting_end: u64,
    pub funding: Option<Funding>,
    pub concluded_at_height: Option<u64>,
    pub status: ProposalStatus,
    pub msgs: Option<Vec<ProposalAction>>,
}

/// A page of proposals.
#[derive(Clone, Debug, PartialEq, Eq)]
pub struct ProposalsResponse {
    pub proposal_count: u64,
    pub proposals: Vec<ProposalResponse>,
}

/// The configuration as reported by queries.
#[derive(Clone, Debug, PartialEq, Eq)]
pub struct ConfigResponse {
    pub art_dealer_addr: Option<String>,
    pub proposal_required_deposit: u128,
    pub proposal_required_percentage: u64,
    pub period_start_epoch: u64,
    pub posting_period_length: u64,
    pub voting_period_length: u64,
}

} // verus!
