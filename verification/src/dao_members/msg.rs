//! Messages of the DAO membership contract.

use vstd::prelude::*;
use crate::math::Threshold;
use crate::shared::Duration;

verus! {

/// A member and its voting weight.
#[derive(Clone, Debug, PartialEq, Eq)]
pub struct Member {
    pub addr: String,
    pub weight: u64,
}

/// Parameters of a new DAO.
#[derive(Clone, Debug, PartialEq, Eq)]
pub struct InstantiateMsg {
    pub members: Vec<Member>,
    /// Yes weight needed to pass a DAO proposal, at most 100.
    pub threshold_percentage: u64,
    pub max_voting_period: Duration,
    pub dao_name: String,
    pub governance_addr: String,
}

/// Requests the membership contract executes.
#[derive(Clone, Debug, PartialEq, Eq)]
pub enum ExecuteMsg {
    UpdateAdmin { admin: Option<String> },
    UpdateMembers { remove: Vec<String>, add: Vec<Member> },
    AddHook { addr: String },
    RemoveHook { addr: String },
}

/// Queries the membership contract answers.
#[derive(Clone, Debug, PartialEq, Eq)]
pub enum QueryMsg {
    Admin {},
    TotalWeight { at_height: Option<u64> },
    ListMembers { start_after: Option<String>, limit: Option<u32> },
    Member { addr: String, at_height: Option<u64> },
    Hooks {},
    Config {},
}

/// The DAO's configuration as reported by queries.
#[derive(Clone, Debug, PartialEq, Eq)]
pub struct ConfigResponse {
    pub dao_name: String,
    pub max_voting_period: Duration,
    pub threshold: Threshold,
}

} // verus!
