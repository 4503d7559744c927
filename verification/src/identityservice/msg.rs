//! Messages of the identity service and the answers to its queries.

use vstd::prelude::*;
use crate::math::Threshold;
use crate::shared::Duration;
use crate::dao_members::msg::{InstantiateMsg as DaoMembersInstantiateMsg, Member};
use crate::identityservice::state::Identity;

verus! {

/// A DAO member and its voting weight.
#[derive(Clone, Debug, PartialEq, Eq)]
pub struct Voter {
    pub addr: String,
    pub weight: u64,
}

/// Parameters fixed when the service is set up.
#[derive(Clone, Debug, PartialEq, Eq)]
pub struct InstantiateMsg {
    pub owner: String,
    pub dao_members_code_id: u64,
    pub dao_multisig_code_id: u64,
    pub governance_addr: String,
}

/// The parameters of a DAO to register.
#[derive(Clone, Debug, PartialEq, Eq)]
pub struct RegisterDaoMsg {
    pub members: Vec<Member>,
    pub dao_name: String,
    pub threshold_percentage: u64,
    pub max_voting_period: Duration,
}

/// Requests the identity service executes.
#[derive(Clone, Debug, PartialEq, Eq)]
pub enum ExecuteMsg {
    RegisterUser { name: String },
    /// Register a DAO, setting up its membership contract with this message.
    RegisterDao(DaoMembersInstantiateMsg),
}

/// Order of a listing.
#[derive(Clone, Copy, Debug, PartialEq, Eq, Structural)]
pub enum SortOrder {
    Ascending,
    Descending,
}

/// Queries the identity service answers.
#[derive(Clone, Debug, PartialEq, Eq)]
pub enum QueryMsg {
    GetIdentityByOwner { owner: String },
    GetIdentityByName { name: String },
    Daos { start_after: Option<u64>, limit: Option<u32>, order: Option<SortOrder> },
}

/// The identity an address owns, if any.
#[derive(Clone, Debug, PartialEq, Eq)]
pub struct GetIdentityByOwnerResponse {
    pub identity: Option<Identity>,
}

/// The identity registered under a name, if any.
#[derive(Clone, Debug, PartialEq, Eq)]
pub struct GetIdentityByNameResponse {
    pub identity: Option<Identity>,
}

/// A page of registered DAOs with their numbers.
#[derive(Clone, Debug, PartialEq, Eq)]
pub struct DaosResponse {
    pub daos: Vec<(u64, String)>,
}

/// Who may execute a DAO's passed proposals.
#[derive(Clone, Debug, PartialEq, Eq)]
pub enum Executor {
    Member,
    Only(String),
}

/// The message that sets up a DAO's multisig on top of its membership contract.
#[derive(Clone, Debug, PartialEq, Eq)]
pub struct DaoMultisigInstantiateMsg {
    pub group_addr: String,
    pub executor: Option<Executor>,
    pub max_voting_period: Duration,
    pub threshold: Threshold,
    pub dao_name: String,
}

} // verus!
