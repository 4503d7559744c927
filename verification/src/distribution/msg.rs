//! Messages of the distribution contract and the answers to its queries.

use vstd::prelude::*;
use crate::math::Timestamp;
use crate::distribution::state::Grant;

verus! {

/// Parameters fixed when the contract is set up.
#[derive(Clone, Debug, PartialEq, Eq)]
pub struct InstantiateMsg {
    pub owner: String,
    pub identityservice_contract: String,
}

/// Requests the distribution contract executes.
#[derive(Clone, Debug, PartialEq, Eq)]
pub enum ExecuteMsg {
    /// Grant `amount` to `dao` over `duration` seconds.
    AddGrant { dao: String, duration: u64, amount: u128 },
    /// Pay out what has vested of grant `grant_id`.
    Claim { grant_id: u64 },
}

/// Queries the distribution contract answers.
#[derive(Clone, Debug, PartialEq, Eq)]
pub enum QueryMsg {
    Config {},
    Grant { grant_id: u64 },
    Grants { dao: Option<String>, start_after: Option<String>, limit: Option<u32> },
}

/// The configuration as reported by queries.
#[derive(Clone, Debug, PartialEq, Eq)]
pub struct ConfigResponse {
    pub owner: String,
    pub identityservice_contract: String,
}

/// A grant as reported by queries, with what could be claimed now.
#[derive(Clone, Debug, PartialEq, Eq)]
pub struct GrantResponse {
    pub grant_id: u64,
    pub dao: String,
    pub amount_approved: u128,
    pub amount_remaining: u128,
    pub started: Timestamp,
    pub expires: Timestamp,
    pub claimable_amount: u128,
}

/// A page of grants.
#[derive(Clone, Debug, PartialEq, Eq)]
pub struct GrantsResponse {
    pub grants: Vec<Grant>,
}

} // verus!
