//! Stored identities.

use vstd::prelude::*;

verus! {

/// The service's configuration.
#[derive(Clone, Debug, PartialEq, Eq)]
pub struct Config {
    pub owner: String,
    pub dao_members_code_id: u64,
    pub dao_multisig_code_id: u64,
}

/// A registered name and the address that owns it.
#[derive(Clone, Debug, PartialEq, Eq)]
pub struct Identity {
    pub owner: String,
    pub name: String,
    pub id_type: IdType,
}

/// Whether an identity belongs to a user or to a DAO.
#[derive(Clone, Copy, Debug, PartialEq, Eq, Structural)]
pub enum IdType {
    User,
    Dao,
}

} // verus!
