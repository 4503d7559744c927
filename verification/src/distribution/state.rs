//! Stored grants.

use vstd::prelude::*;
use crate::math::Timestamp;

verus! {

/// The contract's configuration; `owner` (the governance contract) adds grants.
#[derive(Clone, Debug, PartialEq, Eq)]
pub struct Config {
    pub owner: String,
    pub identityservice_contract: String,
}

/// A grant of `amount_approved` to `dao`, vesting linearly from `started`
/// to `expires`; `amount_remaining` is what has not been paid out yet.
#[derive(Clone, Debug, PartialEq, Eq)]
pub struct Grant {
    pub grant_id: u64,
    pub dao: String,
    pub amount_approved: u128,
    pub amount_remaining: u128,
    pub started: Timestamp,
    pub expires: Timestamp,
}

impl Grant {
    /// The number of the next grant, `count` being the last one handed out.
    pub fn next_id(count: Option<u64>) -> (id: u64)
        requires
            count matches Some(c) ==> c < u64::MAX,
        ensures
            id == match count {
                Some(c) => (c + 1) as u64,
                None => 1u64,
            },
    {
        crate::shared::next_id(count)
    }
}

} // verus!
