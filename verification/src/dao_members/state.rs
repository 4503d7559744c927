//! Stored DAO configuration.

use vstd::prelude::*;
use crate::math::Threshold;
use crate::shared::Duration;

verus! {

/// The DAO's configuration.
#[derive(Clone, Debug, PartialEq, Eq)]
pub struct Config {
    pub threshold: Threshold,
    pub max_voting_period: Duration,
    pub dao_name: String,
    pub governance_addr: String,
}

} // verus!
