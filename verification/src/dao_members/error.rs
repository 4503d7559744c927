//! Why a membership request is refused.

use vstd::prelude::*;
use crate::math::Threshold;
use crate::shared::StdError;

verus! {

/// Why a membership request is refused.
#[derive(Clone, Debug, PartialEq, Eq)]
pub enum ContractError {
    Std(StdError),
    /// The sender is not the DAO's admin.
    Admin {},
    /// A total weight left the range of `u64`.
    Overflow {},
    Unauthorized {},
    DuplicateMember { member: String },
    TooManyMembers { max: usize, actual: usize },
    WrongCoreTeamMemberCount { min: usize, max: usize },
    InvalidThresholdPercentage { current: u64 },
    InvalidTotalVotingPercentage { current: u64 },
    WrongCoreTeamMemberVotingPower { threshold: Threshold, current: u64 },
}

} // verus!
