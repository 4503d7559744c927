//! Why a governance request is refused.

use vstd::prelude::*;
use crate::math::Threshold;
use crate::shared::StdError;

verus! {

/// Why a governance request is refused.
#[derive(Clone, Debug, PartialEq, Eq)]
pub enum ContractError {
    StdError(StdError),
    Unauthorized {},
    WrongCoreTeamMemberCount { min: usize, max: usize },
    WrongCoreTeamMemberVotingPower { threshold: Threshold, current: u64 },
    InsufficientProposalFee { proposal_fee: u128 },
    NoVoteCoins { min_vote_coins: u128 },
    InsufficientVoteCoins { min_vote_coins: u128 },
    UserAlreadyVoted {},
    ProposalNotActive {},
    NotPostingPeriod {},
    NotVotingPeriod {},
    TooLateToChallengeCoreSlot {},
    VotingPeriodNotEnded,
    ProposalNotValid { error: String },
    ProposalAlreadyConcluded {},
    ProposalVotingEnded {},
    InvalidProposalType {},
    WrongDao {},
    AlreadyHoldingCoreSlot {},
}

} // verus!
