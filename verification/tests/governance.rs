use jmes::governance::contract::{conclude, instantiate, set_contract, vote, Conclusion};
use jmes::governance::error::ContractError;
use jmes::governance::msg::{CoreSlot, Feature, InstantiateMsg, PeriodInfoResponse, ProposalMsg, ProposalPeriod};
use jmes::governance::period::period_info;
use jmes::governance::query::{core_slots as query_core_slots, proposal as query_proposal};
use jmes::governance::slots::{
    resign_core_slot, set_core_slot, unset_core_slot, CoreSlotAssignment, SlotClaim,
};
use jmes::governance::state::{
    Config, CoreSlots, Funding, Proposal, ProposalAction, ProposalStatus, ProposalType, VoteOption, WinningGrant,
    RESERVED_SUPPLY,
};
use jmes::governance::submit::{proposal, DaoMembership, Submission};
use jmes::identityservice::state::{IdType, Identity};
use jmes::math::{Decimal, Threshold, Timestamp};
use jmes::shared::{Coin, Env, MessageInfo, SlotVoteResult, Voter};

const PROPOSAL_REQUIRED_DEPOSIT: u128 = 1000;
const GOVERNANCE: &str = "contract1";
const MY_DAO: &str = "contract4";
const USER1_VOTING_COINS: u128 = 2000;

fn governance_config() -> Config {
    let state = instantiate(InstantiateMsg {
        owner: "owner".to_string(),
        proposal_required_deposit: PROPOSAL_REQUIRED_DEPOSIT,
        proposal_required_percentage: 51,
        period_start_epoch: 0,
        posting_period_length: 40,
        voting_period_length: 40,
    });
    assert_eq!(state.core_slots, CoreSlots { brand: None, creative: None, core_tech: None });
    assert_eq!(state.proposal_count, 0);
    set_contract(state.config, &"owner".to_string(), "artist_curator".to_string(), "contract2".to_string()).unwrap()
}

fn env(height: u64, now: u64) -> Env {
    Env { block_height: height, block_time: Timestamp::from_seconds(now), contract_address: GOVERNANCE.to_string() }
}

fn dao_identity() -> Option<Identity> {
    Some(Identity { owner: MY_DAO.to_string(), name: "my_dao".to_string(), id_type: IdType::Dao })
}

fn deposit_info() -> MessageInfo {
    MessageInfo {
        sender: MY_DAO.to_string(),
        funds: vec![Coin { denom: "ujmes".to_string(), amount: PROPOSAL_REQUIRED_DEPOSIT }],
    }
}

fn voters() -> Vec<Voter> {
    vec![
        Voter { addr: "user1".to_string(), weight: 26 },
        Voter { addr: "user2".to_string(), weight: 26 },
        Voter { addr: "user3".to_string(), weight: 26 },
    ]
}

fn threshold() -> Threshold {
    Threshold::AbsoluteCount { weight: 51 }
}

fn membership() -> Option<DaoMembership> {
    Some(DaoMembership { voters: voters(), threshold: threshold() })
}

/// Posts `msg` as the DAO at second `now` of block `height`.
fn post(config: &Config, count: Option<u64>, slots: &CoreSlots, height: u64, now: u64, msg: ProposalMsg) -> Result<Submission, ContractError> {
    let period = period_info(config, now, height);
    proposal(config, &dao_identity(), &period, &env(height, now), &deposit_info(), count, slots, &membership(), msg)
}

/// Votes with user1's coins during the proposal's voting period, checks that
/// it cannot be concluded early, concludes it after the voting end, and
/// checks that it cannot be concluded twice.
fn vote_and_conclude(config: &Config, p: Proposal, option: VoteOption, slots: &CoreSlots, grants: Vec<WinningGrant>) -> Conclusion {
    let vote_time = p.voting_start + 5;
    let period = period_info(config, vote_time, 20000);
    assert_eq!(period.current_period, ProposalPeriod::Voting);
    let voted = vote(&period, p, "user1".to_string(), vote_time, USER1_VOTING_COINS, option).unwrap();
    let supply = RESERVED_SUPPLY + USER1_VOTING_COINS;
    let early = conclude(voted.clone(), config, slots, grants.clone(), 20000, vote_time, supply);
    assert_eq!(early, Err(ContractError::VotingPeriodNotEnded));
    let end_time = voted.voting_end + 5;
    let c = conclude(voted, config, slots, grants.clone(), 20010, end_time, supply).unwrap();
    let again = conclude(c.proposal.clone(), config, slots, grants, 20011, end_time + 1, supply);
    assert_eq!(again, Err(ContractError::ProposalAlreadyConcluded {}));
    c
}

fn core_slot_msg(slot: CoreSlot) -> ProposalMsg {
    ProposalMsg::CoreSlot {
        title: "Make me CoreTech".to_string(),
        description: "Serving the chain".to_string(),
        funding: Funding { amount: 1000, duration_in_blocks: 1000 },
        slot,
    }
}

/// Wins `slot` for the DAO with proposal number `count + 1`.
fn win_slot(config: &Config, count: Option<u64>, slots: CoreSlots, slot: CoreSlot, now: u64) -> (Conclusion, CoreSlotAssignment) {
    let sub = post(config, count, &slots, 12345, now, core_slot_msg(slot)).unwrap();
    assert_eq!(sub.burn_amount, PROPOSAL_REQUIRED_DEPOSIT);
    let c = vote_and_conclude(config, sub.proposal, VoteOption::Yes, &slots, vec![]);
    assert!(c.execute_msgs);
    assert_eq!(c.proposal.concluded_status, Some(ProposalStatus::SuccessConcluded));
    let assignment = set_core_slot(
        &GOVERNANCE.to_string(),
        &GOVERNANCE.to_string(),
        &c.proposal,
        &voters(),
        &threshold(),
        slots,
        c.winning_grants.clone(),
    )
    .unwrap();
    (c, assignment)
}

#[test]
fn set_core_slot_brand_then_revoke_fail_then_revoke() {
    let config = governance_config();
    let empty = CoreSlots { brand: None, creative: None, core_tech: None };
    let (won, assignment) = win_slot(&config, None, empty, CoreSlot::Brand {}, 1660000005);
    assert_eq!(won.proposal.id, 1);
    assert_eq!(won.proposal.voting_end, 1660000080);
    let slots = match assignment {
        CoreSlotAssignment::Assigned { core_slots, claim, .. } => {
            assert_eq!(claim, SlotClaim::ClaimedEmpty);
            core_slots
        },
        CoreSlotAssignment::AlreadyHoldsSlot => panic!("slot not assigned"),
    };
    assert_eq!(
        slots.brand,
        Some(SlotVoteResult {
            dao: MY_DAO.to_string(),
            yes_ratio: Decimal::percent(100),
            proposal_voting_end: 1660000080,
            proposal_funding_end: 21010,
            proposal_id: 1,
        })
    );
    assert_eq!(query_core_slots(slots.clone(), 12400).brand.unwrap().dao, MY_DAO);

    // A failing revoke proposal
    let revoke = ProposalMsg::RevokeProposal {
        title: "Remove Brand Dao".to_string(),
        description: "Leave it vacant".to_string(),
        revoke_proposal_id: 1,
    };
    let sub = post(&config, Some(1), &slots, 12363, 1660000085, revoke.clone()).unwrap();
    assert_eq!(sub.proposal.id, 2);
    assert_eq!(sub.proposal.start_block, 12363);
    assert_eq!(sub.proposal.posting_start, 1660000080);
    assert_eq!(sub.proposal.voting_start, 1660000120);
    assert_eq!(sub.proposal.voting_end, 1660000160);
    let failing = vote_and_conclude(&config, sub.proposal, VoteOption::No, &slots, won.winning_grants.clone());
    assert!(!failing.execute_msgs);
    // concluding keeps only grants still running at the conclusion height
    assert!(failing.winning_grants.iter().all(|g| g.expire_at_height >= 20010));
    assert_eq!(failing.winning_grants.len(), 1);
    let response = query_proposal(failing.proposal.clone(), RESERVED_SUPPLY + USER1_VOTING_COINS, 1660000200, 51);
    assert_eq!(response.id, 2);
    assert_eq!(response.dao, MY_DAO);
    assert_eq!(response.title, "Remove Brand Dao");
    assert_eq!(response.description, "Leave it vacant");
    assert_eq!(response.prop_type, ProposalType::RevokeProposal(1));
    assert_eq!((response.coins_yes, response.coins_no), (0, 2000));
    assert_eq!(response.yes_voters, Vec::<String>::new());
    assert_eq!(response.no_voters, vec!["user1".to_string()]);
    assert_eq!(response.deposit_amount, 1000);
    assert_eq!(response.status, ProposalStatus::ExpiredConcluded);
    assert_eq!(slots.brand.clone().unwrap().dao, MY_DAO);

    // A successful revoke proposal
    let sub = post(&config, Some(2), &slots, 12379, 1660000165, revoke).unwrap();
    assert_eq!(sub.proposal.id, 3);
    assert_eq!(sub.proposal.posting_start, 1660000160);
    assert_eq!(sub.proposal.voting_start, 1660000200);
    assert_eq!(sub.proposal.voting_end, 1660000240);
    assert_eq!(
        sub.proposal.msgs,
        Some(vec![ProposalAction::UnsetCoreSlot { contract_addr: GOVERNANCE.to_string(), proposal_id: 3 }])
    );
    let success = vote_and_conclude(&config, sub.proposal, VoteOption::Yes, &slots, won.winning_grants.clone());
    assert!(success.execute_msgs);
    let response = query_proposal(success.proposal.clone(), RESERVED_SUPPLY + USER1_VOTING_COINS, 1660000300, 51);
    assert_eq!((response.coins_yes, response.coins_no), (2000, 0));
    assert_eq!(response.yes_voters, vec!["user1".to_string()]);
    assert_eq!(response.status, ProposalStatus::SuccessConcluded);
    let revocation = unset_core_slot(
        &GOVERNANCE.to_string(),
        &GOVERNANCE.to_string(),
        &success.proposal,
        &Some(won.proposal.clone()),
        slots,
        success.winning_grants.clone(),
    )
    .unwrap();
    assert_eq!(revocation.core_slots.brand, None);
    assert!(revocation.winning_grants.iter().all(|g| g.proposal_id != 1));
}

#[test]
fn set_core_slot_creative_and_fail_setting_a_second_slot_for_the_same_dao() {
    let config = governance_config();
    let empty = CoreSlots { brand: None, creative: None, core_tech: None };
    let (_, assignment) = win_slot(&config, None, empty, CoreSlot::Creative {}, 1660000005);
    let slots = match assignment {
        CoreSlotAssignment::Assigned { core_slots, .. } => core_slots,
        CoreSlotAssignment::AlreadyHoldsSlot => panic!("slot not assigned"),
    };
    assert_eq!(slots.creative.clone().unwrap().dao, MY_DAO);
    let (second, assignment) = win_slot(&config, Some(1), slots, CoreSlot::Brand {}, 1660000085);
    assert_eq!(assignment, CoreSlotAssignment::AlreadyHoldsSlot);
    assert_eq!(second.proposal.concluded_status, Some(ProposalStatus::SuccessConcluded));
}

#[test]
fn set_core_slot_tech_and_resign() {
    let config = governance_config();
    let empty = CoreSlots { brand: None, creative: None, core_tech: None };
    let (_, assignment) = win_slot(&config, None, empty, CoreSlot::CoreTech {}, 1660000005);
    let slots = match assignment {
        CoreSlotAssignment::Assigned { core_slots, .. } => core_slots,
        CoreSlotAssignment::AlreadyHoldsSlot => panic!("slot not assigned"),
    };
    assert_eq!(slots.core_tech.clone().unwrap().dao, MY_DAO);
    assert_eq!(
        resign_core_slot(slots.clone(), &"user1".to_string(), CoreSlot::CoreTech {}),
        Err(ContractError::Unauthorized {})
    );
    let after = resign_core_slot(slots, &MY_DAO.to_string(), CoreSlot::CoreTech {}).unwrap();
    assert_eq!(after.core_tech, None);
}

#[test]
fn set_core_slot_unauthorized() {
    let config = governance_config();
    let empty = CoreSlots { brand: None, creative: None, core_tech: None };
    let sub = post(&config, None, &empty, 12345, 1660000005, core_slot_msg(CoreSlot::Brand {})).unwrap();
    let r = set_core_slot(
        &GOVERNANCE.to_string(),
        &"user1".to_string(),
        &sub.proposal,
        &voters(),
        &threshold(),
        empty,
        vec![],
    );
    assert_eq!(r, Err(ContractError::Unauthorized {}));
}

fn improvement_msg() -> ProposalMsg {
    ProposalMsg::Improvement {
        title: "Send funds".to_string(),
        description: "BankMsg".to_string(),
        msgs: vec![br#"{"bank":{"send":{"to_address":"user1","amount":[{"denom":"ujmes","amount":"100000"}]}}}"#.to_vec()],
    }
}

fn improvement_flow(option: VoteOption) -> Conclusion {
    let config = governance_config();
    let empty = CoreSlots { brand: None, creative: None, core_tech: None };
    // only the core tech DAO may post improvements
    assert_eq!(
        post(&config, None, &empty, 12345, 1660000005, improvement_msg()).unwrap_err(),
        ContractError::Unauthorized {}
    );
    let (_, assignment) = win_slot(&config, None, empty, CoreSlot::CoreTech {}, 1660000005);
    let slots = match assignment {
        CoreSlotAssignment::Assigned { core_slots, .. } => core_slots,
        CoreSlotAssignment::AlreadyHoldsSlot => panic!("slot not assigned"),
    };
    let sub = post(&config, Some(1), &slots, 12363, 1660000085, improvement_msg()).unwrap();
    assert_eq!(sub.proposal.prop_type, ProposalType::Improvement {});
    let msgs = match improvement_msg() {
        ProposalMsg::Improvement { msgs, .. } => msgs,
        _ => unreachable!(),
    };
    assert_eq!(sub.proposal.msgs, Some(vec![ProposalAction::Custom { msg: msgs[0].clone() }]));
    vote_and_conclude(&config, sub.proposal, option, &slots, vec![])
}

#[test]
fn improvement_bankmsg() {
    let c = improvement_flow(VoteOption::Yes);
    assert!(c.execute_msgs);
    assert_eq!(c.proposal.concluded_status, Some(ProposalStatus::SuccessConcluded));
}

#[test]
fn improvement_bankmsg_failing() {
    let c = improvement_flow(VoteOption::No);
    assert!(!c.execute_msgs);
    assert_eq!(c.proposal.concluded_status, Some(ProposalStatus::ExpiredConcluded));
}

#[test]
fn test_contract_instantiation() {
    let config = governance_config();
    assert_eq!(config.owner, None);
    assert_eq!(config.art_dealer_addr, Some("artist_curator".to_string()));
    assert_eq!(config.identityservice_addr, Some("contract2".to_string()));
    assert_eq!(config.proposal_required_deposit, PROPOSAL_REQUIRED_DEPOSIT);
    // the owner may link the contracts only once
    assert_eq!(
        set_contract(config, &"owner".to_string(), "a".to_string(), "b".to_string()),
        Err(ContractError::Unauthorized {})
    );
}

#[test]
fn test_feature_proposal_artist_curator() {
    let config = Config {
        period_start_epoch: 1660000000,
        posting_period_length: 300000,
        voting_period_length: 606864,
        ..governance_config()
    };
    let empty = CoreSlots { brand: None, creative: None, core_tech: None };
    let supply = RESERVED_SUPPLY + PROPOSAL_REQUIRED_DEPOSIT * 2;

    // the chain starts at 1660000010, block 12345: posting
    let posting = period_info(&config, 1660000010, 12345);
    assert_eq!(posting.current_period, ProposalPeriod::Posting);
    assert_eq!(posting.current_time_in_cycle, 10);
    // one posting period later: voting
    let voting = period_info(&config, 1660000010 + 300000, 12345 + 300000 / 5);
    assert_eq!(voting.current_period, ProposalPeriod::Voting);
    assert_eq!(voting.current_time_in_cycle, 10 + config.posting_period_length);
    assert_eq!(voting.current_time_in_cycle, 300010);

    // one voting period later: posting again, at second 1660906874 of block 132345
    let post_time = 1660000010 + 300000 + 606864;
    assert_eq!(post_time, 1660906874);
    let msg = ProposalMsg::RequestFeature {
        title: "Artist Curator".to_string(),
        description: "Proposal".to_string(),
        funding: Funding { amount: 0, duration_in_blocks: 300 },
        feature: Feature::ArtDealer { approved: 2 },
    };
    let sub = post(&config, None, &empty, 132345, post_time, msg).unwrap();
    assert_eq!(sub.burn_amount, 1000);
    let p = sub.proposal;
    assert_eq!(p.id, 1);
    assert_eq!(p.dao, MY_DAO);
    assert_eq!(p.title, "Artist Curator");
    assert_eq!(p.description, "Proposal");
    assert_eq!(p.prop_type, ProposalType::FeatureRequest(Feature::ArtDealer { approved: 2 }));
    assert_eq!((p.coins_yes, p.coins_no), (0, 0));
    assert_eq!(p.yes_voters, Vec::<String>::new());
    assert_eq!(p.no_voters, Vec::<String>::new());
    assert_eq!(p.deposit_amount, 1000);
    assert_eq!(p.start_block, 132345);
    assert_eq!(p.posting_start, 1660906864);
    assert_eq!(p.voting_start, 1661206864);
    assert_eq!(p.voting_end, 1661813728);
    assert_eq!(p.concluded_at_height, None);
    assert_eq!(
        p.msgs,
        Some(vec![ProposalAction::ApproveDealer {
            contract_addr: "artist_curator".to_string(),
            dao: MY_DAO.to_string(),
            approved: 2,
            duration: 300,
        }])
    );
    assert_eq!(query_proposal(p.clone(), supply, post_time, 51).status, ProposalStatus::Posted);

    // voting in the posting period is refused
    let posting_again = period_info(&config, post_time, 132345);
    let err = vote(&posting_again, p.clone(), "user1".to_string(), post_time, 1000, VoteOption::Yes).unwrap_err();
    assert_eq!(err, ContractError::NotVotingPeriod {});

    // one posting period later the vote counts
    let vote_time = post_time + 300000;
    let voting_again = period_info(&config, vote_time, 132345 + 300000 / 5);
    assert_eq!(voting_again.current_period, ProposalPeriod::Voting);
    assert_eq!(voting_again.current_time_in_cycle, 10 + config.posting_period_length);
    let voted = vote(&voting_again, p, "user1".to_string(), vote_time, 1000, VoteOption::Yes).unwrap();
    let r = query_proposal(voted.clone(), supply, vote_time, 51);
    assert_eq!(r.id, 1);
    assert_eq!((r.coins_yes, r.coins_no), (1000, 0));
    assert_eq!(r.yes_voters, vec!["user1".to_string()]);
    assert_eq!(r.no_voters, Vec::<String>::new());
    assert_eq!(r.deposit_amount, 1000);
    assert_eq!(r.start_block, 132345);
    assert_eq!(r.posting_start, 1660906864);
    assert_eq!(r.voting_start, 1661206864);
    assert_eq!(r.voting_end, 1661813728);
    assert_eq!(r.concluded_at_height, None);
    assert_eq!(r.status, ProposalStatus::Voting);
    // a second vote by the same address is refused
    let err = vote(&voting_again, voted, "user1".to_string(), vote_time, 1000, VoteOption::No).unwrap_err();
    assert_eq!(err, ContractError::UserAlreadyVoted {});
}

#[test]
fn period_info_values() {
    let config = governance_config();
    let info: PeriodInfoResponse = period_info(&config, 1660000045, 7);
    assert_eq!(
        info,
        PeriodInfoResponse {
            current_block: 7,
            current_period: ProposalPeriod::Voting,
            current_time_in_cycle: 45,
            current_posting_start: 1660000000,
            current_voting_start: 1660000040,
            current_voting_end: 1660000080,
            next_posting_start: 1660000080,
            next_voting_start: 1660000120,
            posting_period_length: 40,
            voting_period_length: 40,
            cycle_length: 80,
        }
    );
    // the boundary second still belongs to the posting period
    assert_eq!(period_info(&config, 1660000040, 7).current_period, ProposalPeriod::Posting);
    assert_eq!(period_info(&config, 1660000041, 7).current_period, ProposalPeriod::Voting);
}
