use jmes::governance::query::proposals_page;
use jmes::distribution::contract::claim_computable;
use jmes::distribution::state::Grant;
use jmes::governance::contract::conclude_computable;
use jmes::governance::slots::slot_vote_computable;
use jmes::governance::state::{Funding, RESERVED_SUPPLY};
use jmes::math::Timestamp;
use jmes::governance::period::period_computable;
use jmes::governance::state::Config;
use jmes::governance::error::ContractError;
use jmes::governance::msg::CoreSlot;
use jmes::governance::slots::{winning_core_slot, SlotClaim};
use jmes::governance::state::{Proposal, ProposalStatus, ProposalType};
use jmes::math::{Decimal, Threshold, ThresholdError};
use jmes::shared::{page_limit, ProposalQueryStatus, SlotVoteResult};

#[test]
fn query_status_names() {
    assert_eq!(ProposalQueryStatus::Active.to_string(), "active");
    assert_eq!(ProposalQueryStatus::SuccessConcluded.to_string(), "success_concluded");
    assert_eq!(ProposalQueryStatus::ExpiredConcluded.to_string(), "expired_concluded");
    assert_eq!(CoreSlot::Brand {}.to_string(), "brand");
    assert_eq!(CoreSlot::Creative {}.to_string(), "creative");
    assert_eq!(CoreSlot::CoreTech {}.to_string(), "core_tech");
}

#[test]
fn decimal_arithmetic() {
    assert_eq!(Decimal::from_ratio(1, 3).atomics, 333_333_333_333_333_333);
    assert_eq!(Decimal::from_ratio(51, 100), Decimal::percent(51));
    assert_eq!(Decimal::from_ratio(2000, 2000), Decimal::percent(100));
    assert_eq!(Decimal::permille(250).mul_floor(1000), 250);
    assert_eq!(Decimal::from_ratio(1, 3).mul_floor(10), 3);
    assert_eq!(Decimal::percent(150).mul_floor(7), 10);
}

#[test]
fn threshold_validation() {
    assert_eq!(Threshold::AbsoluteCount { weight: 0 }.validate(10), Err(ThresholdError::ZeroWeight));
    assert_eq!(Threshold::AbsoluteCount { weight: 11 }.validate(10), Err(ThresholdError::UnreachableWeight));
    assert_eq!(Threshold::AbsoluteCount { weight: 10 }.validate(10), Ok(()));
    assert_eq!(Threshold::AbsolutePercentage { percentage: Decimal::percent(49) }.validate(1), Err(ThresholdError::InvalidThreshold));
    assert_eq!(Threshold::AbsolutePercentage { percentage: Decimal::percent(50) }.validate(1), Ok(()));
    assert_eq!(
        Threshold::ThresholdQuorum { threshold: Decimal::percent(60), quorum: Decimal::zero() }.validate(1),
        Err(ThresholdError::ZeroQuorumThreshold)
    );
    assert_eq!(
        Threshold::ThresholdQuorum { threshold: Decimal::percent(60), quorum: Decimal::percent(101) }.validate(1),
        Err(ThresholdError::UnreachableQuorumThreshold)
    );
}

#[test]
fn page_limits() {
    assert_eq!(page_limit(None, 10, 30), 10);
    assert_eq!(page_limit(Some(5), 10, 30), 5);
    assert_eq!(page_limit(Some(50), 10, 30), 30);
}

fn slot(dao: &str, end: u64, yes: u128, id: u64) -> SlotVoteResult {
    SlotVoteResult { dao: dao.to_string(), yes_ratio: Decimal { atomics: yes }, proposal_voting_end: end, proposal_funding_end: 0, proposal_id: id }
}

#[test]
fn slot_contests() {
    let (w, c, r) = winning_core_slot(slot("a", 10, 5, 1), slot("b", 20, 1, 2));
    assert_eq!((w.dao.as_str(), c, r), ("b", SlotClaim::ClaimedFromPreviousPeriod, None));
    let (w, c, r) = winning_core_slot(slot("a", 10, 5, 1), slot("a", 20, 1, 2));
    assert_eq!((w.proposal_id, c, r), (2, SlotClaim::ClaimedFromPreviousPeriod, Some(1)));
    let (w, c, r) = winning_core_slot(slot("a", 10, 5, 1), slot("b", 10, 6, 2));
    assert_eq!((w.dao.as_str(), c, r), ("b", SlotClaim::ClaimedWithLargerYesRatio, Some(1)));
    let (w, c, r) = winning_core_slot(slot("a", 10, 5, 1), slot("b", 10, 5, 2));
    assert_eq!((w.dao.as_str(), c, r), ("a", SlotClaim::LargerYesRatioExists, None));
    let (w, c, _) = winning_core_slot(slot("a", 10, 5, 1), slot("b", 5, 9, 2));
    assert_eq!((w.dao.as_str(), c), ("a", SlotClaim::OlderProposal));
    assert_eq!(SlotClaim::ClaimedEmpty.to_string(), "claimed empty core slot");
}

fn text_proposal(title: &str, description: &str) -> Proposal {
    Proposal {
        id: 1,
        dao: "dao".to_string(),
        title: title.to_string(),
        description: description.to_string(),
        prop_type: ProposalType::Text {},
        coins_yes: 0,
        coins_no: 0,
        yes_voters: vec![],
        no_voters: vec![],
        deposit_amount: 0,
        start_block: 0,
        posting_start: 0,
        voting_start: 10,
        voting_end: 20,
        concluded_at_height: None,
        concluded_status: None,
        concluded_coins_total: None,
        funding: None,
        msgs: None,
    }
}

#[test]
fn proposal_text_rules() {
    let err = |m: &str| Err(ContractError::ProposalNotValid { error: m.to_string() });
    assert_eq!(text_proposal("Good title", "Good description!").validate(), Ok(()));
    assert_eq!(text_proposal("abc", "Good description").validate(), err("Title too short!"));
    assert_eq!(text_proposal(&"a".repeat(65), "Good description").validate(), err("Title too long!"));
    assert_eq!(text_proposal("Bad <title>", "Good description").validate(), err("Title is not in alphanumeric format!"));
    assert_eq!(text_proposal("Good title", "abc").validate(), err("Description too short!"));
    assert_eq!(text_proposal("Good title", &"a".repeat(1025)).validate(), err("Description too long!"));
    assert_eq!(text_proposal("Good title", "Bad; description").validate(), err("Description is not in alphanumeric format"));
}

#[test]
fn proposal_status_over_time() {
    let mut p = text_proposal("Good title", "Good description");
    let reserved = jmes::governance::state::RESERVED_SUPPLY;
    assert_eq!(p.query_status(reserved + 100, 5, 10), ProposalStatus::Posted);
    assert_eq!(p.query_status(reserved + 100, 15, 10), ProposalStatus::Voting);
    p.coins_yes = 15;
    p.coins_no = 5;
    // net yes 10 of 100 reaches 10%
    assert_eq!(p.query_status(reserved + 100, 25, 10), ProposalStatus::Success);
    assert_eq!(p.query_status(reserved + 101, 25, 10), ProposalStatus::Expired);
    p.set_concluded_status(reserved + 100, 25, 10);
    assert_eq!(p.concluded_status, Some(ProposalStatus::SuccessConcluded));
    // once concluded, the status no longer moves
    assert_eq!(p.query_status(reserved + 1_000_000, 99, 10), ProposalStatus::SuccessConcluded);
}

#[test]
fn checked_ratios() {
    assert_eq!(Decimal::checked_from_ratio(1, 3), Some(Decimal { atomics: 333_333_333_333_333_333 }));
    assert_eq!(Decimal::checked_from_ratio(7, 7), Some(Decimal::percent(100)));
    // 2^128 - 1 whole units do not fit eighteen decimals
    assert_eq!(Decimal::checked_from_ratio(u128::MAX, 1), None);
    assert_eq!(Decimal::checked_from_ratio(u128::MAX, u128::MAX), Some(Decimal::percent(100)));
}

#[test]
fn computability_checks() {

    let mut p = text_proposal("Good title", "Good description");
    // before the voting end nothing needs the supply
    assert!(p.status_computable(0, 15));
    // after it, the supply must cover the reserve
    assert!(!p.status_computable(RESERVED_SUPPLY - 1, 25));
    assert!(p.status_computable(RESERVED_SUPPLY, 25));
    p.coins_yes = u128::MAX;
    assert!(!p.status_computable(RESERVED_SUPPLY + 1, 25));
    assert!(conclude_computable(&p, 5, 15, 0, 10));
    assert!(!conclude_computable(&p, 5, 25, RESERVED_SUPPLY + 1, 10));

    p.coins_yes = 10;
    p.funding = Some(Funding { amount: 1, duration_in_blocks: u64::MAX });
    // a success whose grant would end beyond u64 cannot be concluded
    assert!(!conclude_computable(&p, 5, 25, RESERVED_SUPPLY + 10, 10));
    assert!(conclude_computable(&p, 0, 25, RESERVED_SUPPLY + 10, 10));

    assert!(!slot_vote_computable(&p));
    p.concluded_at_height = Some(3);
    p.funding = Some(Funding { amount: 1, duration_in_blocks: 7 });
    assert!(slot_vote_computable(&p));
    p.coins_yes = 0;
    assert!(!slot_vote_computable(&p));

    let grant = Grant {
        grant_id: 1,
        dao: "dao".to_string(),
        amount_approved: 100,
        amount_remaining: 100,
        started: Timestamp::from_seconds(10),
        expires: Timestamp::from_seconds(20),
    };
    assert!(claim_computable(Timestamp::from_seconds(15), &grant));
    assert!(!claim_computable(Timestamp::from_seconds(5), &grant));
    let instant = Grant { expires: Timestamp::from_seconds(10), ..grant.clone() };
    assert!(!claim_computable(Timestamp::from_seconds(15), &instant));
    // more paid out than has vested
    let overpaid = Grant { amount_remaining: 10, ..grant };
    assert!(!claim_computable(Timestamp::from_seconds(15), &overpaid));
}

#[test]
fn period_computability() {
    let config = Config {
        owner: None,
        art_dealer_addr: None,
        identityservice_addr: None,
        proposal_required_deposit: 0,
        proposal_required_percentage: 10,
        period_start_epoch: 100,
        posting_period_length: 40,
        voting_period_length: 40,
    };
    assert!(!period_computable(&config, 99));
    assert!(period_computable(&config, 100));
    assert!(!period_computable(&Config { posting_period_length: 0, voting_period_length: 0, ..config.clone() }, 150));
    assert!(!period_computable(&Config { posting_period_length: u64::MAX, ..config }, 150));
}

#[test]
fn proposal_listing_pages() {
    let with = |id: u64, status: Option<ProposalStatus>| Proposal { id, concluded_status: status, ..text_proposal("Good title", "Good description") };
    let stored = vec![
        with(1, None),
        with(2, Some(ProposalStatus::SuccessConcluded)),
        with(3, None),
        with(4, Some(ProposalStatus::ExpiredConcluded)),
        with(5, None),
        with(6, Some(ProposalStatus::SuccessConcluded)),
    ];
    let ids = |page: Vec<Proposal>| page.iter().map(|p| p.id).collect::<Vec<u64>>();
    assert_eq!(ids(proposals_page(stored.clone(), None, ProposalQueryStatus::Active, 10)), vec![1, 3, 5]);
    assert_eq!(ids(proposals_page(stored.clone(), None, ProposalQueryStatus::Active, 2)), vec![1, 3]);
    assert_eq!(ids(proposals_page(stored.clone(), Some(2), ProposalQueryStatus::Active, 10)), vec![3, 5]);
    assert_eq!(ids(proposals_page(stored.clone(), Some(3), ProposalQueryStatus::SuccessConcluded, 10)), vec![6]);
    assert_eq!(ids(proposals_page(stored.clone(), None, ProposalQueryStatus::ExpiredConcluded, 0)), Vec::<u64>::new());
    assert_eq!(ids(proposals_page(stored, None, ProposalQueryStatus::ExpiredConcluded, 1)), vec![4]);
}
