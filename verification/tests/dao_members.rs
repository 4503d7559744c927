use jmes::dao_members::contract::{create, instantiate, update_members, validate_unique_members, MemberDiff};
use jmes::dao_members::error::ContractError;
use jmes::dao_members::msg::{InstantiateMsg, Member};
use jmes::dao_members::state::Config;
use jmes::math::{Decimal, Threshold};
use jmes::shared::{Duration, GovernanceCoreSlotsResponse, SlotVoteResult, StdError};

fn m(addr: &str, weight: u64) -> Member {
    Member { addr: addr.to_string(), weight }
}

fn config(threshold: u64) -> Config {
    Config {
        threshold: Threshold::AbsoluteCount { weight: threshold },
        max_voting_period: Duration::Time(300),
        dao_name: "my_dao".to_string(),
        governance_addr: "governance".to_string(),
    }
}

fn no_slots() -> GovernanceCoreSlotsResponse {
    GovernanceCoreSlotsResponse { brand: None, creative: None, core_tech: None }
}

fn brand_held_by(dao: &str) -> GovernanceCoreSlotsResponse {
    GovernanceCoreSlotsResponse {
        brand: Some(SlotVoteResult {
            dao: dao.to_string(),
            yes_ratio: Decimal { atomics: 1_000_000_000_000_000_000 },
            proposal_voting_end: 100,
            proposal_funding_end: 200,
            proposal_id: 1,
        }),
        creative: None,
        core_tech: None,
    }
}

const ADMIN: &str = "multisig";

fn admin() -> Option<String> {
    Some(ADMIN.to_string())
}

#[test]
fn instantiate_sets_up_members() {
    let msg = InstantiateMsg {
        members: vec![m("user1", 26), m("user2", 26)],
        threshold_percentage: 51,
        max_voting_period: Duration::Time(300),
        dao_name: "my_dao".to_string(),
        governance_addr: "governance".to_string(),
    };
    let setup = instantiate("identityservice".to_string(), msg).unwrap();
    assert_eq!(setup.config, config(51));
    assert_eq!(setup.admin, "identityservice");
    assert_eq!(setup.members, vec![m("user1", 26), m("user2", 26)]);
    assert_eq!(setup.total, 52);
}

#[test]
fn instantiate_refusals() {
    let base = InstantiateMsg {
        members: vec![m("user1", 26), m("user2", 26)],
        threshold_percentage: 101,
        max_voting_period: Duration::Time(300),
        dao_name: "my_dao".to_string(),
        governance_addr: "governance".to_string(),
    };
    assert_eq!(
        instantiate("s".to_string(), base.clone()),
        Err(ContractError::InvalidThresholdPercentage { current: 101 })
    );
    let heavy = InstantiateMsg { threshold_percentage: 51, members: vec![m("user1", 60), m("user2", 41)], ..base };
    assert_eq!(instantiate("s".to_string(), heavy), Err(ContractError::InvalidThresholdPercentage { current: 101 }));
}

#[test]
fn create_refusals() {
    assert_eq!(
        create(vec![m("a", 1), m("b", 1), m("a", 2)]),
        Err(ContractError::DuplicateMember { member: "a".to_string() })
    );
    let ten: Vec<Member> = (0..10).map(|i| m(&format!("user{}", i), 1)).collect();
    assert_eq!(create(ten), Err(ContractError::TooManyMembers { max: 9, actual: 10 }));
    assert_eq!(create(vec![m("a", u64::MAX), m("b", 1)]), Err(ContractError::Overflow {}));
    assert_eq!(create(vec![]), Ok((vec![], 0)));
}

#[test]
fn unique_members_names_first_repeat() {
    assert_eq!(validate_unique_members(&vec![m("a", 1), m("b", 1)]), Ok(()));
    assert_eq!(
        validate_unique_members(&vec![m("a", 1), m("b", 1), m("b", 2), m("a", 3)]),
        Err(ContractError::DuplicateMember { member: "b".to_string() })
    );
}

#[test]
fn update_adds_reweights_and_removes() {
    let members = vec![m("user1", 26), m("user2", 26)];
    let u = update_members(
        members,
        52,
        &admin(),
        &ADMIN.to_string(),
        &config(51),
        &no_slots(),
        vec![m("user3", 10), m("user1", 20)],
        vec!["user2".to_string(), "nobody".to_string()],
    )
    .unwrap();
    assert_eq!(u.members, vec![m("user1", 20), m("user3", 10)]);
    assert_eq!(u.total, 30);
    assert_eq!(
        u.diffs,
        vec![
            MemberDiff { key: "user3".to_string(), old: None, new: Some(10) },
            MemberDiff { key: "user1".to_string(), old: Some(26), new: Some(20) },
            MemberDiff { key: "user2".to_string(), old: Some(26), new: None },
        ]
    );
    // the total stays the sum of the weights
    assert_eq!(u.total, u.members.iter().map(|x| x.weight).sum::<u64>());
    // a repeated removal and the removal of an added member
    let u = update_members(
        vec![m("user1", 26), m("user2", 26)],
        52,
        &admin(),
        &ADMIN.to_string(),
        &config(51),
        &no_slots(),
        vec![m("user3", 10)],
        vec!["user2".to_string(), "user2".to_string(), "user3".to_string()],
    )
    .unwrap();
    assert_eq!(u.members, vec![m("user1", 26)]);
    assert_eq!(u.total, 26);
    assert_eq!(
        u.diffs,
        vec![
            MemberDiff { key: "user3".to_string(), old: None, new: Some(10) },
            MemberDiff { key: "user2".to_string(), old: Some(26), new: None },
            MemberDiff { key: "user3".to_string(), old: Some(10), new: None },
        ]
    );
}

#[test]
fn update_refusals() {
    let members = vec![m("user1", 26), m("user2", 26)];
    let dup = update_members(members.clone(), 52, &admin(), &ADMIN.to_string(), &config(51), &no_slots(),
        vec![m("x", 1), m("x", 2)], vec![]);
    assert_eq!(dup, Err(ContractError::DuplicateMember { member: "x".to_string() }));
    let not_admin = update_members(members.clone(), 52, &admin(), &"user1".to_string(), &config(51), &no_slots(),
        vec![], vec![]);
    assert_eq!(not_admin, Err(ContractError::Admin {}));
    let no_admin = update_members(members.clone(), 52, &None, &ADMIN.to_string(), &config(51), &no_slots(),
        vec![], vec![]);
    assert_eq!(no_admin, Err(ContractError::Admin {}));
    let add_overflow = update_members(members.clone(), 52, &admin(), &ADMIN.to_string(), &config(51), &no_slots(),
        vec![m("big", u64::MAX)], vec![]);
    assert_eq!(add_overflow, Err(ContractError::Std(StdError::Overflow {})));
    // a stored total below a member's weight underflows on removal
    let remove_underflow = update_members(members.clone(), 10, &admin(), &ADMIN.to_string(), &config(51), &no_slots(),
        vec![], vec!["user1".to_string()]);
    assert_eq!(remove_underflow, Err(ContractError::Overflow {}));
    let eleven: Vec<Member> = (0..11).map(|i| m(&format!("user{}", i + 10), 1)).collect();
    let too_many = update_members(vec![], 0, &admin(), &ADMIN.to_string(), &config(51), &no_slots(), eleven, vec![]);
    assert_eq!(too_many, Err(ContractError::TooManyMembers { max: 9, actual: 10 }));
}

#[test]
fn core_slot_holder_rules() {
    let members = vec![m("user1", 26), m("user2", 26), m("user3", 26)];
    let slots = brand_held_by(ADMIN);
    // two members are too few for a core slot holder
    let r = update_members(members.clone(), 78, &admin(), &ADMIN.to_string(), &config(51), &slots,
        vec![], vec!["user3".to_string()]);
    assert_eq!(r, Err(ContractError::WrongCoreTeamMemberCount { min: 3, max: 9 }));
    // one member alone may not reach the threshold
    let r = update_members(members.clone(), 78, &admin(), &ADMIN.to_string(), &config(51), &slots,
        vec![m("user1", 60)], vec![]);
    assert_eq!(
        r,
        Err(ContractError::WrongCoreTeamMemberVotingPower { threshold: Threshold::AbsoluteCount { weight: 51 }, current: 60 })
    );
    let ok = update_members(members.clone(), 78, &admin(), &ADMIN.to_string(), &config(51), &slots,
        vec![m("user4", 10)], vec![]).unwrap();
    assert_eq!(ok.total, 88);
    // the same removal is fine for a DAO without a slot
    let r = update_members(members, 78, &admin(), &ADMIN.to_string(), &config(51), &brand_held_by("other"),
        vec![], vec!["user3".to_string()]).unwrap();
    assert_eq!(r.members, vec![m("user1", 26), m("user2", 26)]);
    assert_eq!(r.total, 52);
}
