use jmes::dao_members::msg::{InstantiateMsg as DaoMembersInstantiateMsg, Member};
use jmes::identityservice::contract::{
    execute_register_dao, execute_register_user, instantiate, instantiate_dao_members_reply,
    instantiate_dao_multisig_reply, invalid_char, lists_descending, reply, validate_name, ReplyKind,
    INSTANTIATE_DAO_MEMBERS_REPLY_ID, INSTANTIATE_DAO_MULTISIG_REPLY_ID,
};
use jmes::identityservice::error::ContractError;
use jmes::identityservice::msg::{Executor, InstantiateMsg, SortOrder};
use jmes::identityservice::state::{Config, IdType, Identity};
use jmes::math::Threshold;
use jmes::shared::{instantiated_address, Duration, StdError};

fn service() -> Config {
    instantiate(InstantiateMsg {
        owner: "owner".to_string(),
        dao_members_code_id: 26,
        dao_multisig_code_id: 51,
        governance_addr: "governance".to_string(),
    })
}

fn dao_msg(name: &str) -> DaoMembersInstantiateMsg {
    DaoMembersInstantiateMsg {
        members: vec![
            Member { addr: "user1".to_string(), weight: 26 },
            Member { addr: "user2".to_string(), weight: 26 },
        ],
        threshold_percentage: 51,
        max_voting_period: Duration::Time(300),
        dao_name: name.to_string(),
        governance_addr: "governance".to_string(),
    }
}

#[test]
fn instantiate_keeps_code_ids() {
    let config = service();
    assert_eq!(config, Config { owner: "owner".to_string(), dao_members_code_id: 26, dao_multisig_code_id: 51 });
}

#[test]
fn name_characters() {
    assert!(!invalid_char('a'));
    assert!(!invalid_char('z'));
    assert!(!invalid_char('0'));
    assert!(!invalid_char('9'));
    assert!(!invalid_char('.'));
    assert!(!invalid_char('-'));
    assert!(!invalid_char('_'));
    assert!(invalid_char('A'));
    assert!(invalid_char(' '));
    assert!(invalid_char('é'));
}

#[test]
fn name_validation() {
    assert_eq!(validate_name("user1_name"), Ok(()));
    assert_eq!(validate_name("abc"), Ok(()));
    assert_eq!(validate_name("ab"), Err(ContractError::NameTooShort { length: 2, min_length: 3 }));
    assert_eq!(
        validate_name("abcdefghijklmnopqrstu"),
        Err(ContractError::NameTooLong { length: 21, max_length: 20 })
    );
    assert_eq!(validate_name("my Name"), Err(ContractError::InvalidCharacter { c: ' ' }));
    assert_eq!(validate_name("abCD"), Err(ContractError::InvalidCharacter { c: 'C' }));
    // length counts bytes: two-byte characters
    assert_eq!(validate_name("é"), Err(ContractError::NameTooShort { length: 2, min_length: 3 }));
    assert_eq!(validate_name("éa"), Err(ContractError::InvalidCharacter { c: 'é' }));
}

#[test]
fn register_user() {
    let r = execute_register_user("user1".to_string(), "user1_name".to_string(), false, false);
    assert_eq!(
        r,
        Ok(Identity { owner: "user1".to_string(), name: "user1_name".to_string(), id_type: IdType::User })
    );
}

#[test]
fn register_user_with_same_name_fails() {
    let r = execute_register_user("user2".to_string(), "user1_name".to_string(), false, true);
    assert_eq!(r, Err(ContractError::NameTaken { name: "user1_name".to_string() }));
}

#[test]
fn register_user_with_same_wallet_fails() {
    let r = execute_register_user("user1".to_string(), "user1_name_different".to_string(), true, false);
    assert_eq!(r, Err(ContractError::AlreadyRegistered {}));
}

#[test]
fn register_user_invalid_name_checked_first() {
    let r = execute_register_user("user1".to_string(), "X".to_string(), true, true);
    assert_eq!(r, Err(ContractError::NameTooShort { length: 1, min_length: 3 }));
}

#[test]
fn register_dao() {
    let config = service();
    let inst = execute_register_dao(&config, dao_msg("my_dao"), false).unwrap();
    assert_eq!(inst.code_id, 26);
    assert_eq!(inst.label, "dao-members");
    assert_eq!(inst.reply_id, INSTANTIATE_DAO_MEMBERS_REPLY_ID);
    assert_eq!(inst.msg, dao_msg("my_dao"));
    // the membership contract comes up as "contract1", administered by the service
    let setup = jmes::dao_members::contract::instantiate("identityservice".to_string(), inst.msg.clone()).unwrap();
    assert_eq!(setup.total, 52);
    assert_eq!(reply(INSTANTIATE_DAO_MEMBERS_REPLY_ID), Ok(ReplyKind::DaoMembers));
    let multisig = instantiate_dao_members_reply(
        &config,
        "contract1".to_string(),
        setup.config.dao_name.clone(),
        setup.config.max_voting_period,
        setup.config.threshold,
    );
    assert_eq!(multisig.msg.group_addr, "contract1");
    // the multisig comes up as "contract2" and becomes DAO number 1
    assert_eq!(reply(INSTANTIATE_DAO_MULTISIG_REPLY_ID), Ok(ReplyKind::DaoMultisig));
    let registration = instantiate_dao_multisig_reply(
        "contract2".to_string(),
        multisig.msg.dao_name.clone(),
        multisig.msg.group_addr.clone(),
        None,
    );
    assert_eq!((registration.dao_id, registration.identity.owner.clone()), (1, "contract2".to_string()));
    assert_eq!(
        registration.identity,
        Identity { owner: "contract2".to_string(), name: "my_dao".to_string(), id_type: IdType::Dao }
    );
}

#[test]
fn register_dao_with_existing_dao_name_fails() {
    let config = service();
    let r = execute_register_dao(&config, dao_msg("my_dao"), true);
    assert_eq!(r, Err(ContractError::NameTaken { name: "my_dao".to_string() }));
}

#[test]
fn register_dao_with_existing_user_name_fails() {
    let config = service();
    let r = execute_register_dao(&config, dao_msg("user1_name"), true);
    assert_eq!(r, Err(ContractError::NameTaken { name: "user1_name".to_string() }));
    let r = execute_register_dao(&config, dao_msg("My Dao"), false);
    assert_eq!(r, Err(ContractError::InvalidCharacter { c: 'M' }));
}

#[test]
fn reply_ids() {
    assert_eq!(reply(INSTANTIATE_DAO_MEMBERS_REPLY_ID), Ok(ReplyKind::DaoMembers));
    assert_eq!(reply(INSTANTIATE_DAO_MULTISIG_REPLY_ID), Ok(ReplyKind::DaoMultisig));
    assert_eq!(
        reply(7),
        Err(ContractError::Std(StdError::GenericErr { msg: "Unknown reply id.".to_string() }))
    );
}

#[test]
fn dao_members_reply_sets_up_multisig() {
    let config = service();
    let threshold = Threshold::AbsoluteCount { weight: 51 };
    let inst = instantiate_dao_members_reply(
        &config,
        "contract2".to_string(),
        "my_dao".to_string(),
        Duration::Time(300),
        threshold,
    );
    assert_eq!(inst.code_id, 51);
    assert_eq!(inst.label, "dao-multisig");
    assert_eq!(inst.reply_id, INSTANTIATE_DAO_MULTISIG_REPLY_ID);
    assert_eq!(inst.msg.group_addr, "contract2");
    assert_eq!(inst.msg.executor, Some(Executor::Member));
    assert_eq!(inst.msg.threshold, threshold);
    assert_eq!(inst.msg.dao_name, "my_dao");
}

#[test]
fn dao_multisig_reply_registers_dao() {
    let r = instantiate_dao_multisig_reply(
        "contract3".to_string(),
        "my_dao".to_string(),
        "contract2".to_string(),
        Some(4),
    );
    assert_eq!(r.identity, Identity { owner: "contract3".to_string(), name: "my_dao".to_string(), id_type: IdType::Dao });
    assert_eq!(r.dao_id, 5);
    assert_eq!(r.dao_members_addr, "contract2");
    assert_eq!(r.new_admin, "contract3");
    let first = instantiate_dao_multisig_reply("a".to_string(), "b".to_string(), "c".to_string(), None);
    assert_eq!(first.dao_id, 1);
}

#[test]
fn dao_listing_order() {
    assert!(!lists_descending(&None));
    assert!(!lists_descending(&Some(SortOrder::Ascending)));
    assert!(lists_descending(&Some(SortOrder::Descending)));
}

#[test]
fn setup_reply_address_decoding() {
    let mut data = vec![0x0a, 11];
    data.extend_from_slice(b"nftcontract");
    assert_eq!(instantiated_address(&Some(data.clone())), Some("nftcontract".to_string()));
    data.push(0x12);
    data.push(2);
    data.extend_from_slice(&[1, 2]);
    assert_eq!(instantiated_address(&Some(data)), Some("nftcontract".to_string()));
    assert_eq!(instantiated_address(&None), None);
    assert_eq!(instantiated_address(&Some(vec![0x12, 1, 7])), None);
    // a length beyond the data does not decode
    assert_eq!(instantiated_address(&Some(vec![0x0a, 5, b'a'])), None);
    // empty data decodes to the empty address
    assert_eq!(instantiated_address(&Some(vec![])), Some(String::new()));
}
