//! Registering users and DAOs under unique names.

use vstd::prelude::*;
use vstd::utf8::encode_utf8;
use crate::math::Threshold;
use crate::shared::{Duration, Instantiation, StdError};
use crate::dao_members::msg::InstantiateMsg as DaoMembersInstantiateMsg;
use crate::identityservice::error::ContractError;
use crate::identityservice::msg::{DaoMultisigInstantiateMsg, Executor, InstantiateMsg, SortOrder};
use crate::identityservice::state::{Config, IdType, Identity};

verus! {

broadcast use vstd::string::group_string_axioms;

/// Shortest name, in bytes.
pub const MIN_NAME_LENGTH: u64 = 3;
/// Longest name, in bytes.
pub const MAX_NAME_LENGTH: u64 = 20;

/// Reply identifier of the DAO membership contract's setup.
pub const INSTANTIATE_DAO_MEMBERS_REPLY_ID: u64 = 1u64;
/// Reply identifier of the DAO multisig contract's setup.
pub const INSTANTIATE_DAO_MULTISIG_REPLY_ID: u64 = 2u64;

/// Characters allowed in names: ASCII digits, lowercase letters, `.`, `-`, `_`.
pub open spec fn is_name_char(c: char) -> bool {
    ('0' <= c <= '9') || ('a' <= c <= 'z') || c == '.' || c == '-' || c == '_'
}

/// Whether `c` may not appear in a name.
pub fn invalid_char(c: char) -> (b: bool)
    ensures
        b == !is_name_char(c),
{
    let is_valid: bool = ('0' <= c && c <= '9') || ('a' <= c && c <= 'z') || (c == '.' || c == '-' || c == '_');
    !is_valid
}

/// Index of the first character of `s` not allowed in names, if any.
pub open spec fn first_invalid(s: Seq<char>) -> Option<int> {
    if exists|i: int| 0 <= i < s.len() && !is_name_char(#[trigger] s[i]) {
        Some(choose|i: int| 0 <= i < s.len() && !is_name_char(#[trigger] s[i])
            && forall|j: int| 0 <= j < i ==> is_name_char(#[trigger] s[j]))
    } else {
        None
    }
}

proof fn lemma_first_invalid(s: Seq<char>, i: int)
    requires
        0 <= i < s.len(),
        !is_name_char(s[i]),
        forall|j: int| 0 <= j < i ==> is_name_char(#[trigger] s[j]),
    ensures
        first_invalid(s) == Some(i),
{
    let k = choose|k: int| 0 <= k < s.len() && !is_name_char(#[trigger] s[k])
        && forall|j: int| 0 <= j < k ==> is_name_char(#[trigger] s[j]);
    assert(first_invalid(s) == Some(k));
    if k < i {
        assert(is_name_char(s[k]));
    }
    if k > i {
        assert(is_name_char(s[i]));
    }
}

/// Why `name` is not a valid name, if it is not: 3 to 20 bytes of ASCII
/// digits, lowercase letters, `.`, `-` and `_`; the first offending
/// character is reported.
pub open spec fn name_refusal(name: Seq<char>) -> Option<ContractError> {
    let length = encode_utf8(name).len();
    if length < MIN_NAME_LENGTH {
        Some(ContractError::NameTooShort { length: length as u64, min_length: MIN_NAME_LENGTH })
    } else if length > MAX_NAME_LENGTH {
        Some(ContractError::NameTooLong { length: length as u64, max_length: MAX_NAME_LENGTH })
    } else {
        match first_invalid(name) {
            Some(i) => Some(ContractError::InvalidCharacter { c: name[i] }),
            None => None,
        }
    }
}

/// Checks that `name` is a valid name.
pub fn validate_name(name: &str) -> (r: Result<(), ContractError>)
    ensures
        r == match name_refusal(name@) {
            Some(e) => Err(e),
            None => Ok::<(), ContractError>(()),
        },
{
    let length: u64 = name.as_bytes().len() as u64;
    if length < MIN_NAME_LENGTH {
        return Err(ContractError::NameTooShort { length, min_length: MIN_NAME_LENGTH });
    }
    if length > MAX_NAME_LENGTH {
        return Err(ContractError::NameTooLong { length, max_length: MAX_NAME_LENGTH });
    }
    for c in it: name.chars()
        invariant
            it.seq() == name@,
            MIN_NAME_LENGTH <= encode_utf8(name@).len() <= MAX_NAME_LENGTH,
            forall|j: int| 0 <= j < it.index() ==> is_name_char(#[trigger] name@[j]),
    {
        if invalid_char(c) {
            proof {
                let i = it.index() as int;
                assert(c == name@[i]);
                lemma_first_invalid(name@, i);
            }
            return Err(ContractError::InvalidCharacter { c });
        }
    }
    Ok(())
}

/// Sets up the service's configuration.
pub fn instantiate(msg: InstantiateMsg) -> (c: Config)
    ensures
        c == (Config {
            owner: msg.owner,
            dao_members_code_id: msg.dao_members_code_id,
            dao_multisig_code_id: msg.dao_multisig_code_id,
        }),
{
    Config {
        owner: msg.owner,
        dao_members_code_id: msg.dao_members_code_id,
        dao_multisig_code_id: msg.dao_multisig_code_id,
    }
}

/// Why registering `name` for `sender` as a user is refused: an invalid
/// name, a sender that already owns an identity, or a name already taken.
pub open spec fn user_refusal(name: Seq<char>, sender_registered: bool, name_taken: bool, name_value: String) -> Option<ContractError> {
    match name_refusal(name) {
        Some(e) => Some(e),
        None => if sender_registered {
            Some(ContractError::AlreadyRegistered {})
        } else if name_taken {
            Some(ContractError::NameTaken { name: name_value })
        } else {
            None
        },
    }
}

/// Registers `name` as the user identity of `sender`; `sender_registered`
/// and `name_taken` say whether the sender already owns an identity and
/// whether the name is already registered.
pub fn execute_register_user(sender: String, name: String, sender_registered: bool, name_taken: bool) -> (r: Result<Identity, ContractError>)
    ensures
        r == match user_refusal(name@, sender_registered, name_taken, name) {
            Some(e) => Err(e),
            None => Ok::<Identity, ContractError>(Identity { owner: sender, name, id_type: IdType::User }),
        },
{
    validate_name(name.as_str())?;
    if sender_registered {
        return Err(ContractError::AlreadyRegistered {});
    }
    if name_taken {
        return Err(ContractError::NameTaken { name });
    }
    Ok(Identity { owner: sender, name, id_type: IdType::User })
}

/// Starts registering a DAO: its name must be valid and not taken
/// (`name_taken`), then its membership contract is set up from `msg`.
pub fn execute_register_dao(config: &Config, msg: DaoMembersInstantiateMsg, name_taken: bool) -> (r: Result<Instantiation<DaoMembersInstantiateMsg>, ContractError>)
    ensures
        match name_refusal(msg.dao_name@) {
            Some(e) => r == Err::<Instantiation<DaoMembersInstantiateMsg>, ContractError>(e),
            None => if name_taken {
                r == Err::<Instantiation<DaoMembersInstantiateMsg>, ContractError>(ContractError::NameTaken { name: msg.dao_name })
            } else {
                r matches Ok(inst) && inst.code_id == config.dao_members_code_id && inst.label@ == "dao-members"@
                    && inst.msg == msg && inst.reply_id == INSTANTIATE_DAO_MEMBERS_REPLY_ID
            },
        },
{
    validate_name(msg.dao_name.as_str())?;
    if name_taken {
        return Err(ContractError::NameTaken { name: msg.dao_name });
    }
    Ok(Instantiation {
        code_id: config.dao_members_code_id,
        label: "dao-members".to_string(),
        msg,
        reply_id: INSTANTIATE_DAO_MEMBERS_REPLY_ID,
    })
}

/// Which setup a reply answers.
#[derive(Clone, Copy, Debug, PartialEq, Eq, Structural)]
pub enum ReplyKind {
    DaoMembers,
    DaoMultisig,
}

/// Which setup reply `id` answers.
pub fn reply(id: u64) -> (r: Result<ReplyKind, ContractError>)
    ensures
        id == INSTANTIATE_DAO_MEMBERS_REPLY_ID ==> r == Ok::<ReplyKind, ContractError>(ReplyKind::DaoMembers),
        id == INSTANTIATE_DAO_MULTISIG_REPLY_ID ==> r == Ok::<ReplyKind, ContractError>(ReplyKind::DaoMultisig),
        id != INSTANTIATE_DAO_MEMBERS_REPLY_ID && id != INSTANTIATE_DAO_MULTISIG_REPLY_ID ==>
            (r matches Err(ContractError::Std(StdError::GenericErr { msg })) && msg@ == "Unknown reply id."@),
{
    if id == INSTANTIATE_DAO_MEMBERS_REPLY_ID {
        Ok(ReplyKind::DaoMembers)
    } else if id == INSTANTIATE_DAO_MULTISIG_REPLY_ID {
        Ok(ReplyKind::DaoMultisig)
    } else {
        Err(ContractError::Std(StdError::GenericErr { msg: "Unknown reply id.".to_string() }))
    }
}

/// Once the membership contract at `dao_members_addr` is set up (reporting
/// its name, voting period and threshold), sets up the DAO's multisig over it.
pub fn instantiate_dao_members_reply(
    config: &Config,
    dao_members_addr: String,
    dao_name: String,
    max_voting_period: Duration,
    threshold: Threshold,
) -> (inst: Instantiation<DaoMultisigInstantiateMsg>)
    ensures
        inst.code_id == config.dao_multisig_code_id,
        inst.label@ == "dao-multisig"@,
        inst.reply_id == INSTANTIATE_DAO_MULTISIG_REPLY_ID,
        inst.msg == (DaoMultisigInstantiateMsg {
            group_addr: dao_members_addr,
            executor: Some(Executor::Member),
            max_voting_period,
            threshold,
            dao_name,
        }),
{
    Instantiation {
        code_id: config.dao_multisig_code_id,
        label: "dao-multisig".to_string(),
        msg: DaoMultisigInstantiateMsg {
            group_addr: dao_members_addr,
            executor: Some(Executor::Member),
            max_voting_period,
            threshold,
            dao_name,
        },
        reply_id: INSTANTIATE_DAO_MULTISIG_REPLY_ID,
    }
}

/// A registered DAO: its identity, its number, and the membership contract
/// whose admin becomes the multisig.
#[derive(Clone, Debug, PartialEq, Eq)]
pub struct DaoRegistration {
    pub identity: Identity,
    pub dao_id: u64,
    /// Membership contract to hand over to the multisig.
    pub dao_members_addr: String,
    /// The new admin of the membership contract.
    pub new_admin: String,
}

/// Once the multisig at `dao_multisig_addr` is set up (reporting its name and
/// membership contract), registers the DAO identity under the multisig's
/// address, numbers it after the last of `dao_count`, and hands the
/// membership contract's admin over to the multisig.
pub fn instantiate_dao_multisig_reply(
    dao_multisig_addr: String,
    dao_name: String,
    dao_members_addr: String,
    dao_count: Option<u64>,
) -> (r: DaoRegistration)
    requires
        dao_count matches Some(c) ==> c < u64::MAX,
    ensures
        r.identity == (Identity { owner: dao_multisig_addr, name: dao_name, id_type: IdType::Dao }),
        r.dao_id == match dao_count { Some(c) => (c + 1) as u64, None => 1u64 },
        r.dao_members_addr == dao_members_addr,
        r.new_admin == dao_multisig_addr,
{
    let dao_id: u64 = crate::shared::next_id(dao_count);
    DaoRegistration {
        new_admin: dao_multisig_addr.clone(),
        identity: Identity { owner: dao_multisig_addr, name: dao_name, id_type: IdType::Dao },
        dao_id,
        dao_members_addr,
    }
}

/// Whether DAOs are listed in descending order of their identifiers: only
/// when asked for; ascending otherwise.
pub fn lists_descending(order: &Option<SortOrder>) -> (b: bool)
    ensures
        b == (*order == Some(SortOrder::Descending)),
{
    match order {
        Some(SortOrder::Descending) => true,
        _ => false,
    }
}

} // verus!
