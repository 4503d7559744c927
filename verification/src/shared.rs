//! Messages and limits shared by the governance, DAO and identity contracts.

use vstd::prelude::*;
use crate::math::{Decimal, Threshold, Timestamp};

verus! {

broadcast use vstd::string::group_string_axioms;

/// A DAO may have at most this many members.
pub const MAX_DAO_MEMBERS: usize = 9;

/// A DAO holding a core slot needs at least this many members.
pub const MIN_CORE_TEAM_MEMBERS: usize = 3;

/// A member of a DAO and its voting weight.
#[derive(Clone, Debug, PartialEq, Eq)]
pub struct Voter {
    pub addr: String,
    pub weight: u64,
}

/// The status classes by which proposals are listed.
#[derive(Clone, Copy, Debug, PartialEq, Eq, Structural)]
pub enum ProposalQueryStatus {
    Active,
    SuccessConcluded,
    ExpiredConcluded,
}

impl ProposalQueryStatus {
    /// The snake-case name of the class.
    pub open spec fn name(self) -> Seq<char> {
        match self {
            ProposalQueryStatus::Active => "active"@,
            ProposalQueryStatus::SuccessConcluded => "success_concluded"@,
            ProposalQueryStatus::ExpiredConcluded => "expired_concluded"@,
        }
    }

    /// The snake-case name of the class, as stored in the proposals index.
    pub fn to_string(&self) -> (s: String)
        ensures
            s@ == self.name(),
    {
        match self {
            ProposalQueryStatus::Active => "active".to_string(),
            ProposalQueryStatus::SuccessConcluded => "success_concluded".to_string(),
            ProposalQueryStatus::ExpiredConcluded => "expired_concluded".to_string(),
        }
    }
}

/// The outcome of a core slot vote: who holds the slot, with which approval,
/// until when.
#[derive(Clone, Debug, PartialEq, Eq)]
pub struct SlotVoteResult {
    pub dao: String,
    pub yes_ratio: Decimal,
    pub proposal_voting_end: u64,
    pub proposal_funding_end: u64,
    pub proposal_id: u64,
}


/// The core slots as reported to other contracts.
#[derive(Clone, Debug, PartialEq, Eq)]
pub struct GovernanceCoreSlotsResponse {
    pub brand: Option<SlotVoteResult>,
    pub creative: Option<SlotVoteResult>,
    pub core_tech: Option<SlotVoteResult>,
}

/// The queries the governance contract answers.
#[derive(Clone, Debug, PartialEq, Eq)]
pub enum GovernanceQueryMsg {
    Config {},
    PeriodInfo {},
    Proposal { id: u64 },
    Proposals { status: ProposalQueryStatus, start: Option<u64>, limit: Option<u32> },
    CoreSlots {},
    WinningGrants {},
}

/// A length of time: a number of blocks or of seconds.
#[derive(Clone, Copy, Debug, PartialEq, Eq, Structural)]
pub enum Duration {
    Height(u64),
    Time(u64),
}

/// The message that sets up a DAO with its voters and tally rule.
#[derive(Clone, Debug, PartialEq, Eq)]
pub struct DaoInstantiateMsg {
    pub dao_name: String,
    pub voters: Vec<Voter>,
    pub threshold: Threshold,
    pub max_voting_period: Duration,
}

/// Errors of the storage and arithmetic layer that the contracts pass on.
#[derive(Clone, Debug, PartialEq, Eq)]
pub enum StdError {
    /// An addition or subtraction left the range of its integer type.
    Overflow {},
    /// A failure described by a message.
    GenericErr { msg: String },
}

/// An amount of one denomination.
#[derive(Clone, Debug, PartialEq, Eq)]
pub struct Coin {
    pub denom: String,
    pub amount: u128,
}

/// The block and contract a message is executed in.
#[derive(Clone, Debug, PartialEq, Eq)]
pub struct Env {
    pub block_height: u64,
    pub block_time: Timestamp,
    pub contract_address: String,
}

/// Who sent a message, and the funds sent along.
#[derive(Clone, Debug, PartialEq, Eq)]
pub struct MessageInfo {
    pub sender: String,
    pub funds: Vec<Coin>,
}

/// The number of entries a paginated query returns: the requested limit, or
/// `default` when none is given, but never more than `max`.
pub fn page_limit(limit: Option<u32>, default: u32, max: u32) -> (n: usize)
    ensures
        n == (match limit {
            Some(l) => if l < max { l } else { max },
            None => if default < max { default } else { max },
        }),
{
    let l: u32 = match limit {
        Some(l) => l,
        None => default,
    };
    if l < max {
        l as usize
    } else {
        max as usize
    }
}

/// The identifier following the last one handed out (`count`, zero when none
/// was handed out yet).
pub fn next_id(count: Option<u64>) -> (id: u64)
    requires
        match count {
            Some(c) => c < u64::MAX,
            None => true,
        },
    ensures
        id == match count {
            Some(c) => c + 1,
            None => 1,
        },
{
    match count {
        Some(c) => c + 1,
        None => 1,
    }
}

/// Whether the address `a` occurs in `list`.
pub open spec fn addr_in(list: Seq<String>, a: Seq<char>) -> bool {
    exists|i: int| 0 <= i < list.len() && #[trigger] list[i]@ == a
}

/// Whether the address `a` occurs in `list`.
pub fn contains_addr(list: &Vec<String>, a: &String) -> (b: bool)
    ensures
        b == addr_in(list@, a@),
{
    let mut i: usize = 0;
    while i < list.len()
        invariant
            i <= list.len(),
            forall|j: int| 0 <= j < i ==> (#[trigger] list@[j])@ != a@,
        decreases list.len() - i,
    {
        if list[i] == *a {
            assert(list@[i as int]@ == a@);
            return true;
        }
        i = i + 1;
    }
    false
}

/// Whether the optional holder is the address `a`.
pub fn is_holder(holder: &Option<SlotVoteResult>, a: &String) -> (b: bool)
    ensures
        b == (match holder {
            Some(s) => s.dao@ == a@,
            None => false,
        }),
{
    match holder {
        Some(s) => s.dao == *a,
        None => false,
    }
}

/// Setting up a contract from stored code, answered under `reply_id`.
#[derive(Clone, Debug, PartialEq, Eq)]
pub struct Instantiation<M> {
    pub code_id: u64,
    pub label: String,
    pub msg: M,
    pub reply_id: u64,
}

/// The contract address that protobuf-encoded setup reply data `data`
/// carries, `None` when the data does not decode.
pub uninterp spec fn decoded_contract_address(data: Seq<u8>) -> Option<Seq<char>>;

/// Calls `cw_utils::parse_instantiate_response_data`, which decodes the
/// reply data of a contract setup by hand (field 1: the new contract's
/// address; field 2: optional data). Claimed: it returns the address
/// `decoded_contract_address` names for these bytes, or fails exactly where
/// that name is `None`.
#[verifier::external_body]
fn parse_instantiate_response(data: &Vec<u8>) -> (r: Option<String>)
    ensures
        match r {
            Some(a) => decoded_contract_address(data@) == Some(a@),
            None => decoded_contract_address(data@) is None,
        },
{
    match cw_utils::parse_instantiate_response_data(data.as_slice()) {
        Ok(response) => Some(response.contract_address),
        Err(_) => None,
    }
}

/// The address of the contract whose setup a successful reply reports:
/// its data decoded, `None` when it has no data or the data does not decode.
pub fn instantiated_address(data: &Option<Vec<u8>>) -> (r: Option<String>)
    ensures
        match data {
            None => r is None,
            Some(d) => match r {
                Some(a) => decoded_contract_address(d@) == Some(a@),
                None => decoded_contract_address(d@) is None,
            },
        },
{
    match data {
        Some(d) => parse_instantiate_response(d),
        None => None,
    }
}

/// The decimal digit `d` as a character.
pub open spec fn digit_char(d: nat) -> char {
    if d == 0 { '0' } else if d == 1 { '1' } else if d == 2 { '2' } else if d == 3 { '3' }
    else if d == 4 { '4' } else if d == 5 { '5' } else if d == 6 { '6' } else if d == 7 { '7' }
    else if d == 8 { '8' } else { '9' }
}

/// `n` written in decimal, without leading zeros.
pub open spec fn decimal(n: nat) -> Seq<char>
    decreases n,
{
    if n < 10 {
        seq![digit_char(n)]
    } else {
        decimal(n / 10).push(digit_char(n % 10))
    }
}

fn digit_text(d: u32) -> (s: &'static str)
    requires
        d < 10,
    ensures
        s@ == seq![digit_char(d as nat)],
{
    proof {
        reveal_strlit("0");
        reveal_strlit("1");
        reveal_strlit("2");
        reveal_strlit("3");
        reveal_strlit("4");
        reveal_strlit("5");
        reveal_strlit("6");
        reveal_strlit("7");
        reveal_strlit("8");
        reveal_strlit("9");
    }
    match d {
        0 => "0",
        1 => "1",
        2 => "2",
        3 => "3",
        4 => "4",
        5 => "5",
        6 => "6",
        7 => "7",
        8 => "8",
        _ => "9",
    }
}

/// `n` written in decimal.
pub fn decimal_text(n: u32) -> (s: String)
    ensures
        s@ == decimal(n as nat),
    decreases n,
{
    if n < 10 {
        String::from_str(digit_text(n))
    } else {
        let mut s = decimal_text(n / 10);
        s.append(digit_text(n % 10));
        s
    }
}

} // verus!
