//! Stored governance state: configuration, core slots, winning grants and
//! proposals, with the rules that decide a proposal's status and validity.

use vstd::prelude::*;
use vstd::utf8::encode_utf8;
use crate::math::{Decimal, ratio_atomics};
use crate::shared::SlotVoteResult;
use crate::governance::error::ContractError;
use crate::governance::msg::{CoreSlot, Feature};

verus! {

broadcast use vstd::string::group_string_axioms;

/// Shortest title, in bytes, a proposal may have.
pub const MIN_TITLE_LENGTH: usize = 4;
/// Longest title, in bytes, a proposal may have.
pub const MAX_TITLE_LENGTH: usize = 64;
/// Shortest description, in bytes, a proposal may have.
pub const MIN_DESC_LENGTH: usize = 4;
/// Longest description, in bytes, a proposal may have.
pub const MAX_DESC_LENGTH: usize = 1024;

/// Part of the bonded supply that does not count towards the voting total.
pub const RESERVED_SUPPLY: u128 = 100_000_000_000_000u128;

/// A grant won by a successful funded proposal, paid until `expire_at_height`.
#[derive(Clone, Debug, PartialEq, Eq)]
pub struct WinningGrant {
    pub dao: String,
    pub amount: u128,
    pub expire_at_height: u64,
    pub yes_ratio: Decimal,
    pub proposal_id: u64,
    /// Share of the funding pool the grant may take, in per mille.
    pub max_cap: u64,
}

/// The holders of the three core slots.
#[derive(Clone, Debug, PartialEq, Eq)]
pub struct CoreSlots {
    pub brand: Option<SlotVoteResult>,
    pub creative: Option<SlotVoteResult>,
    pub core_tech: Option<SlotVoteResult>,
}

impl CoreSlots {
    /// The holder of `slot`.
    pub open spec fn holder(self, slot: CoreSlot) -> Option<SlotVoteResult> {
        match slot {
            CoreSlot::Brand {} => self.brand,
            CoreSlot::Creative {} => self.creative,
            CoreSlot::CoreTech {} => self.core_tech,
        }
    }

    /// These slots with `slot` given to `holder`.
    pub open spec fn with_holder(self, slot: CoreSlot, holder: Option<SlotVoteResult>) -> CoreSlots {
        match slot {
            CoreSlot::Brand {} => CoreSlots { brand: holder, ..self },
            CoreSlot::Creative {} => CoreSlots { creative: holder, ..self },
            CoreSlot::CoreTech {} => CoreSlots { core_tech: holder, ..self },
        }
    }

    /// How many slots `dao` holds.
    pub open spec fn count_held(self, dao: Seq<char>) -> int {
        (if self.brand matches Some(s) && s.dao@ == dao { 1int } else { 0int })
        + (if self.creative matches Some(s) && s.dao@ == dao { 1int } else { 0int })
        + (if self.core_tech matches Some(s) && s.dao@ == dao { 1int } else { 0int })
    }

    /// No DAO holds more than one slot.
    pub open spec fn distinct_holders(self) -> bool {
        forall|dao: Seq<char>| #[trigger] self.count_held(dao) <= 1
    }
}

/// The contract's configuration.
#[derive(Clone, Debug, PartialEq, Eq)]
pub struct Config {
    /// May set the linked contracts once; cleared afterwards.
    pub owner: Option<String>,
    pub art_dealer_addr: Option<String>,
    pub identityservice_addr: Option<String>,
    pub proposal_required_deposit: u128,
    /// Net yes percentage a proposal needs to pass, e.g. 10.
    pub proposal_required_percentage: u64,
    /// Epoch second at which the first posting period starts.
    pub period_start_epoch: u64,
    /// Length of a posting period in seconds.
    pub posting_period_length: u64,
    /// Length of a voting period in seconds.
    pub voting_period_length: u64,
}

/// What a proposal executes once it succeeds.
#[derive(Clone, Debug, PartialEq, Eq)]
pub enum ProposalAction {
    /// Approve `dao` as art dealer for `approved` mints over `duration` seconds.
    ApproveDealer { contract_addr: String, dao: String, approved: u64, duration: u64 },
    /// Ask the governance contract to assign the core slot won by a proposal.
    SetCoreSlot { contract_addr: String, proposal_id: u64 },
    /// Ask the governance contract to revoke the core slot named by a proposal.
    UnsetCoreSlot { contract_addr: String, proposal_id: u64 },
    /// A message submitted with an improvement proposal, as its JSON encoding.
    Custom { msg: Vec<u8> },
}

/// A proposal and the votes cast on it.
#[derive(Clone, Debug, PartialEq, Eq)]
pub struct Proposal {
    pub id: u64,
    pub dao: String,
    pub title: String,
    pub description: String,
    pub prop_type: ProposalType,
    pub coins_yes: u128,
    pub coins_no: u128,
    pub yes_voters: Vec<String>,
    pub no_voters: Vec<String>,
    pub deposit_amount: u128,
    pub start_block: u64,
    pub posting_start: u64,
    pub voting_start: u64,
    pub voting_end: u64,
    pub concluded_at_height: Option<u64>,
    pub concluded_status: Option<ProposalStatus>,
    pub concluded_coins_total: Option<u128>,
    pub funding: Option<Funding>,
    pub msgs: Option<Vec<ProposalAction>>,
}

/// Where a proposal stands.
#[derive(Clone, Copy, Debug, PartialEq, Eq, Structural)]
pub enum ProposalStatus {
    Posted,
    Voting,
    Success,
    Expired,
    SuccessConcluded,
    ExpiredConcluded,
}

/// The kinds of proposal.
#[derive(Clone, Copy, Debug, PartialEq, Eq, Structural)]
pub enum ProposalType {
    Text {},
    FeatureRequest(Feature),
    Improvement {},
    CoreSlot(CoreSlot),
    RevokeProposal(u64),
}

/// A vote.
#[derive(Clone, Copy, Debug, PartialEq, Eq, Structural)]
pub enum VoteOption {
    Yes,
    No,
}

/// Funding requested by a proposal: `amount` over `duration_in_blocks`.
#[derive(Clone, Copy, Debug, PartialEq, Eq, Structural)]
pub struct Funding {
    pub amount: u128,
    pub duration_in_blocks: u64,
}

/// Yes coins in excess of no coins, zero when there are more no coins.
pub open spec fn net_yes(yes: u128, no: u128) -> int {
    if yes >= no { yes - no } else { 0 }
}

/// Atomics of the net yes share of `total` (zero when `total` is zero).
pub open spec fn yes_ratio_atomics(yes: u128, no: u128, total: int) -> int {
    if total == 0 { 0 } else { ratio_atomics(net_yes(yes, no), total) }
}

/// Whether the net yes share of `total` reaches `percentage` percent.
pub open spec fn reaches_percentage(yes: u128, no: u128, total: int, percentage: u64) -> bool {
    yes_ratio_atomics(yes, no, total) >= ratio_atomics(percentage as int, 100)
}

/// Characters besides ASCII letters, digits and whitespace allowed in proposal text.
pub open spec fn is_safe_symbol(c: char) -> bool {
    c == '!' || c == '&' || c == '?' || c == '#' || c == '(' || c == ')' || c == '*'
        || c == '+' || c == '\'' || c == '-' || c == '.' || c == '/' || c == '"'
}

/// Characters allowed in proposal titles and descriptions.
pub open spec fn is_safe_text_char(c: char) -> bool {
    ('a' <= c <= 'z') || ('A' <= c <= 'Z') || ('0' <= c <= '9')
        || c == ' ' || c == '\t' || c == '\n' || c == '\x0C' || c == '\r'
        || is_safe_symbol(c)
}

/// Whether every character of `s` is allowed in proposal text.
pub open spec fn is_safe_text(s: Seq<char>) -> bool {
    forall|i: int| 0 <= i < s.len() ==> is_safe_text_char(#[trigger] s[i])
}

/// The first rule that a title and description break, as its message.
pub open spec fn text_violation(title: Seq<char>, description: Seq<char>) -> Option<Seq<char>> {
    if encode_utf8(title).len() < MIN_TITLE_LENGTH {
        Some("Title too short!"@)
    } else if encode_utf8(title).len() > MAX_TITLE_LENGTH {
        Some("Title too long!"@)
    } else if !is_safe_text(title) {
        Some("Title is not in alphanumeric format!"@)
    } else if encode_utf8(description).len() < MIN_DESC_LENGTH {
        Some("Description too short!"@)
    } else if encode_utf8(description).len() > MAX_DESC_LENGTH {
        Some("Description too long!"@)
    } else if !is_safe_text(description) {
        Some("Description is not in alphanumeric format"@)
    } else {
        None
    }
}

/// Whether every character of `s` is allowed in proposal text.
fn safe_text(s: &str) -> (b: bool)
    ensures
        b == is_safe_text(s@),
{
    for c in it: s.chars()
        invariant
            it.seq() == s@,
            forall|j: int| 0 <= j < it.index() ==> is_safe_text_char(#[trigger] s@[j]),
    {
        let ok: bool = ('a' <= c && c <= 'z') || ('A' <= c && c <= 'Z') || ('0' <= c && c <= '9')
            || c == ' ' || c == '\t' || c == '\n' || c == '\x0C' || c == '\r'
            || c == '!' || c == '&' || c == '?' || c == '#' || c == '(' || c == ')' || c == '*'
            || c == '+' || c == '\'' || c == '-' || c == '.' || c == '/' || c == '"';
        if !ok {
            return false;
        }
    }
    true
}

/// The proposal-validity error carrying `message`.
fn not_valid(message: &str) -> (e: ContractError)
    ensures
        e matches ContractError::ProposalNotValid { error } && error@ == message@,
{
    ContractError::ProposalNotValid { error: message.to_string() }
}

impl Proposal {
    /// The number of the next proposal, `count` being the last one handed out.
    pub fn next_id(count: Option<u64>) -> (id: u64)
        requires
            count matches Some(c) ==> c < u64::MAX,
        ensures
            id == match count {
                Some(c) => (c + 1) as u64,
                None => 1u64,
            },
    {
        crate::shared::next_id(count)
    }

    /// The supply that counts as the voting total for this proposal: the
    /// snapshot taken at conclusion, or the bonded supply less the reserve.
    pub open spec fn coins_total(self, supply: u128) -> int {
        match self.concluded_coins_total {
            Some(t) => t as int,
            None => supply - RESERVED_SUPPLY,
        }
    }

    /// Whether the voting total is defined for the given supply.
    pub open spec fn coins_total_defined(self, supply: u128) -> bool {
        self.concluded_coins_total is Some || supply >= RESERVED_SUPPLY
    }

    /// Whether the status can be computed at second `now`: the voting total is
    /// defined and the yes ratio fits a decimal once voting has ended.
    pub open spec fn status_defined(self, supply: u128, now: u64) -> bool {
        now > self.voting_end ==> {
            &&& self.coins_total_defined(supply)
            &&& self.coins_total(supply) != 0
                ==> ratio_atomics(net_yes(self.coins_yes, self.coins_no), self.coins_total(supply)) <= u128::MAX
        }
    }

    /// Whether the status can be computed at second `now` (see `status_defined`).
    pub fn status_computable(&self, supply: u128, now: u64) -> (b: bool)
        ensures
            b == self.status_defined(supply, now),
    {
        if now <= self.voting_end {
            return true;
        }
        if self.concluded_coins_total.is_none() && supply < RESERVED_SUPPLY {
            return false;
        }
        let total: u128 = self.query_coins_total(supply);
        if total == 0 {
            return true;
        }
        let net: u128 = if self.coins_yes >= self.coins_no { self.coins_yes - self.coins_no } else { 0 };
        Decimal::checked_from_ratio(net, total).is_some()
    }

    /// The status at second `now`: posted until voting starts, voting until it
    /// ends, then a success when the net yes share of the voting total reaches
    /// `percentage`, an expiry otherwise (in their concluded forms when
    /// `is_concluded`).
    pub open spec fn status_at(self, supply: u128, now: u64, percentage: u64, is_concluded: bool) -> ProposalStatus {
        if now > self.voting_end {
            if reaches_percentage(self.coins_yes, self.coins_no, self.coins_total(supply), percentage) {
                if is_concluded { ProposalStatus::SuccessConcluded } else { ProposalStatus::Success }
            } else {
                if is_concluded { ProposalStatus::ExpiredConcluded } else { ProposalStatus::Expired }
            }
        } else if now > self.voting_start {
            ProposalStatus::Voting
        } else {
            ProposalStatus::Posted
        }
    }

    /// The status reported by queries: the concluded status once there is one.
    pub open spec fn reported_status(self, supply: u128, now: u64, percentage: u64) -> ProposalStatus {
        match self.concluded_status {
            Some(s) => s,
            None => self.status_at(supply, now, percentage, false),
        }
    }

    /// The voting total: the snapshot taken at conclusion, or the bonded
    /// `supply` less the reserved part.
    pub fn query_coins_total(&self, supply: u128) -> (total: u128)
        requires
            self.coins_total_defined(supply),
        ensures
            total == self.coins_total(supply),
    {
        match self.concluded_coins_total {
            Some(t) => t,
            None => supply - RESERVED_SUPPLY,
        }
    }

    /// Takes the voting total snapshot.
    pub fn update_coins_total(&mut self, supply: u128)
        requires
            old(self).coins_total_defined(supply),
        ensures
            *final(self) == (Proposal { concluded_coins_total: Some(old(self).coins_total(supply) as u128), ..*old(self) }),
    {
        let total: u128 = self.query_coins_total(supply);
        self.concluded_coins_total = Some(total);
    }

    /// The status at second `now`, given the bonded `supply`.
    pub fn current_status(&self, supply: u128, now: u64, proposal_required_percentage: u64, is_concluded: bool) -> (status: ProposalStatus)
        requires
            self.status_defined(supply, now),
        ensures
            status == self.status_at(supply, now, proposal_required_percentage, is_concluded),
    {
        let mut status: ProposalStatus = ProposalStatus::Posted;
        if now > self.voting_start {
            status = ProposalStatus::Voting;
        }
        if now > self.voting_end {
            let coins_net_yes: u128 = if self.coins_yes >= self.coins_no { self.coins_yes - self.coins_no } else { 0 };
            let coins_total: u128 = self.query_coins_total(supply);
            let mut yes_ratio: Decimal = Decimal::zero();
            if coins_total != 0 {
                yes_ratio = Decimal::from_ratio(coins_net_yes, coins_total);
            }
            proof {
                assert(ratio_atomics(proposal_required_percentage as int, 100) <= u128::MAX) by (nonlinear_arith)
                    requires
                        proposal_required_percentage <= u64::MAX,
                ;
            }
            let required_yes_ratio: Decimal = Decimal::from_ratio(proposal_required_percentage as u128, 100);
            status = if yes_ratio.atomics >= required_yes_ratio.atomics {
                if is_concluded { ProposalStatus::SuccessConcluded } else { ProposalStatus::Success }
            } else {
                if is_concluded { ProposalStatus::ExpiredConcluded } else { ProposalStatus::Expired }
            };
        }
        status
    }

    /// Fixes the concluded status as of second `now`.
    pub fn set_concluded_status(&mut self, supply: u128, now: u64, proposal_required_percentage: u64)
        requires
            old(self).status_defined(supply, now),
        ensures
            *final(self) == (Proposal {
                concluded_status: Some(old(self).status_at(supply, now, proposal_required_percentage, true)),
                ..*old(self)
            }),
    {
        let status: ProposalStatus = self.current_status(supply, now, proposal_required_percentage, true);
        self.concluded_status = Some(status);
    }

    /// The status reported by queries at second `now`.
    pub fn query_status(&self, supply: u128, now: u64, proposal_required_percentage: u64) -> (status: ProposalStatus)
        requires
            self.concluded_status is None ==> self.status_defined(supply, now),
        ensures
            status == self.reported_status(supply, now, proposal_required_percentage),
    {
        match self.concluded_status {
            Some(s) => s,
            None => self.current_status(supply, now, proposal_required_percentage, false),
        }
    }

    /// Checks the title and description: 4 to 64 and 4 to 1024 bytes, made of
    /// ASCII letters, digits, whitespace and the symbols `!&?#()*+'-./"`.
    pub fn validate(&self) -> (r: Result<(), ContractError>)
        ensures
            r is Ok <==> text_violation(self.title@, self.description@) is None,
            r matches Err(e) ==> (e matches ContractError::ProposalNotValid { error }
                && Some(error@) == text_violation(self.title@, self.description@)),
    {
        let title: &str = self.title.as_str();
        let description: &str = self.description.as_str();
        if title.as_bytes().len() < MIN_TITLE_LENGTH {
            return Err(not_valid("Title too short!"));
        }
        if title.as_bytes().len() > MAX_TITLE_LENGTH {
            return Err(not_valid("Title too long!"));
        }
        if !safe_text(title) {
            return Err(not_valid("Title is not in alphanumeric format!"));
        }
        if description.as_bytes().len() < MIN_DESC_LENGTH {
            return Err(not_valid("Description too short!"));
        }
        if description.as_bytes().len() > MAX_DESC_LENGTH {
            return Err(not_valid("Description too long!"));
        }
        if !safe_text(description) {
            return Err(not_valid("Description is not in alphanumeric format"));
        }
        Ok(())
    }
}

/// The class under which the proposals index files a proposal.
pub open spec fn status_class(concluded_status: Option<ProposalStatus>) -> crate::shared::ProposalQueryStatus {
    match concluded_status {
        Some(ProposalStatus::SuccessConcluded) => crate::shared::ProposalQueryStatus::SuccessConcluded,
        Some(ProposalStatus::ExpiredConcluded) => crate::shared::ProposalQueryStatus::ExpiredConcluded,
        _ => crate::shared::ProposalQueryStatus::Active,
    }
}

/// The class under which the proposals index files `proposal`.
pub fn index_class(proposal: &Proposal) -> (c: crate::shared::ProposalQueryStatus)
    ensures
        c == status_class(proposal.concluded_status),
{
    match proposal.concluded_status {
        Some(ProposalStatus::SuccessConcluded) => crate::shared::ProposalQueryStatus::SuccessConcluded,
        Some(ProposalStatus::ExpiredConcluded) => crate::shared::ProposalQueryStatus::ExpiredConcluded,
        _ => crate::shared::ProposalQueryStatus::Active,
    }
}

} // verus!
