//! Creating a DAO's member list and updating it.

use vstd::prelude::*;
use crate::math::Threshold;
use crate::shared::{GovernanceCoreSlotsResponse, StdError, MAX_DAO_MEMBERS, MIN_CORE_TEAM_MEMBERS, is_holder};
use crate::dao_members::error::ContractError;
use crate::dao_members::members::{
    find_member, lemma_index_of_bounds, lemma_total_nonneg, set_weight, total_weight, weight_in, without,
};
use crate::dao_members::msg::{InstantiateMsg, Member};
use crate::dao_members::state::Config;
use crate::dao_members::laws::{
    distinct_addrs, lemma_created_members_distinct, lemma_update_keeps_members_consistent, lemma_update_meets_membership_rules,
};

verus! {

broadcast use vstd::string::group_string_axioms;

/// A change of one member's weight (`None` when not a member).
#[derive(Clone, Debug, PartialEq, Eq)]
pub struct MemberDiff {
    pub key: String,
    pub old: Option<u64>,
    pub new: Option<u64>,
}

/// Index of the first member whose address already occurred earlier.
pub open spec fn first_duplicate(s: Seq<Member>) -> Option<int> {
    if exists|j: int, i: int| 0 <= i < j < s.len() && #[trigger] s[i].addr@ == #[trigger] s[j].addr@ {
        Some(choose|j: int| 0 <= j < s.len() && is_repeat(s, j) && forall|k: int| 0 <= k < j ==> !is_repeat(s, k))
    } else {
        None
    }
}

/// Whether the member at `j` repeats an earlier member's address.
pub open spec fn is_repeat(s: Seq<Member>, j: int) -> bool {
    exists|i: int| 0 <= i < j && #[trigger] s[i].addr@ == s[j].addr@
}

proof fn lemma_first_duplicate(s: Seq<Member>, j: int)
    requires
        0 <= j < s.len(),
        is_repeat(s, j),
        forall|k: int| 0 <= k < j ==> !is_repeat(s, k),
    ensures
        first_duplicate(s) == Some(j),
{
    let i = choose|i: int| 0 <= i < j && #[trigger] s[i].addr@ == s[j].addr@;
    assert(0 <= i < j < s.len() && s[i].addr@ == s[j].addr@);
    let k = choose|k: int| 0 <= k < s.len() && is_repeat(s, k) && forall|m: int| 0 <= m < k ==> !is_repeat(s, m);
    assert(first_duplicate(s) == Some(k));
    if k < j {
        assert(!is_repeat(s, k));
    }
    if k > j {
        assert(!is_repeat(s, j));
    }
}

/// Checks that no address occurs twice among `members`, naming the first
/// member that repeats an earlier address.
pub fn validate_unique_members(members: &Vec<Member>) -> (r: Result<(), ContractError>)
    ensures
        match first_duplicate(members@) {
            Some(j) => r matches Err(ContractError::DuplicateMember { member }) && member == members@[j].addr,
            None => r == Ok::<(), ContractError>(()),
        },
{
    let mut j: usize = 0;
    while j < members.len()
        invariant
            j <= members.len(),
            forall|k: int| 0 <= k < j ==> !is_repeat(members@, k),
        decreases members.len() - j,
    {
        let mut i: usize = 0;
        while i < j
            invariant
                i <= j < members.len(),
                forall|k: int| 0 <= k < j ==> !is_repeat(members@, k),
                forall|m: int| 0 <= m < i ==> members@[m].addr@ != members@[j as int].addr@,
            decreases j - i,
        {
            if members[i].addr == members[j].addr {
                proof {
                    assert(is_repeat(members@, j as int));
                    lemma_first_duplicate(members@, j as int);
                }
                return Err(ContractError::DuplicateMember { member: members[j].addr.clone() });
            }
            i = i + 1;
        }
        assert(!is_repeat(members@, j as int));
        j = j + 1;
    }
    proof {
        if exists|j: int, i: int| 0 <= i < j < members@.len() && #[trigger] members@[i].addr@ == #[trigger] members@[j].addr@ {
            let (j, i) = choose|j: int, i: int| 0 <= i < j < members@.len() && #[trigger] members@[i].addr@ == #[trigger] members@[j].addr@;
            assert(is_repeat(members@, j));
        }
    }
    Ok(())
}

/// Why a new member list is refused: a repeated address, more than nine
/// members, a total weight beyond `u64`, or a total weight above 100.
pub open spec fn create_refusal(members: Seq<Member>) -> Option<ContractError> {
    match first_duplicate(members) {
        Some(j) => Some(ContractError::DuplicateMember { member: members[j].addr }),
        None => if members.len() > MAX_DAO_MEMBERS {
            Some(ContractError::TooManyMembers { max: MAX_DAO_MEMBERS, actual: members.len() as usize })
        } else if total_weight(members) > u64::MAX {
            Some(ContractError::Overflow {})
        } else if total_weight(members) > 100 {
            Some(ContractError::InvalidThresholdPercentage { current: total_weight(members) as u64 })
        } else {
            None
        },
    }
}

/// Sum of the weights of `members`, or `None` when it exceeds `u64`.
fn sum_weights(members: &Vec<Member>) -> (r: Option<u64>)
    ensures
        r == if total_weight(members@) <= u64::MAX { Some(total_weight(members@) as u64) } else { None::<u64> },
{
    let mut total: u64 = 0;
    let mut i: usize = 0;
    while i < members.len()
        invariant
            i <= members.len(),
            total == total_weight(members@.take(i as int)),
        decreases members.len() - i,
    {
        assert(members@.take(i + 1).drop_last() =~= members@.take(i as int));
        match total.checked_add(members[i].weight) {
            Some(t) => {
                total = t;
            },
            None => {
                proof {
                    lemma_total_prefix_monotone(members@, i + 1);
                }
                return None;
            },
        }
        i = i + 1;
    }
    assert(members@.take(members.len() as int) =~= members@);
    Some(total)
}

/// The total weight of a prefix is at most the total weight.
proof fn lemma_total_prefix_monotone(s: Seq<Member>, k: int)
    requires
        0 <= k <= s.len(),
    ensures
        total_weight(s.take(k)) <= total_weight(s),
    decreases s.len(),
{
    if k < s.len() {
        lemma_total_prefix_monotone(s.drop_last(), k);
        assert(s.drop_last().take(k) =~= s.take(k));
    } else {
        assert(s.take(k) =~= s);
    }
}

/// Sets up the member list `members`, returning it with its total weight.
pub fn create(members: Vec<Member>) -> (r: Result<(Vec<Member>, u64), ContractError>)
    ensures
        match create_refusal(members@) {
            Some(e) => r == Err::<(Vec<Member>, u64), ContractError>(e),
            None => r matches Ok((m, total)) && m@ == members@ && total == total_weight(members@),
        },
        r is Ok ==> distinct_addrs(members@),
{
    proof {
        lemma_total_nonneg(members@);
        if create_refusal(members@) is None {
            lemma_created_members_distinct(members@);
        }
    }
    validate_unique_members(&members)?;
    if members.len() > MAX_DAO_MEMBERS {
        return Err(ContractError::TooManyMembers { max: MAX_DAO_MEMBERS, actual: members.len() });
    }
    let total: u64 = match sum_weights(&members) {
        Some(t) => t,
        None => {
            return Err(ContractError::Overflow {});
        },
    };
    if total > 100 {
        return Err(ContractError::InvalidThresholdPercentage { current: total });
    }
    Ok((members, total))
}

/// A newly set up DAO: its configuration, its temporary admin (the sender,
/// the identity service, which hands the DAO to its multisig), its members
/// and their total weight.
#[derive(Clone, Debug, PartialEq, Eq)]
pub struct DaoSetup {
    pub config: Config,
    pub admin: String,
    pub members: Vec<Member>,
    pub total: u64,
}

/// Sets up a DAO from `msg`, sent by `sender`. The threshold is an absolute
/// weight of `threshold_percentage`, at most 100, as is the members' total.
pub fn instantiate(sender: String, msg: InstantiateMsg) -> (r: Result<DaoSetup, ContractError>)
    ensures
        msg.threshold_percentage > 100 ==> r == Err::<DaoSetup, ContractError>(
            ContractError::InvalidThresholdPercentage { current: msg.threshold_percentage }),
        msg.threshold_percentage <= 100 ==> match create_refusal(msg.members@) {
            Some(e) => r == Err::<DaoSetup, ContractError>(e),
            None => r matches Ok(setup) && setup.config == (Config {
                threshold: Threshold::AbsoluteCount { weight: msg.threshold_percentage },
                max_voting_period: msg.max_voting_period,
                dao_name: msg.dao_name,
                governance_addr: msg.governance_addr,
            }) && setup.admin == sender && setup.members@ == msg.members@
                && setup.total == total_weight(msg.members@),
        },
{
    if msg.threshold_percentage > 100 {
        return Err(ContractError::InvalidThresholdPercentage { current: msg.threshold_percentage });
    }
    let config = Config {
        threshold: Threshold::AbsoluteCount { weight: msg.threshold_percentage },
        max_voting_period: msg.max_voting_period,
        dao_name: msg.dao_name,
        governance_addr: msg.governance_addr,
    };
    let (members, total) = create(msg.members)?;
    Ok(DaoSetup { config, admin: sender, members, total })
}


/// The member list, running total and diffs while an update is applied.
pub type UpdateState = (Seq<Member>, int, Seq<MemberDiff>);

/// Adds or reweights member `m`: the total loses the old weight and gains
/// the new one, failing (`None`) when it would leave `u64`.
pub open spec fn add_one(st: UpdateState, m: Member) -> Option<UpdateState> {
    let old = weight_in(st.0, m.addr@);
    let reduced = st.1 - match old { Some(w) => w as int, None => 0 };
    if reduced < 0 || reduced + m.weight > u64::MAX {
        None
    } else {
        Some((set_weight(st.0, m), reduced + m.weight, st.2.push(MemberDiff { key: m.addr, old, new: Some(m.weight) })))
    }
}

/// Applies the additions `adds` in order.
pub open spec fn add_all(st: UpdateState, adds: Seq<Member>) -> Option<UpdateState>
    decreases adds.len(),
{
    if adds.len() == 0 {
        Some(st)
    } else {
        match add_all(st, adds.drop_last()) {
            Some(s1) => add_one(s1, adds.last()),
            None => None,
        }
    }
}

/// Removes the member with address `a`, if there is one, taking its weight
/// off the total (failing when the total would drop below zero).
pub open spec fn remove_one(st: UpdateState, a: String) -> Option<UpdateState> {
    match weight_in(st.0, a@) {
        None => Some(st),
        Some(w) => if st.1 - w < 0 {
            None
        } else {
            Some((without(st.0, a@), st.1 - w, st.2.push(MemberDiff { key: a, old: Some(w), new: None })))
        },
    }
}

/// Applies the removals `removes` in order.
pub open spec fn remove_all(st: UpdateState, removes: Seq<String>) -> Option<UpdateState>
    decreases removes.len(),
{
    if removes.len() == 0 {
        Some(st)
    } else {
        match remove_all(st, removes.drop_last()) {
            Some(s1) => remove_one(s1, removes.last()),
            None => None,
        }
    }
}

/// Applies the additions, then the removals; an overflow while adding is
/// reported as a standard error, one while removing as an overflow.
pub open spec fn update_changes(members: Seq<Member>, total: u64, adds: Seq<Member>, removes: Seq<String>) -> Result<UpdateState, ContractError> {
    match add_all((members, total as int, Seq::empty()), adds) {
        None => Err(ContractError::Std(StdError::Overflow {})),
        Some(st) => match remove_all(st, removes) {
            None => Err(ContractError::Overflow {}),
            Some(fin) => Ok(fin),
        },
    }
}

proof fn lemma_add_all_none(st: UpdateState, adds: Seq<Member>, k: int)
    requires
        0 <= k <= adds.len(),
        add_all(st, adds.take(k)) is None,
    ensures
        add_all(st, adds) is None,
    decreases adds.len(),
{
    if k < adds.len() {
        assert(adds.drop_last().take(k) =~= adds.take(k));
        lemma_add_all_none(st, adds.drop_last(), k);
    } else {
        assert(adds.take(k) =~= adds);
    }
}

proof fn lemma_remove_all_none(st: UpdateState, removes: Seq<String>, k: int)
    requires
        0 <= k <= removes.len(),
        remove_all(st, removes.take(k)) is None,
    ensures
        remove_all(st, removes) is None,
    decreases removes.len(),
{
    if k < removes.len() {
        assert(removes.drop_last().take(k) =~= removes.take(k));
        lemma_remove_all_none(st, removes.drop_last(), k);
    } else {
        assert(removes.take(k) =~= removes);
    }
}

/// Gives member `m` its place in `members` (replacing the one with its
/// address, or appended).
fn set_member(members: &mut Vec<Member>, m: Member)
    ensures
        final(members)@ == set_weight(old(members)@, m),
{
    proof {
        lemma_index_of_bounds(old(members)@, m.addr@);
    }
    match find_member(members, &m.addr) {
        Some(i) => {
            members.set(i, m);
        },
        None => {
            members.push(m);
        },
    }
}

/// Applies additions `to_add` then removals `to_remove` to `members` with
/// total weight `total`.
#[verifier::loop_isolation(false)]
fn apply_changes(members: Vec<Member>, total: u64, to_add: Vec<Member>, to_remove: Vec<String>)
    -> (r: Result<(Vec<Member>, u64, Vec<MemberDiff>), ContractError>)
    ensures
        match update_changes(members@, total, to_add@, to_remove@) {
            Err(e) => r == Err::<(Vec<Member>, u64, Vec<MemberDiff>), ContractError>(e),
            Ok(st) => r matches Ok((m, t, d)) && m@ == st.0 && t == st.1 && d@ == st.2,
        },
{
    let ghost m0 = members@;
    let ghost adds = to_add@;
    let ghost removes = to_remove@;
    let ghost st0: UpdateState = (m0, total as int, Seq::empty());
    let mut members = members;
    let mut total: u64 = total;
    let mut diffs: Vec<MemberDiff> = Vec::new();
    assert(adds.take(0) =~= Seq::<Member>::empty());
    for add in it: to_add.into_iter()
        invariant
            it.seq() == adds,
            add_all(st0, adds.take(it.index() as int)) == Some((members@, total as int, diffs@)),
    {
        let ghost i = it.index() as int;
        let ghost cur: UpdateState = (members@, total as int, diffs@);
        proof {
            assert(add == adds[i]);
            assert(adds.take(i + 1).drop_last() =~= adds.take(i));
            assert(adds.take(i + 1).last() == add);
            assert(add_all(st0, adds.take(i + 1)) == add_one(cur, add));
            lemma_index_of_bounds(members@, add.addr@);
        }
        let old: Option<u64> = match find_member(&members, &add.addr) {
            Some(k) => Some(members[k].weight),
            None => None,
        };
        let reduced: u64 = match total.checked_sub(match old { Some(w) => w, None => 0 }) {
            Some(t) => t,
            None => {
                proof {
                    assert(add_one(cur, add) is None);
                    lemma_add_all_none(st0, adds, i + 1);
                }
                return Err(ContractError::Std(StdError::Overflow {}));
            },
        };
        let new_total: u64 = match reduced.checked_add(add.weight) {
            Some(t) => t,
            None => {
                proof {
                    assert(add_one(cur, add) is None);
                    lemma_add_all_none(st0, adds, i + 1);
                }
                return Err(ContractError::Std(StdError::Overflow {}));
            },
        };
        total = new_total;
        diffs.push(MemberDiff { key: add.addr.clone(), old, new: Some(add.weight) });
        set_member(&mut members, add);
    }
    assert(adds.take(adds.len() as int) =~= adds);
    let ghost st1: UpdateState = (members@, total as int, diffs@);
    assert(removes.take(0) =~= Seq::<String>::empty());
    for remove in it: to_remove.into_iter()
        invariant
            it.seq() == removes,
            add_all(st0, adds) == Some(st1),
            remove_all(st1, removes.take(it.index() as int)) == Some((members@, total as int, diffs@)),
    {
        let ghost i = it.index() as int;
        let ghost cur: UpdateState = (members@, total as int, diffs@);
        proof {
            assert(remove == removes[i]);
            assert(removes.take(i + 1).drop_last() =~= removes.take(i));
            assert(removes.take(i + 1).last() == remove);
            assert(remove_all(st1, removes.take(i + 1)) == remove_one(cur, remove));
            lemma_index_of_bounds(members@, remove@);
        }
        match find_member(&members, &remove) {
            Some(k) => {
                let weight: u64 = members[k].weight;
                let reduced: u64 = match total.checked_sub(weight) {
                    Some(t) => t,
                    None => {
                        proof {
                            assert(remove_one(cur, remove) is None);
                            lemma_remove_all_none(st1, removes, i + 1);
                        }
                        return Err(ContractError::Overflow {});
                    },
                };
                total = reduced;
                members.remove(k);
                diffs.push(MemberDiff { key: remove, old: Some(weight), new: None });
            },
            None => {},
        }
    }
    assert(removes.take(removes.len() as int) =~= removes);
    Ok((members, total, diffs))
}


/// The largest weight among `members` (0 for none).
pub open spec fn largest_weight(members: Seq<Member>) -> u64
    decreases members.len(),
{
    if members.len() == 0 {
        0
    } else {
        let rest = largest_weight(members.drop_last());
        if members.last().weight > rest { members.last().weight } else { rest }
    }
}

fn find_largest_weight(members: &Vec<Member>) -> (w: u64)
    ensures
        w == largest_weight(members@),
        forall|i: int| 0 <= i < members@.len() ==> (#[trigger] members@[i]).weight <= w,
        members@.len() > 0 ==> exists|i: int| 0 <= i < members@.len() && (#[trigger] members@[i]).weight == w,
{
    let mut w: u64 = 0;
    let mut i: usize = 0;
    while i < members.len()
        invariant
            i <= members.len(),
            w == largest_weight(members@.take(i as int)),
        decreases members.len() - i,
    {
        assert(members@.take(i + 1).drop_last() =~= members@.take(i as int));
        if members[i].weight > w {
            w = members[i].weight;
        }
        i = i + 1;
    }
    assert(members@.take(members.len() as int) =~= members@);
    proof {
        crate::dao_members::laws::lemma_largest_weight_is_largest(members@);
    }
    w
}

/// Whether the DAO at address `dao` holds one of the governance core slots.
pub open spec fn holds_core_slot(core_slots: GovernanceCoreSlotsResponse, dao: String) -> bool {
    ||| core_slots.brand matches Some(s) && s.dao@ == dao@
    ||| core_slots.core_tech matches Some(s) && s.dao@ == dao@
    ||| core_slots.creative matches Some(s) && s.dao@ == dao@
}

/// How many members a listing of the member list reports: all of them, but
/// no more than one beyond the limit of nine.
pub open spec fn listed_count(members: Seq<Member>) -> nat {
    if members.len() > MAX_DAO_MEMBERS + 1 { (MAX_DAO_MEMBERS + 1) as nat } else { members.len() }
}

/// Why the member list `members` of the DAO `dao` breaks the membership
/// rules: a core slot holder needs three to nine members, none of whom
/// alone reaches the threshold; any other DAO has at most nine members.
pub open spec fn membership_refusal(
    members: Seq<Member>,
    dao: String,
    threshold: Threshold,
    core_slots: GovernanceCoreSlotsResponse,
) -> Option<ContractError> {
    let listed = listed_count(members);
    if holds_core_slot(core_slots, dao) {
        if listed > MAX_DAO_MEMBERS || listed < MIN_CORE_TEAM_MEMBERS {
            Some(ContractError::WrongCoreTeamMemberCount { min: MIN_CORE_TEAM_MEMBERS, max: MAX_DAO_MEMBERS })
        } else if threshold.validation(largest_weight(members)) is Ok {
            Some(ContractError::WrongCoreTeamMemberVotingPower { threshold, current: largest_weight(members) })
        } else {
            None
        }
    } else if listed > MAX_DAO_MEMBERS {
        Some(ContractError::TooManyMembers { max: MAX_DAO_MEMBERS, actual: listed as usize })
    } else {
        None
    }
}

/// What a membership update gives: the duplicate check on the additions,
/// the admin check, the changes themselves, then the membership rules.
pub open spec fn update_outcome(
    members: Seq<Member>,
    total: u64,
    admin: Option<String>,
    sender: String,
    threshold: Threshold,
    core_slots: GovernanceCoreSlotsResponse,
    adds: Seq<Member>,
    removes: Seq<String>,
) -> Result<UpdateState, ContractError> {
    match first_duplicate(adds) {
        Some(j) => Err(ContractError::DuplicateMember { member: adds[j].addr }),
        None => match admin {
            Some(a) if a@ == sender@ => match update_changes(members, total, adds, removes) {
                Err(e) => Err(e),
                Ok(st) => match membership_refusal(st.0, a, threshold, core_slots) {
                    Some(e) => Err(e),
                    None => Ok(st),
                },
            },
            _ => Err(ContractError::Admin {}),
        },
    }
}

/// The member list after an update, its total weight, and the changes made.
#[derive(Clone, Debug, PartialEq, Eq)]
pub struct MembershipUpdate {
    pub members: Vec<Member>,
    pub total: u64,
    pub diffs: Vec<MemberDiff>,
}

/// Adds (or reweights) `to_add` and removes `to_remove` from the member list
/// `members` with total weight `total`, on behalf of `sender`. Only the admin
/// may do so; `config` and `core_slots` (the governance contract's answer)
/// decide which membership rules apply.
pub fn update_members(
    members: Vec<Member>,
    total: u64,
    admin: &Option<String>,
    sender: &String,
    config: &Config,
    core_slots: &GovernanceCoreSlotsResponse,
    to_add: Vec<Member>,
    to_remove: Vec<String>,
) -> (r: Result<MembershipUpdate, ContractError>)
    ensures
        match update_outcome(members@, total, *admin, *sender, config.threshold, *core_slots, to_add@, to_remove@) {
            Err(e) => r == Err::<MembershipUpdate, ContractError>(e),
            Ok(st) => r matches Ok(u) && u.members@ == st.0 && u.total == st.1 && u.diffs@ == st.2,
        },
        distinct_addrs(members@) && total == total_weight(members@) ==> (r matches Ok(u)
            ==> distinct_addrs(u.members@) && u.total == total_weight(u.members@)),
        r matches Ok(u) ==> u.members@.len() <= 9,
        (*admin matches Some(a) && {
            ||| core_slots.brand matches Some(s) && s.dao@ == a@
            ||| core_slots.creative matches Some(s) && s.dao@ == a@
            ||| core_slots.core_tech matches Some(s) && s.dao@ == a@
        }) ==> (r matches Ok(u) ==> {
            &&& 3 <= u.members@.len() <= 9
            &&& forall|i: int| 0 <= i < u.members@.len() ==> config.threshold.validation((#[trigger] u.members@[i]).weight) is Err
        }),
{
    proof {
        lemma_update_meets_membership_rules(members@, total, *admin, *sender, config.threshold, *core_slots, to_add@, to_remove@);
    }
    let ghost before = members@;
    let ghost before_total = total;
    let ghost adds = to_add@;
    let ghost removes = to_remove@;
    validate_unique_members(&to_add)?;
    let dao: String = match admin {
        Some(a) => {
            if *a != *sender {
                return Err(ContractError::Admin {});
            }
            a.clone()
        },
        None => {
            return Err(ContractError::Admin {});
        },
    };
    let (members, total, diffs) = apply_changes(members, total, to_add, to_remove)?;
    let listed: usize = if members.len() > MAX_DAO_MEMBERS + 1 { MAX_DAO_MEMBERS + 1 } else { members.len() };
    let holds = is_holder(&core_slots.brand, &dao) || is_holder(&core_slots.core_tech, &dao)
        || is_holder(&core_slots.creative, &dao);
    if holds {
        if listed > MAX_DAO_MEMBERS || listed < MIN_CORE_TEAM_MEMBERS {
            return Err(ContractError::WrongCoreTeamMemberCount { min: MIN_CORE_TEAM_MEMBERS, max: MAX_DAO_MEMBERS });
        }
        let largest: u64 = find_largest_weight(&members);
        if config.threshold.validate(largest).is_ok() {
            return Err(ContractError::WrongCoreTeamMemberVotingPower { threshold: config.threshold, current: largest });
        }
    } else if listed > MAX_DAO_MEMBERS {
        return Err(ContractError::TooManyMembers { max: MAX_DAO_MEMBERS, actual: listed });
    }
    proof {
        if distinct_addrs(before) && before_total == total_weight(before) {
            lemma_update_keeps_members_consistent(before, before_total, adds, removes);
        }
    }
    Ok(MembershipUpdate { members, total, diffs })
}

} // verus!
