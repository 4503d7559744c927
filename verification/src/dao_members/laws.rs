//! What every membership update keeps: the stored total is the sum of the
//! members' weights, no address is listed twice, and a removed address is
//! no longer a member.

use vstd::prelude::*;
use crate::dao_members::contract::{
    add_all, add_one, create_refusal, first_duplicate, is_repeat, largest_weight, remove_all, remove_one, update_changes,
    update_outcome, MemberDiff, UpdateState,
};
use crate::dao_members::members::{
    index_of, lemma_index_of_bounds, lemma_index_of_first, lemma_total_set_weight, lemma_total_without, set_weight, total_weight,
    weight_in, without,
};
use crate::dao_members::msg::Member;
use crate::dao_members::error::ContractError;
use crate::math::Threshold;
use crate::shared::GovernanceCoreSlotsResponse;
use crate::governance::laws::lemma_threshold_reach_monotone;

verus! {

/// No two members share an address.
pub open spec fn distinct_addrs(s: Seq<Member>) -> bool {
    forall|i: int, j: int| 0 <= i < j < s.len() ==> (#[trigger] s[i]).addr@ != (#[trigger] s[j]).addr@
}

/// A state whose total is the sum of its members' weights, with no address twice.
pub open spec fn consistent(st: UpdateState) -> bool {
    st.1 == total_weight(st.0) && distinct_addrs(st.0)
}

proof fn lemma_set_weight_distinct(s: Seq<Member>, m: Member)
    requires
        distinct_addrs(s),
    ensures
        distinct_addrs(set_weight(s, m)),
{
    lemma_index_of_bounds(s, m.addr@);
    let t = set_weight(s, m);
    match index_of(s, m.addr@) {
        Some(k) => {
            assert forall|i: int, j: int| 0 <= i < j < t.len() implies (#[trigger] t[i]).addr@ != (#[trigger] t[j]).addr@ by {
                if i == k {
                    assert(s[j].addr@ != s[k].addr@);
                } else if j == k {
                    assert(s[i].addr@ != s[k].addr@);
                } else {
                    assert(s[i].addr@ != s[j].addr@);
                }
            }
        },
        None => {
            assert forall|i: int, j: int| 0 <= i < j < t.len() implies (#[trigger] t[i]).addr@ != (#[trigger] t[j]).addr@ by {
                if j == s.len() {
                    assert(s[i].addr@ != m.addr@);
                } else {
                    assert(s[i].addr@ != s[j].addr@);
                }
            }
        },
    }
}

proof fn lemma_without_distinct(s: Seq<Member>, a: Seq<char>)
    requires
        distinct_addrs(s),
    ensures
        distinct_addrs(without(s, a)),
        forall|i: int| 0 <= i < without(s, a).len() ==> (#[trigger] without(s, a)[i]).addr@ != a,
        forall|i: int| 0 <= i < without(s, a).len() ==> s.contains(#[trigger] without(s, a)[i]),
{
    lemma_index_of_bounds(s, a);
    let t = without(s, a);
    match index_of(s, a) {
        Some(k) => {
            assert forall|i: int| 0 <= i < t.len() implies s.contains(#[trigger] t[i]) by {
                if i < k {
                    assert(t[i] == s[i]);
                } else {
                    assert(t[i] == s[i + 1]);
                }
            }
            assert forall|i: int| 0 <= i < t.len() implies (#[trigger] t[i]).addr@ != a by {
                if i >= k {
                    assert(t[i] == s[i + 1]);
                    assert(s[k].addr@ != s[i + 1].addr@);
                }
            }
            assert forall|i: int, j: int| 0 <= i < j < t.len() implies (#[trigger] t[i]).addr@ != (#[trigger] t[j]).addr@ by {
                let ii = if i < k { i } else { i + 1 };
                let jj = if j < k { j } else { j + 1 };
                assert(t[i] == s[ii] && t[j] == s[jj]);
                assert(s[ii].addr@ != s[jj].addr@);
            }
        },
        None => {
            assert forall|i: int| 0 <= i < t.len() implies s.contains(#[trigger] t[i]) by {
                assert(t[i] == s[i]);
            }
        },
    }
}

proof fn lemma_add_all_consistent(st: UpdateState, adds: Seq<Member>)
    requires
        consistent(st),
    ensures
        add_all(st, adds) matches Some(fin) ==> consistent(fin),
    decreases adds.len(),
{
    if adds.len() > 0 {
        lemma_add_all_consistent(st, adds.drop_last());
        if let Some(s1) = add_all(st, adds.drop_last()) {
            lemma_total_set_weight(s1.0, adds.last());
            lemma_set_weight_distinct(s1.0, adds.last());
        }
    }
}

proof fn lemma_remove_all_consistent(st: UpdateState, removes: Seq<String>)
    requires
        consistent(st),
    ensures
        remove_all(st, removes) matches Some(fin) ==> consistent(fin)
            && forall|k: int| 0 <= k < removes.len() ==> weight_in(fin.0, (#[trigger] removes[k])@) is None,
    decreases removes.len(),
{
    if removes.len() > 0 {
        let front = removes.drop_last();
        lemma_remove_all_consistent(st, front);
        if let Some(s1) = remove_all(st, front) {
            let a = removes.last();
            lemma_total_without(s1.0, a@);
            lemma_without_distinct(s1.0, a@);
            if let Some(fin) = remove_one(s1, a) {
                assert(fin.0 == without(s1.0, a@));
                assert forall|k: int| 0 <= k < removes.len() implies weight_in(fin.0, (#[trigger] removes[k])@) is None by {
                    let b = removes[k]@;
                    lemma_index_of_bounds(fin.0, b);
                    if k < removes.len() - 1 {
                        assert(front[k] == removes[k]);
                        lemma_index_of_bounds(s1.0, b);
                        if let Some(i) = index_of(fin.0, b) {
                            assert(s1.0.contains(fin.0[i]));
                            let j = choose|j: int| 0 <= j < s1.0.len() && s1.0[j] == fin.0[i];
                            assert(s1.0[j].addr@ == b);
                        }
                    } else {
                        if let Some(i) = index_of(fin.0, b) {
                            assert(fin.0[i].addr@ != a@);
                        }
                    }
                }
            }
        }
    }
}

/// A member list that creation accepts lists no address twice.
pub proof fn lemma_created_members_distinct(members: Seq<Member>)
    requires
        create_refusal(members) is None,
    ensures
        distinct_addrs(members),
{
    assert(first_duplicate(members) is None);
}

/// A new member list is accepted exactly when it lists no address twice,
/// has at most nine members, and their weights add up to at most 100.
pub proof fn lemma_creation_rules(members: Seq<Member>)
    ensures
        create_refusal(members) is None <==> {
            &&& distinct_addrs(members)
            &&& members.len() <= 9
            &&& total_weight(members) <= 100
        },
{
    if create_refusal(members) is None {
        lemma_created_members_distinct(members);
    }
    if distinct_addrs(members) {
        assert(!(exists|j: int, i: int| 0 <= i < j < members.len() && #[trigger] members[i].addr@ == #[trigger] members[j].addr@));
    }
}

/// An update that succeeds on a member list whose total is the sum of its
/// weights and which lists no address twice leaves a list of which both
/// still hold, and from which every removed address is gone.
pub proof fn lemma_update_keeps_members_consistent(
    members: Seq<Member>,
    total: u64,
    adds: Seq<Member>,
    removes: Seq<String>,
)
    requires
        total == total_weight(members),
        distinct_addrs(members),
    ensures
        update_changes(members, total, adds, removes) matches Ok(st) ==> {
            &&& st.1 == total_weight(st.0)
            &&& distinct_addrs(st.0)
            &&& forall|k: int| 0 <= k < removes.len() ==> weight_in(st.0, (#[trigger] removes[k])@) is None
        },
{
    let st0: UpdateState = (members, total as int, Seq::empty());
    lemma_add_all_consistent(st0, adds);
    if let Some(st1) = add_all(st0, adds) {
        lemma_remove_all_consistent(st1, removes);
    }
}

/// The weight the last addition of address `a` among `adds` gives it, if
/// `a` is added at all.
pub open spec fn added_weight(adds: Seq<Member>, a: Seq<char>) -> Option<u64>
    decreases adds.len(),
{
    if adds.len() == 0 {
        None
    } else if adds.last().addr@ == a {
        Some(adds.last().weight)
    } else {
        added_weight(adds.drop_last(), a)
    }
}

/// The weight of `a` once `adds` are applied to `members`: the weight it was
/// last added with, or else its weight before.
pub open spec fn weight_after_adds(members: Seq<Member>, adds: Seq<Member>, a: Seq<char>) -> Option<u64> {
    match added_weight(adds, a) {
        Some(w) => Some(w),
        None => weight_in(members, a),
    }
}

/// Whether `a` is among the addresses `removes`.
pub open spec fn removed(removes: Seq<String>, a: Seq<char>) -> bool {
    exists|j: int| 0 <= j < removes.len() && #[trigger] removes[j]@ == a
}

/// The weight of `a` once `adds` and then `removes` are applied to `members`.
pub open spec fn weight_after(members: Seq<Member>, adds: Seq<Member>, removes: Seq<String>, a: Seq<char>) -> Option<u64> {
    if removed(removes, a) { None } else { weight_after_adds(members, adds, a) }
}

/// One diff per addition, in order: its address, the weight the address had
/// just before, and the added weight.
pub open spec fn addition_diffs(members: Seq<Member>, adds: Seq<Member>) -> Seq<MemberDiff> {
    Seq::new(adds.len(), |k: int| MemberDiff {
        key: adds[k].addr,
        old: weight_after_adds(members, adds.take(k), adds[k].addr@),
        new: Some(adds[k].weight),
    })
}

/// One diff per removal of an address that is a member at that point (added
/// or kept, and not removed before), in order; other removals leave none.
pub open spec fn removal_diffs(members: Seq<Member>, adds: Seq<Member>, removes: Seq<String>) -> Seq<MemberDiff>
    decreases removes.len(),
{
    if removes.len() == 0 {
        Seq::empty()
    } else {
        let before = removal_diffs(members, adds, removes.drop_last());
        let r = removes.last();
        match weight_after(members, adds, removes.drop_last(), r@) {
            Some(w) => before.push(MemberDiff { key: r, old: Some(w), new: None }),
            None => before,
        }
    }
}

proof fn lemma_index_of_same_addrs(s: Seq<Member>, t: Seq<Member>, a: Seq<char>)
    requires
        s.len() == t.len(),
        forall|k: int| 0 <= k < s.len() ==> (#[trigger] s[k]).addr@ == t[k].addr@,
    ensures
        index_of(s, a) == index_of(t, a),
{
    lemma_index_of_bounds(s, a);
    lemma_index_of_bounds(t, a);
    match index_of(s, a) {
        Some(j) => {
            assert forall|k: int| 0 <= k < j implies (#[trigger] t[k]).addr@ != a by {
                assert(s[k].addr@ != a);
            }
            lemma_index_of_first(t, a, j);
        },
        None => {
            if let Some(k) = index_of(t, a) {
                assert(s[k].addr@ == a);
            }
        },
    }
}

/// Setting member `m` changes the weight of its address only.
proof fn lemma_weight_in_set_weight(s: Seq<Member>, m: Member, a: Seq<char>)
    ensures
        weight_in(set_weight(s, m), a) == if a == m.addr@ { Some(m.weight) } else { weight_in(s, a) },
{
    lemma_index_of_bounds(s, m.addr@);
    lemma_index_of_bounds(s, a);
    match index_of(s, m.addr@) {
        Some(i) => {
            let t = s.update(i, m);
            assert forall|k: int| 0 <= k < s.len() implies (#[trigger] s[k]).addr@ == t[k].addr@ by {}
            lemma_index_of_same_addrs(s, t, a);
            if a != m.addr@ {
                if let Some(j) = index_of(s, a) {
                    assert(j != i);
                    assert(t[j] == s[j]);
                }
            }
        },
        None => {
            let t = s.push(m);
            if a == m.addr@ {
                assert forall|k: int| 0 <= k < s.len() implies (#[trigger] t[k]).addr@ != a by {
                    assert(t[k] == s[k]);
                }
                lemma_index_of_first(t, a, s.len() as int);
            } else {
                match index_of(s, a) {
                    Some(j) => {
                        assert forall|k: int| 0 <= k < j implies (#[trigger] t[k]).addr@ != a by {
                            assert(t[k] == s[k]);
                        }
                        assert(t[j] == s[j]);
                        lemma_index_of_first(t, a, j);
                    },
                    None => {
                        lemma_index_of_bounds(t, a);
                        if let Some(k) = index_of(t, a) {
                            if k < s.len() {
                                assert(t[k] == s[k]);
                            }
                        }
                    },
                }
            }
        },
    }
}

/// Removing address `r` from a list without repeated addresses takes `r`'s
/// weight away and keeps every other weight.
proof fn lemma_weight_in_without(s: Seq<Member>, r: Seq<char>, a: Seq<char>)
    requires
        distinct_addrs(s),
    ensures
        weight_in(without(s, r), a) == if a == r { None } else { weight_in(s, a) },
{
    lemma_without_distinct(s, r);
    let t = without(s, r);
    lemma_index_of_bounds(t, a);
    lemma_index_of_bounds(s, r);
    lemma_index_of_bounds(s, a);
    if a == r {
        if let Some(k) = index_of(t, a) {
            assert(t[k].addr@ != r);
        }
    } else {
        match index_of(s, r) {
            None => {},
            Some(i) => {
                match index_of(s, a) {
                    Some(j) => {
                        assert(j != i);
                        let j2 = if j < i { j } else { j - 1 };
                        assert(t[j2] == s[j]);
                        assert forall|k: int| 0 <= k < j2 implies (#[trigger] t[k]).addr@ != a by {
                            let k2 = if k < i { k } else { k + 1 };
                            assert(t[k] == s[k2]);
                            assert(k2 != j);
                            if k2 < j {
                                assert(s[k2].addr@ != s[j].addr@);
                            } else {
                                assert(s[j].addr@ != s[k2].addr@);
                            }
                        }
                        lemma_index_of_first(t, a, j2);
                    },
                    None => {
                        if let Some(k) = index_of(t, a) {
                            let k2 = if k < i { k } else { k + 1 };
                            assert(t[k] == s[k2]);
                        }
                    },
                }
            },
        }
    }
}

proof fn lemma_added_weight_of_distinct(adds: Seq<Member>, k: int)
    requires
        distinct_addrs(adds),
        0 <= k < adds.len(),
    ensures
        added_weight(adds, adds[k].addr@) == Some(adds[k].weight),
    decreases adds.len(),
{
    if k < adds.len() - 1 {
        let front = adds.drop_last();
        assert(adds.last().addr@ != adds[k].addr@) by {
            assert(adds[k] == adds[k]);
            assert(adds[adds.len() - 1] == adds.last());
        }
        assert(front[k] == adds[k]);
        assert(distinct_addrs(front)) by {
            assert forall|i: int, j: int| 0 <= i < j < front.len() implies (#[trigger] front[i]).addr@ != (#[trigger] front[j]).addr@ by {
                assert(front[i] == adds[i] && front[j] == adds[j]);
            }
        }
        lemma_added_weight_of_distinct(front, k);
    }
}

proof fn lemma_added_weight_absent(adds: Seq<Member>, a: Seq<char>)
    requires
        forall|k: int| 0 <= k < adds.len() ==> (#[trigger] adds[k]).addr@ != a,
    ensures
        added_weight(adds, a) is None,
    decreases adds.len(),
{
    if adds.len() > 0 {
        let front = adds.drop_last();
        assert(adds[adds.len() - 1] == adds.last());
        assert forall|k: int| 0 <= k < front.len() implies (#[trigger] front[k]).addr@ != a by {
            assert(front[k] == adds[k]);
        }
        lemma_added_weight_absent(front, a);
    }
}

proof fn lemma_add_all_exact(members: Seq<Member>, total: int, adds: Seq<Member>)
    requires
        distinct_addrs(members),
    ensures
        add_all((members, total, Seq::empty()), adds) matches Some(st) ==> {
            &&& distinct_addrs(st.0)
            &&& forall|a: Seq<char>| #[trigger] weight_in(st.0, a) == weight_after_adds(members, adds, a)
            &&& st.2 == addition_diffs(members, adds)
        },
    decreases adds.len(),
{
    let st0: UpdateState = (members, total, Seq::empty());
    if adds.len() == 0 {
        assert(addition_diffs(members, adds) =~= Seq::<MemberDiff>::empty());
    } else {
        let front = adds.drop_last();
        lemma_add_all_exact(members, total, front);
        if let Some(s1) = add_all(st0, front) {
            let m = adds.last();
            if let Some(fin) = add_one(s1, m) {
                lemma_set_weight_distinct(s1.0, m);
                assert forall|a: Seq<char>| #[trigger] weight_in(fin.0, a) == weight_after_adds(members, adds, a) by {
                    lemma_weight_in_set_weight(s1.0, m, a);
                    assert(weight_in(s1.0, a) == weight_after_adds(members, front, a));
                }
                let d = MemberDiff { key: m.addr, old: weight_after_adds(members, front, m.addr@), new: Some(m.weight) };
                assert(weight_in(s1.0, m.addr@) == weight_after_adds(members, front, m.addr@));
                assert(fin.2 == s1.2.push(d));
                assert(adds.take(adds.len() - 1) =~= front);
                assert forall|k: int| 0 <= k < front.len() implies #[trigger] addition_diffs(members, adds)[k]
                    == addition_diffs(members, front)[k] by {
                    assert(adds.take(k) =~= front.take(k));
                    assert(front[k] == adds[k]);
                }
                assert(addition_diffs(members, adds) =~= addition_diffs(members, front).push(d));
            }
        }
    }
}

proof fn lemma_remove_all_exact(members: Seq<Member>, adds: Seq<Member>, st1: UpdateState, removes: Seq<String>)
    requires
        distinct_addrs(st1.0),
        forall|a: Seq<char>| #[trigger] weight_in(st1.0, a) == weight_after_adds(members, adds, a),
    ensures
        remove_all(st1, removes) matches Some(fin) ==> {
            &&& distinct_addrs(fin.0)
            &&& forall|a: Seq<char>| #[trigger] weight_in(fin.0, a) == weight_after(members, adds, removes, a)
            &&& fin.2 == st1.2 + removal_diffs(members, adds, removes)
        },
    decreases removes.len(),
{
    if removes.len() == 0 {
        assert(st1.2 + Seq::<MemberDiff>::empty() =~= st1.2);
        assert forall|a: Seq<char>| #[trigger] weight_in(st1.0, a) == weight_after(members, adds, removes, a) by {
            assert(!removed(removes, a));
        }
    } else {
        let front = removes.drop_last();
        let r = removes.last();
        lemma_remove_all_exact(members, adds, st1, front);
        if let Some(s1) = remove_all(st1, front) {
            assert(removes[removes.len() - 1] == r);
            assert forall|a: Seq<char>| #[trigger] removed(removes, a) == (removed(front, a) || a == r@) by {
                if removed(removes, a) {
                    let j = choose|j: int| 0 <= j < removes.len() && #[trigger] removes[j]@ == a;
                    if j < removes.len() - 1 {
                        assert(front[j] == removes[j]);
                    }
                }
                if removed(front, a) {
                    let j = choose|j: int| 0 <= j < front.len() && #[trigger] front[j]@ == a;
                    assert(removes[j] == front[j]);
                }
            }
            assert(weight_in(s1.0, r@) == weight_after(members, adds, front, r@));
            if let Some(fin) = remove_one(s1, r) {
                match weight_in(s1.0, r@) {
                    None => {
                        assert forall|a: Seq<char>| #[trigger] weight_in(fin.0, a) == weight_after(members, adds, removes, a) by {
                            assert(weight_in(s1.0, a) == weight_after(members, adds, front, a));
                            assert(removed(removes, a) == (removed(front, a) || a == r@));
                        }
                        assert(removal_diffs(members, adds, removes) == removal_diffs(members, adds, front));
                    },
                    Some(w) => {
                        lemma_without_distinct(s1.0, r@);
                        assert forall|a: Seq<char>| #[trigger] weight_in(fin.0, a) == weight_after(members, adds, removes, a) by {
                            lemma_weight_in_without(s1.0, r@, a);
                            assert(weight_in(s1.0, a) == weight_after(members, adds, front, a));
                            assert(removed(removes, a) == (removed(front, a) || a == r@));
                        }
                        let d = MemberDiff { key: r, old: Some(w), new: None };
                        assert(removal_diffs(members, adds, removes) == removal_diffs(members, adds, front).push(d));
                        assert(st1.2 + removal_diffs(members, adds, front).push(d)
                            =~= (st1.2 + removal_diffs(members, adds, front)).push(d));
                    },
                }
            }
        }
    }
}

/// A membership update does exactly what it is asked: starting from a list
/// whose total is the sum of its weights and which lists no address twice,
/// an accepted update leaves every address with the weight it was added
/// with, or none when it was removed, or else its weight before; an added
/// member that is not removed carries its weight; the diffs are one per
/// addition, in order (with the weight the address had before), followed by
/// one per removal of a member, in order, none for a non-member or a repeated
/// removal; and the total is again the sum of the weights, with no address
/// listed twice.
pub proof fn lemma_update_is_exact(
    members: Seq<Member>,
    total: u64,
    admin: Option<String>,
    sender: String,
    threshold: Threshold,
    core_slots: GovernanceCoreSlotsResponse,
    adds: Seq<Member>,
    removes: Seq<String>,
)
    requires
        total == total_weight(members),
        distinct_addrs(members),
    ensures
        update_outcome(members, total, admin, sender, threshold, core_slots, adds, removes) matches Ok(st) ==> {
            &&& forall|a: Seq<char>| #[trigger] weight_in(st.0, a) == weight_after(members, adds, removes, a)
            &&& forall|k: int| 0 <= k < adds.len() && !removed(removes, (#[trigger] adds[k]).addr@)
                ==> weight_in(st.0, adds[k].addr@) == Some(adds[k].weight)
            &&& st.2 == addition_diffs(members, adds) + removal_diffs(members, adds, removes)
            &&& forall|k: int| 0 <= k < adds.len() ==> (#[trigger] addition_diffs(members, adds)[k]).old
                == weight_in(members, adds[k].addr@)
            &&& st.1 == total_weight(st.0)
            &&& distinct_addrs(st.0)
        },
{
    if let Ok(st) = update_outcome(members, total, admin, sender, threshold, core_slots, adds, removes) {
        assert(first_duplicate(adds) is None);
        assert(distinct_addrs(adds)) by {
            assert forall|i: int, j: int| 0 <= i < j < adds.len() implies (#[trigger] adds[i]).addr@ != (#[trigger] adds[j]).addr@ by {
                if adds[i].addr@ == adds[j].addr@ {
                    assert(exists|j: int, i: int| 0 <= i < j < adds.len() && #[trigger] adds[i].addr@ == #[trigger] adds[j].addr@);
                }
            }
        }
        lemma_update_keeps_members_consistent(members, total, adds, removes);
        let st0: UpdateState = (members, total as int, Seq::empty());
        lemma_add_all_exact(members, total as int, adds);
        let st1 = add_all(st0, adds)->0;
        lemma_remove_all_exact(members, adds, st1, removes);
        assert forall|k: int| 0 <= k < adds.len() && !removed(removes, (#[trigger] adds[k]).addr@)
            implies weight_in(st.0, adds[k].addr@) == Some(adds[k].weight) by {
            lemma_added_weight_of_distinct(adds, k);
            assert(weight_in(st.0, adds[k].addr@) == weight_after(members, adds, removes, adds[k].addr@));
        }
        assert forall|k: int| 0 <= k < adds.len() implies (#[trigger] addition_diffs(members, adds)[k]).old
            == weight_in(members, adds[k].addr@) by {
            let pre = adds.take(k);
            assert forall|i: int| 0 <= i < pre.len() implies (#[trigger] pre[i]).addr@ != adds[k].addr@ by {
                assert(pre[i] == adds[i]);
            }
            lemma_added_weight_absent(pre, adds[k].addr@);
        }
        assert(Seq::<MemberDiff>::empty() + addition_diffs(members, adds) =~= addition_diffs(members, adds));
    }
}

/// The largest weight is at least every member's weight and, for a
/// non-empty list, is one of them.
pub proof fn lemma_largest_weight_is_largest(members: Seq<Member>)
    ensures
        forall|i: int| 0 <= i < members.len() ==> (#[trigger] members[i]).weight <= largest_weight(members),
        members.len() > 0 ==> exists|i: int| 0 <= i < members.len() && (#[trigger] members[i]).weight == largest_weight(members),
    decreases members.len(),
{
    if members.len() > 0 {
        let front = members.drop_last();
        lemma_largest_weight_is_largest(front);
        assert forall|i: int| 0 <= i < members.len() implies (#[trigger] members[i]).weight <= largest_weight(members) by {
            if i < members.len() - 1 {
                assert(members[i] == front[i]);
            }
        }
        if members.last().weight > largest_weight(front) {
            assert(members[members.len() - 1].weight == largest_weight(members));
        } else if front.len() > 0 {
            let j = choose|j: int| 0 <= j < front.len() && (#[trigger] front[j]).weight == largest_weight(front);
            assert(members[j] == front[j]);
        } else {
            assert(members[0].weight == largest_weight(members));
        }
    }
}

/// The membership rules every accepted update meets: no DAO is left with
/// more than nine members, and a DAO holding any of the three core slots
/// (brand, creative or core tech) keeps three to nine members, none of
/// whom reaches the threshold alone. An update that would leave a core slot
/// holder with too few or too many members is refused for its member count.
pub proof fn lemma_update_meets_membership_rules(
    members: Seq<Member>,
    total: u64,
    admin: Option<String>,
    sender: String,
    threshold: Threshold,
    core_slots: GovernanceCoreSlotsResponse,
    adds: Seq<Member>,
    removes: Seq<String>,
)
    ensures
        update_outcome(members, total, admin, sender, threshold, core_slots, adds, removes) matches Ok(st)
            ==> st.0.len() <= 9,
        (admin matches Some(a) && {
            ||| core_slots.brand matches Some(s) && s.dao@ == a@
            ||| core_slots.creative matches Some(s) && s.dao@ == a@
            ||| core_slots.core_tech matches Some(s) && s.dao@ == a@
        }) ==> {
            &&& update_outcome(members, total, admin, sender, threshold, core_slots, adds, removes) matches Ok(st)
                ==> {
                &&& 3 <= st.0.len() <= 9
                &&& forall|i: int| 0 <= i < st.0.len() ==> threshold.validation((#[trigger] st.0[i]).weight) is Err
            }
            &&& (first_duplicate(adds) is None && admin->0@ == sender@) ==> (
                update_changes(members, total, adds, removes) matches Ok(st) ==> (
                (st.0.len() < 3 || st.0.len() > 9)
                ==> update_outcome(members, total, admin, sender, threshold, core_slots, adds, removes)
                    == Err::<UpdateState, ContractError>(ContractError::WrongCoreTeamMemberCount { min: 3, max: 9 })))
        },
{
    if let Ok(st) = update_outcome(members, total, admin, sender, threshold, core_slots, adds, removes) {
        lemma_largest_weight_is_largest(st.0);
        assert forall|i: int| 0 <= i < st.0.len() && (admin matches Some(a) && {
            ||| core_slots.brand matches Some(s) && s.dao@ == a@
            ||| core_slots.creative matches Some(s) && s.dao@ == a@
            ||| core_slots.core_tech matches Some(s) && s.dao@ == a@
        }) implies threshold.validation((#[trigger] st.0[i]).weight) is Err by {
            if threshold.validation(st.0[i].weight) is Ok {
                lemma_threshold_reach_monotone(threshold, st.0[i].weight, largest_weight(st.0));
            }
        }
    }
}

} // verus!
