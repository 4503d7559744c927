//! The member list of a DAO as a sequence of members, with lookups,
//! weight updates and removals, and the total weight they sum to.

use vstd::prelude::*;
use crate::dao_members::msg::Member;

verus! {

/// Index of the first member of `s` with address `a`.
pub open spec fn index_of(s: Seq<Member>, a: Seq<char>) -> Option<int>
    decreases s.len(),
{
    if s.len() == 0 {
        None
    } else if s[0].addr@ == a {
        Some(0)
    } else {
        match index_of(s.drop_first(), a) {
            Some(i) => Some(i + 1),
            None => None,
        }
    }
}

/// Weight of the member with address `a`, if there is one.
pub open spec fn weight_in(s: Seq<Member>, a: Seq<char>) -> Option<u64> {
    match index_of(s, a) {
        Some(i) => Some(s[i].weight),
        None => None,
    }
}

/// The members with `m` taking its address's place, or appended.
pub open spec fn set_weight(s: Seq<Member>, m: Member) -> Seq<Member> {
    match index_of(s, m.addr@) {
        Some(i) => s.update(i, m),
        None => s.push(m),
    }
}

/// The members without the one with address `a`.
pub open spec fn without(s: Seq<Member>, a: Seq<char>) -> Seq<Member> {
    match index_of(s, a) {
        Some(i) => s.remove(i),
        None => s,
    }
}

/// Sum of the members' weights.
pub open spec fn total_weight(s: Seq<Member>) -> int
    decreases s.len(),
{
    if s.len() == 0 { 0 } else { total_weight(s.drop_last()) + s.last().weight }
}

pub proof fn lemma_index_of_bounds(s: Seq<Member>, a: Seq<char>)
    ensures
        index_of(s, a) matches Some(i) ==> 0 <= i < s.len() && s[i].addr@ == a
            && forall|j: int| 0 <= j < i ==> (#[trigger] s[j]).addr@ != a,
        index_of(s, a) is None ==> forall|j: int| 0 <= j < s.len() ==> (#[trigger] s[j]).addr@ != a,
    decreases s.len(),
{
    if s.len() > 0 {
        lemma_index_of_bounds(s.drop_first(), a);
        assert forall|j: int| 1 <= j < s.len() implies (#[trigger] s[j]) == s.drop_first()[j - 1] by {}
    }
}

/// `index_of` finds the first member whose address is `a`.
pub proof fn lemma_index_of_first(s: Seq<Member>, a: Seq<char>, i: int)
    requires
        0 <= i < s.len(),
        s[i].addr@ == a,
        forall|j: int| 0 <= j < i ==> (#[trigger] s[j]).addr@ != a,
    ensures
        index_of(s, a) == Some(i),
{
    lemma_index_of_bounds(s, a);
    match index_of(s, a) {
        Some(k) => {
            if k < i {
                assert(s[k].addr@ != a);
            }
            if k > i {
                assert(s[i].addr@ != a);
            }
        },
        None => {
            assert(s[i].addr@ != a);
        },
    }
}

pub proof fn lemma_total_push(s: Seq<Member>, m: Member)
    ensures
        total_weight(s.push(m)) == total_weight(s) + m.weight,
{
    assert(s.push(m).drop_last() =~= s);
}

pub proof fn lemma_total_nonneg(s: Seq<Member>)
    ensures
        total_weight(s) >= 0,
    decreases s.len(),
{
    if s.len() > 0 {
        lemma_total_nonneg(s.drop_last());
    }
}

pub proof fn lemma_total_update(s: Seq<Member>, i: int, m: Member)
    requires
        0 <= i < s.len(),
    ensures
        total_weight(s.update(i, m)) == total_weight(s) - s[i].weight + m.weight,
    decreases s.len(),
{
    if i == s.len() - 1 {
        assert(s.update(i, m).drop_last() =~= s.drop_last());
    } else {
        lemma_total_update(s.drop_last(), i, m);
        assert(s.update(i, m).drop_last() =~= s.drop_last().update(i, m));
    }
}

pub proof fn lemma_total_remove(s: Seq<Member>, i: int)
    requires
        0 <= i < s.len(),
    ensures
        total_weight(s.remove(i)) == total_weight(s) - s[i].weight,
    decreases s.len(),
{
    if i == s.len() - 1 {
        assert(s.remove(i) =~= s.drop_last());
    } else {
        lemma_total_remove(s.drop_last(), i);
        assert(s.remove(i).drop_last() =~= s.drop_last().remove(i));
        assert(s.remove(i).last() == s.last());
    }
}

/// Setting a weight changes the total by the difference of the weights.
pub proof fn lemma_total_set_weight(s: Seq<Member>, m: Member)
    ensures
        total_weight(set_weight(s, m)) == total_weight(s) - (match weight_in(s, m.addr@) { Some(w) => w as int, None => 0 }) + m.weight,
{
    lemma_index_of_bounds(s, m.addr@);
    match index_of(s, m.addr@) {
        Some(i) => lemma_total_update(s, i, m),
        None => lemma_total_push(s, m),
    }
}

/// Removing a member takes its weight off the total.
pub proof fn lemma_total_without(s: Seq<Member>, a: Seq<char>)
    ensures
        total_weight(without(s, a)) == total_weight(s) - (match weight_in(s, a) { Some(w) => w as int, None => 0 }),
{
    lemma_index_of_bounds(s, a);
    match index_of(s, a) {
        Some(i) => lemma_total_remove(s, i),
        None => {},
    }
}

/// Position of the member with address `a`, if there is one.
pub fn find_member(members: &Vec<Member>, a: &String) -> (r: Option<usize>)
    ensures
        match r {
            Some(i) => index_of(members@, a@) == Some(i as int),
            None => index_of(members@, a@) is None,
        },
{
    let mut i: usize = 0;
    while i < members.len()
        invariant
            i <= members.len(),
            forall|j: int| 0 <= j < i ==> (#[trigger] members@[j]).addr@ != a@,
        decreases members.len() - i,
    {
        if members[i].addr == *a {
            proof {
                lemma_index_of_first(members@, a@, i as int);
            }
            return Some(i);
        }
        i = i + 1;
    }
    proof {
        lemma_index_of_bounds(members@, a@);
        if index_of(members@, a@) is Some {
            let k = index_of(members@, a@)->0;
            assert(members@[k].addr@ != a@);
        }
    }
    None
}

} // verus!
