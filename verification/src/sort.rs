//! The display order of an attendee listing: a two-tier rule in which the
//! priority ticket class sorts strictly before every other, and ties within
//! each tier are broken by the `created` timestamp, newest first.

use vstd::multiset::Multiset;
use vstd::prelude::*;

use crate::attendees::Attendee;
use crate::text::lemma_lex_le_total;
use crate::text::lemma_lex_le_trans;
use crate::text::lex_le;
use crate::text::lex_le_str;

verus! {

broadcast use vstd::seq_lib::group_to_multiset_ensures, vstd::multiset::group_multiset_axioms;

/// An attendee registered under the priority ticket class.
pub open spec fn is_main_list(a: Attendee) -> bool {
    match a.ticket_class_name {
        Some(t) => t@ == "Liste Principale"@,
        None => false,
    }
}

/// `a` sorts no later than `b`: a priority attendee before any other, and
/// within one tier the later `created` timestamp first.  The `created`
/// comparison is lexicographic, which on the fixed timestamp format is
/// chronological.
pub open spec fn attendee_le(a: Attendee, b: Attendee) -> bool {
    if is_main_list(a) != is_main_list(b) {
        is_main_list(a)
    } else {
        lex_le(b.created@, a.created@)
    }
}

/// The order is total: any two attendees compare one way or the other.
pub proof fn lemma_attendee_le_total(a: Attendee, b: Attendee)
    ensures
        attendee_le(a, b) || attendee_le(b, a),
{
    lemma_lex_le_total(b.created@, a.created@);
}

/// The order is transitive.
pub proof fn lemma_attendee_le_trans(a: Attendee, b: Attendee, c: Attendee)
    requires
        attendee_le(a, b),
        attendee_le(b, c),
    ensures
        attendee_le(a, c),
{
    if is_main_list(a) == is_main_list(b) && is_main_list(b) == is_main_list(c) {
        lemma_lex_le_trans(c.created@, b.created@, a.created@);
    }
}

/// A listing in display order: every pair stands in [`attendee_le`].
pub open spec fn sorted_attendees(s: Seq<Attendee>) -> bool {
    forall|i: int, j: int| 0 <= i < j < s.len() ==> attendee_le(s[i], s[j])
}

/// In a listing in display order, no priority attendee stands after an
/// attendee of another ticket class.
pub proof fn lemma_main_list_first(s: Seq<Attendee>, i: int, j: int)
    requires
        sorted_attendees(s),
        0 <= i < j < s.len(),
        is_main_list(s[j]),
    ensures
        is_main_list(s[i]),
{
    assert(attendee_le(s[i], s[j]));
}

fn is_main_list_exec(a: &Attendee) -> (r: bool)
    ensures
        r == is_main_list(*a),
{
    match &a.ticket_class_name {
        Some(t) => *t == String::from_str("Liste Principale"),
        None => false,
    }
}

fn attendee_le_exec(a: &Attendee, b: &Attendee) -> (r: bool)
    ensures
        r == attendee_le(*a, *b),
{
    let am = is_main_list_exec(a);
    let bm = is_main_list_exec(b);
    if am != bm {
        am
    } else {
        lex_le_str(b.created.as_str(), a.created.as_str())
    }
}

/// Sorts a listing into display order.  The result holds exactly the given
/// records, in an order in which every pair stands in [`attendee_le`].
pub fn sort_attendees(attendees: &mut Vec<Attendee>)
    ensures
        sorted_attendees(final(attendees)@),
        final(attendees)@.to_multiset() == old(attendees)@.to_multiset(),
{
    let mut out: Vec<Attendee> = Vec::new();
    while attendees.len() > 0
        invariant
            sorted_attendees(out@),
            out@.to_multiset().add(attendees@.to_multiset()) =~= old(attendees)@.to_multiset(),
        decreases attendees@.len(),
    {
        let ghost rest_before = attendees@;
        let a = match attendees.pop() {
            Some(a) => a,
            None => {
                proof {
                    assert(false);
                }
                return ;
            },
        };
        proof {
            assert(rest_before =~= attendees@.push(a));
            assert(rest_before.to_multiset() =~= attendees@.to_multiset().insert(a));
        }
        let ghost pre = out@;
        let mut p: usize = 0;
        while p < out.len() && attendee_le_exec(&out[p], &a)
            invariant
                out@ == pre,
                p <= out@.len(),
                forall|i: int| 0 <= i < p ==> attendee_le(out@[i], a),
            decreases out@.len() - p,
        {
            p = p + 1;
        }
        proof {
            if p < pre.len() {
                lemma_attendee_le_total(pre[p as int], a);
                assert(attendee_le(a, pre[p as int]));
            }
            assert forall|j: int| p <= j < pre.len() implies attendee_le(a, pre[j]) by {
                if j > p {
                    assert(attendee_le(pre[p as int], pre[j]));
                    lemma_attendee_le_trans(a, pre[p as int], pre[j]);
                }
            }
        }
        out.insert(p, a);
        proof {
            pre.insert_ensures(p as int, a);
            let now = out@;
            assert forall|i: int, j: int| 0 <= i < j < now.len() implies attendee_le(
                now[i],
                now[j],
            ) by {
                if j < p {
                    assert(now[i] == pre[i] && now[j] == pre[j]);
                } else if j == p {
                    assert(now[i] == pre[i] && now[j] == a);
                } else {
                    assert(now[j] == pre[j - 1]);
                    if i < p {
                        assert(now[i] == pre[i]);
                        assert(attendee_le(pre[i], pre[j - 1]));
                    } else if i == p {
                        assert(now[i] == a);
                    } else {
                        assert(now[i] == pre[i - 1]);
                        assert(attendee_le(pre[i - 1], pre[j - 1]));
                    }
                }
            }
            assert(now.remove(p as int) =~= pre);
            assert(now.to_multiset() =~= pre.to_multiset().insert(a)) by {
                assert(now.remove(p as int).to_multiset() =~= now.to_multiset().remove(now[p as int]));
                assert(now[p as int] == a);
                assert(now.contains(a));
                assert(now.to_multiset().count(a) > 0);
            }
            assert(out@.to_multiset().add(attendees@.to_multiset()) =~= old(
                attendees,
            )@.to_multiset());
        }
    }
    proof {
        assert(attendees@.to_multiset() =~= Multiset::<Attendee>::empty());
    }
    *attendees = out;
}

} // verus!
