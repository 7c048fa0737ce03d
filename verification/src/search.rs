//! The name-search pipeline: scanning events for an attendee whose first
//! and last name match a query, case-insensitively on trimmed query text,
//! and recording each event at most once.

use vstd::prelude::*;

use crate::attendees::Attendee;
use crate::attendees::Event;
use crate::text::eq_ignore_ascii_case;
use crate::text::eq_ignore_ascii_case_str;
use crate::text::trim;
use crate::text::trim_spec;

verus! {

/// An attendee matches a query when both stored names are present and each
/// equals the trimmed query name up to ASCII case.
pub open spec fn attendee_matches(a: Attendee, first: Seq<char>, last: Seq<char>) -> bool {
    &&& match a.profile.first_name {
        Some(n) => eq_ignore_ascii_case(n@, trim_spec(first)),
        None => false,
    }
    &&& match a.profile.last_name {
        Some(n) => eq_ignore_ascii_case(n@, trim_spec(last)),
        None => false,
    }
}

/// Some attendee of the list matches the query.
pub open spec fn has_matching_attendee(
    attendees: Seq<Attendee>,
    first: Seq<char>,
    last: Seq<char>,
) -> bool {
    exists|i: int| 0 <= i < attendees.len() && attendee_matches(attendees[i], first, last)
}

/// The events a search reports, in the order they were given: the name and
/// local start of each event with at least one matching attendee, each event
/// at most once however many of its attendees match.
pub open spec fn search_results(
    items: Seq<(Event, Vec<Attendee>)>,
    first: Seq<char>,
    last: Seq<char>,
) -> Seq<(String, String)>
    decreases items.len(),
{
    if items.len() == 0 {
        Seq::empty()
    } else {
        let head = if has_matching_attendee(items[0].1@, first, last) {
            seq![(items[0].0.name.text, items[0].0.start.local)]
        } else {
            Seq::empty()
        };
        head + search_results(items.skip(1), first, last)
    }
}

/// Tests one attendee against the query names, trimming the query as the
/// search does everywhere.
pub fn attendee_matches_name(a: &Attendee, first: &str, last: &str) -> (r: bool)
    ensures
        r == attendee_matches(*a, first@, last@),
{
    let first_ok = match &a.profile.first_name {
        Some(n) => eq_ignore_ascii_case_str(n.as_str(), trim(first)),
        None => false,
    };
    if !first_ok {
        return false;
    }
    match &a.profile.last_name {
        Some(n) => eq_ignore_ascii_case_str(n.as_str(), trim(last)),
        None => false,
    }
}

fn event_has_match(attendees: &Vec<Attendee>, first: &str, last: &str) -> (r: bool)
    ensures
        r == has_matching_attendee(attendees@, first@, last@),
{
    let mut i: usize = 0;
    while i < attendees.len()
        invariant
            i <= attendees@.len(),
            forall|j: int| 0 <= j < i ==> !attendee_matches(attendees@[j], first@, last@),
        decreases attendees@.len() - i,
    {
        if attendee_matches_name(&attendees[i], first, last) {
            return true;
        }
        i = i + 1;
    }
    false
}

/// Scans pre-fetched events in the order they were given and reports each
/// event holding a matching attendee, as [`search_results`] describes.  The
/// caller fetches the events and their attendee lists; a fetch that failed
/// along the way simply leaves the list it was filling shorter.
pub fn find_events_by_name(
    items: &Vec<(Event, Vec<Attendee>)>,
    first_name: &str,
    last_name: &str,
) -> (r: Vec<(String, String)>)
    ensures
        r@ == search_results(items@, first_name@, last_name@),
{
    let mut r: Vec<(String, String)> = Vec::new();
    let mut k: usize = 0;
    proof {
        assert(items@.skip(0) =~= items@);
        assert(Seq::<(String, String)>::empty() + search_results(
            items@,
            first_name@,
            last_name@,
        ) =~= search_results(items@, first_name@, last_name@));
    }
    while k < items.len()
        invariant
            k <= items@.len(),
            search_results(items@, first_name@, last_name@) =~= r@ + search_results(
                items@.skip(k as int),
                first_name@,
                last_name@,
            ),
        decreases items@.len() - k,
    {
        let ghost pre = r@;
        let ghost tail = items@.skip(k as int);
        proof {
            assert(tail[0] == items@[k as int]);
            assert(tail.skip(1) =~= items@.skip(k as int + 1));
        }
        if event_has_match(&items[k].1, first_name, last_name) {
            let name = items[k].0.name.text.clone();
            let start = items[k].0.start.local.clone();
            r.push((name, start));
            proof {
                assert(r@ =~= pre + seq![(items@[k as int].0.name.text, items@[
                    k as int].0.start.local)]);
            }
        }
        proof {
            assert(pre + (if has_matching_attendee(items@[k as int].1@, first_name@, last_name@) {
                seq![(items@[k as int].0.name.text, items@[k as int].0.start.local)]
            } else {
                Seq::empty()
            }) + search_results(items@.skip(k as int + 1), first_name@, last_name@) =~= r@
                + search_results(items@.skip(k as int + 1), first_name@, last_name@));
        }
        k = k + 1;
    }
    proof {
        assert(items@.skip(items@.len() as int) =~= Seq::<(Event, Vec<Attendee>)>::empty());
    }
    r
}

} // verus!
