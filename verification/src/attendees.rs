//! The attendee retrieval pipeline: organization and event resolution,
//! page-by-page accumulation of attendees, and the birthdate derived from a
//! custom question answer.
//!
//! Every network response reaches this module already decoded into the plain
//! records below; the functions here hold the decisions the pipeline makes
//! with them.

use vstd::prelude::*;

use crate::datetime::format_event_date;
use crate::datetime::formatted_date;
use crate::datetime::valid_event_datetime;
use crate::sort::sort_attendees;
use crate::sort::sorted_attendees;
use crate::text::lower_of;
use crate::text::lowercase;

verus! {

/// An organization the authorized user belongs to.
#[derive(Debug, Clone, PartialEq)]
pub struct Organization {
    pub id: String,
}

/// The decoded body of the organizations listing.
#[derive(Debug, Clone, PartialEq)]
pub struct OrganizationsResponse {
    pub organizations: Vec<Organization>,
}

/// An event's display name.
#[derive(Debug, Clone, PartialEq)]
pub struct EventName {
    pub text: String,
}

/// An event's start, as a naive local timestamp `YYYY-MM-DDTHH:MM:SS`.
#[derive(Debug, Clone, PartialEq)]
pub struct EventStart {
    pub local: String,
}

/// One event of the organization.
#[derive(Debug, Clone, PartialEq)]
pub struct Event {
    pub id: String,
    pub name: EventName,
    pub start: EventStart,
}

/// The decoded body of an event listing.
#[derive(Debug, Clone, PartialEq)]
pub struct EventsResponse {
    pub events: Vec<Event>,
}

/// One answer to a custom registration question.
#[derive(Debug, Clone, PartialEq)]
pub struct Answer {
    pub question: String,
    pub answer: Option<String>,
}

/// The identity fields of an attendee record.
#[derive(Debug, Clone, PartialEq)]
pub struct AttendeeProfile {
    pub first_name: Option<String>,
    pub last_name: Option<String>,
    pub email: Option<String>,
    pub cell_phone: Option<String>,
}

/// One attendee of an event.  `birthdate` is not part of the raw record: it
/// is derived from `answers` once, right after decoding.
#[derive(Debug, Clone, PartialEq)]
pub struct Attendee {
    pub profile: AttendeeProfile,
    pub created: String,
    pub ticket_class_name: Option<String>,
    pub birthdate: Option<String>,
    pub answers: Option<Vec<Answer>>,
}

/// The pagination flag of an attendee page: whether further pages remain.
#[derive(Debug, Clone, PartialEq)]
pub struct Pagination {
    pub has_more_items: bool,
}

/// The decoded body of one attendee page.
#[derive(Debug, Clone, PartialEq)]
pub struct AttendeeResponse {
    pub attendees: Vec<Attendee>,
    pub pagination: Pagination,
}

/// Why the main fetch aborted before any attendee page was read.
#[derive(Debug, Clone, PartialEq)]
pub enum FetchError {
    OrganizationResolutionFailed,
    NoUpcomingEvent,
}

/// Resolves the organization: the first one of the listing.  A failed
/// request (`None`) or an empty listing resolves nothing.
pub fn get_organization_id(response: Option<&OrganizationsResponse>) -> (r: Option<String>)
    ensures
        match response {
            None => r is None,
            Some(resp) => if resp.organizations@.len() == 0 {
                r is None
            } else {
                r == Some(resp.organizations@[0].id)
            },
        },
{
    match response {
        None => None,
        Some(resp) => {
            if resp.organizations.len() == 0 {
                None
            } else {
                Some(resp.organizations[0].id.clone())
            }
        },
    }
}

/// Resolves the next event: the first of the listing, which the caller
/// requested ordered by ascending start time and restricted to live events.
pub fn get_next_event(response: Option<EventsResponse>) -> (r: Option<Event>)
    ensures
        match response {
            None => r is None,
            Some(resp) => if resp.events@.len() == 0 {
                r is None
            } else {
                r == Some(resp.events@[0])
            },
        },
{
    match response {
        None => None,
        Some(resp) => {
            let mut events = resp.events;
            if events.len() == 0 {
                None
            } else {
                let first = events.remove(0);
                Some(first)
            }
        },
    }
}

/// The fixed label of the date-of-birth question, compared against the
/// lowercase form of each question text.
pub open spec fn is_birthdate_question(q: Seq<char>) -> bool {
    lower_of(q) == "date de naissance"@
}

/// The birthdate an answer list yields: the answer text of the first answer
/// whose question is the date-of-birth question, which may itself be absent.
pub open spec fn birthdate_from_answers(answers: Seq<Answer>) -> Option<String>
    decreases answers.len(),
{
    if answers.len() == 0 {
        None
    } else if is_birthdate_question(answers[0].question@) {
        answers[0].answer
    } else {
        birthdate_from_answers(answers.skip(1))
    }
}

/// An attendee after birthdate derivation: with an answer list present the
/// birthdate is replaced by what the list yields; without one the record is
/// left as it came.
pub open spec fn derived(a: Attendee) -> Attendee {
    match a.answers {
        None => a,
        Some(list) => Attendee { birthdate: birthdate_from_answers(list@), ..a },
    }
}

/// A page of attendees after birthdate derivation, record by record.
pub open spec fn derived_all(s: Seq<Attendee>) -> Seq<Attendee> {
    Seq::new(s.len(), |i: int| derived(s[i]))
}

proof fn lemma_birthdate_skip(s: Seq<Answer>, k: int)
    requires
        0 <= k <= s.len(),
        forall|j: int| 0 <= j < k ==> !is_birthdate_question(s[j].question@),
    ensures
        birthdate_from_answers(s) == birthdate_from_answers(s.skip(k)),
    decreases k,
{
    if k > 0 {
        lemma_birthdate_skip(s.skip(1), k - 1);
        assert(s.skip(1).skip(k - 1) =~= s.skip(k));
    } else {
        assert(s.skip(0) =~= s);
    }
}

fn find_birthdate(answers: &Vec<Answer>) -> (r: Option<String>)
    ensures
        r == birthdate_from_answers(answers@),
{
    let label = String::from_str("date de naissance");
    let mut i: usize = 0;
    while i < answers.len()
        invariant
            label@ == "date de naissance"@,
            i <= answers@.len(),
            forall|j: int| 0 <= j < i ==> !is_birthdate_question(answers@[j].question@),
        decreases answers@.len() - i,
    {
        let low = lowercase(answers[i].question.as_str());
        if low == label {
            proof {
                lemma_birthdate_skip(answers@, i as int);
                assert(answers@.skip(i as int)[0] == answers@[i as int]);
            }
            return match &answers[i].answer {
                Some(s) => Some(s.clone()),
                None => None,
            };
        }
        i = i + 1;
    }
    proof {
        lemma_birthdate_skip(answers@, answers@.len() as int);
        assert(answers@.skip(answers@.len() as int) =~= Seq::<Answer>::empty());
    }
    None
}

/// Derives the birthdate of one attendee from its answer list, once,
/// right after the record was decoded.
pub fn derive_birthdate(a: &mut Attendee)
    ensures
        *final(a) == derived(*old(a)),
{
    let found = match &a.answers {
        Some(list) => Some(find_birthdate(list)),
        None => None,
    };
    match found {
        Some(b) => {
            a.birthdate = b;
        },
        None => {},
    }
}

/// The state of one walk over an event's attendee pages: what was
/// accumulated so far, which page a request would fetch next, and whether
/// the walk is over.  Pages are requested in order starting at 1, strictly
/// while the server's pagination flag reports more items; a failed page
/// stops the walk and keeps what was accumulated.
pub struct AttendeePagination {
    pub attendees: Vec<Attendee>,
    pub next_page: u32,
    pub done: bool,
}

impl AttendeePagination {
    /// A walk that has fetched nothing yet and would request page 1.
    pub fn new() -> (r: Self)
        ensures
            r.attendees@ == Seq::<Attendee>::empty(),
            r.next_page == 1,
            !r.done,
    {
        AttendeePagination { attendees: Vec::new(), next_page: 1, done: false }
    }

    /// Records one successfully decoded page: its attendees are appended in
    /// order, each with its birthdate derived, and the walk goes on exactly
    /// when the page reported more items.
    pub fn record_page(&mut self, page: AttendeeResponse)
        requires
            !old(self).done,
            old(self).next_page < u32::MAX,
        ensures
            final(self).attendees@ =~= old(self).attendees@ + derived_all(page.attendees@),
            final(self).next_page == old(self).next_page + 1,
            final(self).done == !page.pagination.has_more_items,
    {
        let ghost orig = page.attendees@;
        let mut items = page.attendees;
        while items.len() > 0
            invariant
                items@.len() <= orig.len(),
                items@ =~= orig.skip(orig.len() - items@.len()),
                self.attendees@ =~= old(self).attendees@ + derived_all(orig).take(
                    orig.len() - items@.len(),
                ),
                self.next_page == old(self).next_page,
                self.done == old(self).done,
            decreases items@.len(),
        {
            let ghost k = orig.len() - items@.len();
            let mut a = items.remove(0);
            derive_birthdate(&mut a);
            proof {
                assert(a == derived(orig[k as int]));
                assert(derived_all(orig)[k as int] == derived(orig[k as int]));
            }
            self.attendees.push(a);
            proof {
                assert(items@ =~= orig.skip(orig.len() - items@.len()));
                assert(self.attendees@ =~= old(self).attendees@ + derived_all(orig).take(
                    orig.len() - items@.len(),
                ));
            }
        }
        proof {
            assert(derived_all(orig).take(orig.len() as int) =~= derived_all(orig));
        }
        self.next_page = self.next_page + 1;
        self.done = !page.pagination.has_more_items;
    }

    /// Ends the walk: sorts everything accumulated into display order and
    /// formats the event's start for display.  The listing keeps exactly the
    /// accumulated records, and the date is the event's local start reshaped
    /// to `DD/MM/YYYY`, or the placeholder when that start is malformed.
    pub fn into_listing(self, event: &Event) -> (r: (Vec<Attendee>, String))
        ensures
            sorted_attendees(r.0@),
            r.0@.to_multiset() == self.attendees@.to_multiset(),
            valid_event_datetime(event.start.local@) ==> r.1@ == formatted_date(
                event.start.local@,
            ),
            !valid_event_datetime(event.start.local@) ==> r.1@ == "<invalid date>"@,
    {
        let mut listing = self.attendees;
        sort_attendees(&mut listing);
        let date = format_event_date(event.start.local.as_str());
        (listing, date)
    }

    /// Records a failed page request or an undecodable page body: the walk
    /// stops and what was accumulated stands.
    pub fn record_failure(&mut self)
        ensures
            final(self).attendees == old(self).attendees,
            final(self).next_page == old(self).next_page,
            final(self).done,
    {
        self.done = true;
    }
}

} // verus!
