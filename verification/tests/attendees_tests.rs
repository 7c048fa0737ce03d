use ptits_gilets::attendees::derive_birthdate;
use ptits_gilets::attendees::get_next_event;
use ptits_gilets::attendees::get_organization_id;
use ptits_gilets::attendees::Answer;
use ptits_gilets::attendees::Attendee;
use ptits_gilets::attendees::AttendeePagination;
use ptits_gilets::attendees::AttendeeProfile;
use ptits_gilets::attendees::AttendeeResponse;
use ptits_gilets::attendees::Event;
use ptits_gilets::attendees::EventName;
use ptits_gilets::attendees::EventStart;
use ptits_gilets::attendees::EventsResponse;
use ptits_gilets::attendees::Organization;
use ptits_gilets::attendees::OrganizationsResponse;
use ptits_gilets::attendees::Pagination;
use ptits_gilets::datetime::format_event_date;

fn attendee(ticket: Option<&str>, created: &str) -> Attendee {
    Attendee {
        profile: AttendeeProfile {
            first_name: None,
            last_name: None,
            email: None,
            cell_phone: None,
        },
        created: created.to_string(),
        ticket_class_name: ticket.map(|t| t.to_string()),
        birthdate: None,
        answers: None,
    }
}

fn event(id: &str, name: &str, local: &str) -> Event {
    Event {
        id: id.to_string(),
        name: EventName { text: name.to_string() },
        start: EventStart { local: local.to_string() },
    }
}

#[test]
fn organization_resolution_takes_the_first() {
    let resp = OrganizationsResponse {
        organizations: vec![
            Organization { id: "org-1".to_string() },
            Organization { id: "org-2".to_string() },
        ],
    };
    assert_eq!(get_organization_id(Some(&resp)), Some("org-1".to_string()));
}

#[test]
fn organization_resolution_fails_on_empty_or_missing() {
    let empty = OrganizationsResponse { organizations: vec![] };
    assert_eq!(get_organization_id(Some(&empty)), None);
    assert_eq!(get_organization_id(None), None);
}

#[test]
fn next_event_is_the_first_listed() {
    let resp = EventsResponse {
        events: vec![
            event("e1", "Soonest", "2024-05-10T18:00:00"),
            event("e2", "Later", "2024-06-10T18:00:00"),
        ],
    };
    let next = get_next_event(Some(resp));
    assert_eq!(next, Some(event("e1", "Soonest", "2024-05-10T18:00:00")));
}

#[test]
fn next_event_fails_on_empty_or_missing() {
    assert_eq!(get_next_event(Some(EventsResponse { events: vec![] })), None);
    assert_eq!(get_next_event(None), None);
}

#[test]
fn birthdate_comes_from_the_matching_answer() {
    let mut a = attendee(None, "2024-01-01");
    a.answers = Some(vec![
        Answer { question: "Couleur".to_string(), answer: Some("bleu".to_string()) },
        Answer { question: "Date de naissance".to_string(), answer: Some("1990-01-01".to_string()) },
    ]);
    derive_birthdate(&mut a);
    assert_eq!(a.birthdate, Some("1990-01-01".to_string()));
}

#[test]
fn birthdate_question_matches_in_any_letter_case() {
    let mut a = attendee(None, "2024-01-01");
    a.answers = Some(vec![Answer {
        question: "DATE DE NAISSANCE".to_string(),
        answer: Some("1985-12-31".to_string()),
    }]);
    derive_birthdate(&mut a);
    assert_eq!(a.birthdate, Some("1985-12-31".to_string()));
}

#[test]
fn no_matching_question_leaves_birthdate_absent() {
    let mut a = attendee(None, "2024-01-01");
    a.answers = Some(vec![Answer { question: "Couleur".to_string(), answer: Some("rouge".to_string()) }]);
    derive_birthdate(&mut a);
    assert_eq!(a.birthdate, None);
}

#[test]
fn first_matching_question_wins_even_without_answer_text() {
    let mut a = attendee(None, "2024-01-01");
    a.answers = Some(vec![
        Answer { question: "date de naissance".to_string(), answer: None },
        Answer { question: "Date de naissance".to_string(), answer: Some("2000-01-01".to_string()) },
    ]);
    derive_birthdate(&mut a);
    assert_eq!(a.birthdate, None);
}

#[test]
fn absent_answer_list_leaves_the_record_as_it_came() {
    let mut a = attendee(None, "2024-01-01");
    a.birthdate = Some("kept".to_string());
    derive_birthdate(&mut a);
    assert_eq!(a.birthdate, Some("kept".to_string()));
}

fn page(names: &[&str], has_more_items: bool) -> AttendeeResponse {
    AttendeeResponse {
        attendees: names.iter().map(|n| attendee(None, n)).collect(),
        pagination: Pagination { has_more_items },
    }
}

#[test]
fn pagination_concatenates_three_pages_with_three_requests() {
    let pages = vec![
        page(&["a1", "a2"], true),
        page(&["b1"], true),
        page(&["c1", "c2"], false),
    ];
    let mut walk = AttendeePagination::new();
    let mut requests = 0;
    while !walk.done {
        let wanted = walk.next_page as usize;
        requests += 1;
        walk.record_page(pages[wanted - 1].clone());
    }
    assert_eq!(requests, 3);
    let created: Vec<&str> = walk.attendees.iter().map(|a| a.created.as_str()).collect();
    assert_eq!(created, vec!["a1", "a2", "b1", "c1", "c2"]);
    assert_eq!(walk.next_page, 4);
}

#[test]
fn pagination_records_pages_in_request_order() {
    let mut walk = AttendeePagination::new();
    assert_eq!(walk.next_page, 1);
    assert!(!walk.done);
    walk.record_page(page(&["x"], true));
    assert_eq!(walk.next_page, 2);
    assert!(!walk.done);
    walk.record_page(page(&["y"], false));
    assert_eq!(walk.next_page, 3);
    assert!(walk.done);
}

#[test]
fn pagination_derives_birthdates_while_accumulating() {
    let mut with_answer = attendee(None, "z");
    with_answer.answers = Some(vec![Answer {
        question: "Date De Naissance".to_string(),
        answer: Some("1970-01-01".to_string()),
    }]);
    let mut walk = AttendeePagination::new();
    walk.record_page(AttendeeResponse {
        attendees: vec![with_answer],
        pagination: Pagination { has_more_items: false },
    });
    assert_eq!(walk.attendees[0].birthdate, Some("1970-01-01".to_string()));
}

#[test]
fn failed_page_stops_the_walk_and_keeps_what_came() {
    let mut walk = AttendeePagination::new();
    walk.record_page(page(&["p1"], true));
    walk.record_failure();
    assert!(walk.done);
    assert_eq!(walk.attendees.len(), 1);
    assert_eq!(walk.attendees[0].created, "p1");
}

#[test]
fn listing_sorts_main_list_first_then_newest() {
    let mut walk = AttendeePagination::new();
    walk.record_page(AttendeeResponse {
        attendees: vec![
            attendee(Some("A"), "2024-01-02"),
            attendee(Some("Liste Principale"), "2024-01-01"),
            attendee(Some("Liste Principale"), "2024-01-03"),
        ],
        pagination: Pagination { has_more_items: false },
    });
    let (listing, date) = walk.into_listing(&event("e", "Maraude", "2024-05-10T18:00:00"));
    let order: Vec<(Option<&str>, &str)> = listing
        .iter()
        .map(|a| (a.ticket_class_name.as_deref(), a.created.as_str()))
        .collect();
    assert_eq!(
        order,
        vec![
            (Some("Liste Principale"), "2024-01-03"),
            (Some("Liste Principale"), "2024-01-01"),
            (Some("A"), "2024-01-02"),
        ]
    );
    assert_eq!(date, "10/05/2024");
}

#[test]
fn attendees_without_ticket_class_sort_with_the_others() {
    let mut walk = AttendeePagination::new();
    walk.record_page(AttendeeResponse {
        attendees: vec![
            attendee(None, "2024-01-05"),
            attendee(Some("Liste Principale"), "2024-01-01"),
            attendee(None, "2024-01-09"),
        ],
        pagination: Pagination { has_more_items: false },
    });
    let (listing, _) = walk.into_listing(&event("e", "Maraude", "broken"));
    let order: Vec<(Option<&str>, &str)> = listing
        .iter()
        .map(|a| (a.ticket_class_name.as_deref(), a.created.as_str()))
        .collect();
    assert_eq!(
        order,
        vec![
            (Some("Liste Principale"), "2024-01-01"),
            (None, "2024-01-09"),
            (None, "2024-01-05"),
        ]
    );
}

#[test]
fn event_date_is_reshaped_for_display() {
    assert_eq!(format_event_date("2024-05-10T18:00:00"), "10/05/2024");
    assert_eq!(format_event_date("1999-12-31T23:59:59"), "31/12/1999");
}

#[test]
fn malformed_event_date_becomes_the_placeholder() {
    assert_eq!(format_event_date("not a date"), "<invalid date>");
    assert_eq!(format_event_date(""), "<invalid date>");
    assert_eq!(format_event_date("2024-05-10 18:00:00"), "<invalid date>");
    assert_eq!(format_event_date("2024-13-10T18:00:00"), "<invalid date>");
    assert_eq!(format_event_date("2024-00-10T18:00:00"), "<invalid date>");
    assert_eq!(format_event_date("2024-05-10T24:00:00"), "<invalid date>");
    assert_eq!(format_event_date("2024-05-10T18:00:00Z"), "<invalid date>");
}

#[test]
fn event_date_respects_the_calendar() {
    assert_eq!(format_event_date("2024-02-29T08:00:00"), "29/02/2024");
    assert_eq!(format_event_date("2023-02-29T08:00:00"), "<invalid date>");
    assert_eq!(format_event_date("1900-02-29T08:00:00"), "<invalid date>");
    assert_eq!(format_event_date("2000-02-29T08:00:00"), "29/02/2000");
    assert_eq!(format_event_date("2024-04-31T08:00:00"), "<invalid date>");
    assert_eq!(format_event_date("2024-01-31T08:00:00"), "31/01/2024");
}
