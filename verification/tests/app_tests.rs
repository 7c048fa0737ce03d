use ptits_gilets::app::App;
use ptits_gilets::app::AppView;
use ptits_gilets::app::NameSearchState;
use ptits_gilets::attendees::Attendee;
use ptits_gilets::attendees::AttendeeProfile;
use ptits_gilets::attendees::FetchError;

fn sample_attendee() -> Attendee {
    Attendee {
        profile: AttendeeProfile {
            first_name: Some("Jean".to_string()),
            last_name: Some("Dupont".to_string()),
            email: Some("jean@example.org".to_string()),
            cell_phone: None,
        },
        created: "2024-01-01T00:00:00".to_string(),
        ticket_class_name: Some("Liste Principale".to_string()),
        birthdate: None,
        answers: None,
    }
}

#[test]
fn a_new_app_starts_on_the_main_menu() {
    let app = App::new();
    assert!(matches!(app.view, AppView::MainMenu));
    assert_eq!(app.main_menu_index, 0);
    assert_eq!(app.settings_menu_index, 0);
    assert!(app.attendees.is_empty());
    assert_eq!(app.input_buffer, "");
    assert_eq!(app.event_date, Some(String::new()));
    assert_eq!(app.selected_row, 0);
    assert_eq!(app.selected_col, 0);
}

#[test]
fn a_blank_search_form_has_nothing_filled() {
    let form = NameSearchState::default();
    assert_eq!(form.input_first_name, "");
    assert_eq!(form.input_last_name, "");
    assert_eq!(form.focus, 0);
    assert_eq!(form.results, None);
    assert_eq!(form.results_scroll, 0);
}

#[test]
fn a_successful_fetch_replaces_the_listing() {
    let mut app = App::new();
    app.load_attendees(Ok((vec![sample_attendee()], "10/05/2024".to_string())));
    assert_eq!(app.attendees.len(), 1);
    assert_eq!(app.event_date, Some("10/05/2024".to_string()));
}

#[test]
fn a_failed_fetch_leaves_the_previous_listing_untouched() {
    let mut app = App::new();
    app.load_attendees(Ok((vec![sample_attendee()], "10/05/2024".to_string())));
    app.load_attendees(Err(FetchError::NoUpcomingEvent));
    assert_eq!(app.attendees.len(), 1);
    assert_eq!(app.event_date, Some("10/05/2024".to_string()));
    app.load_attendees(Err(FetchError::OrganizationResolutionFailed));
    assert_eq!(app.attendees.len(), 1);
}

#[test]
fn the_selected_cell_follows_the_selected_column() {
    let mut app = App::new();
    app.load_attendees(Ok((vec![sample_attendee()], "10/05/2024".to_string())));
    app.selected_row = 0;
    let expected = [
        "Jean",
        "Dupont",
        "jean@example.org",
        "",
        "Liste Principale",
        "2024-01-01T00:00:00",
        "",
    ];
    for (col, want) in expected.iter().enumerate() {
        app.selected_col = col;
        assert_eq!(app.get_selected_cell_value(), *want);
    }
}

#[test]
fn a_selection_past_the_listing_reads_as_empty() {
    let mut app = App::new();
    app.selected_row = 3;
    app.selected_col = 0;
    assert_eq!(app.get_selected_cell_value(), "");
}
