//! The interactive state behind the terminal views: which view is shown,
//! the menu and table selection, the attendee listing on display, and the
//! name-search form.  Rendering and key dispatch live with the caller; the
//! state here records what they act on.

use vstd::prelude::*;

use crate::attendees::Attendee;
use crate::attendees::FetchError;

verus! {

/// Which view the terminal shows.
#[derive(Debug, Clone, PartialEq)]
pub enum AppView {
    MainMenu,
    ListNextEventAttendeesMenu,
    SettingsMenu,
    SetClientIdPopup,
    SetClientSecretPopup,
    FindByNameMenu,
}

/// The state of the name-search form: the two query fields, which widget
/// holds the focus, the results of the last search, and how far the result
/// list is scrolled.
pub struct NameSearchState {
    pub input_first_name: String,
    pub input_last_name: String,
    pub focus: usize,
    pub results: Option<Vec<(String, String)>>,
    pub results_scroll: usize,
}

impl Default for NameSearchState {
    /// A blank form: empty fields, focus on the first field, no results.
    fn default() -> (r: NameSearchState)
        ensures
            r.input_first_name@ == Seq::<char>::empty(),
            r.input_last_name@ == Seq::<char>::empty(),
            r.focus == 0,
            r.results is None,
            r.results_scroll == 0,
    {
        NameSearchState {
            input_first_name: String::new(),
            input_last_name: String::new(),
            focus: 0,
            results: None,
            results_scroll: 0,
        }
    }
}

/// The whole interactive state.
pub struct App {
    pub view: AppView,
    pub main_menu_index: usize,
    pub settings_menu_index: usize,
    pub attendees: Vec<Attendee>,
    pub input_buffer: String,
    pub event_date: Option<String>,
    pub selected_row: usize,
    pub selected_col: usize,
    pub name_search_state: NameSearchState,
}

/// The text of the table cell the selection rests on: the selected
/// attendee's field for the selected column, the empty string for an absent
/// field, a column past the table, or a selection past the listing.
pub open spec fn selected_cell(app: App) -> Seq<char> {
    if app.selected_row >= app.attendees@.len() {
        Seq::empty()
    } else {
        let a = app.attendees@[app.selected_row as int];
        if app.selected_col == 0 {
            opt_text(a.profile.first_name)
        } else if app.selected_col == 1 {
            opt_text(a.profile.last_name)
        } else if app.selected_col == 2 {
            opt_text(a.profile.email)
        } else if app.selected_col == 3 {
            opt_text(a.profile.cell_phone)
        } else if app.selected_col == 4 {
            opt_text(a.ticket_class_name)
        } else if app.selected_col == 5 {
            a.created@
        } else {
            Seq::empty()
        }
    }
}

/// The view of an optional text field, empty when the field is absent.
pub open spec fn opt_text(o: Option<String>) -> Seq<char> {
    match o {
        Some(s) => s@,
        None => Seq::empty(),
    }
}

impl App {
    /// The state the tool starts in: the main menu, nothing selected,
    /// nothing loaded, and an empty (not absent) event date.
    pub fn new() -> (r: App)
        ensures
            r.view is MainMenu,
            r.main_menu_index == 0,
            r.settings_menu_index == 0,
            r.attendees@ == Seq::<Attendee>::empty(),
            r.input_buffer@ == Seq::<char>::empty(),
            r.event_date matches Some(d) && d@ == Seq::<char>::empty(),
            r.selected_row == 0,
            r.selected_col == 0,
            r.name_search_state.input_first_name@ == Seq::<char>::empty(),
            r.name_search_state.input_last_name@ == Seq::<char>::empty(),
            r.name_search_state.focus == 0,
            r.name_search_state.results is None,
            r.name_search_state.results_scroll == 0,
    {
        App {
            view: AppView::MainMenu,
            main_menu_index: 0,
            settings_menu_index: 0,
            attendees: Vec::new(),
            input_buffer: String::new(),
            event_date: Some(String::new()),
            selected_row: 0,
            selected_col: 0,
            name_search_state: NameSearchState::default(),
        }
    }

    /// Takes the outcome of one full fetch of the next event's listing.  A
    /// successful fetch replaces the listing and the event date wholesale; a
    /// failed one leaves the previous listing untouched, so the display
    /// never shows a half-loaded state.
    pub fn load_attendees(&mut self, outcome: Result<(Vec<Attendee>, String), FetchError>)
        ensures
            match outcome {
                Ok((attendees, event_date)) => *final(self) == (App {
                    attendees,
                    event_date: Some(event_date),
                    ..*old(self)
                }),
                Err(_) => *final(self) == *old(self),
            },
    {
        match outcome {
            Ok((attendees, event_date)) => {
                self.attendees = attendees;
                self.event_date = Some(event_date);
            },
            Err(_) => {},
        }
    }

    /// Reads the cell the selection rests on, as [`selected_cell`] gives it.
    pub fn get_selected_cell_value(&self) -> (r: String)
        ensures
            r@ == selected_cell(*self),
    {
        if self.selected_row >= self.attendees.len() {
            return String::new();
        }
        let a = &self.attendees[self.selected_row];
        if self.selected_col == 0 {
            clone_opt_text(&a.profile.first_name)
        } else if self.selected_col == 1 {
            clone_opt_text(&a.profile.last_name)
        } else if self.selected_col == 2 {
            clone_opt_text(&a.profile.email)
        } else if self.selected_col == 3 {
            clone_opt_text(&a.profile.cell_phone)
        } else if self.selected_col == 4 {
            clone_opt_text(&a.ticket_class_name)
        } else if self.selected_col == 5 {
            a.created.clone()
        } else {
            String::new()
        }
    }
}

fn clone_opt_text(o: &Option<String>) -> (r: String)
    ensures
        r@ == opt_text(*o),
{
    match o {
        Some(s) => s.clone(),
        None => String::new(),
    }
}

} // verus!
