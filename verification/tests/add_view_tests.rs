use todo_tui::error::AppError;
use todo_tui::todo::Priority;
use todo_tui::views::add::{AddViewState, CATEGORY_FIELD, NAME_FIELD, PRIORITY_FIELD};

fn type_text(state: &mut AddViewState, text: &str) {
    for c in text.chars() {
        state.update_input(c);
    }
}

#[test]
fn new_draft_is_empty() {
    let state = AddViewState::new();
    assert_eq!(state.name(), "");
    assert_eq!(state.category(), "");
    assert_eq!(state.priority(), Priority::P3);
    assert_eq!(state.focus(), 0);
    assert!(!state.insert_mode());
}

#[test]
fn field_indices() {
    assert_eq!(NAME_FIELD, 0);
    assert_eq!(CATEGORY_FIELD, 1);
    assert_eq!(PRIORITY_FIELD, 2);
}

#[test]
fn focus_down_stops_at_the_last_field() {
    let mut state = AddViewState::new();
    state.focus_down();
    assert_eq!(state.focus(), 1);
    state.focus_down();
    assert_eq!(state.focus(), 2);
    state.focus_down();
    assert_eq!(state.focus(), 2);
    state.focus_down();
    assert_eq!(state.focus(), 2);
}

#[test]
fn focus_up_stops_at_the_first_field() {
    let mut state = AddViewState::new();
    state.focus_up();
    assert_eq!(state.focus(), 0);
    state.focus_down();
    state.focus_down();
    state.focus_up();
    assert_eq!(state.focus(), 1);
    state.focus_up();
    assert_eq!(state.focus(), 0);
    state.focus_up();
    assert_eq!(state.focus(), 0);
}

#[test]
fn draft_insert_mode_toggles() {
    let mut state = AddViewState::new();
    state.toggle_insert_mode();
    assert!(state.insert_mode());
    state.toggle_insert_mode();
    assert!(!state.insert_mode());
}

#[test]
fn input_outside_insert_mode_is_ignored() {
    let mut state = AddViewState::new();
    type_text(&mut state, "abc");
    assert_eq!(state.name(), "");
    assert_eq!(state.category(), "");
}

#[test]
fn input_goes_to_the_name_at_focus_0() {
    let mut state = AddViewState::new();
    state.toggle_insert_mode();
    state.update_input('B');
    assert_eq!(state.name(), "B");
    type_text(&mut state, "uy milk");
    assert_eq!(state.name(), "Buy milk");
    assert_eq!(state.category(), "");
    assert_eq!(state.focus(), 0);
}

#[test]
fn input_goes_to_the_category_at_focus_1() {
    let mut state = AddViewState::new();
    state.focus_down();
    state.toggle_insert_mode();
    type_text(&mut state, "Work");
    assert_eq!(state.name(), "");
    assert_eq!(state.category(), "Work");
}

#[test]
fn input_at_the_priority_is_ignored() {
    let mut state = AddViewState::new();
    state.focus_down();
    state.focus_down();
    state.toggle_insert_mode();
    type_text(&mut state, "P1");
    assert_eq!(state.name(), "");
    assert_eq!(state.category(), "");
    assert_eq!(state.priority(), Priority::P3);
}

#[test]
fn input_appends_in_order() {
    let mut state = AddViewState::new();
    state.toggle_insert_mode();
    type_text(&mut state, "ab");
    state.toggle_insert_mode();
    state.focus_down();
    state.toggle_insert_mode();
    type_text(&mut state, "cd");
    state.toggle_insert_mode();
    state.focus_up();
    state.toggle_insert_mode();
    type_text(&mut state, "\u{e9}!");
    assert_eq!(state.name(), "ab\u{e9}!");
    assert_eq!(state.category(), "cd");
}

#[test]
fn cycle_priority_wraps_from_p3_to_p1() {
    let mut state = AddViewState::new();
    state.focus_down();
    state.focus_down();
    assert_eq!(state.focus(), 2);
    assert_eq!(state.priority(), Priority::P3);
    state.cycle_priority();
    assert_eq!(state.priority(), Priority::P1);
}

#[test]
fn cycle_priority_goes_round() {
    let mut state = AddViewState::new();
    state.cycle_priority();
    assert_eq!(state.priority(), Priority::P1);
    state.cycle_priority();
    assert_eq!(state.priority(), Priority::P2);
    state.cycle_priority();
    assert_eq!(state.priority(), Priority::P3);
    assert_eq!(state.name(), "");
    assert_eq!(state.focus(), 0);
}

#[test]
fn materialize_trims_the_name() {
    let mut state = AddViewState::new();
    state.toggle_insert_mode();
    type_text(&mut state, "  Buy milk \t");
    let todo = state.materialize(4).unwrap();
    assert_eq!(todo.name, "Buy milk");
    assert!(todo.category.is_none());
    assert_eq!(todo.priority, Priority::P3);
    assert!(!todo.completed);
    assert_eq!(todo.id, 4);
}

#[test]
fn materialize_wraps_the_category() {
    let mut state = AddViewState::new();
    state.toggle_insert_mode();
    type_text(&mut state, "Call Bob");
    state.toggle_insert_mode();
    state.focus_down();
    state.toggle_insert_mode();
    type_text(&mut state, " Work ");
    state.toggle_insert_mode();
    state.focus_down();
    state.cycle_priority();
    let todo = state.materialize(0).unwrap();
    assert_eq!(todo.name, "Call Bob");
    assert_eq!(todo.category.as_ref().map(|c| c.name().as_str()), Some(" Work "));
    assert_eq!(todo.priority, Priority::P1);
}

#[test]
fn materialize_leaves_the_draft_alone() {
    let mut state = AddViewState::new();
    state.toggle_insert_mode();
    type_text(&mut state, " x ");
    let _ = state.materialize(0);
    assert_eq!(state.name(), " x ");
    assert!(state.insert_mode());
    assert_eq!(state.focus(), 0);
}

#[test]
fn materialize_rejects_an_empty_name() {
    let state = AddViewState::new();
    assert_eq!(state.materialize(0).err(), Some(AppError::InvalidDraft));
}

#[test]
fn materialize_rejects_a_name_of_white_space() {
    let mut state = AddViewState::new();
    state.toggle_insert_mode();
    type_text(&mut state, " \t\u{3000}");
    assert_eq!(state.materialize(0).err(), Some(AppError::InvalidDraft));
    state.toggle_insert_mode();
    state.focus_down();
    state.toggle_insert_mode();
    type_text(&mut state, "Work");
    assert_eq!(state.materialize(0).err(), Some(AppError::InvalidDraft));
}
