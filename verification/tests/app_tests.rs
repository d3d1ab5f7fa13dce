use todo_tui::app::{App, View};
use todo_tui::error::AppError;
use todo_tui::todo::{Category, Priority};

fn app_with(count: usize) -> App {
    let mut app = App::new();
    for i in 0..count {
        app.add_todo(format!("todo {}", i), None, Priority::P2);
    }
    app
}

#[test]
fn new_app_starts_in_the_list_view() {
    let app = App::new();
    assert_eq!(app.current_view(), View::List);
    assert!(app.todos().is_empty());
    assert_eq!(app.focused_index(), 0);
    assert!(!app.should_quit());
    assert!(!app.insert_mode());
    assert_eq!(app.add_view_state().name(), "");
    assert_eq!(app.add_view_state().category(), "");
    assert_eq!(app.add_view_state().priority(), Priority::P3);
    assert_eq!(app.add_view_state().focus(), 0);
    assert!(!app.add_view_state().insert_mode());
    assert!(app.has_room());
}

#[test]
fn two_adds_get_ids_0_and_1() {
    let mut app = App::new();
    app.add_todo("Buy milk".to_string(), None, Priority::P2);
    app.add_todo(
        "Call Bob".to_string(),
        Some(Category::new("Work".to_string())),
        Priority::P1,
    );
    assert_eq!(app.todos().len(), 2);
    assert_eq!(app.todos()[0].id, 0);
    assert_eq!(app.todos()[1].id, 1);
    assert_eq!(app.focused_index(), 0);
    assert_eq!(app.todos()[0].name, "Buy milk");
    assert!(app.todos()[0].category.is_none());
    assert_eq!(app.todos()[0].priority, Priority::P2);
    assert!(!app.todos()[0].completed);
    assert_eq!(app.todos()[1].name, "Call Bob");
    assert_eq!(
        app.todos()[1].category.as_ref().map(|c| c.name().as_str()),
        Some("Work")
    );
    assert_eq!(app.todos()[1].priority, Priority::P1);
    assert!(!app.todos()[1].completed);
}

#[test]
fn ids_count_up_in_insertion_order() {
    let app = app_with(200);
    assert_eq!(app.todos().len(), 200);
    for (i, todo) in app.todos().iter().enumerate() {
        assert_eq!(todo.id as usize, i);
        assert_eq!(todo.name, format!("todo {}", i));
    }
}

#[test]
fn add_todo_accepts_an_empty_name() {
    let mut app = App::new();
    app.add_todo(String::new(), None, Priority::P3);
    assert_eq!(app.todos().len(), 1);
    assert_eq!(app.todos()[0].name, "");
}

#[test]
fn add_todo_keeps_focus_and_view() {
    let mut app = app_with(3);
    app.down();
    app.set_view(View::Edit);
    app.add_todo("more".to_string(), None, Priority::P1);
    assert_eq!(app.focused_index(), 1);
    assert_eq!(app.current_view(), View::Edit);
    assert_eq!(app.todos().len(), 4);
    assert_eq!(app.todos()[3].id, 3);
}

#[test]
fn down_five_times_on_three_items_stops_at_2() {
    let mut app = app_with(3);
    assert_eq!(app.focused_index(), 0);
    for _ in 0..5 {
        app.down();
    }
    assert_eq!(app.focused_index(), 2);
}

#[test]
fn down_moves_one_step() {
    let mut app = app_with(3);
    app.down();
    assert_eq!(app.focused_index(), 1);
    app.down();
    assert_eq!(app.focused_index(), 2);
}

#[test]
fn up_at_the_top_does_nothing() {
    let mut app = app_with(3);
    app.up();
    assert_eq!(app.focused_index(), 0);
}

#[test]
fn down_at_the_bottom_does_nothing() {
    let mut app = app_with(1);
    app.down();
    assert_eq!(app.focused_index(), 0);
}

#[test]
fn up_then_down_returns() {
    let mut app = app_with(4);
    app.down();
    app.down();
    assert_eq!(app.focused_index(), 2);
    app.up();
    assert_eq!(app.focused_index(), 1);
    app.down();
    assert_eq!(app.focused_index(), 2);
}

#[test]
fn down_then_up_returns() {
    let mut app = app_with(4);
    app.down();
    app.down();
    app.up();
    assert_eq!(app.focused_index(), 1);
}

#[test]
fn focus_on_an_empty_list_stays_at_0() {
    let mut app = App::new();
    app.down();
    assert_eq!(app.focused_index(), 0);
    app.up();
    assert_eq!(app.focused_index(), 0);
    app.down();
    app.down();
    assert_eq!(app.focused_index(), 0);
}

#[test]
fn focus_never_leaves_the_list() {
    let mut app = app_with(5);
    let moves = [true, true, false, true, true, true, true, true, false, false, false, false,
        false, false, false, true];
    for down in moves {
        if down {
            app.down();
        } else {
            app.up();
        }
        assert!(app.focused_index() < app.todos().len());
    }
    assert_eq!(app.focused_index(), 1);
}

#[test]
fn toggle_completion_flips_the_focused_todo_only() {
    let mut app = app_with(3);
    app.down();
    assert_eq!(app.toggle_focused_completion(), Ok(()));
    assert!(!app.todos()[0].completed);
    assert!(app.todos()[1].completed);
    assert!(!app.todos()[2].completed);
    assert_eq!(app.todos()[1].id, 1);
    assert_eq!(app.todos()[1].name, "todo 1");
    assert_eq!(app.focused_index(), 1);
}

#[test]
fn toggle_completion_twice_restores() {
    let mut app = app_with(2);
    assert_eq!(app.toggle_focused_completion(), Ok(()));
    assert!(app.todos()[0].completed);
    assert_eq!(app.toggle_focused_completion(), Ok(()));
    assert!(!app.todos()[0].completed);
    assert!(!app.todos()[1].completed);
}

#[test]
fn toggle_completion_on_an_empty_list_is_refused() {
    let mut app = App::new();
    assert_eq!(app.toggle_focused_completion(), Err(AppError::EmptyListAccess));
    assert!(app.todos().is_empty());
    assert_eq!(app.focused_index(), 0);
    assert_eq!(app.current_view(), View::List);
}

#[test]
fn set_view_switches() {
    let mut app = App::new();
    app.set_view(View::Edit);
    assert_eq!(app.current_view(), View::Edit);
    app.set_view(View::Add);
    assert_eq!(app.current_view(), View::Add);
    app.set_view(View::List);
    assert_eq!(app.current_view(), View::List);
}

#[test]
fn top_level_insert_mode_toggles() {
    let mut app = App::new();
    app.toggle_insert_mode();
    assert!(app.insert_mode());
    assert!(!app.add_view_state().insert_mode());
    app.toggle_insert_mode();
    assert!(!app.insert_mode());
}

#[test]
fn quit_sets_the_flag_for_good() {
    let mut app = app_with(1);
    app.quit();
    assert!(app.should_quit());
    app.quit();
    app.down();
    app.set_view(View::Add);
    assert!(app.should_quit());
}

#[test]
fn confirm_without_a_name_is_refused() {
    let mut app = app_with(1);
    app.set_view(View::Add);
    assert_eq!(app.confirm_add(), Err(AppError::InvalidDraft));
    assert_eq!(app.current_view(), View::Add);
    assert_eq!(app.todos().len(), 1);
}

#[test]
fn cancel_returns_to_the_list() {
    let mut app = app_with(2);
    app.set_view(View::Add);
    app.cancel_add();
    assert_eq!(app.current_view(), View::List);
    assert_eq!(app.todos().len(), 2);
}
