//! Keys, the actions they stand for, and the rule that maps one to the
//! other in each view.

use crate::app::View;
use crate::views::add::PRIORITY_FIELD;
use vstd::prelude::*;

verus! {

/// In the list view: stop the program.
pub const QUIT_KEY: char = 'q';

/// In the list view and in the add view: one step down.
pub const DOWN_KEY: char = 'j';

/// In the list view and in the add view: one step up.
pub const UP_KEY: char = 'k';

/// In the list view: flip the completion of the focused task.
pub const TOGGLE_KEY: char = 'c';

/// In the list view: open the add view.
pub const ADD_KEY: char = 'a';

/// In the list view: open the edit view.
pub const EDIT_KEY: char = 'e';

/// In the add view: start typing.
pub const INSERT_KEY: char = 'i';

/// In the add view, on the priority: select the next priority.
pub const PRIORITY_KEY: char = 'p';

/// The identity of a key, as far as the application tells keys apart.
#[derive(Clone, Copy, Debug, PartialEq, Eq, Structural)]
pub enum Key {
    /// A key that produces a character.
    Char(char),
    Enter,
    Esc,
    Up,
    Down,
    /// Any key that means nothing here.
    Other,
}

/// What happened to a key.
#[derive(Clone, Copy, Debug, PartialEq, Eq, Structural)]
pub enum KeyKind {
    Press,
    Repeat,
    Release,
}

/// One event of the keyboard.
#[derive(Clone, Copy, Debug, PartialEq, Eq, Structural)]
pub struct KeyEvent {
    pub key: Key,
    pub kind: KeyKind,
}

/// One change of the application state.
#[derive(Clone, Copy, Debug, PartialEq, Eq, Structural)]
pub enum Action {
    /// Ask the run loop to stop.
    Quit,
    /// Focus the next task of the list.
    FocusDown,
    /// Focus the previous task of the list.
    FocusUp,
    /// Flip the completion of the focused task.
    ToggleCompletion,
    /// Open the add view on an empty draft.
    OpenAdd,
    /// Open the edit view.
    OpenEdit,
    /// Focus the next field of the draft.
    FieldDown,
    /// Focus the previous field of the draft.
    FieldUp,
    /// Start typing into the focused field.
    EnterInsert,
    /// Stop typing.
    ExitInsert,
    /// Take one typed character.
    Input(char),
    /// Select the next priority.
    CyclePriority,
    /// Turn the draft into a task and go back to the list.
    Confirm,
    /// Drop the draft and go back to the list.
    Cancel,
    /// Leave the edit view for the list.
    Back,
}

/// The action that `key` asks for in the list view.
pub open spec fn list_action(key: Key) -> Option<Action> {
    match key {
        Key::Char(c) => if c == QUIT_KEY {
            Some(Action::Quit)
        } else if c == DOWN_KEY {
            Some(Action::FocusDown)
        } else if c == UP_KEY {
            Some(Action::FocusUp)
        } else if c == TOGGLE_KEY {
            Some(Action::ToggleCompletion)
        } else if c == ADD_KEY {
            Some(Action::OpenAdd)
        } else if c == EDIT_KEY {
            Some(Action::OpenEdit)
        } else {
            None
        },
        _ => None,
    }
}

/// The action that `key` asks for in the add view outside insert mode, with
/// the draft's focus on the field `focus`. The priority only cycles while it
/// has the focus.
pub open spec fn add_action(focus: int, key: Key) -> Option<Action> {
    match key {
        Key::Char(c) => if c == DOWN_KEY {
            Some(Action::FieldDown)
        } else if c == UP_KEY {
            Some(Action::FieldUp)
        } else if c == INSERT_KEY {
            Some(Action::EnterInsert)
        } else if c == PRIORITY_KEY && focus == PRIORITY_FIELD {
            Some(Action::CyclePriority)
        } else {
            None
        },
        Key::Down => Some(Action::FieldDown),
        Key::Up => Some(Action::FieldUp),
        Key::Enter => Some(Action::Confirm),
        Key::Esc => Some(Action::Cancel),
        Key::Other => None,
    }
}

/// The action that `key` asks for in the add view in insert mode: every
/// character is input, escape ends insert mode, and nothing else is heard.
pub open spec fn insert_action(key: Key) -> Option<Action> {
    match key {
        Key::Char(c) => Some(Action::Input(c)),
        Key::Esc => Some(Action::ExitInsert),
        _ => None,
    }
}

/// The action that `key` asks for in the edit view, which can only be left.
pub open spec fn edit_action(key: Key) -> Option<Action> {
    match key {
        Key::Esc => Some(Action::Back),
        _ => None,
    }
}

/// The action, if any, that `key` asks for in the view `view`, where the
/// draft is in insert mode or not and has its focus on the field `focus`.
pub open spec fn key_action(view: View, insert_mode: bool, focus: int, key: Key) -> Option<
    Action,
> {
    match view {
        View::List => list_action(key),
        View::Add => if insert_mode {
            insert_action(key)
        } else {
            add_action(focus, key)
        },
        View::Edit => edit_action(key),
    }
}

/// Maps a key to the action that it asks for, if any.
pub fn action_for(view: View, insert_mode: bool, focus: i32, key: Key) -> (a: Option<Action>)
    ensures
        a == key_action(view, insert_mode, focus as int, key),
{
    match view {
        View::List => match key {
            Key::Char(c) => if c == QUIT_KEY {
                Some(Action::Quit)
            } else if c == DOWN_KEY {
                Some(Action::FocusDown)
            } else if c == UP_KEY {
                Some(Action::FocusUp)
            } else if c == TOGGLE_KEY {
                Some(Action::ToggleCompletion)
            } else if c == ADD_KEY {
                Some(Action::OpenAdd)
            } else if c == EDIT_KEY {
                Some(Action::OpenEdit)
            } else {
                None
            },
            _ => None,
        },
        View::Add => if insert_mode {
            match key {
                Key::Char(c) => Some(Action::Input(c)),
                Key::Esc => Some(Action::ExitInsert),
                _ => None,
            }
        } else {
            match key {
                Key::Char(c) => if c == DOWN_KEY {
                    Some(Action::FieldDown)
                } else if c == UP_KEY {
                    Some(Action::FieldUp)
                } else if c == INSERT_KEY {
                    Some(Action::EnterInsert)
                } else if c == PRIORITY_KEY && focus == PRIORITY_FIELD {
                    Some(Action::CyclePriority)
                } else {
                    None
                },
                Key::Down => Some(Action::FieldDown),
                Key::Up => Some(Action::FieldUp),
                Key::Enter => Some(Action::Confirm),
                Key::Esc => Some(Action::Cancel),
                Key::Other => None,
            }
        },
        View::Edit => match key {
            Key::Esc => Some(Action::Back),
            _ => None,
        },
    }
}

} // verus!
