//! Laws of the state machine, proved of the model that the methods of
//! [`App`](crate::app::App) carry out.

use crate::app::{AppModel, View};
use crate::input::{Action, Key, ADD_KEY, EDIT_KEY, INSERT_KEY};
use crate::todo::{Priority, TodoModel};
use crate::views::add::DraftModel;
use vstd::prelude::*;

verus! {

/// What a task is made from when it is added to the list.
pub struct NewTodo {
    pub name: Seq<char>,
    pub category: Option<Seq<char>>,
    pub priority: Priority,
}

impl NewTodo {
    /// The task that `self` becomes under the identity `id`.
    pub open spec fn with_id(self, id: int) -> TodoModel {
        TodoModel {
            name: self.name,
            category: self.category,
            priority: self.priority,
            completed: false,
            id,
        }
    }
}

/// The state after each of `items` was added in turn, first to last.
pub open spec fn add_all(s: AppModel, items: Seq<NewTodo>) -> AppModel
    decreases items.len(),
{
    if items.len() == 0 {
        s
    } else {
        let last = items.last();
        add_all(s, items.drop_last()).add_todo(last.name, last.category, last.priority)
    }
}

/// The state after each of `keys` was pressed in turn, first to last.
pub open spec fn press_all(s: AppModel, keys: Seq<Key>) -> AppModel
    decreases keys.len(),
{
    if keys.len() == 0 {
        s
    } else {
        press_all(s, keys.drop_last()).handle_key(keys.last())
    }
}

/// The state after each character of `text` was typed in turn.
pub open spec fn type_all(s: AppModel, text: Seq<char>) -> AppModel
    decreases text.len(),
{
    if text.len() == 0 {
        s
    } else {
        type_all(s, text.drop_last()).handle_key(Key::Char(text.last()))
    }
}

/// Adding tasks extends the list in the order of insertion and numbers the
/// new tasks from the length that the list had; what was in the list and the
/// rest of the state stay as they were.
pub proof fn lemma_add_all_appends(s: AppModel, items: Seq<NewTodo>)
    ensures
        add_all(s, items).todos == s.todos + Seq::new(
            items.len(),
            |k: int| items[k].with_id(s.todos.len() + k),
        ),
        add_all(s, items) == (AppModel { todos: add_all(s, items).todos, ..s }),
        s.wf() ==> add_all(s, items).wf(),
    decreases items.len(),
{
    if items.len() > 0 {
        lemma_add_all_appends(s, items.drop_last());
    }
}

/// After any number of additions to the empty list, the list holds as many
/// tasks as were added, in the order in which they were added, and the
/// identity of each is its position: 0, 1, 2 and so on.
pub proof fn lemma_ids_count_insertions(items: Seq<NewTodo>)
    ensures
        add_all(AppModel::initial(), items).todos.len() == items.len(),
        forall|i: int|
            0 <= i < items.len() ==> #[trigger] add_all(AppModel::initial(), items).todos[i]
                == items[i].with_id(i),
        add_all(AppModel::initial(), items).focused_index == 0,
        add_all(AppModel::initial(), items).wf(),
{
    lemma_add_all_appends(AppModel::initial(), items);
}

/// In a well-formed list a task that was added later has the greater
/// identity, so no two tasks share one.
pub proof fn lemma_ids_increase(s: AppModel)
    requires
        s.wf(),
    ensures
        forall|i: int, j: int|
            0 <= i < j < s.todos.len() ==> (#[trigger] s.todos[i]).id < (#[trigger] s.todos[j]).id,
{
}

/// From any task but the first, moving the focus up and then down brings it
/// back.
pub proof fn lemma_up_then_down(s: AppModel)
    requires
        s.wf(),
        0 < s.focused_index,
    ensures
        s.up().down() == s,
{
}

/// From any task but the last, moving the focus down and then up brings it
/// back.
pub proof fn lemma_down_then_up(s: AppModel)
    requires
        s.wf(),
        s.focused_index + 1 < s.todos.len(),
    ensures
        s.down().up() == s,
{
}

/// On the first task moving up changes nothing, on the last task moving
/// down changes nothing, and wherever the focus moves it stays on a task of
/// the list.
pub proof fn lemma_focus_stays_in_range(s: AppModel)
    requires
        s.wf(),
    ensures
        s.focused_index == 0 ==> s.up() == s,
        s.focused_index == s.todos.len() - 1 ==> s.down() == s,
        s.up().wf(),
        s.down().wf(),
        s.todos.len() > 0 ==> 0 <= s.up().focused_index < s.todos.len(),
        s.todos.len() > 0 ==> 0 <= s.down().focused_index < s.todos.len(),
{
}

/// On an empty list the focus is at 0 and neither movement changes anything.
pub proof fn lemma_focus_on_empty_list(s: AppModel)
    requires
        s.wf(),
        s.todos.len() == 0,
    ensures
        s.focused_index == 0,
        s.up() == s,
        s.down() == s,
{
}

/// Flipping the completion of the focused task twice gives back the state
/// that was there before.
pub proof fn lemma_toggle_twice(s: AppModel)
    ensures
        s.toggle_focused_completion().toggle_focused_completion() == s,
{
    if s.has_focused_todo() {
        let once = s.toggle_focused_completion();
        let twice = once.toggle_focused_completion();
        assert(twice.todos =~= s.todos);
    }
}

/// Every action keeps a well-formed state well formed.
pub proof fn lemma_apply_preserves_wf(s: AppModel, action: Action)
    requires
        s.wf(),
    ensures
        s.apply(action).wf(),
{
}

/// Whatever keys are pressed, a well-formed state stays well formed: the
/// identities stay the positions and the focus stays in range.
pub proof fn lemma_press_all_preserves_wf(s: AppModel, keys: Seq<Key>)
    requires
        s.wf(),
    ensures
        press_all(s, keys).wf(),
    decreases keys.len(),
{
    if keys.len() > 0 {
        lemma_press_all_preserves_wf(s, keys.drop_last());
        let before = press_all(s, keys.drop_last());
        match before.action_for(keys.last()) {
            Some(action) => lemma_apply_preserves_wf(before, action),
            None => {},
        }
    }
}

/// In insert mode no key moves the focus of the draft, changes the view or
/// touches the list.
pub proof fn lemma_insert_mode_holds_focus(s: AppModel, key: Key)
    requires
        s.view == View::Add,
        s.add_view_state.insert_mode,
    ensures
        s.handle_key(key).view == View::Add,
        s.handle_key(key).add_view_state.focus == s.add_view_state.focus,
        s.handle_key(key).todos == s.todos,
        s.handle_key(key).focused_index == s.focused_index,
{
}

/// Typing in insert mode with the focus on the name appends what is typed to
/// the name and changes nothing else.
pub proof fn lemma_typing_extends_name(s: AppModel, text: Seq<char>)
    requires
        s.view == View::Add,
        s.add_view_state.insert_mode,
        s.add_view_state.focus == 0,
    ensures
        type_all(s, text) == (AppModel {
            add_view_state: DraftModel {
                name: s.add_view_state.name + text,
                ..s.add_view_state
            },
            ..s
        }),
    decreases text.len(),
{
    if text.len() > 0 {
        let front = text.drop_last();
        lemma_typing_extends_name(s, front);
        assert((s.add_view_state.name + front).push(text.last()) =~= s.add_view_state.name + text);
    }
}

/// Leaving the add view by escape drops the draft: the list is shown again
/// with its tasks untouched, and the add view opens on an empty draft the
/// next time.
pub proof fn lemma_cancel_discards_draft(s: AppModel)
    requires
        s.view == View::Add,
        !s.add_view_state.insert_mode,
    ensures
        s.handle_key(Key::Esc).view == View::List,
        s.handle_key(Key::Esc).todos == s.todos,
        s.handle_key(Key::Esc).add_view_state == DraftModel::empty(),
        s.handle_key(Key::Esc).handle_key(Key::Char(ADD_KEY)).view == View::Add,
        s.handle_key(Key::Esc).handle_key(Key::Char(ADD_KEY)).add_view_state == DraftModel::empty(),
{
}

/// Opening the add view from the list, typing any text as the name and then
/// cancelling leaves the list as it was; the add view then opens with an
/// empty name, an empty category and priority `P3`.
pub proof fn lemma_typed_draft_is_discarded(s: AppModel, text: Seq<char>)
    requires
        s.view == View::List,
    ensures
        ({
            let typing = s.handle_key(Key::Char(ADD_KEY)).handle_key(Key::Char(INSERT_KEY));
            let typed = type_all(typing, text);
            let cancelled = typed.handle_key(Key::Esc).handle_key(Key::Esc);
            let reopened = cancelled.handle_key(Key::Char(ADD_KEY));
            &&& typed.view == View::Add
            &&& typed.add_view_state.name == text
            &&& cancelled == (AppModel { add_view_state: DraftModel::empty(), ..s })
            &&& reopened.view == View::Add
            &&& reopened.add_view_state.name.len() == 0
            &&& reopened.add_view_state.category.len() == 0
            &&& reopened.add_view_state.priority == Priority::P3
        }),
{
    let typing = s.handle_key(Key::Char(ADD_KEY)).handle_key(Key::Char(INSERT_KEY));
    lemma_typing_extends_name(typing, text);
}

/// Any open view can be left for the list, and the list leads to the other
/// two: no view is a dead end.
pub proof fn lemma_views_are_connected(s: AppModel)
    ensures
        s.view == View::List ==> s.handle_key(Key::Char(ADD_KEY)).view == View::Add,
        s.view == View::List ==> s.handle_key(Key::Char(EDIT_KEY)).view == View::Edit,
        s.view == View::Edit ==> s.handle_key(Key::Esc).view == View::List,
        s.view == View::Add && !s.add_view_state.insert_mode ==> s.handle_key(Key::Esc).view
            == View::List,
        s.view == View::Add && s.add_view_state.insert_mode ==> s.handle_key(Key::Esc).handle_key(
            Key::Esc,
        ).view == View::List,
{
}

} // verus!
