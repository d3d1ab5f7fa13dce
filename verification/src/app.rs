//! The application state and its transitions.

use crate::error::AppError;
use crate::input::{action_for, key_action, Action, Key, KeyEvent, KeyKind};
use crate::todo::{category_label, Category, Priority, Todo, TodoModel};
use crate::views::add::{AddViewState, DraftModel};
use vstd::prelude::*;
use vstd::view::View as _;

verus! {

/// The screen that is shown and that decides what a key means.
#[derive(Clone, Copy, Debug, PartialEq, Eq, Structural)]
pub enum View {
    List,
    Add,
    Edit,
}

/// The whole state of the application. It is made by [`App::new`] and
/// changed by its methods only, so it is well formed at all times.
#[derive(Debug)]
pub struct App {
    view: View,
    todos: Vec<Todo>,
    should_quit: bool,
    insert_mode: bool,
    focused_todo: usize,
    add_view_state: AddViewState,
}

/// What an [`App`] stands for. The transitions of the application are
/// functions on this model; each method of [`App`] carries one of them out.
pub struct AppModel {
    pub view: View,
    pub todos: Seq<TodoModel>,
    pub focused_index: int,
    pub should_quit: bool,
    pub insert_mode: bool,
    pub add_view_state: DraftModel,
}

/// The models of a sequence of tasks, in the same order.
pub open spec fn todo_models(todos: Seq<Todo>) -> Seq<TodoModel> {
    Seq::new(todos.len(), |i: int| todos[i]@)
}

impl AppModel {
    /// The identity of each task is its position in the list, the focus is on
    /// a task of the list, or at 0 while there is none, and the draft is well
    /// formed.
    pub open spec fn wf(self) -> bool {
        &&& forall|i: int| 0 <= i < self.todos.len() ==> (#[trigger] self.todos[i]).id == i
        &&& 0 <= self.focused_index
        &&& self.todos.len() > 0 ==> self.focused_index < self.todos.len()
        &&& self.todos.len() == 0 ==> self.focused_index == 0
        &&& self.add_view_state.wf()
    }

    /// The list can take one more task without running out of identities.
    pub open spec fn has_room(self) -> bool {
        self.todos.len() <= i32::MAX
    }

    /// The state at the start: the list view, no tasks, an empty draft.
    pub open spec fn initial() -> AppModel {
        AppModel {
            view: View::List,
            todos: Seq::empty(),
            focused_index: 0,
            should_quit: false,
            insert_mode: false,
            add_view_state: DraftModel::empty(),
        }
    }

    /// `view` is shown. The add view always opens on an empty draft.
    pub open spec fn set_view(self, view: View) -> AppModel {
        AppModel {
            view,
            add_view_state: if view == View::Add {
                DraftModel::empty()
            } else {
                self.add_view_state
            },
            ..self
        }
    }

    /// A new task at the end of the list, identified by the length that the
    /// list had. The focus stays.
    pub open spec fn add_todo(
        self,
        name: Seq<char>,
        category: Option<Seq<char>>,
        priority: Priority,
    ) -> AppModel {
        AppModel {
            todos: self.todos.push(
                TodoModel { name, category, priority, completed: false, id: self.todos.len() as int },
            ),
            ..self
        }
    }

    /// The focus one task up; on the first task it stays.
    pub open spec fn up(self) -> AppModel {
        AppModel {
            focused_index: if self.focused_index > 0 {
                self.focused_index - 1
            } else {
                self.focused_index
            },
            ..self
        }
    }

    /// The focus one task down; on the last task, and on an empty list, it
    /// stays.
    pub open spec fn down(self) -> AppModel {
        AppModel {
            focused_index: if self.focused_index + 1 < self.todos.len() {
                self.focused_index + 1
            } else {
                self.focused_index
            },
            ..self
        }
    }

    /// The top-level insert flag flipped.
    pub open spec fn toggle_insert_mode(self) -> AppModel {
        AppModel { insert_mode: !self.insert_mode, ..self }
    }

    /// Whether the focus is on a task. In a well-formed state that is so
    /// whenever the list is not empty.
    pub open spec fn has_focused_todo(self) -> bool {
        0 <= self.focused_index < self.todos.len()
    }

    /// The completion of the focused task flipped; nothing changes where no
    /// task has the focus.
    pub open spec fn toggle_focused_completion(self) -> AppModel {
        if self.has_focused_todo() {
            AppModel {
                todos: self.todos.update(
                    self.focused_index,
                    self.todos[self.focused_index].toggled(),
                ),
                ..self
            }
        } else {
            self
        }
    }

    /// The run loop is asked to stop.
    pub open spec fn quit(self) -> AppModel {
        AppModel { should_quit: true, ..self }
    }

    /// A valid draft becomes the last task of the list, the draft is emptied
    /// and the list view is shown. An invalid draft changes nothing.
    pub open spec fn confirm_add(self) -> AppModel {
        if self.add_view_state.is_valid() {
            let todo = self.add_view_state.materialize(self.todos.len() as int);
            self.with_draft(DraftModel::empty()).add_todo(
                todo.name,
                todo.category,
                todo.priority,
            ).set_view(View::List)
        } else {
            self
        }
    }

    /// The draft is emptied and the list view is shown.
    pub open spec fn cancel_add(self) -> AppModel {
        self.with_draft(DraftModel::empty()).set_view(View::List)
    }

    /// The same state around another draft.
    pub open spec fn with_draft(self, draft: DraftModel) -> AppModel {
        AppModel { add_view_state: draft, ..self }
    }

    /// The state after `action`.
    pub open spec fn apply(self, action: Action) -> AppModel {
        let draft = self.add_view_state;
        match action {
            Action::Quit => self.quit(),
            Action::FocusDown => self.down(),
            Action::FocusUp => self.up(),
            Action::ToggleCompletion => self.toggle_focused_completion(),
            Action::OpenAdd => self.set_view(View::Add),
            Action::OpenEdit => self.set_view(View::Edit),
            Action::FieldDown => self.with_draft(draft.focus_down()),
            Action::FieldUp => self.with_draft(draft.focus_up()),
            Action::EnterInsert => if draft.insert_mode {
                self
            } else {
                self.with_draft(draft.toggle_insert_mode())
            },
            Action::ExitInsert => if draft.insert_mode {
                self.with_draft(draft.toggle_insert_mode())
            } else {
                self
            },
            Action::Input(c) => self.with_draft(draft.update_input(c)),
            Action::CyclePriority => self.with_draft(draft.cycle_priority()),
            Action::Confirm => self.confirm_add(),
            Action::Cancel => self.cancel_add(),
            Action::Back => self.set_view(View::List),
        }
    }

    /// The action that `key` asks for in this state, if any.
    pub open spec fn action_for(self, key: Key) -> Option<Action> {
        key_action(self.view, self.add_view_state.insert_mode, self.add_view_state.focus, key)
    }

    /// The state after `key` was pressed: its action applied, or the state
    /// unchanged where the key asks for nothing.
    pub open spec fn handle_key(self, key: Key) -> AppModel {
        match self.action_for(key) {
            Some(action) => self.apply(action),
            None => self,
        }
    }

    /// The state after `event`. Only a press counts.
    pub open spec fn handle_event(self, event: KeyEvent) -> AppModel {
        if event.kind == KeyKind::Press {
            self.handle_key(event.key)
        } else {
            self
        }
    }
}

impl vstd::view::View for App {
    type V = AppModel;

    closed spec fn view(&self) -> AppModel {
        AppModel {
            view: self.view,
            todos: todo_models(self.todos@),
            focused_index: self.focused_todo as int,
            should_quit: self.should_quit,
            insert_mode: self.insert_mode,
            add_view_state: self.add_view_state@,
        }
    }
}

impl App {
    /// The application as it starts.
    pub fn new() -> (app: App)
        ensures
            app@ == AppModel::initial(),
            app@.wf(),
    {
        let app = App {
            view: View::List,
            todos: Vec::new(),
            should_quit: false,
            insert_mode: false,
            focused_todo: 0,
            add_view_state: AddViewState::new(),
        };
        assert(todo_models(app.todos@) =~= Seq::empty());
        app
    }

    /// Shows `view`. Entering the add view starts a new draft.
    pub fn set_view(&mut self, view: View)
        ensures
            final(self)@ == old(self)@.set_view(view),
            old(self)@.wf() ==> final(self)@.wf(),
    {
        self.view = view;
        if view == View::Add {
            self.add_view_state = AddViewState::new();
        }
    }

    /// Appends a task whose identity is the number of tasks before it.
    pub fn add_todo(&mut self, name: String, category: Option<Category>, priority: Priority)
        requires
            old(self)@.has_room(),
        ensures
            final(self)@ == old(self)@.add_todo(name@, category_label(category), priority),
            old(self)@.wf() ==> final(self)@.wf(),
    {
        let id: i32 = self.todos.len() as i32;
        self.todos.push(Todo::new(name, category, priority, id));
        assert(todo_models(self.todos@) =~= todo_models(old(self).todos@).push(
            self.todos@.last()@,
        ));
    }

    /// Moves the focus to the task above, unless it is on the first.
    pub fn up(&mut self)
        ensures
            final(self)@ == old(self)@.up(),
            old(self)@.wf() ==> final(self)@.wf(),
    {
        if self.focused_todo > 0 {
            self.focused_todo -= 1;
        }
    }

    /// Moves the focus to the task below, unless it is on the last or the
    /// list is empty.
    pub fn down(&mut self)
        ensures
            final(self)@ == old(self)@.down(),
            old(self)@.wf() ==> final(self)@.wf(),
    {
        let len: usize = self.todos.len();
        if len > 0 && self.focused_todo < len - 1 {
            self.focused_todo += 1;
        }
    }

    /// Flips the top-level insert flag.
    pub fn toggle_insert_mode(&mut self)
        ensures
            final(self)@ == old(self)@.toggle_insert_mode(),
            old(self)@.wf() ==> final(self)@.wf(),
    {
        self.insert_mode = !self.insert_mode;
    }

    /// Flips the completion of the focused task. On an empty list there is
    /// none: the state stays as it is and the call reports
    /// [`AppError::EmptyListAccess`].
    pub fn toggle_focused_completion(&mut self) -> (r: Result<(), AppError>)
        ensures
            final(self)@ == old(self)@.toggle_focused_completion(),
            r == if old(self)@.has_focused_todo() {
                Ok::<(), AppError>(())
            } else {
                Err(AppError::EmptyListAccess)
            },
            old(self)@.wf() ==> (r is Err <==> old(self)@.todos.len() == 0),
            old(self)@.wf() ==> final(self)@.wf(),
    {
        if self.focused_todo < self.todos.len() {
            self.todos[self.focused_todo].toggle_completed();
            assert(todo_models(self.todos@) =~= todo_models(old(self).todos@).update(
                self.focused_todo as int,
                old(self).todos@[self.focused_todo as int]@.toggled(),
            ));
            Ok(())
        } else {
            Err(AppError::EmptyListAccess)
        }
    }

    /// Asks the run loop to stop after the current round.
    pub fn quit(&mut self)
        ensures
            final(self)@ == old(self)@.quit(),
            old(self)@.wf() ==> final(self)@.wf(),
    {
        self.should_quit = true;
    }

    /// Turns the draft into the last task of the list, empties the draft and
    /// shows the list. A draft without a name is turned down with
    /// [`AppError::InvalidDraft`]: the add view stays and no task is made.
    pub fn confirm_add(&mut self) -> (r: Result<(), AppError>)
        requires
            old(self)@.has_room(),
        ensures
            final(self)@ == old(self)@.confirm_add(),
            r == if old(self)@.add_view_state.is_valid() {
                Ok::<(), AppError>(())
            } else {
                Err(AppError::InvalidDraft)
            },
            old(self)@.wf() ==> final(self)@.wf(),
    {
        let id: i32 = self.todos.len() as i32;
        match self.add_view_state.materialize(id) {
            Ok(todo) => {
                self.add_view_state = AddViewState::new();
                self.add_todo(todo.name, todo.category, todo.priority);
                self.set_view(View::List);
                Ok(())
            },
            Err(e) => Err(e),
        }
    }

    /// Drops the draft and shows the list.
    pub fn cancel_add(&mut self)
        ensures
            final(self)@ == old(self)@.cancel_add(),
            old(self)@.wf() ==> final(self)@.wf(),
    {
        self.add_view_state = AddViewState::new();
        self.set_view(View::List);
    }

    /// Carries out `action`. An action that is turned down leaves the state
    /// as it was.
    pub fn apply(&mut self, action: Action)
        requires
            old(self)@.has_room(),
        ensures
            final(self)@ == old(self)@.apply(action),
            old(self)@.wf() ==> final(self)@.wf(),
    {
        match action {
            Action::Quit => self.quit(),
            Action::FocusDown => self.down(),
            Action::FocusUp => self.up(),
            Action::ToggleCompletion => {
                let _ = self.toggle_focused_completion();
            },
            Action::OpenAdd => self.set_view(View::Add),
            Action::OpenEdit => self.set_view(View::Edit),
            Action::FieldDown => self.add_view_state.focus_down(),
            Action::FieldUp => self.add_view_state.focus_up(),
            Action::EnterInsert => if !self.add_view_state.insert_mode() {
                self.add_view_state.toggle_insert_mode();
            },
            Action::ExitInsert => if self.add_view_state.insert_mode() {
                self.add_view_state.toggle_insert_mode();
            },
            Action::Input(c) => self.add_view_state.update_input(c),
            Action::CyclePriority => self.add_view_state.cycle_priority(),
            Action::Confirm => {
                let _ = self.confirm_add();
            },
            Action::Cancel => self.cancel_add(),
            Action::Back => self.set_view(View::List),
        }
    }

    /// Takes one pressed key: finds the action that it asks for in the
    /// current view and mode, if any, and carries it out.
    pub fn handle_key(&mut self, key: Key)
        requires
            old(self)@.has_room(),
        ensures
            final(self)@ == old(self)@.handle_key(key),
            old(self)@.wf() ==> final(self)@.wf(),
    {
        let action = action_for(
            self.view,
            self.add_view_state.insert_mode(),
            self.add_view_state.focus(),
            key,
        );
        match action {
            Some(action) => self.apply(action),
            None => {},
        }
    }

    /// Takes one keyboard event. Repeats and releases are ignored.
    pub fn handle_event(&mut self, event: KeyEvent)
        requires
            old(self)@.has_room(),
        ensures
            final(self)@ == old(self)@.handle_event(event),
            old(self)@.wf() ==> final(self)@.wf(),
    {
        if event.kind == KeyKind::Press {
            self.handle_key(event.key);
        }
    }

    /// Whether [`App::add_todo`] and the key handlers may be called.
    pub fn has_room(&self) -> (b: bool)
        ensures
            b == self@.has_room(),
    {
        self.todos.len() <= i32::MAX as usize
    }

    /// The view that is shown.
    pub fn current_view(&self) -> (v: View)
        ensures
            v == self@.view,
    {
        self.view
    }

    /// The tasks, in the order in which they were added.
    pub fn todos(&self) -> (todos: &Vec<Todo>)
        ensures
            todo_models(todos@) == self@.todos,
    {
        &self.todos
    }

    /// The position of the focused task; 0 while the list is empty.
    pub fn focused_index(&self) -> (i: usize)
        ensures
            i == self@.focused_index,
    {
        self.focused_todo
    }

    /// Whether the run loop is to stop.
    pub fn should_quit(&self) -> (b: bool)
        ensures
            b == self@.should_quit,
    {
        self.should_quit
    }

    /// The top-level insert flag.
    pub fn insert_mode(&self) -> (b: bool)
        ensures
            b == self@.insert_mode,
    {
        self.insert_mode
    }

    /// The draft of the add view.
    pub fn add_view_state(&self) -> (s: &AddViewState)
        ensures
            s@ == self@.add_view_state,
    {
        &self.add_view_state
    }
}

} // verus!
