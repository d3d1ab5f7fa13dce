//! What the list view shows.

use crate::app::{App, AppModel};
use vstd::prelude::*;

verus! {

/// One line of the list view.
#[derive(Debug)]
pub struct Row {
    pub name: String,
    pub completed: bool,
    /// Whether the line is the one that has the focus.
    pub selected: bool,
}

/// What a [`Row`] stands for.
pub struct RowModel {
    pub name: Seq<char>,
    pub completed: bool,
    pub selected: bool,
}

impl View for Row {
    type V = RowModel;

    open spec fn view(&self) -> RowModel {
        RowModel { name: self.name@, completed: self.completed, selected: self.selected }
    }
}

/// The line for the task at position `i`: its name, whether it is done, and
/// whether the focus is on it.
pub open spec fn row_at(app: AppModel, i: int) -> RowModel {
    RowModel {
        name: app.todos[i].name,
        completed: app.todos[i].completed,
        selected: i == app.focused_index,
    }
}

/// As long as the list is not empty, exactly one of its lines is selected.
pub proof fn lemma_one_row_selected(app: AppModel)
    requires
        app.wf(),
        app.todos.len() > 0,
    ensures
        0 <= app.focused_index < app.todos.len(),
        forall|i: int|
            0 <= i < app.todos.len() ==> (#[trigger] row_at(app, i).selected <==> i
                == app.focused_index),
{
}

/// The lines of the list view, one for each task and in the same order.
pub fn list_view(app: &App) -> (rows: Vec<Row>)
    ensures
        rows@.len() == app@.todos.len(),
        forall|i: int| 0 <= i < rows@.len() ==> (#[trigger] rows@[i])@ == row_at(app@, i),
{
    let todos = app.todos();
    let focused: usize = app.focused_index();
    let mut rows: Vec<Row> = Vec::new();
    let mut i: usize = 0;
    while i < todos.len()
        invariant
            i <= todos@.len(),
            crate::app::todo_models(todos@) == app@.todos,
            focused == app@.focused_index,
            rows@.len() == i,
            forall|k: int| 0 <= k < i ==> (#[trigger] rows@[k])@ == row_at(app@, k),
        decreases todos@.len() - i,
    {
        let todo = &todos[i];
        rows.push(Row { name: todo.name.clone(), completed: todo.completed, selected: i == focused });
        i += 1;
    }
    rows
}

} // verus!
