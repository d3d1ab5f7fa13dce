//! A single task and the values it is made of.

use vstd::prelude::*;

verus! {

/// A text label that a task may carry. Its view is the label's characters.
#[derive(Debug)]
pub struct Category {
    name: String,
}

impl View for Category {
    type V = Seq<char>;

    closed spec fn view(&self) -> Seq<char> {
        self.name@
    }
}

impl Category {
    /// A category called `name`.
    pub fn new(name: String) -> (c: Category)
        ensures
            c@ == name@,
    {
        Category { name }
    }

    /// The label itself.
    pub fn name(&self) -> (s: &String)
        ensures
            s@ == self@,
    {
        &self.name
    }
}

/// Urgency of a task, `P1` being the most urgent.
#[derive(Clone, Copy, Debug, PartialEq, Eq, Structural)]
pub enum Priority {
    P1,
    P2,
    P3,
}

impl Priority {
    /// The priority that follows `self` in the cycle `P1`, `P2`, `P3`, `P1`.
    pub open spec fn spec_next(self) -> Priority {
        match self {
            Priority::P1 => Priority::P2,
            Priority::P2 => Priority::P3,
            Priority::P3 => Priority::P1,
        }
    }

    /// The name under which the priority is shown.
    pub open spec fn spec_label(self) -> Seq<char> {
        match self {
            Priority::P1 => seq!['P', '1'],
            Priority::P2 => seq!['P', '2'],
            Priority::P3 => seq!['P', '3'],
        }
    }

    /// The name under which the priority is shown: `P1`, `P2` or `P3`.
    pub fn label(self) -> (s: &'static str)
        ensures
            s@ == self.spec_label(),
    {
        proof {
            reveal_strlit("P1");
            reveal_strlit("P2");
            reveal_strlit("P3");
        }
        match self {
            Priority::P1 => "P1",
            Priority::P2 => "P2",
            Priority::P3 => "P3",
        }
    }

    /// Advances one step in the cycle `P1`, `P2`, `P3`, `P1`.
    #[verifier::when_used_as_spec(spec_next)]
    pub fn next(self) -> (r: Priority)
        ensures
            r == self.spec_next(),
    {
        match self {
            Priority::P1 => Priority::P2,
            Priority::P2 => Priority::P3,
            Priority::P3 => Priority::P1,
        }
    }
}

/// One task of the list.
#[derive(Debug)]
pub struct Todo {
    pub name: String,
    pub category: Option<Category>,
    pub priority: Priority,
    pub completed: bool,
    pub id: i32,
}

/// What a [`Todo`] stands for: its texts as character sequences and its
/// identity as a mathematical integer.
pub struct TodoModel {
    pub name: Seq<char>,
    pub category: Option<Seq<char>>,
    pub priority: Priority,
    pub completed: bool,
    pub id: int,
}

impl TodoModel {
    /// The same task with its completion flag set to `completed`.
    pub open spec fn with_completed(self, completed: bool) -> TodoModel {
        TodoModel { completed, ..self }
    }

    /// The same task with its completion flag flipped.
    pub open spec fn toggled(self) -> TodoModel {
        self.with_completed(!self.completed)
    }
}

/// The characters of an optional category, absent where the category is.
pub open spec fn category_label(category: Option<Category>) -> Option<Seq<char>> {
    match category {
        Some(c) => Some(c@),
        None => None,
    }
}

impl View for Todo {
    type V = TodoModel;

    open spec fn view(&self) -> TodoModel {
        TodoModel {
            name: self.name@,
            category: category_label(self.category),
            priority: self.priority,
            completed: self.completed,
            id: self.id as int,
        }
    }
}

impl Todo {
    /// A task that is not yet completed. No argument is validated: keeping
    /// `id` unique is up to the list that owns the task.
    pub fn new(name: String, category: Option<Category>, priority: Priority, id: i32) -> (t: Todo)
        ensures
            t@ == (TodoModel {
                name: name@,
                category: category_label(category),
                priority,
                completed: false,
                id: id as int,
            }),
    {
        Todo { name, category, priority, id, completed: false }
    }

    /// Marks the task as done. Doing so twice is the same as once.
    pub fn mark_complete(&mut self)
        ensures
            final(self)@ == old(self)@.with_completed(true),
    {
        self.completed = true;
    }

    /// Marks the task as not done. Doing so twice is the same as once.
    pub fn mark_incomplete(&mut self)
        ensures
            final(self)@ == old(self)@.with_completed(false),
    {
        self.completed = false;
    }

    /// Flips the completion flag.
    pub fn toggle_completed(&mut self)
        ensures
            final(self)@ == old(self)@.toggled(),
    {
        if self.completed {
            self.mark_incomplete();
        } else {
            self.mark_complete();
        }
    }
}

} // verus!
