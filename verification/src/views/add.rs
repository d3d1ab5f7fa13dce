//! The draft that the add view edits before it becomes a task.

use crate::app::App;
use crate::error::AppError;
use crate::text::{all_white_space, lemma_trimmed_empty, trim, trimmed};
use crate::todo::{Category, Priority, Todo, TodoModel};
use vstd::prelude::*;

verus! {

/// Index of the name field among the draft's fields.
pub const NAME_FIELD: i32 = 0;

/// Index of the category field among the draft's fields.
pub const CATEGORY_FIELD: i32 = 1;

/// Index of the priority field among the draft's fields, the last one.
pub const PRIORITY_FIELD: i32 = 2;

/// The draft of a new task: two text buffers, a priority, the field that has
/// the focus, and whether typed characters go into the focused buffer.
#[derive(Debug)]
pub struct AddViewState {
    name: String,
    category: String,
    priority: Priority,
    focus: i32,
    insert_mode: bool,
}

/// What an [`AddViewState`] stands for.
pub struct DraftModel {
    pub name: Seq<char>,
    pub category: Seq<char>,
    pub priority: Priority,
    pub focus: int,
    pub insert_mode: bool,
}

impl DraftModel {
    /// The focus selects one of the three fields.
    pub open spec fn wf(self) -> bool {
        NAME_FIELD <= self.focus <= PRIORITY_FIELD
    }

    /// The draft that every add operation starts from.
    pub open spec fn empty() -> DraftModel {
        DraftModel {
            name: Seq::empty(),
            category: Seq::empty(),
            priority: Priority::P3,
            focus: NAME_FIELD as int,
            insert_mode: false,
        }
    }

    /// Focus one field further down, staying on the last one.
    pub open spec fn focus_down(self) -> DraftModel {
        DraftModel {
            focus: if self.focus < PRIORITY_FIELD {
                self.focus + 1
            } else {
                self.focus
            },
            ..self
        }
    }

    /// Focus one field further up, staying on the first one.
    pub open spec fn focus_up(self) -> DraftModel {
        DraftModel {
            focus: if self.focus > NAME_FIELD {
                self.focus - 1
            } else {
                self.focus
            },
            ..self
        }
    }

    /// Insert mode flipped.
    pub open spec fn toggle_insert_mode(self) -> DraftModel {
        DraftModel { insert_mode: !self.insert_mode, ..self }
    }

    /// In insert mode `c` goes to the end of the focused text buffer. Outside
    /// insert mode, and with the focus on the priority, nothing changes.
    pub open spec fn update_input(self, c: char) -> DraftModel {
        if !self.insert_mode {
            self
        } else if self.focus == NAME_FIELD {
            DraftModel { name: self.name.push(c), ..self }
        } else if self.focus == CATEGORY_FIELD {
            DraftModel { category: self.category.push(c), ..self }
        } else {
            self
        }
    }

    /// The priority advanced by one step of its cycle.
    pub open spec fn cycle_priority(self) -> DraftModel {
        DraftModel { priority: self.priority.spec_next(), ..self }
    }

    /// A draft can become a task when its name is more than white space.
    pub open spec fn is_valid(self) -> bool {
        trimmed(self.name).len() > 0
    }

    /// The task that the draft describes, under the identity `id`: the name
    /// without the white space around it, the category where one was typed,
    /// the priority as it stands, not completed.
    pub open spec fn materialize(self, id: int) -> TodoModel {
        TodoModel {
            name: trimmed(self.name),
            category: if self.category.len() > 0 {
                Some(self.category)
            } else {
                None
            },
            priority: self.priority,
            completed: false,
            id,
        }
    }
}

/// A draft is turned down exactly when its name holds nothing but white
/// space, which is the case of the empty name.
pub proof fn lemma_valid_draft_has_a_name(draft: DraftModel)
    ensures
        draft.is_valid() <==> !all_white_space(draft.name),
        draft.name.len() == 0 ==> !draft.is_valid(),
{
    lemma_trimmed_empty(draft.name);
}

impl View for AddViewState {
    type V = DraftModel;

    closed spec fn view(&self) -> DraftModel {
        DraftModel {
            name: self.name@,
            category: self.category@,
            priority: self.priority,
            focus: self.focus as int,
            insert_mode: self.insert_mode,
        }
    }
}

impl AddViewState {
    /// An empty draft with priority `P3`, the focus on the name, outside
    /// insert mode.
    pub fn new() -> (s: AddViewState)
        ensures
            s@ == DraftModel::empty(),
            s@.wf(),
    {
        AddViewState {
            name: String::new(),
            category: String::new(),
            priority: Priority::P3,
            focus: NAME_FIELD,
            insert_mode: false,
        }
    }

    /// Moves the focus to the next field; on the last field it stays.
    pub fn focus_down(&mut self)
        ensures
            final(self)@ == old(self)@.focus_down(),
            old(self)@.wf() ==> final(self)@.wf(),
    {
        if self.focus < PRIORITY_FIELD {
            self.focus += 1;
        }
    }

    /// Moves the focus to the previous field; on the first field it stays.
    pub fn focus_up(&mut self)
        ensures
            final(self)@ == old(self)@.focus_up(),
            old(self)@.wf() ==> final(self)@.wf(),
    {
        if self.focus > NAME_FIELD {
            self.focus -= 1;
        }
    }

    /// Enters insert mode, or leaves it.
    pub fn toggle_insert_mode(&mut self)
        ensures
            final(self)@ == old(self)@.toggle_insert_mode(),
            old(self)@.wf() ==> final(self)@.wf(),
    {
        self.insert_mode = !self.insert_mode;
    }

    /// Takes one typed character: in insert mode it is appended to the name
    /// or the category, whichever has the focus.
    pub fn update_input(&mut self, c: char)
        ensures
            final(self)@ == old(self)@.update_input(c),
            old(self)@.wf() ==> final(self)@.wf(),
    {
        if self.insert_mode {
            if self.focus == NAME_FIELD {
                self.name.push(c);
            } else if self.focus == CATEGORY_FIELD {
                self.category.push(c);
            }
        }
    }

    /// Selects the next priority: `P1`, `P2`, `P3`, then `P1` again.
    pub fn cycle_priority(&mut self)
        ensures
            final(self)@ == old(self)@.cycle_priority(),
            old(self)@.wf() ==> final(self)@.wf(),
    {
        self.priority = self.priority.next();
    }

    /// Builds the task that the draft describes and leaves the draft as it
    /// is. A draft without a name is turned down.
    pub fn materialize(&self, id: i32) -> (r: Result<Todo, AppError>)
        ensures
            match r {
                Ok(todo) => self@.is_valid() && todo@ == self@.materialize(id as int),
                Err(e) => !self@.is_valid() && e == AppError::InvalidDraft,
            },
    {
        let name = trim(self.name.as_str());
        if name.as_str().is_empty() {
            return Err(AppError::InvalidDraft);
        }
        let category = if self.category.as_str().is_empty() {
            None
        } else {
            Some(Category::new(self.category.clone()))
        };
        Ok(Todo::new(name, category, self.priority, id))
    }

    /// The name typed so far.
    pub fn name(&self) -> (s: &String)
        ensures
            s@ == self@.name,
    {
        &self.name
    }

    /// The category typed so far.
    pub fn category(&self) -> (s: &String)
        ensures
            s@ == self@.category,
    {
        &self.category
    }

    /// The priority selected so far.
    pub fn priority(&self) -> (p: Priority)
        ensures
            p == self@.priority,
    {
        self.priority
    }

    /// The field that has the focus.
    pub fn focus(&self) -> (f: i32)
        ensures
            f == self@.focus,
    {
        self.focus
    }

    /// Whether typed characters go into a text buffer.
    pub fn insert_mode(&self) -> (b: bool)
        ensures
            b == self@.insert_mode,
    {
        self.insert_mode
    }
}

/// One input field of the add view.
#[derive(Debug)]
pub struct Field {
    pub label: &'static str,
    pub value: String,
    /// Whether the field is the one that has the focus.
    pub focused: bool,
}

/// What a [`Field`] stands for.
pub struct FieldModel {
    pub label: Seq<char>,
    pub value: Seq<char>,
    pub focused: bool,
}

impl View for Field {
    type V = FieldModel;

    open spec fn view(&self) -> FieldModel {
        FieldModel { label: self.label@, value: self.value@, focused: self.focused }
    }
}

/// The three fields that show a draft: its name, its category and the name
/// of its priority, each under its label, the focused one marked.
pub open spec fn draft_fields(draft: DraftModel) -> Seq<FieldModel> {
    seq![
        FieldModel { label: "Name"@, value: draft.name, focused: draft.focus == NAME_FIELD },
        FieldModel {
            label: "Category"@,
            value: draft.category,
            focused: draft.focus == CATEGORY_FIELD,
        },
        FieldModel {
            label: "Priority"@,
            value: draft.priority.spec_label(),
            focused: draft.focus == PRIORITY_FIELD,
        },
    ]
}

/// The fields of the add view, from top to bottom.
pub fn add_view(app: &App) -> (fields: Vec<Field>)
    ensures
        fields@.len() == 3,
        forall|i: int|
            0 <= i < 3 ==> (#[trigger] fields@[i])@ == draft_fields(app@.add_view_state)[i],
{
    let draft = app.add_view_state();
    let focus: i32 = draft.focus();
    let mut fields: Vec<Field> = Vec::new();
    fields.push(Field { label: "Name", value: draft.name().clone(), focused: focus == NAME_FIELD });
    fields.push(
        Field {
            label: "Category",
            value: draft.category().clone(),
            focused: focus == CATEGORY_FIELD,
        },
    );
    fields.push(
        Field {
            label: "Priority",
            value: draft.priority().label().to_owned(),
            focused: focus == PRIORITY_FIELD,
        },
    );
    fields
}

} // verus!
