use vstd::prelude::*;
use crate::date::{Date, local_today};
use crate::fields::StringField;
use crate::models::{NewTodo, Todo, TodoFormData, TodoId, copy_opt_string};
use crate::status::Status;
use crate::text::{
    has_no_cr, joined, join_lines, lemma_lines_round_trip, no_final_break, split_lines, text_lines,
    utf8_bytes, views,
};
use crate::textarea::{
    CursorMotion, Editor, editor_cursor, editor_lines, editor_lines_of, editor_move_cursor,
    editor_new, editor_selecting, editor_standard, editor_text_lines, editor_wf,
};

verus! {

/// The input of the todo dialog that has the focus.
#[derive(Debug, Clone, Copy, PartialEq, Eq, Structural)]
pub enum Focus {
    Todo,
    Info,
    Status,
    DueDate,
    Project,
}

/// Whether the todo dialog creates a todo or edits the one with the given identifier.
#[derive(Debug, Clone, Copy, PartialEq, Eq, Structural)]
pub enum TodoPopupMode {
    Create,
    Edit(TodoId),
}

/// The dialog in which a todo is written or edited.
#[derive(Debug)]
pub struct TodoPopup {
    pub mode: TodoPopupMode,
    pub id: Option<i64>,
    pub todo: StringField,
    pub info: Editor,
    pub status: Status,
    pub project: StringField,
    pub due_date: Option<Date>,
    pub focus: Focus,
    pub calendar_date: Date,
}

/// The input after `f` when moving on with Tab.
pub open spec fn spec_focus_next(f: Focus) -> Focus {
    match f {
        Focus::Todo => Focus::Info,
        Focus::Info => Focus::Status,
        Focus::Status => Focus::DueDate,
        Focus::DueDate => Focus::Project,
        Focus::Project => Focus::Todo,
    }
}

/// The input before `f` when moving back with Shift+Tab.
pub open spec fn spec_focus_previous(f: Focus) -> Focus {
    match f {
        Focus::Todo => Focus::Project,
        Focus::Info => Focus::Todo,
        Focus::Status => Focus::Info,
        Focus::DueDate => Focus::Status,
        Focus::Project => Focus::DueDate,
    }
}

/// The project a dialog names: none when the project input is empty.
pub open spec fn named_project(value: Seq<char>) -> Option<Seq<char>> {
    if value.len() == 0 { None } else { Some(value) }
}

/// The view of an optional string.
pub open spec fn opt_view(s: Option<String>) -> Option<Seq<char>> {
    match s {
        Some(v) => Some(v@),
        None => None,
    }
}

impl TodoPopup {
    /// The state of a fresh dialog for a new todo, with the calendar on `today`.
    pub open spec fn is_fresh(self, today: Date) -> bool {
        &&& self.mode == TodoPopupMode::Create
        &&& self.id is None
        &&& self.todo.label@ == "To do"@
        &&& self.todo.value@.len() == 0
        &&& self.todo.cursor == 0
        &&& editor_lines(self.info) == seq![Seq::<char>::empty()]
        &&& !editor_selecting(self.info)
        &&& editor_cursor(self.info) == (0nat, 0nat)
        &&& editor_standard(self.info)
        &&& editor_wf(self.info)
        &&& self.project.label@ == "Project"@
        &&& self.project.value@.len() == 0
        &&& self.project.cursor == 0
        &&& self.status == Status::ToDo
        &&& self.due_date is None
        &&& self.focus == Focus::Todo
        &&& self.calendar_date == today
    }

    /// The state of a dialog that edits `todo`, with the calendar on its due
    /// date, or on `today` when it has none.
    pub open spec fn shows(self, todo: Todo, today: Date) -> bool {
        &&& self.mode == TodoPopupMode::Edit(todo.id)
        &&& self.id == Some(todo.id)
        &&& self.todo.label@ == "To do"@
        &&& self.todo.value@ == todo.todo@
        &&& self.todo.cursor == utf8_bytes(todo.todo@).len()
        &&& editor_lines(self.info) == editor_lines_of_text(todo.info@)
        &&& !editor_selecting(self.info)
        &&& editor_cursor(self.info) == end_of(editor_lines(self.info))
        &&& editor_standard(self.info)
        &&& editor_wf(self.info)
        &&& self.project.label@ == "Project"@
        &&& self.project.value@ == (match todo.project {
            Some(p) => p@,
            None => Seq::<char>::empty(),
        })
        &&& self.project.cursor == utf8_bytes(self.project.value@).len()
        &&& self.status == todo.status
        &&& self.due_date == todo.due_date
        &&& self.focus == Focus::Todo
        &&& self.calendar_date == (match todo.due_date {
            Some(d) => d,
            None => today,
        })
    }

    /// A dialog for a new todo, with the calendar on `today`.
    pub fn new_on(today: Date) -> (r: Self)
        ensures
            r.is_fresh(today),
            r.todo.wf(),
            r.project.wf(),
    {
        proof {
            reveal_strlit("To do");
            reveal_strlit("Project");
        }
        let no_lines: Vec<String> = Vec::new();
        let info = editor_new(no_lines);
        Self {
            mode: TodoPopupMode::Create,
            id: None,
            todo: StringField::blank("To do"),
            info,
            project: StringField::blank("Project"),
            status: Status::ToDo,
            due_date: None,
            focus: Focus::Todo,
            calendar_date: today,
        }
    }

    /// A dialog for a new todo, with the calendar on today's date.
    pub fn new() -> (r: Self)
        ensures
            r.is_fresh(r.calendar_date),
            r.calendar_date.valid(),
            r.todo.wf(),
            r.project.wf(),
    {
        Self::new_on(local_today())
    }

    /// A dialog that edits `todo`, with the calendar on its due date, or on
    /// `today` when it has none.
    pub fn from_todo_on(todo: &Todo, today: Date) -> (r: Self)
        ensures
            r.shows(*todo, today),
            r.todo.wf(),
            r.project.wf(),
    {
        proof {
            reveal_strlit("To do");
            reveal_strlit("Project");
        }
        let lines = split_lines(todo.info.as_str());
        let mut info = editor_new(lines);
        editor_move_cursor(&mut info, CursorMotion::Bottom);
        editor_move_cursor(&mut info, CursorMotion::End);
        let project_name = match &todo.project {
            Some(p) => p.clone(),
            None => String::new(),
        };
        Self {
            mode: TodoPopupMode::Edit(todo.id),
            id: Some(todo.id),
            todo: StringField::new("To do", todo.todo.clone()),
            info,
            project: StringField::new("Project", project_name),
            status: todo.status,
            due_date: todo.due_date,
            focus: Focus::Todo,
            calendar_date: match todo.due_date {
                Some(date) => date,
                None => today,
            },
        }
    }

    /// A dialog that edits `todo`, with the calendar on its due date, or on
    /// today's date when it has none.
    pub fn from_todo(todo: &Todo) -> (r: Self)
        ensures
            r.shows(*todo, r.calendar_date),
            todo.due_date is None ==> r.calendar_date.valid(),
            r.todo.wf(),
            r.project.wf(),
    {
        match todo.due_date {
            Some(date) => Self::from_todo_on(todo, date),
            None => Self::from_todo_on(todo, local_today()),
        }
    }

    /// The description in the dialog, its lines joined.
    fn info_text(&self) -> (r: String)
        ensures
            r@ == joined(editor_lines(self.info)),
    {
        let lines = editor_text_lines(&self.info);
        join_lines(&lines)
    }

    /// The project in the dialog, none when its input is empty.
    fn project_name(&self) -> (r: Option<String>)
        ensures
            opt_view(r) == named_project(self.project.value@),
    {
        if self.project.value.as_str().is_empty() {
            None
        } else {
            Some(self.project.value.clone())
        }
    }

    /// The new todo that the dialog describes.
    pub fn into_new_todo(&self) -> (r: NewTodo)
        ensures
            r.todo@ == self.todo.value@,
            r.info@ == joined(editor_lines(self.info)),
            r.status == self.status,
            opt_view(r.project) == named_project(self.project.value@),
            r.due_date == self.due_date,
    {
        NewTodo {
            todo: self.todo.value.clone(),
            info: self.info_text(),
            status: self.status,
            project: self.project_name(),
            due_date: self.due_date,
        }
    }

    /// The edited fields that the dialog describes.
    pub fn into_form_data(&self) -> (r: TodoFormData)
        ensures
            r.todo@ == self.todo.value@,
            r.info@ == joined(editor_lines(self.info)),
            r.status == self.status,
            opt_view(r.project) == named_project(self.project.value@),
            r.due_date == self.due_date,
    {
        TodoFormData {
            todo: self.todo.value.clone(),
            info: self.info_text(),
            status: self.status,
            project: self.project_name(),
            due_date: self.due_date,
        }
    }

    /// Moves the focus to the next input.
    pub fn focus_next(&mut self)
        ensures
            *final(self) == (TodoPopup { focus: spec_focus_next(old(self).focus), ..*old(self) }),
    {
        match &self.focus {
            Focus::Todo => self.focus = Focus::Info,
            Focus::Info => self.focus = Focus::Status,
            Focus::Status => self.focus = Focus::DueDate,
            Focus::DueDate => self.focus = Focus::Project,
            Focus::Project => self.focus = Focus::Todo,
        }
    }

    /// Moves the focus to the previous input.
    pub fn focus_previous(&mut self)
        ensures
            *final(self) == (TodoPopup { focus: spec_focus_previous(old(self).focus), ..*old(self) }),
    {
        match &self.focus {
            Focus::Todo => self.focus = Focus::Project,
            Focus::Info => self.focus = Focus::Todo,
            Focus::Status => self.focus = Focus::Info,
            Focus::DueDate => self.focus = Focus::Status,
            Focus::Project => self.focus = Focus::DueDate,
        }
    }
}

/// The position after the last character of the last line.
pub open spec fn end_of(lines: Seq<Seq<char>>) -> (nat, nat) {
    ((lines.len() - 1) as nat, lines.last().len())
}

/// The lines an editor holds when made from the lines of `text`.
pub open spec fn editor_lines_of_text(text: Seq<char>) -> Seq<Seq<char>> {
    if text_lines(text).len() == 0 { seq![Seq::<char>::empty()] } else { text_lines(text) }
}

/// Opening a todo in its dialog and saving without changes gives back the
/// todo's text, status and due date; its description too when that holds
/// no carriage return and does not end with a line break; and its project,
/// unless the project's name is empty.
pub proof fn lemma_edit_dialog_round_trip(t: Todo, p: TodoPopup, today: Date, form: TodoFormData)
    requires
        p.shows(t, today),
        form.todo@ == p.todo.value@,
        form.info@ == joined(editor_lines(p.info)),
        form.status == p.status,
        opt_view(form.project) == named_project(p.project.value@),
        form.due_date == p.due_date,
    ensures
        form.todo@ == t.todo@,
        form.status == t.status,
        form.due_date == t.due_date,
        has_no_cr(t.info@) && no_final_break(t.info@) ==> form.info@ == t.info@,
        opt_view(form.project) == (match t.project {
            Some(n) => if n@.len() > 0 { Some(n@) } else { None },
            None => None,
        }),
{
    if has_no_cr(t.info@) && no_final_break(t.info@) {
        lemma_lines_round_trip(t.info@);
        if text_lines(t.info@).len() == 0 {
            assert(joined(seq![Seq::<char>::empty()]) == Seq::<char>::empty());
        }
    }
}

/// Moving the focus on and then back (or back and then on) returns to the
/// same input, and five moves on go round all inputs.
pub proof fn lemma_focus_cycle(f: Focus)
    ensures
        spec_focus_previous(spec_focus_next(f)) == f,
        spec_focus_next(spec_focus_previous(f)) == f,
        spec_focus_next(spec_focus_next(spec_focus_next(spec_focus_next(spec_focus_next(f)))))
            == f,
{
}

} // verus!
