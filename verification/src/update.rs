use vstd::prelude::*;
use crate::app::{
    ActivePanel, App, Dialog, opened_new_project, opened_new_todo, opened_project_confirm,
    opened_project_editor, opened_todo_confirm, opened_todo_editor, selected_id,
};
use crate::confirm_popup::ConfirmAction;
use crate::date::{
    Date, first_day_number, last_day_number, move_down, move_left, move_right, move_up,
    next_month, next_month_defined, prev_month, prev_month_defined, spec_next_month,
    spec_prev_month,
};
use crate::fields::StringField;
use crate::keys::{KeyCode, KeyEvent};
use crate::models::{NewProject, TodoId};
use crate::operation::{Operation, TodoTarget, spec_continue};
use crate::project_list::project_rows;
use crate::project_popup::{ProjectPopup, ProjectPopupMode};
use crate::selection::{spec_step_down, spec_step_up};
use crate::status::{spec_next, spec_previous};
use crate::text::joined;
use crate::textarea::{
    CursorMotion, back_of, editor_cursor, editor_input, editor_input_effect, editor_lines,
    editor_move_cursor, editor_plain, editor_selecting, editor_standard, editor_wf, forward_of,
    typed_outcome,
};
use crate::todo_popup::{
    Focus, TodoPopup, TodoPopupMode, named_project, opt_view, spec_focus_next,
    spec_focus_previous,
};
use crate::todo_table::{wrap_down, wrap_up};

verus! {

/// Whether a calendar key can be handled on `date`: the day it moves to
/// must exist in the supported range.
pub open spec fn calendar_key_ok(date: Date, code: KeyCode) -> bool {
    match code {
        KeyCode::Char('p') => date.valid() && prev_month_defined(date),
        KeyCode::Char('n') => date.valid() && next_month_defined(date),
        KeyCode::Char('j') => date.valid() && date.number() + 7 <= last_day_number(),
        KeyCode::Char('k') => date.valid() && date.number() - 7 >= first_day_number(),
        KeyCode::Char('h') => date.valid() && date.number() - 1 >= first_day_number(),
        KeyCode::Char('l') => date.valid() && date.number() + 1 <= last_day_number(),
        _ => true,
    }
}

/// The calendar date `e` after a calendar key on `d`: `p`/`n` go to the
/// previous/next month, `k`/`j` a week back/on, `h`/`l` a day back/on.
pub open spec fn calendar_step(d: Date, code: KeyCode, e: Date) -> bool {
    match code {
        KeyCode::Char('p') => e == spec_prev_month(d),
        KeyCode::Char('n') => e == spec_next_month(d),
        KeyCode::Char('j') => e.valid() && e.number() == d.number() + 7,
        KeyCode::Char('k') => e.valid() && e.number() == d.number() - 7,
        KeyCode::Char('h') => e.valid() && e.number() == d.number() - 1,
        KeyCode::Char('l') => e.valid() && e.number() == d.number() + 1,
        _ => e == d,
    }
}

/// The text input `g` after a key on `f`: left and right move the cursor,
/// other keys are typed.
pub open spec fn field_step(f: StringField, key: KeyEvent, g: StringField) -> bool {
    &&& g.label == f.label
    &&& match key.code {
        KeyCode::Left => g.value == f.value && g.cursor == (if f.cursor > 0 {
            f.cursor - 1
        } else {
            f.cursor as int
        }),
        KeyCode::Right => g.value == f.value && g.cursor == (if f.cursor < f.bytes().len() {
            f.cursor + 1
        } else {
            f.cursor as int
        }),
        _ => f.pressed(g.bytes(), g.cursor as int, key),
    }
}

/// Whether a text input can take a key: left and right always, others when
/// the input can handle them.
pub open spec fn field_key_ok(f: StringField, key: KeyEvent) -> bool {
    key.code == KeyCode::Left || key.code == KeyCode::Right || f.key_ok(key)
}

/// Whether the todo dialog can take a key without failing.
pub open spec fn todo_popup_key_ok(p: TodoPopup, key: KeyEvent) -> bool {
    match key.code {
        KeyCode::Tab | KeyCode::Enter => true,
        _ => match p.focus {
            Focus::Todo => field_key_ok(p.todo, key),
            Focus::Project => field_key_ok(p.project, key),
            Focus::DueDate => calendar_key_ok(p.calendar_date, key.code),
            _ => true,
        },
    }
}

/// Whether a key can be handled without failing: the text inputs and the
/// calendar of an open dialog must be able to take it.
pub open spec fn update_defined(app: App, key: KeyEvent) -> bool {
    key.code == KeyCode::Esc || match app.dialog {
        Some(Dialog::Todo(p)) => todo_popup_key_ok(p, key),
        Some(Dialog::Project(p)) => key.code == KeyCode::Enter || field_key_ok(p.name, key),
        _ => true,
    }
}

/// `t` is the new todo that the todo dialog `p` describes.
pub open spec fn describes_new(t: crate::models::NewTodo, p: TodoPopup) -> bool {
    &&& t.todo@ == p.todo.value@
    &&& t.info@ == joined(editor_lines(p.info))
    &&& t.status == p.status
    &&& opt_view(t.project) == named_project(p.project.value@)
    &&& t.due_date == p.due_date
}

/// `t` is the edited todo that the todo dialog `p` describes.
pub open spec fn describes_form(t: crate::models::TodoFormData, p: TodoPopup) -> bool {
    &&& t.todo@ == p.todo.value@
    &&& t.info@ == joined(editor_lines(p.info))
    &&& t.status == p.status
    &&& opt_view(t.project) == named_project(p.project.value@)
    &&& t.due_date == p.due_date
}

/// `op` starts saving what the todo dialog `p` describes: a new todo, or
/// the todo with identifier `id`, looking up the project it names first.
pub open spec fn saves_todo(op: Operation, p: TodoPopup) -> bool {
    match p.mode {
        TodoPopupMode::Create => exists|t: crate::models::NewTodo|
            describes_new(t, p) && op == (match t.project {
                Some(name) => Operation::FindProject { name, target: TodoTarget::New(t) },
                None => spec_continue(TodoTarget::New(t), None),
            }),
        TodoPopupMode::Edit(id) => exists|t: crate::models::TodoFormData|
            describes_form(t, p) && op == (match t.project {
                Some(name) => Operation::FindProject { name, target: TodoTarget::Existing(id, t) },
                None => spec_continue(TodoTarget::Existing(id, t), None),
            }),
    }
}

/// The todo dialog `q` after a key on `p`, and the operation `r` started.
pub open spec fn todo_popup_step(p: TodoPopup, key: KeyEvent, q: TodoPopup, r: Option<Operation>) -> bool {
    match key.code {
        KeyCode::Tab => q == (TodoPopup {
            focus: if key.modifiers.shift {
                spec_focus_previous(p.focus)
            } else {
                spec_focus_next(p.focus)
            },
            ..p
        }) && r is None,
        KeyCode::Enter => if p.focus == Focus::DueDate {
            q == (TodoPopup { due_date: Some(p.calendar_date), focus: Focus::Project, ..p })
                && r is None
        } else {
            &&& q == p
            &&& r matches Some(op) && saves_todo(op, p)
        },
        code => r is None && match p.focus {
            Focus::Todo => q == (TodoPopup { todo: q.todo, ..p }) && field_step(p.todo, key, q.todo),
            Focus::Info => q == (TodoPopup { info: q.info, ..p }) && if code == KeyCode::Left
                || code == KeyCode::Right {
                &&& editor_lines(q.info) == editor_lines(p.info)
                &&& editor_selecting(q.info) == editor_selecting(p.info)
                &&& editor_standard(q.info) == editor_standard(p.info)
                &&& editor_wf(q.info)
                &&& editor_wf(p.info) && editor_plain(p.info) ==> editor_cursor(q.info) == if code
                    == KeyCode::Left {
                    back_of(editor_lines(p.info), editor_cursor(p.info))
                } else {
                    forward_of(editor_lines(p.info), editor_cursor(p.info))
                }
            } else {
                exists|modified: bool| editor_input_effect(p.info, key, q.info, modified)
            },
            Focus::Status => q == (TodoPopup {
                status: match code {
                    KeyCode::Char('j') => spec_next(p.status),
                    KeyCode::Char('k') => spec_previous(p.status),
                    _ => p.status,
                },
                ..p
            }),
            Focus::DueDate => q == (TodoPopup { calendar_date: q.calendar_date, ..p })
                && calendar_step(p.calendar_date, code, q.calendar_date),
            Focus::Project => q == (TodoPopup { project: q.project, ..p }) && field_step(
                p.project,
                key,
                q.project,
            ),
        },
    }
}

/// The project dialog `q` after a key on `p`, and the operation `r` started.
pub open spec fn project_popup_step(p: ProjectPopup, key: KeyEvent, q: ProjectPopup, r: Option<Operation>) -> bool {
    match key.code {
        KeyCode::Enter => q == p && match p.mode {
            ProjectPopupMode::Create => r matches Some(Operation::WriteNewProject { new_project })
                && new_project.name@ == p.name.value@ && new_project.archived == p.archived,
            ProjectPopupMode::Edit(id) => r matches Some(
                Operation::FetchProject { project_id, changes: form },
            ) && project_id == id && form.name@ == p.name.value@ && form.archived == p.archived,
        },
        _ => r is None && q == (ProjectPopup { name: q.name, ..p }) && field_step(p.name, key, q.name),
    }
}

/// What a key does while a dialog is open.
pub open spec fn edit_step(a: App, key: KeyEvent, b: App, r: Option<Operation>) -> bool {
    if key.code == KeyCode::Esc {
        b == (App { dialog: None, ..a }) && r is None
    } else {
        match a.dialog {
            Some(Dialog::Todo(p)) => {
                &&& b == (App { dialog: b.dialog, ..a })
                &&& b.dialog matches Some(Dialog::Todo(q)) && todo_popup_step(p, key, q, r)
            },
            Some(Dialog::Project(p)) => {
                &&& b == (App { dialog: b.dialog, ..a })
                &&& b.dialog matches Some(Dialog::Project(q)) && project_popup_step(p, key, q, r)
            },
            Some(Dialog::Confirm(c)) => match key.code {
                KeyCode::Char('y') => b == a && r == Some(
                    match c.action {
                        ConfirmAction::DeleteTodo(id) => Operation::DeleteTodo { todo_id: id },
                        ConfirmAction::DeleteProject(id) => Operation::DeleteProject {
                            project_id: id,
                        },
                    },
                ),
                KeyCode::Char('n') => b == (App { dialog: None, ..a }) && r is None,
                _ => b == a && r is None,
            },
            None => b == a && r is None,
        }
    }
}

/// The table of `b` is that of `a` with the selection moved by `j` (down)
/// or `k` (up), wrapping around; nothing else changes.
pub open spec fn table_moved(a: App, b: App, down: bool) -> bool {
    let len = a.todo_table.items@.len();
    &&& b == (App { todo_table: b.todo_table, ..a })
    &&& b.todo_table.items == a.todo_table.items
    &&& if len == 0 {
        b.todo_table.state.selected is None && b.todo_table.state.offset == 0
    } else {
        b.todo_table.state.offset == a.todo_table.state.offset && b.todo_table.state.selected
            == Some(
            if down {
                wrap_down(a.todo_table.state.selected, len)
            } else {
                wrap_up(a.todo_table.state.selected, len)
            },
        )
    }
}

/// The project list of `b` is that of `a` with the selection moved by `j`
/// (down) or `k` (up); nothing else changes.
pub open spec fn projects_moved(a: App, b: App, down: bool) -> bool {
    let len = a.projects.items@.len();
    &&& b == (App { projects: b.projects, ..a })
    &&& b.projects.items == a.projects.items
    &&& if len == 0 {
        b.projects.state.selected is None && b.projects.state.offset == 0
    } else {
        b.projects.state.offset == a.projects.state.offset && b.projects.state.selected == if down {
            spec_step_down(a.projects.state.selected)
        } else {
            spec_step_up(a.projects.state.selected)
        }
    }
}

/// What a key does while no dialog is open.
pub open spec fn normal_step(a: App, key: KeyEvent, b: App, r: Option<Operation>) -> bool {
    match key.code {
        KeyCode::Char('h') => r is None && b == (if a.active_panel == ActivePanel::Todos {
            App { active_panel: ActivePanel::Projects, ..a }
        } else {
            a
        }),
        KeyCode::Char('l') => r is None && b == (if a.active_panel == ActivePanel::Projects {
            App { active_panel: ActivePanel::Todos, ..a }
        } else {
            a
        }),
        KeyCode::Esc | KeyCode::Char('q') => r is None && b == (App { should_quit: true, ..a }),
        code => match a.active_panel {
            ActivePanel::Todos => match code {
                KeyCode::Char('j') => r is None && table_moved(a, b, true),
                KeyCode::Char('k') => r is None && table_moved(a, b, false),
                KeyCode::Char(' ') => b == a && r == (match selected_id(
                    a.todo_table.items@,
                    a.todo_table.state.selected,
                ) {
                    Some(id) => Some(Operation::ToggleFetch { todo_id: id }),
                    None => None,
                }),
                KeyCode::Enter => r is None && match a.todo_table.state.selected {
                    Some(i) => opened_todo_editor(a, b, i),
                    None => b == a,
                },
                KeyCode::Char('a') => r is None && opened_new_todo(a, b),
                KeyCode::Char('d') => r is None && match a.todo_table.state.selected {
                    Some(i) => opened_todo_confirm(a, b, i),
                    None => b == a,
                },
                _ => r is None && b == a,
            },
            ActivePanel::Projects => match code {
                KeyCode::Char('j') => r is None && projects_moved(a, b, true),
                KeyCode::Char('k') => r is None && projects_moved(a, b, false),
                KeyCode::Enter => r is None && match a.projects.state.selected {
                    Some(i) => opened_project_editor(a, b, i),
                    None => b == a,
                },
                KeyCode::Char('a') => r is None && opened_new_project(a, b),
                KeyCode::Char('d') => r is None && match a.projects.state.selected {
                    Some(i) => opened_project_confirm(a, b, i),
                    None => b == a,
                },
                _ => r is None && b == a,
            },
        },
    }
}

/// What a key does: dialogs take the keys while one is open.
pub open spec fn update_step(a: App, key: KeyEvent, b: App, r: Option<Operation>) -> bool {
    if a.dialog is Some {
        edit_step(a, key, b, r)
    } else {
        normal_step(a, key, b, r)
    }
}

/// With no dialog open: `j` moves the selection of the active list one row
/// down and `k` one row up; the todo table wraps round at its ends, the
/// project list moves on from no selection to the first row (`j`) or to the
/// far end (`k`) and stops at the first row. Nothing else changes and no
/// operation starts. `h` and `l` pick the project and todo panels, and `q`
/// and Esc quit.
pub proof fn lemma_navigation_keys(a: App, key: KeyEvent, b: App, r: Option<Operation>, i: usize)
    requires
        update_step(a, key, b, r),
        a.dialog is None,
    ensures
        (key.code == KeyCode::Char('j') || key.code == KeyCode::Char('k')) ==> r is None
            && b.should_quit == a.should_quit && b.active_panel == a.active_panel
            && b.todo_filter == a.todo_filter && b.dialog is None,
        a.active_panel == ActivePanel::Projects && a.projects.items@.len() > 0 ==> {
            &&& key.code == KeyCode::Char('j') && a.projects.state.selected is None
                ==> b.projects.state.selected == Some(0usize)
            &&& key.code == KeyCode::Char('j') && a.projects.state.selected == Some(i) && i
                < usize::MAX ==> b.projects.state.selected == Some((i + 1) as usize)
            &&& key.code == KeyCode::Char('k') && a.projects.state.selected == Some(i) && i > 0
                ==> b.projects.state.selected == Some((i - 1) as usize)
            &&& key.code == KeyCode::Char('k') && a.projects.state.selected == Some(0usize)
                ==> b.projects.state.selected == Some(0usize)
            &&& key.code == KeyCode::Char('k') && a.projects.state.selected is None
                ==> b.projects.state.selected == Some(usize::MAX)
            &&& (key.code == KeyCode::Char('j') || key.code == KeyCode::Char('k')) ==> b.todo_table
                == a.todo_table && b.projects.items == a.projects.items
        },
        a.active_panel == ActivePanel::Todos && a.todo_table.items@.len() > 0 ==> {
            let len = a.todo_table.items@.len();
            &&& key.code == KeyCode::Char('j') && a.todo_table.state.selected == Some(i) && i + 1
                < len ==> b.todo_table.state.selected == Some((i + 1) as usize)
            &&& key.code == KeyCode::Char('j') && a.todo_table.state.selected == Some(i) && i + 1
                >= len ==> b.todo_table.state.selected == Some(0usize)
            &&& key.code == KeyCode::Char('j') && a.todo_table.state.selected is None
                ==> b.todo_table.state.selected == Some(0usize)
            &&& key.code == KeyCode::Char('k') && a.todo_table.state.selected == Some(i) && i > 0
                ==> b.todo_table.state.selected == Some((i - 1) as usize)
            &&& key.code == KeyCode::Char('k') && (a.todo_table.state.selected == Some(0usize)
                || a.todo_table.state.selected is None) ==> b.todo_table.state.selected == Some(
                (len - 1) as usize,
            )
            &&& (key.code == KeyCode::Char('j') || key.code == KeyCode::Char('k'))
                ==> b.projects == a.projects && b.todo_table.items == a.todo_table.items
        },
        key.code == KeyCode::Char('h') ==> r is None && b.active_panel == ActivePanel::Projects,
        key.code == KeyCode::Char('l') ==> r is None && b.active_panel == ActivePanel::Todos,
        (key.code == KeyCode::Char('q') || key.code == KeyCode::Esc) ==> r is None && b.should_quit,
{
}

/// A character typed without Ctrl and Alt into the description of the todo
/// dialog, while no selection is under way there, goes into the description
/// at the cursor, the cursor after it: the lines change, and the rest of the
/// state stays.
pub proof fn lemma_typing_reaches_description(
    a: App,
    key: KeyEvent,
    b: App,
    r: Option<Operation>,
    p: TodoPopup,
    c: char,
)
    requires
        update_step(a, key, b, r),
        a.dialog == Some(Dialog::Todo(p)),
        p.focus == Focus::Info,
        key.code == KeyCode::Char(c),
        !key.modifiers.control,
        !key.modifiers.alt,
        key.kind != crate::keys::KeyEventKind::Release,
        !editor_selecting(p.info),
        editor_wf(p.info),
    ensures
        r is None,
        b == (App { dialog: b.dialog, ..a }),
        b.dialog matches Some(Dialog::Todo(q)) && q == (TodoPopup { info: q.info, ..p }) && (
        editor_lines(q.info),
        editor_cursor(q.info),
        true,
        ) == typed_outcome(editor_lines(p.info), editor_cursor(p.info), c) && editor_lines(q.info)
            != editor_lines(p.info) && !editor_selecting(q.info),
{
    crate::textarea::lemma_typing_changes_lines(editor_lines(p.info), editor_cursor(p.info), c);
}

/// Whether a calendar key can be handled on `date`.
pub fn calendar_accepts(date: Date, code: KeyCode) -> (r: bool)
    ensures
        r == calendar_key_ok(date, code),
{
    match code {
        KeyCode::Char('p') => date.is_valid() && crate::date::can_go_to_prev_month(date),
        KeyCode::Char('n') => date.is_valid() && crate::date::can_go_to_next_month(date),
        KeyCode::Char('j') => date.is_valid() && crate::date::has_room_after(date, 7),
        KeyCode::Char('k') => date.is_valid() && crate::date::has_room_before(date, 7),
        KeyCode::Char('h') => date.is_valid() && crate::date::has_room_before(date, 1),
        KeyCode::Char('l') => date.is_valid() && crate::date::has_room_after(date, 1),
        _ => true,
    }
}

/// Whether a key can be handled without failing (see `update_defined`).
pub fn can_update(app: &App, key: KeyEvent) -> (r: bool)
    ensures
        r == update_defined(*app, key),
{
    if key.code == KeyCode::Esc {
        return true;
    }
    match &app.dialog {
        Some(Dialog::Todo(p)) => match key.code {
            KeyCode::Tab | KeyCode::Enter => true,
            _ => match p.focus {
                Focus::Todo => key.code == KeyCode::Left || key.code == KeyCode::Right
                    || p.todo.accepts(key),
                Focus::Project => key.code == KeyCode::Left || key.code == KeyCode::Right
                    || p.project.accepts(key),
                Focus::DueDate => calendar_accepts(p.calendar_date, key.code),
                _ => true,
            },
        },
        Some(Dialog::Project(p)) => key.code == KeyCode::Enter || key.code == KeyCode::Left
            || key.code == KeyCode::Right || p.name.accepts(key),
        _ => true,
    }
}

/// A key on a text input: left and right move the cursor, other keys are typed.
fn field_key(field: &mut StringField, key: KeyEvent)
    requires
        field_key_ok(*old(field), key),
    ensures
        field_step(*old(field), key, *final(field)),
        old(field).wf() ==> final(field).wf(),
{
    match key.code {
        KeyCode::Left => field.cursor_left(),
        KeyCode::Right => field.cursor_right(),
        _ => field.on_key_press(key),
    }
}

/// A key on the calendar of the todo dialog.
fn calendar_key(date: Date, code: KeyCode) -> (r: Date)
    requires
        calendar_key_ok(date, code),
    ensures
        calendar_step(date, code, r),
{
    match code {
        KeyCode::Char('p') => prev_month(date),
        KeyCode::Char('n') => next_month(date),
        KeyCode::Char('j') => move_down(date),
        KeyCode::Char('k') => move_up(date),
        KeyCode::Char('h') => move_left(date),
        KeyCode::Char('l') => move_right(date),
        _ => date,
    }
}

/// A key while the todo dialog is open: Tab moves the focus (back with
/// Shift), Enter picks the calendar date or saves, other keys go to the
/// focused input.
fn update_todo(app: &App, popup: &mut TodoPopup, key: KeyEvent) -> (r: Option<Operation>)
    requires
        todo_popup_key_ok(*old(popup), key),
    ensures
        todo_popup_step(*old(popup), key, *final(popup), r),
{
    match key.code {
        KeyCode::Tab => {
            if key.modifiers.shift {
                popup.focus_previous();
            } else {
                popup.focus_next();
            }
            None
        },
        KeyCode::Enter => match popup.focus {
            Focus::DueDate => {
                popup.due_date = Some(popup.calendar_date);
                popup.focus_next();
                None
            },
            _ => match popup.mode {
                TodoPopupMode::Create => {
                    let todo = popup.into_new_todo();
                    let ghost t = todo;
                    let op = app.create_todo(todo);
                    assert(describes_new(t, *popup));
                    Some(op)
                },
                TodoPopupMode::Edit(todo_id) => {
                    let form = popup.into_form_data();
                    let ghost t = form;
                    let op = app.update_todo(todo_id, form);
                    assert(describes_form(t, *popup));
                    Some(op)
                },
            },
        },
        code => {
            match popup.focus {
                Focus::Todo => field_key(&mut popup.todo, key),
                Focus::Info => match code {
                    KeyCode::Left => editor_move_cursor(&mut popup.info, CursorMotion::Back),
                    KeyCode::Right => editor_move_cursor(&mut popup.info, CursorMotion::Forward),
                    _ => {
                        let _modified = editor_input(&mut popup.info, key);
                    },
                },
                Focus::Status => match code {
                    KeyCode::Char('j') => popup.status = popup.status.next(),
                    KeyCode::Char('k') => popup.status = popup.status.previous(),
                    _ => {},
                },
                Focus::DueDate => popup.calendar_date = calendar_key(popup.calendar_date, code),
                Focus::Project => field_key(&mut popup.project, key),
            }
            None
        },
    }
}

/// A key while the project dialog is open: Enter saves, other keys go to
/// the name.
fn update_project(app: &App, popup: &mut ProjectPopup, key: KeyEvent) -> (r: Option<Operation>)
    requires
        key.code == KeyCode::Enter || field_key_ok(old(popup).name, key),
    ensures
        project_popup_step(*old(popup), key, *final(popup), r),
{
    match key.code {
        KeyCode::Enter => match popup.mode {
            ProjectPopupMode::Create => {
                let project = NewProject {
                    name: popup.name.value.clone(),
                    archived: popup.archived,
                };
                Some(app.create_project(project))
            },
            ProjectPopupMode::Edit(project_id) => Some(
                app.update_project(project_id, popup.into_form_data()),
            ),
        },
        _ => {
            field_key(&mut popup.name, key);
            None
        },
    }
}

/// A key while a dialog is open: Esc closes it, other keys go to it.
fn update_edit(app: &mut App, key: KeyEvent) -> (r: Option<Operation>)
    requires
        old(app).dialog is Some,
        update_defined(*old(app), key),
    ensures
        edit_step(*old(app), key, *final(app), r),
{
    if key.code == KeyCode::Esc {
        app.close_dialog();
        return None;
    }
    let dialog = app.dialog.take();
    match dialog {
        Some(Dialog::Todo(mut popup)) => {
            let r = update_todo(app, &mut popup, key);
            app.dialog = Some(Dialog::Todo(popup));
            r
        },
        Some(Dialog::Project(mut popup)) => {
            let r = update_project(app, &mut popup, key);
            app.dialog = Some(Dialog::Project(popup));
            r
        },
        Some(Dialog::Confirm(popup)) => {
            let action = popup.action;
            app.dialog = Some(Dialog::Confirm(popup));
            match key.code {
                KeyCode::Char('y') => match action {
                    ConfirmAction::DeleteTodo(todo_id) => Some(app.delete_todo(todo_id)),
                    ConfirmAction::DeleteProject(project_id) => Some(app.delete_project(project_id)),
                },
                KeyCode::Char('n') => {
                    app.close_dialog();
                    None
                },
                _ => None,
            }
        },
        None => None,
    }
}

/// A key while no dialog is open: `h`/`l` pick the panel, `q` or Esc quit,
/// and the active panel takes the other keys.
fn update_normal(app: &mut App, key: KeyEvent) -> (r: Option<Operation>)
    requires
        old(app).dialog is None,
    ensures
        normal_step(*old(app), key, *final(app), r),
{
    match key.code {
        KeyCode::Char('h') => {
            if app.active_panel == ActivePanel::Todos {
                app.active_panel = ActivePanel::Projects
            }
            None
        },
        KeyCode::Char('l') => {
            if app.active_panel == ActivePanel::Projects {
                app.active_panel = ActivePanel::Todos
            }
            None
        },
        KeyCode::Esc | KeyCode::Char('q') => {
            app.quit();
            None
        },
        code => match app.active_panel {
            ActivePanel::Todos => match code {
                KeyCode::Char('j') => {
                    app.todo_table.select_next();
                    None
                },
                KeyCode::Char('k') => {
                    app.todo_table.select_previous();
                    None
                },
                KeyCode::Char(' ') => match app.todo_table.selected_todo_id() {
                    Some(todo_id) => Some(app.toggle_status_todo(todo_id)),
                    None => None,
                },
                KeyCode::Enter => {
                    if let Some(index) = app.todo_table.state.selected() {
                        app.edit_todo(index);
                    }
                    None
                },
                KeyCode::Char('a') => {
                    app.add_todo();
                    None
                },
                KeyCode::Char('d') => {
                    if let Some(index) = app.todo_table.state.selected() {
                        app.confirm_delete_todo(index);
                    }
                    None
                },
                _ => None,
            },
            ActivePanel::Projects => match code {
                KeyCode::Char('j') => {
                    app.projects.select_next();
                    None
                },
                KeyCode::Char('k') => {
                    app.projects.select_previous();
                    None
                },
                KeyCode::Enter => {
                    if let Some(index) = app.projects.state.selected() {
                        app.edit_project(index);
                    }
                    None
                },
                KeyCode::Char('a') => {
                    app.add_project();
                    None
                },
                KeyCode::Char('d') => {
                    if let Some(index) = app.projects.state.selected() {
                        app.confirm_delete_project(index);
                    }
                    None
                },
                _ => None,
            },
        },
    }
}

/// Handles a key: while a dialog is open it takes the keys, otherwise the
/// panels do. Returns the operation against the todo store that the key
/// started, if any.
pub fn update(app: &mut App, key_event: KeyEvent) -> (r: Option<Operation>)
    requires
        update_defined(*old(app), key_event),
    ensures
        update_step(*old(app), key_event, *final(app), r),
{
    if app.dialog.is_some() {
        update_edit(app, key_event)
    } else {
        update_normal(app, key_event)
    }
}

} // verus!
