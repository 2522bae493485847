use vstd::prelude::*;
use crate::confirm_popup::{ConfirmAction, ConfirmChoice, ConfirmPopup};
use crate::models::{Project, ProjectId, Todo, TodoId};
use crate::project_list::{ProjectList, ProjectListItem, project_at, project_items, project_rows};
use crate::project_popup::{Focus as ProjectFocus, ProjectPopup, ProjectPopupMode};
use crate::text::utf8_bytes;
use crate::todo_list::first_with_id;
use crate::todo_popup::TodoPopup;
use crate::todo_table::{TodoTable, initial_selection};

verus! {

/// The panel that keys act on when no dialog is open.
#[derive(Debug, Clone, Copy, PartialEq, Eq, Structural)]
pub enum ActivePanel {
    Todos,
    Projects,
}

/// Which todos the table shows: those of one project, or all.
#[derive(Debug, Clone, Copy, PartialEq, Eq, Structural)]
pub struct TodoFilter {
    pub project_id: Option<i64>,
}

/// The dialog open over the panels.
#[derive(Debug)]
pub enum Dialog {
    Confirm(ConfirmPopup),
    Todo(TodoPopup),
    Project(ProjectPopup),
}

/// The state of the todo manager.
#[derive(Debug)]
pub struct App {
    pub should_quit: bool,
    pub active_panel: ActivePanel,
    pub todo_table: TodoTable,
    pub projects: ProjectList,
    pub todo_filter: TodoFilter,
    pub dialog: Option<Dialog>,
    pub error_message: Option<String>,
}

/// Whether a todo passes the filter.
pub open spec fn passes(t: Todo, filter: TodoFilter) -> bool {
    match filter.project_id {
        None => true,
        Some(p) => t.project_id == Some(p),
    }
}

/// The todos that pass the filter, in order.
pub open spec fn filtered(todos: Seq<Todo>, filter: TodoFilter) -> Seq<Todo> {
    todos.filter(|t: Todo| passes(t, filter))
}

/// Filtering by a project keeps exactly that project's todos, in their
/// order: nothing passes an empty list; a todo added at the end passes
/// exactly when it belongs to the project; every kept todo belongs to the
/// project and comes from the list, and every todo of the project is kept.
/// With no project chosen every todo is kept.
pub proof fn lemma_project_filter(todos: Seq<Todo>, x: Todo, p: i64)
    ensures
        filtered(Seq::<Todo>::empty(), TodoFilter { project_id: Some(p) }) == Seq::<Todo>::empty(),
        filtered(todos.push(x), TodoFilter { project_id: Some(p) }) == if x.project_id == Some(p) {
            filtered(todos, TodoFilter { project_id: Some(p) }).push(x)
        } else {
            filtered(todos, TodoFilter { project_id: Some(p) })
        },
        forall|i: int|
            0 <= i < filtered(todos, TodoFilter { project_id: Some(p) }).len() ==> (#[trigger] filtered(
                todos,
                TodoFilter { project_id: Some(p) },
            )[i]).project_id == Some(p) && todos.contains(
                filtered(todos, TodoFilter { project_id: Some(p) })[i],
            ),
        forall|i: int|
            0 <= i < todos.len() && (#[trigger] todos[i]).project_id == Some(p) ==> filtered(
                todos,
                TodoFilter { project_id: Some(p) },
            ).contains(todos[i]),
        filtered(todos, TodoFilter { project_id: None }) == todos,
{
    let f = TodoFilter { project_id: Some(p) };
    let pred = |t: Todo| passes(t, f);
    reveal_with_fuel(Seq::filter, 1);
    todos.lemma_filter_push(x, pred);
    assert forall|i: int| 0 <= i < filtered(todos, f).len() implies (#[trigger] filtered(
        todos,
        f,
    )[i]).project_id == Some(p) && todos.contains(filtered(todos, f)[i]) by {
        todos.lemma_filter_pred(pred, i);
        todos.lemma_filter_contains_rev(pred, filtered(todos, f)[i]);
    }
    assert forall|i: int| 0 <= i < todos.len() && (#[trigger] todos[i]).project_id == Some(p) implies filtered(
        todos,
        f,
    ).contains(todos[i]) by {
        todos.lemma_filter_contains(pred, i);
    }
    lemma_no_filter_keeps_all(todos);
}

/// With no project chosen, filtering keeps the list as it is.
proof fn lemma_no_filter_keeps_all(todos: Seq<Todo>)
    ensures
        filtered(todos, TodoFilter { project_id: None }) == todos,
    decreases todos.len(),
{
    let f = TodoFilter { project_id: None };
    if todos.len() > 0 {
        let rest = todos.drop_last();
        lemma_no_filter_keeps_all(rest);
        rest.lemma_filter_push(todos.last(), |t: Todo| passes(t, f));
        assert(rest.push(todos.last()) == todos);
    } else {
        reveal_with_fuel(Seq::filter, 1);
    }
}

/// The first position of a todo with identifier `id`, if any.
pub open spec fn first_position(items: Seq<Todo>, id: i64) -> Option<int> {
    if exists|i: int| first_with_id(items, id, i) {
        Some(choose|i: int| first_with_id(items, id, i))
    } else {
        None
    }
}

/// The identifier of the todo on the selected row, if a row within the
/// table is selected.
pub open spec fn selected_id(items: Seq<Todo>, selected: Option<usize>) -> Option<i64> {
    match selected {
        Some(i) if i < items.len() => Some(items[i as int].id),
        _ => None,
    }
}

/// The selection after the table's todos are replaced by `new_items`: the
/// row of the todo that was selected if it is still there, otherwise the
/// first row, or none when the table is empty.
pub open spec fn kept_selection(
    old_items: Seq<Todo>,
    old_selected: Option<usize>,
    new_items: Seq<Todo>,
) -> Option<usize> {
    match selected_id(old_items, old_selected) {
        Some(id) if first_position(new_items, id) is Some => Some(
            first_position(new_items, id)->0 as usize,
        ),
        _ => initial_selection(new_items.len()),
    }
}

/// The first todo with identifier `id`, if any, is at `i`: the positions
/// of `first_with_id` agree.
proof fn lemma_first_position(items: Seq<Todo>, id: i64, i: int)
    requires
        first_with_id(items, id, i),
    ensures
        first_position(items, id) == Some(i),
{
    let j = choose|j: int| first_with_id(items, id, j);
    assert(first_with_id(items, id, j));
    if j < i {
        assert(items[j].id == id);
    } else if i < j {
        assert(items[i].id == id);
    }
}

/// When some todo has identifier `id`, a first one has.
proof fn lemma_first_exists(items: Seq<Todo>, id: i64, j: int)
    requires
        0 <= j < items.len(),
        items[j].id == id,
    ensures
        exists|i: int| first_with_id(items, id, i),
    decreases j,
{
    if exists|k: int| 0 <= k < j && items[k].id == id {
        let k = choose|k: int| 0 <= k < j && items[k].id == id;
        lemma_first_exists(items, id, k);
    } else {
        assert(first_with_id(items, id, j));
    }
}

/// Reloading the table keeps the selected todo selected when it is still
/// shown, and otherwise selects the first row, or none when nothing is shown.
pub proof fn lemma_reload_keeps_selected_todo(
    old_items: Seq<Todo>,
    old_selected: Option<usize>,
    new_items: Seq<Todo>,
)
    requires
        new_items.len() <= usize::MAX,
    ensures
        ({
            let k = kept_selection(old_items, old_selected, new_items);
            &&& (selected_id(old_items, old_selected) matches Some(id) && exists|j: int|
                0 <= j < new_items.len() && new_items[j].id == id) ==> selected_id(new_items, k)
                == selected_id(old_items, old_selected)
            &&& new_items.len() == 0 <==> k is None
            &&& k matches Some(i) ==> i < new_items.len()
        }),
{
    if let Some(id) = selected_id(old_items, old_selected) {
        if exists|j: int| 0 <= j < new_items.len() && new_items[j].id == id {
            let j = choose|j: int| 0 <= j < new_items.len() && new_items[j].id == id;
            lemma_first_exists(new_items, id, j);
        }
        if let Some(i) = first_position(new_items, id) {
            assert(first_with_id(new_items, id, i));
        }
    }
}

/// The todos that pass the filter, in order.
pub fn filter_todos(todos: Vec<Todo>, filter: &TodoFilter) -> (r: Vec<Todo>)
    ensures
        r@ == filtered(todos@, *filter),
{
    let mut r: Vec<Todo> = Vec::new();
    let mut i: usize = 0;
    while i < todos.len()
        invariant
            i <= todos@.len(),
            r@ == filtered(todos@.take(i as int), *filter),
        decreases todos@.len() - i,
    {
        assert(todos@.take(i + 1).drop_last() == todos@.take(i as int));
        proof { reveal_with_fuel(Seq::filter, 1); }
        let keep = match filter.project_id {
            None => true,
            Some(p) => todos[i].project_id == Some(p),
        };
        if keep {
            r.push(todos[i].duplicate());
        }
        i = i + 1;
    }
    assert(todos@.take(todos@.len() as int) == todos@);
    r
}

/// The position of the first todo with identifier `id`, if any.
fn position_of(items: &Vec<Todo>, id: i64) -> (r: Option<usize>)
    ensures
        match r {
            Some(i) => first_position(items@, id) == Some(i as int),
            None => first_position(items@, id) is None,
        },
{
    let mut i: usize = 0;
    while i < items.len()
        invariant
            i <= items@.len(),
            forall|j: int| 0 <= j < i ==> items@[j].id != id,
        decreases items@.len() - i,
    {
        if items[i].id == id {
            proof { lemma_first_position(items@, id, i as int); }
            return Some(i);
        }
        i = i + 1;
    }
    proof {
        if exists|j: int| first_with_id(items@, id, j) {
            let j = choose|j: int| first_with_id(items@, id, j);
            assert(items@[j].id == id);
        }
    }
    None
}

/// Only the dialog differs between `a` and `b`.
pub open spec fn only_dialog_changed(a: App, b: App) -> bool {
    b == (App { dialog: b.dialog, ..a })
}

/// `b` is `a` with the dialog for a new todo open.
pub open spec fn opened_new_todo(a: App, b: App) -> bool {
    &&& only_dialog_changed(a, b)
    &&& b.dialog matches Some(Dialog::Todo(p)) && p.is_fresh(p.calendar_date)
        && p.calendar_date.valid() && p.todo.wf() && p.project.wf()
}

/// `b` is `a` with the dialog open that edits the todo at `index`, or
/// `a` itself when there is no todo there.
pub open spec fn opened_todo_editor(a: App, b: App, index: usize) -> bool {
    if index < a.todo_table.items@.len() {
        let todo = a.todo_table.items@[index as int];
        &&& only_dialog_changed(a, b)
        &&& b.dialog matches Some(Dialog::Todo(p)) && p.shows(todo, p.calendar_date) && p.todo.wf()
            && p.project.wf() && (todo.due_date is None ==> p.calendar_date.valid())
    } else {
        b == a
    }
}

/// `b` is `a` with the dialog open that asks to confirm deleting the todo
/// at `index`, or `a` itself when there is no todo there.
pub open spec fn opened_todo_confirm(a: App, b: App, index: usize) -> bool {
    if index < a.todo_table.items@.len() {
        let todo = a.todo_table.items@[index as int];
        &&& only_dialog_changed(a, b)
        &&& b.dialog matches Some(Dialog::Confirm(c)) && c.title@ == "Delete todo"@ && c.message@
            == "Delete task \""@ + todo.todo@ + "\"?"@ && c.action == ConfirmAction::DeleteTodo(todo.id)
            && c.selected == ConfirmChoice::No
    } else {
        b == a
    }
}

/// `b` is `a` with the dialog for a new project open.
pub open spec fn opened_new_project(a: App, b: App) -> bool {
    &&& only_dialog_changed(a, b)
    &&& b.dialog matches Some(Dialog::Project(p)) && p.mode == ProjectPopupMode::Create && p.id is None
        && p.name.label@ == "Name"@ && p.name.value@.len() == 0 && p.name.cursor == 0
        && p.name.wf() && !p.archived && p.focus == ProjectFocus::Name
}

/// `b` is `a` with the dialog open that edits the project on row `index`,
/// or `a` itself for the entry of all todos or a row outside the list.
pub open spec fn opened_project_editor(a: App, b: App, index: usize) -> bool {
    match project_at(a.projects.items@, index as int) {
        Some(project) => {
            &&& only_dialog_changed(a, b)
            &&& b.dialog matches Some(Dialog::Project(p)) && p.mode == ProjectPopupMode::Edit(
                project.id,
            ) && p.id == Some(project.id) && p.name.label@ == "Name"@ && p.name.value
                == project.name && p.name.cursor == utf8_bytes(project.name@).len() && p.name.wf()
                && p.archived == project.archived && p.focus == ProjectFocus::Name
        },
        None => b == a,
    }
}

/// `b` is `a` with the dialog open that asks to confirm deleting the
/// project on row `index`, or `a` itself for the entry of all todos or a
/// row outside the list.
pub open spec fn opened_project_confirm(a: App, b: App, index: usize) -> bool {
    match project_at(a.projects.items@, index as int) {
        Some(project) => {
            &&& only_dialog_changed(a, b)
            &&& b.dialog matches Some(Dialog::Confirm(c)) && c.title@ == "Delete project"@
                && c.message@ == "Delete project\""@ + project.name@ + "\"?"@ && c.action
                == ConfirmAction::DeleteProject(project.id) && c.selected == ConfirmChoice::No
        },
        None => b == a,
    }
}

impl TodoFilter {
    /// The filter that lets every todo pass.
    pub fn default() -> (r: Self)
        ensures
            r.project_id is None,
    {
        TodoFilter { project_id: None }
    }
}

impl App {
    /// The start of the todo manager showing the given todos and projects:
    /// every todo shown with the first one selected, the entry of all todos
    /// selected among the projects, no dialog.
    pub fn new(todos: Vec<Todo>, projects: Vec<Project>) -> (r: Self)
        ensures
            !r.should_quit,
            r.active_panel == ActivePanel::Todos,
            r.todo_table.items == todos,
            r.todo_table.state.selected == initial_selection(todos@.len()),
            r.todo_table.state.offset == 0,
            r.projects.items@ == project_rows(projects@),
            r.projects.state.selected == Some(0usize),
            r.projects.state.offset == 0,
            r.todo_filter.project_id is None,
            r.dialog is None,
            r.error_message is None,
    {
        let todo_filter = TodoFilter::default();
        let project_list = ProjectList::new(project_items(projects));
        Self {
            should_quit: false,
            active_panel: ActivePanel::Todos,
            projects: project_list,
            todo_filter,
            dialog: None,
            error_message: None,
            todo_table: TodoTable::new(todos),
        }
    }

    /// Handles the tick event of the terminal: nothing changes.
    pub fn tick(&self) {
    }

    /// Asks the todo manager to quit.
    pub fn quit(&mut self)
        ensures
            *final(self) == (App { should_quit: true, ..*old(self) }),
    {
        self.should_quit = true;
    }

    /// Opens the dialog for a new todo.
    pub fn add_todo(&mut self)
        ensures
            opened_new_todo(*old(self), *final(self)),
    {
        self.dialog = Some(Dialog::Todo(TodoPopup::new()));
    }

    /// Opens the dialog that edits the todo at `index`; nothing happens when
    /// there is no todo there.
    pub fn edit_todo(&mut self, index: usize)
        ensures
            opened_todo_editor(*old(self), *final(self), index),
    {
        if index < self.todo_table.items.len() {
            let popup = TodoPopup::from_todo(&self.todo_table.items[index]);
            self.dialog = Some(Dialog::Todo(popup));
        }
    }

    /// Opens the dialog that asks to confirm deleting the todo at `index`;
    /// nothing happens when there is no todo there.
    pub fn confirm_delete_todo(&mut self, index: usize)
        ensures
            opened_todo_confirm(*old(self), *final(self), index),
    {
        if index < self.todo_table.items.len() {
            let todo = &self.todo_table.items[index];
            let mut message = String::from_str("Delete task \"");
            message.append(todo.todo.as_str());
            message.append("\"?");
            let popup = ConfirmPopup {
                title: String::from_str("Delete todo"),
                message,
                action: ConfirmAction::DeleteTodo(todo.id),
                selected: ConfirmChoice::No,
            };
            self.dialog = Some(Dialog::Confirm(popup));
        }
    }

    /// Opens the dialog for a new project.
    pub fn add_project(&mut self)
        ensures
            opened_new_project(*old(self), *final(self)),
    {
        self.dialog = Some(Dialog::Project(ProjectPopup::new()));
    }

    /// Opens the dialog that edits the project on row `index`; nothing
    /// happens for the entry of all todos or outside the list.
    pub fn edit_project(&mut self, index: usize)
        ensures
            opened_project_editor(*old(self), *final(self), index),
    {
        if index < self.projects.items.len() {
            match &self.projects.items[index] {
                ProjectListItem::Project(project) => {
                    let popup = ProjectPopup::from_project(project);
                    self.dialog = Some(Dialog::Project(popup));
                },
                ProjectListItem::All => {},
            }
        }
    }

    /// Opens the dialog that asks to confirm deleting the project on row
    /// `index`; nothing happens for the entry of all todos or outside the list.
    pub fn confirm_delete_project(&mut self, index: usize)
        ensures
            opened_project_confirm(*old(self), *final(self), index),
    {
        if index < self.projects.items.len() {
            match &self.projects.items[index] {
                ProjectListItem::Project(project) => {
                    let mut message = String::from_str("Delete project\"");
                    message.append(project.name.as_str());
                    message.append("\"?");
                    let popup = ConfirmPopup {
                        title: String::from_str("Delete project"),
                        message,
                        action: ConfirmAction::DeleteProject(project.id),
                        selected: ConfirmChoice::No,
                    };
                    self.dialog = Some(Dialog::Confirm(popup));
                },
                ProjectListItem::All => {},
            }
        }
    }

    /// Closes the open dialog, if any.
    pub fn close_dialog(&mut self)
        ensures
            *final(self) == (App { dialog: None, ..*old(self) }),
    {
        self.dialog = None;
    }

    /// Shows the given projects after the entry for all todos.
    pub fn reload_projects(&mut self, projects: Vec<Project>)
        ensures
            final(self).projects.items@ == project_rows(projects@),
            final(self).projects.state == old(self).projects.state,
            final(self).should_quit == old(self).should_quit,
            final(self).active_panel == old(self).active_panel,
            final(self).todo_table == old(self).todo_table,
            final(self).todo_filter == old(self).todo_filter,
            final(self).dialog == old(self).dialog,
            final(self).error_message == old(self).error_message,
    {
        self.projects.replace_projects(projects);
    }

    /// Shows those of the given todos that pass the filter; the todo that
    /// was selected stays selected if it is still shown, otherwise the first
    /// row is selected.
    pub fn reload_todos(&mut self, todos: Vec<Todo>)
        ensures
            final(self).todo_table.items@ == filtered(todos@, old(self).todo_filter),
            final(self).todo_table.state.selected == kept_selection(
                old(self).todo_table.items@,
                old(self).todo_table.state.selected,
                filtered(todos@, old(self).todo_filter),
            ),
            final(self).todo_table.state.offset == (if final(self).todo_table.state.selected is None {
                0
            } else {
                old(self).todo_table.state.offset
            }),
            final(self).should_quit == old(self).should_quit,
            final(self).active_panel == old(self).active_panel,
            final(self).projects == old(self).projects,
            final(self).todo_filter == old(self).todo_filter,
            final(self).dialog == old(self).dialog,
            final(self).error_message == old(self).error_message,
    {
        let selected = self.todo_table.selected_todo_id();
        let items = filter_todos(todos, &self.todo_filter);
        self.todo_table.items = items;
        let found = match selected {
            Some(id) => position_of(&self.todo_table.items, id),
            None => None,
        };
        let index = match found {
            Some(i) => Some(i),
            None => if self.todo_table.items.len() == 0 {
                None
            } else {
                Some(0)
            },
        };
        self.todo_table.state.select(index);
    }

    /// Shows the todos of one project, or all todos; the selection stays.
    pub fn select_project(&mut self, project_id: Option<ProjectId>, todos: Vec<Todo>)
        ensures
            final(self).todo_filter.project_id == project_id,
            final(self).todo_table.items@ == filtered(todos@, TodoFilter { project_id }),
            final(self).todo_table.state == old(self).todo_table.state,
            final(self).should_quit == old(self).should_quit,
            final(self).active_panel == old(self).active_panel,
            final(self).projects == old(self).projects,
            final(self).dialog == old(self).dialog,
            final(self).error_message == old(self).error_message,
    {
        self.todo_filter.project_id = project_id;
        self.todo_table.items = filter_todos(todos, &self.todo_filter);
    }

    /// The identifier of the first project in the list with the given name.
    pub fn find_project_id(&self, project_name: &str) -> (r: Option<i64>)
        ensures
            match r {
                Some(id) => exists|i: int|
                    #![trigger project_at(self.projects.items@, i)]
                    named_at(self.projects.items@, i, project_name@) && project_at(
                        self.projects.items@,
                        i,
                    )->0.id == id && forall|j: int|
                        0 <= j < i ==> !named_at(self.projects.items@, j, project_name@),
                None => forall|i: int| !named_at(self.projects.items@, i, project_name@),
            },
    {
        let mut i: usize = 0;
        while i < self.projects.items.len()
            invariant
                i <= self.projects.items@.len(),
                forall|j: int| 0 <= j < i ==> !named_at(self.projects.items@, j, project_name@),
            decreases self.projects.items@.len() - i,
        {
            match &self.projects.items[i] {
                ProjectListItem::Project(p) => {
                    if crate::status::str_eq(p.name.as_str(), project_name) {
                        assert(project_at(self.projects.items@, i as int) == Some(*p));
                        return Some(p.id);
                    }
                },
                ProjectListItem::All => {},
            }
            i = i + 1;
        }
        None
    }
}

/// Whether row `i` of the project list is a project named `name`.
pub open spec fn named_at(items: Seq<ProjectListItem>, i: int, name: Seq<char>) -> bool {
    project_at(items, i) matches Some(p) && p.name@ == name
}

} // verus!
