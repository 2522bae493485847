use vstd::prelude::*;
use crate::app::{ActivePanel, App, TodoFilter, filtered, kept_selection};
use crate::date::{Date, local_today};
use crate::models::{
    NewProject, NewTodo, NewTodoRecord, Project, ProjectFormData, ProjectId, Todo, TodoFormData,
    TodoId, TodoRecord,
};
use crate::project_list::project_rows;
use crate::status::{Status, spec_next};
use crate::todo_table::{TodoTable, initial_selection};

verus! {

/// A request to the todo store.
#[derive(Debug)]
pub enum Request {
    /// The todo with this identifier.
    GetTodo(TodoId),
    /// Set the status and the completion date of a todo.
    UpdateTodoStatus(TodoId, Status, Option<Date>),
    DeleteTodo(TodoId),
    DeleteProject(ProjectId),
    /// The identifier of the project with this name, if any.
    FindProjectByName(String),
    /// Create a project and answer it.
    CreateProject(NewProject),
    CreateTodo(NewTodoRecord),
    UpdateTodo(TodoRecord),
    /// The project with this identifier.
    GetProject(ProjectId),
    UpdateProject(Project),
    /// All todos, each with the name of its project.
    ListTodos,
    /// All projects.
    ListProjects,
}

/// The answer of the todo store to a request.
#[derive(Debug)]
pub enum Response {
    /// The change was made.
    Done,
    Todo(Todo),
    Project(Project),
    ProjectFound(Option<ProjectId>),
    Todos(Vec<Todo>),
    Projects(Vec<Project>),
    /// The store refused the request, with this message.
    Failed(String),
}

/// The todo that a todo dialog saves: a new one or an existing one.
#[derive(Debug)]
pub enum TodoTarget {
    New(NewTodo),
    Existing(TodoId, TodoFormData),
}

/// An operation against the todo store that a key started, at the point
/// where it waits for the answer to its next request.
#[derive(Debug)]
pub enum Operation {
    /// Toggling a todo's status: its current state is asked for.
    ToggleFetch { todo_id: TodoId },
    /// Toggling a todo's status: the new status is written.
    ToggleWrite { todo_id: TodoId, status: Status, completed_at: Option<Date> },
    /// Toggling a todo's status: the todos are read again.
    ToggleReload,
    DeleteTodo { todo_id: TodoId },
    DeleteProject { project_id: ProjectId },
    /// After a project was deleted: the projects are read again.
    ReloadProjectsAfterDelete,
    /// The todos are read again, then the dialog closes.
    ReloadTodosAndClose,
    /// Saving a todo: the project it names is looked up.
    FindProject { name: String, target: TodoTarget },
    /// Saving a todo: the project it names does not exist and is created.
    CreateProjectFor { name: String, target: TodoTarget },
    WriteNewTodo { new_record: NewTodoRecord },
    /// Saving an existing todo: its stored state is asked for.
    FetchForUpdate { todo_id: TodoId, form: TodoFormData, project: Option<ProjectId> },
    WriteTodoUpdate { record: TodoRecord },
    /// After a todo was saved: the todos are read again.
    ReloadTodosThenProjects,
    /// The projects are read again, then the dialog closes.
    ReloadProjectsAndClose { show_todos: bool },
    WriteNewProject { new_project: NewProject },
    /// Saving an existing project: its stored state is asked for.
    FetchProject { project_id: ProjectId, changes: ProjectFormData },
    WriteProjectUpdate { updated: Project },
}

/// The completion date of a todo whose status changes from `from` to `to`:
/// today when it becomes done, none when it stops being done, otherwise
/// the date it had.
pub open spec fn completion(from: Status, to: Status, had: Option<Date>, today: Date) -> Option<
    Date,
> {
    match (from, to) {
        (Status::ToDo, Status::Done) => Some(today),
        (Status::InProgress, Status::Done) => Some(today),
        (Status::Done, Status::InProgress) => None,
        (Status::Done, Status::ToDo) => None,
        _ => had,
    }
}

/// The completion date of a todo whose status changes from `from` to `to`.
pub fn completion_date(from: Status, to: Status, had: Option<Date>, today: Date) -> (r: Option<Date>)
    ensures
        r == completion(from, to, had, today),
{
    match (from, to) {
        (Status::ToDo, Status::Done) => Some(today),
        (Status::InProgress, Status::Done) => Some(today),
        (Status::Done, Status::InProgress) => None,
        (Status::Done, Status::ToDo) => None,
        _ => had,
    }
}

/// How saving a todo goes on once its project is known.
pub open spec fn spec_continue(target: TodoTarget, project_id: Option<ProjectId>) -> Operation {
    match target {
        TodoTarget::New(t) => Operation::WriteNewTodo {
            new_record: NewTodoRecord {
                todo: t.todo,
                info: t.info,
                status: t.status,
                project_id,
                due_date: t.due_date,
                completed_at: None,
            },
        },
        TodoTarget::Existing(todo_id, form) => Operation::FetchForUpdate { todo_id, form, project: project_id },
    }
}

/// How saving a todo goes on once its project is known.
fn continue_with(target: TodoTarget, project_id: Option<ProjectId>) -> (r: Operation)
    ensures
        r == spec_continue(target, project_id),
{
    match target {
        TodoTarget::New(t) => Operation::WriteNewTodo {
            new_record: NewTodoRecord {
                todo: t.todo,
                info: t.info,
                status: t.status,
                project_id,
                due_date: t.due_date,
                completed_at: None,
            },
        },
        TodoTarget::Existing(todo_id, form) => Operation::FetchForUpdate { todo_id, form, project: project_id },
    }
}

/// The table `t` shows those of `todos` that pass the filter of `a`, with
/// the first row selected.
pub open spec fn table_fresh(a: App, t: TodoTable, todos: Seq<Todo>) -> bool {
    &&& t.items@ == filtered(todos, a.todo_filter)
    &&& t.state.selected == initial_selection(t.items@.len())
    &&& t.state.offset == 0
}

/// The table `t` shows those of `todos` that pass the filter of `a`, with
/// the todo selected in `a` still selected if it is shown.
pub open spec fn table_reloaded(a: App, t: TodoTable, todos: Seq<Todo>) -> bool {
    &&& t.items@ == filtered(todos, a.todo_filter)
    &&& t.state.selected == kept_selection(
        a.todo_table.items@,
        a.todo_table.state.selected,
        t.items@,
    )
    &&& t.state.offset == (if t.state.selected is None {
        0
    } else {
        a.todo_table.state.offset
    })
}

/// What answering the operation `op` with `resp` (not a refusal) does:
/// `b` is the state after `a`, `r` the operation that follows, if any.
/// An answer of the wrong kind ends the operation and changes nothing.
pub open spec fn step(op: Operation, a: App, resp: Response, today: Date, b: App, r: Option<Operation>) -> bool {
    match (op, resp) {
        (Operation::ToggleFetch { .. }, Response::Todo(t)) => b == a && r == Some(
            Operation::ToggleWrite {
                todo_id: t.id,
                status: spec_next(t.status),
                completed_at: completion(t.status, spec_next(t.status), t.completed_at, today),
            },
        ),
        (Operation::ToggleWrite { .. }, Response::Done) => b == a && r == Some(
            Operation::ToggleReload,
        ),
        (Operation::ToggleReload, Response::Todos(v)) => table_fresh(a, b.todo_table, v@) && b
            == (App { todo_table: b.todo_table, active_panel: ActivePanel::Todos, ..a }) && r is None,
        (Operation::DeleteTodo { .. }, Response::Done) => b == a && r == Some(
            Operation::ReloadTodosAndClose,
        ),
        (Operation::DeleteProject { .. }, Response::Done) => b == a && r == Some(
            Operation::ReloadProjectsAfterDelete,
        ),
        (Operation::ReloadProjectsAfterDelete, Response::Projects(v)) => b.projects.items@
            == project_rows(v@) && b.projects.state.selected == Some(0usize)
            && b.projects.state.offset == a.projects.state.offset && b == (App {
            projects: b.projects,
            todo_filter: TodoFilter { project_id: None },
            ..a
        }) && r == Some(Operation::ReloadTodosAndClose),
        (Operation::ReloadTodosAndClose, Response::Todos(v)) => table_reloaded(a, b.todo_table, v@)
            && b == (App {
            todo_table: b.todo_table,
            dialog: None,
            error_message: None,
            ..a
        }) && r is None,
        (Operation::FindProject { name, target }, Response::ProjectFound(found)) => b == a && r
            == Some(
            match found {
                Some(id) => spec_continue(target, Some(id)),
                None => Operation::CreateProjectFor { name, target },
            },
        ),
        (Operation::CreateProjectFor { target, .. }, Response::Project(p)) => b == a && r == Some(
            spec_continue(target, Some(p.id)),
        ),
        (Operation::WriteNewTodo { .. }, Response::Done) => b == a && r == Some(
            Operation::ReloadTodosThenProjects,
        ),
        (Operation::FetchForUpdate { todo_id, form, project: project_id }, Response::Todo(current)) => b
            == a && r == Some(
            Operation::WriteTodoUpdate {
                record: TodoRecord {
                    id: todo_id,
                    todo: form.todo,
                    info: form.info,
                    status: form.status,
                    project_id,
                    due_date: form.due_date,
                    created_at: current.created_at,
                    completed_at: completion(
                        current.status,
                        form.status,
                        current.completed_at,
                        today,
                    ),
                },
            },
        ),
        (Operation::WriteTodoUpdate { .. }, Response::Done) => b == a && r == Some(
            Operation::ReloadTodosThenProjects,
        ),
        (Operation::ReloadTodosThenProjects, Response::Todos(v)) => table_reloaded(
            a,
            b.todo_table,
            v@,
        ) && b == (App { todo_table: b.todo_table, ..a }) && r == Some(
            Operation::ReloadProjectsAndClose { show_todos: true },
        ),
        (Operation::ReloadProjectsAndClose { show_todos }, Response::Projects(v)) => b.projects.items@
            == project_rows(v@) && b.projects.state == a.projects.state && b == (App {
            projects: b.projects,
            active_panel: if show_todos {
                ActivePanel::Todos
            } else {
                a.active_panel
            },
            dialog: None,
            error_message: None,
            ..a
        }) && r is None,
        (Operation::WriteNewProject { .. }, Response::Project(_)) => b == a && r == Some(
            Operation::ReloadProjectsAndClose { show_todos: false },
        ),
        (Operation::FetchProject { project_id, changes: form }, Response::Project(current)) => b == a && r
            == Some(
            Operation::WriteProjectUpdate {
                updated: Project {
                    id: project_id,
                    name: form.name,
                    archived: form.archived,
                    created_at: current.created_at,
                },
            },
        ),
        (Operation::WriteProjectUpdate { .. }, Response::Done) => b == a && r == Some(
            Operation::ReloadProjectsAndClose { show_todos: false },
        ),
        _ => b == a && r is None,
    }
}

/// How many more answers of the store the operation waits on at most.
pub open spec fn answers_left(op: Operation) -> nat {
    match op {
        Operation::FindProject { .. } => 6,
        Operation::CreateProjectFor { .. } => 5,
        Operation::FetchForUpdate { .. } => 4,
        Operation::WriteTodoUpdate { .. } => 3,
        Operation::WriteNewTodo { .. } => 3,
        Operation::ToggleFetch { .. } => 3,
        Operation::DeleteProject { .. } => 3,
        Operation::FetchProject { .. } => 3,
        Operation::ReloadTodosThenProjects => 2,
        Operation::ToggleWrite { .. } => 2,
        Operation::DeleteTodo { .. } => 2,
        Operation::ReloadProjectsAfterDelete => 2,
        Operation::WriteNewProject { .. } => 2,
        Operation::WriteProjectUpdate { .. } => 2,
        Operation::ToggleReload => 1,
        Operation::ReloadTodosAndClose => 1,
        Operation::ReloadProjectsAndClose { .. } => 1,
    }
}

/// Every answer brings an operation closer to its end: the operation that
/// follows waits on fewer answers than the one answered, so each
/// operation ends after a bounded number of answers.
pub proof fn lemma_operation_ends(
    op: Operation,
    a: App,
    resp: Response,
    today: Date,
    b: App,
    r: Option<Operation>,
)
    requires
        step(op, a, resp, today, b, r),
    ensures
        r matches Some(next) ==> answers_left(next) < answers_left(op),
{
}

/// Saving a new todo writes a record with the dialog's text, description,
/// status and due date, the project that was found or created (or none when
/// no project was named), and no completion date.
pub proof fn lemma_new_todo_record(
    t: NewTodo,
    name: String,
    id: ProjectId,
    created: Project,
    a: App,
    today: Date,
    b: App,
    r: Option<Operation>,
)
    ensures
        spec_continue(TodoTarget::New(t), None) matches Operation::WriteNewTodo { new_record }
            && new_record.todo == t.todo && new_record.info == t.info && new_record.status
            == t.status && new_record.due_date == t.due_date && new_record.project_id is None
            && new_record.completed_at is None,
        step(
            Operation::FindProject { name, target: TodoTarget::New(t) },
            a,
            Response::ProjectFound(Some(id)),
            today,
            b,
            r,
        ) ==> (b == a && (r matches Some(Operation::WriteNewTodo { new_record })
            && new_record.todo == t.todo && new_record.info == t.info && new_record.status
            == t.status && new_record.due_date == t.due_date && new_record.project_id == Some(id)
            && new_record.completed_at is None)),
        step(
            Operation::CreateProjectFor { name, target: TodoTarget::New(t) },
            a,
            Response::Project(created),
            today,
            b,
            r,
        ) ==> (b == a && (r matches Some(Operation::WriteNewTodo { new_record })
            && new_record.todo == t.todo && new_record.info == t.info && new_record.status
            == t.status && new_record.due_date == t.due_date && new_record.project_id == Some(
            created.id,
        ) && new_record.completed_at is None)),
{
}

/// Saving an edited todo fetches the stored todo and writes back a record
/// of that todo with the form's text, description, status and due date, the
/// project that was found, and the stored creation date; the completion date
/// becomes today when the todo becomes done, goes when it stops being done,
/// and is kept otherwise.
pub proof fn lemma_edited_todo_record(
    todo_id: TodoId,
    form: TodoFormData,
    project: Option<ProjectId>,
    current: Todo,
    a: App,
    today: Date,
    b: App,
    r: Option<Operation>,
)
    requires
        step(
            Operation::FetchForUpdate { todo_id, form, project },
            a,
            Response::Todo(current),
            today,
            b,
            r,
        ),
    ensures
        b == a,
        r matches Some(Operation::WriteTodoUpdate { record }) && record.id == todo_id
            && record.todo == form.todo && record.info == form.info && record.status == form.status
            && record.due_date == form.due_date && record.project_id == project
            && record.created_at == current.created_at && (form.status == Status::Done
            && current.status != Status::Done ==> record.completed_at == Some(today)) && (
        form.status != Status::Done && current.status == Status::Done
            ==> record.completed_at is None) && ((form.status == Status::Done) == (current.status
            == Status::Done) ==> record.completed_at == current.completed_at),
{
}

/// Saving an edited todo after its project is found goes on to fetch that
/// todo, with the form and the project found.
pub proof fn lemma_edited_todo_project(
    name: String,
    todo_id: TodoId,
    form: TodoFormData,
    id: ProjectId,
    a: App,
    today: Date,
    b: App,
    r: Option<Operation>,
)
    ensures
        step(
            Operation::FindProject { name, target: TodoTarget::Existing(todo_id, form) },
            a,
            Response::ProjectFound(Some(id)),
            today,
            b,
            r,
        ) ==> b == a && r == Some(
            Operation::FetchForUpdate { todo_id, form, project: Some(id) },
        ),
        spec_continue(TodoTarget::Existing(todo_id, form), None) == (Operation::FetchForUpdate {
            todo_id,
            form,
            project: None,
        }),
{
}

/// After a status toggle, reading the todos again shows exactly those of the
/// chosen project, each from the store's answer, with the first row
/// selected; with no project chosen it shows every todo of the answer. The
/// filter and everything but the table and the panel stay.
pub proof fn lemma_toggle_reload_keeps_filter(
    a: App,
    v: Vec<Todo>,
    today: Date,
    b: App,
    r: Option<Operation>,
)
    requires
        step(Operation::ToggleReload, a, Response::Todos(v), today, b, r),
    ensures
        r is None,
        b.todo_filter == a.todo_filter,
        b.active_panel == ActivePanel::Todos,
        b.dialog == a.dialog && b.projects == a.projects,
        a.todo_filter.project_id matches Some(p) ==> (forall|i: int|
            0 <= i < b.todo_table.items@.len() ==> (#[trigger] b.todo_table.items@[i]).project_id
                == Some(p) && v@.contains(b.todo_table.items@[i])) && (forall|i: int|
            0 <= i < v@.len() && (#[trigger] v@[i]).project_id == Some(p)
                ==> b.todo_table.items@.contains(v@[i])),
        a.todo_filter.project_id is None ==> b.todo_table.items@ == v@,
        b.todo_table.state.selected == (if b.todo_table.items@.len() == 0 {
            None
        } else {
            Some(0usize)
        }),
{
    crate::app::lemma_project_filter(v@, v@.last(), 0);
    if let Some(p) = a.todo_filter.project_id {
        crate::app::lemma_project_filter(v@, v@.last(), p);
    }
}

/// Toggling a todo's status moves it one step round To Do, In Progress,
/// Done; the completion date becomes today when it becomes done, goes when
/// it leaves done, and is kept otherwise.
pub proof fn lemma_toggle_status_record(
    todo_id: TodoId,
    t: Todo,
    a: App,
    today: Date,
    b: App,
    r: Option<Operation>,
)
    requires
        step(Operation::ToggleFetch { todo_id }, a, Response::Todo(t), today, b, r),
    ensures
        b == a,
        r matches Some(Operation::ToggleWrite { todo_id: id, status, completed_at }) && id == t.id
            && (t.status == Status::ToDo ==> status == Status::InProgress && completed_at
            == t.completed_at) && (t.status == Status::InProgress ==> status == Status::Done
            && completed_at == Some(today)) && (t.status == Status::Done ==> status
            == Status::ToDo && completed_at is None),
{
}

/// The request that an operation waits on.
pub open spec fn spec_request(op: Operation) -> Request {
    match op {
        Operation::ToggleFetch { todo_id } => Request::GetTodo(todo_id),
        Operation::ToggleWrite { todo_id, status, completed_at } => Request::UpdateTodoStatus(
            todo_id,
            status,
            completed_at,
        ),
        Operation::ToggleReload => Request::ListTodos,
        Operation::DeleteTodo { todo_id } => Request::DeleteTodo(todo_id),
        Operation::DeleteProject { project_id } => Request::DeleteProject(project_id),
        Operation::ReloadProjectsAfterDelete => Request::ListProjects,
        Operation::ReloadTodosAndClose => Request::ListTodos,
        Operation::FindProject { name, .. } => Request::FindProjectByName(name),
        Operation::CreateProjectFor { name, .. } => Request::CreateProject(
            NewProject { name, archived: false },
        ),
        Operation::WriteNewTodo { new_record } => Request::CreateTodo(new_record),
        Operation::FetchForUpdate { todo_id, .. } => Request::GetTodo(todo_id),
        Operation::WriteTodoUpdate { record } => Request::UpdateTodo(record),
        Operation::ReloadTodosThenProjects => Request::ListTodos,
        Operation::ReloadProjectsAndClose { .. } => Request::ListProjects,
        Operation::WriteNewProject { new_project } => Request::CreateProject(new_project),
        Operation::FetchProject { project_id, .. } => Request::GetProject(project_id),
        Operation::WriteProjectUpdate { updated } => Request::UpdateProject(updated),
    }
}

fn copy_new_todo_record(r: &NewTodoRecord) -> (c: NewTodoRecord)
    ensures
        c == *r,
{
    NewTodoRecord {
        todo: r.todo.clone(),
        info: r.info.clone(),
        status: r.status,
        project_id: r.project_id,
        due_date: r.due_date,
        completed_at: r.completed_at,
    }
}

fn copy_todo_record(r: &TodoRecord) -> (c: TodoRecord)
    ensures
        c == *r,
{
    TodoRecord {
        id: r.id,
        todo: r.todo.clone(),
        info: r.info.clone(),
        status: r.status,
        project_id: r.project_id,
        due_date: r.due_date,
        created_at: r.created_at,
        completed_at: r.completed_at,
    }
}

impl Operation {
    /// The request that the operation waits on.
    pub fn request(&self) -> (r: Request)
        ensures
            r == spec_request(*self),
    {
        match self {
            Operation::ToggleFetch { todo_id } => Request::GetTodo(*todo_id),
            Operation::ToggleWrite { todo_id, status, completed_at } => Request::UpdateTodoStatus(
                *todo_id,
                *status,
                *completed_at,
            ),
            Operation::ToggleReload => Request::ListTodos,
            Operation::DeleteTodo { todo_id } => Request::DeleteTodo(*todo_id),
            Operation::DeleteProject { project_id } => Request::DeleteProject(*project_id),
            Operation::ReloadProjectsAfterDelete => Request::ListProjects,
            Operation::ReloadTodosAndClose => Request::ListTodos,
            Operation::FindProject { name, .. } => Request::FindProjectByName(name.clone()),
            Operation::CreateProjectFor { name, .. } => Request::CreateProject(
                NewProject::new(name.clone()),
            ),
            Operation::WriteNewTodo { new_record } => Request::CreateTodo(copy_new_todo_record(new_record)),
            Operation::FetchForUpdate { todo_id, .. } => Request::GetTodo(*todo_id),
            Operation::WriteTodoUpdate { record } => Request::UpdateTodo(copy_todo_record(record)),
            Operation::ReloadTodosThenProjects => Request::ListTodos,
            Operation::ReloadProjectsAndClose { .. } => Request::ListProjects,
            Operation::WriteNewProject { new_project } => Request::CreateProject(
                NewProject { name: new_project.name.clone(), archived: new_project.archived },
            ),
            Operation::FetchProject { project_id, .. } => Request::GetProject(*project_id),
            Operation::WriteProjectUpdate { updated } => Request::UpdateProject(updated.duplicate()),
        }
    }

    /// Goes on with the store's answer, `today` being the date for a todo
    /// that becomes done. A refusal ends the operation and shows its
    /// message; otherwise see `step`.
    pub fn advance_on(self, app: &mut App, resp: Response, today: Date) -> (r: Option<Operation>)
        ensures
            match resp {
                Response::Failed(msg) => *final(app) == (App {
                    error_message: Some(msg),
                    ..*old(app)
                }) && r is None,
                _ => step(self, *old(app), resp, today, *final(app), r),
            },
    {
        if let Response::Failed(msg) = resp {
            app.error_message = Some(msg);
            return None;
        }
        match self {
            Operation::ToggleFetch { todo_id } => match resp {
                Response::Todo(t) => {
                    let status = t.status.next();
                    let completed_at = completion_date(t.status, status, t.completed_at, today);
                    Some(Operation::ToggleWrite { todo_id: t.id, status, completed_at })
                },
                _ => None,
            },
            Operation::ToggleWrite { .. } => match resp {
                Response::Done => Some(Operation::ToggleReload),
                _ => None,
            },
            Operation::ToggleReload => match resp {
                Response::Todos(v) => {
                    let items = crate::app::filter_todos(v, &app.todo_filter);
                    app.todo_table = TodoTable::new(items);
                    app.active_panel = ActivePanel::Todos;
                    None
                },
                _ => None,
            },
            Operation::DeleteTodo { .. } => match resp {
                Response::Done => Some(Operation::ReloadTodosAndClose),
                _ => None,
            },
            Operation::DeleteProject { .. } => match resp {
                Response::Done => Some(Operation::ReloadProjectsAfterDelete),
                _ => None,
            },
            Operation::ReloadProjectsAfterDelete => match resp {
                Response::Projects(v) => {
                    app.reload_projects(v);
                    app.projects.state.select(Some(0));
                    app.todo_filter.project_id = None;
                    Some(Operation::ReloadTodosAndClose)
                },
                _ => None,
            },
            Operation::ReloadTodosAndClose => match resp {
                Response::Todos(v) => {
                    app.reload_todos(v);
                    app.error_message = None;
                    app.dialog = None;
                    None
                },
                _ => None,
            },
            Operation::FindProject { name, target } => match resp {
                Response::ProjectFound(found) => match found {
                    Some(id) => Some(continue_with(target, Some(id))),
                    None => Some(Operation::CreateProjectFor { name, target }),
                },
                _ => None,
            },
            Operation::CreateProjectFor { target, .. } => match resp {
                Response::Project(p) => Some(continue_with(target, Some(p.id))),
                _ => None,
            },
            Operation::WriteNewTodo { .. } => match resp {
                Response::Done => Some(Operation::ReloadTodosThenProjects),
                _ => None,
            },
            Operation::FetchForUpdate { todo_id, form, project: project_id } => match resp {
                Response::Todo(current) => {
                    let completed_at = completion_date(
                        current.status,
                        form.status,
                        current.completed_at,
                        today,
                    );
                    Some(
                        Operation::WriteTodoUpdate {
                            record: TodoRecord {
                                id: todo_id,
                                todo: form.todo,
                                info: form.info,
                                status: form.status,
                                project_id,
                                due_date: form.due_date,
                                created_at: current.created_at,
                                completed_at,
                            },
                        },
                    )
                },
                _ => None,
            },
            Operation::WriteTodoUpdate { .. } => match resp {
                Response::Done => Some(Operation::ReloadTodosThenProjects),
                _ => None,
            },
            Operation::ReloadTodosThenProjects => match resp {
                Response::Todos(v) => {
                    app.reload_todos(v);
                    Some(Operation::ReloadProjectsAndClose { show_todos: true })
                },
                _ => None,
            },
            Operation::ReloadProjectsAndClose { show_todos } => match resp {
                Response::Projects(v) => {
                    app.reload_projects(v);
                    if show_todos {
                        app.active_panel = ActivePanel::Todos;
                    }
                    app.error_message = None;
                    app.dialog = None;
                    None
                },
                _ => None,
            },
            Operation::WriteNewProject { .. } => match resp {
                Response::Project(_) => Some(Operation::ReloadProjectsAndClose { show_todos: false }),
                _ => None,
            },
            Operation::FetchProject { project_id, changes: form } => match resp {
                Response::Project(current) => Some(
                    Operation::WriteProjectUpdate {
                        updated: Project {
                            id: project_id,
                            name: form.name,
                            archived: form.archived,
                            created_at: current.created_at,
                        },
                    },
                ),
                _ => None,
            },
            Operation::WriteProjectUpdate { .. } => match resp {
                Response::Done => Some(Operation::ReloadProjectsAndClose { show_todos: false }),
                _ => None,
            },
        }
    }

    /// Goes on with the store's answer, using today's date for a todo that
    /// becomes done.
    pub fn advance(self, app: &mut App, resp: Response) -> (r: Option<Operation>)
        ensures
            exists|today: Date|
                today.valid() && match resp {
                    Response::Failed(msg) => *final(app) == (App {
                        error_message: Some(msg),
                        ..*old(app)
                    }) && r is None,
                    _ => step(self, *old(app), resp, today, *final(app), r),
                },
    {
        let today = local_today();
        self.advance_on(app, resp, today)
    }
}

impl App {
    /// Starts toggling the status of the todo with identifier `todo_id`.
    pub fn toggle_status_todo(&self, todo_id: TodoId) -> (r: Operation)
        ensures
            r == (Operation::ToggleFetch { todo_id }),
    {
        Operation::ToggleFetch { todo_id }
    }

    /// Starts deleting the todo with identifier `todo_id`.
    pub fn delete_todo(&self, todo_id: TodoId) -> (r: Operation)
        ensures
            r == (Operation::DeleteTodo { todo_id }),
    {
        Operation::DeleteTodo { todo_id }
    }

    /// Starts deleting the project with identifier `project_id`.
    pub fn delete_project(&self, project_id: ProjectId) -> (r: Operation)
        ensures
            r == (Operation::DeleteProject { project_id }),
    {
        Operation::DeleteProject { project_id }
    }

    /// Starts saving a new todo: the project it names is looked up first
    /// (and created when missing).
    pub fn create_todo(&self, todo: NewTodo) -> (r: Operation)
        ensures
            r == (match todo.project {
                Some(name) => Operation::FindProject { name, target: TodoTarget::New(todo) },
                None => spec_continue(TodoTarget::New(todo), None),
            }),
    {
        match &todo.project {
            Some(name) => {
                let name = name.clone();
                Operation::FindProject { name, target: TodoTarget::New(todo) }
            },
            None => continue_with(TodoTarget::New(todo), None),
        }
    }

    /// Starts saving the edited todo with identifier `todo_id`: the project
    /// it names is looked up first (and created when missing).
    pub fn update_todo(&self, todo_id: TodoId, new_todo: TodoFormData) -> (r: Operation)
        ensures
            r == (match new_todo.project {
                Some(name) => Operation::FindProject {
                    name,
                    target: TodoTarget::Existing(todo_id, new_todo),
                },
                None => spec_continue(TodoTarget::Existing(todo_id, new_todo), None),
            }),
    {
        match &new_todo.project {
            Some(name) => {
                let name = name.clone();
                Operation::FindProject { name, target: TodoTarget::Existing(todo_id, new_todo) }
            },
            None => continue_with(TodoTarget::Existing(todo_id, new_todo), None),
        }
    }

    /// Starts creating a project.
    pub fn create_project(&self, new_project: NewProject) -> (r: Operation)
        ensures
            r == (Operation::WriteNewProject { new_project }),
    {
        Operation::WriteNewProject { new_project }
    }

    /// Starts saving the edited project with identifier `project_id`.
    pub fn update_project(&self, project_id: ProjectId, new_project: ProjectFormData) -> (r: Operation)
        ensures
            r == (Operation::FetchProject { project_id, changes: new_project }),
    {
        Operation::FetchProject { project_id, changes: new_project }
    }
}

} // verus!
