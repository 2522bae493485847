use vstd::prelude::*;
use crate::date::Date;
use crate::status::{Status, spec_next};

verus! {

/// Identifier of a todo in the store.
pub type TodoId = i64;

/// Identifier of a project in the store.
pub type ProjectId = i64;

/// A stored project, as shown in the project list.
#[derive(Debug)]
pub struct Project {
    pub id: i64,
    pub name: String,
    pub archived: bool,
    pub created_at: Date,
}

/// What is needed to create a project.
#[derive(Debug)]
pub struct NewProject {
    pub name: String,
    pub archived: bool,
}

/// The fields of a project that its dialog edits.
#[derive(Debug)]
pub struct ProjectFormData {
    pub name: String,
    pub archived: bool,
}

/// A stored todo together with the name of its project, as shown in the
/// todo table.
#[derive(Debug)]
pub struct Todo {
    pub id: i64,
    pub todo: String,
    pub info: String,
    pub status: Status,
    pub project_id: Option<i64>,
    pub project: Option<String>,
    pub due_date: Option<Date>,
    pub created_at: Date,
    pub completed_at: Option<Date>,
}

/// A todo as the todo dialog submits it: the project is given by name.
#[derive(Debug)]
pub struct NewTodo {
    pub todo: String,
    pub info: String,
    pub status: Status,
    pub project: Option<String>,
    pub due_date: Option<Date>,
}

/// The fields of an existing todo that its dialog edits.
#[derive(Debug)]
pub struct TodoFormData {
    pub todo: String,
    pub info: String,
    pub status: Status,
    pub project: Option<String>,
    pub due_date: Option<Date>,
}

/// A todo to be stored: the project is given by its identifier.
#[derive(Debug)]
pub struct NewTodoRecord {
    pub todo: String,
    pub info: String,
    pub status: Status,
    pub project_id: Option<i64>,
    pub due_date: Option<Date>,
    pub completed_at: Option<Date>,
}

/// A stored todo as it is written back.
#[derive(Debug)]
pub struct TodoRecord {
    pub id: i64,
    pub todo: String,
    pub info: String,
    pub status: Status,
    pub project_id: Option<i64>,
    pub due_date: Option<Date>,
    pub created_at: Date,
    pub completed_at: Option<Date>,
}

/// A todo to be created with a project given by identifier.
#[derive(Debug)]
pub struct NewTodoItem {
    pub todo: String,
    pub info: String,
    pub status: Status,
    pub project_id: Option<i64>,
    pub due_date: Option<Date>,
}

/// A todo as a plain list shows it.
#[derive(Debug)]
pub struct TodoListItem {
    pub id: i64,
    pub todo: String,
    pub info: String,
    pub status: Status,
    pub project: Option<String>,
    pub due_date: Option<Date>,
}

/// A copy of an optional string.
pub fn copy_opt_string(s: &Option<String>) -> (r: Option<String>)
    ensures
        r == *s,
{
    match s {
        Some(v) => Some(v.clone()),
        None => None,
    }
}

impl NewProject {
    /// A project with the given name that is not archived.
    pub fn new(name: String) -> (r: Self)
        ensures
            r.name == name,
            !r.archived,
    {
        Self { name, archived: false }
    }
}

impl Project {
    /// A copy of the project.
    pub fn duplicate(&self) -> (r: Self)
        ensures
            r == *self,
    {
        Project {
            id: self.id,
            name: self.name.clone(),
            archived: self.archived,
            created_at: self.created_at,
        }
    }
}

impl Todo {
    /// Moves the todo to the next status of the cycle.
    pub fn toggle_status(&mut self)
        ensures
            *final(self) == (Todo { status: spec_next(old(self).status), ..*old(self) }),
    {
        self.status = self.status.next();
    }

    /// A copy of the todo.
    pub fn duplicate(&self) -> (r: Self)
        ensures
            r == *self,
    {
        Todo {
            id: self.id,
            todo: self.todo.clone(),
            info: self.info.clone(),
            status: self.status,
            project_id: self.project_id,
            project: copy_opt_string(&self.project),
            due_date: self.due_date,
            created_at: self.created_at,
            completed_at: self.completed_at,
        }
    }
}

impl NewTodoItem {
    /// Gathers the fields of a new todo.
    pub fn new(
        status: Status,
        todo: String,
        info: String,
        project_id: Option<i64>,
        due_date: Option<Date>,
    ) -> (r: Self)
        ensures
            r == (NewTodoItem { todo, info, status, project_id, due_date }),
    {
        Self { status, todo, info, project_id, due_date }
    }
}

impl TodoListItem {
    /// Moves the item to the next status of the cycle.
    pub fn toggle_status(&mut self)
        ensures
            *final(self) == (TodoListItem { status: spec_next(old(self).status), ..*old(self) }),
    {
        self.status = self.status.next();
    }
}

} // verus!
