use vstd::prelude::*;
use crate::date::Date;
use crate::models::Todo;
use crate::selection::{SelectionState, spec_step_down, spec_step_up};
use crate::status::{Status, spec_next};
use crate::todo_table::initial_selection;

verus! {

/// A list of todos with the selected row.
#[derive(Debug)]
pub struct TodoList {
    pub items: Vec<Todo>,
    pub state: SelectionState,
}

/// Why a todo list refused a request.
#[derive(Debug, PartialEq, Eq, Structural)]
pub enum TodoListError {
    TodoNotFound,
}

/// The fields of a todo in the order in which a query returns them: id,
/// todo, info, status, project id, project name, due date, creation date,
/// completion date.
pub type TodoRow = (
    i64,
    String,
    String,
    Status,
    Option<i64>,
    Option<String>,
    Option<Date>,
    Date,
    Option<Date>,
);

/// The todo that a row describes.
pub open spec fn row_todo(row: TodoRow) -> Todo {
    Todo {
        id: row.0,
        todo: row.1,
        info: row.2,
        status: row.3,
        project_id: row.4,
        project: row.5,
        due_date: row.6,
        created_at: row.7,
        completed_at: row.8,
    }
}

/// Whether the todo at `i` is the first in `items` with identifier `id`.
pub open spec fn first_with_id(items: Seq<Todo>, id: i64, i: int) -> bool {
    &&& 0 <= i < items.len()
    &&& items[i].id == id
    &&& forall|j: int| 0 <= j < i ==> items[j].id != id
}

impl TodoList {
    /// A list of the given todos with the first one selected, if any.
    pub fn new(items: Vec<Todo>) -> (r: Self)
        ensures
            r.items == items,
            r.state.selected == initial_selection(items@.len()),
            r.state.offset == 0,
    {
        let mut state = SelectionState::default();
        if items.len() > 0 {
            state.select(Some(0));
        }
        Self { items, state }
    }

    /// A list of the todos that the rows describe, in the same order, with
    /// the first one selected, if any.
    pub fn from_rows(rows: Vec<TodoRow>) -> (r: Self)
        ensures
            r.items@ == rows@.map_values(|row: TodoRow| row_todo(row)),
            r.state.selected == initial_selection(rows@.len()),
            r.state.offset == 0,
    {
        let ghost all = rows@;
        let mut rows = rows;
        let mut items: Vec<Todo> = Vec::new();
        while rows.len() > 0
            invariant
                items@.len() + rows@.len() == all.len(),
                rows@ == all.skip(items@.len() as int),
                items@ == all.take(items@.len() as int).map_values(|row: TodoRow| row_todo(row)),
            decreases rows@.len(),
        {
            let ghost k = items@.len() as int;
            let row = rows.remove(0);
            let (id, todo, info, status, project_id, project, due_date, created_at, completed_at) =
                row;
            items.push(
                Todo { id, todo, info, status, project_id, project, due_date, created_at, completed_at },
            );
            assert(all.take(k + 1) == all.take(k).push(all[k]));
            assert(rows@ == all.skip(k + 1));
        }
        assert(all.take(all.len() as int) == all);
        Self::new(items)
    }

    /// Moves the selection one row down; an empty list has no selection.
    pub fn select_next(&mut self)
        ensures
            final(self).items == old(self).items,
            old(self).items@.len() == 0 ==> final(self).state.selected is None
                && final(self).state.offset == 0,
            old(self).items@.len() > 0 ==> final(self).state.selected == spec_step_down(
                old(self).state.selected,
            ) && final(self).state.offset == old(self).state.offset,
    {
        if self.items.len() == 0 {
            self.state.select(None)
        } else {
            self.state.select_next();
        }
    }

    /// Moves the selection one row up; an empty list has no selection.
    pub fn select_previous(&mut self)
        ensures
            final(self).items == old(self).items,
            old(self).items@.len() == 0 ==> final(self).state.selected is None
                && final(self).state.offset == 0,
            old(self).items@.len() > 0 ==> final(self).state.selected == spec_step_up(
                old(self).state.selected,
            ) && final(self).state.offset == old(self).state.offset,
    {
        if self.items.len() == 0 {
            self.state.select(None)
        } else {
            self.state.select_previous();
        }
    }

    /// Appends a todo at the end of the list.
    pub fn add_todo(&mut self, todo: Todo)
        ensures
            final(self).items@ == old(self).items@.push(todo),
            final(self).state == old(self).state,
    {
        self.items.push(todo);
    }

    /// Replaces the first todo with the same identifier; refused when the
    /// list holds no todo with that identifier.
    pub fn replace_todo(&mut self, todo_item: Todo) -> (r: Result<(), TodoListError>)
        ensures
            final(self).state == old(self).state,
            match r {
                Ok(()) => exists|i: int|
                    first_with_id(old(self).items@, todo_item.id, i) && final(self).items@
                        == old(self).items@.update(i, todo_item),
                Err(e) => e == TodoListError::TodoNotFound && (forall|i: int|
                    0 <= i < old(self).items@.len() ==> old(self).items@[i].id != todo_item.id)
                    && final(self).items@ == old(self).items@,
            },
    {
        let mut i: usize = 0;
        while i < self.items.len()
            invariant
                i <= self.items@.len(),
                self.items@ == old(self).items@,
                self.state == old(self).state,
                forall|j: int| 0 <= j < i ==> self.items@[j].id != todo_item.id,
            decreases self.items@.len() - i,
        {
            if self.items[i].id == todo_item.id {
                self.items.set(i, todo_item);
                return Ok(());
            }
            i = i + 1;
        }
        Err(TodoListError::TodoNotFound)
    }

    /// Moves the selected todo to the next status of the cycle.
    pub fn toggle_status(&mut self)
        requires
            old(self).state.selected matches Some(i) ==> i < old(self).items@.len(),
        ensures
            final(self).state == old(self).state,
            final(self).items@ == (match old(self).state.selected {
                Some(i) => old(self).items@.update(
                    i as int,
                    Todo { status: spec_next(old(self).items@[i as int].status), ..old(self).items@[i as int] },
                ),
                None => old(self).items@,
            }),
    {
        if let Some(i) = self.state.selected() {
            let mut todo = self.items[i].duplicate();
            todo.toggle_status();
            self.items.set(i, todo);
        }
    }
}

} // verus!
