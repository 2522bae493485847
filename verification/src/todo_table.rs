use vstd::prelude::*;
use crate::models::{Todo, TodoId};
use crate::selection::SelectionState;
use crate::status::spec_next;

verus! {

/// The todos shown in the table, with the selected row.
#[derive(Debug)]
pub struct TodoTable {
    pub items: Vec<Todo>,
    pub state: SelectionState,
}

/// The selection of a fresh list of `len` rows: the first row, or none.
pub open spec fn initial_selection(len: nat) -> Option<usize> {
    if len == 0 { None } else { Some(0) }
}

/// The row below `selected` in a table of `len > 0` rows, wrapping from the
/// last row (or from no or an out-of-range selection) to the first.
pub open spec fn wrap_down(selected: Option<usize>, len: nat) -> usize {
    match selected {
        Some(i) if i + 1 < len => (i + 1) as usize,
        _ => 0,
    }
}

/// The row above `selected` in a table of `len > 0` rows, wrapping from the
/// first row (or from no selection) to the last.
pub open spec fn wrap_up(selected: Option<usize>, len: nat) -> usize {
    match selected {
        Some(i) if i > 0 => (i - 1) as usize,
        _ => (len - 1) as usize,
    }
}

impl TodoTable {
    /// A table of the given todos with the first one selected, if any.
    pub fn new(items: Vec<Todo>) -> (r: Self)
        ensures
            r.items == items,
            r.state.selected == initial_selection(items@.len()),
            r.state.offset == 0,
    {
        let mut state = SelectionState::default();
        if items.len() > 0 {
            state.select(Some(0));
        }
        Self { items, state }
    }

    /// Moves the selection one row down, from the last row to the first.
    pub fn select_next(&mut self)
        ensures
            final(self).items == old(self).items,
            old(self).items@.len() == 0 ==> final(self).state.selected is None
                && final(self).state.offset == 0,
            old(self).items@.len() > 0 ==> final(self).state.selected == Some(
                wrap_down(old(self).state.selected, old(self).items@.len()),
            ) && final(self).state.offset == old(self).state.offset,
    {
        if self.items.len() == 0 {
            self.state.select(None);
            return;
        }
        let next = match self.state.selected() {
            Some(i) if i < self.items.len() - 1 => i + 1,
            _ => 0,
        };
        self.state.select(Some(next));
    }

    /// Moves the selection one row up, from the first row to the last.
    pub fn select_previous(&mut self)
        ensures
            final(self).items == old(self).items,
            old(self).items@.len() == 0 ==> final(self).state.selected is None
                && final(self).state.offset == 0,
            old(self).items@.len() > 0 ==> final(self).state.selected == Some(
                wrap_up(old(self).state.selected, old(self).items@.len()),
            ) && final(self).state.offset == old(self).state.offset,
    {
        if self.items.len() == 0 {
            self.state.select(None);
            return;
        }
        let previous = match self.state.selected() {
            Some(i) if i > 0 => i - 1,
            _ => self.items.len() - 1,
        };
        self.state.select(Some(previous));
    }

    /// Moves the todo at `index` to the next status of the cycle.
    pub fn toggle_status(&mut self, index: usize)
        requires
            index < old(self).items@.len(),
        ensures
            final(self).state == old(self).state,
            final(self).items@ == old(self).items@.update(
                index as int,
                Todo { status: spec_next(old(self).items@[index as int].status), ..old(self).items@[index as int] },
            ),
    {
        let mut todo = self.items[index].duplicate();
        todo.toggle_status();
        self.items.set(index, todo);
    }

    /// The identifier of the selected todo, if a row within the table is selected.
    pub fn selected_todo_id(&self) -> (r: Option<TodoId>)
        ensures
            r == (match self.state.selected {
                Some(i) if i < self.items@.len() => Some(self.items@[i as int].id),
                _ => None,
            }),
    {
        match self.state.selected() {
            Some(i) => {
                if i < self.items.len() {
                    Some(self.items[i].id)
                } else {
                    None
                }
            },
            None => None,
        }
    }
}

/// In a table that is not empty, moving down and then up returns to the
/// selected row, and so does moving up and then down; `len` moves down
/// return to any row.
pub proof fn lemma_wrap_moves_undo(i: usize, len: nat)
    requires
        i < len <= usize::MAX,
    ensures
        wrap_up(Some(wrap_down(Some(i), len)), len) == i,
        wrap_down(Some(wrap_up(Some(i), len)), len) == i,
        wrap_down(Some(i), len) < len,
        wrap_up(Some(i), len) < len,
{
}

} // verus!
