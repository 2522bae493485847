use vstd::prelude::*;
use crate::models::{ProjectId, TodoId};

verus! {

/// The answer highlighted in a confirmation dialog.
#[derive(Debug, Clone, Copy, PartialEq, Eq, Structural)]
pub enum ConfirmChoice {
    Yes,
    No,
}

/// What a confirmation dialog asks to do.
#[derive(Debug, Clone, Copy, PartialEq, Eq, Structural)]
pub enum ConfirmAction {
    DeleteProject(ProjectId),
    DeleteTodo(TodoId),
}

/// A dialog that asks to confirm an action.
#[derive(Debug)]
pub struct ConfirmPopup {
    pub title: String,
    pub message: String,
    pub action: ConfirmAction,
    pub selected: ConfirmChoice,
}

impl ConfirmPopup {
    /// A dialog asking to confirm `action`, with "No" highlighted.
    pub fn new(title: String, message: String, action: ConfirmAction) -> (r: Self)
        ensures
            r == (ConfirmPopup { title, message, action, selected: ConfirmChoice::No }),
    {
        Self { title, message, action, selected: ConfirmChoice::No }
    }
}

} // verus!
