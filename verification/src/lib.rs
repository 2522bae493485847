//! The state and rules of a terminal todo manager: todos grouped in
//! projects, lists with a selection, edit dialogs, key handling, and the
//! operations that the dialogs start against the todo store.
pub mod status;
pub mod date;
pub mod calendar;
pub mod models;
pub mod selection;
pub mod todo_table;
pub mod todo_list;
pub mod project_list;
pub mod keys;
pub mod text;
pub mod fields;
pub mod textarea;
pub mod todo_popup;
pub mod project_popup;
pub mod confirm_popup;
pub mod app;
pub mod operation;
pub mod update;
