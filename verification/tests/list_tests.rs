use todo_tui::date::Date;
use todo_tui::models::{Project, Todo};
use todo_tui::project_list::{ProjectList, ProjectListItem};
use todo_tui::selection::SelectionState;
use todo_tui::status::Status;
use todo_tui::todo_list::{TodoList, TodoListError};
use todo_tui::todo_table::TodoTable;

fn project(id: i64, name: &str) -> Project {
    Project { id, name: String::from(name), archived: false, created_at: Date { year: 2026, month: 1, day: 1 } }
}

fn todo(id: i64, name: &str, info: &str, status: Status) -> Todo {
    Todo {
        id,
        todo: String::from(name),
        info: String::from(info),
        status,
        project_id: None,
        project: None,
        due_date: None,
        created_at: Date { year: 2026, month: 1, day: 1 },
        completed_at: None,
    }
}

#[test]
fn project_list_select_next() {
    let mut projects = ProjectList::new(vec![
        ProjectListItem::Project(project(1, "Project 1")),
        ProjectListItem::Project(project(2, "Project 2")),
    ]);

    projects.state.select(Some(0));

    projects.select_next();
    assert_eq!(projects.state.selected(), Some(1));

    projects.select_next();
    assert_eq!(projects.state.selected(), Some(2));

    projects.select_next();
    assert_eq!(projects.state.selected(), Some(3));
}

#[test]
fn project_list_select_previous() {
    let mut projects = ProjectList::new(vec![
        ProjectListItem::Project(project(1, "Project 1")),
        ProjectListItem::Project(project(2, "Project 2")),
    ]);

    projects.state.select(Some(2));

    projects.select_previous();
    assert_eq!(projects.state.selected(), Some(1));

    projects.select_previous();
    assert_eq!(projects.state.selected(), Some(0));

    projects.select_previous();
    assert_eq!(projects.state.selected(), Some(0));
}

#[test]
fn project_list_empty_list_select_next() {
    let mut projects = ProjectList::new(vec![]);

    assert_eq!(projects.state, SelectionState::default());

    projects.select_next();
    assert_eq!(projects.state.selected(), None);

    projects.select_next();
    assert_eq!(projects.state.selected(), None);
}

#[test]
fn project_list_empty_list_select_previous() {
    let mut projects = ProjectList::new(vec![]);

    assert_eq!(projects.state, SelectionState::default());

    projects.select_previous();
    assert_eq!(projects.state.selected(), None);

    projects.select_previous();
    assert_eq!(projects.state.selected(), None);
}

#[test]
fn todo_list_select_next() {
    let mut todo_list = TodoList::new(vec![
        todo(1, "Todo 1", "My todo 1", Status::ToDo),
        todo(2, "Todo 2", "My todo 2", Status::ToDo),
    ]);

    todo_list.state.select(Some(0));

    todo_list.select_next();
    assert_eq!(todo_list.state.selected(), Some(1));

    todo_list.select_next();
    assert_eq!(todo_list.state.selected(), Some(2));

    todo_list.select_next();
    assert_eq!(todo_list.state.selected(), Some(3));
}

#[test]
fn todo_list_select_previous() {
    let mut todo_list = TodoList::new(vec![
        todo(1, "Todo 1", "My todo 1", Status::ToDo),
        todo(2, "Todo 2", "My todo 2", Status::ToDo),
    ]);

    todo_list.state.select(Some(2));

    todo_list.select_previous();
    assert_eq!(todo_list.state.selected(), Some(1));

    todo_list.select_previous();
    assert_eq!(todo_list.state.selected(), Some(0));

    todo_list.select_previous();
    assert_eq!(todo_list.state.selected(), Some(0));
}

#[test]
fn todo_list_empty_list_select_next() {
    let mut todo_list = TodoList::new(vec![]);

    assert_eq!(todo_list.state, SelectionState::default());

    todo_list.select_next();
    assert_eq!(todo_list.state.selected(), None);

    todo_list.select_next();
    assert_eq!(todo_list.state.selected(), None);
}

#[test]
fn todo_list_empty_list_select_previous() {
    let mut todo_list = TodoList::new(vec![]);

    assert_eq!(todo_list.state, SelectionState::default());

    todo_list.select_previous();
    assert_eq!(todo_list.state.selected(), None);

    todo_list.select_previous();
    assert_eq!(todo_list.state.selected(), None);
}

#[test]
fn todo_table_select_next() {
    let mut todo_table = TodoTable::new(vec![
        todo(1, "Todo 1", "My todo 1", Status::ToDo),
        todo(2, "Todo 2", "My todo 2", Status::ToDo),
    ]);

    todo_table.state.select(Some(0));

    todo_table.select_next();
    assert_eq!(todo_table.state.selected(), Some(1));

    todo_table.select_next();
    assert_eq!(todo_table.state.selected(), Some(0));

    todo_table.select_next();
    assert_eq!(todo_table.state.selected(), Some(1));
}

#[test]
fn todo_table_select_previous() {
    let mut todo_table = TodoTable::new(vec![
        todo(1, "Todo 1", "My todo 1", Status::ToDo),
        todo(2, "Todo 2", "My todo 2", Status::ToDo),
    ]);

    todo_table.state.select(Some(1));

    todo_table.select_previous();
    assert_eq!(todo_table.state.selected(), Some(0));

    todo_table.select_previous();
    assert_eq!(todo_table.state.selected(), Some(1));

    todo_table.select_previous();
    assert_eq!(todo_table.state.selected(), Some(0));
}

#[test]
fn todo_table_empty_list_select_next() {
    let mut todo_table = TodoTable::new(vec![]);

    assert_eq!(todo_table.state, SelectionState::default());

    todo_table.select_next();
    assert_eq!(todo_table.state.selected(), None);

    todo_table.select_next();
    assert_eq!(todo_table.state.selected(), None);
}

#[test]
fn todo_table_empty_list_select_previous() {
    let mut todo_table = TodoTable::new(vec![]);

    assert_eq!(todo_table.state, SelectionState::default());

    todo_table.select_previous();
    assert_eq!(todo_table.state.selected(), None);

    todo_table.select_previous();
    assert_eq!(todo_table.state.selected(), None);
}

#[test]
fn toggles_status() {
    let mut todo_table = TodoTable::new(vec![
        todo(1, "Todo 1", "My todo 1", Status::ToDo),
        todo(2, "Todo 2", "My todo 2", Status::InProgress),
        todo(3, "Todo 3", "My todo 3", Status::Done),
    ]);

    todo_table.state.select(Some(0));
    todo_table.toggle_status(todo_table.state.selected().unwrap());
    assert_eq!(todo_table.items[todo_table.state.selected().unwrap()].status, Status::InProgress);

    todo_table.state.select(Some(1));
    todo_table.toggle_status(todo_table.state.selected().unwrap());
    assert_eq!(todo_table.items[todo_table.state.selected().unwrap()].status, Status::Done);

    todo_table.state.select(Some(2));
    todo_table.toggle_status(todo_table.state.selected().unwrap());
    assert_eq!(todo_table.items[todo_table.state.selected().unwrap()].status, Status::ToDo);
}

#[test]
fn table_moves_wrap_and_undo_each_other() {
    let mut table = TodoTable::new(vec![
        todo(1, "a", "", Status::ToDo),
        todo(2, "b", "", Status::ToDo),
        todo(3, "c", "", Status::ToDo),
    ]);
    assert_eq!(table.state.selected(), Some(0));
    table.select_previous();
    assert_eq!(table.state.selected(), Some(2));
    table.select_next();
    assert_eq!(table.state.selected(), Some(0));
    table.state.select(Some(7));
    table.select_next();
    assert_eq!(table.state.selected(), Some(0));
    table.state.select(None);
    table.select_previous();
    assert_eq!(table.state.selected(), Some(2));
    assert_eq!(table.selected_todo_id(), Some(3));
}

#[test]
fn list_moves_from_no_selection() {
    let mut list = TodoList::new(vec![todo(1, "a", "", Status::ToDo)]);
    list.state.select(None);
    list.select_next();
    assert_eq!(list.state.selected(), Some(0));
    list.state.select(None);
    list.select_previous();
    assert_eq!(list.state.selected(), Some(usize::MAX));
    list.select_next();
    assert_eq!(list.state.selected(), Some(usize::MAX));
}

#[test]
fn selection_offset_resets_only_when_cleared() {
    let mut state = SelectionState { offset: 4, selected: Some(6) };
    state.select_next();
    assert_eq!(state, SelectionState { offset: 4, selected: Some(7) });
    state.select(Some(1));
    assert_eq!(state.offset(), 4);
    state.select(None);
    assert_eq!(state, SelectionState::default());
}

#[test]
fn replace_todo_replaces_first_with_same_id() {
    let mut list = TodoList::new(vec![
        todo(1, "a", "", Status::ToDo),
        todo(2, "b", "", Status::ToDo),
        todo(2, "c", "", Status::ToDo),
    ]);
    assert_eq!(list.replace_todo(todo(2, "new", "", Status::Done)), Ok(()));
    assert_eq!(list.items[1].todo, "new");
    assert_eq!(list.items[2].todo, "c");
    assert_eq!(list.replace_todo(todo(9, "x", "", Status::Done)), Err(TodoListError::TodoNotFound));
    list.add_todo(todo(9, "x", "", Status::Done));
    assert_eq!(list.items.len(), 4);
    list.state.select(Some(0));
    list.toggle_status();
    assert_eq!(list.items[0].status, Status::InProgress);
}

#[test]
fn todo_list_from_rows_keeps_order() {
    let day = Date { year: 2026, month: 5, day: 1 };
    let list = TodoList::from_rows(vec![
        (4, String::from("d"), String::from("i"), Status::Done, Some(2), Some(String::from("P")), None, day, Some(day)),
        (3, String::from("c"), String::new(), Status::ToDo, None, None, Some(day), day, None),
    ]);
    assert_eq!(list.items.len(), 2);
    assert_eq!(list.items[0].id, 4);
    assert_eq!(list.items[0].project.as_deref(), Some("P"));
    assert_eq!(list.items[1].due_date, Some(day));
    assert_eq!(list.state.selected(), Some(0));
    let empty = TodoList::from_rows(vec![]);
    assert_eq!(empty.state.selected(), None);
}

#[test]
fn project_list_rows_and_selected_project() {
    let mut list = ProjectList::new(vec![]);
    list.replace_projects(vec![project(5, "A"), project(7, "B")]);
    assert_eq!(list.items.len(), 3);
    assert!(matches!(list.items[0], ProjectListItem::All));
    assert_eq!(list.selected_project_id(), None);
    list.state.select(Some(2));
    assert_eq!(list.selected_project_id(), Some(7));
    list.state.select(Some(9));
    assert_eq!(list.selected_project_id(), None);
}
