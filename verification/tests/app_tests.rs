use todo_tui::app::{ActivePanel, App, Dialog};
use todo_tui::confirm_popup::ConfirmAction;
use todo_tui::date::Date;
use todo_tui::keys::{KeyCode, KeyEvent, KeyModifiers};
use todo_tui::models::{NewProject, NewTodo, Project, ProjectFormData, Todo};
use todo_tui::operation::{completion_date, Operation, Request, Response};
use todo_tui::project_list::ProjectListItem;
use todo_tui::status::Status;
use todo_tui::update::{can_update, update};

fn day(year: i32, month: u32, d: u32) -> Date {
    Date { year, month, day: d }
}

/// An in-memory todo store that answers requests as the database does.
struct Store {
    projects: Vec<Project>,
    todos: Vec<Todo>,
    next_project: i64,
    next_todo: i64,
}

impl Store {
    fn empty() -> Store {
        Store { projects: Vec::new(), todos: Vec::new(), next_project: 1, next_todo: 1 }
    }

    fn filled() -> Store {
        let mut store = Store::empty();
        for name in ["Project 1", "Project 2", "Project 3"] {
            store.add_project(name);
        }
        let rows: [(&str, Status, i64, Option<Date>, Option<Date>); 10] = [
            ("Todo 1", Status::ToDo, 1, None, None),
            ("Todo 2", Status::InProgress, 1, None, None),
            ("Todo 3", Status::InProgress, 2, None, None),
            ("Todo 4", Status::ToDo, 2, None, None),
            ("Todo 5", Status::Done, 2, None, Some(day(2026, 5, 1))),
            ("Todo 6", Status::ToDo, 3, None, None),
            ("Todo 7", Status::InProgress, 3, None, None),
            ("Todo 8", Status::InProgress, 3, None, None),
            ("Todo 9", Status::ToDo, 3, None, None),
            ("Todo 10", Status::Done, 3, Some(day(2026, 7, 1)), Some(day(2026, 8, 1))),
        ];
        for (name, status, project_id, due_date, completed_at) in rows {
            let id = store.next_todo;
            store.next_todo += 1;
            store.todos.push(Todo {
                id,
                todo: String::from(name),
                info: name.to_lowercase(),
                status,
                project_id: Some(project_id),
                project: None,
                due_date,
                created_at: day(2026, 1, 1),
                completed_at,
            });
        }
        store
    }

    fn add_project(&mut self, name: &str) -> Project {
        let p = Project {
            id: self.next_project,
            name: String::from(name),
            archived: false,
            created_at: day(2026, 1, 1),
        };
        self.next_project += 1;
        self.projects.push(p.duplicate());
        p
    }

    fn project_name(&self, id: Option<i64>) -> Option<String> {
        let id = id?;
        self.projects.iter().find(|p| p.id == id).map(|p| p.name.clone())
    }

    fn list_todos(&self) -> Vec<Todo> {
        self.todos
            .iter()
            .map(|t| {
                let mut t = t.duplicate();
                t.project = self.project_name(t.project_id);
                t
            })
            .collect()
    }

    fn list_projects(&self) -> Vec<Project> {
        self.projects.iter().map(|p| p.duplicate()).collect()
    }

    fn answer(&mut self, request: Request) -> Response {
        match request {
            Request::GetTodo(id) => match self.list_todos().into_iter().find(|t| t.id == id) {
                Some(t) => Response::Todo(t),
                None => Response::Failed(String::from("Query returned no rows")),
            },
            Request::UpdateTodoStatus(id, status, completed_at) => {
                for t in self.todos.iter_mut().filter(|t| t.id == id) {
                    t.status = status;
                    t.completed_at = completed_at;
                }
                Response::Done
            },
            Request::DeleteTodo(id) => {
                self.todos.retain(|t| t.id != id);
                Response::Done
            },
            Request::DeleteProject(id) => {
                self.projects.retain(|p| p.id != id);
                Response::Done
            },
            Request::FindProjectByName(name) => {
                Response::ProjectFound(self.projects.iter().find(|p| p.name == name).map(|p| p.id))
            },
            Request::CreateProject(new_project) => {
                Response::Project(self.add_project(&new_project.name))
            },
            Request::CreateTodo(record) => {
                let id = self.next_todo;
                self.next_todo += 1;
                self.todos.push(Todo {
                    id,
                    todo: record.todo,
                    info: record.info,
                    status: record.status,
                    project_id: record.project_id,
                    project: None,
                    due_date: record.due_date,
                    created_at: day(2026, 1, 1),
                    completed_at: record.completed_at,
                });
                Response::Done
            },
            Request::UpdateTodo(record) => {
                for t in self.todos.iter_mut().filter(|t| t.id == record.id) {
                    t.todo = record.todo.clone();
                    t.info = record.info.clone();
                    t.status = record.status;
                    t.project_id = record.project_id;
                    t.due_date = record.due_date;
                    t.completed_at = record.completed_at;
                }
                Response::Done
            },
            Request::GetProject(id) => match self.projects.iter().find(|p| p.id == id) {
                Some(p) => Response::Project(p.duplicate()),
                None => Response::Failed(String::from("Query returned no rows")),
            },
            Request::UpdateProject(project) => {
                for p in self.projects.iter_mut().filter(|p| p.id == project.id) {
                    p.name = project.name.clone();
                    p.archived = project.archived;
                }
                Response::Done
            },
            Request::ListTodos => Response::Todos(self.list_todos()),
            Request::ListProjects => Response::Projects(self.list_projects()),
        }
    }
}

fn open_app(store: &Store) -> App {
    App::new(store.list_todos(), store.list_projects())
}

/// Drives an operation to its end against the store.
fn run(app: &mut App, store: &mut Store, op: Option<Operation>) {
    let mut op = op;
    while let Some(current) = op {
        let response = store.answer(current.request());
        op = current.advance(app, response);
    }
}

fn press(app: &mut App, store: &mut Store, code: KeyCode) {
    let key = KeyEvent::new(code, KeyModifiers::none());
    assert!(can_update(app, key));
    let op = update(app, key);
    run(app, store, op);
}

fn project_id_at(app: &App, index: usize) -> i64 {
    match &app.projects.items[index] {
        ProjectListItem::Project(project) => project.id,
        ProjectListItem::All => panic!("expected a project"),
    }
}

fn todo_ids(app: &App) -> Vec<i64> {
    let mut ids: Vec<i64> = app.todo_table.items.iter().map(|todo| todo.id).collect();
    ids.sort();
    ids
}

#[test]
fn pressing_a_in_projects_opens_project_popup() {
    let mut store = Store::empty();
    let mut app = open_app(&store);

    app.active_panel = ActivePanel::Projects;

    press(&mut app, &mut store, KeyCode::Char('a'));

    assert!(matches!(app.dialog, Some(Dialog::Project(_))));
}

#[test]
fn pressing_a_in_todos_opens_todo_popup() {
    let mut store = Store::empty();
    let mut app = open_app(&store);

    app.active_panel = ActivePanel::Todos;

    press(&mut app, &mut store, KeyCode::Char('a'));

    assert!(matches!(app.dialog, Some(Dialog::Todo(_))));
}

#[test]
fn pressing_enter_in_todos_opens_todo_popup() {
    let mut store = Store::filled();
    let mut app = open_app(&store);

    app.active_panel = ActivePanel::Todos;
    app.todo_table.state.select(Some(1));

    press(&mut app, &mut store, KeyCode::Enter);

    assert!(matches!(app.dialog, Some(Dialog::Todo(_))));
}

#[test]
fn pressing_enter_in_projects_opens_project_popup() {
    let mut store = Store::filled();
    let mut app = open_app(&store);

    app.active_panel = ActivePanel::Projects;
    app.projects.state.select(Some(1));

    press(&mut app, &mut store, KeyCode::Enter);

    assert!(matches!(app.dialog, Some(Dialog::Project(_))));
}

#[test]
fn selecting_a_project_filters_todos() {
    let store = Store::filled();
    let mut app = open_app(&store);

    app.select_project(Some(1), store.list_todos());
    assert_eq!(app.todo_filter.project_id, Some(1));
    assert_eq!(todo_ids(&app), vec![1, 2]);

    app.select_project(Some(3), store.list_todos());
    assert_eq!(app.todo_filter.project_id, Some(3));
    assert_eq!(todo_ids(&app), vec![6, 7, 8, 9, 10]);
}

#[test]
fn submitting_todo_creates_todo() {
    let mut store = Store::empty();
    let mut app = open_app(&store);

    let op = app.create_todo(NewTodo {
        todo: String::from("My todo"),
        info: String::from("My todo info"),
        status: Status::ToDo,
        project: Some(String::from("My project")),
        due_date: None,
    });
    run(&mut app, &mut store, Some(op));

    let todo = &app.todo_table.items[0];
    assert_eq!(todo.id, 1);
    assert_eq!(todo.project_id, Some(1));

    assert_eq!(project_id_at(&app, 1), 1);
}

#[test]
fn submitting_project_creates_project() {
    let mut store = Store::empty();
    let mut app = open_app(&store);

    let op = app.create_project(NewProject::new(String::from("My project")));
    run(&mut app, &mut store, Some(op));

    assert_eq!(project_id_at(&app, 1), 1);
}

#[test]
fn submitting_project_edits_existing_project() {
    let mut store = Store::empty();
    let mut app = open_app(&store);

    let op = app.create_project(NewProject::new(String::from("My project")));
    run(&mut app, &mut store, Some(op));

    let project_id = project_id_at(&app, 1);
    let project_name = match &app.projects.items[1] {
        ProjectListItem::Project(project) => project.name.clone(),
        ProjectListItem::All => panic!("expected a project"),
    };
    assert_eq!(project_name, "My project");

    let op = app.update_project(
        project_id,
        ProjectFormData { name: String::from("My updated project"), archived: false },
    );
    run(&mut app, &mut store, Some(op));

    let project_name = match &app.projects.items[1] {
        ProjectListItem::Project(project) => project.name.clone(),
        ProjectListItem::All => panic!("expected a project"),
    };
    assert_eq!(project_name, "My updated project");
}

#[test]
fn new_app_shows_all_todos_with_first_selected() {
    let store = Store::filled();
    let app = open_app(&store);
    assert_eq!(app.todo_table.items.len(), 10);
    assert_eq!(app.todo_table.state.selected(), Some(0));
    assert_eq!(app.projects.items.len(), 4);
    assert!(matches!(app.projects.items[0], ProjectListItem::All));
    assert_eq!(app.projects.state.selected(), Some(0));
    assert_eq!(app.todo_filter.project_id, None);
    assert!(app.dialog.is_none());
    assert!(!app.should_quit);
}

#[test]
fn h_and_l_switch_panels_and_q_quits() {
    let mut store = Store::filled();
    let mut app = open_app(&store);
    press(&mut app, &mut store, KeyCode::Char('h'));
    assert_eq!(app.active_panel, ActivePanel::Projects);
    press(&mut app, &mut store, KeyCode::Char('h'));
    assert_eq!(app.active_panel, ActivePanel::Projects);
    press(&mut app, &mut store, KeyCode::Char('l'));
    assert_eq!(app.active_panel, ActivePanel::Todos);
    assert!(!app.should_quit);
    press(&mut app, &mut store, KeyCode::Char('q'));
    assert!(app.should_quit);
}

#[test]
fn esc_quits_without_dialog_and_closes_dialog() {
    let mut store = Store::filled();
    let mut app = open_app(&store);
    press(&mut app, &mut store, KeyCode::Char('a'));
    assert!(app.dialog.is_some());
    press(&mut app, &mut store, KeyCode::Esc);
    assert!(app.dialog.is_none());
    assert!(!app.should_quit);
    press(&mut app, &mut store, KeyCode::Esc);
    assert!(app.should_quit);
}

#[test]
fn j_and_k_wrap_around_the_todo_table() {
    let mut store = Store::filled();
    let mut app = open_app(&store);
    press(&mut app, &mut store, KeyCode::Char('k'));
    assert_eq!(app.todo_table.state.selected(), Some(9));
    press(&mut app, &mut store, KeyCode::Char('j'));
    assert_eq!(app.todo_table.state.selected(), Some(0));
    press(&mut app, &mut store, KeyCode::Char('j'));
    assert_eq!(app.todo_table.state.selected(), Some(1));
}

#[test]
fn space_toggles_status_and_sets_completion_date() {
    let mut store = Store::filled();
    let mut app = open_app(&store);
    app.todo_table.state.select(Some(1));
    // Todo 2 is in progress: it becomes done today.
    press(&mut app, &mut store, KeyCode::Char(' '));
    let toggled = store.todos.iter().find(|t| t.id == 2).unwrap();
    assert_eq!(toggled.status, Status::Done);
    let completed = toggled.completed_at.expect("a completion date");
    assert!(completed.is_valid());
    assert_eq!(app.todo_table.items[1].status, Status::Done);
    assert_eq!(app.active_panel, ActivePanel::Todos);
    // The table is built anew, with its first row selected.
    assert_eq!(app.todo_table.state.selected(), Some(0));
    // Done goes back to to-do and loses its date.
    app.todo_table.state.select(Some(1));
    press(&mut app, &mut store, KeyCode::Char(' '));
    let toggled = store.todos.iter().find(|t| t.id == 2).unwrap();
    assert_eq!(toggled.status, Status::ToDo);
    assert_eq!(toggled.completed_at, None);
}

#[test]
fn confirming_deletion_of_a_todo_deletes_it() {
    let mut store = Store::filled();
    let mut app = open_app(&store);
    app.todo_table.state.select(Some(2));
    press(&mut app, &mut store, KeyCode::Char('d'));
    match &app.dialog {
        Some(Dialog::Confirm(popup)) => {
            assert_eq!(popup.message, "Delete task \"Todo 3\"?");
            assert_eq!(popup.action, ConfirmAction::DeleteTodo(3));
        },
        _ => panic!("expected a confirmation"),
    }
    press(&mut app, &mut store, KeyCode::Char('y'));
    assert!(app.dialog.is_none());
    assert_eq!(todo_ids(&app), vec![1, 2, 4, 5, 6, 7, 8, 9, 10]);
    assert_eq!(store.todos.len(), 9);
}

#[test]
fn answering_no_keeps_the_todo() {
    let mut store = Store::filled();
    let mut app = open_app(&store);
    press(&mut app, &mut store, KeyCode::Char('d'));
    assert!(matches!(app.dialog, Some(Dialog::Confirm(_))));
    press(&mut app, &mut store, KeyCode::Char('n'));
    assert!(app.dialog.is_none());
    assert_eq!(store.todos.len(), 10);
}

#[test]
fn deleting_a_project_selects_all_todos() {
    let mut store = Store::filled();
    let mut app = open_app(&store);
    app.select_project(Some(2), store.list_todos());
    app.active_panel = ActivePanel::Projects;
    app.projects.state.select(Some(2));
    press(&mut app, &mut store, KeyCode::Char('d'));
    match &app.dialog {
        Some(Dialog::Confirm(popup)) => {
            assert_eq!(popup.message, "Delete project\"Project 2\"?");
            assert_eq!(popup.action, ConfirmAction::DeleteProject(2));
        },
        _ => panic!("expected a confirmation"),
    }
    press(&mut app, &mut store, KeyCode::Char('y'));
    assert!(app.dialog.is_none());
    assert_eq!(app.projects.items.len(), 3);
    assert_eq!(app.projects.state.selected(), Some(0));
    assert_eq!(app.todo_filter.project_id, None);
    assert_eq!(app.todo_table.items.len(), 10);
}

#[test]
fn a_refused_request_shows_its_message() {
    let store = Store::empty();
    let mut app = open_app(&store);
    let op = app.toggle_status_todo(42);
    assert!(matches!(op.request(), Request::GetTodo(42)));
    let next = op.advance(&mut app, Response::Failed(String::from("Query returned no rows")));
    assert!(next.is_none());
    assert_eq!(app.error_message.as_deref(), Some("Query returned no rows"));
}

#[test]
fn an_unexpected_answer_ends_the_operation() {
    let store = Store::empty();
    let mut app = open_app(&store);
    let op = app.delete_todo(3);
    let next = op.advance(&mut app, Response::Projects(Vec::new()));
    assert!(next.is_none());
    assert!(app.error_message.is_none());
}

#[test]
fn typing_a_new_todo_in_the_dialog_saves_it() {
    let mut store = Store::filled();
    let mut app = open_app(&store);
    press(&mut app, &mut store, KeyCode::Char('a'));
    for c in "Buy".chars() {
        press(&mut app, &mut store, KeyCode::Char(c));
    }
    press(&mut app, &mut store, KeyCode::Backspace);
    press(&mut app, &mut store, KeyCode::Char('y'));
    // info
    press(&mut app, &mut store, KeyCode::Tab);
    for c in "milk".chars() {
        press(&mut app, &mut store, KeyCode::Char(c));
    }
    press(&mut app, &mut store, KeyCode::Left);
    press(&mut app, &mut store, KeyCode::Backspace);
    // status
    press(&mut app, &mut store, KeyCode::Tab);
    press(&mut app, &mut store, KeyCode::Char('j'));
    // due date, then project
    press(&mut app, &mut store, KeyCode::Tab);
    press(&mut app, &mut store, KeyCode::Tab);
    for c in "Shop".chars() {
        press(&mut app, &mut store, KeyCode::Char(c));
    }
    press(&mut app, &mut store, KeyCode::Enter);

    assert!(app.dialog.is_none());
    let saved = store.todos.last().unwrap();
    assert_eq!(saved.todo, "Buy");
    assert_eq!(saved.info, "mik");
    assert_eq!(saved.status, Status::InProgress);
    assert_eq!(saved.project_id, Some(4));
    assert_eq!(store.projects[3].name, "Shop");
    assert_eq!(app.todo_table.items.len(), 11);
    assert_eq!(app.projects.items.len(), 5);
}

#[test]
fn editing_a_todo_keeps_its_text_and_project() {
    let mut store = Store::filled();
    let mut app = open_app(&store);
    app.todo_table.state.select(Some(9));
    press(&mut app, &mut store, KeyCode::Enter);
    match &app.dialog {
        Some(Dialog::Todo(popup)) => {
            let form = popup.into_form_data();
            assert_eq!(form.todo, "Todo 10");
            assert_eq!(form.info, "todo 10");
            assert_eq!(form.project.as_deref(), Some("Project 3"));
            assert_eq!(form.status, Status::Done);
            assert_eq!(form.due_date, Some(day(2026, 7, 1)));
            assert_eq!(popup.calendar_date, day(2026, 7, 1));
        },
        _ => panic!("expected the todo dialog"),
    }
    // Moving it back to in progress clears its completion date.
    press(&mut app, &mut store, KeyCode::Tab);
    press(&mut app, &mut store, KeyCode::Tab);
    press(&mut app, &mut store, KeyCode::Char('k'));
    press(&mut app, &mut store, KeyCode::Enter);
    assert!(app.dialog.is_none());
    let saved = store.todos.iter().find(|t| t.id == 10).unwrap();
    assert_eq!(saved.status, Status::InProgress);
    assert_eq!(saved.completed_at, None);
    assert_eq!(saved.project_id, Some(3));
    assert_eq!(saved.info, "todo 10");
    assert_eq!(app.todo_table.state.selected(), Some(9));
}

#[test]
fn the_calendar_moves_by_day_week_and_month() {
    let mut store = Store::filled();
    let mut app = open_app(&store);
    app.todo_table.state.select(Some(9));
    press(&mut app, &mut store, KeyCode::Enter);
    for _ in 0..3 {
        press(&mut app, &mut store, KeyCode::Tab);
    }
    let steps: [(char, Date); 6] = [
        ('l', day(2026, 7, 2)),
        ('j', day(2026, 7, 9)),
        ('n', day(2026, 8, 9)),
        ('k', day(2026, 8, 2)),
        ('h', day(2026, 8, 1)),
        ('p', day(2026, 7, 1)),
    ];
    for (c, expected) in steps {
        press(&mut app, &mut store, KeyCode::Char(c));
        match &app.dialog {
            Some(Dialog::Todo(popup)) => assert_eq!(popup.calendar_date, expected),
            _ => panic!("expected the todo dialog"),
        }
    }
    // Enter on the calendar picks the date as the due date.
    press(&mut app, &mut store, KeyCode::Char('l'));
    press(&mut app, &mut store, KeyCode::Enter);
    match &app.dialog {
        Some(Dialog::Todo(popup)) => assert_eq!(popup.due_date, Some(day(2026, 7, 2))),
        _ => panic!("expected the todo dialog"),
    }
}

#[test]
fn the_calendar_refuses_a_month_without_the_day() {
    let mut store = Store::filled();
    let mut app = open_app(&store);
    app.add_todo();
    if let Some(Dialog::Todo(popup)) = &mut app.dialog {
        popup.calendar_date = day(2026, 1, 31);
    }
    for _ in 0..3 {
        press(&mut app, &mut store, KeyCode::Tab);
    }
    let key = KeyEvent::new(KeyCode::Char('n'), KeyModifiers::none());
    assert!(!can_update(&app, key));
    let key = KeyEvent::new(KeyCode::Char('p'), KeyModifiers::none());
    assert!(can_update(&app, key));
}

#[test]
fn shift_tab_moves_the_focus_back() {
    let mut store = Store::filled();
    let mut app = open_app(&store);
    press(&mut app, &mut store, KeyCode::Char('a'));
    let back = KeyEvent::new(KeyCode::Tab, KeyModifiers::shift());
    let op = update(&mut app, back);
    assert!(op.is_none());
    // From the title the focus wraps round to the project.
    for c in "Home".chars() {
        press(&mut app, &mut store, KeyCode::Char(c));
    }
    match &app.dialog {
        Some(Dialog::Todo(popup)) => {
            assert_eq!(popup.project.value, "Home");
            assert_eq!(popup.todo.value, "");
        },
        _ => panic!("expected the todo dialog"),
    }
}

#[test]
fn the_project_dialog_edits_a_name() {
    let mut store = Store::filled();
    let mut app = open_app(&store);
    app.active_panel = ActivePanel::Projects;
    app.projects.state.select(Some(1));
    press(&mut app, &mut store, KeyCode::Enter);
    press(&mut app, &mut store, KeyCode::Left);
    press(&mut app, &mut store, KeyCode::Backspace);
    press(&mut app, &mut store, KeyCode::Char('X'));
    press(&mut app, &mut store, KeyCode::Right);
    press(&mut app, &mut store, KeyCode::Char('!'));
    press(&mut app, &mut store, KeyCode::Enter);
    assert!(app.dialog.is_none());
    assert_eq!(store.projects[0].name, "ProjectX1!");
    assert_eq!(app.active_panel, ActivePanel::Projects);
}

#[test]
fn completion_date_follows_the_status_change() {
    let today = day(2026, 3, 4);
    let had = Some(day(2025, 1, 1));
    assert_eq!(completion_date(Status::ToDo, Status::Done, None, today), Some(today));
    assert_eq!(completion_date(Status::InProgress, Status::Done, None, today), Some(today));
    assert_eq!(completion_date(Status::Done, Status::InProgress, had, today), None);
    assert_eq!(completion_date(Status::Done, Status::ToDo, had, today), None);
    assert_eq!(completion_date(Status::ToDo, Status::InProgress, had, today), had);
    assert_eq!(completion_date(Status::Done, Status::Done, had, today), had);
}

#[test]
fn reloading_keeps_the_selected_todo() {
    let store = Store::filled();
    let mut app = open_app(&store);
    app.todo_table.state.select(Some(4));
    let mut todos = store.list_todos();
    todos.remove(0);
    app.reload_todos(todos);
    assert_eq!(app.todo_table.items.len(), 9);
    assert_eq!(app.todo_table.state.selected(), Some(3));
    assert_eq!(app.todo_table.items[3].id, 5);
    app.reload_todos(Vec::new());
    assert_eq!(app.todo_table.state.selected(), None);
}

#[test]
fn find_project_id_gives_the_first_match() {
    let store = Store::filled();
    let app = open_app(&store);
    assert_eq!(app.find_project_id("Project 2"), Some(2));
    assert_eq!(app.find_project_id("Nope"), None);
}

#[test]
fn the_description_editor_starts_at_the_end_of_the_text() {
    let mut store = Store::filled();
    let mut app = open_app(&store);
    app.todo_table.state.select(Some(0));
    press(&mut app, &mut store, KeyCode::Enter);
    press(&mut app, &mut store, KeyCode::Tab);
    press(&mut app, &mut store, KeyCode::Char('!'));
    press(&mut app, &mut store, KeyCode::Enter);
    let saved = store.todos.iter().find(|t| t.id == 1).unwrap();
    assert_eq!(saved.info, "todo 1!");
    assert_eq!(saved.todo, "Todo 1");
}

#[test]
fn left_and_right_move_through_the_description() {
    let mut store = Store::filled();
    let mut app = open_app(&store);
    app.todo_table.state.select(Some(0));
    press(&mut app, &mut store, KeyCode::Enter);
    press(&mut app, &mut store, KeyCode::Tab);
    // "todo 1": the cursor starts at the end.
    press(&mut app, &mut store, KeyCode::Left);
    press(&mut app, &mut store, KeyCode::Left);
    press(&mut app, &mut store, KeyCode::Right);
    press(&mut app, &mut store, KeyCode::Backspace);
    press(&mut app, &mut store, KeyCode::Char('X'));
    press(&mut app, &mut store, KeyCode::Enter);
    let saved = store.todos.iter().find(|t| t.id == 1).unwrap();
    assert_eq!(saved.info, "todoX1");
}
