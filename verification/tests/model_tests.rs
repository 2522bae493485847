use todo_tui::calendar::{events, events_checked, CalendarError, CalendarMark, MarkKind};
use todo_tui::date::{
    can_go_to_next_month, can_go_to_prev_month, days_in, has_room_after, has_room_before,
    leap_year, move_down, move_left, move_right, move_up, next_month, prev_month, Date, MAX_YEAR,
    MIN_YEAR,
};
use todo_tui::fields::StringField;
use todo_tui::keys::{KeyCode, KeyEvent, KeyEventKind, KeyModifiers};
use todo_tui::textarea::editor_input;
use todo_tui::models::{NewProject, NewTodoItem, Todo, TodoListItem};
use todo_tui::project_popup::{ProjectPopup, ProjectPopupMode};
use todo_tui::models::Project;
use todo_tui::status::{status_icon, Status, DONE_ICON, TODO_IN_PROGRESS_ICON};
use todo_tui::text::{join_lines, split_lines};
use todo_tui::todo_popup::{Focus, TodoPopup, TodoPopupMode};

fn day(year: i32, month: u32, d: u32) -> Date {
    Date { year, month, day: d }
}

fn key(code: KeyCode) -> KeyEvent {
    KeyEvent::new(code, KeyModifiers::none())
}

fn sample_todo() -> Todo {
    Todo {
        id: 7,
        todo: String::from("Write report"),
        info: String::from("intro\r\nbody\nend\n"),
        status: Status::InProgress,
        project_id: Some(2),
        project: Some(String::from("Work")),
        due_date: None,
        created_at: day(2026, 1, 1),
        completed_at: None,
    }
}

#[test]
fn status_cycles_forward_and_back() {
    assert_eq!(Status::ToDo.next(), Status::InProgress);
    assert_eq!(Status::InProgress.next(), Status::Done);
    assert_eq!(Status::Done.next(), Status::ToDo);
    for s in [Status::ToDo, Status::InProgress, Status::Done] {
        assert_eq!(s.next().previous(), s);
        assert_eq!(s.previous().next(), s);
        assert_eq!(s.next().next().next(), s);
    }
}

#[test]
fn status_names_round_trip() {
    assert_eq!(Status::ToDo.as_str(), "todo");
    assert_eq!(Status::InProgress.as_str(), "in_progress");
    assert_eq!(Status::Done.as_str(), "done");
    for s in [Status::ToDo, Status::InProgress, Status::Done] {
        assert_eq!(Status::from_str(s.as_str()), Ok(s));
    }
}

#[test]
fn unknown_status_is_refused() {
    assert_eq!(Status::from_str("later"), Err(String::from("Invalid status: later")));
    assert_eq!(Status::from_str("Done"), Err(String::from("Invalid status: Done")));
    assert_eq!(Status::from_str(""), Err(String::from("Invalid status: ")));
}

#[test]
fn status_labels_and_icons() {
    assert_eq!(Status::ToDo.label(), "To Do");
    assert_eq!(Status::InProgress.label(), "In Progress");
    assert_eq!(Status::Done.label(), "Done");
    assert_eq!(status_icon(Status::Done), DONE_ICON);
    assert_eq!(status_icon(Status::ToDo), TODO_IN_PROGRESS_ICON);
    assert_eq!(status_icon(Status::InProgress), TODO_IN_PROGRESS_ICON);
    assert_ne!(DONE_ICON, TODO_IN_PROGRESS_ICON);
}

#[test]
fn toggling_an_item_moves_its_status() {
    let mut t = sample_todo();
    t.toggle_status();
    assert_eq!(t.status, Status::Done);
    let mut item = TodoListItem {
        id: 1,
        todo: String::from("x"),
        info: String::new(),
        status: Status::Done,
        project: None,
        due_date: None,
    };
    item.toggle_status();
    assert_eq!(item.status, Status::ToDo);
    let n = NewTodoItem::new(Status::ToDo, String::from("a"), String::from("b"), Some(3), None);
    assert_eq!(n.todo, "a");
    assert_eq!(n.project_id, Some(3));
    let p = NewProject::new(String::from("Home"));
    assert_eq!(p.name, "Home");
    assert!(!p.archived);
}

#[test]
fn leap_years_and_month_lengths() {
    assert!(leap_year(2024));
    assert!(!leap_year(2023));
    assert!(!leap_year(1900));
    assert!(leap_year(2000));
    assert!(leap_year(-4));
    assert!(!leap_year(-100));
    assert_eq!(days_in(2024, 2), 29);
    assert_eq!(days_in(2023, 2), 28);
    assert_eq!(days_in(2023, 4), 30);
    assert_eq!(days_in(2023, 12), 31);
    assert!(day(2024, 2, 29).is_valid());
    assert!(!day(2023, 2, 29).is_valid());
    assert!(!day(2023, 13, 1).is_valid());
    assert!(!day(2023, 1, 0).is_valid());
    assert!(!day(MAX_YEAR + 1, 1, 1).is_valid());
}

#[test]
fn moving_by_days_and_weeks_crosses_months() {
    assert_eq!(move_right(day(2026, 1, 31)), day(2026, 2, 1));
    assert_eq!(move_left(day(2026, 3, 1)), day(2026, 2, 28));
    assert_eq!(move_left(day(2024, 3, 1)), day(2024, 2, 29));
    assert_eq!(move_down(day(2026, 12, 28)), day(2027, 1, 4));
    assert_eq!(move_up(day(2027, 1, 4)), day(2026, 12, 28));
}

#[test]
fn moving_by_months_keeps_the_day() {
    assert_eq!(next_month(day(2026, 12, 15)), day(2027, 1, 15));
    assert_eq!(prev_month(day(2027, 1, 15)), day(2026, 12, 15));
    assert_eq!(next_month(day(2026, 1, 28)), day(2026, 2, 28));
    assert_eq!(prev_month(day(2026, 3, 28)), day(2026, 2, 28));
}

#[test]
fn months_without_the_day_are_refused() {
    assert!(!can_go_to_next_month(day(2026, 1, 31)));
    assert!(can_go_to_next_month(day(2024, 1, 29)));
    assert!(!can_go_to_next_month(day(2026, 1, 29)));
    assert!(!can_go_to_prev_month(day(2026, 3, 31)));
    assert!(can_go_to_prev_month(day(2026, 3, 28)));
    assert!(can_go_to_next_month(day(2026, 12, 31)));
    assert!(!can_go_to_next_month(day(MAX_YEAR, 12, 1)));
    assert!(!can_go_to_prev_month(day(MIN_YEAR, 1, 1)));
}

#[test]
fn the_ends_of_the_calendar() {
    assert!(has_room_after(day(MAX_YEAR, 12, 24), 7));
    assert!(!has_room_after(day(MAX_YEAR, 12, 25), 7));
    assert!(!has_room_after(day(MAX_YEAR, 12, 31), 1));
    assert!(has_room_before(day(MIN_YEAR, 1, 8), 7));
    assert!(!has_room_before(day(MIN_YEAR, 1, 7), 7));
    assert!(!has_room_before(day(MIN_YEAR, 1, 1), 1));
    assert!(has_room_after(day(2026, 12, 31), 7));
}

#[test]
fn typing_and_backspace_in_a_text_input() {
    let mut f = StringField::blank("Title");
    for c in ['a', 'b'] {
        assert!(f.accepts(key(KeyCode::Char(c))));
        f.on_key_press(key(KeyCode::Char(c)));
    }
    assert_eq!(f.value, "ab");
    assert_eq!(f.cursor, 2);
    f.on_key_press(key(KeyCode::Char('é')));
    assert_eq!(f.value, "abé");
    // The cursor counts bytes and moves by one: it now stands inside 'é'.
    assert_eq!(f.cursor, 3);
    assert!(!f.accepts(key(KeyCode::Char('x'))));
    assert!(f.accepts(key(KeyCode::Backspace)));
    f.on_key_press(key(KeyCode::Backspace));
    assert_eq!(f.value, "ab");
    assert_eq!(f.cursor, 2);
    f.cursor_left();
    assert_eq!(f.cursor, 1);
    f.on_key_press(key(KeyCode::Char('x')));
    assert_eq!(f.value, "axb");
    assert_eq!(f.cursor, 2);
    f.on_key_press(key(KeyCode::Backspace));
    f.on_key_press(key(KeyCode::Backspace));
    assert_eq!(f.value, "b");
    assert_eq!(f.cursor, 0);
    f.on_key_press(key(KeyCode::Backspace));
    assert_eq!(f.value, "b");
    f.on_key_press(key(KeyCode::Delete));
    assert_eq!(f.value, "b");
    assert_eq!(f.label, "Title");
}

#[test]
fn the_byte_cursor_refuses_to_split_a_character() {
    let mut f = StringField::new("Name", String::from("é"));
    assert_eq!(f.cursor, 2);
    f.cursor_left();
    assert_eq!(f.cursor, 1);
    assert!(!f.accepts(key(KeyCode::Char('x'))));
    assert!(f.accepts(key(KeyCode::Left)));
    f.cursor_right();
    f.cursor_right();
    assert_eq!(f.cursor, 2);
    assert!(f.accepts(key(KeyCode::Char('x'))));
    assert_eq!(f.stringfield_to_string(), "é");
}

#[test]
fn lines_split_and_join() {
    assert_eq!(split_lines("a\r\nb\nc"), vec!["a", "b", "c"]);
    assert_eq!(split_lines("a\n\nb\n"), vec!["a", "", "b"]);
    assert_eq!(split_lines(""), Vec::<String>::new());
    assert_eq!(split_lines("x\r"), vec!["x\r"]);
    let lines = vec![String::from("one"), String::from(""), String::from("three")];
    assert_eq!(join_lines(&lines), "one\n\nthree");
    assert_eq!(join_lines(&Vec::new()), "");
    let text = "first\nsecond";
    assert_eq!(join_lines(&split_lines(text)), text);
}

#[test]
fn a_new_todo_dialog_is_empty() {
    let p = TodoPopup::new();
    assert_eq!(p.mode, TodoPopupMode::Create);
    assert_eq!(p.focus, Focus::Todo);
    assert_eq!(p.status, Status::ToDo);
    assert_eq!(p.due_date, None);
    assert!(p.calendar_date.is_valid());
    let t = p.into_new_todo();
    assert_eq!(t.todo, "");
    assert_eq!(t.info, "");
    assert_eq!(t.project, None);
    let q = TodoPopup::new_on(day(2026, 5, 17));
    assert_eq!(q.calendar_date, day(2026, 5, 17));
}

#[test]
fn an_edit_dialog_gives_back_the_todo() {
    let t = sample_todo();
    let p = TodoPopup::from_todo_on(&t, day(2026, 5, 17));
    assert_eq!(p.mode, TodoPopupMode::Edit(7));
    assert_eq!(p.calendar_date, day(2026, 5, 17));
    let form = p.into_form_data();
    assert_eq!(form.todo, "Write report");
    assert_eq!(form.info, "intro\nbody\nend");
    assert_eq!(form.status, Status::InProgress);
    assert_eq!(form.project.as_deref(), Some("Work"));
    assert_eq!(form.due_date, None);
}

#[test]
fn an_empty_project_name_is_no_project() {
    let mut t = sample_todo();
    t.project = Some(String::new());
    let p = TodoPopup::from_todo(&t);
    assert_eq!(p.into_form_data().project, None);
}

#[test]
fn focus_cycles_through_the_dialog() {
    let mut p = TodoPopup::new();
    let order = [Focus::Info, Focus::Status, Focus::DueDate, Focus::Project, Focus::Todo];
    for f in order {
        p.focus_next();
        assert_eq!(p.focus, f);
    }
    p.focus_previous();
    assert_eq!(p.focus, Focus::Project);
}

#[test]
fn the_project_dialog() {
    let p = ProjectPopup::new();
    assert_eq!(p.mode, ProjectPopupMode::Create);
    assert_eq!(p.name.value, "");
    let project = Project {
        id: 4,
        name: String::from("Garden"),
        archived: true,
        created_at: day(2026, 1, 1),
    };
    let q = ProjectPopup::from_project(&project);
    assert_eq!(q.mode, ProjectPopupMode::Edit(4));
    let form = q.into_form_data();
    assert_eq!(form.name, "Garden");
    assert!(form.archived);
    let new_project = q.into_new_project();
    assert_eq!(new_project.name, "Garden");
}

#[test]
fn the_calendar_marks_holidays_seasons_and_the_selected_day() {
    let selected = day(2026, 5, 17);
    let marks = events(selected).expect("representable days");
    assert_eq!(marks.len(), 13);
    assert_eq!(marks[0], CalendarMark { date: day(2026, 1, 1), kind: MarkKind::Holiday });
    assert_eq!(marks[1], CalendarMark { date: day(2027, 1, 1), kind: MarkKind::Holiday });
    assert_eq!(marks[5], CalendarMark { date: day(2026, 5, 4), kind: MarkKind::Holiday });
    assert_eq!(marks[8], CalendarMark { date: day(2026, 3, 22), kind: MarkKind::Season });
    assert_eq!(marks[11], CalendarMark { date: day(2026, 12, 21), kind: MarkKind::Season });
    assert_eq!(marks[12], CalendarMark { date: selected, kind: MarkKind::Selected });
    let holidays = marks.iter().filter(|m| m.kind == MarkKind::Holiday).count();
    assert_eq!(holidays, 8);
}

#[test]
fn the_calendar_refuses_days_it_cannot_show() {
    // The next new year's day of the last year the calendar can show is out of range.
    assert_eq!(events_checked(day(9999, 6, 1)), Some(Err(CalendarError::ComponentRange)));
    assert_eq!(events_checked(day(10000, 6, 1)), None);
    assert!(matches!(events_checked(day(2024, 2, 29)), Some(Ok(_))));
}

#[test]
fn the_description_editor_reports_changes() {
    let mut p = TodoPopup::new();
    assert!(editor_input(&mut p.info, key(KeyCode::Char('x'))));
    assert!(editor_input(&mut p.info, key(KeyCode::Enter)));
    assert!(!editor_input(&mut p.info, key(KeyCode::Left)));
    assert!(!editor_input(&mut p.info, key(KeyCode::Esc)));
    assert!(!editor_input(&mut p.info, key(KeyCode::F(2))));
    let released = KeyEvent { kind: KeyEventKind::Release, ..key(KeyCode::Char('y')) };
    assert!(!editor_input(&mut p.info, released));
    assert_eq!(p.into_new_todo().info, "x\n");
}

#[test]
fn typing_over_a_selection_replaces_it() {
    let mut t = Todo { info: String::from("abc"), ..sample_todo() };
    t.project = None;
    let mut p = TodoPopup::from_todo_on(&t, day(2026, 5, 17));
    let select_to_start = KeyEvent::new(KeyCode::Home, KeyModifiers::shift());
    assert!(!editor_input(&mut p.info, select_to_start));
    assert!(editor_input(&mut p.info, key(KeyCode::Char('x'))));
    assert_eq!(p.into_form_data().info, "x");
    // Without a selection the character goes in at the cursor.
    let mut q = TodoPopup::from_todo_on(&t, day(2026, 5, 17));
    assert!(!editor_input(&mut q.info, key(KeyCode::Home)));
    assert!(editor_input(&mut q.info, key(KeyCode::Char('x'))));
    assert_eq!(q.into_form_data().info, "xabc");
}

#[test]
fn the_calendar_shows_every_year_of_its_range() {
    assert!(matches!(events_checked(day(-9999, 1, 1)), Some(Ok(_))));
    assert!(matches!(events_checked(day(9998, 12, 31)), Some(Ok(_))));
}

#[test]
fn the_description_editor_deletes_joins_and_tabs() {
    let t = Todo { info: String::from("abc"), project: None, ..sample_todo() };
    let mut p = TodoPopup::from_todo_on(&t, day(2026, 5, 17));
    // The cursor starts after the last character.
    assert!(!editor_input(&mut p.info, key(KeyCode::Delete)));
    assert!(!editor_input(&mut p.info, key(KeyCode::Home)));
    assert!(editor_input(&mut p.info, key(KeyCode::Delete)));
    assert_eq!(p.into_form_data().info, "bc");
    assert!(!editor_input(&mut p.info, key(KeyCode::End)));
    assert!(editor_input(&mut p.info, key(KeyCode::Backspace)));
    assert_eq!(p.into_form_data().info, "b");
    assert!(editor_input(&mut p.info, key(KeyCode::Tab)));
    assert_eq!(p.into_form_data().info, "b   ");
    assert!(editor_input(&mut p.info, key(KeyCode::Tab)));
    assert_eq!(p.into_form_data().info, "b       ");
    assert!(editor_input(&mut p.info, key(KeyCode::Enter)));
    assert_eq!(p.into_form_data().info, "b       \n");
    assert!(editor_input(&mut p.info, key(KeyCode::Backspace)));
    assert_eq!(p.into_form_data().info, "b       ");
    assert!(!editor_input(&mut p.info, key(KeyCode::Home)));
    assert!(!editor_input(&mut p.info, key(KeyCode::Backspace)));
    assert_eq!(p.into_form_data().info, "b       ");
}
