use zweites_gehirn::models::Task;
use zweites_gehirn::repository::{is_status_listing, progress_percentage, subtask_progress, text_le_exec, task_from_lookup, tasks_from_rows, with_subtasks, RepoError};
use zweites_gehirn::row::{task_from_row, RowError, SqlValue};

fn text(s: &str) -> SqlValue {
    SqlValue::Text(s.to_string())
}

fn sample_row(id: i64, status: &str) -> Vec<SqlValue> {
    vec![
        SqlValue::Integer(id),
        SqlValue::Integer(1),
        SqlValue::Integer(1),
        text("Write spec"),
        SqlValue::Null,
        SqlValue::Integer(4),
        text(status),
        SqlValue::Integer(0),
        SqlValue::Integer(30),
        SqlValue::Null,
        text("high"),
        SqlValue::Null,
        text("2024-02-01"),
        SqlValue::Null,
        SqlValue::Null,
        SqlValue::Integer(2),
        SqlValue::Integer(5),
        text("[\"a\"]"),
        text("2024-01-01 10:00:00"),
        text("2024-01-02 10:00:00"),
    ]
}

fn sample_task(id: i64, status: &str) -> Task {
    task_from_row(&sample_row(id, status)).unwrap()
}

#[test]
fn row_maps_every_column() {
    let t = task_from_row(&sample_row(7, "todo")).unwrap();
    assert_eq!(t.id, 7);
    assert_eq!(t.user_id, 1);
    assert_eq!(t.workspace_id, 1);
    assert_eq!(t.title, "Write spec");
    assert_eq!(t.description, None);
    assert_eq!(t.project_id, Some(4));
    assert_eq!(t.status, "todo");
    assert_eq!(t.priority, 0);
    assert_eq!(t.estimated_minutes, Some(30));
    assert_eq!(t.difficulty_level, None);
    assert_eq!(t.energy_level.as_deref(), Some("high"));
    assert_eq!(t.scheduled_date, None);
    assert_eq!(t.due_date.as_deref(), Some("2024-02-01"));
    assert_eq!(t.completed_at, None);
    assert_eq!(t.parent_task_id, None);
    assert_eq!(t.order_index, 2);
    assert_eq!(t.column_position, 5);
    assert_eq!(t.tags.as_deref(), Some("[\"a\"]"));
    assert_eq!(t.created_at, "2024-01-01 10:00:00");
    assert_eq!(t.updated_at, "2024-01-02 10:00:00");
}

#[test]
fn short_row_is_rejected() {
    let mut row = sample_row(1, "todo");
    row.truncate(19);
    assert_eq!(task_from_row(&row).unwrap_err(), RowError::MissingColumns { found: 19 });
    assert_eq!(task_from_row(&Vec::new()).unwrap_err(), RowError::MissingColumns { found: 0 });
}

#[test]
fn first_rejected_column_is_reported() {
    let mut row = sample_row(1, "todo");
    row[7] = SqlValue::Null;
    row[9] = text("oops");
    assert_eq!(task_from_row(&row).unwrap_err(), RowError::ColumnType { index: 7 });
    let mut row = sample_row(1, "todo");
    row[3] = SqlValue::Integer(3);
    assert_eq!(task_from_row(&row).unwrap_err(), RowError::ColumnType { index: 3 });
    let mut row = sample_row(1, "todo");
    row[0] = SqlValue::Real;
    assert_eq!(task_from_row(&row).unwrap_err(), RowError::ColumnType { index: 0 });
}

#[test]
fn out_of_range_i32_is_rejected() {
    let mut row = sample_row(1, "todo");
    row[15] = SqlValue::Integer(i32::MAX as i64 + 1);
    assert_eq!(task_from_row(&row).unwrap_err(), RowError::ColumnType { index: 15 });
    let mut row = sample_row(1, "todo");
    row[8] = SqlValue::Integer(i32::MIN as i64 - 1);
    assert_eq!(task_from_row(&row).unwrap_err(), RowError::ColumnType { index: 8 });
    let mut row = sample_row(1, "todo");
    row[16] = SqlValue::Integer(i32::MIN as i64);
    assert_eq!(task_from_row(&row).unwrap().column_position, i32::MIN);
}

#[test]
fn extra_columns_are_ignored() {
    let mut row = sample_row(3, "todo");
    row.push(SqlValue::Blob(vec![1, 2]));
    assert_eq!(task_from_row(&row).unwrap().id, 3);
}

#[test]
fn rows_are_read_in_order_until_the_first_bad_one() {
    let rows = vec![sample_row(1, "todo"), sample_row(2, "completed")];
    let ts = tasks_from_rows(&rows).unwrap();
    assert_eq!(ts.len(), 2);
    assert_eq!(ts[0].id, 1);
    assert_eq!(ts[1].status, "completed");
    let mut bad = sample_row(3, "todo");
    bad[6] = SqlValue::Null;
    let mut worse = sample_row(4, "todo");
    worse[0] = SqlValue::Null;
    let rows = vec![sample_row(1, "todo"), bad, worse];
    assert_eq!(tasks_from_rows(&rows).unwrap_err(), RowError::ColumnType { index: 6 });
    assert!(tasks_from_rows(&Vec::new()).unwrap().is_empty());
}

#[test]
fn lookup_without_rows_is_not_found() {
    match task_from_lookup(9, &Vec::new()) {
        Err(RepoError::NotFound { id }) => assert_eq!(id, 9),
        other => panic!("unexpected {:?}", other),
    }
    assert_eq!(task_from_lookup(9, &vec![sample_row(9, "todo")]).unwrap().id, 9);
    let mut bad = sample_row(9, "todo");
    bad.truncate(3);
    match task_from_lookup(9, &vec![bad]) {
        Err(RepoError::Row(e)) => assert_eq!(e, RowError::MissingColumns { found: 3 }),
        other => panic!("unexpected {:?}", other),
    }
}

#[test]
fn progress_without_subtasks_is_zero() {
    let p = subtask_progress(&Vec::new());
    assert_eq!((p.total, p.completed, p.percentage), (0, 0, 0));
}

#[test]
fn progress_counts_completed_subtasks() {
    let subs = vec![sample_task(2, "completed"), sample_task(3, "todo"), sample_task(4, "in_progress")];
    let p = subtask_progress(&subs);
    assert_eq!((p.total, p.completed, p.percentage), (3, 1, 33));
    let exact = (p.completed as f64 / p.total as f64) * 100.0;
    assert!((exact - p.percentage as f64).abs() < 1.0);
    let subs = vec![sample_task(2, "completed"), sample_task(3, "todo")];
    assert_eq!(subtask_progress(&subs).percentage, 50);
    let subs = vec![sample_task(2, "completed"), sample_task(3, "completed")];
    assert_eq!(subtask_progress(&subs).percentage, 100);
    let subs = vec![sample_task(2, "Completed"), sample_task(3, "completed ")];
    assert_eq!(subtask_progress(&subs).completed, 0);
}

#[test]
fn bundle_keeps_task_and_subtasks() {
    let b = with_subtasks(sample_task(1, "todo"), vec![sample_task(2, "completed"), sample_task(3, "todo")]);
    assert_eq!(b.task.id, 1);
    assert_eq!(b.subtasks.len(), 2);
    assert_eq!((b.progress.total, b.progress.completed, b.progress.percentage), (2, 1, 50));
}

fn placed(id: i64, status: &str, col: i32, ord: i32, created: &str) -> Task {
    let mut t = sample_task(id, status);
    t.column_position = col;
    t.order_index = ord;
    t.created_at = created.to_string();
    t
}

#[test]
fn text_order_is_code_point_order() {
    let s = |x: &str| x.to_string();
    assert!(text_le_exec(&s("2024-01-01"), &s("2024-01-02")));
    assert!(!text_le_exec(&s("2024-01-02"), &s("2024-01-01")));
    assert!(text_le_exec(&s("abc"), &s("abc")));
    assert!(text_le_exec(&s(""), &s("a")));
    assert!(text_le_exec(&s("ab"), &s("abc")));
    assert!(!text_le_exec(&s("abc"), &s("ab")));
    assert!(text_le_exec(&s("Z"), &s("a")));
    assert!(text_le_exec(&s("z"), &s("\u{e9}")));
}

#[test]
fn listing_check_follows_board_order() {
    let ok = vec![
        placed(1, "todo", 0, 0, "2024-01-05"),
        placed(2, "todo", 0, 0, "2024-01-03"),
        placed(3, "todo", 0, 2, "2024-01-09"),
        placed(4, "todo", 1, 0, "2024-01-01"),
    ];
    assert!(is_status_listing(&ok, &Some("todo".to_string())));
    assert!(is_status_listing(&ok, &None));
    assert!(!is_status_listing(&ok, &Some("done".to_string())));
    let older_first = vec![placed(1, "todo", 0, 0, "2024-01-03"), placed(2, "todo", 0, 0, "2024-01-05")];
    assert!(!is_status_listing(&older_first, &None));
    let by_order = vec![placed(1, "todo", 0, 3, "2024-01-05"), placed(2, "todo", 0, 1, "2024-01-05")];
    assert!(!is_status_listing(&by_order, &None));
    let mixed = vec![placed(1, "todo", 0, 0, "2024-01-05"), placed(2, "done", 1, 0, "2024-01-05")];
    assert!(is_status_listing(&mixed, &None));
    assert!(!is_status_listing(&mixed, &Some("todo".to_string())));
    assert!(is_status_listing(&Vec::new(), &Some("todo".to_string())));
}

#[test]
fn percentage_rounds_down() {
    assert_eq!(progress_percentage(0, 0), 0);
    assert_eq!(progress_percentage(2, 3), 66);
    assert_eq!(progress_percentage(1, 7), 14);
    assert_eq!(progress_percentage(i32::MAX, i32::MAX), 100);
    assert_eq!(progress_percentage(0, 5), 0);
}
