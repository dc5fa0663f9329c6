use rusqlite::types::{Value, ValueRef};
use rusqlite::{params_from_iter, Connection};
use zweites_gehirn::models::{CreateTaskInput, Task, UpdateTaskInput};
use zweites_gehirn::repository::{is_status_listing, task_from_lookup, tasks_from_rows, with_subtasks, RepoError};
use zweites_gehirn::row::SqlValue;
use zweites_gehirn::schema::{
    current_version, migration_statements, pending_migrations, CREATE_VERSION_TABLE, ENABLE_FOREIGN_KEYS,
    RECORD_VERSION, SELECT_CURRENT_VERSION,
};
use zweites_gehirn::statement::{
    column_move_update, complete_statement, delete_statement, insert_statement, list_statement,
    subtasks_statement, task_by_id_statement, update_statement, Statement,
};

fn to_value(v: &SqlValue) -> Value {
    match v {
        SqlValue::Null | SqlValue::Real => Value::Null,
        SqlValue::Integer(i) => Value::Integer(*i),
        SqlValue::Text(s) => Value::Text(s.clone()),
        SqlValue::Blob(b) => Value::Blob(b.clone()),
    }
}

fn from_ref(v: ValueRef<'_>) -> SqlValue {
    match v {
        ValueRef::Null => SqlValue::Null,
        ValueRef::Integer(i) => SqlValue::Integer(i),
        ValueRef::Real(_) => SqlValue::Real,
        ValueRef::Text(b) => SqlValue::Text(String::from_utf8_lossy(b).into_owned()),
        ValueRef::Blob(b) => SqlValue::Blob(b.to_vec()),
    }
}

fn execute(conn: &Connection, st: &Statement) -> usize {
    conn.execute(&st.sql, params_from_iter(st.params.iter().map(to_value))).unwrap()
}

fn query(conn: &Connection, st: &Statement) -> Vec<Vec<SqlValue>> {
    let mut stmt = conn.prepare(&st.sql).unwrap();
    let n = stmt.column_count();
    let mut rows = stmt.query(params_from_iter(st.params.iter().map(to_value))).unwrap();
    let mut out = Vec::new();
    while let Some(row) = rows.next().unwrap() {
        out.push((0..n).map(|i| from_ref(row.get_ref(i).unwrap())).collect());
    }
    out
}

fn migrate(conn: &mut Connection) {
    conn.execute_batch(ENABLE_FOREIGN_KEYS).unwrap();
    conn.execute(CREATE_VERSION_TABLE, []).unwrap();
    let recorded: Option<i32> = conn.query_row(SELECT_CURRENT_VERSION, [], |r| r.get(0)).unwrap();
    for v in pending_migrations(current_version(recorded)) {
        let tx = conn.transaction().unwrap();
        for s in migration_statements(v) {
            tx.execute(s, []).unwrap();
        }
        tx.execute(RECORD_VERSION, [v]).unwrap();
        tx.commit().unwrap();
    }
}

fn open() -> Connection {
    let mut conn = Connection::open_in_memory().unwrap();
    migrate(&mut conn);
    conn
}

fn input(title: &str) -> CreateTaskInput {
    CreateTaskInput {
        title: title.to_string(),
        description: None,
        project_id: None,
        estimated_minutes: None,
        difficulty_level: None,
        energy_level: None,
        scheduled_date: None,
        due_date: None,
        parent_task_id: None,
        tags: None,
    }
}

fn get(conn: &Connection, id: i64) -> Result<Task, RepoError> {
    task_from_lookup(id, &query(conn, &task_by_id_statement(id)))
}

fn create(conn: &Connection, i: CreateTaskInput) -> Task {
    execute(conn, &insert_statement(i));
    get(conn, conn.last_insert_rowid()).unwrap()
}

fn update(conn: &Connection, id: i64, u: UpdateTaskInput) -> Task {
    if let Some(st) = update_statement(id, u) {
        execute(conn, &st);
    }
    get(conn, id).unwrap()
}

fn list(conn: &Connection, status: Option<&str>) -> Vec<Task> {
    tasks_from_rows(&query(conn, &list_statement(status.map(|s| s.to_string())))).unwrap()
}

#[test]
fn create_complete_delete_scenario() {
    let conn = open();
    let t = create(&conn, input("Write spec"));
    assert_eq!(t.id, 1);
    assert_eq!(t.status, "todo");
    assert_eq!(t.priority, 0);
    assert!(t.completed_at.is_none());
    execute(&conn, &complete_statement(1));
    let done = get(&conn, 1).unwrap();
    assert_eq!(done.status, "completed");
    assert!(done.completed_at.is_some());
    execute(&conn, &delete_statement(1));
    assert!(matches!(get(&conn, 1), Err(RepoError::NotFound { id: 1 })));
}

#[test]
fn created_task_takes_defaults() {
    let conn = open();
    let mut i = input("Plan");
    i.description = Some("week".to_string());
    i.tags = Some(vec!["home".to_string()]);
    let t = create(&conn, i);
    assert_eq!(t.status, "todo");
    assert_eq!(t.priority, 0);
    assert_eq!(t.order_index, 0);
    assert_eq!(t.column_position, 0);
    assert_eq!(t.user_id, 1);
    assert_eq!(t.workspace_id, 1);
    assert!(!t.created_at.is_empty());
    assert!(!t.updated_at.is_empty());
    assert_eq!(t.description.as_deref(), Some("week"));
    assert_eq!(t.tags.as_deref(), Some("[\"home\"]"));
}

#[test]
fn completing_twice_keeps_terminal_state() {
    let conn = open();
    let t = create(&conn, input("Twice"));
    execute(&conn, &complete_statement(t.id));
    let once = get(&conn, t.id).unwrap();
    execute(&conn, &complete_statement(t.id));
    let twice = get(&conn, t.id).unwrap();
    assert_eq!(twice.status, "completed");
    assert!(twice.completed_at.is_some());
    assert_eq!(once.title, twice.title);
    assert_eq!(once.priority, twice.priority);
}

#[test]
fn empty_update_leaves_task_unchanged() {
    let conn = open();
    let t = create(&conn, input("Same"));
    let u = update(&conn, t.id, UpdateTaskInput::empty());
    assert_eq!(format!("{:?}", t), format!("{:?}", u));
}

#[test]
fn update_writes_present_fields() {
    let conn = open();
    let t = create(&conn, input("Old"));
    let mut u = UpdateTaskInput::empty();
    u.title = Some("New".to_string());
    u.order_index = Some(7);
    u.tags = Some(vec!["x".to_string(), "y".to_string()]);
    let n = update(&conn, t.id, u);
    assert_eq!(n.title, "New");
    assert_eq!(n.order_index, 7);
    assert_eq!(n.tags.as_deref(), Some("[\"x\",\"y\"]"));
    assert_eq!(n.status, "todo");
    let moved = update(&conn, t.id, column_move_update("doing".to_string(), 3));
    assert_eq!(moved.status, "doing");
    assert_eq!(moved.column_position, 3);
    assert_eq!(moved.title, "New");
}

#[test]
fn deleting_parent_removes_subtasks() {
    let conn = open();
    let parent = create(&conn, input("Parent"));
    let mut a = input("Child a");
    a.parent_task_id = Some(parent.id);
    let a = create(&conn, a);
    let mut b = input("Child b");
    b.parent_task_id = Some(parent.id);
    let b = create(&conn, b);
    let other = create(&conn, input("Other"));
    let subs = tasks_from_rows(&query(&conn, &subtasks_statement(parent.id))).unwrap();
    assert_eq!(subs.len(), 2);
    execute(&conn, &delete_statement(parent.id));
    assert!(matches!(get(&conn, a.id), Err(RepoError::NotFound { .. })));
    assert!(matches!(get(&conn, b.id), Err(RepoError::NotFound { .. })));
    assert!(get(&conn, other.id).is_ok());
    assert!(query(&conn, &subtasks_statement(parent.id)).is_empty());
}

#[test]
fn listing_by_status_filters_and_orders() {
    let conn = open();
    for (title, status, col, ord) in [
        ("a", "todo", 2, 0),
        ("b", "done", 0, 0),
        ("c", "todo", 1, 5),
        ("d", "todo", 1, 1),
        ("e", "Todo", 0, 0),
    ] {
        let t = create(&conn, input(title));
        let mut u = UpdateTaskInput::empty();
        u.status = Some(status.to_string());
        u.column_position = Some(col);
        u.order_index = Some(ord);
        update(&conn, t.id, u);
    }
    conn.execute("UPDATE tasks SET created_at = '2024-01-0' || id", []).unwrap();
    let f = create(&conn, input("f"));
    let mut u = UpdateTaskInput::empty();
    u.column_position = Some(1);
    u.order_index = Some(1);
    update(&conn, f.id, u);
    conn.execute("UPDATE tasks SET created_at = '2024-01-09' WHERE id = ?1", [f.id]).unwrap();
    let todo = list(&conn, Some("todo"));
    let titles: Vec<&str> = todo.iter().map(|t| t.title.as_str()).collect();
    assert_eq!(titles, vec!["f", "d", "c", "a"]);
    assert!(todo.iter().all(|t| t.status == "todo"));
    assert!(is_status_listing(&todo, &Some("todo".to_string())));
    let all = list(&conn, None);
    assert_eq!(all.len(), 6);
    assert!(is_status_listing(&all, &None));
    assert!(!is_status_listing(&all, &Some("todo".to_string())));
}

#[test]
fn subtask_bundle_reports_progress() {
    let conn = open();
    let parent = create(&conn, input("Parent"));
    let mut ids = Vec::new();
    for title in ["one", "two", "three"] {
        let mut i = input(title);
        i.parent_task_id = Some(parent.id);
        ids.push(create(&conn, i).id);
    }
    execute(&conn, &complete_statement(ids[1]));
    let subs = tasks_from_rows(&query(&conn, &subtasks_statement(parent.id))).unwrap();
    let titles: Vec<&str> = subs.iter().map(|t| t.title.as_str()).collect();
    assert_eq!(titles, vec!["one", "two", "three"]);
    let b = with_subtasks(get(&conn, parent.id).unwrap(), subs);
    assert_eq!((b.progress.total, b.progress.completed, b.progress.percentage), (3, 1, 33));
    let lone = with_subtasks(get(&conn, ids[0]).unwrap(), Vec::new());
    assert_eq!(lone.progress.percentage, 0);
}

#[test]
fn migrating_twice_records_each_version_once() {
    let mut conn = open();
    migrate(&mut conn);
    let versions: Vec<i32> = conn
        .prepare("SELECT version FROM schema_version ORDER BY version")
        .unwrap()
        .query_map([], |r| r.get(0))
        .unwrap()
        .map(|v| v.unwrap())
        .collect();
    assert_eq!(versions, vec![1, 2]);
    let users: i64 = conn.query_row("SELECT COUNT(*) FROM users", [], |r| r.get(0)).unwrap();
    assert_eq!(users, 1);
}
