//! Schema migrations: the versioned steps that build the schema, which of
//! them a database still needs, and the version ledger they leave behind.
//!
//! Each step is applied in one transaction together with the row that records
//! its version in `schema_version`, so the ledger never falls behind the
//! schema. The current version is the largest recorded one, 0 when none is.
use vstd::prelude::*;

verus! {

/// The newest schema version.
pub const LATEST_VERSION: i32 = 2;

/// Turns on enforcement of foreign keys, on which subtask deletion relies.
pub const ENABLE_FOREIGN_KEYS: &'static str = "PRAGMA foreign_keys = ON";

/// The version ledger.
pub const CREATE_VERSION_TABLE: &'static str = "CREATE TABLE IF NOT EXISTS schema_version (version INTEGER PRIMARY KEY, applied_at TEXT NOT NULL DEFAULT CURRENT_TIMESTAMP)";

/// Reads the largest recorded version; NULL when none is recorded.
pub const SELECT_CURRENT_VERSION: &'static str = "SELECT MAX(version) FROM schema_version";

/// Records that a version has been applied.
pub const RECORD_VERSION: &'static str = "INSERT INTO schema_version (version) VALUES (?1)";

/// Users (one default user in single-user mode).
pub const CREATE_USERS: &'static str = "CREATE TABLE IF NOT EXISTS users (id INTEGER PRIMARY KEY AUTOINCREMENT, email TEXT UNIQUE, display_name TEXT NOT NULL, created_at TEXT NOT NULL DEFAULT CURRENT_TIMESTAMP, updated_at TEXT NOT NULL DEFAULT CURRENT_TIMESTAMP)";

/// Workspaces (one personal workspace).
pub const CREATE_WORKSPACES: &'static str = "CREATE TABLE IF NOT EXISTS workspaces (id INTEGER PRIMARY KEY AUTOINCREMENT, name TEXT NOT NULL, workspace_type TEXT NOT NULL DEFAULT 'personal', owner_user_id INTEGER, created_at TEXT NOT NULL DEFAULT CURRENT_TIMESTAMP, updated_at TEXT NOT NULL DEFAULT CURRENT_TIMESTAMP, FOREIGN KEY (owner_user_id) REFERENCES users(id) ON DELETE CASCADE)";

/// Projects.
pub const CREATE_PROJECTS: &'static str = "CREATE TABLE IF NOT EXISTS projects (id INTEGER PRIMARY KEY AUTOINCREMENT, name TEXT NOT NULL, color TEXT NOT NULL, icon TEXT, archived INTEGER NOT NULL DEFAULT 0, created_at TEXT NOT NULL DEFAULT CURRENT_TIMESTAMP, updated_at TEXT NOT NULL DEFAULT CURRENT_TIMESTAMP)";

/// Tasks; deleting a parent deletes its subtasks, deleting a project clears the reference.
pub const CREATE_TASKS: &'static str = "CREATE TABLE IF NOT EXISTS tasks (id INTEGER PRIMARY KEY AUTOINCREMENT, user_id INTEGER NOT NULL DEFAULT 1, workspace_id INTEGER NOT NULL DEFAULT 1, title TEXT NOT NULL, description TEXT, project_id INTEGER, status TEXT NOT NULL DEFAULT 'todo', priority INTEGER DEFAULT 0, estimated_minutes INTEGER, difficulty_level INTEGER, energy_level TEXT, scheduled_date TEXT, due_date TEXT, completed_at TEXT, parent_task_id INTEGER, order_index INTEGER DEFAULT 0, tags TEXT, created_at TEXT NOT NULL DEFAULT CURRENT_TIMESTAMP, updated_at TEXT NOT NULL DEFAULT CURRENT_TIMESTAMP, FOREIGN KEY (user_id) REFERENCES users(id) ON DELETE CASCADE, FOREIGN KEY (workspace_id) REFERENCES workspaces(id) ON DELETE CASCADE, FOREIGN KEY (project_id) REFERENCES projects(id) ON DELETE SET NULL, FOREIGN KEY (parent_task_id) REFERENCES tasks(id) ON DELETE CASCADE)";

/// Index on task status.
pub const INDEX_TASKS_STATUS: &'static str = "CREATE INDEX IF NOT EXISTS idx_tasks_status ON tasks(status)";

/// Index on the scheduled date.
pub const INDEX_TASKS_SCHEDULED: &'static str = "CREATE INDEX IF NOT EXISTS idx_tasks_scheduled_date ON tasks(scheduled_date)";

/// Index on the due date.
pub const INDEX_TASKS_DUE: &'static str = "CREATE INDEX IF NOT EXISTS idx_tasks_due_date ON tasks(due_date)";

/// Index on the owning user.
pub const INDEX_TASKS_USER: &'static str = "CREATE INDEX IF NOT EXISTS idx_tasks_user_id ON tasks(user_id)";

/// Full-text index over title and description.
pub const CREATE_TASKS_FTS: &'static str = "CREATE VIRTUAL TABLE IF NOT EXISTS tasks_fts USING fts5(title, description, content=tasks, content_rowid=id)";

/// Keeps the full-text index in step on insert.
pub const TRIGGER_FTS_INSERT: &'static str = "CREATE TRIGGER IF NOT EXISTS tasks_fts_insert AFTER INSERT ON tasks BEGIN INSERT INTO tasks_fts(rowid, title, description) VALUES (new.id, new.title, new.description); END";

/// Keeps the full-text index in step on update.
pub const TRIGGER_FTS_UPDATE: &'static str = "CREATE TRIGGER IF NOT EXISTS tasks_fts_update AFTER UPDATE ON tasks BEGIN UPDATE tasks_fts SET title = new.title, description = new.description WHERE rowid = new.id; END";

/// Keeps the full-text index in step on delete.
pub const TRIGGER_FTS_DELETE: &'static str = "CREATE TRIGGER IF NOT EXISTS tasks_fts_delete AFTER DELETE ON tasks BEGIN DELETE FROM tasks_fts WHERE rowid = old.id; END";

/// Per-user preferences.
pub const CREATE_PREFERENCES: &'static str = "CREATE TABLE IF NOT EXISTS user_preferences (id INTEGER PRIMARY KEY, user_id INTEGER NOT NULL DEFAULT 1, theme TEXT DEFAULT 'system', default_view TEXT DEFAULT 'list', created_at TEXT NOT NULL DEFAULT CURRENT_TIMESTAMP, updated_at TEXT NOT NULL DEFAULT CURRENT_TIMESTAMP, FOREIGN KEY (user_id) REFERENCES users(id) ON DELETE CASCADE)";

/// The default user.
pub const SEED_USER: &'static str = "INSERT OR IGNORE INTO users (id, display_name) VALUES (1, 'Default User')";

/// The default workspace.
pub const SEED_WORKSPACE: &'static str = "INSERT OR IGNORE INTO workspaces (id, name, workspace_type, owner_user_id) VALUES (1, 'Personal', 'personal', 1)";

/// Board position of a task within its status column.
pub const ADD_COLUMN_POSITION: &'static str = "ALTER TABLE tasks ADD COLUMN column_position INTEGER DEFAULT 0";

/// Index on the parent task, for subtask lookups.
pub const INDEX_TASKS_PARENT: &'static str = "CREATE INDEX IF NOT EXISTS idx_tasks_parent_id ON tasks(parent_task_id)";

/// The statements of one migration step, in order.
pub open spec fn migration_script(version: int) -> Seq<&'static str> {
    if version == 1 {
        seq![CREATE_USERS, CREATE_WORKSPACES, CREATE_PROJECTS, CREATE_TASKS, INDEX_TASKS_STATUS, INDEX_TASKS_SCHEDULED, INDEX_TASKS_DUE, INDEX_TASKS_USER, CREATE_TASKS_FTS, TRIGGER_FTS_INSERT, TRIGGER_FTS_UPDATE, TRIGGER_FTS_DELETE, CREATE_PREFERENCES, SEED_USER, SEED_WORKSPACE]
    } else if version == 2 {
        seq![ADD_COLUMN_POSITION, INDEX_TASKS_PARENT]
    } else {
        Seq::empty()
    }
}

/// The statements of migration step `version`.
pub fn migration_statements(version: i32) -> (r: Vec<&'static str>)
    requires
        1 <= version <= LATEST_VERSION,
    ensures
        r@ == migration_script(version as int),
{
    let r = if version == 1 {
        vec![CREATE_USERS, CREATE_WORKSPACES, CREATE_PROJECTS, CREATE_TASKS, INDEX_TASKS_STATUS, INDEX_TASKS_SCHEDULED, INDEX_TASKS_DUE, INDEX_TASKS_USER, CREATE_TASKS_FTS, TRIGGER_FTS_INSERT, TRIGGER_FTS_UPDATE, TRIGGER_FTS_DELETE, CREATE_PREFERENCES, SEED_USER, SEED_WORKSPACE]
    } else {
        vec![ADD_COLUMN_POSITION, INDEX_TASKS_PARENT]
    };
    assert(r@ =~= migration_script(version as int));
    r
}

/// The version a database is at, given the largest recorded version (`None`
/// when the ledger is empty or cannot be read).
pub fn current_version(recorded_max: Option<i32>) -> (r: i32)
    ensures
        r == match recorded_max {
            Some(v) => v,
            None => 0,
        },
{
    match recorded_max {
        Some(v) => v,
        None => 0,
    }
}

/// The versions still to apply from version `current`, in increasing order:
/// every version above `current` up to `LATEST_VERSION`.
pub open spec fn pending(current: int) -> Seq<i32> {
    let from = if current < 0 {
        0
    } else {
        current
    };
    if from >= LATEST_VERSION {
        Seq::empty()
    } else {
        Seq::new((LATEST_VERSION - from) as nat, |i: int| (from + 1 + i) as i32)
    }
}

/// The migration steps a database at version `current` still needs.
pub fn pending_migrations(current: i32) -> (r: Vec<i32>)
    ensures
        r@ == pending(current as int),
{
    let mut v: i32 = if current < 0 {
        0
    } else {
        current
    };
    let ghost from = v as int;
    let mut r: Vec<i32> = Vec::new();
    while v < LATEST_VERSION
        invariant
            from <= v <= LATEST_VERSION || (from >= LATEST_VERSION && v == from),
            from == (if current < 0 { 0 } else { current as int }),
            v < LATEST_VERSION ==> r@.len() == v - from,
            forall|i: int| 0 <= i < r@.len() ==> r@[i] == from + 1 + i,
            from < LATEST_VERSION ==> r@.len() == v - from,
            from >= LATEST_VERSION ==> r@.len() == 0,
        decreases LATEST_VERSION - v,
    {
        v = v + 1;
        r.push(v);
    }
    assert(r@ =~= pending(current as int));
    r
}

/// The version a ledger records: its largest entry, or 0 when it is empty.
pub open spec fn ledger_version(ledger: Seq<i32>) -> int
    decreases ledger.len(),
{
    if ledger.len() == 0 {
        0
    } else {
        let rest = ledger_version(ledger.drop_last());
        if ledger.last() > rest {
            ledger.last() as int
        } else {
            rest
        }
    }
}

/// The ledger after the migrations have run once: the pending versions are
/// recorded after the ones already there.
pub open spec fn ledger_after_run(ledger: Seq<i32>) -> Seq<i32> {
    ledger + pending(ledger_version(ledger))
}

/// A ledger that runs of the migrations can leave: the versions from 1 up,
/// each once, in order.
pub open spec fn ledger_valid(ledger: Seq<i32>) -> bool {
    &&& ledger.len() <= LATEST_VERSION
    &&& forall|i: int| 0 <= i < ledger.len() ==> ledger[i] == i + 1
}

/// Running the migrations twice in a row: the first run leaves every version
/// from 1 to the latest recorded exactly once, in order, and the second run
/// records nothing more.
pub proof fn lemma_migrations_idempotent(ledger: Seq<i32>)
    requires
        ledger_valid(ledger),
    ensures
        ledger_after_run(ledger) == seq![1i32, 2i32],
        ledger_version(ledger_after_run(ledger)) == LATEST_VERSION,
        ledger_after_run(ledger_after_run(ledger)) == ledger_after_run(ledger),
{
    let l = ledger;
    if l.len() == 0 {
        assert(ledger_version(l) == 0);
    } else if l.len() == 1 {
        assert(ledger_version(l.drop_last()) == 0);
        assert(l.last() == l[0]);
        assert(ledger_version(l) == 1);
    } else {
        assert(ledger_version(l.drop_last().drop_last()) == 0);
        assert(l.drop_last().last() == l[0]);
        assert(ledger_version(l.drop_last()) == 1);
        assert(l.last() == l[1]);
        assert(ledger_version(l) == 2);
    }
    let l1 = ledger_after_run(l);
    assert(l1 =~= seq![1i32, 2i32]);
    assert(l1.drop_last() =~= seq![1i32]);
    assert(l1.drop_last().drop_last() =~= Seq::<i32>::empty());
    assert(ledger_version(l1.drop_last().drop_last()) == 0);
    assert(ledger_version(l1.drop_last()) == 1);
    assert(ledger_version(l1) == 2);
    assert(ledger_after_run(l1) =~= l1);
}

} // verus!
