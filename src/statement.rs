//! The statements the task repository issues: their text and their
//! positional parameters.
use vstd::prelude::*;
use vstd::string::StringExecFns;
use crate::models::{CreateTaskInput, UpdateTaskInput};
use crate::row::SqlValue;

verus! {

/// What a parameter or column value is, as a mathematical value.
pub enum SqlDatum {
    Null,
    Integer(int),
    Real,
    Text(Seq<char>),
    Blob(Seq<u8>),
}

impl View for SqlValue {
    type V = SqlDatum;

    open spec fn view(&self) -> SqlDatum {
        match self {
            SqlValue::Null => SqlDatum::Null,
            SqlValue::Integer(v) => SqlDatum::Integer(*v as int),
            SqlValue::Real => SqlDatum::Real,
            SqlValue::Text(s) => SqlDatum::Text(s@),
            SqlValue::Blob(b) => SqlDatum::Blob(b@),
        }
    }
}

/// The values of a parameter list.
pub open spec fn datums(s: Seq<SqlValue>) -> Seq<SqlDatum> {
    s.map_values(|v: SqlValue| v@)
}

/// A statement with positional parameters.
#[derive(Debug, Clone)]
pub struct Statement {
    pub sql: String,
    pub params: Vec<SqlValue>,
}

/// Looks up one task by id.
pub const SELECT_TASK_BY_ID: &'static str = "SELECT id, user_id, workspace_id, title, description, project_id, status, priority, estimated_minutes, difficulty_level, energy_level, scheduled_date, due_date, completed_at, parent_task_id, order_index, column_position, tags, created_at, updated_at FROM tasks WHERE id = ?1";

/// Lists all tasks in board order.
pub const SELECT_ALL_TASKS: &'static str = "SELECT id, user_id, workspace_id, title, description, project_id, status, priority, estimated_minutes, difficulty_level, energy_level, scheduled_date, due_date, completed_at, parent_task_id, order_index, column_position, tags, created_at, updated_at FROM tasks ORDER BY column_position, order_index, created_at DESC";

/// Lists the tasks with one status in board order.
pub const SELECT_TASKS_BY_STATUS: &'static str = "SELECT id, user_id, workspace_id, title, description, project_id, status, priority, estimated_minutes, difficulty_level, energy_level, scheduled_date, due_date, completed_at, parent_task_id, order_index, column_position, tags, created_at, updated_at FROM tasks WHERE status = ?1 ORDER BY column_position, order_index, created_at DESC";

/// Lists the direct subtasks of a task, oldest first among equal order indexes.
pub const SELECT_SUBTASKS: &'static str = "SELECT id, user_id, workspace_id, title, description, project_id, status, priority, estimated_minutes, difficulty_level, energy_level, scheduled_date, due_date, completed_at, parent_task_id, order_index, column_position, tags, created_at, updated_at FROM tasks WHERE parent_task_id = ?1 ORDER BY order_index, created_at";

/// Inserts a task; the database supplies id, owner, status, priority,
/// positions and timestamps.
pub const INSERT_TASK: &'static str = "INSERT INTO tasks (title, description, project_id, estimated_minutes, difficulty_level, energy_level, scheduled_date, due_date, parent_task_id, tags) VALUES (?1, ?2, ?3, ?4, ?5, ?6, ?7, ?8, ?9, ?10)";

/// Deletes a task; its subtasks go with it through the foreign key.
pub const DELETE_TASK: &'static str = "DELETE FROM tasks WHERE id = ?1";

/// Marks a task completed and stamps the completion time.
pub const COMPLETE_TASK: &'static str = "UPDATE tasks SET status = 'completed', completed_at = CURRENT_TIMESTAMP WHERE id = ?1";

/// Opens a partial update.
pub const UPDATE_HEAD: &'static str = "UPDATE tasks SET ";

/// Closes a partial update: the update time is always refreshed.
pub const UPDATE_TAIL: &'static str = "updated_at = CURRENT_TIMESTAMP WHERE id = ?";

/// Placeholder written after each updated column.
pub const ASSIGN_PLACEHOLDER: &'static str = " = ?, ";

/// The columns a partial update may write; no other name ever enters an
/// update statement.
#[derive(Debug, Clone, Copy, PartialEq, Eq)]
pub enum TaskColumn {
    Title,
    Description,
    ProjectId,
    Status,
    Priority,
    EstimatedMinutes,
    DifficultyLevel,
    EnergyLevel,
    ScheduledDate,
    DueDate,
    ParentTaskId,
    OrderIndex,
    ColumnPosition,
    Tags,
}

/// The name of a column in the `tasks` table.
pub open spec fn column_text(c: TaskColumn) -> Seq<char> {
    match c {
        TaskColumn::Title => "title"@,
        TaskColumn::Description => "description"@,
        TaskColumn::ProjectId => "project_id"@,
        TaskColumn::Status => "status"@,
        TaskColumn::Priority => "priority"@,
        TaskColumn::EstimatedMinutes => "estimated_minutes"@,
        TaskColumn::DifficultyLevel => "difficulty_level"@,
        TaskColumn::EnergyLevel => "energy_level"@,
        TaskColumn::ScheduledDate => "scheduled_date"@,
        TaskColumn::DueDate => "due_date"@,
        TaskColumn::ParentTaskId => "parent_task_id"@,
        TaskColumn::OrderIndex => "order_index"@,
        TaskColumn::ColumnPosition => "column_position"@,
        TaskColumn::Tags => "tags"@,
    }
}

/// The name of a column in the `tasks` table.
pub fn column_name(c: TaskColumn) -> (r: &'static str)
    ensures
        r@ == column_text(c),
{
    match c {
        TaskColumn::Title => "title",
        TaskColumn::Description => "description",
        TaskColumn::ProjectId => "project_id",
        TaskColumn::Status => "status",
        TaskColumn::Priority => "priority",
        TaskColumn::EstimatedMinutes => "estimated_minutes",
        TaskColumn::DifficultyLevel => "difficulty_level",
        TaskColumn::EnergyLevel => "energy_level",
        TaskColumn::ScheduledDate => "scheduled_date",
        TaskColumn::DueDate => "due_date",
        TaskColumn::ParentTaskId => "parent_task_id",
        TaskColumn::OrderIndex => "order_index",
        TaskColumn::ColumnPosition => "column_position",
        TaskColumn::Tags => "tags",
    }
}

/// The assignments of a partial update, each `name = ?, `.
pub open spec fn set_list(cols: Seq<TaskColumn>) -> Seq<char>
    decreases cols.len(),
{
    if cols.len() == 0 {
        Seq::empty()
    } else {
        set_list(cols.drop_last()) + column_text(cols.last()) + ASSIGN_PLACEHOLDER@
    }
}

/// The text of a partial update writing these columns, in order.
pub open spec fn update_sql(cols: Seq<TaskColumn>) -> Seq<char> {
    UPDATE_HEAD@ + set_list(cols) + UPDATE_TAIL@
}

pub open spec fn text_datum(o: Option<String>) -> SqlDatum {
    match o {
        Some(s) => SqlDatum::Text(s@),
        None => SqlDatum::Null,
    }
}

pub open spec fn i64_datum(o: Option<i64>) -> SqlDatum {
    match o {
        Some(v) => SqlDatum::Integer(v as int),
        None => SqlDatum::Null,
    }
}

pub open spec fn i32_datum(o: Option<i32>) -> SqlDatum {
    match o {
        Some(v) => SqlDatum::Integer(v as int),
        None => SqlDatum::Null,
    }
}

/// The text views of a list of strings.
pub open spec fn texts(v: Seq<String>) -> Seq<Seq<char>> {
    v.map_values(|s: String| s@)
}

/// The serialised form of a tag list, as the JSON encoder writes it.
pub uninterp spec fn json_of_tags(tags: Seq<Seq<char>>) -> Seq<char>;

pub open spec fn tags_datum(o: Option<Vec<String>>) -> SqlDatum {
    match o {
        Some(v) => SqlDatum::Text(json_of_tags(texts(v@))),
        None => SqlDatum::Null,
    }
}

/// Relies on serde_json::to_string: a list of strings is written as a compact
/// JSON array, the same text for the same strings. Writing strings into an
/// in-memory buffer cannot fail, so the fallback is never taken.
#[verifier::external_body]
fn tags_to_json(tags: &Vec<String>) -> (r: String)
    ensures
        r@ == json_of_tags(texts(tags@)),
{
    serde_json::to_string(tags).unwrap_or_default()
}

fn text_param(o: Option<String>) -> (r: SqlValue)
    ensures
        r@ == text_datum(o),
{
    match o {
        Some(s) => SqlValue::Text(s),
        None => SqlValue::Null,
    }
}

fn i64_param(o: Option<i64>) -> (r: SqlValue)
    ensures
        r@ == i64_datum(o),
{
    match o {
        Some(v) => SqlValue::Integer(v),
        None => SqlValue::Null,
    }
}

fn i32_param(o: Option<i32>) -> (r: SqlValue)
    ensures
        r@ == i32_datum(o),
{
    match o {
        Some(v) => SqlValue::Integer(v as i64),
        None => SqlValue::Null,
    }
}

fn tags_param(o: Option<Vec<String>>) -> (r: SqlValue)
    ensures
        r@ == tags_datum(o),
{
    match o {
        Some(v) => SqlValue::Text(tags_to_json(&v)),
        None => SqlValue::Null,
    }
}

/// The parameters of `INSERT_TASK` for a creation input, in column order.
pub open spec fn insert_values(input: CreateTaskInput) -> Seq<SqlDatum> {
    seq![
        SqlDatum::Text(input.title@),
        text_datum(input.description),
        i64_datum(input.project_id),
        i32_datum(input.estimated_minutes),
        i32_datum(input.difficulty_level),
        text_datum(input.energy_level),
        text_datum(input.scheduled_date),
        text_datum(input.due_date),
        i64_datum(input.parent_task_id),
        tags_datum(input.tags),
    ]
}

/// The statement that inserts a new task. Status, priority, positions and
/// timestamps are not among its columns, so the table's defaults apply.
pub fn insert_statement(input: CreateTaskInput) -> (r: Statement)
    ensures
        r.sql@ == INSERT_TASK@,
        datums(r.params@) == insert_values(input),
{
    let ghost g = input;
    let CreateTaskInput {
        title,
        description,
        project_id,
        estimated_minutes,
        difficulty_level,
        energy_level,
        scheduled_date,
        due_date,
        parent_task_id,
        tags,
    } = input;
    let params = vec![
        SqlValue::Text(title),
        text_param(description),
        i64_param(project_id),
        i32_param(estimated_minutes),
        i32_param(difficulty_level),
        text_param(energy_level),
        text_param(scheduled_date),
        text_param(due_date),
        i64_param(parent_task_id),
        tags_param(tags),
    ];
    assert(datums(params@) =~= insert_values(g));
    Statement { sql: String::from_str(INSERT_TASK), params }
}

/// A statement whose only parameter is an id.
fn id_statement(sql: &'static str, id: i64) -> (r: Statement)
    ensures
        r.sql@ == sql@,
        datums(r.params@) == seq![SqlDatum::Integer(id as int)],
{
    let params = vec![SqlValue::Integer(id)];
    assert(datums(params@) =~= seq![SqlDatum::Integer(id as int)]);
    Statement { sql: String::from_str(sql), params }
}

/// The statement that reads one task by id.
pub fn task_by_id_statement(id: i64) -> (r: Statement)
    ensures
        r.sql@ == SELECT_TASK_BY_ID@,
        datums(r.params@) == seq![SqlDatum::Integer(id as int)],
{
    id_statement(SELECT_TASK_BY_ID, id)
}

/// The statement that deletes one task by id.
pub fn delete_statement(id: i64) -> (r: Statement)
    ensures
        r.sql@ == DELETE_TASK@,
        datums(r.params@) == seq![SqlDatum::Integer(id as int)],
{
    id_statement(DELETE_TASK, id)
}

/// The statement that marks one task completed.
pub fn complete_statement(id: i64) -> (r: Statement)
    ensures
        r.sql@ == COMPLETE_TASK@,
        datums(r.params@) == seq![SqlDatum::Integer(id as int)],
{
    id_statement(COMPLETE_TASK, id)
}

/// The statement that lists the direct subtasks of a task.
pub fn subtasks_statement(parent_id: i64) -> (r: Statement)
    ensures
        r.sql@ == SELECT_SUBTASKS@,
        datums(r.params@) == seq![SqlDatum::Integer(parent_id as int)],
{
    id_statement(SELECT_SUBTASKS, parent_id)
}

/// The statement that lists tasks, all of them or those with one status.
pub fn list_statement(status: Option<String>) -> (r: Statement)
    ensures
        status is None ==> r.sql@ == SELECT_ALL_TASKS@ && datums(r.params@) == Seq::<SqlDatum>::empty(),
        status matches Some(s) ==> r.sql@ == SELECT_TASKS_BY_STATUS@ && datums(r.params@) == seq![SqlDatum::Text(s@)],
{
    match status {
        Some(s) => {
            let ghost sv = s@;
            let params = vec![SqlValue::Text(s)];
            assert(datums(params@) =~= seq![SqlDatum::Text(sv)]);
            Statement { sql: String::from_str(SELECT_TASKS_BY_STATUS), params }
        },
        None => {
            let params: Vec<SqlValue> = Vec::new();
            assert(datums(params@) =~= Seq::<SqlDatum>::empty());
            Statement { sql: String::from_str(SELECT_ALL_TASKS), params }
        },
    }
}

pub open spec fn col_if(present: bool, c: TaskColumn) -> Seq<TaskColumn> {
    if present {
        seq![c]
    } else {
        Seq::empty()
    }
}

pub open spec fn val_if(present: bool, v: SqlDatum) -> Seq<SqlDatum> {
    if present {
        seq![v]
    } else {
        Seq::empty()
    }
}

/// The columns a partial update writes: those whose field is present, in
/// field order.
pub open spec fn update_columns(u: UpdateTaskInput) -> Seq<TaskColumn> {
    Seq::empty()
        + col_if(u.title is Some, TaskColumn::Title)
        + col_if(u.description is Some, TaskColumn::Description)
        + col_if(u.project_id is Some, TaskColumn::ProjectId)
        + col_if(u.status is Some, TaskColumn::Status)
        + col_if(u.priority is Some, TaskColumn::Priority)
        + col_if(u.estimated_minutes is Some, TaskColumn::EstimatedMinutes)
        + col_if(u.difficulty_level is Some, TaskColumn::DifficultyLevel)
        + col_if(u.energy_level is Some, TaskColumn::EnergyLevel)
        + col_if(u.scheduled_date is Some, TaskColumn::ScheduledDate)
        + col_if(u.due_date is Some, TaskColumn::DueDate)
        + col_if(u.parent_task_id is Some, TaskColumn::ParentTaskId)
        + col_if(u.order_index is Some, TaskColumn::OrderIndex)
        + col_if(u.column_position is Some, TaskColumn::ColumnPosition)
        + col_if(u.tags is Some, TaskColumn::Tags)
}

/// The values a partial update writes, matching `update_columns`.
pub open spec fn update_values(u: UpdateTaskInput) -> Seq<SqlDatum> {
    Seq::empty()
        + val_if(u.title is Some, text_datum(u.title))
        + val_if(u.description is Some, text_datum(u.description))
        + val_if(u.project_id is Some, i64_datum(u.project_id))
        + val_if(u.status is Some, text_datum(u.status))
        + val_if(u.priority is Some, i32_datum(u.priority))
        + val_if(u.estimated_minutes is Some, i32_datum(u.estimated_minutes))
        + val_if(u.difficulty_level is Some, i32_datum(u.difficulty_level))
        + val_if(u.energy_level is Some, text_datum(u.energy_level))
        + val_if(u.scheduled_date is Some, text_datum(u.scheduled_date))
        + val_if(u.due_date is Some, text_datum(u.due_date))
        + val_if(u.parent_task_id is Some, i64_datum(u.parent_task_id))
        + val_if(u.order_index is Some, i32_datum(u.order_index))
        + val_if(u.column_position is Some, i32_datum(u.column_position))
        + val_if(u.tags is Some, tags_datum(u.tags))
}

/// Adds the assignment of column `c` when its value is present.
fn push_text(cols: &mut Vec<TaskColumn>, params: &mut Vec<SqlValue>, c: TaskColumn, o: Option<String>)
    ensures
        final(cols)@ == old(cols)@ + col_if(o is Some, c),
        datums(final(params)@) == datums(old(params)@) + val_if(o is Some, text_datum(o)),
{
    let ghost pre = params@;
    if let Some(v) = o {
        cols.push(c);
        params.push(SqlValue::Text(v));
    }
    assert(cols@ =~= old(cols)@ + col_if(o is Some, c));
    assert(datums(params@) =~= datums(pre) + val_if(o is Some, text_datum(o)));
}

/// Adds the assignment of column `c` when its value is present.
fn push_i64(cols: &mut Vec<TaskColumn>, params: &mut Vec<SqlValue>, c: TaskColumn, o: Option<i64>)
    ensures
        final(cols)@ == old(cols)@ + col_if(o is Some, c),
        datums(final(params)@) == datums(old(params)@) + val_if(o is Some, i64_datum(o)),
{
    let ghost pre = params@;
    if let Some(v) = o {
        cols.push(c);
        params.push(SqlValue::Integer(v));
    }
    assert(cols@ =~= old(cols)@ + col_if(o is Some, c));
    assert(datums(params@) =~= datums(pre) + val_if(o is Some, i64_datum(o)));
}

/// Adds the assignment of column `c` when its value is present.
fn push_i32(cols: &mut Vec<TaskColumn>, params: &mut Vec<SqlValue>, c: TaskColumn, o: Option<i32>)
    ensures
        final(cols)@ == old(cols)@ + col_if(o is Some, c),
        datums(final(params)@) == datums(old(params)@) + val_if(o is Some, i32_datum(o)),
{
    let ghost pre = params@;
    if let Some(v) = o {
        cols.push(c);
        params.push(SqlValue::Integer(v as i64));
    }
    assert(cols@ =~= old(cols)@ + col_if(o is Some, c));
    assert(datums(params@) =~= datums(pre) + val_if(o is Some, i32_datum(o)));
}

/// Adds the assignment of column `c` when its value is present.
fn push_tags(cols: &mut Vec<TaskColumn>, params: &mut Vec<SqlValue>, c: TaskColumn, o: Option<Vec<String>>)
    ensures
        final(cols)@ == old(cols)@ + col_if(o is Some, c),
        datums(final(params)@) == datums(old(params)@) + val_if(o is Some, tags_datum(o)),
{
    let ghost pre = params@;
    if let Some(v) = o {
        cols.push(c);
        params.push(SqlValue::Text(tags_to_json(&v)));
    }
    assert(cols@ =~= old(cols)@ + col_if(o is Some, c));
    assert(datums(params@) =~= datums(pre) + val_if(o is Some, tags_datum(o)));
}

/// The statement for a partial update of task `id`, or `None` when the update
/// has no field present and nothing is to be written. Otherwise it sets each
/// present field, in field order, refreshes the update time, and takes the id
/// as its last parameter.
pub fn update_statement(id: i64, input: UpdateTaskInput) -> (r: Option<Statement>)
    ensures
        r is None <==> input.spec_is_empty(),
        r matches Some(st) ==> st.sql@ == update_sql(update_columns(input)),
        r matches Some(st) ==> datums(st.params@) == update_values(input).push(
            SqlDatum::Integer(id as int),
        ),
{
    if input.is_empty() {
        return None;
    }
    let UpdateTaskInput {
        title,
        description,
        project_id,
        status,
        priority,
        estimated_minutes,
        difficulty_level,
        energy_level,
        scheduled_date,
        due_date,
        parent_task_id,
        order_index,
        column_position,
        tags,
    } = input;
    let mut cols: Vec<TaskColumn> = Vec::new();
    let mut params: Vec<SqlValue> = Vec::new();
    assert(datums(params@) =~= Seq::<SqlDatum>::empty());
    push_text(&mut cols, &mut params, TaskColumn::Title, title);
    push_text(&mut cols, &mut params, TaskColumn::Description, description);
    push_i64(&mut cols, &mut params, TaskColumn::ProjectId, project_id);
    push_text(&mut cols, &mut params, TaskColumn::Status, status);
    push_i32(&mut cols, &mut params, TaskColumn::Priority, priority);
    push_i32(&mut cols, &mut params, TaskColumn::EstimatedMinutes, estimated_minutes);
    push_i32(&mut cols, &mut params, TaskColumn::DifficultyLevel, difficulty_level);
    push_text(&mut cols, &mut params, TaskColumn::EnergyLevel, energy_level);
    push_text(&mut cols, &mut params, TaskColumn::ScheduledDate, scheduled_date);
    push_text(&mut cols, &mut params, TaskColumn::DueDate, due_date);
    push_i64(&mut cols, &mut params, TaskColumn::ParentTaskId, parent_task_id);
    push_i32(&mut cols, &mut params, TaskColumn::OrderIndex, order_index);
    push_i32(&mut cols, &mut params, TaskColumn::ColumnPosition, column_position);
    push_tags(&mut cols, &mut params, TaskColumn::Tags, tags);
    let ghost pre = params@;
    params.push(SqlValue::Integer(id));
    assert(datums(params@) =~= datums(pre).push(SqlDatum::Integer(id as int)));
    let mut sql = String::from_str(UPDATE_HEAD);
    let mut i: usize = 0;
    while i < cols.len()
        invariant
            i <= cols@.len(),
            sql@ == UPDATE_HEAD@ + set_list(cols@.subrange(0, i as int)),
        decreases cols@.len() - i,
    {
        assert(cols@.subrange(0, i as int + 1).drop_last() =~= cols@.subrange(0, i as int));
        sql.append(column_name(cols[i]));
        sql.append(ASSIGN_PLACEHOLDER);
        i = i + 1;
    }
    assert(cols@.subrange(0, i as int) =~= cols@);
    sql.append(UPDATE_TAIL);
    Some(Statement { sql, params })
}

/// The update that moves a task to a board column: it sets the status and the
/// position within that column, and nothing else.
pub fn column_move_update(new_status: String, position: i32) -> (r: UpdateTaskInput)
    ensures
        r.status == Some(new_status),
        r.column_position == Some(position),
        (UpdateTaskInput { status: None, column_position: None, ..r }).spec_is_empty(),
{
    let mut u = UpdateTaskInput::empty();
    u.status = Some(new_status);
    u.column_position = Some(position);
    u
}

} // verus!
