//! Mapping database rows onto tasks.
//!
//! A row is a vector of column values in the order of `TASK_COLUMNS`. Each
//! column is read under the same rules as the database driver applies: an
//! integer column accepts an integer value (a 32-bit one only when it fits),
//! a text column accepts text, and an optional column also accepts NULL.
use vstd::prelude::*;
use crate::models::Task;

verus! {

/// One value of a result row, as the database hands it over.
#[derive(Debug, Clone)]
pub enum SqlValue {
    Null,
    Integer(i64),
    /// A floating-point value; no task column accepts one.
    Real,
    Text(String),
    Blob(Vec<u8>),
}

/// Why a row could not be read as a task.
#[derive(Debug, Clone, Copy, PartialEq, Eq)]
pub enum RowError {
    /// The row holds fewer columns than a task needs.
    MissingColumns { found: usize },
    /// The value at this column has the wrong type or does not fit.
    ColumnType { index: usize },
}

/// What a task column accepts.
#[derive(Debug, Clone, Copy, PartialEq, Eq)]
pub enum ColumnKind {
    Int64,
    Int32,
    Text,
    OptInt64,
    OptInt32,
    OptText,
}

/// The number of columns of a task row.
pub const TASK_COLUMN_COUNT: usize = 20;

/// The column list every task query selects, in row order.
pub const TASK_COLUMNS: &'static str = "id, user_id, workspace_id, title, description, project_id, status, priority, estimated_minutes, difficulty_level, energy_level, scheduled_date, due_date, completed_at, parent_task_id, order_index, column_position, tags, created_at, updated_at";

/// The kind of each task column, by position.
pub open spec fn task_column_kind(i: int) -> ColumnKind {
    if i == 0 || i == 1 || i == 2 {
        ColumnKind::Int64
    } else if i == 3 || i == 6 || i == 18 || i == 19 {
        ColumnKind::Text
    } else if i == 5 || i == 14 {
        ColumnKind::OptInt64
    } else if i == 7 || i == 15 || i == 16 {
        ColumnKind::Int32
    } else if i == 8 || i == 9 {
        ColumnKind::OptInt32
    } else {
        ColumnKind::OptText
    }
}

pub open spec fn fits_i32(v: i64) -> bool {
    i32::MIN <= v <= i32::MAX
}

/// Whether a column of the given kind accepts the value.
pub open spec fn column_accepts(k: ColumnKind, v: SqlValue) -> bool {
    match k {
        ColumnKind::Int64 => v is Integer,
        ColumnKind::Int32 => v is Integer && fits_i32(v->Integer_0),
        ColumnKind::Text => v is Text,
        ColumnKind::OptInt64 => v is Null || v is Integer,
        ColumnKind::OptInt32 => v is Null || (v is Integer && fits_i32(v->Integer_0)),
        ColumnKind::OptText => v is Null || v is Text,
    }
}

/// The first `n` columns of the row are accepted by their kinds.
pub open spec fn columns_accepted(row: Seq<SqlValue>, n: int) -> bool
    decreases n,
{
    if n <= 0 {
        true
    } else {
        columns_accepted(row, n - 1) && column_accepts(task_column_kind(n - 1), row[n - 1])
    }
}

/// The row can be read as a task.
pub open spec fn row_is_task(row: Seq<SqlValue>) -> bool {
    row.len() >= TASK_COLUMN_COUNT && columns_accepted(row, TASK_COLUMN_COUNT as int)
}

pub open spec fn int_of(v: SqlValue) -> i64 {
    v->Integer_0
}

pub open spec fn text_of(v: SqlValue) -> Seq<char> {
    v->Text_0@
}

pub open spec fn opt_int_of(v: SqlValue) -> Option<i64> {
    if v is Integer { Some(v->Integer_0) } else { None }
}

pub open spec fn opt_i32_matches(o: Option<i32>, v: SqlValue) -> bool {
    match o {
        Some(x) => v is Integer && x as i64 == v->Integer_0,
        None => v is Null,
    }
}

pub open spec fn opt_text_matches(o: Option<String>, v: SqlValue) -> bool {
    match o {
        Some(s) => v is Text && s@ == v->Text_0@,
        None => v is Null,
    }
}

/// Each field of the task holds the value of its column.
pub open spec fn task_matches_row(t: Task, row: Seq<SqlValue>) -> bool {
    &&& t.id == int_of(row[0])
    &&& t.user_id == int_of(row[1])
    &&& t.workspace_id == int_of(row[2])
    &&& t.title@ == text_of(row[3])
    &&& opt_text_matches(t.description, row[4])
    &&& t.project_id == opt_int_of(row[5])
    &&& t.status@ == text_of(row[6])
    &&& t.priority as i64 == int_of(row[7])
    &&& opt_i32_matches(t.estimated_minutes, row[8])
    &&& opt_i32_matches(t.difficulty_level, row[9])
    &&& opt_text_matches(t.energy_level, row[10])
    &&& opt_text_matches(t.scheduled_date, row[11])
    &&& opt_text_matches(t.due_date, row[12])
    &&& opt_text_matches(t.completed_at, row[13])
    &&& t.parent_task_id == opt_int_of(row[14])
    &&& t.order_index as i64 == int_of(row[15])
    &&& t.column_position as i64 == int_of(row[16])
    &&& opt_text_matches(t.tags, row[17])
    &&& t.created_at@ == text_of(row[18])
    &&& t.updated_at@ == text_of(row[19])
}

/// The error reading the row reports: too few columns, or the first column
/// whose value its kind does not accept.
pub open spec fn row_error_is_first(e: RowError, row: Seq<SqlValue>) -> bool {
    match e {
        RowError::MissingColumns { found } => found == row.len() && row.len() < TASK_COLUMN_COUNT,
        RowError::ColumnType { index } => {
            &&& row.len() >= TASK_COLUMN_COUNT
            &&& index < TASK_COLUMN_COUNT
            &&& columns_accepted(row, index as int)
            &&& !column_accepts(task_column_kind(index as int), row[index as int])
        },
    }
}

/// Accepting the first `n` columns means accepting each shorter prefix.
proof fn lemma_columns_accepted_prefix(row: Seq<SqlValue>, m: int, n: int)
    requires
        0 <= m <= n,
        columns_accepted(row, n),
    ensures
        columns_accepted(row, m),
    decreases n - m,
{
    if m < n {
        lemma_columns_accepted_prefix(row, m, n - 1);
    }
}

fn read_i64(row: &Vec<SqlValue>, i: usize) -> (r: Result<i64, RowError>)
    requires
        i < row@.len(),
        task_column_kind(i as int) == ColumnKind::Int64,
    ensures
        r is Ok <==> column_accepts(ColumnKind::Int64, row@[i as int]),
        r matches Ok(v) ==> v == int_of(row@[i as int]),
        r matches Err(e) ==> e == (RowError::ColumnType { index: i }),
{
    match &row[i] {
        SqlValue::Integer(v) => Ok(*v),
        _ => Err(RowError::ColumnType { index: i }),
    }
}

fn read_i32(row: &Vec<SqlValue>, i: usize) -> (r: Result<i32, RowError>)
    requires
        i < row@.len(),
        task_column_kind(i as int) == ColumnKind::Int32,
    ensures
        r is Ok <==> column_accepts(ColumnKind::Int32, row@[i as int]),
        r matches Ok(v) ==> v as i64 == int_of(row@[i as int]),
        r matches Err(e) ==> e == (RowError::ColumnType { index: i }),
{
    match &row[i] {
        SqlValue::Integer(v) => {
            if i32::MIN as i64 <= *v && *v <= i32::MAX as i64 {
                Ok(*v as i32)
            } else {
                Err(RowError::ColumnType { index: i })
            }
        },
        _ => Err(RowError::ColumnType { index: i }),
    }
}

fn read_text(row: &Vec<SqlValue>, i: usize) -> (r: Result<String, RowError>)
    requires
        i < row@.len(),
        task_column_kind(i as int) == ColumnKind::Text,
    ensures
        r is Ok <==> column_accepts(ColumnKind::Text, row@[i as int]),
        r matches Ok(s) ==> s@ == text_of(row@[i as int]),
        r matches Err(e) ==> e == (RowError::ColumnType { index: i }),
{
    match &row[i] {
        SqlValue::Text(s) => Ok(s.clone()),
        _ => Err(RowError::ColumnType { index: i }),
    }
}

fn read_opt_i64(row: &Vec<SqlValue>, i: usize) -> (r: Result<Option<i64>, RowError>)
    requires
        i < row@.len(),
        task_column_kind(i as int) == ColumnKind::OptInt64,
    ensures
        r is Ok <==> column_accepts(ColumnKind::OptInt64, row@[i as int]),
        r matches Ok(v) ==> v == opt_int_of(row@[i as int]),
        r matches Err(e) ==> e == (RowError::ColumnType { index: i }),
{
    match &row[i] {
        SqlValue::Null => Ok(None),
        SqlValue::Integer(v) => Ok(Some(*v)),
        _ => Err(RowError::ColumnType { index: i }),
    }
}

fn read_opt_i32(row: &Vec<SqlValue>, i: usize) -> (r: Result<Option<i32>, RowError>)
    requires
        i < row@.len(),
        task_column_kind(i as int) == ColumnKind::OptInt32,
    ensures
        r is Ok <==> column_accepts(ColumnKind::OptInt32, row@[i as int]),
        r matches Ok(v) ==> opt_i32_matches(v, row@[i as int]),
        r matches Err(e) ==> e == (RowError::ColumnType { index: i }),
{
    match &row[i] {
        SqlValue::Null => Ok(None),
        SqlValue::Integer(v) => {
            if i32::MIN as i64 <= *v && *v <= i32::MAX as i64 {
                Ok(Some(*v as i32))
            } else {
                Err(RowError::ColumnType { index: i })
            }
        },
        _ => Err(RowError::ColumnType { index: i }),
    }
}

fn read_opt_text(row: &Vec<SqlValue>, i: usize) -> (r: Result<Option<String>, RowError>)
    requires
        i < row@.len(),
        task_column_kind(i as int) == ColumnKind::OptText,
    ensures
        r is Ok <==> column_accepts(ColumnKind::OptText, row@[i as int]),
        r matches Ok(v) ==> opt_text_matches(v, row@[i as int]),
        r matches Err(e) ==> e == (RowError::ColumnType { index: i }),
{
    match &row[i] {
        SqlValue::Null => Ok(None),
        SqlValue::Text(s) => Ok(Some(s.clone())),
        _ => Err(RowError::ColumnType { index: i }),
    }
}

/// Reads a row as a task. Succeeds exactly when the row has all task columns
/// and each holds a value its column accepts; otherwise reports too few
/// columns or the first column that is rejected.
pub fn task_from_row(row: &Vec<SqlValue>) -> (r: Result<Task, RowError>)
    ensures
        r is Ok <==> row_is_task(row@),
        r matches Ok(t) ==> task_matches_row(t, row@),
        r matches Err(e) ==> row_error_is_first(e, row@),
{
    if row.len() < TASK_COLUMN_COUNT {
        return Err(RowError::MissingColumns { found: row.len() });
    }
    assert(columns_accepted(row@, 0));
    let id = match read_i64(row, 0) {
        Ok(v) => v,
        Err(e) => {
            proof {
                if row_is_task(row@) {
                    lemma_columns_accepted_prefix(row@, 1, TASK_COLUMN_COUNT as int);
                }
            }
            return Err(e);
        },
    };
    assert(columns_accepted(row@, 1));
    let user_id = match read_i64(row, 1) {
        Ok(v) => v,
        Err(e) => {
            proof {
                if row_is_task(row@) {
                    lemma_columns_accepted_prefix(row@, 2, TASK_COLUMN_COUNT as int);
                }
            }
            return Err(e);
        },
    };
    assert(columns_accepted(row@, 2));
    let workspace_id = match read_i64(row, 2) {
        Ok(v) => v,
        Err(e) => {
            proof {
                if row_is_task(row@) {
                    lemma_columns_accepted_prefix(row@, 3, TASK_COLUMN_COUNT as int);
                }
            }
            return Err(e);
        },
    };
    assert(columns_accepted(row@, 3));
    let title = match read_text(row, 3) {
        Ok(v) => v,
        Err(e) => {
            proof {
                if row_is_task(row@) {
                    lemma_columns_accepted_prefix(row@, 4, TASK_COLUMN_COUNT as int);
                }
            }
            return Err(e);
        },
    };
    assert(columns_accepted(row@, 4));
    let description = match read_opt_text(row, 4) {
        Ok(v) => v,
        Err(e) => {
            proof {
                if row_is_task(row@) {
                    lemma_columns_accepted_prefix(row@, 5, TASK_COLUMN_COUNT as int);
                }
            }
            return Err(e);
        },
    };
    assert(columns_accepted(row@, 5));
    let project_id = match read_opt_i64(row, 5) {
        Ok(v) => v,
        Err(e) => {
            proof {
                if row_is_task(row@) {
                    lemma_columns_accepted_prefix(row@, 6, TASK_COLUMN_COUNT as int);
                }
            }
            return Err(e);
        },
    };
    assert(columns_accepted(row@, 6));
    let status = match read_text(row, 6) {
        Ok(v) => v,
        Err(e) => {
            proof {
                if row_is_task(row@) {
                    lemma_columns_accepted_prefix(row@, 7, TASK_COLUMN_COUNT as int);
                }
            }
            return Err(e);
        },
    };
    assert(columns_accepted(row@, 7));
    let priority = match read_i32(row, 7) {
        Ok(v) => v,
        Err(e) => {
            proof {
                if row_is_task(row@) {
                    lemma_columns_accepted_prefix(row@, 8, TASK_COLUMN_COUNT as int);
                }
            }
            return Err(e);
        },
    };
    assert(columns_accepted(row@, 8));
    let estimated_minutes = match read_opt_i32(row, 8) {
        Ok(v) => v,
        Err(e) => {
            proof {
                if row_is_task(row@) {
                    lemma_columns_accepted_prefix(row@, 9, TASK_COLUMN_COUNT as int);
                }
            }
            return Err(e);
        },
    };
    assert(columns_accepted(row@, 9));
    let difficulty_level = match read_opt_i32(row, 9) {
        Ok(v) => v,
        Err(e) => {
            proof {
                if row_is_task(row@) {
                    lemma_columns_accepted_prefix(row@, 10, TASK_COLUMN_COUNT as int);
                }
            }
            return Err(e);
        },
    };
    assert(columns_accepted(row@, 10));
    let energy_level = match read_opt_text(row, 10) {
        Ok(v) => v,
        Err(e) => {
            proof {
                if row_is_task(row@) {
                    lemma_columns_accepted_prefix(row@, 11, TASK_COLUMN_COUNT as int);
                }
            }
            return Err(e);
        },
    };
    assert(columns_accepted(row@, 11));
    let scheduled_date = match read_opt_text(row, 11) {
        Ok(v) => v,
        Err(e) => {
            proof {
                if row_is_task(row@) {
                    lemma_columns_accepted_prefix(row@, 12, TASK_COLUMN_COUNT as int);
                }
            }
            return Err(e);
        },
    };
    assert(columns_accepted(row@, 12));
    let due_date = match read_opt_text(row, 12) {
        Ok(v) => v,
        Err(e) => {
            proof {
                if row_is_task(row@) {
                    lemma_columns_accepted_prefix(row@, 13, TASK_COLUMN_COUNT as int);
                }
            }
            return Err(e);
        },
    };
    assert(columns_accepted(row@, 13));
    let completed_at = match read_opt_text(row, 13) {
        Ok(v) => v,
        Err(e) => {
            proof {
                if row_is_task(row@) {
                    lemma_columns_accepted_prefix(row@, 14, TASK_COLUMN_COUNT as int);
                }
            }
            return Err(e);
        },
    };
    assert(columns_accepted(row@, 14));
    let parent_task_id = match read_opt_i64(row, 14) {
        Ok(v) => v,
        Err(e) => {
            proof {
                if row_is_task(row@) {
                    lemma_columns_accepted_prefix(row@, 15, TASK_COLUMN_COUNT as int);
                }
            }
            return Err(e);
        },
    };
    assert(columns_accepted(row@, 15));
    let order_index = match read_i32(row, 15) {
        Ok(v) => v,
        Err(e) => {
            proof {
                if row_is_task(row@) {
                    lemma_columns_accepted_prefix(row@, 16, TASK_COLUMN_COUNT as int);
                }
            }
            return Err(e);
        },
    };
    assert(columns_accepted(row@, 16));
    let column_position = match read_i32(row, 16) {
        Ok(v) => v,
        Err(e) => {
            proof {
                if row_is_task(row@) {
                    lemma_columns_accepted_prefix(row@, 17, TASK_COLUMN_COUNT as int);
                }
            }
            return Err(e);
        },
    };
    assert(columns_accepted(row@, 17));
    let tags = match read_opt_text(row, 17) {
        Ok(v) => v,
        Err(e) => {
            proof {
                if row_is_task(row@) {
                    lemma_columns_accepted_prefix(row@, 18, TASK_COLUMN_COUNT as int);
                }
            }
            return Err(e);
        },
    };
    assert(columns_accepted(row@, 18));
    let created_at = match read_text(row, 18) {
        Ok(v) => v,
        Err(e) => {
            proof {
                if row_is_task(row@) {
                    lemma_columns_accepted_prefix(row@, 19, TASK_COLUMN_COUNT as int);
                }
            }
            return Err(e);
        },
    };
    assert(columns_accepted(row@, 19));
    let updated_at = match read_text(row, 19) {
        Ok(v) => v,
        Err(e) => {
            proof {
                if row_is_task(row@) {
                    lemma_columns_accepted_prefix(row@, 20, TASK_COLUMN_COUNT as int);
                }
            }
            return Err(e);
        },
    };
    assert(columns_accepted(row@, 20));
    Ok(Task {
        id,
        user_id,
        workspace_id,
        title,
        description,
        project_id,
        status,
        priority,
        estimated_minutes,
        difficulty_level,
        energy_level,
        scheduled_date,
        due_date,
        completed_at,
        parent_task_id,
        order_index,
        column_position,
        tags,
        created_at,
        updated_at,
    })
}

} // verus!
