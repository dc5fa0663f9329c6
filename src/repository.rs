//! What the task repository makes of the database's answers: tasks read from
//! rows, lookups with a distinct not-found outcome, subtask progress, and the
//! order a listing must have.
use vstd::prelude::*;
use vstd::string::{StrSliceExecFns, StringExecFns};
use crate::models::{STATUS_COMPLETED, SubtaskProgress, Task, TaskWithSubtasks};
use crate::row::{RowError, SqlValue, row_error_is_first, row_is_task, task_from_row, task_matches_row};

verus! {

/// Why a repository operation failed.
#[derive(Debug, Clone)]
pub enum RepoError {
    /// No connection could be taken from the pool.
    Pool(String),
    /// The database rejected or failed a statement.
    Database(String),
    /// No task has this id.
    NotFound { id: i64 },
    /// A result row could not be read as a task.
    Row(RowError),
}

/// Every row is a task row, and the tasks are those rows in order.
pub open spec fn tasks_match_rows(ts: Seq<Task>, rows: Seq<Vec<SqlValue>>) -> bool {
    &&& ts.len() == rows.len()
    &&& forall|i: int| 0 <= i < rows.len() ==> #[trigger] task_matches_row(ts[i], rows[i]@)
}

/// Reads every row as a task, in order; fails with the error of the first row
/// that cannot be read.
pub fn tasks_from_rows(rows: &Vec<Vec<SqlValue>>) -> (r: Result<Vec<Task>, RowError>)
    ensures
        r is Ok <==> (forall|i: int| 0 <= i < rows@.len() ==> #[trigger] row_is_task(rows@[i]@)),
        r matches Ok(ts) ==> tasks_match_rows(ts@, rows@),
        r matches Err(e) ==> exists|i: int|
            0 <= i < rows@.len() && row_error_is_first(e, #[trigger] rows@[i]@) && (forall|j: int|
                0 <= j < i ==> #[trigger] row_is_task(rows@[j]@)),
{
    let mut out: Vec<Task> = Vec::new();
    let mut i: usize = 0;
    while i < rows.len()
        invariant
            i <= rows@.len(),
            out@.len() == i,
            forall|j: int| 0 <= j < i ==> #[trigger] row_is_task(rows@[j]@),
            forall|j: int| 0 <= j < i ==> #[trigger] task_matches_row(out@[j], rows@[j]@),
        decreases rows@.len() - i,
    {
        match task_from_row(&rows[i]) {
            Ok(t) => {
                out.push(t);
            },
            Err(e) => {
                assert(row_error_is_first(e, rows@[i as int]@));
                return Err(e);
            },
        }
        i = i + 1;
    }
    Ok(out)
}

/// Interprets the rows a lookup by id returned: no row means no such task,
/// otherwise the first row is the task.
pub fn task_from_lookup(id: i64, rows: &Vec<Vec<SqlValue>>) -> (r: Result<Task, RepoError>)
    ensures
        rows@.len() == 0 ==> r == Err::<Task, RepoError>(RepoError::NotFound { id }),
        rows@.len() > 0 ==> (r is Ok <==> row_is_task(rows@[0]@)),
        rows@.len() > 0 ==> (r matches Ok(t) ==> task_matches_row(t, rows@[0]@)),
        rows@.len() > 0 ==> (r matches Err(e) ==> e matches RepoError::Row(re) && row_error_is_first(
            re,
            rows@[0]@,
        )),
{
    if rows.len() == 0 {
        return Err(RepoError::NotFound { id });
    }
    match task_from_row(&rows[0]) {
        Ok(t) => Ok(t),
        Err(e) => Err(RepoError::Row(e)),
    }
}

/// The task is completed.
pub open spec fn is_completed(t: Task) -> bool {
    t.status@ == STATUS_COMPLETED@
}

/// The number of completed tasks in the sequence.
pub open spec fn completed_count(ts: Seq<Task>) -> nat
    decreases ts.len(),
{
    if ts.len() == 0 {
        0
    } else {
        completed_count(ts.drop_last()) + if is_completed(ts.last()) {
            1nat
        } else {
            0nat
        }
    }
}

/// Whole percent of `completed` out of `total`, rounded down; 0 when `total`
/// is 0.
pub open spec fn percentage_of(completed: int, total: int) -> int {
    if total == 0 {
        0
    } else {
        completed * 100 / total
    }
}

/// The progress summary of the given subtasks.
pub open spec fn progress_of(subtasks: Seq<Task>) -> SubtaskProgress {
    SubtaskProgress {
        total: subtasks.len() as i32,
        completed: completed_count(subtasks) as i32,
        percentage: percentage_of(completed_count(subtasks) as int, subtasks.len() as int) as i32,
    }
}

/// No more tasks are completed than there are tasks.
pub proof fn lemma_completed_count_bounded(ts: Seq<Task>)
    ensures
        completed_count(ts) <= ts.len(),
    decreases ts.len(),
{
    if ts.len() > 0 {
        lemma_completed_count_bounded(ts.drop_last());
    }
}

/// Progress of a list of subtasks: the percentage is exactly 0 when there are
/// none, and otherwise completed * 100 / total rounded down, which lies
/// between 0 and 100 and is 100 exactly when every subtask is completed.
pub proof fn lemma_progress_percentage(subtasks: Seq<Task>)
    requires
        subtasks.len() <= i32::MAX,
    ensures
        subtasks.len() == 0 ==> progress_of(subtasks).percentage == 0,
        subtasks.len() > 0 ==> progress_of(subtasks).percentage as int == (completed_count(subtasks) as int)
            * 100 / subtasks.len() as int,
        0 <= progress_of(subtasks).percentage <= 100,
        subtasks.len() > 0 ==> (progress_of(subtasks).percentage == 100 <==> completed_count(
            subtasks,
        ) == subtasks.len()),
{
    lemma_completed_count_bounded(subtasks);
    let k = completed_count(subtasks) as int;
    let n = subtasks.len() as int;
    if n > 0 {
        assert(0 <= k * 100 / n <= 100) by (nonlinear_arith)
            requires
                0 <= k <= n,
                n > 0,
        ;
        assert(k * 100 / n == 100 <==> k == n) by (nonlinear_arith)
            requires
                0 <= k <= n,
                n > 0,
        ;
    }
}

/// Whole percent of `completed` out of `total`, rounded down; 0 when `total`
/// is 0.
pub fn progress_percentage(completed: i32, total: i32) -> (r: i32)
    requires
        0 <= completed <= total,
    ensures
        r as int == percentage_of(completed as int, total as int),
        0 <= r <= 100,
{
    if total > 0 {
        assert(0 <= completed * 100 / (total as int) <= 100) by (nonlinear_arith)
            requires
                0 <= completed <= total,
                total > 0,
        ;
        ((completed as i64 * 100) / (total as i64)) as i32
    } else {
        0
    }
}

/// Counts the subtasks and the completed ones among them.
pub fn subtask_progress(subtasks: &Vec<Task>) -> (r: SubtaskProgress)
    requires
        subtasks@.len() <= i32::MAX,
    ensures
        r == progress_of(subtasks@),
{
    let done = String::from_str(STATUS_COMPLETED);
    let mut completed: usize = 0;
    let mut i: usize = 0;
    while i < subtasks.len()
        invariant
            i <= subtasks@.len(),
            done@ == STATUS_COMPLETED@,
            completed == completed_count(subtasks@.subrange(0, i as int)),
            completed <= i,
        decreases subtasks@.len() - i,
    {
        assert(subtasks@.subrange(0, i as int + 1).drop_last() =~= subtasks@.subrange(0, i as int));
        if subtasks[i].status == done {
            completed = completed + 1;
        }
        i = i + 1;
    }
    assert(subtasks@.subrange(0, i as int) =~= subtasks@);
    let total = subtasks.len() as i32;
    let percentage = progress_percentage(completed as i32, total);
    SubtaskProgress { total, completed: completed as i32, percentage }
}

/// Bundles a task with its direct subtasks and their progress.
pub fn with_subtasks(task: Task, subtasks: Vec<Task>) -> (r: TaskWithSubtasks)
    requires
        subtasks@.len() <= i32::MAX,
    ensures
        r.task == task,
        r.subtasks@ == subtasks@,
        r.progress == progress_of(subtasks@),
{
    let progress = subtask_progress(&subtasks);
    TaskWithSubtasks { task, subtasks, progress }
}

/// `a` is no greater than `b` in code-point order, which for UTF-8 text is
/// also the byte order the database compares text by.
pub open spec fn text_le(a: Seq<char>, b: Seq<char>) -> bool
    decreases a.len(),
{
    if a.len() == 0 {
        true
    } else if b.len() == 0 {
        false
    } else if a[0] != b[0] {
        (a[0] as u32) < (b[0] as u32)
    } else {
        text_le(a.drop_first(), b.drop_first())
    }
}

/// `a` may come before `b` in a listing: by column position, then order
/// index, then newest creation time first.
pub open spec fn board_order_le(a: Task, b: Task) -> bool {
    ||| a.column_position < b.column_position
    ||| (a.column_position == b.column_position && a.order_index < b.order_index)
    ||| (a.column_position == b.column_position && a.order_index == b.order_index && text_le(
        b.created_at@,
        a.created_at@,
    ))
}

/// A listing of tasks, optionally filtered by status: every task carries
/// exactly the status asked for, and neighbours are in board order.
pub open spec fn is_listing(ts: Seq<Task>, status: Option<Seq<char>>) -> bool {
    &&& forall|i: int| 0 <= i < ts.len() && status is Some ==> #[trigger] ts[i].status@ == status->Some_0
    &&& forall|i: int| 0 <= i < ts.len() - 1 ==> #[trigger] board_order_le(ts[i], ts[i + 1])
}

pub open spec fn opt_text(o: Option<String>) -> Option<Seq<char>> {
    match o {
        Some(s) => Some(s@),
        None => None,
    }
}

/// Compares two texts in code-point order.
pub fn text_le_exec(a: &String, b: &String) -> (r: bool)
    ensures
        r == text_le(a@, b@),
{
    let sa = a.as_str();
    let sb = b.as_str();
    let la = sa.unicode_len();
    let lb = sb.unicode_len();
    let mut i: usize = 0;
    assert(a@.subrange(0, la as int) =~= a@);
    assert(b@.subrange(0, lb as int) =~= b@);
    while i < la && i < lb
        invariant
            la == a@.len(),
            lb == b@.len(),
            sa@ == a@,
            sb@ == b@,
            i <= la,
            i <= lb,
            text_le(a@, b@) == text_le(a@.subrange(i as int, la as int), b@.subrange(i as int, lb as int)),
        decreases la - i,
    {
        let ca = sa.get_char(i);
        let cb = sb.get_char(i);
        let ghost ra = a@.subrange(i as int, la as int);
        let ghost rb = b@.subrange(i as int, lb as int);
        assert(ra[0] == ca && rb[0] == cb);
        if ca != cb {
            return (ca as u32) < (cb as u32);
        }
        assert(ra.drop_first() =~= a@.subrange(i as int + 1, la as int));
        assert(rb.drop_first() =~= b@.subrange(i as int + 1, lb as int));
        i = i + 1;
    }
    i == la
}

/// Whether the tasks form a listing for the status filter: each carries the
/// status asked for, and they are ordered by column position, then order
/// index, then creation time, newest first.
pub fn is_status_listing(tasks: &Vec<Task>, status: &Option<String>) -> (r: bool)
    ensures
        r == is_listing(tasks@, opt_text(*status)),
{
    let mut i: usize = 0;
    while i < tasks.len()
        invariant
            i <= tasks@.len(),
            forall|j: int| 0 <= j < i && status is Some ==> #[trigger] tasks@[j].status@ == opt_text(*status)->Some_0,
            forall|j: int| 0 <= j < i as int - 1 ==> #[trigger] board_order_le(tasks@[j], tasks@[j + 1]),
        decreases tasks@.len() - i,
    {
        let t = &tasks[i];
        if let Some(s) = status {
            if !(t.status == *s) {
                return false;
            }
        }
        if i > 0 {
            let p = &tasks[i - 1];
            let le = p.column_position < t.column_position || (p.column_position == t.column_position
                && (p.order_index < t.order_index || (p.order_index == t.order_index && text_le_exec(
                &t.created_at,
                &p.created_at,
            ))));
            if !le {
                assert(!board_order_le(tasks@[i as int - 1], tasks@[(i as int - 1) + 1]));
                return false;
            }
        }
        i = i + 1;
    }
    true
}

} // verus!
