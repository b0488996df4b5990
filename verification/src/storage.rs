//! What is stored of a processed task.

use vstd::prelude::*;

use crate::task::{CheckEmailJobId, CheckEmailTask, TaskError};

verus! {

/// A row of the table of task results. The table keeps at most one row for each `task_id`; rows
/// without one never conflict.
#[derive(Debug)]
pub struct TaskResultRow {
    pub task_id: Option<u128>,
    pub payload: serde_json::Value,
    pub job_id: Option<i32>,
    pub extra: Option<serde_json::Value>,
    pub result: Option<serde_json::Value>,
    pub error: Option<String>,
}

/// The bulk job that a task counts for; a single-shot task counts for none.
pub open spec fn job_of(job_id: CheckEmailJobId) -> Option<i32> {
    match job_id {
        CheckEmailJobId::Bulk(job_id) => Some(job_id),
        CheckEmailJobId::SingleShot => None,
    }
}

/// Whether `row` is the row that is stored for `task`, where `payload` is the task and
/// `worker_output` its outcome, both as JSON.
pub open spec fn is_row_for(
    row: TaskResultRow,
    task: CheckEmailTask,
    payload: serde_json::Value,
    worker_output: Result<serde_json::Value, TaskError>,
    extra: Option<serde_json::Value>,
) -> bool {
    &&& row.task_id == task.task_id
    &&& row.payload == payload
    &&& row.job_id == job_of(task.job_id)
    &&& row.extra == extra
    &&& match worker_output {
        Ok(output) => row.result == Some(output) && row.error is None,
        Err(error) => row.result is None && row.error.deep_view() == Some(error.message()),
    }
}

/// The row that is stored for a task: its outcome as JSON, or its error in words.
pub fn task_result_row(
    task: &CheckEmailTask,
    payload: serde_json::Value,
    worker_output: Result<serde_json::Value, TaskError>,
    extra: Option<serde_json::Value>,
) -> (row: TaskResultRow)
    ensures
        is_row_for(row, *task, payload, worker_output, extra),
{
    let (result, error): (Option<serde_json::Value>, Option<String>) = match worker_output {
        Ok(output) => (Some(output), None),
        Err(error) => (None, Some(error.to_string())),
    };
    let job_id: Option<i32> = match task.job_id {
        CheckEmailJobId::Bulk(job_id) => Some(job_id),
        CheckEmailJobId::SingleShot => None,
    };
    TaskResultRow { task_id: task.task_id, payload, job_id, extra, result, error }
}

/// Whether the table holds a row under the identity `task_id`. Rows without an identity are under
/// none.
pub open spec fn holds(table: Seq<TaskResultRow>, task_id: Option<u128>) -> bool {
    exists|i: int|
        0 <= i < table.len() && task_id is Some && (#[trigger] table[i]).task_id == task_id
}

/// The table after a row was handed to it: `INSERT .. ON CONFLICT (task_id) DO NOTHING`, which
/// leaves a table alone that holds a row under the same identity.
pub open spec fn after_insert(table: Seq<TaskResultRow>, row: TaskResultRow) -> Seq<TaskResultRow> {
    if holds(table, row.task_id) {
        table
    } else {
        table.push(row)
    }
}

/// How many rows that statement affects.
pub open spec fn rows_inserted(table: Seq<TaskResultRow>, row: TaskResultRow) -> u64 {
    if holds(table, row.task_id) {
        0
    } else {
        1
    }
}

/// Whether the table holds at most one row for each identity.
pub open spec fn is_deduplicated(table: Seq<TaskResultRow>) -> bool {
    forall|i: int, j: int|
        0 <= i < j < table.len() && (#[trigger] table[i]).task_id is Some ==> table[i].task_id != (
        #[trigger] table[j]).task_id
}

/// How many rows count for the bulk job `job_id`.
pub open spec fn progress(table: Seq<TaskResultRow>, job_id: i32) -> nat {
    table.filter(|row: TaskResultRow| row.job_id == Some(job_id)).len()
}

/// What became of a row that was handed to the database.
#[derive(Debug, Clone, Copy, PartialEq, Eq, Structural)]
pub enum Stored {
    /// The row was written.
    Written,
    /// The table has a row with the same identity already, and it was left as it is.
    Duplicate,
}

/// What the number of affected rows says about a row that was handed to the database.
pub fn stored(rows_affected: u64) -> (stored: Stored)
    ensures
        stored is Duplicate <==> rows_affected == 0,
{
    if rows_affected == 0 {
        Stored::Duplicate
    } else {
        Stored::Written
    }
}

/// A stored row holds an outcome or an error, and never both.
pub proof fn row_holds_outcome_or_error(
    row: TaskResultRow,
    task: CheckEmailTask,
    payload: serde_json::Value,
    worker_output: Result<serde_json::Value, TaskError>,
    extra: Option<serde_json::Value>,
)
    requires
        is_row_for(row, task, payload, worker_output, extra),
    ensures
        row.result is Some <==> row.error is None,
{
}

/// A task with an identity that is delivered twice stores one row, whatever the two outcomes: the
/// second row leaves the table as it is, and counts as a duplicate. So retries cannot inflate the
/// progress of a job.
pub proof fn redelivered_task_stores_one_result(
    table: Seq<TaskResultRow>,
    task: CheckEmailTask,
    first: TaskResultRow,
    first_payload: serde_json::Value,
    first_output: Result<serde_json::Value, TaskError>,
    first_extra: Option<serde_json::Value>,
    second: TaskResultRow,
    second_payload: serde_json::Value,
    second_output: Result<serde_json::Value, TaskError>,
    second_extra: Option<serde_json::Value>,
)
    requires
        task.task_id is Some,
        is_row_for(first, task, first_payload, first_output, first_extra),
        is_row_for(second, task, second_payload, second_output, second_extra),
    ensures
        after_insert(after_insert(table, first), second) == after_insert(table, first),
        rows_inserted(after_insert(table, first), second) == 0,
        forall|job_id: i32| #[trigger]
            progress(after_insert(after_insert(table, first), second), job_id) <= progress(
                table,
                job_id,
            ) + 1,
{
    let once = after_insert(table, first);
    if holds(table, first.task_id) {
        let i = choose|i: int|
            0 <= i < table.len() && first.task_id is Some && (#[trigger] table[i]).task_id
                == first.task_id;
        assert(once[i].task_id == second.task_id);
    } else {
        assert(once[table.len() as int].task_id == second.task_id);
    }
    assert(holds(once, second.task_id));
    assert forall|job_id: i32| #[trigger] progress(once, job_id) <= progress(table, job_id) + 1 by {
        reveal(Seq::filter);
        assert(table.push(first).drop_last() == table);
    }
}

/// A row without an identity never conflicts: it is always added.
pub proof fn rows_without_identity_never_conflict(table: Seq<TaskResultRow>, row: TaskResultRow)
    requires
        row.task_id is None,
    ensures
        after_insert(table, row) == table.push(row),
        rows_inserted(table, row) == 1,
{
}

/// However tasks are delivered, the table never comes to hold two rows for one task.
pub proof fn at_most_one_row_for_each_task(table: Seq<TaskResultRow>, row: TaskResultRow)
    requires
        is_deduplicated(table),
    ensures
        is_deduplicated(after_insert(table, row)),
{
    let after = after_insert(table, row);
    assert forall|i: int, j: int|
        0 <= i < j < after.len() && (#[trigger] after[i]).task_id is Some implies after[i].task_id
        != (#[trigger] after[j]).task_id by {
        assert(after[i] == table[i]);
    }
}

/// A row is stored under the very identity of its task and for the very job that the task counts
/// for, and holds the task, the extra and the outcome as they were given; an error is held in words.
pub proof fn row_tells_task_and_outcome(
    row: TaskResultRow,
    task: CheckEmailTask,
    payload: serde_json::Value,
    worker_output: Result<serde_json::Value, TaskError>,
    extra: Option<serde_json::Value>,
)
    requires
        is_row_for(row, task, payload, worker_output, extra),
    ensures
        task.task_id is None ==> row.task_id is None,
        task.task_id matches Some(id) ==> row.task_id == Some(id),
        task.job_id is SingleShot ==> row.job_id is None,
        task.job_id matches CheckEmailJobId::Bulk(job) ==> row.job_id == Some(job),
        row.payload == payload,
        row.extra == extra,
        worker_output matches Ok(output) ==> row.result == Some(output) && row.error is None,
        worker_output matches Err(error) ==> row.result is None && row.error is Some
            && row.error->0@ == error.message(),
{
}

/// Tasks with different identities are stored under different identities. So neither is taken for
/// the other: in a table that knows neither, each adds a row of its own.
pub proof fn different_tasks_are_stored_apart(
    table: Seq<TaskResultRow>,
    one: CheckEmailTask,
    one_row: TaskResultRow,
    one_payload: serde_json::Value,
    one_output: Result<serde_json::Value, TaskError>,
    one_extra: Option<serde_json::Value>,
    other: CheckEmailTask,
    other_row: TaskResultRow,
    other_payload: serde_json::Value,
    other_output: Result<serde_json::Value, TaskError>,
    other_extra: Option<serde_json::Value>,
)
    requires
        is_row_for(one_row, one, one_payload, one_output, one_extra),
        is_row_for(other_row, other, other_payload, other_output, other_extra),
        one.task_id != other.task_id,
        forall|i: int|
            0 <= i < table.len() && one.task_id is Some ==> (#[trigger] table[i]).task_id
                != one.task_id,
        forall|i: int|
            0 <= i < table.len() && other.task_id is Some ==> (#[trigger] table[i]).task_id
                != other.task_id,
    ensures
        one_row.task_id != other_row.task_id,
        after_insert(after_insert(table, one_row), other_row) == table.push(one_row).push(
            other_row,
        ),
        rows_inserted(table, one_row) == 1,
        rows_inserted(after_insert(table, one_row), other_row) == 1,
{
    assert(!holds(table, one_row.task_id));
    let once = table.push(one_row);
    assert forall|i: int| 0 <= i < once.len() && other_row.task_id is Some implies (
    #[trigger] once[i]).task_id != other_row.task_id by {
        if i < table.len() {
            assert(once[i] == table[i]);
        }
    }
    assert(!holds(once, other_row.task_id));
}

/// Tasks of different jobs are stored for different jobs.
pub proof fn jobs_are_kept_apart(a: CheckEmailJobId, b: CheckEmailJobId)
    requires
        a != b,
    ensures
        job_of(a) != job_of(b),
{
}

} // verus!
