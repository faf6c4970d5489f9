//! Reading what the engine answered.
//!
//! Each function takes the outcome of one exchange, as the driver returned
//! it, and gives the caller the result of the operation. A fault is handed
//! on at once: nothing is retried.

use vstd::prelude::*;
use crate::error::{error_of, Fault, StoreError, StoreErrorView};
use crate::row::{all_task_rows, is_task_row, CellView, Row};
use crate::task::{task_of, Task, TaskView};
use crate::views::views;

verus! {

/// What a fetch of one task yields for the rows that matched: the task where
/// exactly one row matched, and an error that tells no row from several.
pub open spec fn one_task(rows: Seq<Seq<CellView>>) -> Result<TaskView, StoreErrorView> {
    if rows.len() == 0 {
        Err(StoreErrorView::NotFound)
    } else if rows.len() == 1 {
        Ok(task_of(rows[0]))
    } else {
        Err(StoreErrorView::AmbiguousResult)
    }
}

/// What a fetch of every task yields for the rows that came back: the task
/// of each row, in the order of the rows.
pub open spec fn all_tasks(rows: Seq<Seq<CellView>>) -> Seq<TaskView> {
    Seq::new(rows.len(), |i: int| task_of(rows[i]))
}

/// What a result of a fetch of one task holds.
pub open spec fn fetched(result: Result<Task, StoreError>) -> Result<TaskView, StoreErrorView> {
    match result {
        Ok(task) => Ok(task@),
        Err(error) => Err(error@),
    }
}

/// Reads the outcome of creating the table.
pub fn create_table(outcome: Result<(), Fault>) -> (result: Result<(), StoreError>)
    ensures
        match outcome {
            Ok(_) => result is Ok,
            Err(fault) => result matches Err(error) && error@ == error_of(fault@),
        },
{
    match outcome {
        Ok(_) => Ok(()),
        Err(fault) => Err(StoreError::from_fault(fault)),
    }
}

/// Reads the outcome of a statement that writes: the number of rows that it
/// touched. The count is handed on as it is; zero is no error here.
pub fn rows_affected(outcome: Result<u64, Fault>) -> (result: Result<u64, StoreError>)
    ensures
        match outcome {
            Ok(count) => result == Ok::<u64, StoreError>(count),
            Err(fault) => result matches Err(error) && error@ == error_of(fault@),
        },
{
    match outcome {
        Ok(count) => Ok(count),
        Err(fault) => Err(StoreError::from_fault(fault)),
    }
}

/// Reads the outcome of fetching one task by its identifier.
///
/// Exactly one row gives the task. No row gives `NotFound`, more than one
/// gives `AmbiguousResult`; a failed exchange gives neither of the two.
pub fn get_task_by_id(outcome: Result<Vec<Row>, Fault>) -> (result: Result<Task, StoreError>)
    requires
        outcome matches Ok(rows) ==> rows.len() == 1 ==> is_task_row(rows[0]@),
    ensures
        fetched(result) == match outcome {
            Ok(rows) => one_task(views(rows@)),
            Err(fault) => Err(error_of(fault@)),
        },
        result is Ok <==> (outcome matches Ok(rows) && rows.len() == 1),
        result matches Err(StoreError::NotFound) <==> (outcome matches Ok(rows) && rows.len()
            == 0),
        result matches Err(StoreError::AmbiguousResult) <==> (outcome matches Ok(rows)
            && rows.len() > 1),
{
    match outcome {
        Ok(rows) => {
            if rows.len() == 0 {
                Err(StoreError::NotFound)
            } else if rows.len() == 1 {
                Ok(Task::from(&rows[0]))
            } else {
                Err(StoreError::AmbiguousResult)
            }
        },
        Err(fault) => Err(StoreError::from_fault(fault)),
    }
}

/// Reads the outcome of fetching every task: one task for each row, in the
/// order in which the engine sent the rows.
pub fn get_all_tasks(outcome: Result<Vec<Row>, Fault>) -> (result: Result<Vec<Task>, StoreError>)
    requires
        outcome matches Ok(rows) ==> all_task_rows(views(rows@)),
    ensures
        match outcome {
            Ok(rows) => result matches Ok(tasks) && views(tasks@) == all_tasks(views(rows@)),
            Err(fault) => result matches Err(error) && error@ == error_of(fault@),
        },
{
    match outcome {
        Ok(rows) => {
            let mut tasks: Vec<Task> = Vec::new();
            let mut i: usize = 0;
            while i < rows.len()
                invariant
                    i <= rows.len(),
                    all_task_rows(views(rows@)),
                    tasks.len() == i,
                    forall|j: int| 0 <= j < i ==> (#[trigger] tasks[j])@ == task_of(rows[j]@),
                decreases rows.len() - i,
            {
                assert(is_task_row(views(rows@)[i as int]));
                tasks.push(Task::from(&rows[i]));
                i += 1;
            }
            Ok(tasks)
        },
        Err(fault) => Err(StoreError::from_fault(fault)),
    }
}

} // verus!
