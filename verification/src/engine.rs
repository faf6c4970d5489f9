//! What the store expects of the engine.
//!
//! The engine is not part of this library. This module says, as a model,
//! what a statement of the store does to the table `tasks` and what the
//! engine answers when the statement succeeds. The laws below are proved of
//! every engine that behaves as the model says, together with the readers of
//! [`crate::reply`]; nothing here checks an engine against the model.

use vstd::prelude::*;
use crate::reply::{all_tasks, one_task};
use crate::row::{all_task_rows, is_task_row, CellView};
use crate::statement::StatementView;
use crate::error::StoreErrorView;
use crate::ident::hyphenated;
use crate::task::TaskView;

verus! {

/// What the table holds for one task, beside its identifier.
pub struct Stored {
    pub title: Seq<char>,
    pub completed: bool,
}

/// The answer of the engine to a statement that succeeded.
pub enum Answer {
    /// The statement ran; there is nothing to report.
    Done,
    /// The number of rows that the statement touched.
    Count(u64),
    /// The rows that the statement selected.
    Rows(Seq<Seq<CellView>>),
}

/// The row that the engine sends for a stored task: identifier, title and
/// flag, in the order of the table's columns.
pub open spec fn row_of(id: u128, stored: Stored) -> Seq<CellView> {
    seq![CellView::Uuid(id), CellView::Text(stored.title), CellView::Bool(stored.completed)]
}

/// The task that the table holds under `id`.
pub open spec fn stored_task(table: Map<u128, Stored>, id: u128) -> TaskView {
    TaskView { id, title: table[id].title, completed: table[id].completed }
}

/// The rows of the tasks `ids`, in that order.
pub open spec fn listing(table: Map<u128, Stored>, ids: Seq<u128>) -> Seq<Seq<CellView>> {
    Seq::new(ids.len(), |i: int| row_of(ids[i], table[ids[i]]))
}

/// `rows` holds every task of the table once, in some order.
pub open spec fn lists(table: Map<u128, Stored>, rows: Seq<Seq<CellView>>) -> bool {
    exists|ids: Seq<u128>|
        #[trigger] listing(table, ids) == rows && ids.no_duplicates() && ids.to_set()
            == table.dom()
}

/// The table after a task was marked as done: the task `id`, if it is there,
/// is done and keeps its title.
pub open spec fn completed(table: Map<u128, Stored>, id: u128) -> Map<u128, Stored> {
    if table.dom().contains(id) {
        table.insert(id, Stored { title: table[id].title, completed: true })
    } else {
        table
    }
}

/// How many rows a statement on the task `id` touches: one if the task is
/// there, whatever it holds, and none otherwise.
pub open spec fn matched(table: Map<u128, Stored>, id: u128) -> u64 {
    if table.dom().contains(id) {
        1
    } else {
        0
    }
}

/// The rows that a fetch of the task `id` selects.
pub open spec fn selected(table: Map<u128, Stored>, id: u128) -> Seq<Seq<CellView>> {
    if table.dom().contains(id) {
        seq![row_of(id, table[id])]
    } else {
        seq![]
    }
}

/// The engine ran `statement` with success: it held `before`, answered
/// `answer` and holds `after`. `None` stands for a database without the
/// table; there only the creation of the table succeeds.
pub open spec fn ran(
    before: Option<Map<u128, Stored>>,
    statement: StatementView,
    answer: Answer,
    after: Option<Map<u128, Stored>>,
) -> bool {
    match statement {
        StatementView::CreateTable => {
            &&& answer == Answer::Done
            &&& after == match before {
                Some(table) => Some(table),
                None => Some(Map::<u128, Stored>::empty()),
            }
        },
        StatementView::AddTask { title } => {
            &&& before matches Some(table)
            &&& answer == Answer::Count(1)
            &&& exists|id: u128|
                !table.dom().contains(id) && after == Some(
                    #[trigger] table.insert(id, Stored { title, completed: false }),
                )
        },
        StatementView::SetTaskCompleted { id } => {
            &&& before matches Some(table)
            &&& answer == Answer::Count(matched(table, id))
            &&& after == Some(completed(table, id))
        },
        StatementView::DeleteTask { id } => {
            &&& before matches Some(table)
            &&& answer == Answer::Count(matched(table, id))
            &&& after == Some(table.remove(id))
        },
        StatementView::GetTaskById { id } => {
            &&& before matches Some(table)
            &&& answer == Answer::Rows(selected(table, id))
            &&& after == before
        },
        StatementView::GetAllTasks => {
            &&& before matches Some(table)
            &&& answer matches Answer::Rows(rows)
            &&& lists(table, rows)
            &&& after == before
        },
    }
}

/// Creating the table is idempotent: on any database it succeeds, a second
/// creation succeeds as well and changes nothing, and a table that was
/// there keeps its rows.
pub proof fn law_schema_creation_is_idempotent(
    before: Option<Map<u128, Stored>>,
    first: Answer,
    between: Option<Map<u128, Stored>>,
    second: Answer,
    after: Option<Map<u128, Stored>>,
)
    requires
        ran(before, StatementView::CreateTable, first, between),
        ran(between, StatementView::CreateTable, second, after),
    ensures
        first == Answer::Done,
        second == Answer::Done,
        between is Some,
        after == between,
        before is Some ==> between == before,
        exists|answer: Answer, next: Option<Map<u128, Stored>>|
            ran(before, StatementView::CreateTable, answer, next),
{
    let next = match before {
        Some(table) => Some(table),
        None => Some(Map::<u128, Stored>::empty()),
    };
    assert(ran(before, StatementView::CreateTable, Answer::Done, next));
}

/// The rows that the engine selects are rows of the `tasks` table, so the
/// readers accept them.
pub proof fn law_selected_rows_are_task_rows(
    table: Map<u128, Stored>,
    statement: StatementView,
    rows: Seq<Seq<CellView>>,
    after: Option<Map<u128, Stored>>,
)
    requires
        ran(Some(table), statement, Answer::Rows(rows), after),
    ensures
        all_task_rows(rows),
{
    match statement {
        StatementView::GetAllTasks => {
            let ids = choose|ids: Seq<u128>|
                #[trigger] listing(table, ids) == rows && ids.no_duplicates() && ids.to_set()
                    == table.dom();
            assert forall|i: int| 0 <= i < rows.len() implies is_task_row(#[trigger] rows[i]) by {
                assert(rows[i] == row_of(ids[i], table[ids[i]]));
            }
        },
        _ => {},
    }
}

/// Adding a task touches one row, and the table then holds exactly one task
/// more: the new one has an identifier that no task had before, the given
/// title, and is not done; every other task is as it was.
pub proof fn law_create_adds_one_task(
    table: Map<u128, Stored>,
    title: Seq<char>,
    answer: Answer,
    after: Map<u128, Stored>,
    rows_before: Seq<Seq<CellView>>,
    rows_after: Seq<Seq<CellView>>,
)
    requires
        ran(Some(table), StatementView::AddTask { title }, answer, Some(after)),
        lists(table, rows_before),
        lists(after, rows_after),
    ensures
        answer == Answer::Count(1),
        rows_after.len() == rows_before.len() + 1,
        exists|id: u128|
            {
                &&& !table.dom().contains(id)
                &&& #[trigger] all_tasks(rows_after).contains(
                    TaskView { id, title, completed: false },
                )
                &&& forall|i: int|
                    0 <= i < rows_after.len() && all_tasks(rows_after)[i].id != id
                        ==> all_tasks(rows_before).contains(#[trigger] all_tasks(rows_after)[i])
            },
{
    let id = choose|id: u128|
        !table.dom().contains(id) && Some(after) == Some(
            #[trigger] table.insert(id, Stored { title, completed: false }),
        );
    let old_ids = choose|ids: Seq<u128>|
        #[trigger] listing(table, ids) == rows_before && ids.no_duplicates() && ids.to_set()
            == table.dom();
    let new_ids = choose|ids: Seq<u128>|
        #[trigger] listing(after, ids) == rows_after && ids.no_duplicates() && ids.to_set()
            == after.dom();
    old_ids.unique_seq_to_set();
    new_ids.unique_seq_to_set();
    assert(after.dom() == table.dom().insert(id));
    let tasks_after = all_tasks(rows_after);
    let tasks_before = all_tasks(rows_before);
    let added = TaskView { id, title, completed: false };
    assert(new_ids.to_set().contains(id));
    let at = choose|i: int| 0 <= i < new_ids.len() && new_ids[i] == id;
    assert(rows_after[at] == row_of(id, after[id]));
    assert(tasks_after[at] == added);
    assert(tasks_after.contains(added));
    assert forall|i: int|
        0 <= i < rows_after.len() && tasks_after[i].id != id implies tasks_before.contains(
        #[trigger] tasks_after[i],
    ) by {
        let other = new_ids[i];
        assert(rows_after[i] == row_of(other, after[other]));
        assert(new_ids.to_set().contains(other));
        assert(old_ids.to_set().contains(other));
        let was = choose|k: int| 0 <= k < old_ids.len() && old_ids[k] == other;
        assert(rows_before[was] == row_of(other, table[other]));
        assert(tasks_before[was] == tasks_after[i]);
    }
}

/// Marking a task as done is idempotent in what it leaves, not in what it
/// counts: where the task is there, each run touches one row, the task is
/// done after the first run, and the second run changes nothing.
pub proof fn law_completion_is_idempotent(
    table: Map<u128, Stored>,
    id: u128,
    first: Answer,
    between: Map<u128, Stored>,
    second: Answer,
    after: Map<u128, Stored>,
)
    requires
        table.dom().contains(id),
        ran(Some(table), StatementView::SetTaskCompleted { id }, first, Some(between)),
        ran(Some(between), StatementView::SetTaskCompleted { id }, second, Some(after)),
    ensures
        first == Answer::Count(1),
        second == Answer::Count(1),
        between.dom() == table.dom(),
        between[id].completed,
        between[id].title == table[id].title,
        forall|other: u128| other != id ==> between[other] == table[other],
        after == between,
{
    assert(after =~= between);
}

/// A fetch of an identifier that the table does not hold is answered without
/// a row, which the reader reports as `NotFound`.
pub proof fn law_unknown_id_is_not_found(
    table: Map<u128, Stored>,
    id: u128,
    answer: Answer,
    after: Option<Map<u128, Stored>>,
)
    requires
        !table.dom().contains(id),
        ran(Some(table), StatementView::GetTaskById { id }, answer, after),
    ensures
        answer matches Answer::Rows(rows) && one_task(rows) == Err::<TaskView, StoreErrorView>(
            StoreErrorView::NotFound,
        ),
{
}

/// Deleting a task that is there touches one row and removes that task and
/// no other; a fetch of the task is then reported as `NotFound`.
pub proof fn law_delete_removes_one_row(
    table: Map<u128, Stored>,
    id: u128,
    deleted: Answer,
    between: Map<u128, Stored>,
    fetched: Answer,
    after: Option<Map<u128, Stored>>,
)
    requires
        table.dom().contains(id),
        ran(Some(table), StatementView::DeleteTask { id }, deleted, Some(between)),
        ran(Some(between), StatementView::GetTaskById { id }, fetched, after),
    ensures
        deleted == Answer::Count(1),
        between == table.remove(id),
        fetched matches Answer::Rows(rows) && one_task(rows) == Err::<TaskView, StoreErrorView>(
            StoreErrorView::NotFound,
        ),
{
}

/// What was written is what is read: a fetch of a task that is there gives
/// the identifier, the title and the flag that the table holds for it, and
/// the identifier has a text that is not empty.
pub proof fn law_fetch_returns_what_is_stored(
    table: Map<u128, Stored>,
    id: u128,
    answer: Answer,
    after: Option<Map<u128, Stored>>,
)
    requires
        table.dom().contains(id),
        ran(Some(table), StatementView::GetTaskById { id }, answer, after),
    ensures
        answer matches Answer::Rows(rows) && one_task(rows) == Ok::<TaskView, StoreErrorView>(
            stored_task(table, id),
        ),
        hyphenated(stored_task(table, id).id).len() > 0,
{
}

/// A fetch of every task gives each stored task once, as the table holds it,
/// and no two of the tasks share an identifier.
pub proof fn law_listed_tasks_are_the_stored_ones(
    table: Map<u128, Stored>,
    rows: Seq<Seq<CellView>>,
    after: Option<Map<u128, Stored>>,
)
    requires
        ran(Some(table), StatementView::GetAllTasks, Answer::Rows(rows), after),
    ensures
        forall|i: int|
            0 <= i < rows.len() ==> {
                &&& table.dom().contains((#[trigger] all_tasks(rows)[i]).id)
                &&& all_tasks(rows)[i] == stored_task(table, all_tasks(rows)[i].id)
            },
        forall|i: int, j: int|
            0 <= i < j < rows.len() ==> (#[trigger] all_tasks(rows)[i]).id != (
            #[trigger] all_tasks(rows)[j]).id,
        forall|id: u128|
            table.dom().contains(id) ==> all_tasks(rows).contains(#[trigger] stored_task(table, id)),
{
    let ids = choose|ids: Seq<u128>|
        #[trigger] listing(table, ids) == rows && ids.no_duplicates() && ids.to_set()
            == table.dom();
    let tasks = all_tasks(rows);
    assert forall|i: int| 0 <= i < rows.len() implies #[trigger] tasks[i] == stored_task(
        table,
        ids[i],
    ) && table.dom().contains(ids[i]) by {
        assert(rows[i] == row_of(ids[i], table[ids[i]]));
        assert(ids.to_set().contains(ids[i]));
    }
    assert forall|id: u128| table.dom().contains(id) implies tasks.contains(
        #[trigger] stored_task(table, id),
    ) by {
        assert(ids.to_set().contains(id));
        let at = choose|i: int| 0 <= i < ids.len() && ids[i] == id;
        assert(tasks[at] == stored_task(table, id));
    }
}

} // verus!
