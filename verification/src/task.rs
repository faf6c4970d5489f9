//! The task entity and its mapping from a result row.

use vstd::prelude::*;
use crate::ident::TaskId;
use crate::row::{is_task_row, Cell, CellView, Row};

verus! {

/// A task as stored: its identifier, its label and whether it is done.
#[derive(Clone, Debug, PartialEq, Eq)]
pub struct Task {
    pub id: TaskId,
    pub title: String,
    pub completed: bool,
}

/// What a [`Task`] holds.
pub struct TaskView {
    pub id: u128,
    pub title: Seq<char>,
    pub completed: bool,
}

impl View for Task {
    type V = TaskView;

    open spec fn view(&self) -> TaskView {
        TaskView { id: self.id@, title: self.title@, completed: self.completed }
    }
}

/// The task that a row of the `tasks` table stands for. The mapping goes by
/// position: the identifier first, the title second, the flag third.
pub open spec fn task_of(row: Seq<CellView>) -> TaskView
    recommends
        is_task_row(row),
{
    TaskView { id: row[0]->Uuid_0, title: row[1]->Text_0, completed: row[2]->Bool_0 }
}

impl Task {
    /// Maps a row of the `tasks` table to the task it stands for.
    pub fn from(value: &Row) -> (task: Task)
        requires
            is_task_row(value@),
        ensures
            task@ == task_of(value@),
    {
        let id = match &value.cells[0] {
            Cell::Uuid(bits) => TaskId(*bits),
            _ => unreached(),
        };
        let title = match &value.cells[1] {
            Cell::Text(text) => text.clone(),
            _ => unreached(),
        };
        let completed = match &value.cells[2] {
            Cell::Bool(flag) => *flag,
            _ => unreached(),
        };
        Task { id, title, completed }
    }
}

} // verus!
