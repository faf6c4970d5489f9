//! Result rows as the engine hands them over: cells by position.

use vstd::prelude::*;
use crate::views::views;

verus! {

/// One value of a result row.
#[derive(Clone, Debug, PartialEq, Eq)]
pub enum Cell {
    /// A value of a UUID column.
    Uuid(u128),
    /// A value of a text column.
    Text(String),
    /// A value of a boolean column.
    Bool(bool),
    /// The SQL null.
    Null,
    /// A value of any other column type.
    Other,
}

/// What a [`Cell`] holds.
pub enum CellView {
    Uuid(u128),
    Text(Seq<char>),
    Bool(bool),
    Null,
    Other,
}

impl View for Cell {
    type V = CellView;

    open spec fn view(&self) -> CellView {
        match self {
            Cell::Uuid(value) => CellView::Uuid(*value),
            Cell::Text(text) => CellView::Text(text@),
            Cell::Bool(flag) => CellView::Bool(*flag),
            Cell::Null => CellView::Null,
            Cell::Other => CellView::Other,
        }
    }
}

/// One result row: its cells in column order.
#[derive(Clone, Debug, PartialEq, Eq)]
pub struct Row {
    pub cells: Vec<Cell>,
}

impl View for Row {
    type V = Seq<CellView>;

    open spec fn view(&self) -> Seq<CellView> {
        views(self.cells@)
    }
}

/// A row of the `tasks` table: a UUID, a text and a boolean, in this order.
/// Columns after the third are not looked at.
pub open spec fn is_task_row(row: Seq<CellView>) -> bool {
    &&& row.len() >= 3
    &&& row[0] is Uuid
    &&& row[1] is Text
    &&& row[2] is Bool
}

/// Every row of `rows` is a row of the `tasks` table.
pub open spec fn all_task_rows(rows: Seq<Seq<CellView>>) -> bool {
    forall|i: int| 0 <= i < rows.len() ==> is_task_row(#[trigger] rows[i])
}

impl Row {
    /// Whether the row has the columns of the `tasks` table at their
    /// positions.
    pub fn is_task_row(&self) -> (fits: bool)
        ensures
            fits == is_task_row(self@),
    {
        if self.cells.len() < 3 {
            return false;
        }
        let id_fits = match &self.cells[0] {
            Cell::Uuid(_) => true,
            _ => false,
        };
        let title_fits = match &self.cells[1] {
            Cell::Text(_) => true,
            _ => false,
        };
        let completed_fits = match &self.cells[2] {
            Cell::Bool(_) => true,
            _ => false,
        };
        id_fits && title_fits && completed_fits
    }
}

/// Whether every row of `rows` is a row of the `tasks` table.
pub fn are_task_rows(rows: &Vec<Row>) -> (fit: bool)
    ensures
        fit == all_task_rows(views(rows@)),
{
    let mut i: usize = 0;
    while i < rows.len()
        invariant
            i <= rows.len(),
            forall|j: int| 0 <= j < i ==> is_task_row(#[trigger] views(rows@)[j]),
        decreases rows.len() - i,
    {
        if !rows[i].is_task_row() {
            assert(!is_task_row(views(rows@)[i as int]));
            return false;
        }
        i += 1;
    }
    true
}

} // verus!
