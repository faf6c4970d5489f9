use task_store::ident::TaskId;
use task_store::row::{are_task_rows, Cell, Row};
use task_store::task::Task;

fn task_row(id: u128, title: &str, completed: bool) -> Row {
    Row { cells: vec![Cell::Uuid(id), Cell::Text(title.to_string()), Cell::Bool(completed)] }
}

#[test]
fn a_row_maps_to_a_task_by_position() {
    let task = Task::from(&task_row(9, "Buy milk", false));
    assert_eq!(task, Task { id: TaskId(9), title: "Buy milk".to_string(), completed: false });
}

#[test]
fn a_row_of_a_finished_task_maps_to_a_finished_task() {
    let task = Task::from(&task_row(u128::MAX, "", true));
    assert_eq!(task.id, TaskId(u128::MAX));
    assert_eq!(task.title, "");
    assert!(task.completed);
}

#[test]
fn columns_after_the_third_are_ignored() {
    let mut row = task_row(3, "x", true);
    row.cells.push(Cell::Other);
    assert!(row.is_task_row());
    assert_eq!(Task::from(&row), Task { id: TaskId(3), title: "x".to_string(), completed: true });
}

#[test]
fn a_row_in_table_order_is_a_task_row() {
    assert!(task_row(1, "a", false).is_task_row());
}

#[test]
fn a_row_with_columns_in_another_order_is_no_task_row() {
    let swapped = Row { cells: vec![Cell::Text("a".to_string()), Cell::Uuid(1), Cell::Bool(false)] };
    assert!(!swapped.is_task_row());
    let flag_first = Row { cells: vec![Cell::Bool(false), Cell::Uuid(1), Cell::Text("a".to_string())] };
    assert!(!flag_first.is_task_row());
    let flag_second = Row { cells: vec![Cell::Uuid(1), Cell::Bool(false), Cell::Text("a".to_string())] };
    assert!(!flag_second.is_task_row());
}

#[test]
fn a_short_row_is_no_task_row() {
    assert!(!Row { cells: vec![] }.is_task_row());
    assert!(!Row { cells: vec![Cell::Uuid(1), Cell::Text("a".to_string())] }.is_task_row());
}

#[test]
fn a_row_with_a_null_or_another_type_is_no_task_row() {
    assert!(!Row { cells: vec![Cell::Null, Cell::Text("a".to_string()), Cell::Bool(true)] }.is_task_row());
    assert!(!Row { cells: vec![Cell::Uuid(1), Cell::Null, Cell::Bool(true)] }.is_task_row());
    assert!(!Row { cells: vec![Cell::Uuid(1), Cell::Text("a".to_string()), Cell::Null] }.is_task_row());
    assert!(!Row { cells: vec![Cell::Uuid(1), Cell::Other, Cell::Bool(true)] }.is_task_row());
}

#[test]
fn no_rows_are_task_rows() {
    assert!(are_task_rows(&vec![]));
}

#[test]
fn rows_are_task_rows_only_if_each_is() {
    let good = vec![task_row(1, "a", false), task_row(2, "b", true)];
    assert!(are_task_rows(&good));
    let bad_last = vec![task_row(1, "a", false), Row { cells: vec![Cell::Uuid(2)] }];
    assert!(!are_task_rows(&bad_last));
    let bad_first = vec![Row { cells: vec![Cell::Other] }, task_row(1, "a", false)];
    assert!(!are_task_rows(&bad_first));
}
