//! The statements of the store and how they are written in SQL.

use vstd::prelude::*;
use crate::ident::TaskId;
use crate::views::views;

verus! {

/// One value bound to a placeholder of a statement.
#[derive(Clone, Debug, PartialEq, Eq)]
pub enum Param {
    Text(String),
    Bool(bool),
    Id(TaskId),
}

/// What a [`Param`] holds.
pub enum ParamView {
    Text(Seq<char>),
    Bool(bool),
    Id(u128),
}

impl View for Param {
    type V = ParamView;

    open spec fn view(&self) -> ParamView {
        match self {
            Param::Text(text) => ParamView::Text(text@),
            Param::Bool(flag) => ParamView::Bool(*flag),
            Param::Id(id) => ParamView::Id(id@),
        }
    }
}

/// One operation of the store, ready to be sent. Each is a single SQL
/// statement on the table `tasks`.
#[derive(Clone, Debug, PartialEq, Eq)]
pub enum Statement {
    /// Creates the table unless it is there.
    CreateTable,
    /// Inserts a task that is not done; the engine assigns its identifier.
    AddTask { title: String },
    /// Marks the task with this identifier as done.
    SetTaskCompleted { id: TaskId },
    /// Removes the task with this identifier.
    DeleteTask { id: TaskId },
    /// Fetches the task with this identifier.
    GetTaskById { id: TaskId },
    /// Fetches every task.
    GetAllTasks,
}

/// What a [`Statement`] holds.
pub enum StatementView {
    CreateTable,
    AddTask { title: Seq<char> },
    SetTaskCompleted { id: u128 },
    DeleteTask { id: u128 },
    GetTaskById { id: u128 },
    GetAllTasks,
}

impl View for Statement {
    type V = StatementView;

    open spec fn view(&self) -> StatementView {
        match self {
            Statement::CreateTable => StatementView::CreateTable,
            Statement::AddTask { title } => StatementView::AddTask { title: title@ },
            Statement::SetTaskCompleted { id } => StatementView::SetTaskCompleted { id: id@ },
            Statement::DeleteTask { id } => StatementView::DeleteTask { id: id@ },
            Statement::GetTaskById { id } => StatementView::GetTaskById { id: id@ },
            Statement::GetAllTasks => StatementView::GetAllTasks,
        }
    }
}

impl StatementView {
    /// The SQL text of the statement, with `$1`, `$2` for the values that
    /// are bound to it.
    pub open spec fn sql(self) -> Seq<char> {
        match self {
            StatementView::CreateTable =>
                "CREATE TABLE IF NOT EXISTS tasks (id UUID PRIMARY KEY DEFAULT gen_random_uuid (), title TEXT NOT NULL, completed BOOLEAN NOT NULL)"@,
            StatementView::AddTask { .. } => "INSERT INTO tasks (title, completed) VALUES ($1, $2)"@,
            StatementView::SetTaskCompleted { .. } => "UPDATE tasks SET completed = true WHERE id = $1"@,
            StatementView::DeleteTask { .. } => "DELETE FROM tasks WHERE id = $1"@,
            StatementView::GetTaskById { .. } => "SELECT * FROM tasks WHERE id = $1"@,
            StatementView::GetAllTasks => "SELECT * FROM tasks"@,
        }
    }

    /// The values bound to the placeholders, in the order of their numbers.
    pub open spec fn params(self) -> Seq<ParamView> {
        match self {
            StatementView::CreateTable => seq![],
            StatementView::AddTask { title } => seq![ParamView::Text(title), ParamView::Bool(false)],
            StatementView::SetTaskCompleted { id } => seq![ParamView::Id(id)],
            StatementView::DeleteTask { id } => seq![ParamView::Id(id)],
            StatementView::GetTaskById { id } => seq![ParamView::Id(id)],
            StatementView::GetAllTasks => seq![],
        }
    }
}

impl Statement {
    /// The statement that creates the table `tasks` unless it is there.
    pub fn create_table() -> (statement: Statement)
        ensures
            statement@ == StatementView::CreateTable,
    {
        Statement::CreateTable
    }

    /// The statement that inserts a task with this title, not done.
    pub fn add_task(title: &str) -> (statement: Statement)
        ensures
            statement@ == (StatementView::AddTask { title: title@ }),
    {
        Statement::AddTask { title: title.to_owned() }
    }

    /// The statement that marks the task `id` as done.
    pub fn set_task_completed(id: &TaskId) -> (statement: Statement)
        ensures
            statement@ == (StatementView::SetTaskCompleted { id: id@ }),
    {
        Statement::SetTaskCompleted { id: *id }
    }

    /// The statement that removes the task `id`.
    pub fn delete_task(id: &TaskId) -> (statement: Statement)
        ensures
            statement@ == (StatementView::DeleteTask { id: id@ }),
    {
        Statement::DeleteTask { id: *id }
    }

    /// The statement that fetches the task `id`.
    pub fn get_task_by_id(id: &TaskId) -> (statement: Statement)
        ensures
            statement@ == (StatementView::GetTaskById { id: id@ }),
    {
        Statement::GetTaskById { id: *id }
    }

    /// The statement that fetches every task.
    pub fn get_all_tasks() -> (statement: Statement)
        ensures
            statement@ == StatementView::GetAllTasks,
    {
        Statement::GetAllTasks
    }

    /// The SQL text to send.
    pub fn sql(&self) -> (text: &'static str)
        ensures
            text@ == self@.sql(),
    {
        match self {
            Statement::CreateTable =>
                "CREATE TABLE IF NOT EXISTS tasks (id UUID PRIMARY KEY DEFAULT gen_random_uuid (), title TEXT NOT NULL, completed BOOLEAN NOT NULL)",
            Statement::AddTask { .. } => "INSERT INTO tasks (title, completed) VALUES ($1, $2)",
            Statement::SetTaskCompleted { .. } => "UPDATE tasks SET completed = true WHERE id = $1",
            Statement::DeleteTask { .. } => "DELETE FROM tasks WHERE id = $1",
            Statement::GetTaskById { .. } => "SELECT * FROM tasks WHERE id = $1",
            Statement::GetAllTasks => "SELECT * FROM tasks",
        }
    }

    /// The values to bind, in the order of their placeholders.
    pub fn params(&self) -> (params: Vec<Param>)
        ensures
            views(params@) == self@.params(),
    {
        let mut params: Vec<Param> = Vec::new();
        match self {
            Statement::CreateTable => {},
            Statement::AddTask { title } => {
                params.push(Param::Text(title.clone()));
                params.push(Param::Bool(false));
            },
            Statement::SetTaskCompleted { id } => {
                params.push(Param::Id(*id));
            },
            Statement::DeleteTask { id } => {
                params.push(Param::Id(*id));
            },
            Statement::GetTaskById { id } => {
                params.push(Param::Id(*id));
            },
            Statement::GetAllTasks => {},
        }
        params
    }
}

} // verus!
