//! A task store without the wire: the statements that a client sends to a
//! relational engine for one table of tasks, and the reading of what the
//! engine answers. Sending and receiving are the caller's part.
//!
//! A task has an identifier, a title and a flag that says whether it is
//! done. The identifier is a UUID that the engine assigns when the task is
//! inserted; the table names its columns `id`, `title` and `completed`, in
//! this order, and rows are read by position.

pub mod engine;
pub mod error;
pub mod ident;
pub mod reply;
pub mod row;
pub mod statement;
pub mod task;
pub mod views;
