//! Task-management core: the data model, the mapping between database rows and
//! tasks, the statements the repository issues, subtask progress, and the
//! schema-migration plan with its version ledger.
pub mod models;
pub mod row;
pub mod repository;
pub mod statement;
pub mod schema;
