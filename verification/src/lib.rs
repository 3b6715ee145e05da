//! Guards against `UPDATE` and `DELETE` statements that carry no `WHERE`
//! predicate: classification of parsed statements, the per-operation policy,
//! and the enforcement decision taken before a query runs.

pub mod analyzer;
pub mod api;
pub mod guc;
pub mod hooks;
pub mod operation;
pub mod parser;
pub mod token;
