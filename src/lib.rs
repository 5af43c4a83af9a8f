//! Assembly of SQL text: literal values, AND/OR predicate clauses and SELECT
//! statements, each rendering stated over character sequences.

pub mod text;
pub mod value;
pub mod clause;
pub mod select;
pub mod laws;
