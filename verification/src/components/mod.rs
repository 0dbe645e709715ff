//! The descriptions that the compiler reads: columns, tables, queries and records.

pub mod column;
pub mod model;
pub mod query;
pub mod table;
