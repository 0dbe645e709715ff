//! A compiler from typed descriptions of tables and queries to SQL statements
//! with bound values.
//!
//! A [`prelude::Table`] and the types under [`queries`] describe what is
//! wanted; a [`dialects::Dialect`] turns the description into a
//! [`queries::Query`], the statement's text with the values for its
//! placeholders in the order in which the placeholders occur. A [`Backend`]
//! has an engine run such statements, and every backend serves records
//! through [`prelude::ModelBackend`].
//!
//! The text that [`dialects::SqliteDialect`] writes is stated exactly, over the
//! contents of the descriptions, by the functions of
//! [`dialects::sqlite_dialect`]. What holds of it in general is proved in
//! [`dialects::sqlite_lemmas`] (the layout of a schema, the policy of an
//! insert), [`dialects::sqlite_placeholders`] (as many placeholders as bound
//! values) and [`dialects::sqlite_substitution`] (each value bound to the
//! placeholder that stands where the value is used).

pub mod backends;
pub mod components;
pub mod dialects;
pub mod error;
pub mod prelude;
pub mod queries;
pub mod types;
pub mod utils;

pub use crate::backends::Backend;
pub use crate::error::EzqlError;
