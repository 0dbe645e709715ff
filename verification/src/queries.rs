//! The types that describe a query, and the compiled statement.

pub use crate::components::query::OrderBy;
pub use crate::components::query::Query;
pub use crate::components::query::SelectQueryParams;
pub use crate::components::query::UpdateQueryParams;
pub use crate::components::query::WhereClause;
