//! Compilers from descriptions to the statements of one engine each.

pub mod sqlite_dialect;
pub mod sqlite_lemmas;
pub mod sqlite_placeholders;
pub mod sqlite_substitution;

pub use sqlite_dialect::SqliteDialect;


use crate::components::column::ColumnProperty;
use crate::components::query::OrderBy;
use crate::components::query::Query;
use crate::components::query::SelectQueryParams;
use crate::components::query::UpdateQueryParams;
use crate::components::query::WhereClause;
use crate::components::table::Table;
use crate::error::EzqlError;
use crate::types::EzqlType;
use crate::types::EzqlValue;
use vstd::prelude::*;

verus! {

/// Rows that every dialect refuses to insert: none at all, or one whose length
/// is not the number of the table's columns.
pub open spec fn malformed_rows(columns: nat, rows: Seq<Vec<Option<EzqlValue>>>) -> bool {
    rows.len() == 0 || exists|r: int| 0 <= r < rows.len() && (#[trigger] rows[r]).len() != columns
}

/// A compiler from table and query descriptions to the statements of one engine.
///
/// A dialect may cover only part of the types, values and clauses; it answers
/// `UnsupportedConstruct` for the rest.
pub trait Dialect {
    /// The engine's name for a column type.
    fn translate_type(t: EzqlType) -> Result<String, EzqlError>;

    /// A value written as a literal of the engine.
    fn translate_value(v: EzqlValue) -> Result<String, EzqlError>;

    /// A column property as it stands in the definition of a column.
    fn translate_property(p: ColumnProperty) -> Result<String, EzqlError>;

    /// An ordering as it stands in a select.
    fn translate_order_by(order_by: OrderBy) -> Result<String, EzqlError>;

    /// The condition for a clause tree, with the values that it binds.
    fn translate_where_clause(where_clause: WhereClause) -> Result<Query, EzqlError>;

    /// The statement that creates `table`.
    fn create_table(if_not_exists: bool, table: Table) -> Result<Query, EzqlError>;

    /// The statement that drops `table`.
    fn drop_table(if_exists: bool, table: Table) -> Result<Query, EzqlError>;

    /// The statement that inserts `models`, each a row of `table`. Whatever
    /// the dialect, no row at all and a row whose length is not the number of
    /// the table's columns are refused as `MalformedQueryIR`.
    fn insert(table: &Table, models: Vec<Vec<Option<EzqlValue>>>) -> (compiled: Result<
        Query,
        EzqlError,
    >)
        ensures
            malformed_rows(table.columns.len() as nat, models@) ==> compiled == Err::<
                Query,
                EzqlError,
            >(EzqlError::MalformedQueryIR),
    ;

    /// The statement that selects from `table`.
    fn select(table: &Table, query_params: SelectQueryParams) -> Result<Query, EzqlError>;

    /// The statement that deletes from `table`.
    fn delete(table: &Table, query_params: SelectQueryParams) -> Result<Query, EzqlError>;

    /// The statement that updates `table`.
    fn update(table: &Table, query_params: UpdateQueryParams) -> Result<Query, EzqlError>;
}

} // verus!
