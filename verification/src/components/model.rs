//! What a record type provides to be stored in a table.

use crate::components::table::Table;
use crate::error::EzqlError;
use crate::types::EzqlValue;
use vstd::prelude::*;

verus! {

/// What a record type provides to be stored in a table: the table's shape, and
/// the record as a row of that table and back.
pub trait EzqlModelTrait {
    /// The table that holds records of this type.
    fn get_table() -> Table;

    /// The record as a row: one slot for each column of the table, in the
    /// order of the columns.
    fn as_column_values(&self) -> Vec<Option<EzqlValue>>;

    /// The record that a row stands for. An implementation answers
    /// `ConversionError` where a slot is missing or holds a value that does not
    /// convert to the field's type.
    fn from_column_values(values: Vec<Option<EzqlValue>>) -> Result<Self, EzqlError> where
        Self: Sized;
}

} // verus!
