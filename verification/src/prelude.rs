//! The types that describe a table and a record, and the values they hold.

pub use crate::backends::ModelBackend;
pub use crate::components::column::Column;
pub use crate::components::column::ColumnProperty;
pub use crate::components::model::EzqlModelTrait;
pub use crate::components::table::Table;
pub use crate::error::EzqlError;
pub use crate::types::EzqlType;
pub use crate::types::EzqlValue;
