//! Column types and the values of columns.

pub mod ezql_types;
pub mod types_list;

pub use ezql_types::row_view;
pub use ezql_types::rows_view;
pub use ezql_types::values_view;
pub use ezql_types::EzqlType;
pub use ezql_types::EzqlValue;
pub use ezql_types::ValueView;
