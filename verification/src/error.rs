//! The failures that the operations of this crate signal.

use vstd::prelude::*;

verus! {

/// The ways an operation of this crate can fail.
#[derive(Debug, PartialEq, Eq)]
pub enum EzqlError {
    /// A dialect was asked to translate a construct it does not cover.
    UnsupportedConstruct,
    /// The query description is structurally invalid.
    MalformedQueryIR,
    /// A value could not be turned into the requested native scalar, or a slot is missing.
    ConversionError,
    /// A failure reported by the engine that ran a statement, carried as the engine worded it.
    ExecError(String),
}

impl Clone for EzqlError {
    fn clone(&self) -> (res: Self)
        ensures
            res == *self,
    {
        match self {
            EzqlError::UnsupportedConstruct => EzqlError::UnsupportedConstruct,
            EzqlError::MalformedQueryIR => EzqlError::MalformedQueryIR,
            EzqlError::ConversionError => EzqlError::ConversionError,
            EzqlError::ExecError(m) => EzqlError::ExecError(m.clone()),
        }
    }
}

impl EzqlError {
    /// A short description of the failure.
    pub fn message(&self) -> (text: String)
        ensures
            *self matches EzqlError::ExecError(m) ==> text@ == m@,
            *self is UnsupportedConstruct ==> text@ == "unsupported construct for this dialect"@,
            *self is MalformedQueryIR ==> text@ == "malformed query description"@,
            *self is ConversionError ==> text@ == "value conversion failed"@,
    {
        match self {
            EzqlError::UnsupportedConstruct => String::from_str(
                "unsupported construct for this dialect",
            ),
            EzqlError::MalformedQueryIR => String::from_str("malformed query description"),
            EzqlError::ConversionError => String::from_str("value conversion failed"),
            EzqlError::ExecError(m) => m.clone(),
        }
    }
}

} // verus!
