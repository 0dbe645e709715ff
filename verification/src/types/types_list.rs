//! Conversions between native scalars and the types and values of columns.

use crate::error::EzqlError;
use super::ezql_types::EzqlType;
use super::ezql_types::EzqlValue;
use super::ezql_types::ValueView;
use vstd::prelude::*;
use vstd::std_specs::convert::FromSpecImpl;

verus! {

impl From<i32> for EzqlType {
    fn from(_value: i32) -> (res: Self) {
        EzqlType::Integer()
    }
}

impl FromSpecImpl<i32> for EzqlType {
    open spec fn obeys_from_spec() -> bool {
        true
    }

    open spec fn from_spec(_value: i32) -> Self {
        EzqlType::Integer()
    }
}

impl From<String> for EzqlType {
    fn from(_value: String) -> (res: Self) {
        EzqlType::VarChar(255)
    }
}

impl FromSpecImpl<String> for EzqlType {
    open spec fn obeys_from_spec() -> bool {
        true
    }

    open spec fn from_spec(_value: String) -> Self {
        EzqlType::VarChar(255)
    }
}

impl<'a> From<&'a str> for EzqlType {
    fn from(_value: &'a str) -> (res: Self) {
        EzqlType::VarChar(255)
    }
}

impl<'a> FromSpecImpl<&'a str> for EzqlType {
    open spec fn obeys_from_spec() -> bool {
        true
    }

    open spec fn from_spec(_value: &'a str) -> Self {
        EzqlType::VarChar(255)
    }
}

impl From<bool> for EzqlType {
    fn from(_value: bool) -> (res: Self) {
        EzqlType::Boolean()
    }
}

impl FromSpecImpl<bool> for EzqlType {
    open spec fn obeys_from_spec() -> bool {
        true
    }

    open spec fn from_spec(_value: bool) -> Self {
        EzqlType::Boolean()
    }
}

impl From<i32> for EzqlValue {
    fn from(value: i32) -> (res: Self) {
        EzqlValue::Integer(value)
    }
}

impl FromSpecImpl<i32> for EzqlValue {
    open spec fn obeys_from_spec() -> bool {
        true
    }

    open spec fn from_spec(value: i32) -> Self {
        EzqlValue::Integer(value)
    }
}

impl From<String> for EzqlValue {
    fn from(value: String) -> (res: Self) {
        EzqlValue::VarChar(value)
    }
}

impl FromSpecImpl<String> for EzqlValue {
    open spec fn obeys_from_spec() -> bool {
        true
    }

    open spec fn from_spec(value: String) -> Self {
        EzqlValue::VarChar(value)
    }
}

impl<'a> From<&'a str> for EzqlValue {
    fn from(value: &'a str) -> (res: Self)
        ensures
            res@ == ValueView::VarChar(value@),
    {
        EzqlValue::VarChar(String::from_str(value))
    }
}

impl<'a> FromSpecImpl<&'a str> for EzqlValue {
    open spec fn obeys_from_spec() -> bool {
        false
    }

    open spec fn from_spec(value: &'a str) -> Self {
        arbitrary()
    }
}

impl From<bool> for EzqlValue {
    fn from(value: bool) -> (res: Self) {
        EzqlValue::Boolean(value)
    }
}

impl FromSpecImpl<bool> for EzqlValue {
    open spec fn obeys_from_spec() -> bool {
        true
    }

    open spec fn from_spec(value: bool) -> Self {
        EzqlValue::Boolean(value)
    }
}

impl EzqlValue {
    /// The integer carried by an `Integer` value; no other variant converts.
    pub fn to_i32(&self) -> (res: Result<i32, EzqlError>)
        ensures
            self@ matches ValueView::Integer(i) ==> res == Ok::<i32, EzqlError>(i as i32),
            !(self@ is Integer) ==> res == Err::<i32, EzqlError>(EzqlError::ConversionError),
    {
        match self {
            EzqlValue::Integer(i) => Ok(*i),
            _ => Err(EzqlError::ConversionError),
        }
    }

    /// The text carried by a `VarChar` value; no other variant converts.
    pub fn to_text(&self) -> (res: Result<String, EzqlError>)
        ensures
            *self matches EzqlValue::VarChar(s) ==> res == Ok::<String, EzqlError>(s),
            !(*self is VarChar) ==> res == Err::<String, EzqlError>(EzqlError::ConversionError),
    {
        match self {
            EzqlValue::VarChar(s) => Ok(s.clone()),
            _ => Err(EzqlError::ConversionError),
        }
    }

    /// The truth value carried by a `Boolean`, or whether an `Integer` is nonzero;
    /// a `VarChar` does not convert.
    pub fn to_bool(&self) -> (res: Result<bool, EzqlError>)
        ensures
            self@ matches ValueView::Boolean(b) ==> res == Ok::<bool, EzqlError>(b),
            self@ matches ValueView::Integer(i) ==> res == Ok::<bool, EzqlError>(i != 0),
            self@ is VarChar ==> res == Err::<bool, EzqlError>(EzqlError::ConversionError),
    {
        match self {
            EzqlValue::Boolean(b) => Ok(*b),
            EzqlValue::Integer(i) => Ok(*i != 0),
            EzqlValue::VarChar(_) => Err(EzqlError::ConversionError),
        }
    }
}

} // verus!
