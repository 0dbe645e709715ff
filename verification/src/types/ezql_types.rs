//! The closed sets of column types and of values, one value variant for each type.

use crate::utils::nat_text;
use crate::utils::push_nat;
use vstd::prelude::*;

verus! {

/// Logical column types, each possibly carrying a parameter.
#[derive(Debug, PartialEq, Eq)]
pub enum EzqlType {
    Integer(),
    VarChar(usize),
    Boolean(),
}

/// Runtime values, one variant per logical type, each carrying one native scalar.
#[derive(Debug, PartialEq, Eq)]
pub enum EzqlValue {
    Integer(i32),
    VarChar(String),
    Boolean(bool),
}

/// The mathematical content of an [`EzqlValue`].
pub ghost enum ValueView {
    Integer(int),
    VarChar(Seq<char>),
    Boolean(bool),
}

impl View for EzqlValue {
    type V = ValueView;

    open spec fn view(&self) -> ValueView {
        match *self {
            EzqlValue::Integer(i) => ValueView::Integer(i as int),
            EzqlValue::VarChar(s) => ValueView::VarChar(s@),
            EzqlValue::Boolean(b) => ValueView::Boolean(b),
        }
    }
}

/// The name under which a type is shown.
pub open spec fn type_label(t: EzqlType) -> Seq<char> {
    match t {
        EzqlType::Integer() => "INTEGER"@,
        EzqlType::VarChar(len) => "VARCHAR("@ + nat_text(len as nat) + ")"@,
        EzqlType::Boolean() => "BOOLEAN"@,
    }
}

impl EzqlType {
    /// The name under which the type is shown.
    pub fn to_string(&self) -> (text: String)
        ensures
            text@ == type_label(*self),
    {
        match self {
            EzqlType::Integer() => String::from_str("INTEGER"),
            EzqlType::VarChar(len) => {
                let mut text = String::from_str("VARCHAR(");
                push_nat(&mut text, *len as u64);
                text.append(")");
                text
            },
            EzqlType::Boolean() => String::from_str("BOOLEAN"),
        }
    }
}

impl Clone for EzqlType {
    fn clone(&self) -> (res: Self)
        ensures
            res == *self,
    {
        match self {
            EzqlType::Integer() => EzqlType::Integer(),
            EzqlType::VarChar(len) => EzqlType::VarChar(*len),
            EzqlType::Boolean() => EzqlType::Boolean(),
        }
    }
}

impl Clone for EzqlValue {
    fn clone(&self) -> (res: Self)
        ensures
            res@ == self@,
    {
        match self {
            EzqlValue::Integer(i) => EzqlValue::Integer(*i),
            EzqlValue::VarChar(s) => EzqlValue::VarChar(s.clone()),
            EzqlValue::Boolean(b) => EzqlValue::Boolean(*b),
        }
    }
}

/// The contents of a sequence of values.
pub open spec fn values_view(values: Seq<EzqlValue>) -> Seq<ValueView> {
    values.map_values(|v: EzqlValue| v@)
}

/// A copy of `values`, value by value.
pub fn clone_values(values: &Vec<EzqlValue>) -> (res: Vec<EzqlValue>)
    ensures
        values_view(res@) == values_view(values@),
{
    let mut res: Vec<EzqlValue> = Vec::new();
    let mut i: usize = 0;
    while i < values.len()
        invariant
            i <= values.len(),
            res.len() == i,
            forall|j: int| 0 <= j < i ==> res[j]@ == values[j]@,
        decreases values.len() - i,
    {
        res.push(values[i].clone());
        i += 1;
    }
    res
}

/// The contents of a row: one optional value per slot.
pub open spec fn row_view(row: Seq<Option<EzqlValue>>) -> Seq<Option<ValueView>> {
    row.map_values(
        |slot: Option<EzqlValue>|
            match slot {
                Some(v) => Some(v@),
                None => None,
            },
    )
}

/// The contents of a sequence of rows.
pub open spec fn rows_view(rows: Seq<Vec<Option<EzqlValue>>>) -> Seq<Seq<Option<ValueView>>> {
    rows.map_values(|row: Vec<Option<EzqlValue>>| row_view(row@))
}

} // verus!
