//! Rows between the engine and the caller: decoding what the engine hands
//! back, bringing fetched rows to the width of the table, and turning rows into
//! records and back.

use crate::components::column::ColumnView;
use crate::components::model::EzqlModelTrait;
use crate::components::query::names_view;
use crate::components::query::projection_view;
use crate::components::table::Table;
use crate::error::EzqlError;
use crate::types::row_view;
use crate::types::EzqlValue;
use crate::types::ValueView;
use vstd::prelude::*;

verus! {

/// The rows of `models`, in their order: each is what the model gives as its
/// column values.
pub fn models_to_rows<M>(models: &[&M]) -> (rows: Vec<Vec<Option<EzqlValue>>>) where
    M: EzqlModelTrait,

    ensures
        rows.len() == models.len(),
        forall|i: int|
            0 <= i < rows.len() ==> call_ensures(
                M::as_column_values,
                (models[i],),
                #[trigger] rows[i],
            ),
{
    let mut rows: Vec<Vec<Option<EzqlValue>>> = Vec::new();
    let mut i: usize = 0;
    while i < models.len()
        invariant
            i <= models.len(),
            rows.len() == i,
            forall|k: int|
                0 <= k < i ==> call_ensures(M::as_column_values, (models[k],), #[trigger] rows[k]),
        decreases models.len() - i,
    {
        let row = models[i].as_column_values();
        rows.push(row);
        i += 1;
    }
    rows
}

/// Whether `models` is the answer to converting `rows` for a table of `width`
/// columns: the models that the model's own conversion gave for the rows, in
/// their order, where every row has `width` slots and the conversion took them
/// all; else the failure of the first row that has another length, which is a
/// `ConversionError`, or that the conversion did not take.
pub open spec fn converted<M: EzqlModelTrait>(
    width: nat,
    rows: Seq<Vec<Option<EzqlValue>>>,
    models: Result<Vec<M>, EzqlError>,
) -> bool {
    match models {
        Ok(taken) => {
            &&& taken.len() == rows.len()
            &&& forall|i: int|
                0 <= i < rows.len() ==> (#[trigger] rows[i]).len() == width && call_ensures(
                    M::from_column_values,
                    (rows[i],),
                    Ok::<M, EzqlError>(taken[i]),
                )
        },
        Err(e) => exists|i: int|
            {
                &&& 0 <= i < rows.len()
                &&& forall|k: int|
                    0 <= k < i ==> (#[trigger] rows[k]).len() == width && exists|m: M|
                        call_ensures(M::from_column_values, (rows[k],), Ok::<M, EzqlError>(m))
                &&& if (#[trigger] rows[i]).len() != width {
                    e == EzqlError::ConversionError
                } else {
                    call_ensures(M::from_column_values, (rows[i],), Err::<M, EzqlError>(e))
                }
            },
    }
}

/// The models that `rows` stand for, in their order. A row whose length is not
/// the number of the table's columns is refused, and so is the whole result;
/// each other row is handed to the model's own conversion, whose first failure
/// is the answer.
pub fn rows_to_models<M>(table: &Table, rows: Vec<Vec<Option<EzqlValue>>>) -> (models: Result<
    Vec<M>,
    EzqlError,
>) where M: EzqlModelTrait
    ensures
        converted(table.columns.len() as nat, rows@, models),
{
    let width = table.columns.len();
    let mut taken: Vec<M> = Vec::new();
    for row in it: rows
        invariant
            width == table.columns.len(),
            taken.len() == it.index(),
            it.seq() == rows@,
            forall|i: int|
                0 <= i < it.index() ==> (#[trigger] rows[i]).len() == width && call_ensures(
                    M::from_column_values,
                    (rows[i],),
                    Ok::<M, EzqlError>(taken[i]),
                ),
    {
        if row.len() != width {
            return Err(EzqlError::ConversionError);
        }
        match M::from_column_values(row) {
            Ok(model) => taken.push(model),
            Err(e) => {
                return Err(e);
            },
        }
    }
    Ok(taken)
}

/// The first position at which `names` holds `name`, if it holds it at all.
pub open spec fn first_position(names: Seq<Seq<char>>, name: Seq<char>) -> Option<int>
    decreases names.len(),
{
    if names.len() == 0 {
        None
    } else if names.first() == name {
        Some(0)
    } else {
        match first_position(names.drop_first(), name) {
            Some(position) => Some(position + 1),
            None => None,
        }
    }
}

/// Where a row that the engine returned for a select with the projection
/// `columns` holds the value of the table's column at position `i`: at `i`
/// where all columns were selected, else where the projection names the column
/// first, and nowhere if it does not name it.
pub open spec fn source(
    table_columns: Seq<ColumnView>,
    columns: Option<Seq<Seq<char>>>,
    i: int,
) -> Option<int> {
    match columns {
        Some(names) => first_position(names, table_columns[i].name),
        None => Some(i),
    }
}

/// Whether a fetched row of `len` values holds a value for each selected
/// column of the table.
pub open spec fn suffices(
    table_columns: Seq<ColumnView>,
    columns: Option<Seq<Seq<char>>>,
    len: nat,
) -> bool {
    forall|i: int|
        0 <= i < table_columns.len() ==> (#[trigger] source(table_columns, columns, i)
            matches Some(position) ==> position < len)
}

/// A fetched row brought to the width of the table: the slot of a selected
/// column holds the value that was fetched for it; the slot of any other
/// column is empty.
pub open spec fn realigned(
    table_columns: Seq<ColumnView>,
    columns: Option<Seq<Seq<char>>>,
    fetched: Seq<Option<ValueView>>,
) -> Seq<Option<ValueView>> {
    Seq::new(
        table_columns.len(),
        |i: int|
            match source(table_columns, columns, i) {
                Some(position) => fetched[position],
                None => None,
            },
    )
}

/// The first position of a name is in the list, holds the name, and no
/// position before it does; a name has no first position exactly if the list
/// does not hold it.
pub proof fn lemma_first_position(names: Seq<Seq<char>>, name: Seq<char>)
    ensures
        first_position(names, name) matches Some(position) ==> 0 <= position < names.len()
            && names[position] == name && forall|k: int| 0 <= k < position ==> names[k] != name,
        first_position(names, name) is None <==> !names.contains(name),
    decreases names.len(),
{
    if names.len() > 0 {
        let rest = names.drop_first();
        lemma_first_position(rest, name);
        if names.first() != name {
            match first_position(rest, name) {
                Some(position) => {
                    assert forall|k: int| 0 <= k < position + 1 implies names[k] != name by {
                        if k > 0 {
                            assert(names[k] == rest[k - 1]);
                        }
                    }
                },
                None => {
                    assert forall|k: int| 0 <= k < names.len() implies names[k] != name by {
                        if k > 0 {
                            assert(names[k] == rest[k - 1]);
                        }
                    }
                },
            }
        }
    }
}

fn find_name(names: &Vec<String>, name: &String) -> (found: Option<usize>)
    ensures
        found matches Some(position) ==> first_position(names_view(names@), name@) == Some(
            position as int,
        ),
        found is None ==> first_position(names_view(names@), name@) is None,
{
    let ghost all = names_view(names@);
    let mut i: usize = 0;
    proof {
        assert(all.skip(0) =~= all);
    }
    while i < names.len()
        invariant
            i <= names.len(),
            all == names_view(names@),
            first_position(all, name@) == match first_position(all.skip(i as int), name@) {
                Some(position) => Some(position + i),
                None => None,
            },
        decreases names.len() - i,
    {
        proof {
            assert(all.skip(i as int).drop_first() =~= all.skip(i as int + 1));
        }
        if names[i] == *name {
            return Some(i);
        }
        i += 1;
    }
    None
}

fn find_source(table: &Table, columns: &Option<Vec<String>>, i: usize) -> (found: Option<usize>)
    requires
        i < table.columns.len(),
    ensures
        found matches Some(position) ==> source(table@.columns, projection_view(*columns), i as int)
            == Some(position as int),
        found is None ==> source(table@.columns, projection_view(*columns), i as int) is None,
{
    match columns {
        Some(names) => find_name(names, &table.columns[i].name),
        None => Some(i),
    }
}

/// Brings a row as the engine returned it for a select with the projection
/// `columns` to the width of `table`. The engine is taken to return the values
/// in the order of the projection, or in the order of the table where all
/// columns were selected. A row that lacks the value of a selected column is
/// refused; values that belong to no column of the table are not read.
pub fn realign_row(
    table: &Table,
    columns: &Option<Vec<String>>,
    fetched: &Vec<Option<EzqlValue>>,
) -> (row: Result<Vec<Option<EzqlValue>>, EzqlError>)
    ensures
        !suffices(table@.columns, projection_view(*columns), fetched.len() as nat) ==> row
            == Err::<Vec<Option<EzqlValue>>, EzqlError>(EzqlError::ConversionError),
        suffices(table@.columns, projection_view(*columns), fetched.len() as nat) ==> (row matches Ok(
            aligned,
        ) && row_view(aligned@) == realigned(
            table@.columns,
            projection_view(*columns),
            row_view(fetched@),
        )),
{
    let ghost table_columns = table@.columns;
    let ghost projection = projection_view(*columns);
    let mut aligned: Vec<Option<EzqlValue>> = Vec::new();
    let mut i: usize = 0;
    while i < table.columns.len()
        invariant
            i <= table.columns.len(),
            table_columns == table@.columns,
            projection == projection_view(*columns),
            aligned.len() == i,
            forall|k: int|
                0 <= k < i ==> (#[trigger] source(table_columns, projection, k) matches Some(
                    position,
                ) ==> position < fetched.len()),
            forall|k: int|
                0 <= k < i ==> (#[trigger] row_view(aligned@)[k]) == realigned(
                    table_columns,
                    projection,
                    row_view(fetched@),
                )[k],
        decreases table.columns.len() - i,
    {
        let ghost before = row_view(aligned@);
        match find_source(table, columns, i) {
            Some(position) => {
                if position >= fetched.len() {
                    return Err(EzqlError::ConversionError);
                }
                let slot = match &fetched[position] {
                    Some(value) => Some(value.clone()),
                    None => None,
                };
                aligned.push(slot);
            },
            None => {
                aligned.push(None);
            },
        }
        proof {
            assert(row_view(aligned@) =~= before.push(row_view(aligned@)[i as int]));
        }
        i += 1;
    }
    Ok(aligned)
}

/// Brings each of the rows that the engine returned to the width of `table`,
/// as [`realign_row`] does. A row that is refused makes the whole answer
/// a refusal.
pub fn realign_rows(
    table: &Table,
    columns: &Option<Vec<String>>,
    fetched: &Vec<Vec<Option<EzqlValue>>>,
) -> (rows: Result<Vec<Vec<Option<EzqlValue>>>, EzqlError>)
    ensures
        (exists|r: int|
            0 <= r < fetched.len() && !suffices(
                table@.columns,
                projection_view(*columns),
                (#[trigger] fetched[r]).len() as nat,
            )) ==> rows == Err::<Vec<Vec<Option<EzqlValue>>>, EzqlError>(
            EzqlError::ConversionError,
        ),
        (forall|r: int|
            0 <= r < fetched.len() ==> suffices(
                table@.columns,
                projection_view(*columns),
                (#[trigger] fetched[r]).len() as nat,
            )) ==> (rows matches Ok(aligned) && aligned.len() == fetched.len() && forall|r: int|
            0 <= r < fetched.len() ==> row_view((#[trigger] aligned[r])@) == realigned(
                table@.columns,
                projection_view(*columns),
                row_view(fetched[r]@),
            )),
{
    let mut aligned: Vec<Vec<Option<EzqlValue>>> = Vec::new();
    let mut r: usize = 0;
    while r < fetched.len()
        invariant
            r <= fetched.len(),
            aligned.len() == r,
            forall|k: int|
                0 <= k < r ==> suffices(
                    table@.columns,
                    projection_view(*columns),
                    (#[trigger] fetched[k]).len() as nat,
                ),
            forall|k: int|
                0 <= k < r ==> row_view((#[trigger] aligned[k])@) == realigned(
                    table@.columns,
                    projection_view(*columns),
                    row_view(fetched[k]@),
                ),
        decreases fetched.len() - r,
    {
        match realign_row(table, columns, &fetched[r]) {
            Ok(row) => aligned.push(row),
            Err(e) => {
                return Err(e);
            },
        }
        r += 1;
    }
    Ok(aligned)
}

/// A realigned row has one slot for each column of the table. The slot of a
/// column that the projection does not name is empty; the slot of a column
/// that it names holds the value that was fetched at the first position at
/// which it names the column. Where all columns were selected, the row is the
/// fetched row, as far as the table is wide.
pub proof fn lemma_realigned_slots(
    table_columns: Seq<ColumnView>,
    columns: Option<Seq<Seq<char>>>,
    fetched: Seq<Option<ValueView>>,
    i: int,
)
    requires
        0 <= i < table_columns.len(),
    ensures
        realigned(table_columns, columns, fetched).len() == table_columns.len(),
        columns is None ==> realigned(table_columns, columns, fetched)[i] == fetched[i],
        columns is Some && !columns->Some_0.contains(table_columns[i].name) ==> realigned(
            table_columns,
            columns,
            fetched,
        )[i] is None,
        columns is Some && columns->Some_0.contains(table_columns[i].name) ==> exists|
            position: int,
        |
            0 <= position < columns->Some_0.len() && columns->Some_0[position]
                == table_columns[i].name && (forall|k: int|
                0 <= k < position ==> columns->Some_0[k] != table_columns[i].name) && realigned(
                table_columns,
                columns,
                fetched,
            )[i] == fetched[position],
{
    if let Some(names) = columns {
        lemma_first_position(names, table_columns[i].name);
    }
}

/// A scalar as an engine hands it back for one column of a row.
#[derive(Debug, PartialEq, Eq)]
pub enum EngineValue {
    /// No value.
    Null,
    /// A 64-bit integer.
    Integer(i64),
    /// A text.
    Text(String),
    /// A scalar of a kind that no value of this crate stands for.
    Other,
}

impl Clone for EngineValue {
    fn clone(&self) -> (res: Self)
        ensures
            res == *self,
    {
        match self {
            EngineValue::Null => EngineValue::Null,
            EngineValue::Integer(i) => EngineValue::Integer(*i),
            EngineValue::Text(s) => EngineValue::Text(s.clone()),
            EngineValue::Other => EngineValue::Other,
        }
    }
}

/// The slot that a scalar from the engine fills: empty for no value, an
/// `Integer` of the low 32 bits for an integer, a `VarChar` for a text. A
/// scalar of another kind is refused.
pub fn decode_value(raw: EngineValue) -> (slot: Result<Option<EzqlValue>, EzqlError>)
    ensures
        raw is Null ==> slot == Ok::<Option<EzqlValue>, EzqlError>(None),
        raw matches EngineValue::Integer(i) ==> slot == Ok::<Option<EzqlValue>, EzqlError>(
            Some(EzqlValue::Integer(i as i32)),
        ),
        raw matches EngineValue::Text(s) ==> slot == Ok::<Option<EzqlValue>, EzqlError>(
            Some(EzqlValue::VarChar(s)),
        ),
        raw is Other ==> slot == Err::<Option<EzqlValue>, EzqlError>(EzqlError::ConversionError),
{
    match raw {
        EngineValue::Null => Ok(None),
        EngineValue::Integer(i) => Ok(Some(EzqlValue::Integer(#[verifier::truncate] (i as i32)))),
        EngineValue::Text(s) => Ok(Some(EzqlValue::VarChar(s))),
        EngineValue::Other => Err(EzqlError::ConversionError),
    }
}

/// The integer field that the slot at `position` of a row stands for: none
/// for an empty slot. A row without that slot is refused, and so is a value
/// that is no `Integer`.
pub fn integer_at(values: &Vec<Option<EzqlValue>>, position: usize) -> (field: Result<
    Option<i32>,
    EzqlError,
>)
    ensures
        field == (if position >= values.len() {
            Err::<Option<i32>, EzqlError>(EzqlError::ConversionError)
        } else {
            match values[position as int] {
                None => Ok(None),
                Some(EzqlValue::Integer(i)) => Ok(Some(i)),
                Some(_) => Err(EzqlError::ConversionError),
            }
        }),
{
    if position >= values.len() {
        return Err(EzqlError::ConversionError);
    }
    match &values[position] {
        Some(value) => match value.to_i32() {
            Ok(i) => Ok(Some(i)),
            Err(e) => Err(e),
        },
        None => Ok(None),
    }
}

/// The text field that the slot at `position` of a row stands for: none for
/// an empty slot. A row without that slot is refused, and so is a value that
/// is no `VarChar`.
pub fn text_at(values: &Vec<Option<EzqlValue>>, position: usize) -> (field: Result<
    Option<String>,
    EzqlError,
>)
    ensures
        field == (if position >= values.len() {
            Err::<Option<String>, EzqlError>(EzqlError::ConversionError)
        } else {
            match values[position as int] {
                None => Ok(None),
                Some(EzqlValue::VarChar(s)) => Ok(Some(s)),
                Some(_) => Err(EzqlError::ConversionError),
            }
        }),
{
    if position >= values.len() {
        return Err(EzqlError::ConversionError);
    }
    match &values[position] {
        Some(value) => match value.to_text() {
            Ok(text) => Ok(Some(text)),
            Err(e) => Err(e),
        },
        None => Ok(None),
    }
}

/// The truth value that the slot at `position` of a row stands for: none for
/// an empty slot, the value of a `Boolean`, and for an `Integer` whether it is
/// not zero. A row without that slot is refused, and so is a `VarChar`.
pub fn boolean_at(values: &Vec<Option<EzqlValue>>, position: usize) -> (field: Result<
    Option<bool>,
    EzqlError,
>)
    ensures
        field == (if position >= values.len() {
            Err::<Option<bool>, EzqlError>(EzqlError::ConversionError)
        } else {
            match values[position as int] {
                None => Ok(None),
                Some(EzqlValue::Boolean(b)) => Ok(Some(b)),
                Some(EzqlValue::Integer(i)) => Ok(Some(i != 0)),
                Some(EzqlValue::VarChar(_)) => Err(EzqlError::ConversionError),
            }
        }),
{
    if position >= values.len() {
        return Err(EzqlError::ConversionError);
    }
    match &values[position] {
        Some(value) => match value.to_bool() {
            Ok(b) => Ok(Some(b)),
            Err(e) => Err(e),
        },
        None => Ok(None),
    }
}

} // verus!
