//! The compiler for SQLite: what each statement reads, as functions on the
//! contents of the descriptions, and the code that writes it.

use crate::components::column::Column;
use crate::components::column::ColumnProperty;
use crate::components::column::ColumnView;
use crate::components::column::PropertyView;
use crate::components::query::assignments_view;
use crate::components::query::filter_view;
use crate::components::query::names_view;
use crate::components::query::where_views;
use crate::components::query::OrderBy;
use crate::components::query::OrderByView;
use crate::components::query::Query;
use crate::components::query::QueryView;
use crate::components::query::SelectParamsView;
use crate::components::query::SelectQueryParams;
use crate::components::query::UpdateParamsView;
use crate::components::query::UpdateQueryParams;
use crate::components::query::WhereClause;
use crate::components::query::WhereView;
use crate::components::table::Table;
use crate::components::table::TableView;
use crate::dialects::malformed_rows;
use crate::dialects::Dialect;
use crate::error::EzqlError;
use crate::types::ezql_types::clone_values;
use crate::types::row_view;
use crate::types::rows_view;
use crate::types::values_view;
use crate::types::EzqlType;
use crate::types::EzqlValue;
use crate::types::ValueView;
use crate::utils::concat_all;
use crate::utils::int_text;
use crate::utils::join;
use crate::utils::lemma_concat_all_push;
use crate::utils::lemma_join_push;
use crate::utils::lemma_join_take;
use crate::utils::nat_text;
use crate::utils::push_int;
use crate::utils::push_nat;
use vstd::prelude::*;

verus! {

/// The compiler for SQLite.
#[derive(Debug, Default, Clone, Copy)]
pub struct SqliteDialect {}

/// How SQLite names a column type.
pub open spec fn type_text(t: EzqlType) -> Seq<char> {
    match t {
        EzqlType::Integer() => "INTEGER"@,
        EzqlType::VarChar(len) => "VARCHAR("@ + nat_text(len as nat) + ")"@,
        EzqlType::Boolean() => "BOOLEAN"@,
    }
}

/// How SQLite writes a value as a literal. A text is put between single
/// quotes as it is.
pub open spec fn value_text(v: ValueView) -> Seq<char> {
    match v {
        ValueView::Integer(i) => int_text(i),
        ValueView::VarChar(s) => "'"@ + s + "'"@,
        ValueView::Boolean(b) => if b {
            "TRUE"@
        } else {
            "FALSE"@
        },
    }
}

/// How SQLite writes a column property.
pub open spec fn property_text(p: PropertyView) -> Seq<char> {
    match p {
        PropertyView::PrimaryKey => "PRIMARY KEY"@,
        PropertyView::NotNull => "NOT NULL"@,
        PropertyView::Unique => "UNIQUE"@,
        PropertyView::Default(v) => "DEFAULT "@ + value_text(v),
    }
}

/// How SQLite writes an ordering.
pub open spec fn order_by_text(order_by: OrderByView) -> Seq<char> {
    match order_by {
        OrderByView::Asc(column) => column + " ASC"@,
        OrderByView::Desc(column) => column + " DESC"@,
    }
}

/// `n` placeholders, separated by commas.
pub open spec fn placeholders(n: nat) -> Seq<char> {
    join(Seq::new(n, |i: int| "?"@), ","@)
}

/// The condition of each child, in parentheses.
pub open spec fn group_texts(clauses: Seq<WhereView>) -> Seq<Seq<char>>
    decreases clauses,
{
    Seq::new(
        clauses.len(),
        |i: int|
            if 0 <= i < clauses.len() {
                "("@ + where_text(clauses[i]) + ")"@
            } else {
                Seq::empty()
            },
    )
}

/// The condition that SQLite is given for a clause tree. A comparison holds one
/// placeholder and a membership test one for each listed value. What ranges
/// over nothing is written as a constant condition: a membership test over no
/// value, and a conjunction or disjunction of no clause.
pub open spec fn where_text(clause: WhereView) -> Seq<char>
    decreases clause,
{
    match clause {
        WhereView::All => "1 = 1"@,
        WhereView::And(clauses) => if clauses.len() == 0 {
            "1 = 1"@
        } else {
            join(group_texts(clauses), " AND "@)
        },
        WhereView::Or(clauses) => if clauses.len() == 0 {
            "1 = 0"@
        } else {
            join(group_texts(clauses), " OR "@)
        },
        WhereView::Eq(column, _) => column + " = ?"@,
        WhereView::Ne(column, _) => column + " != ?"@,
        WhereView::Gt(column, _) => column + " > ?"@,
        WhereView::Ge(column, _) => column + " >= ?"@,
        WhereView::Lt(column, _) => column + " < ?"@,
        WhereView::Le(column, _) => column + " <= ?"@,
        WhereView::Like(column, _) => column + " LIKE ?"@,
        WhereView::Not(inner) => "NOT ("@ + where_text(*inner) + ")"@,
        WhereView::IsNull(column) => column + " IS NULL"@,
        WhereView::IsNotNull(column) => column + " IS NOT NULL"@,
        WhereView::In(column, values) => if values.len() == 0 {
            "1 = 0"@
        } else {
            column + " IN ("@ + placeholders(values.len()) + ")"@
        },
        WhereView::NotIn(column, values) => if values.len() == 0 {
            "1 = 1"@
        } else {
            column + " NOT IN ("@ + placeholders(values.len()) + ")"@
        },
    }
}

/// The values bound by each child.
pub open spec fn group_params(clauses: Seq<WhereView>) -> Seq<Seq<ValueView>>
    decreases clauses,
{
    Seq::new(
        clauses.len(),
        |i: int|
            if 0 <= i < clauses.len() {
                where_params(clauses[i])
            } else {
                Seq::empty()
            },
    )
}

/// The values that a clause tree binds, in the order in which its placeholders
/// are written: children from left to right, each child's values together.
pub open spec fn where_params(clause: WhereView) -> Seq<ValueView>
    decreases clause,
{
    match clause {
        WhereView::All => Seq::empty(),
        WhereView::And(clauses) => concat_all(group_params(clauses)),
        WhereView::Or(clauses) => concat_all(group_params(clauses)),
        WhereView::Eq(_, value) => seq![value],
        WhereView::Ne(_, value) => seq![value],
        WhereView::Gt(_, value) => seq![value],
        WhereView::Ge(_, value) => seq![value],
        WhereView::Lt(_, value) => seq![value],
        WhereView::Le(_, value) => seq![value],
        WhereView::Like(_, value) => seq![value],
        WhereView::Not(inner) => where_params(*inner),
        WhereView::IsNull(_) => Seq::empty(),
        WhereView::IsNotNull(_) => Seq::empty(),
        WhereView::In(_, values) => values,
        WhereView::NotIn(_, values) => values,
    }
}

/// The definition of one column: its name, its type and its properties in the
/// order of their declaration, each followed by one space but the last.
pub open spec fn column_text(column: ColumnView) -> Seq<char> {
    column.name + " "@ + type_text(column.data_type) + " "@ + join(
        column.properties.map_values(|p: PropertyView| property_text(p)),
        " "@,
    )
}

/// The statement that creates a table: one definition for each column, in the
/// order of the columns, separated by a comma and a space.
pub open spec fn create_table_text(if_not_exists: bool, table: TableView) -> Seq<char> {
    "CREATE TABLE "@ + (if if_not_exists {
        "IF NOT EXISTS "@
    } else {
        Seq::empty()
    }) + table.name + " ("@ + join(
        table.columns.map_values(|c: ColumnView| column_text(c)),
        ", "@,
    ) + ");"@
}

/// The statement that drops a table.
pub open spec fn drop_table_text(if_exists: bool, table: TableView) -> Seq<char> {
    "DROP TABLE "@ + (if if_exists {
        "IF EXISTS "@
    } else {
        Seq::empty()
    }) + table.name + ";"@
}

/// What an insert writes for one slot of a row: a placeholder for a given
/// value; for an absent one the column's default as a literal, or `NULL` where
/// the column declares none.
pub open spec fn slot_text(column: ColumnView, slot: Option<ValueView>) -> Seq<char> {
    match slot {
        Some(_) => "?"@,
        None => match column.get_default() {
            Some(default) => value_text(default),
            None => "NULL"@,
        },
    }
}

/// What an insert binds for one slot of a row: the value, if one is given.
pub open spec fn slot_params(slot: Option<ValueView>) -> Seq<ValueView> {
    match slot {
        Some(value) => seq![value],
        None => Seq::empty(),
    }
}

/// The names that an insert lists: those of the columns that are no primary
/// key, in the order of the columns.
pub open spec fn insert_columns(columns: Seq<ColumnView>) -> Seq<Seq<char>>
    decreases columns.len(),
{
    if columns.len() == 0 {
        Seq::empty()
    } else if columns.last().is_primary_key() {
        insert_columns(columns.drop_last())
    } else {
        insert_columns(columns.drop_last()).push(columns.last().name)
    }
}

/// What an insert writes for one row: one item for each column that is no
/// primary key, in the order of the columns.
pub open spec fn row_texts(columns: Seq<ColumnView>, row: Seq<Option<ValueView>>) -> Seq<
    Seq<char>,
>
    decreases columns.len(),
{
    if columns.len() == 0 {
        Seq::empty()
    } else if columns.last().is_primary_key() {
        row_texts(columns.drop_last(), row)
    } else {
        row_texts(columns.drop_last(), row).push(
            slot_text(columns.last(), row[columns.len() - 1]),
        )
    }
}

/// What an insert binds for one row: the given values of the columns that are
/// no primary key, in the order of the columns.
pub open spec fn row_params(columns: Seq<ColumnView>, row: Seq<Option<ValueView>>) -> Seq<
    ValueView,
>
    decreases columns.len(),
{
    if columns.len() == 0 {
        Seq::empty()
    } else if columns.last().is_primary_key() {
        row_params(columns.drop_last(), row)
    } else {
        row_params(columns.drop_last(), row) + slot_params(row[columns.len() - 1])
    }
}

/// What an insert reads before its rows: the table and the listed columns.
pub open spec fn insert_head(table: TableView) -> Seq<char> {
    "INSERT INTO "@ + table.name + " ("@ + join(insert_columns(table.columns), ", "@)
        + ") VALUES ("@
}

/// The rows of an insert, each as the list of its items.
pub open spec fn insert_rows(table: TableView, rows: Seq<Seq<Option<ValueView>>>) -> Seq<
    Seq<char>,
> {
    rows.map_values(|row: Seq<Option<ValueView>>| join(row_texts(table.columns, row), ", "@))
}

/// The statement that inserts `rows`, all in one list of values.
pub open spec fn insert_text(table: TableView, rows: Seq<Seq<Option<ValueView>>>) -> Seq<char> {
    insert_head(table) + join(insert_rows(table, rows), "), ("@) + ");"@
}

/// The values that an insert of `rows` binds: row after row.
pub open spec fn insert_params(table: TableView, rows: Seq<Seq<Option<ValueView>>>) -> Seq<
    ValueView,
> {
    concat_all(rows.map_values(|row: Seq<Option<ValueView>>| row_params(table.columns, row)))
}

/// The filter that ends a statement, if there is one.
pub open spec fn where_suffix(clause: Option<WhereView>) -> Seq<char> {
    match clause {
        Some(clause) => " WHERE "@ + where_text(clause),
        None => Seq::empty(),
    }
}

/// The values that the filter of a statement binds.
pub open spec fn filter_params(clause: Option<WhereView>) -> Seq<ValueView> {
    match clause {
        Some(clause) => where_params(clause),
        None => Seq::empty(),
    }
}

/// What a select reads before its filter: the projection, which is the listed
/// names or `*` for all columns, and the table.
pub open spec fn select_head(table: TableView, params: SelectParamsView) -> Seq<char> {
    "SELECT "@ + (match params.columns {
        Some(names) => join(names, ", "@),
        None => "*"@,
    }) + " FROM "@ + table.name
}

/// What a select reads behind its filter: the ordering, the limit and the
/// offset, each where it is given, and the closing semicolon.
pub open spec fn select_tail(params: SelectParamsView) -> Seq<char> {
    (match params.order_by {
        Some(order_by) => " ORDER BY "@ + order_by_text(order_by),
        None => Seq::empty(),
    }) + (match params.limit {
        Some(limit) => " LIMIT "@ + nat_text(limit),
        None => Seq::empty(),
    }) + (match params.offset {
        Some(offset) => " OFFSET "@ + nat_text(offset),
        None => Seq::empty(),
    }) + ";"@
}

/// The statement that selects from a table: projection, filter, ordering,
/// limit and offset, in this order.
pub open spec fn select_text(table: TableView, params: SelectParamsView) -> Seq<char> {
    select_head(table, params) + where_suffix(params.where_clause) + select_tail(params)
}

/// The statement that deletes from a table. Of the parameters only the filter
/// counts.
pub open spec fn delete_text(table: TableView, params: SelectParamsView) -> Seq<char> {
    "DELETE FROM "@ + table.name + where_suffix(params.where_clause) + ";"@
}

/// The assignments of an update, each with a placeholder for its value.
pub open spec fn assignment_texts(assignments: Seq<(Seq<char>, ValueView)>) -> Seq<Seq<char>> {
    assignments.map_values(|a: (Seq<char>, ValueView)| a.0 + " = ?"@)
}

/// The values that the assignments of an update bind.
pub open spec fn assignment_params(assignments: Seq<(Seq<char>, ValueView)>) -> Seq<ValueView> {
    assignments.map_values(|a: (Seq<char>, ValueView)| a.1)
}

/// The statement that updates a table: one assignment with a placeholder for
/// each pair, then the filter.
pub open spec fn update_text(table: TableView, params: UpdateParamsView) -> Seq<char> {
    "UPDATE "@ + table.name + " SET "@ + join(assignment_texts(params.assignments), ", "@)
        + where_suffix(params.where_clause) + ";"@
}

/// The values that an update binds: the assigned values, then those of the filter.
pub open spec fn update_params(params: UpdateParamsView) -> Seq<ValueView> {
    assignment_params(params.assignments) + filter_params(params.where_clause)
}

fn push_type(out: &mut String, t: &EzqlType)
    ensures
        final(out)@ == old(out)@ + type_text(*t),
{
    match t {
        EzqlType::Integer() => out.append("INTEGER"),
        EzqlType::VarChar(len) => {
            out.append("VARCHAR(");
            push_nat(out, *len as u64);
            out.append(")");
        },
        EzqlType::Boolean() => out.append("BOOLEAN"),
    }
}

fn push_value(out: &mut String, v: &EzqlValue)
    ensures
        final(out)@ == old(out)@ + value_text(v@),
{
    match v {
        EzqlValue::Integer(i) => push_int(out, *i as i64),
        EzqlValue::VarChar(s) => {
            out.append("'");
            out.append(s.as_str());
            out.append("'");
        },
        EzqlValue::Boolean(b) => {
            if *b {
                out.append("TRUE");
            } else {
                out.append("FALSE");
            }
        },
    }
}

fn push_property(out: &mut String, p: &ColumnProperty)
    ensures
        final(out)@ == old(out)@ + property_text(p@),
{
    match p {
        ColumnProperty::PrimaryKey => out.append("PRIMARY KEY"),
        ColumnProperty::NotNull => out.append("NOT NULL"),
        ColumnProperty::Unique => out.append("UNIQUE"),
        ColumnProperty::Default(v) => {
            out.append("DEFAULT ");
            push_value(out, v);
        },
    }
}

fn push_order_by(out: &mut String, order_by: &OrderBy)
    ensures
        final(out)@ == old(out)@ + order_by_text(order_by@),
{
    match order_by {
        OrderBy::Asc(column) => {
            out.append(column.as_str());
            out.append(" ASC");
        },
        OrderBy::Desc(column) => {
            out.append(column.as_str());
            out.append(" DESC");
        },
    }
}

fn push_placeholders(out: &mut String, n: usize)
    ensures
        final(out)@ == old(out)@ + placeholders(n as nat),
{
    let ghost marks = Seq::new(n as nat, |i: int| "?"@);
    let mut i: usize = 0;
    while i < n
        invariant
            i <= n,
            marks == Seq::new(n as nat, |i: int| "?"@),
            out@ == old(out)@ + join(marks.take(i as int), ","@),
        decreases n - i,
    {
        if i > 0 {
            out.append(",");
        }
        out.append("?");
        proof {
            assert(marks.take(i as int + 1) =~= marks.take(i as int).push("?"@));
            lemma_join_push(marks.take(i as int), ","@, "?"@);
        }
        i += 1;
    }
    assert(marks.take(n as int) =~= marks);
}

fn push_values(params: &mut Vec<EzqlValue>, values: &Vec<EzqlValue>)
    ensures
        values_view(final(params)@) == values_view(old(params)@) + values_view(values@),
{
    let mut copies = clone_values(values);
    params.append(&mut copies);
    assert(values_view(params@) =~= values_view(old(params)@) + values_view(values@));
}

fn push_comparison(
    sql: &mut String,
    params: &mut Vec<EzqlValue>,
    column: &String,
    operator: &str,
    value: &EzqlValue,
)
    ensures
        final(sql)@ == old(sql)@ + (column@ + operator@),
        values_view(final(params)@) == values_view(old(params)@) + seq![value@],
{
    sql.append(column.as_str());
    sql.append(operator);
    params.push(value.clone());
}

fn push_membership(
    sql: &mut String,
    params: &mut Vec<EzqlValue>,
    column: &String,
    operator: &str,
    values: &Vec<EzqlValue>,
)
    requires
        values.len() > 0,
    ensures
        final(sql)@ == old(sql)@ + (column@ + operator@ + placeholders(values.len() as nat)
            + ")"@),
        values_view(final(params)@) == values_view(old(params)@) + values_view(values@),
{
    sql.append(column.as_str());
    sql.append(operator);
    push_placeholders(sql, values.len());
    sql.append(")");
    push_values(params, values);
    assert(sql@ =~= old(sql)@ + (column@ + operator@ + placeholders(values.len() as nat)
        + ")"@));
}

fn push_group(
    sql: &mut String,
    params: &mut Vec<EzqlValue>,
    clauses: &Vec<WhereClause>,
    operator: &str,
)
    ensures
        final(sql)@ == old(sql)@ + join(group_texts(where_views(clauses@)), operator@),
        values_view(final(params)@) == values_view(old(params)@) + concat_all(
            group_params(where_views(clauses@)),
        ),
    decreases clauses,
{
    let ghost views = where_views(clauses@);
    let ghost texts = group_texts(views);
    let ghost bound = group_params(views);
    let mut i: usize = 0;
    while i < clauses.len()
        invariant
            i <= clauses.len(),
            views == where_views(clauses@),
            texts == group_texts(views),
            bound == group_params(views),
            sql@ == old(sql)@ + join(texts.take(i as int), operator@),
            values_view(params@) == values_view(old(params)@) + concat_all(bound.take(i as int)),
        decreases clauses.len() - i,
    {
        if i > 0 {
            sql.append(operator);
        }
        sql.append("(");
        push_where(sql, params, &clauses[i]);
        sql.append(")");
        proof {
            assert(texts.take(i as int + 1) =~= texts.take(i as int).push(texts[i as int]));
            assert(bound.take(i as int + 1) =~= bound.take(i as int).push(bound[i as int]));
            lemma_join_push(texts.take(i as int), operator@, texts[i as int]);
            lemma_concat_all_push(bound.take(i as int), bound[i as int]);
        }
        i += 1;
    }
    proof {
        assert(texts.take(i as int) =~= texts);
        assert(bound.take(i as int) =~= bound);
    }
}

fn push_where(sql: &mut String, params: &mut Vec<EzqlValue>, clause: &WhereClause)
    ensures
        final(sql)@ == old(sql)@ + where_text(clause@),
        values_view(final(params)@) == values_view(old(params)@) + where_params(clause@),
    decreases clause,
{
    match clause {
        WhereClause::All => {
            sql.append("1 = 1");
        },
        WhereClause::And(clauses) => {
            if clauses.len() == 0 {
                sql.append("1 = 1");
                assert(group_params(where_views(clauses@)) =~= Seq::<Seq<ValueView>>::empty());
            } else {
                push_group(sql, params, clauses, " AND ");
            }
        },
        WhereClause::Or(clauses) => {
            if clauses.len() == 0 {
                sql.append("1 = 0");
                assert(group_params(where_views(clauses@)) =~= Seq::<Seq<ValueView>>::empty());
            } else {
                push_group(sql, params, clauses, " OR ");
            }
        },
        WhereClause::Eq(column, value) => push_comparison(sql, params, column, " = ?", value),
        WhereClause::Ne(column, value) => push_comparison(sql, params, column, " != ?", value),
        WhereClause::Gt(column, value) => push_comparison(sql, params, column, " > ?", value),
        WhereClause::Ge(column, value) => push_comparison(sql, params, column, " >= ?", value),
        WhereClause::Lt(column, value) => push_comparison(sql, params, column, " < ?", value),
        WhereClause::Le(column, value) => push_comparison(sql, params, column, " <= ?", value),
        WhereClause::Like(column, value) => push_comparison(
            sql,
            params,
            column,
            " LIKE ?",
            value,
        ),
        WhereClause::Not(inner) => {
            sql.append("NOT (");
            push_where(sql, params, inner);
            sql.append(")");
        },
        WhereClause::IsNull(column) => {
            sql.append(column.as_str());
            sql.append(" IS NULL");
        },
        WhereClause::IsNotNull(column) => {
            sql.append(column.as_str());
            sql.append(" IS NOT NULL");
        },
        WhereClause::In(column, values) => {
            if values.len() == 0 {
                sql.append("1 = 0");
                assert(values_view(params@) =~= values_view(old(params)@) + where_params(
                    clause@,
                ));
            } else {
                push_membership(sql, params, column, " IN (", values);
            }
        },
        WhereClause::NotIn(column, values) => {
            if values.len() == 0 {
                sql.append("1 = 1");
                assert(values_view(params@) =~= values_view(old(params)@) + where_params(
                    clause@,
                ));
            } else {
                push_membership(sql, params, column, " NOT IN (", values);
            }
        },
    }
}

fn push_properties(out: &mut String, properties: &Vec<ColumnProperty>)
    ensures
        final(out)@ == old(out)@ + join(
            properties@.map_values(|p: ColumnProperty| p@).map_values(
                |p: PropertyView| property_text(p),
            ),
            " "@,
        ),
{
    let ghost texts = properties@.map_values(|p: ColumnProperty| p@).map_values(
        |p: PropertyView| property_text(p),
    );
    let mut i: usize = 0;
    while i < properties.len()
        invariant
            i <= properties.len(),
            texts == properties@.map_values(|p: ColumnProperty| p@).map_values(
                |p: PropertyView| property_text(p),
            ),
            out@ == old(out)@ + join(texts.take(i as int), " "@),
        decreases properties.len() - i,
    {
        if i > 0 {
            out.append(" ");
        }
        push_property(out, &properties[i]);
        proof {
            lemma_join_take(texts, " "@, i as int);
        }
        i += 1;
    }
    assert(texts.take(i as int) =~= texts);
}

fn push_column(out: &mut String, column: &Column)
    ensures
        final(out)@ == old(out)@ + column_text(column@),
{
    out.append(column.name.as_str());
    out.append(" ");
    push_type(out, &column.data_type);
    out.append(" ");
    push_properties(out, &column.properties);
}

fn push_columns(out: &mut String, columns: &Vec<Column>)
    ensures
        final(out)@ == old(out)@ + join(
            columns@.map_values(|c: Column| c@).map_values(|c: ColumnView| column_text(c)),
            ", "@,
        ),
{
    let ghost texts = columns@.map_values(|c: Column| c@).map_values(
        |c: ColumnView| column_text(c),
    );
    let mut i: usize = 0;
    while i < columns.len()
        invariant
            i <= columns.len(),
            texts == columns@.map_values(|c: Column| c@).map_values(
                |c: ColumnView| column_text(c),
            ),
            out@ == old(out)@ + join(texts.take(i as int), ", "@),
        decreases columns.len() - i,
    {
        if i > 0 {
            out.append(", ");
        }
        push_column(out, &columns[i]);
        proof {
            lemma_join_take(texts, ", "@, i as int);
        }
        i += 1;
    }
    assert(texts.take(i as int) =~= texts);
}

fn push_names(out: &mut String, names: &Vec<String>)
    ensures
        final(out)@ == old(out)@ + join(names_view(names@), ", "@),
{
    let ghost texts = names_view(names@);
    let mut i: usize = 0;
    while i < names.len()
        invariant
            i <= names.len(),
            texts == names_view(names@),
            out@ == old(out)@ + join(texts.take(i as int), ", "@),
        decreases names.len() - i,
    {
        if i > 0 {
            out.append(", ");
        }
        out.append(names[i].as_str());
        proof {
            lemma_join_take(texts, ", "@, i as int);
        }
        i += 1;
    }
    assert(texts.take(i as int) =~= texts);
}

fn push_insert_columns(out: &mut String, table: &Table)
    ensures
        final(out)@ == old(out)@ + join(insert_columns(table@.columns), ", "@),
{
    let ghost columns = table@.columns;
    let mut wrote = false;
    let mut i: usize = 0;
    while i < table.columns.len()
        invariant
            i <= table.columns.len(),
            columns == table@.columns,
            wrote == (insert_columns(columns.take(i as int)).len() > 0),
            out@ == old(out)@ + join(insert_columns(columns.take(i as int)), ", "@),
        decreases table.columns.len() - i,
    {
        let column = &table.columns[i];
        proof {
            assert(columns.take(i as int + 1).drop_last() =~= columns.take(i as int));
            assert(columns.take(i as int + 1).last() == column@);
        }
        if !column.is_primary_key() {
            if wrote {
                out.append(", ");
            }
            out.append(column.name.as_str());
            wrote = true;
            proof {
                lemma_join_push(insert_columns(columns.take(i as int)), ", "@, column@.name);
            }
        }
        i += 1;
    }
    assert(columns.take(i as int) =~= columns);
}

fn push_insert_row(
    sql: &mut String,
    params: &mut Vec<EzqlValue>,
    table: &Table,
    row: &Vec<Option<EzqlValue>>,
)
    requires
        row.len() == table.columns.len(),
    ensures
        final(sql)@ == old(sql)@ + join(row_texts(table@.columns, row_view(row@)), ", "@),
        values_view(final(params)@) == values_view(old(params)@) + row_params(
            table@.columns,
            row_view(row@),
        ),
{
    let ghost columns = table@.columns;
    let ghost slots = row_view(row@);
    let mut wrote = false;
    let mut i: usize = 0;
    while i < table.columns.len()
        invariant
            i <= table.columns.len(),
            row.len() == table.columns.len(),
            columns == table@.columns,
            slots == row_view(row@),
            wrote == (row_texts(columns.take(i as int), slots).len() > 0),
            sql@ == old(sql)@ + join(row_texts(columns.take(i as int), slots), ", "@),
            values_view(params@) == values_view(old(params)@) + row_params(
                columns.take(i as int),
                slots,
            ),
        decreases table.columns.len() - i,
    {
        let column = &table.columns[i];
        proof {
            assert(columns.take(i as int + 1).drop_last() =~= columns.take(i as int));
        }
        if !column.is_primary_key() {
            let ghost bound_before = values_view(params@);
            if wrote {
                sql.append(", ");
            }
            match &row[i] {
                Some(value) => {
                    sql.append("?");
                    params.push(value.clone());
                    assert(values_view(params@) =~= bound_before + seq![value@]);
                },
                None => {
                    match column.get_default() {
                        Some(default) => push_value(sql, &default),
                        None => sql.append("NULL"),
                    }
                },
            }
            wrote = true;
            proof {
                let item = slot_text(column@, slots[i as int]);
                lemma_join_push(row_texts(columns.take(i as int), slots), ", "@, item);
            }
        }
        i += 1;
    }
    assert(columns.take(i as int) =~= columns);
}

fn rows_fit(table: &Table, rows: &Vec<Vec<Option<EzqlValue>>>) -> (fit: bool)
    ensures
        fit == !malformed_rows(table.columns.len() as nat, rows@),
{
    if rows.len() == 0 {
        return false;
    }
    let mut r: usize = 0;
    while r < rows.len()
        invariant
            r <= rows.len(),
            forall|k: int| 0 <= k < r ==> (#[trigger] rows@[k]).len() == table.columns.len(),
        decreases rows.len() - r,
    {
        if rows[r].len() != table.columns.len() {
            return false;
        }
        r += 1;
    }
    true
}

fn push_where_suffix(sql: &mut String, params: &mut Vec<EzqlValue>, clause: &Option<WhereClause>)
    ensures
        final(sql)@ == old(sql)@ + where_suffix(filter_view(*clause)),
        values_view(final(params)@) == values_view(old(params)@) + filter_params(
            filter_view(*clause),
        ),
{
    match clause {
        Some(c) => {
            sql.append(" WHERE ");
            push_where(sql, params, c);
        },
        None => {
            assert(sql@ =~= old(sql)@ + Seq::<char>::empty());
        },
    }
}

fn push_select_head(sql: &mut String, table: &Table, query_params: &SelectQueryParams)
    ensures
        final(sql)@ == old(sql)@ + select_head(table@, query_params@),
{
    sql.append("SELECT ");
    match &query_params.columns {
        Some(names) => push_names(sql, names),
        None => sql.append("*"),
    }
    sql.append(" FROM ");
    sql.append(table.name.as_str());
    assert(sql@ =~= old(sql)@ + select_head(table@, query_params@));
}

fn push_select_tail(sql: &mut String, query_params: &SelectQueryParams)
    ensures
        final(sql)@ == old(sql)@ + select_tail(query_params@),
{
    if let Some(order_by) = &query_params.order_by {
        sql.append(" ORDER BY ");
        push_order_by(sql, order_by);
    }
    if let Some(limit) = query_params.limit {
        sql.append(" LIMIT ");
        push_nat(sql, limit as u64);
    }
    if let Some(offset) = query_params.offset {
        sql.append(" OFFSET ");
        push_nat(sql, offset as u64);
    }
    sql.append(";");
    assert(sql@ =~= old(sql)@ + select_tail(query_params@));
}

fn push_assignments(
    sql: &mut String,
    params: &mut Vec<EzqlValue>,
    assignments: &Vec<(String, EzqlValue)>,
)
    ensures
        final(sql)@ == old(sql)@ + join(
            assignment_texts(assignments_view(assignments@)),
            ", "@,
        ),
        values_view(final(params)@) == values_view(old(params)@) + assignment_params(
            assignments_view(assignments@),
        ),
{
    let ghost pairs = assignments_view(assignments@);
    let ghost texts = assignment_texts(pairs);
    let ghost bound = assignment_params(pairs);
    let mut i: usize = 0;
    while i < assignments.len()
        invariant
            i <= assignments.len(),
            pairs == assignments_view(assignments@),
            texts == assignment_texts(pairs),
            bound == assignment_params(pairs),
            sql@ == old(sql)@ + join(texts.take(i as int), ", "@),
            values_view(params@) == values_view(old(params)@) + bound.take(i as int),
        decreases assignments.len() - i,
    {
        if i > 0 {
            sql.append(", ");
        }
        let ghost bound_before = values_view(params@);
        let assignment = &assignments[i];
        sql.append(assignment.0.as_str());
        sql.append(" = ?");
        params.push(assignment.1.clone());
        proof {
            lemma_join_take(texts, ", "@, i as int);
            assert(values_view(params@) =~= bound_before.push(bound[i as int]));
        }
        i += 1;
    }
    proof {
        assert(texts.take(i as int) =~= texts);
    }
}

impl Dialect for SqliteDialect {
    /// The name of a column type.
    fn translate_type(t: EzqlType) -> (text: Result<String, EzqlError>)
        ensures
            text matches Ok(s) && s@ == type_text(t),
    {
        let mut out = String::new();
        push_type(&mut out, &t);
        Ok(out)
    }

    /// A value as a literal.
    fn translate_value(v: EzqlValue) -> (text: Result<String, EzqlError>)
        ensures
            text matches Ok(s) && s@ == value_text(v@),
    {
        let mut out = String::new();
        push_value(&mut out, &v);
        Ok(out)
    }

    /// A column property as it stands in a column's definition.
    fn translate_property(p: ColumnProperty) -> (text: Result<String, EzqlError>)
        ensures
            text matches Ok(s) && s@ == property_text(p@),
    {
        let mut out = String::new();
        push_property(&mut out, &p);
        Ok(out)
    }

    /// An ordering as it stands behind `ORDER BY`.
    fn translate_order_by(order_by: OrderBy) -> (text: Result<String, EzqlError>)
        ensures
            text matches Ok(s) && s@ == order_by_text(order_by@),
    {
        let mut out = String::new();
        push_order_by(&mut out, &order_by);
        Ok(out)
    }

    /// The condition for a clause tree, and the values bound to its
    /// placeholders in the order in which the placeholders are written.
    fn translate_where_clause(where_clause: WhereClause) -> (compiled: Result<Query, EzqlError>)
        ensures
            compiled matches Ok(q) && q@ == (QueryView {
                sql: where_text(where_clause@),
                params: where_params(where_clause@),
            }),
    {
        let mut query = Query::empty();
        push_where(&mut query.sql, &mut query.params, &where_clause);
        Ok(query)
    }

    /// The statement that creates `table`. It binds no value: a default is
    /// written as a literal.
    fn create_table(if_not_exists: bool, table: Table) -> (compiled: Result<Query, EzqlError>)
        ensures
            compiled matches Ok(q) && q@ == (QueryView {
                sql: create_table_text(if_not_exists, table@),
                params: Seq::empty(),
            }),
    {
        let mut sql = String::from_str("CREATE TABLE ");
        if if_not_exists {
            sql.append("IF NOT EXISTS ");
        }
        sql.append(table.name.as_str());
        sql.append(" (");
        push_columns(&mut sql, &table.columns);
        sql.append(");");
        let query = Query::without_params(sql);
        proof {
            assert(values_view(query.params@) =~= Seq::<ValueView>::empty());
        }
        Ok(query)
    }

    /// The statement that drops `table`. It binds no value.
    fn drop_table(if_exists: bool, table: Table) -> (compiled: Result<Query, EzqlError>)
        ensures
            compiled matches Ok(q) && q@ == (QueryView {
                sql: drop_table_text(if_exists, table@),
                params: Seq::empty(),
            }),
    {
        let mut sql = String::from_str("DROP TABLE ");
        if if_exists {
            sql.append("IF EXISTS ");
        }
        sql.append(table.name.as_str());
        sql.append(";");
        let query = Query::without_params(sql);
        proof {
            assert(values_view(query.params@) =~= Seq::<ValueView>::empty());
        }
        Ok(query)
    }

    /// The one statement that inserts all of `models`, each a row with one
    /// slot for each column of `table`. Primary-key columns are left to the
    /// engine: neither their names nor their slots are written. No row at all,
    /// or a row of another length, is refused.
    fn insert(table: &Table, models: Vec<Vec<Option<EzqlValue>>>) -> (compiled: Result<
        Query,
        EzqlError,
    >)
        ensures
            malformed_rows(table.columns.len() as nat, models@) ==> compiled == Err::<
                Query,
                EzqlError,
            >(EzqlError::MalformedQueryIR),
            !malformed_rows(table.columns.len() as nat, models@) ==> (compiled matches Ok(q)
                && q@ == (QueryView {
                sql: insert_text(table@, rows_view(models@)),
                params: insert_params(table@, rows_view(models@)),
            })),
    {
        if !rows_fit(table, &models) {
            return Err(EzqlError::MalformedQueryIR);
        }
        let ghost rows = rows_view(models@);
        let ghost texts = insert_rows(table@, rows);
        let ghost bound = rows.map_values(
            |row: Seq<Option<ValueView>>| row_params(table@.columns, row),
        );
        let mut sql = String::from_str("INSERT INTO ");
        let mut params: Vec<EzqlValue> = Vec::new();
        sql.append(table.name.as_str());
        sql.append(" (");
        push_insert_columns(&mut sql, table);
        sql.append(") VALUES (");
        let ghost head = sql@;
        let mut r: usize = 0;
        while r < models.len()
            invariant
                r <= models.len(),
                forall|k: int|
                    0 <= k < models.len() ==> (#[trigger] models@[k]).len() == table.columns.len(),
                rows == rows_view(models@),
                texts == insert_rows(table@, rows),
                bound == rows.map_values(
                    |row: Seq<Option<ValueView>>| row_params(table@.columns, row),
                ),
                sql@ == head + join(texts.take(r as int), "), ("@),
                values_view(params@) == concat_all(bound.take(r as int)),
            decreases models.len() - r,
        {
            if r > 0 {
                sql.append("), (");
            }
            push_insert_row(&mut sql, &mut params, table, &models[r]);
            proof {
                lemma_join_take(texts, "), ("@, r as int);
                assert(bound.take(r as int + 1) =~= bound.take(r as int).push(bound[r as int]));
                lemma_concat_all_push(bound.take(r as int), bound[r as int]);
            }
            r += 1;
        }
        sql.append(");");
        proof {
            assert(texts.take(r as int) =~= texts);
            assert(bound.take(r as int) =~= bound);
        }
        Ok(Query::new(sql, params))
    }

    /// The statement that selects from `table`: the named columns or all of
    /// them, then the filter, the ordering, the limit and the offset, each
    /// where it is given.
    fn select(table: &Table, query_params: SelectQueryParams) -> (compiled: Result<
        Query,
        EzqlError,
    >)
        ensures
            compiled matches Ok(q) && q@ == (QueryView {
                sql: select_text(table@, query_params@),
                params: filter_params(query_params@.where_clause),
            }),
    {
        let mut sql = String::new();
        let mut params: Vec<EzqlValue> = Vec::new();
        push_select_head(&mut sql, table, &query_params);
        push_where_suffix(&mut sql, &mut params, &query_params.where_clause);
        push_select_tail(&mut sql, &query_params);
        Ok(Query::new(sql, params))
    }

    /// The statement that deletes from `table` the rows that the filter
    /// admits. The projection, the ordering, the limit and the offset of
    /// `query_params` have no effect.
    fn delete(table: &Table, query_params: SelectQueryParams) -> (compiled: Result<
        Query,
        EzqlError,
    >)
        ensures
            compiled matches Ok(q) && q@ == (QueryView {
                sql: delete_text(table@, query_params@),
                params: filter_params(query_params@.where_clause),
            }),
    {
        let mut sql = String::from_str("DELETE FROM ");
        let mut params: Vec<EzqlValue> = Vec::new();
        sql.append(table.name.as_str());
        push_where_suffix(&mut sql, &mut params, &query_params.where_clause);
        sql.append(";");
        Ok(Query::new(sql, params))
    }

    /// The statement that assigns to the named columns of the rows that the
    /// filter admits. Each assigned value is bound, before those of the filter.
    fn update(table: &Table, query_params: UpdateQueryParams) -> (compiled: Result<
        Query,
        EzqlError,
    >)
        ensures
            compiled matches Ok(q) && q@ == (QueryView {
                sql: update_text(table@, query_params@),
                params: update_params(query_params@),
            }),
    {
        let mut sql = String::from_str("UPDATE ");
        let mut params: Vec<EzqlValue> = Vec::new();
        sql.append(table.name.as_str());
        sql.append(" SET ");
        push_assignments(&mut sql, &mut params, &query_params.assignments);
        push_where_suffix(&mut sql, &mut params, &query_params.where_clause);
        sql.append(";");
        Ok(Query::new(sql, params))
    }
}

} // verus!
