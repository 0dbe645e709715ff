//! That every statement holds as many placeholders as it binds values.

use crate::components::column::ColumnView;
use crate::components::query::OrderByView;
use crate::components::query::QueryView;
use crate::components::query::SelectParamsView;
use crate::components::query::UpdateParamsView;
use crate::components::query::WhereView;
use crate::components::table::TableView;
use crate::dialects::sqlite_dialect::assignment_texts;
use crate::dialects::sqlite_dialect::delete_text;
use crate::dialects::sqlite_dialect::filter_params;
use crate::dialects::sqlite_dialect::group_params;
use crate::dialects::sqlite_dialect::group_texts;
use crate::dialects::sqlite_dialect::insert_columns;
use crate::dialects::sqlite_dialect::insert_head;
use crate::dialects::sqlite_dialect::insert_params;
use crate::dialects::sqlite_dialect::insert_rows;
use crate::dialects::sqlite_dialect::insert_text;
use crate::dialects::sqlite_dialect::order_by_text;
use crate::dialects::sqlite_dialect::placeholders;
use crate::dialects::sqlite_dialect::row_params;
use crate::dialects::sqlite_dialect::row_texts;
use crate::dialects::sqlite_dialect::select_head;
use crate::dialects::sqlite_dialect::select_tail;
use crate::dialects::sqlite_dialect::select_text;
use crate::dialects::sqlite_dialect::update_params;
use crate::dialects::sqlite_dialect::update_text;
use crate::dialects::sqlite_dialect::value_text;
use crate::dialects::sqlite_dialect::where_params;
use crate::dialects::sqlite_dialect::where_suffix;
use crate::dialects::sqlite_dialect::where_text;
use crate::types::ValueView;
use crate::utils::concat_all;
use crate::utils::count_char;
use crate::utils::count_in_parts;
use crate::utils::join;
use crate::utils::lemma_concat_all_push;
use crate::utils::lemma_count_char_absent;
use crate::utils::lemma_count_char_add;
use crate::utils::lemma_count_in_parts_absent;
use crate::utils::lemma_join_count;
use crate::utils::lemma_join_take;
use crate::utils::lemma_nat_text_digits;
use crate::utils::nat_text;
use vstd::prelude::*;

verus! {

/// Whether no column name in the tree holds the placeholder mark.
pub open spec fn names_hold_no_mark(clause: WhereView) -> bool
    decreases clause,
{
    match clause {
        WhereView::All => true,
        WhereView::And(clauses) => forall|i: int|
            0 <= i < clauses.len() ==> names_hold_no_mark(#[trigger] clauses[i]),
        WhereView::Or(clauses) => forall|i: int|
            0 <= i < clauses.len() ==> names_hold_no_mark(#[trigger] clauses[i]),
        WhereView::Eq(column, _) => !column.contains('?'),
        WhereView::Ne(column, _) => !column.contains('?'),
        WhereView::Gt(column, _) => !column.contains('?'),
        WhereView::Ge(column, _) => !column.contains('?'),
        WhereView::Lt(column, _) => !column.contains('?'),
        WhereView::Le(column, _) => !column.contains('?'),
        WhereView::Like(column, _) => !column.contains('?'),
        WhereView::Not(inner) => names_hold_no_mark(*inner),
        WhereView::IsNull(column) => !column.contains('?'),
        WhereView::IsNotNull(column) => !column.contains('?'),
        WhereView::In(column, _) => !column.contains('?'),
        WhereView::NotIn(column, _) => !column.contains('?'),
    }
}

pub(crate) proof fn lemma_name_marks(column: Seq<char>)
    requires
        !column.contains('?'),
    ensures
        count_char(column, '?') == 0,
{
    lemma_count_char_absent(column, '?');
}

pub(crate) proof fn lemma_keyword_marks()
    ensures
        count_char("1 = 1"@, '?') == 0,
        count_char("1 = 0"@, '?') == 0,
        count_char(" AND "@, '?') == 0,
        count_char(" OR "@, '?') == 0,
        count_char("("@, '?') == 0,
        count_char(")"@, '?') == 0,
        count_char(","@, '?') == 0,
        count_char("?"@, '?') == 1,
        count_char("NOT ("@, '?') == 0,
        count_char(" IS NULL"@, '?') == 0,
        count_char(" IS NOT NULL"@, '?') == 0,
        count_char(" IN ("@, '?') == 0,
        count_char(" NOT IN ("@, '?') == 0,
        count_char(" = ?"@, '?') == 1,
        count_char(" != ?"@, '?') == 1,
        count_char(" > ?"@, '?') == 1,
        count_char(" >= ?"@, '?') == 1,
        count_char(" < ?"@, '?') == 1,
        count_char(" <= ?"@, '?') == 1,
        count_char(" LIKE ?"@, '?') == 1,
{
    reveal_with_fuel(count_char, 14);
    reveal_strlit("1 = 1");
    reveal_strlit("1 = 0");
    reveal_strlit(" AND ");
    reveal_strlit(" OR ");
    reveal_strlit("(");
    reveal_strlit(")");
    reveal_strlit(",");
    reveal_strlit("?");
    reveal_strlit("NOT (");
    reveal_strlit(" IS NULL");
    reveal_strlit(" IS NOT NULL");
    reveal_strlit(" IN (");
    reveal_strlit(" NOT IN (");
    reveal_strlit(" = ?");
    reveal_strlit(" != ?");
    reveal_strlit(" > ?");
    reveal_strlit(" >= ?");
    reveal_strlit(" < ?");
    reveal_strlit(" <= ?");
    reveal_strlit(" LIKE ?");
}

pub(crate) proof fn lemma_placeholder_marks(n: nat, k: int)
    requires
        0 <= k <= n,
    ensures
        count_char(join(Seq::new(n, |i: int| "?"@).take(k), ","@), '?') == k,
    decreases k,
{
    let marks = Seq::new(n, |i: int| "?"@);
    lemma_keyword_marks();
    if k == 0 {
        assert(marks.take(0) =~= Seq::<Seq<char>>::empty());
    } else {
        lemma_placeholder_marks(n, k - 1);
        lemma_join_take(marks, ","@, k - 1);
        if k > 1 {
            lemma_count_char_add(join(marks.take(k - 1), ","@), ","@, '?');
            lemma_count_char_add(join(marks.take(k - 1), ","@) + ","@, "?"@, '?');
        }
    }
}

pub(crate) proof fn lemma_comparison_marks(column: Seq<char>, operator: Seq<char>)
    requires
        !column.contains('?'),
        count_char(operator, '?') == 1,
    ensures
        count_char(column + operator, '?') == 1,
{
    lemma_name_marks(column);
    lemma_count_char_add(column, operator, '?');
}

proof fn lemma_membership_marks(column: Seq<char>, operator: Seq<char>, n: nat)
    requires
        !column.contains('?'),
        count_char(operator, '?') == 0,
    ensures
        count_char(column + operator + placeholders(n) + ")"@, '?') == n,
{
    lemma_name_marks(column);
    lemma_keyword_marks();
    lemma_placeholder_marks(n, n as int);
    assert(Seq::new(n, |i: int| "?"@).take(n as int) =~= Seq::new(n, |i: int| "?"@));
    lemma_count_char_add(column, operator, '?');
    lemma_count_char_add(column + operator, placeholders(n), '?');
    lemma_count_char_add(column + operator + placeholders(n), ")"@, '?');
}

pub(crate) proof fn lemma_group_marks(clauses: Seq<WhereView>, operator: Seq<char>, k: int)
    requires
        forall|i: int| 0 <= i < clauses.len() ==> names_hold_no_mark(#[trigger] clauses[i]),
        count_char(operator, '?') == 0,
        0 <= k <= clauses.len(),
    ensures
        count_char(join(group_texts(clauses).take(k), operator), '?') == concat_all(
            group_params(clauses).take(k),
        ).len(),
    decreases clauses, k,
{
    let texts = group_texts(clauses);
    let bound = group_params(clauses);
    if k > 0 {
        let child = clauses[k - 1];
        lemma_group_marks(clauses, operator, k - 1);
        lemma_where_placeholders(child);
        lemma_keyword_marks();
        lemma_count_char_add("("@, where_text(child), '?');
        lemma_count_char_add("("@ + where_text(child), ")"@, '?');
        lemma_join_take(texts, operator, k - 1);
        assert(bound.take(k) =~= bound.take(k - 1).push(bound[k - 1]));
        lemma_concat_all_push(bound.take(k - 1), bound[k - 1]);
        if k > 1 {
            lemma_count_char_add(join(texts.take(k - 1), operator), operator, '?');
            lemma_count_char_add(join(texts.take(k - 1), operator) + operator, texts[k - 1], '?');
        }
    }
}

/// The condition for a clause tree holds as many placeholders as the tree
/// binds values, provided that no column name holds the placeholder mark.
pub proof fn lemma_where_placeholders(clause: WhereView)
    requires
        names_hold_no_mark(clause),
    ensures
        count_char(where_text(clause), '?') == where_params(clause).len(),
    decreases clause, 0int,
{
    lemma_keyword_marks();
    match clause {
        WhereView::All => {},
        WhereView::And(clauses) => {
            lemma_group_marks(clauses, " AND "@, clauses.len() as int);
            assert(group_texts(clauses).take(clauses.len() as int) =~= group_texts(clauses));
            assert(group_params(clauses).take(clauses.len() as int) =~= group_params(clauses));
        },
        WhereView::Or(clauses) => {
            lemma_group_marks(clauses, " OR "@, clauses.len() as int);
            assert(group_texts(clauses).take(clauses.len() as int) =~= group_texts(clauses));
            assert(group_params(clauses).take(clauses.len() as int) =~= group_params(clauses));
        },
        WhereView::Eq(column, _) => lemma_comparison_marks(column, " = ?"@),
        WhereView::Ne(column, _) => lemma_comparison_marks(column, " != ?"@),
        WhereView::Gt(column, _) => lemma_comparison_marks(column, " > ?"@),
        WhereView::Ge(column, _) => lemma_comparison_marks(column, " >= ?"@),
        WhereView::Lt(column, _) => lemma_comparison_marks(column, " < ?"@),
        WhereView::Le(column, _) => lemma_comparison_marks(column, " <= ?"@),
        WhereView::Like(column, _) => lemma_comparison_marks(column, " LIKE ?"@),
        WhereView::Not(inner) => {
            lemma_where_placeholders(*inner);
            lemma_count_char_add("NOT ("@, where_text(*inner), '?');
            lemma_count_char_add("NOT ("@ + where_text(*inner), ")"@, '?');
        },
        WhereView::IsNull(column) => {
            lemma_name_marks(column);
            lemma_count_char_add(column, " IS NULL"@, '?');
        },
        WhereView::IsNotNull(column) => {
            lemma_name_marks(column);
            lemma_count_char_add(column, " IS NOT NULL"@, '?');
        },
        WhereView::In(column, values) => {
            if values.len() > 0 {
                lemma_membership_marks(column, " IN ("@, values.len());
            }
        },
        WhereView::NotIn(column, values) => {
            if values.len() > 0 {
                lemma_membership_marks(column, " NOT IN ("@, values.len());
            }
        },
    }
}

pub(crate) proof fn lemma_statement_marks()
    ensures
        count_char("SELECT "@, '?') == 0,
        count_char("*"@, '?') == 0,
        count_char(" FROM "@, '?') == 0,
        count_char(" WHERE "@, '?') == 0,
        count_char(" ORDER BY "@, '?') == 0,
        count_char(" ASC"@, '?') == 0,
        count_char(" DESC"@, '?') == 0,
        count_char(" LIMIT "@, '?') == 0,
        count_char(" OFFSET "@, '?') == 0,
        count_char(";"@, '?') == 0,
        count_char("DELETE FROM "@, '?') == 0,
        count_char("UPDATE "@, '?') == 0,
        count_char(" SET "@, '?') == 0,
        count_char(", "@, '?') == 0,
        count_char("INSERT INTO "@, '?') == 0,
        count_char(" ("@, '?') == 0,
        count_char(") VALUES ("@, '?') == 0,
        count_char("), ("@, '?') == 0,
        count_char(");"@, '?') == 0,
        count_char("NULL"@, '?') == 0,
        count_char(Seq::<char>::empty(), '?') == 0,
{
    reveal_with_fuel(count_char, 14);
    reveal_strlit("SELECT ");
    reveal_strlit("*");
    reveal_strlit(" FROM ");
    reveal_strlit(" WHERE ");
    reveal_strlit(" ORDER BY ");
    reveal_strlit(" ASC");
    reveal_strlit(" DESC");
    reveal_strlit(" LIMIT ");
    reveal_strlit(" OFFSET ");
    reveal_strlit(";");
    reveal_strlit("DELETE FROM ");
    reveal_strlit("UPDATE ");
    reveal_strlit(" SET ");
    reveal_strlit(", ");
    reveal_strlit("INSERT INTO ");
    reveal_strlit(" (");
    reveal_strlit(") VALUES (");
    reveal_strlit("), (");
    reveal_strlit(");");
    reveal_strlit("NULL");
}

pub(crate) proof fn lemma_number_marks(n: nat)
    ensures
        count_char(nat_text(n), '?') == 0,
{
    lemma_nat_text_digits(n, '?');
}

pub(crate) proof fn lemma_where_suffix_marks(clause: Option<WhereView>)
    requires
        clause matches Some(c) ==> names_hold_no_mark(c),
    ensures
        count_char(where_suffix(clause), '?') == filter_params(clause).len(),
{
    lemma_statement_marks();
    if let Some(c) = clause {
        lemma_where_placeholders(c);
        lemma_count_char_add(" WHERE "@, where_text(c), '?');
    }
}

/// Whether a statement holds as many placeholders as it binds values.
pub open spec fn aligned(query: QueryView) -> bool {
    count_char(query.sql, '?') == query.params.len()
}

/// Whether the placeholder mark stands in none of the names that a select
/// writes: the table's, the projected ones, the one to order by and those of
/// the filter.
pub open spec fn select_names_hold_no_mark(table: TableView, params: SelectParamsView) -> bool {
    &&& !table.name.contains('?')
    &&& params.columns matches Some(names) ==> forall|i: int|
        0 <= i < names.len() ==> !(#[trigger] names[i]).contains('?')
    &&& params.order_by matches Some(OrderByView::Asc(column)) ==> !column.contains('?')
    &&& params.order_by matches Some(OrderByView::Desc(column)) ==> !column.contains('?')
    &&& params.where_clause matches Some(clause) ==> names_hold_no_mark(clause)
}

pub(crate) proof fn lemma_select_head_marks(table: TableView, params: SelectParamsView)
    requires
        select_names_hold_no_mark(table, params),
    ensures
        count_char(select_head(table, params), '?') == 0,
{
    lemma_statement_marks();
    let projection = match params.columns {
        Some(names) => join(names, ", "@),
        None => "*"@,
    };
    if let Some(names) = params.columns {
        lemma_count_in_parts_absent(names, '?');
        lemma_join_count(names, ", "@, '?');
    }
    lemma_name_marks(table.name);
    lemma_count_char_add("SELECT "@, projection, '?');
    lemma_count_char_add("SELECT "@ + projection, " FROM "@, '?');
    lemma_count_char_add("SELECT "@ + projection + " FROM "@, table.name, '?');
}

pub(crate) proof fn lemma_select_tail_marks(params: SelectParamsView)
    requires
        params.order_by matches Some(OrderByView::Asc(column)) ==> !column.contains('?'),
        params.order_by matches Some(OrderByView::Desc(column)) ==> !column.contains('?'),
    ensures
        count_char(select_tail(params), '?') == 0,
{
    lemma_statement_marks();
    let ordering = match params.order_by {
        Some(order_by) => " ORDER BY "@ + order_by_text(order_by),
        None => Seq::empty(),
    };
    let limit = match params.limit {
        Some(limit) => " LIMIT "@ + nat_text(limit),
        None => Seq::empty(),
    };
    let offset = match params.offset {
        Some(offset) => " OFFSET "@ + nat_text(offset),
        None => Seq::empty(),
    };
    match params.order_by {
        Some(OrderByView::Asc(column)) => {
            lemma_name_marks(column);
            lemma_count_char_add(column, " ASC"@, '?');
            lemma_count_char_add(" ORDER BY "@, order_by_text(params.order_by->Some_0), '?');
        },
        Some(OrderByView::Desc(column)) => {
            lemma_name_marks(column);
            lemma_count_char_add(column, " DESC"@, '?');
            lemma_count_char_add(" ORDER BY "@, order_by_text(params.order_by->Some_0), '?');
        },
        None => {},
    }
    if let Some(n) = params.limit {
        lemma_number_marks(n);
        lemma_count_char_add(" LIMIT "@, nat_text(n), '?');
    }
    if let Some(n) = params.offset {
        lemma_number_marks(n);
        lemma_count_char_add(" OFFSET "@, nat_text(n), '?');
    }
    lemma_count_char_add(ordering, limit, '?');
    lemma_count_char_add(ordering + limit, offset, '?');
    lemma_count_char_add(ordering + limit + offset, ";"@, '?');
}

/// A select holds as many placeholders as it binds values, provided that no
/// name that it writes holds the placeholder mark.
pub proof fn lemma_select_aligned(table: TableView, params: SelectParamsView)
    requires
        select_names_hold_no_mark(table, params),
    ensures
        aligned(
            (QueryView {
                sql: select_text(table, params),
                params: filter_params(params.where_clause),
            }),
        ),
{
    lemma_select_head_marks(table, params);
    lemma_select_tail_marks(params);
    lemma_where_suffix_marks(params.where_clause);
    lemma_count_char_add(select_head(table, params), where_suffix(params.where_clause), '?');
    lemma_count_char_add(
        select_head(table, params) + where_suffix(params.where_clause),
        select_tail(params),
        '?',
    );
}

/// A delete holds as many placeholders as it binds values, provided that
/// neither the table's name nor a name in the filter holds the placeholder
/// mark.
pub proof fn lemma_delete_aligned(table: TableView, params: SelectParamsView)
    requires
        !table.name.contains('?'),
        params.where_clause matches Some(clause) ==> names_hold_no_mark(clause),
    ensures
        aligned(
            (QueryView {
                sql: delete_text(table, params),
                params: filter_params(params.where_clause),
            }),
        ),
{
    lemma_statement_marks();
    lemma_name_marks(table.name);
    lemma_where_suffix_marks(params.where_clause);
    let s1 = "DELETE FROM "@ + table.name;
    let s2 = s1 + where_suffix(params.where_clause);
    lemma_count_char_add("DELETE FROM "@, table.name, '?');
    lemma_count_char_add(s1, where_suffix(params.where_clause), '?');
    lemma_count_char_add(s2, ";"@, '?');
}

pub(crate) proof fn lemma_assignment_marks(assignments: Seq<(Seq<char>, ValueView)>)
    requires
        forall|i: int| 0 <= i < assignments.len() ==> !(#[trigger] assignments[i]).0.contains('?'),
    ensures
        count_in_parts(assignment_texts(assignments), '?') == assignments.len(),
    decreases assignments.len(),
{
    let texts = assignment_texts(assignments);
    if assignments.len() > 0 {
        let rest = assignments.drop_last();
        lemma_assignment_marks(rest);
        assert(texts.drop_last() =~= assignment_texts(rest));
        lemma_keyword_marks();
        let last = assignments.last();
        lemma_comparison_marks(last.0, " = ?"@);
    }
}

/// An update holds as many placeholders as it binds values, provided that
/// none of the table's name, the assigned names and the names in the filter
/// holds the placeholder mark.
pub proof fn lemma_update_aligned(table: TableView, params: UpdateParamsView)
    requires
        !table.name.contains('?'),
        forall|i: int|
            0 <= i < params.assignments.len() ==> !(#[trigger] params.assignments[i]).0.contains(
                '?',
            ),
        params.where_clause matches Some(clause) ==> names_hold_no_mark(clause),
    ensures
        aligned((QueryView { sql: update_text(table, params), params: update_params(params) })),
{
    lemma_statement_marks();
    lemma_name_marks(table.name);
    lemma_where_suffix_marks(params.where_clause);
    lemma_assignment_marks(params.assignments);
    let texts = assignment_texts(params.assignments);
    lemma_join_count(texts, ", "@, '?');
    let s1 = "UPDATE "@ + table.name;
    let s2 = s1 + " SET "@;
    let s3 = s2 + join(texts, ", "@);
    let s4 = s3 + where_suffix(params.where_clause);
    lemma_count_char_add("UPDATE "@, table.name, '?');
    lemma_count_char_add(s1, " SET "@, '?');
    lemma_count_char_add(s2, join(texts, ", "@), '?');
    lemma_count_char_add(s3, where_suffix(params.where_clause), '?');
    lemma_count_char_add(s4, ";"@, '?');
}

/// Whether the placeholder mark stands in nothing that an insert writes of
/// the table: its name, the names of its columns and their defaults as
/// literals.
pub open spec fn insert_texts_hold_no_mark(table: TableView) -> bool {
    &&& !table.name.contains('?')
    &&& forall|i: int|
        0 <= i < table.columns.len() ==> !(#[trigger] table.columns[i]).name.contains('?')
    &&& forall|i: int|
        0 <= i < table.columns.len() ==> ((#[trigger] table.columns[i]).get_default() matches Some(
            default,
        ) ==> !value_text(default).contains('?'))
}

proof fn lemma_insert_columns_marks(columns: Seq<ColumnView>)
    requires
        forall|i: int| 0 <= i < columns.len() ==> !(#[trigger] columns[i]).name.contains('?'),
    ensures
        count_in_parts(insert_columns(columns), '?') == 0,
    decreases columns.len(),
{
    if columns.len() > 0 {
        lemma_insert_columns_marks(columns.drop_last());
        let last = columns.last();
        lemma_name_marks(last.name);
        if !last.is_primary_key() {
            assert(insert_columns(columns).drop_last() =~= insert_columns(columns.drop_last()));
        }
    }
}

pub(crate) proof fn lemma_row_marks(columns: Seq<ColumnView>, row: Seq<Option<ValueView>>)
    requires
        forall|i: int|
            0 <= i < columns.len() ==> ((#[trigger] columns[i]).get_default() matches Some(default)
                ==> !value_text(default).contains('?')),
    ensures
        count_in_parts(row_texts(columns, row), '?') == row_params(columns, row).len(),
    decreases columns.len(),
{
    if columns.len() > 0 {
        lemma_row_marks(columns.drop_last(), row);
        let last = columns.last();
        if !last.is_primary_key() {
            let slot = row[columns.len() - 1];
            assert(row_texts(columns, row).drop_last() =~= row_texts(columns.drop_last(), row));
            lemma_keyword_marks();
            lemma_statement_marks();
            match slot {
                Some(_) => {},
                None => {
                    if let Some(default) = last.get_default() {
                        lemma_count_char_absent(value_text(default), '?');
                    }
                },
            }
        }
    }
}

proof fn lemma_rows_marks(table: TableView, rows: Seq<Seq<Option<ValueView>>>)
    requires
        insert_texts_hold_no_mark(table),
    ensures
        count_in_parts(insert_rows(table, rows), '?') == insert_params(table, rows).len(),
    decreases rows.len(),
{
    let texts = insert_rows(table, rows);
    let bound = rows.map_values(|row: Seq<Option<ValueView>>| row_params(table.columns, row));
    if rows.len() > 0 {
        let rest = rows.drop_last();
        lemma_rows_marks(table, rest);
        assert(texts.drop_last() =~= insert_rows(table, rest));
        assert(bound.drop_last() =~= rest.map_values(
            |row: Seq<Option<ValueView>>| row_params(table.columns, row),
        ));
        lemma_statement_marks();
        lemma_row_marks(table.columns, rows.last());
        lemma_join_count(row_texts(table.columns, rows.last()), ", "@, '?');
    }
}

pub(crate) proof fn lemma_insert_head_marks(table: TableView)
    requires
        insert_texts_hold_no_mark(table),
    ensures
        count_char(insert_head(table), '?') == 0,
{
    lemma_statement_marks();
    lemma_name_marks(table.name);
    lemma_insert_columns_marks(table.columns);
    lemma_join_count(insert_columns(table.columns), ", "@, '?');
    let s1 = "INSERT INTO "@ + table.name;
    let s2 = s1 + " ("@;
    let s3 = s2 + join(insert_columns(table.columns), ", "@);
    lemma_count_char_add("INSERT INTO "@, table.name, '?');
    lemma_count_char_add(s1, " ("@, '?');
    lemma_count_char_add(s2, join(insert_columns(table.columns), ", "@), '?');
    lemma_count_char_add(s3, ") VALUES ("@, '?');
}

/// An insert holds as many placeholders as it binds values, provided that
/// the placeholder mark stands in nothing that it writes of the table.
pub proof fn lemma_insert_aligned(table: TableView, rows: Seq<Seq<Option<ValueView>>>)
    requires
        insert_texts_hold_no_mark(table),
    ensures
        aligned((QueryView { sql: insert_text(table, rows), params: insert_params(table, rows) })),
{
    lemma_statement_marks();
    lemma_insert_head_marks(table);
    lemma_rows_marks(table, rows);
    let texts = insert_rows(table, rows);
    lemma_join_count(texts, "), ("@, '?');
    lemma_count_char_add(insert_head(table), join(texts, "), ("@), '?');
    lemma_count_char_add(insert_head(table) + join(texts, "), ("@), ");"@, '?');
}

} // verus!
