//! That the values of a statement are bound in the order of its placeholders:
//! putting each value, as a literal, in the place of its placeholder gives the
//! statement written out with its values.

use crate::components::column::ColumnView;
use crate::components::query::SelectParamsView;
use crate::components::query::UpdateParamsView;
use crate::components::query::WhereView;
use crate::components::table::TableView;
use crate::dialects::sqlite_dialect::assignment_params;
use crate::dialects::sqlite_dialect::assignment_texts;
use crate::dialects::sqlite_dialect::delete_text;
use crate::dialects::sqlite_dialect::filter_params;
use crate::dialects::sqlite_dialect::group_params;
use crate::dialects::sqlite_dialect::group_texts;
use crate::dialects::sqlite_dialect::insert_head;
use crate::dialects::sqlite_dialect::insert_params;
use crate::dialects::sqlite_dialect::insert_rows;
use crate::dialects::sqlite_dialect::insert_text;
use crate::dialects::sqlite_dialect::placeholders;
use crate::dialects::sqlite_dialect::row_params;
use crate::dialects::sqlite_dialect::row_texts;
use crate::dialects::sqlite_dialect::select_head;
use crate::dialects::sqlite_dialect::select_tail;
use crate::dialects::sqlite_dialect::select_text;
use crate::dialects::sqlite_dialect::slot_params;
use crate::dialects::sqlite_dialect::slot_text;
use crate::dialects::sqlite_dialect::update_params;
use crate::dialects::sqlite_dialect::update_text;
use crate::dialects::sqlite_dialect::value_text;
use crate::dialects::sqlite_dialect::where_params;
use crate::dialects::sqlite_dialect::where_suffix;
use crate::dialects::sqlite_dialect::where_text;
use crate::dialects::sqlite_placeholders::insert_texts_hold_no_mark;
use crate::dialects::sqlite_placeholders::lemma_comparison_marks;
use crate::dialects::sqlite_placeholders::lemma_group_marks;
use crate::dialects::sqlite_placeholders::lemma_insert_head_marks;
use crate::dialects::sqlite_placeholders::lemma_keyword_marks;
use crate::dialects::sqlite_placeholders::lemma_name_marks;
use crate::dialects::sqlite_placeholders::lemma_placeholder_marks;
use crate::dialects::sqlite_placeholders::lemma_select_head_marks;
use crate::dialects::sqlite_placeholders::lemma_select_tail_marks;
use crate::dialects::sqlite_placeholders::lemma_statement_marks;
use crate::dialects::sqlite_placeholders::lemma_where_placeholders;
use crate::dialects::sqlite_placeholders::lemma_where_suffix_marks;
use crate::dialects::sqlite_placeholders::names_hold_no_mark;
use crate::dialects::sqlite_placeholders::select_names_hold_no_mark;
use crate::types::ValueView;
use crate::utils::concat_all;
use crate::utils::count_char;
use crate::utils::join;
use crate::utils::lemma_concat_all_push;
use crate::utils::lemma_count_char_absent;
use crate::utils::lemma_count_char_add;
use crate::utils::lemma_join_take;
use crate::utils::lemma_substituted_absent;
use crate::utils::lemma_substituted_add;
use crate::utils::lemma_substituted_between;
use crate::utils::lemma_substituted_join;
use crate::utils::lemma_substituted_mark;
use crate::utils::lemma_substituted_spare;
use crate::utils::substituted;
use vstd::prelude::*;

verus! {

/// The values as SQLite writes them as literals.
pub open spec fn literals(values: Seq<ValueView>) -> Seq<Seq<char>> {
    values.map_values(|v: ValueView| value_text(v))
}

/// The condition of each child, written out with its values, in parentheses.
pub open spec fn inlined_group_texts(clauses: Seq<WhereView>) -> Seq<Seq<char>>
    decreases clauses,
{
    Seq::new(
        clauses.len(),
        |i: int|
            if 0 <= i < clauses.len() {
                "("@ + inlined_text(clauses[i]) + ")"@
            } else {
                Seq::empty()
            },
    )
}

/// The condition for a clause tree with each value written as a literal where
/// the compiled condition holds a placeholder.
pub open spec fn inlined_text(clause: WhereView) -> Seq<char>
    decreases clause,
{
    match clause {
        WhereView::All => "1 = 1"@,
        WhereView::And(clauses) => if clauses.len() == 0 {
            "1 = 1"@
        } else {
            join(inlined_group_texts(clauses), " AND "@)
        },
        WhereView::Or(clauses) => if clauses.len() == 0 {
            "1 = 0"@
        } else {
            join(inlined_group_texts(clauses), " OR "@)
        },
        WhereView::Eq(column, value) => column + " = "@ + value_text(value),
        WhereView::Ne(column, value) => column + " != "@ + value_text(value),
        WhereView::Gt(column, value) => column + " > "@ + value_text(value),
        WhereView::Ge(column, value) => column + " >= "@ + value_text(value),
        WhereView::Lt(column, value) => column + " < "@ + value_text(value),
        WhereView::Le(column, value) => column + " <= "@ + value_text(value),
        WhereView::Like(column, value) => column + " LIKE "@ + value_text(value),
        WhereView::Not(inner) => "NOT ("@ + inlined_text(*inner) + ")"@,
        WhereView::IsNull(column) => column + " IS NULL"@,
        WhereView::IsNotNull(column) => column + " IS NOT NULL"@,
        WhereView::In(column, values) => if values.len() == 0 {
            "1 = 0"@
        } else {
            column + " IN ("@ + join(literals(values), ","@) + ")"@
        },
        WhereView::NotIn(column, values) => if values.len() == 0 {
            "1 = 1"@
        } else {
            column + " NOT IN ("@ + join(literals(values), ","@) + ")"@
        },
    }
}

proof fn lemma_operator_parts()
    ensures
        "?"@ == seq!['?'],
        " = ?"@ == " = "@ + "?"@,
        " != ?"@ == " != "@ + "?"@,
        " > ?"@ == " > "@ + "?"@,
        " >= ?"@ == " >= "@ + "?"@,
        " < ?"@ == " < "@ + "?"@,
        " <= ?"@ == " <= "@ + "?"@,
        " LIKE ?"@ == " LIKE "@ + "?"@,
        count_char(" = "@, '?') == 0,
        count_char(" != "@, '?') == 0,
        count_char(" > "@, '?') == 0,
        count_char(" >= "@, '?') == 0,
        count_char(" < "@, '?') == 0,
        count_char(" <= "@, '?') == 0,
        count_char(" LIKE "@, '?') == 0,
{
    reveal_with_fuel(count_char, 8);
    reveal_strlit("?");
    reveal_strlit(" = ?");
    reveal_strlit(" != ?");
    reveal_strlit(" > ?");
    reveal_strlit(" >= ?");
    reveal_strlit(" < ?");
    reveal_strlit(" <= ?");
    reveal_strlit(" LIKE ?");
    reveal_strlit(" = ");
    reveal_strlit(" != ");
    reveal_strlit(" > ");
    reveal_strlit(" >= ");
    reveal_strlit(" < ");
    reveal_strlit(" <= ");
    reveal_strlit(" LIKE ");
}

proof fn lemma_comparison_substitution(column: Seq<char>, operator: Seq<char>, value: ValueView)
    requires
        !column.contains('?'),
        count_char(operator, '?') == 0,
    ensures
        substituted(column + (operator + "?"@), '?', literals(seq![value])) == column + operator
            + value_text(value),
{
    let found = literals(seq![value]);
    lemma_operator_parts();
    lemma_keyword_marks();
    lemma_name_marks(column);
    lemma_count_char_add(column, operator, '?');
    lemma_substituted_between(column + operator, "?"@, Seq::empty(), '?', found);
    lemma_substituted_mark('?', found);
    assert(column + (operator + "?"@) =~= column + operator + "?"@ + Seq::<char>::empty());
}

proof fn lemma_placeholders_substitution(found: Seq<Seq<char>>, k: int)
    requires
        0 <= k <= found.len(),
    ensures
        substituted(join(Seq::new(found.len(), |i: int| "?"@).take(k), ","@), '?', found)
            == join(found.take(k), ","@),
    decreases k,
{
    let marks = Seq::new(found.len(), |i: int| "?"@);
    lemma_keyword_marks();
    lemma_operator_parts();
    if k > 0 {
        lemma_placeholders_substitution(found, k - 1);
        lemma_placeholder_marks(found.len(), k - 1);
        lemma_join_take(marks, ","@, k - 1);
        lemma_join_take(found, ","@, k - 1);
        let rest = found.skip(k - 1);
        lemma_substituted_mark('?', rest);
        if k == 1 {
            assert(rest =~= found);
        } else {
            let before = join(marks.take(k - 1), ","@);
            lemma_count_char_add(before, ","@, '?');
            lemma_substituted_add(before + ","@, "?"@, '?', found);
            lemma_substituted_add(before, ","@, '?', found);
            lemma_substituted_absent(","@, '?', rest);
        }
    }
}

proof fn lemma_membership_substitution(
    column: Seq<char>,
    operator: Seq<char>,
    values: Seq<ValueView>,
)
    requires
        !column.contains('?'),
        count_char(operator, '?') == 0,
    ensures
        substituted(
            column + operator + placeholders(values.len()) + ")"@,
            '?',
            literals(values),
        ) == column + operator + join(literals(values), ","@) + ")"@,
{
    let found = literals(values);
    let marks = Seq::new(values.len(), |i: int| "?"@);
    lemma_keyword_marks();
    lemma_name_marks(column);
    lemma_count_char_add(column, operator, '?');
    lemma_placeholder_marks(values.len(), values.len() as int);
    lemma_placeholders_substitution(found, found.len() as int);
    assert(marks.take(values.len() as int) =~= marks);
    assert(found.take(found.len() as int) =~= found);
    lemma_substituted_between(column + operator, placeholders(values.len()), ")"@, '?', found);
}

proof fn lemma_literals_add(a: Seq<ValueView>, b: Seq<ValueView>)
    ensures
        literals(a + b) == literals(a) + literals(b),
{
}

proof fn lemma_group_substitution(clauses: Seq<WhereView>, operator: Seq<char>, k: int)
    requires
        forall|i: int| 0 <= i < clauses.len() ==> names_hold_no_mark(#[trigger] clauses[i]),
        count_char(operator, '?') == 0,
        0 <= k <= clauses.len(),
    ensures
        substituted(
            join(group_texts(clauses).take(k), operator),
            '?',
            literals(concat_all(group_params(clauses).take(k))),
        ) == join(inlined_group_texts(clauses).take(k), operator),
    decreases clauses, k,
{
    let texts = group_texts(clauses);
    let bound = group_params(clauses);
    let inlined = inlined_group_texts(clauses);
    if k > 0 {
        let child = clauses[k - 1];
        let before = concat_all(bound.take(k - 1));
        let found = literals(concat_all(bound.take(k)));
        lemma_group_substitution(clauses, operator, k - 1);
        lemma_group_marks(clauses, operator, k - 1);
        lemma_where_substitution(child);
        lemma_where_placeholders(child);
        lemma_keyword_marks();
        lemma_join_take(texts, operator, k - 1);
        lemma_join_take(inlined, operator, k - 1);
        assert(bound.take(k) =~= bound.take(k - 1).push(bound[k - 1]));
        lemma_concat_all_push(bound.take(k - 1), bound[k - 1]);
        lemma_literals_add(before, where_params(child));
        let own = literals(where_params(child));
        lemma_substituted_between("("@, where_text(child), ")"@, '?', own);
        if k > 1 {
            let prefix = join(texts.take(k - 1), operator);
            lemma_count_char_add(prefix, operator, '?');
            lemma_substituted_add(prefix + operator, texts[k - 1], '?', found);
            lemma_substituted_add(prefix, operator, '?', found);
            lemma_substituted_spare(prefix, '?', literals(before), own);
            lemma_substituted_absent(operator, '?', found.skip(before.len() as int));
            assert(found.skip(before.len() as int) =~= own);
        }
    }
}

/// Putting the values that a clause tree binds, each as a literal, in the
/// places of the placeholders of its condition, from left to right, gives the
/// condition written out with its values: each value stands where the tree
/// uses it. This holds provided that no column name holds the placeholder
/// mark.
pub proof fn lemma_where_substitution(clause: WhereView)
    requires
        names_hold_no_mark(clause),
    ensures
        substituted(where_text(clause), '?', literals(where_params(clause))) == inlined_text(
            clause,
        ),
    decreases clause, 0int,
{
    let found = literals(where_params(clause));
    lemma_keyword_marks();
    lemma_operator_parts();
    match clause {
        WhereView::All => {
            lemma_substituted_absent("1 = 1"@, '?', found);
        },
        WhereView::And(clauses) => {
            if clauses.len() == 0 {
                lemma_substituted_absent("1 = 1"@, '?', found);
            } else {
                lemma_group_substitution(clauses, " AND "@, clauses.len() as int);
                assert(group_texts(clauses).take(clauses.len() as int) =~= group_texts(clauses));
                assert(group_params(clauses).take(clauses.len() as int) =~= group_params(
                    clauses,
                ));
                assert(inlined_group_texts(clauses).take(clauses.len() as int)
                    =~= inlined_group_texts(clauses));
            }
        },
        WhereView::Or(clauses) => {
            if clauses.len() == 0 {
                lemma_substituted_absent("1 = 0"@, '?', found);
            } else {
                lemma_group_substitution(clauses, " OR "@, clauses.len() as int);
                assert(group_texts(clauses).take(clauses.len() as int) =~= group_texts(clauses));
                assert(group_params(clauses).take(clauses.len() as int) =~= group_params(
                    clauses,
                ));
                assert(inlined_group_texts(clauses).take(clauses.len() as int)
                    =~= inlined_group_texts(clauses));
            }
        },
        WhereView::Eq(column, value) => lemma_comparison_substitution(column, " = "@, value),
        WhereView::Ne(column, value) => lemma_comparison_substitution(column, " != "@, value),
        WhereView::Gt(column, value) => lemma_comparison_substitution(column, " > "@, value),
        WhereView::Ge(column, value) => lemma_comparison_substitution(column, " >= "@, value),
        WhereView::Lt(column, value) => lemma_comparison_substitution(column, " < "@, value),
        WhereView::Le(column, value) => lemma_comparison_substitution(column, " <= "@, value),
        WhereView::Like(column, value) => lemma_comparison_substitution(column, " LIKE "@, value),
        WhereView::Not(inner) => {
            lemma_where_substitution(*inner);
            lemma_where_placeholders(*inner);
            lemma_substituted_between("NOT ("@, where_text(*inner), ")"@, '?', found);
        },
        WhereView::IsNull(column) => {
            lemma_name_marks(column);
            lemma_count_char_add(column, " IS NULL"@, '?');
            lemma_substituted_absent(column + " IS NULL"@, '?', found);
        },
        WhereView::IsNotNull(column) => {
            lemma_name_marks(column);
            lemma_count_char_add(column, " IS NOT NULL"@, '?');
            lemma_substituted_absent(column + " IS NOT NULL"@, '?', found);
        },
        WhereView::In(column, values) => {
            if values.len() == 0 {
                lemma_substituted_absent("1 = 0"@, '?', found);
            } else {
                lemma_membership_substitution(column, " IN ("@, values);
            }
        },
        WhereView::NotIn(column, values) => {
            if values.len() == 0 {
                lemma_substituted_absent("1 = 1"@, '?', found);
            } else {
                lemma_membership_substitution(column, " NOT IN ("@, values);
            }
        },
    }
}

/// The filter that ends a statement, written out with its values.
pub open spec fn inlined_where_suffix(clause: Option<WhereView>) -> Seq<char> {
    match clause {
        Some(clause) => " WHERE "@ + inlined_text(clause),
        None => Seq::empty(),
    }
}

proof fn lemma_where_suffix_substitution(clause: Option<WhereView>)
    requires
        clause matches Some(c) ==> names_hold_no_mark(c),
    ensures
        substituted(where_suffix(clause), '?', literals(filter_params(clause)))
            == inlined_where_suffix(clause),
        count_char(where_suffix(clause), '?') == literals(filter_params(clause)).len(),
{
    lemma_statement_marks();
    lemma_where_suffix_marks(clause);
    let found = literals(filter_params(clause));
    match clause {
        Some(c) => {
            lemma_where_substitution(c);
            lemma_where_placeholders(c);
            lemma_substituted_between(" WHERE "@, where_text(c), Seq::empty(), '?', found);
            assert(" WHERE "@ + where_text(c) + Seq::<char>::empty() =~= where_suffix(clause));
            assert(" WHERE "@ + inlined_text(c) + Seq::<char>::empty() =~= inlined_where_suffix(
                clause,
            ));
        },
        None => {
            lemma_substituted_absent(where_suffix(clause), '?', found);
        },
    }
}

/// A select written out with the values of its filter.
pub open spec fn inlined_select_text(table: TableView, params: SelectParamsView) -> Seq<char> {
    select_head(table, params) + inlined_where_suffix(params.where_clause) + select_tail(params)
}

/// Putting the values that a select binds in the places of its placeholders
/// gives the select written out with the values of its filter, provided that
/// no name that it writes holds the placeholder mark.
pub proof fn lemma_select_substitution(table: TableView, params: SelectParamsView)
    requires
        select_names_hold_no_mark(table, params),
    ensures
        substituted(
            select_text(table, params),
            '?',
            literals(filter_params(params.where_clause)),
        ) == inlined_select_text(table, params),
{
    lemma_select_head_marks(table, params);
    lemma_select_tail_marks(params);
    lemma_where_suffix_substitution(params.where_clause);
    lemma_substituted_between(
        select_head(table, params),
        where_suffix(params.where_clause),
        select_tail(params),
        '?',
        literals(filter_params(params.where_clause)),
    );
}

/// A delete written out with the values of its filter.
pub open spec fn inlined_delete_text(table: TableView, params: SelectParamsView) -> Seq<char> {
    "DELETE FROM "@ + table.name + inlined_where_suffix(params.where_clause) + ";"@
}

/// Putting the values that a delete binds in the places of its placeholders
/// gives the delete written out with the values of its filter, provided that
/// neither the table's name nor a name in the filter holds the placeholder
/// mark.
pub proof fn lemma_delete_substitution(table: TableView, params: SelectParamsView)
    requires
        !table.name.contains('?'),
        params.where_clause matches Some(clause) ==> names_hold_no_mark(clause),
    ensures
        substituted(
            delete_text(table, params),
            '?',
            literals(filter_params(params.where_clause)),
        ) == inlined_delete_text(table, params),
{
    lemma_statement_marks();
    lemma_name_marks(table.name);
    lemma_count_char_add("DELETE FROM "@, table.name, '?');
    lemma_where_suffix_substitution(params.where_clause);
    lemma_substituted_between(
        "DELETE FROM "@ + table.name,
        where_suffix(params.where_clause),
        ";"@,
        '?',
        literals(filter_params(params.where_clause)),
    );
}

/// The assignments of an update, each written out with its value.
pub open spec fn inlined_assignment_texts(assignments: Seq<(Seq<char>, ValueView)>) -> Seq<
    Seq<char>,
> {
    assignments.map_values(|a: (Seq<char>, ValueView)| a.0 + " = "@ + value_text(a.1))
}

/// An update written out with its values.
pub open spec fn inlined_update_text(table: TableView, params: UpdateParamsView) -> Seq<char> {
    "UPDATE "@ + table.name + " SET "@ + join(
        inlined_assignment_texts(params.assignments),
        ", "@,
    ) + inlined_where_suffix(params.where_clause) + ";"@
}

proof fn lemma_single_literals(values: Seq<ValueView>)
    ensures
        concat_all(values.map_values(|v: ValueView| seq![value_text(v)])) == literals(values),
    decreases values.len(),
{
    let singles = values.map_values(|v: ValueView| seq![value_text(v)]);
    if values.len() == 0 {
        assert(literals(values) =~= Seq::<Seq<char>>::empty());
    } else {
        let rest = values.drop_last();
        lemma_single_literals(rest);
        assert(singles.drop_last() =~= rest.map_values(|v: ValueView| seq![value_text(v)]));
        assert(literals(values) =~= literals(rest) + seq![value_text(values.last())]);
    }
}

proof fn lemma_assignments_substitution(assignments: Seq<(Seq<char>, ValueView)>)
    requires
        forall|i: int| 0 <= i < assignments.len() ==> !(#[trigger] assignments[i]).0.contains('?'),
    ensures
        substituted(
            join(assignment_texts(assignments), ", "@),
            '?',
            literals(assignment_params(assignments)),
        ) == join(inlined_assignment_texts(assignments), ", "@),
        count_char(join(assignment_texts(assignments), ", "@), '?') == literals(
            assignment_params(assignments),
        ).len(),
{
    let texts = assignment_texts(assignments);
    let values = assignment_params(assignments);
    let found = values.map_values(|v: ValueView| seq![value_text(v)]);
    lemma_statement_marks();
    lemma_keyword_marks();
    lemma_operator_parts();
    lemma_single_literals(values);
    assert forall|i: int| 0 <= i < texts.len() implies count_char(#[trigger] texts[i], '?')
        == found[i].len() && substituted(texts[i], '?', found[i]) == inlined_assignment_texts(
        assignments,
    )[i] by {
        let a = assignments[i];
        lemma_comparison_marks(a.0, " = ?"@);
        lemma_comparison_substitution(a.0, " = "@, a.1);
        assert(found[i] =~= literals(seq![a.1]));
    }
    lemma_substituted_join(texts, ", "@, '?', found);
    assert(Seq::new(texts.len(), |i: int| substituted(texts[i], '?', found[i]))
        =~= inlined_assignment_texts(assignments));
}

/// Putting the values that an update binds in the places of its placeholders
/// gives the update written out with its values: the assigned values stand in
/// the assignments, in their order, and the values of the filter in the
/// filter. This holds provided that none of the table's name, the assigned
/// names and the names in the filter holds the placeholder mark.
pub proof fn lemma_update_substitution(table: TableView, params: UpdateParamsView)
    requires
        !table.name.contains('?'),
        forall|i: int|
            0 <= i < params.assignments.len() ==> !(#[trigger] params.assignments[i]).0.contains(
                '?',
            ),
        params.where_clause matches Some(clause) ==> names_hold_no_mark(clause),
    ensures
        substituted(update_text(table, params), '?', literals(update_params(params)))
            == inlined_update_text(table, params),
{
    let head = "UPDATE "@ + table.name + " SET "@;
    let assigned = join(assignment_texts(params.assignments), ", "@);
    let filter = where_suffix(params.where_clause);
    let own = literals(assignment_params(params.assignments));
    let others = literals(filter_params(params.where_clause));
    let found = literals(update_params(params));
    lemma_statement_marks();
    lemma_name_marks(table.name);
    lemma_count_char_add("UPDATE "@, table.name, '?');
    lemma_count_char_add("UPDATE "@ + table.name, " SET "@, '?');
    lemma_assignments_substitution(params.assignments);
    lemma_where_suffix_substitution(params.where_clause);
    lemma_literals_add(assignment_params(params.assignments), filter_params(params.where_clause));
    lemma_substituted_between(head, assigned, Seq::empty(), '?', own);
    assert(head + assigned + Seq::<char>::empty() =~= head + assigned);
    lemma_substituted_spare(head + assigned, '?', own, others);
    lemma_substituted_add(head + assigned, filter, '?', found);
    assert(found.skip(own.len() as int) =~= others);
    lemma_count_char_add(head + assigned, filter, '?');
    lemma_substituted_add(head + assigned + filter, ";"@, '?', found);
    lemma_substituted_absent(";"@, '?', found.skip(found.len() as int));
    assert(substituted(update_text(table, params), '?', found) =~= inlined_update_text(
        table,
        params,
    ));
}

/// What an insert writes for one slot of a row when it is written out with
/// its values: a given value as a literal, and for an absent one what the
/// compiled insert writes too.
pub open spec fn inlined_slot_text(column: ColumnView, slot: Option<ValueView>) -> Seq<char> {
    match slot {
        Some(value) => value_text(value),
        None => slot_text(column, slot),
    }
}

/// One row of an insert written out with its values: one item for each
/// column that is no primary key, in the order of the columns.
pub open spec fn inlined_row_texts(
    columns: Seq<ColumnView>,
    row: Seq<Option<ValueView>>,
) -> Seq<Seq<char>>
    decreases columns.len(),
{
    if columns.len() == 0 {
        Seq::empty()
    } else if columns.last().is_primary_key() {
        inlined_row_texts(columns.drop_last(), row)
    } else {
        inlined_row_texts(columns.drop_last(), row).push(
            inlined_slot_text(columns.last(), row[columns.len() - 1]),
        )
    }
}

/// The rows of an insert written out with their values.
pub open spec fn inlined_insert_rows(
    table: TableView,
    rows: Seq<Seq<Option<ValueView>>>,
) -> Seq<Seq<char>> {
    rows.map_values(
        |row: Seq<Option<ValueView>>| join(inlined_row_texts(table.columns, row), ", "@),
    )
}

/// An insert written out with its values.
pub open spec fn inlined_insert_text(table: TableView, rows: Seq<Seq<Option<ValueView>>>) -> Seq<
    char,
> {
    insert_head(table) + join(inlined_insert_rows(table, rows), "), ("@) + ");"@
}

/// The literals of each written slot of a row, slot by slot.
spec fn row_literals(columns: Seq<ColumnView>, row: Seq<Option<ValueView>>) -> Seq<
    Seq<Seq<char>>,
>
    decreases columns.len(),
{
    if columns.len() == 0 {
        Seq::empty()
    } else if columns.last().is_primary_key() {
        row_literals(columns.drop_last(), row)
    } else {
        row_literals(columns.drop_last(), row).push(
            literals(slot_params(row[columns.len() - 1])),
        )
    }
}

proof fn lemma_row_literals(columns: Seq<ColumnView>, row: Seq<Option<ValueView>>)
    requires
        forall|i: int|
            0 <= i < columns.len() ==> ((#[trigger] columns[i]).get_default() matches Some(default)
                ==> !value_text(default).contains('?')),
    ensures
        row_literals(columns, row).len() == row_texts(columns, row).len(),
        inlined_row_texts(columns, row).len() == row_texts(columns, row).len(),
        concat_all(row_literals(columns, row)) == literals(row_params(columns, row)),
        forall|j: int|
            0 <= j < row_texts(columns, row).len() ==> count_char(
                #[trigger] row_texts(columns, row)[j],
                '?',
            ) == row_literals(columns, row)[j].len() && substituted(
                row_texts(columns, row)[j],
                '?',
                row_literals(columns, row)[j],
            ) == inlined_row_texts(columns, row)[j],
    decreases columns.len(),
{
    if columns.len() == 0 {
        assert(literals(row_params(columns, row)) =~= Seq::<Seq<char>>::empty());
    } else {
        let rest = columns.drop_last();
        lemma_row_literals(rest, row);
        let last = columns.last();
        assert(last == columns[columns.len() - 1]);
        if !last.is_primary_key() {
            let slot = row[columns.len() - 1];
            let own = literals(slot_params(slot));
            lemma_concat_all_push(row_literals(rest, row), own);
            lemma_literals_add(row_params(rest, row), slot_params(slot));
            lemma_keyword_marks();
            lemma_statement_marks();
            lemma_operator_parts();
            match slot {
                Some(value) => {
                    assert(own =~= seq![value_text(value)]);
                    lemma_substituted_mark('?', own);
                },
                None => {
                    assert(own =~= Seq::<Seq<char>>::empty());
                    if let Some(default) = last.get_default() {
                        lemma_count_char_absent(value_text(default), '?');
                    }
                    lemma_substituted_absent(slot_text(last, slot), '?', own);
                },
            }
            let n = row_texts(rest, row).len() as int;
            assert forall|j: int| 0 <= j < row_texts(columns, row).len() implies count_char(
                #[trigger] row_texts(columns, row)[j],
                '?',
            ) == row_literals(columns, row)[j].len() && substituted(
                row_texts(columns, row)[j],
                '?',
                row_literals(columns, row)[j],
            ) == inlined_row_texts(columns, row)[j] by {
                if j < n {
                    assert(row_texts(columns, row)[j] == row_texts(rest, row)[j]);
                }
            }
        }
    }
}

proof fn lemma_literals_concat(lists: Seq<Seq<ValueView>>)
    ensures
        literals(concat_all(lists)) == concat_all(
            lists.map_values(|list: Seq<ValueView>| literals(list)),
        ),
    decreases lists.len(),
{
    let mapped = lists.map_values(|list: Seq<ValueView>| literals(list));
    if lists.len() == 0 {
        assert(literals(concat_all(lists)) =~= Seq::<Seq<char>>::empty());
    } else {
        let rest = lists.drop_last();
        lemma_literals_concat(rest);
        assert(mapped.drop_last() =~= rest.map_values(|list: Seq<ValueView>| literals(list)));
        lemma_literals_add(concat_all(rest), lists.last());
    }
}

/// Putting the values that an insert binds in the places of its placeholders
/// gives the insert written out with its values: row after row, each value in
/// the slot that it was given for. This holds provided that the placeholder
/// mark stands in nothing that the insert writes of the table.
pub proof fn lemma_insert_substitution(table: TableView, rows: Seq<Seq<Option<ValueView>>>)
    requires
        insert_texts_hold_no_mark(table),
    ensures
        substituted(insert_text(table, rows), '?', literals(insert_params(table, rows)))
            == inlined_insert_text(table, rows),
{
    let texts = insert_rows(table, rows);
    let bound = rows.map_values(|row: Seq<Option<ValueView>>| row_params(table.columns, row));
    let found = bound.map_values(|list: Seq<ValueView>| literals(list));
    lemma_statement_marks();
    lemma_insert_head_marks(table);
    lemma_literals_concat(bound);
    assert forall|r: int| 0 <= r < texts.len() implies count_char(#[trigger] texts[r], '?')
        == found[r].len() && substituted(texts[r], '?', found[r]) == inlined_insert_rows(
        table,
        rows,
    )[r] by {
        let row = rows[r];
        let items = row_texts(table.columns, row);
        lemma_row_literals(table.columns, row);
        lemma_substituted_join(items, ", "@, '?', row_literals(table.columns, row));
        assert(Seq::new(
            items.len(),
            |j: int| substituted(items[j], '?', row_literals(table.columns, row)[j]),
        ) =~= inlined_row_texts(table.columns, row));
    }
    lemma_substituted_join(texts, "), ("@, '?', found);
    assert(Seq::new(texts.len(), |r: int| substituted(texts[r], '?', found[r]))
        =~= inlined_insert_rows(table, rows));
    lemma_substituted_between(
        insert_head(table),
        join(texts, "), ("@),
        ");"@,
        '?',
        literals(insert_params(table, rows)),
    );
}

} // verus!
