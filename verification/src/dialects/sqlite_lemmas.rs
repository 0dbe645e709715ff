//! What holds of every statement that the compiler for SQLite writes.

use crate::components::column::lemma_first_default;
use crate::components::column::ColumnView;
use crate::components::query::WhereView;
use crate::components::table::TableView;
use crate::dialects::sqlite_dialect::column_text;
use crate::dialects::sqlite_dialect::create_table_text;
use crate::dialects::sqlite_dialect::group_params;
use crate::dialects::sqlite_dialect::insert_columns;
use crate::dialects::sqlite_dialect::row_params;
use crate::dialects::sqlite_dialect::row_texts;
use crate::dialects::sqlite_dialect::slot_params;
use crate::dialects::sqlite_dialect::slot_text;
use crate::dialects::sqlite_dialect::value_text;
use crate::dialects::sqlite_dialect::where_params;
use crate::dialects::sqlite_dialect::where_text;
use crate::types::ValueView;
use crate::utils::concat_all;
use crate::utils::join;
use crate::utils::join_offset;
use crate::utils::lemma_concat_all_push;
use crate::utils::lemma_join_part;
use crate::utils::lemma_join_take;
use vstd::prelude::*;

verus! {

/// What stands before the first column definition in the statement that
/// creates a table.
pub open spec fn create_table_head(if_not_exists: bool, table: TableView) -> Seq<char> {
    "CREATE TABLE "@ + (if if_not_exists {
        "IF NOT EXISTS "@
    } else {
        Seq::empty()
    }) + table.name + " ("@
}

/// Where the definition of the column at position `i` begins in the statement
/// that creates a table.
pub open spec fn column_start(if_not_exists: bool, table: TableView, i: int) -> int {
    create_table_head(if_not_exists, table).len() + join_offset(
        table.columns.map_values(|c: ColumnView| column_text(c)),
        ", "@,
        i,
    )
}

/// The statement that creates a table holds the definition of each column
/// once, in the order of the columns: the first begins where the head ends,
/// each other one behind the one before it and one separator, and behind the
/// last only the closing `);` follows.
pub proof fn lemma_create_table_columns(if_not_exists: bool, table: TableView, i: int)
    requires
        0 <= i < table.columns.len(),
    ensures
        column_start(if_not_exists, table, i) + column_text(table.columns[i]).len()
            <= create_table_text(if_not_exists, table).len(),
        create_table_text(if_not_exists, table).subrange(
            column_start(if_not_exists, table, i),
            column_start(if_not_exists, table, i) + column_text(table.columns[i]).len(),
        ) == column_text(table.columns[i]),
        i == 0 ==> column_start(if_not_exists, table, i) == create_table_head(
            if_not_exists,
            table,
        ).len(),
        i > 0 ==> column_start(if_not_exists, table, i) == column_start(
            if_not_exists,
            table,
            i - 1,
        ) + column_text(table.columns[i - 1]).len() + ", "@.len(),
        i > 0 ==> create_table_text(if_not_exists, table).subrange(
            column_start(if_not_exists, table, i) - ", "@.len(),
            column_start(if_not_exists, table, i),
        ) == ", "@,
        i + 1 == table.columns.len() ==> create_table_text(if_not_exists, table)
            == create_table_text(if_not_exists, table).subrange(
            0,
            column_start(if_not_exists, table, i) + column_text(table.columns[i]).len(),
        ) + ");"@,
{
    let head = create_table_head(if_not_exists, table);
    let texts = table.columns.map_values(|c: ColumnView| column_text(c));
    let body = join(texts, ", "@);
    let sql = create_table_text(if_not_exists, table);
    let offset = join_offset(texts, ", "@, i);
    let len = texts[i].len() as int;
    assert(sql =~= head + body + ");"@);
    lemma_join_part(texts, ", "@, i);
    if i > 0 {
        lemma_join_take(texts, ", "@, i - 1);
    }
    if i + 1 == table.columns.len() {
        assert(sql =~= sql.subrange(0, head.len() + offset + len) + ");"@);
    }
}

/// A membership test over no value at all is written as a constant condition
/// and binds nothing: `IN` as one that never holds, `NOT IN` as one that
/// always holds.
pub proof fn lemma_degenerate_membership(column: Seq<char>)
    ensures
        where_text(WhereView::In(column, Seq::empty())) == "1 = 0"@,
        where_params(WhereView::In(column, Seq::empty())) == Seq::<ValueView>::empty(),
        where_text(WhereView::NotIn(column, Seq::empty())) == "1 = 1"@,
        where_params(WhereView::NotIn(column, Seq::empty())) == Seq::<ValueView>::empty(),
{
}

/// A conjunction of no clause is written as a condition that always holds, a
/// disjunction of no clause as one that never holds; both bind nothing.
pub proof fn lemma_degenerate_groups()
    ensures
        where_text(WhereView::And(Seq::empty())) == "1 = 1"@,
        where_params(WhereView::And(Seq::empty())) == Seq::<ValueView>::empty(),
        where_text(WhereView::Or(Seq::empty())) == "1 = 0"@,
        where_params(WhereView::Or(Seq::empty())) == Seq::<ValueView>::empty(),
{
    assert(group_params(Seq::<WhereView>::empty()) =~= Seq::<Seq<ValueView>>::empty());
}

/// The positions of the columns that an insert writes: those that are no
/// primary key, ascending.
pub open spec fn written_positions(columns: Seq<ColumnView>) -> Seq<int>
    decreases columns.len(),
{
    if columns.len() == 0 {
        Seq::empty()
    } else if columns.last().is_primary_key() {
        written_positions(columns.drop_last())
    } else {
        written_positions(columns.drop_last()).push(columns.len() - 1)
    }
}

/// The written positions are those of the columns that are no primary key,
/// each once and in ascending order.
pub proof fn lemma_written_positions(columns: Seq<ColumnView>)
    ensures
        forall|k: int|
            0 <= k < written_positions(columns).len() ==> 0 <= (#[trigger] written_positions(
                columns,
            )[k]) < columns.len() && !columns[written_positions(columns)[k]].is_primary_key(),
        forall|j: int, k: int|
            0 <= j < k < written_positions(columns).len() ==> written_positions(columns)[j]
                < written_positions(columns)[k],
        forall|i: int|
            0 <= i < columns.len() && !(#[trigger] columns[i]).is_primary_key()
                ==> written_positions(columns).contains(i),
    decreases columns.len(),
{
    if columns.len() > 0 {
        let rest = columns.drop_last();
        lemma_written_positions(rest);
        let before = written_positions(rest);
        let all = written_positions(columns);
        assert forall|i: int|
            0 <= i < columns.len() && !(#[trigger] columns[i]).is_primary_key() implies all.contains(
            i,
        ) by {
            if i < rest.len() {
                assert(!rest[i].is_primary_key());
                let k = choose|k: int| 0 <= k < before.len() && before[k] == i;
                assert(all[k] == i);
            } else {
                assert(all[all.len() - 1] == i);
            }
        }
    }
}

/// An insert lists the names of the written columns and no other, and writes
/// and binds for each row what the slots at the written positions give, in
/// their order. So a primary-key column is neither listed nor written.
pub proof fn lemma_insert_follows_positions(
    columns: Seq<ColumnView>,
    row: Seq<Option<ValueView>>,
)
    ensures
        insert_columns(columns) == written_positions(columns).map_values(
            |i: int| columns[i].name,
        ),
        row_texts(columns, row) == written_positions(columns).map_values(
            |i: int| slot_text(columns[i], row[i]),
        ),
        row_params(columns, row) == concat_all(
            written_positions(columns).map_values(|i: int| slot_params(row[i])),
        ),
    decreases columns.len(),
{
    if columns.len() > 0 {
        let rest = columns.drop_last();
        lemma_insert_follows_positions(rest, row);
        lemma_written_positions(rest);
        if !columns.last().is_primary_key() {
            let last = columns.len() - 1;
            let bound = written_positions(columns).map_values(|i: int| slot_params(row[i]));
            let bound_before = written_positions(rest).map_values(|i: int| slot_params(row[i]));
            assert(bound =~= bound_before.push(slot_params(row[last])));
            lemma_concat_all_push(bound_before, slot_params(row[last]));
        }
    }
}

/// For an empty slot an insert binds nothing: it writes the column's default
/// as a literal where the column declares one, and `NULL` where it declares
/// none. For a given value it writes a placeholder and binds the value.
pub proof fn lemma_slot_policy(column: ColumnView, slot: Option<ValueView>)
    ensures
        slot is None ==> slot_params(slot) == Seq::<ValueView>::empty(),
        slot is None && column.has_default() ==> column.get_default() is Some && slot_text(
            column,
            slot,
        ) == value_text(column.get_default()->Some_0),
        slot is None && !column.has_default() ==> slot_text(column, slot) == "NULL"@,
        slot matches Some(value) ==> slot_text(column, slot) == "?"@ && slot_params(slot)
            == seq![value],
{
    lemma_first_default(column.properties);
}

} // verus!
