//! Tables, and how a table is shown.

use crate::types::ezql_types::type_label;
use crate::utils::concat_all;
use crate::utils::lemma_concat_all_push;
use super::column::Column;
use super::column::ColumnView;
use vstd::prelude::*;
use vstd::utf8::encode_utf8;

verus! {

/// A table: its name and its columns. The order of the columns fixes the
/// position of each value in a row.
#[derive(Debug, PartialEq, Eq)]
pub struct Table {
    pub name: String,
    pub columns: Vec<Column>,
}

/// The mathematical content of a [`Table`].
pub ghost struct TableView {
    pub name: Seq<char>,
    pub columns: Seq<ColumnView>,
}

impl View for Table {
    type V = TableView;

    open spec fn view(&self) -> TableView {
        TableView { name: self.name@, columns: self.columns@.map_values(|c: Column| c@) }
    }
}

impl Clone for Table {
    fn clone(&self) -> (res: Self)
        ensures
            res@ == self@,
    {
        let mut columns: Vec<Column> = Vec::new();
        let mut i: usize = 0;
        while i < self.columns.len()
            invariant
                i <= self.columns.len(),
                columns.len() == i,
                forall|k: int| 0 <= k < i ==> columns[k]@ == self.columns[k]@,
            decreases self.columns.len() - i,
        {
            columns.push(self.columns[i].clone());
            i += 1;
        }
        let res = Table { name: self.name.clone(), columns };
        assert(res@.columns =~= self@.columns);
        res
    }
}

/// `text`, followed by as many spaces as it has characters fewer than `width`.
pub open spec fn padded(text: Seq<char>, width: nat) -> Seq<char> {
    if text.len() >= width {
        text
    } else {
        text + Seq::new((width - text.len()) as nat, |i: int| ' ')
    }
}

/// The width of the cells in which a table is shown: the greatest number of
/// bytes that the name of a column or the name of its type takes.
pub open spec fn cell_width(columns: Seq<ColumnView>) -> nat
    decreases columns.len(),
{
    if columns.len() == 0 {
        0
    } else {
        let rest = cell_width(columns.drop_last());
        let name = encode_utf8(columns.last().name).len();
        let kind = encode_utf8(type_label(columns.last().data_type)).len();
        if name >= rest && name >= kind {
            name
        } else if kind >= rest {
            kind
        } else {
            rest
        }
    }
}

/// The cells of the line that shows the names of the columns.
pub open spec fn name_cells(columns: Seq<ColumnView>, width: nat) -> Seq<Seq<char>> {
    columns.map_values(|c: ColumnView| "| "@ + padded(c.name, width) + " "@)
}

/// The cells of the line that shows the types of the columns.
pub open spec fn type_cells(columns: Seq<ColumnView>, width: nat) -> Seq<Seq<char>> {
    columns.map_values(|c: ColumnView| "| "@ + padded(type_label(c.data_type), width) + " "@)
}

/// A table as it is shown: a line with its name, a line with the names of its
/// columns and a line with their types, all cells of one width.
pub open spec fn table_text(table: TableView) -> Seq<char> {
    "TABLE: "@ + table.name + "\n"@ + concat_all(
        name_cells(table.columns, cell_width(table.columns)),
    ) + "|\n"@ + concat_all(type_cells(table.columns, cell_width(table.columns))) + "|\n"@
}

fn push_padded(out: &mut String, text: &str, width: usize)
    ensures
        final(out)@ == old(out)@ + padded(text@, width as nat),
{
    out.append(text);
    let len = text.unicode_len();
    if len < width {
        let missing = width - len;
        let ghost filler = Seq::new(missing as nat, |i: int| ' ');
        let mut i: usize = 0;
        while i < missing
            invariant
                i <= missing,
                filler == Seq::new(missing as nat, |i: int| ' '),
                out@ == old(out)@ + text@ + filler.take(i as int),
            decreases missing - i,
        {
            proof {
                reveal_strlit(" ");
            }
            out.append(" ");
            i += 1;
        }
    }
}

impl Table {
    fn cell_width(&self) -> (width: usize)
        ensures
            width == cell_width(self@.columns),
    {
        let ghost columns = self@.columns;
        let mut width: usize = 0;
        let mut i: usize = 0;
        while i < self.columns.len()
            invariant
                i <= self.columns.len(),
                columns == self@.columns,
                width == cell_width(columns.take(i as int)),
            decreases self.columns.len() - i,
        {
            proof {
                assert(columns.take(i as int + 1).drop_last() =~= columns.take(i as int));
            }
            let column = &self.columns[i];
            let name = column.name.as_str().as_bytes().len();
            let kind = column.data_type.to_string().as_str().as_bytes().len();
            if name >= width && name >= kind {
                width = name;
            } else if kind >= width {
                width = kind;
            }
            i += 1;
        }
        proof {
            assert(columns.take(i as int) =~= columns);
        }
        width
    }

    /// The table as it is shown.
    pub fn to_string(&self) -> (text: String)
        ensures
            text@ == table_text(self@),
    {
        let width = self.cell_width();
        let ghost columns = self@.columns;
        let ghost names = name_cells(columns, width as nat);
        let ghost types = type_cells(columns, width as nat);
        let mut text = String::from_str("TABLE: ");
        text.append(self.name.as_str());
        text.append("\n");
        let ghost head = text@;
        let mut i: usize = 0;
        while i < self.columns.len()
            invariant
                i <= self.columns.len(),
                columns == self@.columns,
                names == name_cells(columns, width as nat),
                text@ == head + concat_all(names.take(i as int)),
            decreases self.columns.len() - i,
        {
            text.append("| ");
            push_padded(&mut text, self.columns[i].name.as_str(), width);
            text.append(" ");
            proof {
                assert(names.take(i as int + 1) =~= names.take(i as int).push(names[i as int]));
                lemma_concat_all_push(names.take(i as int), names[i as int]);
            }
            i += 1;
        }
        text.append("|\n");
        let ghost middle = text@;
        let mut k: usize = 0;
        proof {
            assert(names.take(i as int) =~= names);
        }
        while k < self.columns.len()
            invariant
                k <= self.columns.len(),
                columns == self@.columns,
                types == type_cells(columns, width as nat),
                text@ == middle + concat_all(types.take(k as int)),
            decreases self.columns.len() - k,
        {
            text.append("| ");
            let kind = self.columns[k].data_type.to_string();
            push_padded(&mut text, kind.as_str(), width);
            text.append(" ");
            proof {
                assert(types.take(k as int + 1) =~= types.take(k as int).push(types[k as int]));
                lemma_concat_all_push(types.take(k as int), types[k as int]);
            }
            k += 1;
        }
        text.append("|\n");
        proof {
            assert(types.take(k as int) =~= types);
        }
        text
    }
}

} // verus!
