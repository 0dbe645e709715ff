//! Connections to engines, on rows and on records.

pub mod rows;

use crate::components::model::EzqlModelTrait;
use crate::components::query::SelectQueryParams;
use crate::components::query::UpdateQueryParams;
use crate::components::table::Table;
use crate::dialects::Dialect;
use crate::error::EzqlError;
use crate::types::EzqlValue;
use rows::converted;
use rows::models_to_rows;
use rows::rows_to_models;
use vstd::prelude::*;

verus! {

/// A connection to an engine that speaks the dialect `D`. An implementation
/// compiles each operation with `D` and has the engine run the statement.
pub trait Backend<D> where D: Dialect {
    /// Ends the connection. The backend cannot be used afterwards.
    fn close(self) -> Result<(), EzqlError>;

    /// Creates `table` in the engine.
    fn create_table(&self, if_not_exists: bool, table: Table) -> Result<(), EzqlError>;

    /// Drops `table` from the engine.
    fn drop_table(&self, if_exists: bool, table: Table) -> Result<(), EzqlError>;

    /// Inserts `models`, each a row with one slot for each column of `table`.
    fn insert(&self, table: &Table, models: Vec<Vec<Option<EzqlValue>>>) -> Result<
        (),
        EzqlError,
    >;

    /// The rows that the engine returns, each with one slot for each column of
    /// `table`; the slot of a column that was not selected is empty.
    fn select(&self, table: &Table, query: SelectQueryParams) -> Result<
        Vec<Vec<Option<EzqlValue>>>,
        EzqlError,
    >;

    /// Deletes the rows of `table` that the filter of `query` admits.
    fn delete(&self, table: &Table, query: SelectQueryParams) -> Result<(), EzqlError>;

    /// Updates the rows of `table` that the filter of `query` admits.
    fn update(&self, table: &Table, query: UpdateQueryParams) -> Result<(), EzqlError>;
}

/// The operations of a [`Backend`] on records in place of rows. The table is
/// that of the record type `M`: each operation takes the table from `M`, has
/// records turned into rows or rows into records, and leaves the rest to an
/// operation on rows, whose answer it hands on.
pub trait ModelBackend<D> where D: Dialect {
    /// Whether `done` is an answer of the operation on rows that creates
    /// `table`.
    spec fn creates(&self, if_not_exists: bool, table: Table, done: Result<(), EzqlError>) -> bool;

    /// Whether `done` is an answer of the operation on rows that drops
    /// `table`.
    spec fn drops(&self, if_exists: bool, table: Table, done: Result<(), EzqlError>) -> bool;

    /// Whether `done` is an answer of the operation on rows that inserts
    /// `rows` into `table`.
    spec fn inserts(
        &self,
        table: Table,
        rows: Vec<Vec<Option<EzqlValue>>>,
        done: Result<(), EzqlError>,
    ) -> bool;

    /// Whether `fetched` is an answer of the operation on rows that selects
    /// from `table`.
    spec fn selects(
        &self,
        table: Table,
        query: SelectQueryParams,
        fetched: Result<Vec<Vec<Option<EzqlValue>>>, EzqlError>,
    ) -> bool;

    /// Whether `done` is an answer of the operation on rows that deletes from
    /// `table`.
    spec fn deletes(
        &self,
        table: Table,
        query: SelectQueryParams,
        done: Result<(), EzqlError>,
    ) -> bool;

    /// Whether `done` is an answer of the operation on rows that updates
    /// `table`.
    spec fn updates(
        &self,
        table: Table,
        query: UpdateQueryParams,
        done: Result<(), EzqlError>,
    ) -> bool;

    /// Creates the table of `M`: the answer is that of creating the table
    /// that `M` describes.
    fn create_table<M>(&self, if_not_exists: bool) -> (done: Result<(), EzqlError>) where
        M: EzqlModelTrait,

        ensures
            exists|table: Table|
                call_ensures(M::get_table, (), table) && self.creates(if_not_exists, table, done),
    ;

    /// Drops the table of `M`: the answer is that of dropping the table that
    /// `M` describes.
    fn drop_table<M>(&self, if_exists: bool) -> (done: Result<(), EzqlError>) where
        M: EzqlModelTrait,

        ensures
            exists|table: Table|
                call_ensures(M::get_table, (), table) && self.drops(if_exists, table, done),
    ;

    /// Inserts `models`: the answer is that of inserting, into the table that
    /// `M` describes, the rows that the models give for themselves, in their
    /// order.
    fn insert<M>(&self, models: &[&M]) -> (done: Result<(), EzqlError>) where M: EzqlModelTrait
        ensures
            exists|table: Table, rows: Vec<Vec<Option<EzqlValue>>>|
                call_ensures(M::get_table, (), table) && rows.len() == models.len() && (forall|i: int|
                    0 <= i < rows.len() ==> call_ensures(
                        M::as_column_values,
                        (models[i],),
                        #[trigger] rows[i],
                    )) && self.inserts(table, rows, done),
    ;

    /// The records that the engine returns for `query`: the rows selected
    /// from the table that `M` describes, each turned into a record. A failure
    /// to select is handed on; so is the first failure to turn a row into a
    /// record, which for a row whose length is not the number of the table's
    /// columns is a `ConversionError`.
    fn select<M>(&self, query: SelectQueryParams) -> (found: Result<Vec<M>, EzqlError>) where
        M: EzqlModelTrait,

        ensures
            exists|table: Table, fetched: Result<Vec<Vec<Option<EzqlValue>>>, EzqlError>|
                call_ensures(M::get_table, (), table) && self.selects(table, query, fetched)
                    && selected(table.columns.len() as nat, fetched, found),
    ;

    /// Deletes the records that the filter of `query` admits: the answer is
    /// that of deleting from the table that `M` describes.
    fn delete<M>(&self, query: SelectQueryParams) -> (done: Result<(), EzqlError>) where
        M: EzqlModelTrait,

        ensures
            exists|table: Table|
                call_ensures(M::get_table, (), table) && self.deletes(table, query, done),
    ;

    /// Updates the records that the filter of `query` admits: the answer is
    /// that of updating the table that `M` describes.
    fn update<M>(&self, query: UpdateQueryParams) -> (done: Result<(), EzqlError>) where
        M: EzqlModelTrait,

        ensures
            exists|table: Table|
                call_ensures(M::get_table, (), table) && self.updates(table, query, done),
    ;
}

/// Creates the table of the record type `M` through `backend`, whose answer
/// it hands on.
pub fn create_model_table<D, B, M>(backend: &B, if_not_exists: bool) -> (done: Result<
    (),
    EzqlError,
>) where D: Dialect, B: Backend<D>, M: EzqlModelTrait
    ensures
        exists|table: Table|
            call_ensures(M::get_table, (), table) && call_ensures(
                <B as Backend<D>>::create_table,
                (backend, if_not_exists, table),
                done,
            ),
{
    Backend::create_table(backend, if_not_exists, M::get_table())
}

/// Drops the table of the record type `M` through `backend`, whose answer it
/// hands on.
pub fn drop_model_table<D, B, M>(backend: &B, if_exists: bool) -> (done: Result<
    (),
    EzqlError,
>) where D: Dialect, B: Backend<D>, M: EzqlModelTrait
    ensures
        exists|table: Table|
            call_ensures(M::get_table, (), table) && call_ensures(
                <B as Backend<D>>::drop_table,
                (backend, if_exists, table),
                done,
            ),
{
    Backend::drop_table(backend, if_exists, M::get_table())
}

/// Inserts `models` through `backend`: each as the row that it gives for
/// itself, in their order, into the table of their type. The backend's answer
/// is handed on.
pub fn insert_models<D, B, M>(backend: &B, models: &[&M]) -> (done: Result<(), EzqlError>) where
    D: Dialect,
    B: Backend<D>,
    M: EzqlModelTrait,

    ensures
        exists|table: Table, rows: Vec<Vec<Option<EzqlValue>>>|
            call_ensures(M::get_table, (), table) && rows.len() == models.len() && (forall|i: int|
                0 <= i < rows.len() ==> call_ensures(
                    M::as_column_values,
                    (models[i],),
                    #[trigger] rows[i],
                )) && call_ensures(<B as Backend<D>>::insert, (backend, &table, rows), done),
{
    let table = M::get_table();
    let values = models_to_rows(models);
    Backend::insert(backend, &table, values)
}

/// Whether `found` is the answer to a select that fetched `fetched` from a
/// table of `width` columns: the failure of the backend, or what converting
/// the rows gave.
pub open spec fn selected<M: EzqlModelTrait>(
    width: nat,
    fetched: Result<Vec<Vec<Option<EzqlValue>>>, EzqlError>,
    found: Result<Vec<M>, EzqlError>,
) -> bool {
    match fetched {
        Ok(rows) => converted(width, rows@, found),
        Err(e) => found == Err::<Vec<M>, EzqlError>(e),
    }
}

/// Selects through `backend` from the table of the record type `M` and turns
/// the rows into records. A failure of the backend is handed on; so is the
/// first failure to turn a row into a record.
pub fn select_models<D, B, M>(backend: &B, query: SelectQueryParams) -> (found: Result<
    Vec<M>,
    EzqlError,
>) where D: Dialect, B: Backend<D>, M: EzqlModelTrait
    ensures
        exists|table: Table, fetched: Result<Vec<Vec<Option<EzqlValue>>>, EzqlError>|
            call_ensures(M::get_table, (), table) && call_ensures(
                <B as Backend<D>>::select,
                (backend, &table, query),
                fetched,
            ) && selected(table.columns.len() as nat, fetched, found),
{
    let table = M::get_table();
    let fetched = Backend::select(backend, &table, query);
    let ghost answer = fetched;
    let found = match fetched {
        Ok(rows) => rows_to_models(&table, rows),
        Err(e) => Err(e),
    };
    assert(selected(table.columns.len() as nat, answer, found));
    found
}

/// Deletes through `backend` from the table of the record type `M`. The
/// backend's answer is handed on.
pub fn delete_models<D, B, M>(backend: &B, query: SelectQueryParams) -> (done: Result<
    (),
    EzqlError,
>) where D: Dialect, B: Backend<D>, M: EzqlModelTrait
    ensures
        exists|table: Table|
            call_ensures(M::get_table, (), table) && call_ensures(
                <B as Backend<D>>::delete,
                (backend, &table, query),
                done,
            ),
{
    let table = M::get_table();
    Backend::delete(backend, &table, query)
}

/// Updates through `backend` the table of the record type `M`. The backend's
/// answer is handed on.
pub fn update_models<D, B, M>(backend: &B, query: UpdateQueryParams) -> (done: Result<
    (),
    EzqlError,
>) where D: Dialect, B: Backend<D>, M: EzqlModelTrait
    ensures
        exists|table: Table|
            call_ensures(M::get_table, (), table) && call_ensures(
                <B as Backend<D>>::update,
                (backend, &table, query),
                done,
            ),
{
    let table = M::get_table();
    Backend::update(backend, &table, query)
}

/// Every backend serves records, through the functions above: its
/// operations on rows are those of the [`Backend`].
impl<D, B> ModelBackend<D> for B where D: Dialect, B: Backend<D> {
    open spec fn creates(
        &self,
        if_not_exists: bool,
        table: Table,
        done: Result<(), EzqlError>,
    ) -> bool {
        call_ensures(<B as Backend<D>>::create_table, (self, if_not_exists, table), done)
    }

    open spec fn drops(&self, if_exists: bool, table: Table, done: Result<(), EzqlError>) -> bool {
        call_ensures(<B as Backend<D>>::drop_table, (self, if_exists, table), done)
    }

    open spec fn inserts(
        &self,
        table: Table,
        rows: Vec<Vec<Option<EzqlValue>>>,
        done: Result<(), EzqlError>,
    ) -> bool {
        call_ensures(<B as Backend<D>>::insert, (self, &table, rows), done)
    }

    open spec fn selects(
        &self,
        table: Table,
        query: SelectQueryParams,
        fetched: Result<Vec<Vec<Option<EzqlValue>>>, EzqlError>,
    ) -> bool {
        call_ensures(<B as Backend<D>>::select, (self, &table, query), fetched)
    }

    open spec fn deletes(
        &self,
        table: Table,
        query: SelectQueryParams,
        done: Result<(), EzqlError>,
    ) -> bool {
        call_ensures(<B as Backend<D>>::delete, (self, &table, query), done)
    }

    open spec fn updates(
        &self,
        table: Table,
        query: UpdateQueryParams,
        done: Result<(), EzqlError>,
    ) -> bool {
        call_ensures(<B as Backend<D>>::update, (self, &table, query), done)
    }

    fn create_table<M>(&self, if_not_exists: bool) -> Result<(), EzqlError> where
        M: EzqlModelTrait,
     {
        let done = create_model_table::<D, B, M>(self, if_not_exists);
        proof {
            let table = choose|table: Table|
                call_ensures(M::get_table, (), table) && call_ensures(
                    <B as Backend<D>>::create_table,
                    (self, if_not_exists, table),
                    done,
                );
            assert(self.creates(if_not_exists, table, done));
        }
        done
    }

    fn drop_table<M>(&self, if_exists: bool) -> Result<(), EzqlError> where M: EzqlModelTrait {
        let done = drop_model_table::<D, B, M>(self, if_exists);
        proof {
            let table = choose|table: Table|
                call_ensures(M::get_table, (), table) && call_ensures(
                    <B as Backend<D>>::drop_table,
                    (self, if_exists, table),
                    done,
                );
            assert(self.drops(if_exists, table, done));
        }
        done
    }

    fn insert<M>(&self, models: &[&M]) -> Result<(), EzqlError> where M: EzqlModelTrait {
        let done = insert_models::<D, B, M>(self, models);
        proof {
            let (table, rows) = choose|table: Table, rows: Vec<Vec<Option<EzqlValue>>>|
                call_ensures(M::get_table, (), table) && rows.len() == models.len() && (forall|i: int|
                    0 <= i < rows.len() ==> call_ensures(
                        M::as_column_values,
                        (models[i],),
                        #[trigger] rows[i],
                    )) && call_ensures(<B as Backend<D>>::insert, (self, &table, rows), done);
            assert(self.inserts(table, rows, done));
        }
        done
    }

    fn select<M>(&self, query: SelectQueryParams) -> Result<Vec<M>, EzqlError> where
        M: EzqlModelTrait,
     {
        let found = select_models::<D, B, M>(self, query);
        proof {
            let (table, fetched) = choose|
                table: Table,
                fetched: Result<Vec<Vec<Option<EzqlValue>>>, EzqlError>,
            |
                call_ensures(M::get_table, (), table) && call_ensures(
                    <B as Backend<D>>::select,
                    (self, &table, query),
                    fetched,
                ) && selected(table.columns.len() as nat, fetched, found);
            assert(self.selects(table, query, fetched));
        }
        found
    }

    fn delete<M>(&self, query: SelectQueryParams) -> Result<(), EzqlError> where
        M: EzqlModelTrait,
     {
        let done = delete_models::<D, B, M>(self, query);
        proof {
            let table = choose|table: Table|
                call_ensures(M::get_table, (), table) && call_ensures(
                    <B as Backend<D>>::delete,
                    (self, &table, query),
                    done,
                );
            assert(self.deletes(table, query, done));
        }
        done
    }

    fn update<M>(&self, query: UpdateQueryParams) -> Result<(), EzqlError> where
        M: EzqlModelTrait,
     {
        let done = update_models::<D, B, M>(self, query);
        proof {
            let table = choose|table: Table|
                call_ensures(M::get_table, (), table) && call_ensures(
                    <B as Backend<D>>::update,
                    (self, &table, query),
                    done,
                );
            assert(self.updates(table, query, done));
        }
        done
    }
}

} // verus!
