use ezql_core::backends;
use ezql_core::backends::rows::boolean_at;
use ezql_core::backends::rows::decode_value;
use ezql_core::backends::rows::integer_at;
use ezql_core::backends::rows::realign_rows;
use ezql_core::backends::rows::text_at;
use ezql_core::backends::rows::EngineValue;
use ezql_core::dialects::Dialect;
use ezql_core::dialects::SqliteDialect;
use ezql_core::prelude::Column;
use ezql_core::prelude::ColumnProperty;
use ezql_core::prelude::EzqlModelTrait;
use ezql_core::prelude::EzqlType;
use ezql_core::prelude::EzqlValue;
use ezql_core::prelude::Table;
use ezql_core::queries::OrderBy;
use ezql_core::queries::Query;
use ezql_core::queries::SelectQueryParams;
use ezql_core::queries::UpdateQueryParams;
use ezql_core::queries::WhereClause;
use ezql_core::Backend;
use ezql_core::EzqlError;

struct SqliteBackend {
    connection: rusqlite::Connection,
}

fn bound(params: &[EzqlValue]) -> Vec<rusqlite::types::Value> {
    params
        .iter()
        .map(|value| match value {
            EzqlValue::Integer(i) => rusqlite::types::Value::Integer(i64::from(*i)),
            EzqlValue::VarChar(s) => rusqlite::types::Value::Text(s.clone()),
            EzqlValue::Boolean(b) => rusqlite::types::Value::Integer(i64::from(*b)),
        })
        .collect()
}

fn failed(error: rusqlite::Error) -> EzqlError {
    EzqlError::ExecError(error.to_string())
}

fn scalar(value: rusqlite::types::ValueRef<'_>) -> EngineValue {
    match value {
        rusqlite::types::ValueRef::Null => EngineValue::Null,
        rusqlite::types::ValueRef::Integer(i) => EngineValue::Integer(i),
        rusqlite::types::ValueRef::Text(text) => {
            EngineValue::Text(String::from_utf8(text.to_vec()).unwrap())
        }
        _ => EngineValue::Other,
    }
}

impl SqliteBackend {
    fn new_in_memory() -> Self {
        Self {
            connection: rusqlite::Connection::open_in_memory().unwrap(),
        }
    }

    fn execute(&self, query: Query) -> Result<(), EzqlError> {
        self.connection
            .execute(&query.sql, rusqlite::params_from_iter(bound(&query.params)))
            .map_err(failed)?;
        Ok(())
    }

    fn query(&self, query: Query) -> Result<Vec<Vec<Option<EzqlValue>>>, EzqlError> {
        let mut statement = self.connection.prepare(&query.sql).map_err(failed)?;
        let width = statement.column_count();
        let mut rows = statement
            .query(rusqlite::params_from_iter(bound(&query.params)))
            .map_err(failed)?;
        let mut fetched = Vec::new();
        while let Some(row) = rows.next().map_err(failed)? {
            let mut values = Vec::new();
            for index in 0..width {
                values.push(decode_value(scalar(row.get_ref(index).map_err(failed)?))?);
            }
            fetched.push(values);
        }
        Ok(fetched)
    }
}

impl Backend<SqliteDialect> for SqliteBackend {
    fn close(self) -> Result<(), EzqlError> {
        if self.connection.close().is_err() {
            return Err(EzqlError::ExecError(
                "Failed to close connection".to_string(),
            ));
        }
        Ok(())
    }

    fn create_table(&self, if_not_exists: bool, table: Table) -> Result<(), EzqlError> {
        self.execute(SqliteDialect::create_table(if_not_exists, table)?)
    }

    fn drop_table(&self, if_exists: bool, table: Table) -> Result<(), EzqlError> {
        self.execute(SqliteDialect::drop_table(if_exists, table)?)
    }

    fn insert(&self, table: &Table, models: Vec<Vec<Option<EzqlValue>>>) -> Result<(), EzqlError> {
        self.execute(SqliteDialect::insert(table, models)?)
    }

    fn select(
        &self,
        table: &Table,
        query: SelectQueryParams,
    ) -> Result<Vec<Vec<Option<EzqlValue>>>, EzqlError> {
        let columns = query.columns.clone();
        let fetched = self.query(SqliteDialect::select(table, query)?)?;
        realign_rows(table, &columns, &fetched)
    }

    fn delete(&self, table: &Table, query: SelectQueryParams) -> Result<(), EzqlError> {
        self.execute(SqliteDialect::delete(table, query)?)
    }

    fn update(&self, table: &Table, query: UpdateQueryParams) -> Result<(), EzqlError> {
        self.execute(SqliteDialect::update(table, query)?)
    }
}

#[derive(Debug, PartialEq)]
struct User {
    id: Option<i32>,
    name: Option<String>,
    is_active: Option<bool>,
}

impl EzqlModelTrait for User {
    fn get_table() -> Table {
        Table {
            name: "users".to_string(),
            columns: vec![
                Column {
                    name: "id".to_string(),
                    data_type: EzqlType::Integer(),
                    properties: vec![ColumnProperty::PrimaryKey],
                },
                Column {
                    name: "name".to_string(),
                    data_type: EzqlType::VarChar(255),
                    properties: vec![ColumnProperty::NotNull],
                },
                Column {
                    name: "is_active".to_string(),
                    data_type: EzqlType::Boolean(),
                    properties: vec![ColumnProperty::default(false)],
                },
            ],
        }
    }

    fn as_column_values(&self) -> Vec<Option<EzqlValue>> {
        vec![
            self.id.map(EzqlValue::Integer),
            self.name.as_ref().map(|v| EzqlValue::VarChar(v.clone())),
            self.is_active.map(EzqlValue::Boolean),
        ]
    }

    fn from_column_values(values: Vec<Option<EzqlValue>>) -> Result<Self, EzqlError> {
        Ok(Self {
            id: integer_at(&values, 0)?,
            name: text_at(&values, 1)?,
            is_active: boolean_at(&values, 2)?,
        })
    }
}

fn john() -> User {
    User {
        id: None,
        name: Some("John".to_string()),
        is_active: Some(true),
    }
}

fn named(name: &str) -> Option<WhereClause> {
    Some(WhereClause::Eq("name".to_string(), name.into()))
}

fn only_names(where_clause: Option<WhereClause>) -> SelectQueryParams {
    SelectQueryParams {
        columns: Some(vec!["name".to_string()]),
        where_clause,
        order_by: None,
        limit: None,
        offset: None,
    }
}

#[test]
fn test_create_dev_sqlite_backend() {
    let backend = SqliteBackend::new_in_memory();
    backends::ModelBackend::create_table::<User>(&backend, true).unwrap();
}

#[test]
fn test_drop_sqlite_backend() {
    let backend = SqliteBackend::new_in_memory();
    backends::ModelBackend::create_table::<User>(&backend, true).unwrap();
    backends::ModelBackend::drop_table::<User>(&backend, true).unwrap();

    // Insert should fail because table does not exist
    let user = User {
        id: None,
        name: Some("John".to_string()),
        is_active: Some(true),
    };

    assert!(backends::ModelBackend::insert::<User>(&backend, &[&user]).is_err());
}

#[test]
fn test_insert_sqlite_backend() {
    let backend = SqliteBackend::new_in_memory();
    let user = User {
        id: None,
        name: Some("John".to_string()),
        is_active: Some(true),
    };
    backends::ModelBackend::create_table::<User>(&backend, true).unwrap();
    backends::ModelBackend::insert::<User>(&backend, &[&user]).unwrap();
}

#[test]
fn test_select_sqlite_backend() {
    let backend = SqliteBackend::new_in_memory();
    let user = User {
        id: None,
        name: Some("John".to_string()),
        is_active: Some(true),
    };
    backends::ModelBackend::create_table::<User>(&backend, true).unwrap();
    backends::ModelBackend::insert::<User>(&backend, &[&user]).unwrap();
    let users = backends::ModelBackend::select::<User>(
        &backend,
        SelectQueryParams {
            columns: Some(vec!["name".to_string()]),
            where_clause: None,
            order_by: None,
            limit: None,
            offset: None,
        },
    )
    .unwrap();
    assert_eq!(users.len(), 1);
    assert_eq!(users[0].name, Some("John".to_string()));
}

#[test]
fn test_failed_statement_is_exec_error() {
    let backend = SqliteBackend::new_in_memory();
    let result = backends::ModelBackend::insert::<User>(&backend, &[&john()]);
    assert!(matches!(result, Err(EzqlError::ExecError(_))));
}

#[test]
fn test_select_of_one_column_fills_the_other_slots_with_none() {
    let backend = SqliteBackend::new_in_memory();
    let table = User::get_table();
    Backend::create_table(&backend, true, User::get_table()).unwrap();
    Backend::insert(&backend, &table, vec![john().as_column_values()]).unwrap();
    let rows = Backend::select(&backend, &table, only_names(None)).unwrap();
    assert_eq!(
        rows,
        vec![vec![None, Some(EzqlValue::VarChar("John".to_string())), None]]
    );
}

#[test]
fn test_select_of_all_columns_returns_stored_values() {
    let backend = SqliteBackend::new_in_memory();
    backends::ModelBackend::create_table::<User>(&backend, true).unwrap();
    let jack = User {
        id: None,
        name: Some("Jack".to_string()),
        is_active: None,
    };
    backends::ModelBackend::insert::<User>(&backend, &[&john(), &jack]).unwrap();
    let users = backends::ModelBackend::select::<User>(
        &backend,
        SelectQueryParams {
            columns: None,
            where_clause: None,
            order_by: Some(OrderBy::Asc("id".to_string())),
            limit: None,
            offset: None,
        },
    )
    .unwrap();
    assert_eq!(
        users,
        vec![
            User {
                id: Some(1),
                name: Some("John".to_string()),
                is_active: Some(true),
            },
            User {
                id: Some(2),
                name: Some("Jack".to_string()),
                is_active: Some(false),
            },
        ]
    );
}

#[test]
fn test_insert_select_delete_select() {
    let backend = SqliteBackend::new_in_memory();
    backends::ModelBackend::create_table::<User>(&backend, true).unwrap();
    backends::ModelBackend::insert::<User>(&backend, &[&john()]).unwrap();

    let found =
        backends::ModelBackend::select::<User>(&backend, only_names(named("John"))).unwrap();
    assert_eq!(found.len(), 1);
    assert_eq!(found[0].name, Some("John".to_string()));
    assert_eq!(found[0].id, None);
    assert_eq!(found[0].is_active, None);

    backends::ModelBackend::delete::<User>(&backend, only_names(named("John"))).unwrap();

    let left =
        backends::ModelBackend::select::<User>(&backend, only_names(named("John"))).unwrap();
    assert_eq!(left.len(), 0);
}

#[test]
fn test_update_changes_the_admitted_rows_only() {
    let backend = SqliteBackend::new_in_memory();
    backends::ModelBackend::create_table::<User>(&backend, true).unwrap();
    let jane = User {
        id: None,
        name: Some("Jane".to_string()),
        is_active: Some(true),
    };
    backends::ModelBackend::insert::<User>(&backend, &[&john(), &jane]).unwrap();
    backends::ModelBackend::update::<User>(
        &backend,
        UpdateQueryParams {
            assignments: vec![("is_active".to_string(), false.into())],
            where_clause: named("Jane"),
        },
    )
    .unwrap();
    let active = backends::ModelBackend::select::<User>(
        &backend,
        SelectQueryParams {
            columns: None,
            where_clause: Some(WhereClause::Eq("is_active".to_string(), true.into())),
            order_by: None,
            limit: None,
            offset: None,
        },
    )
    .unwrap();
    assert_eq!(active.len(), 1);
    assert_eq!(active[0].name, Some("John".to_string()));
}

#[test]
fn test_filters_run_against_the_engine() {
    let backend = SqliteBackend::new_in_memory();
    backends::ModelBackend::create_table::<User>(&backend, true).unwrap();
    let jane = User {
        id: None,
        name: Some("Jane".to_string()),
        is_active: Some(false),
    };
    backends::ModelBackend::insert::<User>(&backend, &[&john(), &jane]).unwrap();
    let count = |clause: WhereClause| {
        backends::ModelBackend::select::<User>(
            &backend,
            SelectQueryParams {
                columns: None,
                where_clause: Some(clause),
                order_by: None,
                limit: None,
                offset: None,
            },
        )
        .unwrap()
        .len()
    };
    assert_eq!(count(WhereClause::All), 2);
    assert_eq!(count(WhereClause::And(vec![])), 2);
    assert_eq!(count(WhereClause::Or(vec![])), 0);
    assert_eq!(count(WhereClause::In("name".to_string(), vec![])), 0);
    assert_eq!(count(WhereClause::NotIn("name".to_string(), vec![])), 2);
    assert_eq!(
        count(WhereClause::In(
            "name".to_string(),
            vec!["John".into(), "Jane".into(), "Jack".into()]
        )),
        2
    );
    assert_eq!(
        count(WhereClause::NotIn("name".to_string(), vec!["John".into()])),
        1
    );
    assert_eq!(
        count(WhereClause::Not(Box::new(WhereClause::Or(vec![
            WhereClause::Eq("name".to_string(), "John".into()),
            WhereClause::Eq("name".to_string(), "Jack".into()),
        ])))),
        1
    );
    assert_eq!(
        count(WhereClause::And(vec![
            WhereClause::Like("name".to_string(), "J%".into()),
            WhereClause::Gt("id".to_string(), 1.into()),
            WhereClause::IsNotNull("name".to_string()),
        ])),
        1
    );
}

#[test]
fn test_close_succeeds() {
    let backend = SqliteBackend::new_in_memory();
    assert_eq!(Backend::close(backend), Ok(()));
}
