use ezql_core::dialects::Dialect;
use ezql_core::dialects::SqliteDialect;
use ezql_core::prelude::Column;
use ezql_core::prelude::ColumnProperty;
use ezql_core::prelude::EzqlType;
use ezql_core::prelude::EzqlValue;
use ezql_core::prelude::Table;
use ezql_core::queries::OrderBy;
use ezql_core::queries::Query;
use ezql_core::queries::SelectQueryParams;
use ezql_core::queries::UpdateQueryParams;
use ezql_core::queries::WhereClause;
use ezql_core::EzqlError;

fn users() -> Table {
    Table {
        name: "users".to_string(),
        columns: vec![
            Column {
                name: "id".to_string(),
                data_type: EzqlType::Integer(),
                properties: vec![ColumnProperty::PrimaryKey],
            },
            Column {
                name: "name".to_string(),
                data_type: EzqlType::VarChar(255),
                properties: vec![ColumnProperty::NotNull],
            },
            Column {
                name: "is_active".to_string(),
                data_type: EzqlType::Boolean(),
                properties: vec![ColumnProperty::default(false)],
            },
        ],
    }
}

fn text(value: &str) -> EzqlValue {
    EzqlValue::VarChar(value.to_string())
}

fn compiled(clause: WhereClause) -> Query {
    SqliteDialect::translate_where_clause(clause).unwrap()
}

fn marks(sql: &str) -> usize {
    sql.chars().filter(|c| *c == '?').count()
}

fn written_out(query: &Query) -> String {
    let mut values = query.params.iter();
    let mut text = String::new();
    for c in query.sql.chars() {
        if c == '?' {
            let value = values.next().unwrap().clone();
            text.push_str(&SqliteDialect::translate_value(value).unwrap());
        } else {
            text.push(c);
        }
    }
    text
}

fn all_rows() -> SelectQueryParams {
    SelectQueryParams {
        columns: None,
        where_clause: None,
        order_by: None,
        limit: None,
        offset: None,
    }
}

#[test]
fn test_translate_type() {
    assert_eq!(
        SqliteDialect::translate_type(EzqlType::Integer()),
        Ok("INTEGER".to_string())
    );
    assert_eq!(
        SqliteDialect::translate_type(EzqlType::VarChar(255)),
        Ok("VARCHAR(255)".to_string())
    );
    assert_eq!(
        SqliteDialect::translate_type(EzqlType::VarChar(0)),
        Ok("VARCHAR(0)".to_string())
    );
    assert_eq!(
        SqliteDialect::translate_type(EzqlType::VarChar(1000)),
        Ok("VARCHAR(1000)".to_string())
    );
    assert_eq!(
        SqliteDialect::translate_type(EzqlType::Boolean()),
        Ok("BOOLEAN".to_string())
    );
}

#[test]
fn test_translate_value() {
    assert_eq!(
        SqliteDialect::translate_value(EzqlValue::Integer(0)),
        Ok("0".to_string())
    );
    assert_eq!(
        SqliteDialect::translate_value(EzqlValue::Integer(7)),
        Ok("7".to_string())
    );
    assert_eq!(
        SqliteDialect::translate_value(EzqlValue::Integer(-42)),
        Ok("-42".to_string())
    );
    assert_eq!(
        SqliteDialect::translate_value(EzqlValue::Integer(i32::MAX)),
        Ok("2147483647".to_string())
    );
    assert_eq!(
        SqliteDialect::translate_value(EzqlValue::Integer(i32::MIN)),
        Ok("-2147483648".to_string())
    );
    assert_eq!(
        SqliteDialect::translate_value(text("abc")),
        Ok("'abc'".to_string())
    );
    assert_eq!(SqliteDialect::translate_value(text("")), Ok("''".to_string()));
    assert_eq!(
        SqliteDialect::translate_value(EzqlValue::Boolean(true)),
        Ok("TRUE".to_string())
    );
    assert_eq!(
        SqliteDialect::translate_value(EzqlValue::Boolean(false)),
        Ok("FALSE".to_string())
    );
}

#[test]
fn test_translate_property() {
    assert_eq!(
        SqliteDialect::translate_property(ColumnProperty::PrimaryKey),
        Ok("PRIMARY KEY".to_string())
    );
    assert_eq!(
        SqliteDialect::translate_property(ColumnProperty::NotNull),
        Ok("NOT NULL".to_string())
    );
    assert_eq!(
        SqliteDialect::translate_property(ColumnProperty::Unique),
        Ok("UNIQUE".to_string())
    );
    assert_eq!(
        SqliteDialect::translate_property(ColumnProperty::default(12)),
        Ok("DEFAULT 12".to_string())
    );
    assert_eq!(
        SqliteDialect::translate_property(ColumnProperty::default("none")),
        Ok("DEFAULT 'none'".to_string())
    );
}

#[test]
fn test_translate_order_by() {
    assert_eq!(
        SqliteDialect::translate_order_by(OrderBy::Asc("id".to_string())),
        Ok("id ASC".to_string())
    );
    assert_eq!(
        SqliteDialect::translate_order_by(OrderBy::Desc("name".to_string())),
        Ok("name DESC".to_string())
    );
}

#[test]
fn test_where_comparisons() {
    let cases = vec![
        (WhereClause::Eq("a".to_string(), 1.into()), "a = ?"),
        (WhereClause::Ne("a".to_string(), 1.into()), "a != ?"),
        (WhereClause::Gt("a".to_string(), 1.into()), "a > ?"),
        (WhereClause::Ge("a".to_string(), 1.into()), "a >= ?"),
        (WhereClause::Lt("a".to_string(), 1.into()), "a < ?"),
        (WhereClause::Le("a".to_string(), 1.into()), "a <= ?"),
        (WhereClause::Like("a".to_string(), 1.into()), "a LIKE ?"),
    ];
    for (clause, sql) in cases {
        let query = compiled(clause);
        assert_eq!(query.sql, sql);
        assert_eq!(query.params, vec![EzqlValue::Integer(1)]);
    }
}

#[test]
fn test_where_without_values() {
    let query = compiled(WhereClause::All);
    assert_eq!(query.sql, "1 = 1");
    assert_eq!(query.params, vec![]);
    let query = compiled(WhereClause::IsNull("a".to_string()));
    assert_eq!(query.sql, "a IS NULL");
    assert_eq!(query.params, vec![]);
    let query = compiled(WhereClause::IsNotNull("a".to_string()));
    assert_eq!(query.sql, "a IS NOT NULL");
    assert_eq!(query.params, vec![]);
}

#[test]
fn test_where_membership() {
    let query = compiled(WhereClause::In("id".to_string(), vec![1.into()]));
    assert_eq!(query.sql, "id IN (?)");
    assert_eq!(query.params, vec![EzqlValue::Integer(1)]);
    let query = compiled(WhereClause::In(
        "id".to_string(),
        vec![1.into(), 2.into(), 3.into()],
    ));
    assert_eq!(query.sql, "id IN (?,?,?)");
    assert_eq!(
        query.params,
        vec![
            EzqlValue::Integer(1),
            EzqlValue::Integer(2),
            EzqlValue::Integer(3)
        ]
    );
    let query = compiled(WhereClause::NotIn(
        "name".to_string(),
        vec!["a".into(), "b".into()],
    ));
    assert_eq!(query.sql, "name NOT IN (?,?)");
    assert_eq!(query.params, vec![text("a"), text("b")]);
}

#[test]
fn test_where_membership_over_no_value() {
    let query = compiled(WhereClause::In("id".to_string(), vec![]));
    assert_eq!(query.sql, "1 = 0");
    assert_eq!(query.params, vec![]);
    let query = compiled(WhereClause::NotIn("id".to_string(), vec![]));
    assert_eq!(query.sql, "1 = 1");
    assert_eq!(query.params, vec![]);
}

#[test]
fn test_where_not_keeps_the_values_of_its_child() {
    let query = compiled(WhereClause::Not(Box::new(WhereClause::Eq(
        "a".to_string(),
        5.into(),
    ))));
    assert_eq!(query.sql, "NOT (a = ?)");
    assert_eq!(query.params, vec![EzqlValue::Integer(5)]);
}

#[test]
fn test_where_tree_binds_values_from_left_to_right() {
    let query = compiled(WhereClause::And(vec![
        WhereClause::Eq("a".to_string(), 1.into()),
        WhereClause::Or(vec![
            WhereClause::Gt("b".to_string(), 2.into()),
            WhereClause::IsNull("c".to_string()),
            WhereClause::In("d".to_string(), vec![3.into(), 4.into()]),
        ]),
        WhereClause::Not(Box::new(WhereClause::Like("e".to_string(), "x%".into()))),
    ]));
    assert_eq!(
        query.sql,
        "(a = ?) AND ((b > ?) OR (c IS NULL) OR (d IN (?,?))) AND (NOT (e LIKE ?))"
    );
    assert_eq!(
        query.params,
        vec![
            EzqlValue::Integer(1),
            EzqlValue::Integer(2),
            EzqlValue::Integer(3),
            EzqlValue::Integer(4),
            text("x%"),
        ]
    );
    assert_eq!(marks(&query.sql), query.params.len());
    assert_eq!(
        written_out(&query),
        "(a = 1) AND ((b > 2) OR (c IS NULL) OR (d IN (3,4))) AND (NOT (e LIKE 'x%'))"
    );
}

#[test]
fn test_where_values_stand_where_the_tree_uses_them() {
    let query = compiled(WhereClause::Or(vec![
        WhereClause::NotIn("a".to_string(), vec!["x".into(), 2.into(), true.into()]),
        WhereClause::And(vec![
            WhereClause::Ne("b".to_string(), "why?".into()),
            WhereClause::Le("c".to_string(), (-5).into()),
        ]),
        WhereClause::In("d".to_string(), vec![]),
        WhereClause::Ge("e".to_string(), false.into()),
    ]));
    assert_eq!(
        query.sql,
        "(a NOT IN (?,?,?)) OR ((b != ?) AND (c <= ?)) OR (1 = 0) OR (e >= ?)"
    );
    assert_eq!(marks(&query.sql), query.params.len());
    assert_eq!(
        written_out(&query),
        "(a NOT IN ('x',2,TRUE)) OR ((b != 'why?') AND (c <= -5)) OR (1 = 0) OR (e >= FALSE)"
    );
}

#[test]
fn test_where_groups_of_one_and_of_none() {
    let query = compiled(WhereClause::And(vec![WhereClause::All]));
    assert_eq!(query.sql, "(1 = 1)");
    let query = compiled(WhereClause::And(vec![]));
    assert_eq!(query.sql, "1 = 1");
    assert_eq!(query.params, vec![]);
    let query = compiled(WhereClause::Or(vec![]));
    assert_eq!(query.sql, "1 = 0");
    assert_eq!(query.params, vec![]);
}

#[test]
fn test_create_table() {
    let query = SqliteDialect::create_table(true, users()).unwrap();
    assert_eq!(
        query.sql,
        "CREATE TABLE IF NOT EXISTS users (id INTEGER PRIMARY KEY, name VARCHAR(255) NOT NULL, is_active BOOLEAN DEFAULT FALSE);"
    );
    assert_eq!(query.params, vec![]);
    let query = SqliteDialect::create_table(false, users()).unwrap();
    assert_eq!(
        query.sql,
        "CREATE TABLE users (id INTEGER PRIMARY KEY, name VARCHAR(255) NOT NULL, is_active BOOLEAN DEFAULT FALSE);"
    );
}

#[test]
fn test_create_table_lists_each_column_once_in_order() {
    let sql = SqliteDialect::create_table(true, users()).unwrap().sql;
    let id = sql.find("id INTEGER PRIMARY KEY").unwrap();
    let name = sql.find("name VARCHAR(255) NOT NULL").unwrap();
    let is_active = sql.find("is_active BOOLEAN DEFAULT FALSE").unwrap();
    assert!(id < name && name < is_active);
    assert_eq!(sql.matches("id INTEGER PRIMARY KEY").count(), 1);
    assert_eq!(sql.matches("name VARCHAR(255) NOT NULL").count(), 1);
    assert_eq!(sql.matches("is_active BOOLEAN DEFAULT FALSE").count(), 1);
    assert_eq!(sql.matches(", ").count(), 2);
}

#[test]
fn test_create_table_with_several_or_no_properties() {
    let table = Table {
        name: "t".to_string(),
        columns: vec![
            Column {
                name: "a".to_string(),
                data_type: EzqlType::Integer(),
                properties: vec![],
            },
            Column {
                name: "b".to_string(),
                data_type: EzqlType::VarChar(8),
                properties: vec![
                    ColumnProperty::NotNull,
                    ColumnProperty::Unique,
                    ColumnProperty::default("x"),
                ],
            },
        ],
    };
    let query = SqliteDialect::create_table(false, table).unwrap();
    assert_eq!(
        query.sql,
        "CREATE TABLE t (a INTEGER , b VARCHAR(8) NOT NULL UNIQUE DEFAULT 'x');"
    );
    let empty = Table {
        name: "e".to_string(),
        columns: vec![],
    };
    assert_eq!(
        SqliteDialect::create_table(true, empty).unwrap().sql,
        "CREATE TABLE IF NOT EXISTS e ();"
    );
}

#[test]
fn test_drop_table() {
    let query = SqliteDialect::drop_table(true, users()).unwrap();
    assert_eq!(query.sql, "DROP TABLE IF EXISTS users;");
    assert_eq!(query.params, vec![]);
    let query = SqliteDialect::drop_table(false, users()).unwrap();
    assert_eq!(query.sql, "DROP TABLE users;");
}

#[test]
fn test_insert_one_row() {
    let rows = vec![vec![None, Some(text("John")), Some(EzqlValue::Boolean(true))]];
    let query = SqliteDialect::insert(&users(), rows).unwrap();
    assert_eq!(query.sql, "INSERT INTO users (name, is_active) VALUES (?, ?);");
    assert_eq!(query.params, vec![text("John"), EzqlValue::Boolean(true)]);
}

#[test]
fn test_insert_writes_default_and_null_as_literals() {
    let rows = vec![
        vec![None, Some(text("Jack")), None],
        vec![None, None, Some(EzqlValue::Boolean(true))],
        vec![None, None, None],
    ];
    let query = SqliteDialect::insert(&users(), rows).unwrap();
    assert_eq!(
        query.sql,
        "INSERT INTO users (name, is_active) VALUES (?, FALSE), (NULL, ?), (NULL, FALSE);"
    );
    assert_eq!(query.params, vec![text("Jack"), EzqlValue::Boolean(true)]);
    assert_eq!(marks(&query.sql), query.params.len());
}

#[test]
fn test_insert_leaves_primary_keys_out() {
    let rows = vec![vec![
        Some(EzqlValue::Integer(9)),
        Some(text("John")),
        Some(EzqlValue::Boolean(true)),
    ]];
    let query = SqliteDialect::insert(&users(), rows).unwrap();
    assert_eq!(query.sql, "INSERT INTO users (name, is_active) VALUES (?, ?);");
    assert_eq!(query.params, vec![text("John"), EzqlValue::Boolean(true)]);

    let table = Table {
        name: "t".to_string(),
        columns: vec![
            Column {
                name: "a".to_string(),
                data_type: EzqlType::Integer(),
                properties: vec![ColumnProperty::default(3), ColumnProperty::default(4)],
            },
            Column {
                name: "k".to_string(),
                data_type: EzqlType::Integer(),
                properties: vec![ColumnProperty::NotNull, ColumnProperty::PrimaryKey],
            },
        ],
    };
    let query = SqliteDialect::insert(&table, vec![vec![None, None]]).unwrap();
    assert_eq!(query.sql, "INSERT INTO t (a) VALUES (3);");
    assert_eq!(query.params, vec![]);
}

#[test]
fn test_insert_refuses_no_rows() {
    assert_eq!(
        SqliteDialect::insert(&users(), vec![]),
        Err(EzqlError::MalformedQueryIR)
    );
}

#[test]
fn test_insert_refuses_a_row_of_another_length() {
    let short = vec![
        vec![None, Some(text("John")), None],
        vec![None, Some(text("Jane"))],
    ];
    assert_eq!(
        SqliteDialect::insert(&users(), short),
        Err(EzqlError::MalformedQueryIR)
    );
    let long = vec![vec![None, None, None, None]];
    assert_eq!(
        SqliteDialect::insert(&users(), long),
        Err(EzqlError::MalformedQueryIR)
    );
}

#[test]
fn test_select_all() {
    let query = SqliteDialect::select(&users(), all_rows()).unwrap();
    assert_eq!(query.sql, "SELECT * FROM users;");
    assert_eq!(query.params, vec![]);
}

#[test]
fn test_select_with_every_clause() {
    let params = SelectQueryParams {
        columns: Some(vec!["id".to_string(), "is_active".to_string()]),
        where_clause: Some(WhereClause::Eq("name".to_string(), "John".into())),
        order_by: Some(OrderBy::Desc("id".to_string())),
        limit: Some(4),
        offset: Some(10),
    };
    let query = SqliteDialect::select(&users(), params).unwrap();
    assert_eq!(
        query.sql,
        "SELECT id, is_active FROM users WHERE name = ? ORDER BY id DESC LIMIT 4 OFFSET 10;"
    );
    assert_eq!(query.params, vec![text("John")]);
}

#[test]
fn test_select_with_single_clauses() {
    let mut params = all_rows();
    params.columns = Some(vec!["name".to_string()]);
    assert_eq!(
        SqliteDialect::select(&users(), params).unwrap().sql,
        "SELECT name FROM users;"
    );
    let mut params = all_rows();
    params.order_by = Some(OrderBy::Asc("name".to_string()));
    assert_eq!(
        SqliteDialect::select(&users(), params).unwrap().sql,
        "SELECT * FROM users ORDER BY name ASC;"
    );
    let mut params = all_rows();
    params.limit = Some(0);
    assert_eq!(
        SqliteDialect::select(&users(), params).unwrap().sql,
        "SELECT * FROM users LIMIT 0;"
    );
    let mut params = all_rows();
    params.offset = Some(25);
    assert_eq!(
        SqliteDialect::select(&users(), params).unwrap().sql,
        "SELECT * FROM users OFFSET 25;"
    );
}

#[test]
fn test_delete_ignores_all_but_the_filter() {
    let params = SelectQueryParams {
        columns: Some(vec!["id".to_string()]),
        where_clause: Some(WhereClause::Eq("name".to_string(), "John".into())),
        order_by: Some(OrderBy::Desc("id".to_string())),
        limit: Some(4),
        offset: Some(1),
    };
    let query = SqliteDialect::delete(&users(), params).unwrap();
    assert_eq!(query.sql, "DELETE FROM users WHERE name = ?;");
    assert_eq!(query.params, vec![text("John")]);
    let query = SqliteDialect::delete(&users(), all_rows()).unwrap();
    assert_eq!(query.sql, "DELETE FROM users;");
    assert_eq!(query.params, vec![]);
}

#[test]
fn test_update() {
    let params = UpdateQueryParams {
        assignments: vec![
            ("name".to_string(), "Jane".into()),
            ("is_active".to_string(), false.into()),
        ],
        where_clause: Some(WhereClause::Eq("id".to_string(), 3.into())),
    };
    let query = SqliteDialect::update(&users(), params).unwrap();
    assert_eq!(
        query.sql,
        "UPDATE users SET name = ?, is_active = ? WHERE id = ?;"
    );
    assert_eq!(
        query.params,
        vec![text("Jane"), EzqlValue::Boolean(false), EzqlValue::Integer(3)]
    );
    let params = UpdateQueryParams {
        assignments: vec![("name".to_string(), "Jane".into())],
        where_clause: None,
    };
    let query = SqliteDialect::update(&users(), params).unwrap();
    assert_eq!(query.sql, "UPDATE users SET name = ?;");
    assert_eq!(query.params, vec![text("Jane")]);
}

struct WithoutBooleans;

impl Dialect for WithoutBooleans {
    fn translate_type(t: EzqlType) -> Result<String, EzqlError> {
        match t {
            EzqlType::Boolean() => Err(EzqlError::UnsupportedConstruct),
            other => SqliteDialect::translate_type(other),
        }
    }

    fn translate_value(v: EzqlValue) -> Result<String, EzqlError> {
        match v {
            EzqlValue::Boolean(_) => Err(EzqlError::UnsupportedConstruct),
            other => SqliteDialect::translate_value(other),
        }
    }

    fn translate_property(p: ColumnProperty) -> Result<String, EzqlError> {
        match p {
            ColumnProperty::Default(v) => Ok(format!("DEFAULT {}", Self::translate_value(v)?)),
            other => SqliteDialect::translate_property(other),
        }
    }

    fn translate_order_by(order_by: OrderBy) -> Result<String, EzqlError> {
        SqliteDialect::translate_order_by(order_by)
    }

    fn translate_where_clause(where_clause: WhereClause) -> Result<Query, EzqlError> {
        SqliteDialect::translate_where_clause(where_clause)
    }

    fn create_table(if_not_exists: bool, table: Table) -> Result<Query, EzqlError> {
        for column in &table.columns {
            Self::translate_type(column.data_type.clone())?;
            for property in &column.properties {
                Self::translate_property(property.clone())?;
            }
        }
        SqliteDialect::create_table(if_not_exists, table)
    }

    fn drop_table(if_exists: bool, table: Table) -> Result<Query, EzqlError> {
        SqliteDialect::drop_table(if_exists, table)
    }

    fn insert(table: &Table, models: Vec<Vec<Option<EzqlValue>>>) -> Result<Query, EzqlError> {
        SqliteDialect::insert(table, models)
    }

    fn select(table: &Table, query_params: SelectQueryParams) -> Result<Query, EzqlError> {
        SqliteDialect::select(table, query_params)
    }

    fn delete(table: &Table, query_params: SelectQueryParams) -> Result<Query, EzqlError> {
        SqliteDialect::delete(table, query_params)
    }

    fn update(table: &Table, query_params: UpdateQueryParams) -> Result<Query, EzqlError> {
        SqliteDialect::update(table, query_params)
    }
}

#[test]
fn test_a_dialect_may_refuse_what_it_does_not_cover() {
    assert_eq!(
        WithoutBooleans::translate_type(EzqlType::Boolean()),
        Err(EzqlError::UnsupportedConstruct)
    );
    assert_eq!(
        WithoutBooleans::translate_type(EzqlType::Integer()),
        Ok("INTEGER".to_string())
    );
    assert_eq!(
        WithoutBooleans::translate_property(ColumnProperty::default(true)),
        Err(EzqlError::UnsupportedConstruct)
    );
    assert_eq!(
        WithoutBooleans::create_table(true, users()),
        Err(EzqlError::UnsupportedConstruct)
    );
    assert!(WithoutBooleans::drop_table(true, users()).is_ok());
}

#[test]
fn test_statement_values_stand_where_they_are_used() {
    let rows = vec![
        vec![None, Some(text("Jack")), None],
        vec![None, None, Some(EzqlValue::Boolean(true))],
        vec![Some(EzqlValue::Integer(7)), Some(text("Jill")), Some(EzqlValue::Boolean(false))],
    ];
    let query = SqliteDialect::insert(&users(), rows).unwrap();
    assert_eq!(marks(&query.sql), query.params.len());
    assert_eq!(
        written_out(&query),
        "INSERT INTO users (name, is_active) VALUES ('Jack', FALSE), (NULL, TRUE), ('Jill', FALSE);"
    );

    let params = UpdateQueryParams {
        assignments: vec![
            ("name".to_string(), "Jane".into()),
            ("is_active".to_string(), false.into()),
        ],
        where_clause: Some(WhereClause::In("id".to_string(), vec![3.into(), 4.into()])),
    };
    let query = SqliteDialect::update(&users(), params).unwrap();
    assert_eq!(marks(&query.sql), query.params.len());
    assert_eq!(
        written_out(&query),
        "UPDATE users SET name = 'Jane', is_active = FALSE WHERE id IN (3,4);"
    );

    let params = SelectQueryParams {
        columns: Some(vec!["id".to_string()]),
        where_clause: Some(WhereClause::Lt("id".to_string(), 9.into())),
        order_by: Some(OrderBy::Asc("id".to_string())),
        limit: Some(2),
        offset: Some(1),
    };
    let query = SqliteDialect::select(&users(), params.clone()).unwrap();
    assert_eq!(marks(&query.sql), query.params.len());
    assert_eq!(
        written_out(&query),
        "SELECT id FROM users WHERE id < 9 ORDER BY id ASC LIMIT 2 OFFSET 1;"
    );
    let query = SqliteDialect::delete(&users(), params).unwrap();
    assert_eq!(marks(&query.sql), query.params.len());
    assert_eq!(written_out(&query), "DELETE FROM users WHERE id < 9;");
}

#[test]
fn test_text_literal_is_quoted_as_it_is() {
    assert_eq!(
        SqliteDialect::translate_value(text("it's")),
        Ok("'it's'".to_string())
    );
    assert_eq!(
        SqliteDialect::translate_value(text("a?b")),
        Ok("'a?b'".to_string())
    );
}
