use ezql_core::backends::rows::boolean_at;
use ezql_core::backends::rows::decode_value;
use ezql_core::backends::rows::integer_at;
use ezql_core::backends::rows::models_to_rows;
use ezql_core::backends::rows::realign_row;
use ezql_core::backends::rows::realign_rows;
use ezql_core::backends::rows::rows_to_models;
use ezql_core::backends::rows::text_at;
use ezql_core::backends::rows::EngineValue;
use ezql_core::prelude::Column;
use ezql_core::prelude::EzqlModelTrait;
use ezql_core::prelude::EzqlType;
use ezql_core::prelude::EzqlValue;
use ezql_core::prelude::Table;
use ezql_core::EzqlError;

fn table() -> Table {
    let column = |name: &str, data_type: EzqlType| Column {
        name: name.to_string(),
        data_type,
        properties: vec![],
    };
    Table {
        name: "users".to_string(),
        columns: vec![
            column("id", EzqlType::Integer()),
            column("name", EzqlType::VarChar(255)),
            column("is_active", EzqlType::Boolean()),
        ],
    }
}

fn text(value: &str) -> Option<EzqlValue> {
    Some(EzqlValue::VarChar(value.to_string()))
}

fn names(list: &[&str]) -> Option<Vec<String>> {
    Some(list.iter().map(|name| name.to_string()).collect())
}

#[derive(Debug, PartialEq)]
struct Pair {
    id: Option<i32>,
    name: Option<String>,
}

impl EzqlModelTrait for Pair {
    fn get_table() -> Table {
        Table {
            name: "pairs".to_string(),
            columns: vec![
                Column {
                    name: "id".to_string(),
                    data_type: EzqlType::Integer(),
                    properties: vec![],
                },
                Column {
                    name: "name".to_string(),
                    data_type: EzqlType::VarChar(255),
                    properties: vec![],
                },
            ],
        }
    }

    fn as_column_values(&self) -> Vec<Option<EzqlValue>> {
        vec![
            self.id.map(EzqlValue::Integer),
            self.name.clone().map(EzqlValue::VarChar),
        ]
    }

    fn from_column_values(values: Vec<Option<EzqlValue>>) -> Result<Self, EzqlError> {
        Ok(Self {
            id: integer_at(&values, 0)?,
            name: text_at(&values, 1)?,
        })
    }
}

#[test]
fn test_realign_one_selected_column() {
    let row = realign_row(&table(), &names(&["name"]), &vec![text("John")]);
    assert_eq!(row, Ok(vec![None, text("John"), None]));
}

#[test]
fn test_realign_all_columns() {
    let fetched = vec![Some(EzqlValue::Integer(1)), text("John"), None];
    assert_eq!(realign_row(&table(), &None, &fetched), Ok(fetched.clone()));
}

#[test]
fn test_realign_follows_the_order_of_the_projection() {
    let fetched = vec![Some(EzqlValue::Integer(1)), Some(EzqlValue::Integer(7))];
    let row = realign_row(&table(), &names(&["is_active", "id"]), &fetched);
    assert_eq!(
        row,
        Ok(vec![
            Some(EzqlValue::Integer(7)),
            None,
            Some(EzqlValue::Integer(1))
        ])
    );
}

#[test]
fn test_realign_with_unknown_and_repeated_names() {
    let fetched = vec![text("nick"), text("John"), text("again")];
    let row = realign_row(&table(), &names(&["nickname", "name", "name"]), &fetched);
    assert_eq!(row, Ok(vec![None, text("John"), None]));
    let row = realign_row(&table(), &names(&[]), &fetched);
    assert_eq!(row, Ok(vec![None, None, None]));
}

#[test]
fn test_realign_does_not_read_spare_values() {
    let fetched = vec![
        Some(EzqlValue::Integer(1)),
        text("John"),
        None,
        text("spare"),
    ];
    let row = realign_row(&table(), &None, &fetched);
    assert_eq!(row, Ok(vec![Some(EzqlValue::Integer(1)), text("John"), None]));
}

#[test]
fn test_realign_refuses_a_short_row() {
    let row = realign_row(&table(), &names(&["id", "name"]), &vec![text("John")]);
    assert_eq!(row, Err(EzqlError::ConversionError));
    let row = realign_row(&table(), &None, &vec![]);
    assert_eq!(row, Err(EzqlError::ConversionError));
    let row = realign_row(&table(), &None, &vec![None, None]);
    assert_eq!(row, Err(EzqlError::ConversionError));
}

#[test]
fn test_realign_rows() {
    let fetched = vec![vec![text("John")], vec![None], vec![text("Jane")]];
    assert_eq!(
        realign_rows(&table(), &names(&["name"]), &fetched),
        Ok(vec![
            vec![None, text("John"), None],
            vec![None, None, None],
            vec![None, text("Jane"), None],
        ])
    );
    assert_eq!(realign_rows(&table(), &None, &vec![]), Ok(vec![]));
    let fetched = vec![vec![text("John")], vec![]];
    assert_eq!(
        realign_rows(&table(), &names(&["name"]), &fetched),
        Err(EzqlError::ConversionError)
    );
}

#[test]
fn test_decode_value() {
    assert_eq!(decode_value(EngineValue::Null), Ok(None));
    assert_eq!(
        decode_value(EngineValue::Integer(42)),
        Ok(Some(EzqlValue::Integer(42)))
    );
    assert_eq!(
        decode_value(EngineValue::Integer(-1)),
        Ok(Some(EzqlValue::Integer(-1)))
    );
    assert_eq!(
        decode_value(EngineValue::Text("John".to_string())),
        Ok(text("John"))
    );
    assert_eq!(
        decode_value(EngineValue::Other),
        Err(EzqlError::ConversionError)
    );
}

#[test]
fn test_decode_value_keeps_the_low_32_bits() {
    assert_eq!(
        decode_value(EngineValue::Integer(4294967296 + 5)),
        Ok(Some(EzqlValue::Integer(5)))
    );
    assert_eq!(
        decode_value(EngineValue::Integer(2147483648)),
        Ok(Some(EzqlValue::Integer(i32::MIN)))
    );
}

#[test]
fn test_models_to_rows() {
    let first = Pair {
        id: Some(1),
        name: Some("a".to_string()),
    };
    let second = Pair {
        id: None,
        name: None,
    };
    assert_eq!(
        models_to_rows(&[&first, &second]),
        vec![
            vec![Some(EzqlValue::Integer(1)), text("a")],
            vec![None, None]
        ]
    );
    let none: [&Pair; 0] = [];
    assert_eq!(models_to_rows(&none), Vec::<Vec<Option<EzqlValue>>>::new());
}

#[test]
fn test_rows_to_models() {
    let rows = vec![
        vec![Some(EzqlValue::Integer(1)), text("a")],
        vec![None, None],
    ];
    assert_eq!(
        rows_to_models::<Pair>(&Pair::get_table(), rows),
        Ok(vec![
            Pair {
                id: Some(1),
                name: Some("a".to_string())
            },
            Pair {
                id: None,
                name: None
            },
        ])
    );
}

#[test]
fn test_rows_to_models_refuses_a_row_of_another_length() {
    let rows = vec![vec![Some(EzqlValue::Integer(1)), text("a")], vec![None]];
    assert_eq!(
        rows_to_models::<Pair>(&Pair::get_table(), rows),
        Err(EzqlError::ConversionError)
    );
    let rows = vec![vec![None, None, None]];
    assert_eq!(
        rows_to_models::<Pair>(&Pair::get_table(), rows),
        Err(EzqlError::ConversionError)
    );
}

#[test]
fn test_rows_to_models_passes_on_a_failed_conversion() {
    let rows = vec![vec![text("one"), text("a")]];
    assert_eq!(
        rows_to_models::<Pair>(&Pair::get_table(), rows),
        Err(EzqlError::ConversionError)
    );
}

#[test]
fn test_fields_of_a_row() {
    let row = vec![
        Some(EzqlValue::Integer(3)),
        text("John"),
        Some(EzqlValue::Boolean(true)),
        None,
    ];
    assert_eq!(integer_at(&row, 0), Ok(Some(3)));
    assert_eq!(text_at(&row, 1), Ok(Some("John".to_string())));
    assert_eq!(boolean_at(&row, 2), Ok(Some(true)));
    assert_eq!(boolean_at(&row, 0), Ok(Some(true)));
    assert_eq!(integer_at(&row, 3), Ok(None));
    assert_eq!(text_at(&row, 3), Ok(None));
    assert_eq!(boolean_at(&row, 3), Ok(None));
}

#[test]
fn test_fields_of_a_row_refuse_missing_slots_and_other_kinds() {
    let row = vec![Some(EzqlValue::Integer(0)), text("John")];
    assert_eq!(integer_at(&row, 2), Err(EzqlError::ConversionError));
    assert_eq!(text_at(&row, 2), Err(EzqlError::ConversionError));
    assert_eq!(boolean_at(&row, 2), Err(EzqlError::ConversionError));
    assert_eq!(integer_at(&row, 1), Err(EzqlError::ConversionError));
    assert_eq!(text_at(&row, 0), Err(EzqlError::ConversionError));
    assert_eq!(boolean_at(&row, 1), Err(EzqlError::ConversionError));
    assert_eq!(boolean_at(&row, 0), Ok(Some(false)));
}
