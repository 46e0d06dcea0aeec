use row_transpose::batch::{Batch, Column, ColumnData};
use row_transpose::block::to_block;
use row_transpose::row::Row;
use row_transpose::schema::{columns_of, resolve_schema, EmptyBatch, Schema};
use row_transpose::transpose::{
    batch_from_rows, collect_data, collect_integers, collect_strings, transpose, TransposeError,
};
use row_transpose::value::{KindMismatch, Ty, Value};

fn person(name: &str, age: u8) -> Row {
    Row::new()
        .with("name", Value::string(name))
        .with("age", Value::uint8(age))
}

fn people_schema() -> Schema {
    let mut schema = Schema::new();
    assert!(schema.add_column("name", Ty::String));
    assert!(schema.add_column("age", Ty::UInt8));
    schema
}

#[test]
fn value_kind_and_extraction() {
    let s = Value::string("Grace");
    let n = Value::uint8(22);
    assert_eq!(s.kind(), Ty::String);
    assert_eq!(n.kind(), Ty::UInt8);
    assert_eq!(s.as_string(), Ok("Grace"));
    assert_eq!(n.as_integer(), Ok(22));
    assert_eq!(
        s.as_integer(),
        Err(KindMismatch { expected: Ty::UInt8, found: Ty::String })
    );
    assert_eq!(
        n.as_string(),
        Err(KindMismatch { expected: Ty::String, found: Ty::UInt8 })
    );
    assert_eq!(Value::from(7u8), Value::UInt8(7));
    assert_eq!(s.duplicate(), Value::String("Grace".to_string()));
}

#[test]
fn row_get_and_insert() {
    let mut row = person("Grace", 22);
    assert_eq!(row.len(), 2);
    assert_eq!(row.get("name"), Some(&Value::String("Grace".to_string())));
    assert_eq!(row.get("age"), Some(&Value::UInt8(22)));
    assert_eq!(row.get("city"), None);
    row.insert("age", Value::uint8(23));
    assert_eq!(row.len(), 2);
    assert_eq!(row.get("age"), Some(&Value::UInt8(23)));
    assert_eq!(row.entries[0].0, "name");
    assert_eq!(row.entries[1].0, "age");
}

#[test]
fn schema_refuses_duplicate_names() {
    let mut schema = people_schema();
    assert!(schema.contains(&"age".to_string()));
    assert!(!schema.add_column("age", Ty::String));
    assert_eq!(schema.len(), 2);
    assert_eq!(schema.columns[1], ("age".to_string(), Ty::UInt8));
}

#[test]
fn inference_follows_first_row() {
    let rows = vec![person("Grace", 22), person("Alan", 22)];
    let schema = columns_of(&rows[0]);
    assert_eq!(
        schema.columns,
        vec![("name".to_string(), Ty::String), ("age".to_string(), Ty::UInt8)]
    );
    assert_eq!(resolve_schema(&rows, None), Ok(schema));
}

#[test]
fn explicit_schema_wins() {
    let mut only_age = Schema::new();
    assert!(only_age.add_column("age", Ty::UInt8));
    let rows: Vec<Row> = Vec::new();
    assert_eq!(resolve_schema(&rows, Some(people_schema())), Ok(people_schema()));
    let rows = vec![person("Grace", 22)];
    let batch = batch_from_rows(&rows, Some(only_age)).unwrap();
    assert_eq!(batch.columns.len(), 1);
    assert_eq!(batch.columns[0].data, ColumnData::UInt8(vec![22]));
}

#[test]
fn inference_over_no_rows_is_empty_batch() {
    let rows: Vec<Row> = Vec::new();
    assert_eq!(resolve_schema(&rows, None), Err(EmptyBatch));
    assert_eq!(batch_from_rows(&rows, None), Err(TransposeError::EmptyBatch));
}

#[test]
fn explicit_schema_over_no_rows_gives_empty_columns() {
    let rows: Vec<Row> = Vec::new();
    let batch = transpose(&rows, &people_schema()).unwrap();
    assert_eq!(batch.num_rows(), 0);
    assert_eq!(batch.columns.len(), 2);
    assert_eq!(batch.columns[0].data, ColumnData::String(vec![]));
    assert_eq!(batch.columns[1].data, ColumnData::UInt8(vec![]));
}

#[test]
fn two_people_transpose() {
    let rows = vec![person("Grace", 22), person("Alan", 22)];
    let batch = transpose(&rows, &people_schema()).unwrap();
    assert_eq!(
        batch,
        Batch {
            num_rows: 2,
            columns: vec![
                Column {
                    name: "name".to_string(),
                    ty: Ty::String,
                    data: ColumnData::String(vec!["Grace".to_string(), "Alan".to_string()]),
                },
                Column {
                    name: "age".to_string(),
                    ty: Ty::UInt8,
                    data: ColumnData::UInt8(vec![22, 22]),
                },
            ],
        }
    );
}

#[test]
fn inferred_transpose_matches_explicit() {
    let rows = vec![person("Grace", 22), person("Alan", 22)];
    assert_eq!(
        batch_from_rows(&rows, None),
        transpose(&rows, &people_schema())
    );
}

#[test]
fn missing_age_column() {
    let rows = vec![Row::new().with("name", Value::string("Grace"))];
    assert_eq!(
        transpose(&rows, &people_schema()),
        Err(TransposeError::MissingColumn { row: 0, column: "age".to_string() })
    );
}

#[test]
fn missing_column_names_later_row() {
    let rows = vec![
        person("Grace", 22),
        person("Alan", 41),
        Row::new().with("age", Value::uint8(3)),
    ];
    assert_eq!(
        transpose(&rows, &people_schema()),
        Err(TransposeError::MissingColumn { row: 2, column: "name".to_string() })
    );
}

#[test]
fn age_as_text_is_type_mismatch() {
    let mut schema = Schema::new();
    assert!(schema.add_column("age", Ty::UInt8));
    let rows = vec![Row::new().with("age", Value::string("twenty-two"))];
    assert_eq!(
        transpose(&rows, &schema),
        Err(TransposeError::TypeMismatch {
            row: 0,
            column: "age".to_string(),
            expected: Ty::UInt8,
            found: Ty::String,
        })
    );
}

#[test]
fn columns_are_scanned_before_rows() {
    // Row 1 lacks "name" and row 0 holds text under "age": the "name" column
    // is scanned first, so its failure is the one reported.
    let rows = vec![
        Row::new()
            .with("name", Value::string("Grace"))
            .with("age", Value::string("old")),
        Row::new().with("age", Value::uint8(3)),
    ];
    assert_eq!(
        transpose(&rows, &people_schema()),
        Err(TransposeError::MissingColumn { row: 1, column: "name".to_string() })
    );
}

#[test]
fn inferred_schema_rejects_later_row() {
    let rows = vec![
        person("Grace", 22),
        Row::new()
            .with("name", Value::string("Alan"))
            .with("age", Value::string("forty")),
    ];
    assert_eq!(
        batch_from_rows(&rows, None),
        Err(TransposeError::TypeMismatch {
            row: 1,
            column: "age".to_string(),
            expected: Ty::UInt8,
            found: Ty::String,
        })
    );
}

#[test]
fn collectors_take_one_column() {
    let rows = vec![person("Grace", 22), person("Alan", 41)];
    let name = "name".to_string();
    let age = "age".to_string();
    assert_eq!(
        collect_strings(&rows, &name),
        Ok(vec!["Grace".to_string(), "Alan".to_string()])
    );
    assert_eq!(collect_integers(&rows, &age), Ok(vec![22, 41]));
    assert_eq!(
        collect_integers(&rows, &name),
        Err(TransposeError::TypeMismatch {
            row: 0,
            column: "name".to_string(),
            expected: Ty::UInt8,
            found: Ty::String,
        })
    );
    assert_eq!(
        collect_data(&rows, &age, Ty::UInt8),
        Ok(ColumnData::UInt8(vec![22, 41]))
    );
}

#[test]
fn round_trip_restores_rows() {
    let rows = vec![person("Grace", 22), person("Alan", 41), person("Ada", 36)];
    let batch = transpose(&rows, &people_schema()).unwrap();
    let rebuilt = batch.to_rows();
    assert_eq!(rebuilt, rows);
    assert_eq!(batch.row(1), person("Alan", 41));
}

#[test]
fn round_trip_keeps_declared_columns_only() {
    let rows = vec![person("Grace", 22).with("city", Value::string("Arlington"))];
    let batch = transpose(&rows, &people_schema()).unwrap();
    assert_eq!(batch.to_rows(), vec![person("Grace", 22)]);
}

#[test]
fn valid_rows_give_full_columns() {
    let rows: Vec<Row> = (0u8..10).map(|i| person("x", i)).collect();
    let batch = transpose(&rows, &people_schema()).unwrap();
    assert_eq!(batch.num_rows(), 10);
    for column in &batch.columns {
        assert_eq!(column.data.len(), 10);
    }
    assert_eq!(batch.columns[1].data, ColumnData::UInt8((0u8..10).collect()));
}

#[test]
fn assemble_refuses_bad_columns() {
    let good = vec![Column {
        name: "age".to_string(),
        ty: Ty::UInt8,
        data: ColumnData::UInt8(vec![1, 2]),
    }];
    assert!(Batch::assemble(2, good).is_some());
    let short = vec![Column {
        name: "age".to_string(),
        ty: Ty::UInt8,
        data: ColumnData::UInt8(vec![1]),
    }];
    assert_eq!(Batch::assemble(2, short), None);
    let mistyped = vec![Column {
        name: "age".to_string(),
        ty: Ty::String,
        data: ColumnData::UInt8(vec![1, 2]),
    }];
    assert_eq!(Batch::assemble(2, mistyped), None);
}

#[test]
fn block_holds_batch_columns() {
    let rows = vec![person("Grace", 22), person("Alan", 22)];
    let batch = transpose(&rows, &people_schema()).unwrap();
    let block = to_block(batch).inner;
    assert_eq!(block.column_count(), 2);
    assert_eq!(block.row_count(), 2);
    assert_eq!(block.columns()[0].name(), "name");
    assert_eq!(block.columns()[1].name(), "age");
    let name: &str = block.get(1, "name").unwrap();
    let age: u8 = block.get(1, "age").unwrap();
    assert_eq!(name, "Alan");
    assert_eq!(age, 22);
}

#[test]
fn empty_batch_gives_empty_block() {
    let rows: Vec<Row> = Vec::new();
    let batch = transpose(&rows, &Schema::new()).unwrap();
    let block = to_block(batch).inner;
    assert_eq!(block.column_count(), 0);
    assert_eq!(block.row_count(), 0);
}
