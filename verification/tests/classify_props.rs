use pgrouter::CustomQuery;
use pgrouter::DatabaseTable;
use pgrouter::PgCell;
use pgrouter::Query;
use pgrouter::TypedField;
use pgrouter::convert_rows;
use pgrouter::convert_to_typed_cell;
use pgrouter::table::BasicTextField;
use pgrouter::table::rows_to_basic_table;

fn sample_table() -> pgrouter::BasicTextTable {
    rows_to_basic_table(
        vec![String::from("c0"), String::from("c1")],
        &vec![
            vec![PgCell::Text(Some(String::from("alpha"))), PgCell::Int4(Some(3))],
            vec![PgCell::Other, PgCell::Bool(Some(true))],
        ],
    )
}

#[test]
fn cells_from_get_databases_become_database_names() {
    let cell = BasicTextField {
        text: String::from("app_db"),
        column_index: 0,
    };
    let typed = convert_to_typed_cell(cell, &Query::GetDatabases);
    assert_eq!(typed, TypedField::Database(String::from("app_db")));
}

#[test]
fn cells_from_get_tables_become_table_names() {
    let cell = BasicTextField {
        text: String::from("users"),
        column_index: 0,
    };
    let typed = convert_to_typed_cell(cell, &Query::GetTables(None));
    assert_eq!(typed, TypedField::Table(String::from("users")));
}

#[test]
fn cells_from_contents_and_custom_queries_stay_text() {
    let cell = BasicTextField {
        text: String::from("42"),
        column_index: 1,
    };
    let contents_query = Query::GetTableContents(DatabaseTable {
        database: None,
        table: String::from("users"),
    });
    assert_eq!(
        convert_to_typed_cell(cell.clone(), &contents_query),
        TypedField::Text(String::from("42"))
    );
    let custom_query = Query::CustomQuery(CustomQuery {
        database: None,
        sql_query: String::from("SELECT 42;"),
    });
    assert_eq!(
        convert_to_typed_cell(cell, &custom_query),
        TypedField::Text(String::from("42"))
    );
}

#[test]
fn classification_keeps_structure_and_values() {
    let table = sample_table();
    let typed = convert_rows(table.clone(), &Query::GetDatabases);
    assert_eq!(typed.columns, table.columns);
    assert_eq!(typed.fields.len(), table.fields.len());
    for (typed_row, raw_row) in typed.fields.iter().zip(table.fields.iter()) {
        assert_eq!(typed_row.len(), raw_row.len());
        for (typed_cell, raw_cell) in typed_row.iter().zip(raw_row.iter()) {
            assert_eq!(*typed_cell, TypedField::Database(raw_cell.text.clone()));
        }
    }
}

#[test]
fn classification_is_pure() {
    let table = sample_table();
    let query = Query::GetTables(Some(String::from("app_db")));
    let first = convert_rows(table.clone(), &query);
    let second = convert_rows(table, &query);
    assert_eq!(first, second);
}

#[test]
fn classifying_an_empty_table_gives_an_empty_table() {
    let table = rows_to_basic_table(vec![], &vec![]);
    let typed = convert_rows(table, &Query::GetDatabases);
    assert!(typed.columns.is_empty());
    assert!(typed.fields.is_empty());
}
