use pgrouter::PgCell;
use pgrouter::table::connection_check_ok;
use pgrouter::table::connection_check_query;
use pgrouter::table::get_field_from_row;
use pgrouter::table::row_to_basic_fields;
use pgrouter::table::row_to_strings;
use pgrouter::table::rows_to_basic_table;
use pgrouter::table::try_get_field_as_string;
use pgrouter::text::bool_to_string;
use pgrouter::text::i16_to_string;
use pgrouter::text::i32_to_string;
use pgrouter::text::i64_to_string;
use pgrouter::text::u64_to_string;

#[test]
fn integers_render_as_decimal() {
    assert_eq!(u64_to_string(0), "0");
    assert_eq!(u64_to_string(10), "10");
    assert_eq!(u64_to_string(147), "147");
    assert_eq!(u64_to_string(u64::MAX), "18446744073709551615");
    assert_eq!(i64_to_string(0), "0");
    assert_eq!(i64_to_string(-1), "-1");
    assert_eq!(i64_to_string(i64::MAX), "9223372036854775807");
    assert_eq!(i64_to_string(i64::MIN), "-9223372036854775808");
    assert_eq!(i32_to_string(i32::MIN), "-2147483648");
    assert_eq!(i16_to_string(-305), "-305");
    assert_eq!(i16_to_string(i16::MIN), "-32768");
}

#[test]
fn booleans_render_as_words() {
    assert_eq!(bool_to_string(true), "true");
    assert_eq!(bool_to_string(false), "false");
}

#[test]
fn supported_cells_decode_to_canonical_text() {
    let row = vec![
        PgCell::Bool(Some(true)),
        PgCell::Bool(Some(false)),
        PgCell::Int2(Some(-5)),
        PgCell::Int4(Some(147)),
        PgCell::Int8(Some(i64::MIN)),
        PgCell::Text(Some(String::from("app_db"))),
    ];
    assert_eq!(try_get_field_as_string(&row, 0), Ok(String::from("true")));
    assert_eq!(try_get_field_as_string(&row, 1), Ok(String::from("false")));
    assert_eq!(try_get_field_as_string(&row, 2), Ok(String::from("-5")));
    assert_eq!(try_get_field_as_string(&row, 3), Ok(String::from("147")));
    assert_eq!(
        try_get_field_as_string(&row, 4),
        Ok(String::from("-9223372036854775808"))
    );
    assert_eq!(try_get_field_as_string(&row, 5), Ok(String::from("app_db")));
}

#[test]
fn float_cells_show_the_supplied_rendering() {
    // What the unverified edge supplies for a float cell: std's rendering of
    // the decoded value.
    let shown32 = format!("{}", 2.5f32);
    let shown64 = format!("{}", -0.125f64);
    let row = vec![
        PgCell::Float4(Some(shown32.clone())),
        PgCell::Float8(Some(shown64.clone())),
    ];
    assert_eq!(try_get_field_as_string(&row, 0), Ok(shown32));
    assert_eq!(try_get_field_as_string(&row, 1), Ok(shown64));
}

#[test]
fn unsupported_or_undecodable_cells_degrade_to_sentinel() {
    let row = vec![
        PgCell::Other,
        PgCell::Bool(None),
        PgCell::Int2(None),
        PgCell::Int4(None),
        PgCell::Int8(None),
        PgCell::Float4(None),
        PgCell::Float8(None),
        PgCell::Text(None),
    ];
    for index in 0..row.len() {
        assert_eq!(try_get_field_as_string(&row, index), Err(()));
        assert_eq!(get_field_from_row(&row, index), "?");
    }
}

#[test]
fn row_to_strings_renders_every_cell() {
    let row = vec![
        PgCell::Int4(Some(1)),
        PgCell::Other,
        PgCell::Text(Some(String::from("x"))),
    ];
    assert_eq!(row_to_strings(&row), vec!["1", "?", "x"]);
}

#[test]
fn basic_fields_carry_column_indices() {
    let row = vec![PgCell::Int4(Some(7)), PgCell::Bool(Some(false))];
    let fields = row_to_basic_fields(&row);
    assert_eq!(fields.len(), 2);
    assert_eq!(fields[0].text, "7");
    assert_eq!(fields[0].column_index, 0);
    assert_eq!(fields[1].text, "false");
    assert_eq!(fields[1].column_index, 1);
}

#[test]
fn table_assembly_keeps_columns_and_shape() {
    let columns = vec![String::from("a"), String::from("b")];
    let rows = vec![
        vec![PgCell::Int4(Some(1)), PgCell::Int4(None)],
        vec![PgCell::Text(Some(String::from("y"))), PgCell::Other],
    ];
    let table = rows_to_basic_table(columns.clone(), &rows);
    assert_eq!(table.columns, columns);
    assert_eq!(table.fields.len(), 2);
    assert_eq!(table.fields[0][0].text, "1");
    assert_eq!(table.fields[0][1].text, "?");
    assert_eq!(table.fields[1][0].text, "y");
    assert_eq!(table.fields[1][1].text, "?");
    assert_eq!(table.fields[1][1].column_index, 1);
}

#[test]
fn connection_probe_checks_exact_result() {
    assert_eq!(connection_check_query(), "SELECT 147 as a;");

    let good = rows_to_basic_table(
        vec![String::from("a")],
        &vec![vec![PgCell::Int4(Some(147))]],
    );
    assert!(connection_check_ok(&good));

    let wrong_value = rows_to_basic_table(
        vec![String::from("a")],
        &vec![vec![PgCell::Int4(Some(146))]],
    );
    assert!(!connection_check_ok(&wrong_value));

    let wrong_shape = rows_to_basic_table(
        vec![String::from("a")],
        &vec![vec![PgCell::Int4(Some(147)), PgCell::Int4(Some(147))]],
    );
    assert!(!connection_check_ok(&wrong_shape));

    let empty = rows_to_basic_table(vec![], &vec![]);
    assert!(!connection_check_ok(&empty));
}
