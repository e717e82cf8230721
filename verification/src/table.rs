//! Row typing: converting result cells into their best-effort text form and
//! assembling whole results into a table of text fields.
//!
//! Decoding never fails a request: a cell of a supported column type renders
//! to the canonical text of its value, and any other cell — an unsupported
//! type, a null, malformed bytes — degrades to the sentinel `"?"`.

use vstd::prelude::*;

use crate::pg::ColKind;
use crate::pg::PgCell;
use crate::pg::cell_kind;
use crate::pg::cell_like;
use crate::pg::get_column_name;
use crate::pg::row_columns;
use crate::pg::row_get_bool;
use crate::pg::row_get_i16;
use crate::pg::row_get_i32;
use crate::pg::row_get_i64;
use crate::pg::row_get_text;
use crate::pg::row_column_kind;
use crate::pg::row_len;
use crate::pg::row_model;
use crate::text::bool_to_string;
use crate::text::i16_to_string;
use crate::text::i32_to_string;
use crate::text::i64_to_string;
use crate::text::spec_bool_text;
use crate::text::spec_int_dec;

verus! {

/// One decoded text field, tagged with the column it came from.
#[derive(Debug, Clone, PartialEq)]
pub struct BasicTextField {
    pub text: String,
    pub column_index: usize,
}

/// A whole query result as text: column names plus rows of text fields.
#[derive(Debug, Clone, PartialEq)]
pub struct BasicTextTable {
    pub columns: Vec<String>,
    pub fields: Vec<Vec<BasicTextField>>,
}

/// The canonical text of a cell, when it has one: the decimal numeral of an
/// integer, `true`/`false` for a boolean, the carried rendering of a float,
/// the text itself for a character cell. A cell without a value, or of an
/// unsupported column type, has none.
pub open spec fn cell_text(c: PgCell) -> Option<Seq<char>> {
    match c {
        PgCell::Bool(Some(b)) => Some(spec_bool_text(b)),
        PgCell::Int2(Some(v)) => Some(spec_int_dec(v as int)),
        PgCell::Int4(Some(v)) => Some(spec_int_dec(v as int)),
        PgCell::Int8(Some(v)) => Some(spec_int_dec(v as int)),
        PgCell::Float4(Some(s)) => Some(s@),
        PgCell::Float8(Some(s)) => Some(s@),
        PgCell::Text(Some(s)) => Some(s@),
        _ => None,
    }
}

/// The text a cell finally shows: its canonical text, or the sentinel `"?"`.
pub open spec fn rendered_text(c: PgCell) -> Seq<char> {
    match cell_text(c) {
        Some(t) => t,
        None => "?"@,
    }
}

/// Decode one cell of a row to its canonical text, failing on a cell that
/// has none.
pub fn try_get_field_as_string(row: &Vec<PgCell>, index: usize) -> (r: Result<String, ()>)
    requires
        index < row@.len(),
    ensures
        match cell_text(row@[index as int]) {
            Some(t) => r matches Ok(s) && s@ == t,
            None => r is Err,
        },
{
    match &row[index] {
        PgCell::Bool(Some(b)) => Ok(bool_to_string(*b)),
        PgCell::Int2(Some(v)) => Ok(i16_to_string(*v)),
        PgCell::Int4(Some(v)) => Ok(i32_to_string(*v)),
        PgCell::Int8(Some(v)) => Ok(i64_to_string(*v)),
        PgCell::Float4(Some(s)) => Ok(s.clone()),
        PgCell::Float8(Some(s)) => Ok(s.clone()),
        PgCell::Text(Some(s)) => Ok(s.clone()),
        _ => Err(()),
    }
}

/// Extract the text shown for one cell of a row: its canonical text, or the
/// sentinel when it has none.
pub fn get_field_from_row(row: &Vec<PgCell>, index: usize) -> (s: String)
    requires
        index < row@.len(),
    ensures
        s@ == rendered_text(row@[index as int]),
{
    let res = try_get_field_as_string(row, index);
    match res {
        Ok(s) => s,
        Err(_) => "?".to_owned(),
    }
}

/// Convert a row of cells to the texts its fields show, in column order.
pub fn row_to_strings(row: &Vec<PgCell>) -> (r: Vec<String>)
    ensures
        r@.len() == row@.len(),
        forall|i: int| 0 <= i < row@.len() ==> (#[trigger] r@[i])@ == rendered_text(row@[i]),
{
    let mut strings: Vec<String> = Vec::new();
    let n = row.len();
    for index in 0..n
        invariant
            n == row@.len(),
            strings@.len() == index,
            forall|i: int| 0 <= i < index ==> (#[trigger] strings@[i])@ == rendered_text(row@[i]),
    {
        strings.push(get_field_from_row(row, index));
    }
    strings
}

/// Whether `fields` is the decoded form of `rows`: one text field per cell,
/// showing its rendered text and tagged with its column index.
pub open spec fn basic_fields_of(rows: Seq<Seq<PgCell>>, fields: Seq<Vec<BasicTextField>>) -> bool {
    &&& fields.len() == rows.len()
    &&& forall|i: int| 0 <= i < rows.len() ==> (#[trigger] fields[i])@.len() == rows[i].len()
    &&& forall|i: int, j: int|
        0 <= i < rows.len() && 0 <= j < rows[i].len() ==> (#[trigger] fields[i]@[j]).text@
            == rendered_text(rows[i][j]) && fields[i]@[j].column_index == j
}

/// Convert a row of cells to tagged text fields, in column order.
pub fn row_to_basic_fields(row: &Vec<PgCell>) -> (r: Vec<BasicTextField>)
    ensures
        r@.len() == row@.len(),
        forall|i: int|
            0 <= i < row@.len() ==> (#[trigger] r@[i]).text@ == rendered_text(row@[i])
                && r@[i].column_index == i,
{
    let strings = row_to_strings(row);
    let mut fields: Vec<BasicTextField> = Vec::new();
    let n = strings.len();
    let mut column_index: usize = 0;
    while column_index < n
        invariant
            n == strings@.len() == row@.len(),
            fields@.len() == column_index <= n,
            forall|i: int| 0 <= i < row@.len() ==> (#[trigger] strings@[i])@ == rendered_text(row@[i]),
            forall|i: int|
                0 <= i < column_index ==> (#[trigger] fields@[i]).text@ == rendered_text(row@[i])
                    && fields@[i].column_index == i,
        decreases n - column_index,
    {
        let s = strings[column_index].clone();
        fields.push(BasicTextField { text: s, column_index });
        column_index = column_index + 1;
    }
    fields
}

/// Read one cell of a driver row into the cell model. A float cell comes back
/// as `None`: its rendering cannot be produced here and must be supplied by
/// the caller.
pub fn read_cell(row: &tokio_postgres::Row, index: usize) -> (r: Option<PgCell>)
    requires
        index < row_model(*row).len(),
    ensures
        match r {
            Some(c) => cell_like(row_model(*row)[index as int], c),
            None => cell_kind(row_model(*row)[index as int]) == ColKind::Float4 || cell_kind(
                row_model(*row)[index as int],
            ) == ColKind::Float8,
        },
{
    match row_column_kind(row, index) {
        ColKind::Bool => Some(
            match row_get_bool(row, index) {
                Ok(b) => PgCell::Bool(Some(b)),
                Err(_) => PgCell::Bool(None),
            },
        ),
        ColKind::Int2 => Some(
            match row_get_i16(row, index) {
                Ok(v) => PgCell::Int2(Some(v)),
                Err(_) => PgCell::Int2(None),
            },
        ),
        ColKind::Int4 => Some(
            match row_get_i32(row, index) {
                Ok(v) => PgCell::Int4(Some(v)),
                Err(_) => PgCell::Int4(None),
            },
        ),
        ColKind::Int8 => Some(
            match row_get_i64(row, index) {
                Ok(v) => PgCell::Int8(Some(v)),
                Err(_) => PgCell::Int8(None),
            },
        ),
        ColKind::Float4 => None,
        ColKind::Float8 => None,
        ColKind::Text => Some(
            match row_get_text(row, index) {
                Ok(s) => PgCell::Text(Some(s)),
                Err(_) => PgCell::Text(None),
            },
        ),
        ColKind::Other => Some(PgCell::Other),
    }
}

/// The column names of a driver row, in order.
pub fn row_to_column_names(row: &tokio_postgres::Row) -> (r: Vec<String>)
    ensures
        r@.len() == row_columns(*row).len(),
        forall|i: int| 0 <= i < r@.len() ==> (#[trigger] r@[i])@ == row_columns(*row)[i],
{
    let n = row_len(row);
    let mut names: Vec<String> = Vec::new();
    for column_index in 0..n
        invariant
            n == row_columns(*row).len(),
            names@.len() == column_index,
            forall|i: int| 0 <= i < column_index ==> (#[trigger] names@[i])@ == row_columns(*row)[i],
    {
        names.push(get_column_name(row, column_index));
    }
    names
}

/// The column names of a whole result: those of its first row's schema, or
/// none at all when the result has no rows — a zero-row result is valid, not
/// an error.
pub fn extract_column_names(rows: &Vec<tokio_postgres::Row>) -> (r: Vec<String>)
    ensures
        rows@.len() == 0 ==> r@.len() == 0,
        rows@.len() > 0 ==> r@.len() == row_columns(rows@[0]).len() && (forall|i: int|
            0 <= i < r@.len() ==> (#[trigger] r@[i])@ == row_columns(rows@[0])[i]),
{
    if rows.len() > 0 {
        row_to_column_names(&rows[0])
    } else {
        Vec::new()
    }
}

/// Assemble a decoded result: the given column names plus one row of tagged
/// text fields per row of cells.
pub fn rows_to_basic_table(columns: Vec<String>, rows: &Vec<Vec<PgCell>>) -> (t: BasicTextTable)
    ensures
        t.columns == columns,
        basic_fields_of(rows@.map_values(|row: Vec<PgCell>| row@), t.fields@),
{
    let mut fields: Vec<Vec<BasicTextField>> = Vec::new();
    let n = rows.len();
    let ghost cell_rows = rows@.map_values(|row: Vec<PgCell>| row@);
    for i in 0..n
        invariant
            n == rows@.len(),
            cell_rows == rows@.map_values(|row: Vec<PgCell>| row@),
            fields@.len() == i,
            basic_fields_of(cell_rows.take(i as int), fields@),
    {
        fields.push(row_to_basic_fields(&rows[i]));
        proof {
            assert(cell_rows.take(i + 1 as int) =~= cell_rows.take(i as int).push(cell_rows[i as int]));
        }
    }
    proof {
        assert(cell_rows.take(n as int) =~= cell_rows);
    }
    BasicTextTable { columns, fields }
}

/// The SQL text of the connection probe.
pub fn connection_check_query() -> (r: String)
    ensures
        r@ == "SELECT 147 as a;"@,
{
    "SELECT 147 as a;".to_owned()
}

/// Whether a decoded result is the one the connection probe must produce:
/// exactly one row holding exactly one field whose text is `147`.
pub fn connection_check_ok(table: &BasicTextTable) -> (r: bool)
    ensures
        r == (table.fields@.len() == 1 && table.fields@[0]@.len() == 1
            && table.fields@[0]@[0].text@ == "147"@),
{
    if table.fields.len() != 1 {
        return false;
    }
    let row = &table.fields[0];
    if row.len() != 1 {
        return false;
    }
    let expected: String = "147".to_owned();
    row[0].text == expected
}

/// Law: decoding one cell is total and canonical — every supported cell whose
/// value is present renders to the canonical text of that value, and every
/// other cell renders to the sentinel `"?"`.
pub proof fn lemma_decode_cell_canonical(c: PgCell)
    ensures
        c matches PgCell::Bool(Some(b)) ==> rendered_text(c) == spec_bool_text(b),
        c matches PgCell::Int2(Some(v)) ==> rendered_text(c) == spec_int_dec(v as int),
        c matches PgCell::Int4(Some(v)) ==> rendered_text(c) == spec_int_dec(v as int),
        c matches PgCell::Int8(Some(v)) ==> rendered_text(c) == spec_int_dec(v as int),
        c matches PgCell::Float4(Some(s)) ==> rendered_text(c) == s@,
        c matches PgCell::Float8(Some(s)) ==> rendered_text(c) == s@,
        c matches PgCell::Text(Some(s)) ==> rendered_text(c) == s@,
        cell_text(c) is None ==> rendered_text(c) == "?"@,
{
}

/// Law: cells that agree show the same text.
pub proof fn lemma_cell_like_text(a: PgCell, b: PgCell)
    requires
        cell_like(a, b),
    ensures
        cell_text(a) == cell_text(b),
        cell_kind(a) == cell_kind(b),
{
}

} // verus!
