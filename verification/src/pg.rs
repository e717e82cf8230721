//! The trusted boundary around the database driver's result rows.
//!
//! A `tokio_postgres::Row` is opaque to verification, so this module gives it
//! a model: `row_model` names the sequence of cells a row holds, as the driver
//! would decode them, and `row_columns` names its column names. The wrappers
//! below are the only places the driver is called on a row; each states over
//! those names what the driver's own code does.

use tokio_postgres::types::Type;
use vstd::prelude::*;

verus! {

#[verifier::external_type_specification]
#[verifier::external_body]
pub struct ExRow(tokio_postgres::Row);

/// The declared type of a result column, as far as this library decodes it.
/// `Text` covers the character and name column types; everything else the
/// driver can report is `Other`.
#[derive(Debug, Clone, Copy, PartialEq, Eq, Structural)]
pub enum ColKind {
    Bool,
    Int2,
    Int4,
    Int8,
    Float4,
    Float8,
    Text,
    Other,
}

/// The model of one result cell: the column's declared type together with the
/// decoded value, or `None` in place of the value when the driver cannot
/// decode the cell (a null, or malformed bytes). Float cells carry the text
/// rendering of their value rather than the value itself, since verified code
/// cannot hold a floating-point number; whoever extracts cells from the
/// driver supplies that rendering. A cell of any other column type is
/// `Other`.
#[derive(Debug, Clone, PartialEq)]
pub enum PgCell {
    Bool(Option<bool>),
    Int2(Option<i16>),
    Int4(Option<i32>),
    Int8(Option<i64>),
    Float4(Option<String>),
    Float8(Option<String>),
    Text(Option<String>),
    Other,
}

/// The column kind a cell belongs to.
pub open spec fn cell_kind(c: PgCell) -> ColKind {
    match c {
        PgCell::Bool(_) => ColKind::Bool,
        PgCell::Int2(_) => ColKind::Int2,
        PgCell::Int4(_) => ColKind::Int4,
        PgCell::Int8(_) => ColKind::Int8,
        PgCell::Float4(_) => ColKind::Float4,
        PgCell::Float8(_) => ColKind::Float8,
        PgCell::Text(_) => ColKind::Text,
        PgCell::Other => ColKind::Other,
    }
}

/// Two cells agree: same column kind, and their payloads hold the same
/// values (text payloads compared by content).
pub open spec fn cell_like(a: PgCell, b: PgCell) -> bool {
    match (a, b) {
        (PgCell::Bool(x), PgCell::Bool(y)) => x == y,
        (PgCell::Int2(x), PgCell::Int2(y)) => x == y,
        (PgCell::Int4(x), PgCell::Int4(y)) => x == y,
        (PgCell::Int8(x), PgCell::Int8(y)) => x == y,
        (PgCell::Float4(x), PgCell::Float4(y)) => crate::query::opt_str_view(x)
            == crate::query::opt_str_view(y),
        (PgCell::Float8(x), PgCell::Float8(y)) => crate::query::opt_str_view(x)
            == crate::query::opt_str_view(y),
        (PgCell::Text(x), PgCell::Text(y)) => crate::query::opt_str_view(x)
            == crate::query::opt_str_view(y),
        (PgCell::Other, PgCell::Other) => true,
        _ => false,
    }
}

/// The cells held by a result row, one per column, as the driver decodes
/// them. A row is an immutable value, so its cells are a function of it.
pub uninterp spec fn row_model(r: tokio_postgres::Row) -> Seq<PgCell>;

/// The column names of a result row, one per column.
pub uninterp spec fn row_columns(r: tokio_postgres::Row) -> Seq<Seq<char>>;

/// Relies on `tokio_postgres::Row::len`: the number of values in the row,
/// which equals its number of columns.
#[verifier::external_body]
pub fn row_len(row: &tokio_postgres::Row) -> (n: usize)
    ensures
        n == row_model(*row).len(),
        n == row_columns(*row).len(),
{
    row.len()
}

/// Relies on `tokio_postgres::Row::columns` and
/// `tokio_postgres::types::Type`: each arm recognises one of the column types
/// this library decodes, by the driver's own equality on types.
#[verifier::external_body]
pub fn row_column_kind(row: &tokio_postgres::Row, index: usize) -> (k: ColKind)
    requires
        index < row_model(*row).len(),
    ensures
        k == cell_kind(row_model(*row)[index as int]),
{
    let t = row.columns()[index].type_();
    if *t == Type::BOOL { ColKind::Bool }
    else if *t == Type::INT2 { ColKind::Int2 }
    else if *t == Type::INT4 { ColKind::Int4 }
    else if *t == Type::INT8 { ColKind::Int8 }
    else if *t == Type::FLOAT4 { ColKind::Float4 }
    else if *t == Type::FLOAT8 { ColKind::Float8 }
    else if *t == Type::VARCHAR || *t == Type::NAME { ColKind::Text }
    else { ColKind::Other }
}

/// Relies on `tokio_postgres::Row::try_get` with a `bool` target: it succeeds
/// exactly on a boolean cell whose value is present, and returns that value.
#[verifier::external_body]
pub(crate) fn row_get_bool(row: &tokio_postgres::Row, index: usize) -> (r: Result<bool, ()>)
    requires
        index < row_model(*row).len(),
        cell_kind(row_model(*row)[index as int]) == ColKind::Bool,
    ensures
        match row_model(*row)[index as int] {
            PgCell::Bool(Some(b)) => r == Ok::<bool, ()>(b),
            _ => r is Err,
        },
{
    row.try_get::<usize, bool>(index).map_err(|_| ())
}

/// Relies on `tokio_postgres::Row::try_get` with an `i16` target: it succeeds
/// exactly on a 16-bit integer cell whose value is present.
#[verifier::external_body]
pub(crate) fn row_get_i16(row: &tokio_postgres::Row, index: usize) -> (r: Result<i16, ()>)
    requires
        index < row_model(*row).len(),
        cell_kind(row_model(*row)[index as int]) == ColKind::Int2,
    ensures
        match row_model(*row)[index as int] {
            PgCell::Int2(Some(v)) => r == Ok::<i16, ()>(v),
            _ => r is Err,
        },
{
    row.try_get::<usize, i16>(index).map_err(|_| ())
}

/// Relies on `tokio_postgres::Row::try_get` with an `i32` target: it succeeds
/// exactly on a 32-bit integer cell whose value is present.
#[verifier::external_body]
pub(crate) fn row_get_i32(row: &tokio_postgres::Row, index: usize) -> (r: Result<i32, ()>)
    requires
        index < row_model(*row).len(),
        cell_kind(row_model(*row)[index as int]) == ColKind::Int4,
    ensures
        match row_model(*row)[index as int] {
            PgCell::Int4(Some(v)) => r == Ok::<i32, ()>(v),
            _ => r is Err,
        },
{
    row.try_get::<usize, i32>(index).map_err(|_| ())
}

/// Relies on `tokio_postgres::Row::try_get` with an `i64` target: it succeeds
/// exactly on a 64-bit integer cell whose value is present.
#[verifier::external_body]
pub(crate) fn row_get_i64(row: &tokio_postgres::Row, index: usize) -> (r: Result<i64, ()>)
    requires
        index < row_model(*row).len(),
        cell_kind(row_model(*row)[index as int]) == ColKind::Int8,
    ensures
        match row_model(*row)[index as int] {
            PgCell::Int8(Some(v)) => r == Ok::<i64, ()>(v),
            _ => r is Err,
        },
{
    row.try_get::<usize, i64>(index).map_err(|_| ())
}

/// Relies on `tokio_postgres::Row::try_get` with a `String` target: on a
/// character or name cell it returns the text verbatim when the value is
/// present.
#[verifier::external_body]
pub(crate) fn row_get_text(row: &tokio_postgres::Row, index: usize) -> (r: Result<String, ()>)
    requires
        index < row_model(*row).len(),
        cell_kind(row_model(*row)[index as int]) == ColKind::Text,
    ensures
        match row_model(*row)[index as int] {
            PgCell::Text(Some(s)) => r matches Ok(t) && t@ == s@,
            _ => r is Err,
        },
{
    row.try_get::<usize, String>(index).map_err(|_| ())
}

/// Relies on `tokio_postgres::Row::columns` and
/// `tokio_postgres::statement::Column::name`: the name of the column at the
/// given index.
#[verifier::external_body]
pub(crate) fn get_column_name(row: &tokio_postgres::Row, column_index: usize) -> (r: String)
    requires
        column_index < row_columns(*row).len(),
    ensures
        r@ == row_columns(*row)[column_index as int],
{
    String::from(row.columns()[column_index].name())
}

} // verus!
