//! The result classifier: re-labels the generic text cells of a decoded table
//! according to which query produced them. A structural transform only — no
//! value changes, no row filtering, no reordering.

use vstd::prelude::*;

use crate::query::Query;
use crate::table::BasicTextField;
use crate::table::BasicTextTable;

verus! {

/// One classified cell. The payload is always the decoded text; the variant
/// only records what that text is, going by the query that produced it.
#[derive(Debug, Clone, PartialEq)]
pub enum TypedField {
    Text(String),
    Database(String),
    Table(String),
}

/// A classified query result: column names plus rows of labelled cells.
#[derive(Debug, Clone, PartialEq)]
pub struct TypedTable {
    pub columns: Vec<String>,
    pub fields: Vec<Vec<TypedField>>,
}

/// A classified table, or the marker of a failed query.
pub type TypedTableResult = Result<TypedTable, ()>;

/// The label a cell gets under a query: listed databases are database names,
/// listed tables are table names, and everything else is plain text.
pub open spec fn spec_convert_cell(text_cell: BasicTextField, query: Query) -> TypedField {
    match query {
        Query::CustomQuery(_) => TypedField::Text(text_cell.text),
        Query::GetDatabases => TypedField::Database(text_cell.text),
        Query::GetTables(_) => TypedField::Table(text_cell.text),
        Query::GetTableContents(_) => TypedField::Text(text_cell.text),
    }
}

/// Label one text cell according to the query that produced it.
pub fn convert_to_typed_cell(text_cell: BasicTextField, query: &Query) -> (r: TypedField)
    ensures
        r == spec_convert_cell(text_cell, *query),
{
    let s = text_cell.text;
    match query {
        Query::CustomQuery(_) => TypedField::Text(s),
        Query::GetDatabases => TypedField::Database(s),
        Query::GetTables(_) => TypedField::Table(s),
        Query::GetTableContents(_) => TypedField::Text(s),
    }
}

/// Whether `r` is the classified form of `table` under `query`: the same
/// column names, the same shape, and every cell labelled by the query with
/// its text unchanged.
pub open spec fn classified(table: BasicTextTable, query: Query, r: TypedTable) -> bool {
    &&& r.columns == table.columns
    &&& r.fields@.len() == table.fields@.len()
    &&& forall|i: int|
        0 <= i < table.fields@.len() ==> (#[trigger] r.fields@[i])@.len() == table.fields@[i]@.len()
    &&& forall|i: int, j: int|
        0 <= i < table.fields@.len() && 0 <= j < table.fields@[i]@.len() ==> (
        #[trigger] r.fields@[i]@[j]) == spec_convert_cell(table.fields@[i]@[j], query)
}

/// Classify a whole decoded table under the query that produced it.
pub fn convert_rows(table: BasicTextTable, query: &Query) -> (r: TypedTable)
    ensures
        classified(table, *query, r),
{
    let mut fields: Vec<Vec<TypedField>> = Vec::new();
    let n = table.fields.len();
    for i in 0..n
        invariant
            n == table.fields@.len(),
            fields@.len() == i,
            forall|k: int|
                0 <= k < i ==> (#[trigger] fields@[k])@.len() == table.fields@[k]@.len(),
            forall|k: int, j: int|
                0 <= k < i && 0 <= j < table.fields@[k]@.len() ==> (#[trigger] fields@[k]@[j])
                    == spec_convert_cell(table.fields@[k]@[j], *query),
    {
        let row = &table.fields[i];
        let mut typed_row: Vec<TypedField> = Vec::new();
        let m = row.len();
        for j in 0..m
            invariant
                m == row@.len(),
                row == table.fields@[i as int],
                typed_row@.len() == j,
                forall|l: int|
                    0 <= l < j ==> (#[trigger] typed_row@[l]) == spec_convert_cell(row@[l], *query),
        {
            let cell = BasicTextField { text: row[j].text.clone(), column_index: row[j].column_index };
            assert(cell == row@[j as int]);
            typed_row.push(convert_to_typed_cell(cell, query));
        }
        fields.push(typed_row);
    }
    TypedTable { columns: table.columns, fields }
}

/// Law: classification is a pure function of its inputs — any two classified
/// forms of the same table under the same query are identical.
pub proof fn lemma_classify_deterministic(
    table: BasicTextTable,
    query: Query,
    r1: TypedTable,
    r2: TypedTable,
)
    requires
        classified(table, query, r1),
        classified(table, query, r2),
    ensures
        r1.columns == r2.columns,
        r1.fields@.len() == r2.fields@.len(),
        forall|i: int| 0 <= i < r1.fields@.len() ==> (#[trigger] r1.fields@[i])@ == r2.fields@[i]@,
{
    assert forall|i: int| 0 <= i < r1.fields@.len() implies (#[trigger] r1.fields@[i])@
        == r2.fields@[i]@ by {
        assert(r1.fields@[i]@ =~= r2.fields@[i]@);
    }
}

} // verus!
