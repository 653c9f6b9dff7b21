//! The column layout that every input file has.

use vstd::prelude::*;

verus! {

/// The type of the values of one column.
#[derive(Clone, Copy, Debug, PartialEq, Eq, Structural)]
pub enum ColumnKind {
    Text,
    Int32,
    Int64,
    Float64,
}

/// One column: its name and the type of its values.
#[derive(Debug, PartialEq, Eq)]
pub struct ColumnSpec {
    pub name: String,
    pub kind: ColumnKind,
}

impl View for ColumnSpec {
    type V = (Seq<char>, ColumnKind);

    open spec fn view(&self) -> (Seq<char>, ColumnKind) {
        (self.name@, self.kind)
    }
}

/// The columns of a record, in the order of the file.
pub open spec fn record_columns() -> Seq<(Seq<char>, ColumnKind)> {
    seq![
        ("ticker"@, ColumnKind::Text),
        ("conditions"@, ColumnKind::Int32),
        ("exchange"@, ColumnKind::Int32),
        ("id"@, ColumnKind::Int64),
        ("participant_timestamp"@, ColumnKind::Int64),
        ("price"@, ColumnKind::Float64),
        ("size"@, ColumnKind::Float64),
    ]
}

/// The views of a list of columns.
pub open spec fn columns_view(columns: Seq<ColumnSpec>) -> Seq<(Seq<char>, ColumnKind)> {
    columns.map_values(|column: ColumnSpec| column@)
}

fn column(name: &str, kind: ColumnKind) -> (r: ColumnSpec)
    ensures
        r@ == (name@, kind),
{
    ColumnSpec { name: String::from_str(name), kind }
}

/// The record schema, fixed for all files.
pub fn record_schema() -> (r: Vec<ColumnSpec>)
    ensures
        columns_view(r@) == record_columns(),
{
    let mut r: Vec<ColumnSpec> = Vec::new();
    r.push(column("ticker", ColumnKind::Text));
    r.push(column("conditions", ColumnKind::Int32));
    r.push(column("exchange", ColumnKind::Int32));
    r.push(column("id", ColumnKind::Int64));
    r.push(column("participant_timestamp", ColumnKind::Int64));
    r.push(column("price", ColumnKind::Float64));
    r.push(column("size", ColumnKind::Float64));
    assert(columns_view(r@) =~= record_columns());
    r
}

} // verus!
