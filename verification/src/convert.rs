//! From the body of an input object to the artifact: gunzip, read the CSV
//! text against the record schema, write Zstd-compressed Parquet.

use crate::error::ErrorKind;
use crate::header::header_conforms;
use crate::header::header_names_columns;
use crate::schema::columns_view;
use crate::schema::ColumnKind;
use crate::schema::ColumnSpec;
use flate2::read::GzDecoder;
use polars::prelude::CsvReadOptions;
use polars::prelude::DataFrame;
use polars::prelude::DataType;
use polars::prelude::Field;
use polars::prelude::ParquetCompression;
use polars::prelude::ParquetWriter;
use polars::prelude::PolarsError;
use polars::prelude::Schema;
use polars::prelude::SerReader;
use polars::prelude::ZstdLevel;
use std::io::Cursor;
use std::io::Read;
use std::sync::Arc;
use vstd::prelude::*;

verus! {

/// polars' `DataFrame`, the table that its CSV reader returns. Opaque here.
#[verifier::external_type_specification]
#[verifier::external_body]
pub struct ExDataFrame(DataFrame);

/// polars' `Column`, which the signatures of `DataFrame` mention. Opaque here.
#[verifier::external_type_specification]
#[verifier::external_body]
pub struct ExColumn(polars::prelude::Column);

/// polars' `PolarsError`. Opaque here.
#[verifier::external_type_specification]
#[verifier::external_body]
pub struct ExPolarsError(PolarsError);

/// polars' `DataType`. Opaque here.
#[verifier::external_type_specification]
#[verifier::external_body]
pub struct ExDataType(DataType);

/// polars' `Field`, a column's name with its data type. Opaque here.
#[verifier::external_type_specification]
#[verifier::external_body]
pub struct ExField(Field);

/// The Zstd level at which artifacts are compressed.
pub const ZSTD_LEVEL: i32 = 3;

/// What `flate2::read::GzDecoder` reads out of `body` up to the end of the
/// first gzip member; `None` where reading fails.
pub uninterp spec fn gzip_payload(body: Seq<u8>) -> Option<Seq<u8>>;

/// Reads a `flate2::read::GzDecoder` over `body` to its end. Trusted: the
/// outcome is the one named by [`gzip_payload`].
#[verifier::external_body]
fn gunzip(body: &[u8]) -> (r: Option<Vec<u8>>)
    ensures
        r is Some <==> gzip_payload(body@) is Some,
        r matches Some(text) ==> gzip_payload(body@) == Some(text@),
{
    let mut text = Vec::new();
    match GzDecoder::new(body).read_to_end(&mut text) {
        Ok(_) => Some(text),
        Err(_) => None,
    }
}

/// The column kind that a polars data type stands for: `Text` for
/// `DataType::String`, and `Int32`, `Int64`, `Float64` for the variants of
/// those names. The four functions below say so of the four variants; of
/// every other data type nothing is said.
pub uninterp spec fn data_type_kind(data_type: DataType) -> Option<ColumnKind>;

/// What a polars field holds: its name, and the column kind that its data
/// type stands for.
pub uninterp spec fn field_column(field: Field) -> (Seq<char>, Option<ColumnKind>);

/// polars' `DataType::String`, the type of text columns.
#[verifier::external_body]
fn polars_string() -> (r: DataType)
    ensures
        data_type_kind(r) == Some(ColumnKind::Text),
{
    DataType::String
}

/// polars' `DataType::Int32`.
#[verifier::external_body]
fn polars_int32() -> (r: DataType)
    ensures
        data_type_kind(r) == Some(ColumnKind::Int32),
{
    DataType::Int32
}

/// polars' `DataType::Int64`.
#[verifier::external_body]
fn polars_int64() -> (r: DataType)
    ensures
        data_type_kind(r) == Some(ColumnKind::Int64),
{
    DataType::Int64
}

/// polars' `DataType::Float64`.
#[verifier::external_body]
fn polars_float64() -> (r: DataType)
    ensures
        data_type_kind(r) == Some(ColumnKind::Float64),
{
    DataType::Float64
}

/// Calls polars' `Field::new`. Trusted: the field holds the name and the
/// data type that it was made of.
#[verifier::external_body]
fn polars_field(name: &str, data_type: DataType) -> (r: Field)
    ensures
        field_column(r) == (name@, data_type_kind(data_type)),
{
    Field::new(name.into(), data_type)
}

/// Reads CSV text with the reader that polars' `CsvReadOptions` makes, the
/// columns named and typed by a schema of the fields given, in their order.
/// Nothing is claimed of the outcome: it may vary with the threads that the
/// reader has. Without a field the reader panics on a text with a row, so
/// one field at least is required, and every field's data type is one of the
/// four that stand for a column kind. polars sizes its pool of threads at
/// first use from `POLARS_MAX_THREADS`, and panics there where that variable
/// holds no number; no argument of this function can rule that out.
#[verifier::external_body]
fn read_csv(text: Vec<u8>, fields: Vec<Field>, has_header: bool) -> Result<DataFrame, PolarsError>
    requires
        fields@.len() > 0,
        forall|i: int| 0 <= i < fields@.len() ==> field_column(#[trigger] fields@[i]).1 is Some,
{
    CsvReadOptions::default()
        .with_has_header(has_header)
        .with_schema(Some(Arc::new(Schema::from_iter(fields))))
        .into_reader_with_file_handle(Cursor::new(text))
        .finish()
}

/// The four bytes that a Parquet file begins and ends with: `PAR1`.
pub open spec fn parquet_magic() -> Seq<u8> {
    seq![80u8, 65u8, 82u8, 49u8]
}

/// Whether bytes have the frame of a Parquet file: the magic bytes at the
/// start, and at the end behind the four bytes of the footer's length.
pub open spec fn is_parquet_file(bytes: Seq<u8>) -> bool {
    &&& bytes.len() >= 12
    &&& bytes.take(4) == parquet_magic()
    &&& bytes.skip(bytes.len() - 4) == parquet_magic()
}

/// Writes a frame with polars' `ParquetWriter` under Zstd compression of the
/// given level into a buffer. Trusted: what the writer returns on success
/// has the frame of a Parquet file. Whether it succeeds, and what stands in
/// the file, is not claimed.
#[verifier::external_body]
fn write_parquet(frame: &mut DataFrame, level: i32) -> (r: Result<Vec<u8>, PolarsError>)
    ensures
        r matches Ok(artifact) ==> is_parquet_file(artifact@),
{
    let mut artifact = Vec::new();
    let compression = ParquetCompression::Zstd(Some(ZstdLevel::try_new(level)?));
    ParquetWriter::new(&mut artifact).with_compression(compression).finish(frame)?;
    Ok(artifact)
}

/// The decompressed body of an input object.
pub fn decompress(body: &[u8]) -> (r: Result<Vec<u8>, ErrorKind>)
    ensures
        match gzip_payload(body@) {
            Some(text) => r matches Ok(v) && v@ == text,
            None => r == Err::<Vec<u8>, ErrorKind>(ErrorKind::Decompress),
        },
{
    match gunzip(body) {
        Some(text) => Ok(text),
        None => Err(ErrorKind::Decompress),
    }
}

/// What a run makes of the CSV reader's outcome: a table to encode, or a
/// parse failure.
pub fn parsed(outcome: Result<DataFrame, PolarsError>) -> (r: Result<DataFrame, ErrorKind>)
    ensures
        match outcome {
            Ok(frame) => r == Ok::<DataFrame, ErrorKind>(frame),
            Err(_) => r == Err::<DataFrame, ErrorKind>(ErrorKind::Parse),
        },
{
    match outcome {
        Ok(frame) => Ok(frame),
        Err(_) => Err(ErrorKind::Parse),
    }
}

/// What a run makes of the Parquet writer's outcome: the artifact, or an
/// encode failure.
pub fn encoded(outcome: Result<Vec<u8>, PolarsError>) -> (r: Result<Vec<u8>, ErrorKind>)
    ensures
        match outcome {
            Ok(artifact) => r == Ok::<Vec<u8>, ErrorKind>(artifact),
            Err(_) => r == Err::<Vec<u8>, ErrorKind>(ErrorKind::Encode),
        },
{
    match outcome {
        Ok(artifact) => Ok(artifact),
        Err(_) => Err(ErrorKind::Encode),
    }
}

/// The polars data type in which the values of a column are read.
fn polars_type(kind: ColumnKind) -> (r: DataType)
    ensures
        data_type_kind(r) == Some(kind),
{
    match kind {
        ColumnKind::Text => polars_string(),
        ColumnKind::Int32 => polars_int32(),
        ColumnKind::Int64 => polars_int64(),
        ColumnKind::Float64 => polars_float64(),
    }
}

/// Whether `fields` are `columns` as polars fields: as many, in the same
/// order, each with its column's name and a data type that stands for its
/// column's kind.
pub open spec fn fields_are(fields: Seq<Field>, columns: Seq<ColumnSpec>) -> bool {
    &&& fields.len() == columns.len()
    &&& forall|i: int|
        0 <= i < fields.len() ==> field_column(#[trigger] fields[i]) == (
            columns[i].name@,
            Some(columns[i].kind),
        )
}

/// The columns as polars fields, in their order.
fn polars_fields(columns: &Vec<ColumnSpec>) -> (r: Vec<Field>)
    ensures
        fields_are(r@, columns@),
{
    let mut r: Vec<Field> = Vec::new();
    let mut i: usize = 0;
    while i < columns.len()
        invariant
            i <= columns.len(),
            fields_are(r@, columns@.take(i as int)),
        decreases columns.len() - i,
    {
        r.push(polars_field(columns[i].name.as_str(), polars_type(columns[i].kind)));
        i += 1;
    }
    assert(columns@.take(i as int) =~= columns@);
    r
}

/// Whether a text has a header row for the columns given: there is a
/// column, and the header row names the columns.
pub open spec fn headed(text: Seq<u8>, columns: Seq<(Seq<char>, ColumnKind)>) -> bool {
    columns.len() > 0 && header_names_columns(text, columns)
}

/// Converts CSV text with a header row into a Parquet artifact compressed
/// with Zstd at [`ZSTD_LEVEL`]. The columns are named and typed by `columns`.
/// A text without a header row for the columns is a parse failure, and so is
/// a text that the reader refuses. A table that the writer refuses is an
/// encode failure. Which texts and tables those are is the reader's and the
/// writer's to say; what comes back on success has the frame of a Parquet
/// file.
pub fn convert(text: Vec<u8>, columns: &Vec<ColumnSpec>) -> (r: Result<Vec<u8>, ErrorKind>)
    ensures
        !headed(text@, columns_view(columns@)) ==> r == Err::<Vec<u8>, ErrorKind>(ErrorKind::Parse),
        r matches Err(error) ==> error == ErrorKind::Parse || error == ErrorKind::Encode,
        r matches Ok(artifact) ==> is_parquet_file(artifact@),
{
    if columns.len() == 0 || !header_conforms(text.as_slice(), columns) {
        return Err(ErrorKind::Parse);
    }
    match parsed(read_csv(text, polars_fields(columns), true)) {
        Ok(frame) => {
            let mut frame = frame;
            encoded(write_parquet(&mut frame, ZSTD_LEVEL))
        },
        Err(error) => Err(error),
    }
}

/// From the body of an input object to its artifact: decompress, then
/// convert. A body that is no gzip stream is a decompress failure, and no
/// other body is. A body whose text has no header row for the columns is a
/// parse failure. Every other body gives an artifact with the frame of a
/// Parquet file, or is a parse or an encode failure.
pub fn artifact_of(body: &[u8], columns: &Vec<ColumnSpec>) -> (r: Result<Vec<u8>, ErrorKind>)
    ensures
        match gzip_payload(body@) {
            None => r == Err::<Vec<u8>, ErrorKind>(ErrorKind::Decompress),
            Some(text) => {
                &&& !headed(text, columns_view(columns@)) ==> r == Err::<Vec<u8>, ErrorKind>(
                    ErrorKind::Parse,
                )
                &&& r matches Err(error) ==> error == ErrorKind::Parse || error
                    == ErrorKind::Encode
                &&& r matches Ok(artifact) ==> is_parquet_file(artifact@)
            },
        },
{
    match decompress(body) {
        Ok(text) => convert(text, columns),
        Err(error) => Err(error),
    }
}

} // verus!
