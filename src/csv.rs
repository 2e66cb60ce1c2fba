//! Assets stored as CSV: one record per row.
use crate::extensions::{copy_extensions, matches_any, matches_extensions};
use crate::records::{all_decoded, collect_records, decoded_values, first_failure};
use std::marker::PhantomData;
use vstd::prelude::*;
use vstd::string::StringSliceAdditionalSpecFns;

verus! {

/// The byte `,`, the field delimiter unless another one is chosen.
pub const COMMA: u8 = 44;

#[verifier::external_type_specification]
#[verifier::external_body]
pub struct ExCsvError(::csv::Error);

/// Plugin to load your asset type `A` from CSV files.
pub struct CsvAssetPlugin<A> {
    extensions: Vec<&'static str>,
    _marker: PhantomData<A>,
    delimiter: u8,
}

impl<A> CsvAssetPlugin<A> {
    /// The extensions this plugin registers its loader for, in order.
    pub closed spec fn spec_extensions(&self) -> Seq<&'static str> {
        self.extensions@
    }

    /// The byte that separates the fields of a row.
    pub closed spec fn spec_delimiter(&self) -> u8 {
        self.delimiter
    }

    /// Create a new plugin that will load assets from files with the given
    /// extensions, with fields separated by commas.
    pub fn new(extensions: &[&'static str]) -> (r: Self)
        ensures
            r.spec_extensions() == extensions@,
            r.spec_delimiter() == COMMA,
    {
        Self { extensions: copy_extensions(extensions), _marker: PhantomData, delimiter: COMMA }
    }

    /// Change the delimiter used to parse the CSV file. The default is `,`.
    pub fn with_delimiter(self, delimiter: u8) -> (r: Self)
        ensures
            r.spec_extensions() == self.spec_extensions(),
            r.spec_delimiter() == delimiter,
    {
        Self { delimiter, ..self }
    }

    /// The loader this plugin registers, which handles the same extensions
    /// with the same delimiter.
    pub fn loader(&self) -> (r: CsvAssetLoader<A>)
        ensures
            r.spec_extensions() == self.spec_extensions(),
            r.spec_delimiter() == self.spec_delimiter(),
    {
        CsvAssetLoader {
            extensions: copy_extensions(self.extensions.as_slice()),
            _marker: PhantomData,
            delimiter: self.delimiter,
        }
    }
}

/// Loads your asset type `A` from CSV files.
pub struct CsvAssetLoader<A> {
    extensions: Vec<&'static str>,
    _marker: PhantomData<A>,
    delimiter: u8,
}

/// Possible errors that can be produced by [`CsvAssetLoader`].
#[non_exhaustive]
#[derive(Debug)]
pub enum CsvLoaderError {
    /// The source could not be read.
    Io(std::io::Error),
    /// A row is not a record of the asset type.
    CsvError(::csv::Error),
}

impl From<std::io::Error> for CsvLoaderError {
    fn from(e: std::io::Error) -> Self {
        CsvLoaderError::Io(e)
    }
}

impl vstd::std_specs::convert::FromSpecImpl<std::io::Error> for CsvLoaderError {
    open spec fn obeys_from_spec() -> bool {
        true
    }

    open spec fn from_spec(e: std::io::Error) -> Self {
        CsvLoaderError::Io(e)
    }
}

impl From<::csv::Error> for CsvLoaderError {
    fn from(e: ::csv::Error) -> Self {
        CsvLoaderError::CsvError(e)
    }
}

impl vstd::std_specs::convert::FromSpecImpl<::csv::Error> for CsvLoaderError {
    open spec fn obeys_from_spec() -> bool {
        true
    }

    open spec fn from_spec(e: ::csv::Error) -> Self {
        CsvLoaderError::CsvError(e)
    }
}

/// Asset representing a loaded CSV file, with its rows decoded to `A`.
pub struct LoadedCsv<A> {
    /// The rows of the file, in order.
    pub rows: Vec<A>,
}

/// How many records csv reads from `bytes` after the header row, with fields
/// split at `delimiter`. Each record counts once, whether it decodes or not.
pub uninterp spec fn csv_record_count(bytes: Seq<u8>, delimiter: u8) -> nat;

/// Relies on csv::ReaderBuilder, set to the given field delimiter, and on
/// csv::Reader::into_deserialize: one result per record after the header row,
/// in the order of the records, and how many there are depends on the bytes
/// and the delimiter alone.
#[verifier::external_body]
fn csv_records<A: serde::de::DeserializeOwned>(bytes: &[u8], delimiter: u8) -> (r: Vec<Result<A, ::csv::Error>>)
    ensures
        r@.len() == csv_record_count(bytes@, delimiter),
{
    ::csv::ReaderBuilder::new().delimiter(delimiter).from_reader(bytes).into_deserialize::<A>().collect()
}

/// Gather decoded rows into an asset: all of them in order when every row
/// decoded, else the error of the first row that failed, and no rows.
pub fn gather_rows<A>(results: Vec<Result<A, ::csv::Error>>) -> (r: Result<LoadedCsv<A>, CsvLoaderError>)
    ensures
        r is Ok <==> all_decoded(results@),
        r is Ok ==> r->Ok_0.rows@ == decoded_values(results@),
        r is Err ==> exists|k: int|
            first_failure(results@, k) && r->Err_0 == CsvLoaderError::CsvError((#[trigger] results@[k])->Err_0),
{
    match collect_records(results) {
        Ok(rows) => Ok(LoadedCsv { rows }),
        Err(e) => Err(CsvLoaderError::from(e)),
    }
}

impl<A> CsvAssetLoader<A> {
    /// The extensions this loader handles, in order.
    pub closed spec fn spec_extensions(&self) -> Seq<&'static str> {
        self.extensions@
    }

    /// The byte that separates the fields of a row.
    pub closed spec fn spec_delimiter(&self) -> u8 {
        self.delimiter
    }

    /// The extensions this loader handles.
    pub fn extensions(&self) -> (r: &[&'static str])
        ensures
            r@ == self.spec_extensions(),
    {
        self.extensions.as_slice()
    }

    /// The byte that separates the fields of a row.
    pub fn delimiter(&self) -> (r: u8)
        ensures
            r == self.spec_delimiter(),
    {
        self.delimiter
    }

    /// Whether a file at `path` is routed to this loader.
    pub fn matches_path(&self, path: &str) -> (r: bool)
        ensures
            r == matches_any(self.spec_extensions(), path.spec_bytes()),
    {
        matches_extensions(self.extensions.as_slice(), path)
    }
}

impl<A: serde::de::DeserializeOwned> CsvAssetLoader<A> {
    /// Decode every row of the whole content of a file, with this loader's
    /// delimiter. The first row that fails ends the read with its error.
    pub fn load(&self, bytes: &[u8]) -> (r: Result<LoadedCsv<A>, CsvLoaderError>)
        ensures
            r is Ok ==> r->Ok_0.rows@.len() == csv_record_count(bytes@, self.spec_delimiter()),
            r is Err ==> r->Err_0 is CsvError,
    {
        gather_rows(csv_records::<A>(bytes, self.delimiter))
    }
}

} // verus!
