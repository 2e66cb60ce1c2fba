//! Assets stored as JSON Lines: one JSON document per line.
use crate::extensions::{copy_extensions, matches_any, matches_extensions};
use crate::records::{collect_records, first_failure, gathered};
use crate::text::{invalid_data, io_error_kind, utf8_text};
use std::marker::PhantomData;
use vstd::prelude::*;
use vstd::string::StringSliceAdditionalSpecFns;
use vstd::utf8::valid_utf8;

verus! {

/// The byte `\n`, which ends a line.
pub const NEWLINE: u8 = 10;

/// The byte `\r`, dropped where it stands just before a `\n`.
pub const CARRIAGE_RETURN: u8 = 13;

/// Position of the first `\n` of `b`, or the length of `b` when it has none.
pub open spec fn line_end(b: Seq<u8>) -> nat
    decreases b.len(),
{
    if b.len() == 0 {
        0
    } else if b[0] == NEWLINE {
        0
    } else {
        1 + line_end(b.drop_first())
    }
}

/// A line that was ended by `\n`, without a `\r` that stood before it.
pub open spec fn strip_carriage_return(line: Seq<u8>) -> Seq<u8> {
    if line.len() > 0 && line.last() == CARRIAGE_RETURN {
        line.drop_last()
    } else {
        line
    }
}

/// The lines of `b`, as std's `BufRead::lines` yields them: split at each
/// `\n`, a last line without `\n` kept, and no empty line after a final `\n`.
pub open spec fn lines_of(b: Seq<u8>) -> Seq<Seq<u8>>
    decreases b.len(),
{
    if b.len() == 0 {
        seq![]
    } else {
        let k = line_end(b);
        if k >= b.len() {
            seq![b]
        } else {
            seq![strip_carriage_return(b.take(k as int))] + lines_of(b.skip(k + 1 as int))
        }
    }
}

/// `b` without one line break at its very end, if it has one.
pub open spec fn without_final_newline(b: Seq<u8>) -> Seq<u8> {
    if b.len() > 0 && b.last() == NEWLINE {
        b.drop_last()
    } else {
        b
    }
}

/// The records of a JSON Lines source: its lines, once one optional final
/// line break is taken off.
pub open spec fn records_of(b: Seq<u8>) -> Seq<Seq<u8>> {
    lines_of(without_final_newline(b))
}

proof fn lemma_line_end(s: Seq<u8>, m: int)
    requires
        0 <= m <= s.len(),
        forall|j: int| 0 <= j < m ==> s[j] != NEWLINE,
        m == s.len() || s[m] == NEWLINE,
    ensures
        line_end(s) == m,
    decreases m,
{
    if m > 0 {
        lemma_line_end(s.drop_first(), m - 1);
    }
}

/// Split `bytes` into its lines, as [`lines_of`] describes them.
pub fn split_lines(bytes: &[u8]) -> (r: Vec<&[u8]>)
    ensures
        r@.map_values(|l: &[u8]| l@) == lines_of(bytes@),
{
    let n = bytes.len();
    let ghost b = bytes@;
    let mut out: Vec<&[u8]> = Vec::new();
    let mut start: usize = 0;
    assert(b.skip(0) =~= b);
    assert(out@.map_values(|l: &[u8]| l@) + lines_of(b) =~= lines_of(b));
    while start < n
        invariant
            b == bytes@,
            n == b.len(),
            start <= n,
            lines_of(b) == out@.map_values(|l: &[u8]| l@) + lines_of(b.skip(start as int)),
        decreases n - start,
    {
        let ghost rest = b.skip(start as int);
        let mut k: usize = start;
        while k < n && bytes[k] != NEWLINE
            invariant
                b == bytes@,
                n == b.len(),
                start <= k <= n,
                forall|j: int| start <= j < k ==> b[j] != NEWLINE,
            decreases n - k,
        {
            k = k + 1;
        }
        proof {
            lemma_line_end(rest, k - start);
        }
        let ghost before = out@.map_values(|l: &[u8]| l@);
        if k == n {
            out.push(vstd::slice::slice_subrange(bytes, start, n));
            assert(rest.skip(rest.len() as int) =~= Seq::<u8>::empty());
            assert(out@.map_values(|l: &[u8]| l@) =~= before.push(rest));
            assert(lines_of(rest) =~= seq![rest]);
            assert(b.skip(n as int) =~= Seq::<u8>::empty());
            assert(lines_of(b) =~= out@.map_values(|l: &[u8]| l@) + lines_of(b.skip(n as int)));
            start = n;
        } else {
            let end: usize = if k > start && bytes[k - 1] == CARRIAGE_RETURN {
                k - 1
            } else {
                k
            };
            out.push(vstd::slice::slice_subrange(bytes, start, end));
            let ghost line = rest.take(k - start);
            assert(line =~= b.subrange(start as int, k as int));
            assert(strip_carriage_return(line) =~= b.subrange(start as int, end as int));
            assert(rest.skip(k - start + 1) =~= b.skip(k + 1));
            assert(out@.map_values(|l: &[u8]| l@) =~= before.push(strip_carriage_return(line)));
            assert(lines_of(rest) == seq![strip_carriage_return(line)] + lines_of(b.skip(k + 1)));
            assert(lines_of(b) =~= out@.map_values(|l: &[u8]| l@) + lines_of(b.skip(k + 1)));
            start = k + 1;
        }
    }
    assert(b.skip(n as int) =~= Seq::<u8>::empty());
    assert(out@.map_values(|l: &[u8]| l@) + lines_of(b.skip(n as int)) =~= out@.map_values(|l: &[u8]| l@));
    out
}

/// Split a JSON Lines source into its records, as [`records_of`] describes
/// them.
pub fn split_records(bytes: &[u8]) -> (r: Vec<&[u8]>)
    ensures
        r@.map_values(|l: &[u8]| l@) == records_of(bytes@),
{
    let n = bytes.len();
    if n > 0 && bytes[n - 1] == NEWLINE {
        let body = vstd::slice::slice_subrange(bytes, 0, n - 1);
        assert(body@ =~= bytes@.drop_last());
        split_lines(body)
    } else {
        split_lines(bytes)
    }
}

/// A line break added after a last line that holds something other than a
/// `\r` leaves the lines unchanged.
proof fn lemma_lines_of_final_newline(c: Seq<u8>)
    requires
        c.len() > 0,
        c.last() != NEWLINE,
        c.last() != CARRIAGE_RETURN,
    ensures
        lines_of(c.push(NEWLINE)) == lines_of(c),
    decreases c.len(),
{
    let d = c.push(NEWLINE);
    let k = line_end(c) as int;
    if k >= c.len() {
        assert forall|j: int| 0 <= j < c.len() implies d[j] != NEWLINE by {
            if c[j] == NEWLINE {
                lemma_line_end_at_most(c, j);
            }
        }
        lemma_line_end(d, c.len() as int);
        assert(d.take(c.len() as int) =~= c);
        assert(d.skip(c.len() + 1 as int) =~= Seq::<u8>::empty());
        assert(lines_of(Seq::<u8>::empty()) == Seq::<Seq<u8>>::empty());
        assert(strip_carriage_return(c) == c);
        assert(lines_of(d) =~= seq![c]);
    } else {
        lemma_line_end_found(c);
        lemma_line_end(d, k);
        assert(d.take(k) =~= c.take(k));
        assert(k + 1 < c.len());
        assert(d.skip(k + 1) =~= c.skip(k + 1).push(NEWLINE));
        lemma_lines_of_final_newline(c.skip(k + 1));
    }
}

proof fn lemma_line_end_at_most(s: Seq<u8>, j: int)
    requires
        0 <= j < s.len(),
        s[j] == NEWLINE,
    ensures
        line_end(s) <= j,
    decreases j,
{
    if j > 0 && s[0] != NEWLINE {
        lemma_line_end_at_most(s.drop_first(), j - 1);
    }
}

proof fn lemma_line_end_found(s: Seq<u8>)
    requires
        line_end(s) < s.len(),
    ensures
        s[line_end(s) as int] == NEWLINE,
        forall|j: int| 0 <= j < line_end(s) ==> s[j] != NEWLINE,
    decreases s.len(),
{
    if s.len() > 0 && s[0] != NEWLINE {
        lemma_line_end_found(s.drop_first());
        assert forall|j: int| 0 <= j < line_end(s) implies s[j] != NEWLINE by {
            if j > 0 {
                assert(s[j] == s.drop_first()[j - 1]);
            }
        }
    }
}

/// A line break added at the end of a source changes none of its records,
/// unless the source already ends in a line break that follows an empty line
/// or a `\r`: a final line break is optional.
pub proof fn lemma_final_newline_ignored(s: Seq<u8>)
    requires
        s.len() == 0 || s.last() != NEWLINE
            || (s.len() >= 2 && s[s.len() - 2] != NEWLINE && s[s.len() - 2] != CARRIAGE_RETURN),
    ensures
        records_of(s.push(NEWLINE)) == records_of(s),
{
    assert(s.push(NEWLINE).drop_last() =~= s);
    if s.len() > 0 && s.last() == NEWLINE {
        let c = s.drop_last();
        assert(c.push(NEWLINE) =~= s);
        lemma_lines_of_final_newline(c);
    }
}

/// Every record is UTF-8 text.
pub open spec fn all_text(records: Seq<Seq<u8>>) -> bool {
    forall|i: int| 0 <= i < records.len() ==> valid_utf8(#[trigger] records[i])
}

/// Record `k` is the first one that is not UTF-8 text.
pub open spec fn first_non_text(records: Seq<Seq<u8>>, k: int) -> bool {
    &&& 0 <= k < records.len()
    &&& !valid_utf8(records[k])
    &&& all_text(records.take(k))
}

/// Plugin to load your asset type `A` from JSON Lines files, each line a
/// document of type `D`.
pub struct JsonLinesAssetPlugin<A, D> {
    extensions: Vec<&'static str>,
    _marker: PhantomData<(A, D)>,
}

impl<A, D> JsonLinesAssetPlugin<A, D> {
    /// The extensions this plugin registers its loader for, in order.
    pub closed spec fn spec_extensions(&self) -> Seq<&'static str> {
        self.extensions@
    }

    /// Create a new plugin that will load assets from files with the given extensions.
    pub fn new(extensions: &[&'static str]) -> (r: Self)
        ensures
            r.spec_extensions() == extensions@,
    {
        Self { extensions: copy_extensions(extensions), _marker: PhantomData }
    }

    /// The loader this plugin registers, which handles the same extensions.
    pub fn loader(&self) -> (r: JsonLinesAssetLoader<A, D>)
        ensures
            r.spec_extensions() == self.spec_extensions(),
    {
        JsonLinesAssetLoader { extensions: copy_extensions(self.extensions.as_slice()), _marker: PhantomData }
    }
}

/// Loads your asset type `A` from JSON Lines files, one `D` per line.
pub struct JsonLinesAssetLoader<A, D> {
    extensions: Vec<&'static str>,
    _marker: PhantomData<(A, D)>,
}

/// Possible errors that can be produced by [`JsonLinesAssetLoader`].
#[non_exhaustive]
#[derive(Debug)]
pub enum JsonLinesLoaderError {
    /// The source could not be read, or a line of it is not UTF-8 text.
    Io(std::io::Error),
    /// A line is not a JSON document of the record type.
    JsonError(serde_json::Error),
}

impl From<std::io::Error> for JsonLinesLoaderError {
    fn from(e: std::io::Error) -> Self {
        JsonLinesLoaderError::Io(e)
    }
}

impl vstd::std_specs::convert::FromSpecImpl<std::io::Error> for JsonLinesLoaderError {
    open spec fn obeys_from_spec() -> bool {
        true
    }

    open spec fn from_spec(e: std::io::Error) -> Self {
        JsonLinesLoaderError::Io(e)
    }
}

impl From<serde_json::Error> for JsonLinesLoaderError {
    fn from(e: serde_json::Error) -> Self {
        JsonLinesLoaderError::JsonError(e)
    }
}

impl vstd::std_specs::convert::FromSpecImpl<serde_json::Error> for JsonLinesLoaderError {
    open spec fn obeys_from_spec() -> bool {
        true
    }

    open spec fn from_spec(e: serde_json::Error) -> Self {
        JsonLinesLoaderError::JsonError(e)
    }
}

/// Relies on serde_json::from_str: decodes one JSON document into `D`.
#[verifier::external_body]
fn json_from_str<D: serde::de::DeserializeOwned>(text: &str) -> (r: Result<D, serde_json::Error>) {
    serde_json::from_str::<D>(text)
}

/// `result` is an outcome of decoding `line`: an `Io` error, of the kind
/// for invalid data, exactly when the line is not UTF-8 text; else a record
/// or a JSON error.
pub open spec fn record_outcome<D>(line: Seq<u8>, result: Result<D, JsonLinesLoaderError>) -> bool {
    &&& (result is Err && result->Err_0 is Io) <==> !valid_utf8(line)
    &&& (result is Err && result->Err_0 is Io) ==> io_error_kind(result->Err_0->Io_0)
        == std::io::ErrorKind::InvalidData
}

/// `results` holds one outcome of decoding for each of `records`, in order.
pub open spec fn record_outcomes<D>(records: Seq<Seq<u8>>, results: Seq<Result<D, JsonLinesLoaderError>>) -> bool {
    &&& results.len() == records.len()
    &&& forall|i: int| 0 <= i < records.len() ==> record_outcome(records[i], #[trigger] results[i])
}

/// Decode one line: it must be UTF-8 text, and then one JSON document.
pub fn decode_record<D: serde::de::DeserializeOwned>(line: &[u8]) -> (r: Result<D, JsonLinesLoaderError>)
    ensures
        record_outcome(line@, r),
{
    match utf8_text(line) {
        Err(e) => Err(JsonLinesLoaderError::from(invalid_data(e))),
        Ok(text) => match json_from_str::<D>(text) {
            Ok(record) => Ok(record),
            Err(e) => Err(JsonLinesLoaderError::from(e)),
        },
    }
}

/// Decode each line on its own, keeping their order.
pub fn decode_records<D: serde::de::DeserializeOwned>(lines: &[&[u8]]) -> (r: Vec<Result<D, JsonLinesLoaderError>>)
    ensures
        record_outcomes(lines@.map_values(|l: &[u8]| l@), r@),
{
    let ghost recs = lines@.map_values(|l: &[u8]| l@);
    let mut out: Vec<Result<D, JsonLinesLoaderError>> = Vec::new();
    let mut i: usize = 0;
    while i < lines.len()
        invariant
            recs == lines@.map_values(|l: &[u8]| l@),
            i <= lines@.len(),
            out@.len() == i,
            forall|j: int| 0 <= j < i ==> record_outcome(recs[j], #[trigger] out@[j]),
        decreases lines@.len() - i,
    {
        out.push(decode_record::<D>(lines[i]));
        i = i + 1;
    }
    out
}

impl<A, D> JsonLinesAssetLoader<A, D> {
    /// The extensions this loader handles, in order.
    pub closed spec fn spec_extensions(&self) -> Seq<&'static str> {
        self.extensions@
    }

    /// The extensions this loader handles.
    pub fn extensions(&self) -> (r: &[&'static str])
        ensures
            r@ == self.spec_extensions(),
    {
        self.extensions.as_slice()
    }

    /// Whether a file at `path` is routed to this loader.
    pub fn matches_path(&self, path: &str) -> (r: bool)
        ensures
            r == matches_any(self.spec_extensions(), path.spec_bytes()),
    {
        matches_extensions(self.extensions.as_slice(), path)
    }
}

impl<A, D: serde::de::DeserializeOwned> JsonLinesAssetLoader<A, D> {
    /// Decode every record of a source, each on its own, and gather them: all
    /// the records in order when each one decoded, else the error of the first
    /// record that failed, and no records.
    pub fn load(&self, bytes: &[u8]) -> (r: Result<Vec<D>, JsonLinesLoaderError>)
        ensures
            exists|results: Seq<Result<D, JsonLinesLoaderError>>|
                #[trigger] record_outcomes(records_of(bytes@), results) && gathered(results, r),
            r is Ok ==> r->Ok_0@.len() == records_of(bytes@).len(),
            r is Ok ==> all_text(records_of(bytes@)),
            r is Err && r->Err_0 is Io ==> exists|k: int| first_non_text(records_of(bytes@), k),
    {
        let lines = split_records(bytes);
        let ghost recs = records_of(bytes@);
        let results = decode_records::<D>(lines.as_slice());
        let ghost res = results@;
        let r = collect_records(results);
        proof {
            assert(record_outcomes(recs, res) && gathered(res, r));
            if r is Ok {
                assert forall|i: int| 0 <= i < recs.len() implies valid_utf8(#[trigger] recs[i]) by {
                    assert(record_outcome(recs[i], res[i]));
                    assert(res[i] is Ok);
                }
            }
            if r is Err && r->Err_0 is Io {
                let k = choose|k: int| first_failure(res, k) && r->Err_0 == (#[trigger] res[k])->Err_0;
                assert(record_outcome(recs[k], res[k]));
                assert forall|i: int| 0 <= i < k implies valid_utf8(#[trigger] recs.take(k)[i]) by {
                    assert(record_outcome(recs[i], res[i]));
                    assert(res.take(k)[i] is Ok);
                }
                assert(first_non_text(recs, k));
            }
        }
        r
    }
}

} // verus!
