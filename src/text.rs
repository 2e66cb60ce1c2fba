//! Text formats: bytes must be UTF-8 before any parsing is tried.
use vstd::prelude::*;
use vstd::string::StringSliceAdditionalSpecFns;
use vstd::utf8::valid_utf8;

verus! {

#[verifier::external_type_specification]
#[verifier::external_body]
pub struct ExIoError(std::io::Error);

#[verifier::external_type_specification]
pub struct ExIoErrorKind(std::io::ErrorKind);

/// The kind of an I/O error, what `std::io::Error::kind` reports of it.
pub uninterp spec fn io_error_kind(e: std::io::Error) -> std::io::ErrorKind;

#[verifier::external_type_specification]
#[verifier::external_body]
pub struct ExUtf8Error(std::str::Utf8Error);

/// Relies on std::str::from_utf8: it accepts exactly the well-formed UTF-8
/// byte sequences, and the text it returns is made of those very bytes.
#[verifier::external_body]
pub fn utf8_text(bytes: &[u8]) -> (r: Result<&str, std::str::Utf8Error>)
    ensures
        r is Ok <==> valid_utf8(bytes@),
        r is Ok ==> r->Ok_0.spec_bytes() == bytes@,
{
    std::str::from_utf8(bytes)
}

/// Relies on std::io::Error::new: wraps a UTF-8 failure as an error of the
/// kind it is given, here invalid data read from a source.
#[verifier::external_body]
pub fn invalid_data(e: std::str::Utf8Error) -> (r: std::io::Error)
    ensures
        io_error_kind(r) == std::io::ErrorKind::InvalidData,
{
    std::io::Error::new(std::io::ErrorKind::InvalidData, e)
}

} // verus!
