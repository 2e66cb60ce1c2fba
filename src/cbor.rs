//! Assets stored as CBOR.
use crate::extensions::{copy_extensions, matches_any, matches_extensions};
use std::marker::PhantomData;
use vstd::prelude::*;
use vstd::string::StringSliceAdditionalSpecFns;

verus! {

#[verifier::external_type_specification]
#[verifier::external_body]
#[verifier::reject_recursive_types(T)]
pub struct ExCborDeError<T>(ciborium::de::Error<T>);

#[verifier::external_type_specification]
#[verifier::external_body]
#[verifier::reject_recursive_types(T)]
pub struct ExCborSerError<T>(ciborium::ser::Error<T>);

/// Plugin to load your asset type `A` from CBOR files.
pub struct CborAssetPlugin<A> {
    extensions: Vec<&'static str>,
    _marker: PhantomData<A>,
}

impl<A> CborAssetPlugin<A> {
    /// The extensions this plugin registers its loader for, in order.
    pub closed spec fn spec_extensions(&self) -> Seq<&'static str> {
        self.extensions@
    }

    /// Create a new plugin that will load assets from files with the given extensions.
    pub fn new(extensions: &[&'static str]) -> (r: Self)
        ensures
            r.spec_extensions() == extensions@,
    {
        Self { extensions: copy_extensions(extensions), _marker: PhantomData }
    }

    /// The loader this plugin registers, which handles the same extensions.
    pub fn loader(&self) -> (r: CborAssetLoader<A>)
        ensures
            r.spec_extensions() == self.spec_extensions(),
    {
        CborAssetLoader { extensions: copy_extensions(self.extensions.as_slice()), _marker: PhantomData }
    }
}

/// Loads your asset type `A` from CBOR files.
pub struct CborAssetLoader<A> {
    extensions: Vec<&'static str>,
    _marker: PhantomData<A>,
}

/// Possible errors that can be produced by [`CborAssetLoader`] or [`CborAssetSaver`].
#[non_exhaustive]
#[derive(Debug)]
pub enum CborAssetError {
    /// The source could not be read.
    Io(std::io::Error),
    /// The asset could not be encoded as CBOR.
    CborSerError(ciborium::ser::Error<std::io::Error>),
    /// The bytes are not a CBOR data item of the asset type.
    CborDeError(ciborium::de::Error<std::io::Error>),
}

impl From<std::io::Error> for CborAssetError {
    fn from(e: std::io::Error) -> Self {
        CborAssetError::Io(e)
    }
}

impl vstd::std_specs::convert::FromSpecImpl<std::io::Error> for CborAssetError {
    open spec fn obeys_from_spec() -> bool {
        true
    }

    open spec fn from_spec(e: std::io::Error) -> Self {
        CborAssetError::Io(e)
    }
}

impl From<ciborium::ser::Error<std::io::Error>> for CborAssetError {
    fn from(e: ciborium::ser::Error<std::io::Error>) -> Self {
        CborAssetError::CborSerError(e)
    }
}

impl vstd::std_specs::convert::FromSpecImpl<ciborium::ser::Error<std::io::Error>> for CborAssetError {
    open spec fn obeys_from_spec() -> bool {
        true
    }

    open spec fn from_spec(e: ciborium::ser::Error<std::io::Error>) -> Self {
        CborAssetError::CborSerError(e)
    }
}

impl From<ciborium::de::Error<std::io::Error>> for CborAssetError {
    fn from(e: ciborium::de::Error<std::io::Error>) -> Self {
        CborAssetError::CborDeError(e)
    }
}

impl vstd::std_specs::convert::FromSpecImpl<ciborium::de::Error<std::io::Error>> for CborAssetError {
    open spec fn obeys_from_spec() -> bool {
        true
    }

    open spec fn from_spec(e: ciborium::de::Error<std::io::Error>) -> Self {
        CborAssetError::CborDeError(e)
    }
}

/// Relies on ciborium::from_reader: decodes one CBOR data item into `A`.
#[verifier::external_body]
fn cbor_from_slice<A: serde::de::DeserializeOwned>(bytes: &[u8]) -> (r: Result<A, ciborium::de::Error<std::io::Error>>) {
    ciborium::from_reader::<A, &[u8]>(bytes)
}

impl<A> CborAssetLoader<A> {
    /// The extensions this loader handles, in order.
    pub closed spec fn spec_extensions(&self) -> Seq<&'static str> {
        self.extensions@
    }

    /// The extensions this loader handles.
    pub fn extensions(&self) -> (r: &[&'static str])
        ensures
            r@ == self.spec_extensions(),
    {
        self.extensions.as_slice()
    }

    /// Whether a file at `path` is routed to this loader.
    pub fn matches_path(&self, path: &str) -> (r: bool)
        ensures
            r == matches_any(self.spec_extensions(), path.spec_bytes()),
    {
        matches_extensions(self.extensions.as_slice(), path)
    }
}

impl<A: serde::de::DeserializeOwned> CborAssetLoader<A> {
    /// Decode the whole content of a file.
    pub fn load(&self, bytes: &[u8]) -> (r: Result<A, CborAssetError>)
        ensures
            r is Err ==> r->Err_0 is CborDeError,
    {
        match cbor_from_slice::<A>(bytes) {
            Ok(asset) => Ok(asset),
            Err(e) => Err(CborAssetError::from(e)),
        }
    }
}

/// Relies on ciborium::into_writer: encodes `A` as one CBOR data item, here into a fresh buffer.
#[verifier::external_body]
fn cbor_to_vec<A: serde::Serialize>(asset: &A) -> (r: Result<Vec<u8>, ciborium::ser::Error<std::io::Error>>) {
    let mut bytes = Vec::new();
    ciborium::into_writer(asset, &mut bytes).map(move |()| bytes)
}

/// Saves your asset type `A` to CBOR files.
pub struct CborAssetSaver<A> {
    _marker: PhantomData<A>,
}

impl<A> Default for CborAssetSaver<A> {
    fn default() -> Self {
        Self { _marker: PhantomData }
    }
}

impl<A: serde::Serialize> CborAssetSaver<A> {
    /// Encode the whole asset in one pass, giving the bytes to write.
    pub fn save(&self, asset: &A) -> (r: Result<Vec<u8>, CborAssetError>)
        ensures
            r is Err ==> r->Err_0 is CborSerError,
    {
        match cbor_to_vec::<A>(asset) {
            Ok(bytes) => Ok(bytes),
            Err(e) => Err(CborAssetError::from(e)),
        }
    }
}

} // verus!
