//! Assets stored as JSON.
use crate::extensions::{copy_extensions, matches_any, matches_extensions};
use std::marker::PhantomData;
use vstd::prelude::*;
use vstd::string::StringSliceAdditionalSpecFns;

verus! {

#[verifier::external_type_specification]
#[verifier::external_body]
pub struct ExJsonError(serde_json::Error);

/// Plugin to load your asset type `A` from JSON files.
pub struct JsonAssetPlugin<A> {
    extensions: Vec<&'static str>,
    _marker: PhantomData<A>,
}

impl<A> JsonAssetPlugin<A> {
    /// The extensions this plugin registers its loader for, in order.
    pub closed spec fn spec_extensions(&self) -> Seq<&'static str> {
        self.extensions@
    }

    /// Create a new plugin that will load assets from files with the given extensions.
    pub fn new(extensions: &[&'static str]) -> (r: Self)
        ensures
            r.spec_extensions() == extensions@,
    {
        Self { extensions: copy_extensions(extensions), _marker: PhantomData }
    }

    /// The loader this plugin registers, which handles the same extensions.
    pub fn loader(&self) -> (r: JsonAssetLoader<A>)
        ensures
            r.spec_extensions() == self.spec_extensions(),
    {
        JsonAssetLoader { extensions: copy_extensions(self.extensions.as_slice()), _marker: PhantomData }
    }
}

/// Loads your asset type `A` from JSON files.
pub struct JsonAssetLoader<A> {
    extensions: Vec<&'static str>,
    _marker: PhantomData<A>,
}

/// Possible errors that can be produced by [`JsonAssetLoader`].
#[non_exhaustive]
#[derive(Debug)]
pub enum JsonLoaderError {
    /// The source could not be read.
    Io(std::io::Error),
    /// The bytes are not a JSON document of the asset type.
    JsonError(serde_json::Error),
}

impl From<std::io::Error> for JsonLoaderError {
    fn from(e: std::io::Error) -> Self {
        JsonLoaderError::Io(e)
    }
}

impl vstd::std_specs::convert::FromSpecImpl<std::io::Error> for JsonLoaderError {
    open spec fn obeys_from_spec() -> bool {
        true
    }

    open spec fn from_spec(e: std::io::Error) -> Self {
        JsonLoaderError::Io(e)
    }
}

impl From<serde_json::Error> for JsonLoaderError {
    fn from(e: serde_json::Error) -> Self {
        JsonLoaderError::JsonError(e)
    }
}

impl vstd::std_specs::convert::FromSpecImpl<serde_json::Error> for JsonLoaderError {
    open spec fn obeys_from_spec() -> bool {
        true
    }

    open spec fn from_spec(e: serde_json::Error) -> Self {
        JsonLoaderError::JsonError(e)
    }
}

/// Relies on serde_json::from_slice: decodes one JSON document into `A`.
#[verifier::external_body]
fn json_from_slice<A: serde::de::DeserializeOwned>(bytes: &[u8]) -> (r: Result<A, serde_json::Error>) {
    serde_json::from_slice::<A>(bytes)
}

impl<A> JsonAssetLoader<A> {
    /// The extensions this loader handles, in order.
    pub closed spec fn spec_extensions(&self) -> Seq<&'static str> {
        self.extensions@
    }

    /// The extensions this loader handles.
    pub fn extensions(&self) -> (r: &[&'static str])
        ensures
            r@ == self.spec_extensions(),
    {
        self.extensions.as_slice()
    }

    /// Whether a file at `path` is routed to this loader.
    pub fn matches_path(&self, path: &str) -> (r: bool)
        ensures
            r == matches_any(self.spec_extensions(), path.spec_bytes()),
    {
        matches_extensions(self.extensions.as_slice(), path)
    }
}

impl<A: serde::de::DeserializeOwned> JsonAssetLoader<A> {
    /// Decode the whole content of a file.
    pub fn load(&self, bytes: &[u8]) -> (r: Result<A, JsonLoaderError>)
        ensures
            r is Err ==> r->Err_0 is JsonError,
    {
        match json_from_slice::<A>(bytes) {
            Ok(asset) => Ok(asset),
            Err(e) => Err(JsonLoaderError::from(e)),
        }
    }
}

} // verus!
