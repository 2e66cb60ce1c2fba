//! Assets stored as RON.
use crate::extensions::{copy_extensions, matches_any, matches_extensions};
use std::marker::PhantomData;
use vstd::prelude::*;
use vstd::string::StringSliceAdditionalSpecFns;

verus! {

#[verifier::external_type_specification]
#[verifier::external_body]
pub struct ExRonError(::ron::error::SpannedError);

/// Plugin to load your asset type `A` from RON files.
pub struct RonAssetPlugin<A> {
    extensions: Vec<&'static str>,
    _marker: PhantomData<A>,
}

impl<A> RonAssetPlugin<A> {
    /// The extensions this plugin registers its loader for, in order.
    pub closed spec fn spec_extensions(&self) -> Seq<&'static str> {
        self.extensions@
    }

    /// Create a new plugin that will load assets from files with the given extensions.
    pub fn new(extensions: &[&'static str]) -> (r: Self)
        ensures
            r.spec_extensions() == extensions@,
    {
        Self { extensions: copy_extensions(extensions), _marker: PhantomData }
    }

    /// The loader this plugin registers, which handles the same extensions.
    pub fn loader(&self) -> (r: RonAssetLoader<A>)
        ensures
            r.spec_extensions() == self.spec_extensions(),
    {
        RonAssetLoader { extensions: copy_extensions(self.extensions.as_slice()), _marker: PhantomData }
    }
}

/// Loads your asset type `A` from RON files.
pub struct RonAssetLoader<A> {
    extensions: Vec<&'static str>,
    _marker: PhantomData<A>,
}

/// Possible errors that can be produced by [`RonAssetLoader`].
#[non_exhaustive]
#[derive(Debug)]
pub enum RonLoaderError {
    /// The source could not be read.
    Io(std::io::Error),
    /// The bytes are not a RON value of the asset type.
    RonError(::ron::error::SpannedError),
}

impl From<std::io::Error> for RonLoaderError {
    fn from(e: std::io::Error) -> Self {
        RonLoaderError::Io(e)
    }
}

impl vstd::std_specs::convert::FromSpecImpl<std::io::Error> for RonLoaderError {
    open spec fn obeys_from_spec() -> bool {
        true
    }

    open spec fn from_spec(e: std::io::Error) -> Self {
        RonLoaderError::Io(e)
    }
}

impl From<::ron::error::SpannedError> for RonLoaderError {
    fn from(e: ::ron::error::SpannedError) -> Self {
        RonLoaderError::RonError(e)
    }
}

impl vstd::std_specs::convert::FromSpecImpl<::ron::error::SpannedError> for RonLoaderError {
    open spec fn obeys_from_spec() -> bool {
        true
    }

    open spec fn from_spec(e: ::ron::error::SpannedError) -> Self {
        RonLoaderError::RonError(e)
    }
}

/// Relies on ron::de::from_bytes: decodes one RON value into `A`.
#[verifier::external_body]
fn ron_from_bytes<A: serde::de::DeserializeOwned>(bytes: &[u8]) -> (r: Result<A, ::ron::error::SpannedError>) {
    ::ron::de::from_bytes::<A>(bytes)
}

impl<A> RonAssetLoader<A> {
    /// The extensions this loader handles, in order.
    pub closed spec fn spec_extensions(&self) -> Seq<&'static str> {
        self.extensions@
    }

    /// The extensions this loader handles.
    pub fn extensions(&self) -> (r: &[&'static str])
        ensures
            r@ == self.spec_extensions(),
    {
        self.extensions.as_slice()
    }

    /// Whether a file at `path` is routed to this loader.
    pub fn matches_path(&self, path: &str) -> (r: bool)
        ensures
            r == matches_any(self.spec_extensions(), path.spec_bytes()),
    {
        matches_extensions(self.extensions.as_slice(), path)
    }
}

impl<A: serde::de::DeserializeOwned> RonAssetLoader<A> {
    /// Decode the whole content of a file.
    pub fn load(&self, bytes: &[u8]) -> (r: Result<A, RonLoaderError>)
        ensures
            r is Err ==> r->Err_0 is RonError,
    {
        match ron_from_bytes::<A>(bytes) {
            Ok(asset) => Ok(asset),
            Err(e) => Err(RonLoaderError::from(e)),
        }
    }
}

} // verus!
