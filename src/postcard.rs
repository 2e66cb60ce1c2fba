//! Assets stored as Postcard.
use crate::extensions::{copy_extensions, matches_any, matches_extensions};
use std::marker::PhantomData;
use vstd::prelude::*;
use vstd::string::StringSliceAdditionalSpecFns;

verus! {

#[verifier::external_type_specification]
#[verifier::external_body]
pub struct ExPostcardError(postcard::Error);

/// Plugin to load your asset type `A` from Postcard files.
pub struct PostcardAssetPlugin<A> {
    extensions: Vec<&'static str>,
    _marker: PhantomData<A>,
}

impl<A> PostcardAssetPlugin<A> {
    /// The extensions this plugin registers its loader for, in order.
    pub closed spec fn spec_extensions(&self) -> Seq<&'static str> {
        self.extensions@
    }

    /// Create a new plugin that will load assets from files with the given extensions.
    pub fn new(extensions: &[&'static str]) -> (r: Self)
        ensures
            r.spec_extensions() == extensions@,
    {
        Self { extensions: copy_extensions(extensions), _marker: PhantomData }
    }

    /// The loader this plugin registers, which handles the same extensions.
    pub fn loader(&self) -> (r: PostcardAssetLoader<A>)
        ensures
            r.spec_extensions() == self.spec_extensions(),
    {
        PostcardAssetLoader { extensions: copy_extensions(self.extensions.as_slice()), _marker: PhantomData }
    }
}

/// Loads your asset type `A` from Postcard files.
pub struct PostcardAssetLoader<A> {
    extensions: Vec<&'static str>,
    _marker: PhantomData<A>,
}

/// Possible errors that can be produced by [`PostcardAssetLoader`] or [`PostcardAssetSaver`].
#[non_exhaustive]
#[derive(Debug)]
pub enum PostcardAssetError {
    /// The source could not be read.
    Io(std::io::Error),
    /// The bytes could not be decoded, or the asset encoded, as Postcard.
    PostcardError(postcard::Error),
}

impl From<std::io::Error> for PostcardAssetError {
    fn from(e: std::io::Error) -> Self {
        PostcardAssetError::Io(e)
    }
}

impl vstd::std_specs::convert::FromSpecImpl<std::io::Error> for PostcardAssetError {
    open spec fn obeys_from_spec() -> bool {
        true
    }

    open spec fn from_spec(e: std::io::Error) -> Self {
        PostcardAssetError::Io(e)
    }
}

impl From<postcard::Error> for PostcardAssetError {
    fn from(e: postcard::Error) -> Self {
        PostcardAssetError::PostcardError(e)
    }
}

impl vstd::std_specs::convert::FromSpecImpl<postcard::Error> for PostcardAssetError {
    open spec fn obeys_from_spec() -> bool {
        true
    }

    open spec fn from_spec(e: postcard::Error) -> Self {
        PostcardAssetError::PostcardError(e)
    }
}

/// Relies on postcard::from_bytes: decodes one Postcard message into `A`.
#[verifier::external_body]
fn postcard_from_bytes<A: serde::de::DeserializeOwned>(bytes: &[u8]) -> (r: Result<A, postcard::Error>) {
    postcard::from_bytes::<A>(bytes)
}

impl<A> PostcardAssetLoader<A> {
    /// The extensions this loader handles, in order.
    pub closed spec fn spec_extensions(&self) -> Seq<&'static str> {
        self.extensions@
    }

    /// The extensions this loader handles.
    pub fn extensions(&self) -> (r: &[&'static str])
        ensures
            r@ == self.spec_extensions(),
    {
        self.extensions.as_slice()
    }

    /// Whether a file at `path` is routed to this loader.
    pub fn matches_path(&self, path: &str) -> (r: bool)
        ensures
            r == matches_any(self.spec_extensions(), path.spec_bytes()),
    {
        matches_extensions(self.extensions.as_slice(), path)
    }
}

impl<A: serde::de::DeserializeOwned> PostcardAssetLoader<A> {
    /// Decode the whole content of a file.
    pub fn load(&self, bytes: &[u8]) -> (r: Result<A, PostcardAssetError>)
        ensures
            r is Err ==> r->Err_0 is PostcardError,
    {
        match postcard_from_bytes::<A>(bytes) {
            Ok(asset) => Ok(asset),
            Err(e) => Err(PostcardAssetError::from(e)),
        }
    }
}

/// Relies on postcard::to_stdvec: encodes `A` as one Postcard message.
#[verifier::external_body]
fn postcard_to_vec<A: serde::Serialize>(asset: &A) -> (r: Result<Vec<u8>, postcard::Error>) {
    postcard::to_stdvec(asset)
}

/// Saves your asset type `A` to Postcard files.
pub struct PostcardAssetSaver<A> {
    _marker: PhantomData<A>,
}

impl<A> Default for PostcardAssetSaver<A> {
    fn default() -> Self {
        Self { _marker: PhantomData }
    }
}

impl<A: serde::Serialize> PostcardAssetSaver<A> {
    /// Encode the whole asset in one pass, giving the bytes to write.
    pub fn save(&self, asset: &A) -> (r: Result<Vec<u8>, PostcardAssetError>)
        ensures
            r is Err ==> r->Err_0 is PostcardError,
    {
        match postcard_to_vec::<A>(asset) {
            Ok(bytes) => Ok(bytes),
            Err(e) => Err(PostcardAssetError::from(e)),
        }
    }
}

} // verus!
