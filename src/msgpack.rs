//! Assets stored as MessagePack.
use crate::extensions::{copy_extensions, matches_any, matches_extensions};
use std::marker::PhantomData;
use vstd::prelude::*;
use vstd::string::StringSliceAdditionalSpecFns;

verus! {

#[verifier::external_type_specification]
#[verifier::external_body]
pub struct ExMsgPackError(rmp_serde::decode::Error);

/// Plugin to load your asset type `A` from MessagePack files.
pub struct MsgPackAssetPlugin<A> {
    extensions: Vec<&'static str>,
    _marker: PhantomData<A>,
}

impl<A> MsgPackAssetPlugin<A> {
    /// The extensions this plugin registers its loader for, in order.
    pub closed spec fn spec_extensions(&self) -> Seq<&'static str> {
        self.extensions@
    }

    /// Create a new plugin that will load assets from files with the given extensions.
    pub fn new(extensions: &[&'static str]) -> (r: Self)
        ensures
            r.spec_extensions() == extensions@,
    {
        Self { extensions: copy_extensions(extensions), _marker: PhantomData }
    }

    /// The loader this plugin registers, which handles the same extensions.
    pub fn loader(&self) -> (r: MsgPackAssetLoader<A>)
        ensures
            r.spec_extensions() == self.spec_extensions(),
    {
        MsgPackAssetLoader { extensions: copy_extensions(self.extensions.as_slice()), _marker: PhantomData }
    }
}

/// Loads your asset type `A` from MessagePack files.
pub struct MsgPackAssetLoader<A> {
    extensions: Vec<&'static str>,
    _marker: PhantomData<A>,
}

/// Possible errors that can be produced by [`MsgPackAssetLoader`].
#[non_exhaustive]
#[derive(Debug)]
pub enum MsgPackLoaderError {
    /// The source could not be read.
    Io(std::io::Error),
    /// The bytes are not a MessagePack value of the asset type.
    MsgPackError(rmp_serde::decode::Error),
}

impl From<std::io::Error> for MsgPackLoaderError {
    fn from(e: std::io::Error) -> Self {
        MsgPackLoaderError::Io(e)
    }
}

impl vstd::std_specs::convert::FromSpecImpl<std::io::Error> for MsgPackLoaderError {
    open spec fn obeys_from_spec() -> bool {
        true
    }

    open spec fn from_spec(e: std::io::Error) -> Self {
        MsgPackLoaderError::Io(e)
    }
}

impl From<rmp_serde::decode::Error> for MsgPackLoaderError {
    fn from(e: rmp_serde::decode::Error) -> Self {
        MsgPackLoaderError::MsgPackError(e)
    }
}

impl vstd::std_specs::convert::FromSpecImpl<rmp_serde::decode::Error> for MsgPackLoaderError {
    open spec fn obeys_from_spec() -> bool {
        true
    }

    open spec fn from_spec(e: rmp_serde::decode::Error) -> Self {
        MsgPackLoaderError::MsgPackError(e)
    }
}

/// Relies on rmp_serde::from_slice: decodes one MessagePack value into `A`.
#[verifier::external_body]
fn msgpack_from_slice<A: serde::de::DeserializeOwned>(bytes: &[u8]) -> (r: Result<A, rmp_serde::decode::Error>) {
    rmp_serde::from_slice::<A>(bytes)
}

impl<A> MsgPackAssetLoader<A> {
    /// The extensions this loader handles, in order.
    pub closed spec fn spec_extensions(&self) -> Seq<&'static str> {
        self.extensions@
    }

    /// The extensions this loader handles.
    pub fn extensions(&self) -> (r: &[&'static str])
        ensures
            r@ == self.spec_extensions(),
    {
        self.extensions.as_slice()
    }

    /// Whether a file at `path` is routed to this loader.
    pub fn matches_path(&self, path: &str) -> (r: bool)
        ensures
            r == matches_any(self.spec_extensions(), path.spec_bytes()),
    {
        matches_extensions(self.extensions.as_slice(), path)
    }
}

impl<A: serde::de::DeserializeOwned> MsgPackAssetLoader<A> {
    /// Decode the whole content of a file.
    pub fn load(&self, bytes: &[u8]) -> (r: Result<A, MsgPackLoaderError>)
        ensures
            r is Err ==> r->Err_0 is MsgPackError,
    {
        match msgpack_from_slice::<A>(bytes) {
            Ok(asset) => Ok(asset),
            Err(e) => Err(MsgPackLoaderError::from(e)),
        }
    }
}

} // verus!
