//! Assets stored as YAML.
use crate::extensions::{copy_extensions, matches_any, matches_extensions};
use std::marker::PhantomData;
use vstd::prelude::*;
use vstd::string::StringSliceAdditionalSpecFns;

verus! {

#[verifier::external_type_specification]
#[verifier::external_body]
pub struct ExYamlError(serde_yaml::Error);

/// Plugin to load your asset type `A` from YAML files.
pub struct YamlAssetPlugin<A> {
    extensions: Vec<&'static str>,
    _marker: PhantomData<A>,
}

impl<A> YamlAssetPlugin<A> {
    /// The extensions this plugin registers its loader for, in order.
    pub closed spec fn spec_extensions(&self) -> Seq<&'static str> {
        self.extensions@
    }

    /// Create a new plugin that will load assets from files with the given extensions.
    pub fn new(extensions: &[&'static str]) -> (r: Self)
        ensures
            r.spec_extensions() == extensions@,
    {
        Self { extensions: copy_extensions(extensions), _marker: PhantomData }
    }

    /// The loader this plugin registers, which handles the same extensions.
    pub fn loader(&self) -> (r: YamlAssetLoader<A>)
        ensures
            r.spec_extensions() == self.spec_extensions(),
    {
        YamlAssetLoader { extensions: copy_extensions(self.extensions.as_slice()), _marker: PhantomData }
    }
}

/// Loads your asset type `A` from YAML files.
pub struct YamlAssetLoader<A> {
    extensions: Vec<&'static str>,
    _marker: PhantomData<A>,
}

/// Possible errors that can be produced by [`YamlAssetLoader`].
#[non_exhaustive]
#[derive(Debug)]
pub enum YamlLoaderError {
    /// The source could not be read.
    Io(std::io::Error),
    /// The bytes are not a YAML document of the asset type.
    YamlError(serde_yaml::Error),
}

impl From<std::io::Error> for YamlLoaderError {
    fn from(e: std::io::Error) -> Self {
        YamlLoaderError::Io(e)
    }
}

impl vstd::std_specs::convert::FromSpecImpl<std::io::Error> for YamlLoaderError {
    open spec fn obeys_from_spec() -> bool {
        true
    }

    open spec fn from_spec(e: std::io::Error) -> Self {
        YamlLoaderError::Io(e)
    }
}

impl From<serde_yaml::Error> for YamlLoaderError {
    fn from(e: serde_yaml::Error) -> Self {
        YamlLoaderError::YamlError(e)
    }
}

impl vstd::std_specs::convert::FromSpecImpl<serde_yaml::Error> for YamlLoaderError {
    open spec fn obeys_from_spec() -> bool {
        true
    }

    open spec fn from_spec(e: serde_yaml::Error) -> Self {
        YamlLoaderError::YamlError(e)
    }
}

/// Relies on serde_yaml::from_slice: decodes one YAML document into `A`.
#[verifier::external_body]
fn yaml_from_slice<A: serde::de::DeserializeOwned>(bytes: &[u8]) -> (r: Result<A, serde_yaml::Error>) {
    serde_yaml::from_slice::<A>(bytes)
}

impl<A> YamlAssetLoader<A> {
    /// The extensions this loader handles, in order.
    pub closed spec fn spec_extensions(&self) -> Seq<&'static str> {
        self.extensions@
    }

    /// The extensions this loader handles.
    pub fn extensions(&self) -> (r: &[&'static str])
        ensures
            r@ == self.spec_extensions(),
    {
        self.extensions.as_slice()
    }

    /// Whether a file at `path` is routed to this loader.
    pub fn matches_path(&self, path: &str) -> (r: bool)
        ensures
            r == matches_any(self.spec_extensions(), path.spec_bytes()),
    {
        matches_extensions(self.extensions.as_slice(), path)
    }
}

impl<A: serde::de::DeserializeOwned> YamlAssetLoader<A> {
    /// Decode the whole content of a file.
    pub fn load(&self, bytes: &[u8]) -> (r: Result<A, YamlLoaderError>)
        ensures
            r is Err ==> r->Err_0 is YamlError,
    {
        match yaml_from_slice::<A>(bytes) {
            Ok(asset) => Ok(asset),
            Err(e) => Err(YamlLoaderError::from(e)),
        }
    }
}

} // verus!
