//! Assets stored as XML.
use crate::extensions::{copy_extensions, matches_any, matches_extensions};
use crate::text::utf8_text;
use std::marker::PhantomData;
use vstd::prelude::*;
use vstd::string::StringSliceAdditionalSpecFns;
use vstd::utf8::valid_utf8;

verus! {

#[verifier::external_type_specification]
#[verifier::external_body]
pub struct ExXmlError(quick_xml::DeError);

/// Plugin to load your asset type `A` from XML files.
pub struct XmlAssetPlugin<A> {
    extensions: Vec<&'static str>,
    _marker: PhantomData<A>,
}

impl<A> XmlAssetPlugin<A> {
    /// The extensions this plugin registers its loader for, in order.
    pub closed spec fn spec_extensions(&self) -> Seq<&'static str> {
        self.extensions@
    }

    /// Create a new plugin that will load assets from files with the given extensions.
    pub fn new(extensions: &[&'static str]) -> (r: Self)
        ensures
            r.spec_extensions() == extensions@,
    {
        Self { extensions: copy_extensions(extensions), _marker: PhantomData }
    }

    /// The loader this plugin registers, which handles the same extensions.
    pub fn loader(&self) -> (r: XmlAssetLoader<A>)
        ensures
            r.spec_extensions() == self.spec_extensions(),
    {
        XmlAssetLoader { extensions: copy_extensions(self.extensions.as_slice()), _marker: PhantomData }
    }
}

/// Loads your asset type `A` from XML files.
pub struct XmlAssetLoader<A> {
    extensions: Vec<&'static str>,
    _marker: PhantomData<A>,
}

/// Possible errors that can be produced by [`XmlAssetLoader`].
#[non_exhaustive]
#[derive(Debug)]
pub enum XmlLoaderError {
    /// The source could not be read.
    Io(std::io::Error),
    /// The bytes are not UTF-8 text.
    FormatError(std::str::Utf8Error),
    /// The text is not an XML document of the asset type.
    XmlError(quick_xml::DeError),
}

impl From<std::io::Error> for XmlLoaderError {
    fn from(e: std::io::Error) -> Self {
        XmlLoaderError::Io(e)
    }
}

impl vstd::std_specs::convert::FromSpecImpl<std::io::Error> for XmlLoaderError {
    open spec fn obeys_from_spec() -> bool {
        true
    }

    open spec fn from_spec(e: std::io::Error) -> Self {
        XmlLoaderError::Io(e)
    }
}

impl From<std::str::Utf8Error> for XmlLoaderError {
    fn from(e: std::str::Utf8Error) -> Self {
        XmlLoaderError::FormatError(e)
    }
}

impl vstd::std_specs::convert::FromSpecImpl<std::str::Utf8Error> for XmlLoaderError {
    open spec fn obeys_from_spec() -> bool {
        true
    }

    open spec fn from_spec(e: std::str::Utf8Error) -> Self {
        XmlLoaderError::FormatError(e)
    }
}

impl From<quick_xml::DeError> for XmlLoaderError {
    fn from(e: quick_xml::DeError) -> Self {
        XmlLoaderError::XmlError(e)
    }
}

impl vstd::std_specs::convert::FromSpecImpl<quick_xml::DeError> for XmlLoaderError {
    open spec fn obeys_from_spec() -> bool {
        true
    }

    open spec fn from_spec(e: quick_xml::DeError) -> Self {
        XmlLoaderError::XmlError(e)
    }
}

/// Relies on quick_xml::de::from_str: decodes one XML document into `A`.
#[verifier::external_body]
fn xml_from_str<A: serde::de::DeserializeOwned>(text: &str) -> (r: Result<A, quick_xml::DeError>) {
    quick_xml::de::from_str::<A>(text)
}

impl<A> XmlAssetLoader<A> {
    /// The extensions this loader handles, in order.
    pub closed spec fn spec_extensions(&self) -> Seq<&'static str> {
        self.extensions@
    }

    /// The extensions this loader handles.
    pub fn extensions(&self) -> (r: &[&'static str])
        ensures
            r@ == self.spec_extensions(),
    {
        self.extensions.as_slice()
    }

    /// Whether a file at `path` is routed to this loader.
    pub fn matches_path(&self, path: &str) -> (r: bool)
        ensures
            r == matches_any(self.spec_extensions(), path.spec_bytes()),
    {
        matches_extensions(self.extensions.as_slice(), path)
    }
}

impl<A: serde::de::DeserializeOwned> XmlAssetLoader<A> {
    /// Decode the whole content of a file. Bytes that are not UTF-8 are
    /// refused before any XML parsing is tried.
    pub fn load(&self, bytes: &[u8]) -> (r: Result<A, XmlLoaderError>)
        ensures
            !valid_utf8(bytes@) <==> (r is Err && r->Err_0 is FormatError),
            r is Err ==> (r->Err_0 is FormatError || r->Err_0 is XmlError),
    {
        match utf8_text(bytes) {
            Err(e) => Err(XmlLoaderError::from(e)),
            Ok(text) => match xml_from_str::<A>(text) {
                Ok(asset) => Ok(asset),
                Err(e) => Err(XmlLoaderError::from(e)),
            },
        }
    }
}

} // verus!
