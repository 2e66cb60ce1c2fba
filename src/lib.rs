//! Asset loaders for common interchange formats.
//!
//! Each format module offers a plugin, built from the file extensions it
//! answers for, and a loader that turns the whole content of a file into a
//! value of the asset type, or into an error that tells a failed read, text
//! that is not UTF-8, and a value the format library refused apart.
pub mod cbor;
pub mod csv;
pub mod extensions;
pub mod json;
pub mod jsonl;
pub mod msgpack;
pub mod postcard;
pub mod records;
pub mod ron;
pub mod text;
pub mod toml;
pub mod xml;
pub mod yaml;
