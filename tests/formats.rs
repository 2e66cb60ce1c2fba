use bevy_common_assets::cbor::{CborAssetError, CborAssetPlugin, CborAssetSaver};
use bevy_common_assets::json::{JsonAssetPlugin, JsonLoaderError};
use bevy_common_assets::msgpack::{MsgPackAssetPlugin, MsgPackLoaderError};
use bevy_common_assets::postcard::{PostcardAssetError, PostcardAssetPlugin, PostcardAssetSaver};
use bevy_common_assets::ron::{RonAssetPlugin, RonLoaderError};
use bevy_common_assets::toml::{TomlAssetPlugin, TomlLoaderError};
use bevy_common_assets::xml::{XmlAssetPlugin, XmlLoaderError};
use bevy_common_assets::yaml::{YamlAssetPlugin, YamlLoaderError};
use std::collections::BTreeMap;

type Level = BTreeMap<String, Vec<[f32; 3]>>;
type Record = (u32, String, Vec<i64>);

fn record() -> Record {
    (7, "tree".to_string(), vec![-1, 0, 1 << 40])
}

#[test]
fn json_level_positions() {
    let loader = JsonAssetPlugin::<Level>::new(&["level.json"]).loader();
    let level = loader.load(br#"{"positions":[[1.0,2.0,3.0]]}"#).unwrap();
    assert_eq!(level.len(), 1);
    assert_eq!(level["positions"], vec![[1.0, 2.0, 3.0]]);
}

#[test]
fn json_malformed_is_json_error() {
    let loader = JsonAssetPlugin::<Level>::new(&["json"]).loader();
    assert!(matches!(loader.load(b"{\"positions\":"), Err(JsonLoaderError::JsonError(_))));
}

#[test]
fn ron_value_decodes() {
    let loader = RonAssetPlugin::<Record>::new(&["ron"]).loader();
    assert_eq!(loader.load(b"(7, \"tree\", [-1, 0, 1099511627776])").unwrap(), record());
    assert!(matches!(loader.load(b"(7,"), Err(RonLoaderError::RonError(_))));
}

#[test]
fn yaml_value_decodes() {
    let loader = YamlAssetPlugin::<Level>::new(&["yaml"]).loader();
    let level = loader.load(b"positions:\n  - [1.0, 2.0, 3.0]\n").unwrap();
    assert_eq!(level["positions"], vec![[1.0, 2.0, 3.0]]);
    assert!(matches!(loader.load(b"positions: [1.0"), Err(YamlLoaderError::YamlError(_))));
}

#[test]
fn toml_value_decodes() {
    let loader = TomlAssetPlugin::<Level>::new(&["toml"]).loader();
    let level = loader.load(b"positions = [[1.0, 2.0, 3.0]]\n").unwrap();
    assert_eq!(level["positions"], vec![[1.0, 2.0, 3.0]]);
}

#[test]
fn toml_non_utf8_is_format_error() {
    let loader = TomlAssetPlugin::<Level>::new(&["toml"]).loader();
    assert!(matches!(loader.load(b"positions = \xff\xfe"), Err(TomlLoaderError::FormatError(_))));
}

#[test]
fn toml_malformed_text_is_toml_error() {
    let loader = TomlAssetPlugin::<Level>::new(&["toml"]).loader();
    assert!(matches!(loader.load(b"positions = [[1.0"), Err(TomlLoaderError::TomlError(_))));
}

#[test]
fn xml_value_decodes() {
    let loader = XmlAssetPlugin::<BTreeMap<String, String>>::new(&["xml"]).loader();
    let map = loader.load(b"<level><name>forest</name></level>").unwrap();
    assert_eq!(map["name"], "forest");
}

#[test]
fn xml_non_utf8_is_format_error() {
    let loader = XmlAssetPlugin::<BTreeMap<String, String>>::new(&["xml"]).loader();
    assert!(matches!(loader.load(b"<level>\xff</level>"), Err(XmlLoaderError::FormatError(_))));
    assert!(matches!(loader.load(b"<level><name>"), Err(XmlLoaderError::XmlError(_))));
}

#[test]
fn msgpack_value_decodes() {
    let bytes = rmp_serde::to_vec(&record()).unwrap();
    let loader = MsgPackAssetPlugin::<Record>::new(&["msgpack"]).loader();
    assert_eq!(loader.load(&bytes).unwrap(), record());
    assert!(matches!(loader.load(&bytes[..2]), Err(MsgPackLoaderError::MsgPackError(_))));
}

#[test]
fn cbor_round_trip() {
    let saver = CborAssetSaver::<Record>::default();
    let bytes = saver.save(&record()).unwrap();
    let loader = CborAssetPlugin::<Record>::new(&["cbor"]).loader();
    assert_eq!(loader.load(&bytes).unwrap(), record());
}

#[test]
fn cbor_truncated_is_decode_error() {
    let bytes = CborAssetSaver::<Record>::default().save(&record()).unwrap();
    let loader = CborAssetPlugin::<Record>::new(&["cbor"]).loader();
    assert!(matches!(loader.load(&bytes[..bytes.len() - 1]), Err(CborAssetError::CborDeError(_))));
}

#[test]
fn postcard_round_trip() {
    let saver = PostcardAssetSaver::<Record>::default();
    let bytes = saver.save(&record()).unwrap();
    let loader = PostcardAssetPlugin::<Record>::new(&["postcard"]).loader();
    assert_eq!(loader.load(&bytes).unwrap(), record());
    assert!(matches!(loader.load(&bytes[..1]), Err(PostcardAssetError::PostcardError(_))));
}

#[test]
fn cbor_encoding_is_known_bytes() {
    let bytes = CborAssetSaver::<u8>::default().save(&24).unwrap();
    assert_eq!(bytes, vec![0x18, 24]);
}

#[test]
fn postcard_encoding_is_known_bytes() {
    let bytes = PostcardAssetSaver::<u32>::default().save(&300).unwrap();
    assert_eq!(bytes, vec![0xac, 0x02]);
}

#[test]
fn utf8_error_converts_to_format_kind() {
    let bad: &[u8] = b"\xff";
    let cause = std::str::from_utf8(bad).unwrap_err();
    assert!(matches!(TomlLoaderError::from(cause), TomlLoaderError::FormatError(_)));
    assert!(matches!(XmlLoaderError::from(cause), XmlLoaderError::FormatError(_)));
}

#[test]
fn io_errors_convert_to_io_kind() {
    let io = || std::io::Error::other("gone");
    assert!(matches!(JsonLoaderError::from(io()), JsonLoaderError::Io(_)));
    assert!(matches!(CborAssetError::from(io()), CborAssetError::Io(_)));
    assert!(matches!(PostcardAssetError::from(io()), PostcardAssetError::Io(_)));
    assert!(matches!(RonLoaderError::from(io()), RonLoaderError::Io(_)));
    assert!(matches!(YamlLoaderError::from(io()), YamlLoaderError::Io(_)));
    assert!(matches!(MsgPackLoaderError::from(io()), MsgPackLoaderError::Io(_)));
}

#[test]
fn library_errors_convert_to_parse_kind() {
    let cause = serde_json::from_slice::<i32>(b"x").unwrap_err();
    assert!(matches!(JsonLoaderError::from(cause), JsonLoaderError::JsonError(_)));
}
