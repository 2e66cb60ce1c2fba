use bevy_common_assets::extensions::{copy_extensions, matches_extensions, path_has_extension};
use bevy_common_assets::json::JsonAssetPlugin;
use bevy_common_assets::ron::RonAssetPlugin;

#[test]
fn level_json_matches_only_json_files() {
    let loader = JsonAssetPlugin::<Vec<i32>>::new(&["level.json"]).loader();
    assert!(loader.matches_path("trees.level.json"));
    assert!(!loader.matches_path("trees.level.ron"));
}

#[test]
fn loader_keeps_plugin_extensions_in_order() {
    let loader = RonAssetPlugin::<Vec<i32>>::new(&["b.ron", "a.ron"]).loader();
    assert_eq!(loader.extensions(), &["b.ron", "a.ron"]);
}

#[test]
fn short_extension_matches_compound_name() {
    assert!(path_has_extension("trees.level.json", "json"));
    assert!(path_has_extension("assets/trees.level.json", "level.json"));
}

#[test]
fn extension_needs_a_dot_before_it() {
    assert!(!path_has_extension("treesjson", "json"));
    assert!(!path_has_extension("trees.xjson", "json"));
}

#[test]
fn whole_name_is_not_an_extension() {
    assert!(!path_has_extension("json", "json"));
    assert!(path_has_extension(".json", "json"));
}

#[test]
fn empty_extension_never_matches() {
    assert!(!path_has_extension("trees.", ""));
    assert!(!path_has_extension("", ""));
}

#[test]
fn empty_extension_list_matches_nothing() {
    assert!(!matches_extensions(&[], "trees.level.json"));
    let loader = JsonAssetPlugin::<Vec<i32>>::new(&[]).loader();
    assert!(!loader.matches_path("trees.level.json"));
}

#[test]
fn any_listed_extension_matches() {
    assert!(matches_extensions(&["ron", "level.json"], "trees.level.json"));
    assert!(!matches_extensions(&["ron", "yaml"], "trees.level.json"));
}

#[test]
fn copied_extensions_keep_order_and_duplicates() {
    assert_eq!(copy_extensions(&["a", "b", "a"]), vec!["a", "b", "a"]);
    assert!(copy_extensions(&[]).is_empty());
}
