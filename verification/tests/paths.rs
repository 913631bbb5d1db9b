use ynsrvcs::paths::{
    config_path, is_plugin_extension, is_plugin_file, name_from_stem, plugin_name, FilePath,
};
use ynsrvcs::wasm::kv::{composite_key, kv_path};
use ynsrvcs::wasm::loader::{plugin_dir, workspace_path};

#[test]
fn a_plugin_is_named_after_its_file() {
    assert_eq!(plugin_name("plugins/ping.wasm"), "ping");
    assert_eq!(plugin_name("ping.wasm"), "ping");
    assert_eq!(plugin_name("/a/b/ping.v2.wasm"), "ping.v2");
    assert_eq!(plugin_name("plugins/ping"), "ping");
    assert_eq!(plugin_name("plugins/.wasm"), ".wasm");
    assert_eq!(plugin_name("plugins/a:b.wasm"), "a:b");
    assert_eq!(plugin_name(":x.wasm"), ":x");
    assert_eq!(plugin_name("plugins/ping.wasm/"), "ping");
    assert_eq!(plugin_name("plugins/ping.wasm/."), "ping");
    assert_eq!(plugin_name("plugins//ping.wasm/.//"), "ping");
    assert!(is_plugin_file("plugins/ping.wasm/"));
    assert!(is_plugin_file("plugins/ping.wasm/./"));
    assert!(!is_plugin_file("plugins/ping.json/"));
}

#[test]
fn a_path_without_a_file_name_gives_no_name() {
    assert_eq!(plugin_name("plugins/.."), "unknown");
    assert_eq!(plugin_name(""), "unknown");
    assert_eq!(plugin_name("/"), "unknown");
    assert_eq!(plugin_name("/./"), "unknown");
    assert_eq!(plugin_name("plugins/../"), "unknown");
    assert!(!is_plugin_file(""));
    assert!(!is_plugin_file("/"));
    assert!(!is_plugin_file("plugins/.."));
    assert_eq!(name_from_stem(None), "unknown");
    assert_eq!(name_from_stem(Some("x".to_string())), "x");
}

#[test]
fn plugins_have_one_extension() {
    assert!(is_plugin_file("plugins/ping.wasm"));
    assert!(is_plugin_file("a.b.wasm"));
    assert!(!is_plugin_file("plugins/ping.json"));
    assert!(!is_plugin_file("plugins/ping.WASM"));
    assert!(!is_plugin_file("plugins/ping"));
    assert!(!is_plugin_file("plugins/.wasm"));
    assert!(!is_plugin_file("ping.wasm."));
    assert!(is_plugin_extension(Some("wasm".to_string())));
    assert!(!is_plugin_extension(Some("wat".to_string())));
    assert!(!is_plugin_extension(None));
}

#[test]
fn settings_are_kept_beside_the_plugin() {
    assert_eq!(config_path("plugins/ping.wasm"), "plugins/ping.json");
    assert_eq!(config_path("a.b.wasm"), "a.b.json");
    assert_eq!(config_path("/p/ping"), "/p/ping.json");
    assert_eq!(config_path("p/.wasm"), "p/.wasm.json");
}

#[test]
fn paths_are_joined_part_by_part() {
    let base = FilePath::new("a".to_string());
    assert_eq!(base.parts, vec!["a"]);
    assert_eq!(base.join("b").join("c").parts, vec!["a", "b", "c"]);
    assert_eq!(base.copy().parts, base.parts);
}

#[test]
fn the_plugin_directory_has_a_default() {
    assert_eq!(plugin_dir(None).parts, vec!["./plugins"]);
    assert_eq!(plugin_dir(Some("/p".to_string())).parts, vec!["/p"]);
    assert_eq!(plugin_dir(Some(String::new())).parts, vec![""]);
}

#[test]
fn every_plugin_has_its_own_workspace() {
    let dir = plugin_dir(None);
    assert_eq!(workspace_path(&dir, "ping").parts, vec!["./plugins", "ping", "workspace"]);
}

#[test]
fn the_store_lies_in_the_data_directory() {
    assert_eq!(kv_path(None).parts, vec!["./data", "plugin-kv"]);
    assert_eq!(kv_path(Some("/d".to_string())).parts, vec!["/d", "plugin-kv"]);
}

#[test]
fn keys_are_kept_apart_by_a_zero_byte() {
    assert_eq!(composite_key("a", "b"), vec![97, 0, 98]);
    assert_eq!(composite_key("", ""), vec![0]);
    assert_eq!(composite_key("é", "x"), vec![0xc3, 0xa9, 0, 120]);
    assert_ne!(composite_key("a", "bc"), composite_key("ab", "c"));
    assert_eq!(composite_key("a\0b", "c"), composite_key("a", "b\0c"));
}
