//! The whole-table backend on concrete manifests.

use moz_wgpu_update::cargo_toml::{update_cargo_toml, CargoTomlError};
use moz_wgpu_update::patcher::Update;

fn upd(key: &str, semver: &str, revision: &str) -> Update {
    Update { key: key.to_string(), semver: semver.to_string(), revision: revision.to_string() }
}

#[test]
fn tree_noop_is_byte_identical() {
    let input = "# top comment\n\
        [package]\n\
        name = \"bundle\"   # keep me\n\
        \n\
        [dependencies]\n\
        foo = \"1.0\"\n\
        \n\
        [dependencies.bar]\n\
        git = \"https://example.com/bar\"\n\
        rev = \"aaa\"\n";
    let out = update_cargo_toml(input, &Vec::new(), "https://example.com/fork").unwrap();
    assert_eq!(out.text, input);
    assert!(out.previous_revs.is_empty());
}

#[test]
fn tree_rewrites_a_full_table_entry() {
    let input = "[dependencies.wgpu-core]\n\
        git = \"https://github.com/gfx-rs/wgpu\"\n\
        rev = \"oldrev\"\n\
        version = \"1.0\"\n\
        features = [\"metal\"]\n";
    let updates = vec![upd("wgpu-core", "", "newrev")];
    let out = update_cargo_toml(input, &updates, "https://example.com/fork").unwrap();
    assert!(out.text.contains("rev = \"newrev\""));
    assert!(out.text.contains("git = \"https://example.com/fork\""));
    assert!(!out.text.contains("version = \"1.0\""));
    assert!(out.text.contains("features = [\"metal\"]"));
    assert_eq!(out.previous_revs, vec!["oldrev".to_string()]);
}

#[test]
fn tree_rewrites_a_version_string_entry() {
    let input = "[dependencies]\nfoo = \"1.0\"\nkeep = \"2.0\"\n";
    let updates = vec![upd("foo", "", "cafe")];
    let out = update_cargo_toml(input, &updates, "https://example.com/foo").unwrap();
    assert!(out.text.contains("git = \"https://example.com/foo\""));
    assert!(out.text.contains("rev = \"cafe\""));
    assert!(!out.text.contains("foo = \"1.0\""));
    assert!(out.text.contains("keep = \"2.0\""));
    assert!(out.previous_revs.is_empty());
}

#[test]
fn tree_rewrites_an_inline_table_entry() {
    let input = "[dependencies]\nfoo = { version = \"1.0\", features = [\"x\"] }\n";
    let updates = vec![upd("foo", "", "beef")];
    let out = update_cargo_toml(input, &updates, "https://example.com/foo").unwrap();
    assert!(out.text.contains("rev = \"beef\""));
    assert!(!out.text.contains("version = \"1.0\""));
    assert!(out.text.contains("features = [\"x\"]"));
}

#[test]
fn tree_honours_package_renames() {
    let input = "[dependencies.alias]\npackage = \"wgpu-core\"\nrev = \"aa\"\n\
        git = \"https://github.com/gfx-rs/wgpu\"\n";
    let updates = vec![upd("wgpu-core", "", "bb")];
    let out = update_cargo_toml(input, &updates, "https://example.com/f").unwrap();
    assert!(out.text.contains("rev = \"bb\""));
    assert_eq!(out.previous_revs, vec!["aa".to_string()]);
}

#[test]
fn tree_walks_target_cfg_dependencies() {
    let input = "[target.'cfg(windows)'.dependencies.d3d-thing]\n\
        git = \"https://example.com/d3d\"\n\
        rev = \"v1\"\n\
        \n\
        [dependencies.other]\n\
        rev = \"keep\"\n\
        git = \"https://example.com/other\"\n";
    let updates = vec![upd("d3d-thing", "", "v2")];
    let out = update_cargo_toml(input, &updates, "https://example.com/fork").unwrap();
    assert!(out.text.contains("rev = \"v2\""));
    assert!(out.text.contains("rev = \"keep\""));
    assert_eq!(out.previous_revs, vec!["v1".to_string()]);
}

#[test]
fn tree_rejects_text_that_is_not_a_manifest() {
    let r = update_cargo_toml("not [ valid toml", &Vec::new(), "x");
    assert_eq!(r.err(), Some(CargoTomlError::Parse));
}

#[test]
fn tree_empty_revision_leaves_the_pinned_one() {
    let input = "[dependencies.dep]\ngit = \"https://example.com/old\"\nrev = \"keepme\"\n\
        version = \"1.0\"\n";
    let updates = vec![upd("dep", "", "")];
    let out = update_cargo_toml(input, &updates, "https://example.com/fork").unwrap();
    assert!(out.text.contains("rev = \"keepme\""));
    assert!(out.text.contains("git = \"https://example.com/fork\""));
    assert!(!out.text.contains("version = \"1.0\""));
    assert_eq!(out.previous_revs, vec!["keepme".to_string()]);
}

#[test]
fn tree_fails_loudly_on_a_matched_entry_of_odd_shape() {
    let input = "[dependencies]\nfoo = [1, 2]\nbar = \"1.0\"\n";
    let updates = vec![upd("foo", "", "abc")];
    let r = update_cargo_toml(input, &updates, "https://example.com/foo");
    assert_eq!(r.err(), Some(CargoTomlError::UnexpectedShape));
    // An unmatched entry of the same shape is no obstacle.
    let other = vec![upd("bar", "", "abc")];
    assert!(update_cargo_toml(input, &other, "https://example.com/bar").is_ok());
}

#[test]
fn tree_fails_loudly_when_dependencies_is_not_a_table() {
    let input = "dependencies = 3\n";
    let updates = vec![upd("foo", "", "abc")];
    let r = update_cargo_toml(input, &updates, "x");
    assert_eq!(r.err(), Some(CargoTomlError::UnexpectedShape));
    // With nothing requested the document is not walked at all.
    assert!(update_cargo_toml(input, &Vec::new(), "x").is_ok());
}

#[test]
fn tree_untouched_sections_keep_their_bytes() {
    let input = "[package]\nname = \"bundle\"  # decor\n\n[dependencies.dep]\nrev = \"r1\"\n";
    let updates = vec![upd("dep", "", "r2")];
    let out = update_cargo_toml(input, &updates, "https://example.com/dep").unwrap();
    assert!(out.text.starts_with("[package]\nname = \"bundle\"  # decor\n"));
}
