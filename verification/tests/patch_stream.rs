//! The line-streaming patcher on concrete documents.

use moz_wgpu_update::patcher::{
    patch_lines, patch_toml_lines, update_moz_yaml, PatchMode, Update, WarnKind,
};

fn lines(v: &[&str]) -> Vec<String> {
    v.iter().map(|s| s.to_string()).collect()
}

fn upd(key: &str, semver: &str, revision: &str) -> Update {
    Update { key: key.to_string(), semver: semver.to_string(), revision: revision.to_string() }
}

#[test]
fn toml_single_dependency_revision() {
    let input = lines(&[
        "[dependencies.foo]",
        "git = \"https://example.com/foo\"",
        "rev = \"111111\"",
    ]);
    let updates = vec![upd("https://example.com/foo", "", "222222")];
    let out = patch_toml_lines(&input, &updates, &None);
    assert_eq!(
        out.lines,
        lines(&[
            "[dependencies.foo]",
            "git = \"https://example.com/foo\"",
            "rev = \"222222\"",
        ])
    );
    assert_eq!(out.previous_revs, vec!["111111".to_string()]);
    assert!(out.warnings.is_empty());
}

#[test]
fn yaml_origin_revision() {
    let input = lines(&["origin:", "  url: https://example.com/bar", "  revision: abcdef"]);
    let updates = vec![upd("https://example.com/bar", "", "fedcba")];
    let out = update_moz_yaml(&input, &updates);
    assert_eq!(
        out.lines,
        lines(&["origin:", "  url: https://example.com/bar", "  revision: fedcba"])
    );
    assert_eq!(out.previous_revs, vec!["abcdef".to_string()]);
    assert!(out.warnings.is_empty());
}

#[test]
fn line_count_is_invariant() {
    let input = lines(&[
        "# heading",
        "",
        "[dependencies.foo]",
        "rev = \"1\"",
        "not a field",
        "[other]",
    ]);
    let updates = vec![upd("foo", "9.9", "fff")];
    let out = patch_toml_lines(&input, &updates, &None);
    assert_eq!(out.lines.len(), input.len());
    let out2 = update_moz_yaml(&input, &updates);
    assert_eq!(out2.lines.len(), input.len());
}

#[test]
fn empty_update_list_is_identity() {
    let input = lines(&[
        "schema: 1",
        "origin:",
        "  name: wgpu",
        "  url: https://github.com/gfx-rs/wgpu",
        "  revision: abc   # pinned",
        "  release: commit abc (2024-01-01)",
    ]);
    let out = update_moz_yaml(&input, &Vec::new());
    assert_eq!(out.lines, input);
    assert!(out.previous_revs.is_empty());
    assert!(out.warnings.is_empty());
    let out2 = patch_toml_lines(&input, &Vec::new(), &Some("https://fork".to_string()));
    assert_eq!(out2.lines, input);
}

#[test]
fn single_rewrite_touches_only_the_revision_line() {
    let input = lines(&[
        "# manifest",
        "[package]",
        "name = \"bundle\"",
        "",
        "[dependencies.dep]",
        "git = \"https://example.com/dep\"",
        "rev = \"000000\"",
        "",
        "[profile.release]",
        "opt-level = \"3\"",
    ]);
    let updates = vec![upd("dep", "", "abc123")];
    let out = patch_toml_lines(&input, &updates, &None);
    for (i, line) in out.lines.iter().enumerate() {
        if i == 6 {
            assert_eq!(line, "rev = \"abc123\"");
        } else {
            assert_eq!(line, &input[i]);
        }
    }
}

#[test]
fn trailing_comment_and_its_space_survive() {
    let input = lines(&["[dependencies.dep]", "rev = \"old\"  # pinned"]);
    let updates = vec![upd("dep", "", "abc123")];
    let out = patch_toml_lines(&input, &updates, &None);
    assert_eq!(out.lines[1], "rev = \"abc123\"  # pinned");
}

#[test]
fn value_before_identifier_warns_and_stays() {
    let input = lines(&["thing:", "  revision: aaa", "  url: https://example.com/x"]);
    let updates = vec![upd("https://example.com/x", "", "bbb")];
    let out = update_moz_yaml(&input, &updates);
    assert_eq!(out.lines, input);
    assert_eq!(out.warnings.len(), 1);
    assert_eq!(out.warnings[0].line, 2);
    assert_eq!(out.warnings[0].kind, WarnKind::LateIdentifier);
}

#[test]
fn release_line_is_rewritten_as_commit() {
    let input = lines(&[
        "origin:",
        "  url: https://example.com/bar",
        "  release: commit abcdef (2024-01-01)",
        "  revision: abcdef",
    ]);
    let updates = vec![upd("https://example.com/bar", "", "123456")];
    let out = update_moz_yaml(&input, &updates);
    assert_eq!(out.lines[2], "  release: commit 123456");
    assert_eq!(out.lines[3], "  revision: 123456");
    assert_eq!(out.previous_revs, vec!["abcdef".to_string()]);
}

#[test]
fn second_revision_line_warns_and_passes_through() {
    let input = lines(&[
        "origin:",
        "  url: https://example.com/bar",
        "  revision: one",
        "  revision: two",
    ]);
    let updates = vec![upd("https://example.com/bar", "", "new")];
    let out = update_moz_yaml(&input, &updates);
    assert_eq!(out.lines[2], "  revision: new");
    assert_eq!(out.lines[3], "  revision: two");
    assert_eq!(out.warnings.len(), 1);
    assert_eq!(out.warnings[0].kind, WarnKind::DuplicateField);
    assert_eq!(out.previous_revs, vec!["one".to_string()]);
}

#[test]
fn conflicting_identifier_keeps_first_binding() {
    let input = lines(&[
        "origin:",
        "  url: https://example.com/a",
        "  name: b-name",
        "  revision: zzz",
    ]);
    let updates = vec![upd("https://example.com/a", "", "from-a"), upd("b-name", "", "from-b")];
    let out = update_moz_yaml(&input, &updates);
    assert_eq!(out.lines[3], "  revision: from-a");
    assert_eq!(out.warnings.len(), 1);
    assert_eq!(out.warnings[0].kind, WarnKind::ConflictingIdentifier);
}

#[test]
fn marker_source_line_is_redirected() {
    let input = lines(&[
        "[dependencies.wgpu-core]",
        "git = \"https://github.com/gfx-rs/wgpu\"",
        "rev = \"aaaa\"",
    ]);
    let updates = vec![upd("https://github.com/gfx-rs/wgpu", "", "bbbb")];
    let over = Some("https://example.com/fork".to_string());
    let out = patch_toml_lines(&input, &updates, &over);
    assert_eq!(out.lines[1], "git = \"https://example.com/fork\"");
    assert_eq!(out.lines[2], "rev = \"bbbb\"");
}

#[test]
fn header_suffix_binds_dependency_table() {
    let input = lines(&[
        "[target.'cfg(windows)'.dependencies.dep]",
        "rev = \"old\"",
        "version = \"1.0\"",
    ]);
    let updates = vec![upd("dep", "2.0", "new")];
    let out = patch_toml_lines(&input, &updates, &None);
    assert_eq!(out.lines[1], "rev = \"new\"");
    assert_eq!(out.lines[2], "version = \"2.0\"");
}

#[test]
fn empty_replacement_fields_leave_lines_alone() {
    let input = lines(&["[dependencies.dep]", "rev = \"old\"", "version = \"1.0\""]);
    let updates = vec![upd("dep", "", "")];
    let out = patch_toml_lines(&input, &updates, &None);
    assert_eq!(out.lines, input);
    assert!(out.previous_revs.is_empty());
}

#[test]
fn section_boundary_clears_binding() {
    let input = lines(&[
        "[dependencies.dep]",
        "git = \"https://example.com/dep\"",
        "[dependencies.other]",
        "rev = \"old\"",
    ]);
    let updates = vec![upd("https://example.com/dep", "", "new")];
    let out = patch_toml_lines(&input, &updates, &None);
    assert_eq!(out.lines[3], "rev = \"old\"");
}

#[test]
fn yaml_indent_change_clears_binding() {
    let input = lines(&[
        "origin:",
        "  url: https://example.com/bar",
        "next:",
        "  revision: old",
    ]);
    let updates = vec![upd("https://example.com/bar", "", "new")];
    let out = update_moz_yaml(&input, &updates);
    // The top-level `next:` line resets the section; the revision under it
    // belongs to a section that never identified itself.
    assert_eq!(out.lines[3], "  revision: old");
}

#[test]
fn empty_documents_stay_empty() {
    let out = update_moz_yaml(&Vec::new(), &vec![upd("x", "1", "2")]);
    assert!(out.lines.is_empty());
    assert!(out.previous_revs.is_empty());
    assert!(out.warnings.is_empty());
}

#[test]
fn yaml_version_field_takes_the_semver() {
    let input = lines(&["origin:", "  name: wgpu", "  version: 1.0", "  revision: aa"]);
    let updates = vec![upd("wgpu", "2.0", "bb")];
    let out = update_moz_yaml(&input, &updates);
    assert_eq!(out.lines[2], "  version: 2.0");
    assert_eq!(out.lines[3], "  revision: bb");
}

#[test]
fn toml_accepts_the_long_revision_key() {
    let input = lines(&["[dependencies.dep]", "revision = \"aa\""]);
    let updates = vec![upd("dep", "", "bb")];
    let out = patch_toml_lines(&input, &updates, &None);
    assert_eq!(out.lines[1], "revision = \"bb\"");
    assert_eq!(out.previous_revs, vec!["aa".to_string()]);
}

#[test]
fn unparseable_lines_pass_through_either_mode() {
    let input = lines(&["just words", "", "=== separator ===", "a = not quoted"]);
    let updates = vec![upd("x", "1", "2")];
    let toml_out = patch_lines(PatchMode::Toml, &input, &updates, &None);
    assert_eq!(toml_out.lines, input);
    let yaml_out = patch_lines(PatchMode::Yaml, &input, &updates, &None);
    assert_eq!(yaml_out.lines, input);
}
