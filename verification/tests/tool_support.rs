//! Versions, lock-file scanning, delta parsing and the small helpers.

use moz_wgpu_update::audit::{
    approved_reviewers, comma_separated_string, commit_record, csv_row, merger_query,
    rev_list_command, token_source, vetted_by, ReviewInfo, TokenAction,
};
use moz_wgpu_update::cargo_lock::find_version;
use moz_wgpu_update::cli::{concat_path, config_search_paths, self_update_commands};
use moz_wgpu_update::config::{default_branch, default_remote, Vcs};
use moz_wgpu_update::delta::{find_deltas, parse_crate_and_version, Delta};
use moz_wgpu_update::helpers::{file_bug_url, push_to_try, BugzillaArgs};
use moz_wgpu_update::line_parse::{parse_line, parse_toml_line, split_indentation};
use moz_wgpu_update::version::Version;

fn lines(v: &[&str]) -> Vec<String> {
    v.iter().map(|s| s.to_string()).collect()
}

fn gecko_config(path: &str, vcs: &str) -> moz_wgpu_update::config::Config {
    let project = moz_wgpu_update::config::GithubProject {
        path: "/home/u/wgpu".to_string(),
        main_branch: default_branch(),
        upstream_remote: default_remote(),
        trusted_reviewers: vec!["alice".to_string(), "carol".to_string()],
        latest_commit: None,
        repository: None,
    };
    moz_wgpu_update::config::Config {
        gecko: moz_wgpu_update::config::Gecko {
            path: path.to_string(),
            vcs: Some(vcs.to_string()),
        },
        wgpu: project.clone(),
        naga: project,
        github_api_token: None,
    }
}

#[test]
fn version_label_with_and_without_hash() {
    let v = Version { semver: "0.19.0".to_string(), git_hash: "abc".to_string() };
    assert_eq!(v.to_string(), "0.19.0@git:abc");
    assert_eq!(v.display_cargo_vet(), "0.19.0@git:abc");
    let plain = Version { semver: "0.19.0".to_string(), git_hash: String::new() };
    assert_eq!(plain.to_string(), "0.19.0");
}

#[test]
fn lock_scan_reads_git_sources() {
    let lock = lines(&[
        "[[package]]",
        "name = \"alpha\"",
        "version = \"1.0.0\"",
        "",
        "[[package]]",
        "name = \"wgpu-core\"",
        "version = \"0.19.0\"",
        "source = \"git+https://github.com/gfx-rs/wgpu?rev=abc#deadbeef\"",
        "",
        "[[package]]",
        "name = \"zeta\"",
        "version = \"2.0.0\"",
    ]);
    let v = find_version("wgpu-core", &lock).unwrap();
    assert_eq!(v.semver, "0.19.0");
    assert_eq!(v.git_hash, "deadbeef");
}

#[test]
fn lock_scan_reads_registry_sources_as_empty_hash() {
    let lock = lines(&[
        "[[package]]",
        "name = \"ash\"",
        "version = \"0.37.0\"",
        "source = \"registry+https://github.com/rust-lang/crates.io-index\"",
    ]);
    let v = find_version("ash", &lock).unwrap();
    assert_eq!(v.semver, "0.37.0");
    assert_eq!(v.git_hash, "");
}

#[test]
fn lock_scan_misses_absent_packages() {
    let lock = lines(&["[[package]]", "name = \"alpha\"", "version = \"1.0.0\""]);
    assert!(find_version("missing", &lock).is_none());
}

#[test]
fn report_line_parses_name_semver_and_hash() {
    let r = parse_crate_and_version(
        "wgpu-core:0.20.0@git:123abc missing [\"safe-to-deploy\"]",
    );
    let (name, v) = r.unwrap();
    assert_eq!(name, "wgpu-core");
    assert_eq!(v.semver, "0.20.0");
    assert_eq!(v.git_hash, "123abc");
}

#[test]
fn report_line_without_hash_or_semver() {
    let (name, v) = parse_crate_and_version("ash:0.37.2 more words").unwrap();
    assert_eq!((name.as_str(), v.semver.as_str(), v.git_hash.as_str()), ("ash", "0.37.2", ""));
    let (name2, v2) = parse_crate_and_version("bare").unwrap();
    assert_eq!((name2.as_str(), v2.semver.as_str()), ("bare", ""));
    assert!(parse_crate_and_version("   ").is_none());
}

#[test]
fn deltas_pick_up_report_versions_and_backfill() {
    let mut deltas = vec![Delta::new("wgpu-core"), Delta::new("naga")];
    deltas[0].prev = Version { semver: "0.19.0".to_string(), git_hash: "old".to_string() };
    deltas[1].prev = Version { semver: "0.14.0".to_string(), git_hash: "nold".to_string() };
    let report = lines(&[
        "wgpu-core:0.20.0@git:123abc missing [\"safe-to-deploy\"]",
        "unrelated:9.9.9@git:fff missing [\"safe-to-deploy\"]",
        "naga:0.15.0@git:456def but this line lacks the marker",
    ]);
    find_deltas(&mut deltas, &report);
    assert_eq!(deltas[0].next.semver, "0.20.0");
    assert_eq!(deltas[0].next.git_hash, "123abc");
    // Not mentioned with the marker: keeps its previous version.
    assert_eq!(deltas[1].next, deltas[1].prev);
}

#[test]
fn bug_url_escapes_the_summary() {
    let args = BugzillaArgs { message: Some("Update wgpu (v24)".to_string()), open: false };
    let url = file_bug_url(&args);
    assert!(url.ends_with("&short_desc=Update%20wgpu%20%28v24%29"));
    assert!(url.starts_with("https://bugzilla.mozilla.org/enter_bug.cgi?"));
    let bare = file_bug_url(&BugzillaArgs { message: None, open: false });
    assert!(!bare.contains("&short_desc="));
}

#[test]
fn try_push_carries_the_rebuild_count() {
    let config = gecko_config("/home/u/mozilla-central", "hg");
    let cmd = push_to_try(Some(20), &config);
    assert_eq!(cmd.program, "./mach");
    assert_eq!(cmd.args, lines(&["try", "--preset", "webgpu", "--rebuild", "20"]));
    let plain = push_to_try(None, &config);
    assert_eq!(plain.args, lines(&["try", "--preset", "webgpu"]));
}

#[test]
fn histedit_follows_the_configured_vcs() {
    let hg = moz_wgpu_update::helpers::hg_histedit(&gecko_config("/m-c", "hg"));
    assert_eq!((hg.program.as_str(), hg.args.len()), ("hg", 1));
    let git = moz_wgpu_update::helpers::hg_histedit(&gecko_config("/m-c", "Git"));
    assert_eq!(git.program, "git");
    assert_eq!(git.args, lines(&["rebase", "-i", "central"]));
}

#[test]
fn vcs_parsing_ignores_ascii_case() {
    assert_eq!(Vcs::from_str("HG"), Some(Vcs::Mercurial));
    assert_eq!(Vcs::from_str("Mercurial"), Some(Vcs::Mercurial));
    assert_eq!(Vcs::from_str("git"), Some(Vcs::Git));
    assert_eq!(Vcs::from_str("svn"), None);
}

#[test]
fn comma_join_has_no_trailing_separator() {
    assert_eq!(comma_separated_string(&lines(&["a"])), "a");
    assert_eq!(comma_separated_string(&lines(&["a", "b", "c"])), "a,b,c");
    assert_eq!(comma_separated_string(&Vec::<String>::new()), "");
}

#[test]
fn vetting_keeps_trusted_people_once_in_order() {
    let trusted = lines(&["alice", "carol", "dan"]);
    let v = vetted_by(
        &trusted,
        &"carol".to_string(),
        &lines(&["bob", "alice", "carol"]),
        &Some("dan".to_string()),
    );
    assert_eq!(v, lines(&["carol", "alice", "dan"]));
}

#[test]
fn commit_record_assembles_the_vetters() {
    let trusted = lines(&["alice"]);
    let c = commit_record(
        Some(41),
        &"beef".to_string(),
        &"alice".to_string(),
        lines(&["bob"]),
        None,
        &trusted,
    );
    assert_eq!(c.vetted_by, lines(&["alice"]));
    assert_eq!(
        csv_row(&c),
        "41\tbeef\talice\tbob\t\talice",
    );
}

#[test]
fn csv_row_of_a_commit_without_pull_request() {
    let c = commit_record(
        None,
        &"cafe".to_string(),
        &"eve".to_string(),
        Vec::new(),
        Some("mallory".to_string()),
        &Vec::new(),
    );
    assert_eq!(csv_row(&c), "\tcafe\teve\t\tmallory\t");
}

#[test]
fn merger_query_is_compact() {
    assert_eq!(
        merger_query("gfx-rs", "wgpu", 42),
        "query{repository(owner:\"gfx-rs\",name:\"wgpu\"){pullRequest(number:42){mergedBy{login}}}}",
    );
}

#[test]
fn token_source_distinguishes_the_cli_marker() {
    assert!(matches!(token_source(&None), TokenAction::NoAuth));
    assert!(matches!(token_source(&Some("gh".to_string())), TokenAction::GhCli));
    match token_source(&Some("example-token".to_string())) {
        TokenAction::UseToken(t) => assert_eq!(t, "example-token"),
        _ => panic!("expected the literal token"),
    }
}

#[test]
fn approved_reviews_keep_named_logins_only() {
    let reviews = vec![
        ReviewInfo { approved: true, login: "alice".to_string() },
        ReviewInfo { approved: false, login: "bob".to_string() },
        ReviewInfo { approved: true, login: String::new() },
        ReviewInfo { approved: true, login: "carol".to_string() },
    ];
    assert_eq!(approved_reviewers(&reviews), lines(&["alice", "carol"]));
}

#[test]
fn rev_lists_drop_empty_lines() {
    let out = moz_wgpu_update::audit::split_nonempty_lines("aaa\n\nbbb\n");
    assert_eq!(out, lines(&["aaa", "bbb"]));
    assert!(moz_wgpu_update::audit::split_nonempty_lines("").is_empty());
}

#[test]
fn rev_list_command_names_the_range() {
    let cmd = rev_list_command(&"/home/u/wgpu".to_string(), "aaa", "HEAD");
    assert_eq!(cmd.args, lines(&["rev-list", "aaa..HEAD"]));
    assert_eq!(cmd.dir, "/home/u/wgpu");
}

#[test]
fn path_joining_inserts_one_separator() {
    assert_eq!(concat_path("a", "b"), "a/b");
    assert_eq!(concat_path("a/", "b"), "a/b");
    assert_eq!(concat_path("a", ""), "a");
    assert_eq!(concat_path("", "b"), "b");
}

#[test]
fn config_is_searched_in_order() {
    let explicit = config_search_paths(&Some("/etc/wgpu.toml".to_string()), &None);
    assert_eq!(explicit, lines(&["/etc/wgpu.toml"]));
    let with_home = config_search_paths(&None, &Some("/home/u".to_string()));
    assert_eq!(with_home, lines(&["./.moz-wgpu.toml", "/home/u/.moz-wgpu.toml"]));
    let no_home = config_search_paths(&None, &None);
    assert_eq!(no_home, lines(&["./.moz-wgpu.toml"]));
}

#[test]
fn self_update_installs_both_tools() {
    let cmds = self_update_commands();
    assert_eq!(cmds.len(), 2);
    assert_eq!(cmds[0].program, "cargo");
    assert_eq!(cmds[0].args[2], "https://github.com/nical/moz-wgpu-update");
    assert_eq!(cmds[1].args[2], "https://github.com/ErichDonGubler/moz-webgpu-cts");
}

#[test]
fn tokenizers_split_the_expected_pieces() {
    let (indent, rest) = split_indentation("  \thello");
    assert_eq!((indent, rest), ("  \t", "hello"));
    let p = parse_line("  url: https://x  # why").unwrap();
    assert_eq!(
        (p.indent.as_str(), p.key.as_str(), p.value.as_str(), p.suffix.as_str()),
        ("  ", "url", "https://x", "  # why"),
    );
    assert!(parse_line("no separator here").is_none());
    let t = parse_toml_line("rev = \"abc\"  # note").unwrap();
    assert_eq!(
        (t.indent.as_str(), t.key.as_str(), t.value.as_str(), t.suffix.as_str()),
        ("", "rev", "abc", "  # note"),
    );
    assert!(parse_toml_line("rev = unquoted").is_none());
    assert!(parse_toml_line("rev = \"abc\" trailing junk").is_none());
}
