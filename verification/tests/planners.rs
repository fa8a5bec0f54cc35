//! The update planners: parameters, commit messages and command lists.

use moz_wgpu_update::config::{Config, Gecko, GithubProject, Vcs};
use moz_wgpu_update::cts::{
    command, cts_test_path, temp_cts_result_dir, json_file_names, process_reports_command,
    Args as CtsArgs, CtsAction, SubCommand,
};
use moz_wgpu_update::delta::Delta;
use moz_wgpu_update::naga_update::{
    branch_name_of, naga_manifest_paths, naga_pre_commands, naga_post_commands, naga_version,
    Args as NagaArgs,
};
use moz_wgpu_update::update;
use moz_wgpu_update::version::Version;
use moz_wgpu_update::wgpu_update::{
    get_parameters, initial_deltas, preamble_commands, refresh_cargo_lock_command,
    refresh_needs_workaround, update_commit_command, update_paths, vet_delta_commands,
    vet_from_base_commands, wgpu_updates, Args, ParamError,
};

fn lines(v: &[&str]) -> Vec<String> {
    v.iter().map(|s| s.to_string()).collect()
}

fn config() -> Config {
    let project = GithubProject {
        path: "/home/u/wgpu".to_string(),
        main_branch: "trunk".to_string(),
        upstream_remote: "upstream".to_string(),
        trusted_reviewers: Vec::new(),
        latest_commit: None,
        repository: None,
    };
    Config {
        gecko: Gecko { path: "/home/u/mozilla-central".to_string(), vcs: Some("hg".to_string()) },
        wgpu: project.clone(),
        naga: project,
        github_api_token: None,
    }
}

fn args_with_hash(hash: &str) -> Args {
    Args {
        git_hash: Some(hash.to_string()),
        bug: None,
        auto: false,
        vet_from_base_revision: false,
        config: None,
        build: false,
        phab_revisions: None,
        skip_preamble: false,
    }
}

fn version(semver: &str, hash: &str) -> Version {
    Version { semver: semver.to_string(), git_hash: hash.to_string() }
}

#[test]
fn parameters_take_the_explicit_revision() {
    let p = get_parameters(&args_with_hash("abc"), &config(), &None).unwrap();
    assert_eq!(p.wgpu_rev, "abc");
    assert_eq!(p.gecko_path, "/home/u/mozilla-central");
    assert_eq!(p.vcs, Vcs::Mercurial);
    assert_eq!(p.repository, "https://github.com/gfx-rs/wgpu");
    assert!(p.preamble);
}

#[test]
fn parameters_require_a_revision() {
    let mut args = args_with_hash("abc");
    args.git_hash = None;
    assert_eq!(get_parameters(&args, &config(), &None).err(), Some(ParamError::MissingRevision));
    args.auto = true;
    assert_eq!(get_parameters(&args, &config(), &None).err(), Some(ParamError::MissingRevision));
    let detected = Some(version("0.20.0", "detected"));
    let p = get_parameters(&args, &config(), &detected).unwrap();
    assert_eq!(p.wgpu_rev, "detected");
}

#[test]
fn parameters_split_three_review_requests() {
    let mut args = args_with_hash("abc");
    args.phab_revisions = Some("D1,D2".to_string());
    assert_eq!(get_parameters(&args, &config(), &None).err(), Some(ParamError::PhabRevisions));
    args.phab_revisions = Some("D1,D2,D3".to_string());
    let p = get_parameters(&args, &config(), &None).unwrap();
    assert_eq!(p.phab_revisions, Some(lines(&["D1", "D2", "D3"])));
}

#[test]
fn update_commit_carries_bug_and_review_request() {
    let mut args = args_with_hash("abc");
    args.bug = Some("1900000".to_string());
    args.phab_revisions = Some("D1,D2,D3".to_string());
    let p = get_parameters(&args, &config(), &None).unwrap();
    let cmd = update_commit_command(&p);
    assert_eq!(cmd.program, "hg");
    assert_eq!(cmd.args[0], "commit");
    assert_eq!(
        cmd.args[2],
        "Bug 1900000 - Update `wgpu` to revision abc.\n\n\
         Differential Revision: https://phabricator.services.mozilla.com/D1",
    );
}

#[test]
fn preamble_parks_work_twice() {
    let p = get_parameters(&args_with_hash("abc"), &config(), &None).unwrap();
    let cmds = preamble_commands(&p);
    assert_eq!(cmds.len(), 4);
    assert_eq!(cmds[0].program, "hg");
    assert_eq!(cmds[0].args, lines(&["diff"]));
    assert_eq!(cmds[2].args, lines(&["vendor", "rust"]));
}

#[test]
fn update_paths_sit_in_the_bindings_directory() {
    let p = get_parameters(&args_with_hash("abc"), &config(), &None).unwrap();
    let paths = update_paths(&p);
    assert_eq!(
        paths.cargo_toml,
        "/home/u/mozilla-central/gfx/wgpu_bindings/Cargo.toml",
    );
    assert_eq!(
        paths.tmp_moz_yaml,
        "/home/u/mozilla-central/gfx/wgpu_bindings/tmp.moz.yaml",
    );
}

#[test]
fn the_update_request_is_keyed_by_repository() {
    let p = get_parameters(&args_with_hash("abc"), &config(), &None).unwrap();
    let ups = wgpu_updates(&p);
    assert_eq!(ups.len(), 1);
    assert_eq!(ups[0].key, "https://github.com/gfx-rs/wgpu");
    assert_eq!(ups[0].revision, "abc");
    assert_eq!(ups[0].semver, "");
}

#[test]
fn lock_refresh_pins_the_new_revision() {
    let p = get_parameters(&args_with_hash("abc"), &config(), &None).unwrap();
    let cmd = refresh_cargo_lock_command(&p);
    assert_eq!(cmd.args, lines(&["update", "--package", "wgpu-core", "--precise", "abc"]));
    assert!(refresh_needs_workaround("error: object not found - no match for id (abc)"));
    assert!(!refresh_needs_workaround("ok"));
}

#[test]
fn tracked_crates_are_listed_in_order() {
    let names: Vec<String> = initial_deltas().iter().map(|d| d.name.clone()).collect();
    assert_eq!(names, lines(&["wgpu-core", "wgpu-hal", "wgpu-types", "naga", "ash"]));
    let old: Vec<String> = update::initial_deltas().iter().map(|d| d.name.clone()).collect();
    assert_eq!(
        old,
        lines(&["wgpu-core", "wgpu-hal", "wgpu-types", "naga", "d3d12", "ash"]),
    );
}

#[test]
fn unchanged_deltas_are_not_certified() {
    let p = get_parameters(&args_with_hash("abc"), &config(), &None).unwrap();
    let mut same = Delta::new("wgpu-core");
    same.prev = version("1.0", "aa");
    same.next = version("1.0", "aa");
    let mut moved = Delta::new("naga");
    moved.prev = version("1.0", "aa");
    moved.next = version("1.1", "bb");
    let cmds = vet_delta_commands(&p, &vec![same, moved]);
    // One certify, the audit commit, and the final report.
    assert_eq!(cmds.len(), 3);
    assert_eq!(
        cmds[0].args,
        lines(&[
            "cargo", "vet", "certify", "naga", "1.0@git:aa", "1.1@git:bb", "--criteria",
            "safe-to-deploy", "--accept-all",
        ]),
    );
    assert_eq!(cmds[2].args, lines(&["cargo", "vet"]));
}

#[test]
fn base_revision_vetting_covers_the_semver_move() {
    let p = get_parameters(&args_with_hash("abc"), &config(), &None).unwrap();
    let mut moved = Delta::new("wgpu-core");
    moved.prev = version("1.0", "aa");
    moved.next = version("1.1", "bb");
    let cmds = vet_from_base_commands(&p, &vec![moved]);
    assert_eq!(cmds.len(), 4);
    assert_eq!(cmds[0].args[3..6].to_vec(), lines(&["wgpu-core", "1.0", "1.1"]));
    assert_eq!(cmds[1].args[3..6].to_vec(), lines(&["wgpu-core", "1.1", "1.1@git:bb"]));
}

#[test]
fn base_revision_vetting_without_semver_move() {
    let p = get_parameters(&args_with_hash("abc"), &config(), &None).unwrap();
    let mut moved = Delta::new("naga");
    moved.prev = version("1.0", "aa");
    moved.next = version("1.0", "bb");
    let cmds = vet_from_base_commands(&p, &vec![moved]);
    assert_eq!(cmds.len(), 3);
    assert_eq!(cmds[0].args[3..6].to_vec(), lines(&["naga", "1.0", "1.0@git:bb"]));
}

#[test]
fn plain_update_certifies_without_auto_accept() {
    let args = update::UpdateArgs {
        wgpu_rev: "abc".to_string(),
        bug: None,
        config: None,
        build: false,
        phab_revisions: None,
        skip_preamble: false,
    };
    let p = update::get_parameters(&args, &config()).unwrap();
    let mut moved = Delta::new("naga");
    moved.prev = version("1.0", "aa");
    moved.next = version("1.1", "bb");
    let cmds = update::vet_changes_commands(&p, &vec![moved]);
    assert_eq!(
        cmds[0].args,
        lines(&[
            "cargo", "vet", "certify", "naga", "1.0@git:aa", "1.1@git:bb", "--criteria",
            "safe-to-deploy",
        ]),
    );
}

#[test]
fn cts_query_becomes_a_test_page_path() {
    assert_eq!(
        cts_test_path("q=webgpu:api,validation,buffer,destroy:*"),
        "_mozilla/webgpu/cts/webgpu/api/validation/buffer/destroy/cts.https.html?q=webgpu:api,validation,buffer,destroy:*",
    );
    assert_eq!(
        cts_test_path("webgpu:shader,execution:flow"),
        "_mozilla/webgpu/cts/webgpu/shader/execution/cts.https.html?q=webgpu:shader,execution:flow",
    );
}

#[test]
fn cts_results_land_beside_the_checkout() {
    assert_eq!(temp_cts_result_dir(&config()), "/home/u/tmp-cts");
}

#[test]
fn cts_fetch_action_creates_and_fetches() {
    let args = CtsArgs { sub_command: SubCommand::Fetch { rev: "tryrev".to_string() }, config: None };
    match command(&args, &config()) {
        CtsAction::Fetch { create_dir, cmd } => {
            assert_eq!(create_dir, "/home/u/tmp-cts");
            assert_eq!(cmd.program, "../mozilla-central/mach");
            assert_eq!(cmd.args, lines(&["wpt-fetch-logs", "try:tryrev"]));
        },
        _ => panic!("expected the fetch action"),
    }
}

#[test]
fn cts_expectation_flow_commits_around_processing() {
    let args = CtsArgs {
        sub_command: SubCommand::Expectations { fetch: None, cleanup: true },
        config: None,
    };
    match command(&args, &config()) {
        CtsAction::Expectations { fetch, pre_commit, post_commit, cleanup, .. } => {
            assert!(fetch.is_none());
            assert_eq!(pre_commit.program, "hg");
            assert_eq!(post_commit.args[2], "Update WebGPU CTS test expectations");
            assert_eq!(cleanup.unwrap().args, lines(&["-rf", "/home/u/tmp-cts"]));
        },
        _ => panic!("expected the expectations action"),
    }
}

#[test]
fn json_reports_feed_the_processing_step() {
    let names = lines(&["a.json", "log.txt", "b.json"]);
    let files = json_file_names(&names);
    assert_eq!(files, lines(&["a.json", "b.json"]));
    let cmd = process_reports_command(&config(), &files);
    assert_eq!(
        cmd.args,
        lines(&["process-reports", "--preset=reset-contradictory", "a.json", "b.json"]),
    );
}

#[test]
fn naga_branch_and_version_defaults() {
    let args = NagaArgs {
        git_hash: Some("ha".to_string()),
        semver: None,
        auto: false,
        branch: None,
        on_trunk: false,
        config: None,
        test: false,
    };
    assert_eq!(branch_name_of(&args), "naga-update");
    let v = naga_version(&args, &None).unwrap();
    assert_eq!((v.semver.as_str(), v.git_hash.as_str()), ("", "ha"));
}

#[test]
fn naga_branch_recreation_leaves_the_branch_first() {
    let args = NagaArgs {
        git_hash: None,
        semver: None,
        auto: false,
        branch: None,
        on_trunk: false,
        config: None,
        test: false,
    };
    let cmds = naga_pre_commands(&config().wgpu, &args, "naga-update\n", "naga-update");
    let all: Vec<Vec<String>> = cmds.iter().map(|c| c.args.clone()).collect();
    assert_eq!(all[0], lines(&["check"]));
    assert_eq!(all[2], lines(&["checkout", "trunk"]));
    assert_eq!(all[3], lines(&["branch", "-D", "naga-update"]));
    assert_eq!(all[4], lines(&["checkout", "-b", "naga-update"]));
}

#[test]
fn naga_touches_the_four_workspace_manifests() {
    let paths = naga_manifest_paths(&config().wgpu);
    assert_eq!(paths.len(), 4);
    assert_eq!(paths[0].cargo_toml, "/home/u/wgpu/Cargo.toml");
    assert_eq!(paths[1].tmp_cargo_toml, "/home/u/wgpu/wgpu-core/tmp.Cargo.toml");
    assert_eq!(paths[3].cargo_toml, "/home/u/wgpu/wgpu-types/Cargo.toml");
}

#[test]
fn naga_commit_names_the_new_version() {
    let cmds = naga_post_commands(&config().wgpu, &version("0.15.0", "abc"), true);
    assert_eq!(cmds[2].args[2], "Update `naga` to 0.15.0@git:abc");
    assert_eq!(cmds[3].args, lines(&["nextest", "run"]));
}
