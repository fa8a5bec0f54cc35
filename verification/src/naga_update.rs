//! Planning a naga update of a wgpu checkout: recreate the update branch,
//! rewrite each workspace manifest's naga dependency, and commit.

use vstd::prelude::*;
use vstd::string::StrSliceExecFns;
use vstd::string::StringExecFns;
use crate::cli::{concat_path, concat_path_spec};
use crate::config::GithubProject;
use crate::patcher::{ups_view, Update, UpdateV};
use crate::shell_cmd::{CmdSpec, CmdSpecV};
use crate::strutil::{char_len, concat2, rtrim_spaces_exec, skip_spaces_exec, str_eq, trimmed};
use crate::version::{vet_label, Version};

verus! {

/// The naga repository the rewritten dependencies point at.
pub fn default_naga_repository() -> (r: String)
    ensures
        r@ == "https://github.com/gfx-rs/naga"@,
{
    String::from_str("https://github.com/gfx-rs/naga")
}

/// Arguments of the naga-update command.
#[derive(Clone, Debug)]
pub struct Args {
    /// The new naga revision to update to.
    pub git_hash: Option<String>,
    /// The new naga version to update to.
    pub semver: Option<String>,
    /// Determine naga's version from a local checkout.
    pub auto: bool,
    /// The branch name created in the wgpu checkout.
    pub branch: Option<String>,
    /// Check out and pull wgpu's trunk before creating the branch.
    pub on_trunk: bool,
    /// Configuration file to use.
    pub config: Option<String>,
    /// Run the tests at the end.
    pub test: bool,
}

/// The branch the update lands on: the named one, or the default.
pub fn branch_name_of(args: &Args) -> (r: String)
    ensures
        match args.branch {
            Some(b) => r@ == b@,
            None => r@ == "naga-update"@,
        },
{
    match &args.branch {
        Some(b) => b.clone(),
        None => String::from_str("naga-update"),
    }
}

/// The version to update to: the detected one under `auto`, else the
/// argument fields with absent parts empty.
pub fn naga_version(args: &Args, detected: &Option<Version>) -> (r: Option<Version>)
    ensures
        args.auto ==> r == *detected,
        !args.auto ==> (r matches Some(v) && v.semver@ == (match args.semver {
            Some(s) => s@,
            None => Seq::<char>::empty(),
        }) && v.git_hash@ == (match args.git_hash {
            Some(h) => h@,
            None => Seq::<char>::empty(),
        })),
{
    if args.auto {
        match detected {
            Some(v) => Some(
                Version { semver: v.semver.clone(), git_hash: v.git_hash.clone() },
            ),
            None => None,
        }
    } else {
        let semver = match &args.semver {
            Some(s) => s.clone(),
            None => String::new(),
        };
        let git_hash = match &args.git_hash {
            Some(h) => h.clone(),
            None => String::new(),
        };
        Some(Version { semver: semver, git_hash: git_hash })
    }
}

/// A git command in the wgpu checkout.
fn wgpu_git(project: &GithubProject, args: Vec<String>) -> (r: CmdSpec)
    ensures
        r@.dir == project.path@,
        r@.program == "git"@,
        r@.args == args.deep_view(),
{
    CmdSpec { dir: project.path.clone(), program: String::from_str("git"), args: args }
}

/// The commands run before the manifests are rewritten: park local work,
/// optionally move onto a fresh trunk, and recreate the update branch.
///
/// `current_branch` is the checkout's branch name as the shell reported
/// it; it is trimmed before the comparison.
pub fn naga_pre_commands(
    project: &GithubProject,
    args: &Args,
    current_branch: &str,
    branch_name: &str,
) -> (r: Vec<CmdSpec>)
    ensures
        r.deep_view() =~~= (seq![
            (CmdSpecV { dir: project.path@, program: "cargo"@, args: seq!["check"@] }),
            (CmdSpecV {
                dir: project.path@,
                program: "git"@,
                args: seq!["commit"@, "-am"@, "Uncommitted changes before naga update."@],
            }),
        ] + (if args.on_trunk {
            seq![
                (CmdSpecV {
                    dir: project.path@,
                    program: "git"@,
                    args: seq!["checkout"@, "trunk"@],
                }),
                (CmdSpecV {
                    dir: project.path@,
                    program: "git"@,
                    args: seq!["pull"@, project.upstream_remote@, "trunk"@],
                }),
            ]
        } else {
            Seq::<CmdSpecV>::empty()
        }) + (if trimmed(current_branch@, 0, current_branch@.len() as int) == branch_name@ {
            seq![
                (CmdSpecV {
                    dir: project.path@,
                    program: "git"@,
                    args: seq!["checkout"@, "trunk"@],
                }),
            ]
        } else {
            Seq::<CmdSpecV>::empty()
        }) + seq![
            (CmdSpecV {
                dir: project.path@,
                program: "git"@,
                args: seq!["branch"@, "-D"@, branch_name@],
            }),
            (CmdSpecV {
                dir: project.path@,
                program: "git"@,
                args: seq!["checkout"@, "-b"@, branch_name@],
            }),
        ]),
{
    let mut r: Vec<CmdSpec> = Vec::new();
    let mut check_args: Vec<String> = Vec::new();
    check_args.push(String::from_str("check"));
    r.push(
        CmdSpec {
            dir: project.path.clone(),
            program: String::from_str("cargo"),
            args: check_args,
        },
    );
    let mut commit_args: Vec<String> = Vec::new();
    commit_args.push(String::from_str("commit"));
    commit_args.push(String::from_str("-am"));
    commit_args.push(String::from_str("Uncommitted changes before naga update."));
    r.push(wgpu_git(project, commit_args));
    if args.on_trunk {
        let mut co: Vec<String> = Vec::new();
        co.push(String::from_str("checkout"));
        co.push(String::from_str("trunk"));
        r.push(wgpu_git(project, co));
        let mut pull: Vec<String> = Vec::new();
        pull.push(String::from_str("pull"));
        pull.push(project.upstream_remote.clone());
        pull.push(String::from_str("trunk"));
        r.push(wgpu_git(project, pull));
    }
    let n = char_len(current_branch);
    let lo = skip_spaces_exec(current_branch, 0, n);
    let hi = rtrim_spaces_exec(current_branch, lo, n);
    let cur = current_branch.substring_char(lo, hi);
    if str_eq(cur, branch_name) {
        let mut co: Vec<String> = Vec::new();
        co.push(String::from_str("checkout"));
        co.push(String::from_str("trunk"));
        r.push(wgpu_git(project, co));
    }
    let mut del: Vec<String> = Vec::new();
    del.push(String::from_str("branch"));
    del.push(String::from_str("-D"));
    del.push(String::from_str(branch_name));
    r.push(wgpu_git(project, del));
    let mut new_branch: Vec<String> = Vec::new();
    new_branch.push(String::from_str("checkout"));
    new_branch.push(String::from_str("-b"));
    new_branch.push(String::from_str(branch_name));
    r.push(wgpu_git(project, new_branch));
    r
}

/// One workspace manifest to rewrite, with its temporary output file.
#[derive(Clone, Debug)]
pub struct ManifestPaths {
    pub cargo_toml: String,
    pub tmp_cargo_toml: String,
}

/// The manifest pair of one workspace folder.
pub open spec fn manifest_pair_spec(project: Seq<char>, rel: Seq<char>) -> (Seq<char>, Seq<char>) {
    let folder = concat_path_spec(project, rel);
    (concat_path_spec(folder, "Cargo.toml"@), concat_path_spec(folder, "tmp.Cargo.toml"@))
}

/// The four workspace manifests a naga update rewrites.
pub fn naga_manifest_paths(project: &GithubProject) -> (r: Vec<ManifestPaths>)
    ensures
        r@.len() == 4,
        forall|j: int|
            0 <= j < 4 ==> ((#[trigger] r@[j]).cargo_toml@, r@[j].tmp_cargo_toml@)
                == manifest_pair_spec(
                project.path@,
                seq![""@, "wgpu-core/"@, "wgpu-hal/"@, "wgpu-types/"@][j],
            ),
{
    let mut r: Vec<ManifestPaths> = Vec::new();
    let f0 = concat_path(project.path.as_str(), "");
    r.push(
        ManifestPaths {
            cargo_toml: concat_path(f0.as_str(), "Cargo.toml"),
            tmp_cargo_toml: concat_path(f0.as_str(), "tmp.Cargo.toml"),
        },
    );
    let f1 = concat_path(project.path.as_str(), "wgpu-core/");
    r.push(
        ManifestPaths {
            cargo_toml: concat_path(f1.as_str(), "Cargo.toml"),
            tmp_cargo_toml: concat_path(f1.as_str(), "tmp.Cargo.toml"),
        },
    );
    let f2 = concat_path(project.path.as_str(), "wgpu-hal/");
    r.push(
        ManifestPaths {
            cargo_toml: concat_path(f2.as_str(), "Cargo.toml"),
            tmp_cargo_toml: concat_path(f2.as_str(), "tmp.Cargo.toml"),
        },
    );
    let f3 = concat_path(project.path.as_str(), "wgpu-types/");
    r.push(
        ManifestPaths {
            cargo_toml: concat_path(f3.as_str(), "Cargo.toml"),
            tmp_cargo_toml: concat_path(f3.as_str(), "tmp.Cargo.toml"),
        },
    );
    r
}

/// The one update request of a naga update: the crate name identifies
/// the dependency, and both the version and the revision may move.
pub fn naga_updates(version: &Version) -> (r: Vec<Update>)
    ensures
        ups_view(r@) =~~= seq![
            (UpdateV { key: "naga"@, semver: version.semver@, revision: version.git_hash@ }),
        ],
{
    let mut r: Vec<Update> = Vec::new();
    r.push(
        Update {
            key: String::from_str("naga"),
            semver: version.semver.clone(),
            revision: version.git_hash.clone(),
        },
    );
    r
}

/// The commands run after the manifests are rewritten: check, show the
/// diff, commit, and optionally run the tests.
pub fn naga_post_commands(project: &GithubProject, version: &Version, test: bool) -> (r: Vec<
    CmdSpec,
>)
    ensures
        r.deep_view() =~~= (seq![
            (CmdSpecV { dir: project.path@, program: "cargo"@, args: seq!["check"@] }),
            (CmdSpecV { dir: project.path@, program: "git"@, args: seq!["diff"@] }),
            (CmdSpecV {
                dir: project.path@,
                program: "git"@,
                args: seq!["commit"@, "-am"@, "Update `naga` to "@ + vet_label(version@)],
            }),
        ] + (if test {
            seq![
                (CmdSpecV {
                    dir: project.path@,
                    program: "cargo"@,
                    args: seq!["nextest"@, "run"@],
                }),
            ]
        } else {
            Seq::<CmdSpecV>::empty()
        })),
{
    let mut r: Vec<CmdSpec> = Vec::new();
    let mut check_args: Vec<String> = Vec::new();
    check_args.push(String::from_str("check"));
    r.push(
        CmdSpec {
            dir: project.path.clone(),
            program: String::from_str("cargo"),
            args: check_args,
        },
    );
    let mut diff_args: Vec<String> = Vec::new();
    diff_args.push(String::from_str("diff"));
    r.push(wgpu_git(project, diff_args));
    let label = version.display_cargo_vet();
    let mut commit_args: Vec<String> = Vec::new();
    commit_args.push(String::from_str("commit"));
    commit_args.push(String::from_str("-am"));
    commit_args.push(concat2("Update `naga` to ", label.as_str()));
    r.push(wgpu_git(project, commit_args));
    if test {
        let mut test_args: Vec<String> = Vec::new();
        test_args.push(String::from_str("nextest"));
        test_args.push(String::from_str("run"));
        r.push(
            CmdSpec {
                dir: project.path.clone(),
                program: String::from_str("cargo"),
                args: test_args,
            },
        );
    }
    r
}

} // verus!
