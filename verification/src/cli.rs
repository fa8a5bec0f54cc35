//! The tool's entry points as data: the top-level command set, the
//! configuration search order, path joining, and the git commands behind
//! detecting a project's current version.

use vstd::prelude::*;
use vstd::string::StrSliceExecFns;
use vstd::string::StringExecFns;
use crate::audit::AuditArgs;
use crate::config::GithubProject;
use crate::helpers::{BugzillaArgs, MachArgs};
use crate::shell_cmd::{CmdSpec, CmdSpecV};
use crate::strutil::{char_len, concat2, concat3};

verus! {

/// The tool's top-level commands.
#[derive(Clone, Debug)]
pub enum Args {
    /// Update wgpu in the central checkout.
    WgpuUpdate(crate::wgpu_update::Args),
    /// File a bug for the update.
    Bugzilla(BugzillaArgs),
    /// List commits to audit.
    Audit(AuditArgs),
    /// Run a build-driver command in the central checkout.
    Mach(MachArgs),
    /// Edit the commit stack of the central checkout.
    Histedit,
    /// Push a try run to continuous integration.
    Try { rebuild: Option<u8> },
    /// Update this tool to its latest version.
    SelfUpdate,
    /// Conformance-test-suite commands.
    Cts(crate::cts::Args),
}

/// `a` and `b` joined as a path: `a` alone when `b` is empty, `b` alone
/// when `a` is empty, otherwise the two with exactly one separator.
pub open spec fn concat_path_spec(a: Seq<char>, b: Seq<char>) -> Seq<char> {
    if b.len() == 0 {
        a
    } else if a.len() == 0 {
        b
    } else if a[a.len() - 1] == '/' {
        a + b
    } else {
        a + "/"@ + b
    }
}

/// Join a relative path onto a base directory.  Paths are plain strings
/// here; an absolute second argument is simply appended, so callers hand
/// in relative parts only.
pub fn concat_path(a: &str, b: &str) -> (r: String)
    ensures
        r@ == concat_path_spec(a@, b@),
{
    let an = char_len(a);
    let bn = char_len(b);
    if bn == 0 {
        String::from_str(a)
    } else if an == 0 {
        String::from_str(b)
    } else if a.get_char(an - 1) == '/' {
        concat2(a, b)
    } else {
        concat3(a, "/", b)
    }
}

/// Where the configuration file is looked for: an explicit path wins;
/// otherwise the working directory, then the home directory when known.
pub fn config_search_paths(explicit: &Option<String>, home: &Option<String>) -> (r: Vec<String>)
    ensures
        match *explicit {
            Some(e) => r.deep_view() =~= seq![e@],
            None => match *home {
                Some(h) => r.deep_view() =~= seq![
                    "./.moz-wgpu.toml"@,
                    concat_path_spec(h@, ".moz-wgpu.toml"@),
                ],
                None => r.deep_view() =~= seq!["./.moz-wgpu.toml"@],
            },
        },
{
    let mut r: Vec<String> = Vec::new();
    match explicit {
        Some(e) => {
            r.push(e.clone());
        },
        None => {
            r.push(String::from_str("./.moz-wgpu.toml"));
            match home {
                Some(h) => {
                    r.push(concat_path(h.as_str(), ".moz-wgpu.toml"));
                },
                None => (),
            }
        },
    }
    r
}

/// The two installation commands a self-update runs.
pub fn self_update_commands() -> (r: Vec<CmdSpec>)
    ensures
        r.deep_view() =~~= seq![
            (CmdSpecV {
                dir: "."@,
                program: "cargo"@,
                args: seq!["install"@, "--git"@, "https://github.com/nical/moz-wgpu-update"@],
            }),
            (CmdSpecV {
                dir: "."@,
                program: "cargo"@,
                args: seq![
                    "install"@,
                    "--git"@,
                    "https://github.com/ErichDonGubler/moz-webgpu-cts"@,
                ],
            }),
        ],
{
    let mut first: Vec<String> = Vec::new();
    first.push(String::from_str("install"));
    first.push(String::from_str("--git"));
    first.push(String::from_str("https://github.com/nical/moz-wgpu-update"));
    let mut second: Vec<String> = Vec::new();
    second.push(String::from_str("install"));
    second.push(String::from_str("--git"));
    second.push(String::from_str("https://github.com/ErichDonGubler/moz-webgpu-cts"));
    let mut r: Vec<CmdSpec> = Vec::new();
    r.push(
        CmdSpec { dir: String::from_str("."), program: String::from_str("cargo"), args: first },
    );
    r.push(
        CmdSpec { dir: String::from_str("."), program: String::from_str("cargo"), args: second },
    );
    r
}

/// The command that reads a checkout's current branch name.
pub fn current_branch_command(project: &GithubProject) -> (r: CmdSpec)
    ensures
        r@ =~= (CmdSpecV {
            dir: project.path@,
            program: "git"@,
            args: seq!["rev-parse"@, "--abbrev-ref"@, "HEAD"@],
        }),
{
    let mut args: Vec<String> = Vec::new();
    args.push(String::from_str("rev-parse"));
    args.push(String::from_str("--abbrev-ref"));
    args.push(String::from_str("HEAD"));
    CmdSpec { dir: project.path.clone(), program: String::from_str("git"), args: args }
}

/// The commands that park local work and bring the main branch up to
/// date before the version is read.
pub fn checkout_pull_commands(project: &GithubProject) -> (r: Vec<CmdSpec>)
    ensures
        r.deep_view() =~~= seq![
            (CmdSpecV {
                dir: project.path@,
                program: "git"@,
                args: seq!["commit"@, "-am"@, "Uncommitted changes before update."@],
            }),
            (CmdSpecV {
                dir: project.path@,
                program: "git"@,
                args: seq!["checkout"@, project.main_branch@],
            }),
            (CmdSpecV {
                dir: project.path@,
                program: "git"@,
                args: seq!["pull"@, project.upstream_remote@, project.main_branch@],
            }),
        ],
{
    let mut commit: Vec<String> = Vec::new();
    commit.push(String::from_str("commit"));
    commit.push(String::from_str("-am"));
    commit.push(String::from_str("Uncommitted changes before update."));
    let mut checkout: Vec<String> = Vec::new();
    checkout.push(String::from_str("checkout"));
    checkout.push(project.main_branch.clone());
    let mut pull: Vec<String> = Vec::new();
    pull.push(String::from_str("pull"));
    pull.push(project.upstream_remote.clone());
    pull.push(project.main_branch.clone());
    let mut r: Vec<CmdSpec> = Vec::new();
    r.push(CmdSpec { dir: project.path.clone(), program: String::from_str("git"), args: commit });
    r.push(
        CmdSpec { dir: project.path.clone(), program: String::from_str("git"), args: checkout },
    );
    r.push(CmdSpec { dir: project.path.clone(), program: String::from_str("git"), args: pull });
    r
}

/// The command that resolves the upstream main branch to a commit hash.
pub fn upstream_rev_parse_command(project: &GithubProject) -> (r: CmdSpec)
    ensures
        r@ =~= (CmdSpecV {
            dir: project.path@,
            program: "git"@,
            args: seq![
                "rev-parse"@,
                project.upstream_remote@ + "/"@ + project.main_branch@,
            ],
        }),
{
    let mut args: Vec<String> = Vec::new();
    args.push(String::from_str("rev-parse"));
    args.push(concat3(project.upstream_remote.as_str(), "/", project.main_branch.as_str()));
    CmdSpec { dir: project.path.clone(), program: String::from_str("git"), args: args }
}

/// The command that returns the checkout to the branch it was on.
pub fn switch_back_command(project: &GithubProject, branch: &str) -> (r: CmdSpec)
    ensures
        r@ =~= (CmdSpecV {
            dir: project.path@,
            program: "git"@,
            args: seq!["checkout"@, branch@],
        }),
{
    let mut args: Vec<String> = Vec::new();
    args.push(String::from_str("checkout"));
    args.push(String::from_str(branch));
    CmdSpec { dir: project.path.clone(), program: String::from_str("git"), args: args }
}

} // verus!
