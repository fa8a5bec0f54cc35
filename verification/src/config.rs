//! The tool's configuration model: where the checkouts live, which version
//! control system the central repository uses, and which GitHub projects
//! are tracked.

use vstd::prelude::*;
use vstd::string::StringExecFns;
use crate::strutil::{eq_ignore_case, str_eq_ignore_case};

verus! {

/// The version control system driving the central repository.
#[derive(Clone, Copy, Debug, PartialEq, Eq, Structural)]
pub enum Vcs {
    Mercurial,
    Git,
}

impl Default for Vcs {
    /// Mercurial, as for the repository this tool was written for.
    fn default() -> (r: Self)
        ensures
            r == Vcs::Mercurial,
    {
        Vcs::Mercurial
    }
}

impl Vcs {
    /// Parse a configuration value, ignoring ASCII case: `hg` / `mercurial`
    /// select Mercurial, `git` selects Git, anything else is rejected.
    pub fn from_str(s: &str) -> (r: Option<Vcs>)
        ensures
            r == Some(Vcs::Mercurial) <==> (eq_ignore_case(s@, "hg"@) || eq_ignore_case(
                s@,
                "mercurial"@,
            )),
            r == Some(Vcs::Git) <==> (!eq_ignore_case(s@, "hg"@) && !eq_ignore_case(
                s@,
                "mercurial"@,
            ) && eq_ignore_case(s@, "git"@)),
            r is None <==> (!eq_ignore_case(s@, "hg"@) && !eq_ignore_case(s@, "mercurial"@)
                && !eq_ignore_case(s@, "git"@)),
    {
        if str_eq_ignore_case(s, "hg") || str_eq_ignore_case(s, "mercurial") {
            Some(Vcs::Mercurial)
        } else if str_eq_ignore_case(s, "git") {
            Some(Vcs::Git)
        } else {
            None
        }
    }
}

/// The central repository checkout: its path and its version control kind.
#[derive(Clone, Debug)]
pub struct Gecko {
    pub path: String,
    pub vcs: Option<String>,
}

/// A tracked GitHub project checkout.
#[derive(Clone, Debug)]
pub struct GithubProject {
    pub path: String,
    pub main_branch: String,
    pub upstream_remote: String,
    pub trusted_reviewers: Vec<String>,
    pub latest_commit: Option<String>,
    /// Overrides the project repository URL, typically to point at a fork
    /// for testing; unset for regular use.
    pub repository: Option<String>,
}

/// The whole configuration file.
#[derive(Clone, Debug)]
pub struct Config {
    pub gecko: Gecko,
    pub wgpu: GithubProject,
    pub naga: GithubProject,
    pub github_api_token: Option<String>,
}

/// The default main branch of a tracked project.
pub fn default_branch() -> (r: String)
    ensures
        r@ == "main"@,
{
    String::from_str("main")
}

/// The default upstream remote of a tracked project.
pub fn default_remote() -> (r: String)
    ensures
        r@ == "upstream"@,
{
    String::from_str("upstream")
}

/// The version control system a configuration selects: the configured
/// value where it parses, Mercurial otherwise.
pub open spec fn vcs_of_spec(vcs: Seq<char>) -> Vcs {
    if eq_ignore_case(vcs, "hg"@) || eq_ignore_case(vcs, "mercurial"@) {
        Vcs::Mercurial
    } else if eq_ignore_case(vcs, "git"@) {
        Vcs::Git
    } else {
        Vcs::Mercurial
    }
}

/// The version control system of the central repository.  The
/// configuration must name one; an unrecognised name falls back to
/// Mercurial.
pub fn vcs_of_config(config: &Config) -> (r: Vcs)
    requires
        config.gecko.vcs is Some,
    ensures
        r == vcs_of_spec(config.gecko.vcs->0@),
{
    match &config.gecko.vcs {
        Some(s) => match Vcs::from_str(s.as_str()) {
            Some(v) => v,
            None => Vcs::Mercurial,
        },
        None => Vcs::Mercurial,
    }
}

} // verus!
