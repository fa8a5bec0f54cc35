//! A crate version as the audit tooling sees it: a semantic version and an
//! optional git revision.

use vstd::prelude::*;
use vstd::string::StrSliceExecFns;
use crate::strutil::concat3;

verus! {

/// A dependency version: semantic version plus pinned git hash, either of
/// which may be absent (empty).
#[derive(Clone, Debug, PartialEq)]
pub struct Version {
    pub semver: String,
    pub git_hash: String,
}

/// Mathematical image of a [`Version`].
#[verifier::ext_equal]
pub struct VersionV {
    pub semver: Seq<char>,
    pub git_hash: Seq<char>,
}

impl View for Version {
    type V = VersionV;

    open spec fn view(&self) -> VersionV {
        VersionV { semver: self.semver@, git_hash: self.git_hash@ }
    }
}

/// The label under which an audit records a version: the semver alone when
/// there is no git hash, else `semver@git:hash`.
pub open spec fn vet_label(v: VersionV) -> Seq<char> {
    if v.git_hash.len() == 0 {
        v.semver
    } else {
        v.semver + "@git:"@ + v.git_hash
    }
}

/// An empty version: no semver, no git hash.
pub open spec fn empty_version() -> VersionV {
    VersionV { semver: Seq::empty(), git_hash: Seq::empty() }
}

impl Version {
    /// A version with both fields empty.
    pub fn new_empty() -> (r: Version)
        ensures
            r@ =~= empty_version(),
    {
        Version { semver: String::new(), git_hash: String::new() }
    }

    /// The semver/git hash pair formatted the way the audit tool expects,
    /// or just the semver string if there is no git hash.
    pub fn to_string(&self) -> (r: String)
        ensures
            r@ == vet_label(self@),
    {
        if self.git_hash.as_str().unicode_len() == 0 {
            self.semver.clone()
        } else {
            concat3(self.semver.as_str(), "@git:", self.git_hash.as_str())
        }
    }

    /// The same label; the name used where it is printed for an audit.
    pub fn display_cargo_vet(&self) -> (r: String)
        ensures
            r@ == vet_label(self@),
    {
        self.to_string()
    }
}

} // verus!
