//! Extracting a crate's semver and git revision from a `Cargo.lock`.
//!
//! The scan walks the lock file line by line: the package's `name = "..."`
//! line opens its record, the next `[[package]]` header closes it, and the
//! `version = ` / `source = ` lines in between supply the fields.

use vstd::prelude::*;
use vstd::string::StrSliceExecFns;
use crate::strutil::{
    char_len, concat3, opt_str_view, rfind_char, rfind_char_exec, rtrim_char_run,
    rtrim_char_run_exec, skip_char_run, skip_char_run_exec, starts_with, substr_copy,
};
use crate::version::Version;

verus! {

/// The scanner state: whether the package record has been entered, whether
/// it has been left again, and the fields collected inside it.
#[verifier::ext_equal]
pub struct LockScanV {
    pub found: bool,
    pub done: bool,
    pub semver: Option<Seq<char>>,
    pub git_hash: Option<Seq<char>>,
}

/// The scan before any line: nothing found.
pub open spec fn lock_scan_init() -> LockScanV {
    LockScanV { found: false, done: false, semver: None, git_hash: None }
}

/// The `name = "<name>"` line that opens the package's record.
pub open spec fn name_line_of(name: Seq<char>) -> Seq<char> {
    "name = \""@ + name + "\""@
}

/// The semver on a `version = "..."` line: everything past the key with
/// the surrounding quotes stripped.
pub open spec fn version_value(line: Seq<char>) -> Seq<char> {
    let n = line.len() as int;
    if n >= 11 {
        let lo = skip_char_run(line, '"', 11, n);
        let hi = rtrim_char_run(line, '"', lo, n);
        line.subrange(lo, hi)
    } else {
        Seq::empty()
    }
}

/// The hash on a `source = "git+...#<hash>"` line: from past the last `#`
/// up to the closing quote.
pub open spec fn git_hash_value(line: Seq<char>) -> Seq<char> {
    let n = line.len() as int;
    let start = match rfind_char(line, '#', 0, n) {
        Some(i) => i + 1,
        None => n,
    };
    let end = if start > n - 1 {
        start
    } else {
        n - 1
    };
    line.subrange(start, end)
}

/// One line of the scan.
pub open spec fn lock_step(st: LockScanV, line: Seq<char>, name: Seq<char>) -> LockScanV {
    if st.done {
        st
    } else if ("[[package]]"@).is_prefix_of(line) && st.found {
        LockScanV { found: st.found, done: true, semver: st.semver, git_hash: st.git_hash }
    } else {
        let f = st.found || name_line_of(name).is_prefix_of(line);
        if !f {
            st
        } else {
            let sem = if ("version = "@).is_prefix_of(line) {
                Some(version_value(line))
            } else {
                st.semver
            };
            let gh = if ("source = \"git"@).is_prefix_of(line) {
                Some(git_hash_value(line))
            } else if ("source = \"registry"@).is_prefix_of(line) {
                Some(Seq::<char>::empty())
            } else {
                st.git_hash
            };
            LockScanV { found: true, done: false, semver: sem, git_hash: gh }
        }
    }
}

/// The scan folded over `lines[i..]`.
pub open spec fn lock_scan(
    st: LockScanV,
    lines: Seq<Seq<char>>,
    i: int,
    name: Seq<char>,
) -> LockScanV
    decreases lines.len() - i,
    when 0 <= i <= lines.len()
{
    if i >= lines.len() {
        st
    } else {
        lock_scan(lock_step(st, lines[i], name), lines, i + 1, name)
    }
}

/// The version the scan of a whole lock file yields, if the package was
/// found and both fields were present.
pub open spec fn lock_find(lines: Seq<Seq<char>>, name: Seq<char>) -> Option<VersionPairV> {
    let fin = lock_scan(lock_scan_init(), lines, 0, name);
    if fin.found && fin.semver is Some && fin.git_hash is Some {
        Some(VersionPairV { semver: fin.semver->0, git_hash: fin.git_hash->0 })
    } else {
        None
    }
}

/// The two collected fields.
#[verifier::ext_equal]
pub struct VersionPairV {
    pub semver: Seq<char>,
    pub git_hash: Seq<char>,
}

/// Extract `name`'s semver and git hash from the lines of a `Cargo.lock`.
///
/// `None` when the package does not occur, or its record lacks a version
/// or a source; a registry source counts as an empty git hash.
pub fn find_version(name: &str, lines: &Vec<String>) -> (r: Option<Version>)
    ensures
        match r {
            Some(v) => lock_find(lines.deep_view(), name@) == Some(
                VersionPairV { semver: v.semver@, git_hash: v.git_hash@ },
            ),
            None => lock_find(lines.deep_view(), name@) is None,
        },
{
    let ghost linesv = lines.deep_view();
    let name_line = concat3("name = \"", name, "\"");
    let mut found = false;
    let mut done = false;
    let mut semver: Option<String> = None;
    let mut git_hash: Option<String> = None;
    let n = lines.len();
    let mut i: usize = 0;
    while i < n
        invariant
            i <= n,
            n == lines@.len(),
            linesv == lines.deep_view(),
            name_line@ == name_line_of(name@),
            lock_scan(lock_scan_init(), linesv, 0, name@) == lock_scan(
                LockScanV {
                    found: found,
                    done: done,
                    semver: opt_str_view(semver),
                    git_hash: opt_str_view(git_hash),
                },
                linesv,
                i as int,
                name@,
            ),
        decreases n - i,
    {
        proof {
            assert(linesv[i as int] == lines@[i as int]@);
        }
        let line: &String = &lines[i];
        let ghost st_before = LockScanV {
            found: found,
            done: done,
            semver: opt_str_view(semver),
            git_hash: opt_str_view(git_hash),
        };
        if !done {
            if starts_with(line.as_str(), "[[package]]") && found {
                done = true;
            } else {
                if !found {
                    found = starts_with(line.as_str(), name_line.as_str());
                }
                if found {
                    if starts_with(line.as_str(), "version = ") {
                        semver = Some(version_value_exec(line.as_str()));
                    }
                    if starts_with(line.as_str(), "source = \"git") {
                        git_hash = Some(git_hash_value_exec(line.as_str()));
                    } else if starts_with(line.as_str(), "source = \"registry") {
                        git_hash = Some(String::new());
                    }
                }
            }
        }
        proof {
            let st_after = LockScanV {
                found: found,
                done: done,
                semver: opt_str_view(semver),
                git_hash: opt_str_view(git_hash),
            };
            assert(st_after =~= lock_step(st_before, linesv[i as int], name@));
        }
        i = i + 1;
    }
    if found {
        match (semver, git_hash) {
            (Some(s), Some(g)) => Some(Version { semver: s, git_hash: g }),
            _ => None,
        }
    } else {
        None
    }
}

/// Executable counterpart of `version_value`.
fn version_value_exec(line: &str) -> (r: String)
    ensures
        r@ == version_value(line@),
{
    let n = char_len(line);
    if n >= 11 {
        let lo = skip_char_run_exec(line, '"', 11, n);
        let hi = rtrim_char_run_exec(line, '"', lo, n);
        substr_copy(line, lo, hi)
    } else {
        String::new()
    }
}

/// Executable counterpart of `git_hash_value`.
fn git_hash_value_exec(line: &str) -> (r: String)
    ensures
        r@ == git_hash_value(line@),
{
    let n = char_len(line);
    let start = match rfind_char_exec(line, '#', 0, n) {
        Some(i) => i + 1,
        None => n,
    };
    let end = if n == 0 || start > n - 1 {
        start
    } else {
        n - 1
    };
    substr_copy(line, start, end)
}

} // verus!
