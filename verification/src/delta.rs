//! Version deltas: which crates moved from which version to which, parsed
//! out of the audit tool's report.

use vstd::prelude::*;
use vstd::string::StrSliceExecFns;
use crate::strutil::{
    char_len, contains_sub, contains_sub_exec, find_char, find_char_exec, find_sub, find_sub_exec,
    skip_spaces, skip_spaces_exec, substr_copy, until_space, until_space_exec,
};
use crate::version::{empty_version, Version, VersionV};

verus! {

/// One crate's move from a previous version to a next one.
#[derive(Clone, Debug, PartialEq)]
pub struct Delta {
    pub name: String,
    pub prev: Version,
    pub next: Version,
}

/// Mathematical image of a [`Delta`].
#[verifier::ext_equal]
pub struct DeltaV {
    pub name: Seq<char>,
    pub prev: VersionV,
    pub next: VersionV,
}

impl View for Delta {
    type V = DeltaV;

    open spec fn view(&self) -> DeltaV {
        DeltaV { name: self.name@, prev: self.prev@, next: self.next@ }
    }
}

impl DeepView for Delta {
    type V = DeltaV;

    open spec fn deep_view(&self) -> DeltaV {
        self.view()
    }
}

impl Delta {
    /// A delta for `name` with both versions still empty.
    pub fn new(name: &str) -> (r: Delta)
        ensures
            r@ =~= (DeltaV { name: name@, prev: empty_version(), next: empty_version() }),
    {
        Delta {
            name: String::from_str(name),
            prev: Version::new_empty(),
            next: Version::new_empty(),
        }
    }
}

/// A parsed `{crate}:{semver}@git:{hash}` token.
#[verifier::ext_equal]
pub struct CrateVersionV {
    pub name: Seq<char>,
    pub version: VersionV,
}

/// Specification of [`parse_crate_and_version`]: take the first
/// whitespace-separated token, split off an `@git:` suffix as the hash,
/// and split the rest at its first `:` into crate name and semver.
pub open spec fn parse_cv(s: Seq<char>) -> Option<CrateVersionV> {
    let n = s.len() as int;
    let a = skip_spaces(s, 0, n);
    if a == n {
        None
    } else {
        let b = until_space(s, a, n);
        let tok = s.subrange(a, b);
        let cv = match find_sub(tok, "@git:"@, 0) {
            Some(g) => tok.subrange(0, g),
            None => tok,
        };
        let gh = match find_sub(tok, "@git:"@, 0) {
            Some(g) => tok.subrange(g + "@git:"@.len(), tok.len() as int),
            None => Seq::<char>::empty(),
        };
        let colon = match find_char(cv, ':', 0, cv.len() as int) {
            Some(c) => c,
            None => cv.len() as int,
        };
        let name = cv.subrange(0, colon);
        let semver = if colon + 1 < cv.len() {
            cv.subrange(colon + 1, cv.len() as int)
        } else {
            Seq::<char>::empty()
        };
        Some(CrateVersionV { name: name, version: VersionV { semver: semver, git_hash: gh } })
    }
}

/// Parse a report line of the shape
/// `{crate}:{semver}@git:{hash} missing ["safe-to-deploy"]`
/// into the crate name and its version.
pub fn parse_crate_and_version(src: &str) -> (r: Option<(String, Version)>)
    ensures
        match r {
            Some(p) => parse_cv(src@) == Some(CrateVersionV { name: p.0@, version: p.1@ }),
            None => parse_cv(src@) is None,
        },
{
    let n = char_len(src);
    let a = skip_spaces_exec(src, 0, n);
    if a == n {
        return None;
    }
    let b = until_space_exec(src, a, n);
    let tok = substr_copy(src, a, b);
    let tn = char_len(tok.as_str());
    let pat_len = char_len("@git:");
    let git_pos = find_sub_exec(tok.as_str(), "@git:", 0);
    let cv = match git_pos {
        Some(g) => substr_copy(tok.as_str(), 0, g),
        None => tok.clone(),
    };
    let gh = match git_pos {
        Some(g) => substr_copy(tok.as_str(), g + pat_len, tn),
        None => String::new(),
    };
    let cn = char_len(cv.as_str());
    let colon = match find_char_exec(cv.as_str(), ':', 0, cn) {
        Some(c) => c,
        None => cn,
    };
    let name = substr_copy(cv.as_str(), 0, colon);
    let semver = if cn > 0 && colon < cn - 1 {
        substr_copy(cv.as_str(), colon + 1, cn)
    } else {
        String::new()
    };
    Some((name, Version { semver: semver, git_hash: gh }))
}

/// The line marker the audit report puts on crates still to be vetted.
pub open spec fn vet_marker() -> Seq<char> {
    "missing [\"safe-to-deploy\"]"@
}

/// Set the `next` version of the first delta named `name`, scanning from
/// `i`; the list is unchanged when no delta matches.
pub open spec fn set_next_from(ds: Seq<DeltaV>, name: Seq<char>, v: VersionV, i: int) -> Seq<
    DeltaV,
>
    decreases ds.len() - i,
    when 0 <= i <= ds.len()
{
    if i >= ds.len() {
        ds
    } else if ds[i].name == name {
        ds.update(i, DeltaV { name: ds[i].name, prev: ds[i].prev, next: v })
    } else {
        set_next_from(ds, name, v, i + 1)
    }
}

/// What one report line does to the delta list.
pub open spec fn apply_vet_line(ds: Seq<DeltaV>, line: Seq<char>) -> Seq<DeltaV> {
    if contains_sub(line, vet_marker()) {
        match parse_cv(line) {
            Some(cv) => set_next_from(ds, cv.name, cv.version, 0),
            None => ds,
        }
    } else {
        ds
    }
}

/// The report lines folded over the delta list.
pub open spec fn apply_vet_lines(ds: Seq<DeltaV>, lines: Seq<Seq<char>>, i: int) -> Seq<DeltaV>
    decreases lines.len() - i,
    when 0 <= i <= lines.len()
{
    if i >= lines.len() {
        ds
    } else {
        apply_vet_lines(apply_vet_line(ds, lines[i]), lines, i + 1)
    }
}

/// Deltas the report did not mention keep their previous version.
pub open spec fn fill_missing(ds: Seq<DeltaV>) -> Seq<DeltaV> {
    ds.map_values(
        |d: DeltaV|
            if d.next.semver.len() == 0 {
                DeltaV { name: d.name, prev: d.prev, next: d.prev }
            } else {
                d
            },
    )
}

/// The full effect of scanning an audit report for new versions.
pub open spec fn find_deltas_spec(ds: Seq<DeltaV>, lines: Seq<Seq<char>>) -> Seq<DeltaV> {
    fill_missing(apply_vet_lines(ds, lines, 0))
}

/// Set the `next` version of the first delta named `name`.
fn set_next_exec(deltas: &mut Vec<Delta>, name: &str, v: Version)
    ensures
        final(deltas).deep_view() == set_next_from(old(deltas).deep_view(), name@, v@, 0),
        final(deltas)@.len() == old(deltas)@.len(),
{
    let ghost ds0 = deltas.deep_view();
    let n = deltas.len();
    let mut k: usize = 0;
    while k < n
        invariant
            k <= n,
            n == deltas@.len(),
            ds0 == old(deltas).deep_view(),
            ds0.len() == old(deltas)@.len(),
            deltas.deep_view() == ds0,
            set_next_from(ds0, name@, v@, 0) == set_next_from(ds0, name@, v@, k as int),
        decreases n - k,
    {
        proof {
            assert(ds0[k as int] == deltas@[k as int]@);
        }
        if crate::strutil::str_eq(deltas[k].name.as_str(), name) {
            let nm = deltas[k].name.clone();
            let pv = Version {
                semver: deltas[k].prev.semver.clone(),
                git_hash: deltas[k].prev.git_hash.clone(),
            };
            let nd = Delta { name: nm, prev: pv, next: v };
            proof {
                assert(nd@ =~= (DeltaV { name: ds0[k as int].name, prev: ds0[k as int].prev, next: v@ }));
            }
            deltas[k] = nd;
            proof {
                assert(deltas.deep_view() =~= ds0.update(
                    k as int,
                    DeltaV { name: ds0[k as int].name, prev: ds0[k as int].prev, next: v@ },
                ));
            }
            return ;
        }
        k = k + 1;
    }
}

/// Scan the audit report for crates still to be vetted, record the version
/// the report shows as each matching delta's next version, and let every
/// delta the report did not mention keep its previous version.
pub fn find_deltas(deltas: &mut Vec<Delta>, lines: &Vec<String>)
    ensures
        final(deltas).deep_view() == find_deltas_spec(old(deltas).deep_view(), lines.deep_view()),
{
    let ghost ds0 = deltas.deep_view();
    let ghost linesv = lines.deep_view();
    let n = lines.len();
    let mut i: usize = 0;
    while i < n
        invariant
            i <= n,
            n == lines@.len(),
            linesv == lines.deep_view(),
            apply_vet_lines(deltas.deep_view(), linesv, i as int) == apply_vet_lines(
                ds0,
                linesv,
                0,
            ),
        decreases n - i,
    {
        proof {
            assert(linesv[i as int] == lines@[i as int]@);
        }
        let line: &String = &lines[i];
        if contains_sub_exec(line.as_str(), "missing [\"safe-to-deploy\"]") {
            match parse_crate_and_version(line.as_str()) {
                Some((nm, v)) => {
                    set_next_exec(deltas, nm.as_str(), v);
                },
                None => (),
            }
        }
        i = i + 1;
    }
    let ghost ds1 = deltas.deep_view();
    let m = deltas.len();
    let mut k: usize = 0;
    while k < m
        invariant
            k <= m,
            m == deltas@.len(),
            deltas@.len() == ds1.len(),
            forall|j: int| 0 <= j < k ==> deltas.deep_view()[j] == #[trigger] fill_missing(ds1)[j],
            forall|j: int| k <= j < m ==> deltas.deep_view()[j] == #[trigger] ds1[j],
        decreases m - k,
    {
        proof {
            assert(ds1[k as int] == deltas.deep_view()[k as int]);
        }
        if deltas[k].next.semver.as_str().unicode_len() == 0 {
            let ghost before = deltas.deep_view();
            let nm = deltas[k].name.clone();
            let pv = Version {
                semver: deltas[k].prev.semver.clone(),
                git_hash: deltas[k].prev.git_hash.clone(),
            };
            let pv2 = Version {
                semver: deltas[k].prev.semver.clone(),
                git_hash: deltas[k].prev.git_hash.clone(),
            };
            deltas[k] = Delta { name: nm, prev: pv, next: pv2 };
            proof {
                let ghost dk = ds1[k as int];
                assert(deltas.deep_view() =~= before.update(
                    k as int,
                    DeltaV { name: dk.name, prev: dk.prev, next: dk.prev },
                ));
            }
        }
        k = k + 1;
    }
    proof {
        assert(deltas.deep_view() =~= fill_missing(ds1));
    }
}

} // verus!
