//! The section tracker and field rewriter: a one-pass, line-streaming
//! patcher for TOML-like and YAML-like dependency manifests.
//!
//! Each input line first updates the tracker state (which dependency, if
//! any, owns the current section), then is either emitted unchanged or has
//! exactly its value field replaced.  The whole pass is specified by the
//! pure step function [`step_spec`] and its fold [`run_from`]; the
//! executable patcher is proved to compute precisely that fold.

use vstd::prelude::*;
use vstd::string::StrSliceExecFns;
use crate::line_parse::{
    header_path, parse_line, parse_matches, parse_section_header, parse_toml_line, toml_parse,
    yaml_parse, LinePartsV, ParsedLine,
};
pub use crate::strutil::opt_str_view;
use crate::strutil::{concat4, concat5, concat6, str_eq};

verus! {

/// Which of the two supported document shapes is being patched.
#[derive(Clone, Copy, Debug, PartialEq, Eq, Structural)]
pub enum PatchMode {
    /// Bracketed table headers, `key = "value"` lines.
    Toml,
    /// Indentation sections, `key: value` lines.
    Yaml,
}

/// One requested rewrite: a dependency identifier (registry package name or
/// source URL) and the target version to substitute.  An empty `semver` or
/// `revision` means "do not touch that field".
#[derive(Clone, Debug)]
pub struct Update {
    pub key: String,
    pub semver: String,
    pub revision: String,
}

/// Mathematical image of an [`Update`].
#[verifier::ext_equal]
pub struct UpdateV {
    pub key: Seq<char>,
    pub semver: Seq<char>,
    pub revision: Seq<char>,
}

impl View for Update {
    type V = UpdateV;

    open spec fn view(&self) -> UpdateV {
        UpdateV { key: self.key@, semver: self.semver@, revision: self.revision@ }
    }
}

/// The view of a whole update list.
pub open spec fn ups_view(ups: Seq<Update>) -> Seq<UpdateV> {
    ups.map_values(|u: Update| u@)
}

/// The structural diagnostics a pass can surface; none of them stops it.
#[derive(Clone, Copy, Debug, PartialEq, Eq, Structural)]
pub enum WarnKind {
    /// An identifying line matched after a value line had already been seen
    /// in the same section; earlier output cannot be fixed retroactively.
    LateIdentifier,
    /// A second identifying line matched a different requested dependency in
    /// the same section; the first match stands.
    ConflictingIdentifier,
    /// A second candidate line for a field already rewritten in this
    /// section; the first write stands.
    DuplicateField,
}

/// A diagnostic attached to the input line that provoked it.
#[derive(Clone, Copy, Debug, PartialEq, Eq, Structural)]
pub struct Warning {
    pub line: usize,
    pub kind: WarnKind,
}

/// Mathematical image of a [`Warning`].
#[verifier::ext_equal]
pub struct WarnV {
    pub line: int,
    pub kind: WarnKind,
}

impl View for Warning {
    type V = WarnV;

    open spec fn view(&self) -> WarnV {
        WarnV { line: self.line as int, kind: self.kind }
    }
}

impl DeepView for Warning {
    type V = WarnV;

    open spec fn deep_view(&self) -> WarnV {
        self.view()
    }
}

/// The tracker state carried from one line to the next.
pub struct TrackState {
    /// Index into the update list of the dependency owning this section.
    pub bound: Option<usize>,
    /// Indentation of the previous content line (YAML-like mode only).
    pub prev_indent: String,
    /// A candidate value line was already seen in this section.
    pub saw_value: bool,
    /// The revision field of this section was already rewritten.
    pub wrote_revision: bool,
    /// The version field of this section was already rewritten.
    pub wrote_version: bool,
    /// The release field of this section was already rewritten.
    pub wrote_release: bool,
}

/// Mathematical image of a [`TrackState`].
#[verifier::ext_equal]
pub struct TrackStateV {
    pub bound: Option<int>,
    pub prev_indent: Seq<char>,
    pub saw_value: bool,
    pub wrote_revision: bool,
    pub wrote_version: bool,
    pub wrote_release: bool,
}

impl View for TrackState {
    type V = TrackStateV;

    open spec fn view(&self) -> TrackStateV {
        TrackStateV {
            bound: match self.bound {
                Some(i) => Some(i as int),
                None => None,
            },
            prev_indent: self.prev_indent@,
            saw_value: self.saw_value,
            wrote_revision: self.wrote_revision,
            wrote_version: self.wrote_version,
            wrote_release: self.wrote_release,
        }
    }
}

/// A tracker state is well formed for an update list when its binding, if
/// any, indexes into that list.
pub open spec fn st_wf(st: TrackStateV, ups: Seq<UpdateV>) -> bool {
    match st.bound {
        Some(i) => 0 <= i < ups.len(),
        None => true,
    }
}

/// The state at the top of a document: nothing bound, nothing seen.
pub open spec fn initial_state() -> TrackStateV {
    TrackStateV {
        bound: None,
        prev_indent: Seq::empty(),
        saw_value: false,
        wrote_revision: false,
        wrote_version: false,
        wrote_release: false,
    }
}

/// Keys whose value names a dependency (bind the section to an update).
pub open spec fn is_identifying_key(m: PatchMode, k: Seq<char>) -> bool {
    match m {
        PatchMode::Yaml => k == "url"@ || k == "name"@,
        PatchMode::Toml => k == "git"@ || k == "package"@,
    }
}

/// Identifying keys that carry a source locator, eligible for the marker
/// override rewrite.
pub open spec fn is_locator_key(m: PatchMode, k: Seq<char>) -> bool {
    match m {
        PatchMode::Yaml => k == "url"@,
        PatchMode::Toml => k == "git"@,
    }
}

/// Keys holding the pinned revision.
pub open spec fn is_revision_key(m: PatchMode, k: Seq<char>) -> bool {
    match m {
        PatchMode::Yaml => k == "revision"@,
        PatchMode::Toml => k == "rev"@ || k == "revision"@,
    }
}

/// The YAML-like `release` field, rewritten as `release: commit <rev>`.
pub open spec fn is_release_key(m: PatchMode, k: Seq<char>) -> bool {
    m is Yaml && k == "release"@
}

/// Keys holding the semantic version.
pub open spec fn is_version_key(k: Seq<char>) -> bool {
    k == "version"@
}

/// Any key the field rewriter may substitute.
pub open spec fn is_value_key(m: PatchMode, k: Seq<char>) -> bool {
    is_revision_key(m, k) || is_release_key(m, k) || is_version_key(k)
}

/// First update whose identifier equals `v`, searching from `i`.
pub open spec fn find_update_from(ups: Seq<UpdateV>, v: Seq<char>, i: int) -> Option<int>
    decreases ups.len() - i,
    when 0 <= i <= ups.len()
{
    if i >= ups.len() {
        None
    } else if ups[i].key == v {
        Some(i)
    } else {
        find_update_from(ups, v, i + 1)
    }
}

/// Does a bracketed table path name the dependency `name`, i.e. end in
/// `dependencies.<name>`?
pub open spec fn path_names_dep(path: Seq<Seq<char>>, name: Seq<char>) -> bool {
    path.len() >= 2 && path[path.len() - 1] == name && path[path.len() - 2] == "dependencies"@
}

/// First update named by a table path, searching from `i`.
pub open spec fn header_update_from(ups: Seq<UpdateV>, path: Seq<Seq<char>>, i: int) -> Option<
    int,
>
    decreases ups.len() - i,
    when 0 <= i <= ups.len()
{
    if i >= ups.len() {
        None
    } else if path_names_dep(path, ups[i].key) {
        Some(i)
    } else {
        header_update_from(ups, path, i + 1)
    }
}

/// The line a value substitution emits: same indentation, the matched key,
/// the canonical separator, the new value, then the original suffix.
pub open spec fn emit_value_line(
    m: PatchMode,
    indent: Seq<char>,
    key: Seq<char>,
    value: Seq<char>,
    suffix: Seq<char>,
) -> Seq<char> {
    match m {
        PatchMode::Yaml => indent + key + ": "@ + value + suffix,
        PatchMode::Toml => indent + key + " = \""@ + value + "\""@ + suffix,
    }
}

/// The line a YAML-like `release` substitution emits.
pub open spec fn emit_release_line(indent: Seq<char>, value: Seq<char>, suffix: Seq<char>) -> Seq<
    char,
> {
    indent + "release: commit "@ + value + suffix
}

/// What one line produces: the next state, the output line, the previous
/// revision value if one was replaced, and at most one diagnostic.
#[verifier::ext_equal]
pub struct StepV {
    pub st: TrackStateV,
    pub out: Seq<char>,
    pub prev_rev: Option<Seq<char>>,
    pub warn: Option<WarnKind>,
}

/// A line that passes through unchanged.
pub open spec fn step_pass(st: TrackStateV, line: Seq<char>) -> StepV {
    StepV { st: st, out: line, prev_rev: None, warn: None }
}

/// The tokenizer of the current mode.
pub open spec fn mode_parse(m: PatchMode, line: Seq<char>) -> Option<LinePartsV> {
    match m {
        PatchMode::Yaml => yaml_parse(line),
        PatchMode::Toml => toml_parse(line),
    }
}

/// A content line, after any section reset has been applied to `st`.
pub open spec fn step_content(
    m: PatchMode,
    st: TrackStateV,
    line: Seq<char>,
    p: LinePartsV,
    ups: Seq<UpdateV>,
    ov: Option<Seq<char>>,
) -> StepV {
    if is_identifying_key(m, p.key) {
        match find_update_from(ups, p.value, 0) {
            None => step_pass(st, line),
            Some(i) => {
                if st.bound is Some && st.bound->0 != i {
                    StepV { st: st, out: line, prev_rev: None, warn: Some(
                        WarnKind::ConflictingIdentifier,
                    ) }
                } else {
                    let warn = if st.saw_value {
                        Some(WarnKind::LateIdentifier)
                    } else {
                        None
                    };
                    let st2 = TrackStateV {
                        bound: Some(i),
                        prev_indent: st.prev_indent,
                        saw_value: st.saw_value,
                        wrote_revision: st.wrote_revision,
                        wrote_version: st.wrote_version,
                        wrote_release: st.wrote_release,
                    };
                    let out = if is_locator_key(m, p.key) && ov is Some {
                        emit_value_line(m, p.indent, p.key, ov->0, p.suffix)
                    } else {
                        line
                    };
                    StepV { st: st2, out: out, prev_rev: None, warn: warn }
                }
            },
        }
    } else if is_value_key(m, p.key) {
        let sts = TrackStateV {
            bound: st.bound,
            prev_indent: st.prev_indent,
            saw_value: true,
            wrote_revision: st.wrote_revision,
            wrote_version: st.wrote_version,
            wrote_release: st.wrote_release,
        };
        match st.bound {
            None => step_pass(sts, line),
            Some(i) => {
                if is_revision_key(m, p.key) {
                    if ups[i].revision.len() == 0 {
                        step_pass(sts, line)
                    } else if st.wrote_revision {
                        StepV { st: sts, out: line, prev_rev: None, warn: Some(
                            WarnKind::DuplicateField,
                        ) }
                    } else {
                        StepV {
                            st: TrackStateV {
                                bound: sts.bound,
                                prev_indent: sts.prev_indent,
                                saw_value: true,
                                wrote_revision: true,
                                wrote_version: sts.wrote_version,
                                wrote_release: sts.wrote_release,
                            },
                            out: emit_value_line(m, p.indent, p.key, ups[i].revision, p.suffix),
                            prev_rev: Some(p.value),
                            warn: None,
                        }
                    }
                } else if is_release_key(m, p.key) {
                    if ups[i].revision.len() == 0 {
                        step_pass(sts, line)
                    } else if st.wrote_release {
                        StepV { st: sts, out: line, prev_rev: None, warn: Some(
                            WarnKind::DuplicateField,
                        ) }
                    } else {
                        StepV {
                            st: TrackStateV {
                                bound: sts.bound,
                                prev_indent: sts.prev_indent,
                                saw_value: true,
                                wrote_revision: sts.wrote_revision,
                                wrote_version: sts.wrote_version,
                                wrote_release: true,
                            },
                            out: emit_release_line(p.indent, ups[i].revision, p.suffix),
                            prev_rev: None,
                            warn: None,
                        }
                    }
                } else {
                    if ups[i].semver.len() == 0 {
                        step_pass(sts, line)
                    } else if st.wrote_version {
                        StepV { st: sts, out: line, prev_rev: None, warn: Some(
                            WarnKind::DuplicateField,
                        ) }
                    } else {
                        StepV {
                            st: TrackStateV {
                                bound: sts.bound,
                                prev_indent: sts.prev_indent,
                                saw_value: true,
                                wrote_revision: sts.wrote_revision,
                                wrote_version: true,
                                wrote_release: sts.wrote_release,
                            },
                            out: emit_value_line(m, p.indent, p.key, ups[i].semver, p.suffix),
                            prev_rev: None,
                            warn: None,
                        }
                    }
                }
            },
        }
    } else {
        step_pass(st, line)
    }
}

/// One full step of the patcher on one line.
///
/// In TOML-like mode a bracketed header resets the section and may bind an
/// update through its dotted path.  In YAML-like mode a change of
/// indentation on a content line resets the section.  Lines the tokenizer
/// rejects pass through untouched and leave the state alone.
pub open spec fn step_spec(
    m: PatchMode,
    st: TrackStateV,
    line: Seq<char>,
    ups: Seq<UpdateV>,
    ov: Option<Seq<char>>,
) -> StepV {
    if m is Toml && header_path(line) is Some {
        let path = header_path(line)->0;
        StepV {
            st: TrackStateV {
                bound: header_update_from(ups, path, 0),
                prev_indent: st.prev_indent,
                saw_value: false,
                wrote_revision: false,
                wrote_version: false,
                wrote_release: false,
            },
            out: line,
            prev_rev: None,
            warn: None,
        }
    } else {
        match mode_parse(m, line) {
            None => step_pass(st, line),
            Some(p) => {
                let st1 = if m is Yaml && p.indent != st.prev_indent {
                    TrackStateV {
                        bound: None,
                        prev_indent: p.indent,
                        saw_value: false,
                        wrote_revision: false,
                        wrote_version: false,
                        wrote_release: false,
                    }
                } else {
                    st
                };
                step_content(m, st1, line, p, ups, ov)
            },
        }
    }
}

/// The result of a whole pass.
#[verifier::ext_equal]
pub struct RunV {
    pub outs: Seq<Seq<char>>,
    pub prev_revs: Seq<Seq<char>>,
    pub warns: Seq<WarnV>,
}

/// Fold of [`step_spec`] over `lines[i..]`, starting in state `st`.
pub open spec fn run_from(
    m: PatchMode,
    st: TrackStateV,
    lines: Seq<Seq<char>>,
    i: int,
    ups: Seq<UpdateV>,
    ov: Option<Seq<char>>,
) -> RunV
    decreases lines.len() - i,
    when 0 <= i <= lines.len()
{
    if i >= lines.len() {
        RunV { outs: Seq::empty(), prev_revs: Seq::empty(), warns: Seq::empty() }
    } else {
        let stp = step_spec(m, st, lines[i], ups, ov);
        let rest = run_from(m, stp.st, lines, i + 1, ups, ov);
        RunV {
            outs: seq![stp.out] + rest.outs,
            prev_revs: (match stp.prev_rev {
                Some(v) => seq![v],
                None => Seq::empty(),
            }) + rest.prev_revs,
            warns: (match stp.warn {
                Some(k) => seq![WarnV { line: i, kind: k }],
                None => Seq::empty(),
            }) + rest.warns,
        }
    }
}

/// The whole pass from the initial state.
pub open spec fn run_patch(
    m: PatchMode,
    lines: Seq<Seq<char>>,
    ups: Seq<UpdateV>,
    ov: Option<Seq<char>>,
) -> RunV {
    run_from(m, initial_state(), lines, 0, ups, ov)
}

/// Is `k` a key whose value identifies a dependency in mode `m`?
fn is_identifying_key_exec(m: PatchMode, k: &str) -> (b: bool)
    ensures
        b == is_identifying_key(m, k@),
{
    match m {
        PatchMode::Yaml => str_eq(k, "url") || str_eq(k, "name"),
        PatchMode::Toml => str_eq(k, "git") || str_eq(k, "package"),
    }
}

/// Is `k` a source-locator key in mode `m`?
fn is_locator_key_exec(m: PatchMode, k: &str) -> (b: bool)
    ensures
        b == is_locator_key(m, k@),
{
    match m {
        PatchMode::Yaml => str_eq(k, "url"),
        PatchMode::Toml => str_eq(k, "git"),
    }
}

/// Is `k` a revision key in mode `m`?
fn is_revision_key_exec(m: PatchMode, k: &str) -> (b: bool)
    ensures
        b == is_revision_key(m, k@),
{
    match m {
        PatchMode::Yaml => str_eq(k, "revision"),
        PatchMode::Toml => str_eq(k, "rev") || str_eq(k, "revision"),
    }
}

/// Is `k` the YAML-like release key in mode `m`?
fn is_release_key_exec(m: PatchMode, k: &str) -> (b: bool)
    ensures
        b == is_release_key(m, k@),
{
    match m {
        PatchMode::Yaml => str_eq(k, "release"),
        PatchMode::Toml => false,
    }
}

/// Is `k` the version key?
fn is_version_key_exec(k: &str) -> (b: bool)
    ensures
        b == is_version_key(k@),
{
    str_eq(k, "version")
}

/// First update whose identifier equals `v`.
pub fn find_update_exec(ups: &Vec<Update>, v: &str) -> (r: Option<usize>)
    ensures
        match r {
            Some(i) => i < ups@.len() && find_update_from(ups_view(ups@), v@, 0) == Some(i as int),
            None => find_update_from(ups_view(ups@), v@, 0) is None,
        },
{
    let n = ups.len();
    let mut j: usize = 0;
    while j < n
        invariant
            j <= n,
            n == ups@.len(),
            find_update_from(ups_view(ups@), v@, 0) == find_update_from(ups_view(ups@), v@, j as int),
        decreases n - j,
    {
        proof {
            assert(ups_view(ups@)[j as int] == ups@[j as int]@);
        }
        if str_eq(ups[j].key.as_str(), v) {
            return Some(j);
        }
        j = j + 1;
    }
    None
}

/// Does the bracketed path name dependency `name`?
fn path_names_dep_exec(path: &Vec<String>, name: &str) -> (b: bool)
    ensures
        b == path_names_dep(path.deep_view(), name@),
{
    let n = path.len();
    if n < 2 {
        return false;
    }
    proof {
        assert(path.deep_view()[n - 1] == path@[n - 1]@);
        assert(path.deep_view()[n - 2] == path@[n - 2]@);
    }
    str_eq(path[n - 1].as_str(), name) && str_eq(path[n - 2].as_str(), "dependencies")
}

/// First update named by the bracketed path.
fn find_header_update(ups: &Vec<Update>, path: &Vec<String>) -> (r: Option<usize>)
    ensures
        match r {
            Some(i) => i < ups@.len() && header_update_from(ups_view(ups@), path.deep_view(), 0)
                == Some(i as int),
            None => header_update_from(ups_view(ups@), path.deep_view(), 0) is None,
        },
{
    let n = ups.len();
    let mut j: usize = 0;
    while j < n
        invariant
            j <= n,
            n == ups@.len(),
            header_update_from(ups_view(ups@), path.deep_view(), 0) == header_update_from(
                ups_view(ups@),
                path.deep_view(),
                j as int,
            ),
        decreases n - j,
    {
        proof {
            assert(ups_view(ups@)[j as int] == ups@[j as int]@);
        }
        if path_names_dep_exec(path, ups[j].key.as_str()) {
            return Some(j);
        }
        j = j + 1;
    }
    None
}

/// Build the substituted line for a value field.
fn emit_value_exec(m: PatchMode, p: &ParsedLine, v: &str) -> (r: String)
    ensures
        r@ == emit_value_line(m, p.indent@, p.key@, v@, p.suffix@),
{
    match m {
        PatchMode::Yaml => concat5(p.indent.as_str(), p.key.as_str(), ": ", v, p.suffix.as_str()),
        PatchMode::Toml => concat6(
            p.indent.as_str(),
            p.key.as_str(),
            " = \"",
            v,
            "\"",
            p.suffix.as_str(),
        ),
    }
}

/// Build the substituted line for a YAML-like release field.
fn emit_release_exec(p: &ParsedLine, v: &str) -> (r: String)
    ensures
        r@ == emit_release_line(p.indent@, v@, p.suffix@),
{
    concat4(p.indent.as_str(), "release: commit ", v, p.suffix.as_str())
}

/// A content line after any section reset: decide and emit.
fn apply_content(
    m: PatchMode,
    st: TrackState,
    line: &String,
    p: ParsedLine,
    ups: &Vec<Update>,
    ov: &Option<String>,
) -> (r: (TrackState, String, Option<String>, Option<WarnKind>))
    requires
        st_wf(st@, ups_view(ups@)),
    ensures
        ({
            let stp = step_content(m, st@, line@, p@, ups_view(ups@), opt_str_view(*ov));
            r.0@ == stp.st && r.1@ == stp.out && opt_str_view(r.2) == stp.prev_rev && r.3
                == stp.warn
        }),
        st_wf(r.0@, ups_view(ups@)),
{
    if is_identifying_key_exec(m, p.key.as_str()) {
        match find_update_exec(ups, p.value.as_str()) {
            None => (st, line.clone(), None, None),
            Some(i) => {
                let conflict = match st.bound {
                    Some(j) => j != i,
                    None => false,
                };
                if conflict {
                    (st, line.clone(), None, Some(WarnKind::ConflictingIdentifier))
                } else {
                    let warn = if st.saw_value {
                        Some(WarnKind::LateIdentifier)
                    } else {
                        None
                    };
                    let out = if is_locator_key_exec(m, p.key.as_str()) && ov.is_some() {
                        emit_value_exec(m, &p, ov.as_ref().unwrap().as_str())
                    } else {
                        line.clone()
                    };
                    let st2 = TrackState {
                        bound: Some(i),
                        prev_indent: st.prev_indent,
                        saw_value: st.saw_value,
                        wrote_revision: st.wrote_revision,
                        wrote_version: st.wrote_version,
                        wrote_release: st.wrote_release,
                    };
                    (st2, out, None, warn)
                }
            },
        }
    } else if is_revision_key_exec(m, p.key.as_str()) || is_release_key_exec(m, p.key.as_str())
        || is_version_key_exec(p.key.as_str()) {
        let sts = TrackState {
            bound: st.bound,
            prev_indent: st.prev_indent,
            saw_value: true,
            wrote_revision: st.wrote_revision,
            wrote_version: st.wrote_version,
            wrote_release: st.wrote_release,
        };
        match sts.bound {
            None => (sts, line.clone(), None, None),
            Some(i) => {
                let u = &ups[i];
                if is_revision_key_exec(m, p.key.as_str()) {
                    proof {
                        assert(ups_view(ups@)[i as int] == ups@[i as int]@);
                    }
                    if u.revision.as_str().unicode_len() == 0 {
                        (sts, line.clone(), None, None)
                    } else if sts.wrote_revision {
                        (sts, line.clone(), None, Some(WarnKind::DuplicateField))
                    } else {
                        let out = emit_value_exec(m, &p, u.revision.as_str());
                        let st2 = TrackState {
                            bound: sts.bound,
                            prev_indent: sts.prev_indent,
                            saw_value: true,
                            wrote_revision: true,
                            wrote_version: sts.wrote_version,
                            wrote_release: sts.wrote_release,
                        };
                        (st2, out, Some(p.value), None)
                    }
                } else if is_release_key_exec(m, p.key.as_str()) {
                    proof {
                        assert(ups_view(ups@)[i as int] == ups@[i as int]@);
                    }
                    if u.revision.as_str().unicode_len() == 0 {
                        (sts, line.clone(), None, None)
                    } else if sts.wrote_release {
                        (sts, line.clone(), None, Some(WarnKind::DuplicateField))
                    } else {
                        let out = emit_release_exec(&p, u.revision.as_str());
                        let st2 = TrackState {
                            bound: sts.bound,
                            prev_indent: sts.prev_indent,
                            saw_value: true,
                            wrote_revision: sts.wrote_revision,
                            wrote_version: sts.wrote_version,
                            wrote_release: true,
                        };
                        (st2, out, None, None)
                    }
                } else {
                    proof {
                        assert(ups_view(ups@)[i as int] == ups@[i as int]@);
                    }
                    if u.semver.as_str().unicode_len() == 0 {
                        (sts, line.clone(), None, None)
                    } else if sts.wrote_version {
                        (sts, line.clone(), None, Some(WarnKind::DuplicateField))
                    } else {
                        let out = emit_value_exec(m, &p, u.semver.as_str());
                        let st2 = TrackState {
                            bound: sts.bound,
                            prev_indent: sts.prev_indent,
                            saw_value: true,
                            wrote_revision: sts.wrote_revision,
                            wrote_version: true,
                            wrote_release: sts.wrote_release,
                        };
                        (st2, out, None, None)
                    }
                }
            },
        }
    } else {
        (st, line.clone(), None, None)
    }
}

/// One full executable step of the patcher.
pub fn apply_step(
    m: PatchMode,
    st: TrackState,
    line: &String,
    ups: &Vec<Update>,
    ov: &Option<String>,
) -> (r: (TrackState, String, Option<String>, Option<WarnKind>))
    requires
        st_wf(st@, ups_view(ups@)),
    ensures
        ({
            let stp = step_spec(m, st@, line@, ups_view(ups@), opt_str_view(*ov));
            r.0@ == stp.st && r.1@ == stp.out && opt_str_view(r.2) == stp.prev_rev && r.3
                == stp.warn
        }),
        st_wf(r.0@, ups_view(ups@)),
{
    if m == PatchMode::Toml {
        if let Some(path) = parse_section_header(line.as_str()) {
            let b = find_header_update(ups, &path);
            let st2 = TrackState {
                bound: b,
                prev_indent: st.prev_indent,
                saw_value: false,
                wrote_revision: false,
                wrote_version: false,
                wrote_release: false,
            };
            return (st2, line.clone(), None, None);
        }
        match parse_toml_line(line.as_str()) {
            None => (st, line.clone(), None, None),
            Some(p) => apply_content(m, st, line, p, ups, ov),
        }
    } else {
        match parse_line(line.as_str()) {
            None => (st, line.clone(), None, None),
            Some(p) => {
                let st1 = if !str_eq(p.indent.as_str(), st.prev_indent.as_str()) {
                    TrackState {
                        bound: None,
                        prev_indent: p.indent.clone(),
                        saw_value: false,
                        wrote_revision: false,
                        wrote_version: false,
                        wrote_release: false,
                    }
                } else {
                    st
                };
                apply_content(m, st1, line, p, ups, ov)
            },
        }
    }
}

/// What one patch pass returns: the output document, the revision values
/// that were replaced (in document order), and the diagnostics.
pub struct PatchOutcome {
    pub lines: Vec<String>,
    pub previous_revs: Vec<String>,
    pub warnings: Vec<Warning>,
}

/// Run the patcher over a whole document.
///
/// The output is exactly the fold of the one-line step function: same line
/// count as the input, every line either byte-identical to its source or a
/// substitution inside a matched section.
pub fn patch_lines(
    m: PatchMode,
    input: &Vec<String>,
    updates: &Vec<Update>,
    override_source: &Option<String>,
) -> (r: PatchOutcome)
    ensures
        ({
            let rv = run_patch(m, input.deep_view(), ups_view(updates@), opt_str_view(
                *override_source,
            ));
            &&& r.lines.deep_view() == rv.outs
            &&& r.previous_revs.deep_view() == rv.prev_revs
            &&& r.warnings.deep_view() == rv.warns
            &&& r.lines@.len() == input@.len()
        }),
{
    let ghost linesv = input.deep_view();
    let ghost upsv = ups_view(updates@);
    let ghost ovv = opt_str_view(*override_source);
    let mut st = TrackState {
        bound: None,
        prev_indent: String::new(),
        saw_value: false,
        wrote_revision: false,
        wrote_version: false,
        wrote_release: false,
    };
    proof {
        assert(st@ =~= initial_state());
    }
    let mut outs: Vec<String> = Vec::new();
    let mut prevs: Vec<String> = Vec::new();
    let mut warns: Vec<Warning> = Vec::new();
    let n = input.len();
    let mut i: usize = 0;
    while i < n
        invariant
            i <= n,
            n == input@.len(),
            linesv == input.deep_view(),
            upsv == ups_view(updates@),
            ovv == opt_str_view(*override_source),
            outs@.len() == i,
            st_wf(st@, upsv),
            run_patch(m, linesv, upsv, ovv).outs =~= outs.deep_view() + run_from(
                m,
                st@,
                linesv,
                i as int,
                upsv,
                ovv,
            ).outs,
            run_patch(m, linesv, upsv, ovv).prev_revs =~= prevs.deep_view() + run_from(
                m,
                st@,
                linesv,
                i as int,
                upsv,
                ovv,
            ).prev_revs,
            run_patch(m, linesv, upsv, ovv).warns =~= warns.deep_view() + run_from(
                m,
                st@,
                linesv,
                i as int,
                upsv,
                ovv,
            ).warns,
        decreases n - i,
    {
        proof {
            assert(linesv[i as int] == input@[i as int]@);
        }
        let line: &String = &input[i];
        let ghost old_outs = outs.deep_view();
        let ghost old_prevs = prevs.deep_view();
        let ghost old_warns = warns.deep_view();
        let ghost stv = st@;
        let (st2, out, prev, warn) = apply_step(m, st, line, updates, override_source);
        st = st2;
        let ghost stp = step_spec(m, stv, linesv[i as int], upsv, ovv);
        outs.push(out);
        match prev {
            Some(v) => prevs.push(v),
            None => (),
        }
        match warn {
            Some(k) => warns.push(Warning { line: i, kind: k }),
            None => (),
        }
        proof {
            assert(outs.deep_view() =~= old_outs.push(stp.out));
            assert(old_outs.push(stp.out) + run_from(m, st@, linesv, i + 1, upsv, ovv).outs
                =~= old_outs + run_from(m, stv, linesv, i as int, upsv, ovv).outs);
            match stp.prev_rev {
                Some(v) => {
                    assert(prevs.deep_view() =~= old_prevs.push(v));
                    assert(old_prevs.push(v) + run_from(m, st@, linesv, i + 1, upsv, ovv).prev_revs
                        =~= old_prevs + run_from(m, stv, linesv, i as int, upsv, ovv).prev_revs);
                },
                None => {
                    assert(prevs.deep_view() =~= old_prevs);
                    assert(old_prevs + run_from(m, st@, linesv, i + 1, upsv, ovv).prev_revs
                        =~= old_prevs + run_from(m, stv, linesv, i as int, upsv, ovv).prev_revs);
                },
            }
            match stp.warn {
                Some(k) => {
                    assert(warns.deep_view() =~= old_warns.push(WarnV { line: i as int, kind: k }));
                    assert(old_warns.push(WarnV { line: i as int, kind: k }) + run_from(
                        m,
                        st@,
                        linesv,
                        i + 1,
                        upsv,
                        ovv,
                    ).warns =~= old_warns + run_from(m, stv, linesv, i as int, upsv, ovv).warns);
                },
                None => {
                    assert(warns.deep_view() =~= old_warns);
                    assert(old_warns + run_from(m, st@, linesv, i + 1, upsv, ovv).warns
                        =~= old_warns + run_from(m, stv, linesv, i as int, upsv, ovv).warns);
                },
            }
        }
        i = i + 1;
    }
    proof {
        assert(run_from(m, st@, linesv, n as int, upsv, ovv).outs =~= Seq::<Seq<char>>::empty());
        assert(outs.deep_view() + Seq::<Seq<char>>::empty() =~= outs.deep_view());
        assert(prevs.deep_view() + Seq::<Seq<char>>::empty() =~= prevs.deep_view());
        assert(warns.deep_view() + Seq::<WarnV>::empty() =~= warns.deep_view());
    }
    PatchOutcome { lines: outs, previous_revs: prevs, warnings: warns }
}

/// Patch a YAML-like vendoring descriptor: for each requested dependency,
/// rewrite the `revision` and `release` lines of the section its `url` or
/// `name` line identifies, and return the revision values seen there.
pub fn update_moz_yaml(input: &Vec<String>, updates: &Vec<Update>) -> (r: PatchOutcome)
    ensures
        ({
            let rv = run_patch(PatchMode::Yaml, input.deep_view(), ups_view(updates@), None);
            &&& r.lines.deep_view() == rv.outs
            &&& r.previous_revs.deep_view() == rv.prev_revs
            &&& r.warnings.deep_view() == rv.warns
            &&& r.lines@.len() == input@.len()
        }),
{
    patch_lines(PatchMode::Yaml, input, updates, &None)
}

/// Patch a TOML-like dependency manifest line by line: bracketed
/// `dependencies.<name>` headers or identifying `git` / `package` lines
/// bind a section, whose `rev` / `version` lines are then substituted; with
/// an override source, a matched `git` line is redirected to it.
pub fn patch_toml_lines(
    input: &Vec<String>,
    updates: &Vec<Update>,
    override_source: &Option<String>,
) -> (r: PatchOutcome)
    ensures
        ({
            let rv = run_patch(PatchMode::Toml, input.deep_view(), ups_view(updates@),
                opt_str_view(*override_source));
            &&& r.lines.deep_view() == rv.outs
            &&& r.previous_revs.deep_view() == rv.prev_revs
            &&& r.warnings.deep_view() == rv.warns
            &&& r.lines@.len() == input@.len()
        }),
{
    patch_lines(PatchMode::Toml, input, updates, override_source)
}

} // verus!
